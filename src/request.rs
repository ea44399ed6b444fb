//! Request templates: what synthesis hands to a transport.

use vstd::prelude::*;
use crate::spec::Schema;

verus! {

/// The HTTP methods that a path item can declare, in the order they are visited.
#[derive(Clone, Copy, Debug, PartialEq, Eq, Structural)]
pub enum Method {
    Get,
    Put,
    Post,
    Delete,
    Options,
    Head,
    Patch,
    Trace,
}

/// The name of a method as HTTP writes it.
pub open spec fn method_name(m: Method) -> Seq<char> {
    match m {
        Method::Get => seq!['G', 'E', 'T'],
        Method::Put => seq!['P', 'U', 'T'],
        Method::Post => seq!['P', 'O', 'S', 'T'],
        Method::Delete => seq!['D', 'E', 'L', 'E', 'T', 'E'],
        Method::Options => seq!['O', 'P', 'T', 'I', 'O', 'N', 'S'],
        Method::Head => seq!['H', 'E', 'A', 'D'],
        Method::Patch => seq!['P', 'A', 'T', 'C', 'H'],
        Method::Trace => seq!['T', 'R', 'A', 'C', 'E'],
    }
}

impl Method {
    /// The method's name as HTTP writes it.
    pub fn as_str(&self) -> (r: &'static str)
        ensures
            r@ == method_name(*self),
    {
        proof {
            reveal_strlit("GET");
            reveal_strlit("PUT");
            reveal_strlit("POST");
            reveal_strlit("DELETE");
            reveal_strlit("OPTIONS");
            reveal_strlit("HEAD");
            reveal_strlit("PATCH");
            reveal_strlit("TRACE");
        }
        let r = match self {
            Method::Get => "GET",
            Method::Put => "PUT",
            Method::Post => "POST",
            Method::Delete => "DELETE",
            Method::Options => "OPTIONS",
            Method::Head => "HEAD",
            Method::Patch => "PATCH",
            Method::Trace => "TRACE",
        };
        assert(r@ =~= method_name(*self));
        r
    }
}

/// A header that a request declares: its name, whether it is required, and the
/// text of its default, borrowed from the document.
#[derive(Clone, Copy, Debug, PartialEq)]
pub struct HeaderTemplate<'a> {
    pub name: &'a str,
    pub required: bool,
    pub default: Option<&'a str>,
}

/// A header as character sequences: name, required, default.
pub type HeaderView = (Seq<char>, bool, Option<Seq<char>>);

impl<'a> View for HeaderTemplate<'a> {
    type V = HeaderView;

    open spec fn view(&self) -> HeaderView {
        (
            self.name@,
            self.required,
            match self.default {
                Some(d) => Some(d@),
                None => None,
            },
        )
    }
}

/// The body of a request: its media type and the schema of its content, both
/// borrowed from the document.
#[derive(Clone, Copy, Debug, PartialEq)]
pub struct BodyDescriptor<'a> {
    pub media_type: &'a str,
    pub schema: Option<&'a Schema>,
}

/// A body as a media type and the schema value.
pub type BodyView = (Seq<char>, Option<Schema>);

impl<'a> View for BodyDescriptor<'a> {
    type V = BodyView;

    open spec fn view(&self) -> BodyView {
        (
            self.media_type@,
            match self.schema {
                Some(s) => Some(*s),
                None => None,
            },
        )
    }
}

/// The views of some headers.
pub open spec fn headers_view<'a>(h: Seq<HeaderTemplate<'a>>) -> Seq<HeaderView> {
    h.map_values(|t: HeaderTemplate<'a>| t@)
}

/// The view of an optional body.
pub open spec fn body_view<'a>(b: Option<BodyDescriptor<'a>>) -> Option<BodyView> {
    match b {
        Some(d) => Some(d@),
        None => None,
    }
}

/// A concrete request: method, full URL, declared headers and body.
#[derive(Debug, PartialEq)]
pub struct RequestTemplate<'a> {
    pub method: Method,
    pub url: String,
    pub headers: Vec<HeaderTemplate<'a>>,
    pub body: Option<BodyDescriptor<'a>>,
}

/// A request template as values.
pub struct TemplateView {
    pub method: Method,
    pub url: Seq<char>,
    pub headers: Seq<HeaderView>,
    pub body: Option<BodyView>,
}

impl<'a> View for RequestTemplate<'a> {
    type V = TemplateView;

    open spec fn view(&self) -> TemplateView {
        TemplateView {
            method: self.method,
            url: self.url@,
            headers: headers_view(self.headers@),
            body: body_view(self.body),
        }
    }
}

/// `base` followed by `path`, with one slash where the first ends in one and
/// the second begins with one.
pub open spec fn join_url(base: Seq<char>, path: Seq<char>) -> Seq<char> {
    if base.len() > 0 && base.last() == '/' && path.len() > 0 && path[0] == '/' {
        base.drop_last() + path
    } else {
        base + path
    }
}

/// The URL of a request to `base` for the path template `path`.
pub fn join_url_exec(base: &str, path: &str) -> (r: String)
    ensures
        r@ == join_url(base@, path@),
{
    let n = base.unicode_len();
    let m = path.unicode_len();
    if n > 0 && base.get_char(n - 1) == '/' && m > 0 && path.get_char(0) == '/' {
        let mut r = String::from_str(base.substring_char(0, n - 1));
        r.append(path);
        assert(base@.subrange(0, n - 1) =~= base@.drop_last());
        r
    } else {
        let mut r = String::from_str(base);
        r.append(path);
        r
    }
}

impl<'a> RequestTemplate<'a> {
    /// The template of a request with `method` to `base` for the path template `path`.
    pub fn for_base(
        method: Method,
        base: &str,
        path: &str,
        headers: Vec<HeaderTemplate<'a>>,
        body: Option<BodyDescriptor<'a>>,
    ) -> (r: RequestTemplate<'a>)
        ensures
            r.method == method,
            r.url@ == join_url(base@, path@),
            r.headers@ == headers@,
            r.body == body,
    {
        RequestTemplate { method, url: join_url_exec(base, path), headers, body }
    }
}

/// A copy of some headers.
pub fn copy_headers<'a>(h: &Vec<HeaderTemplate<'a>>) -> (r: Vec<HeaderTemplate<'a>>)
    ensures
        r@ == h@,
{
    let mut r: Vec<HeaderTemplate<'a>> = Vec::new();
    let mut i: usize = 0;
    while i < h.len()
        invariant
            i <= h@.len(),
            r@ == h@.subrange(0, i as int),
        decreases h@.len() - i,
    {
        r.push(h[i]);
        i = i + 1;
        assert(r@ =~= h@.subrange(0, i as int));
    }
    assert(r@ =~= h@);
    r
}

} // verus!
