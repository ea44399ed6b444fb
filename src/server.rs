//! Servers and the variables of their URL templates.

use vstd::prelude::*;
use crate::ordered_map::{find_from, OrderedMap};
use crate::request::{
    body_view, headers_view, join_url, BodyDescriptor, HeaderTemplate, Method, RequestTemplate,
    TemplateView,
};
use crate::text::{find_char, index_of};

verus! {

/// A server: a URL template whose `{name}` placeholders are filled from `variables`.
#[derive(Debug, PartialEq, Default)]
pub struct Server {
    /// A URL to the target host, possibly with `{variable}` placeholders.
    pub url: String,
    /// An optional description of the host.
    pub description: Option<String>,
    /// The variables substituted into `url`, by name.
    pub variables: Option<OrderedMap<ServerVariable>>,
}

/// A variable of a server URL template.
#[derive(Debug, PartialEq, Default)]
pub struct ServerVariable {
    /// The value substituted when no other is supplied.
    pub default: String,
    /// The values allowed for the substitution, if limited.
    pub substitutions_enum: Option<Vec<String>>,
    /// An optional description.
    pub description: Option<String>,
}

/// The variables of a server, in order.
pub open spec fn variable_entries(vars: Option<OrderedMap<ServerVariable>>) -> Seq<(String, ServerVariable)> {
    match vars {
        Some(m) => m.entries@,
        None => Seq::empty(),
    }
}

/// `s` from index `i` on, with each `{name}` whose name is a variable replaced
/// by that variable's default. Other braces stay as they are.
pub open spec fn substitute_from(s: Seq<char>, vars: Seq<(String, ServerVariable)>, i: int) -> Seq<
    char,
>
    decreases s.len() - i,
{
    if i < 0 || i >= s.len() {
        Seq::empty()
    } else if s[i] == '{' {
        match index_of(s, '}', i + 1) {
            Some(j) => if i < j < s.len() {
                match find_from(vars, s.subrange(i + 1, j), 0) {
                    Some(k) => vars[k].1.default@ + substitute_from(s, vars, j + 1),
                    None => seq!['{'] + substitute_from(s, vars, i + 1),
                }
            } else {
                seq!['{'] + substitute_from(s, vars, i + 1)
            },
            None => seq!['{'] + substitute_from(s, vars, i + 1),
        }
    } else {
        seq![s[i]] + substitute_from(s, vars, i + 1)
    }
}

impl Server {
    /// The server's URL with its variables replaced by their defaults.
    pub open spec fn base_url_spec(&self) -> Seq<char> {
        substitute_from(self.url@, variable_entries(self.variables), 0)
    }

    /// The server's URL with each `{name}` placeholder of a declared variable
    /// replaced by the variable's default; unknown placeholders stay.
    pub fn base_url(&self) -> (r: String)
        ensures
            r@ == self.base_url_spec(),
    {
        let s = self.url.as_str();
        let ghost vars = variable_entries(self.variables);
        let n = s.unicode_len();
        let mut out = String::new();
        let mut i: usize = 0;
        while i < n
            invariant
                n == s@.len(),
                s@ == self.url@,
                vars == variable_entries(self.variables),
                i <= n,
                out@ + substitute_from(s@, vars, i as int) == substitute_from(s@, vars, 0),
            decreases n - i,
        {
            let ghost before = out@;
            let c = s.get_char(i);
            let mut next: usize = i + 1;
            if c == '{' {
                let mut replaced = false;
                match find_char(s, '}', i + 1) {
                    Some(j) => {
                        let name = s.substring_char(i + 1, j);
                        let found = match &self.variables {
                            Some(m) => m.get(name),
                            None => None,
                        };
                        match found {
                            Some(v) => {
                                out.append(v.default.as_str());
                                next = j + 1;
                                replaced = true;
                            },
                            None => {},
                        }
                    },
                    None => {},
                }
                if !replaced {
                    out.append(s.substring_char(i, i + 1));
                }
            } else {
                out.append(s.substring_char(i, i + 1));
            }
            proof {
                let piece = out@.subrange(before.len() as int, out@.len() as int);
                assert(out@ == before + piece);
                assert(piece + substitute_from(s@, vars, next as int) == substitute_from(s@, vars, i as int));
                assert((before + piece) + substitute_from(s@, vars, next as int) =~= before + (piece + substitute_from(s@, vars, next as int)));
            }
            i = next;
        }
        assert(substitute_from(s@, vars, n as int) == Seq::<char>::empty());
        assert(out@ =~= out@ + substitute_from(s@, vars, n as int));
        out
    }

    /// The template of a request with `method` to this server for the path
    /// template `path`.
    pub fn to_client_request<'a>(
        &self,
        method: Method,
        path: &str,
        headers: Vec<HeaderTemplate<'a>>,
        body: Option<BodyDescriptor<'a>>,
    ) -> (r: RequestTemplate<'a>)
        ensures
            r@ == (TemplateView {
                method,
                url: join_url(self.base_url_spec(), path@),
                headers: headers_view(headers@),
                body: body_view(body),
            }),
    {
        let base = self.base_url();
        RequestTemplate::for_base(method, base.as_str(), path, headers, body)
    }
}

} // verus!
