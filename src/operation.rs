//! Operations: one HTTP method on one path.

use vstd::prelude::*;
use crate::components::{
    as_result, kind_request_bodies, kind_schemas, request_bodies_of, resolution,
    resolve_request_body, resolve_schema, schemas_of, Components, ObjectOrReference,
};
use crate::error::{Error, ErrorView};
use crate::path::{
    duplicate_from, find_duplicate, header_templates, header_views, merge_parameters, merged,
    refs_view, resolve_all, resolve_parameters, Parameter,
};
use crate::request::{
    body_view, copy_headers, headers_view, join_url, BodyDescriptor, BodyView, HeaderView, Method,
    RequestTemplate, TemplateView,
};
use crate::external_doc::ExternalDoc;
use crate::ordered_map::OrderedMap;
use crate::server::Server;
use crate::spec::{Callback, RequestBody, Response};

verus! {

/// Describes a single API operation on a path.
#[derive(Debug, PartialEq, Default)]
pub struct Operation {
    pub tags: Option<Vec<String>>,
    pub summary: Option<String>,
    pub description: Option<String>,
    pub external_docs: Option<ExternalDoc>,
    /// Identifies the operation among all operations of the document.
    pub operation_id: Option<String>,
    /// Parameters of this operation; they override those of the path item that
    /// share their name and location.
    pub parameters: Option<Vec<ObjectOrReference<Parameter>>>,
    pub request_body: Option<ObjectOrReference<RequestBody>>,
    /// Responses by status code or `default`.
    pub responses: OrderedMap<Response>,
    pub callbacks: Option<OrderedMap<Callback>>,
    pub deprecated: Option<bool>,
    /// Servers that override those of the path item and of the document.
    pub servers: Option<Vec<Server>>,
}

/// The body that a request body declares: the first media type of its content
/// and that media type's schema, resolved; none where there is no request body
/// or no content.
pub open spec fn body_outcome(c: Option<&Components>, rb: Option<ObjectOrReference<RequestBody>>) -> Result<
    Option<BodyView>,
    ErrorView,
> {
    match rb {
        None => Ok(None),
        Some(r) => match as_result(resolution(request_bodies_of(c), kind_request_bodies(), r)) {
            Ok(body) => if body.content.entries@.len() == 0 {
                Ok(None)
            } else {
                let entry = body.content.entries@[0];
                match entry.1.schema {
                    None => Ok(Some((entry.0@, None))),
                    Some(sr) => match as_result(resolution(schemas_of(c), kind_schemas(), sr)) {
                        Ok(s) => Ok(Some((entry.0@, Some(s)))),
                        Err(e) => Err(e),
                    },
                }
            },
            Err(e) => Err(e),
        },
    }
}

/// The body of the requests of an operation whose request body is `rb`.
pub fn body_descriptor<'a>(c: Option<&'a Components>, rb: &'a Option<ObjectOrReference<RequestBody>>) -> (r:
    Result<Option<BodyDescriptor<'a>>, Error>)
    ensures
        match body_outcome(c, *rb) {
            Ok(b) => r matches Ok(d) && body_view(d) == b,
            Err(e) => r matches Err(x) && x@ == e,
        },
{
    let r = match rb {
        Some(r) => r,
        None => {
            return Ok(None);
        },
    };
    let body = resolve_request_body(c, r)?;
    if body.content.entries.len() == 0 {
        return Ok(None);
    }
    let entry = &body.content.entries[0];
    let schema = match &entry.1.schema {
        Some(sr) => Some(resolve_schema(c, sr)?),
        None => None,
    };
    Ok(Some(BodyDescriptor { media_type: entry.0.as_str(), schema }))
}

/// The servers of an operation or path item where it declares some, else those
/// that apply above it.
pub open spec fn effective_servers(own: Option<Vec<Server>>, parent: Seq<Server>) -> Seq<Server> {
    match own {
        Some(v) => if v@.len() > 0 {
            v@
        } else {
            parent
        },
        None => parent,
    }
}

/// The base URLs of a list of servers; the single base `/` for no server.
pub open spec fn server_bases(list: Seq<Server>) -> Seq<Seq<char>> {
    if list.len() > 0 {
        list.map_values(|s: Server| s.base_url_spec())
    } else {
        seq![seq!['/']]
    }
}

/// One template for each base URL, in order.
pub open spec fn templates_for(
    method: Method,
    path: Seq<char>,
    bases: Seq<Seq<char>>,
    headers: Seq<HeaderView>,
    body: Option<BodyView>,
) -> Seq<TemplateView> {
    Seq::new(
        bases.len(),
        |i: int| TemplateView { method, url: join_url(bases[i], path), headers, body },
    )
}

/// The templates of operation `op` with `method` at path template `path`, whose
/// path item lists `inherited` parameters and under which the servers `parent`
/// apply; or the first failure among its parameters, their uniqueness and its
/// body, in that order.
pub open spec fn operation_outcome(
    op: Operation,
    method: Method,
    path: Seq<char>,
    inherited: Seq<ObjectOrReference<Parameter>>,
    parent: Seq<Server>,
    c: Option<&Components>,
) -> Result<Seq<TemplateView>, ErrorView> {
    match resolve_all(c, inherited) {
        Err(e) => Err(e),
        Ok(pp) => match resolve_all(
            c,
            match op.parameters {
                Some(v) => v@,
                None => Seq::empty(),
            },
        ) {
            Err(e) => Err(e),
            Ok(own) => {
                let all = merged(pp, own);
                match duplicate_from(all, 0) {
                    Some(j) => Err(ErrorView::DuplicateParameter(all[j].name@, all[j].location@)),
                    None => match body_outcome(c, op.request_body) {
                        Err(e) => Err(e),
                        Ok(body) => Ok(
                            templates_for(
                                method,
                                path,
                                server_bases(effective_servers(op.servers, parent)),
                                header_views(all),
                                body,
                            ),
                        ),
                    },
                }
            },
        },
    }
}

/// The views of some templates.
pub open spec fn templates_view<'a>(v: Seq<RequestTemplate<'a>>) -> Seq<TemplateView> {
    v.map_values(|t: RequestTemplate<'a>| t@)
}

/// The parameters of an optional list.
pub open spec fn listed(l: Option<&Vec<ObjectOrReference<Parameter>>>) -> Seq<ObjectOrReference<Parameter>> {
    match l {
        Some(v) => v@,
        None => Seq::empty(),
    }
}

fn resolve_listed<'a>(c: Option<&'a Components>, l: Option<&'a Vec<ObjectOrReference<Parameter>>>) -> (r:
    Result<Vec<&'a Parameter>, Error>)
    ensures
        match resolve_all(c, listed(l)) {
            Ok(ps) => r matches Ok(v) && refs_view(v@) == ps,
            Err(e) => r matches Err(x) && x@ == e,
        },
{
    match l {
        Some(v) => resolve_parameters(c, v),
        None => {
            let out: Vec<&'a Parameter> = Vec::new();
            assert(refs_view(out@) =~= Seq::<Parameter>::empty());
            Ok(out)
        },
    }
}

impl Operation {
    /// The templates of this operation with `method` at path template `path`:
    /// one for each server that applies, in order; or the failure that skips it.
    pub fn to_client_request<'a>(
        &'a self,
        method: Method,
        path: &str,
        inherited: Option<&'a Vec<ObjectOrReference<Parameter>>>,
        servers: &Vec<Server>,
        components: Option<&'a Components>,
    ) -> (r: Result<Vec<RequestTemplate<'a>>, Error>)
        ensures
            match operation_outcome(*self, method, path@, listed(inherited), servers@, components) {
                Ok(ts) => r matches Ok(v) && templates_view(v@) == ts,
                Err(e) => r matches Err(x) && x@ == e,
            },
    {
        let own_list = match &self.parameters {
            Some(v) => Some(v),
            None => None,
        };
        let pp = resolve_listed(components, inherited)?;
        let own = resolve_listed(components, own_list)?;
        let all = merge_parameters(&pp, &own);
        match find_duplicate(&all) {
            Some(j) => {
                let p = all[j];
                return Err(Error::DuplicateParameter(p.name.clone(), p.location.clone()));
            },
            None => {},
        }
        let body = body_descriptor(components, &self.request_body)?;
        let headers = header_templates(&all);
        let ghost hv = headers_view(headers@);
        let ghost bv = body_view(body);
        let list: &Vec<Server> = match &self.servers {
            Some(v) => if v.len() > 0 {
                v
            } else {
                servers
            },
            None => servers,
        };
        let ghost bases = server_bases(effective_servers(self.servers, servers@));
        let ghost expected = templates_for(method, path@, bases, hv, bv);
        let mut out: Vec<RequestTemplate<'a>> = Vec::new();
        if list.len() == 0 {
            let root = "/";
            proof {
                reveal_strlit("/");
            }
            assert(root@ =~= seq!['/']);
            out.push(RequestTemplate::for_base(method, root, path, headers, body));
            assert(templates_view(out@) =~= expected);
        } else {
            let mut i: usize = 0;
            while i < list.len()
                invariant
                    i <= list@.len(),
                    list@.len() > 0,
                    list@ == effective_servers(self.servers, servers@),
                    bases == server_bases(list@),
                    expected == templates_for(method, path@, bases, hv, bv),
                    headers_view(headers@) == hv,
                    body_view(body) == bv,
                    templates_view(out@) == expected.subrange(0, i as int),
                decreases list@.len() - i,
            {
                let t = list[i].to_client_request(method, path, copy_headers(&headers), body);
                assert(bases[i as int] == list@[i as int].base_url_spec());
                assert(t@ == expected[i as int]);
                let ghost before = out@;
                out.push(t);
                assert(templates_view(out@) =~= templates_view(before).push(t@));
                i = i + 1;
                assert(templates_view(out@) =~= expected.subrange(0, i as int));
            }
            assert(expected.subrange(0, i as int) =~= expected);
        }
        Ok(out)
    }
}

} // verus!
