//! Path items and their parameters.

use vstd::prelude::*;
use crate::components::{
    as_result, kind_parameters, parameters_of, resolution, resolve_parameter, Components,
    ObjectOrReference,
};
use crate::error::{Error, ErrorView};
use crate::json::scalar_text;
use crate::request::{headers_view, HeaderTemplate, HeaderView};
use crate::operation::Operation;
use crate::server::Server;
use crate::spec::Schema;
use crate::text::text_eq;

verus! {

/// How a parameter value is serialised.
#[derive(Clone, Copy, Debug, PartialEq, Eq)]
pub enum ParameterStyle {
    Form,
    Simple,
}

/// A single operation parameter, identified by its name and location.
#[derive(Debug, PartialEq, Default)]
pub struct Parameter {
    /// The name of the parameter.
    pub name: String,
    /// Where it goes: `path`, `query`, `header` or `cookie`.
    pub location: String,
    pub required: Option<bool>,
    pub schema: Option<Schema>,
    pub unique_items: Option<bool>,
    pub param_type: Option<String>,
    pub format: Option<String>,
    pub description: Option<String>,
    pub style: Option<ParameterStyle>,
}

/// The operations available on a single path.
#[derive(Debug, PartialEq, Default)]
pub struct PathItem {
    /// An external definition of this path item (not resolved).
    pub reference: Option<String>,
    pub summary: Option<String>,
    pub description: Option<String>,
    pub get: Option<Operation>,
    pub put: Option<Operation>,
    pub post: Option<Operation>,
    pub delete: Option<Operation>,
    pub options: Option<Operation>,
    pub head: Option<Operation>,
    pub patch: Option<Operation>,
    pub trace: Option<Operation>,
    /// Servers that override those of the document for every operation here.
    pub servers: Option<Vec<Server>>,
    /// Parameters shared by every operation here.
    pub parameters: Option<Vec<ObjectOrReference<Parameter>>>,
}

/// The parameters listed, in order; none where the list is absent.
pub open spec fn parameter_list(l: Option<Vec<ObjectOrReference<Parameter>>>) -> Seq<
    ObjectOrReference<Parameter>,
> {
    match l {
        Some(v) => v@,
        None => Seq::empty(),
    }
}

/// Each parameter of `list` resolved, or the first failure.
pub open spec fn resolve_all(c: Option<&Components>, list: Seq<ObjectOrReference<Parameter>>) -> Result<
    Seq<Parameter>,
    ErrorView,
>
    decreases list.len(),
{
    if list.len() == 0 {
        Ok(Seq::empty())
    } else {
        match as_result(resolution(parameters_of(c), kind_parameters(), list[0])) {
            Ok(p) => match resolve_all(c, list.drop_first()) {
                Ok(rest) => Ok(seq![p] + rest),
                Err(e) => Err(e),
            },
            Err(e) => Err(e),
        }
    }
}

/// The parameters that some references point at.
pub open spec fn refs_view<'a>(v: Seq<&'a Parameter>) -> Seq<Parameter> {
    v.map_values(|p: &'a Parameter| *p)
}

/// Resolves each parameter of `list` against the components.
pub fn resolve_parameters<'a>(
    c: Option<&'a Components>,
    list: &'a Vec<ObjectOrReference<Parameter>>,
) -> (r: Result<Vec<&'a Parameter>, Error>)
    ensures
        match resolve_all(c, list@) {
            Ok(ps) => r matches Ok(v) && refs_view(v@) == ps,
            Err(e) => r matches Err(x) && x@ == e,
        },
{
    let mut out: Vec<&'a Parameter> = Vec::new();
    let mut i: usize = 0;
    let n = list.len();
    assert(list@.subrange(0, n as int) =~= list@);
    proof {
        match resolve_all(c, list@) {
            Ok(rest) => assert(refs_view(out@) + rest =~= rest),
            Err(_) => {},
        }
    }
    while i < n
        invariant
            n == list@.len(),
            i <= n,
            resolve_all(c, list@) == match resolve_all(c, list@.subrange(i as int, n as int)) {
                Ok(rest) => Ok(refs_view(out@) + rest),
                Err(e) => Err(e),
            },
        decreases n - i,
    {
        let ghost suffix = list@.subrange(i as int, n as int);
        assert(suffix[0] == list@[i as int]);
        assert(suffix.drop_first() =~= list@.subrange(i + 1, n as int));
        match resolve_parameter(c, &list[i]) {
            Ok(p) => {
                let ghost before = out@;
                out.push(p);
                assert(refs_view(out@) =~= refs_view(before) + seq![*p]);
                proof {
                    match resolve_all(c, list@.subrange(i + 1, n as int)) {
                        Ok(rest) => {
                            assert(refs_view(out@) + rest =~= refs_view(before) + (seq![*p] + rest));
                        },
                        Err(_) => {},
                    }
                }
            },
            Err(e) => {
                return Err(e);
            },
        }
        i = i + 1;
    }
    assert(list@.subrange(n as int, n as int) =~= Seq::<ObjectOrReference<Parameter>>::empty());
    assert(refs_view(out@) + Seq::<Parameter>::empty() =~= refs_view(out@));
    Ok(out)
}

/// Two parameters share their name and location.
pub open spec fn same_key(a: Parameter, b: Parameter) -> bool {
    a.name@ == b.name@ && a.location@ == b.location@
}

/// Some parameter of `ops` shares the name and location of `p`.
pub open spec fn overridden(p: Parameter, ops: Seq<Parameter>) -> bool {
    exists|i: int| 0 <= i < ops.len() && same_key(#[trigger] ops[i], p)
}

/// The parameters of `path` that no parameter of `ops` overrides, in order.
pub open spec fn kept(path: Seq<Parameter>, ops: Seq<Parameter>) -> Seq<Parameter>
    decreases path.len(),
{
    if path.len() == 0 {
        Seq::empty()
    } else if overridden(path[0], ops) {
        kept(path.drop_first(), ops)
    } else {
        seq![path[0]] + kept(path.drop_first(), ops)
    }
}

/// The effective parameters of an operation: those of its path item that it
/// does not override, then its own.
pub open spec fn merged(path: Seq<Parameter>, ops: Seq<Parameter>) -> Seq<Parameter> {
    kept(path, ops) + ops
}

fn same_parameter_key(a: &Parameter, b: &Parameter) -> (r: bool)
    ensures
        r == same_key(*a, *b),
{
    text_eq(a.name.as_str(), b.name.as_str()) && text_eq(
        a.location.as_str(),
        b.location.as_str(),
    )
}

fn is_overridden(p: &Parameter, ops: &Vec<&Parameter>) -> (r: bool)
    ensures
        r == overridden(*p, refs_view(ops@)),
{
    let mut i: usize = 0;
    while i < ops.len()
        invariant
            i <= ops@.len(),
            forall|j: int| 0 <= j < i ==> !same_key(#[trigger] refs_view(ops@)[j], *p),
        decreases ops@.len() - i,
    {
        if same_parameter_key(ops[i], p) {
            assert(same_key(refs_view(ops@)[i as int], *p));
            return true;
        }
        i = i + 1;
    }
    false
}

/// Overlays the parameters of an operation on those of its path item.
pub fn merge_parameters<'a>(path: &Vec<&'a Parameter>, ops: &Vec<&'a Parameter>) -> (r: Vec<&'a Parameter>)
    ensures
        refs_view(r@) == merged(refs_view(path@), refs_view(ops@)),
{
    let ghost o = refs_view(ops@);
    let mut out: Vec<&'a Parameter> = Vec::new();
    let mut i: usize = 0;
    let n = path.len();
    assert(path@.subrange(0, n as int) =~= path@);
    assert(refs_view(out@) + kept(refs_view(path@), o) =~= kept(refs_view(path@), o));
    while i < n
        invariant
            n == path@.len(),
            i <= n,
            o == refs_view(ops@),
            kept(refs_view(path@), o) == refs_view(out@) + kept(refs_view(path@.subrange(i as int, n as int)), o),
        decreases n - i,
    {
        let ghost suffix = refs_view(path@.subrange(i as int, n as int));
        assert(suffix[0] == *path@[i as int]);
        assert(suffix.drop_first() =~= refs_view(path@.subrange(i + 1, n as int)));
        let ghost before = out@;
        let ghost rest = kept(refs_view(path@.subrange(i + 1, n as int)), o);
        if !is_overridden(path[i], ops) {
            out.push(path[i]);
            assert(refs_view(out@) =~= refs_view(before) + seq![*path@[i as int]]);
            assert(refs_view(before) + (seq![*path@[i as int]] + rest) =~= refs_view(out@) + rest);
        }
        i = i + 1;
    }
    assert(refs_view(path@.subrange(n as int, n as int)) =~= Seq::<Parameter>::empty());
    assert(refs_view(out@) + Seq::<Parameter>::empty() =~= refs_view(out@));
    let ghost kept_part = out@;
    let mut j: usize = 0;
    while j < ops.len()
        invariant
            j <= ops@.len(),
            o == refs_view(ops@),
            refs_view(kept_part) == kept(refs_view(path@), o),
            out@ == kept_part + ops@.subrange(0, j as int),
        decreases ops@.len() - j,
    {
        out.push(ops[j]);
        j = j + 1;
        assert(out@ =~= kept_part + ops@.subrange(0, j as int));
    }
    assert(out@ =~= kept_part + ops@);
    assert(refs_view(out@) =~= refs_view(kept_part) + refs_view(ops@));
    out
}

/// The first index from `j` on of a parameter that shares its name and
/// location with an earlier one.
pub open spec fn duplicate_from(ps: Seq<Parameter>, j: int) -> Option<int>
    decreases ps.len() - j,
{
    if j < 0 || j >= ps.len() {
        None
    } else if exists|i: int| 0 <= i < j && #[trigger] same_key(ps[i], ps[j]) {
        Some(j)
    } else {
        duplicate_from(ps, j + 1)
    }
}

/// The index of the first parameter that repeats the name and location of an
/// earlier one.
pub fn find_duplicate(ps: &Vec<&Parameter>) -> (r: Option<usize>)
    ensures
        r matches Some(j) ==> j < ps@.len() && duplicate_from(refs_view(ps@), 0) == Some(j as int),
        r is None ==> duplicate_from(refs_view(ps@), 0) is None,
{
    let ghost v = refs_view(ps@);
    let mut j: usize = 0;
    while j < ps.len()
        invariant
            j <= ps@.len(),
            v == refs_view(ps@),
            duplicate_from(v, 0) == duplicate_from(v, j as int),
        decreases ps@.len() - j,
    {
        let mut i: usize = 0;
        while i < j
            invariant
                i <= j < ps@.len(),
                v == refs_view(ps@),
                duplicate_from(v, 0) == duplicate_from(v, j as int),
                forall|k: int| 0 <= k < i ==> !same_key(#[trigger] v[k], v[j as int]),
            decreases j - i,
        {
            if same_parameter_key(ps[i], ps[j]) {
                assert(same_key(v[i as int], v[j as int]));
                assert(exists|k: int| 0 <= k < j && #[trigger] same_key(v[k], v[j as int]));
                assert(duplicate_from(v, j as int) == Some(j as int));
                return Some(j);
            }
            i = i + 1;
        }
        assert(!exists|k: int| 0 <= k < j && #[trigger] same_key(v[k], v[j as int]));
        j = j + 1;
    }
    None
}

/// `header`
pub open spec fn header_location() -> Seq<char> {
    seq!['h', 'e', 'a', 'd', 'e', 'r']
}

/// The text of the default value of a schema, where it is a scalar.
pub open spec fn default_text(schema: Option<Schema>) -> Option<Seq<char>> {
    match schema {
        Some(s) => match s.default {
            Some(v) => scalar_text(v),
            None => None,
        },
        None => None,
    }
}

/// The header that a parameter in the header declares.
pub open spec fn header_of(p: Parameter) -> HeaderView {
    (p.name@, p.required == Some(true), default_text(p.schema))
}

/// The headers that the parameters located in the header declare, in order.
pub open spec fn header_views(ps: Seq<Parameter>) -> Seq<HeaderView>
    decreases ps.len(),
{
    if ps.len() == 0 {
        Seq::empty()
    } else if ps[0].location@ == header_location() {
        seq![header_of(ps[0])] + header_views(ps.drop_first())
    } else {
        header_views(ps.drop_first())
    }
}

/// The header templates of the parameters located in the header.
pub fn header_templates<'a>(ps: &Vec<&'a Parameter>) -> (r: Vec<HeaderTemplate<'a>>)
    ensures
        headers_view(r@) == header_views(refs_view(ps@)),
{
    let header = "header";
    proof {
        reveal_strlit("header");
    }
    assert(header@ =~= header_location());
    let mut out: Vec<HeaderTemplate<'a>> = Vec::new();
    let mut i: usize = 0;
    let n = ps.len();
    assert(ps@.subrange(0, n as int) =~= ps@);
    assert(headers_view(out@) + header_views(refs_view(ps@)) =~= header_views(refs_view(ps@)));
    while i < n
        invariant
            n == ps@.len(),
            i <= n,
            header@ == header_location(),
            header_views(refs_view(ps@)) == headers_view(out@) + header_views(
                refs_view(ps@.subrange(i as int, n as int)),
            ),
        decreases n - i,
    {
        let ghost suffix = refs_view(ps@.subrange(i as int, n as int));
        assert(suffix[0] == *ps@[i as int]);
        assert(suffix.drop_first() =~= refs_view(ps@.subrange(i + 1, n as int)));
        let ghost rest = header_views(refs_view(ps@.subrange(i + 1, n as int)));
        let ghost before = out@;
        let p: &'a Parameter = ps[i];
        if text_eq(p.location.as_str(), header) {
            let default = match &p.schema {
                Some(s) => match &s.default {
                    Some(v) => v.as_scalar_text(),
                    None => None,
                },
                None => None,
            };
            let required = match p.required {
                Some(b) => b,
                None => false,
            };
            let h = HeaderTemplate { name: p.name.as_str(), required, default };
            out.push(h);
            assert(h@ == header_of(*p));
            assert(headers_view(out@) =~= headers_view(before) + seq![h@]);
            assert(headers_view(before) + (seq![h@] + rest) =~= headers_view(out@) + rest);
        }
        i = i + 1;
    }
    assert(refs_view(ps@.subrange(n as int, n as int)) =~= Seq::<Parameter>::empty());
    assert(headers_view(out@) + Seq::<HeaderView>::empty() =~= headers_view(out@));
    out
}

} // verus!
