//! Named components and the references that point at them.

use vstd::prelude::*;
use crate::error::{strings_view, Error, ErrorView};
use crate::ordered_map::{find_from, OrderedMap};
use crate::text::strip_prefix_chars;
use crate::path::Parameter;
use crate::spec::{Callback, Example, Header, Link, RequestBody, Response, Schema, SecurityScheme};

verus! {

/// An object that is either written in place or named by a pointer of the form
/// `#/components/<kind>/<name>`.
#[derive(Debug, PartialEq)]
pub enum ObjectOrReference<T> {
    Inline(T),
    Reference { pointer: String },
}

/// Holds reusable objects, each kind keyed by name.
#[derive(Debug, PartialEq, Default)]
pub struct Components {
    pub schemas: Option<OrderedMap<ObjectOrReference<Schema>>>,
    pub responses: Option<OrderedMap<ObjectOrReference<Response>>>,
    pub parameters: Option<OrderedMap<ObjectOrReference<Parameter>>>,
    pub examples: Option<OrderedMap<ObjectOrReference<Example>>>,
    pub request_bodies: Option<OrderedMap<ObjectOrReference<RequestBody>>>,
    pub headers: Option<OrderedMap<ObjectOrReference<Header>>>,
    pub security_schemes: Option<OrderedMap<ObjectOrReference<SecurityScheme>>>,
    pub links: Option<OrderedMap<ObjectOrReference<Link>>>,
    pub callbacks: Option<OrderedMap<ObjectOrReference<Callback>>>,
}

/// `#/components/`
pub open spec fn components_prefix() -> Seq<char> {
    seq!['#', '/', 'c', 'o', 'm', 'p', 'o', 'n', 'e', 'n', 't', 's', '/']
}

/// `#/components/<kind>/`
pub open spec fn pointer_prefix(kind: Seq<char>) -> Seq<char> {
    components_prefix() + kind + seq!['/']
}

/// The name that `pointer` gives to a component of `kind`, if it points at that kind.
pub open spec fn pointer_name(kind: Seq<char>, pointer: Seq<char>) -> Option<Seq<char>> {
    let p = pointer_prefix(kind);
    if p.len() <= pointer.len() && pointer.subrange(0, p.len() as int) == p {
        Some(pointer.subrange(p.len() as int, pointer.len() as int))
    } else {
        None
    }
}

/// The entry that `pointer` names among the components of `kind`.
pub open spec fn target<T>(
    entries: Seq<(String, ObjectOrReference<T>)>,
    kind: Seq<char>,
    pointer: Seq<char>,
) -> Option<ObjectOrReference<T>> {
    match pointer_name(kind, pointer) {
        Some(name) => match find_from(entries, name, 0) {
            Some(i) => Some(entries[i].1),
            None => None,
        },
        None => None,
    }
}

/// The outcome of resolving a reference.
pub enum Resolution<T> {
    Found(T),
    Unresolved(Seq<char>),
    Cyclic(Seq<Seq<char>>),
}

/// Follows `pointer` through the components; `chain` holds the pointers followed so
/// far, and at most `fuel` further pointers are followed.
pub open spec fn follow<T>(
    entries: Seq<(String, ObjectOrReference<T>)>,
    kind: Seq<char>,
    pointer: Seq<char>,
    chain: Seq<Seq<char>>,
    fuel: nat,
) -> Resolution<T>
    decreases fuel,
{
    match target(entries, kind, pointer) {
        None => Resolution::Unresolved(pointer),
        Some(ObjectOrReference::Inline(x)) => Resolution::Found(x),
        Some(ObjectOrReference::Reference { pointer: next }) => {
            if fuel == 0 {
                Resolution::Cyclic(chain.push(next@))
            } else {
                follow(entries, kind, next@, chain.push(next@), (fuel - 1) as nat)
            }
        },
    }
}

/// The entries of a map of components that may be absent.
pub open spec fn entries_of<T>(map: Option<&OrderedMap<ObjectOrReference<T>>>) -> Seq<
    (String, ObjectOrReference<T>),
> {
    match map {
        Some(m) => m.entries@,
        None => Seq::empty(),
    }
}

/// What resolving `r` against the components of `kind` in `map` gives. A chain
/// of references that has not reached an object after as many further steps
/// as there are components has met one of them twice, and so is a cycle.
pub open spec fn resolution<T>(
    map: Option<&OrderedMap<ObjectOrReference<T>>>,
    kind: Seq<char>,
    r: ObjectOrReference<T>,
) -> Resolution<T> {
    match r {
        ObjectOrReference::Inline(x) => Resolution::Found(x),
        ObjectOrReference::Reference { pointer } => follow(
            entries_of(map),
            kind,
            pointer@,
            seq![pointer@],
            entries_of(map).len(),
        ),
    }
}

/// A resolution as a result: the object found, or the error that reports the
/// failure.
pub open spec fn as_result<T>(r: Resolution<T>) -> Result<T, ErrorView> {
    match r {
        Resolution::Found(x) => Ok(x),
        Resolution::Unresolved(p) => Err(ErrorView::UnresolvedReference(p)),
        Resolution::Cyclic(c) => Err(ErrorView::CyclicReference(c)),
    }
}

/// `res` is what `resolution` describes.
pub open spec fn resolved_as<T>(res: Result<&T, Error>, expected: Resolution<T>) -> bool {
    match as_result(expected) {
        Ok(x) => res matches Ok(v) && *v == x,
        Err(e) => res matches Err(x) && x@ == e,
    }
}

/// The component that `pointer` names, `prefix` being that of `kind`.
fn target_entry<'a, T>(
    map: Option<&'a OrderedMap<ObjectOrReference<T>>>,
    prefix: &str,
    pointer: &str,
    kind: Ghost<Seq<char>>,
) -> (r: Option<&'a ObjectOrReference<T>>)
    requires
        prefix@ == pointer_prefix(kind@),
    ensures
        r matches Some(e) ==> target(entries_of(map), kind@, pointer@) == Some(*e),
        r is None ==> target(entries_of(map), kind@, pointer@) is None,
{
    let m = match map {
        Some(m) => m,
        None => {
            return None;
        },
    };
    match strip_prefix_chars(pointer, prefix) {
        Some(name) => m.get(name),
        None => None,
    }
}

/// `parameters`
pub open spec fn kind_parameters() -> Seq<char> {
    seq!['p', 'a', 'r', 'a', 'm', 'e', 't', 'e', 'r', 's']
}

/// `requestBodies`
pub open spec fn kind_request_bodies() -> Seq<char> {
    seq!['r', 'e', 'q', 'u', 'e', 's', 't', 'B', 'o', 'd', 'i', 'e', 's']
}

/// `schemas`
pub open spec fn kind_schemas() -> Seq<char> {
    seq!['s', 'c', 'h', 'e', 'm', 'a', 's']
}

/// The parameters among the components, if any.
pub open spec fn parameters_of(c: Option<&Components>) -> Option<&OrderedMap<ObjectOrReference<Parameter>>> {
    match c {
        Some(c) => match &c.parameters {
            Some(m) => Some(m),
            None => None,
        },
        None => None,
    }
}

/// The request bodies among the components, if any.
pub open spec fn request_bodies_of(c: Option<&Components>) -> Option<&OrderedMap<ObjectOrReference<RequestBody>>> {
    match c {
        Some(c) => match &c.request_bodies {
            Some(m) => Some(m),
            None => None,
        },
        None => None,
    }
}

/// The schemas among the components, if any.
pub open spec fn schemas_of(c: Option<&Components>) -> Option<&OrderedMap<ObjectOrReference<Schema>>> {
    match c {
        Some(c) => match &c.schemas {
            Some(m) => Some(m),
            None => None,
        },
        None => None,
    }
}

/// Resolves a parameter against the components.
pub fn resolve_parameter<'a>(c: Option<&'a Components>, r: &'a ObjectOrReference<Parameter>) -> (res:
    Result<&'a Parameter, Error>)
    ensures
        resolved_as(res, resolution(parameters_of(c), kind_parameters(), *r)),
{
    let map = match c {
        Some(c) => match &c.parameters {
            Some(m) => Some(m),
            None => None,
        },
        None => None,
    };
    let kind = "parameters";
    proof {
        reveal_strlit("parameters");
    }
    assert(kind@ =~= kind_parameters());
    resolve(map, kind, r)
}

/// Resolves a request body against the components.
pub fn resolve_request_body<'a>(c: Option<&'a Components>, r: &'a ObjectOrReference<RequestBody>) -> (res:
    Result<&'a RequestBody, Error>)
    ensures
        resolved_as(res, resolution(request_bodies_of(c), kind_request_bodies(), *r)),
{
    let map = match c {
        Some(c) => match &c.request_bodies {
            Some(m) => Some(m),
            None => None,
        },
        None => None,
    };
    let kind = "requestBodies";
    proof {
        reveal_strlit("requestBodies");
    }
    assert(kind@ =~= kind_request_bodies());
    resolve(map, kind, r)
}

/// Resolves a schema against the components.
pub fn resolve_schema<'a>(c: Option<&'a Components>, r: &'a ObjectOrReference<Schema>) -> (res:
    Result<&'a Schema, Error>)
    ensures
        resolved_as(res, resolution(schemas_of(c), kind_schemas(), *r)),
{
    let map = match c {
        Some(c) => match &c.schemas {
            Some(m) => Some(m),
            None => None,
        },
        None => None,
    };
    let kind = "schemas";
    proof {
        reveal_strlit("schemas");
    }
    assert(kind@ =~= kind_schemas());
    resolve(map, kind, r)
}

/// Resolving an object written in place gives that object, with no lookup.
pub proof fn law_inline_resolves_to_itself<T>(
    map: Option<&OrderedMap<ObjectOrReference<T>>>,
    kind: Seq<char>,
    x: T,
)
    ensures
        resolution(map, kind, ObjectOrReference::Inline(x)) == Resolution::Found(x),
{
}

/// Resolving a pointer to a component that is written in place gives that component.
pub proof fn law_reference_to_inline<T>(
    map: Option<&OrderedMap<ObjectOrReference<T>>>,
    kind: Seq<char>,
    pointer: String,
    y: T,
)
    requires
        target(entries_of(map), kind, pointer@) == Some(ObjectOrReference::Inline(y)),
    ensures
        resolution(map, kind, ObjectOrReference::Reference { pointer }) == Resolution::Found(y),
{
}

/// Resolving a pointer whose target is absent fails with that pointer.
pub proof fn law_missing_target_is_unresolved<T>(
    map: Option<&OrderedMap<ObjectOrReference<T>>>,
    kind: Seq<char>,
    pointer: String,
)
    requires
        target(entries_of(map), kind, pointer@) is None,
    ensures
        resolution(map, kind, ObjectOrReference::<T>::Reference { pointer }) == Resolution::<
            T,
        >::Unresolved(pointer@),
{
}

proof fn lemma_two_hop_cycle<T>(
    entries: Seq<(String, ObjectOrReference<T>)>,
    kind: Seq<char>,
    a: String,
    b: String,
    chain: Seq<Seq<char>>,
    fuel: nat,
)
    requires
        target(entries, kind, a@) matches Some(ObjectOrReference::Reference { pointer }) && pointer@
            == b@,
        target(entries, kind, b@) matches Some(ObjectOrReference::Reference { pointer }) && pointer@
            == a@,
    ensures
        follow(entries, kind, a@, chain, fuel) is Cyclic,
        follow(entries, kind, b@, chain, fuel) is Cyclic,
    decreases fuel,
{
    if fuel > 0 {
        lemma_two_hop_cycle(entries, kind, a, b, chain.push(b@), (fuel - 1) as nat);
        lemma_two_hop_cycle(entries, kind, a, b, chain.push(a@), (fuel - 1) as nat);
    }
}

/// Where the component that `a` points at is a reference to `b`, and the one
/// that `b` points at a reference back to `a`, resolving `a` fails as a cycle.
pub proof fn law_two_hop_cycle_is_cyclic<T>(
    map: Option<&OrderedMap<ObjectOrReference<T>>>,
    kind: Seq<char>,
    a: String,
    b: String,
)
    requires
        target(entries_of(map), kind, a@) matches Some(ObjectOrReference::Reference { pointer })
            && pointer@ == b@,
        target(entries_of(map), kind, b@) matches Some(ObjectOrReference::Reference { pointer })
            && pointer@ == a@,
    ensures
        resolution(map, kind, ObjectOrReference::<T>::Reference { pointer: a }) is Cyclic,
{
    lemma_two_hop_cycle(entries_of(map), kind, a, b, seq![a@], entries_of(map).len());
}

/// Resolves `r` against the components of `kind` in `map`, following chains of
/// references; the object found is borrowed, not copied.
pub fn resolve<'a, T>(
    map: Option<&'a OrderedMap<ObjectOrReference<T>>>,
    kind: &str,
    r: &'a ObjectOrReference<T>,
) -> (res: Result<&'a T, Error>)
    ensures
        resolved_as(res, resolution(map, kind@, *r)),
{
    let pointer = match r {
        ObjectOrReference::Inline(x) => {
            return Ok(x);
        },
        ObjectOrReference::Reference { pointer } => pointer,
    };
    let mut prefix = String::from_str("#/components/");
    prefix.append(kind);
    prefix.append("/");
    proof {
        reveal_strlit("#/components/");
        reveal_strlit("/");
        assert(prefix@ =~= pointer_prefix(kind@));
    }
    let ghost entries = entries_of(map);
    let mut cur: &'a String = pointer;
    let mut chain: Vec<String> = Vec::new();
    chain.push(pointer.clone());
    let mut fuel: usize = match map {
        Some(m) => m.len(),
        None => 0,
    };
    assert(strings_view(chain@) =~= seq![pointer@]);
    loop
        invariant
            entries == entries_of(map),
            prefix@ == pointer_prefix(kind@),
            follow(entries, kind@, cur@, strings_view(chain@), fuel as nat) == resolution(
                map,
                kind@,
                *r,
            ),
        decreases fuel,
    {
        match target_entry(map, prefix.as_str(), cur.as_str(), Ghost(kind@)) {
            None => {
                return Err(Error::UnresolvedReference(cur.clone()));
            },
            Some(ObjectOrReference::Inline(x)) => {
                return Ok(x);
            },
            Some(ObjectOrReference::Reference { pointer: next }) => {
                let ghost before = strings_view(chain@);
                chain.push(next.clone());
                assert(strings_view(chain@) =~= before.push(next@));
                if fuel == 0 {
                    return Err(Error::CyclicReference(chain));
                }
                fuel = fuel - 1;
                cur = next;
            },
        }
    }
}

} // verus!
