//! Expansion of a document into request templates: paths in declaration order,
//! methods in a fixed order, servers in override order.

use vstd::prelude::*;
use crate::components::Components;
use crate::error::{Error, ErrorView};
use crate::operation::{
    effective_servers, operation_outcome, server_bases, templates_for, templates_view, Operation,
};
use crate::components::ObjectOrReference;
use crate::path::{parameter_list, Parameter, PathItem};
use crate::request::{join_url, Method, RequestTemplate, TemplateView};
use crate::server::Server;
use crate::spec::Spec;
use crate::version::{parsed_version, supported_by, VersionValidator};

verus! {

/// A failure that skipped one operation.
#[derive(Debug, PartialEq)]
pub struct Diagnostic {
    pub path: String,
    pub method: Method,
    pub error: Error,
}

pub struct DiagnosticView {
    pub path: Seq<char>,
    pub method: Method,
    pub error: ErrorView,
}

impl View for Diagnostic {
    type V = DiagnosticView;

    open spec fn view(&self) -> DiagnosticView {
        DiagnosticView { path: self.path@, method: self.method, error: self.error@ }
    }
}

/// The templates synthesized and the operations skipped, both in order.
#[derive(Debug, PartialEq)]
pub struct Synthesis<'a> {
    pub templates: Vec<RequestTemplate<'a>>,
    pub diagnostics: Vec<Diagnostic>,
}

pub struct SynthesisView {
    pub templates: Seq<TemplateView>,
    pub diagnostics: Seq<DiagnosticView>,
}

impl<'a> View for Synthesis<'a> {
    type V = SynthesisView;

    open spec fn view(&self) -> SynthesisView {
        SynthesisView {
            templates: templates_view(self.templates@),
            diagnostics: self.diagnostics@.map_values(|d: Diagnostic| d@),
        }
    }
}

/// Nothing synthesized, nothing skipped.
pub open spec fn empty_synthesis() -> SynthesisView {
    SynthesisView { templates: Seq::empty(), diagnostics: Seq::empty() }
}

/// The method slots of a path item, in the order they are visited.
pub open spec fn slots(item: PathItem) -> Seq<(Method, Option<Operation>)> {
    seq![
        (Method::Get, item.get),
        (Method::Put, item.put),
        (Method::Post, item.post),
        (Method::Delete, item.delete),
        (Method::Options, item.options),
        (Method::Head, item.head),
        (Method::Patch, item.patch),
        (Method::Trace, item.trace),
    ]
}

/// What the first `n` method slots of `item`, at `path` and under the servers
/// `parent`, contribute.
pub open spec fn slots_outcome(
    item: PathItem,
    path: Seq<char>,
    parent: Seq<Server>,
    c: Option<&Components>,
    n: nat,
) -> SynthesisView
    decreases n,
{
    if n == 0 {
        empty_synthesis()
    } else {
        let acc = slots_outcome(item, path, parent, c, (n - 1) as nat);
        let slot = slots(item)[n - 1];
        match slot.1 {
            None => acc,
            Some(op) => match operation_outcome(
                op,
                slot.0,
                path,
                parameter_list(item.parameters),
                effective_servers(item.servers, parent),
                c,
            ) {
                Ok(ts) => SynthesisView { templates: acc.templates + ts, diagnostics: acc.diagnostics },
                Err(e) => SynthesisView {
                    templates: acc.templates,
                    diagnostics: acc.diagnostics.push(DiagnosticView { path, method: slot.0, error: e }),
                },
            },
        }
    }
}

/// What a path item contributes.
pub open spec fn path_outcome(
    item: PathItem,
    path: Seq<char>,
    parent: Seq<Server>,
    c: Option<&Components>,
) -> SynthesisView {
    slots_outcome(item, path, parent, c, 8)
}

/// The servers that the document declares.
pub open spec fn document_servers(spec: Spec) -> Seq<Server> {
    match spec.servers {
        Some(v) => v@,
        None => Seq::empty(),
    }
}

/// The components of the document.
pub open spec fn components_of(spec: &Spec) -> Option<&Components> {
    match &spec.components {
        Some(c) => Some(c),
        None => None,
    }
}

/// What the first `n` paths of the document contribute.
pub open spec fn paths_outcome(spec: &Spec, n: nat) -> SynthesisView
    decreases n,
{
    if n == 0 {
        empty_synthesis()
    } else {
        let acc = paths_outcome(spec, (n - 1) as nat);
        let entry = spec.paths.entries@[n - 1];
        let p = path_outcome(entry.1, entry.0@, document_servers(*spec), components_of(spec));
        SynthesisView {
            templates: acc.templates + p.templates,
            diagnostics: acc.diagnostics + p.diagnostics,
        }
    }
}

/// Everything that the document's paths give.
pub open spec fn synthesis(spec: &Spec) -> SynthesisView {
    paths_outcome(spec, spec.paths.entries@.len())
}

/// How many templates an operation yields: one for each server that applies
/// to it, or none where it is skipped.
pub open spec fn operation_count(
    item: PathItem,
    op: Operation,
    method: Method,
    path: Seq<char>,
    parent: Seq<Server>,
    c: Option<&Components>,
) -> nat {
    let applying = effective_servers(item.servers, parent);
    match operation_outcome(op, method, path, parameter_list(item.parameters), applying, c) {
        Ok(_) => server_bases(effective_servers(op.servers, applying)).len(),
        Err(_) => 0,
    }
}

/// The sum of `operation_count` over the first `n` method slots of `item`.
pub open spec fn slots_count(
    item: PathItem,
    path: Seq<char>,
    parent: Seq<Server>,
    c: Option<&Components>,
    n: nat,
) -> nat
    decreases n,
{
    if n == 0 {
        0
    } else {
        let rest = slots_count(item, path, parent, c, (n - 1) as nat);
        match slots(item)[n - 1].1 {
            None => rest,
            Some(op) => rest + operation_count(item, op, slots(item)[n - 1].0, path, parent, c),
        }
    }
}

/// The sum of `slots_count` over all slots of the first `n` paths.
pub open spec fn paths_count(spec: &Spec, n: nat) -> nat
    decreases n,
{
    if n == 0 {
        0
    } else {
        let entry = spec.paths.entries@[n - 1];
        paths_count(spec, (n - 1) as nat) + slots_count(
            entry.1,
            entry.0@,
            document_servers(*spec),
            components_of(spec),
            8,
        )
    }
}

proof fn lemma_slots_count(item: PathItem, path: Seq<char>, parent: Seq<Server>, c: Option<&Components>, n: nat)
    requires
        n <= 8,
    ensures
        slots_outcome(item, path, parent, c, n).templates.len() == slots_count(item, path, parent, c, n),
    decreases n,
{
    if n > 0 {
        lemma_slots_count(item, path, parent, c, (n - 1) as nat);
    }
}

proof fn lemma_paths_count(spec: &Spec, n: nat)
    requires
        n <= spec.paths.entries@.len(),
    ensures
        paths_outcome(spec, n).templates.len() == paths_count(spec, n),
    decreases n,
{
    if n > 0 {
        lemma_paths_count(spec, (n - 1) as nat);
        let entry = spec.paths.entries@[n - 1];
        lemma_slots_count(entry.1, entry.0@, document_servers(*spec), components_of(spec), 8);
    }
}

/// Synthesis yields, over all paths and all declared methods, as many templates
/// as servers apply to each operation, leaving out the operations skipped.
pub proof fn law_template_count(spec: &Spec)
    ensures
        synthesis(spec).templates.len() == paths_count(spec, spec.paths.entries@.len()),
{
    lemma_paths_count(spec, spec.paths.entries@.len());
}

/// An operation that declares servers uses those alone, in order, whatever
/// servers apply above it.
pub proof fn law_operation_servers_take_precedence(
    op: Operation,
    method: Method,
    path: Seq<char>,
    inherited: Seq<ObjectOrReference<Parameter>>,
    parent: Seq<Server>,
    other_parent: Seq<Server>,
    c: Option<&Components>,
)
    requires
        op.servers matches Some(v) && v@.len() > 0,
    ensures
        operation_outcome(op, method, path, inherited, parent, c) == operation_outcome(
            op,
            method,
            path,
            inherited,
            other_parent,
            c,
        ),
        operation_outcome(op, method, path, inherited, parent, c) matches Ok(ts) ==> {
            &&& ts.len() == op.servers->0@.len()
            &&& forall|i: int|
                0 <= i < ts.len() ==> #[trigger] ts[i].url == join_url(
                    op.servers->0@[i].base_url_spec(),
                    path,
                )
        },
{
}

proof fn lemma_path_servers(
    item: PathItem,
    path: Seq<char>,
    parent: Seq<Server>,
    other_parent: Seq<Server>,
    c: Option<&Components>,
    n: nat,
)
    requires
        item.servers matches Some(v) && v@.len() > 0,
    ensures
        slots_outcome(item, path, parent, c, n) == slots_outcome(item, path, other_parent, c, n),
    decreases n,
{
    if n > 0 {
        lemma_path_servers(item, path, parent, other_parent, c, (n - 1) as nat);
    }
}

/// A path item that declares servers gives the same templates whatever servers
/// the document declares.
pub proof fn law_path_servers_take_precedence(
    item: PathItem,
    path: Seq<char>,
    parent: Seq<Server>,
    other_parent: Seq<Server>,
    c: Option<&Components>,
)
    requires
        item.servers matches Some(v) && v@.len() > 0,
    ensures
        path_outcome(item, path, parent, c) == path_outcome(item, path, other_parent, c),
{
    lemma_path_servers(item, path, parent, other_parent, c, 8);
}

/// Two syntheses of one document agree template for template and diagnostic
/// for diagnostic.
pub proof fn law_synthesis_is_deterministic<'a, 'b>(
    spec: &Spec,
    first: Synthesis<'a>,
    second: Synthesis<'b>,
)
    requires
        first@ == synthesis(spec),
        second@ == synthesis(spec),
    ensures
        first@ == second@,
        templates_view(first.templates@) == templates_view(second.templates@),
{
}

impl PathItem {
    /// The operation in method slot `k`.
    pub fn slot(&self, k: usize) -> (r: (Method, Option<&Operation>))
        requires
            k < 8,
        ensures
            r.0 == slots(*self)[k as int].0,
            r.1 matches Some(o) ==> slots(*self)[k as int].1 == Some(*o),
            r.1 is None ==> slots(*self)[k as int].1 is None,
    {
        let (m, o) = if k == 0 {
            (Method::Get, &self.get)
        } else if k == 1 {
            (Method::Put, &self.put)
        } else if k == 2 {
            (Method::Post, &self.post)
        } else if k == 3 {
            (Method::Delete, &self.delete)
        } else if k == 4 {
            (Method::Options, &self.options)
        } else if k == 5 {
            (Method::Head, &self.head)
        } else if k == 6 {
            (Method::Patch, &self.patch)
        } else {
            (Method::Trace, &self.trace)
        };
        match o {
            Some(op) => (m, Some(op)),
            None => (m, None),
        }
    }

    /// The templates of the operations of this path item at path template
    /// `path`, under the servers `servers`, and the operations skipped.
    pub fn to_client_request<'a>(
        &'a self,
        path: &str,
        servers: &Vec<Server>,
        components: Option<&'a Components>,
    ) -> (r: Synthesis<'a>)
        ensures
            r@ == path_outcome(*self, path@, servers@, components),
    {
        let inherited = match &self.parameters {
            Some(v) => Some(v),
            None => None,
        };
        let list: &Vec<Server> = match &self.servers {
            Some(v) => if v.len() > 0 {
                v
            } else {
                servers
            },
            None => servers,
        };
        let mut out = Synthesis { templates: Vec::new(), diagnostics: Vec::new() };
        assert(out@.templates =~= empty_synthesis().templates);
        assert(out@.diagnostics =~= empty_synthesis().diagnostics);
        let mut k: usize = 0;
        while k < 8
            invariant
                k <= 8,
                list@ == effective_servers(self.servers, servers@),
                match inherited {
                    Some(v) => parameter_list(self.parameters) == v@,
                    None => parameter_list(self.parameters) == Seq::<ObjectOrReference<Parameter>>::empty(),
                },
                out@ == slots_outcome(*self, path@, servers@, components, k as nat),
            decreases 8 - k,
        {
            let (m, o) = self.slot(k);
            match o {
                Some(op) => {
                    let ghost before = out@;
                    match op.to_client_request(m, path, inherited, list, components) {
                        Ok(mut ts) => {
                            let ghost tv = templates_view(ts@);
                            out.templates.append(&mut ts);
                            assert(out@.templates =~= before.templates + tv);
                        },
                        Err(e) => {
                            let d = Diagnostic { path: String::from_str(path), method: m, error: e };
                            out.diagnostics.push(d);
                            assert(out@.diagnostics =~= before.diagnostics.push(d@));
                        },
                    }
                },
                None => {},
            }
            k = k + 1;
        }
        out
    }
}

impl Spec {
    /// The templates of every operation of the document and the operations
    /// skipped, where `validator` accepts the document's version; otherwise
    /// `UnsupportedVersion`, before any synthesis.
    pub fn synthesize(&self, validator: &VersionValidator) -> (r: Result<Synthesis<'_>, Error>)
        ensures
            match parsed_version(self.openapi@) {
                Some(p) => if validator.accepts(p) {
                    r matches Ok(s) && s@ == synthesis(self)
                } else {
                    r matches Err(e) && e@ == ErrorView::UnsupportedVersion(self.openapi@)
                },
                None => r matches Err(e) && e@ == ErrorView::UnsupportedVersion(self.openapi@),
            },
    {
        validator.validate(self.openapi.as_str())?;
        let empty: Vec<Server> = Vec::new();
        let servers: &Vec<Server> = match &self.servers {
            Some(v) => v,
            None => &empty,
        };
        let components = match &self.components {
            Some(c) => Some(c),
            None => None,
        };
        let mut out = Synthesis { templates: Vec::new(), diagnostics: Vec::new() };
        assert(out@.templates =~= empty_synthesis().templates);
        assert(out@.diagnostics =~= empty_synthesis().diagnostics);
        let n = self.paths.entries.len();
        let mut i: usize = 0;
        while i < n
            invariant
                n == self.paths.entries@.len(),
                i <= n,
                servers@ == document_servers(*self),
                components == components_of(self),
                out@ == paths_outcome(self, i as nat),
            decreases n - i,
        {
            let entry = &self.paths.entries[i];
            let mut p = entry.1.to_client_request(entry.0.as_str(), servers, components);
            let ghost before = out@;
            let ghost pv = p@;
            out.templates.append(&mut p.templates);
            out.diagnostics.append(&mut p.diagnostics);
            assert(out@.templates =~= before.templates + pv.templates);
            assert(out@.diagnostics =~= before.diagnostics + pv.diagnostics);
            i = i + 1;
        }
        Ok(out)
    }

    /// `synthesize` with the versions `>=3.0.0, <4.0.0`.
    pub fn to_client_request(&self) -> (r: Result<Synthesis<'_>, Error>)
        ensures
            match parsed_version(self.openapi@) {
                Some(p) => if supported_by(p, 3, 0, 0) {
                    r matches Ok(s) && s@ == synthesis(self)
                } else {
                    r matches Err(e) && e@ == ErrorView::UnsupportedVersion(self.openapi@)
                },
                None => r matches Err(e) && e@ == ErrorView::UnsupportedVersion(self.openapi@),
            },
    {
        self.synthesize(&VersionValidator::openapi30())
    }
}

} // verus!
