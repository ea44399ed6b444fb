//! The failures that validation, resolution and synthesis report.

use vstd::prelude::*;

verus! {

/// Every failure is a value; nothing here stops the process.
#[derive(Debug, PartialEq)]
pub enum Error {
    /// The document's version text, which does not parse or is out of range.
    UnsupportedVersion(String),
    /// A pointer whose target is absent from the components.
    UnresolvedReference(String),
    /// The pointers followed, in order, along a chain of references that never
    /// reaches an object.
    CyclicReference(Vec<String>),
    /// The name and location of a parameter that occurs twice in an operation.
    DuplicateParameter(String, String),
    /// No server applies. Synthesis falls back to the server `/` and so never
    /// reports it.
    NoServersDefined,
}

/// What an `Error` holds, as character sequences.
pub enum ErrorView {
    UnsupportedVersion(Seq<char>),
    UnresolvedReference(Seq<char>),
    CyclicReference(Seq<Seq<char>>),
    DuplicateParameter(Seq<char>, Seq<char>),
    NoServersDefined,
}

/// The characters of each string.
pub open spec fn strings_view(v: Seq<String>) -> Seq<Seq<char>> {
    v.map_values(|s: String| s@)
}

impl View for Error {
    type V = ErrorView;

    open spec fn view(&self) -> ErrorView {
        match self {
            Error::UnsupportedVersion(v) => ErrorView::UnsupportedVersion(v@),
            Error::UnresolvedReference(p) => ErrorView::UnresolvedReference(p@),
            Error::CyclicReference(c) => ErrorView::CyclicReference(strings_view(c@)),
            Error::DuplicateParameter(n, l) => ErrorView::DuplicateParameter(n@, l@),
            Error::NoServersDefined => ErrorView::NoServersDefined,
        }
    }
}

} // verus!
