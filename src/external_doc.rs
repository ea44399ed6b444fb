//! External documentation links.

use vstd::prelude::*;

verus! {

/// Allows referencing an external resource for extended documentation.
#[derive(Debug, PartialEq, Default)]
pub struct ExternalDoc {
    /// The URL for the target documentation.
    pub url: String,
    /// A short description of the target documentation.
    pub description: Option<String>,
}

} // verus!
