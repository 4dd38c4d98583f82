//! Compile-time code generation for enums with an integer backing
//! representation: resolving every variant's discriminant value, and
//! deriving constant listings and integer conversions from the result.
use vstd::prelude::*;

pub mod examples;
pub mod generate;
pub mod laws;
pub mod literal;
pub mod scan;
pub mod variant;
pub mod width;

verus! {

/// Error value returned by the generated integer-to-enum conversions when
/// no variant matches the given integer.
#[derive(Debug, Clone, Copy)]
pub struct TryFromError {
    /// Name of the enum the conversion targeted.
    ident: &'static str,
}

impl TryFromError {
    /// The name of the enum the failed conversion targeted.
    pub closed spec fn spec_ident(self) -> &'static str {
        self.ident
    }

    /// Builds the error for a failed conversion into the named enum.
    pub fn new(ident: &'static str) -> (r: Self)
        ensures
            r.spec_ident() == ident,
    {
        TryFromError { ident }
    }

    /// Renders the error as human-readable text naming the enum.
    pub fn message(&self) -> (r: String)
        ensures
            r@ == "Tried to convert an invalid value into a "@ + self.spec_ident()@,
    {
        let mut text = String::new();
        text.append("Tried to convert an invalid value into a ");
        text.append(self.ident);
        text
    }
}

} // verus!
