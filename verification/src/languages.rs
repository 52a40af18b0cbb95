//! Target languages of the supported frameworks.

use vstd::prelude::*;

verus! {

/// The implementation language of a target framework.
#[derive(Clone, Copy, Debug, PartialEq, Eq, Structural)]
pub enum Language {
    Python,
    Rust,
}

impl Language {
    /// The language's user-visible name.
    pub fn label(&self) -> (r: &'static str)
        ensures
            r@ == spec_language_label(*self),
    {
        match self {
            Language::Python => "Python",
            Language::Rust => "Rust",
        }
    }
}

/// The user-visible name of a language.
pub open spec fn spec_language_label(l: Language) -> Seq<char> {
    match l {
        Language::Python => "Python"@,
        Language::Rust => "Rust"@,
    }
}

} // verus!
