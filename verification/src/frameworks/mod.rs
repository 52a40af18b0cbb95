//! Target frameworks: a closed set of rendering strategies. Each framework
//! classifies the entry point, splices connection code at its anchor, and
//! post-processes project metadata.

use vstd::prelude::*;

pub mod coral_rs;
pub mod langchain;

pub use coral_rs::CoralRs;
pub use langchain::Langchain;

use crate::languages::{spec_language_label, Language};
use crate::text::{file_name_of, spec_file_name, str_eq_str};

verus! {

/// A target framework, one per rendering strategy.
#[derive(Clone, Copy, Debug, PartialEq, Eq, Structural)]
pub enum Framework {
    Langchain,
    CoralRs,
}

/// A framework's user-visible name.
pub open spec fn spec_framework_name(fw: Framework) -> Seq<char> {
    match fw {
        Framework::Langchain => "Langchain"@,
        Framework::CoralRs => "coral-rs"@,
    }
}

/// The name of the one file a framework splices connection code into.
pub open spec fn spec_entry_file_name(fw: Framework) -> Seq<char> {
    match fw {
        Framework::Langchain => "main.py"@,
        Framework::CoralRs => "main.rs"@,
    }
}

/// Whether `path` is the framework's transformable entry point.
pub open spec fn spec_is_entry_point(fw: Framework, path: Seq<char>) -> bool {
    spec_file_name(path) == spec_entry_file_name(fw)
}

impl Framework {
    /// The framework's user-visible name.
    pub fn name(&self) -> (r: &'static str)
        ensures
            r@ == spec_framework_name(*self),
    {
        match self {
            Framework::Langchain => "Langchain",
            Framework::CoralRs => "coral-rs",
        }
    }

    /// The language the framework's templates are written in.
    pub fn language(&self) -> (r: Language)
        ensures
            r == (match *self {
                Framework::Langchain => Language::Python,
                Framework::CoralRs => Language::Rust,
            }),
    {
        match self {
            Framework::Langchain => Language::Python,
            Framework::CoralRs => Language::Rust,
        }
    }

    /// The framework's selection label: name, then language in parentheses.
    pub fn display_name(&self) -> (r: String)
        ensures
            r@ == spec_framework_name(*self) + " ("@ + spec_language_label(
                match *self {
                    Framework::Langchain => Language::Python,
                    Framework::CoralRs => Language::Rust,
                },
            ) + ")"@,
    {
        let mut s = self.name().to_owned();
        s.append(" (");
        s.append(self.language().label());
        s.append(")");
        s
    }

    /// Whether `path` names this framework's transformable entry point.
    pub fn is_entry_point(&self, path: &str) -> (r: bool)
        ensures
            r == spec_is_entry_point(*self, path@),
    {
        let name = file_name_of(path);
        match self {
            Framework::Langchain => str_eq_str(name.as_str(), "main.py"),
            Framework::CoralRs => str_eq_str(name.as_str(), "main.rs"),
        }
    }
}

/// All frameworks, ordered by language; selection lists are built from this,
/// so the order is fixed: Python frameworks before Rust ones.
pub fn frameworks_by_language() -> (r: Vec<Framework>)
    ensures
        r@ =~= seq![Framework::Langchain, Framework::CoralRs],
{
    let mut v: Vec<Framework> = Vec::new();
    v.push(Framework::Langchain);
    v.push(Framework::CoralRs);
    v
}

} // verus!
