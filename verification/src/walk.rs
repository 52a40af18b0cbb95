//! Planning the tree walk: classifying every handed-over file, claiming the
//! single manifest slot first-writer-wins, and diagnosing anomalies.
//!
//! The walk itself — enumerating entries with parallel workers and funnelling
//! paths through a channel — is unverified plumbing around this module: the
//! workers' include filter and the consumer's whole decision sequence are
//! functions of the arrival order alone, and are decided here.

use vstd::prelude::*;

use crate::diag::{DiagView, Diagnostic};
use crate::frameworks::{spec_is_entry_point, Framework};
use crate::text::{file_name_of, spec_file_name, spec_starts_with, starts_with, str_eq_str};

verus! {

/// What the consumer does with one handed-over file.
#[derive(Clone, Copy, Debug, PartialEq, Eq, Structural)]
pub enum FileAction {
    /// Copied byte for byte.
    CopyVerbatim,
    /// Rewritten by the strategy's splice.
    Splice,
}

impl DeepView for FileAction {
    type V = FileAction;

    open spec fn deep_view(&self) -> FileAction {
        *self
    }
}

/// Whether a path carries the manifest's well-known file name.
pub open spec fn spec_is_manifest(path: Seq<char>) -> bool {
    spec_file_name(path) == "coral-agent.toml"@
}

/// The action for one file: the framework's entry point is spliced, all
/// else is copied.
pub open spec fn spec_action(fw: Framework, path: Seq<char>) -> FileAction {
    if spec_is_entry_point(fw, path) {
        FileAction::Splice
    } else {
        FileAction::CopyVerbatim
    }
}

/// The actions for the first `n` handed-over files, in arrival order.
pub open spec fn spec_actions_upto(fw: Framework, paths: Seq<Seq<char>>, n: int) -> Seq<
    (Seq<char>, FileAction),
>
    decreases n,
{
    if n <= 0 {
        Seq::empty()
    } else {
        spec_actions_upto(fw, paths, n - 1).push((paths[n - 1], spec_action(fw, paths[n - 1])))
    }
}

/// The manifest slot after the first `n` files: the first manifest-named
/// path wins and is never displaced.
pub open spec fn spec_manifest_slot(paths: Seq<Seq<char>>, n: int) -> Option<Seq<char>>
    decreases n,
{
    if n <= 0 {
        None
    } else {
        match spec_manifest_slot(paths, n - 1) {
            Some(p) => Some(p),
            None => if spec_is_manifest(paths[n - 1]) {
                Some(paths[n - 1])
            } else {
                None
            },
        }
    }
}

/// The duplicate-manifest diagnostics raised by the first `n` files: one per
/// manifest-named path that found the slot already claimed.
pub open spec fn spec_dup_diags(paths: Seq<Seq<char>>, n: int) -> Seq<DiagView>
    decreases n,
{
    if n <= 0 {
        Seq::empty()
    } else {
        spec_dup_diags(paths, n - 1) + (if spec_is_manifest(paths[n - 1]) && spec_manifest_slot(
            paths,
            n - 1,
        ) is Some {
            seq![DiagView::DuplicateManifest { path: paths[n - 1] }]
        } else {
            Seq::empty()
        })
    }
}

/// All diagnostics of a walk: the duplicates, and a closing note when no
/// manifest was seen at all.
pub open spec fn spec_walk_diags(paths: Seq<Seq<char>>) -> Seq<DiagView> {
    spec_dup_diags(paths, paths.len() as int) + (if spec_manifest_slot(
        paths,
        paths.len() as int,
    ) is None {
        seq![DiagView::NoManifestFound]
    } else {
        Seq::empty()
    })
}

/// The consumer's plan for a finished walk.
#[derive(Debug, Clone)]
pub struct WalkPlan {
    /// Every handed-over file with its action, in arrival order.
    pub actions: Vec<(String, FileAction)>,
    /// The single claimed manifest path, if any file carried the name.
    pub manifest: Option<String>,
    /// Duplicate-manifest warnings, and the note when none was found.
    pub diagnostics: Vec<Diagnostic>,
}

/// Whether the walk hands an entry over at all: build flavor descriptors
/// and version-control metadata directories are filtered out, the latter by
/// the entry's last path component.
pub fn include_entry(fw: Framework, path: &str) -> (r: bool)
    ensures
        r == (!spec_starts_with(spec_file_name(path@), "flake"@) && spec_file_name(path@)
            != ".git"@),
{
    let name = file_name_of(path);
    let included = match fw {
        Framework::Langchain => !starts_with(name.as_str(), "flake"),
        Framework::CoralRs => !starts_with(name.as_str(), "flake"),
    };
    included && !str_eq_str(name.as_str(), ".git")
}

/// Classifies every handed-over file in arrival order, claims the manifest
/// slot for the first manifest-named path, and diagnoses every later one;
/// when no file carries the name, says so.
pub fn plan_walk(fw: Framework, paths: &Vec<String>) -> (r: WalkPlan)
    ensures
        r.actions.deep_view() == spec_actions_upto(fw, paths.deep_view(), paths@.len() as int),
        r.manifest.deep_view() == spec_manifest_slot(paths.deep_view(), paths@.len() as int),
        r.diagnostics.deep_view() == spec_walk_diags(paths.deep_view()),
{
    let ghost dv = paths.deep_view();
    let mut actions: Vec<(String, FileAction)> = Vec::new();
    let mut manifest: Option<String> = None;
    let mut diagnostics: Vec<Diagnostic> = Vec::new();
    proof {
        assert(actions.deep_view() =~~= spec_actions_upto(fw, dv, 0));
        assert(diagnostics.deep_view() =~~= spec_dup_diags(dv, 0));
    }
    let mut i: usize = 0;
    while i < paths.len()
        invariant
            i <= paths@.len(),
            dv == paths.deep_view(),
            dv.len() == paths@.len(),
            actions.deep_view() == spec_actions_upto(fw, dv, i as int),
            manifest.deep_view() == spec_manifest_slot(dv, i as int),
            diagnostics.deep_view() == spec_dup_diags(dv, i as int),
        decreases paths@.len() - i,
    {
        let path = &paths[i];
        proof {
            assert(dv[i as int] == path@);
        }
        let action = if fw.is_entry_point(path.as_str()) {
            FileAction::Splice
        } else {
            FileAction::CopyVerbatim
        };
        actions.push((path.clone(), action));
        let name = file_name_of(path.as_str());
        if str_eq_str(name.as_str(), "coral-agent.toml") {
            match &manifest {
                None => {
                    manifest = Some(path.clone());
                },
                Some(_) => {
                    diagnostics.push(Diagnostic::DuplicateManifest { path: path.clone() });
                },
            }
        }
        proof {
            assert(actions.deep_view() =~~= spec_actions_upto(fw, dv, i + 1));
            assert(manifest.deep_view() =~~= spec_manifest_slot(dv, i + 1));
            assert(diagnostics.deep_view() =~~= spec_dup_diags(dv, i + 1));
        }
        i += 1;
    }
    if manifest.is_none() {
        diagnostics.push(Diagnostic::NoManifestFound);
    }
    proof {
        assert(diagnostics.deep_view() =~~= spec_walk_diags(dv));
    }
    WalkPlan { actions, manifest, diagnostics }
}

} // verus!
