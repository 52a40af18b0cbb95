//! The library's stated laws: properties that hold of every input, proved
//! from the public contracts.

use vstd::prelude::*;

use crate::diag::DiagView;
use crate::frameworks::Framework;
use crate::mcp_client::{
    spec_aggregate, spec_aggregate_upto, spec_failures, spec_failures_upto, spec_outcome_caps,
    OutcomeView,
};
use crate::mcp_server::{
    spec_all_options, spec_all_options_upto, spec_contributed, spec_options, spec_value_names,
    ServerView,
};
use crate::pipeline::spec_splice;
use crate::walk::{
    spec_dup_diags, spec_is_manifest, spec_manifest_slot, spec_walk_diags,
};

verus! {

/// Option derivation: a standard-I/O server declaring an `env` mapping of
/// size N derives exactly N agent options, each named by the mapping's
/// value, and a registry of that one server accumulates exactly those.
pub proof fn lemma_option_derivation(
    name: Seq<char>,
    command: Seq<char>,
    args: Seq<Seq<char>>,
    e: Seq<(Seq<char>, Seq<char>)>,
)
    ensures
        ({
            let s = ServerView::Stdio { command, args, env: Some(e) };
            &&& spec_options(s) == Some(spec_value_names(e))
            &&& spec_value_names(e).len() == e.len()
            &&& forall|i: int| 0 <= i < e.len() ==> spec_value_names(e)[i] == e[i].1
            &&& spec_all_options(seq![(name, s)]) == spec_value_names(e)
        }),
{
    let s = ServerView::Stdio { command, args, env: Some(e) };
    let reg = seq![(name, s)];
    assert(reg[0] == (name, s));
    assert(spec_all_options_upto(reg, 0) =~= Seq::<Seq<char>>::empty());
    assert(spec_all_options_upto(reg, 1) == spec_all_options_upto(reg, 0) + spec_contributed(
        reg[0].1,
    ));
    assert(spec_all_options(reg) =~= spec_value_names(e));
}

/// Splice determinism: one registry spliced twice into one entry point
/// yields byte-identical output, whichever framework renders it.
pub proof fn lemma_splice_deterministic(
    fw: Framework,
    ss: Seq<(Seq<char>, ServerView)>,
    text: Seq<char>,
    r1: Seq<char>,
    r2: Seq<char>,
)
    requires
        spec_splice(fw, ss, text) == Some(r1),
        spec_splice(fw, ss, text) == Some(r2),
    ensures
        r1 == r2,
{
}

/// Partial-failure isolation: when one of three declared servers fails to
/// connect, it contributes nothing, the aggregate capability list is
/// exactly the other two servers' lists in attempt order, and the failed
/// server alone is reported.
pub proof fn lemma_partial_failure_isolation(results: Seq<(Seq<char>, OutcomeView)>, k: int)
    requires
        results.len() == 3,
        0 <= k < 3,
        results[k].1 is Failed,
        forall|j: int| 0 <= j < 3 && j != k ==> results[j].1 is Connected,
    ensures
        spec_outcome_caps(results[k].1) == Seq::<(Seq<char>, Seq<char>)>::empty(),
        spec_aggregate(results) == spec_outcome_caps(results[0].1) + spec_outcome_caps(
            results[1].1,
        ) + spec_outcome_caps(results[2].1),
        spec_failures(results) == seq![results[k].0],
{
    assert(spec_aggregate_upto(results, 0) =~= Seq::<(Seq<char>, Seq<char>)>::empty());
    assert(spec_aggregate_upto(results, 1) == spec_aggregate_upto(results, 0) + spec_outcome_caps(
        results[0].1,
    ));
    assert(spec_aggregate_upto(results, 2) == spec_aggregate_upto(results, 1) + spec_outcome_caps(
        results[1].1,
    ));
    assert(spec_aggregate_upto(results, 3) == spec_aggregate_upto(results, 2) + spec_outcome_caps(
        results[2].1,
    ));
    assert(spec_aggregate(results) =~= spec_outcome_caps(results[0].1) + spec_outcome_caps(
        results[1].1,
    ) + spec_outcome_caps(results[2].1));
    assert(spec_failures_upto(results, 0) =~= Seq::<Seq<char>>::empty());
    assert(spec_failures_upto(results, 1) == spec_failures_upto(results, 0) + (
    match results[0].1 {
        OutcomeView::Failed(_) => seq![results[0].0],
        OutcomeView::Connected(_) => Seq::empty(),
    }));
    assert(spec_failures_upto(results, 2) == spec_failures_upto(results, 1) + (
    match results[1].1 {
        OutcomeView::Failed(_) => seq![results[1].0],
        OutcomeView::Connected(_) => Seq::empty(),
    }));
    assert(spec_failures_upto(results, 3) == spec_failures_upto(results, 2) + (
    match results[2].1 {
        OutcomeView::Failed(_) => seq![results[2].0],
        OutcomeView::Connected(_) => Seq::empty(),
    }));
    if k == 0 {
        assert(spec_failures(results) =~= seq![results[0].0]);
    } else if k == 1 {
        assert(spec_failures(results) =~= seq![results[1].0]);
    } else {
        assert(spec_failures(results) =~= seq![results[2].0]);
    }
}

/// While no manifest-named file has arrived, the slot stays empty.
proof fn lemma_slot_none(paths: Seq<Seq<char>>, n: int)
    requires
        n <= paths.len(),
        forall|m: int| 0 <= m < n ==> !spec_is_manifest(paths[m]),
    ensures
        spec_manifest_slot(paths, n) is None,
    decreases n,
{
    if n > 0 {
        lemma_slot_none(paths, n - 1);
    }
}

/// Once claimed, the slot never changes: the first writer wins.
proof fn lemma_slot_stable(paths: Seq<Seq<char>>, m: int, n: int)
    requires
        0 <= m <= n <= paths.len(),
        spec_manifest_slot(paths, m) is Some,
    ensures
        spec_manifest_slot(paths, n) == spec_manifest_slot(paths, m),
    decreases n - m,
{
    if m < n {
        lemma_slot_stable(paths, m, n - 1);
    }
}

/// A diagnostic once raised stays in the list.
proof fn lemma_dup_diags_mono(paths: Seq<Seq<char>>, m: int, n: int, d: DiagView)
    requires
        0 <= m <= n <= paths.len(),
        spec_dup_diags(paths, m).contains(d),
    ensures
        spec_dup_diags(paths, n).contains(d),
    decreases n - m,
{
    if m < n {
        lemma_dup_diags_mono(paths, m, n - 1, d);
        let i = choose|i: int|
            0 <= i < spec_dup_diags(paths, n - 1).len() && #[trigger] spec_dup_diags(
                paths,
                n - 1,
            )[i] == d;
        assert(spec_dup_diags(paths, n)[i] == d);
    }
}

/// Single-manifest invariant: when two files under the root share the
/// manifest's well-known name, the slot holds the first one encountered —
/// so enrichment applies to exactly that one — and a diagnostic names each
/// later claimant.
pub proof fn lemma_single_manifest(paths: Seq<Seq<char>>, i: int, j: int)
    requires
        0 <= i < j < paths.len(),
        spec_is_manifest(paths[i]),
        spec_is_manifest(paths[j]),
        forall|m: int| 0 <= m < i ==> !spec_is_manifest(paths[m]),
    ensures
        spec_manifest_slot(paths, paths.len() as int) == Some(paths[i]),
        spec_walk_diags(paths).contains(DiagView::DuplicateManifest { path: paths[j] }),
{
    lemma_slot_none(paths, i);
    assert(spec_manifest_slot(paths, i + 1) == Some(paths[i]));
    lemma_slot_stable(paths, i + 1, paths.len() as int);
    lemma_slot_stable(paths, i + 1, j);
    let d = DiagView::DuplicateManifest { path: paths[j] };
    assert(spec_dup_diags(paths, j + 1).contains(d)) by {
        assert(spec_dup_diags(paths, j + 1)[spec_dup_diags(paths, j).len() as int] == d);
    }
    lemma_dup_diags_mono(paths, j + 1, paths.len() as int, d);
    let w = choose|w: int|
        0 <= w < spec_dup_diags(paths, paths.len() as int).len() && #[trigger] spec_dup_diags(
            paths,
            paths.len() as int,
        )[w] == d;
    assert(spec_walk_diags(paths)[w] == d);
}

} // verus!
