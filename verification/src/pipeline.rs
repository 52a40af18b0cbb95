//! The write plan of one materialization. Every entry-point splice and the
//! manifest enrichment are computed together before anything is written, so
//! a fatal splice failure yields no plan at all: the entry points and the
//! manifest change together, or neither does.

use vstd::prelude::*;

use crate::diag::{extend_diags, DiagView, Diagnostic, TemplateError};
use crate::frameworks::coral_rs::{cr_diags, spec_coral_rs_splice, splice_coral_rs};
use crate::frameworks::langchain::{spec_langchain_splice, splice_langchain};
use crate::frameworks::Framework;
use crate::manifest::{
    doc_options, doc_table, doc_text, enrich_manifest_text, spec_enriched_agent,
    spec_insert_options, spec_parsed, toml_parses, EnrichReport,
};
use crate::mcp_server::{spec_all_options, McpServers, ServerView};

verus! {

/// The splice a framework performs on one entry point's text.
pub open spec fn spec_splice(
    fw: Framework,
    ss: Seq<(Seq<char>, ServerView)>,
    text: Seq<char>,
) -> Option<Seq<char>> {
    match fw {
        Framework::Langchain => spec_langchain_splice(ss, text),
        Framework::CoralRs => spec_coral_rs_splice(ss, text),
    }
}

/// The diagnostics one splice raises for a registry.
pub open spec fn spec_splice_diags(fw: Framework, ss: Seq<(Seq<char>, ServerView)>) -> Seq<
    DiagView,
> {
    match fw {
        Framework::Langchain => Seq::empty(),
        Framework::CoralRs => cr_diags(ss),
    }
}

/// Whether some entry point lacks its anchor: the fatal condition.
pub open spec fn spec_anchor_missing(
    fw: Framework,
    ss: Seq<(Seq<char>, ServerView)>,
    files: Seq<(Seq<char>, Seq<char>)>,
) -> bool {
    exists|i: int| 0 <= i < files.len() && spec_splice(fw, ss, files[i].1) is None
}

/// The rewritten entry points of the first `n` files, in hand-over order.
pub open spec fn spec_spliced_upto(
    fw: Framework,
    ss: Seq<(Seq<char>, ServerView)>,
    files: Seq<(Seq<char>, Seq<char>)>,
    n: int,
) -> Seq<(Seq<char>, Seq<char>)>
    decreases n,
{
    if n <= 0 {
        Seq::empty()
    } else {
        spec_spliced_upto(fw, ss, files, n - 1).push(
            (
                files[n - 1].0,
                match spec_splice(fw, ss, files[n - 1].1) {
                    Some(t) => t,
                    None => Seq::empty(),
                },
            ),
        )
    }
}

/// The splice diagnostics of the first `n` files: each splice raises the
/// registry's diagnostics once.
pub open spec fn spec_splice_diags_upto(
    fw: Framework,
    ss: Seq<(Seq<char>, ServerView)>,
    n: int,
) -> Seq<DiagView>
    decreases n,
{
    if n <= 0 {
        Seq::empty()
    } else {
        spec_splice_diags_upto(fw, ss, n - 1) + spec_splice_diags(fw, ss)
    }
}

/// The diagnostics an enrichment report implies: one per skipped piece.
pub open spec fn spec_report_diags(rep: EnrichReport) -> Seq<DiagView> {
    (if rep.description_set {
        Seq::<DiagView>::empty()
    } else {
        seq![DiagView::MissingAgentTable]
    }) + (if rep.name_set {
        Seq::<DiagView>::empty()
    } else {
        seq![DiagView::MissingAgentName]
    }) + (if rep.options_present {
        Seq::<DiagView>::empty()
    } else {
        seq![DiagView::MissingOptionsTable]
    })
}

/// The diagnostics of the manifest phase: nothing without a manifest, the
/// report's skips when it parsed, one parse complaint when it did not.
pub open spec fn spec_manifest_diags(rep: Option<EnrichReport>, had_manifest: bool) -> Seq<
    DiagView,
> {
    if !had_manifest {
        Seq::empty()
    } else {
        match rep {
            Some(rep) => spec_report_diags(rep),
            None => seq![DiagView::ManifestParseFailed],
        }
    }
}

/// Everything one materialization writes beyond verbatim copies.
#[derive(Debug)]
pub struct TransformPlan {
    /// Every entry point with its rewritten text, in hand-over order.
    pub spliced: Vec<(String, String)>,
    /// The manifest's path with its enriched text, when one was claimed and
    /// parsed.
    pub manifest: Option<(String, String)>,
    /// Which enrichment steps applied, when the manifest parsed.
    pub report: Option<EnrichReport>,
    /// Splice diagnostics, then manifest diagnostics, in rise order.
    pub diagnostics: Vec<Diagnostic>,
}

/// Computes the whole write plan: every entry point spliced, the manifest
/// enriched with the registry's derived options, every skipped piece
/// diagnosed. A missing anchor in any entry point is fatal and yields no
/// plan; a missing or unparseable manifest is not.
pub fn plan_transforms(
    fw: Framework,
    servers: &McpServers,
    entry_points: &Vec<(String, String)>,
    manifest: &Option<(String, String)>,
    agent_name: &str,
    description: &str,
) -> (r: Result<TransformPlan, TemplateError>)
    ensures
        match r {
            Ok(p) => {
                &&& !spec_anchor_missing(fw, servers@, entry_points.deep_view())
                &&& p.spliced.deep_view() == spec_spliced_upto(
                    fw,
                    servers@,
                    entry_points.deep_view(),
                    entry_points.deep_view().len() as int,
                )
                &&& (match manifest.deep_view() {
                    Some(m) => {
                        &&& (p.manifest is Some) == toml_parses(m.1)
                        &&& (p.report is Some) == toml_parses(m.1)
                        &&& (p.manifest matches Some(pm) ==> pm.0@ == m.0)
                        &&& (toml_parses(m.1) ==> ({
                            let d0 = spec_parsed(m.1);
                            &&& (p.report matches Some(rep) ==> {
                                &&& rep.description_set == (doc_table(d0, "agent"@) is Some)
                                &&& rep.name_set == (doc_table(d0, "agent"@) matches Some(ma)
                                    && ma.dom().contains("name"@))
                                &&& rep.options_present == (doc_options(d0) is Some)
                            })
                            &&& (p.manifest matches Some(pm) ==> exists|
                                d2: toml_edit::DocumentMut,
                            |
                                #![trigger doc_text(d2)]
                                {
                                    &&& pm.1@ == doc_text(d2)
                                    &&& doc_table(d2, "agent"@) == spec_enriched_agent(
                                        doc_table(d0, "agent"@),
                                        agent_name@,
                                        description@,
                                    )
                                    &&& doc_options(d2) == (match doc_options(d0) {
                                        Some(mo) => Some(
                                            spec_insert_options(
                                                mo,
                                                spec_all_options(servers@),
                                                spec_all_options(servers@).len() as int,
                                            ),
                                        ),
                                        None => None,
                                    })
                                    &&& forall|t: Seq<char>|
                                        t != "agent"@ && t != "options"@ ==> doc_table(d2, t)
                                            == doc_table(d0, t)
                                })
                        }))
                    },
                    None => p.manifest is None && p.report is None,
                })
                &&& p.diagnostics.deep_view() == spec_splice_diags_upto(
                    fw,
                    servers@,
                    entry_points.deep_view().len() as int,
                ) + spec_manifest_diags(p.report, manifest.deep_view() is Some)
            },
            Err(e) => e == TemplateError::AnchorNotFound && spec_anchor_missing(
                fw,
                servers@,
                entry_points.deep_view(),
            ),
        },
{
    let ghost files = entry_points.deep_view();
    let mut spliced: Vec<(String, String)> = Vec::new();
    let mut diagnostics: Vec<Diagnostic> = Vec::new();
    proof {
        assert(spliced.deep_view() =~~= spec_spliced_upto(fw, servers@, files, 0));
        assert(diagnostics.deep_view() =~~= spec_splice_diags_upto(fw, servers@, 0));
    }
    let mut i: usize = 0;
    while i < entry_points.len()
        invariant
            i <= entry_points@.len(),
            files == entry_points.deep_view(),
            files.len() == entry_points@.len(),
            spliced.deep_view() == spec_spliced_upto(fw, servers@, files, i as int),
            diagnostics.deep_view() == spec_splice_diags_upto(fw, servers@, i as int),
            forall|j: int| 0 <= j < i ==> spec_splice(fw, servers@, files[j].1) is Some,
        decreases entry_points@.len() - i,
    {
        let pair = &entry_points[i];
        proof {
            assert(files[i as int] == (pair.0@, pair.1@));
        }
        match fw {
            Framework::Langchain => {
                match splice_langchain(servers, pair.1.as_str()) {
                    Ok(s) => {
                        spliced.push((pair.0.clone(), s));
                    },
                    Err(e) => {
                        return Err(e);
                    },
                }
            },
            Framework::CoralRs => {
                match splice_coral_rs(servers, pair.1.as_str()) {
                    Ok(p) => {
                        let (s, ds) = p;
                        spliced.push((pair.0.clone(), s));
                        extend_diags(&mut diagnostics, &ds);
                    },
                    Err(e) => {
                        return Err(e);
                    },
                }
            },
        }
        proof {
            assert(spliced.deep_view() =~~= spec_spliced_upto(fw, servers@, files, i + 1));
            assert(diagnostics.deep_view() =~~= spec_splice_diags_upto(fw, servers@, i + 1));
        }
        i += 1;
    }
    let options = servers.all_options();
    let ghost splice_diags = diagnostics.deep_view();
    let (manifest_out, report): (Option<(String, String)>, Option<EnrichReport>) = match manifest {
        Some(m) => {
            match enrich_manifest_text(m.1.as_str(), agent_name, description, &options) {
                Some(enriched) => {
                    let (text, rep) = enriched;
                    proof {
                        let d0 = spec_parsed(m.1@);
                        let opts = options.deep_view();
                        assert(opts == spec_all_options(servers@));
                        let d2 = choose|d2: toml_edit::DocumentMut|
                            #![trigger doc_text(d2)]
                            {
                                &&& text@ == doc_text(d2)
                                &&& doc_table(d2, "agent"@) == spec_enriched_agent(
                                    doc_table(d0, "agent"@),
                                    agent_name@,
                                    description@,
                                )
                                &&& doc_options(d2) == (match doc_options(d0) {
                                    Some(mo) => Some(
                                        spec_insert_options(mo, opts, opts.len() as int),
                                    ),
                                    None => None,
                                })
                                &&& forall|t: Seq<char>|
                                    t != "agent"@ && t != "options"@ ==> doc_table(d2, t)
                                        == doc_table(d0, t)
                            };
                        assert(text@ == doc_text(d2));
                    }
                    if !rep.description_set {
                        diagnostics.push(Diagnostic::MissingAgentTable);
                    }
                    if !rep.name_set {
                        diagnostics.push(Diagnostic::MissingAgentName);
                    }
                    if !rep.options_present {
                        diagnostics.push(Diagnostic::MissingOptionsTable);
                    }
                    proof {
                        assert(diagnostics.deep_view() =~~= splice_diags + spec_report_diags(rep));
                    }
                    (Some((m.0.clone(), text)), Some(rep))
                },
                None => {
                    diagnostics.push(Diagnostic::ManifestParseFailed);
                    proof {
                        assert(diagnostics.deep_view() =~~= splice_diags + seq![
                            DiagView::ManifestParseFailed,
                        ]);
                    }
                    (None, None)
                },
            }
        },
        None => (None, None),
    };
    proof {
        assert(diagnostics.deep_view() =~~= splice_diags + spec_manifest_diags(
            report,
            manifest.deep_view() is Some,
        ));
    }
    Ok(TransformPlan { spliced, manifest: manifest_out, report, diagnostics })
}

} // verus!
