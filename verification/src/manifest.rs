//! Manifest and project-metadata enrichment, through the toml_edit crate.
//!
//! A TOML document is carried opaquely as `toml_edit::DocumentMut`; what the
//! enricher reads and writes of it is modelled by two names: the
//! string-valued entries of each top-level table, and the entries of the
//! options table. Everything decided here — which edits apply, which pieces
//! are skipped and diagnosed — is verified against those names.

use vstd::prelude::*;

use crate::diag::PostProcessError;

verus! {

#[verifier::external_type_specification]
#[verifier::external_body]
pub struct ExDocumentMut(toml_edit::DocumentMut);

/// The string-valued entries of top-level table `table` of the document:
/// absent when the document has no standard table of that name, else the map
/// from each key holding a string value to that string.
pub uninterp spec fn doc_table(d: toml_edit::DocumentMut, table: Seq<char>) -> Option<
    Map<Seq<char>, Seq<char>>,
>;

/// The entries of the document's top-level options table: absent when there
/// is no such table, else the map from each option name whose entry is an
/// inline table holding a `type` string and a `required` flag to that pair
/// with the entry's optional description.
pub uninterp spec fn doc_options(d: toml_edit::DocumentMut) -> Option<
    Map<Seq<char>, (Seq<char>, bool, Option<Seq<char>>)>,
>;

/// The document's TOML serialization, a function of the document alone.
pub uninterp spec fn doc_text(d: toml_edit::DocumentMut) -> Seq<char>;

/// Whether a text parses as a TOML document, a function of the text alone.
pub uninterp spec fn toml_parses(text: Seq<char>) -> bool;

/// The document a text parses to, when it parses: parsing is a function of
/// the text alone.
pub uninterp spec fn spec_parsed(text: Seq<char>) -> toml_edit::DocumentMut;

/// Relies on str::parse::<toml_edit::DocumentMut>: parsing rejects exactly
/// the syntactically invalid documents, and depends on the text alone.
#[verifier::external_body]
pub fn parse_document(text: &str) -> (r: Option<toml_edit::DocumentMut>)
    ensures
        r is Some == toml_parses(text@),
        r matches Some(d) ==> d == spec_parsed(text@),
{
    text.parse::<toml_edit::DocumentMut>().ok()
}

/// Relies on toml_edit::DocumentMut's Display: serialization writes the
/// document back out and depends on the document alone. The output is
/// valid TOML that parses back to an equivalent document — the crate's
/// round-trip invariant, with keys and string values escaped on encoding —
/// so the tables and options this library models survive the round trip.
#[verifier::external_body]
pub fn document_to_string(d: &toml_edit::DocumentMut) -> (r: String)
    ensures
        r@ == doc_text(*d),
        toml_parses(r@),
        forall|t: Seq<char>| #[trigger] doc_table(spec_parsed(r@), t) == doc_table(*d, t),
        doc_options(spec_parsed(r@)) == doc_options(*d),
{
    d.to_string()
}

/// Relies on toml_edit::DocumentMut::get and Item::as_table: probing for a
/// top-level standard table reads the document only.
#[verifier::external_body]
pub fn doc_has_options(d: &toml_edit::DocumentMut) -> (r: bool)
    ensures
        r == (doc_options(*d) is Some),
{
    d.get("options").and_then(|t| t.as_table()).is_some()
}

/// Relies on toml_edit::Table::insert reached through DocumentMut::get_mut:
/// setting one string key of one top-level table rewrites exactly that entry
/// and leaves every other table and the options table as they were; when the
/// table is missing nothing changes.
#[verifier::external_body]
pub fn doc_insert_str(d: &mut toml_edit::DocumentMut, table: &str, key: &str, value: &str) -> (r:
    bool)
    ensures
        r == (doc_table(*old(d), table@) is Some),
        r ==> doc_table(*final(d), table@) == Some(
            doc_table(*old(d), table@).unwrap().insert(key@, value@),
        ),
        forall|t: Seq<char>| t != table@ ==> doc_table(*final(d), t) == doc_table(*old(d), t),
        table@ != "options"@ ==> doc_options(*final(d)) == doc_options(*old(d)),
        !r ==> *final(d) == *old(d),
{
    match d.get_mut(table).and_then(|t| t.as_table_mut()) {
        Some(t) => {
            t.insert(
                key,
                toml_edit::Item::Value(
                    toml_edit::Value::String(toml_edit::Formatted::new(value.to_owned())),
                ),
            );
            true
        },
        None => false,
    }
}

/// Relies on toml_edit::Item::get_mut and Item::as_value_mut: overwriting
/// one existing string value of one top-level table rewrites exactly that
/// entry and leaves everything else as it was; when the table or a string
/// value under the key is missing nothing changes.
#[verifier::external_body]
pub fn doc_set_existing_str(
    d: &mut toml_edit::DocumentMut,
    table: &str,
    key: &str,
    value: &str,
) -> (r: bool)
    ensures
        r == (doc_table(*old(d), table@) matches Some(m) && m.dom().contains(key@)),
        r ==> doc_table(*final(d), table@) == Some(
            doc_table(*old(d), table@).unwrap().insert(key@, value@),
        ),
        forall|t: Seq<char>| t != table@ ==> doc_table(*final(d), t) == doc_table(*old(d), t),
        table@ != "options"@ ==> doc_options(*final(d)) == doc_options(*old(d)),
        !r ==> *final(d) == *old(d),
{
    let slot = d.get_mut(table).and_then(|t| t.as_table_mut()).and_then(
        |t| t.get_mut(key),
    ).and_then(|i| i.as_value_mut());
    match slot {
        Some(v) if v.is_str() => {
            *v = toml_edit::Value::String(toml_edit::Formatted::new(value.to_owned()));
            true
        },
        _ => false,
    }
}

/// Relies on toml_edit::Table::insert of an inline table: appending one
/// option entry with `type = "string"` and `required = true` under the
/// options table rewrites exactly that entry, a later write to the same name
/// winning; when the options table is missing nothing changes.
#[verifier::external_body]
pub fn doc_insert_option(d: &mut toml_edit::DocumentMut, name: &str) -> (r: bool)
    ensures
        r == (doc_options(*old(d)) is Some),
        r ==> doc_options(*final(d)) == Some(
            doc_options(*old(d)).unwrap().insert(name@, ("string"@, true, None)),
        ),
        forall|t: Seq<char>| t != "options"@ ==> doc_table(*final(d), t) == doc_table(*old(d), t),
        !r ==> *final(d) == *old(d),
{
    let mut tbl = toml_edit::InlineTable::new();
    tbl.insert("type", toml_edit::Value::String(toml_edit::Formatted::new("string".to_owned())));
    tbl.insert("required", toml_edit::Value::Boolean(toml_edit::Formatted::new(true)));
    match d.get_mut("options").and_then(|t| t.as_table_mut()) {
        Some(t) => {
            t.insert(name, toml_edit::Item::Value(toml_edit::Value::InlineTable(tbl)));
            true
        },
        None => false,
    }
}

/// Relies on toml_edit::Table::get and Value::as_str: reading one string
/// entry of one top-level table reads the document only.
#[verifier::external_body]
pub fn doc_get_str(d: &toml_edit::DocumentMut, table: &str, key: &str) -> (r: Option<String>)
    ensures
        r.deep_view() == (match doc_table(*d, table@) {
            Some(m) => if m.dom().contains(key@) {
                Some(m[key@])
            } else {
                None
            },
            None => None,
        }),
{
    let entry = d.get(table)?.as_table()?.get(key)?.as_str()?;
    Some(entry.to_owned())
}

/// Relies on toml_edit::Table::iter over the options table: every complete
/// option entry — an inline table holding a `type` string and a `required`
/// flag — read out under its name, each name once, covering the whole
/// table.
#[verifier::external_body]
pub fn doc_option_entries(d: &toml_edit::DocumentMut) -> (r: Option<
    Vec<(String, String, bool, Option<String>)>,
>)
    ensures
        match doc_options(*d) {
            Some(m) => {
                &&& r matches Some(v)
                &&& (forall|k: int|
                    0 <= k < v.deep_view().len() ==> #[trigger] m.contains_pair(
                        v.deep_view()[k].0,
                        (v.deep_view()[k].1, v.deep_view()[k].2, v.deep_view()[k].3),
                    ))
                &&& (forall|a: int, b: int|
                    #![trigger v.deep_view()[a], v.deep_view()[b]]
                    0 <= a < b < v.deep_view().len() ==> v.deep_view()[a].0 != v.deep_view()[b].0)
                &&& (forall|name: Seq<char>|
                    m.dom().contains(name) ==> exists|k: int|
                        0 <= k < v.deep_view().len() && (#[trigger] v.deep_view()[k]).0 == name)
            },
            None => r is None,
        },
{
    let t = d.get("options")?.as_table()?;
    let mut out: Vec<(String, String, bool, Option<String>)> = Vec::new();
    for (name, item) in t.iter() {
        let Some(entry) = item.as_value().and_then(|v| v.as_inline_table()) else { continue };
        let Some(kind) = entry.get("type").and_then(|v| v.as_str()) else { continue };
        let Some(required) = entry.get("required").and_then(|v| v.as_bool()) else { continue };
        let description = entry.get("description").and_then(|v| v.as_str()).map(str::to_owned);
        out.push((name.to_owned(), kind.to_owned(), required, description));
    }
    Some(out)
}

/// What enrichment leaves in the agent table: the description always set,
/// the name set when a name entry was already there; an absent table stays
/// absent.
pub open spec fn spec_enriched_agent(
    t: Option<Map<Seq<char>, Seq<char>>>,
    agent_name: Seq<char>,
    description: Seq<char>,
) -> Option<Map<Seq<char>, Seq<char>>> {
    match t {
        Some(m) => Some(
            if m.dom().contains("name"@) {
                m.insert("description"@, description).insert("name"@, agent_name)
            } else {
                m.insert("description"@, description)
            },
        ),
        None => None,
    }
}

/// The options table after appending the first `n` derived options in
/// order; a repeated name keeps the later entry.
pub open spec fn spec_insert_options(
    m: Map<Seq<char>, (Seq<char>, bool, Option<Seq<char>>)>,
    opts: Seq<Seq<char>>,
    n: int,
) -> Map<Seq<char>, (Seq<char>, bool, Option<Seq<char>>)>
    decreases n,
{
    if n <= 0 {
        m
    } else {
        spec_insert_options(m, opts, n - 1).insert(opts[n - 1], ("string"@, true, None))
    }
}

/// Which enrichment steps applied; each false flag is a diagnosed, skipped
/// piece.
#[derive(Debug, Clone, Copy, PartialEq, Eq, Structural)]
pub struct EnrichReport {
    /// The agent table was present, so the description was written.
    pub description_set: bool,
    /// The agent table held a name entry, so the agent name was written.
    pub name_set: bool,
    /// The options table was present, so the derived options were appended.
    pub options_present: bool,
}

/// Enriches a manifest document: sets the synthesized description, the
/// agent's declared name, and appends one `{type = "string", required =
/// true}` entry per derived option, in order, later writes to one name
/// winning. Each missing piece is skipped and reported, never fatal.
pub fn enrich_document(
    d: &mut toml_edit::DocumentMut,
    agent_name: &str,
    description: &str,
    options: &Vec<String>,
) -> (r: EnrichReport)
    ensures
        r.description_set == (doc_table(*old(d), "agent"@) is Some),
        r.name_set == (doc_table(*old(d), "agent"@) matches Some(m) && m.dom().contains("name"@)),
        r.options_present == (doc_options(*old(d)) is Some),
        doc_table(*final(d), "agent"@) == spec_enriched_agent(
            doc_table(*old(d), "agent"@),
            agent_name@,
            description@,
        ),
        doc_options(*final(d)) == (match doc_options(*old(d)) {
            Some(m) => Some(
                spec_insert_options(m, options.deep_view(), options.deep_view().len() as int),
            ),
            None => None,
        }),
        forall|t: Seq<char>|
            t != "agent"@ && t != "options"@ ==> doc_table(*final(d), t) == doc_table(*old(d), t),
{
    proof {
        reveal_strlit("name");
        reveal_strlit("description");
        reveal_strlit("agent");
        reveal_strlit("options");
        assert("name"@ != "description"@) by {
            assert("name"@.len() == 4);
            assert("description"@.len() == 11);
        }
        assert("agent"@ != "options"@) by {
            assert("agent"@.len() == 5);
            assert("options"@.len() == 7);
        }
    }
    let description_set = doc_insert_str(d, "agent", "description", description);
    let name_set = doc_set_existing_str(d, "agent", "name", agent_name);
    let options_present = doc_has_options(d);
    let ghost mid = *d;
    let ghost dv = options.deep_view();
    if options_present {
        let mut i: usize = 0;
        while i < options.len()
            invariant
                i <= options@.len(),
                dv == options.deep_view(),
                dv.len() == options@.len(),
                doc_options(mid) is Some,
                doc_options(*d) == Some(
                    spec_insert_options(doc_options(mid).unwrap(), dv, i as int),
                ),
                "agent"@ != "options"@,
                forall|t: Seq<char>| t != "options"@ ==> doc_table(*d, t) == doc_table(mid, t),
            decreases options@.len() - i,
        {
            let ok = doc_insert_option(d, options[i].as_str());
            proof {
                assert(ok);
                assert(options@[i as int]@ == dv[i as int]);
            }
            i += 1;
        }
    }
    EnrichReport { description_set, name_set, options_present }
}

/// Enriches the manifest text: parses it, enriches the document, and writes
/// it back out; nothing when the text is not valid TOML. The report's flags
/// read the parsed document, and the returned text serializes a document
/// enriched from it exactly as `enrich_document` states.
pub fn enrich_manifest_text(
    text: &str,
    agent_name: &str,
    description: &str,
    options: &Vec<String>,
) -> (r: Option<(String, EnrichReport)>)
    ensures
        r is Some == toml_parses(text@),
        r matches Some(p) ==> ({
            let d0 = spec_parsed(text@);
            &&& p.1.description_set == (doc_table(d0, "agent"@) is Some)
            &&& p.1.name_set == (doc_table(d0, "agent"@) matches Some(m) && m.dom().contains(
                "name"@,
            ))
            &&& p.1.options_present == (doc_options(d0) is Some)
            &&& exists|d2: toml_edit::DocumentMut|
                #![trigger doc_text(d2)]
                {
                    &&& p.0@ == doc_text(d2)
                    &&& doc_table(d2, "agent"@) == spec_enriched_agent(
                        doc_table(d0, "agent"@),
                        agent_name@,
                        description@,
                    )
                    &&& doc_options(d2) == (match doc_options(d0) {
                        Some(m) => Some(
                            spec_insert_options(
                                m,
                                options.deep_view(),
                                options.deep_view().len() as int,
                            ),
                        ),
                        None => None,
                    })
                    &&& forall|t: Seq<char>|
                        t != "agent"@ && t != "options"@ ==> doc_table(d2, t) == doc_table(d0, t)
                    &&& toml_parses(p.0@)
                    &&& forall|t: Seq<char>|
                        #[trigger] doc_table(spec_parsed(p.0@), t) == doc_table(d2, t)
                    &&& doc_options(spec_parsed(p.0@)) == doc_options(d2)
                }
        }),
{
    match parse_document(text) {
        Some(mut d) => {
            let rep = enrich_document(&mut d, agent_name, description, options);
            let out = document_to_string(&d);
            proof {
                assert(out@ == doc_text(d));
            }
            Some((out, rep))
        },
        None => None,
    }
}

/// Rewrites a project metadata document: sets the project's name to the
/// agent's and its description to the fixed generated wording; each entry
/// must already exist as a string value.
pub fn update_project_document(d: &mut toml_edit::DocumentMut, agent_name: &str) -> (r: Result<
    (),
    PostProcessError,
>)
    ensures
        match r {
            Ok(_) => {
                &&& (doc_table(*old(d), "project"@) matches Some(m) && m.dom().contains("name"@)
                    && m.dom().contains("description"@))
                &&& doc_table(*final(d), "project"@) == Some(
                    doc_table(*old(d), "project"@).unwrap().insert("name"@, agent_name@).insert(
                        "description"@,
                        "Coralized langchain agent"@,
                    ),
                )
                &&& forall|t: Seq<char>|
                    t != "project"@ ==> doc_table(*final(d), t) == doc_table(*old(d), t)
            },
            Err(e) => {
                &&& (e == PostProcessError::MissingProjectName <==> !(doc_table(
                    *old(d),
                    "project"@,
                ) matches Some(m) && m.dom().contains("name"@)))
                &&& (e == PostProcessError::MissingProjectDescription <==> (doc_table(
                    *old(d),
                    "project"@,
                ) matches Some(m) && m.dom().contains("name"@) && !m.dom().contains(
                    "description"@,
                )))
                &&& (e == PostProcessError::MissingProjectName || e
                    == PostProcessError::MissingProjectDescription)
            },
        },
{
    proof {
        reveal_strlit("name");
        reveal_strlit("description");
        assert("name"@ != "description"@) by {
            assert("name"@.len() == 4);
            assert("description"@.len() == 11);
        }
    }
    if !doc_set_existing_str(d, "project", "name", agent_name) {
        return Err(PostProcessError::MissingProjectName);
    }
    if !doc_set_existing_str(d, "project", "description", "Coralized langchain agent") {
        return Err(PostProcessError::MissingProjectDescription);
    }
    Ok(())
}

/// Rewrites the project metadata text; a text that is not valid TOML is
/// reported as unparseable. On a parsed document the rewrite succeeds
/// exactly when the project table holds name and description as strings,
/// and the result serializes the rewritten document.
pub fn update_pyproject_text(text: &str, agent_name: &str) -> (r: Result<String, PostProcessError>)
    ensures
        (r matches Err(e) && e == PostProcessError::MetadataParseFailed) <==> !toml_parses(text@),
        toml_parses(text@) ==> ({
            let d0 = spec_parsed(text@);
            &&& (r is Ok <==> (doc_table(d0, "project"@) matches Some(m) && m.dom().contains(
                "name"@,
            ) && m.dom().contains("description"@)))
            &&& (r matches Ok(s) ==> exists|d2: toml_edit::DocumentMut|
                #![trigger doc_text(d2)]
                {
                    &&& s@ == doc_text(d2)
                    &&& doc_table(d2, "project"@) == Some(
                        doc_table(d0, "project"@).unwrap().insert("name"@, agent_name@).insert(
                            "description"@,
                            "Coralized langchain agent"@,
                        ),
                    )
                    &&& forall|t: Seq<char>|
                        t != "project"@ ==> doc_table(d2, t) == doc_table(d0, t)
                })
            &&& (r matches Err(e) ==> {
                &&& (e == PostProcessError::MissingProjectName <==> !(doc_table(d0, "project"@)
                    matches Some(m) && m.dom().contains("name"@)))
                &&& (e == PostProcessError::MissingProjectDescription <==> (doc_table(
                    d0,
                    "project"@,
                ) matches Some(m) && m.dom().contains("name"@) && !m.dom().contains(
                    "description"@,
                )))
            })
        }),
{
    match parse_document(text) {
        Some(mut d) => {
            match update_project_document(&mut d, agent_name) {
                Ok(_) => {
                    let out = document_to_string(&d);
                    proof {
                        assert(out@ == doc_text(d));
                    }
                    Ok(out)
                },
                Err(e) => Err(e),
            }
        },
        None => Err(PostProcessError::MetadataParseFailed),
    }
}

/// Sets the package name of a build manifest document to the agent's.
pub fn update_package_document(d: &mut toml_edit::DocumentMut, agent_name: &str) -> (r: Result<
    (),
    PostProcessError,
>)
    ensures
        match r {
            Ok(_) => {
                &&& doc_table(*old(d), "package"@) is Some
                &&& doc_table(*final(d), "package"@) == Some(
                    doc_table(*old(d), "package"@).unwrap().insert("name"@, agent_name@),
                )
                &&& forall|t: Seq<char>|
                    t != "package"@ ==> doc_table(*final(d), t) == doc_table(*old(d), t)
            },
            Err(e) => e == PostProcessError::MissingPackageName && doc_table(*old(d), "package"@)
                is None,
        },
{
    if doc_insert_str(d, "package", "name", agent_name) {
        Ok(())
    } else {
        Err(PostProcessError::MissingPackageName)
    }
}

/// Rewrites the build manifest text; a text that is not valid TOML is
/// reported as unparseable. On a parsed document the rewrite succeeds
/// exactly when the package table exists, and the result serializes the
/// renamed document.
pub fn update_cargo_text(text: &str, agent_name: &str) -> (r: Result<String, PostProcessError>)
    ensures
        (r matches Err(e) && e == PostProcessError::MetadataParseFailed) <==> !toml_parses(text@),
        toml_parses(text@) ==> ({
            let d0 = spec_parsed(text@);
            &&& (r is Ok <==> doc_table(d0, "package"@) is Some)
            &&& (r matches Ok(s) ==> exists|d2: toml_edit::DocumentMut|
                #![trigger doc_text(d2)]
                {
                    &&& s@ == doc_text(d2)
                    &&& doc_table(d2, "package"@) == Some(
                        doc_table(d0, "package"@).unwrap().insert("name"@, agent_name@),
                    )
                    &&& forall|t: Seq<char>|
                        t != "package"@ ==> doc_table(d2, t) == doc_table(d0, t)
                })
            &&& (r matches Err(e) ==> e == PostProcessError::MissingPackageName && doc_table(
                d0,
                "package"@,
            ) is None)
        }),
{
    match parse_document(text) {
        Some(mut d) => {
            match update_package_document(&mut d, agent_name) {
                Ok(_) => {
                    let out = document_to_string(&d);
                    proof {
                        assert(out@ == doc_text(d));
                    }
                    Ok(out)
                },
                Err(e) => Err(e),
            }
        },
        None => Err(PostProcessError::MetadataParseFailed),
    }
}

} // verus!
