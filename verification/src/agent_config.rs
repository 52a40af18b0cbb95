//! The agent's own declaration, as the manifest file states it.

use vstd::prelude::*;

use crate::manifest::{
    doc_get_str, doc_option_entries, doc_options, doc_table, parse_document, spec_parsed,
    toml_parses,
};

verus! {

/// The manifest's agent section: identity and synthesized description.
#[derive(Debug, Clone)]
pub struct AgentDetails {
    pub name: String,
    pub version: String,
    pub description: Option<String>,
}

/// Model of an agent section.
pub struct AgentDetailsView {
    pub name: Seq<char>,
    pub version: Seq<char>,
    pub description: Option<Seq<char>>,
}

impl View for AgentDetails {
    type V = AgentDetailsView;

    open spec fn view(&self) -> AgentDetailsView {
        AgentDetailsView {
            name: self.name@,
            version: self.version@,
            description: self.description.deep_view(),
        }
    }
}

/// One configurable option of the agent: its type tag, whether a value is
/// required, and an optional description.
#[derive(Debug, Clone)]
pub struct AgentOption {
    pub kind: String,
    pub required: Option<bool>,
    pub description: Option<String>,
}

/// Model of an agent option.
pub struct AgentOptionView {
    pub kind: Seq<char>,
    pub required: Option<bool>,
    pub description: Option<Seq<char>>,
}

impl View for AgentOption {
    type V = AgentOptionView;

    open spec fn view(&self) -> AgentOptionView {
        AgentOptionView {
            kind: self.kind@,
            required: self.required,
            description: self.description.deep_view(),
        }
    }
}

impl DeepView for AgentOption {
    type V = AgentOptionView;

    open spec fn deep_view(&self) -> AgentOptionView {
        self.view()
    }
}

/// A parsed manifest: the agent section and its options table.
#[derive(Debug, Clone)]
pub struct CoralAgent {
    pub agent: AgentDetails,
    pub options: Option<Vec<(String, AgentOption)>>,
}

/// Why a manifest does not yield an agent declaration.
#[derive(Debug, Clone, Copy, PartialEq, Eq, Structural)]
pub enum AgentConfigError {
    /// The text is not a valid structured document.
    Unparseable,
    /// The agent section or its name entry is missing.
    MissingName,
    /// The agent section's version entry is missing.
    MissingVersion,
}

/// Reads the agent declaration out of a manifest document: the agent
/// section's name, version and optional description, and every complete
/// option entry, each under its name once.
pub fn agent_from_document(d: &toml_edit::DocumentMut) -> (r: Result<CoralAgent, AgentConfigError>)
    ensures
        match r {
            Ok(a) => {
                &&& (doc_table(*d, "agent"@) matches Some(m) && m.dom().contains("name"@)
                    && m.dom().contains("version"@))
                &&& a.agent@.name == doc_table(*d, "agent"@).unwrap()["name"@]
                &&& a.agent@.version == doc_table(*d, "agent"@).unwrap()["version"@]
                &&& a.agent@.description == (if doc_table(*d, "agent"@).unwrap().dom().contains(
                    "description"@,
                ) {
                    Some(doc_table(*d, "agent"@).unwrap()["description"@])
                } else {
                    None
                })
                &&& (a.options is Some) == (doc_options(*d) is Some)
                &&& (a.options matches Some(v) ==> {
                    let m = doc_options(*d).unwrap();
                    let dv = v.deep_view();
                    &&& (forall|k: int|
                        0 <= k < dv.len() ==> #[trigger] m.contains_pair(
                            dv[k].0,
                            (dv[k].1.kind, dv[k].1.required.unwrap(), dv[k].1.description),
                        ) && dv[k].1.required is Some)
                    &&& (forall|a2: int, b2: int|
                        #![trigger dv[a2], dv[b2]]
                        0 <= a2 < b2 < dv.len() ==> dv[a2].0 != dv[b2].0)
                    &&& (forall|name: Seq<char>|
                        m.dom().contains(name) ==> exists|k: int|
                            0 <= k < dv.len() && (#[trigger] dv[k]).0 == name)
                })
            },
            Err(e) => {
                &&& (e == AgentConfigError::MissingName <==> !(doc_table(*d, "agent"@)
                    matches Some(m) && m.dom().contains("name"@)))
                &&& (e == AgentConfigError::MissingVersion <==> (doc_table(*d, "agent"@)
                    matches Some(m) && m.dom().contains("name"@) && !m.dom().contains(
                    "version"@,
                )))
                &&& (e == AgentConfigError::MissingName || e == AgentConfigError::MissingVersion)
            },
        },
{
    let name = match doc_get_str(d, "agent", "name") {
        Some(n) => n,
        None => {
            return Err(AgentConfigError::MissingName);
        },
    };
    let version = match doc_get_str(d, "agent", "version") {
        Some(v) => v,
        None => {
            return Err(AgentConfigError::MissingVersion);
        },
    };
    let description = doc_get_str(d, "agent", "description");
    let options = match doc_option_entries(d) {
        Some(entries) => {
            let ghost ev = entries.deep_view();
            let mut out: Vec<(String, AgentOption)> = Vec::new();
            let mut i: usize = 0;
            while i < entries.len()
                invariant
                    i <= entries@.len(),
                    ev == entries.deep_view(),
                    ev.len() == entries@.len(),
                    out@.len() == i,
                    forall|k: int|
                        0 <= k < i ==> (#[trigger] out@[k]).0@ == ev[k].0 && out@[k].1@.kind
                            == ev[k].1 && out@[k].1@.required == Some(ev[k].2)
                            && out@[k].1@.description == ev[k].3,
                decreases entries@.len() - i,
            {
                let e = &entries[i];
                out.push(
                    (
                        e.0.clone(),
                        AgentOption {
                            kind: e.1.clone(),
                            required: Some(e.2),
                            description: match &e.3 {
                                Some(s) => Some(s.clone()),
                                None => None,
                            },
                        },
                    ),
                );
                i += 1;
            }
            proof {
                let m = doc_options(*d).unwrap();
                let dv = out.deep_view();
                assert forall|k: int| 0 <= k < dv.len() implies #[trigger] m.contains_pair(
                    dv[k].0,
                    (dv[k].1.kind, dv[k].1.required.unwrap(), dv[k].1.description),
                ) && dv[k].1.required is Some by {
                    assert(out@[k].0@ == ev[k].0);
                    assert(m.contains_pair(ev[k].0, (ev[k].1, ev[k].2, ev[k].3)));
                    assert(dv[k].1.kind == ev[k].1);
                    assert(dv[k].1.required == Some(ev[k].2));
                    assert(dv[k].1.description == ev[k].3);
                }
                assert forall|a2: int, b2: int|
                    #![trigger dv[a2], dv[b2]]
                    0 <= a2 < b2 < dv.len() implies dv[a2].0 != dv[b2].0 by {
                    assert(dv[a2].0 == ev[a2].0);
                    assert(dv[b2].0 == ev[b2].0);
                }
                assert forall|name: Seq<char>| m.dom().contains(name) implies exists|k: int|
                    0 <= k < dv.len() && (#[trigger] dv[k]).0 == name by {
                    let k = choose|k: int| 0 <= k < ev.len() && (#[trigger] ev[k]).0 == name;
                    assert(out@[k].0@ == ev[k].0);
                    assert(dv[k].0 == name);
                }
            }
            Some(out)
        },
        None => None,
    };
    Ok(CoralAgent { agent: AgentDetails { name, version, description }, options })
}

impl CoralAgent {
    /// Parses a manifest text into the agent declaration it states: exactly
    /// `agent_from_document` applied to the parsed document, or the parse
    /// failure.
    pub fn from_toml(content: &str) -> (r: Result<CoralAgent, AgentConfigError>)
        ensures
            (r matches Err(e) && e == AgentConfigError::Unparseable) <==> !toml_parses(content@),
            toml_parses(content@) ==> ({
                let d0 = spec_parsed(content@);
                match r {
                    Ok(a) => {
                        &&& (doc_table(d0, "agent"@) matches Some(m) && m.dom().contains("name"@)
                            && m.dom().contains("version"@))
                        &&& a.agent@.name == doc_table(d0, "agent"@).unwrap()["name"@]
                        &&& a.agent@.version == doc_table(d0, "agent"@).unwrap()["version"@]
                        &&& a.agent@.description == (if doc_table(
                            d0,
                            "agent"@,
                        ).unwrap().dom().contains("description"@) {
                            Some(doc_table(d0, "agent"@).unwrap()["description"@])
                        } else {
                            None
                        })
                        &&& (a.options is Some) == (doc_options(d0) is Some)
                        &&& (a.options matches Some(v) ==> {
                            let m = doc_options(d0).unwrap();
                            let dv = v.deep_view();
                            &&& (forall|k: int|
                                0 <= k < dv.len() ==> #[trigger] m.contains_pair(
                                    dv[k].0,
                                    (
                                        dv[k].1.kind,
                                        dv[k].1.required.unwrap(),
                                        dv[k].1.description,
                                    ),
                                ) && dv[k].1.required is Some)
                            &&& (forall|a2: int, b2: int|
                                #![trigger dv[a2], dv[b2]]
                                0 <= a2 < b2 < dv.len() ==> dv[a2].0 != dv[b2].0)
                            &&& (forall|name: Seq<char>|
                                m.dom().contains(name) ==> exists|k: int|
                                    0 <= k < dv.len() && (#[trigger] dv[k]).0 == name)
                        })
                    },
                    Err(e) => {
                        &&& (e == AgentConfigError::MissingName <==> !(doc_table(d0, "agent"@)
                            matches Some(m) && m.dom().contains("name"@)))
                        &&& (e == AgentConfigError::MissingVersion <==> (doc_table(d0, "agent"@)
                            matches Some(m) && m.dom().contains("name"@) && !m.dom().contains(
                            "version"@,
                        )))
                    },
                }
            }),
    {
        match parse_document(content) {
            Some(d) => {
                match agent_from_document(&d) {
                    Ok(a) => Ok(a),
                    Err(e) => Err(e),
                }
            },
            None => Err(AgentConfigError::Unparseable),
        }
    }
}

} // verus!
