//! End-to-end behavior of the materialization pipeline on concrete inputs.

use coralizer::agent_config::CoralAgent;
use coralizer::diag::{Diagnostic, TemplateError};
use coralizer::frameworks::langchain::splice_langchain;
use coralizer::frameworks::Framework;
use coralizer::manifest::enrich_manifest_text;
use coralizer::mcp_server::{McpServer, McpServers};
use coralizer::pipeline::plan_transforms;
use coralizer::walk::{plan_walk, FileAction};

fn fs_server() -> McpServers {
    let mut servers = McpServers::new();
    assert!(servers.insert_server(
        "fs".to_string(),
        McpServer::Stdio {
            command: "npx".to_string(),
            args: vec![
                "-y".to_string(),
                "@modelcontextprotocol/server-filesystem".to_string(),
                "/tmp".to_string(),
            ],
            env: None,
        },
    ));
    servers
}

fn sse_server() -> McpServers {
    let mut servers = McpServers::new();
    assert!(servers.insert_server(
        "x".to_string(),
        McpServer::Sse {
            url: "https://x/mcp".to_string(),
            headers: Some(vec![("Authorization".to_string(), "API_KEY".to_string())]),
        },
    ));
    servers
}

const TEMPLATE: &str = "MultiServerMCPClient(connections={\"coral\": {\n\"a\": \"b\",\n}rest";

const MANIFEST: &str = "[agent]\nname = \"old\"\nversion = \"1.0.0\"\n\n[options]\n";

#[test]
fn stdio_server_without_env_renders_no_env_section() {
    let servers = fs_server();
    let spliced = splice_langchain(&servers, TEMPLATE).unwrap();
    let expected = "MultiServerMCPClient(connections={\"coral\": {\n\"a\": \"b\",\n},\n\"fs\": {\n    \"transport\": \"stdio\",\n    \"command\": \"npx\",\n    \"args\": [\"-y\", \"@modelcontextprotocol/server-filesystem\", \"/tmp\"]\n}\nrest";
    assert_eq!(spliced, expected);
    assert!(!spliced.contains("\"env\""));
    // and the manifest receives zero new options
    let options = servers.all_options();
    assert!(options.is_empty());
    let (enriched, report) =
        enrich_manifest_text(MANIFEST, "agent-x", "a description", &options).unwrap();
    assert!(report.description_set && report.name_set && report.options_present);
    let doc: toml_edit::DocumentMut = enriched.parse().unwrap();
    let opts = doc.get("options").unwrap().as_table().unwrap();
    assert_eq!(opts.len(), 0);
}

#[test]
fn sse_server_headers_derive_an_option() {
    let servers = sse_server();
    let spliced = splice_langchain(&servers, TEMPLATE).unwrap();
    assert!(spliced.contains("\"transport\": \"sse\""));
    assert!(spliced.contains("\"url\": \"https://x/mcp\""));
    assert!(spliced.contains("\"Authorization\": asserted_env(\"API_KEY\")"));
    let options = servers.all_options();
    assert_eq!(options, vec!["API_KEY".to_string()]);
    let (enriched, _) =
        enrich_manifest_text(MANIFEST, "agent-x", "a description", &options).unwrap();
    let doc: toml_edit::DocumentMut = enriched.parse().unwrap();
    let entry = doc
        .get("options")
        .unwrap()
        .as_table()
        .unwrap()
        .get("API_KEY")
        .unwrap()
        .as_inline_table()
        .unwrap();
    assert_eq!(entry.get("type").unwrap().as_str().unwrap(), "string");
    assert_eq!(entry.get("required").unwrap().as_bool().unwrap(), true);
}

#[test]
fn walk_without_manifest_completes_with_diagnostic() {
    let paths = vec![
        "src/main.py".to_string(),
        "README.md".to_string(),
        "pyproject.toml".to_string(),
    ];
    let plan = plan_walk(Framework::Langchain, &paths);
    assert_eq!(plan.actions.len(), 3);
    assert!(plan.manifest.is_none());
    assert_eq!(plan.actions[0].1, FileAction::Splice);
    assert_eq!(plan.actions[1].1, FileAction::CopyVerbatim);
    assert_eq!(plan.actions[2].1, FileAction::CopyVerbatim);
    let messages: Vec<String> = plan.diagnostics.iter().map(|d| d.message()).collect();
    assert_eq!(
        messages,
        vec!["No coral-agent.toml found in template source.".to_string()]
    );
    // the whole materialization still completes: every file got an action
    // and the transform plan carries no manifest
    let entry_points = vec![("src/main.py".to_string(), TEMPLATE.to_string())];
    let plan = plan_transforms(
        Framework::Langchain,
        &fs_server(),
        &entry_points,
        &None,
        "agent-x",
        "a description",
    )
    .unwrap();
    assert!(plan.manifest.is_none());
    assert!(plan.report.is_none());
    assert_eq!(plan.spliced.len(), 1);
}

#[test]
fn duplicate_manifest_keeps_first_and_diagnoses_second() {
    let paths = vec![
        "coral-agent.toml".to_string(),
        "src/main.py".to_string(),
        "nested/coral-agent.toml".to_string(),
    ];
    let plan = plan_walk(Framework::Langchain, &paths);
    assert_eq!(plan.manifest, Some("coral-agent.toml".to_string()));
    assert_eq!(plan.diagnostics.len(), 1);
    match &plan.diagnostics[0] {
        Diagnostic::DuplicateManifest { path } => {
            assert_eq!(path, "nested/coral-agent.toml")
        }
        other => panic!("unexpected diagnostic: {other:?}"),
    }
}

#[test]
fn missing_anchor_aborts_with_no_plan() {
    let entry_points = vec![(
        "src/main.py".to_string(),
        "print('no client constructed here')".to_string(),
    )];
    let manifest = Some(("coral-agent.toml".to_string(), MANIFEST.to_string()));
    let r = plan_transforms(
        Framework::Langchain,
        &fs_server(),
        &entry_points,
        &manifest,
        "agent-x",
        "a description",
    );
    match r {
        Err(TemplateError::AnchorNotFound) => {}
        Ok(_) => panic!("expected the missing anchor to be fatal"),
    }
}

#[test]
fn splicing_twice_is_byte_identical() {
    let servers = sse_server();
    let once = splice_langchain(&servers, TEMPLATE).unwrap();
    let twice = splice_langchain(&servers, TEMPLATE).unwrap();
    assert_eq!(once, twice);
}

#[test]
fn transform_plan_enriches_manifest_alongside_splices() {
    let entry_points = vec![("src/main.py".to_string(), TEMPLATE.to_string())];
    let manifest = Some(("coral-agent.toml".to_string(), MANIFEST.to_string()));
    let plan = plan_transforms(
        Framework::Langchain,
        &sse_server(),
        &entry_points,
        &manifest,
        "agent-x",
        "does things",
    )
    .unwrap();
    let (mpath, mtext) = plan.manifest.unwrap();
    assert_eq!(mpath, "coral-agent.toml");
    let doc: toml_edit::DocumentMut = mtext.parse().unwrap();
    let agent = doc.get("agent").unwrap().as_table().unwrap();
    assert_eq!(agent.get("name").unwrap().as_str().unwrap(), "agent-x");
    assert_eq!(
        agent.get("description").unwrap().as_str().unwrap(),
        "does things"
    );
    assert_eq!(agent.get("version").unwrap().as_str().unwrap(), "1.0.0");
    assert!(doc
        .get("options")
        .unwrap()
        .as_table()
        .unwrap()
        .contains_key("API_KEY"));
    assert!(plan.diagnostics.is_empty());
}

#[test]
fn unparseable_manifest_is_skipped_not_fatal() {
    let entry_points = vec![("src/main.py".to_string(), TEMPLATE.to_string())];
    let manifest = Some(("coral-agent.toml".to_string(), "not [ valid ( toml".to_string()));
    let plan = plan_transforms(
        Framework::Langchain,
        &fs_server(),
        &entry_points,
        &manifest,
        "agent-x",
        "a description",
    )
    .unwrap();
    assert!(plan.manifest.is_none());
    assert_eq!(plan.spliced.len(), 1);
    let messages: Vec<String> = plan.diagnostics.iter().map(|d| d.message()).collect();
    assert_eq!(
        messages,
        vec!["coral-agent.toml could not be parsed!".to_string()]
    );
}

#[test]
fn manifest_missing_sections_each_diagnosed() {
    let entry_points: Vec<(String, String)> = Vec::new();
    let manifest = Some(("coral-agent.toml".to_string(), "just = \"scalars\"\n".to_string()));
    let plan = plan_transforms(
        Framework::Langchain,
        &sse_server(),
        &entry_points,
        &manifest,
        "agent-x",
        "a description",
    )
    .unwrap();
    let report = plan.report.unwrap();
    assert!(!report.description_set);
    assert!(!report.name_set);
    assert!(!report.options_present);
    let messages: Vec<String> = plan.diagnostics.iter().map(|d| d.message()).collect();
    assert_eq!(
        messages,
        vec![
            "No agent table found in coral-agent.toml!".to_string(),
            "No agent.name key found in coral-agent.toml!".to_string(),
            "No options table found in coral-agent.toml!".to_string(),
        ]
    );
}

#[test]
fn duplicate_option_names_last_write_wins() {
    let mut servers = McpServers::new();
    assert!(servers.insert_server(
        "a".to_string(),
        McpServer::Sse {
            url: "https://a/mcp".to_string(),
            headers: Some(vec![("H1".to_string(), "KEY".to_string())]),
        },
    ));
    assert!(servers.insert_server(
        "b".to_string(),
        McpServer::Sse {
            url: "https://b/mcp".to_string(),
            headers: Some(vec![("H2".to_string(), "KEY".to_string())]),
        },
    ));
    let options = servers.all_options();
    assert_eq!(options, vec!["KEY".to_string(), "KEY".to_string()]);
    let (enriched, _) =
        enrich_manifest_text(MANIFEST, "agent-x", "a description", &options).unwrap();
    let doc: toml_edit::DocumentMut = enriched.parse().unwrap();
    assert_eq!(doc.get("options").unwrap().as_table().unwrap().len(), 1);
}

#[test]
fn realistic_entry_point_splices_after_the_coral_entry() {
    let template = "client = MultiServerMCPClient(\n    connections={\n        \"coral\": {\n            \"transport\": \"sse\",\n            \"url\": coral_url,\n        }\n    }\n)\n";
    let servers = fs_server();
    let spliced = splice_langchain(&servers, template).unwrap();
    // the insertion lands right after the coral entry's closing brace
    let after_coral = spliced.find("        },\n").expect("comma after the coral entry");
    let fs_entry = spliced.find("\"fs\": {").expect("spliced server entry");
    assert!(after_coral < fs_entry);
    // the surrounding dictionary and call survive unchanged at the end
    assert!(spliced.ends_with("    }\n)\n"));
    // splicing an empty registry still closes the coral entry with a comma
    let empty = McpServers::new();
    let spliced = splice_langchain(&empty, template).unwrap();
    assert!(spliced.contains("        },\n\n    }\n)\n"));
    // a fatal anchor error renders its wording
    let err = splice_langchain(&empty, "nothing here").unwrap_err();
    assert_eq!(
        err.message(),
        "entry point does not match the expected template structure"
    );
    assert_eq!(err, TemplateError::AnchorNotFound);
}

#[test]
fn enriched_manifest_round_trips_through_the_parser() {
    let options = vec!["API_KEY".to_string()];
    let (enriched, _) =
        enrich_manifest_text(MANIFEST, "agent-x", "does things", &options).unwrap();
    let agent = CoralAgent::from_toml(&enriched).unwrap();
    assert_eq!(agent.agent.name, "agent-x");
    assert_eq!(agent.agent.version, "1.0.0");
    assert_eq!(agent.agent.description.as_deref(), Some("does things"));
    let opts = agent.options.unwrap();
    assert_eq!(opts.len(), 1);
    assert_eq!(opts[0].0, "API_KEY");
    assert_eq!(opts[0].1.kind, "string");
    assert_eq!(opts[0].1.required, Some(true));
}
