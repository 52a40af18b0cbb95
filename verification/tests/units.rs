//! Unit behavior: text utilities, the declaration flow, client decisions,
//! the coral-rs strategy, and post-processing.

use coralizer::agent_config::{AgentConfigError, CoralAgent};
use coralizer::diag::PostProcessError;
use coralizer::frameworks::coral_rs::{splice_coral_rs, CoralRs};
use coralizer::frameworks::langchain::{insert_runtime_snippet, Langchain};
use coralizer::frameworks::{frameworks_by_language, Framework};
use coralizer::manifest::{update_cargo_text, update_pyproject_text};
use coralizer::mcp_client::{
    aggregate_capabilities, connection_plan, effective_command, spawn_specs, Capability,
    ConnectAttempt, DiscoveryOutcome, NetworkTransport,
};
use coralizer::mcp_server::{
    build_capability_summary, description_request, DescriptionRequest, McpServer, McpServers,
};
use coralizer::text::{contains_sub, ends_with, file_name_of, find_sub, starts_with};
use coralizer::walk::include_entry;
use coralizer::wizard::{build_npx_mcp, build_stdio_mcp, env_entry, split_ws, Mcp, McpKind};
use coralizer::Runtime;

fn cap(name: &str, descriptor: &str) -> Capability {
    Capability {
        name: name.to_string(),
        descriptor: descriptor.to_string(),
    }
}

#[test]
fn substring_search_finds_first_occurrence() {
    assert_eq!(find_sub("abcabc", "bc"), Some(1));
    assert_eq!(find_sub("abc", "zx"), None);
    assert!(contains_sub("npx.cmd", "npx"));
    assert!(!contains_sub("node", "npx"));
    assert!(starts_with("flake.nix", "flake"));
    assert!(!starts_with("main.py", "flake"));
    assert!(ends_with("vendor/.git", ".git"));
    assert!(!ends_with("vendor/git", ".git"));
}

#[test]
fn file_name_takes_last_component() {
    assert_eq!(file_name_of("a/b/coral-agent.toml"), "coral-agent.toml");
    assert_eq!(file_name_of("main.py"), "main.py");
    assert_eq!(file_name_of("dir/"), "");
}

#[test]
fn include_filter_rejects_flakes_and_git() {
    assert!(include_entry(Framework::Langchain, "src/main.py"));
    assert!(!include_entry(Framework::Langchain, "flake.nix"));
    assert!(!include_entry(Framework::Langchain, "sub/flake.lock"));
    assert!(!include_entry(Framework::CoralRs, "template/.git"));
    assert!(!include_entry(Framework::CoralRs, ".git"));
    // only the `.git` component itself is metadata; a file merely ending in
    // the string is handed over
    assert!(include_entry(Framework::Langchain, "notes/x.git"));
}

#[test]
fn runtime_detection_reads_the_command() {
    let npx = McpServer::Stdio {
        command: "npx".to_string(),
        args: vec![],
        env: None,
    };
    let node = McpServer::Stdio {
        command: "node".to_string(),
        args: vec![],
        env: None,
    };
    let sse = McpServer::Sse {
        url: "https://x".to_string(),
        headers: None,
    };
    assert!(matches!(npx.runtime(), Some(Runtime::Npx)));
    assert!(node.runtime().is_none());
    assert!(sse.runtime().is_none());
}

#[test]
fn registry_rejects_duplicate_names() {
    let mut servers = McpServers::new();
    let s = McpServer::Sse {
        url: "https://x".to_string(),
        headers: None,
    };
    assert!(servers.insert_server("a".to_string(), s.clone()));
    assert!(!servers.insert_server("a".to_string(), s));
    assert_eq!(servers.len(), 1);
}

#[test]
fn normalization_fills_blank_renames_and_drops_empty_maps() {
    let mut servers = McpServers::new();
    assert!(servers.insert_server(
        "a".to_string(),
        McpServer::Stdio {
            command: "npx".to_string(),
            args: vec![],
            env: Some(vec![
                ("TOKEN".to_string(), String::new()),
                ("HOST".to_string(), "HOST_OPT".to_string()),
            ]),
        },
    ));
    assert!(servers.insert_server(
        "b".to_string(),
        McpServer::Sse {
            url: "https://x".to_string(),
            headers: Some(vec![]),
        },
    ));
    let n = servers.normalized();
    assert_eq!(
        n.all_options(),
        vec!["TOKEN".to_string(), "HOST_OPT".to_string()]
    );
    match &n.servers[1].1 {
        McpServer::Sse { headers, .. } => assert!(headers.is_none()),
        other => panic!("unexpected server: {other:?}"),
    }
}

#[test]
fn aggregation_skips_failures_and_keeps_order() {
    let results = vec![
        (
            "one".to_string(),
            DiscoveryOutcome::Connected(vec![cap("t1", "{}"), cap("t2", "{}")]),
        ),
        (
            "two".to_string(),
            DiscoveryOutcome::Failed("connection refused".to_string()),
        ),
        (
            "three".to_string(),
            DiscoveryOutcome::Connected(vec![cap("t3", "{}")]),
        ),
    ];
    let (caps, failures) = aggregate_capabilities(&results);
    let names: Vec<&str> = caps.iter().map(|c| c.name.as_str()).collect();
    assert_eq!(names, vec!["t1", "t2", "t3"]);
    assert_eq!(failures, vec!["two".to_string()]);
}

#[test]
fn discovery_spawns_only_stdio_servers_with_placeholders() {
    let mut servers = McpServers::new();
    assert!(servers.insert_server(
        "fs".to_string(),
        McpServer::Stdio {
            command: "npx".to_string(),
            args: vec!["-y".to_string()],
            env: Some(vec![("KEY".to_string(), "OPT".to_string())]),
        },
    ));
    assert!(servers.insert_server(
        "net".to_string(),
        McpServer::Sse {
            url: "https://x".to_string(),
            headers: None,
        },
    ));
    let specs = spawn_specs(&servers, false);
    assert_eq!(specs.len(), 1);
    assert_eq!(specs[0].0, "fs");
    assert_eq!(specs[0].1.command, "npx");
    assert_eq!(
        specs[0].1.env,
        vec![("KEY".to_string(), "dummy".to_string())]
    );
    let windows = spawn_specs(&servers, true);
    assert_eq!(windows[0].1.command, "npx.cmd");
    assert_eq!(effective_command("deno", true), "deno");
}

#[test]
fn description_request_honors_the_bypass() {
    let tools = vec!["{\"name\":\"t1\"}".to_string(), "{\"name\":\"t2\"}".to_string()];
    match description_request(true, &tools) {
        DescriptionRequest::Fixed(s) => assert_eq!(s, "DUMMY DESCRIPTION"),
        other => panic!("unexpected request: {other:?}"),
    }
    match description_request(false, &tools) {
        DescriptionRequest::Prompt(p) => {
            assert!(p.contains("# start of tooling"));
            assert!(p.contains("{\"name\":\"t1\"}\n\n{\"name\":\"t2\"}"));
            assert!(p.contains("generate a short description (10 - 50 words)"));
        }
        other => panic!("unexpected request: {other:?}"),
    }
    assert_eq!(build_capability_summary(&tools), "{\"name\":\"t1\"}\n\n{\"name\":\"t2\"}");
}

#[test]
fn coral_rs_splice_skips_http_with_diagnostics() {
    let mut servers = McpServers::new();
    assert!(servers.insert_server(
        "fs".to_string(),
        McpServer::Stdio {
            command: "deno".to_string(),
            args: vec!["run".to_string()],
            env: None,
        },
    ));
    assert!(servers.insert_server(
        "web".to_string(),
        McpServer::Http {
            url: "https://h/mcp".to_string(),
            headers: None,
        },
    ));
    let template = "fn main() {\nlet mut agent = Agent::new(\nx\n)\nabc\n\nrest\n}\n";
    let (spliced, diags) = splice_coral_rs(&servers, template).unwrap();
    assert!(spliced.contains("agent = agent.mcp_server(McpConnectionBuilder::stdio(\"deno\", [\"run\"], \"fs\")"));
    assert!(!spliced.contains("https://h/mcp"));
    let messages: Vec<String> = diags.iter().map(|d| d.message()).collect();
    assert_eq!(
        messages,
        vec!["skipping server 'web': its transport is not supported by this framework".to_string()]
    );
}

#[test]
fn coral_rs_without_anchor_fails() {
    let servers = McpServers::new();
    assert!(splice_coral_rs(&servers, "fn main() {}").is_err());
}

#[test]
fn wizard_assembles_declarations() {
    let (k, v) = env_entry("API_KEY".to_string(), String::new());
    assert_eq!((k.as_str(), v.as_str()), ("API_KEY", "API_KEY"));
    let (k, v) = env_entry("API_KEY".to_string(), "RENAMED".to_string());
    assert_eq!((k.as_str(), v.as_str()), ("API_KEY", "RENAMED"));

    let m = build_npx_mcp("@org/mcp-server".to_string(), vec![], "--port 1234");
    match &m {
        Mcp::Stdio { command, args, env } => {
            assert_eq!(command, "npx");
            assert_eq!(
                args,
                &vec![
                    "-y".to_string(),
                    "@org/mcp-server".to_string(),
                    "--port".to_string(),
                    "1234".to_string(),
                ]
            );
            assert!(env.is_none());
        }
        other => panic!("unexpected declaration: {other:?}"),
    }
    assert!(m.options().is_empty());

    assert!(build_stdio_mcp("   ", vec![]).is_none());
    let m = build_stdio_mcp(
        "python -m server",
        vec![("A".to_string(), "B".to_string())],
    )
    .unwrap();
    match &m {
        Mcp::Stdio { command, args, env } => {
            assert_eq!(command, "python");
            assert_eq!(args, &vec!["-m".to_string(), "server".to_string()]);
            assert_eq!(env.as_ref().unwrap()[0].1, "B");
        }
        other => panic!("unexpected declaration: {other:?}"),
    }
    assert_eq!(m.options(), vec!["B".to_string()]);

    assert_eq!(split_ws("  a  b\tc\n"), vec!["a", "b", "c"]);
    assert_eq!(split_ws(""), Vec::<String>::new());

    assert_eq!(McpKind::Npx.label(), "npx");
    assert!(matches!(McpKind::Npx.runtime(), Some(Runtime::Npx)));
    assert!(McpKind::Sse.runtime().is_none());
    assert_eq!(McpKind::kinds().len(), 3);
}

#[test]
fn frameworks_classify_and_describe() {
    assert_eq!(
        frameworks_by_language(),
        vec![Framework::Langchain, Framework::CoralRs]
    );
    assert_eq!(Framework::Langchain.display_name(), "Langchain (Python)");
    assert_eq!(Framework::CoralRs.display_name(), "coral-rs (Rust)");
    assert!(Framework::Langchain.is_entry_point("src/main.py"));
    assert!(!Framework::Langchain.is_entry_point("src/main.rs"));
    assert!(Framework::CoralRs.is_entry_point("src/main.rs"));
    let lc = Langchain {
        runtimes: vec![Runtime::Npx],
        mcps: McpServers::new(),
    };
    assert!(lc.needs_node_runtime());
    assert!(lc.is_templated_file("x/main.py"));
    assert_eq!(lc.name(), "langchain-agent");
    assert!(lc.artifact().0.ends_with(".zip"));
    let cr = CoralRs {
        runtimes: vec![],
        mcps: McpServers::new(),
    };
    assert!(!cr.is_templated_file("x/main.py"));
    assert_eq!(cr.name(), "coral-rs");
    assert!(Langchain::include_file("main.py"));
    assert!(!CoralRs::include_file("flake.nix"));
}

#[test]
fn pyproject_rewrite_sets_name_and_fixed_description() {
    let text = "[project]\nname = \"template\"\ndescription = \"old\"\n";
    let updated = update_pyproject_text(text, "agent-x").unwrap();
    let doc: toml_edit::DocumentMut = updated.parse().unwrap();
    let project = doc.get("project").unwrap().as_table().unwrap();
    assert_eq!(project.get("name").unwrap().as_str().unwrap(), "agent-x");
    assert_eq!(
        project.get("description").unwrap().as_str().unwrap(),
        "Coralized langchain agent"
    );
    assert_eq!(
        update_pyproject_text("[project]\ndescription = \"old\"\n", "agent-x"),
        Err(PostProcessError::MissingProjectName)
    );
    assert_eq!(
        update_pyproject_text("[project]\nname = \"t\"\n", "agent-x"),
        Err(PostProcessError::MissingProjectDescription)
    );
    assert_eq!(
        update_pyproject_text("not ( toml", "agent-x"),
        Err(PostProcessError::MetadataParseFailed)
    );
}

#[test]
fn cargo_rewrite_sets_package_name() {
    let text = "[package]\nname = \"template\"\nversion = \"0.1.0\"\n";
    let updated = update_cargo_text(text, "agent-x").unwrap();
    let doc: toml_edit::DocumentMut = updated.parse().unwrap();
    assert_eq!(
        doc.get("package").unwrap().as_table().unwrap().get("name").unwrap().as_str().unwrap(),
        "agent-x"
    );
    assert_eq!(
        update_cargo_text("[lib]\n", "agent-x"),
        Err(PostProcessError::MissingPackageName)
    );
}

#[test]
fn runtime_fixup_inserts_before_the_copy_line() {
    let dockerfile = "FROM base\nCOPY --from=builder --chown=app:app /app/ /app/\nCMD [\"run\"]\n";
    let updated = insert_runtime_snippet(dockerfile, "RUN install-node\n").unwrap();
    assert_eq!(
        updated,
        "FROM base\nRUN install-node\nCOPY --from=builder --chown=app:app /app/ /app/\nCMD [\"run\"]\n"
    );
    assert_eq!(
        insert_runtime_snippet("FROM base\n", "RUN install-node\n"),
        Err(PostProcessError::MissingContainerAnchor)
    );
}

#[test]
fn manifest_parses_into_an_agent_declaration() {
    let text = "[agent]\nname = \"demo\"\nversion = \"0.2.0\"\ndescription = \"d\"\n\n[options]\nAPI_KEY = { type = \"string\", required = true }\n";
    let agent = CoralAgent::from_toml(text).unwrap();
    assert_eq!(agent.agent.name, "demo");
    assert_eq!(agent.agent.version, "0.2.0");
    assert_eq!(agent.agent.description.as_deref(), Some("d"));
    let options = agent.options.unwrap();
    assert_eq!(options.len(), 1);
    assert_eq!(options[0].0, "API_KEY");
    assert_eq!(options[0].1.kind, "string");
    assert_eq!(options[0].1.required, Some(true));
    assert!(options[0].1.description.is_none());

    assert!(matches!(
        CoralAgent::from_toml("not [ toml"),
        Err(AgentConfigError::Unparseable)
    ));
    assert!(matches!(
        CoralAgent::from_toml("[agent]\nversion = \"1\"\n"),
        Err(AgentConfigError::MissingName)
    ));
    assert!(matches!(
        CoralAgent::from_toml("[agent]\nname = \"x\"\n"),
        Err(AgentConfigError::MissingVersion)
    ));
}

#[test]
fn registry_yields_its_servers_in_order() {
    let mut servers = McpServers::new();
    assert!(servers.insert_server(
        "a".to_string(),
        McpServer::Stdio {
            command: "npx".to_string(),
            args: vec!["-y".to_string()],
            env: Some(vec![("K".to_string(), "V".to_string())]),
        },
    ));
    assert!(servers.insert_server(
        "b".to_string(),
        McpServer::Sse {
            url: "https://x".to_string(),
            headers: None,
        },
    ));
    let list = servers.into_servers();
    assert_eq!(list.len(), 2);
    assert!(matches!(&list[0], McpServer::Stdio { command, .. } if command == "npx"));
    assert!(matches!(&list[1], McpServer::Sse { url, .. } if url == "https://x"));
}

#[test]
fn non_string_metadata_values_are_left_alone() {
    // a name entry that is not a string is treated as missing, not overwritten
    assert_eq!(
        update_pyproject_text("[project]\nname = 42\ndescription = \"d\"\n", "agent-x"),
        Err(PostProcessError::MissingProjectName)
    );
}

#[test]
fn discovery_plans_one_attempt_per_server() {
    let mut servers = McpServers::new();
    assert!(servers.insert_server(
        "fs".to_string(),
        McpServer::Stdio {
            command: "npx".to_string(),
            args: vec!["-y".to_string()],
            env: None,
        },
    ));
    assert!(servers.insert_server(
        "events".to_string(),
        McpServer::Sse {
            url: "https://s/mcp".to_string(),
            headers: None,
        },
    ));
    assert!(servers.insert_server(
        "web".to_string(),
        McpServer::Http {
            url: "https://h/mcp".to_string(),
            headers: None,
        },
    ));
    let plan = connection_plan(&servers, false);
    assert_eq!(plan.len(), 3);
    assert_eq!(plan[0].0, "fs");
    assert!(matches!(&plan[0].1, ConnectAttempt::Spawn(spec) if spec.command == "npx"));
    assert_eq!(plan[1].0, "events");
    assert!(matches!(
        &plan[1].1,
        ConnectAttempt::Dial { transport: NetworkTransport::Sse, url } if url == "https://s/mcp"
    ));
    assert_eq!(plan[2].0, "web");
    assert!(matches!(
        &plan[2].1,
        ConnectAttempt::Dial { transport: NetworkTransport::Http, url } if url == "https://h/mcp"
    ));
}
