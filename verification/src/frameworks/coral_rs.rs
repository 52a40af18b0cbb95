//! The coral-rs strategy: renders each declared server as a chained
//! builder-method call on the template's agent and splices the chain after
//! the agent's construction. Transports the framework cannot express are
//! skipped with a diagnostic.

use vstd::prelude::*;

use crate::anchor::{find_group_split, regex_group_split};
use crate::diag::{DiagView, Diagnostic, TemplateError};
use crate::mcp_server::{McpServer, McpServers, ServerView};
use crate::text::{append_quoted_args, spec_file_name, spec_quoted_args, str_eq_str};
use crate::Runtime;

verus! {

/// The structural pattern anchoring the splice: the statement constructing
/// the template's agent, up to the first blank-ish line after it, plus the
/// one character that follows.
pub const CORAL_RS_ANCHOR: &'static str =
    r#"let mut agent = Agent::new\((?:.|\w|\n)*?\n\w*\n(?s:.)"#;

/// The chained call rendered for one standard-I/O server.
pub open spec fn cr_stdio_part(name: Seq<char>, command: Seq<char>, args: Seq<Seq<char>>) -> Seq<
    char,
> {
    ".mcp_server(McpConnectionBuilder::stdio(\""@ + command + "\", ["@ + spec_quoted_args(args)
        + "], \""@ + name + "\").connect().await.expect(\"failed to spawn stdio mcp server '"@
        + name + "'\"))"@
}

/// The chained call rendered for one SSE server.
pub open spec fn cr_sse_part(name: Seq<char>, url: Seq<char>) -> Seq<char> {
    ".mcp_server(McpConnectionBuilder::sse(\""@ + url
        + "\").connect().await.expect(\"failed to connect to sse mcp server '"@ + name + "'\"))"@
}

/// The chained call rendered for one server; a streaming-HTTP server renders
/// nothing, the framework cannot express it.
pub open spec fn cr_part(name: Seq<char>, s: ServerView) -> Seq<char> {
    match s {
        ServerView::Stdio { command, args, .. } => cr_stdio_part(name, command, args),
        ServerView::Sse { url, .. } => cr_sse_part(name, url),
        ServerView::Http { .. } => Seq::empty(),
    }
}

/// The chained calls rendered for the first `n` servers, in registry order.
pub open spec fn cr_parts_upto(ss: Seq<(Seq<char>, ServerView)>, n: int) -> Seq<char>
    decreases n,
{
    if n <= 0 {
        Seq::empty()
    } else {
        cr_parts_upto(ss, n - 1) + cr_part(ss[n - 1].0, ss[n - 1].1)
    }
}

/// The full inserted statement: the agent rebound to itself with one chained
/// connection per expressible server.
pub open spec fn cr_insertion(ss: Seq<(Seq<char>, ServerView)>) -> Seq<char> {
    "    agent = agent"@ + cr_parts_upto(ss, ss.len() as int) + ";\n"@
}

/// The diagnostics one server raises under this strategy.
pub open spec fn cr_server_diags(name: Seq<char>, s: ServerView) -> Seq<DiagView> {
    match s {
        ServerView::Stdio { env, .. } => if crate::frameworks::langchain::spec_has_entries(env) {
            seq![DiagView::EnvNotSupported { server: name }]
        } else {
            Seq::empty()
        },
        ServerView::Sse { headers, .. } => if crate::frameworks::langchain::spec_has_entries(
            headers,
        ) {
            seq![DiagView::HeadersNotSupported { server: name }]
        } else {
            Seq::empty()
        },
        ServerView::Http { .. } => seq![DiagView::UnsupportedTransport { server: name }],
    }
}

/// The diagnostics the first `n` servers raise, in registry order.
pub open spec fn cr_diags_upto(ss: Seq<(Seq<char>, ServerView)>, n: int) -> Seq<DiagView>
    decreases n,
{
    if n <= 0 {
        Seq::empty()
    } else {
        cr_diags_upto(ss, n - 1) + cr_server_diags(ss[n - 1].0, ss[n - 1].1)
    }
}

/// All diagnostics the registry raises under this strategy.
pub open spec fn cr_diags(ss: Seq<(Seq<char>, ServerView)>) -> Seq<DiagView> {
    cr_diags_upto(ss, ss.len() as int)
}

/// What splicing produces: the text split at the anchor with the chained
/// connection statement inserted; nothing when the anchor is missing.
pub open spec fn spec_coral_rs_splice(
    ss: Seq<(Seq<char>, ServerView)>,
    text: Seq<char>,
) -> Option<Seq<char>> {
    match regex_group_split(CORAL_RS_ANCHOR@, text, 0) {
        Some((pre, suf, _)) => Some(pre + cr_insertion(ss) + suf),
        None => None,
    }
}

/// Appends the chained call for one standard-I/O server.
fn append_stdio_part(out: &mut String, name: &str, command: &str, args: &Vec<String>)
    ensures
        final(out)@ == old(out)@ + cr_stdio_part(name@, command@, args.deep_view()),
{
    out.append(".mcp_server(McpConnectionBuilder::stdio(\"");
    out.append(command);
    out.append("\", [");
    append_quoted_args(out, args);
    out.append("], \"");
    out.append(name);
    out.append("\").connect().await.expect(\"failed to spawn stdio mcp server '");
    out.append(name);
    out.append("'\"))");
    proof {
        assert(out@ =~= old(out)@ + cr_stdio_part(name@, command@, args.deep_view()));
    }
}

/// Appends the chained call for one SSE server.
fn append_sse_part(out: &mut String, name: &str, url: &str)
    ensures
        final(out)@ == old(out)@ + cr_sse_part(name@, url@),
{
    out.append(".mcp_server(McpConnectionBuilder::sse(\"");
    out.append(url);
    out.append("\").connect().await.expect(\"failed to connect to sse mcp server '");
    out.append(name);
    out.append("'\"))");
    proof {
        assert(out@ =~= old(out)@ + cr_sse_part(name@, url@));
    }
}

/// Builds the inserted statement and the diagnostics, in registry order.
fn coral_rs_insertion(servers: &McpServers) -> (r: (String, Vec<Diagnostic>))
    ensures
        r.0@ == cr_insertion(servers@),
        r.1.deep_view() == cr_diags(servers@),
{
    let mut out = String::from_str("    agent = agent");
    let mut diags: Vec<Diagnostic> = Vec::new();
    proof {
        assert(out@ =~= "    agent = agent"@ + cr_parts_upto(servers@, 0));
        assert(diags.deep_view() =~~= cr_diags_upto(servers@, 0));
    }
    let n = servers.servers.len();
    let mut i: usize = 0;
    while i < n
        invariant
            i <= n,
            n == servers@.len(),
            n == servers.servers@.len(),
            out@ == "    agent = agent"@ + cr_parts_upto(servers@, i as int),
            diags.deep_view() == cr_diags_upto(servers@, i as int),
        decreases n - i,
    {
        let pair = &servers.servers[i];
        proof {
            assert(servers@[i as int] == (pair.0@, pair.1@));
        }
        let ghost pre_diags = diags.deep_view();
        match &pair.1 {
            McpServer::Stdio { command, args, env } => {
                match env {
                    Some(e) => {
                        if e.len() > 0 {
                            diags.push(Diagnostic::EnvNotSupported { server: pair.0.clone() });
                        }
                    },
                    None => {},
                }
                append_stdio_part(&mut out, pair.0.as_str(), command.as_str(), args);
            },
            McpServer::Sse { url, headers } => {
                match headers {
                    Some(h) => {
                        if h.len() > 0 {
                            diags.push(Diagnostic::HeadersNotSupported { server: pair.0.clone() });
                        }
                    },
                    None => {},
                }
                append_sse_part(&mut out, pair.0.as_str(), url.as_str());
            },
            McpServer::Http { .. } => {
                diags.push(Diagnostic::UnsupportedTransport { server: pair.0.clone() });
            },
        }
        proof {
            assert(out@ =~= "    agent = agent"@ + cr_parts_upto(servers@, i + 1));
            assert(diags.deep_view() =~~= cr_diags_upto(servers@, i + 1));
        }
        i += 1;
    }
    out.append(";\n");
    proof {
        assert(out@ =~= cr_insertion(servers@));
    }
    (out, diags)
}

/// The coral-rs rendering strategy: the runtimes the registry requires, and
/// the registry itself.
#[derive(Debug, Clone)]
pub struct CoralRs {
    pub runtimes: Vec<Runtime>,
    pub mcps: McpServers,
}

impl CoralRs {
    /// The strategy's template name.
    pub fn name(&self) -> (r: &'static str)
        ensures
            r@ == "coral-rs"@,
    {
        "coral-rs"
    }

    /// The strategy's template archive: its URL and its file name.
    pub fn artifact(&self) -> (r: (&'static str, &'static str))
        ensures
            r.0@
                == "https://github.com/Coral-Protocol/coral-rs-agent/archive/d55baba502dd17e8a885b4f0d4b70c7613351834.zip"@,
            r.1@ == "d55baba502dd17e8a885b4f0d4b70c7613351834.zip"@,
    {
        (
            "https://github.com/Coral-Protocol/coral-rs-agent/archive/d55baba502dd17e8a885b4f0d4b70c7613351834.zip",
            "d55baba502dd17e8a885b4f0d4b70c7613351834.zip",
        )
    }

    /// Whether the walk should descend into or hand over this entry; build
    /// flavor descriptors are filtered out by name.
    pub fn include_file(file_name: &str) -> (r: bool)
        ensures
            r == !crate::text::spec_starts_with(file_name@, "flake"@),
    {
        !crate::text::starts_with(file_name, "flake")
    }

    /// Whether `path` is the one file this strategy transforms.
    pub fn is_templated_file(&self, path: &str) -> (r: bool)
        ensures
            r == (spec_file_name(path@) == "main.rs"@),
    {
        let name = crate::text::file_name_of(path);
        str_eq_str(name.as_str(), "main.rs")
    }

    /// Splices one chained connection per expressible server into the entry
    /// point, in registry order, and reports the servers it had to skip or
    /// degrade; fails when the anchor pattern is missing.
    pub fn template(&self, contents: &str) -> (r: Result<(String, Vec<Diagnostic>), TemplateError>)
        ensures
            match r {
                Ok(p) => spec_coral_rs_splice(self.mcps@, contents@) == Some(p.0@)
                    && p.1.deep_view() == cr_diags(self.mcps@),
                Err(e) => spec_coral_rs_splice(self.mcps@, contents@) is None && e
                    == TemplateError::AnchorNotFound,
            },
    {
        splice_coral_rs(&self.mcps, contents)
    }
}

/// Splices one chained connection per expressible server into an entry
/// point, in registry order, with the diagnostics raised; fails when the
/// anchor pattern is missing.
pub fn splice_coral_rs(servers: &McpServers, contents: &str) -> (r: Result<
    (String, Vec<Diagnostic>),
    TemplateError,
>)
    ensures
        match r {
            Ok(p) => spec_coral_rs_splice(servers@, contents@) == Some(p.0@) && p.1.deep_view()
                == cr_diags(servers@),
            Err(e) => spec_coral_rs_splice(servers@, contents@) is None && e
                == TemplateError::AnchorNotFound,
        },
{
    match find_group_split(CORAL_RS_ANCHOR, contents, 0) {
        Some((pre, suf, _glen)) => {
            let (ins, diags) = coral_rs_insertion(servers);
            let mut s = pre;
            s.append(ins.as_str());
            s.append(suf.as_str());
            Ok((s, diags))
        },
        None => Err(TemplateError::AnchorNotFound),
    }
}

} // verus!
