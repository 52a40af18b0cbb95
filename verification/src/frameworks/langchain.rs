//! The Langchain strategy: renders each declared server as a nested entry of
//! the client's connections dictionary and splices the block right after the
//! template's own "coral" entry.

use vstd::prelude::*;

use crate::anchor::{find_group_split, regex_group_split};
use crate::diag::TemplateError;
use crate::mcp_server::{McpServer, McpServers, ServerView};
use crate::text::{append_quoted_args, spaces, spec_file_name, spec_quoted_args, spec_spaces, spec_starts_with, starts_with, str_eq_str};
use crate::Runtime;

verus! {

/// The structural pattern anchoring the splice: the template constructs its
/// client with a connections dictionary holding one "coral" entry; group 2
/// captures the whitespace run before that entry's closing brace together
/// with the brace, so the split falls right after the brace.
pub const LANGCHAIN_ANCHOR: &'static str =
    r#"MultiServerMCPClient\s*\(\s*connections\s*=\s*\{\s*"coral"\s*:\s*\{(\s*".*,\n)*(\s*})"#;

/// One mapping line: the external name bound to its agent option.
pub open spec fn lc_map_entry(ind: Seq<char>, k: Seq<char>, v: Seq<char>) -> Seq<char> {
    ind + "        \""@ + k + "\": asserted_env(\""@ + v + "\")"@
}

/// Mapping lines each followed by a comma, used for all entries but the last.
pub open spec fn lc_map_commas(ind: Seq<char>, e: Seq<(Seq<char>, Seq<char>)>) -> Seq<char>
    decreases e.len(),
{
    if e.len() == 0 {
        Seq::empty()
    } else {
        lc_map_commas(ind, e.drop_last()) + lc_map_entry(ind, e.last().0, e.last().1) + ",\n"@
    }
}

/// All mapping lines; every entry but the last carries a trailing comma.
pub open spec fn lc_map_entries(ind: Seq<char>, e: Seq<(Seq<char>, Seq<char>)>) -> Seq<char> {
    if e.len() == 0 {
        Seq::empty()
    } else {
        lc_map_commas(ind, e.drop_last()) + lc_map_entry(ind, e.last().0, e.last().1) + "\n"@
    }
}

/// Whether an optional mapping has at least one entry.
pub open spec fn spec_has_entries(m: Option<Seq<(Seq<char>, Seq<char>)>>) -> bool {
    match m {
        Some(e) => e.len() > 0,
        None => false,
    }
}

/// The env sub-block of a standard-I/O entry; empty when the mapping is
/// absent or empty.
pub open spec fn lc_env_section(ind: Seq<char>, env: Option<Seq<(Seq<char>, Seq<char>)>>) -> Seq<
    char,
> {
    if spec_has_entries(env) {
        ind + "    \"env\": {\n"@ + lc_map_entries(ind, env.unwrap()) + ind + "    },\n"@
    } else {
        Seq::empty()
    }
}

/// The headers sub-block of a network entry; empty when the mapping is
/// absent or empty.
pub open spec fn lc_headers_section(
    ind: Seq<char>,
    headers: Option<Seq<(Seq<char>, Seq<char>)>>,
) -> Seq<char> {
    if spec_has_entries(headers) {
        ind + "    \"headers\": {\n"@ + lc_map_entries(ind, headers.unwrap()) + ind + "    }\n"@
    } else {
        Seq::empty()
    }
}

/// A connection entry's closing brace; entries are comma-separated.
pub open spec fn lc_block_end(ind: Seq<char>, last: bool) -> Seq<char> {
    if last {
        ind + "}\n"@
    } else {
        ind + "},\n"@
    }
}

/// The dictionary entry rendered for one standard-I/O server.
pub open spec fn lc_stdio_block(
    ind: Seq<char>,
    name: Seq<char>,
    command: Seq<char>,
    args: Seq<Seq<char>>,
    env: Option<Seq<(Seq<char>, Seq<char>)>>,
    last: bool,
) -> Seq<char> {
    ind + "\""@ + name + "\": {\n"@ + ind + "    \"transport\": \"stdio\",\n"@ + ind
        + "    \"command\": \""@ + command + "\",\n"@ + lc_env_section(ind, env) + ind
        + "    \"args\": ["@ + spec_quoted_args(args) + "]\n"@ + lc_block_end(ind, last)
}

/// The dictionary entry rendered for one network server.
pub open spec fn lc_network_block(
    ind: Seq<char>,
    name: Seq<char>,
    transport: Seq<char>,
    url: Seq<char>,
    headers: Option<Seq<(Seq<char>, Seq<char>)>>,
    last: bool,
) -> Seq<char> {
    ind + "\""@ + name + "\": {\n"@ + ind + "    \"transport\": \""@ + transport + "\",\n"@ + ind
        + "    \"url\": \""@ + url + (if spec_has_entries(headers) {
        "\",\n"@
    } else {
        "\"\n"@
    }) + lc_headers_section(ind, headers) + lc_block_end(ind, last)
}

/// The dictionary entry rendered for one server, per transport.
pub open spec fn lc_block(ind: Seq<char>, name: Seq<char>, s: ServerView, last: bool) -> Seq<
    char,
> {
    match s {
        ServerView::Stdio { command, args, env } => lc_stdio_block(
            ind,
            name,
            command,
            args,
            env,
            last,
        ),
        ServerView::Sse { url, headers } => lc_network_block(ind, name, "sse"@, url, headers, last),
        ServerView::Http { url, headers } => lc_network_block(
            ind,
            name,
            "streamable_http"@,
            url,
            headers,
            last,
        ),
    }
}

/// The entries rendered for the first `n` servers, in registry order.
pub open spec fn lc_blocks_upto(ss: Seq<(Seq<char>, ServerView)>, ind: Seq<char>, n: int) -> Seq<
    char,
>
    decreases n,
{
    if n <= 0 {
        Seq::empty()
    } else {
        lc_blocks_upto(ss, ind, n - 1) + lc_block(ind, ss[n - 1].0, ss[n - 1].1, n == ss.len())
    }
}

/// The full inserted text: a comma closing the template's "coral" entry,
/// then one dictionary entry per declared server, in registry order.
pub open spec fn lc_insertion(ss: Seq<(Seq<char>, ServerView)>, ind: Seq<char>) -> Seq<char> {
    ",\n"@ + lc_blocks_upto(ss, ind, ss.len() as int)
}

/// The indentation drawn from the anchor: the whitespace run's byte length,
/// less the captured brace.
pub open spec fn spec_indent_width(glen: int) -> nat {
    if glen <= 0 {
        0
    } else {
        (glen - 1) as nat
    }
}

/// What splicing produces: the text split at the anchor, with the rendered
/// entries inserted; nothing when the anchor is missing.
pub open spec fn spec_langchain_splice(
    ss: Seq<(Seq<char>, ServerView)>,
    text: Seq<char>,
) -> Option<Seq<char>> {
    match regex_group_split(LANGCHAIN_ANCHOR@, text, 2) {
        Some((pre, suf, glen)) => Some(
            pre + lc_insertion(ss, spec_spaces(spec_indent_width(glen))) + suf,
        ),
        None => None,
    }
}

/// Appends the lines of a non-empty env or headers mapping.
fn append_map_entries(out: &mut String, ind: &str, e: &Vec<(String, String)>)
    requires
        e@.len() > 0,
    ensures
        final(out)@ == old(out)@ + lc_map_entries(ind@, e.deep_view()),
{
    proof {
        assert(out@ =~= old(out)@ + lc_map_commas(ind@, e.deep_view().take(0)));
    }
    let n = e.len();
    let mut i: usize = 0;
    while i < n
        invariant
            i <= n,
            n == e@.len(),
            i < n ==> out@ == old(out)@ + lc_map_commas(ind@, e.deep_view().take(i as int)),
            i == n ==> out@ == old(out)@ + lc_map_entries(ind@, e.deep_view()),
        decreases n - i,
    {
        out.append(ind);
        out.append("        \"");
        out.append(e[i].0.as_str());
        out.append("\": asserted_env(\"");
        out.append(e[i].1.as_str());
        out.append("\")");
        if i + 1 == n {
            out.append("\n");
            proof {
                let dv = e.deep_view();
                assert(dv.drop_last() =~= dv.take(i as int));
                assert(dv.last() == (e@[i as int].0@, e@[i as int].1@));
                assert(out@ =~= old(out)@ + lc_map_entries(ind@, dv));
            }
        } else {
            out.append(",\n");
            proof {
                let dv = e.deep_view();
                assert(dv.take(i + 1).drop_last() =~= dv.take(i as int));
                assert(dv.take(i + 1).last() == (e@[i as int].0@, e@[i as int].1@));
                assert(out@ =~= old(out)@ + lc_map_commas(ind@, dv.take(i + 1)));
            }
        }
        i += 1;
    }
}

/// Appends the dictionary entry for one standard-I/O server.
#[verifier::rlimit(80)]
fn append_stdio_block(
    out: &mut String,
    ind: &str,
    name: &str,
    command: &str,
    args: &Vec<String>,
    env: Option<&Vec<(String, String)>>,
    last: bool,
)
    ensures
        final(out)@ == old(out)@ + lc_stdio_block(
            ind@,
            name@,
            command@,
            args.deep_view(),
            env.deep_view(),
            last,
        ),
{
    out.append(ind);
    out.append("\"");
    out.append(name);
    out.append("\": {\n");
    out.append(ind);
    out.append("    \"transport\": \"stdio\",\n");
    out.append(ind);
    out.append("    \"command\": \"");
    out.append(command);
    out.append("\",\n");
    let ghost mid = out@;
    match env {
        Some(e) => {
            if e.len() > 0 {
                out.append(ind);
                out.append("    \"env\": {\n");
                append_map_entries(out, ind, e);
                out.append(ind);
                out.append("    },\n");
                proof {
                    assert(out@ =~= mid + lc_env_section(ind@, env.deep_view()));
                }
            } else {
                proof {
                    assert(out@ =~= mid + lc_env_section(ind@, env.deep_view()));
                }
            }
        },
        None => {
            proof {
                assert(out@ =~= mid + lc_env_section(ind@, env.deep_view()));
            }
        },
    }
    out.append(ind);
    out.append("    \"args\": [");
    append_quoted_args(out, args);
    out.append("]\n");
    out.append(ind);
    if last {
        out.append("}\n");
    } else {
        out.append("},\n");
    }
    proof {
        assert(out@ =~= old(out)@ + lc_stdio_block(
            ind@,
            name@,
            command@,
            args.deep_view(),
            env.deep_view(),
            last,
        ));
    }
}

/// Appends the dictionary entry for one network server.
#[verifier::rlimit(80)]
fn append_network_block(
    out: &mut String,
    ind: &str,
    name: &str,
    transport: &str,
    url: &str,
    headers: Option<&Vec<(String, String)>>,
    last: bool,
)
    ensures
        final(out)@ == old(out)@ + lc_network_block(
            ind@,
            name@,
            transport@,
            url@,
            headers.deep_view(),
            last,
        ),
{
    out.append(ind);
    out.append("\"");
    out.append(name);
    out.append("\": {\n");
    out.append(ind);
    out.append("    \"transport\": \"");
    out.append(transport);
    out.append("\",\n");
    out.append(ind);
    out.append("    \"url\": \"");
    out.append(url);
    let ghost mid = out@;
    match headers {
        Some(h) => {
            if h.len() > 0 {
                out.append("\",\n");
                out.append(ind);
                out.append("    \"headers\": {\n");
                append_map_entries(out, ind, h);
                out.append(ind);
                out.append("    }\n");
                proof {
                    assert(out@ =~= mid + (if spec_has_entries(headers.deep_view()) {
                        "\",\n"@
                    } else {
                        "\"\n"@
                    }) + lc_headers_section(ind@, headers.deep_view()));
                }
            } else {
                out.append("\"\n");
                proof {
                    assert(out@ =~= mid + (if spec_has_entries(headers.deep_view()) {
                        "\",\n"@
                    } else {
                        "\"\n"@
                    }) + lc_headers_section(ind@, headers.deep_view()));
                }
            }
        },
        None => {
            out.append("\"\n");
            proof {
                assert(out@ =~= mid + (if spec_has_entries(headers.deep_view()) {
                    "\",\n"@
                } else {
                    "\"\n"@
                }) + lc_headers_section(ind@, headers.deep_view()));
            }
        },
    }
    out.append(ind);
    if last {
        out.append("}\n");
    } else {
        out.append("},\n");
    }
    proof {
        assert(out@ =~= old(out)@ + lc_network_block(
            ind@,
            name@,
            transport@,
            url@,
            headers.deep_view(),
            last,
        ));
    }
}

/// Builds the full inserted text for a registry, in registry order.
fn langchain_insertion(servers: &McpServers, ind: &str) -> (r: String)
    ensures
        r@ == lc_insertion(servers@, ind@),
{
    let mut out = String::from_str(",\n");
    proof {
        assert(out@ =~= ",\n"@ + lc_blocks_upto(servers@, ind@, 0));
    }
    let n = servers.servers.len();
    let mut i: usize = 0;
    while i < n
        invariant
            i <= n,
            n == servers@.len(),
            n == servers.servers@.len(),
            out@ == ",\n"@ + lc_blocks_upto(servers@, ind@, i as int),
        decreases n - i,
    {
        let last = i + 1 == n;
        let pair = &servers.servers[i];
        proof {
            assert(servers@[i as int] == (pair.0@, pair.1@));
        }
        match &pair.1 {
            McpServer::Stdio { command, args, env } => {
                let env_ref = env.as_ref();
                append_stdio_block(
                    &mut out,
                    ind,
                    pair.0.as_str(),
                    command.as_str(),
                    args,
                    env_ref,
                    last,
                );
                proof {
                    assert(env_ref.deep_view() =~~= env.deep_view());
                }
            },
            McpServer::Sse { url, headers } => {
                let headers_ref = headers.as_ref();
                append_network_block(
                    &mut out,
                    ind,
                    pair.0.as_str(),
                    "sse",
                    url.as_str(),
                    headers_ref,
                    last,
                );
                proof {
                    assert(headers_ref.deep_view() =~~= headers.deep_view());
                }
            },
            McpServer::Http { url, headers } => {
                let headers_ref = headers.as_ref();
                append_network_block(
                    &mut out,
                    ind,
                    pair.0.as_str(),
                    "streamable_http",
                    url.as_str(),
                    headers_ref,
                    last,
                );
                proof {
                    assert(headers_ref.deep_view() =~~= headers.deep_view());
                }
            },
        }
        proof {
            assert(out@ =~= ",\n"@ + lc_blocks_upto(servers@, ind@, i + 1));
        }
        i += 1;
    }
    out
}

/// The Langchain rendering strategy: the runtimes the registry requires, and
/// the registry itself.
#[derive(Debug, Clone)]
pub struct Langchain {
    pub runtimes: Vec<Runtime>,
    pub mcps: McpServers,
}

impl Langchain {
    /// The strategy's template name.
    pub fn name(&self) -> (r: &'static str)
        ensures
            r@ == "langchain-agent"@,
    {
        "langchain-agent"
    }

    /// The strategy's template archive: its URL and its file name.
    pub fn artifact(&self) -> (r: (&'static str, &'static str))
        ensures
            r.0@
                == "https://github.com/Coral-Protocol/langchain-agent/archive/d77845581b94e17c39bfcf0f57c6faf89bdc90d2.zip"@,
            r.1@ == "d77845581b94e17c39bfcf0f57c6faf89bdc90d2.zip"@,
    {
        (
            "https://github.com/Coral-Protocol/langchain-agent/archive/d77845581b94e17c39bfcf0f57c6faf89bdc90d2.zip",
            "d77845581b94e17c39bfcf0f57c6faf89bdc90d2.zip",
        )
    }

    /// Whether the walk should descend into or hand over this entry; build
    /// flavor descriptors are filtered out by name.
    pub fn include_file(file_name: &str) -> (r: bool)
        ensures
            r == !spec_starts_with(file_name@, "flake"@),
    {
        !starts_with(file_name, "flake")
    }

    /// Whether `path` is the one file this strategy transforms.
    pub fn is_templated_file(&self, path: &str) -> (r: bool)
        ensures
            r == (spec_file_name(path@) == "main.py"@),
    {
        let name = crate::text::file_name_of(path);
        str_eq_str(name.as_str(), "main.py")
    }

    /// Splices one connection entry per declared server into the entry
    /// point, in registry order; fails when the anchor pattern is missing.
    pub fn template(&self, contents: &str) -> (r: Result<String, TemplateError>)
        ensures
            match r {
                Ok(s) => spec_langchain_splice(self.mcps@, contents@) == Some(s@),
                Err(e) => spec_langchain_splice(self.mcps@, contents@) is None && e
                    == TemplateError::AnchorNotFound,
            },
    {
        splice_langchain(&self.mcps, contents)
    }

    /// Whether post-processing must add the Node runtime to the container
    /// build.
    pub fn needs_node_runtime(&self) -> (r: bool)
        ensures
            r == self.runtimes@.contains(Runtime::Npx),
    {
        runtimes_contain_npx(&self.runtimes)
    }
}

/// Whether a runtime list asks for the Node launcher.
pub fn runtimes_contain_npx(runtimes: &Vec<Runtime>) -> (r: bool)
    ensures
        r == runtimes@.contains(Runtime::Npx),
{
    let mut i: usize = 0;
    while i < runtimes.len()
        invariant
            i <= runtimes@.len(),
            forall|j: int| 0 <= j < i ==> runtimes@[j] != Runtime::Npx,
        decreases runtimes@.len() - i,
    {
        match runtimes[i] {
            Runtime::Npx => {
                proof {
                    assert(runtimes@[i as int] == Runtime::Npx);
                }
                return true;
            },
        }
    }
    false
}

/// Splices one connection entry per declared server into an entry point, in
/// registry order; fails when the anchor pattern is missing.
pub fn splice_langchain(servers: &McpServers, contents: &str) -> (r: Result<String, TemplateError>)
    ensures
        match r {
            Ok(s) => spec_langchain_splice(servers@, contents@) == Some(s@),
            Err(e) => spec_langchain_splice(servers@, contents@) is None && e
                == TemplateError::AnchorNotFound,
        },
{
    match find_group_split(LANGCHAIN_ANCHOR, contents, 2) {
        Some((pre, suf, glen)) => {
            let indw: usize = if glen == 0 {
                0
            } else {
                glen - 1
            };
            let ind = spaces(indw);
            let ins = langchain_insertion(servers, ind.as_str());
            let mut s = pre;
            s.append(ins.as_str());
            s.append(suf.as_str());
            Ok(s)
        },
        None => Err(TemplateError::AnchorNotFound),
    }
}

/// The line of the container build file that the Node runtime's directives
/// are inserted before.
pub const CONTAINER_COPY_LINE: &'static str = "COPY --from=builder --chown=app:app /app/ /app/";

/// Inserts the Node runtime's build directives right before the first copy
/// line of the container build file; fails when that line is missing.
pub fn insert_runtime_snippet(dockerfile: &str, snippet: &str) -> (r: Result<
    String,
    crate::diag::PostProcessError,
>)
    ensures
        match r {
            Ok(s) => exists|i: int|
                {
                    &&& #[trigger] crate::text::spec_match_at(dockerfile@, CONTAINER_COPY_LINE@, i)
                    &&& (forall|j: int|
                        0 <= j < i ==> !crate::text::spec_match_at(
                            dockerfile@,
                            CONTAINER_COPY_LINE@,
                            j,
                        ))
                    &&& s@ == dockerfile@.take(i) + snippet@ + dockerfile@.skip(i)
                },
            Err(e) => e == crate::diag::PostProcessError::MissingContainerAnchor
                && !crate::text::spec_contains_sub(dockerfile@, CONTAINER_COPY_LINE@),
        },
{
    match crate::text::find_sub(dockerfile, CONTAINER_COPY_LINE) {
        Some(i) => Ok(crate::text::insert_at(dockerfile, i, snippet)),
        None => Err(crate::diag::PostProcessError::MissingContainerAnchor),
    }
}

} // verus!
