//! Declared tool servers: the validated registry that drives option
//! derivation, capability discovery and code splicing.

use vstd::prelude::*;

use crate::Runtime;
use crate::text::{contains_sub, spec_contains_sub, str_eq_str};

verus! {

/// One declared tool server: a standard-I/O process, or a network endpoint
/// reached over SSE or streaming HTTP. `env` and `headers` map an external
/// variable or header name to the agent option that will supply its value.
#[derive(Debug, Clone)]
pub enum McpServer {
    Sse { url: String, headers: Option<Vec<(String, String)>> },
    Http { url: String, headers: Option<Vec<(String, String)>> },
    Stdio { command: String, args: Vec<String>, env: Option<Vec<(String, String)>> },
}

/// Mathematical model of a declared server.
pub enum ServerView {
    Sse { url: Seq<char>, headers: Option<Seq<(Seq<char>, Seq<char>)>> },
    Http { url: Seq<char>, headers: Option<Seq<(Seq<char>, Seq<char>)>> },
    Stdio { command: Seq<char>, args: Seq<Seq<char>>, env: Option<Seq<(Seq<char>, Seq<char>)>> },
}

impl View for McpServer {
    type V = ServerView;

    open spec fn view(&self) -> ServerView {
        match self {
            McpServer::Sse { url, headers } => ServerView::Sse {
                url: url@,
                headers: headers.deep_view(),
            },
            McpServer::Http { url, headers } => ServerView::Http {
                url: url@,
                headers: headers.deep_view(),
            },
            McpServer::Stdio { command, args, env } => ServerView::Stdio {
                command: command@,
                args: args.deep_view(),
                env: env.deep_view(),
            },
        }
    }
}

impl DeepView for McpServer {
    type V = ServerView;

    open spec fn deep_view(&self) -> ServerView {
        self.view()
    }
}

impl McpServer {
    /// Copies a server declaration.
    pub fn duplicate(&self) -> (r: McpServer)
        ensures
            r@ == self@,
    {
        match self {
            McpServer::Sse { url, headers } => McpServer::Sse {
                url: url.clone(),
                headers: match headers {
                    Some(h) => Some(crate::text::clone_pairs(h)),
                    None => None,
                },
            },
            McpServer::Http { url, headers } => McpServer::Http {
                url: url.clone(),
                headers: match headers {
                    Some(h) => Some(crate::text::clone_pairs(h)),
                    None => None,
                },
            },
            McpServer::Stdio { command, args, env } => McpServer::Stdio {
                command: command.clone(),
                args: crate::text::clone_strings(args),
                env: match env {
                    Some(e) => Some(crate::text::clone_pairs(e)),
                    None => None,
                },
            },
        }
    }
}

/// The registry: servers in a fixed declaration order, names unique.
#[derive(Debug, Clone)]
pub struct McpServers {
    pub servers: Vec<(String, McpServer)>,
}

impl View for McpServers {
    type V = Seq<(Seq<char>, ServerView)>;

    open spec fn view(&self) -> Seq<(Seq<char>, ServerView)> {
        Seq::new(self.servers@.len(), |i: int| (self.servers@[i].0@, self.servers@[i].1@))
    }
}

/// The second components of a name mapping: the derived option names.
pub open spec fn spec_value_names(m: Seq<(Seq<char>, Seq<char>)>) -> Seq<Seq<char>> {
    Seq::new(m.len(), |i: int| m[i].1)
}

/// The option names a server derives: the values of its `env` or `headers`
/// mapping, in declaration order; absent when the mapping is absent.
pub open spec fn spec_options(s: ServerView) -> Option<Seq<Seq<char>>> {
    match s {
        ServerView::Stdio { env, .. } => match env {
            Some(e) => Some(spec_value_names(e)),
            None => None,
        },
        ServerView::Sse { headers, .. } => match headers {
            Some(h) => Some(spec_value_names(h)),
            None => None,
        },
        ServerView::Http { headers, .. } => match headers {
            Some(h) => Some(spec_value_names(h)),
            None => None,
        },
    }
}

/// A standard-I/O server whose command mentions the Node launcher needs that
/// runtime in the materialized project.
pub open spec fn spec_runtime(s: ServerView) -> Option<Runtime> {
    match s {
        ServerView::Stdio { command, .. } => if spec_contains_sub(command, "npx"@) {
            Some(Runtime::Npx)
        } else {
            None
        },
        _ => None,
    }
}

/// Collects the values of a name mapping, in order.
fn mapping_values(m: &Vec<(String, String)>) -> (r: Vec<String>)
    ensures
        r.deep_view() == spec_value_names(m.deep_view()),
{
    let mut out: Vec<String> = Vec::new();
    let mut i: usize = 0;
    while i < m.len()
        invariant
            i <= m@.len(),
            out@.len() == i,
            forall|j: int| 0 <= j < i ==> out@[j]@ == m@[j].1@,
        decreases m@.len() - i,
    {
        out.push(m[i].1.clone());
        i += 1;
    }
    proof {
        assert(out.deep_view() =~~= spec_value_names(m.deep_view()));
    }
    out
}

impl McpServer {
    /// The agent options this server derives, one per mapping entry.
    pub fn options(&self) -> (r: Option<Vec<String>>)
        ensures
            r.deep_view() == spec_options(self@),
    {
        match self {
            McpServer::Stdio { env, .. } => match env {
                Some(e) => Some(mapping_values(e)),
                None => None,
            },
            McpServer::Sse { headers, .. } => match headers {
                Some(h) => Some(mapping_values(h)),
                None => None,
            },
            McpServer::Http { headers, .. } => match headers {
                Some(h) => Some(mapping_values(h)),
                None => None,
            },
        }
    }

    /// The runtime the materialized project needs to launch this server.
    pub fn runtime(&self) -> (r: Option<Runtime>)
        ensures
            r == spec_runtime(self@),
    {
        match self {
            McpServer::Stdio { command, .. } => {
                if contains_sub(command.as_str(), "npx") {
                    Some(Runtime::Npx)
                } else {
                    None
                }
            },
            _ => None,
        }
    }
}

/// The options a server contributes to the aggregate list: none when its
/// mapping is absent.
pub open spec fn spec_contributed(s: ServerView) -> Seq<Seq<char>> {
    match spec_options(s) {
        Some(v) => v,
        None => Seq::empty(),
    }
}

/// The options derived by the first `n` servers, concatenated in registry
/// order.
pub open spec fn spec_all_options_upto(ss: Seq<(Seq<char>, ServerView)>, n: int) -> Seq<Seq<char>>
    decreases n,
{
    if n <= 0 {
        Seq::empty()
    } else {
        spec_all_options_upto(ss, n - 1) + spec_contributed(ss[n - 1].1)
    }
}

/// All options derived by a registry, in registry order.
pub open spec fn spec_all_options(ss: Seq<(Seq<char>, ServerView)>) -> Seq<Seq<char>> {
    spec_all_options_upto(ss, ss.len() as int)
}

/// Registry well-formedness: server names are unique.
pub open spec fn spec_unique_names(ss: Seq<(Seq<char>, ServerView)>) -> bool {
    forall|i: int, j: int| 0 <= i < j < ss.len() ==> ss[i].0 != ss[j].0
}

impl McpServers {
    /// An empty registry.
    pub fn new() -> (r: McpServers)
        ensures
            r@ =~= Seq::<(Seq<char>, ServerView)>::empty(),
            spec_unique_names(r@),
    {
        McpServers { servers: Vec::new() }
    }

    pub open spec fn wf(&self) -> bool {
        spec_unique_names(self@)
    }

    /// Number of declared servers.
    pub fn len(&self) -> (r: usize)
        ensures
            r == self@.len(),
    {
        self.servers.len()
    }

    /// Adds a server under a fresh name; rejects a duplicate name.
    pub fn insert_server(&mut self, name: String, server: McpServer) -> (r: bool)
        requires
            old(self).wf(),
        ensures
            final(self).wf(),
            r == (forall|i: int| 0 <= i < old(self)@.len() ==> old(self)@[i].0 != name@),
            r ==> final(self)@ =~= old(self)@.push((name@, server@)),
            !r ==> final(self)@ == old(self)@,
    {
        let mut i: usize = 0;
        while i < self.servers.len()
            invariant
                old(self).wf(),
                self == old(self),
                i <= self.servers@.len(),
                forall|j: int| 0 <= j < i ==> self@[j].0 != name@,
            decreases self.servers@.len() - i,
        {
            if str_eq_str(self.servers[i].0.as_str(), name.as_str()) {
                proof {
                    assert(self@[i as int].0 == name@);
                }
                return false;
            }
            i += 1;
        }
        let ghost pre = self@;
        self.servers.push((name, server));
        proof {
            assert(self@ =~= pre.push((name@, server@)));
            assert forall|a: int, b: int| 0 <= a < b < self@.len() implies self@[a].0
                != self@[b].0 by {
                if b < pre.len() {
                } else {
                    assert(self@[b].0 == name@);
                }
            }
        }
        true
    }

    /// All agent options derived by the registry, in registry order.
    pub fn all_options(&self) -> (r: Vec<String>)
        ensures
            r.deep_view() == spec_all_options(self@),
    {
        let mut out: Vec<String> = Vec::new();
        let mut i: usize = 0;
        while i < self.servers.len()
            invariant
                i <= self.servers@.len(),
                out.deep_view() == spec_all_options_upto(self@, i as int),
            decreases self.servers@.len() - i,
        {
            let ghost pre = out.deep_view();
            match self.servers[i].1.options() {
                Some(opts) => {
                    proof {
                        assert(self.servers@[i as int].1@ == self@[i as int].1);
                        assert(opts.deep_view() == spec_contributed(self@[i as int].1));
                    }
                    let ghost addend = opts.deep_view();
                    let mut k: usize = 0;
                    while k < opts.len()
                        invariant
                            k <= opts@.len(),
                            addend == opts.deep_view(),
                            addend.len() == opts@.len(),
                            out@.len() == pre.len() + k,
                            forall|j: int| 0 <= j < pre.len() ==> out@[j]@ == pre[j],
                            forall|j: int| 0 <= j < k ==> out@[pre.len() + j]@ == addend[j],
                        decreases opts@.len() - k,
                    {
                        out.push(opts[k].clone());
                        k += 1;
                    }
                    proof {
                        assert(out.deep_view() =~~= pre + addend);
                    }
                },
                None => {
                    proof {
                        assert(self.servers@[i as int].1@ == self@[i as int].1);
                        assert(spec_contributed(self@[i as int].1) =~= Seq::<Seq<char>>::empty());
                        assert(out.deep_view() =~~= pre + spec_contributed(self@[i as int].1));
                    }
                },
            }
            proof {
                assert(out.deep_view() == spec_all_options_upto(self@, i + 1));
            }
            i += 1;
        }
        proof {
            assert(spec_all_options_upto(self@, self.servers@.len() as int) == spec_all_options(
                self@,
            ));
        }
        out
    }

    /// The declared servers alone, in registry order.
    pub fn into_servers(self) -> (r: Vec<McpServer>)
        ensures
            r.deep_view() == Seq::new(self@.len(), |i: int| self@[i].1),
    {
        let mut out: Vec<McpServer> = Vec::new();
        let mut i: usize = 0;
        while i < self.servers.len()
            invariant
                i <= self.servers@.len(),
                out@.len() == i,
                forall|j: int| 0 <= j < i ==> (#[trigger] out@[j])@ == self@[j].1,
            decreases self.servers@.len() - i,
        {
            let s = self.servers[i].1.duplicate();
            proof {
                assert(self@[i as int].1 == self.servers@[i as int].1@);
            }
            out.push(s);
            i += 1;
        }
        proof {
            assert(out.deep_view() =~~= Seq::new(self@.len(), |i: int| self@[i].1));
        }
        out
    }

    /// The runtimes the materialized project needs, without duplicates.
    pub fn required_runtimes(&self) -> (r: Vec<Runtime>)
        ensures
            r@.contains(Runtime::Npx) == (exists|i: int|
                0 <= i < self@.len() && spec_runtime(self@[i].1) == Some(Runtime::Npx)),
            r@.len() <= 1,
    {
        let mut found = false;
        let ghost mut witness: int = 0;
        let mut i: usize = 0;
        while i < self.servers.len()
            invariant
                i <= self.servers@.len(),
                found ==> 0 <= witness < i && spec_runtime(self@[witness].1) == Some(Runtime::Npx),
                !found ==> forall|j: int|
                    0 <= j < i ==> spec_runtime(self@[j].1) != Some(Runtime::Npx),
            decreases self.servers@.len() - i,
        {
            match self.servers[i].1.runtime() {
                Some(Runtime::Npx) => {
                    if !found {
                        found = true;
                        proof {
                            witness = i as int;
                            assert(self.servers@[i as int].1@ == self@[i as int].1);
                        }
                    }
                },
                None => {},
            }
            i += 1;
        }
        let mut r: Vec<Runtime> = Vec::new();
        if found {
            r.push(Runtime::Npx);
            proof {
                assert(r@.contains(Runtime::Npx)) by {
                    assert(r@[0] == Runtime::Npx);
                }
            }
        } else {
            proof {
                assert(!r@.contains(Runtime::Npx));
            }
        }
        r
    }
}

/// A blank option name falls back to the external variable's own name; an
/// explicit rename is kept.
pub open spec fn spec_normalize_mapping(m: Seq<(Seq<char>, Seq<char>)>) -> Seq<
    (Seq<char>, Seq<char>),
> {
    Seq::new(
        m.len(),
        |i: int|
            (
                m[i].0,
                if m[i].1.len() == 0 {
                    m[i].0
                } else {
                    m[i].1
                },
            ),
    )
}

/// An empty mapping is treated as absent; a present one is normalized.
pub open spec fn spec_normalize_opt(m: Option<Seq<(Seq<char>, Seq<char>)>>) -> Option<
    Seq<(Seq<char>, Seq<char>)>,
> {
    match m {
        Some(e) => if e.len() == 0 {
            None
        } else {
            Some(spec_normalize_mapping(e))
        },
        None => None,
    }
}

/// A server with its mapping normalized; everything else is kept.
pub open spec fn spec_normalize_server(s: ServerView) -> ServerView {
    match s {
        ServerView::Stdio { command, args, env } => ServerView::Stdio {
            command,
            args,
            env: spec_normalize_opt(env),
        },
        ServerView::Sse { url, headers } => ServerView::Sse {
            url,
            headers: spec_normalize_opt(headers),
        },
        ServerView::Http { url, headers } => ServerView::Http {
            url,
            headers: spec_normalize_opt(headers),
        },
    }
}

/// A registry with every server's mapping normalized, names and order kept.
pub open spec fn spec_normalized(ss: Seq<(Seq<char>, ServerView)>) -> Seq<
    (Seq<char>, ServerView),
> {
    Seq::new(ss.len(), |i: int| (ss[i].0, spec_normalize_server(ss[i].1)))
}

/// Normalizes one mapping: a blank option name becomes the variable's name.
fn normalize_mapping(m: &Vec<(String, String)>) -> (r: Vec<(String, String)>)
    ensures
        r.deep_view() == spec_normalize_mapping(m.deep_view()),
{
    let mut out: Vec<(String, String)> = Vec::new();
    let mut i: usize = 0;
    while i < m.len()
        invariant
            i <= m@.len(),
            out@.len() == i,
            forall|j: int|
                0 <= j < i ==> out@[j].0@ == m@[j].0@ && out@[j].1@ == (if m@[j].1@.len() == 0 {
                    m@[j].0@
                } else {
                    m@[j].1@
                }),
        decreases m@.len() - i,
    {
        let name = m[i].1.clone();
        if name.as_str().is_empty() {
            out.push((m[i].0.clone(), m[i].0.clone()));
        } else {
            out.push((m[i].0.clone(), name));
        }
        i += 1;
    }
    proof {
        assert(out.deep_view() =~~= spec_normalize_mapping(m.deep_view()));
    }
    out
}

/// Normalizes an optional mapping: empty or absent becomes absent.
fn normalize_opt_mapping(m: &Option<Vec<(String, String)>>) -> (r: Option<Vec<(String, String)>>)
    ensures
        r.deep_view() == spec_normalize_opt(m.deep_view()),
{
    match m {
        Some(e) => {
            if e.len() == 0 {
                None
            } else {
                Some(normalize_mapping(e))
            }
        },
        None => None,
    }
}

impl McpServers {
    /// The registry with every option name normalized: a blank rename falls
    /// back to the external variable's name, an empty mapping is dropped;
    /// names and order are kept.
    pub fn normalized(&self) -> (r: McpServers)
        ensures
            r@ == spec_normalized(self@),
    {
        let mut out: Vec<(String, McpServer)> = Vec::new();
        let mut i: usize = 0;
        while i < self.servers.len()
            invariant
                i <= self.servers@.len(),
                out@.len() == i,
                forall|j: int|
                    0 <= j < i ==> out@[j].0@ == self@[j].0 && out@[j].1@
                        == spec_normalize_server(self@[j].1),
            decreases self.servers@.len() - i,
        {
            let pair = &self.servers[i];
            proof {
                assert(self@[i as int] == (pair.0@, pair.1@));
            }
            let server = match &pair.1 {
                McpServer::Stdio { command, args, env } => McpServer::Stdio {
                    command: command.clone(),
                    args: crate::text::clone_strings(args),
                    env: normalize_opt_mapping(env),
                },
                McpServer::Sse { url, headers } => McpServer::Sse {
                    url: url.clone(),
                    headers: normalize_opt_mapping(headers),
                },
                McpServer::Http { url, headers } => McpServer::Http {
                    url: url.clone(),
                    headers: normalize_opt_mapping(headers),
                },
            };
            out.push((pair.0.clone(), server));
            i += 1;
        }
        let r = McpServers { servers: out };
        proof {
            assert(r@ =~= spec_normalized(self@));
        }
        r
    }
}

/// The fixed placeholder description used when the synthesis call is
/// bypassed for deterministic runs.
pub const PLACEHOLDER_DESCRIPTION: &'static str = "DUMMY DESCRIPTION";

/// The serialized capabilities joined by blank lines, in aggregate order.
pub open spec fn spec_capability_summary(parts: Seq<Seq<char>>) -> Seq<char>
    decreases parts.len(),
{
    if parts.len() == 0 {
        Seq::empty()
    } else if parts.len() == 1 {
        parts[0]
    } else {
        spec_capability_summary(parts.drop_last()) + "\n\n"@ + parts.last()
    }
}

/// Joins serialized capability descriptors into the synthesis input.
pub fn build_capability_summary(tools: &Vec<String>) -> (r: String)
    ensures
        r@ == spec_capability_summary(tools.deep_view()),
{
    let mut out = String::new();
    proof {
        assert(out@ =~= spec_capability_summary(tools.deep_view().take(0)));
    }
    let mut i: usize = 0;
    while i < tools.len()
        invariant
            i <= tools@.len(),
            out@ == spec_capability_summary(tools.deep_view().take(i as int)),
        decreases tools@.len() - i,
    {
        if i > 0 {
            out.append("\n\n");
        }
        out.append(tools[i].as_str());
        proof {
            let dv = tools.deep_view();
            assert(dv.take(i + 1).drop_last() =~= dv.take(i as int));
            assert(dv.take(i + 1).last() == tools@[i as int]@);
            assert(out@ =~= spec_capability_summary(dv.take(i + 1)));
        }
        i += 1;
    }
    proof {
        assert(tools.deep_view().take(tools@.len() as int) =~= tools.deep_view());
    }
    out
}

/// What precedes the capability summary in the synthesis prompt.
pub const DESCRIPTION_PROMPT_HEAD: &'static str = r#"
            We are making an agent with access to the the following tooling:
            # start of tooling
            "#;

/// What follows the capability summary in the synthesis prompt.
pub const DESCRIPTION_PROMPT_TAIL: &'static str = r#"
            # end of tooling

            This agent is being generated around this tooling to represent its capabilities and responsibilities as an agent to other agents.
            Other agents, as well as human developers will use the agent's description to determine whether it is relevant to communicate with and use.

            With these tools in mind, generate a short description (10 - 50 words) that describes the agent's capabilities and responsibilities."#;

/// The full synthesis prompt around a capability summary.
pub open spec fn spec_description_prompt(summary: Seq<char>) -> Seq<char> {
    DESCRIPTION_PROMPT_HEAD@ + summary + DESCRIPTION_PROMPT_TAIL@
}

/// What the description-synthesis step should do: return the fixed
/// placeholder, or submit the given prompt to the completion interface.
#[derive(Debug, Clone)]
pub enum DescriptionRequest {
    Fixed(String),
    Prompt(String),
}

/// Decides the description-synthesis step. The bypass, controlled by the
/// caller's environment, returns the fixed placeholder without any call;
/// otherwise the prompt is built from the aggregated capabilities.
pub fn description_request(skip: bool, tools: &Vec<String>) -> (r: DescriptionRequest)
    ensures
        skip ==> (r matches DescriptionRequest::Fixed(s) && s@ == PLACEHOLDER_DESCRIPTION@),
        !skip ==> (r matches DescriptionRequest::Prompt(p) && p@ == spec_description_prompt(
            spec_capability_summary(tools.deep_view()),
        )),
{
    if skip {
        DescriptionRequest::Fixed(PLACEHOLDER_DESCRIPTION.to_owned())
    } else {
        let mut p = DESCRIPTION_PROMPT_HEAD.to_owned();
        let summary = build_capability_summary(tools);
        p.append(summary.as_str());
        p.append(DESCRIPTION_PROMPT_TAIL);
        proof {
            assert(p@ =~= spec_description_prompt(spec_capability_summary(tools.deep_view())));
        }
        DescriptionRequest::Prompt(p)
    }
}

} // verus!
