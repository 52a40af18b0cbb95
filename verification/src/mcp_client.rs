//! Tool-server client decisions: what to spawn or dial for one declared
//! server, and how discovered capabilities aggregate under partial failure.
//! The connections themselves — child processes, network sessions, their
//! teardown — are asynchronous outside work driven by the binary; every
//! decision between two outside steps is a function of plain values here.

use vstd::prelude::*;

use crate::mcp_server::{McpServer, McpServers, ServerView};

verus! {

/// One advertised capability of a connected server: its name and its
/// serialized descriptor, both opaque to everything but description
/// synthesis.
#[derive(Debug, Clone)]
pub struct Capability {
    pub name: String,
    pub descriptor: String,
}

impl View for Capability {
    type V = (Seq<char>, Seq<char>);

    open spec fn view(&self) -> (Seq<char>, Seq<char>) {
        (self.name@, self.descriptor@)
    }
}

impl DeepView for Capability {
    type V = (Seq<char>, Seq<char>);

    open spec fn deep_view(&self) -> (Seq<char>, Seq<char>) {
        self.view()
    }
}

/// How one server's discovery attempt ended: its capabilities in the order
/// the server listed them, or the connection or listing error's wording.
#[derive(Debug, Clone)]
pub enum DiscoveryOutcome {
    Connected(Vec<Capability>),
    Failed(String),
}

/// Model of a discovery outcome.
pub enum OutcomeView {
    Connected(Seq<(Seq<char>, Seq<char>)>),
    Failed(Seq<char>),
}

impl View for DiscoveryOutcome {
    type V = OutcomeView;

    open spec fn view(&self) -> OutcomeView {
        match self {
            DiscoveryOutcome::Connected(caps) => OutcomeView::Connected(caps.deep_view()),
            DiscoveryOutcome::Failed(err) => OutcomeView::Failed(err@),
        }
    }
}

impl DeepView for DiscoveryOutcome {
    type V = OutcomeView;

    open spec fn deep_view(&self) -> OutcomeView {
        self.view()
    }
}

/// The capabilities one outcome contributes: nothing on failure.
pub open spec fn spec_outcome_caps(o: OutcomeView) -> Seq<(Seq<char>, Seq<char>)> {
    match o {
        OutcomeView::Connected(caps) => caps,
        OutcomeView::Failed(_) => Seq::empty(),
    }
}

/// The aggregate capability list of the first `n` outcomes: every connected
/// server's list, concatenated in attempt order; failed servers are
/// excluded.
pub open spec fn spec_aggregate_upto(
    results: Seq<(Seq<char>, OutcomeView)>,
    n: int,
) -> Seq<(Seq<char>, Seq<char>)>
    decreases n,
{
    if n <= 0 {
        Seq::empty()
    } else {
        spec_aggregate_upto(results, n - 1) + spec_outcome_caps(results[n - 1].1)
    }
}

/// The aggregate capability list of all outcomes.
pub open spec fn spec_aggregate(results: Seq<(Seq<char>, OutcomeView)>) -> Seq<
    (Seq<char>, Seq<char>),
> {
    spec_aggregate_upto(results, results.len() as int)
}

/// The names of the first `n` servers whose discovery failed, in order.
pub open spec fn spec_failures_upto(results: Seq<(Seq<char>, OutcomeView)>, n: int) -> Seq<
    Seq<char>,
>
    decreases n,
{
    if n <= 0 {
        Seq::empty()
    } else {
        spec_failures_upto(results, n - 1) + (match results[n - 1].1 {
            OutcomeView::Failed(_) => seq![results[n - 1].0],
            OutcomeView::Connected(_) => Seq::empty(),
        })
    }
}

/// The names of all servers whose discovery failed.
pub open spec fn spec_failures(results: Seq<(Seq<char>, OutcomeView)>) -> Seq<Seq<char>> {
    spec_failures_upto(results, results.len() as int)
}

/// Collapses per-server discovery outcomes: the capabilities of every
/// server that connected, in attempt order, and the names of those that
/// failed. One failure never infects its siblings.
pub fn aggregate_capabilities(results: &Vec<(String, DiscoveryOutcome)>) -> (r: (
    Vec<Capability>,
    Vec<String>,
))
    ensures
        r.0.deep_view() == spec_aggregate(results.deep_view()),
        r.1.deep_view() == spec_failures(results.deep_view()),
{
    let ghost dv = results.deep_view();
    let mut caps: Vec<Capability> = Vec::new();
    let mut failures: Vec<String> = Vec::new();
    proof {
        assert(caps.deep_view() =~~= spec_aggregate_upto(dv, 0));
        assert(failures.deep_view() =~~= spec_failures_upto(dv, 0));
    }
    let mut i: usize = 0;
    while i < results.len()
        invariant
            i <= results@.len(),
            dv == results.deep_view(),
            dv.len() == results@.len(),
            caps.deep_view() == spec_aggregate_upto(dv, i as int),
            failures.deep_view() == spec_failures_upto(dv, i as int),
        decreases results@.len() - i,
    {
        let pair = &results[i];
        proof {
            assert(dv[i as int] == (pair.0@, pair.1@));
        }
        match &pair.1 {
            DiscoveryOutcome::Connected(list) => {
                let ghost pre = caps.deep_view();
                let ghost addend = list.deep_view();
                let mut k: usize = 0;
                while k < list.len()
                    invariant
                        k <= list@.len(),
                        addend == list.deep_view(),
                        addend.len() == list@.len(),
                        caps@.len() == pre.len() + k,
                        forall|j: int| 0 <= j < pre.len() ==> caps@[j]@ == pre[j],
                        forall|j: int| 0 <= j < k ==> caps@[pre.len() + j]@ == addend[j],
                    decreases list@.len() - k,
                {
                    let c = &list[k];
                    caps.push(
                        Capability { name: c.name.clone(), descriptor: c.descriptor.clone() },
                    );
                    k += 1;
                }
                proof {
                    assert(caps.deep_view() =~~= pre + addend);
                }
            },
            DiscoveryOutcome::Failed(_) => {
                failures.push(pair.0.clone());
            },
        }
        proof {
            assert(caps.deep_view() =~~= spec_aggregate_upto(dv, i + 1));
            assert(failures.deep_view() =~~= spec_failures_upto(dv, i + 1));
        }
        i += 1;
    }
    (caps, failures)
}

/// The command actually launched for a standard-I/O server: the Node
/// launcher goes by its script name on Windows, anything else is launched
/// as declared.
pub open spec fn spec_effective_command(command: Seq<char>, windows: bool) -> Seq<char> {
    if windows && command == "npx"@ {
        "npx.cmd"@
    } else {
        command
    }
}

/// Picks the launchable command name for a declared command.
pub fn effective_command(command: &str, windows: bool) -> (r: String)
    ensures
        r@ == spec_effective_command(command@, windows),
{
    if windows && crate::text::str_eq_str(command, "npx") {
        String::from_str("npx.cmd")
    } else {
        command.to_owned()
    }
}

/// The environment handed to a discovery spawn: every declared variable
/// name bound to a placeholder, since real values are unknown until the
/// materialized agent runs.
pub open spec fn spec_placeholder_env(e: Seq<(Seq<char>, Seq<char>)>) -> Seq<
    (Seq<char>, Seq<char>),
> {
    Seq::new(e.len(), |i: int| (e[i].0, "dummy"@))
}

/// Builds the placeholder environment for a discovery spawn.
pub fn placeholder_env(e: &Vec<(String, String)>) -> (r: Vec<(String, String)>)
    ensures
        r.deep_view() == spec_placeholder_env(e.deep_view()),
{
    let mut out: Vec<(String, String)> = Vec::new();
    let mut i: usize = 0;
    while i < e.len()
        invariant
            i <= e@.len(),
            out@.len() == i,
            forall|j: int|
                0 <= j < i ==> out@[j].0@ == e@[j].0@ && out@[j].1@ == "dummy"@,
        decreases e@.len() - i,
    {
        out.push((e[i].0.clone(), String::from_str("dummy")));
        i += 1;
    }
    proof {
        assert(out.deep_view() =~~= spec_placeholder_env(e.deep_view()));
    }
    out
}

/// What one standard-I/O discovery spawn runs: command, arguments, and the
/// placeholder environment.
#[derive(Debug, Clone)]
pub struct SpawnSpec {
    pub command: String,
    pub args: Vec<String>,
    pub env: Vec<(String, String)>,
}

/// Model of a spawn plan.
pub struct SpawnSpecView {
    pub command: Seq<char>,
    pub args: Seq<Seq<char>>,
    pub env: Seq<(Seq<char>, Seq<char>)>,
}

impl View for SpawnSpec {
    type V = SpawnSpecView;

    open spec fn view(&self) -> SpawnSpecView {
        SpawnSpecView { command: self.command@, args: self.args.deep_view(), env: self.env.deep_view() }
    }
}

impl DeepView for SpawnSpec {
    type V = SpawnSpecView;

    open spec fn deep_view(&self) -> SpawnSpecView {
        self.view()
    }
}

/// The spawn plan one server yields: only a standard-I/O server spawns, with
/// the platform-corrected command and the placeholder environment.
pub open spec fn spec_spawn_of(s: ServerView, windows: bool) -> Option<SpawnSpecView> {
    match s {
        ServerView::Stdio { command, args, env } => Some(
            SpawnSpecView {
                command: spec_effective_command(command, windows),
                args: args,
                env: spec_placeholder_env(
                    match env {
                        Some(e) => e,
                        None => Seq::empty(),
                    },
                ),
            },
        ),
        _ => None,
    }
}

/// The spawn plans of the first `n` servers, in registry order.
pub open spec fn spec_spawn_specs_upto(
    ss: Seq<(Seq<char>, ServerView)>,
    windows: bool,
    n: int,
) -> Seq<(Seq<char>, SpawnSpecView)>
    decreases n,
{
    if n <= 0 {
        Seq::empty()
    } else {
        spec_spawn_specs_upto(ss, windows, n - 1) + (match spec_spawn_of(ss[n - 1].1, windows) {
            Some(sp) => seq![(ss[n - 1].0, sp)],
            None => Seq::empty(),
        })
    }
}

/// The spawn plans for a whole registry's discovery round.
pub open spec fn spec_spawn_specs(ss: Seq<(Seq<char>, ServerView)>, windows: bool) -> Seq<
    (Seq<char>, SpawnSpecView),
> {
    spec_spawn_specs_upto(ss, windows, ss.len() as int)
}

/// The spawn half of the discovery plan: one entry per standard-I/O server,
/// in registry order, with the platform-corrected command and placeholder
/// environment; a process runner starts these as a group. Network servers
/// appear in the full `connection_plan` instead.
pub fn spawn_specs(servers: &McpServers, windows: bool) -> (r: Vec<(String, SpawnSpec)>)
    ensures
        r.deep_view() == spec_spawn_specs(servers@, windows),
{
    let mut out: Vec<(String, SpawnSpec)> = Vec::new();
    proof {
        assert(out.deep_view() =~~= spec_spawn_specs_upto(servers@, windows, 0));
    }
    let mut i: usize = 0;
    while i < servers.servers.len()
        invariant
            i <= servers.servers@.len(),
            servers@.len() == servers.servers@.len(),
            out.deep_view() == spec_spawn_specs_upto(servers@, windows, i as int),
        decreases servers.servers@.len() - i,
    {
        let pair = &servers.servers[i];
        proof {
            assert(servers@[i as int] == (pair.0@, pair.1@));
        }
        match &pair.1 {
            McpServer::Stdio { command, args, env } => {
                let cmd = effective_command(command.as_str(), windows);
                let e = match env {
                    Some(e) => placeholder_env(e),
                    None => Vec::new(),
                };
                proof {
                    assert(e.deep_view() =~~= spec_placeholder_env(
                        match pair.1@ {
                            ServerView::Stdio { env: Some(ev), .. } => ev,
                            _ => Seq::empty(),
                        },
                    ));
                }
                out.push((pair.0.clone(), SpawnSpec { command: cmd, args: crate::text::clone_strings(args), env: e }));
            },
            _ => {},
        }
        proof {
            assert(out.deep_view() =~~= spec_spawn_specs_upto(servers@, windows, i + 1));
        }
        i += 1;
    }
    out
}


/// The transport of a network discovery attempt.
#[derive(Clone, Copy, Debug, PartialEq, Eq, Structural)]
pub enum NetworkTransport {
    Sse,
    Http,
}

/// One discovery attempt: spawn-and-speak for a standard-I/O server, or a
/// network session for an SSE or streaming-HTTP server.
#[derive(Debug)]
pub enum ConnectAttempt {
    Spawn(SpawnSpec),
    Dial { transport: NetworkTransport, url: String },
}

/// Model of a discovery attempt.
pub enum ConnectAttemptView {
    Spawn(SpawnSpecView),
    Dial { transport: NetworkTransport, url: Seq<char> },
}

impl View for ConnectAttempt {
    type V = ConnectAttemptView;

    open spec fn view(&self) -> ConnectAttemptView {
        match self {
            ConnectAttempt::Spawn(s) => ConnectAttemptView::Spawn(s@),
            ConnectAttempt::Dial { transport, url } => ConnectAttemptView::Dial {
                transport: *transport,
                url: url@,
            },
        }
    }
}

impl DeepView for ConnectAttempt {
    type V = ConnectAttemptView;

    open spec fn deep_view(&self) -> ConnectAttemptView {
        self.view()
    }
}

/// The discovery attempt one server implies, by its transport.
pub open spec fn spec_connect_attempt(s: ServerView, windows: bool) -> ConnectAttemptView {
    match s {
        ServerView::Stdio { .. } => ConnectAttemptView::Spawn(spec_spawn_of(s, windows).unwrap()),
        ServerView::Sse { url, .. } => ConnectAttemptView::Dial {
            transport: NetworkTransport::Sse,
            url,
        },
        ServerView::Http { url, .. } => ConnectAttemptView::Dial {
            transport: NetworkTransport::Http,
            url,
        },
    }
}

/// One discovery attempt per declared server, in registry order.
pub open spec fn spec_connection_plan(ss: Seq<(Seq<char>, ServerView)>, windows: bool) -> Seq<
    (Seq<char>, ConnectAttemptView),
> {
    Seq::new(ss.len(), |i: int| (ss[i].0, spec_connect_attempt(ss[i].1, windows)))
}

/// Derives the full discovery plan: one connection attempt per declared
/// server, in registry order, using the transport its variant implies —
/// spawn-and-speak for standard-I/O, a network session for SSE or
/// streaming HTTP. No server is left out.
pub fn connection_plan(servers: &McpServers, windows: bool) -> (r: Vec<(String, ConnectAttempt)>)
    ensures
        r.deep_view() == spec_connection_plan(servers@, windows),
{
    let mut out: Vec<(String, ConnectAttempt)> = Vec::new();
    let mut i: usize = 0;
    while i < servers.servers.len()
        invariant
            i <= servers.servers@.len(),
            servers@.len() == servers.servers@.len(),
            out@.len() == i,
            forall|j: int|
                0 <= j < i ==> (#[trigger] out@[j]).0@ == servers@[j].0 && out@[j].1@
                    == spec_connect_attempt(servers@[j].1, windows),
        decreases servers.servers@.len() - i,
    {
        let pair = &servers.servers[i];
        proof {
            assert(servers@[i as int] == (pair.0@, pair.1@));
        }
        let attempt = match &pair.1 {
            McpServer::Stdio { command, args, env } => {
                let cmd = effective_command(command.as_str(), windows);
                let e = match env {
                    Some(e) => placeholder_env(e),
                    None => Vec::new(),
                };
                proof {
                    assert(e.deep_view() =~~= spec_placeholder_env(
                        match pair.1@ {
                            ServerView::Stdio { env: Some(ev), .. } => ev,
                            _ => Seq::empty(),
                        },
                    ));
                }
                ConnectAttempt::Spawn(
                    SpawnSpec { command: cmd, args: crate::text::clone_strings(args), env: e },
                )
            },
            McpServer::Sse { url, .. } => ConnectAttempt::Dial {
                transport: NetworkTransport::Sse,
                url: url.clone(),
            },
            McpServer::Http { url, .. } => ConnectAttempt::Dial {
                transport: NetworkTransport::Http,
                url: url.clone(),
            },
        };
        out.push((pair.0.clone(), attempt));
        i += 1;
    }
    proof {
        assert(out.deep_view() =~~= spec_connection_plan(servers@, windows));
    }
    out
}

} // verus!
