//! The interactive declaration flow's decisions: every value the prompts
//! collect is assembled into a server declaration here, from plain strings.
//! The prompting itself stays in the binary.

use vstd::prelude::*;

use crate::Runtime;

verus! {

/// The transport kinds the declaration flow offers.
#[derive(Clone, Copy, Debug, PartialEq, Eq, Structural)]
pub enum McpKind {
    Npx,
    Stdio,
    Sse,
}

/// A transport kind's user-visible name.
pub open spec fn spec_kind_label(k: McpKind) -> Seq<char> {
    match k {
        McpKind::Npx => "npx"@,
        McpKind::Stdio => "stdio"@,
        McpKind::Sse => "sse"@,
    }
}

impl McpKind {
    /// The kind's user-visible name.
    pub fn label(&self) -> (r: &'static str)
        ensures
            r@ == spec_kind_label(*self),
    {
        match self {
            McpKind::Npx => "npx",
            McpKind::Stdio => "stdio",
            McpKind::Sse => "sse",
        }
    }

    /// The runtime a kind implies for the materialized project.
    pub fn runtime(&self) -> (r: Option<Runtime>)
        ensures
            r == (match *self {
                McpKind::Npx => Some(Runtime::Npx),
                McpKind::Stdio => None,
                McpKind::Sse => None,
            }),
    {
        match self {
            McpKind::Npx => Some(Runtime::Npx),
            McpKind::Stdio | McpKind::Sse => None,
        }
    }

    /// Every kind the flow offers, in presentation order.
    pub fn kinds() -> (r: Vec<McpKind>)
        ensures
            r@ =~= seq![McpKind::Npx, McpKind::Stdio, McpKind::Sse],
    {
        let mut v: Vec<McpKind> = Vec::new();
        v.push(McpKind::Npx);
        v.push(McpKind::Stdio);
        v.push(McpKind::Sse);
        v
    }
}

/// A server declaration assembled by the flow.
#[derive(Debug, Clone)]
pub enum Mcp {
    Stdio { command: String, args: Vec<String>, env: Option<Vec<(String, String)>> },
    Sse {},
}

/// Model of an assembled declaration.
pub enum McpView {
    Stdio { command: Seq<char>, args: Seq<Seq<char>>, env: Option<Seq<(Seq<char>, Seq<char>)>> },
    Sse,
}

impl View for Mcp {
    type V = McpView;

    open spec fn view(&self) -> McpView {
        match self {
            Mcp::Stdio { command, args, env } => McpView::Stdio {
                command: command@,
                args: args.deep_view(),
                env: env.deep_view(),
            },
            Mcp::Sse {} => McpView::Sse,
        }
    }
}

impl Mcp {
    /// The option names this declaration derives: its mapping's values, in
    /// order; none when the mapping is absent.
    pub fn options(&self) -> (r: Vec<String>)
        requires
            !(self@ is Sse),
        ensures
            r.deep_view() == (match self@ {
                McpView::Stdio { env: Some(e), .. } => crate::mcp_server::spec_value_names(e),
                _ => Seq::<Seq<char>>::empty(),
            }),
    {
        match self {
            Mcp::Stdio { env, .. } => match env {
                Some(e) => {
                    let mut out: Vec<String> = Vec::new();
                    let mut i: usize = 0;
                    while i < e.len()
                        invariant
                            i <= e@.len(),
                            out@.len() == i,
                            forall|j: int| 0 <= j < i ==> out@[j]@ == e@[j].1@,
                        decreases e@.len() - i,
                    {
                        out.push(e[i].1.clone());
                        i += 1;
                    }
                    proof {
                        assert(out.deep_view() =~~= crate::mcp_server::spec_value_names(
                            e.deep_view(),
                        ));
                    }
                    out
                },
                None => Vec::new(),
            },
            Mcp::Sse {} => Vec::new(),
        }
    }
}

/// Whitespace as the flow splits it: blanks, tabs and line breaks.
pub open spec fn spec_is_ws(c: char) -> bool {
    c == ' ' || c == '\t' || c == '\n' || c == '\r'
}

/// The length of the maximal non-whitespace prefix.
pub open spec fn spec_token_len(s: Seq<char>) -> int
    decreases s.len(),
{
    if s.len() == 0 || spec_is_ws(s[0]) {
        0
    } else {
        1 + spec_token_len(s.skip(1))
    }
}

/// The whitespace-separated words of a text, in order.
pub open spec fn spec_split_ws(s: Seq<char>) -> Seq<Seq<char>>
    decreases s.len(),
    via spec_split_ws_decreases
{
    if s.len() == 0 {
        Seq::empty()
    } else if spec_is_ws(s[0]) {
        spec_split_ws(s.skip(1))
    } else {
        seq![s.take(spec_token_len(s))] + spec_split_ws(s.skip(spec_token_len(s)))
    }
}

#[via_fn]
proof fn spec_split_ws_decreases(s: Seq<char>) {
    if s.len() > 0 && !spec_is_ws(s[0]) {
        lemma_token_len_bounds(s);
    }
}

/// The token length is positive on a non-whitespace head and bounded by the
/// text.
proof fn lemma_token_len_bounds(s: Seq<char>)
    ensures
        0 <= spec_token_len(s) <= s.len(),
        s.len() > 0 && !spec_is_ws(s[0]) ==> spec_token_len(s) >= 1,
    decreases s.len(),
{
    if s.len() == 0 || spec_is_ws(s[0]) {
    } else {
        lemma_token_len_bounds(s.skip(1));
    }
}

/// The token ends exactly at the first whitespace character.
proof fn lemma_token_len_at(s: Seq<char>, k: int)
    requires
        0 <= k <= s.len(),
        forall|m: int| 0 <= m < k ==> !spec_is_ws(s[m]),
        k == s.len() || spec_is_ws(s[k]),
    ensures
        spec_token_len(s) == k,
    decreases k,
{
    if k == 0 {
    } else {
        assert(!spec_is_ws(s[0]));
        lemma_token_len_at(s.skip(1), k - 1);
    }
}

/// Whether the flow treats a character as whitespace.
fn is_ws_char(c: char) -> (r: bool)
    ensures
        r == spec_is_ws(c),
{
    c == ' ' || c == '\t' || c == '\n' || c == '\r'
}

/// Splits a text into its whitespace-separated words, in order.
pub fn split_ws(s: &str) -> (r: Vec<String>)
    ensures
        r.deep_view() == spec_split_ws(s@),
{
    let len = s.unicode_len();
    let mut out: Vec<String> = Vec::new();
    proof {
        assert(s@.skip(0) =~= s@);
        assert(out.deep_view() =~~= Seq::<Seq<char>>::empty());
    }
    let mut i: usize = 0;
    while i < len
        invariant
            i <= len,
            len == s@.len(),
            spec_split_ws(s@) == out.deep_view() + spec_split_ws(s@.skip(i as int)),
        decreases len - i,
    {
        let c = s.get_char(i);
        if is_ws_char(c) {
            proof {
                assert(s@.skip(i as int)[0] == s@[i as int]);
                assert(s@.skip(i as int).skip(1) =~= s@.skip(i + 1));
            }
            i += 1;
        } else {
            let mut j: usize = i + 1;
            while j < len && !is_ws_char(s.get_char(j))
                invariant
                    i < j <= len,
                    len == s@.len(),
                    forall|m: int| i <= m < j ==> !spec_is_ws(s@[m]),
                decreases len - j,
            {
                j += 1;
            }
            let tok = s.substring_char(i, j).to_owned();
            let ghost pre = out.deep_view();
            out.push(tok);
            proof {
                let rest = s@.skip(i as int);
                assert(forall|m: int| 0 <= m < j - i ==> rest[m] == s@[i + m]);
                lemma_token_len_at(rest, j - i);
                assert(rest.take(j - i) =~= s@.subrange(i as int, j as int));
                assert(rest.skip(j - i) =~= s@.skip(j as int));
                assert(out.deep_view() =~~= pre + seq![s@.subrange(i as int, j as int)]);
                assert(spec_split_ws(rest) == seq![rest.take(j - i)] + spec_split_ws(
                    rest.skip(j - i),
                ));
                assert(out.deep_view() + spec_split_ws(s@.skip(j as int)) =~~= pre + spec_split_ws(
                    rest,
                ));
            }
            i = j;
        }
    }
    proof {
        assert(s@.skip(len as int) =~= Seq::<char>::empty());
        assert(out.deep_view() + spec_split_ws(Seq::<char>::empty()) =~~= out.deep_view());
    }
    out
}

/// One collected mapping round: a blank option name falls back to the
/// variable's own name.
pub fn env_entry(env_name: String, opt_name: String) -> (r: (String, String))
    ensures
        r.0@ == env_name@,
        r.1@ == (if opt_name@.len() == 0 {
            env_name@
        } else {
            opt_name@
        }),
{
    if opt_name.as_str().is_empty() {
        let copy = env_name.clone();
        (env_name, copy)
    } else {
        (env_name, opt_name)
    }
}

/// Assembles the Node-launcher declaration: the launcher runs the package
/// with a confirmation flag, then the extra words; an empty mapping is
/// treated as absent.
pub fn build_npx_mcp(package: String, envs: Vec<(String, String)>, extra_args: &str) -> (r: Mcp)
    ensures
        r@ matches McpView::Stdio { command, args, env } && command == "npx"@ && args
            == seq!["-y"@, package@] + spec_split_ws(extra_args@) && env == (if envs@.len() == 0 {
            None::<Seq<(Seq<char>, Seq<char>)>>
        } else {
            Some(envs.deep_view())
        }),
{
    let ghost pkg = package@;
    let mut args: Vec<String> = Vec::new();
    args.push(String::from_str("-y"));
    args.push(package);
    let extra = split_ws(extra_args);
    let ghost two = args.deep_view();
    let ghost ex = extra.deep_view();
    let mut k: usize = 0;
    while k < extra.len()
        invariant
            k <= extra@.len(),
            ex == extra.deep_view(),
            ex.len() == extra@.len(),
            args@.len() == two.len() + k,
            forall|j: int| 0 <= j < two.len() ==> args@[j]@ == two[j],
            forall|j: int| 0 <= j < k ==> args@[two.len() + j]@ == ex[j],
        decreases extra@.len() - k,
    {
        args.push(extra[k].clone());
        k += 1;
    }
    proof {
        assert(args.deep_view() =~~= two + ex);
        assert(two =~~= seq!["-y"@, pkg]);
    }
    let env = if envs.len() == 0 {
        None
    } else {
        Some(envs)
    };
    Mcp::Stdio { command: String::from_str("npx"), args, env }
}

/// Assembles the raw-command declaration: the first word is the command,
/// the rest are its arguments; a wordless command yields nothing.
pub fn build_stdio_mcp(raw: &str, envs: Vec<(String, String)>) -> (r: Option<Mcp>)
    ensures
        (r is Some) == (spec_split_ws(raw@).len() > 0),
        r matches Some(m) ==> m@ matches McpView::Stdio { command, args, env } && command
            == spec_split_ws(raw@)[0] && args == spec_split_ws(raw@).skip(1) && env == (
        if envs@.len() == 0 {
            None::<Seq<(Seq<char>, Seq<char>)>>
        } else {
            Some(envs.deep_view())
        }),
{
    let words = split_ws(raw);
    if words.len() == 0 {
        return None;
    }
    let ghost ws = words.deep_view();
    let command = words[0].clone();
    let mut args: Vec<String> = Vec::new();
    let mut k: usize = 1;
    while k < words.len()
        invariant
            1 <= k <= words@.len(),
            ws == words.deep_view(),
            ws.len() == words@.len(),
            args@.len() == k - 1,
            forall|j: int| 0 <= j < k - 1 ==> args@[j]@ == ws[1 + j],
        decreases words@.len() - k,
    {
        args.push(words[k].clone());
        k += 1;
    }
    proof {
        assert(args.deep_view() =~~= ws.skip(1));
    }
    let env = if envs.len() == 0 {
        None
    } else {
        Some(envs)
    };
    Some(Mcp::Stdio { command, args, env })
}

} // verus!
