//! Verified character-level utilities over `&str` and `String`.

use vstd::prelude::*;

verus! {

/// `p` occurs in `s` starting at character index `i`.
pub open spec fn spec_match_at(s: Seq<char>, p: Seq<char>, i: int) -> bool {
    0 <= i && i + p.len() <= s.len() && s.subrange(i, i + p.len() as int) == p
}

/// `p` occurs somewhere in `s`.
pub open spec fn spec_contains_sub(s: Seq<char>, p: Seq<char>) -> bool {
    exists|i: int| spec_match_at(s, p, i)
}

/// `p` is a prefix of `s`.
pub open spec fn spec_starts_with(s: Seq<char>, p: Seq<char>) -> bool {
    spec_match_at(s, p, 0)
}

/// Character-by-character equality of two string slices.
pub fn str_eq_str(a: &str, b: &str) -> (r: bool)
    ensures
        r == (a@ == b@),
{
    let alen = a.unicode_len();
    let blen = b.unicode_len();
    if alen != blen {
        proof {
            assert(a@ != b@) by {
                if a@ == b@ {
                    assert(a@.len() == b@.len());
                }
            }
        }
        return false;
    }
    let mut i: usize = 0;
    while i < alen
        invariant
            i <= alen,
            alen == a@.len(),
            alen == b@.len(),
            forall|j: int| 0 <= j < i ==> a@[j] == b@[j],
        decreases alen - i,
    {
        if a.get_char(i) != b.get_char(i) {
            return false;
        }
        i += 1;
    }
    proof {
        assert(a@ =~= b@);
    }
    true
}

/// Whether `p` occurs in `s` at character index `at`.
fn matches_at(s: &str, p: &str, at: usize) -> (r: bool)
    requires
        at + p@.len() <= s@.len(),
    ensures
        r == spec_match_at(s@, p@, at as int),
{
    let plen = p.unicode_len();
    let slen = s.unicode_len();
    let mut j: usize = 0;
    while j < plen
        invariant
            j <= plen,
            plen == p@.len(),
            slen == s@.len(),
            at + plen <= s@.len(),
            forall|k: int| 0 <= k < j ==> s@[at + k] == p@[k],
        decreases plen - j,
    {
        if s.get_char(at + j) != p.get_char(j) {
            proof {
                assert(!spec_match_at(s@, p@, at as int)) by {
                    if spec_match_at(s@, p@, at as int) {
                        assert(s@.subrange(at as int, at + p@.len() as int)[j as int] == p@[j as int]);
                    }
                }
            }
            return false;
        }
        j += 1;
    }
    proof {
        assert(s@.subrange(at as int, at + p@.len() as int) =~= p@);
    }
    true
}

/// Index of the first occurrence of `p` in `s`, if any.
pub fn find_sub(s: &str, p: &str) -> (r: Option<usize>)
    ensures
        match r {
            Some(i) => spec_match_at(s@, p@, i as int) && forall|j: int|
                0 <= j < i ==> !spec_match_at(s@, p@, j),
            None => !spec_contains_sub(s@, p@),
        },
{
    let slen = s.unicode_len();
    let plen = p.unicode_len();
    if plen > slen {
        proof {
            assert(forall|i: int| !spec_match_at(s@, p@, i));
        }
        return None;
    }
    if plen == 0 {
        proof {
            assert(s@.subrange(0, 0) =~= p@);
        }
        return Some(0);
    }
    let mut i: usize = 0;
    while i <= slen - plen
        invariant
            1 <= plen <= slen,
            i <= slen - plen + 1,
            slen == s@.len(),
            plen == p@.len(),
            forall|j: int| 0 <= j < i ==> !spec_match_at(s@, p@, j),
        decreases slen - plen + 1 - i,
    {
        if matches_at(s, p, i) {
            return Some(i);
        }
        i += 1;
    }
    proof {
        assert(forall|j: int| j > slen - plen ==> !spec_match_at(s@, p@, j));
    }
    None
}

/// Whether `p` occurs anywhere in `s`.
pub fn contains_sub(s: &str, p: &str) -> (r: bool)
    ensures
        r == spec_contains_sub(s@, p@),
{
    find_sub(s, p).is_some()
}

/// Whether `s` begins with `p`.
pub fn starts_with(s: &str, p: &str) -> (r: bool)
    ensures
        r == spec_starts_with(s@, p@),
{
    let slen = s.unicode_len();
    let plen = p.unicode_len();
    if plen > slen {
        return false;
    }
    matches_at(s, p, 0)
}

/// A run of `n` space characters.
pub open spec fn spec_spaces(n: nat) -> Seq<char> {
    Seq::new(n, |i: int| ' ')
}

/// Builds a string of `n` spaces.
pub fn spaces(n: usize) -> (r: String)
    ensures
        r@ == spec_spaces(n as nat),
{
    let mut out = String::new();
    let mut i: usize = 0;
    while i < n
        invariant
            i <= n,
            out@ == spec_spaces(i as nat),
        decreases n - i,
    {
        out.append(" ");
        proof {
            reveal_strlit(" ");
            assert(out@ =~= spec_spaces((i + 1) as nat));
        }
        i += 1;
    }
    out
}

/// Whether `s` ends with `p`.
pub open spec fn spec_ends_with(s: Seq<char>, p: Seq<char>) -> bool {
    spec_match_at(s, p, s.len() - p.len())
}

/// Whether `s` ends with `p`.
pub fn ends_with(s: &str, p: &str) -> (r: bool)
    ensures
        r == spec_ends_with(s@, p@),
{
    let slen = s.unicode_len();
    let plen = p.unicode_len();
    if plen > slen {
        return false;
    }
    matches_at(s, p, slen - plen)
}

/// The characters after the last `/` of a path; the whole path when it has
/// none.
pub open spec fn spec_file_name(s: Seq<char>) -> Seq<char>
    decreases s.len(),
{
    if s.len() == 0 {
        s
    } else if s.last() == '/' {
        Seq::empty()
    } else {
        spec_file_name(s.drop_last()).push(s.last())
    }
}

/// The name suffix starts right after the last `/`, so cutting there yields
/// the file name.
proof fn lemma_file_name_skip(s: Seq<char>, cut: int)
    requires
        0 <= cut <= s.len(),
        cut > 0 ==> s[cut - 1] == '/',
        forall|j: int| cut <= j < s.len() ==> s[j] != '/',
        cut == 0 ==> forall|j: int| 0 <= j < s.len() ==> s[j] != '/',
    ensures
        spec_file_name(s) == s.skip(cut),
    decreases s.len(),
{
    if s.len() == 0 {
        assert(spec_file_name(s) =~= s.skip(cut));
    } else if cut == s.len() {
        assert(s.last() == '/');
        assert(spec_file_name(s) =~= s.skip(cut));
    } else {
        assert(s.last() != '/');
        lemma_file_name_skip(s.drop_last(), cut);
        assert(spec_file_name(s) =~= s.skip(cut));
    }
}

/// The file name of a path: the characters after its last `/`.
pub fn file_name_of(s: &str) -> (r: String)
    ensures
        r@ == spec_file_name(s@),
{
    let len = s.unicode_len();
    let mut cut: usize = 0;
    let mut i: usize = 0;
    while i < len
        invariant
            i <= len,
            len == s@.len(),
            cut <= i,
            cut > 0 ==> s@[cut - 1] == '/',
            forall|j: int| cut <= j < i ==> s@[j] != '/',
            cut == 0 ==> forall|j: int| 0 <= j < i ==> s@[j] != '/',
        decreases len - i,
    {
        if s.get_char(i) == '/' {
            cut = i + 1;
        }
        i += 1;
    }
    let tail = s.substring_char(cut, len);
    proof {
        lemma_file_name_skip(s@, cut as int);
        assert(s@.subrange(cut as int, len as int) == s@.skip(cut as int));
    }
    tail.to_owned()
}

/// A double-quoted literal.
pub open spec fn spec_quoted(a: Seq<char>) -> Seq<char> {
    "\""@ + a + "\""@
}

/// Quoted arguments separated by commas.
pub open spec fn spec_quoted_args(args: Seq<Seq<char>>) -> Seq<char>
    decreases args.len(),
{
    if args.len() == 0 {
        Seq::empty()
    } else if args.len() == 1 {
        spec_quoted(args[0])
    } else {
        spec_quoted_args(args.drop_last()) + ", "@ + spec_quoted(args.last())
    }
}

/// Appends the quoted, comma-separated argument list.
pub fn append_quoted_args(out: &mut String, args: &Vec<String>)
    ensures
        final(out)@ == old(out)@ + spec_quoted_args(args.deep_view()),
{
    proof {
        assert(out@ =~= old(out)@ + spec_quoted_args(args.deep_view().take(0)));
    }
    let mut i: usize = 0;
    while i < args.len()
        invariant
            i <= args@.len(),
            out@ == old(out)@ + spec_quoted_args(args.deep_view().take(i as int)),
        decreases args@.len() - i,
    {
        if i > 0 {
            out.append(", ");
        }
        out.append("\"");
        out.append(args[i].as_str());
        out.append("\"");
        proof {
            let dv = args.deep_view();
            assert(dv.take(i + 1).drop_last() =~= dv.take(i as int));
            assert(dv.take(i + 1).last() == args@[i as int]@);
            assert(out@ =~= old(out)@ + spec_quoted_args(dv.take(i + 1)));
        }
        i += 1;
    }
    proof {
        assert(args.deep_view().take(args@.len() as int) =~= args.deep_view());
    }
}

/// Copies a list of strings.
pub fn clone_strings(v: &Vec<String>) -> (r: Vec<String>)
    ensures
        r.deep_view() == v.deep_view(),
{
    let mut out: Vec<String> = Vec::new();
    let mut i: usize = 0;
    while i < v.len()
        invariant
            i <= v@.len(),
            out@.len() == i,
            forall|j: int| 0 <= j < i ==> out@[j]@ == v@[j]@,
        decreases v@.len() - i,
    {
        out.push(v[i].clone());
        i += 1;
    }
    proof {
        assert(out.deep_view() =~~= v.deep_view());
    }
    out
}

/// Copies a list of name pairs.
pub fn clone_pairs(v: &Vec<(String, String)>) -> (r: Vec<(String, String)>)
    ensures
        r.deep_view() == v.deep_view(),
{
    let mut out: Vec<(String, String)> = Vec::new();
    let mut i: usize = 0;
    while i < v.len()
        invariant
            i <= v@.len(),
            out@.len() == i,
            forall|j: int| 0 <= j < i ==> out@[j].0@ == v@[j].0@ && out@[j].1@ == v@[j].1@,
        decreases v@.len() - i,
    {
        out.push((v[i].0.clone(), v[i].1.clone()));
        i += 1;
    }
    proof {
        assert(out.deep_view() =~~= v.deep_view());
    }
    out
}

/// Inserts `ins` into `s` at character index `at`.
pub fn insert_at(s: &str, at: usize, ins: &str) -> (r: String)
    requires
        at <= s@.len(),
    ensures
        r@ == s@.take(at as int) + ins@ + s@.skip(at as int),
{
    let slen = s.unicode_len();
    let prefix = s.substring_char(0, at);
    let suffix = s.substring_char(at, slen);
    let mut out = prefix.to_owned();
    out.append(ins);
    out.append(suffix);
    proof {
        assert(s@.subrange(0, at as int) == s@.take(at as int));
        assert(s@.subrange(at as int, s@.len() as int) == s@.skip(at as int));
    }
    out
}

} // verus!
