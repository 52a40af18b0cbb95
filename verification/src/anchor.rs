//! Anchor location inside template sources, through the regex crate.

use vstd::prelude::*;

verus! {

/// What the leftmost match of `pattern` in `text` yields at capture group
/// `group`: the characters up to the group's end, the characters after it,
/// and the group's byte length. Absent when the pattern does not compile,
/// does not match, or did not fill that group. Regex matching depends on
/// the pattern and the haystack alone, so this is a function of them.
pub uninterp spec fn regex_group_split(pattern: Seq<char>, text: Seq<char>, group: int) -> Option<
    (Seq<char>, Seq<char>, int),
>;

/// Relies on regex::Regex::new and regex::Regex::captures: the leftmost
/// match and its capture groups are a function of the pattern and the
/// haystack alone, and a group's span is a byte range of the haystack on
/// character boundaries, so splitting there parts the text exactly.
#[verifier::external_body]
pub fn find_group_split(pattern: &str, text: &str, group: usize) -> (r: Option<
    (String, String, usize),
>)
    ensures
        match regex_group_split(pattern@, text@, group as int) {
            Some((pre, suf, glen)) => {
                &&& r matches Some(t)
                &&& t.0@ == pre
                &&& t.1@ == suf
                &&& t.2 as int == glen
                &&& pre + suf == text@
            },
            None => r is None,
        },
{
    let re = match regex::Regex::new(pattern) {
        Ok(re) => re,
        Err(_) => return None,
    };
    let caps = re.captures(text)?;
    let g = caps.get(group)?;
    Some((text[..g.end()].to_string(), text[g.end()..].to_string(), g.range().len()))
}

} // verus!
