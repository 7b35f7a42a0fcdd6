use vstd::prelude::*;

verus! {

/// The capture groups that the `regex` crate reports when `pattern` (compiled with
/// `regex::Regex::new`) is searched for in `haystack`: `None` when the pattern does not
/// compile or does not match; otherwise one entry per group, group 0 being the whole match,
/// each the text it captured or `None` when it took no part in the match.
pub uninterp spec fn regex_captures(pattern: Seq<char>, haystack: Seq<char>) -> Option<
    Seq<Option<Seq<char>>>,
>;

/// Group `i` of a match, `None` where there is no such group or it captured nothing.
pub open spec fn group(groups: Seq<Option<Seq<char>>>, i: int) -> Option<Seq<char>> {
    if 0 <= i < groups.len() {
        groups[i]
    } else {
        None
    }
}

/// Compiles `pattern` with `regex::Regex::new` and runs `Regex::captures` on `haystack`,
/// handing every group's text back as a `String`. Claimed: what comes back is
/// `regex_captures(pattern@, haystack@)`, a function of the two texts alone; nothing is
/// said of how the crate matches.
#[verifier::external_body]
pub(crate) fn captures(pattern: &str, haystack: &str) -> (r: Option<Vec<Option<String>>>)
    ensures
        r.deep_view() == regex_captures(pattern@, haystack@),
{
    let caps = match regex::Regex::new(pattern) {
        Ok(re) => match re.captures(haystack) {
            Some(caps) => caps,
            None => return None,
        },
        Err(_) => return None,
    };
    let mut groups: Vec<Option<String>> = Vec::new();
    for m in caps.iter() {
        groups.push(m.map(|m| m.as_str().to_string()));
    }
    Some(groups)
}

/// Group `i` of `groups`, copied.
pub fn group_of(groups: &Vec<Option<String>>, i: usize) -> (r: Option<String>)
    ensures
        r.deep_view() == group(groups.deep_view(), i as int),
{
    if i < groups.len() {
        match &groups[i] {
            Some(s) => Some(s.clone()),
            None => None,
        }
    } else {
        None
    }
}

/// Whether group `i` of `groups` captured something.
pub fn has_group(groups: &Vec<Option<String>>, i: usize) -> (r: bool)
    ensures
        r == group(groups.deep_view(), i as int) is Some,
{
    if i < groups.len() {
        groups[i].is_some()
    } else {
        false
    }
}

} // verus!
