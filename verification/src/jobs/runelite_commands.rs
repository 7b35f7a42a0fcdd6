use crate::text::{chars_of, contains, first_occurrence, find_chars, push_str, string_of, sub_chars};
use vstd::prelude::*;

pub mod pb_command;

verus! {

/// The start of the RuneLite API's address; the client version follows it.
pub const RUNELITE_BASE_URL: &'static str = "https://api.runelite.net/runelite-";

/// The RuneLite API's address for a client version.
pub fn runelite_api_url(version: &str) -> (r: String)
    ensures
        r@ == RUNELITE_BASE_URL@ + version@,
{
    let mut v: Vec<char> = Vec::new();
    push_str(&mut v, RUNELITE_BASE_URL);
    push_str(&mut v, version);
    string_of(&v)
}

/// `text` up to the first occurrence of `tag`, or all of it where `tag` does not occur: the
/// first piece that splitting `text` on `tag` gives.
pub open spec fn before_tag(text: Seq<char>, tag: Seq<char>) -> Seq<char> {
    match first_occurrence(text, tag) {
        Some(e) => text.subrange(0, e),
        None => text,
    }
}

/// The version a RuneLite pom file gives: the text after its first `<version>`, up to the
/// next `<version>`, cut at its first `</version>`.
pub open spec fn pom_version(pom: Seq<char>) -> Seq<char> {
    let start = first_occurrence(pom, "<version>"@)->0 + "<version>"@.len();
    before_tag(before_tag(pom.subrange(start, pom.len() as int), "<version>"@), "</version>"@)
}

fn chars_before_tag(text: &Vec<char>, tag: &Vec<char>) -> (r: Vec<char>)
    ensures
        r@ == before_tag(text@, tag@),
{
    match find_chars(text, tag) {
        Some(e) => {
            proof {
                crate::text::lemma_first_occurrence_in_bounds(text@, tag@);
            }
            sub_chars(text, 0, e)
        },
        None => sub_chars(text, 0, text.len()),
    }
}

/// The version in the RuneLite API's pom file (one that has a `<version>` tag).
pub fn version_in_pom(pom: &str) -> (r: String)
    requires
        contains(pom@, "<version>"@),
    ensures
        r@ == pom_version(pom@),
{
    let text = chars_of(pom);
    let open_tag = chars_of("<version>");
    let close_tag = chars_of("</version>");
    proof {
        crate::text::lemma_first_occurrence_in_bounds(text@, open_tag@);
    }
    let found = find_chars(&text, &open_tag);
    let i = match found {
        Some(i) => i,
        None => {
            assert(false);
            0
        },
    };
    assert(i + open_tag@.len() <= text@.len());
    let tag_len = open_tag.len();
    assert(i + tag_len <= text.len());
    let start: usize = i + tag_len;
    let after = sub_chars(&text, start, text.len());
    let piece = chars_before_tag(&after, &open_tag);
    let version = chars_before_tag(&piece, &close_tag);
    assert(text@.subrange(i + open_tag@.len(), text@.len() as int) == after@);
    string_of(&version)
}

} // verus!
