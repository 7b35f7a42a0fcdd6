use crate::text::{chars_of, lowercase, starts_with_chars, to_lowercase};
use vstd::prelude::*;

verus! {

/// A chat message is a `!pb` command when, lowercased, it starts with `!pb`.
pub open spec fn is_pb_command_text(message: Seq<char>) -> bool {
    let l = lowercase(message);
    "!pb"@.len() <= l.len() && l.take("!pb"@.len() as int) == "!pb"@
}

/// Whether a chat message is a `!pb` command, to be answered with the player's personal best.
pub fn is_pb_command(message: &str) -> (r: bool)
    ensures
        r == is_pb_command_text(message@),
{
    let lower = to_lowercase(message);
    let text = chars_of(lower.as_str());
    let prefix = chars_of("!pb");
    starts_with_chars(&text, &prefix)
}

} // verus!
