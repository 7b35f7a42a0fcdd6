use crate::text::{chars_of, push_chars, string_of, trim, trim_exec};
use vstd::prelude::*;

verus! {

/// Where personal best activities are stored.
pub const PERSONAL_BEST_ACTIVITIES_COLLECTION_NAME: &'static str = "personal_best_activities";

/// How an activity is looked up by name: the trimmed name it is stored under, and the pattern,
/// matched without regard to case, that finds exactly that name.
pub fn activity_lookup(activity_name: &str) -> (r: (String, String))
    ensures
        r.0@ == trim(activity_name@),
        r.1@ == seq!['^'] + trim(activity_name@) + seq!['$'],
{
    let trimmed = trim_exec(&chars_of(activity_name));
    let mut pattern: Vec<char> = Vec::new();
    pattern.push('^');
    push_chars(&mut pattern, &trimmed);
    pattern.push('$');
    assert(pattern@ =~= seq!['^'] + trimmed@ + seq!['$']);
    (string_of(&trimmed), string_of(&pattern))
}

} // verus!
