use crate::database::clan_mates::name_compare;
use crate::jobs::wom_guild_sync_logic::same_name;
use vstd::prelude::*;

verus! {

/// The name a clan mate is to be renamed to, given the newest name the Wise Old Man has for
/// them: that name, unless it is the same name as the current one.
pub fn name_to_change_to(current_name: &str, latest_name: Option<String>) -> (r: Option<String>)
    ensures
        r.deep_view() == (match latest_name.deep_view() {
            Some(n) => if same_name(n, current_name@) {
                None
            } else {
                Some(n)
            },
            None => None::<Seq<char>>,
        }),
{
    match latest_name {
        Some(name) => {
            if name_compare(name.as_str(), current_name) {
                None
            } else {
                Some(name)
            }
        },
        None => None,
    }
}

} // verus!
