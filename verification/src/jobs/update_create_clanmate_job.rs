use crate::text::{push_str, string_of};
use vstd::prelude::*;

verus! {

/// What to do with a clan mate's stored rank when they are seen in chat with a rank.
#[derive(Clone, Copy, Debug, PartialEq, Eq, Structural)]
pub enum RankUpdate {
    /// Nothing: the rank is already right.
    Keep,
    /// Store the new rank; `cache_too` says whether the cache is rewritten as well.
    Update { cache_too: bool },
}

/// For a clan mate read from the cache: an unknown rank, or a known one that differs, is
/// updated, in the store and the cache; an equal rank is kept.
pub fn cached_rank_update(cached_rank: &Option<String>, rank: &String) -> (r: RankUpdate)
    ensures
        r == (match cached_rank.deep_view() {
            Some(c) => if c != rank@ {
                RankUpdate::Update { cache_too: true }
            } else {
                RankUpdate::Keep
            },
            None => RankUpdate::Update { cache_too: true },
        }),
        (r == RankUpdate::Keep) == (cached_rank.deep_view() == Some(rank@)),
{
    match cached_rank {
        Some(c) => {
            if *c != *rank {
                RankUpdate::Update { cache_too: true }
            } else {
                RankUpdate::Keep
            }
        },
        None => RankUpdate::Update { cache_too: true },
    }
}

/// For a clan mate read from the store: an unknown rank is set, in the store and the cache; a
/// known rank that differs is updated in the store; an equal rank is kept.
pub fn stored_rank_update(stored_rank: &Option<String>, rank: &String) -> (r: RankUpdate)
    ensures
        r == (match stored_rank.deep_view() {
            Some(c) => if c != rank@ {
                RankUpdate::Update { cache_too: false }
            } else {
                RankUpdate::Keep
            },
            None => RankUpdate::Update { cache_too: true },
        }),
        (r == RankUpdate::Keep) == (stored_rank.deep_view() == Some(rank@)),
{
    match stored_rank {
        Some(c) => {
            if *c != *rank {
                RankUpdate::Update { cache_too: false }
            } else {
                RankUpdate::Keep
            }
        },
        None => RankUpdate::Update { cache_too: true },
    }
}

/// How a player seen in chat but not stored joins the clan list.
pub enum Newcomer {
    /// As a new clan mate.
    Create,
    /// By renaming the clan mate stored under their previous name.
    Rename { old_name: String },
}

/// How a player seen in chat but not stored joins the clan list: by renaming the clan mate
/// stored under the old name of their latest name change, where there is such a clan mate,
/// else as a new clan mate.
pub fn newcomer(latest_change_old_name: Option<String>, old_name_stored: bool) -> (r: Newcomer)
    ensures
        match latest_change_old_name.deep_view() {
            Some(old) => if old_name_stored {
                r matches Newcomer::Rename { old_name } && old_name@ == old
            } else {
                r is Create
            },
            None => r is Create,
        },
{
    match latest_change_old_name {
        Some(old_name) => {
            if old_name_stored {
                Newcomer::Rename { old_name }
            } else {
                Newcomer::Create
            }
        },
        None => Newcomer::Create,
    }
}

/// The cache key a clan mate is kept under.
pub fn player_cache_key(player_name: &str) -> (r: String)
    ensures
        r@ == "players:"@ + player_name@,
{
    let mut v: Vec<char> = Vec::new();
    push_str(&mut v, "players:");
    push_str(&mut v, player_name);
    string_of(&v)
}

/// The key counting the day's calls to the Wise Old Man API; `day` is the date as
/// `YYYY-MM-DD`.
pub fn daily_api_calls_key(day: &str) -> (r: String)
    ensures
        r@ == "api_calls:"@ + day@,
{
    let mut v: Vec<char> = Vec::new();
    push_str(&mut v, "api_calls:");
    push_str(&mut v, day);
    string_of(&v)
}

} // verus!
