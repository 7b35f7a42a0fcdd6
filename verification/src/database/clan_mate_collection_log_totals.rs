use crate::database::now_millis;
use vstd::prelude::*;

verus! {

/// Where collection log totals are stored.
pub const COLLECTION_LOG_COLLECTION_NAME: &'static str = "clan_mate_collection_log_totals";

/// A clan mate's collection log total, as stored.
#[derive(Clone, Debug)]
pub struct ClanMateCollectionLogTotalModel {
    pub guild_id: u64,
    /// The stored clan mate's id (the twelve bytes of a BSON object id).
    pub player_id: [u8; 12],
    pub total: i64,
    /// When the total was first stored, in milliseconds since the Unix epoch.
    pub created_at: i64,
}

impl ClanMateCollectionLogTotalModel {
    /// A total for the clan mate `player_id` of clan `guild_id`, stamped with the time.
    pub fn new(guild_id: u64, player_id: [u8; 12], total: i64) -> (r: Self)
        ensures
            r.guild_id == guild_id,
            r.player_id == player_id,
            r.total == total,
    {
        ClanMateCollectionLogTotalModel { guild_id, player_id, total, created_at: now_millis() }
    }
}

/// A clan mate's name with their collection log total, for a clan's leaderboard.
#[derive(Clone, Debug)]
pub struct ClanMateCollectionLogTotalsView {
    pub player_name: String,
    pub total: i64,
}

} // verus!
