use crate::database::{new_object_id, now_millis};
use crate::osrs_broadcast_extractor::osrs_broadcast_extractor::DropItemBroadcast;
use vstd::prelude::*;

verus! {

/// A drop, as stored in a clan's drop log.
#[derive(Clone, Debug)]
pub struct DropLogModel {
    /// The stored document's id (the twelve bytes of a BSON object id).
    pub id: [u8; 12],
    pub guild_id: u64,
    pub drop_item: DropItemBroadcast,
    /// When the drop was logged, in milliseconds since the Unix epoch.
    pub created_at: i64,
}

impl DropLogModel {
    pub const COLLECTION_NAME: &'static str = "drop_logs";

    /// A log entry for `drop_item` in clan `guild_id`, with a fresh id and the time.
    pub fn new(drop_item: DropItemBroadcast, guild_id: u64) -> (r: Self)
        ensures
            r.drop_item == drop_item,
            r.guild_id == guild_id,
    {
        DropLogModel { id: new_object_id(), guild_id, drop_item, created_at: now_millis() }
    }
}

} // verus!
