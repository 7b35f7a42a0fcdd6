use crate::database::{generate_code, is_verification_code, new_object_id, now_millis};
use crate::helpers::{hash_string, xxh3_64_of};
use crate::osrs_broadcast_extractor::osrs_broadcast_extractor::{
    BroadcastType, DiaryTier, QuestDifficulty,
};
use crate::text::decimal;
use vstd::prelude::*;

verus! {

/// A Discord server that has added the bot, with its settings.
#[derive(Clone, Debug)]
pub struct RegisteredGuildModel {
    /// The stored document's id (the twelve bytes of a BSON object id).
    pub id: [u8; 12],
    pub guild_id: u64,
    pub clan_name: Option<String>,
    /// Channel that broadcast messages go to.
    pub broadcast_channel: Option<u64>,
    /// Channel that clan chat messages go to.
    pub clan_chat_channel: Option<u64>,
    pub leagues_broadcast_channel: Option<u64>,
    /// Drops worth less than this are not announced.
    pub drop_price_threshold: Option<i64>,
    /// Broadcast types that are not announced.
    pub disallowed_broadcast_types: Vec<BroadcastType>,
    pub verification_code: String,
    pub hashed_verification_code: String,
    /// Quests easier than this are not announced.
    pub min_quest_difficulty: Option<QuestDifficulty>,
    /// Diaries of a lower tier than this are not announced.
    pub min_diary_tier: Option<DiaryTier>,
    /// Pks worth less than this are not announced.
    pub pk_value_threshold: Option<i64>,
    pub wom_id: Option<i64>,
    /// When the guild registered, in milliseconds since the Unix epoch.
    pub created_at: Option<i64>,
}

impl RegisteredGuildModel {
    pub const COLLECTION_NAME: &'static str = "guilds";

    /// A newly registered guild: a fresh verification code and its hash, nothing disallowed,
    /// no thresholds or minimums, and the time of creation.
    pub fn new(guild_id: u64) -> (r: Self)
        ensures
            r.guild_id == guild_id,
            r.clan_name is None,
            r.broadcast_channel is None,
            r.clan_chat_channel is None,
            r.leagues_broadcast_channel is None,
            r.drop_price_threshold is None,
            r.disallowed_broadcast_types@ == Seq::<BroadcastType>::empty(),
            is_verification_code(r.verification_code@),
            r.hashed_verification_code@ == decimal(xxh3_64_of(r.verification_code@) as nat),
            r.min_quest_difficulty is None,
            r.min_diary_tier is None,
            r.pk_value_threshold is None,
            r.wom_id is None,
            r.created_at is Some,
    {
        let verification_code = generate_code();
        let hashed_verification_code = hash_string(verification_code.clone());
        RegisteredGuildModel {
            id: new_object_id(),
            guild_id,
            clan_name: None,
            broadcast_channel: None,
            clan_chat_channel: None,
            leagues_broadcast_channel: None,
            drop_price_threshold: None,
            disallowed_broadcast_types: Vec::new(),
            verification_code,
            hashed_verification_code,
            min_quest_difficulty: None,
            min_diary_tier: None,
            pk_value_threshold: None,
            wom_id: None,
            created_at: Some(now_millis()),
        }
    }
}

} // verus!
