use crate::helpers::{hash_string, xxh3_64_of};
use crate::osrs_broadcast_extractor::osrs_broadcast_extractor::BroadcastType;
use crate::text::{decimal, string_of};
use rand::Rng;
use vstd::prelude::*;

pub mod clan_mate_collection_log_totals;
pub mod clan_mates;
pub mod drop_logs_db;
pub mod guilds_db;
pub mod pb_activities_db;

verus! {

/// A Discord server that has added the bot, as first stored.
#[derive(Clone, Debug)]
pub struct RegisteredGuild {
    pub guild_id: u64,
    pub clan_name: Option<String>,
    /// Channel that broadcast messages go to.
    pub broadcast_channel: Option<u64>,
    /// Channel that clan chat messages go to.
    pub clan_chat_channel: Option<u64>,
    pub drop_price_threshold: Option<i64>,
    pub allowed_broadcast_types: Option<Vec<BroadcastType>>,
    pub verification_code: String,
    pub hashed_verification_code: String,
    pub verified: bool,
}

/// Draws a digit with `rand::thread_rng().gen_range(0..10)`. Claimed, as `gen_range`
/// documents: the value lies in `0..10`.
#[verifier::external_body]
fn random_digit() -> (d: u32)
    ensures
        d < 10,
{
    rand::thread_rng().gen_range(0..10)
}

/// Calls `bson::oid::ObjectId::new()` and hands back the id's twelve bytes. Nothing is claimed
/// of them: they depend on the time, the process and a counter.
#[verifier::external_body]
pub(crate) fn new_object_id() -> [u8; 12] {
    bson::oid::ObjectId::new().bytes()
}

/// Calls `bson::DateTime::now()` and hands back its milliseconds since the Unix epoch. Nothing
/// is claimed of the value: it is the clock's.
#[verifier::external_body]
pub(crate) fn now_millis() -> i64 {
    bson::DateTime::now().timestamp_millis()
}

/// A verification code: three groups of three decimal digits joined by dashes, `ddd-ddd-ddd`.
pub open spec fn is_verification_code(code: Seq<char>) -> bool {
    &&& code.len() == 11
    &&& forall|i: int|
        0 <= i < 11 ==> if i == 3 || i == 7 {
            code[i] == '-'
        } else {
            '0' <= #[trigger] code[i] <= '9'
        }
}

/// A fresh random verification code.
pub fn generate_code() -> (code: String)
    ensures
        is_verification_code(code@),
{
    let mut code: Vec<char> = Vec::new();
    let mut i: u32 = 0;
    while i < 9
        invariant
            i <= 9,
            code@.len() == i + if i > 5 { 2int } else if i > 2 { 1int } else { 0int },
            forall|k: int|
                0 <= k < code@.len() ==> if k == 3 || k == 7 {
                    code@[k] == '-'
                } else {
                    '0' <= #[trigger] code@[k] <= '9'
                },
        decreases 9 - i,
    {
        let d = random_digit();
        let c = ((d as u8) + 48u8) as char;
        assert('0' <= c <= '9');
        code.push(c);
        if i == 2 || i == 5 {
            code.push('-');
        }
        i = i + 1;
    }
    string_of(&code)
}

impl RegisteredGuild {
    pub const COLLECTION_NAME: &'static str = "guilds";

    /// A new, unverified guild with a fresh verification code and its hash, and nothing else
    /// set.
    pub fn new(guild_id: u64) -> (r: Self)
        ensures
            r.guild_id == guild_id,
            r.clan_name is None,
            r.broadcast_channel is None,
            r.clan_chat_channel is None,
            r.drop_price_threshold is None,
            r.allowed_broadcast_types is None,
            is_verification_code(r.verification_code@),
            r.hashed_verification_code@ == decimal(xxh3_64_of(r.verification_code@) as nat),
            !r.verified,
    {
        let verification_code = generate_code();
        let hashed_verification_code = hash_string(verification_code.clone());
        RegisteredGuild {
            guild_id,
            clan_name: None,
            broadcast_channel: None,
            clan_chat_channel: None,
            drop_price_threshold: None,
            allowed_broadcast_types: None,
            verification_code,
            hashed_verification_code,
            verified: false,
        }
    }
}

} // verus!
