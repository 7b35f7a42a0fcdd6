use crate::captures::{captures, group, group_of, has_group, regex_captures};
use crate::text::{
    chars_of, contains, owned, parse_i64, parse_i64_exec, push_chars, push_str, remove_char,
    remove_char_exec, replace_char, replace_char_exec, str_contains, str_eq, string_of, trim,
    trim_exec,
};
use vstd::prelude::*;
use vstd::utf8::encode_utf8;

verus! {

/// A message seen in the clan chat.
#[derive(Clone, Debug)]
pub struct ClanMessage {
    pub sender: String,
    pub message: String,
    pub clan_name: String,
    pub rank: String,
    /// Icon id of the account type (player moderator, ironman, league, ...).
    pub icon_id: Option<i64>,
    pub is_league_world: Option<bool>,
}

/// How hard a quest is, from easiest to hardest.
#[derive(Clone, Copy, Debug, PartialEq, Eq, Structural)]
pub enum QuestDifficulty {
    Novice,
    Intermediate,
    Experienced,
    Master,
    Grandmaster,
}

/// The name of each quest difficulty.
pub open spec fn quest_difficulty_name(d: QuestDifficulty) -> Seq<char> {
    match d {
        QuestDifficulty::Novice => "Novice"@,
        QuestDifficulty::Intermediate => "Intermediate"@,
        QuestDifficulty::Experienced => "Experienced"@,
        QuestDifficulty::Master => "Master"@,
        QuestDifficulty::Grandmaster => "Grandmaster"@,
    }
}

/// The difficulty a name stands for; names it does not know stand for `Novice`.
pub open spec fn quest_difficulty_of(name: Seq<char>) -> QuestDifficulty {
    if name == "Novice"@ {
        QuestDifficulty::Novice
    } else if name == "Intermediate"@ {
        QuestDifficulty::Intermediate
    } else if name == "Experienced"@ {
        QuestDifficulty::Experienced
    } else if name == "Master"@ {
        QuestDifficulty::Master
    } else if name == "Grandmaster"@ {
        QuestDifficulty::Grandmaster
    } else {
        QuestDifficulty::Novice
    }
}

/// The rank of each difficulty: 1 for `Novice` up to 5 for `Grandmaster`.
pub open spec fn quest_difficulty_rank(d: QuestDifficulty) -> usize {
    match d {
        QuestDifficulty::Novice => 1,
        QuestDifficulty::Intermediate => 2,
        QuestDifficulty::Experienced => 3,
        QuestDifficulty::Master => 4,
        QuestDifficulty::Grandmaster => 5,
    }
}

/// All difficulties, easiest first.
pub open spec fn all_quest_difficulties() -> Seq<QuestDifficulty> {
    seq![
        QuestDifficulty::Novice,
        QuestDifficulty::Intermediate,
        QuestDifficulty::Experienced,
        QuestDifficulty::Master,
        QuestDifficulty::Grandmaster,
    ]
}

impl QuestDifficulty {
    pub fn from_string(quest_difficulty: String) -> (r: QuestDifficulty)
        ensures
            r == quest_difficulty_of(quest_difficulty@),
    {
        let s = quest_difficulty.as_str();
        if str_eq(s, "Novice") {
            QuestDifficulty::Novice
        } else if str_eq(s, "Intermediate") {
            QuestDifficulty::Intermediate
        } else if str_eq(s, "Experienced") {
            QuestDifficulty::Experienced
        } else if str_eq(s, "Master") {
            QuestDifficulty::Master
        } else if str_eq(s, "Grandmaster") {
            QuestDifficulty::Grandmaster
        } else {
            QuestDifficulty::Novice
        }
    }

    pub fn to_string(&self) -> (r: String)
        ensures
            r@ == quest_difficulty_name(*self),
    {
        match self {
            QuestDifficulty::Novice => owned("Novice"),
            QuestDifficulty::Intermediate => owned("Intermediate"),
            QuestDifficulty::Experienced => owned("Experienced"),
            QuestDifficulty::Master => owned("Master"),
            QuestDifficulty::Grandmaster => owned("Grandmaster"),
        }
    }

    pub fn iter() -> (r: Vec<QuestDifficulty>)
        ensures
            r@ == all_quest_difficulties(),
    {
        let r = vec![
            QuestDifficulty::Novice,
            QuestDifficulty::Intermediate,
            QuestDifficulty::Experienced,
            QuestDifficulty::Master,
            QuestDifficulty::Grandmaster,
        ];
        assert(r@ =~= all_quest_difficulties());
        r
    }

    pub fn ranking(&self) -> (r: usize)
        ensures
            r == quest_difficulty_rank(*self),
    {
        match self {
            QuestDifficulty::Novice => 1,
            QuestDifficulty::Intermediate => 2,
            QuestDifficulty::Experienced => 3,
            QuestDifficulty::Master => 4,
            QuestDifficulty::Grandmaster => 5,
        }
    }
}

/// The tier of an achievement diary, from easiest to hardest.
#[derive(Clone, Copy, Debug, PartialEq, Eq, Structural)]
pub enum DiaryTier {
    Easy,
    Medium,
    Hard,
    Elite,
}

/// The name of each diary tier.
pub open spec fn diary_tier_name(t: DiaryTier) -> Seq<char> {
    match t {
        DiaryTier::Easy => "Easy"@,
        DiaryTier::Medium => "Medium"@,
        DiaryTier::Hard => "Hard"@,
        DiaryTier::Elite => "Elite"@,
    }
}

/// The tier a name stands for; names it does not know stand for `Easy`.
pub open spec fn diary_tier_of(name: Seq<char>) -> DiaryTier {
    if name == "Easy"@ {
        DiaryTier::Easy
    } else if name == "Medium"@ {
        DiaryTier::Medium
    } else if name == "Hard"@ {
        DiaryTier::Hard
    } else if name == "Elite"@ {
        DiaryTier::Elite
    } else {
        DiaryTier::Easy
    }
}

/// The rank of each tier: 1 for `Easy` up to 4 for `Elite`.
pub open spec fn diary_tier_rank(t: DiaryTier) -> usize {
    match t {
        DiaryTier::Easy => 1,
        DiaryTier::Medium => 2,
        DiaryTier::Hard => 3,
        DiaryTier::Elite => 4,
    }
}

impl DiaryTier {
    pub fn from_string(diary_tier: String) -> (r: DiaryTier)
        ensures
            r == diary_tier_of(diary_tier@),
    {
        let s = diary_tier.as_str();
        if str_eq(s, "Easy") {
            DiaryTier::Easy
        } else if str_eq(s, "Medium") {
            DiaryTier::Medium
        } else if str_eq(s, "Hard") {
            DiaryTier::Hard
        } else if str_eq(s, "Elite") {
            DiaryTier::Elite
        } else {
            DiaryTier::Easy
        }
    }

    pub fn to_string(&self) -> (r: String)
        ensures
            r@ == diary_tier_name(*self),
    {
        match self {
            DiaryTier::Easy => owned("Easy"),
            DiaryTier::Medium => owned("Medium"),
            DiaryTier::Hard => owned("Hard"),
            DiaryTier::Elite => owned("Elite"),
        }
    }

    pub fn ranking(&self) -> (r: usize)
        ensures
            r == diary_tier_rank(*self),
    {
        match self {
            DiaryTier::Easy => 1,
            DiaryTier::Medium => 2,
            DiaryTier::Hard => 3,
            DiaryTier::Elite => 4,
        }
    }
}


/// The leagues broadcasts that are told apart.
#[derive(Clone, Copy, Debug, PartialEq, Eq, Structural)]
pub enum LeaguesBroadCastType {
    AreaUnlock,
    LeaguesRank,
    CombatMasteries,
    RelicTier,
    /// A normal broadcast, such as a drop, seen on a leagues world.
    NormalBroadCast,
}

/// The kinds of clan broadcast.
#[derive(Clone, Copy, Debug, PartialEq, Eq, Structural)]
pub enum BroadcastType {
    ItemDrop,
    PetDrop,
    Quest,
    Diary,
    RaidDrop,
    Pk,
    Invite,
    LootKey,
    XPMilestone,
    LevelMilestone,
    CollectionLog,
    LeftTheClan,
    ExpelledFromClan,
    CofferDonation,
    CofferWithdrawal,
    PersonalBest,
    AreaUnlock,
    LeaguesRank,
    CombatMasteries,
    RelicTier,
    Unknown,
}

/// The display name of each broadcast type.
pub open spec fn broadcast_type_name(t: BroadcastType) -> Seq<char> {
    match t {
        BroadcastType::ItemDrop => "Item Drop"@,
        BroadcastType::PetDrop => "Pet Drop"@,
        BroadcastType::Quest => "Quest"@,
        BroadcastType::Diary => "Diary"@,
        BroadcastType::RaidDrop => "Raid Drop"@,
        BroadcastType::Pk => "Pk"@,
        BroadcastType::Invite => "Invite"@,
        BroadcastType::LootKey => "Loot Key"@,
        BroadcastType::XPMilestone => "XP Milestone"@,
        BroadcastType::LevelMilestone => "Level Milestone"@,
        BroadcastType::CollectionLog => "Collection Log"@,
        BroadcastType::Unknown => "Unknown"@,
        BroadcastType::LeftTheClan => "Left The Clan"@,
        BroadcastType::ExpelledFromClan => "Expelled From Clan"@,
        BroadcastType::CofferDonation => "Coffer Donation"@,
        BroadcastType::CofferWithdrawal => "Coffer Withdrawal"@,
        BroadcastType::PersonalBest => "Personal Best"@,
        BroadcastType::AreaUnlock => "Area Unlock"@,
        BroadcastType::LeaguesRank => "Leagues Rank"@,
        BroadcastType::CombatMasteries => "Combat Masteries"@,
        BroadcastType::RelicTier => "Relic Tier"@,
    }
}

/// The broadcast type a name stands for. Only some display names are read back: the
/// clan-membership and coffer names, "Unknown" and every other text give `Unknown`.
pub open spec fn broadcast_type_of(name: Seq<char>) -> BroadcastType {
    if name == "Item Drop"@ {
        BroadcastType::ItemDrop
    } else if name == "Pet Drop"@ {
        BroadcastType::PetDrop
    } else if name == "Quest"@ {
        BroadcastType::Quest
    } else if name == "Diary"@ {
        BroadcastType::Diary
    } else if name == "Raid Drop"@ {
        BroadcastType::RaidDrop
    } else if name == "Pk"@ {
        BroadcastType::Pk
    } else if name == "Invite"@ {
        BroadcastType::Invite
    } else if name == "Loot Key"@ {
        BroadcastType::LootKey
    } else if name == "XP Milestone"@ {
        BroadcastType::XPMilestone
    } else if name == "Level Milestone"@ {
        BroadcastType::LevelMilestone
    } else if name == "Collection Log"@ {
        BroadcastType::CollectionLog
    } else if name == "Personal Best"@ {
        BroadcastType::PersonalBest
    } else if name == "Area Unlock"@ {
        BroadcastType::AreaUnlock
    } else if name == "Leagues Rank"@ {
        BroadcastType::LeaguesRank
    } else if name == "Combat Masteries"@ {
        BroadcastType::CombatMasteries
    } else if name == "Relic Tier"@ {
        BroadcastType::RelicTier
    } else {
        BroadcastType::Unknown
    }
}

/// Every broadcast type, in the order `BroadcastType::iter` lists them.
pub open spec fn all_broadcast_types() -> Seq<BroadcastType> {
    seq![
        BroadcastType::ItemDrop,
        BroadcastType::PetDrop,
        BroadcastType::Quest,
        BroadcastType::Diary,
        BroadcastType::RaidDrop,
        BroadcastType::Pk,
        BroadcastType::Invite,
        BroadcastType::LootKey,
        BroadcastType::XPMilestone,
        BroadcastType::LevelMilestone,
        BroadcastType::CollectionLog,
        BroadcastType::Unknown,
        BroadcastType::LeftTheClan,
        BroadcastType::ExpelledFromClan,
        BroadcastType::CofferDonation,
        BroadcastType::CofferWithdrawal,
        BroadcastType::PersonalBest,
        BroadcastType::AreaUnlock,
        BroadcastType::LeaguesRank,
        BroadcastType::CombatMasteries,
        BroadcastType::RelicTier,
    ]
}

fn broadcast_type_name_str(t: BroadcastType) -> (r: &'static str)
    ensures
        r@ == broadcast_type_name(t),
{
    match t {
        BroadcastType::ItemDrop => "Item Drop",
        BroadcastType::PetDrop => "Pet Drop",
        BroadcastType::Quest => "Quest",
        BroadcastType::Diary => "Diary",
        BroadcastType::RaidDrop => "Raid Drop",
        BroadcastType::Pk => "Pk",
        BroadcastType::Invite => "Invite",
        BroadcastType::LootKey => "Loot Key",
        BroadcastType::XPMilestone => "XP Milestone",
        BroadcastType::LevelMilestone => "Level Milestone",
        BroadcastType::CollectionLog => "Collection Log",
        BroadcastType::Unknown => "Unknown",
        BroadcastType::LeftTheClan => "Left The Clan",
        BroadcastType::ExpelledFromClan => "Expelled From Clan",
        BroadcastType::CofferDonation => "Coffer Donation",
        BroadcastType::CofferWithdrawal => "Coffer Withdrawal",
        BroadcastType::PersonalBest => "Personal Best",
        BroadcastType::AreaUnlock => "Area Unlock",
        BroadcastType::LeaguesRank => "Leagues Rank",
        BroadcastType::CombatMasteries => "Combat Masteries",
        BroadcastType::RelicTier => "Relic Tier",
    }
}

impl BroadcastType {
    pub fn to_string(&self) -> (r: String)
        ensures
            r@ == broadcast_type_name(*self),
    {
        owned(broadcast_type_name_str(*self))
    }

    pub fn from_string(broadcast_type: String) -> (r: BroadcastType)
        ensures
            r == broadcast_type_of(broadcast_type@),
    {
        let s = broadcast_type.as_str();
        if str_eq(s, "Item Drop") {
            BroadcastType::ItemDrop
        } else if str_eq(s, "Pet Drop") {
            BroadcastType::PetDrop
        } else if str_eq(s, "Quest") {
            BroadcastType::Quest
        } else if str_eq(s, "Diary") {
            BroadcastType::Diary
        } else if str_eq(s, "Raid Drop") {
            BroadcastType::RaidDrop
        } else if str_eq(s, "Pk") {
            BroadcastType::Pk
        } else if str_eq(s, "Invite") {
            BroadcastType::Invite
        } else if str_eq(s, "Loot Key") {
            BroadcastType::LootKey
        } else if str_eq(s, "XP Milestone") {
            BroadcastType::XPMilestone
        } else if str_eq(s, "Level Milestone") {
            BroadcastType::LevelMilestone
        } else if str_eq(s, "Collection Log") {
            BroadcastType::CollectionLog
        } else if str_eq(s, "Personal Best") {
            BroadcastType::PersonalBest
        } else if str_eq(s, "Area Unlock") {
            BroadcastType::AreaUnlock
        } else if str_eq(s, "Leagues Rank") {
            BroadcastType::LeaguesRank
        } else if str_eq(s, "Combat Masteries") {
            BroadcastType::CombatMasteries
        } else if str_eq(s, "Relic Tier") {
            BroadcastType::RelicTier
        } else {
            BroadcastType::Unknown
        }
    }

    pub fn iter() -> (r: Vec<BroadcastType>)
        ensures
            r@ == all_broadcast_types(),
    {
        let r = vec![
            BroadcastType::ItemDrop,
            BroadcastType::PetDrop,
            BroadcastType::Quest,
            BroadcastType::Diary,
            BroadcastType::RaidDrop,
            BroadcastType::Pk,
            BroadcastType::Invite,
            BroadcastType::LootKey,
            BroadcastType::XPMilestone,
            BroadcastType::LevelMilestone,
            BroadcastType::CollectionLog,
            BroadcastType::Unknown,
            BroadcastType::LeftTheClan,
            BroadcastType::ExpelledFromClan,
            BroadcastType::CofferDonation,
            BroadcastType::CofferWithdrawal,
            BroadcastType::PersonalBest,
            BroadcastType::AreaUnlock,
            BroadcastType::LeaguesRank,
            BroadcastType::CombatMasteries,
            BroadcastType::RelicTier,
        ];
        assert(r@ =~= all_broadcast_types());
        r
    }

    /// The display name with every space made an underscore.
    pub fn to_slug(&self) -> (r: String)
        ensures
            r@ == replace_char(broadcast_type_name(*self), ' ', '_'),
    {
        let name = chars_of(broadcast_type_name_str(*self));
        let slug = replace_char_exec(&name, ' ', '_');
        string_of(&slug)
    }
}

/// Which way gold went through the clan coffer.
#[derive(Clone, Copy, Debug, PartialEq, Eq, Structural)]
pub enum CofferTransaction {
    Withdrawal,
    Donation,
}


/// Reading back the name of a quest difficulty gives that difficulty.
pub proof fn lemma_quest_difficulty_name_round_trip(d: QuestDifficulty)
    ensures
        quest_difficulty_of(quest_difficulty_name(d)) == d,
{
    reveal_strlit("Novice");
    reveal_strlit("Intermediate");
    reveal_strlit("Experienced");
    reveal_strlit("Master");
    reveal_strlit("Grandmaster");
    assert("Novice"@.len() == 6 && "Novice"@[0] == 'N');
    assert("Intermediate"@.len() == 12 && "Intermediate"@[0] == 'I');
    assert("Experienced"@.len() == 11 && "Experienced"@[0] == 'E');
    assert("Master"@.len() == 6 && "Master"@[0] == 'M');
    assert("Grandmaster"@.len() == 11 && "Grandmaster"@[0] == 'G');
}

/// The difficulties are listed easiest first, and the `k`-th of them ranks `k + 1`: ranking
/// orders difficulties as the list does.
pub proof fn lemma_quest_difficulty_ranks_follow_list(i: int, j: int)
    requires
        0 <= i < all_quest_difficulties().len(),
        0 <= j < all_quest_difficulties().len(),
    ensures
        quest_difficulty_rank(all_quest_difficulties()[i]) == i + 1,
        i < j ==> quest_difficulty_rank(all_quest_difficulties()[i]) < quest_difficulty_rank(
            all_quest_difficulties()[j],
        ),
{
}

/// Every quest difficulty is listed.
pub proof fn lemma_quest_difficulties_listed(d: QuestDifficulty)
    ensures
        all_quest_difficulties().contains(d),
{
    let all = all_quest_difficulties();
    match d {
        QuestDifficulty::Novice => assert(all[0] == d),
        QuestDifficulty::Intermediate => assert(all[1] == d),
        QuestDifficulty::Experienced => assert(all[2] == d),
        QuestDifficulty::Master => assert(all[3] == d),
        QuestDifficulty::Grandmaster => assert(all[4] == d),
    }
}

/// Reading back the name of a diary tier gives that tier.
pub proof fn lemma_diary_tier_name_round_trip(t: DiaryTier)
    ensures
        diary_tier_of(diary_tier_name(t)) == t,
{
    reveal_strlit("Easy");
    reveal_strlit("Medium");
    reveal_strlit("Hard");
    reveal_strlit("Elite");
    assert("Easy"@.len() == 4 && "Easy"@[0] == 'E');
    assert("Medium"@.len() == 6 && "Medium"@[0] == 'M');
    assert("Hard"@.len() == 4 && "Hard"@[0] == 'H');
    assert("Elite"@.len() == 5 && "Elite"@[0] == 'E');
}

/// Ranking orders diary tiers from `Easy` (1) to `Elite` (4), one apart.
pub proof fn lemma_diary_tier_ranks()
    ensures
        diary_tier_rank(DiaryTier::Easy) == 1,
        diary_tier_rank(DiaryTier::Medium) == 2,
        diary_tier_rank(DiaryTier::Hard) == 3,
        diary_tier_rank(DiaryTier::Elite) == 4,
        forall|a: DiaryTier, b: DiaryTier|
            diary_tier_rank(a) == diary_tier_rank(b) ==> a == b,
{
}

/// The length and first letter of each broadcast type name, which tell the names apart.
proof fn lemma_broadcast_type_name_facts()
    ensures
        "Item Drop"@.len() == 9 && "Item Drop"@[0] == 'I',
        "Pet Drop"@.len() == 8 && "Pet Drop"@[0] == 'P',
        "Quest"@.len() == 5 && "Quest"@[0] == 'Q',
        "Diary"@.len() == 5 && "Diary"@[0] == 'D',
        "Raid Drop"@.len() == 9 && "Raid Drop"@[0] == 'R',
        "Pk"@.len() == 2 && "Pk"@[0] == 'P',
        "Invite"@.len() == 6 && "Invite"@[0] == 'I',
        "Loot Key"@.len() == 8 && "Loot Key"@[0] == 'L',
        "XP Milestone"@.len() == 12 && "XP Milestone"@[0] == 'X',
        "Level Milestone"@.len() == 15 && "Level Milestone"@[0] == 'L',
        "Collection Log"@.len() == 14 && "Collection Log"@[0] == 'C',
        "Unknown"@.len() == 7 && "Unknown"@[0] == 'U',
        "Left The Clan"@.len() == 13 && "Left The Clan"@[0] == 'L',
        "Expelled From Clan"@.len() == 18 && "Expelled From Clan"@[0] == 'E',
        "Coffer Donation"@.len() == 15 && "Coffer Donation"@[0] == 'C',
        "Coffer Withdrawal"@.len() == 17 && "Coffer Withdrawal"@[0] == 'C',
        "Personal Best"@.len() == 13 && "Personal Best"@[0] == 'P',
        "Area Unlock"@.len() == 11 && "Area Unlock"@[0] == 'A',
        "Leagues Rank"@.len() == 12 && "Leagues Rank"@[0] == 'L',
        "Combat Masteries"@.len() == 16 && "Combat Masteries"@[0] == 'C',
        "Relic Tier"@.len() == 10 && "Relic Tier"@[0] == 'R',
{
    reveal_strlit("Item Drop");
    reveal_strlit("Pet Drop");
    reveal_strlit("Quest");
    reveal_strlit("Diary");
    reveal_strlit("Raid Drop");
    reveal_strlit("Pk");
    reveal_strlit("Invite");
    reveal_strlit("Loot Key");
    reveal_strlit("XP Milestone");
    reveal_strlit("Level Milestone");
    reveal_strlit("Collection Log");
    reveal_strlit("Unknown");
    reveal_strlit("Left The Clan");
    reveal_strlit("Expelled From Clan");
    reveal_strlit("Coffer Donation");
    reveal_strlit("Coffer Withdrawal");
    reveal_strlit("Personal Best");
    reveal_strlit("Area Unlock");
    reveal_strlit("Leagues Rank");
    reveal_strlit("Combat Masteries");
    reveal_strlit("Relic Tier");
}

/// Reading back the display name of a broadcast type gives that type, for every type whose
/// name `from_string` knows; the clan-membership and coffer types read back as `Unknown`.
pub proof fn lemma_broadcast_type_name_round_trip(t: BroadcastType)
    ensures
        t != BroadcastType::LeftTheClan && t != BroadcastType::ExpelledFromClan && t
            != BroadcastType::CofferDonation && t != BroadcastType::CofferWithdrawal
            ==> broadcast_type_of(broadcast_type_name(t)) == t,
        (t == BroadcastType::LeftTheClan || t == BroadcastType::ExpelledFromClan || t
            == BroadcastType::CofferDonation || t == BroadcastType::CofferWithdrawal)
            ==> broadcast_type_of(broadcast_type_name(t)) == BroadcastType::Unknown,
{
    lemma_broadcast_type_name_facts();
}

/// Distinct broadcast types have distinct display names.
pub proof fn lemma_broadcast_type_names_distinct(a: BroadcastType, b: BroadcastType)
    ensures
        broadcast_type_name(a) == broadcast_type_name(b) ==> a == b,
{
    lemma_broadcast_type_name_facts();
}

/// `BroadcastType::iter` lists every broadcast type exactly once.
pub proof fn lemma_broadcast_types_listed_once(t: BroadcastType)
    ensures
        all_broadcast_types().contains(t),
        forall|i: int, j: int|
            0 <= i < j < all_broadcast_types().len() ==> all_broadcast_types()[i]
                != all_broadcast_types()[j],
{
    let all = all_broadcast_types();
    assert(all.len() == 21);
    let k: int = match t {
        BroadcastType::ItemDrop => 0,
        BroadcastType::PetDrop => 1,
        BroadcastType::Quest => 2,
        BroadcastType::Diary => 3,
        BroadcastType::RaidDrop => 4,
        BroadcastType::Pk => 5,
        BroadcastType::Invite => 6,
        BroadcastType::LootKey => 7,
        BroadcastType::XPMilestone => 8,
        BroadcastType::LevelMilestone => 9,
        BroadcastType::CollectionLog => 10,
        BroadcastType::Unknown => 11,
        BroadcastType::LeftTheClan => 12,
        BroadcastType::ExpelledFromClan => 13,
        BroadcastType::CofferDonation => 14,
        BroadcastType::CofferWithdrawal => 15,
        BroadcastType::PersonalBest => 16,
        BroadcastType::AreaUnlock => 17,
        BroadcastType::LeaguesRank => 18,
        BroadcastType::CombatMasteries => 19,
        BroadcastType::RelicTier => 20,
    };
    assert(all[k] == t);
}


/// A byte that `urlencoding::encode` leaves as it is: an ASCII letter or digit, `-`, `.`,
/// `_` or `~`.
pub open spec fn is_unreserved_byte(b: u8) -> bool {
    ||| (48 <= b && b <= 57)
    ||| (65 <= b && b <= 90)
    ||| (97 <= b && b <= 122)
    ||| b == 45
    ||| b == 46
    ||| b == 95
    ||| b == 126
}

/// The upper-case hexadecimal digit for `d` (below 16).
pub open spec fn hex_digit(d: int) -> char {
    if d < 10 {
        (48 + d) as char
    } else {
        (55 + d) as char
    }
}

/// Percent-encoding of a byte string: unreserved bytes stay, every other byte `b` becomes
/// `%` and two upper-case hexadecimal digits.
pub open spec fn percent_encode(bytes: Seq<u8>) -> Seq<char>
    decreases bytes.len(),
{
    if bytes.len() == 0 {
        Seq::empty()
    } else {
        let b = bytes.last();
        percent_encode(bytes.drop_last()) + if is_unreserved_byte(b) {
            seq![b as char]
        } else {
            seq!['%', hex_digit((b / 16) as int), hex_digit((b % 16) as int)]
        }
    }
}

/// `text` percent-encoded, byte by byte of its UTF-8 encoding.
pub open spec fn url_encode(text: Seq<char>) -> Seq<char> {
    percent_encode(encode_utf8(text))
}

/// Calls `urlencoding::encode`. Claimed, as its source shows: the UTF-8 bytes of `s` are
/// written out in order, letters, digits, `-`, `.`, `_` and `~` as themselves and every other
/// byte as `%` with two upper-case hexadecimal digits.
#[verifier::external_body]
fn url_encoded(s: &str) -> (r: String)
    ensures
        r@ == url_encode(s@),
{
    urlencoding::encode(s).into_owned()
}

/// The wiki's file name for an item or page: spaces become underscores, then the name is
/// percent-encoded.
pub open spec fn wiki_image_name(name: Seq<char>) -> Seq<char> {
    url_encode(replace_char(name, ' ', '_'))
}

/// The wiki's detail image of an item.
pub open spec fn wiki_image_url(item_name: Seq<char>) -> Seq<char> {
    "https://oldschool.runescape.wiki/images/"@ + wiki_image_name(item_name) + "_detail.png"@
}

/// The wiki's reward scroll image of a quest.
pub open spec fn quest_reward_scroll_url(quest: Seq<char>) -> Seq<char> {
    "https://oldschool.runescape.wiki/images/"@ + wiki_image_name(quest) + "_reward_scroll.png"@
}

/// The wiki's icon of a skill.
pub open spec fn skill_icon_url(skill: Seq<char>) -> Seq<char> {
    "https://oldschool.runescape.wiki/images/"@ + wiki_image_name(skill) + "_icon_(detail).png"@
}

/// The wiki's icon of a clan rank; "Deputy Owner" is filed as "Deputy_owner".
pub open spec fn clan_rank_image_url(rank: Seq<char>) -> Seq<char> {
    let name = if rank == "Deputy Owner"@ {
        "Deputy_owner"@
    } else {
        wiki_image_name(rank)
    };
    "https://oldschool.runescape.wiki/images/Clan_icon_-_"@ + name + ".png"@
}

fn format_wiki_image_name(item_name: &str) -> (r: Vec<char>)
    ensures
        r@ == wiki_image_name(item_name@),
{
    let chars = chars_of(item_name);
    let replaced = replace_char_exec(&chars, ' ', '_');
    let replaced = string_of(&replaced);
    let encoded = url_encoded(replaced.as_str());
    chars_of(encoded.as_str())
}

/// `prefix`, the wiki file name of `name`, then `suffix`.
fn wiki_url(prefix: &str, name: &str, suffix: &str) -> (r: String)
    ensures
        r@ == prefix@ + wiki_image_name(name@) + suffix@,
{
    let mut url = chars_of(prefix);
    let image_name = format_wiki_image_name(name);
    push_chars(&mut url, &image_name);
    push_str(&mut url, suffix);
    string_of(&url)
}

/// The wiki's detail image of an item.
pub fn get_wiki_image_url(item_name: String) -> (r: String)
    ensures
        r@ == wiki_image_url(item_name@),
{
    wiki_url("https://oldschool.runescape.wiki/images/", item_name.as_str(), "_detail.png")
}

pub fn get_wiki_clan_rank_image_url(rank: String) -> (r: String)
    ensures
        r@ == clan_rank_image_url(rank@),
{
    let mut url = chars_of("https://oldschool.runescape.wiki/images/Clan_icon_-_");
    if str_eq(rank.as_str(), "Deputy Owner") {
        push_str(&mut url, "Deputy_owner");
    } else {
        let image_name = format_wiki_image_name(rank.as_str());
        push_chars(&mut url, &image_name);
    }
    push_str(&mut url, ".png");
    string_of(&url)
}

pub fn get_quest_reward_scroll(quest: String) -> (r: String)
    ensures
        r@ == quest_reward_scroll_url(quest@),
{
    wiki_url("https://oldschool.runescape.wiki/images/", quest.as_str(), "_reward_scroll.png")
}

pub fn get_skill_icon(skill: String) -> (r: String)
    ensures
        r@ == skill_icon_url(skill@),
{
    wiki_url("https://oldschool.runescape.wiki/images/", skill.as_str(), "_icon_(detail).png")
}


/// `<player> received special loot from a raid: <item>`
pub const RAID_BROADCAST_PATTERN: &'static str = r#"^(?P<player_name>.*?) received special loot from a raid: (?P<item>.*?)([.]|$)"#;

/// `<player> received a drop: [<quantity> x ]<item>[ (<value> coins)][ from <source>][.]`
pub const DROP_BROADCAST_PATTERN: &'static str = r#"^(?P<player_name>.*?) received a drop: (?:((?P<quantity>[,\d]+) x )?)(?P<item>.*?)(?: \((?P<value>[,\d]+) coins\))?(?: from .*?)?[.]?$"#;

/// `<player> has a funny feeling ...: <pet> at <count> <count type>.` and the backpack variant.
pub const PET_BROADCAST_PATTERN: &'static str = r#"^(?P<player_name>.*?) (?:has a funny feeling.*?|feels something weird sneaking into (?P<pronoun>her|his) backpack): (?P<pet_name>.*?) at (?P<count>[,\d]+) (?P<count_type>.*?)[.]$"#;

/// `<player> has completed a quest: <quest>`
pub const QUEST_COMPLETED_BROADCAST_PATTERN: &'static str = r#"^(?P<player_name>.*?) has completed a quest: (?P<quest_name>.+)$"#;

/// `<player> has completed the <tier> <diary>.`
pub const DIARY_COMPLETED_BROADCAST_PATTERN: &'static str = r#"^(?P<player_name>.*?) has completed the (?P<diary_tier>Easy|Medium|Hard|Elite) (?P<diary_name>.*?).$"#;

/// `<winner> has defeated <loser> and received (<gp> coins) worth of loot!`
pub const PK_BROADCAST_WINNER_PATTERN: &'static str = r#"^(?P<winner_name>.*?) has defeated (?P<loser_name>.*?) and received \((?P<gp_value>[0-9,]+) coins\) worth of loot!"#;

/// `<loser> has been defeated by <winner>[ in The Wilderness][ and lost (<gp> coins) worth of loot]`
pub const PK_BROADCAST_LOSER_PATTERN: &'static str = r#"^(?P<loser_name>.*?) has been defeated by (?P<winner_name>.*?)(?: in (?P<location>The Wilderness))?(?: and lost \((?P<gp_value>[0-9,]+) coins\) worth of loot)?[!.]"#;

/// `<joiner> has been invited into the clan by <inviter>.`
pub const INVITE_BROADCAST_PATTERN: &'static str = r#"^(?P<clan_joiner>.*?) has been invited into the clan by (?P<clan_inviter>.*?).$"#;

/// `<clan mate> has reached [a ][the highest possible ]<skill> level[ of] <level>`
pub const LEVELMILESTONE_BROADCAST_PATTERN: &'static str = r#"^(?P<clan_mate>.*?) has reached (?:a )?(?:the highest possible )?(?P<skill>.*?) level(?: of)? (?P<level>.*?)[!.]"#;

/// `<clan member> has reached <xp> XP in <skill>.`
pub const XPMILESTONE_BROADCAST_PATTERN: &'static str = r#"^(?P<clan_member>.*?) has reached (?P<xp>.*?) XP in (?P<skill>.*?)[!.]"#;

/// `<name> received a new collection log item: <item> (<slots>/<total>)`
pub const COLLECTION_LOG_BROADCAST_PATTERN: &'static str = r"^(?P<name>[\w\s]+) received a new collection log item: (?P<item>.+?) \((?P<number>\d+)/\d+\)";

/// `<player> has left the clan.`
pub const LEFT_THE_CLAN_BROADCAST_PATTERN: &'static str = r"^(?P<player>[\w\s]+) has left the clan.$";

/// `<moderator> has expelled <player> from the clan.`
pub const EXPELLED_FROM_CLAN_BROADCAST_PATTERN: &'static str = r"^(?P<mod>[\w\s]+) has expelled (?P<player>[\w\s]+) from the clan.$";

/// `<player> has (withdrawn|deposited) <gp> coins (from|into) the coffer.`
pub const COFFER_BROADCAST_PATTERN: &'static str = r"(?P<player>[\w\s]+) has (withdrawn|deposited) (?P<gp>[0-9,]+) coins (from|into) the coffer.";

/// `<player> has achieved a new <activity> personal best: <time>`
pub const PERSONAL_BEST_BROADCAST_PATTERN: &'static str = r#"^(?P<player>[\w\s]+) has achieved a new (?P<activity>[\w\s\-'\.]+) personal best: (?<time>[\d:]+)"#;

/// `<player> has achieved a new <raid> (Team Size: <size>)[<variant>] personal best: <time>`
pub const PERSONAL_BEST_BROADCAST_RAID_PATTERN: &'static str = r#"^(?P<player>[\w\s]+) has achieved a new (?P<raid>[\w\s]+(?:\: [\w\s]+)?) \([Tt]eam [Ss]ize: (?P<team_size>[\w\s]+)\)(?:(?P<variant>[\w\s]+)?) personal best: (?<time>[\d:]+(?:\.\d{2})?)"#;

/// The text a group captured, or the empty text when it captured nothing.
pub open spec fn text_or_empty(g: Option<Seq<char>>) -> Seq<char> {
    match g {
        Some(t) => t,
        None => Seq::empty(),
    }
}

/// A number written with thousands separators, read as `str::parse::<i64>` reads it once the
/// commas are gone; 0 where that fails.
pub open spec fn number_or_zero(text: Seq<char>) -> i64 {
    match parse_i64(remove_char(text, ',')) {
        Some(v) => v,
        None => 0,
    }
}

fn number_or_zero_exec(text: &str) -> (r: i64)
    ensures
        r == number_or_zero(text@),
{
    let chars = chars_of(text);
    let digits = remove_char_exec(&chars, ',');
    match parse_i64_exec(&digits) {
        Some(v) => v,
        None => 0,
    }
}

/// The text of group `i`, which the caller knows to be there.
fn text_of(groups: &Vec<Option<String>>, i: usize) -> (r: String)
    requires
        group(groups.deep_view(), i as int) is Some,
    ensures
        r@ == group(groups.deep_view(), i as int)->0,
{
    group_of(groups, i).unwrap()
}

/// The text of group `i`, or the empty text.
fn text_or_empty_of(groups: &Vec<Option<String>>, i: usize) -> (r: String)
    ensures
        r@ == text_or_empty(group(groups.deep_view(), i as int)),
{
    match group_of(groups, i) {
        Some(t) => t,
        None => {
            proof {
                reveal_strlit("");
            }
            owned("")
        },
    }
}

/// A drop, from a normal or a raid broadcast.
#[derive(Clone, Debug)]
pub struct DropItemBroadcast {
    pub player_it_happened_to: String,
    pub item_name: String,
    pub item_quantity: i64,
    pub item_value: Option<i64>,
    pub item_icon: Option<String>,
}

pub struct DropItemBroadcastView {
    pub player_it_happened_to: Seq<char>,
    pub item_name: Seq<char>,
    pub item_quantity: i64,
    pub item_value: Option<i64>,
    pub item_icon: Option<Seq<char>>,
}

impl View for DropItemBroadcast {
    type V = DropItemBroadcastView;

    open spec fn view(&self) -> DropItemBroadcastView {
        DropItemBroadcastView {
            player_it_happened_to: self.player_it_happened_to@,
            item_name: self.item_name@,
            item_quantity: self.item_quantity,
            item_value: self.item_value,
            item_icon: self.item_icon.deep_view(),
        }
    }
}

impl DeepView for DropItemBroadcast {
    type V = DropItemBroadcastView;

    open spec fn deep_view(&self) -> DropItemBroadcastView {
        self@
    }
}

/// The groups that a raid drop broadcast must have captured: the player and the item.
pub open spec fn raid_groups_ok(g: Seq<Option<Seq<char>>>) -> bool {
    group(g, 1) is Some && group(g, 2) is Some
}

/// The raid drop the groups describe: one of the item, of no known value, with its wiki image.
pub open spec fn raid_drop_of(g: Seq<Option<Seq<char>>>) -> DropItemBroadcastView {
    let item = group(g, 2)->0;
    DropItemBroadcastView {
        player_it_happened_to: group(g, 1)->0,
        item_name: item,
        item_quantity: 1,
        item_value: None,
        item_icon: Some(wiki_image_url(item)),
    }
}

/// What `raid_broadcast_extractor` finds in a message.
pub open spec fn raid_drop_extracted(message: Seq<char>) -> Option<DropItemBroadcastView> {
    match regex_captures(RAID_BROADCAST_PATTERN@, message) {
        Some(g) => if raid_groups_ok(g) {
            Some(raid_drop_of(g))
        } else {
            None
        },
        None => None,
    }
}

/// The raid drop that the capture groups of a raid drop broadcast describe.
pub fn raid_drop_from_groups(groups: Vec<Option<String>>) -> (r: DropItemBroadcast)
    requires
        raid_groups_ok(groups.deep_view()),
    ensures
        r@ == raid_drop_of(groups.deep_view()),
{
    let player = text_of(&groups, 1);
    let item = text_of(&groups, 2);
    let icon = get_wiki_image_url(item.clone());
    DropItemBroadcast {
        player_it_happened_to: player,
        item_name: item,
        item_quantity: 1,
        item_value: None,
        item_icon: Some(icon),
    }
}

pub fn raid_broadcast_extractor(message: String) -> (r: Option<DropItemBroadcast>)
    ensures
        r.deep_view() == raid_drop_extracted(message@),
{
    match captures(RAID_BROADCAST_PATTERN, message.as_str()) {
        Some(groups) => if has_group(&groups, 1) && has_group(&groups, 2) {
            Some(raid_drop_from_groups(groups))
        } else {
            None
        },
        None => None,
    }
}

/// The groups that a drop broadcast must have captured: the player and the item.
pub open spec fn drop_groups_ok(g: Seq<Option<Seq<char>>>) -> bool {
    group(g, 1) is Some && group(g, 4) is Some
}

/// The drop the groups describe. Without a quantity it is one item; a quantity or value that
/// does not read as a number counts as 0; a missing value is 0.
pub open spec fn drop_of(g: Seq<Option<Seq<char>>>) -> DropItemBroadcastView {
    let item = group(g, 4)->0;
    let quantity_text = text_or_empty(group(g, 3));
    DropItemBroadcastView {
        player_it_happened_to: group(g, 1)->0,
        item_name: item,
        item_quantity: if quantity_text.len() > 0 {
            number_or_zero(quantity_text)
        } else {
            1
        },
        item_value: Some(number_or_zero(text_or_empty(group(g, 5)))),
        item_icon: Some(wiki_image_url(item)),
    }
}

/// What `drop_broadcast_extractor` finds in a message.
pub open spec fn drop_extracted(message: Seq<char>) -> Option<DropItemBroadcastView> {
    match regex_captures(DROP_BROADCAST_PATTERN@, message) {
        Some(g) => if drop_groups_ok(g) {
            Some(drop_of(g))
        } else {
            None
        },
        None => None,
    }
}

/// The drop that the capture groups of a drop broadcast describe.
pub fn drop_from_groups(groups: Vec<Option<String>>) -> (r: DropItemBroadcast)
    requires
        drop_groups_ok(groups.deep_view()),
    ensures
        r@ == drop_of(groups.deep_view()),
{
    let player = text_of(&groups, 1);
    let item = text_of(&groups, 4);
    let quantity_text = text_or_empty_of(&groups, 3);
    let quantity_chars = chars_of(quantity_text.as_str());
    let quantity: i64 = if quantity_chars.len() > 0 {
        number_or_zero_exec(quantity_text.as_str())
    } else {
        1
    };
    let value_text = text_or_empty_of(&groups, 5);
    let value = number_or_zero_exec(value_text.as_str());
    let icon = get_wiki_image_url(item.clone());
    DropItemBroadcast {
        player_it_happened_to: player,
        item_name: item,
        item_quantity: quantity,
        item_value: Some(value),
        item_icon: Some(icon),
    }
}

pub fn drop_broadcast_extractor(message: String) -> (r: Option<DropItemBroadcast>)
    ensures
        r.deep_view() == drop_extracted(message@),
{
    match captures(DROP_BROADCAST_PATTERN, message.as_str()) {
        Some(groups) => if has_group(&groups, 1) && has_group(&groups, 4) {
            Some(drop_from_groups(groups))
        } else {
            None
        },
        None => None,
    }
}


/// A pet drop.
pub struct PetDropBroadcast {
    pub player_it_happened_to: String,
    pub pet_name: String,
    pub pet_icon: Option<String>,
    /// The count the pet came at (kills, task count, ...).
    pub actions_optioned_at: Option<i64>,
    /// What was counted (kills, rift searches, permits, XP, ...).
    pub action_for_pet: Option<String>,
}

pub struct PetDropBroadcastView {
    pub player_it_happened_to: Seq<char>,
    pub pet_name: Seq<char>,
    pub pet_icon: Option<Seq<char>>,
    pub actions_optioned_at: Option<i64>,
    pub action_for_pet: Option<Seq<char>>,
}

impl View for PetDropBroadcast {
    type V = PetDropBroadcastView;

    open spec fn view(&self) -> PetDropBroadcastView {
        PetDropBroadcastView {
            player_it_happened_to: self.player_it_happened_to@,
            pet_name: self.pet_name@,
            pet_icon: self.pet_icon.deep_view(),
            actions_optioned_at: self.actions_optioned_at,
            action_for_pet: self.action_for_pet.deep_view(),
        }
    }
}

impl DeepView for PetDropBroadcast {
    type V = PetDropBroadcastView;

    open spec fn deep_view(&self) -> PetDropBroadcastView {
        self@
    }
}

/// The groups that a pet broadcast must have captured: player, pet, count and count type.
pub open spec fn pet_groups_ok(g: Seq<Option<Seq<char>>>) -> bool {
    group(g, 1) is Some && group(g, 3) is Some && group(g, 4) is Some && group(g, 5) is Some
}

/// The pet drop the groups describe; the count is read without its commas, and is absent
/// where it does not read as a number.
pub open spec fn pet_of(g: Seq<Option<Seq<char>>>) -> PetDropBroadcastView {
    let pet = group(g, 3)->0;
    PetDropBroadcastView {
        player_it_happened_to: group(g, 1)->0,
        pet_name: pet,
        pet_icon: Some(wiki_image_url(pet)),
        actions_optioned_at: parse_i64(remove_char(group(g, 4)->0, ',')),
        action_for_pet: Some(group(g, 5)->0),
    }
}

/// What `pet_broadcast_extractor` finds in a message.
pub open spec fn pet_extracted(message: Seq<char>) -> Option<PetDropBroadcastView> {
    match regex_captures(PET_BROADCAST_PATTERN@, message) {
        Some(g) => if pet_groups_ok(g) {
            Some(pet_of(g))
        } else {
            None
        },
        None => None,
    }
}

/// The pet drop that the capture groups of a pet broadcast describe.
pub fn pet_from_groups(groups: Vec<Option<String>>) -> (r: PetDropBroadcast)
    requires
        pet_groups_ok(groups.deep_view()),
    ensures
        r@ == pet_of(groups.deep_view()),
{
    let player = text_of(&groups, 1);
    let pet = text_of(&groups, 3);
    let count_text = text_of(&groups, 4);
    let count_type = text_of(&groups, 5);
    let count_chars = chars_of(count_text.as_str());
    let count_digits = remove_char_exec(&count_chars, ',');
    let count = parse_i64_exec(&count_digits);
    let icon = get_wiki_image_url(pet.clone());
    PetDropBroadcast {
        player_it_happened_to: player,
        pet_name: pet,
        pet_icon: Some(icon),
        actions_optioned_at: count,
        action_for_pet: Some(count_type),
    }
}

pub fn pet_broadcast_extractor(message: String) -> (r: Option<PetDropBroadcast>)
    ensures
        r.deep_view() == pet_extracted(message@),
{
    match captures(PET_BROADCAST_PATTERN, message.as_str()) {
        Some(groups) => if has_group(&groups, 1) && has_group(&groups, 3) && has_group(&groups, 4)
            && has_group(&groups, 5) {
            Some(pet_from_groups(groups))
        } else {
            None
        },
        None => None,
    }
}

/// A completed quest.
pub struct QuestCompletedBroadcast {
    pub player_it_happened_to: String,
    pub quest_name: String,
    pub quest_reward_scroll_icon: Option<String>,
}

pub struct QuestCompletedBroadcastView {
    pub player_it_happened_to: Seq<char>,
    pub quest_name: Seq<char>,
    pub quest_reward_scroll_icon: Option<Seq<char>>,
}

impl View for QuestCompletedBroadcast {
    type V = QuestCompletedBroadcastView;

    open spec fn view(&self) -> QuestCompletedBroadcastView {
        QuestCompletedBroadcastView {
            player_it_happened_to: self.player_it_happened_to@,
            quest_name: self.quest_name@,
            quest_reward_scroll_icon: self.quest_reward_scroll_icon.deep_view(),
        }
    }
}

impl DeepView for QuestCompletedBroadcast {
    type V = QuestCompletedBroadcastView;

    open spec fn deep_view(&self) -> QuestCompletedBroadcastView {
        self@
    }
}

/// The groups that a quest broadcast must have captured: player and quest.
pub open spec fn quest_groups_ok(g: Seq<Option<Seq<char>>>) -> bool {
    group(g, 1) is Some && group(g, 2) is Some
}

/// The completed quest the groups describe, with its reward scroll.
pub open spec fn quest_of(g: Seq<Option<Seq<char>>>) -> QuestCompletedBroadcastView {
    let quest = group(g, 2)->0;
    QuestCompletedBroadcastView {
        player_it_happened_to: group(g, 1)->0,
        quest_name: quest,
        quest_reward_scroll_icon: Some(quest_reward_scroll_url(quest)),
    }
}

/// What `quest_completed_broadcast_extractor` finds in a message.
pub open spec fn quest_extracted(message: Seq<char>) -> Option<QuestCompletedBroadcastView> {
    match regex_captures(QUEST_COMPLETED_BROADCAST_PATTERN@, message) {
        Some(g) => if quest_groups_ok(g) {
            Some(quest_of(g))
        } else {
            None
        },
        None => None,
    }
}

/// The completed quest that the capture groups of a quest broadcast describe.
pub fn quest_from_groups(groups: Vec<Option<String>>) -> (r: QuestCompletedBroadcast)
    requires
        quest_groups_ok(groups.deep_view()),
    ensures
        r@ == quest_of(groups.deep_view()),
{
    let player = text_of(&groups, 1);
    let quest = text_of(&groups, 2);
    let icon = get_quest_reward_scroll(quest.clone());
    QuestCompletedBroadcast {
        player_it_happened_to: player,
        quest_name: quest,
        quest_reward_scroll_icon: Some(icon),
    }
}

pub fn quest_completed_broadcast_extractor(message: String) -> (r: Option<QuestCompletedBroadcast>)
    ensures
        r.deep_view() == quest_extracted(message@),
{
    match captures(QUEST_COMPLETED_BROADCAST_PATTERN, message.as_str()) {
        Some(groups) => if has_group(&groups, 1) && has_group(&groups, 2) {
            Some(quest_from_groups(groups))
        } else {
            None
        },
        None => None,
    }
}

/// A completed achievement diary.
pub struct DiaryCompletedBroadcast {
    pub player_it_happened_to: String,
    pub diary_name: String,
    pub diary_tier: DiaryTier,
}

pub struct DiaryCompletedBroadcastView {
    pub player_it_happened_to: Seq<char>,
    pub diary_name: Seq<char>,
    pub diary_tier: DiaryTier,
}

impl View for DiaryCompletedBroadcast {
    type V = DiaryCompletedBroadcastView;

    open spec fn view(&self) -> DiaryCompletedBroadcastView {
        DiaryCompletedBroadcastView {
            player_it_happened_to: self.player_it_happened_to@,
            diary_name: self.diary_name@,
            diary_tier: self.diary_tier,
        }
    }
}

impl DeepView for DiaryCompletedBroadcast {
    type V = DiaryCompletedBroadcastView;

    open spec fn deep_view(&self) -> DiaryCompletedBroadcastView {
        self@
    }
}

/// The groups that a diary broadcast must have captured: player, tier and diary.
pub open spec fn diary_groups_ok(g: Seq<Option<Seq<char>>>) -> bool {
    group(g, 1) is Some && group(g, 2) is Some && group(g, 3) is Some
}

/// The completed diary the groups describe.
pub open spec fn diary_of(g: Seq<Option<Seq<char>>>) -> DiaryCompletedBroadcastView {
    DiaryCompletedBroadcastView {
        player_it_happened_to: group(g, 1)->0,
        diary_name: group(g, 3)->0,
        diary_tier: diary_tier_of(group(g, 2)->0),
    }
}

/// What `diary_completed_broadcast_extractor` finds in a message.
pub open spec fn diary_extracted(message: Seq<char>) -> Option<DiaryCompletedBroadcastView> {
    match regex_captures(DIARY_COMPLETED_BROADCAST_PATTERN@, message) {
        Some(g) => if diary_groups_ok(g) {
            Some(diary_of(g))
        } else {
            None
        },
        None => None,
    }
}

/// The completed diary that the capture groups of a diary broadcast describe.
pub fn diary_from_groups(groups: Vec<Option<String>>) -> (r: DiaryCompletedBroadcast)
    requires
        diary_groups_ok(groups.deep_view()),
    ensures
        r@ == diary_of(groups.deep_view()),
{
    let player = text_of(&groups, 1);
    let tier = text_of(&groups, 2);
    let diary = text_of(&groups, 3);
    DiaryCompletedBroadcast {
        player_it_happened_to: player,
        diary_name: diary,
        diary_tier: DiaryTier::from_string(tier),
    }
}

pub fn diary_completed_broadcast_extractor(message: String) -> (r: Option<DiaryCompletedBroadcast>)
    ensures
        r.deep_view() == diary_extracted(message@),
{
    match captures(DIARY_COMPLETED_BROADCAST_PATTERN, message.as_str()) {
        Some(groups) => if has_group(&groups, 1) && has_group(&groups, 2) && has_group(&groups, 3) {
            Some(diary_from_groups(groups))
        } else {
            None
        },
        None => None,
    }
}


/// A player killing or being killed.
pub struct PkBroadcast {
    pub winner: String,
    pub loser: String,
    /// The clan mate it happened to: the winner or the loser.
    pub clan_mate: String,
    /// The gold won or lost, when the broadcast gives it.
    pub gp_exchanged: Option<i64>,
    /// Whether the clan mate won.
    pub clan_mate_won: bool,
}

pub struct PkBroadcastView {
    pub winner: Seq<char>,
    pub loser: Seq<char>,
    pub clan_mate: Seq<char>,
    pub gp_exchanged: Option<i64>,
    pub clan_mate_won: bool,
}

impl View for PkBroadcast {
    type V = PkBroadcastView;

    open spec fn view(&self) -> PkBroadcastView {
        PkBroadcastView {
            winner: self.winner@,
            loser: self.loser@,
            clan_mate: self.clan_mate@,
            gp_exchanged: self.gp_exchanged,
            clan_mate_won: self.clan_mate_won,
        }
    }
}

impl DeepView for PkBroadcast {
    type V = PkBroadcastView;

    open spec fn deep_view(&self) -> PkBroadcastView {
        self@
    }
}

/// A broadcast of a clan mate who lost: it says "defeated by".
pub open spec fn pk_was_lost(message: Seq<char>) -> bool {
    contains(message, "defeated by"@)
}

/// The groups that a pk broadcast must have captured: the two names.
pub open spec fn pk_groups_ok(g: Seq<Option<Seq<char>>>) -> bool {
    group(g, 1) is Some && group(g, 2) is Some
}

/// The pk the groups describe. In a loss the loser comes first and the gold is group 4, in
/// a win the winner comes first and the gold is group 3; gold that is missing or reads as 0
/// is not given.
pub open spec fn pk_of(g: Seq<Option<Seq<char>>>, lost: bool) -> PkBroadcastView {
    let winner = if lost { group(g, 2)->0 } else { group(g, 1)->0 };
    let loser = if lost { group(g, 1)->0 } else { group(g, 2)->0 };
    let gp = number_or_zero(text_or_empty(group(g, if lost { 4 } else { 3 })));
    PkBroadcastView {
        winner: winner,
        loser: loser,
        clan_mate: if lost { loser } else { winner },
        gp_exchanged: if gp == 0 { None } else { Some(gp) },
        clan_mate_won: !lost,
    }
}

/// What `pk_broadcast_extractor` finds in a message: a loss is read with the loser pattern,
/// anything else with the winner pattern.
pub open spec fn pk_extracted(message: Seq<char>) -> Option<PkBroadcastView> {
    let lost = pk_was_lost(message);
    let pattern = if lost { PK_BROADCAST_LOSER_PATTERN@ } else { PK_BROADCAST_WINNER_PATTERN@ };
    match regex_captures(pattern, message) {
        Some(g) => if pk_groups_ok(g) {
            Some(pk_of(g, lost))
        } else {
            None
        },
        None => None,
    }
}

/// The pk that the capture groups of a pk broadcast describe.
pub fn pk_from_groups(groups: Vec<Option<String>>, lost: bool) -> (r: PkBroadcast)
    requires
        pk_groups_ok(groups.deep_view()),
    ensures
        r@ == pk_of(groups.deep_view(), lost),
{
    let first = text_of(&groups, 1);
    let second = text_of(&groups, 2);
    let gp_text = text_or_empty_of(&groups, if lost { 4 } else { 3 });
    let gp = number_or_zero_exec(gp_text.as_str());
    let gp_exchanged = if gp == 0 { None } else { Some(gp) };
    if lost {
        PkBroadcast {
            winner: second,
            loser: first.clone(),
            clan_mate: first,
            gp_exchanged,
            clan_mate_won: false,
        }
    } else {
        PkBroadcast {
            winner: first.clone(),
            loser: second,
            clan_mate: first,
            gp_exchanged,
            clan_mate_won: true,
        }
    }
}

pub fn pk_broadcast_extractor(message: String) -> (r: Option<PkBroadcast>)
    ensures
        r.deep_view() == pk_extracted(message@),
{
    let lost = str_contains(message.as_str(), "defeated by");
    let pattern = if lost { PK_BROADCAST_LOSER_PATTERN } else { PK_BROADCAST_WINNER_PATTERN };
    match captures(pattern, message.as_str()) {
        Some(groups) => if has_group(&groups, 1) && has_group(&groups, 2) {
            Some(pk_from_groups(groups, lost))
        } else {
            None
        },
        None => None,
    }
}

/// An invitation into the clan.
pub struct InviteBroadcast {
    /// The clan mate who sent the invitation.
    pub clan_mate: String,
    /// The account invited.
    pub new_clan_mate: String,
}

pub struct InviteBroadcastView {
    pub clan_mate: Seq<char>,
    pub new_clan_mate: Seq<char>,
}

impl View for InviteBroadcast {
    type V = InviteBroadcastView;

    open spec fn view(&self) -> InviteBroadcastView {
        InviteBroadcastView { clan_mate: self.clan_mate@, new_clan_mate: self.new_clan_mate@ }
    }
}

impl DeepView for InviteBroadcast {
    type V = InviteBroadcastView;

    open spec fn deep_view(&self) -> InviteBroadcastView {
        self@
    }
}

/// The groups that an invite broadcast must have captured: the account invited and the
/// inviter.
pub open spec fn invite_groups_ok(g: Seq<Option<Seq<char>>>) -> bool {
    group(g, 1) is Some && group(g, 2) is Some
}

/// The invitation the groups describe: the inviter is group 2, the new clan mate group 1.
pub open spec fn invite_of(g: Seq<Option<Seq<char>>>) -> InviteBroadcastView {
    InviteBroadcastView { clan_mate: group(g, 2)->0, new_clan_mate: group(g, 1)->0 }
}

/// What `invite_broadcast_extractor` finds in a message.
pub open spec fn invite_extracted(message: Seq<char>) -> Option<InviteBroadcastView> {
    match regex_captures(INVITE_BROADCAST_PATTERN@, message) {
        Some(g) => if invite_groups_ok(g) {
            Some(invite_of(g))
        } else {
            None
        },
        None => None,
    }
}

/// The invitation that the capture groups of an invite broadcast describe.
pub fn invite_from_groups(groups: Vec<Option<String>>) -> (r: InviteBroadcast)
    requires
        invite_groups_ok(groups.deep_view()),
    ensures
        r@ == invite_of(groups.deep_view()),
{
    InviteBroadcast { clan_mate: text_of(&groups, 2), new_clan_mate: text_of(&groups, 1) }
}

pub fn invite_broadcast_extractor(message: String) -> (r: Option<InviteBroadcast>)
    ensures
        r.deep_view() == invite_extracted(message@),
{
    match captures(INVITE_BROADCAST_PATTERN, message.as_str()) {
        Some(groups) => if has_group(&groups, 1) && has_group(&groups, 2) {
            Some(invite_from_groups(groups))
        } else {
            None
        },
        None => None,
    }
}

/// A level reached.
pub struct LevelMilestoneBroadcast {
    /// The clan mate who levelled up.
    pub clan_mate: String,
    /// The skill levelled.
    pub skill_levelled: String,
    /// The level reached.
    pub new_skill_level: String,
    pub skill_icon: Option<String>,
}

pub struct LevelMilestoneBroadcastView {
    pub clan_mate: Seq<char>,
    pub skill_levelled: Seq<char>,
    pub new_skill_level: Seq<char>,
    pub skill_icon: Option<Seq<char>>,
}

impl View for LevelMilestoneBroadcast {
    type V = LevelMilestoneBroadcastView;

    open spec fn view(&self) -> LevelMilestoneBroadcastView {
        LevelMilestoneBroadcastView {
            clan_mate: self.clan_mate@,
            skill_levelled: self.skill_levelled@,
            new_skill_level: self.new_skill_level@,
            skill_icon: self.skill_icon.deep_view(),
        }
    }
}

impl DeepView for LevelMilestoneBroadcast {
    type V = LevelMilestoneBroadcastView;

    open spec fn deep_view(&self) -> LevelMilestoneBroadcastView {
        self@
    }
}

/// The groups that a milestone broadcast must have captured: groups 1 to 3.
pub open spec fn milestone_groups_ok(g: Seq<Option<Seq<char>>>) -> bool {
    group(g, 1) is Some && group(g, 2) is Some && group(g, 3) is Some
}

/// The level milestone the groups describe: clan mate, skill and level are groups 1 to 3, and
/// the icon is the skill's.
pub open spec fn levelmilestone_of(g: Seq<Option<Seq<char>>>) -> LevelMilestoneBroadcastView {
    LevelMilestoneBroadcastView {
        clan_mate: group(g, 1)->0,
        skill_levelled: group(g, 2)->0,
        new_skill_level: group(g, 3)->0,
        skill_icon: Some(skill_icon_url(group(g, 2)->0)),
    }
}

/// What `levelmilestone_broadcast_extractor` finds in a message.
pub open spec fn levelmilestone_extracted(message: Seq<char>) -> Option<LevelMilestoneBroadcastView> {
    match regex_captures(LEVELMILESTONE_BROADCAST_PATTERN@, message) {
        Some(g) => if milestone_groups_ok(g) {
            Some(levelmilestone_of(g))
        } else {
            None
        },
        None => None,
    }
}

/// The level milestone that the capture groups of a level milestone broadcast describe.
pub fn levelmilestone_from_groups(groups: Vec<Option<String>>) -> (r: LevelMilestoneBroadcast)
    requires
        milestone_groups_ok(groups.deep_view()),
    ensures
        r@ == levelmilestone_of(groups.deep_view()),
{
    let skill = text_of(&groups, 2);
    let icon = get_skill_icon(skill.clone());
    LevelMilestoneBroadcast {
        clan_mate: text_of(&groups, 1),
        skill_levelled: skill,
        new_skill_level: text_of(&groups, 3),
        skill_icon: Some(icon),
    }
}

pub fn levelmilestone_broadcast_extractor(message: String) -> (r: Option<LevelMilestoneBroadcast>)
    ensures
        r.deep_view() == levelmilestone_extracted(message@),
{
    match captures(LEVELMILESTONE_BROADCAST_PATTERN, message.as_str()) {
        Some(groups) => if has_group(&groups, 1) && has_group(&groups, 2) && has_group(&groups, 3) {
            Some(levelmilestone_from_groups(groups))
        } else {
            None
        },
        None => None,
    }
}

/// An experience milestone reached.
pub struct XPMilestoneBroadcast {
    pub clan_mate: String,
    pub skill: String,
    /// The experience reached, as written in the broadcast.
    pub new_skill_xp: String,
    pub skill_icon: Option<String>,
}

pub struct XPMilestoneBroadcastView {
    pub clan_mate: Seq<char>,
    pub skill: Seq<char>,
    pub new_skill_xp: Seq<char>,
    pub skill_icon: Option<Seq<char>>,
}

impl View for XPMilestoneBroadcast {
    type V = XPMilestoneBroadcastView;

    open spec fn view(&self) -> XPMilestoneBroadcastView {
        XPMilestoneBroadcastView {
            clan_mate: self.clan_mate@,
            skill: self.skill@,
            new_skill_xp: self.new_skill_xp@,
            skill_icon: self.skill_icon.deep_view(),
        }
    }
}

impl DeepView for XPMilestoneBroadcast {
    type V = XPMilestoneBroadcastView;

    open spec fn deep_view(&self) -> XPMilestoneBroadcastView {
        self@
    }
}

/// The experience milestone the groups describe: clan member, experience and skill are
/// groups 1 to 3, and the icon is the skill's.
pub open spec fn xpmilestone_of(g: Seq<Option<Seq<char>>>) -> XPMilestoneBroadcastView {
    XPMilestoneBroadcastView {
        clan_mate: group(g, 1)->0,
        skill: group(g, 3)->0,
        new_skill_xp: group(g, 2)->0,
        skill_icon: Some(skill_icon_url(group(g, 3)->0)),
    }
}

/// What `xpmilestone_broadcast_extractor` finds in a message.
pub open spec fn xpmilestone_extracted(message: Seq<char>) -> Option<XPMilestoneBroadcastView> {
    match regex_captures(XPMILESTONE_BROADCAST_PATTERN@, message) {
        Some(g) => if milestone_groups_ok(g) {
            Some(xpmilestone_of(g))
        } else {
            None
        },
        None => None,
    }
}

/// The experience milestone that the capture groups of an experience milestone broadcast
/// describe.
pub fn xpmilestone_from_groups(groups: Vec<Option<String>>) -> (r: XPMilestoneBroadcast)
    requires
        milestone_groups_ok(groups.deep_view()),
    ensures
        r@ == xpmilestone_of(groups.deep_view()),
{
    let skill = text_of(&groups, 3);
    let icon = get_skill_icon(skill.clone());
    XPMilestoneBroadcast {
        clan_mate: text_of(&groups, 1),
        skill: skill,
        new_skill_xp: text_of(&groups, 2),
        skill_icon: Some(icon),
    }
}

pub fn xpmilestone_broadcast_extractor(message: String) -> (r: Option<XPMilestoneBroadcast>)
    ensures
        r.deep_view() == xpmilestone_extracted(message@),
{
    match captures(XPMILESTONE_BROADCAST_PATTERN, message.as_str()) {
        Some(groups) => if has_group(&groups, 1) && has_group(&groups, 2) && has_group(&groups, 3) {
            Some(xpmilestone_from_groups(groups))
        } else {
            None
        },
        None => None,
    }
}

/// A loot key opened.
pub struct LootKey {
    pub player: String,
    pub value: i64,
}

/// A new collection log slot.
pub struct CollectionLogBroadcast {
    pub player_it_happened_to: String,
    pub item_name: String,
    /// The number of log slots filled, counting this one.
    pub log_slots: i64,
    pub item_icon: Option<String>,
}

pub struct CollectionLogBroadcastView {
    pub player_it_happened_to: Seq<char>,
    pub item_name: Seq<char>,
    pub log_slots: i64,
    pub item_icon: Option<Seq<char>>,
}

impl View for CollectionLogBroadcast {
    type V = CollectionLogBroadcastView;

    open spec fn view(&self) -> CollectionLogBroadcastView {
        CollectionLogBroadcastView {
            player_it_happened_to: self.player_it_happened_to@,
            item_name: self.item_name@,
            log_slots: self.log_slots,
            item_icon: self.item_icon.deep_view(),
        }
    }
}

impl DeepView for CollectionLogBroadcast {
    type V = CollectionLogBroadcastView;

    open spec fn deep_view(&self) -> CollectionLogBroadcastView {
        self@
    }
}

/// The groups that a collection log broadcast must have captured: name, item, and a slot
/// count that reads as a number.
pub open spec fn collection_log_groups_ok(g: Seq<Option<Seq<char>>>) -> bool {
    &&& group(g, 1) is Some
    &&& group(g, 2) is Some
    &&& group(g, 3) is Some
    &&& parse_i64(group(g, 3)->0) is Some
}

/// The collection log slot the groups describe.
pub open spec fn collection_log_of(g: Seq<Option<Seq<char>>>) -> CollectionLogBroadcastView {
    CollectionLogBroadcastView {
        player_it_happened_to: group(g, 1)->0,
        item_name: group(g, 2)->0,
        log_slots: parse_i64(group(g, 3)->0)->0,
        item_icon: Some(wiki_image_url(group(g, 2)->0)),
    }
}

/// What `collection_log_broadcast_extractor` finds in a message.
pub open spec fn collection_log_extracted(message: Seq<char>) -> Option<CollectionLogBroadcastView> {
    match regex_captures(COLLECTION_LOG_BROADCAST_PATTERN@, message) {
        Some(g) => if collection_log_groups_ok(g) {
            Some(collection_log_of(g))
        } else {
            None
        },
        None => None,
    }
}

/// The collection log slot that the capture groups of a collection log broadcast describe.
pub fn collection_log_from_groups(groups: Vec<Option<String>>) -> (r: CollectionLogBroadcast)
    requires
        collection_log_groups_ok(groups.deep_view()),
    ensures
        r@ == collection_log_of(groups.deep_view()),
{
    let name = text_of(&groups, 1);
    let item = text_of(&groups, 2);
    let number = text_of(&groups, 3);
    let number_chars = chars_of(number.as_str());
    let slots = parse_i64_exec(&number_chars).unwrap();
    let icon = get_wiki_image_url(item.clone());
    CollectionLogBroadcast {
        player_it_happened_to: name,
        item_name: item,
        log_slots: slots,
        item_icon: Some(icon),
    }
}

/// Whether group `i` captured text that `str::parse::<i64>` reads, after removing commas
/// where `without_commas` is set.
fn group_reads_as_number(groups: &Vec<Option<String>>, i: usize, without_commas: bool) -> (r: bool)
    ensures
        r == (group(groups.deep_view(), i as int) is Some && parse_i64(
            if without_commas {
                remove_char(group(groups.deep_view(), i as int)->0, ',')
            } else {
                group(groups.deep_view(), i as int)->0
            },
        ) is Some),
{
    match group_of(groups, i) {
        Some(text) => {
            let chars = chars_of(text.as_str());
            let digits = if without_commas { remove_char_exec(&chars, ',') } else { chars };
            parse_i64_exec(&digits).is_some()
        },
        None => false,
    }
}

pub fn collection_log_broadcast_extractor(message: String) -> (r: Option<CollectionLogBroadcast>)
    ensures
        r.deep_view() == collection_log_extracted(message@),
{
    match captures(COLLECTION_LOG_BROADCAST_PATTERN, message.as_str()) {
        Some(groups) => if has_group(&groups, 1) && has_group(&groups, 2)
            && group_reads_as_number(&groups, 3, false) {
            Some(collection_log_from_groups(groups))
        } else {
            None
        },
        None => None,
    }
}

/// What `left_the_clan_broadcast_extractor` finds in a message: the player's name.
pub open spec fn left_the_clan_extracted(message: Seq<char>) -> Option<Seq<char>> {
    match regex_captures(LEFT_THE_CLAN_BROADCAST_PATTERN@, message) {
        Some(g) => group(g, 1),
        None => None,
    }
}

pub fn left_the_clan_broadcast_extractor(message: String) -> (r: Option<String>)
    ensures
        r.deep_view() == left_the_clan_extracted(message@),
{
    match captures(LEFT_THE_CLAN_BROADCAST_PATTERN, message.as_str()) {
        Some(groups) => group_of(&groups, 1),
        None => None,
    }
}

/// What `expelled_from_clan_broadcast_extractor` finds in a message: the expelled player.
pub open spec fn expelled_from_clan_extracted(message: Seq<char>) -> Option<Seq<char>> {
    match regex_captures(EXPELLED_FROM_CLAN_BROADCAST_PATTERN@, message) {
        Some(g) => group(g, 2),
        None => None,
    }
}

pub fn expelled_from_clan_broadcast_extractor(message: String) -> (r: Option<String>)
    ensures
        r.deep_view() == expelled_from_clan_extracted(message@),
{
    match captures(EXPELLED_FROM_CLAN_BROADCAST_PATTERN, message.as_str()) {
        Some(groups) => group_of(&groups, 2),
        None => None,
    }
}

/// Gold deposited into or withdrawn from the clan coffer.
pub struct CofferTransactionBroadcast {
    pub player: String,
    pub gp: i64,
    pub transaction_type: CofferTransaction,
}

pub struct CofferTransactionBroadcastView {
    pub player: Seq<char>,
    pub gp: i64,
    pub transaction_type: CofferTransaction,
}

impl View for CofferTransactionBroadcast {
    type V = CofferTransactionBroadcastView;

    open spec fn view(&self) -> CofferTransactionBroadcastView {
        CofferTransactionBroadcastView {
            player: self.player@,
            gp: self.gp,
            transaction_type: self.transaction_type,
        }
    }
}

impl DeepView for CofferTransactionBroadcast {
    type V = CofferTransactionBroadcastView;

    open spec fn deep_view(&self) -> CofferTransactionBroadcastView {
        self@
    }
}

/// The groups that a coffer broadcast must have captured: the player, and gold that reads as
/// a number once its commas are gone.
pub open spec fn coffer_groups_ok(g: Seq<Option<Seq<char>>>) -> bool {
    &&& group(g, 1) is Some
    &&& group(g, 3) is Some
    &&& parse_i64(remove_char(group(g, 3)->0, ',')) is Some
}

/// The coffer transaction the groups describe, labelled with `kind`: the player is group 1,
/// the gold group 3 read without its commas.
pub open spec fn coffer_of(g: Seq<Option<Seq<char>>>, kind: CofferTransaction) -> CofferTransactionBroadcastView {
    CofferTransactionBroadcastView {
        player: group(g, 1)->0,
        gp: parse_i64(remove_char(group(g, 3)->0, ','))->0,
        transaction_type: kind,
    }
}

/// What the coffer extractors find in a message, labelled with `kind`.
pub open spec fn coffer_extracted(message: Seq<char>, kind: CofferTransaction) -> Option<
    CofferTransactionBroadcastView,
> {
    match regex_captures(COFFER_BROADCAST_PATTERN@, message) {
        Some(g) => if coffer_groups_ok(g) {
            Some(coffer_of(g, kind))
        } else {
            None
        },
        None => None,
    }
}

/// The coffer transaction that the capture groups of a coffer broadcast describe, labelled
/// with `kind`.
pub fn coffer_from_groups(groups: Vec<Option<String>>, kind: CofferTransaction) -> (r: CofferTransactionBroadcast)
    requires
        coffer_groups_ok(groups.deep_view()),
    ensures
        r@ == coffer_of(groups.deep_view(), kind),
{
    let gp_text = text_of(&groups, 3);
    let gp_chars = chars_of(gp_text.as_str());
    let gp_digits = remove_char_exec(&gp_chars, ',');
    let gp = parse_i64_exec(&gp_digits).unwrap();
    CofferTransactionBroadcast { player: text_of(&groups, 1), gp, transaction_type: kind }
}

fn coffer_extractor(message: String, kind: CofferTransaction) -> (r: Option<CofferTransactionBroadcast>)
    ensures
        r.deep_view() == coffer_extracted(message@, kind),
{
    match captures(COFFER_BROADCAST_PATTERN, message.as_str()) {
        Some(groups) => if has_group(&groups, 1) && group_reads_as_number(&groups, 3, true) {
            Some(coffer_from_groups(groups, kind))
        } else {
            None
        },
        None => None,
    }
}

/// Reads a coffer broadcast as a donation (the pattern takes deposits and withdrawals alike).
pub fn coffer_donation_broadcast_extractor(message: String) -> (r: Option<CofferTransactionBroadcast>)
    ensures
        r.deep_view() == coffer_extracted(message@, CofferTransaction::Donation),
{
    coffer_extractor(message, CofferTransaction::Donation)
}

/// Reads a coffer broadcast as a withdrawal (the pattern takes deposits and withdrawals alike).
pub fn coffer_withdrawal_broadcast_extractor(message: String) -> (r: Option<CofferTransactionBroadcast>)
    ensures
        r.deep_view() == coffer_extracted(message@, CofferTransaction::Withdrawal),
{
    coffer_extractor(message, CofferTransaction::Withdrawal)
}


/// A new personal best time.
#[derive(Clone, Debug)]
pub struct PersonalBestBroadcast {
    pub player: String,
    pub activity: String,
    pub variant: Option<String>,
    /// The time as the broadcast writes it: `minutes:seconds` or `hours:minutes:seconds`,
    /// raid times possibly with hundredths after a `.`.
    pub time: String,
}

pub struct PersonalBestBroadcastView {
    pub player: Seq<char>,
    pub activity: Seq<char>,
    pub variant: Option<Seq<char>>,
    pub time: Seq<char>,
}

impl View for PersonalBestBroadcast {
    type V = PersonalBestBroadcastView;

    open spec fn view(&self) -> PersonalBestBroadcastView {
        PersonalBestBroadcastView {
            player: self.player@,
            activity: self.activity@,
            variant: self.variant.deep_view(),
            time: self.time@,
        }
    }
}

impl DeepView for PersonalBestBroadcast {
    type V = PersonalBestBroadcastView;

    open spec fn deep_view(&self) -> PersonalBestBroadcastView {
        self@
    }
}

/// A team size as the raid names write it: "Solo" for one, else "<size> players".
pub open spec fn team_size_in_players(team_size: Seq<char>) -> Seq<char> {
    if team_size == "1"@ {
        "Solo"@
    } else {
        team_size + " players"@
    }
}

/// The standard name of a raid variant, from the raid as the broadcast names it and the team
/// size; `None` for a raid it does not know.
pub open spec fn raid_variant_name(raid: Seq<char>, team_size: Seq<char>) -> Option<Seq<char>> {
    let players = team_size_in_players(team_size);
    if contains(raid, "Chambers of Xeric Challenge Mode"@) {
        Some("Chambers of Xeric Challenge Mode "@ + team_size)
    } else if contains(raid, "Chambers of Xeric"@) {
        Some("Chambers of Xeric "@ + team_size)
    } else if contains(raid, "Theatre of Blood"@) && contains(raid, "Hard mode"@) {
        Some("Theatre of Blood Hard Mode "@ + players)
    } else if contains(raid, "Theatre of Blood"@) && contains(raid, "Entry mode"@) {
        Some("Theatre of Blood Entry Mode"@)
    } else if contains(raid, "Theatre of Blood"@) {
        Some("Theatre of Blood "@ + players)
    } else if contains(raid, "Tombs of Amascut"@) && contains(raid, "Entry mode"@) {
        Some("Tombs of Amascut Entry Mode "@ + players)
    } else if contains(raid, "Tombs of Amascut"@) && contains(raid, "Expert mode"@) {
        Some("Tombs of Amascut Expert Mode "@ + players)
    } else if contains(raid, "Tombs of Amascut"@) {
        Some("Tombs of Amascut "@ + players)
    } else {
        None
    }
}

/// `text` followed by `suffix`.
fn joined(text: &str, suffix: &str) -> (r: String)
    ensures
        r@ == text@ + suffix@,
{
    let mut v = chars_of(text);
    push_str(&mut v, suffix);
    string_of(&v)
}

/// Names a raid's variant in the form that the RuneLite personal best lookup uses.
pub fn raid_name_standardize(raid_from_chat: String, team_size: &str) -> (r: Option<String>)
    ensures
        r.deep_view() == raid_variant_name(raid_from_chat@, team_size@),
{
    let raid = raid_from_chat.as_str();
    if str_contains(raid, "Chambers of Xeric Challenge Mode") {
        return Some(joined("Chambers of Xeric Challenge Mode ", team_size));
    }
    if str_contains(raid, "Chambers of Xeric") {
        return Some(joined("Chambers of Xeric ", team_size));
    }
    let players = if str_eq(team_size, "1") {
        owned("Solo")
    } else {
        joined(team_size, " players")
    };
    let players = players.as_str();
    if str_contains(raid, "Theatre of Blood") && str_contains(raid, "Hard mode") {
        return Some(joined("Theatre of Blood Hard Mode ", players));
    }
    if str_contains(raid, "Theatre of Blood") && str_contains(raid, "Entry mode") {
        return Some(owned("Theatre of Blood Entry Mode"));
    }
    if str_contains(raid, "Theatre of Blood") {
        return Some(joined("Theatre of Blood ", players));
    }
    if str_contains(raid, "Tombs of Amascut") && str_contains(raid, "Entry mode") {
        return Some(joined("Tombs of Amascut Entry Mode ", players));
    }
    if str_contains(raid, "Tombs of Amascut") && str_contains(raid, "Expert mode") {
        return Some(joined("Tombs of Amascut Expert Mode ", players));
    }
    if str_contains(raid, "Tombs of Amascut") {
        return Some(joined("Tombs of Amascut ", players));
    }
    None
}

/// The activity a raid personal best counts for: the raid, named by the word that tells it.
pub open spec fn raid_activity_name(raid: Seq<char>) -> Seq<char> {
    if contains(raid, "Xeric"@) {
        "Chambers of Xeric"@
    } else if contains(raid, "Blood"@) {
        "Theatre of Blood"@
    } else if contains(raid, "Tombs"@) {
        "Tombs of Amascut"@
    } else {
        raid
    }
}

/// The groups that a plain personal best broadcast must have captured: player, activity, time.
pub open spec fn personal_best_groups_ok(g: Seq<Option<Seq<char>>>) -> bool {
    group(g, 1) is Some && group(g, 2) is Some && group(g, 3) is Some
}

/// The groups that a raid personal best broadcast must have captured: player, raid, time.
pub open spec fn raid_personal_best_groups_ok(g: Seq<Option<Seq<char>>>) -> bool {
    group(g, 1) is Some && group(g, 2) is Some && group(g, 5) is Some
}

/// The raid personal best the groups describe: the raid with the (trimmed) variant text after
/// it names the variant.
pub open spec fn raid_personal_best_of(g: Seq<Option<Seq<char>>>) -> PersonalBestBroadcastView {
    let raid = group(g, 2)->0;
    let variant = text_or_empty(group(g, 4));
    let full_raid = if variant.len() == 0 {
        raid
    } else {
        raid + " "@ + trim(variant)
    };
    PersonalBestBroadcastView {
        player: group(g, 1)->0,
        activity: raid_activity_name(raid),
        variant: raid_variant_name(full_raid, text_or_empty(group(g, 3))),
        time: group(g, 5)->0,
    }
}

/// The plain personal best the groups describe: player, activity and time are groups 1 to 3,
/// with no variant.
pub open spec fn personal_best_of(g: Seq<Option<Seq<char>>>) -> PersonalBestBroadcastView {
    PersonalBestBroadcastView {
        player: group(g, 1)->0,
        activity: group(g, 2)->0,
        variant: None,
        time: group(g, 3)->0,
    }
}

/// What `personal_best_broadcast_extractor` finds in a message: a plain personal best where
/// that pattern matches, else a raid personal best.
pub open spec fn personal_best_extracted(message: Seq<char>) -> Option<PersonalBestBroadcastView> {
    match regex_captures(PERSONAL_BEST_BROADCAST_PATTERN@, message) {
        Some(g) => if personal_best_groups_ok(g) {
            Some(personal_best_of(g))
        } else {
            None
        },
        None => match regex_captures(PERSONAL_BEST_BROADCAST_RAID_PATTERN@, message) {
            Some(g) => if raid_personal_best_groups_ok(g) {
                Some(raid_personal_best_of(g))
            } else {
                None
            },
            None => None,
        },
    }
}

fn raid_activity(raid: &str) -> (r: String)
    ensures
        r@ == raid_activity_name(raid@),
{
    if str_contains(raid, "Xeric") {
        owned("Chambers of Xeric")
    } else if str_contains(raid, "Blood") {
        owned("Theatre of Blood")
    } else if str_contains(raid, "Tombs") {
        owned("Tombs of Amascut")
    } else {
        owned(raid)
    }
}

/// The plain personal best that the capture groups of a personal best broadcast describe.
pub fn personal_best_from_groups(groups: Vec<Option<String>>) -> (r: PersonalBestBroadcast)
    requires
        personal_best_groups_ok(groups.deep_view()),
    ensures
        r@ == personal_best_of(groups.deep_view()),
{
    PersonalBestBroadcast {
        player: text_of(&groups, 1),
        activity: text_of(&groups, 2),
        variant: None,
        time: text_of(&groups, 3),
    }
}

/// The raid personal best that the capture groups of a raid personal best broadcast describe.
pub fn raid_personal_best_from_groups(groups: Vec<Option<String>>) -> (r: PersonalBestBroadcast)
    requires
        raid_personal_best_groups_ok(groups.deep_view()),
    ensures
        r@ == raid_personal_best_of(groups.deep_view()),
{
    let player = text_of(&groups, 1);
    let raid = text_of(&groups, 2);
    let time = text_of(&groups, 5);
    let team_size = text_or_empty_of(&groups, 3);
    let variant = text_or_empty_of(&groups, 4);
    let variant_chars = chars_of(variant.as_str());
    let full_raid = if variant_chars.len() == 0 {
        raid.clone()
    } else {
        let mut full = chars_of(raid.as_str());
        push_str(&mut full, " ");
        let trimmed = trim_exec(&variant_chars);
        push_chars(&mut full, &trimmed);
        string_of(&full)
    };
    PersonalBestBroadcast {
        player,
        activity: raid_activity(raid.as_str()),
        variant: raid_name_standardize(full_raid, team_size.as_str()),
        time,
    }
}

pub fn personal_best_broadcast_extractor(message: String) -> (r: Option<PersonalBestBroadcast>)
    ensures
        r.deep_view() == personal_best_extracted(message@),
{
    match captures(PERSONAL_BEST_BROADCAST_PATTERN, message.as_str()) {
        Some(groups) => {
            if has_group(&groups, 1) && has_group(&groups, 2) && has_group(&groups, 3) {
                Some(personal_best_from_groups(groups))
            } else {
                None
            }
        },
        None => match captures(PERSONAL_BEST_BROADCAST_RAID_PATTERN, message.as_str()) {
            Some(groups) => if has_group(&groups, 1) && has_group(&groups, 2) && has_group(
                &groups,
                5,
            ) {
                Some(raid_personal_best_from_groups(groups))
            } else {
                None
            },
            None => None,
        },
    }
}

/// The leagues broadcast a message is, when it is one of those told apart.
pub open spec fn leagues_broadcast_type_of(message: Seq<char>) -> Option<LeaguesBroadCastType> {
    if contains(message, "has earned"@) && contains(message, "Combat mastery"@) {
        Some(LeaguesBroadCastType::CombatMasteries)
    } else if contains(message, "has unlocked"@) && contains(message, "League area"@) {
        Some(LeaguesBroadCastType::AreaUnlock)
    } else if contains(message, "has unlocked"@) && contains(message, "League relic!"@) {
        Some(LeaguesBroadCastType::RelicTier)
    } else {
        None
    }
}

pub fn leagues_catch_all_broadcast_extractor(message: String) -> (r: Option<LeaguesBroadCastType>)
    ensures
        r == leagues_broadcast_type_of(message@),
{
    let m = message.as_str();
    if str_contains(m, "has earned") && str_contains(m, "Combat mastery") {
        return Some(LeaguesBroadCastType::CombatMasteries);
    }
    if str_contains(m, "has unlocked") && str_contains(m, "League area") {
        return Some(LeaguesBroadCastType::AreaUnlock);
    }
    if str_contains(m, "has unlocked") && str_contains(m, "League relic!") {
        return Some(LeaguesBroadCastType::RelicTier);
    }
    None
}

/// The kind of broadcast a message is, judged by the phrases it holds, tested in this order.
pub open spec fn broadcast_type_of_message(m: Seq<char>) -> BroadcastType {
    if contains(m, "received a drop:"@) {
        BroadcastType::ItemDrop
    } else if contains(m, "received special loot from a raid:"@) {
        BroadcastType::RaidDrop
    } else if (contains(m, "has a funny feeling"@) && contains(m, "followed:"@)) || (contains(
        m,
        "feels something weird sneaking into"@,
    ) && contains(m, "backpack:"@)) {
        BroadcastType::PetDrop
    } else if contains(m, "has completed a quest:"@) {
        BroadcastType::Quest
    } else if contains(m, "has completed the"@) && contains(m, "diary"@) {
        BroadcastType::Diary
    } else if contains(m, "has defeated"@) || contains(m, "defeated by"@) {
        BroadcastType::Pk
    } else if contains(m, "has been invited"@) {
        BroadcastType::Invite
    } else if contains(m, "has reached"@) && contains(m, "level"@) {
        BroadcastType::LevelMilestone
    } else if contains(m, "has reached"@) && contains(m, "XP in"@) {
        BroadcastType::XPMilestone
    } else if contains(m, "received a new collection log item:"@) {
        BroadcastType::CollectionLog
    } else if contains(m, "has left the clan."@) {
        BroadcastType::LeftTheClan
    } else if contains(m, "has expelled"@) && contains(m, "from the clan."@) {
        BroadcastType::ExpelledFromClan
    } else if contains(m, "deposited"@) && contains(m, "the coffer."@) {
        BroadcastType::CofferDonation
    } else if contains(m, "withdrawn"@) && contains(m, "from the coffer."@) {
        BroadcastType::CofferWithdrawal
    } else if contains(m, "has achieved a new"@) && contains(m, "personal best:"@) {
        BroadcastType::PersonalBest
    } else {
        BroadcastType::Unknown
    }
}

pub fn get_broadcast_type(message_content: String) -> (r: BroadcastType)
    ensures
        r == broadcast_type_of_message(message_content@),
{
    let m = message_content.as_str();
    if str_contains(m, "received a drop:") {
        return BroadcastType::ItemDrop;
    }
    if str_contains(m, "received special loot from a raid:") {
        return BroadcastType::RaidDrop;
    }
    if str_contains(m, "has a funny feeling") && str_contains(m, "followed:") || str_contains(
        m,
        "feels something weird sneaking into",
    ) && str_contains(m, "backpack:") {
        return BroadcastType::PetDrop;
    }
    if str_contains(m, "has completed a quest:") {
        return BroadcastType::Quest;
    }
    if str_contains(m, "has completed the") && str_contains(m, "diary") {
        return BroadcastType::Diary;
    }
    if str_contains(m, "has defeated") || str_contains(m, "defeated by") {
        return BroadcastType::Pk;
    }
    if str_contains(m, "has been invited") {
        return BroadcastType::Invite;
    }
    if str_contains(m, "has reached") && str_contains(m, "level") {
        return BroadcastType::LevelMilestone;
    }
    if str_contains(m, "has reached") && str_contains(m, "XP in") {
        return BroadcastType::XPMilestone;
    }
    if str_contains(m, "received a new collection log item:") {
        return BroadcastType::CollectionLog;
    }
    if str_contains(m, "has left the clan.") {
        return BroadcastType::LeftTheClan;
    }
    if str_contains(m, "has expelled") && str_contains(m, "from the clan.") {
        return BroadcastType::ExpelledFromClan;
    }
    if str_contains(m, "deposited") && str_contains(m, "the coffer.") {
        return BroadcastType::CofferDonation;
    }
    if str_contains(m, "withdrawn") && str_contains(m, "from the coffer.") {
        return BroadcastType::CofferWithdrawal;
    }
    if str_contains(m, "has achieved a new") && str_contains(m, "personal best:") {
        return BroadcastType::PersonalBest;
    }
    BroadcastType::Unknown
}


/// A message is classified only by what it says: each broadcast type is given only to a
/// message holding that type's phrases, a deposit into the coffer is never a withdrawal and a
/// withdrawal never a deposit, and a message reporting a drop is always a drop.
pub proof fn lemma_broadcast_type_follows_phrases(m: Seq<char>)
    ensures
        broadcast_type_of_message(m) == BroadcastType::ItemDrop ==> contains(m, "received a drop:"@),
        broadcast_type_of_message(m) == BroadcastType::RaidDrop ==> contains(
            m,
            "received special loot from a raid:"@,
        ),
        broadcast_type_of_message(m) == BroadcastType::PetDrop ==> (contains(m, "has a funny feeling"@)
            && contains(m, "followed:"@)) || (contains(m, "feels something weird sneaking into"@)
            && contains(m, "backpack:"@)),
        broadcast_type_of_message(m) == BroadcastType::Quest ==> contains(m, "has completed a quest:"@),
        broadcast_type_of_message(m) == BroadcastType::Diary ==> contains(m, "has completed the"@)
            && contains(m, "diary"@),
        broadcast_type_of_message(m) == BroadcastType::Pk ==> contains(m, "has defeated"@) || contains(
            m,
            "defeated by"@,
        ),
        broadcast_type_of_message(m) == BroadcastType::Invite ==> contains(m, "has been invited"@),
        broadcast_type_of_message(m) == BroadcastType::LevelMilestone ==> contains(m, "has reached"@)
            && contains(m, "level"@),
        broadcast_type_of_message(m) == BroadcastType::XPMilestone ==> contains(m, "has reached"@)
            && contains(m, "XP in"@),
        broadcast_type_of_message(m) == BroadcastType::CollectionLog ==> contains(
            m,
            "received a new collection log item:"@,
        ),
        broadcast_type_of_message(m) == BroadcastType::LeftTheClan ==> contains(m, "has left the clan."@),
        broadcast_type_of_message(m) == BroadcastType::ExpelledFromClan ==> contains(m, "has expelled"@)
            && contains(m, "from the clan."@),
        broadcast_type_of_message(m) == BroadcastType::CofferDonation ==> contains(m, "deposited"@)
            && contains(m, "the coffer."@),
        broadcast_type_of_message(m) == BroadcastType::CofferWithdrawal ==> contains(m, "withdrawn"@)
            && contains(m, "from the coffer."@),
        broadcast_type_of_message(m) == BroadcastType::PersonalBest ==> contains(
            m,
            "has achieved a new"@,
        ) && contains(m, "personal best:"@),
        contains(m, "received a drop:"@) ==> broadcast_type_of_message(m) == BroadcastType::ItemDrop,
        broadcast_type_of_message(m) != BroadcastType::LootKey && broadcast_type_of_message(m)
            != BroadcastType::AreaUnlock && broadcast_type_of_message(m) != BroadcastType::LeaguesRank
            && broadcast_type_of_message(m) != BroadcastType::CombatMasteries
            && broadcast_type_of_message(m) != BroadcastType::RelicTier,
{
}

/// The picture an extractor attaches is the wiki's picture of what the broadcast is about: a
/// drop's or a collection log item's picture is that item's, a milestone's icon is that
/// skill's, and a quest's scroll is that quest's.
pub proof fn lemma_icons_follow_what_is_named(m: Seq<char>)
    ensures
        drop_extracted(m) matches Some(d) ==> d.item_icon == Some(wiki_image_url(d.item_name)),
        raid_drop_extracted(m) matches Some(d) ==> d.item_icon == Some(wiki_image_url(d.item_name)),
        collection_log_extracted(m) matches Some(c) ==> c.item_icon == Some(
            wiki_image_url(c.item_name),
        ),
        levelmilestone_extracted(m) matches Some(l) ==> l.skill_icon == Some(
            skill_icon_url(l.skill_levelled),
        ),
        xpmilestone_extracted(m) matches Some(x) ==> x.skill_icon == Some(skill_icon_url(x.skill)),
        quest_extracted(m) matches Some(q) ==> q.quest_reward_scroll_icon == Some(
            quest_reward_scroll_url(q.quest_name),
        ),
{
}

/// In an extracted pk the clan mate is the winner exactly when the broadcast reports a win
/// (it does not say "defeated by"), and the loser otherwise.
pub proof fn lemma_pk_sides(m: Seq<char>)
    ensures
        pk_extracted(m) matches Some(p) ==> {
            &&& p.clan_mate_won == !contains(m, "defeated by"@)
            &&& p.clan_mate_won ==> p.clan_mate == p.winner
            &&& !p.clan_mate_won ==> p.clan_mate == p.loser
        },
{
}

} // verus!
