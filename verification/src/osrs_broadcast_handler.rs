use crate::database::guilds_db::RegisteredGuildModel;
use crate::ge_api::ge_api::{GeItemPrice, GetItem};
use crate::osrs_broadcast_extractor::osrs_broadcast_extractor::{
    broadcast_type_name, broadcast_type_of_message, coffer_donation_broadcast_extractor,
    coffer_extracted, coffer_withdrawal_broadcast_extractor, collection_log_broadcast_extractor,
    collection_log_extracted, diary_completed_broadcast_extractor, diary_extracted,
    diary_tier_rank, drop_broadcast_extractor, drop_extracted,
    expelled_from_clan_broadcast_extractor, expelled_from_clan_extracted, get_broadcast_type,
    invite_broadcast_extractor, invite_extracted, left_the_clan_broadcast_extractor,
    left_the_clan_extracted, levelmilestone_broadcast_extractor, levelmilestone_extracted,
    lemma_broadcast_type_names_distinct, personal_best_broadcast_extractor,
    personal_best_extracted, pet_broadcast_extractor, pet_extracted, pk_broadcast_extractor,
    pk_extracted, quest_completed_broadcast_extractor, quest_difficulty_rank, quest_extracted,
    raid_broadcast_extractor, raid_drop_extracted, xpmilestone_broadcast_extractor,
    xpmilestone_extracted, BroadcastType, ClanMessage, CofferTransaction, DropItemBroadcast,
    DropItemBroadcastView, PersonalBestBroadcast, PersonalBestBroadcastView,
};
use crate::text::{
    contains, decimal, digit_char, lowercase, owned, push_signed_decimal, push_str,
    signed_decimal, str_contains, string_of, to_lowercase,
};
use crate::wiki_api::wiki_api::WikiQuest;
use crate::osrs_broadcast_extractor::osrs_broadcast_extractor::QuestDifficulty;
use num_format::ToFormattedString;
use vstd::prelude::*;

verus! {

/// A message to post on Discord about a broadcast.
#[derive(Clone, Debug)]
pub struct BroadcastMessageToDiscord {
    pub player_it_happened_to: String,
    pub type_of_broadcast: BroadcastType,
    pub message: String,
    pub icon_url: Option<String>,
    pub title: String,
    /// A quantity that goes with the message (gold, experience, kill count, ...).
    pub item_quantity: Option<i64>,
}

pub struct BroadcastMessageView {
    pub player_it_happened_to: Seq<char>,
    pub type_of_broadcast: BroadcastType,
    pub message: Seq<char>,
    pub icon_url: Option<Seq<char>>,
    pub title: Seq<char>,
    pub item_quantity: Option<i64>,
}

impl View for BroadcastMessageToDiscord {
    type V = BroadcastMessageView;

    open spec fn view(&self) -> BroadcastMessageView {
        BroadcastMessageView {
            player_it_happened_to: self.player_it_happened_to@,
            type_of_broadcast: self.type_of_broadcast,
            message: self.message@,
            icon_url: self.icon_url.deep_view(),
            title: self.title@,
            item_quantity: self.item_quantity,
        }
    }
}

impl DeepView for BroadcastMessageToDiscord {
    type V = BroadcastMessageView;

    open spec fn deep_view(&self) -> BroadcastMessageView {
        self@
    }
}

/// The three digits of `n` (below 1000), with leading zeros.
pub open spec fn three_digits(n: nat) -> Seq<char> {
    seq![digit_char((n / 100) as int), digit_char(((n / 10) % 10) as int), digit_char((n % 10) as int)]
}

/// `n` in decimal with a comma between each group of three digits.
pub open spec fn thousands(n: nat) -> Seq<char>
    decreases n,
{
    if n < 1000 {
        decimal(n)
    } else {
        thousands(n / 1000) + seq![','] + three_digits(n % 1000)
    }
}

/// `n` as English number formatting writes it: digits grouped by threes with commas, and a
/// `-` in front when negative.
pub open spec fn formatted_number(n: int) -> Seq<char> {
    if n < 0 {
        seq!['-'] + thousands((-n) as nat)
    } else {
        thousands(n as nat)
    }
}

/// Calls `num_format::ToFormattedString::to_formatted_string` with `Locale::en`. Claimed, as
/// the crate's source shows for that locale (separator ",", standard grouping, minus sign
/// "-"): the decimal digits of the magnitude grouped by threes from the right with commas,
/// after a `-` when the number is negative.
#[verifier::external_body]
fn formatted(n: i64) -> (r: String)
    ensures
        r@ == formatted_number(n as int),
{
    n.to_formatted_string(&num_format::Locale::en)
}

/// Work that handling a broadcast asks to be done outside: storing and queueing.
pub enum HandlerEffect {
    /// Store the drop in the clan's drop log.
    LogDrop { drop_item: DropItemBroadcast, guild_id: u64 },
    /// Queue the removal of a clan mate.
    RemoveClanMate { player_name: String, guild_id: u64 },
    /// Find or create the clan mate and store their collection log total.
    RecordCollectionLog { guild_id: u64, player_name: String, log_slots: i64 },
    /// Queue the recording of a personal best.
    RecordPersonalBest { personal_best: PersonalBestBroadcast, guild_id: u64 },
}

pub enum HandlerEffectView {
    LogDrop { drop_item: DropItemBroadcastView, guild_id: u64 },
    RemoveClanMate { player_name: Seq<char>, guild_id: u64 },
    RecordCollectionLog { guild_id: u64, player_name: Seq<char>, log_slots: i64 },
    RecordPersonalBest { personal_best: PersonalBestBroadcastView, guild_id: u64 },
}

impl View for HandlerEffect {
    type V = HandlerEffectView;

    open spec fn view(&self) -> HandlerEffectView {
        match self {
            HandlerEffect::LogDrop { drop_item, guild_id } => HandlerEffectView::LogDrop {
                drop_item: drop_item@,
                guild_id: *guild_id,
            },
            HandlerEffect::RemoveClanMate { player_name, guild_id } => HandlerEffectView::RemoveClanMate {
                player_name: player_name@,
                guild_id: *guild_id,
            },
            HandlerEffect::RecordCollectionLog { guild_id, player_name, log_slots } =>
                HandlerEffectView::RecordCollectionLog {
                guild_id: *guild_id,
                player_name: player_name@,
                log_slots: *log_slots,
            },
            HandlerEffect::RecordPersonalBest { personal_best, guild_id } =>
                HandlerEffectView::RecordPersonalBest {
                personal_best: personal_best@,
                guild_id: *guild_id,
            },
        }
    }
}

impl DeepView for HandlerEffect {
    type V = HandlerEffectView;

    open spec fn deep_view(&self) -> HandlerEffectView {
        self@
    }
}

/// What handling a broadcast comes to: the work to do outside, in order, and the message to
/// post, if any.
pub struct HandlerOutcome {
    pub effects: Vec<HandlerEffect>,
    pub message: Option<BroadcastMessageToDiscord>,
}

pub struct HandlerOutcomeView {
    pub effects: Seq<HandlerEffectView>,
    pub message: Option<BroadcastMessageView>,
}

impl View for HandlerOutcome {
    type V = HandlerOutcomeView;

    open spec fn view(&self) -> HandlerOutcomeView {
        HandlerOutcomeView { effects: self.effects.deep_view(), message: self.message.deep_view() }
    }
}

/// Handles one clan chat message for one registered guild.
pub struct OSRSBroadcastHandler {
    pub clan_message: ClanMessage,
    pub item_mapping: Option<Vec<GetItem>>,
    pub quests: Option<Vec<WikiQuest>>,
    pub registered_guild: RegisteredGuildModel,
    pub leagues_message: bool,
}


/// Whether the guild has switched off announcements of type `t`.
pub open spec fn disallows(guild: RegisteredGuildModel, t: BroadcastType) -> bool {
    guild.disallowed_broadcast_types@.contains(t)
}

/// The title for a normal world or, on a leagues world, its leagues variant.
pub open spec fn titled(leagues: bool, leagues_title: Seq<char>, title: Seq<char>) -> Seq<char> {
    if leagues {
        leagues_title
    } else {
        title
    }
}

/// An announcement whose text is the clan chat message itself.
pub open spec fn announcement(
    h: OSRSBroadcastHandler,
    player: Seq<char>,
    t: BroadcastType,
    icon: Option<Seq<char>>,
    title: Seq<char>,
) -> BroadcastMessageView {
    BroadcastMessageView {
        player_it_happened_to: player,
        type_of_broadcast: t,
        message: h.clan_message.message@,
        icon_url: icon,
        title,
        item_quantity: None,
    }
}

/// The icon guessed for a personal best: the raid logo when the lowercased activity names
/// one of the three raids, else the wiki image named after the activity.
pub open spec fn pb_icon_url(activity: Seq<char>) -> Seq<char> {
    let l = lowercase(activity);
    if contains(l, "theatre of blood"@) {
        "https://oldschool.runescape.wiki/images/Theatre_of_Blood_logo.png"@
    } else if contains(l, "chambers of xeric"@) {
        "https://oldschool.runescape.wiki/images/Chambers_of_Xeric_logo.png"@
    } else if contains(l, "tombs of amascut"@) {
        "https://oldschool.runescape.wiki/images/Tombs_of_Amascut.png"@
    } else {
        "https://oldschool.runescape.wiki/images/"@ + activity + ".png"@
    }
}

fn copy_text(s: &Option<String>) -> (r: Option<String>)
    ensures
        r.deep_view() == s.deep_view(),
{
    match s {
        Some(t) => Some(t.clone()),
        None => None,
    }
}

impl OSRSBroadcastHandler {
    /// A handler for one message. An item mapping or quest list that could not be had is
    /// kept as `None`.
    pub fn new(
        clan_message: ClanMessage,
        item_mapping_from_state: Result<Vec<GetItem>, ()>,
        quests_from_state: Result<Vec<WikiQuest>, ()>,
        register_guild: RegisteredGuildModel,
        leagues_message: bool,
    ) -> (r: Self)
        ensures
            r.clan_message == clan_message,
            r.item_mapping == (match item_mapping_from_state {
                Ok(m) => Some(m),
                Err(_) => None::<Vec<GetItem>>,
            }),
            r.quests == (match quests_from_state {
                Ok(q) => Some(q),
                Err(_) => None::<Vec<WikiQuest>>,
            }),
            r.registered_guild == register_guild,
            r.leagues_message == leagues_message,
    {
        OSRSBroadcastHandler {
            clan_message,
            item_mapping: match item_mapping_from_state {
                Ok(item_mapping) => Some(item_mapping),
                Err(_) => None,
            },
            quests: match quests_from_state {
                Ok(quests) => Some(quests),
                Err(_) => None,
            },
            registered_guild: register_guild,
            leagues_message,
        }
    }

    /// Whether the guild has switched off announcements of this type; the types are compared
    /// by their display names.
    pub fn check_if_allowed_broad_cast(&self, broadcast_type: BroadcastType) -> (r: bool)
        ensures
            r == disallows(self.registered_guild, broadcast_type),
    {
        let name = broadcast_type.to_string();
        let types = &self.registered_guild.disallowed_broadcast_types;
        let mut i: usize = 0;
        while i < types.len()
            invariant
                i <= types.len(),
                types@ == self.registered_guild.disallowed_broadcast_types@,
                name@ == broadcast_type_name(broadcast_type),
                forall|k: int| 0 <= k < i ==> types@[k] != broadcast_type,
            decreases types.len() - i,
        {
            let other = types[i].to_string();
            if name == other {
                proof {
                    lemma_broadcast_type_names_distinct(broadcast_type, types@[i as int]);
                }
                assert(types@[i as int] == broadcast_type);
                assert(types@.contains(broadcast_type));
                return true;
            }
            i = i + 1;
        }
        false
    }

    fn title(&self, leagues_title: &str, title: &str) -> (r: String)
        ensures
            r@ == titled(self.leagues_message, leagues_title@, title@),
    {
        if self.leagues_message {
            owned(leagues_title)
        } else {
            owned(title)
        }
    }

    fn announce(
        &self,
        player: String,
        t: BroadcastType,
        icon: Option<String>,
        title: String,
    ) -> (r: BroadcastMessageToDiscord)
        ensures
            r@ == announcement(*self, player@, t, icon.deep_view(), title@),
    {
        BroadcastMessageToDiscord {
            player_it_happened_to: player,
            type_of_broadcast: t,
            message: self.clan_message.message.clone(),
            icon_url: icon,
            title,
            item_quantity: None,
        }
    }

    /// The icon for a personal best in `activity`.
    pub fn best_guest_pb_icon(&self, activity: String) -> (r: String)
        ensures
            r@ == pb_icon_url(activity@),
    {
        let lower = to_lowercase(activity.as_str());
        if str_contains(lower.as_str(), "theatre of blood") {
            owned("https://oldschool.runescape.wiki/images/Theatre_of_Blood_logo.png")
        } else if str_contains(lower.as_str(), "chambers of xeric") {
            owned("https://oldschool.runescape.wiki/images/Chambers_of_Xeric_logo.png")
        } else if str_contains(lower.as_str(), "tombs of amascut") {
            owned("https://oldschool.runescape.wiki/images/Tombs_of_Amascut.png")
        } else {
            let mut v: Vec<char> = Vec::new();
            push_str(&mut v, "https://oldschool.runescape.wiki/images/");
            push_str(&mut v, activity.as_str());
            push_str(&mut v, ".png");
            string_of(&v)
        }
    }
}


/// Nothing to do and nothing to post.
pub open spec fn quiet() -> HandlerOutcomeView {
    HandlerOutcomeView { effects: Seq::empty(), message: None }
}

/// Only a message (or none) to post.
pub open spec fn message_only(m: Option<BroadcastMessageView>) -> HandlerOutcomeView {
    HandlerOutcomeView { effects: Seq::empty(), message: m }
}

/// A threshold that the value falls short of; with no threshold or no value nothing falls
/// short.
pub open spec fn below_threshold(threshold: Option<i64>, value: Option<i64>) -> bool {
    match (threshold, value) {
        (Some(t), Some(v)) => t > v,
        _ => false,
    }
}

/// The drop log entry for a drop, made for normal worlds only.
pub open spec fn drop_log_effects(h: OSRSBroadcastHandler, d: DropItemBroadcastView) -> Seq<
    HandlerEffectView,
> {
    if h.leagues_message {
        Seq::empty()
    } else {
        seq![HandlerEffectView::LogDrop { drop_item: d, guild_id: h.registered_guild.guild_id }]
    }
}

/// The text announcing a drop: the quantity goes in only when it is not one, the value in
/// coins whenever it is known.
pub open spec fn drop_text(d: DropItemBroadcastView) -> Seq<char> {
    let p = d.player_it_happened_to;
    let item = d.item_name;
    if d.item_quantity == 1 {
        match d.item_value {
            None => p + " received a drop: "@ + item + "."@,
            Some(v) => p + " received a drop: "@ + item + " ("@ + formatted_number(v as int)
                + " coins)."@,
        }
    } else {
        match d.item_value {
            None => p + " received a drop: "@ + item + " x "@ + signed_decimal(
                d.item_quantity as int,
            ),
            Some(v) => p + " received a drop: "@ + signed_decimal(d.item_quantity as int) + " x "@
                + item + " ("@ + formatted_number(v as int) + " coins)."@,
        }
    }
}

/// The announcement of a drop, unless drops are switched off or the drop is worth less than
/// the guild's threshold.
pub open spec fn drop_item_message(h: OSRSBroadcastHandler, d: DropItemBroadcastView) -> Option<
    BroadcastMessageView,
> {
    if disallows(h.registered_guild, BroadcastType::ItemDrop) || below_threshold(
        h.registered_guild.drop_price_threshold,
        d.item_value,
    ) {
        None
    } else {
        Some(
            BroadcastMessageView {
                player_it_happened_to: d.player_it_happened_to,
                type_of_broadcast: BroadcastType::ItemDrop,
                message: drop_text(d),
                icon_url: d.item_icon,
                title: titled(
                    h.leagues_message,
                    ":bar_chart: New Leagues High Value drop!"@,
                    ":tada: New High Value drop!"@,
                ),
                item_quantity: d.item_value,
            },
        )
    }
}

/// What handling a drop broadcast comes to.
pub open spec fn drop_item_outcome(h: OSRSBroadcastHandler) -> HandlerOutcomeView {
    match drop_extracted(h.clan_message.message@) {
        None => quiet(),
        Some(d) => HandlerOutcomeView {
            effects: drop_log_effects(h, d),
            message: drop_item_message(h, d),
        },
    }
}

/// The ids of the mapping's items named `name`, in the mapping's order.
pub open spec fn matching_ids(items: Seq<GetItem>, name: Seq<char>) -> Seq<i64>
    decreases items.len(),
{
    if items.len() == 0 {
        Seq::empty()
    } else {
        let rest = matching_ids(items.drop_last(), name);
        if items.last().name@ == name {
            rest.push(items.last().id)
        } else {
            rest
        }
    }
}

/// The answer to the `i`th price lookup; a missing answer is a failed lookup.
pub open spec fn price_answer(prices: Seq<Option<GeItemPrice>>, i: int) -> Option<GeItemPrice> {
    if 0 <= i < prices.len() {
        prices[i]
    } else {
        None
    }
}

/// The value after the first `n` price lookups: each answer with a positive high price
/// replaces it, the others leave it.
pub open spec fn priced_value(prices: Seq<Option<GeItemPrice>>, n: nat, start: Option<i64>) -> Option<i64>
    decreases n,
{
    if n == 0 {
        start
    } else {
        let before = priced_value(prices, (n - 1) as nat, start);
        match price_answer(prices, n - 1) {
            Some(p) => if p.high > 0 {
                Some(p.high)
            } else {
                before
            },
            None => before,
        }
    }
}

/// The price lookups that handling the message needs: for a raid drop, when the item mapping
/// is at hand, the id of each mapping item named as the drop, in the mapping's order.
pub open spec fn price_lookups_of(h: OSRSBroadcastHandler) -> Seq<i64> {
    let m = h.clan_message.message@;
    if broadcast_type_of_message(m) == BroadcastType::RaidDrop {
        match (raid_drop_extracted(m), h.item_mapping) {
            (Some(d), Some(mapping)) => matching_ids(mapping@, d.item_name),
            _ => Seq::empty(),
        }
    } else {
        Seq::empty()
    }
}

/// The raid drop with the value that the price lookups gave it.
pub open spec fn priced_raid_drop(
    h: OSRSBroadcastHandler,
    d: DropItemBroadcastView,
    prices: Seq<Option<GeItemPrice>>,
) -> DropItemBroadcastView {
    DropItemBroadcastView {
        player_it_happened_to: d.player_it_happened_to,
        item_name: d.item_name,
        item_quantity: d.item_quantity,
        item_value: match h.item_mapping {
            Some(mapping) => priced_value(
                prices,
                matching_ids(mapping@, d.item_name).len(),
                d.item_value,
            ),
            None => d.item_value,
        },
        item_icon: d.item_icon,
    }
}

/// The text announcing a raid drop, with its value in coins when known.
pub open spec fn raid_text(d: DropItemBroadcastView) -> Seq<char> {
    match d.item_value {
        None => d.player_it_happened_to + " received special loot from a raid: "@ + d.item_name
            + "."@,
        Some(v) => d.player_it_happened_to + " received special loot from a raid: "@
            + d.item_name + " ("@ + formatted_number(v as int) + " coins)."@,
    }
}

/// What handling a raid drop broadcast comes to, given the answers to its price lookups.
pub open spec fn raid_outcome(h: OSRSBroadcastHandler, prices: Seq<Option<GeItemPrice>>) -> HandlerOutcomeView {
    match raid_drop_extracted(h.clan_message.message@) {
        None => quiet(),
        Some(d0) => {
            let d = priced_raid_drop(h, d0, prices);
            HandlerOutcomeView {
                effects: drop_log_effects(h, d),
                message: if disallows(h.registered_guild, BroadcastType::RaidDrop) {
                    None
                } else {
                    Some(
                        BroadcastMessageView {
                            player_it_happened_to: d.player_it_happened_to,
                            type_of_broadcast: BroadcastType::RaidDrop,
                            message: raid_text(d),
                            icon_url: d.item_icon,
                            title: titled(
                                h.leagues_message,
                                ":bar_chart: New Leagues raid drop!"@,
                                ":tada: New raid drop!"@,
                            ),
                            item_quantity: None,
                        },
                    )
                },
            }
        },
    }
}

fn no_effects() -> (r: Vec<HandlerEffect>)
    ensures
        r.deep_view() == Seq::<HandlerEffectView>::empty(),
{
    let r: Vec<HandlerEffect> = Vec::new();
    assert(r.deep_view() =~= Seq::<HandlerEffectView>::empty());
    r
}

fn one_effect(e: HandlerEffect) -> (r: Vec<HandlerEffect>)
    ensures
        r.deep_view() == seq![e@],
{
    let ghost v = e@;
    let mut r: Vec<HandlerEffect> = Vec::new();
    r.push(e);
    assert(r.deep_view() =~= seq![v]);
    r
}

fn outcome(effects: Vec<HandlerEffect>, message: Option<BroadcastMessageToDiscord>) -> (r: HandlerOutcome)
    ensures
        r@.effects == effects.deep_view(),
        r@.message == message.deep_view(),
{
    HandlerOutcome { effects, message }
}

fn push_coins(v: &mut Vec<char>, value: i64)
    ensures
        final(v)@ == old(v)@ + " ("@ + formatted_number(value as int) + " coins)."@,
{
    push_str(v, " (");
    let f = formatted(value);
    push_str(v, f.as_str());
    push_str(v, " coins).");
}

fn drop_text_of(d: &DropItemBroadcast) -> (r: String)
    ensures
        r@ == drop_text(d@),
{
    let mut v: Vec<char> = Vec::new();
    push_str(&mut v, d.player_it_happened_to.as_str());
    push_str(&mut v, " received a drop: ");
    if d.item_quantity == 1 {
        push_str(&mut v, d.item_name.as_str());
        match d.item_value {
            None => push_str(&mut v, "."),
            Some(value) => push_coins(&mut v, value),
        }
    } else {
        match d.item_value {
            None => {
                push_str(&mut v, d.item_name.as_str());
                push_str(&mut v, " x ");
                push_signed_decimal(&mut v, d.item_quantity);
            },
            Some(value) => {
                push_signed_decimal(&mut v, d.item_quantity);
                push_str(&mut v, " x ");
                push_str(&mut v, d.item_name.as_str());
                push_coins(&mut v, value);
            },
        }
    }
    string_of(&v)
}

fn raid_text_of(d: &DropItemBroadcast) -> (r: String)
    ensures
        r@ == raid_text(d@),
{
    let mut v: Vec<char> = Vec::new();
    push_str(&mut v, d.player_it_happened_to.as_str());
    push_str(&mut v, " received special loot from a raid: ");
    push_str(&mut v, d.item_name.as_str());
    match d.item_value {
        None => push_str(&mut v, "."),
        Some(value) => push_coins(&mut v, value),
    }
    string_of(&v)
}

fn matching_item_ids(items: &Vec<GetItem>, name: &String) -> (r: Vec<i64>)
    ensures
        r@ == matching_ids(items@, name@),
{
    let mut ids: Vec<i64> = Vec::new();
    let mut i: usize = 0;
    while i < items.len()
        invariant
            i <= items.len(),
            ids@ == matching_ids(items@.take(i as int), name@),
        decreases items.len() - i,
    {
        assert(items@.take(i + 1).drop_last() =~= items@.take(i as int));
        if items[i].name == *name {
            ids.push(items[i].id);
        }
        i = i + 1;
    }
    assert(items@.take(i as int) =~= items@);
    ids
}

impl OSRSBroadcastHandler {
    /// The announcement of a drop broadcast, and the drop log entry it makes.
    pub fn drop_item_handler(&self) -> (r: HandlerOutcome)
        ensures
            r@ == drop_item_outcome(*self),
    {
        match drop_broadcast_extractor(self.clan_message.message.clone()) {
            None => outcome(no_effects(), None),
            Some(drop_item) => {
                let message = if self.check_if_allowed_broad_cast(BroadcastType::ItemDrop) {
                    None
                } else if match (self.registered_guild.drop_price_threshold, drop_item.item_value) {
                    (Some(t), Some(v)) => t > v,
                    _ => false,
                } {
                    None
                } else {
                    Some(
                        BroadcastMessageToDiscord {
                            player_it_happened_to: drop_item.player_it_happened_to.clone(),
                            type_of_broadcast: BroadcastType::ItemDrop,
                            message: drop_text_of(&drop_item),
                            icon_url: copy_text(&drop_item.item_icon),
                            title: self.title(
                                ":bar_chart: New Leagues High Value drop!",
                                ":tada: New High Value drop!",
                            ),
                            item_quantity: drop_item.item_value,
                        },
                    )
                };
                let effects = if self.leagues_message {
                    no_effects()
                } else {
                    one_effect(
                        HandlerEffect::LogDrop {
                            drop_item,
                            guild_id: self.registered_guild.guild_id,
                        },
                    )
                };
                outcome(effects, message)
            },
        }
    }

    /// The price lookups that handling the message needs, as item ids to ask the price
    /// service about, in order: only a raid drop, with the item mapping at hand, has any.
    pub fn price_lookups(&self) -> (r: Vec<i64>)
        ensures
            r@ == price_lookups_of(*self),
    {
        let broadcast_type = get_broadcast_type(self.clan_message.message.clone());
        if broadcast_type != BroadcastType::RaidDrop {
            return Vec::new();
        }
        match (raid_broadcast_extractor(self.clan_message.message.clone()), &self.item_mapping) {
            (Some(d), Some(mapping)) => matching_item_ids(mapping, &d.item_name),
            _ => Vec::new(),
        }
    }

    /// The announcement of a raid drop broadcast, and the drop log entry it makes; `prices`
    /// holds the answers to the price lookups, in order, `None` for a failed one.
    fn raid_drop_handler(&self, prices: &Vec<Option<GeItemPrice>>) -> (r: HandlerOutcome)
        ensures
            r@ == raid_outcome(*self, prices@),
    {
        match raid_broadcast_extractor(self.clan_message.message.clone()) {
            None => outcome(no_effects(), None),
            Some(mut drop_item) => {
                let ghost d0 = drop_item@;
                match &self.item_mapping {
                    Some(mapping) => {
                        let ids = matching_item_ids(mapping, &drop_item.item_name);
                        let mut i: usize = 0;
                        while i < ids.len()
                            invariant
                                i <= ids.len(),
                                drop_item.player_it_happened_to@ == d0.player_it_happened_to,
                                drop_item.item_name@ == d0.item_name,
                                drop_item.item_quantity == d0.item_quantity,
                                drop_item.item_icon.deep_view() == d0.item_icon,
                                drop_item.item_value == priced_value(prices@, i as nat, d0.item_value),
                            decreases ids.len() - i,
                        {
                            let answer = if i < prices.len() {
                                prices[i]
                            } else {
                                None
                            };
                            match answer {
                                Some(price) => {
                                    if price.high > 0 {
                                        drop_item.item_value = Some(price.high);
                                    }
                                },
                                None => {},
                            }
                            i = i + 1;
                        }
                    },
                    None => {},
                }
                assert(drop_item@ == priced_raid_drop(*self, d0, prices@));
                let message = if self.check_if_allowed_broad_cast(BroadcastType::RaidDrop) {
                    None
                } else {
                    Some(
                        BroadcastMessageToDiscord {
                            player_it_happened_to: drop_item.player_it_happened_to.clone(),
                            type_of_broadcast: BroadcastType::RaidDrop,
                            message: raid_text_of(&drop_item),
                            icon_url: copy_text(&drop_item.item_icon),
                            title: self.title(
                                ":bar_chart: New Leagues raid drop!",
                                ":tada: New raid drop!",
                            ),
                            item_quantity: None,
                        },
                    )
                };
                let effects = if self.leagues_message {
                    no_effects()
                } else {
                    one_effect(
                        HandlerEffect::LogDrop {
                            drop_item,
                            guild_id: self.registered_guild.guild_id,
                        },
                    )
                };
                outcome(effects, message)
            },
        }
    }
}


/// The clan's icon, shown for invitations and departures.
pub open spec fn clan_icon() -> Seq<char> {
    "https://oldschool.runescape.wiki/images/Your_Clan_icon.png"@
}

/// The clan coffer's icon.
pub open spec fn coffer_icon() -> Seq<char> {
    "https://oldschool.runescape.wiki/images/thumb/Clan_Coffer.png/943px-Clan_Coffer.png"@
}

/// The announcement of a pet drop. Pet drops go unannounced when the guild has switched off
/// quest announcements (pet drops themselves are not checked).
pub open spec fn pet_message(h: OSRSBroadcastHandler) -> Option<BroadcastMessageView> {
    match pet_extracted(h.clan_message.message@) {
        None => None,
        Some(pet) => if disallows(h.registered_guild, BroadcastType::Quest) {
            None
        } else {
            Some(
                announcement(
                    h,
                    pet.player_it_happened_to,
                    BroadcastType::PetDrop,
                    pet.pet_icon,
                    titled(h.leagues_message, ":bar_chart: New Leagues Pet drop!"@, ":tada: New Pet drop!"@),
                ),
            )
        },
    }
}

/// The announcement of a completed diary, unless diaries are switched off or its tier ranks
/// below the guild's minimum.
pub open spec fn diary_message(h: OSRSBroadcastHandler) -> Option<BroadcastMessageView> {
    match diary_extracted(h.clan_message.message@) {
        None => None,
        Some(d) => if disallows(h.registered_guild, BroadcastType::Diary) {
            None
        } else if (match h.registered_guild.min_diary_tier {
            Some(min) => diary_tier_rank(d.diary_tier) < diary_tier_rank(min),
            None => false,
        }) {
            None
        } else {
            Some(
                announcement(
                    h,
                    d.player_it_happened_to,
                    BroadcastType::Diary,
                    Some("https://oldschool.runescape.wiki/images/Achievement_Diaries.png"@),
                    titled(
                        h.leagues_message,
                        ":bar_chart: New Leagues diary completed!"@,
                        ":tada: New diary completed!"@,
                    ),
                ),
            )
        },
    }
}

/// The difficulty of the first quest of the list named `name`.
pub open spec fn first_quest_difficulty(quests: Seq<WikiQuest>, name: Seq<char>) -> Option<
    QuestDifficulty,
>
    decreases quests.len(),
{
    if quests.len() == 0 {
        None
    } else if quests[0].name@ == name {
        Some(quests[0].difficulty)
    } else {
        first_quest_difficulty(quests.drop_first(), name)
    }
}

/// With a minimum difficulty set and the quest list at hand: the quest is not on the list, or
/// ranks below the minimum.
pub open spec fn quest_too_easy(h: OSRSBroadcastHandler, quest_name: Seq<char>) -> bool {
    match (h.registered_guild.min_quest_difficulty, h.quests) {
        (Some(min), Some(quests)) => match first_quest_difficulty(quests@, quest_name) {
            None => true,
            Some(d) => quest_difficulty_rank(d) < quest_difficulty_rank(min),
        },
        _ => false,
    }
}

/// The announcement of a completed quest, unless quests are switched off or the quest is
/// too easy for the guild.
pub open spec fn quest_message(h: OSRSBroadcastHandler) -> Option<BroadcastMessageView> {
    match quest_extracted(h.clan_message.message@) {
        None => None,
        Some(q) => if disallows(h.registered_guild, BroadcastType::Quest) {
            None
        } else if quest_too_easy(h, q.quest_name) {
            None
        } else {
            Some(
                announcement(
                    h,
                    q.player_it_happened_to,
                    BroadcastType::Quest,
                    q.quest_reward_scroll_icon,
                    titled(
                        h.leagues_message,
                        ":bar_chart: New Leagues quest completed!"@,
                        ":tada: New quest completed!"@,
                    ),
                ),
            )
        },
    }
}

/// The announcement of a pk, made in the winner's name, unless the loot is worth less than
/// the guild's pk threshold. Pks are not checked against the switched-off types.
pub open spec fn pk_message(h: OSRSBroadcastHandler) -> Option<BroadcastMessageView> {
    match pk_extracted(h.clan_message.message@) {
        None => None,
        Some(pk) => if below_threshold(h.registered_guild.pk_value_threshold, pk.gp_exchanged) {
            None
        } else {
            Some(
                announcement(
                    h,
                    pk.winner,
                    BroadcastType::Pk,
                    Some("https://oldschool.runescape.wiki/images/Skull.png"@),
                    titled(h.leagues_message, ":bar_chart: New Leagues PK!"@, ":crossed_swords: New PK!"@),
                ),
            )
        },
    }
}

/// The announcement of an invitation, in the inviter's name.
pub open spec fn invite_message(h: OSRSBroadcastHandler) -> Option<BroadcastMessageView> {
    match invite_extracted(h.clan_message.message@) {
        None => None,
        Some(i) => if disallows(h.registered_guild, BroadcastType::Invite) {
            None
        } else {
            Some(
                announcement(
                    h,
                    i.clan_mate,
                    BroadcastType::Invite,
                    Some(clan_icon()),
                    ":wave: New Invite!"@,
                ),
            )
        },
    }
}

/// What handling a departure comes to (`expelled` tells an expulsion from leaving): the clan
/// mate's removal is queued either way, and the departure is announced, as one of type
/// `LeftTheClan`, unless that type is switched off.
pub open spec fn clan_exit_outcome(h: OSRSBroadcastHandler, expelled: bool) -> HandlerOutcomeView {
    let m = h.clan_message.message@;
    let found = if expelled {
        expelled_from_clan_extracted(m)
    } else {
        left_the_clan_extracted(m)
    };
    match found {
        None => quiet(),
        Some(player) => HandlerOutcomeView {
            effects: seq![
                HandlerEffectView::RemoveClanMate {
                    player_name: player,
                    guild_id: h.registered_guild.guild_id,
                },
            ],
            message: if disallows(h.registered_guild, BroadcastType::LeftTheClan) {
                None
            } else {
                Some(
                    announcement(
                        h,
                        player,
                        BroadcastType::LeftTheClan,
                        Some(clan_icon()),
                        if expelled {
                            ":boot: Someone has been expelled!"@
                        } else {
                            ":people_hugging: Someone has left the clan!"@
                        },
                    ),
                )
            },
        },
    }
}

/// The announcement of a level milestone.
pub open spec fn level_message(h: OSRSBroadcastHandler) -> Option<BroadcastMessageView> {
    match levelmilestone_extracted(h.clan_message.message@) {
        None => None,
        Some(l) => if disallows(h.registered_guild, BroadcastType::LevelMilestone) {
            None
        } else {
            Some(
                announcement(
                    h,
                    l.clan_mate,
                    BroadcastType::LevelMilestone,
                    l.skill_icon,
                    titled(
                        h.leagues_message,
                        ":bar_chart: New Leagues Level Milestone reached!"@,
                        ":tada: New Level Milestone reached!"@,
                    ),
                ),
            )
        },
    }
}

/// The announcement of an experience milestone.
pub open spec fn xp_message(h: OSRSBroadcastHandler) -> Option<BroadcastMessageView> {
    match xpmilestone_extracted(h.clan_message.message@) {
        None => None,
        Some(x) => if disallows(h.registered_guild, BroadcastType::XPMilestone) {
            None
        } else {
            Some(
                announcement(
                    h,
                    x.clan_mate,
                    BroadcastType::XPMilestone,
                    x.skill_icon,
                    titled(
                        h.leagues_message,
                        ":bar_chart: New Leagues XP Milestone reached!"@,
                        ":tada: New XP Milestone reached!"@,
                    ),
                ),
            )
        },
    }
}

/// What handling a collection log broadcast comes to: on a normal world the clan mate's log
/// total is recorded; the item is announced unless the type is switched off.
pub open spec fn collection_log_outcome(h: OSRSBroadcastHandler) -> HandlerOutcomeView {
    match collection_log_extracted(h.clan_message.message@) {
        None => quiet(),
        Some(c) => HandlerOutcomeView {
            effects: if h.leagues_message {
                Seq::empty()
            } else {
                seq![
                    HandlerEffectView::RecordCollectionLog {
                        guild_id: h.registered_guild.guild_id,
                        player_name: c.player_it_happened_to,
                        log_slots: c.log_slots,
                    },
                ]
            },
            message: if disallows(h.registered_guild, BroadcastType::CollectionLog) {
                None
            } else {
                Some(
                    announcement(
                        h,
                        c.player_it_happened_to,
                        BroadcastType::CollectionLog,
                        c.item_icon,
                        titled(
                            h.leagues_message,
                            ":bar_chart: New Leagues collection log item!"@,
                            ":tada: New collection log item!"@,
                        ),
                    ),
                )
            },
        },
    }
}

/// The announcement of a coffer donation or withdrawal.
pub open spec fn coffer_message(h: OSRSBroadcastHandler, kind: CofferTransaction) -> Option<
    BroadcastMessageView,
> {
    let t = if kind == CofferTransaction::Donation {
        BroadcastType::CofferDonation
    } else {
        BroadcastType::CofferWithdrawal
    };
    match coffer_extracted(h.clan_message.message@, kind) {
        None => None,
        Some(c) => if disallows(h.registered_guild, t) {
            None
        } else {
            Some(
                announcement(
                    h,
                    c.player,
                    t,
                    Some(coffer_icon()),
                    if kind == CofferTransaction::Donation {
                        ":coin: New Donation!"@
                    } else {
                        ":person_running: New Clan Coffer Withdrawal!"@
                    },
                ),
            )
        },
    }
}

/// What handling a personal best comes to: unless the type is switched off, the time is
/// queued for recording and announced.
pub open spec fn personal_best_outcome(h: OSRSBroadcastHandler) -> HandlerOutcomeView {
    match personal_best_extracted(h.clan_message.message@) {
        None => quiet(),
        Some(pb) => if disallows(h.registered_guild, BroadcastType::PersonalBest) {
            quiet()
        } else {
            HandlerOutcomeView {
                effects: seq![
                    HandlerEffectView::RecordPersonalBest {
                        personal_best: pb,
                        guild_id: h.registered_guild.guild_id,
                    },
                ],
                message: Some(
                    announcement(
                        h,
                        pb.player,
                        BroadcastType::PersonalBest,
                        Some(pb_icon_url(pb.activity)),
                        ":stopwatch: New Personal Best!"@,
                    ),
                ),
            }
        },
    }
}

/// What handling the message comes to, by the type of broadcast it is; `prices` holds the
/// answers to the price lookups that `price_lookups_of` lists.
pub open spec fn handled(h: OSRSBroadcastHandler, prices: Seq<Option<GeItemPrice>>) -> HandlerOutcomeView {
    match broadcast_type_of_message(h.clan_message.message@) {
        BroadcastType::RaidDrop => raid_outcome(h, prices),
        BroadcastType::ItemDrop => drop_item_outcome(h),
        BroadcastType::PetDrop => message_only(pet_message(h)),
        BroadcastType::Diary => message_only(diary_message(h)),
        BroadcastType::Quest => message_only(quest_message(h)),
        BroadcastType::Pk => message_only(pk_message(h)),
        BroadcastType::Invite => message_only(invite_message(h)),
        BroadcastType::ExpelledFromClan => clan_exit_outcome(h, true),
        BroadcastType::LeftTheClan => clan_exit_outcome(h, false),
        BroadcastType::LevelMilestone => message_only(level_message(h)),
        BroadcastType::XPMilestone => message_only(xp_message(h)),
        BroadcastType::CollectionLog => collection_log_outcome(h),
        BroadcastType::CofferDonation => message_only(coffer_message(h, CofferTransaction::Donation)),
        BroadcastType::CofferWithdrawal => message_only(
            coffer_message(h, CofferTransaction::Withdrawal),
        ),
        BroadcastType::PersonalBest => personal_best_outcome(h),
        _ => quiet(),
    }
}

fn first_quest_difficulty_of(quests: &Vec<WikiQuest>, name: &String) -> (r: Option<QuestDifficulty>)
    ensures
        r == first_quest_difficulty(quests@, name@),
{
    let mut i: usize = 0;
    assert(quests@.subrange(0, quests@.len() as int) =~= quests@);
    while i < quests.len()
        invariant
            i <= quests.len(),
            first_quest_difficulty(quests@, name@) == first_quest_difficulty(
                quests@.subrange(i as int, quests@.len() as int),
                name@,
            ),
        decreases quests.len() - i,
    {
        let ghost rest = quests@.subrange(i as int, quests@.len() as int);
        assert(rest[0] == quests@[i as int]);
        if quests[i].name == *name {
            return Some(quests[i].difficulty);
        }
        assert(rest.drop_first() =~= quests@.subrange(i + 1, quests@.len() as int));
        i = i + 1;
    }
    assert(quests@.subrange(i as int, quests@.len() as int).len() == 0);
    None
}

impl OSRSBroadcastHandler {
    fn pet_handler(&self) -> (r: Option<BroadcastMessageToDiscord>)
        ensures
            r.deep_view() == pet_message(*self),
    {
        match pet_broadcast_extractor(self.clan_message.message.clone()) {
            None => None,
            Some(pet) => {
                if self.check_if_allowed_broad_cast(BroadcastType::Quest) {
                    return None;
                }
                let title = self.title(":bar_chart: New Leagues Pet drop!", ":tada: New Pet drop!");
                Some(self.announce(pet.player_it_happened_to, BroadcastType::PetDrop, pet.pet_icon, title))
            },
        }
    }

    /// The announcement of a completed diary, unless diaries are switched off or its tier
    /// ranks below the guild's minimum.
    pub fn diary_handler(&self) -> (r: Option<BroadcastMessageToDiscord>)
        ensures
            r.deep_view() == diary_message(*self),
    {
        match diary_completed_broadcast_extractor(self.clan_message.message.clone()) {
            None => None,
            Some(d) => {
                if self.check_if_allowed_broad_cast(BroadcastType::Diary) {
                    return None;
                }
                match self.registered_guild.min_diary_tier {
                    Some(min) => {
                        if d.diary_tier.ranking() < min.ranking() {
                            return None;
                        }
                    },
                    None => {},
                }
                let title = self.title(
                    ":bar_chart: New Leagues diary completed!",
                    ":tada: New diary completed!",
                );
                Some(
                    self.announce(
                        d.player_it_happened_to,
                        BroadcastType::Diary,
                        Some(owned("https://oldschool.runescape.wiki/images/Achievement_Diaries.png")),
                        title,
                    ),
                )
            },
        }
    }

    /// The announcement of a completed quest, unless quests are switched off or, with a
    /// minimum difficulty and the quest list, the quest is not listed or too easy.
    pub fn quest_handler(&self) -> (r: Option<BroadcastMessageToDiscord>)
        ensures
            r.deep_view() == quest_message(*self),
    {
        match quest_completed_broadcast_extractor(self.clan_message.message.clone()) {
            None => None,
            Some(q) => {
                if self.check_if_allowed_broad_cast(BroadcastType::Quest) {
                    return None;
                }
                match (self.registered_guild.min_quest_difficulty, &self.quests) {
                    (Some(min), Some(quests)) => {
                        match first_quest_difficulty_of(quests, &q.quest_name) {
                            None => {
                                return None;
                            },
                            Some(d) => {
                                if d.ranking() < min.ranking() {
                                    return None;
                                }
                            },
                        }
                    },
                    _ => {},
                }
                let title = self.title(
                    ":bar_chart: New Leagues quest completed!",
                    ":tada: New quest completed!",
                );
                Some(
                    self.announce(
                        q.player_it_happened_to,
                        BroadcastType::Quest,
                        q.quest_reward_scroll_icon,
                        title,
                    ),
                )
            },
        }
    }

    /// The announcement of a pk in the winner's name, unless its loot is worth less than the
    /// guild's pk threshold.
    pub fn pk_handler(&self) -> (r: Option<BroadcastMessageToDiscord>)
        ensures
            r.deep_view() == pk_message(*self),
    {
        match pk_broadcast_extractor(self.clan_message.message.clone()) {
            None => None,
            Some(pk) => {
                match (self.registered_guild.pk_value_threshold, pk.gp_exchanged) {
                    (Some(t), Some(gp)) => {
                        if t > gp {
                            return None;
                        }
                    },
                    _ => {},
                }
                let title = self.title(":bar_chart: New Leagues PK!", ":crossed_swords: New PK!");
                Some(
                    self.announce(
                        pk.winner,
                        BroadcastType::Pk,
                        Some(owned("https://oldschool.runescape.wiki/images/Skull.png")),
                        title,
                    ),
                )
            },
        }
    }

    fn invite_handler(&self) -> (r: Option<BroadcastMessageToDiscord>)
        ensures
            r.deep_view() == invite_message(*self),
    {
        match invite_broadcast_extractor(self.clan_message.message.clone()) {
            None => None,
            Some(i) => {
                if self.check_if_allowed_broad_cast(BroadcastType::Invite) {
                    return None;
                }
                Some(
                    self.announce(
                        i.clan_mate,
                        BroadcastType::Invite,
                        Some(owned("https://oldschool.runescape.wiki/images/Your_Clan_icon.png")),
                        owned(":wave: New Invite!"),
                    ),
                )
            },
        }
    }

    fn clan_exit_handler(&self, expelled: bool) -> (r: HandlerOutcome)
        ensures
            r@ == clan_exit_outcome(*self, expelled),
    {
        let found = if expelled {
            expelled_from_clan_broadcast_extractor(self.clan_message.message.clone())
        } else {
            left_the_clan_broadcast_extractor(self.clan_message.message.clone())
        };
        match found {
            None => outcome(no_effects(), None),
            Some(player) => {
                let message = if self.check_if_allowed_broad_cast(BroadcastType::LeftTheClan) {
                    None
                } else {
                    let title = if expelled {
                        owned(":boot: Someone has been expelled!")
                    } else {
                        owned(":people_hugging: Someone has left the clan!")
                    };
                    Some(
                        self.announce(
                            player.clone(),
                            BroadcastType::LeftTheClan,
                            Some(owned("https://oldschool.runescape.wiki/images/Your_Clan_icon.png")),
                            title,
                        ),
                    )
                };
                let effects = one_effect(
                    HandlerEffect::RemoveClanMate {
                        player_name: player,
                        guild_id: self.registered_guild.guild_id,
                    },
                );
                outcome(effects, message)
            },
        }
    }

    fn level_milestone_handler(&self) -> (r: Option<BroadcastMessageToDiscord>)
        ensures
            r.deep_view() == level_message(*self),
    {
        match levelmilestone_broadcast_extractor(self.clan_message.message.clone()) {
            None => None,
            Some(l) => {
                if self.check_if_allowed_broad_cast(BroadcastType::LevelMilestone) {
                    return None;
                }
                let title = self.title(
                    ":bar_chart: New Leagues Level Milestone reached!",
                    ":tada: New Level Milestone reached!",
                );
                Some(self.announce(l.clan_mate, BroadcastType::LevelMilestone, l.skill_icon, title))
            },
        }
    }

    fn xp_milestone_handler(&self) -> (r: Option<BroadcastMessageToDiscord>)
        ensures
            r.deep_view() == xp_message(*self),
    {
        match xpmilestone_broadcast_extractor(self.clan_message.message.clone()) {
            None => None,
            Some(x) => {
                if self.check_if_allowed_broad_cast(BroadcastType::XPMilestone) {
                    return None;
                }
                let title = self.title(
                    ":bar_chart: New Leagues XP Milestone reached!",
                    ":tada: New XP Milestone reached!",
                );
                Some(self.announce(x.clan_mate, BroadcastType::XPMilestone, x.skill_icon, title))
            },
        }
    }

    /// The announcement of a new collection log item and, on a normal world, the recording of
    /// the clan mate's log total.
    pub fn collection_log_handler(&self) -> (r: HandlerOutcome)
        ensures
            r@ == collection_log_outcome(*self),
    {
        match collection_log_broadcast_extractor(self.clan_message.message.clone()) {
            None => outcome(no_effects(), None),
            Some(c) => {
                let effects = if self.leagues_message {
                    no_effects()
                } else {
                    one_effect(
                        HandlerEffect::RecordCollectionLog {
                            guild_id: self.registered_guild.guild_id,
                            player_name: c.player_it_happened_to.clone(),
                            log_slots: c.log_slots,
                        },
                    )
                };
                let message = if self.check_if_allowed_broad_cast(BroadcastType::CollectionLog) {
                    None
                } else {
                    let title = self.title(
                        ":bar_chart: New Leagues collection log item!",
                        ":tada: New collection log item!",
                    );
                    Some(
                        self.announce(
                            c.player_it_happened_to,
                            BroadcastType::CollectionLog,
                            c.item_icon,
                            title,
                        ),
                    )
                };
                outcome(effects, message)
            },
        }
    }

    fn coffer_handler(&self, kind: CofferTransaction) -> (r: Option<BroadcastMessageToDiscord>)
        ensures
            r.deep_view() == coffer_message(*self, kind),
    {
        let donation = match kind {
            CofferTransaction::Donation => true,
            CofferTransaction::Withdrawal => false,
        };
        let found = if donation {
            coffer_donation_broadcast_extractor(self.clan_message.message.clone())
        } else {
            coffer_withdrawal_broadcast_extractor(self.clan_message.message.clone())
        };
        let t = if donation {
            BroadcastType::CofferDonation
        } else {
            BroadcastType::CofferWithdrawal
        };
        match found {
            None => None,
            Some(c) => {
                if self.check_if_allowed_broad_cast(t) {
                    return None;
                }
                let title = if donation {
                    owned(":coin: New Donation!")
                } else {
                    owned(":person_running: New Clan Coffer Withdrawal!")
                };
                Some(
                    self.announce(
                        c.player,
                        t,
                        Some(
                            owned(
                                "https://oldschool.runescape.wiki/images/thumb/Clan_Coffer.png/943px-Clan_Coffer.png",
                            ),
                        ),
                        title,
                    ),
                )
            },
        }
    }

    /// The announcement of a new personal best and the queueing of its recording, unless
    /// personal bests are switched off.
    pub fn personal_best_handler(&self) -> (r: HandlerOutcome)
        ensures
            r@ == personal_best_outcome(*self),
    {
        match personal_best_broadcast_extractor(self.clan_message.message.clone()) {
            None => outcome(no_effects(), None),
            Some(pb) => {
                if self.check_if_allowed_broad_cast(BroadcastType::PersonalBest) {
                    return outcome(no_effects(), None);
                }
                let icon = self.best_guest_pb_icon(pb.activity.clone());
                let message = self.announce(
                    pb.player.clone(),
                    BroadcastType::PersonalBest,
                    Some(icon),
                    owned(":stopwatch: New Personal Best!"),
                );
                let effects = one_effect(
                    HandlerEffect::RecordPersonalBest {
                        personal_best: pb,
                        guild_id: self.registered_guild.guild_id,
                    },
                );
                outcome(effects, Some(message))
            },
        }
    }

    /// What handling the message comes to: the work to do outside and the announcement to
    /// post. `prices` holds the answers to `price_lookups`, in order, `None` for a lookup
    /// that failed.
    pub fn extract_message(&self, prices: Vec<Option<GeItemPrice>>) -> (r: HandlerOutcome)
        ensures
            r@ == handled(*self, prices@),
    {
        let broadcast_type = get_broadcast_type(self.clan_message.message.clone());
        match broadcast_type {
            BroadcastType::RaidDrop => self.raid_drop_handler(&prices),
            BroadcastType::ItemDrop => self.drop_item_handler(),
            BroadcastType::PetDrop => outcome(no_effects(), self.pet_handler()),
            BroadcastType::Diary => outcome(no_effects(), self.diary_handler()),
            BroadcastType::Quest => outcome(no_effects(), self.quest_handler()),
            BroadcastType::Pk => outcome(no_effects(), self.pk_handler()),
            BroadcastType::Invite => outcome(no_effects(), self.invite_handler()),
            BroadcastType::ExpelledFromClan => self.clan_exit_handler(true),
            BroadcastType::LeftTheClan => self.clan_exit_handler(false),
            BroadcastType::LevelMilestone => outcome(no_effects(), self.level_milestone_handler()),
            BroadcastType::XPMilestone => outcome(no_effects(), self.xp_milestone_handler()),
            BroadcastType::CollectionLog => self.collection_log_handler(),
            BroadcastType::CofferDonation => outcome(
                no_effects(),
                self.coffer_handler(CofferTransaction::Donation),
            ),
            BroadcastType::CofferWithdrawal => outcome(
                no_effects(),
                self.coffer_handler(CofferTransaction::Withdrawal),
            ),
            BroadcastType::PersonalBest => self.personal_best_handler(),
            _ => outcome(no_effects(), None),
        }
    }
}


/// A type the guild has switched off is never announced; pet drops and pks, which are not
/// checked against the switched-off types, are the exceptions.
pub proof fn lemma_switched_off_types_stay_quiet(
    h: OSRSBroadcastHandler,
    prices: Seq<Option<GeItemPrice>>,
)
    ensures
        match handled(h, prices).message {
            Some(m) => m.type_of_broadcast != BroadcastType::PetDrop && m.type_of_broadcast
                != BroadcastType::Pk ==> !disallows(h.registered_guild, m.type_of_broadcast),
            None => true,
        },
{
}

/// An announcement has the type of the broadcast it answers, but for an expulsion, which is
/// announced as a departure.
pub proof fn lemma_announcement_type_follows_broadcast(
    h: OSRSBroadcastHandler,
    prices: Seq<Option<GeItemPrice>>,
)
    ensures
        match handled(h, prices).message {
            Some(m) => {
                let t = broadcast_type_of_message(h.clan_message.message@);
                m.type_of_broadcast == t || (t == BroadcastType::ExpelledFromClan
                    && m.type_of_broadcast == BroadcastType::LeftTheClan)
            },
            None => true,
        },
{
}

/// An announced drop is worth at least the guild's drop threshold, whenever both are known.
pub proof fn lemma_announced_drops_meet_threshold(
    h: OSRSBroadcastHandler,
    prices: Seq<Option<GeItemPrice>>,
)
    ensures
        match (handled(h, prices).message, h.registered_guild.drop_price_threshold) {
            (Some(m), Some(t)) => m.type_of_broadcast == BroadcastType::ItemDrop
                ==> match m.item_quantity {
                Some(v) => t <= v,
                None => true,
            },
            _ => true,
        },
{
}

/// A message from a leagues world makes no drop log entry and records no collection log
/// total.
pub proof fn lemma_leagues_messages_store_no_drops_or_logs(
    h: OSRSBroadcastHandler,
    prices: Seq<Option<GeItemPrice>>,
)
    requires
        h.leagues_message,
    ensures
        forall|i: int|
            0 <= i < handled(h, prices).effects.len() ==> !(handled(h, prices).effects[i] is LogDrop)
                && !(handled(h, prices).effects[i] is RecordCollectionLog),
{
}

/// Only a raid drop needs price lookups.
pub proof fn lemma_only_raid_drops_need_prices(h: OSRSBroadcastHandler)
    ensures
        price_lookups_of(h).len() > 0 ==> broadcast_type_of_message(h.clan_message.message@)
            == BroadcastType::RaidDrop,
{
}


/// A pk is announced in the name of the winner that the broadcast names, whichever side the
/// clan mate was on.
pub proof fn lemma_pk_announced_for_winner(h: OSRSBroadcastHandler, prices: Seq<Option<GeItemPrice>>)
    ensures
        match handled(h, prices).message {
            Some(m) => m.type_of_broadcast == BroadcastType::Pk ==> pk_extracted(
                h.clan_message.message@,
            ) is Some && m.player_it_happened_to == pk_extracted(h.clan_message.message@)->0.winner,
            None => true,
        },
{
}

/// A coffer announcement tells a deposit from a withdrawal: an announced donation comes from a
/// message saying gold was deposited into the coffer, an announced withdrawal from one saying
/// gold was withdrawn from it.
pub proof fn lemma_coffer_announcements_follow_the_message(
    h: OSRSBroadcastHandler,
    prices: Seq<Option<GeItemPrice>>,
)
    ensures
        match handled(h, prices).message {
            Some(m) => {
                &&& m.type_of_broadcast == BroadcastType::CofferDonation ==> contains(
                    h.clan_message.message@,
                    "deposited"@,
                ) && m.title == ":coin: New Donation!"@
                &&& m.type_of_broadcast == BroadcastType::CofferWithdrawal ==> contains(
                    h.clan_message.message@,
                    "withdrawn"@,
                ) && m.title == ":person_running: New Clan Coffer Withdrawal!"@
            },
            None => true,
        },
{
}

} // verus!
