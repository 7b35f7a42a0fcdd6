use trackscape_discord_shared::database::guilds_db::RegisteredGuildModel;
use trackscape_discord_shared::ge_api::ge_api::{GeItemPrice, GetItem};
use trackscape_discord_shared::osrs_broadcast_extractor::osrs_broadcast_extractor::{
    diary_completed_broadcast_extractor, drop_broadcast_extractor, pk_broadcast_extractor,
    quest_completed_broadcast_extractor, BroadcastType, ClanMessage, DiaryTier, QuestDifficulty,
};
use trackscape_discord_shared::osrs_broadcast_handler::{HandlerEffect, OSRSBroadcastHandler};
use trackscape_discord_shared::wiki_api::wiki_api::WikiQuest;

fn clan_message(message: &str) -> ClanMessage {
    ClanMessage {
        sender: "Insomniacs".to_string(),
        message: message.to_string(),
        clan_name: "Insomniacs".to_string(),
        rank: "Recruit".to_string(),
        icon_id: None,
        is_league_world: None,
    }
}

fn handler(
    message: &str,
    guild: RegisteredGuildModel,
    quests: Vec<WikiQuest>,
    leagues: bool,
) -> OSRSBroadcastHandler {
    let ge_item_mapping: Vec<GetItem> = Vec::new();
    OSRSBroadcastHandler::new(clan_message(message), Ok(ge_item_mapping), Ok(quests), guild, leagues)
}

fn item(name: &str, id: i64) -> GetItem {
    GetItem {
        highalch: None,
        members: true,
        name: name.to_string(),
        examine: String::new(),
        id,
        value: 0,
        icon: String::new(),
        lowalch: None,
        limit: None,
    }
}

fn price(high: i64) -> GeItemPrice {
    GeItemPrice { high, high_time: 0, low: 0, low_time: 0 }
}

#[test]
fn test_drop_item_handler_no_message_sent() {
    let message = "RuneScape Player: bob received a drop: Abyssal whip (1,456,814 coins).";
    let mut registered_guild = RegisteredGuildModel::new(123);
    registered_guild.drop_price_threshold = Some(20_000_000);
    assert!(drop_broadcast_extractor(message.to_string()).is_some());

    let handler = handler(message, registered_guild, Vec::new(), false);
    let extracted_message = handler.drop_item_handler();
    assert!(extracted_message.message.is_none());
}

#[test]
fn test_drop_item_handler_message_sent() {
    let message = "RuneScape Player: bob received a drop: Cool Item (20,456,814 coins).";
    let mut registered_guild = RegisteredGuildModel::new(123);
    registered_guild.drop_price_threshold = Some(20_000_000);
    assert!(drop_broadcast_extractor(message.to_string()).is_some());

    let handler = handler(message, registered_guild, Vec::new(), false);
    let extracted_message = handler.drop_item_handler();
    assert!(extracted_message.message.is_some());
}

#[test]
fn check_disallowed_do_not_send() {
    let message = "RuneScape Player: bob received a drop: Cool Item (20,456,814 coins).";
    let mut registered_guild = RegisteredGuildModel::new(123);
    registered_guild.disallowed_broadcast_types = vec![BroadcastType::ItemDrop];
    assert!(drop_broadcast_extractor(message.to_string()).is_some());

    let handler = handler(message, registered_guild, Vec::new(), false);
    let extracted_message = handler.drop_item_handler();
    assert!(extracted_message.message.is_none());
}

#[test]
fn check_disallowed_do_send() {
    let message = "RuneScape Player: bob received a drop: Cool Item (20,456,814 coins).";
    let registered_guild = RegisteredGuildModel::new(123);
    assert!(drop_broadcast_extractor(message.to_string()).is_some());

    let handler = handler(message, registered_guild, Vec::new(), false);
    let extracted_message = handler.drop_item_handler();
    assert!(extracted_message.message.is_some());
}

#[test]
fn test_quest_handler_message_sent() {
    let message = "RuneScape Player has completed a quest: The Fremennik Isles";
    let mut registered_guild = RegisteredGuildModel::new(123);
    registered_guild.min_quest_difficulty = Some(QuestDifficulty::Intermediate);
    let quests = vec![WikiQuest {
        name: "The Fremennik Isles".to_string(),
        difficulty: QuestDifficulty::Intermediate,
    }];
    assert!(quest_completed_broadcast_extractor(message.to_string()).is_some());

    let handler = handler(message, registered_guild, quests, false);
    assert!(handler.quest_handler().is_some());
}

#[test]
fn test_quest_handler_message_not_sent() {
    let message = "RuneScape Player has completed a quest: Cook's Assistant";
    let mut registered_guild = RegisteredGuildModel::new(123);
    registered_guild.min_quest_difficulty = Some(QuestDifficulty::Master);
    let quests = vec![WikiQuest {
        name: "Cook's Assistant".to_string(),
        difficulty: QuestDifficulty::Novice,
    }];
    assert!(quest_completed_broadcast_extractor(message.to_string()).is_some());

    let handler = handler(message, registered_guild, quests, false);
    assert!(handler.quest_handler().is_none());
}

#[test]
fn test_pk_value_handler_low() {
    let message = "HolidayPanda has been defeated by next trial in The Wilderness and lost (33,601 coins) worth of loot.";
    let mut registered_guild = RegisteredGuildModel::new(123);
    registered_guild.pk_value_threshold = Some(1_000_000);
    assert!(pk_broadcast_extractor(message.to_string()).is_some());

    let handler = handler(message, registered_guild, Vec::new(), false);
    assert!(handler.pk_handler().is_none());
}

#[test]
fn test_diary_handler_message_sent() {
    let message = "RuneScape Player has completed the Hard Ardougne diary.";
    let mut registered_guild = RegisteredGuildModel::new(123);
    registered_guild.min_diary_tier = Some(DiaryTier::Hard);
    assert!(diary_completed_broadcast_extractor(message.to_string()).is_some());

    let handler = handler(message, registered_guild, Vec::new(), false);
    assert!(handler.diary_handler().is_some());
}

#[test]
fn test_diary_handler_message_not_sent() {
    let message = "RuneScape Player has completed the Easy Ardougne diary.";
    let mut registered_guild = RegisteredGuildModel::new(123);
    registered_guild.min_diary_tier = Some(DiaryTier::Hard);
    assert!(diary_completed_broadcast_extractor(message.to_string()).is_some());

    let handler = handler(message, registered_guild, Vec::new(), false);
    assert!(handler.diary_handler().is_none());
}

#[test]
fn drop_announcement_text_and_log_entry() {
    let message = "RuneScape Player: bob received a drop: Cool Item (20,456,814 coins).";
    let handler = handler(message, RegisteredGuildModel::new(7), Vec::new(), false);
    let outcome = handler.extract_message(Vec::new());
    let announced = outcome.message.unwrap();
    assert_eq!(announced.player_it_happened_to, "RuneScape Player: bob");
    assert_eq!(
        announced.message,
        "RuneScape Player: bob received a drop: Cool Item (20,456,814 coins)."
    );
    assert_eq!(announced.title, ":tada: New High Value drop!");
    assert_eq!(announced.item_quantity, Some(20_456_814));
    assert_eq!(outcome.effects.len(), 1);
    match &outcome.effects[0] {
        HandlerEffect::LogDrop { drop_item, guild_id } => {
            assert_eq!(*guild_id, 7);
            assert_eq!(drop_item.item_name, "Cool Item");
        }
        _ => panic!("expected a drop log entry"),
    }
}

#[test]
fn drop_of_several_items_names_the_quantity() {
    let message = "Bob received a drop: 5 x Coal (1,000 coins).";
    let handler = handler(message, RegisteredGuildModel::new(7), Vec::new(), false);
    let announced = handler.drop_item_handler().message.unwrap();
    assert_eq!(announced.message, "Bob received a drop: 5 x Coal (1,000 coins).");
}

#[test]
fn leagues_drop_logs_nothing() {
    let message = "Bob received a drop: Cool Item (20,456,814 coins).";
    let handler = handler(message, RegisteredGuildModel::new(7), Vec::new(), true);
    let outcome = handler.drop_item_handler();
    assert!(outcome.effects.is_empty());
    assert_eq!(outcome.message.unwrap().title, ":bar_chart: New Leagues High Value drop!");
}

#[test]
fn raid_drop_takes_last_positive_price() {
    let message = "Bob received special loot from a raid: Twisted bow.";
    let mapping = vec![item("Twisted bow", 20997), item("Coal", 453), item("Twisted bow", 1)];
    let handler = OSRSBroadcastHandler::new(
        clan_message(message),
        Ok(mapping),
        Ok(Vec::new()),
        RegisteredGuildModel::new(7),
        false,
    );
    assert_eq!(handler.price_lookups(), vec![20997, 1]);
    let outcome = handler.extract_message(vec![Some(price(1_200_000_000)), Some(price(0))]);
    let announced = outcome.message.unwrap();
    assert_eq!(
        announced.message,
        "Bob received special loot from a raid: Twisted bow (1,200,000,000 coins)."
    );
    assert_eq!(announced.title, ":tada: New raid drop!");
}

#[test]
fn raid_drop_without_price() {
    let message = "Bob received special loot from a raid: Twisted bow.";
    let handler = handler(message, RegisteredGuildModel::new(7), Vec::new(), false);
    assert!(handler.price_lookups().is_empty());
    let outcome = handler.extract_message(Vec::new());
    assert_eq!(
        outcome.message.unwrap().message,
        "Bob received special loot from a raid: Twisted bow."
    );
}

#[test]
fn pet_drop_goes_by_quest_switch() {
    let message = "Bob has a funny feeling like he's being followed: Heron at 5,000 XP.";
    let mut guild = RegisteredGuildModel::new(7);
    guild.disallowed_broadcast_types = vec![BroadcastType::PetDrop];
    let h = handler(message, guild, Vec::new(), false);
    assert!(h.extract_message(Vec::new()).message.is_some());

    let mut guild = RegisteredGuildModel::new(7);
    guild.disallowed_broadcast_types = vec![BroadcastType::Quest];
    let h = handler(message, guild, Vec::new(), false);
    assert!(h.extract_message(Vec::new()).message.is_none());
}

#[test]
fn expelled_member_is_removed_and_announced_as_departure() {
    let message = "Mod Bob has expelled Alice from the clan.";
    let h = handler(message, RegisteredGuildModel::new(9), Vec::new(), false);
    let outcome = h.extract_message(Vec::new());
    assert_eq!(outcome.effects.len(), 1);
    match &outcome.effects[0] {
        HandlerEffect::RemoveClanMate { player_name, guild_id } => {
            assert_eq!(player_name, "Alice");
            assert_eq!(*guild_id, 9);
        }
        _ => panic!("expected a removal"),
    }
    let announced = outcome.message.unwrap();
    assert_eq!(announced.type_of_broadcast, BroadcastType::LeftTheClan);
    assert_eq!(announced.title, ":boot: Someone has been expelled!");
}

#[test]
fn personal_best_icon_guess() {
    let h = handler("x", RegisteredGuildModel::new(1), Vec::new(), false);
    assert_eq!(
        h.best_guest_pb_icon("Theatre of Blood: Entry Mode".to_string()),
        "https://oldschool.runescape.wiki/images/Theatre_of_Blood_logo.png"
    );
    assert_eq!(
        h.best_guest_pb_icon("Zulrah".to_string()),
        "https://oldschool.runescape.wiki/images/Zulrah.png"
    );
}

#[test]
fn check_if_allowed_compares_types() {
    let mut guild = RegisteredGuildModel::new(1);
    guild.disallowed_broadcast_types = vec![BroadcastType::Quest, BroadcastType::Diary];
    let h = handler("x", guild, Vec::new(), false);
    assert!(h.check_if_allowed_broad_cast(BroadcastType::Diary));
    assert!(!h.check_if_allowed_broad_cast(BroadcastType::ItemDrop));
}

#[test]
fn collection_log_records_total() {
    let message = "Bob received a new collection log item: Pet rock (120/1477)";
    let h = handler(message, RegisteredGuildModel::new(3), Vec::new(), false);
    let outcome = h.collection_log_handler();
    match &outcome.effects[0] {
        HandlerEffect::RecordCollectionLog { guild_id, player_name, log_slots } => {
            assert_eq!(*guild_id, 3);
            assert_eq!(player_name, "Bob");
            assert_eq!(*log_slots, 120);
        }
        _ => panic!("expected a collection log record"),
    }
    assert_eq!(outcome.message.unwrap().title, ":tada: New collection log item!");
}
