use trackscape_discord_shared::database::clan_mates::ClanMateModel;
use trackscape_discord_shared::jobs::name_change_job::name_to_change_to;
use trackscape_discord_shared::jobs::parse_rl_chat_command::is_pb_command;
use trackscape_discord_shared::jobs::runelite_commands::pb_command::{
    get_boss_long_name, pb_lookup, pb_request_url, PbLookup,
};
use trackscape_discord_shared::jobs::runelite_commands::{runelite_api_url, version_in_pom};
use trackscape_discord_shared::jobs::update_create_clanmate_job::{
    cached_rank_update, daily_api_calls_key, newcomer, player_cache_key, stored_rank_update,
    Newcomer, RankUpdate,
};
use trackscape_discord_shared::jobs::wom_guild_sync_logic::{
    departed_clan_mates, find_earliest_change, sync_wom_plan, SyncAction, WomMember,
    WomNameChange,
};
use trackscape_discord_shared::wom::{ApiLimiter, ONE_MINUTE_NANOS, RATE_LIMIT};

fn clan_mate(name: &str) -> ClanMateModel {
    ClanMateModel::new(1, name.to_string(), None)
}

fn member(id: i64, name: &str) -> WomMember {
    WomMember { id, username: name.to_lowercase(), display_name: name.to_string() }
}

fn change(old: &str, new: &str, at: i64) -> WomNameChange {
    WomNameChange {
        old_name: old.to_string(),
        new_name: new.to_string(),
        approved: true,
        resolved_at: Some((at, 0)),
    }
}

#[test]
fn boss_aliases_give_long_names() {
    assert_eq!(get_boss_long_name(&"!pb corp".to_string()), "Corporeal Beast");
    assert_eq!(get_boss_long_name(&"!pb  TOB  ".to_string()), "Theatre of Blood");
    assert_eq!(get_boss_long_name(&"!pb cox cm 24+".to_string()), "Chambers of Xeric Challenge Mode 24+ players");
    assert_eq!(get_boss_long_name(&"!pb moons of peril".to_string()), "Lunar Chest");
}

#[test]
fn unknown_boss_is_capitalized_word_by_word() {
    assert_eq!(get_boss_long_name(&"!pb zulrah".to_string()), "Zulrah ");
    assert_eq!(get_boss_long_name(&"!pb the MIMIC".to_string()), "The Mimic ");
    assert_eq!(get_boss_long_name(&"!pb".to_string()), " ");
}

#[test]
fn pb_lookup_cases() {
    match pb_lookup(&"!pb nerdicus".to_string()) {
        PbLookup::MadeUpTime { boss } => assert_eq!(boss, "Nerdicus"),
        _ => panic!("expected the made-up time"),
    }
    match pb_lookup(&"!pb vork".to_string()) {
        PbLookup::Request { boss } => assert_eq!(boss, "Vorkath"),
        _ => panic!("expected a request"),
    }
    match pb_lookup(&"!pb".to_string()) {
        PbLookup::Request { boss } => assert_eq!(boss, ""),
        _ => panic!("expected a request"),
    }
}

#[test]
fn pb_request_address() {
    let api = runelite_api_url("1.10.30");
    assert_eq!(api, "https://api.runelite.net/runelite-1.10.30");
    assert_eq!(
        pb_request_url(&api, "Bob", "Vorkath"),
        "https://api.runelite.net/runelite-1.10.30/chat/pb?name=Bob&boss=Vorkath"
    );
}

#[test]
fn pom_version_is_first_version_tag() {
    let pom = "<project><parent><version>1.10.31-SNAPSHOT</version></parent><version>2</version></project>";
    assert_eq!(version_in_pom(pom), "1.10.31-SNAPSHOT");
    assert_eq!(version_in_pom("x<version>7"), "7");
}

#[test]
fn pb_command_detection() {
    assert!(is_pb_command("!pb zulrah"));
    assert!(is_pb_command("!PB Vorkath"));
    assert!(!is_pb_command("hello !pb"));
    assert!(!is_pb_command("!p"));
}

#[test]
fn rename_only_to_a_different_name() {
    assert_eq!(name_to_change_to("Bob Smith", Some("bob\u{a0}smith".to_string())), None);
    assert_eq!(name_to_change_to("Bob", Some("Robert".to_string())), Some("Robert".to_string()));
    assert_eq!(name_to_change_to("Bob", None), None);
}

#[test]
fn rank_updates() {
    let rank = "General".to_string();
    assert_eq!(cached_rank_update(&None, &rank), RankUpdate::Update { cache_too: true });
    assert_eq!(cached_rank_update(&Some("General".to_string()), &rank), RankUpdate::Keep);
    assert_eq!(
        cached_rank_update(&Some("Recruit".to_string()), &rank),
        RankUpdate::Update { cache_too: true }
    );
    assert_eq!(stored_rank_update(&None, &rank), RankUpdate::Update { cache_too: true });
    assert_eq!(
        stored_rank_update(&Some("Recruit".to_string()), &rank),
        RankUpdate::Update { cache_too: false }
    );
    assert_eq!(stored_rank_update(&Some("General".to_string()), &rank), RankUpdate::Keep);
}

#[test]
fn newcomers() {
    assert!(matches!(newcomer(None, true), Newcomer::Create));
    assert!(matches!(newcomer(Some("Old".to_string()), false), Newcomer::Create));
    match newcomer(Some("Old".to_string()), true) {
        Newcomer::Rename { old_name } => assert_eq!(old_name, "Old"),
        _ => panic!("expected a rename"),
    }
}

#[test]
fn cache_keys() {
    assert_eq!(player_cache_key("Bob"), "players:Bob");
    assert_eq!(daily_api_calls_key("2024-01-31"), "api_calls:2024-01-31");
}

#[test]
fn sync_plan_matches_renames_and_creates() {
    let clan_mates = vec![clan_mate("Alice"), clan_mate("Bob")];
    let members = vec![member(1, "Alice"), member(3, "Carol"), member(4, "Dave")];
    let changes = vec![change("Bob", "carol", 10), change("Xavier", "carol", 20)];
    let plan = sync_wom_plan(&clan_mates, &changes, &members);
    assert_eq!(plan.len(), 3);
    match &plan[0] {
        SyncAction::SetWomId { clan_mate_index, wom_player_id } => {
            assert_eq!(*clan_mate_index, 0);
            assert_eq!(*wom_player_id, 1);
        }
        _ => panic!("expected the id to be set"),
    }
    match &plan[1] {
        SyncAction::Rename { old_name, new_name } => {
            assert_eq!(old_name, "Bob");
            assert_eq!(new_name, "Carol");
        }
        _ => panic!("expected a rename"),
    }
    match &plan[2] {
        SyncAction::Create { player_name, wom_player_id } => {
            assert_eq!(player_name, "Dave");
            assert_eq!(*wom_player_id, 4);
        }
        _ => panic!("expected a new clan mate"),
    }
}

#[test]
fn sync_skips_a_rename_already_made() {
    let mut bob = clan_mate("Bob");
    bob.previous_names = vec!["Carol\u{a0}Ann".to_string()];
    let clan_mates = vec![bob];
    let members = vec![member(3, "Carol Ann")];
    let changes = vec![change("Bob", "Carol Ann", 10)];
    assert!(sync_wom_plan(&clan_mates, &changes, &members).is_empty());
}

#[test]
fn earliest_change_wins_and_ties_go_to_the_last() {
    let changes = vec![change("A", "carol", 30), change("B", "carol", 10), change("C", "carol", 10)];
    assert_eq!(find_earliest_change(&changes, "Carol"), Some(2));
    let mut pending = change("D", "carol", 1);
    pending.approved = false;
    assert_eq!(find_earliest_change(&vec![pending], "carol"), None);
}

#[test]
fn departed_are_those_not_in_the_group() {
    let fresh = vec![clan_mate("Alice"), clan_mate("Bob"), clan_mate("Eve")];
    let members = vec![member(1, "alice"), member(3, "Carol")];
    assert_eq!(departed_clan_mates(&fresh, &members), vec!["Bob".to_string(), "Eve".to_string()]);
}

#[test]
fn limiter_waits_after_rate_limit() {
    let mut limiter = ApiLimiter::new(0);
    for _ in 0..RATE_LIMIT {
        assert_eq!(limiter.start_request(1), None);
    }
    assert_eq!(limiter.requests_sent, RATE_LIMIT);
    assert_eq!(limiter.start_request(1), Some((ONE_MINUTE_NANOS - 1) as u64));
    limiter.resume_after_wait(ONE_MINUTE_NANOS);
    assert_eq!(limiter.requests_sent, 1);
    assert_eq!(limiter.one_minute_from_now, 2 * ONE_MINUTE_NANOS);
}

#[test]
fn limiter_starts_a_new_window() {
    let mut limiter = ApiLimiter::new(0);
    limiter.requests_sent = RATE_LIMIT;
    assert_eq!(limiter.start_request(ONE_MINUTE_NANOS + 5), None);
    assert_eq!(limiter.requests_sent, 1);
    assert_eq!(limiter.one_minute_from_now, 2 * ONE_MINUTE_NANOS + 5);
}

#[test]
fn boss_name_ignores_command_word_spaces_and_case() {
    let a = get_boss_long_name(&"!pb kq".to_string());
    let b = get_boss_long_name(&"!PB   KQ ".to_string());
    assert_eq!(a, "Kalphite Queen");
    assert_eq!(a, b);
    assert_eq!(
        get_boss_long_name(&"!pb  zulrah ".to_string()),
        get_boss_long_name(&"xyzzulrah".to_string())
    );
}
