use trackscape_discord_shared::database::clan_mates::{
    apply_name_change, name_compare, name_normalize, stored_player_name, ChangeNameError,
    ClanMateModel,
};
use trackscape_discord_shared::database::guilds_db::RegisteredGuildModel;
use trackscape_discord_shared::database::pb_activities_db::activity_lookup;
use trackscape_discord_shared::database::RegisteredGuild;
use trackscape_discord_shared::helpers::hash_string;

fn is_code(code: &str) -> bool {
    let chars: Vec<char> = code.chars().collect();
    chars.len() == 11
        && chars.iter().enumerate().all(|(i, c)| if i == 3 || i == 7 { *c == '-' } else { c.is_ascii_digit() })
}

#[test]
fn hash_is_xxh3_in_decimal() {
    let code = "123-456-789".to_string();
    let expected = xxhash_rust::xxh3::xxh3_64("123-456-789".as_bytes()).to_string();
    assert_eq!(hash_string(code.clone()), expected);
    assert_ne!(hash_string(code.clone()), code);
    assert_eq!(hash_string(String::new()), "3244421341483603138");
}

#[test]
fn new_guilds_get_a_code_and_its_hash() {
    let guild = RegisteredGuildModel::new(42);
    assert_eq!(guild.guild_id, 42);
    assert!(is_code(&guild.verification_code));
    assert_eq!(guild.hashed_verification_code, hash_string(guild.verification_code.clone()));
    assert!(guild.disallowed_broadcast_types.is_empty());
    assert!(guild.created_at.is_some());

    let first = RegisteredGuild::new(7);
    assert!(is_code(&first.verification_code));
    assert!(!first.verified);
}

#[test]
fn names_compare_with_no_break_spaces_and_case() {
    assert!(name_compare("Bob Smith", "bob\u{a0}SMITH"));
    assert!(!name_compare("Bob Smith", "Bob Smyth"));
    assert_eq!(name_normalize("Bob Smith"), "bob\u{a0}smith");
    assert_eq!(stored_player_name("A B C"), "A\u{a0}B\u{a0}C");
}

#[test]
fn renaming_a_clan_mate() {
    let mate = ClanMateModel::new(5, "Old Name".to_string(), Some(9));
    let renamed = apply_name_change(Some(mate.clone()), 5, "Old Name", "New Name").unwrap();
    assert_eq!(renamed.player_name, "New\u{a0}Name");
    assert_eq!(renamed.previous_names, vec!["Old\u{a0}Name".to_string()]);
    assert_eq!(renamed.wom_player_id, Some(9));
    assert_eq!(renamed.id, mate.id);

    let other_clan = apply_name_change(Some(mate), 6, "Old Name", "New Name");
    assert!(matches!(other_clan, Err(ChangeNameError::NotInThisClan)));
    let missing = apply_name_change(None, 5, "Old Name", "New Name");
    assert!(matches!(missing, Err(ChangeNameError::ClanMateNotFound)));
    assert_eq!(ChangeNameError::ClanMateNotFound.message(), "Failed to find clan mate");
    assert_eq!(ChangeNameError::NotInThisClan.message(), "Clan mate is not in this clan!");
}

#[test]
fn activity_lookup_trims_and_anchors() {
    let (name, pattern) = activity_lookup("  Zulrah ");
    assert_eq!(name, "Zulrah");
    assert_eq!(pattern, "^Zulrah$");
}
