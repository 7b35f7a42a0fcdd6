use trackscape_discord_shared::osrs_broadcast_extractor::osrs_broadcast_extractor::{
    coffer_from_groups, invite_from_groups, levelmilestone_from_groups,
    personal_best_from_groups, xpmilestone_from_groups, CofferTransaction,
};

fn groups(texts: &[Option<&str>]) -> Vec<Option<String>> {
    texts.iter().map(|t| t.map(|s| s.to_string())).collect()
}

#[test]
fn invite_from_its_groups() {
    let invite = invite_from_groups(groups(&[Some("all"), Some("New Guy"), Some("Old Hand")]));
    assert_eq!(invite.clan_mate, "Old Hand");
    assert_eq!(invite.new_clan_mate, "New Guy");
}

#[test]
fn milestones_from_their_groups() {
    let level = levelmilestone_from_groups(groups(&[Some("all"), Some("Bob"), Some("Attack"), Some("99")]));
    assert_eq!(level.clan_mate, "Bob");
    assert_eq!(level.skill_levelled, "Attack");
    assert_eq!(level.new_skill_level, "99");
    assert_eq!(
        level.skill_icon,
        Some("https://oldschool.runescape.wiki/images/Attack_icon_(detail).png".to_string())
    );
    let xp = xpmilestone_from_groups(groups(&[Some("all"), Some("Bob"), Some("50,000,000"), Some("Hitpoints")]));
    assert_eq!(xp.clan_mate, "Bob");
    assert_eq!(xp.skill, "Hitpoints");
    assert_eq!(xp.new_skill_xp, "50,000,000");
}

#[test]
fn coffer_from_its_groups() {
    let coffer = coffer_from_groups(
        groups(&[Some("all"), Some("Bob"), Some("deposited"), Some("1,250,000"), Some("into")]),
        CofferTransaction::Donation,
    );
    assert_eq!(coffer.player, "Bob");
    assert_eq!(coffer.gp, 1_250_000);
    assert_eq!(coffer.transaction_type, CofferTransaction::Donation);
}

#[test]
fn personal_best_from_its_groups() {
    let pb = personal_best_from_groups(groups(&[Some("all"), Some("Bob"), Some("Zulrah"), Some("1:02")]));
    assert_eq!(pb.player, "Bob");
    assert_eq!(pb.activity, "Zulrah");
    assert_eq!(pb.variant, None);
    assert_eq!(pb.time, "1:02");
}
