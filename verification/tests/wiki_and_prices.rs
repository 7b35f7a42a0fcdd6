use trackscape_discord_shared::osrs_broadcast_extractor::osrs_broadcast_extractor::get_wiki_image_url;
use trackscape_discord_shared::ge_api::ge_api::{price_or_zero, GeItemPrice};
use trackscape_discord_shared::osrs_broadcast_extractor::osrs_broadcast_extractor::QuestDifficulty;
use trackscape_discord_shared::wiki_api::wiki_api::{
    build_clogs_url, build_quest_url, clog_row_from_cells, clogs_from_html, clogs_from_rows,
    quests_from_links, Link,
};

#[test]
fn quest_list_address() {
    assert_eq!(
        build_quest_url(QuestDifficulty::Novice),
        "https://oldschool.runescape.wiki/api.php?format=json&action=parse&page=Quests%2FNovice&section=1"
    );
    assert_eq!(
        build_clogs_url(),
        "https://oldschool.runescape.wiki/api.php?format=json&action=parse&page=Collection_log/Table&section=2"
    );
}

#[test]
fn quests_are_the_article_links() {
    let links = vec![
        Link { ns: 0, exists: String::new(), field: "Cook's Assistant".to_string() },
        Link { ns: 14, exists: String::new(), field: "Category:Quests".to_string() },
        Link { ns: 0, exists: String::new(), field: "Sheep Shearer".to_string() },
    ];
    let quests = quests_from_links(&links, QuestDifficulty::Novice);
    assert_eq!(quests.len(), 2);
    assert_eq!(quests[0].name, "Cook's Assistant");
    assert_eq!(quests[1].name, "Sheep Shearer");
    assert_eq!(quests[1].difficulty, QuestDifficulty::Novice);
}

#[test]
fn collection_log_rows() {
    assert_eq!(
        clog_row_from_cells("  Abyssal whip ", "0.51%"),
        Some(("Abyssal whip".to_string(), "0.51".to_string()))
    );
    assert_eq!(clog_row_from_cells("Header", "Rate"), None);
}

#[test]
fn missing_price_is_zero() {
    let zero = GeItemPrice { high: 0, high_time: 0, low: 0, low_time: 0 };
    assert_eq!(price_or_zero(None), zero);
    let p = GeItemPrice { high: 5, high_time: 6, low: 3, low_time: 4 };
    assert_eq!(price_or_zero(Some(p)), p);
}

#[test]
fn collection_log_table_rows() {
    let rows = vec![
        vec!["Abyssal whip".to_string(), "x".to_string(), "0.51%".to_string()],
        vec!["Header".to_string()],
        vec![" Pet rock ".to_string(), "y".to_string(), "100%".to_string(), "z".to_string()],
        vec!["No rate".to_string(), "y".to_string(), "n/a".to_string()],
    ];
    assert_eq!(
        clogs_from_rows(&rows),
        vec![
            ("Abyssal whip".to_string(), "0.51".to_string()),
            ("Pet rock".to_string(), "100".to_string())
        ]
    );
}

#[test]
fn collection_log_table_from_html() {
    let html = "<table><tr><th>Item</th><th>Source</th><th>Rate</th></tr>\
        <tr><td> Abyssal <b>whip</b> </td><td>Demon</td><td>0.51%</td></tr>\
        <tr><td>a</td><td>b</td></tr></table>";
    assert_eq!(clogs_from_html(html), vec![("Abyssal whip".to_string(), "0.51".to_string())]);
}

#[test]
fn wiki_image_addresses_are_encoded() {
    assert_eq!(
        get_wiki_image_url("Twisted bow".to_string()),
        "https://oldschool.runescape.wiki/images/Twisted_bow_detail.png"
    );
    assert_eq!(
        get_wiki_image_url("Tumeken's shadow (uncharged)".to_string()),
        "https://oldschool.runescape.wiki/images/Tumeken%27s_shadow_%28uncharged%29_detail.png"
    );
}
