use crate::osrs_broadcast_extractor::osrs_broadcast_extractor::{
    quest_difficulty_name, QuestDifficulty,
};
use crate::text::{
    chars_of, contains, push_str, remove_char, remove_char_exec, str_contains, string_of, trim,
    trim_exec,
};
use vstd::prelude::*;

verus! {

/// The wiki's API endpoint.
pub const BASE_URL: &'static str = "https://oldschool.runescape.wiki/api.php";

/// A quest and its difficulty, as the wiki lists them.
#[derive(Clone, Debug)]
pub struct WikiQuest {
    pub name: String,
    pub difficulty: QuestDifficulty,
}

#[derive(Clone, Debug)]
pub struct Text {
    pub field: String,
}

#[derive(Clone, Debug)]
pub struct Category {
    pub sortkey: String,
    pub hidden: String,
    pub field: String,
}

/// A link on a parsed wiki page; `ns` is the namespace, 0 for articles.
#[derive(Clone, Debug)]
pub struct Link {
    pub ns: i64,
    pub exists: String,
    pub field: String,
}

#[derive(Clone, Debug)]
pub struct Template {
    pub ns: i64,
    pub exists: String,
    pub field: String,
}

#[derive(Clone, Debug)]
pub struct Section {
    pub toclevel: i64,
    pub level: String,
    pub line: String,
    pub number: String,
    pub index: String,
    pub fromtitle: String,
    pub byteoffset: i64,
    pub anchor: String,
}

#[derive(Clone, Debug)]
pub struct Property {
    pub name: String,
    pub field: String,
}

/// The address of the first section of the wiki's list of quests of one difficulty.
pub open spec fn quest_url(difficulty: QuestDifficulty) -> Seq<char> {
    BASE_URL@ + "?format=json&action=parse&page=Quests%2F"@ + quest_difficulty_name(difficulty)
        + "&section=1"@
}

/// The address of the section of the wiki's collection log table that lists the items.
pub open spec fn clogs_url() -> Seq<char> {
    BASE_URL@ + "?format=json&action=parse&page=Collection_log/Table&section=2"@
}

pub fn build_quest_url(difficulty: QuestDifficulty) -> (r: String)
    ensures
        r@ == quest_url(difficulty),
{
    let mut url = chars_of(BASE_URL);
    push_str(&mut url, "?format=json&action=parse&page=Quests%2F");
    let name = difficulty.to_string();
    push_str(&mut url, name.as_str());
    push_str(&mut url, "&section=1");
    string_of(&url)
}

pub fn build_clogs_url() -> (r: String)
    ensures
        r@ == clogs_url(),
{
    let mut url = chars_of(BASE_URL);
    push_str(&mut url, "?format=json&action=parse&page=Collection_log/Table&section=2");
    string_of(&url)
}

/// The names of the article links among `links`, in order: the quests a quest list names.
pub open spec fn quest_names(links: Seq<Link>) -> Seq<Seq<char>>
    decreases links.len(),
{
    if links.len() == 0 {
        Seq::empty()
    } else if links.last().ns == 0 {
        quest_names(links.drop_last()).push(links.last().field@)
    } else {
        quest_names(links.drop_last())
    }
}

/// The quests that a wiki quest list of one difficulty links to: one per article link, in
/// order, all of that difficulty.
pub fn quests_from_links(links: &Vec<Link>, difficulty: QuestDifficulty) -> (r: Vec<WikiQuest>)
    ensures
        r@.len() == quest_names(links@).len(),
        forall|i: int|
            0 <= i < r@.len() ==> (#[trigger] r@[i]).name@ == quest_names(links@)[i]
                && r@[i].difficulty == difficulty,
{
    let mut quests: Vec<WikiQuest> = Vec::new();
    let mut i: usize = 0;
    while i < links.len()
        invariant
            i <= links.len(),
            quests@.len() == quest_names(links@.take(i as int)).len(),
            forall|k: int|
                0 <= k < quests@.len() ==> (#[trigger] quests@[k]).name@ == quest_names(
                    links@.take(i as int),
                )[k] && quests@[k].difficulty == difficulty,
        decreases links.len() - i,
    {
        assert(links@.take(i + 1).drop_last() =~= links@.take(i as int));
        if links[i].ns == 0 {
            quests.push(WikiQuest { name: links[i].field.clone(), difficulty });
        }
        i = i + 1;
    }
    assert(links@.take(i as int) =~= links@);
    quests
}

/// A row of the collection log table, from the text of its first and third cells: where the
/// third cell holds a `%`, the item (the first cell, trimmed) and its percentage text (the
/// third cell without `%`).
pub open spec fn clog_row(first_cell: Seq<char>, third_cell: Seq<char>) -> Option<(Seq<char>, Seq<char>)> {
    if contains(third_cell, "%"@) {
        Some((trim(first_cell), remove_char(third_cell, '%')))
    } else {
        None
    }
}

pub fn clog_row_from_cells(first_cell: &str, third_cell: &str) -> (r: Option<(String, String)>)
    ensures
        match r {
            Some((name, percentage)) => clog_row(first_cell@, third_cell@) == Some(
                (name@, percentage@),
            ),
            None => clog_row(first_cell@, third_cell@) is None,
        },
{
    if !str_contains(third_cell, "%") {
        return None;
    }
    let first = chars_of(first_cell);
    let name = trim_exec(&first);
    let third = chars_of(third_cell);
    let percentage = remove_char_exec(&third, '%');
    Some((string_of(&name), string_of(&percentage)))
}


/// The texts of the `td` cells of each `tr` row of an HTML document, in document order, as the
/// `scraper` crate parses and selects them (a cell's text is all its text nodes joined).
pub uninterp spec fn html_table_cells(html: Seq<char>) -> Seq<Seq<Seq<char>>>;

/// Parses `html` with `scraper::Html::parse_document`, selects its `tr` elements and, in each,
/// its `td` elements, and joins each cell's text. Claimed: the result is
/// `html_table_cells(html@)`, a function of the document alone; the HTML parsing itself is
/// not stated.
#[verifier::external_body]
fn table_cells(html: &str) -> (r: Vec<Vec<String>>)
    ensures
        r.deep_view() == html_table_cells(html@),
{
    let document = scraper::Html::parse_document(html);
    let rows = scraper::Selector::parse("tr").unwrap();
    let cells = scraper::Selector::parse("td").unwrap();
    document.select(&rows).map(
        |row| row.select(&cells).map(|cell| cell.text().collect::<String>()).collect(),
    ).collect()
}

/// The collection log rows of a table: from each row with at least three cells, the item and
/// percentage text of its first and third cells, where the third holds a `%`.
pub open spec fn clog_rows(rows: Seq<Seq<Seq<char>>>) -> Seq<(Seq<char>, Seq<char>)>
    decreases rows.len(),
{
    if rows.len() == 0 {
        Seq::empty()
    } else {
        let before = clog_rows(rows.drop_last());
        let row = rows.last();
        if row.len() >= 3 {
            match clog_row(row[0], row[2]) {
                Some(entry) => before.push(entry),
                None => before,
            }
        } else {
            before
        }
    }
}

/// The collection log rows of a table, given as the cell texts of each row.
pub fn clogs_from_rows(rows: &Vec<Vec<String>>) -> (r: Vec<(String, String)>)
    ensures
        r.deep_view() == clog_rows(rows.deep_view()),
{
    let ghost all = rows.deep_view();
    let mut found: Vec<(String, String)> = Vec::new();
    let mut i: usize = 0;
    assert(found.deep_view() =~= clog_rows(all.take(0)));
    while i < rows.len()
        invariant
            i <= rows.len(),
            all == rows.deep_view(),
            all.len() == rows.len(),
            found.deep_view() == clog_rows(all.take(i as int)),
        decreases rows.len() - i,
    {
        assert(all.take(i + 1).drop_last() =~= all.take(i as int));
        assert(all.take(i + 1).last() == rows@[i as int].deep_view());
        let row = &rows[i];
        if row.len() >= 3 {
            assert(row.deep_view()[0] == row@[0]@ && row.deep_view()[2] == row@[2]@);
            let ghost before = found.deep_view();
            match clog_row_from_cells(row[0].as_str(), row[2].as_str()) {
                Some(entry) => {
                    let ghost e = (entry.0@, entry.1@);
                    found.push(entry);
                    assert(found.deep_view() =~= before.push(e));
                },
                None => {},
            }
        }
        i = i + 1;
    }
    assert(all.take(i as int) =~= all);
    found
}

/// The collection log rows of the wiki's collection log table, given as the HTML the wiki's
/// API returns for it.
pub fn clogs_from_html(html: &str) -> (r: Vec<(String, String)>)
    ensures
        r.deep_view() == clog_rows(html_table_cells(html@)),
{
    let rows = table_cells(html);
    clogs_from_rows(&rows)
}

} // verus!
