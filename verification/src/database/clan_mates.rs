use crate::database::{new_object_id, now_millis};
use crate::text::{
    chars_of, lowercase, replace_char, replace_char_exec, str_eq, string_of, to_lowercase,
};
use vstd::prelude::*;

verus! {

/// A clan member as stored.
#[derive(Clone, Debug)]
pub struct ClanMateModel {
    /// The stored document's id (the twelve bytes of a BSON object id).
    pub id: [u8; 12],
    pub guild_id: u64,
    pub player_name: String,
    pub wom_player_id: Option<u64>,
    pub previous_names: Vec<String>,
    pub rank: Option<String>,
    /// When the clan mate was stored, in milliseconds since the Unix epoch.
    pub created_at: i64,
}

impl ClanMateModel {
    pub const COLLECTION_NAME: &'static str = "clan_mates";

    /// A new clan mate with no previous names and no rank.
    pub fn new(guild_id: u64, player_name: String, wom_player_id: Option<u64>) -> (r: Self)
        ensures
            r.guild_id == guild_id,
            r.player_name@ == player_name@,
            r.wom_player_id == wom_player_id,
            r.previous_names@.len() == 0,
            r.rank is None,
    {
        ClanMateModel {
            id: new_object_id(),
            guild_id,
            wom_player_id,
            previous_names: Vec::new(),
            player_name,
            rank: None,
            created_at: now_millis(),
        }
    }
}

/// A player name as it is stored and looked up: every space a no-break space (U+00A0), as
/// the game writes names.
pub open spec fn stored_name(name: Seq<char>) -> Seq<char> {
    replace_char(name, ' ', '\u{a0}')
}

/// A player name as names are compared: stored form, then lower case.
pub open spec fn normalized_name(name: Seq<char>) -> Seq<char> {
    lowercase(stored_name(name))
}

/// `name` in the form it is stored and looked up in.
pub fn stored_player_name(name: &str) -> (r: String)
    ensures
        r@ == stored_name(name@),
{
    let chars = chars_of(name);
    let replaced = replace_char_exec(&chars, ' ', '\u{a0}');
    string_of(&replaced)
}

pub fn name_normalize(name: &str) -> (r: String)
    ensures
        r@ == normalized_name(name@),
{
    let stored = stored_player_name(name);
    to_lowercase(stored.as_str())
}

/// Whether two player names are the same name.
pub fn name_compare(name1: &str, name2: &str) -> (r: bool)
    ensures
        r == (normalized_name(name1@) == normalized_name(name2@)),
{
    let a = name_normalize(name1);
    let b = name_normalize(name2);
    str_eq(a.as_str(), b.as_str())
}

/// Why a name change was refused.
#[derive(Clone, Copy, Debug, PartialEq, Eq, Structural)]
pub enum ChangeNameError {
    /// No clan mate has the old name.
    ClanMateNotFound,
    /// The clan mate with the old name belongs to another clan.
    NotInThisClan,
}

impl ChangeNameError {
    /// The message the error is reported with.
    pub fn message(&self) -> (r: String)
        ensures
            r@ == match self {
                ChangeNameError::ClanMateNotFound => "Failed to find clan mate"@,
                ChangeNameError::NotInThisClan => "Clan mate is not in this clan!"@,
            },
    {
        match self {
            ChangeNameError::ClanMateNotFound => crate::text::owned("Failed to find clan mate"),
            ChangeNameError::NotInThisClan => crate::text::owned("Clan mate is not in this clan!"),
        }
    }
}

/// The clan mate found under `old_name` renamed to `new_name` within clan `guild_id`: the old
/// name, in stored form, joins the previous names and the new name, in stored form, becomes
/// the player name; nothing else changes. Refused when no clan mate was found or it belongs
/// to another clan.
pub fn apply_name_change(
    found: Option<ClanMateModel>,
    guild_id: u64,
    old_name: &str,
    new_name: &str,
) -> (r: Result<ClanMateModel, ChangeNameError>)
    ensures
        found is None ==> r == Err::<ClanMateModel, ChangeNameError>(
            ChangeNameError::ClanMateNotFound,
        ),
        found matches Some(m) ==> m.guild_id != guild_id ==> r == Err::<
            ClanMateModel,
            ChangeNameError,
        >(ChangeNameError::NotInThisClan),
        found matches Some(m) ==> m.guild_id == guild_id ==> (r matches Ok(n) && {
            &&& n.id == m.id
            &&& n.guild_id == m.guild_id
            &&& n.wom_player_id == m.wom_player_id
            &&& n.rank == m.rank
            &&& n.created_at == m.created_at
            &&& n.player_name@ == stored_name(new_name@)
            &&& n.previous_names.deep_view() == m.previous_names.deep_view().push(
                stored_name(old_name@),
            )
        }),
{
    match found {
        None => Err(ChangeNameError::ClanMateNotFound),
        Some(mut clan_mate) => {
            if clan_mate.guild_id != guild_id {
                return Err(ChangeNameError::NotInThisClan);
            }
            let ghost before = clan_mate.previous_names.deep_view();
            clan_mate.previous_names.push(stored_player_name(old_name));
            assert(clan_mate.previous_names.deep_view() =~= before.push(stored_name(old_name@)));
            clan_mate.player_name = stored_player_name(new_name);
            Ok(clan_mate)
        },
    }
}

/// Storing a name twice changes nothing more than storing it once, so a name typed with
/// spaces and the same name stored with no-break spaces are the same name.
pub proof fn lemma_stored_name_idempotent(name: Seq<char>)
    ensures
        stored_name(stored_name(name)) == stored_name(name),
        normalized_name(stored_name(name)) == normalized_name(name),
{
    assert(stored_name(stored_name(name)) =~= stored_name(name));
}

/// Comparing names is an equivalence: every name is the same as itself, the comparison does
/// not depend on the order, and it chains.
pub proof fn lemma_name_compare_equivalence(a: Seq<char>, b: Seq<char>, c: Seq<char>)
    ensures
        normalized_name(a) == normalized_name(a),
        normalized_name(a) == normalized_name(b) ==> normalized_name(b) == normalized_name(a),
        normalized_name(a) == normalized_name(b) && normalized_name(b) == normalized_name(c)
            ==> normalized_name(a) == normalized_name(c),
{
}

} // verus!
