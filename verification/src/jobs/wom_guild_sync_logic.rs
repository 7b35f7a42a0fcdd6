use crate::database::clan_mates::{name_compare, normalized_name, stored_name, stored_player_name, ClanMateModel};
use vstd::prelude::*;

verus! {

/// A member of the clan's Wise Old Man group.
#[derive(Clone, Debug)]
pub struct WomMember {
    /// The member's Wise Old Man player id.
    pub id: i64,
    pub username: String,
    pub display_name: String,
}

pub struct WomMemberView {
    pub id: i64,
    pub username: Seq<char>,
    pub display_name: Seq<char>,
}

impl View for WomMember {
    type V = WomMemberView;

    open spec fn view(&self) -> WomMemberView {
        WomMemberView { id: self.id, username: self.username@, display_name: self.display_name@ }
    }
}

impl DeepView for WomMember {
    type V = WomMemberView;

    open spec fn deep_view(&self) -> WomMemberView {
        self@
    }
}

/// A name change that the Wise Old Man group reports.
#[derive(Clone, Debug)]
pub struct WomNameChange {
    pub old_name: String,
    pub new_name: String,
    /// Whether the change was approved.
    pub approved: bool,
    /// When the change was resolved, as seconds since the Unix epoch and nanoseconds within
    /// the second.
    pub resolved_at: Option<(i64, u32)>,
}

pub struct WomNameChangeView {
    pub old_name: Seq<char>,
    pub new_name: Seq<char>,
    pub approved: bool,
    pub resolved_at: Option<(i64, u32)>,
}

impl View for WomNameChange {
    type V = WomNameChangeView;

    open spec fn view(&self) -> WomNameChangeView {
        WomNameChangeView {
            old_name: self.old_name@,
            new_name: self.new_name@,
            approved: self.approved,
            resolved_at: self.resolved_at,
        }
    }
}

impl DeepView for WomNameChange {
    type V = WomNameChangeView;

    open spec fn deep_view(&self) -> WomNameChangeView {
        self@
    }
}

/// What syncing a clan with its Wise Old Man group does for one member.
pub enum SyncAction {
    /// Store the member's Wise Old Man id on the clan mate at this index of the clan list.
    SetWomId { clan_mate_index: usize, wom_player_id: u64 },
    /// Rename the clan mate stored under `old_name`.
    Rename { old_name: String, new_name: String },
    /// Store a new clan mate.
    Create { player_name: String, wom_player_id: u64 },
}

pub enum SyncActionView {
    SetWomId { clan_mate_index: usize, wom_player_id: u64 },
    Rename { old_name: Seq<char>, new_name: Seq<char> },
    Create { player_name: Seq<char>, wom_player_id: u64 },
}

impl View for SyncAction {
    type V = SyncActionView;

    open spec fn view(&self) -> SyncActionView {
        match self {
            SyncAction::SetWomId { clan_mate_index, wom_player_id } => SyncActionView::SetWomId {
                clan_mate_index: *clan_mate_index,
                wom_player_id: *wom_player_id,
            },
            SyncAction::Rename { old_name, new_name } => SyncActionView::Rename {
                old_name: old_name@,
                new_name: new_name@,
            },
            SyncAction::Create { player_name, wom_player_id } => SyncActionView::Create {
                player_name: player_name@,
                wom_player_id: *wom_player_id,
            },
        }
    }
}

impl DeepView for SyncAction {
    type V = SyncActionView;

    open spec fn deep_view(&self) -> SyncActionView {
        self@
    }
}

/// Two player names are the same name.
pub open spec fn same_name(a: Seq<char>, b: Seq<char>) -> bool {
    normalized_name(a) == normalized_name(b)
}

/// The index of the first clan mate whose name is the same name as `name`.
pub open spec fn first_clan_mate_named(clan_mates: Seq<ClanMateModel>, name: Seq<char>) -> Option<int>
    decreases clan_mates.len(),
{
    if clan_mates.len() == 0 {
        None
    } else {
        match first_clan_mate_named(clan_mates.drop_last(), name) {
            Some(i) => Some(i),
            None => if same_name(clan_mates.last().player_name@, name) {
                Some(clan_mates.len() - 1)
            } else {
                None
            },
        }
    }
}

/// `a` is no later than `b`.
pub open spec fn no_later(a: (i64, u32), b: (i64, u32)) -> bool {
    a.0 < b.0 || (a.0 == b.0 && a.1 <= b.1)
}

/// A name change that may explain `username`: approved, resolved, and to that name.
pub open spec fn explains(change: WomNameChangeView, username: Seq<char>) -> bool {
    change.approved && change.resolved_at is Some && same_name(change.new_name, username)
}

/// The index of the name change taken to explain `username`: of those that may, the one
/// resolved earliest, the last of them where several were resolved at that same time.
pub open spec fn earliest_change(changes: Seq<WomNameChangeView>, username: Seq<char>) -> Option<int>
    decreases changes.len(),
{
    if changes.len() == 0 {
        None
    } else {
        let before = earliest_change(changes.drop_last(), username);
        let k = changes.len() - 1;
        if explains(changes[k], username) {
            match before {
                None => Some(k),
                Some(p) => if no_later(changes[k].resolved_at->0, changes[p].resolved_at->0) {
                    Some(k)
                } else {
                    Some(p)
                },
            }
        } else {
            before
        }
    }
}

/// What syncing does for one member: a clan mate with the member's name gets the member's id;
/// else a name change to the member's name renames the clan mate with the old name, unless
/// that clan mate already had the new name before; else the member is stored as a new clan
/// mate.
pub open spec fn member_action(
    clan_mates: Seq<ClanMateModel>,
    changes: Seq<WomNameChangeView>,
    member: WomMemberView,
) -> Option<SyncActionView> {
    match first_clan_mate_named(clan_mates, member.username) {
        Some(i) => Some(
            SyncActionView::SetWomId { clan_mate_index: i as usize, wom_player_id: member.id as u64 },
        ),
        None => {
            let create = SyncActionView::Create {
                player_name: member.display_name,
                wom_player_id: member.id as u64,
            };
            match earliest_change(changes, member.username) {
                None => Some(create),
                Some(k) => match first_clan_mate_named(clan_mates, changes[k].old_name) {
                    None => Some(create),
                    Some(j) => if clan_mates[j].previous_names.deep_view().contains(
                        stored_name(changes[k].new_name),
                    ) {
                        None
                    } else {
                        Some(
                            SyncActionView::Rename {
                                old_name: changes[k].old_name,
                                new_name: member.display_name,
                            },
                        )
                    },
                },
            }
        },
    }
}

/// What syncing does, member by member in the group's order.
pub open spec fn sync_plan(
    clan_mates: Seq<ClanMateModel>,
    changes: Seq<WomNameChangeView>,
    members: Seq<WomMemberView>,
) -> Seq<SyncActionView>
    decreases members.len(),
{
    if members.len() == 0 {
        Seq::empty()
    } else {
        let before = sync_plan(clan_mates, changes, members.drop_last());
        match member_action(clan_mates, changes, members.last()) {
            Some(a) => before.push(a),
            None => before,
        }
    }
}

/// The names of the clan mates that no member of the group has the name of, in the clan
/// list's order.
pub open spec fn departed(clan_mates: Seq<ClanMateModel>, members: Seq<WomMemberView>) -> Seq<
    Seq<char>,
>
    decreases clan_mates.len(),
{
    if clan_mates.len() == 0 {
        Seq::empty()
    } else {
        let before = departed(clan_mates.drop_last(), members);
        let name = clan_mates.last().player_name@;
        if exists|i: int| 0 <= i < members.len() && same_name(#[trigger] members[i].username, name) {
            before
        } else {
            before.push(name)
        }
    }
}

/// The first clan mate of a name is a clan mate of the list, and has that name.
pub proof fn lemma_first_clan_mate_named(clan_mates: Seq<ClanMateModel>, name: Seq<char>)
    ensures
        first_clan_mate_named(clan_mates, name) matches Some(i) ==> 0 <= i < clan_mates.len()
            && same_name(clan_mates[i].player_name@, name),
    decreases clan_mates.len(),
{
    if clan_mates.len() > 0 {
        lemma_first_clan_mate_named(clan_mates.drop_last(), name);
    }
}

/// The name change taken to explain a name is one of the list, and may explain it.
pub proof fn lemma_earliest_change(changes: Seq<WomNameChangeView>, username: Seq<char>)
    ensures
        earliest_change(changes, username) matches Some(k) ==> 0 <= k < changes.len() && explains(
            changes[k],
            username,
        ),
    decreases changes.len(),
{
    if changes.len() > 0 {
        lemma_earliest_change(changes.drop_last(), username);
    }
}

/// The index of the first clan mate named `name`.
pub fn find_clan_mate(clan_mates: &Vec<ClanMateModel>, name: &str) -> (r: Option<usize>)
    ensures
        r == (match first_clan_mate_named(clan_mates@, name@) {
            Some(i) => Some(i as usize),
            None => None::<usize>,
        }),
        r matches Some(i) ==> i < clan_mates.len(),
{
    let mut i: usize = 0;
    while i < clan_mates.len()
        invariant
            i <= clan_mates.len(),
            first_clan_mate_named(clan_mates@.take(i as int), name@) is None,
        decreases clan_mates.len() - i,
    {
        assert(clan_mates@.take(i + 1).drop_last() =~= clan_mates@.take(i as int));
        if name_compare(clan_mates[i].player_name.as_str(), name) {
            proof {
                lemma_first_named_extends(clan_mates@, name@, i as int + 1);
            }
            return Some(i);
        }
        i = i + 1;
    }
    assert(clan_mates@.take(i as int) =~= clan_mates@);
    None
}

/// Once found in a prefix, the first clan mate of a name stays the first in the whole list.
proof fn lemma_first_named_extends(clan_mates: Seq<ClanMateModel>, name: Seq<char>, n: int)
    requires
        0 <= n <= clan_mates.len(),
        first_clan_mate_named(clan_mates.take(n), name) is Some,
    ensures
        first_clan_mate_named(clan_mates, name) == first_clan_mate_named(clan_mates.take(n), name),
    decreases clan_mates.len() - n,
{
    if n < clan_mates.len() {
        assert(clan_mates.take(n + 1).drop_last() =~= clan_mates.take(n));
        lemma_first_named_extends(clan_mates, name, n + 1);
    } else {
        assert(clan_mates.take(n) =~= clan_mates);
    }
}

/// The index of the name change taken to explain `username`.
pub fn find_earliest_change(changes: &Vec<WomNameChange>, username: &str) -> (r: Option<usize>)
    ensures
        r == (match earliest_change(changes.deep_view(), username@) {
            Some(i) => Some(i as usize),
            None => None::<usize>,
        }),
        r matches Some(i) ==> i < changes.len(),
{
    let ghost all = changes.deep_view();
    let mut best: Option<usize> = None;
    let mut i: usize = 0;
    while i < changes.len()
        invariant
            i <= changes.len(),
            all == changes.deep_view(),
            all.len() == changes.len(),
            best == (match earliest_change(all.take(i as int), username@) {
                Some(k) => Some(k as usize),
                None => None::<usize>,
            }),
            best matches Some(k) ==> k < i && changes@[k as int].resolved_at is Some,
        decreases changes.len() - i,
    {
        let ghost prefix = all.take(i + 1);
        assert(prefix.drop_last() =~= all.take(i as int));
        proof {
            lemma_earliest_change(prefix.drop_last(), username@);
        }
        assert(prefix[i as int] == changes@[i as int]@);
        let c = &changes[i];
        let explains_it = c.approved && c.resolved_at.is_some() && name_compare(
            c.new_name.as_str(),
            username,
        );
        if explains_it {
            match best {
                None => {
                    best = Some(i);
                },
                Some(p) => {
                    assert(prefix[p as int] == changes@[p as int]@);
                    let a = c.resolved_at.unwrap();
                    let b = changes[p].resolved_at.unwrap();
                    if a.0 < b.0 || (a.0 == b.0 && a.1 <= b.1) {
                        best = Some(i);
                    }
                },
            }
        }
        i = i + 1;
    }
    assert(all.take(i as int) =~= all);
    best
}

/// Whether some member of the group has the name `name`.
pub fn has_member_named(members: &Vec<WomMember>, name: &str) -> (r: bool)
    ensures
        r == exists|i: int|
            0 <= i < members.len() && same_name(#[trigger] members.deep_view()[i].username, name@),
{
    let ghost all = members.deep_view();
    let mut i: usize = 0;
    while i < members.len()
        invariant
            i <= members.len(),
            all == members.deep_view(),
            all.len() == members.len(),
            forall|k: int| 0 <= k < i ==> !same_name(#[trigger] all[k].username, name@),
        decreases members.len() - i,
    {
        assert(all[i as int] == members@[i as int]@);
        if name_compare(members[i].username.as_str(), name) {
            assert(same_name(members.deep_view()[i as int].username, name@));
            return true;
        }
        i = i + 1;
    }
    false
}


fn holds_text(texts: &Vec<String>, text: &String) -> (r: bool)
    ensures
        r == texts.deep_view().contains(text@),
{
    let ghost all = texts.deep_view();
    let mut i: usize = 0;
    while i < texts.len()
        invariant
            i <= texts.len(),
            all == texts.deep_view(),
            all.len() == texts.len(),
            forall|k: int| 0 <= k < i ==> all[k] != text@,
        decreases texts.len() - i,
    {
        assert(all[i as int] == texts@[i as int]@);
        if texts[i] == *text {
            assert(all[i as int] == text@);
            return true;
        }
        i = i + 1;
    }
    false
}

/// What syncing does for one member.
pub fn member_sync_action(
    clan_mates: &Vec<ClanMateModel>,
    changes: &Vec<WomNameChange>,
    member: &WomMember,
) -> (r: Option<SyncAction>)
    ensures
        r.deep_view() == member_action(clan_mates@, changes.deep_view(), member@),
{
    proof {
        lemma_first_clan_mate_named(clan_mates@, member.username@);
        lemma_earliest_change(changes.deep_view(), member.username@);
    }
    match find_clan_mate(clan_mates, member.username.as_str()) {
        Some(i) => Some(SyncAction::SetWomId { clan_mate_index: i, wom_player_id: member.id as u64 }),
        None => match find_earliest_change(changes, member.username.as_str()) {
            None => Some(
                SyncAction::Create {
                    player_name: member.display_name.clone(),
                    wom_player_id: member.id as u64,
                },
            ),
            Some(k) => {
                let change = &changes[k];
                assert(changes.deep_view()[k as int] == changes@[k as int]@);
                proof {
                    lemma_first_clan_mate_named(clan_mates@, change.old_name@);
                }
                match find_clan_mate(clan_mates, change.old_name.as_str()) {
                    None => Some(
                        SyncAction::Create {
                            player_name: member.display_name.clone(),
                            wom_player_id: member.id as u64,
                        },
                    ),
                    Some(j) => {
                        let stored = stored_player_name(change.new_name.as_str());
                        if holds_text(&clan_mates[j].previous_names, &stored) {
                            None
                        } else {
                            Some(
                                SyncAction::Rename {
                                    old_name: change.old_name.clone(),
                                    new_name: member.display_name.clone(),
                                },
                            )
                        }
                    },
                }
            },
        },
    }
}

/// What syncing a clan with its Wise Old Man group does, member by member in the group's
/// order: `clan_mates` is the clan as stored, `changes` the group's reported name changes.
pub fn sync_wom_plan(
    clan_mates: &Vec<ClanMateModel>,
    changes: &Vec<WomNameChange>,
    members: &Vec<WomMember>,
) -> (r: Vec<SyncAction>)
    ensures
        r.deep_view() == sync_plan(clan_mates@, changes.deep_view(), members.deep_view()),
{
    let ghost all = members.deep_view();
    let mut plan: Vec<SyncAction> = Vec::new();
    let mut i: usize = 0;
    assert(plan.deep_view() =~= sync_plan(clan_mates@, changes.deep_view(), all.take(0)));
    while i < members.len()
        invariant
            i <= members.len(),
            all == members.deep_view(),
            all.len() == members.len(),
            plan.deep_view() == sync_plan(clan_mates@, changes.deep_view(), all.take(i as int)),
        decreases members.len() - i,
    {
        assert(all.take(i + 1).drop_last() =~= all.take(i as int));
        assert(all.take(i + 1).last() == members@[i as int]@);
        let ghost before = plan.deep_view();
        match member_sync_action(clan_mates, changes, &members[i]) {
            Some(a) => {
                let ghost v = a@;
                plan.push(a);
                assert(plan.deep_view() =~= before.push(v));
            },
            None => {},
        }
        i = i + 1;
    }
    assert(all.take(i as int) =~= all);
    plan
}

/// The names of the stored clan mates that no member of the group has the name of: those to
/// remove from the clan.
pub fn departed_clan_mates(clan_mates: &Vec<ClanMateModel>, members: &Vec<WomMember>) -> (r: Vec<String>)
    ensures
        r.deep_view() == departed(clan_mates@, members.deep_view()),
{
    let mut names: Vec<String> = Vec::new();
    let mut i: usize = 0;
    assert(names.deep_view() =~= departed(clan_mates@.take(0), members.deep_view()));
    while i < clan_mates.len()
        invariant
            i <= clan_mates.len(),
            names.deep_view() == departed(clan_mates@.take(i as int), members.deep_view()),
        decreases clan_mates.len() - i,
    {
        assert(clan_mates@.take(i + 1).drop_last() =~= clan_mates@.take(i as int));
        let ghost before = names.deep_view();
        if !has_member_named(members, clan_mates[i].player_name.as_str()) {
            names.push(clan_mates[i].player_name.clone());
            assert(names.deep_view() =~= before.push(clan_mates@[i as int].player_name@));
        }
        i = i + 1;
    }
    assert(clan_mates@.take(i as int) =~= clan_mates@);
    names
}


/// The clan mates to remove are exactly those that no member of the group has the name of:
/// each such clan mate's name is listed, and each listed name is the name of such a clan mate.
pub proof fn lemma_departed_are_exactly_non_members(
    clan_mates: Seq<ClanMateModel>,
    members: Seq<WomMemberView>,
)
    ensures
        forall|i: int|
            0 <= i < clan_mates.len() && !(exists|m: int|
                0 <= m < members.len() && same_name(
                    #[trigger] members[m].username,
                    clan_mates[i].player_name@,
                )) ==> departed(clan_mates, members).contains(#[trigger] clan_mates[i].player_name@),
        forall|n: int|
            #![trigger departed(clan_mates, members)[n]]
            0 <= n < departed(clan_mates, members).len() ==> exists|i: int|
                0 <= i < clan_mates.len() && #[trigger] clan_mates[i].player_name@ == departed(
                    clan_mates,
                    members,
                )[n] && !(exists|m: int|
                    0 <= m < members.len() && same_name(
                        #[trigger] members[m].username,
                        clan_mates[i].player_name@,
                    )),
    decreases clan_mates.len(),
{
    if clan_mates.len() > 0 {
        let rest = clan_mates.drop_last();
        lemma_departed_are_exactly_non_members(rest, members);
        let d = departed(clan_mates, members);
        let before = departed(rest, members);
        assert forall|i: int|
            0 <= i < clan_mates.len() && !(exists|m: int|
                0 <= m < members.len() && same_name(
                    #[trigger] members[m].username,
                    clan_mates[i].player_name@,
                )) implies d.contains(#[trigger] clan_mates[i].player_name@) by {
            if i < clan_mates.len() - 1 {
                assert(rest[i] == clan_mates[i]);
                assert(before.contains(rest[i].player_name@));
                let k = choose|k: int| 0 <= k < before.len() && before[k] == rest[i].player_name@;
                assert(d[k] == before[k]);
            } else {
                assert(d[d.len() - 1] == clan_mates[i].player_name@);
            }
        }
        assert forall|n: int| #![trigger d[n]] 0 <= n < d.len() implies exists|i: int|
            0 <= i < clan_mates.len() && #[trigger] clan_mates[i].player_name@ == d[n] && !(exists|
                m: int,
            |
                0 <= m < members.len() && same_name(
                    #[trigger] members[m].username,
                    clan_mates[i].player_name@,
                )) by {
            if n < before.len() {
                assert(d[n] == before[n]);
                let i = choose|i: int|
                    0 <= i < rest.len() && #[trigger] rest[i].player_name@ == before[n] && !(exists|
                        m: int,
                    |
                        0 <= m < members.len() && same_name(
                            #[trigger] members[m].username,
                            rest[i].player_name@,
                        ));
                assert(rest[i] == clan_mates[i]);
            } else {
                assert(clan_mates[clan_mates.len() - 1].player_name@ == d[n]);
            }
        }
    }
}

/// Syncing takes at most one action per member, and every clan mate it gives an id to is one
/// of the clan list, with the name of a member of the group.
pub proof fn lemma_sync_plan_well_formed(
    clan_mates: Seq<ClanMateModel>,
    changes: Seq<WomNameChangeView>,
    members: Seq<WomMemberView>,
)
    requires
        clan_mates.len() <= usize::MAX,
    ensures
        sync_plan(clan_mates, changes, members).len() <= members.len(),
        forall|a: int|
            0 <= a < sync_plan(clan_mates, changes, members).len() ==> (#[trigger] sync_plan(
                clan_mates,
                changes,
                members,
            )[a] matches SyncActionView::SetWomId { clan_mate_index, .. } ==> clan_mate_index
                < clan_mates.len() && exists|m: int|
                0 <= m < members.len() && same_name(
                    clan_mates[clan_mate_index as int].player_name@,
                    #[trigger] members[m].username,
                )),
    decreases members.len(),
{
    if members.len() > 0 {
        let rest = members.drop_last();
        lemma_sync_plan_well_formed(clan_mates, changes, rest);
        lemma_first_clan_mate_named(clan_mates, members.last().username);
        let p = sync_plan(clan_mates, changes, members);
        let before = sync_plan(clan_mates, changes, rest);
        assert forall|a: int| 0 <= a < p.len() implies (#[trigger] p[a] matches SyncActionView::SetWomId {
            clan_mate_index,
            ..
        } ==> clan_mate_index < clan_mates.len() && exists|m: int|
            0 <= m < members.len() && same_name(
                clan_mates[clan_mate_index as int].player_name@,
                #[trigger] members[m].username,
            )) by {
            if a < before.len() {
                assert(p[a] == before[a]);
                if let SyncActionView::SetWomId { clan_mate_index, .. } = p[a] {
                    let m = choose|m: int|
                        0 <= m < rest.len() && same_name(
                            clan_mates[clan_mate_index as int].player_name@,
                            #[trigger] rest[m].username,
                        );
                    assert(rest[m] == members[m]);
                }
            } else {
                assert(members[members.len() - 1] == members.last());
                if let SyncActionView::SetWomId { clan_mate_index, .. } = p[a] {
                    assert(same_name(
                        clan_mates[clan_mate_index as int].player_name@,
                        members[members.len() - 1].username,
                    ));
                }
            }
        }
    }
}


/// Syncing renames only clan mates of the list, and only by a name change that the group
/// reports as approved.
pub proof fn lemma_sync_renames_known_clan_mates(
    clan_mates: Seq<ClanMateModel>,
    changes: Seq<WomNameChangeView>,
    members: Seq<WomMemberView>,
)
    ensures
        forall|a: int|
            0 <= a < sync_plan(clan_mates, changes, members).len() ==> (#[trigger] sync_plan(
                clan_mates,
                changes,
                members,
            )[a] matches SyncActionView::Rename { old_name, .. } ==> (exists|j: int|
                0 <= j < clan_mates.len() && same_name(
                    #[trigger] clan_mates[j].player_name@,
                    old_name,
                )) && exists|k: int|
                0 <= k < changes.len() && #[trigger] changes[k].old_name == old_name
                    && changes[k].approved),
    decreases members.len(),
{
    if members.len() > 0 {
        let rest = members.drop_last();
        lemma_sync_renames_known_clan_mates(clan_mates, changes, rest);
        let u = members.last().username;
        lemma_earliest_change(changes, u);
        let p = sync_plan(clan_mates, changes, members);
        let before = sync_plan(clan_mates, changes, rest);
        assert forall|a: int| 0 <= a < p.len() implies (#[trigger] p[a] matches SyncActionView::Rename {
            old_name,
            ..
        } ==> (exists|j: int|
            0 <= j < clan_mates.len() && same_name(#[trigger] clan_mates[j].player_name@, old_name))
            && exists|k: int|
            0 <= k < changes.len() && #[trigger] changes[k].old_name == old_name
                && changes[k].approved) by {
            if a < before.len() {
                assert(p[a] == before[a]);
            } else if let SyncActionView::Rename { old_name, .. } = p[a] {
                let k = earliest_change(changes, u)->0;
                lemma_first_clan_mate_named(clan_mates, changes[k].old_name);
                let j = first_clan_mate_named(clan_mates, changes[k].old_name)->0;
                assert(same_name(clan_mates[j].player_name@, old_name));
                assert(changes[k].old_name == old_name);
            }
        }
    }
}


/// No clan mate has a name that no clan mate of the list has.
proof fn lemma_unnamed_clan_mate_not_found(clan_mates: Seq<ClanMateModel>, name: Seq<char>)
    requires
        forall|j: int| 0 <= j < clan_mates.len() ==> !same_name(#[trigger] clan_mates[j].player_name@, name),
    ensures
        first_clan_mate_named(clan_mates, name) is None,
{
    lemma_first_clan_mate_named(clan_mates, name);
}

/// The action planned for a member is in the plan.
proof fn lemma_member_action_planned(
    clan_mates: Seq<ClanMateModel>,
    changes: Seq<WomNameChangeView>,
    members: Seq<WomMemberView>,
    i: int,
)
    requires
        0 <= i < members.len(),
        member_action(clan_mates, changes, members[i]) is Some,
    ensures
        sync_plan(clan_mates, changes, members).contains(
            member_action(clan_mates, changes, members[i])->0,
        ),
    decreases members.len(),
{
    let p = sync_plan(clan_mates, changes, members);
    let before = sync_plan(clan_mates, changes, members.drop_last());
    let a = member_action(clan_mates, changes, members[i])->0;
    if i == members.len() - 1 {
        assert(members.last() == members[i]);
        assert(p[p.len() - 1] == a);
    } else {
        assert(members.drop_last()[i] == members[i]);
        lemma_member_action_planned(clan_mates, changes, members.drop_last(), i);
        let k = choose|k: int| 0 <= k < before.len() && before[k] == a;
        assert(p[k] == a);
    }
}

/// Every member of the group that no clan mate has the name of, and that no approved name
/// change to their name ties to a stored clan mate, is stored as a new clan mate under their
/// display name with their Wise Old Man id.
pub proof fn lemma_new_members_are_created(
    clan_mates: Seq<ClanMateModel>,
    changes: Seq<WomNameChangeView>,
    members: Seq<WomMemberView>,
    i: int,
)
    requires
        0 <= i < members.len(),
        forall|j: int|
            0 <= j < clan_mates.len() ==> !same_name(
                #[trigger] clan_mates[j].player_name@,
                members[i].username,
            ),
        forall|k: int, j: int|
            0 <= k < changes.len() && 0 <= j < clan_mates.len() && explains(
                #[trigger] changes[k],
                members[i].username,
            ) ==> !same_name(#[trigger] clan_mates[j].player_name@, changes[k].old_name),
    ensures
        sync_plan(clan_mates, changes, members).contains(
            SyncActionView::Create {
                player_name: members[i].display_name,
                wom_player_id: members[i].id as u64,
            },
        ),
{
    let u = members[i].username;
    lemma_unnamed_clan_mate_not_found(clan_mates, u);
    lemma_earliest_change(changes, u);
    if let Some(k) = earliest_change(changes, u) {
        assert forall|j: int| 0 <= j < clan_mates.len() implies !same_name(
            #[trigger] clan_mates[j].player_name@,
            changes[k].old_name,
        ) by {
            assert(explains(changes[k], u));
        }
        lemma_unnamed_clan_mate_not_found(clan_mates, changes[k].old_name);
    }
    lemma_member_action_planned(clan_mates, changes, members, i);
}


/// Every member of the group that a clan mate has the name of gets their Wise Old Man id stored
/// on a clan mate of that name.
pub proof fn lemma_known_members_get_their_id(
    clan_mates: Seq<ClanMateModel>,
    changes: Seq<WomNameChangeView>,
    members: Seq<WomMemberView>,
    i: int,
    j: int,
)
    requires
        clan_mates.len() <= usize::MAX,
        0 <= i < members.len(),
        0 <= j < clan_mates.len(),
        same_name(clan_mates[j].player_name@, members[i].username),
    ensures
        exists|a: int|
            0 <= a < sync_plan(clan_mates, changes, members).len() && (#[trigger] sync_plan(
                clan_mates,
                changes,
                members,
            )[a] matches SyncActionView::SetWomId { clan_mate_index, wom_player_id }
                && wom_player_id == members[i].id as u64 && clan_mate_index < clan_mates.len()
                && same_name(clan_mates[clan_mate_index as int].player_name@, members[i].username)),
{
    let u = members[i].username;
    lemma_first_clan_mate_named(clan_mates, u);
    if first_clan_mate_named(clan_mates, u) is None {
        lemma_unnamed_clan_mate_not_found_converse(clan_mates, u, j);
    }
    lemma_member_action_planned(clan_mates, changes, members, i);
    let p = sync_plan(clan_mates, changes, members);
    let act = member_action(clan_mates, changes, members[i])->0;
    let a = choose|a: int| 0 <= a < p.len() && p[a] == act;
    assert(p[a] == act);
}

proof fn lemma_unnamed_clan_mate_not_found_converse(
    clan_mates: Seq<ClanMateModel>,
    name: Seq<char>,
    j: int,
)
    requires
        0 <= j < clan_mates.len(),
        same_name(clan_mates[j].player_name@, name),
    ensures
        first_clan_mate_named(clan_mates, name) is Some,
    decreases clan_mates.len(),
{
    if j < clan_mates.len() - 1 {
        assert(clan_mates.drop_last()[j] == clan_mates[j]);
        lemma_unnamed_clan_mate_not_found_converse(clan_mates.drop_last(), name, j);
    }
}

/// A member that no clan mate has the name of, but whose explaining name change comes from a
/// stored clan mate that never had the new name, renames that clan mate to the member's
/// display name.
pub proof fn lemma_renamed_members_are_renamed(
    clan_mates: Seq<ClanMateModel>,
    changes: Seq<WomNameChangeView>,
    members: Seq<WomMemberView>,
    i: int,
    j: int,
)
    requires
        0 <= i < members.len(),
        forall|c: int|
            0 <= c < clan_mates.len() ==> !same_name(
                #[trigger] clan_mates[c].player_name@,
                members[i].username,
            ),
        earliest_change(changes, members[i].username) is Some,
        first_clan_mate_named(
            clan_mates,
            changes[earliest_change(changes, members[i].username)->0].old_name,
        ) == Some(j),
        !clan_mates[j].previous_names.deep_view().contains(
            stored_name(changes[earliest_change(changes, members[i].username)->0].new_name),
        ),
    ensures
        sync_plan(clan_mates, changes, members).contains(
            SyncActionView::Rename {
                old_name: changes[earliest_change(changes, members[i].username)->0].old_name,
                new_name: members[i].display_name,
            },
        ),
{
    lemma_unnamed_clan_mate_not_found(clan_mates, members[i].username);
    lemma_member_action_planned(clan_mates, changes, members, i);
}

} // verus!
