//! Leaderboards: membership decisions and the standings shown to members.

use vstd::prelude::*;
use crate::error::TimeError;
use crate::models::{CodingActivity, Leaderboard, LeaderboardMember, PrivateLeaderboard, PrivateLeaderboardMember, UserIdentity};
use crate::stats::{spec_running_sums_fit, spec_sum, user_since_filter, user_time_since};

verus! {

/// A leaderboard in the list of a user's leaderboards.
#[derive(Debug, Clone, PartialEq, Eq)]
pub struct ListLeaderboard {
    pub name: String,
    pub member_count: i32,
    /// The member with the most coding time.
    pub top_member: PrivateLeaderboardMember,
    /// The user's rank, starting at 1.
    pub my_position: i32,
    pub me: PrivateLeaderboardMember,
}

/// The name and size of a leaderboard.
#[derive(Debug, Clone, PartialEq, Eq)]
pub struct MinimalLeaderboard {
    pub name: String,
    pub member_count: i32,
}

/// A membership together with the member's name and coding time, as listed
/// in descending order of coding time.
#[derive(Debug, Clone, PartialEq, Eq)]
pub struct RankedMember {
    pub leaderboard_id: i32,
    pub user_id: i32,
    pub username: String,
    pub admin: bool,
    /// Seconds.
    pub coding_time: i64,
}

/// How a ranked member is shown: coding time converted to `i32` with wrap-around.
pub open spec fn spec_shown(m: RankedMember, p: PrivateLeaderboardMember) -> bool {
    &&& p.id == m.user_id
    &&& p.username@ == m.username@
    &&& p.admin == m.admin
    &&& p.time_coded == m.coding_time as i32
}

/// Number of members of leaderboard `lid` in `s`.
pub open spec fn spec_count(s: Seq<RankedMember>, lid: i32) -> int
    decreases s.len(),
{
    if s.len() == 0 {
        0
    } else {
        spec_count(s.drop_last(), lid) + if s.last().leaderboard_id == lid {
            1int
        } else {
            0
        }
    }
}

/// Index of the first member of leaderboard `lid` that is user `uid` (any
/// user when `uid` is `None`), or -1.
pub open spec fn spec_first(s: Seq<RankedMember>, lid: i32, uid: Option<i32>) -> int
    decreases s.len(),
{
    if s.len() == 0 {
        -1
    } else {
        let f = spec_first(s.drop_last(), lid, uid);
        if f >= 0 {
            f
        } else if s.last().leaderboard_id == lid && (uid matches Some(u) ==> s.last().user_id == u) {
            s.len() - 1
        } else {
            -1
        }
    }
}

proof fn lemma_first_found(s: Seq<RankedMember>, lid: i32, uid: Option<i32>, k: int)
    requires
        0 <= k < s.len(),
        s[k].leaderboard_id == lid,
        uid matches Some(u) ==> s[k].user_id == u,
    ensures
        0 <= spec_first(s, lid, uid) <= k,
        s[spec_first(s, lid, uid)].leaderboard_id == lid,
        uid matches Some(u) ==> s[spec_first(s, lid, uid)].user_id == u,
    decreases s.len(),
{
    if k < s.len() - 1 {
        lemma_first_found(s.drop_last(), lid, uid, k);
    } else {
        lemma_first_bounds(s.drop_last(), lid, uid);
    }
}

proof fn lemma_first_bounds(s: Seq<RankedMember>, lid: i32, uid: Option<i32>)
    ensures
        -1 <= spec_first(s, lid, uid) < s.len(),
        spec_first(s, lid, uid) >= 0 ==> s[spec_first(s, lid, uid)].leaderboard_id == lid
            && (uid matches Some(u) ==> s[spec_first(s, lid, uid)].user_id == u),
    decreases s.len(),
{
    if s.len() > 0 {
        lemma_first_bounds(s.drop_last(), lid, uid);
    }
}

proof fn lemma_count_bounds(s: Seq<RankedMember>, lid: i32)
    ensures
        0 <= spec_count(s, lid) <= s.len(),
    decreases s.len(),
{
    if s.len() > 0 {
        lemma_count_bounds(s.drop_last(), lid);
    }
}

/// Whether `l` is the entry shown to user `uid` for board `b` given the
/// ranked members `s`: the board's name, its member count, its first-ranked
/// member, the user's rank among the board's members and the user's own entry.
pub open spec fn spec_list_entry(l: ListLeaderboard, b: Leaderboard, s: Seq<RankedMember>, uid: i32) -> bool {
    let top = spec_first(s, b.id, None);
    let me = spec_first(s, b.id, Some(uid));
    &&& l.name@ == b.name@
    &&& l.member_count == spec_count(s, b.id) as i32
    &&& spec_shown(s[top], l.top_member)
    &&& l.my_position == (spec_count(s.take(me), b.id) + 1) as i32
    &&& spec_shown(s[me], l.me)
}

/// Whether user `uid` is among the ranked members of leaderboard `lid`.
pub open spec fn spec_ranked_member(s: Seq<RankedMember>, lid: i32, uid: i32) -> bool {
    exists|k: int| 0 <= k < s.len() && #[trigger] s[k].leaderboard_id == lid && s[k].user_id == uid
}

fn shown(m: &RankedMember) -> (p: PrivateLeaderboardMember)
    ensures
        spec_shown(*m, p),
{
    PrivateLeaderboardMember {
        id: m.user_id,
        username: m.username.clone(),
        admin: m.admin,
        time_coded: m.coding_time as i32,
    }
}

fn list_entry(uid: i32, b: &Leaderboard, members: &Vec<RankedMember>) -> (l: ListLeaderboard)
    requires
        spec_ranked_member(members@, b.id, uid),
    ensures
        spec_list_entry(l, *b, members@, uid),
{
    let ghost s = members@;
    let n = members.len();
    let mut count: usize = 0;
    let mut top: Option<usize> = None;
    let mut me: Option<usize> = None;
    let mut before_me: usize = 0;
    let mut i: usize = 0;
    while i < n
        invariant
            n == s.len(),
            s == members@,
            i <= n,
            count == spec_count(s.take(i as int), b.id),
            count <= i,
            top matches Some(t) ==> t == spec_first(s.take(i as int), b.id, None),
            top is None ==> spec_first(s.take(i as int), b.id, None) == -1,
            me matches Some(t) ==> t == spec_first(s.take(i as int), b.id, Some(uid))
                && before_me == spec_count(s.take(t as int), b.id),
            me is None ==> spec_first(s.take(i as int), b.id, Some(uid)) == -1,
        decreases n - i,
    {
        let m = &members[i];
        proof {
            assert(s.take(i + 1).drop_last() =~= s.take(i as int));
            assert(s.take(i + 1).last() == s[i as int]);
        }
        if m.leaderboard_id == b.id {
            if top.is_none() {
                top = Some(i);
            }
            if me.is_none() && m.user_id == uid {
                me = Some(i);
                before_me = count;
            }
            count = count + 1;
        }
        i = i + 1;
    }
    proof {
        assert(s.take(n as int) =~= s);
        let k = choose|k: int| 0 <= k < s.len() && #[trigger] s[k].leaderboard_id == b.id && s[k].user_id == uid;
        lemma_first_found(s, b.id, Some(uid), k);
        lemma_first_found(s, b.id, None, k);
    }
    let t = top.unwrap();
    let mi = me.unwrap();
    proof {
        lemma_count_bounds(s.take(mi as int), b.id);
    }
    ListLeaderboard {
        name: b.name.clone(),
        member_count: count as i32,
        top_member: shown(&members[t]),
        my_position: (before_me + 1) as i32,
        me: shown(&members[mi]),
    }
}

/// The `/users/@me/leaderboards` listing: for each of user `uid`'s boards,
/// its entry computed from the members ranked in descending order of
/// coding time. Every board must list the user among its members.
pub fn list_leaderboards(uid: i32, boards: &Vec<Leaderboard>, members: &Vec<RankedMember>) -> (r: Vec<ListLeaderboard>)
    requires
        forall|j: int| 0 <= j < boards.len() ==> spec_ranked_member(members@, (#[trigger] boards@[j]).id, uid),
    ensures
        r.len() == boards.len(),
        forall|j: int| 0 <= j < r.len() ==> spec_list_entry(#[trigger] r@[j], boards@[j], members@, uid),
{
    let mut r: Vec<ListLeaderboard> = Vec::new();
    let mut j: usize = 0;
    while j < boards.len()
        invariant
            j <= boards.len(),
            forall|x: int| 0 <= x < boards.len() ==> spec_ranked_member(members@, (#[trigger] boards@[x]).id, uid),
            r.len() == j,
            forall|x: int| 0 <= x < j ==> spec_list_entry(#[trigger] r@[x], boards@[x], members@, uid),
        decreases boards.len() - j,
    {
        let b = &boards[j];
        let l = list_entry(uid, b, members);
        r.push(l);
        j = j + 1;
    }
    r
}

/// The standings of a leaderboard: each member, in order, with their
/// coding time since `since`.
pub fn leaderboard_standings(members: Vec<(LeaderboardMember, UserIdentity)>, activities: &Vec<CodingActivity>, since: i128) -> (r: Vec<PrivateLeaderboardMember>)
    requires
        forall|i: int| 0 <= i < members.len() ==> spec_running_sums_fit(activities@, user_since_filter((#[trigger] members@[i]).1.id, Some(since))),
    ensures
        r.len() == members.len(),
        forall|i: int| 0 <= i < r.len() ==> {
            let (m, u) = #[trigger] members@[i];
            &&& r@[i].id == u.id
            &&& r@[i].username == u.username
            &&& r@[i].admin == m.admin
            &&& r@[i].time_coded == spec_sum(activities@, user_since_filter(u.id, Some(since)))
        },
{
    let mut r: Vec<PrivateLeaderboardMember> = Vec::new();
    let mut rest = members;
    let ghost orig = rest@;
    let n = rest.len();
    let mut i: usize = 0;
    while i < n
        invariant
            n == orig.len(),
            i <= n,
            rest@ == orig.subrange(i as int, n as int),
            forall|k: int| 0 <= k < n ==> spec_running_sums_fit(activities@, user_since_filter((#[trigger] orig[k]).1.id, Some(since))),
            r.len() == i,
            forall|k: int| 0 <= k < i ==> {
                let (m, u) = #[trigger] orig[k];
                &&& r@[k].id == u.id
                &&& r@[k].username == u.username
                &&& r@[k].admin == m.admin
                &&& r@[k].time_coded == spec_sum(activities@, user_since_filter(u.id, Some(since)))
            },
        decreases n - i,
    {
        let (m, u) = rest.remove(0);
        assert((m, u) == orig[i as int]);
        let time_coded = user_time_since(activities, u.id, Some(since));
        r.push(PrivateLeaderboardMember { id: u.id, username: u.username, admin: m.admin, time_coded });
        i = i + 1;
    }
    r
}

/// The `/leaderboards/{name}` result: the board with its standings since `since`.
pub fn private_leaderboard(board: Leaderboard, members: Vec<(LeaderboardMember, UserIdentity)>, activities: &Vec<CodingActivity>, since: i128) -> (r: PrivateLeaderboard)
    requires
        forall|i: int| 0 <= i < members.len() ==> spec_running_sums_fit(activities@, user_since_filter((#[trigger] members@[i]).1.id, Some(since))),
    ensures
        r.name == board.name,
        r.invite == board.invite_code,
        r.creation_time == board.creation_time,
        r.members.len() == members.len(),
        forall|i: int| 0 <= i < r.members.len() ==> {
            let (m, u) = #[trigger] members@[i];
            &&& r.members@[i].id == u.id
            &&& r.members@[i].username == u.username
            &&& r.members@[i].admin == m.admin
            &&& r.members@[i].time_coded == spec_sum(activities@, user_since_filter(u.id, Some(since)))
        },
{
    let standings = leaderboard_standings(members, activities, since);
    PrivateLeaderboard {
        name: board.name,
        invite: board.invite_code,
        creation_time: board.creation_time,
        members: standings,
    }
}

/// The result of joining a leaderboard: its name and member count
/// (converted to `i32` with wrap-around).
pub fn minimal_leaderboard(name: String, member_count: i64) -> (r: MinimalLeaderboard)
    ensures
        r.name == name,
        r.member_count == member_count as i32,
{
    MinimalLeaderboard { name, member_count: member_count as i32 }
}

/// Only members may see a leaderboard.
pub fn require_member(is_member: bool) -> (r: Result<(), TimeError>)
    ensures
        r is Ok <==> is_member,
        r matches Err(e) ==> e == TimeError::Unauthorized,
{
    if is_member {
        Ok(())
    } else {
        Err(TimeError::Unauthorized)
    }
}

/// Only admins may delete a leaderboard, change its members or its invite.
pub fn require_admin(is_admin: bool) -> (r: Result<(), TimeError>)
    ensures
        r is Ok <==> is_admin,
        r matches Err(e) ==> e == TimeError::Unauthorized,
{
    if is_admin {
        Ok(())
    } else {
        Err(TimeError::Unauthorized)
    }
}

/// The last admin of a leaderboard may not leave it.
pub fn check_leave(is_admin: bool, admin_count: i64) -> (r: Result<(), TimeError>)
    ensures
        r is Ok <==> !(is_admin && admin_count == 1),
        r matches Err(e) ==> e == TimeError::LastAdmin,
{
    if is_admin && admin_count == 1 {
        Err(TimeError::LastAdmin)
    } else {
        Ok(())
    }
}

/// Leaving, promoting or demoting changes a membership, or the user was not a member.
pub fn membership_changed(changed: bool) -> (r: Result<(), TimeError>)
    ensures
        r is Ok <==> changed,
        r matches Err(e) ==> e == TimeError::NotMember,
{
    if changed {
        Ok(())
    } else {
        Err(TimeError::NotMember)
    }
}


proof fn lemma_count_prefix(s: Seq<RankedMember>, lid: i32, i: int)
    requires
        0 <= i <= s.len(),
    ensures
        spec_count(s.take(i), lid) <= spec_count(s, lid),
    decreases s.len() - i,
{
    if i < s.len() {
        lemma_count_prefix(s, lid, i + 1);
        assert(s.take(i + 1).drop_last() =~= s.take(i));
    } else {
        assert(s.take(i) =~= s);
    }
}

/// A user's position on a board is between one and the board's member
/// count: the members ranked before the user, plus one.
pub proof fn lemma_position_within_board(l: ListLeaderboard, b: Leaderboard, s: Seq<RankedMember>, uid: i32)
    requires
        s.len() < i32::MAX,
        spec_ranked_member(s, b.id, uid),
        spec_list_entry(l, b, s, uid),
    ensures
        1 <= l.my_position <= l.member_count,
{
    let k = choose|k: int| 0 <= k < s.len() && #[trigger] s[k].leaderboard_id == b.id && s[k].user_id == uid;
    lemma_first_found(s, b.id, Some(uid), k);
    let me = spec_first(s, b.id, Some(uid));
    lemma_count_bounds(s.take(me), b.id);
    lemma_count_bounds(s, b.id);
    lemma_count_prefix(s, b.id, me + 1);
    assert(s.take(me + 1).drop_last() =~= s.take(me));
    assert(s.take(me + 1).last() == s[me]);
}

/// With the members ranked in descending order of coding time, the top
/// member of a board has coded at least as long as the user.
pub proof fn lemma_top_member_leads(s: Seq<RankedMember>, lid: i32, uid: i32)
    requires
        spec_ranked_member(s, lid, uid),
        forall|i: int, j: int| 0 <= i <= j < s.len() ==> s[i].coding_time >= s[j].coding_time,
    ensures
        s[spec_first(s, lid, None)].coding_time >= s[spec_first(s, lid, Some(uid))].coding_time,
{
    let k = choose|k: int| 0 <= k < s.len() && #[trigger] s[k].leaderboard_id == lid && s[k].user_id == uid;
    lemma_first_found(s, lid, Some(uid), k);
    let me = spec_first(s, lid, Some(uid));
    lemma_first_found(s, lid, None, me);
}

} // verus!
