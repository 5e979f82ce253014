//! Role reactions: which role a react grants, and how to bring every
//! member's roles in line with the reacts on the role-reaction messages.
use crate::voting::contains_user;
use vstd::prelude::*;

verus! {

/// A guild member and the roles they hold.
pub struct GuildMember {
    pub user_id: u64,
    pub roles: Vec<u64>,
}

/// A role that a react grants, and who reacted with that react.
pub struct RoleReactors {
    pub role: u64,
    pub reactors: Vec<u64>,
}

/// The roles to give and take from one member.
pub struct MemberRoleChanges {
    pub user_id: u64,
    pub add: Vec<u64>,
    pub remove: Vec<u64>,
}

pub open spec fn entries_view(es: Seq<RoleReactors>) -> Seq<(u64, Seq<u64>)> {
    es.map_values(|e: RoleReactors| (e.role, e.reactors@))
}

/// The roles a member who holds `roles` is to be given: those of the reacts
/// they reacted with that they lack, in order, once per react.
pub open spec fn spec_roles_to_add(roles: Seq<u64>, user: u64, es: Seq<(u64, Seq<u64>)>) -> Seq<
    u64,
>
    decreases es.len(),
{
    if es.len() == 0 {
        Seq::empty()
    } else {
        let rest = spec_roles_to_add(roles, user, es.drop_last());
        let e = es.last();
        if e.1.contains(user) && !roles.contains(e.0) {
            rest.push(e.0)
        } else {
            rest
        }
    }
}

/// The roles a member who holds `roles` is to lose: those of the reacts
/// they did not react with that they hold, in order, once per react.
pub open spec fn spec_roles_to_remove(roles: Seq<u64>, user: u64, es: Seq<(u64, Seq<u64>)>) -> Seq<
    u64,
>
    decreases es.len(),
{
    if es.len() == 0 {
        Seq::empty()
    } else {
        let rest = spec_roles_to_remove(roles, user, es.drop_last());
        let e = es.last();
        if !e.1.contains(user) && roles.contains(e.0) {
            rest.push(e.0)
        } else {
            rest
        }
    }
}

/// The members other than the bot, in order.
pub open spec fn members_but_bot(members: Seq<GuildMember>, bot_id: u64) -> Seq<GuildMember> {
    members.filter(|m: GuildMember| m.user_id != bot_id)
}

fn has_role(roles: &Vec<u64>, role: u64) -> (r: bool)
    ensures
        r == roles@.contains(role),
{
    contains_user(roles, role)
}

/// The roles to give and take from a member holding `roles`.
pub fn member_role_changes(user: u64, roles: &Vec<u64>, entries: &Vec<RoleReactors>) -> (r:
    MemberRoleChanges)
    ensures
        r.user_id == user,
        r.add@ == spec_roles_to_add(roles@, user, entries_view(entries@)),
        r.remove@ == spec_roles_to_remove(roles@, user, entries_view(entries@)),
{
    let mut add: Vec<u64> = Vec::new();
    let mut remove: Vec<u64> = Vec::new();
    let mut i: usize = 0;
    while i < entries.len()
        invariant
            i <= entries@.len(),
            add@ == spec_roles_to_add(roles@, user, entries_view(entries@).take(i as int)),
            remove@ == spec_roles_to_remove(roles@, user, entries_view(entries@).take(i as int)),
        decreases entries@.len() - i,
    {
        let reacted = contains_user(&entries[i].reactors, user);
        let holds = has_role(roles, entries[i].role);
        proof {
            let ev = entries_view(entries@);
            assert(ev.take(i + 1).drop_last() == ev.take(i as int));
            assert(ev.take(i + 1).last() == ev[i as int]);
        }
        if reacted && !holds {
            add.push(entries[i].role);
        } else if !reacted && holds {
            remove.push(entries[i].role);
        }
        i = i + 1;
    }
    assert(entries_view(entries@).take(entries@.len() as int) == entries_view(entries@));
    MemberRoleChanges { user_id: user, add, remove }
}

/// The role changes that bring each member but the bot in line with the
/// role reactions, member by member.
pub fn plan_role_sync(bot_id: u64, members: &Vec<GuildMember>, entries: &Vec<RoleReactors>) -> (r:
    Vec<MemberRoleChanges>)
    ensures
        r@.len() == members_but_bot(members@, bot_id).len(),
        forall|k: int|
            0 <= k < r@.len() ==> {
                let m = #[trigger] members_but_bot(members@, bot_id)[k];
                &&& r@[k].user_id == m.user_id
                &&& r@[k].add@ == spec_roles_to_add(m.roles@, m.user_id, entries_view(entries@))
                &&& r@[k].remove@ == spec_roles_to_remove(
                    m.roles@,
                    m.user_id,
                    entries_view(entries@),
                )
            },
        forall|k: int| 0 <= k < r@.len() ==> #[trigger] r@[k].user_id != bot_id,
{
    let mut r: Vec<MemberRoleChanges> = Vec::new();
    let mut i: usize = 0;
    while i < members.len()
        invariant
            i <= members@.len(),
            r@.len() == members_but_bot(members@.take(i as int), bot_id).len(),
            forall|k: int|
                0 <= k < r@.len() ==> {
                    let m = #[trigger] members_but_bot(members@.take(i as int), bot_id)[k];
                    &&& r@[k].user_id == m.user_id
                    &&& r@[k].add@ == spec_roles_to_add(
                        m.roles@,
                        m.user_id,
                        entries_view(entries@),
                    )
                    &&& r@[k].remove@ == spec_roles_to_remove(
                        m.roles@,
                        m.user_id,
                        entries_view(entries@),
                    )
                },
            forall|k: int| 0 <= k < r@.len() ==> #[trigger] r@[k].user_id != bot_id,
        decreases members@.len() - i,
    {
        let ghost prev = members_but_bot(members@.take(i as int), bot_id);
        proof {
            assert(members@.take(i + 1).drop_last() == members@.take(i as int));
            assert(members@.take(i + 1).last() == members@[i as int]);
            reveal_with_fuel(Seq::filter, 1);
        }
        if members[i].user_id != bot_id {
            let c = member_role_changes(members[i].user_id, &members[i].roles, entries);
            r.push(c);
            assert(members_but_bot(members@.take(i + 1), bot_id) == prev.push(members@[i as int]));
        } else {
            assert(members_but_bot(members@.take(i + 1), bot_id) == prev);
        }
        i = i + 1;
    }
    assert(members@.take(members@.len() as int) == members@);
    r
}

/// Whether the bot still has to add its own react: it is not among the
/// react's reactors.
pub fn bot_needs_to_react(reactors: &Vec<u64>, bot_id: u64) -> (r: bool)
    ensures
        r == !reactors@.contains(bot_id),
{
    !contains_user(reactors, bot_id)
}

/// A sync never both gives and takes a role: it gives only roles the member
/// lacks and takes only roles the member holds.
pub proof fn lemma_sync_consistent(roles: Seq<u64>, user: u64, es: Seq<(u64, Seq<u64>)>)
    ensures
        forall|i: int|
            0 <= i < spec_roles_to_add(roles, user, es).len() ==> !roles.contains(
                #[trigger] spec_roles_to_add(roles, user, es)[i],
            ),
        forall|i: int|
            0 <= i < spec_roles_to_remove(roles, user, es).len() ==> roles.contains(
                #[trigger] spec_roles_to_remove(roles, user, es)[i],
            ),
        forall|x: u64|
            !(spec_roles_to_add(roles, user, es).contains(x) && spec_roles_to_remove(
                roles,
                user,
                es,
            ).contains(x)),
    decreases es.len(),
{
    if es.len() > 0 {
        lemma_sync_consistent(roles, user, es.drop_last());
        let a = spec_roles_to_add(roles, user, es);
        let d = spec_roles_to_remove(roles, user, es);
        let a0 = spec_roles_to_add(roles, user, es.drop_last());
        let d0 = spec_roles_to_remove(roles, user, es.drop_last());
        assert forall|i: int| 0 <= i < a.len() implies !roles.contains(#[trigger] a[i]) by {
            if i < a0.len() {
                assert(a[i] == a0[i]);
            }
        }
        assert forall|i: int| 0 <= i < d.len() implies roles.contains(#[trigger] d[i]) by {
            if i < d0.len() {
                assert(d[i] == d0[i]);
            }
        }
        assert forall|x: u64| !(a.contains(x) && d.contains(x)) by {
            if a.contains(x) && d.contains(x) {
                let i = choose|i: int| 0 <= i < a.len() && a[i] == x;
                let j = choose|j: int| 0 <= j < d.len() && d[j] == x;
                assert(!roles.contains(a[i]));
                assert(roles.contains(d[j]));
            }
        }
    }
}

/// The roles a member is given are exactly the roles of the entries whose
/// react they made and whose role they lack, each entry's role in turn; the
/// roles taken away are exactly those of the entries whose react they did
/// not make and whose role they hold.
pub proof fn lemma_role_changes_complete(roles: Seq<u64>, user: u64, es: Seq<(u64, Seq<u64>)>)
    ensures
        forall|i: int|
            0 <= i < es.len() && #[trigger] es[i].1.contains(user) && !roles.contains(es[i].0)
                ==> spec_roles_to_add(roles, user, es).contains(es[i].0),
        forall|i: int|
            0 <= i < es.len() && !(#[trigger] es[i].1.contains(user)) && roles.contains(es[i].0)
                ==> spec_roles_to_remove(roles, user, es).contains(es[i].0),
        forall|x: u64|
            #[trigger] spec_roles_to_add(roles, user, es).contains(x) ==> exists|i: int|
                0 <= i < es.len() && es[i].0 == x && es[i].1.contains(user) && !roles.contains(x),
        forall|x: u64|
            #[trigger] spec_roles_to_remove(roles, user, es).contains(x) ==> exists|i: int|
                0 <= i < es.len() && es[i].0 == x && !es[i].1.contains(user) && roles.contains(x),
        spec_roles_to_add(roles, user, es).len() == es.filter(
            |e: (u64, Seq<u64>)| e.1.contains(user) && !roles.contains(e.0),
        ).len(),
        spec_roles_to_remove(roles, user, es).len() == es.filter(
            |e: (u64, Seq<u64>)| !e.1.contains(user) && roles.contains(e.0),
        ).len(),
    decreases es.len(),
{
    reveal_with_fuel(Seq::filter, 1);
    if es.len() > 0 {
        let d = es.drop_last();
        lemma_role_changes_complete(roles, user, d);
        let a = spec_roles_to_add(roles, user, es);
        let a0 = spec_roles_to_add(roles, user, d);
        let r = spec_roles_to_remove(roles, user, es);
        let r0 = spec_roles_to_remove(roles, user, d);
        let n = es.len() - 1;
        assert forall|i: int|
            0 <= i < es.len() && #[trigger] es[i].1.contains(user) && !roles.contains(es[i].0)
                implies a.contains(es[i].0) by {
            if i < n {
                assert(d[i] == es[i]);
                assert(a0.contains(d[i].0));
                let k = choose|k: int| 0 <= k < a0.len() && a0[k] == d[i].0;
                assert(a[k] == a0[k]);
            } else {
                assert(a[a.len() - 1] == es[i].0);
            }
        }
        assert forall|i: int|
            0 <= i < es.len() && !(#[trigger] es[i].1.contains(user)) && roles.contains(es[i].0)
                implies r.contains(es[i].0) by {
            if i < n {
                assert(d[i] == es[i]);
                assert(r0.contains(d[i].0));
                let k = choose|k: int| 0 <= k < r0.len() && r0[k] == d[i].0;
                assert(r[k] == r0[k]);
            } else {
                assert(r[r.len() - 1] == es[i].0);
            }
        }
        assert forall|x: u64| #[trigger] a.contains(x) implies exists|i: int|
            0 <= i < es.len() && es[i].0 == x && es[i].1.contains(user) && !roles.contains(x) by {
            let k = choose|k: int| 0 <= k < a.len() && a[k] == x;
            if k < a0.len() {
                assert(a0[k] == x);
                assert(a0.contains(x));
                let i = choose|i: int|
                    0 <= i < d.len() && d[i].0 == x && d[i].1.contains(user) && !roles.contains(x);
                assert(es[i] == d[i]);
            } else {
                assert(es[n].0 == x);
            }
        }
        assert forall|x: u64| #[trigger] r.contains(x) implies exists|i: int|
            0 <= i < es.len() && es[i].0 == x && !es[i].1.contains(user) && roles.contains(x) by {
            let k = choose|k: int| 0 <= k < r.len() && r[k] == x;
            if k < r0.len() {
                assert(r0[k] == x);
                assert(r0.contains(x));
                let i = choose|i: int|
                    0 <= i < d.len() && d[i].0 == x && !d[i].1.contains(user) && roles.contains(x);
                assert(es[i] == d[i]);
            } else {
                assert(es[n].0 == x);
            }
        }
    }
}

} // verus!
