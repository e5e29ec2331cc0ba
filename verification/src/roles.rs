//! Community members and the roles they hold.

use vstd::prelude::*;

verus! {

/// A member of the community, with the roles that the member holds.
#[derive(Clone, Debug, PartialEq, Eq)]
pub struct Member {
    pub user_id: u64,
    pub roles: Vec<u64>,
}

/// Whether `member` holds `role`.
pub open spec fn holds_role(member: Member, role: u64) -> bool {
    member.roles@.contains(role)
}

/// The ids of the members who hold `role`, in the members' order.
pub open spec fn holders(members: Seq<Member>, role: u64) -> Seq<u64>
    decreases members.len(),
{
    if members.len() == 0 {
        Seq::empty()
    } else if holds_role(members.last(), role) {
        holders(members.drop_last(), role).push(members.last().user_id)
    } else {
        holders(members.drop_last(), role)
    }
}

/// `holders` lists a user exactly when some member with that id holds the
/// role.
pub proof fn lemma_holders_exact(members: Seq<Member>, role: u64, user: u64)
    ensures
        holders(members, role).contains(user) <==> exists|i: int|
            0 <= i < members.len() && (#[trigger] members[i]).user_id == user && holds_role(
                members[i],
                role,
            ),
    decreases members.len(),
{
    if members.len() > 0 {
        let rest = members.drop_last();
        let last = members.last();
        lemma_holders_exact(rest, role, user);
        let found = holders(rest, role);
        if holders(members, role).contains(user) {
            if found.contains(user) {
                let i = choose|i: int|
                    0 <= i < rest.len() && (#[trigger] rest[i]).user_id == user && holds_role(
                        rest[i],
                        role,
                    );
                assert(members[i] == rest[i]);
            } else {
                assert(holds_role(last, role));
                let j = choose|j: int|
                    0 <= j < holders(members, role).len() && holders(members, role)[j] == user;
                assert(j == found.len());
                assert(members[members.len() - 1] == last);
            }
        }
        if exists|i: int|
            0 <= i < members.len() && (#[trigger] members[i]).user_id == user && holds_role(
                members[i],
                role,
            ) {
            let i = choose|i: int|
                0 <= i < members.len() && (#[trigger] members[i]).user_id == user && holds_role(
                    members[i],
                    role,
                );
            if i < rest.len() {
                assert(rest[i] == members[i]);
                assert(found.contains(user));
                let j = choose|j: int| 0 <= j < found.len() && found[j] == user;
                if holds_role(last, role) {
                    assert(found.push(last.user_id)[j] == user);
                }
            } else {
                assert(found.push(last.user_id)[found.len() as int] == user);
            }
        }
    }
}

impl Member {
    /// Whether the member holds `role`.
    pub fn has_role(&self, role: u64) -> (yes: bool)
        ensures
            yes == holds_role(*self, role),
    {
        let mut i: usize = 0;
        while i < self.roles.len()
            invariant
                i <= self.roles@.len(),
                forall|j: int| 0 <= j < i ==> self.roles@[j] != role,
            decreases self.roles@.len() - i,
        {
            if self.roles[i] == role {
                return true;
            }
            i += 1;
        }
        false
    }
}

/// The ids of the members who hold `role`, in the members' order.
pub fn select_holders(members: &Vec<Member>, role: u64) -> (ids: Vec<u64>)
    ensures
        ids@ == holders(members@, role),
{
    let mut ids: Vec<u64> = Vec::new();
    let mut i: usize = 0;
    while i < members.len()
        invariant
            i <= members@.len(),
            ids@ == holders(members@.take(i as int), role),
        decreases members@.len() - i,
    {
        assert(members@.take(i + 1).drop_last() == members@.take(i as int));
        assert(members@.take(i + 1).last() == members@[i as int]);
        if members[i].has_role(role) {
            ids.push(members[i].user_id);
        }
        i += 1;
    }
    assert(members@.take(members@.len() as int) == members@);
    ids
}

} // verus!
