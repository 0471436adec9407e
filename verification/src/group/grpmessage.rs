use vstd::prelude::*;

use crate::action::ServerAction;
use crate::connservice::{ClientPoolManager, PoolView};
use crate::datagram::MessageInfo;
use crate::group::GroupMessageRegistry;
use crate::sendtoclient::{deliver_to, delivers_to};

verus! {

/// What becomes of a message to group `g` given the started groups `groups`: the
/// group's process is started first when it does not run yet, and the message is
/// handed to it.
pub open spec fn group_outcome(groups: Set<u64>, g: u64) -> (Set<u64>, Seq<ServerAction>) {
    if groups.contains(g) {
        (groups, seq![ServerAction::GroupDeliver { group: g }])
    } else {
        (
            groups.insert(g),
            seq![ServerAction::GroupCreate { group: g }, ServerAction::GroupDeliver { group: g }],
        )
    }
}

/// Sends a queued group message to the message process of its group, starting that
/// process when the group is seen for the first time.
pub fn send_group_message_to_all(registry: &mut GroupMessageRegistry, reqmsggram: &MessageInfo) -> (actions: Vec<ServerAction>)
    ensures
        (final(registry)@, actions@) == group_outcome(old(registry)@, reqmsggram.receiver),
{
    let group_id = reqmsggram.receiver;
    let mut actions: Vec<ServerAction> = Vec::new();
    if !registry.contains(group_id) {
        actions.push(ServerAction::GroupCreate { group: group_id });
    }
    match registry.get_gmp_by_id(group_id) {
        Some(gmp) => actions.push(ServerAction::GroupDeliver { group: gmp }),
        None => {},
    }
    proof {
        if old(registry)@.contains(group_id) {
            assert(old(registry)@.insert(group_id) =~= old(registry)@);
        }
    }
    assert(actions@ =~= group_outcome(old(registry)@, group_id).1);
    actions
}

/// The action lists `parts`, one after the other.
pub open spec fn joined(parts: Seq<Seq<ServerAction>>) -> Seq<ServerAction>
    decreases parts.len(),
{
    if parts.len() == 0 {
        Seq::empty()
    } else {
        joined(parts.drop_last()) + parts.last()
    }
}

/// Whether `actions` hand a group message to every member of the group: for each member
/// in turn, the forwards to that member's online devices with a live session.
pub open spec fn fans_out(pool: PoolView, members: Seq<u64>, actions: Seq<ServerAction>) -> bool {
    exists|parts: Seq<Seq<ServerAction>>|
        parts.len() == members.len() && (forall|i: int|
            0 <= i < members.len() ==> delivers_to(pool, members[i], #[trigger] parts[i]))
            && actions == #[trigger] joined(parts)
}

/// Sends a message that reached a group's process to every member of the group.
pub fn deliver_to_members(pool: &ClientPoolManager, members: &Vec<u64>) -> (actions: Vec<ServerAction>)
    ensures
        fans_out(pool@, members@, actions@),
{
    let mut actions: Vec<ServerAction> = Vec::new();
    let ghost mut parts: Seq<Seq<ServerAction>> = Seq::empty();
    let mut i: usize = 0;
    while i < members.len()
        invariant
            0 <= i <= members@.len(),
            parts.len() == i,
            forall|j: int| 0 <= j < i ==> delivers_to(pool@, members@[j], #[trigger] parts[j]),
            actions@ == joined(parts),
        decreases members@.len() - i,
    {
        let mut part = deliver_to(pool, members[i]);
        let ghost p = part@;
        let ghost before = parts;
        actions.append(&mut part);
        proof {
            parts = parts.push(p);
            assert(parts.drop_last() =~= before);
            assert forall|j: int| 0 <= j < i + 1 implies delivers_to(pool@, members@[j], #[trigger] parts[j]) by {
                if j < i {
                    assert(parts[j] == before[j]);
                }
            }
        }
        i = i + 1;
    }
    actions
}

} // verus!
