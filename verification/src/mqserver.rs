use vstd::prelude::*;

use crate::action::ServerAction;
use crate::connservice::{ClientPoolManager, PoolView};
use crate::eventqueue::MessageEvent;
use crate::group::grpmessage::{group_outcome, send_group_message_to_all};
use crate::group::GroupMessageRegistry;
use crate::sendtoclient::{delivers, send_message_to_client};

verus! {

/// Whether `groups_after` and `actions` are what one event taken from the message queue
/// leads to: person-to-person messages go to the receiver's devices, group messages to
/// the group's process, and every other event is dropped.
pub open spec fn event_outcome(
    pool: PoolView,
    groups: Set<u64>,
    event: MessageEvent,
    groups_after: Set<u64>,
    actions: Seq<ServerAction>,
) -> bool {
    match event {
        MessageEvent::MessageReceive { reqmsggram } => groups_after == groups && delivers(
            pool,
            reqmsggram,
            actions,
        ),
        MessageEvent::GroupReceive { reqmsggram } => (groups_after, actions) == group_outcome(
            groups,
            reqmsggram.receiver,
        ),
        _ => groups_after == groups && actions == Seq::<ServerAction>::empty(),
    }
}

/// Handles one event taken from the message queue.
pub fn process_message_event(
    pool: &ClientPoolManager,
    registry: &mut GroupMessageRegistry,
    event: &MessageEvent,
) -> (actions: Vec<ServerAction>)
    ensures
        event_outcome(pool@, old(registry)@, *event, final(registry)@, actions@),
{
    match event {
        MessageEvent::MessageReceive { reqmsggram } => send_message_to_client(pool, reqmsggram),
        MessageEvent::GroupReceive { reqmsggram } => send_group_message_to_all(registry, reqmsggram),
        MessageEvent::ServiceReceive { reqmsggram: _ } => {
            let actions: Vec<ServerAction> = Vec::new();
            assert(actions@ =~= Seq::<ServerAction>::empty());
            actions
        },
        _ => {
            let actions: Vec<ServerAction> = Vec::new();
            assert(actions@ =~= Seq::<ServerAction>::empty());
            actions
        },
    }
}

} // verus!
