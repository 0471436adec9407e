use vstd::prelude::*;

use crate::action::ServerAction;
use crate::connservice::{time_ok, ClientPoolManager, PoolView};
use crate::datagram::{ClientType, MessageInfo, ReturnCode};
use crate::eventqueue::MessageEvent;

verus! {

/// The queue event of an accepted message, by its receiver type; `None` for a
/// receiver type that has no queue.
pub open spec fn queue_event(m: MessageInfo) -> Option<MessageEvent> {
    match m.receivertype {
        ClientType::ClientPeople => Some(MessageEvent::MessageReceive { reqmsggram: m }),
        ClientType::ClientGroup => Some(MessageEvent::GroupReceive { reqmsggram: m }),
        ClientType::ClientDevice => Some(MessageEvent::DeviceReceive { reqmsggram: m }),
        ClientType::ClientRobot => Some(MessageEvent::RobotReceive { reqmsggram: m }),
        ClientType::ClientService => Some(MessageEvent::ServiceReceive { reqmsggram: m }),
        ClientType::ClientOther => None,
    }
}

/// The receipt of a message on stream `stm` with return code `code`.
pub open spec fn receipt(stm: u64, code: ReturnCode) -> ServerAction {
    ServerAction::MessageReceipt { stream: stm, returncode: Some(code) }
}

/// The pool and the actions after a message from a client on stream `stm`. When the
/// sender's device has a live session on `stm`, the session is extended, the message
/// is acknowledged with `ReturnOk` and queued by its receiver type; when the session is
/// on another stream the receipt says `ReturnTwoSessionNoSame`; without a session it
/// says `ReturnNotLogin`. Rejected messages change nothing.
pub open spec fn rece_outcome(pool: PoolView, m: MessageInfo, stm: u64, now: u64) -> (
    PoolView,
    Seq<ServerAction>,
) {
    match pool.get_client(m.sender, m.deviceid) {
        Some(o) => if o == stm {
            let queued = match queue_event(m) {
                Some(e) => seq![ServerAction::Enqueue { event: e }],
                None => Seq::empty(),
            };
            (
                pool.update_client(m.sender, m.deviceid, now),
                seq![receipt(stm, ReturnCode::ReturnOk)] + queued,
            )
        } else {
            (pool, seq![receipt(stm, ReturnCode::ReturnTwoSessionNoSame)])
        },
        None => (pool, seq![receipt(stm, ReturnCode::ReturnNotLogin)]),
    }
}

/// The receipt telling the sender that it is not logged in.
pub fn send_message_notlogin(stm: u64) -> (action: ServerAction)
    ensures
        action == receipt(stm, ReturnCode::ReturnNotLogin),
{
    ServerAction::MessageReceipt { stream: stm, returncode: Some(ReturnCode::ReturnNotLogin) }
}

/// The receipt telling the sender that its session is on another stream.
pub fn send_message_twosession_nosame(stm: u64) -> (action: ServerAction)
    ensures
        action == receipt(stm, ReturnCode::ReturnTwoSessionNoSame),
{
    ServerAction::MessageReceipt {
        stream: stm,
        returncode: Some(ReturnCode::ReturnTwoSessionNoSame),
    }
}

/// The receipt telling the sender that its message was accepted.
pub fn send_message_receipt(stm: u64) -> (action: ServerAction)
    ensures
        action == receipt(stm, ReturnCode::ReturnOk),
{
    ServerAction::MessageReceipt { stream: stm, returncode: Some(ReturnCode::ReturnOk) }
}

/// The queue event of an accepted message, by its receiver type.
pub fn send_message_to_queue(reqmsggram: &MessageInfo) -> (event: Option<MessageEvent>)
    ensures
        event == queue_event(*reqmsggram),
{
    let m = *reqmsggram;
    match m.receivertype {
        ClientType::ClientPeople => Some(MessageEvent::MessageReceive { reqmsggram: m }),
        ClientType::ClientGroup => Some(MessageEvent::GroupReceive { reqmsggram: m }),
        ClientType::ClientDevice => Some(MessageEvent::DeviceReceive { reqmsggram: m }),
        ClientType::ClientRobot => Some(MessageEvent::RobotReceive { reqmsggram: m }),
        ClientType::ClientService => Some(MessageEvent::ServiceReceive { reqmsggram: m }),
        ClientType::ClientOther => None,
    }
}

/// Handles a message datagram received from a client on stream `stm`; returns the
/// message it was given, and the actions.
pub fn rece_message_from_client(
    pool: &mut ClientPoolManager,
    reqmsggram: &MessageInfo,
    stm: u64,
    now: u64,
) -> (received: (Option<MessageInfo>, Vec<ServerAction>))
    requires
        old(pool).wf(),
        time_ok(now),
    ensures
        final(pool).wf(),
        received.0 == Some(*reqmsggram),
        (final(pool)@, received.1@) == rece_outcome(old(pool)@, *reqmsggram, stm, now),
{
    let ghost pre = pool@;
    let clt: u64 = reqmsggram.sender;
    let dev: u32 = reqmsggram.deviceid;
    let mut actions: Vec<ServerAction> = Vec::new();
    match pool.get_client(clt, dev) {
        Some(ostm) => {
            if ostm == stm {
                pool.update_client(clt, dev, now);
                actions.push(send_message_receipt(stm));
                match send_message_to_queue(reqmsggram) {
                    Some(event) => actions.push(ServerAction::Enqueue { event }),
                    None => {},
                }
            } else {
                actions.push(send_message_twosession_nosame(stm));
            }
        },
        None => {
            actions.push(send_message_notlogin(stm));
        },
    }
    assert(actions@ =~= rece_outcome(pre, *reqmsggram, stm, now).1);
    (Some(*reqmsggram), actions)
}

} // verus!
