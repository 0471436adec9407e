use vstd::prelude::*;

use crate::action::ServerAction;
use crate::connservice::{time_ok, ClientPoolManager, PoolView};
use crate::datagram::{MessageInfo, ReturnCode};
use crate::eventqueue::MessageEvent;
use crate::recefromclient::{
    receipt, send_message_notlogin, send_message_receipt, send_message_twosession_nosame,
};

verus! {

/// The pool and the actions after a message on stream `stm` in the direct-send path:
/// as for a message from a client, except that an accepted message is always queued
/// as a person-to-person message.
pub open spec fn send_outcome(pool: PoolView, m: MessageInfo, stm: u64, now: u64) -> (
    PoolView,
    Seq<ServerAction>,
) {
    match pool.get_client(m.sender, m.deviceid) {
        Some(o) => if o == stm {
            (
                pool.update_client(m.sender, m.deviceid, now),
                seq![
                    receipt(stm, ReturnCode::ReturnOk),
                    ServerAction::Enqueue { event: MessageEvent::MessageReceive { reqmsggram: m } },
                ],
            )
        } else {
            (pool, seq![receipt(stm, ReturnCode::ReturnTwoSessionNoSame)])
        },
        None => (pool, seq![receipt(stm, ReturnCode::ReturnNotLogin)]),
    }
}

/// The person-to-person queue event of an accepted message.
pub fn send_message_to_queue(reqmsggram: &MessageInfo) -> (event: MessageEvent)
    ensures
        event == (MessageEvent::MessageReceive { reqmsggram: *reqmsggram }),
{
    MessageEvent::MessageReceive { reqmsggram: *reqmsggram }
}

/// Handles a message on stream `stm` in the direct-send path; returns the message it
/// was given, and the actions.
pub fn send_message(pool: &mut ClientPoolManager, reqmsggram: &MessageInfo, stm: u64, now: u64) -> (sent: (Option<MessageInfo>, Vec<ServerAction>))
    requires
        old(pool).wf(),
        time_ok(now),
    ensures
        final(pool).wf(),
        sent.0 == Some(*reqmsggram),
        (final(pool)@, sent.1@) == send_outcome(old(pool)@, *reqmsggram, stm, now),
{
    let ghost pre = pool@;
    let clt: u64 = reqmsggram.sender;
    let dev: u32 = reqmsggram.deviceid;
    let mut actions: Vec<ServerAction> = Vec::new();
    match pool.get_client(clt, dev) {
        Some(ostm) => {
            if ostm == stm {
                actions.push(send_message_receipt(stm));
                actions.push(ServerAction::Enqueue { event: send_message_to_queue(reqmsggram) });
                pool.update_client(clt, dev, now);
            } else {
                actions.push(send_message_twosession_nosame(stm));
            }
        },
        None => {
            actions.push(send_message_notlogin(stm));
        },
    }
    assert(actions@ =~= send_outcome(pre, *reqmsggram, stm, now).1);
    (Some(*reqmsggram), actions)
}

} // verus!
