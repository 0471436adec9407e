use vstd::prelude::*;

use crate::action::ServerAction;
use crate::client::DeviceConnInfo;
use crate::connservice::{key_of, ClientEntry, ClientPoolManager, PoolView};
use crate::datagram::MessageInfo;
use crate::sendtoclient::{device_listing, enumerates};

verus! {

/// The forwards of a message to every device in the listing `devs` of client
/// `receiver` that has a live session, whatever its state, in the order of `devs`.
pub open spec fn session_forwards(clients: Map<u128, ClientEntry>, receiver: u64, devs: Seq<(u32, DeviceConnInfo)>) -> Seq<
    ServerAction,
>
    decreases devs.len(),
{
    if devs.len() == 0 {
        Seq::empty()
    } else {
        let prev = session_forwards(clients, receiver, devs.drop_last());
        let k = key_of(receiver, devs.last().0);
        if clients.contains_key(k) {
            prev.push(ServerAction::Forward { stream: clients[k].stream })
        } else {
            prev
        }
    }
}

/// Whether `actions` are the direct delivery of a message received on stream `stm`: a
/// receipt without return code to the sender, then one forward to every device of the
/// receiver with a live session, taken in some order of the receiver's devices.
pub open spec fn direct_delivers(pool: PoolView, m: MessageInfo, stm: u64, actions: Seq<ServerAction>) -> bool {
    let receipt = seq![ServerAction::MessageReceipt { stream: stm, returncode: None }];
    match pool.get_device_pool(m.receiver) {
        Some(devs) => exists|e: Seq<(u32, DeviceConnInfo)>|
            enumerates(e, devs) && actions == receipt + #[trigger] session_forwards(pool.clients, m.receiver, e),
        None => actions == receipt,
    }
}

/// Acknowledges a message received on stream `stm` and forwards it to every device of
/// its receiver that has a live session.
pub fn send_message_to_client(pool: &ClientPoolManager, reqmsggram: &MessageInfo, stm: u64) -> (actions: Vec<ServerAction>)
    requires
        pool.wf(),
    ensures
        direct_delivers(pool@, *reqmsggram, stm, actions@),
{
    let receiver = reqmsggram.receiver;
    let mut actions: Vec<ServerAction> = Vec::new();
    actions.push(ServerAction::MessageReceipt { stream: stm, returncode: None });
    let ghost head = actions@;
    match pool.get_device_pool(receiver) {
        Some(devhash) => {
            let listing = device_listing(&devhash);
            let ghost e = listing@;
            let mut i: usize = 0;
            while i < listing.len()
                invariant
                    0 <= i <= listing@.len(),
                    e == listing@,
                    actions@ == head + session_forwards(pool@.clients, receiver, e.take(i as int)),
                decreases listing@.len() - i,
            {
                let (did, _dci) = listing[i];
                assert(e.take(i as int + 1).drop_last() =~= e.take(i as int));
                match pool.get_client(receiver, did) {
                    Some(value) => {
                        actions.push(ServerAction::Forward { stream: value });
                        assert(actions@ =~= head + session_forwards(pool@.clients, receiver, e.take(i as int + 1)));
                    },
                    None => {},
                }
                i = i + 1;
            }
            assert(e.take(e.len() as int) =~= e);
        },
        None => {},
    }
    actions
}

} // verus!
