use vstd::prelude::*;

use crate::action::ServerAction;
use crate::connservice::{time_ok, ClientPoolManager};
use crate::datagram::MessageInfo;
use crate::recefromclient::{rece_message_from_client, rece_outcome};

verus! {

/// Handles a message datagram received on stream `stm`: it is a message from a client.
pub fn process_message_data(
    pool: &mut ClientPoolManager,
    reqmsggram: &MessageInfo,
    stm: u64,
    now: u64,
) -> (actions: Vec<ServerAction>)
    requires
        old(pool).wf(),
        time_ok(now),
    ensures
        final(pool).wf(),
        (final(pool)@, actions@) == rece_outcome(old(pool)@, *reqmsggram, stm, now),
{
    let (_, actions) = rece_message_from_client(pool, reqmsggram, stm, now);
    actions
}

} // verus!
