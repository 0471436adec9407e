use vstd::prelude::*;

use crate::action::ServerAction;
use crate::connservice::{ClientPoolManager, PoolView};
use crate::datagram::CommandInfo;

verus! {

/// Application code with which streams are closed on logout.
pub const LOGOUT_CODE: u32 = 0x0009;

/// The pool and the actions after a logout of `cmd` on stream `stm`: the sender's
/// session is removed and its device is offline; the logout is answered, `stm` is
/// closed, and so is the removed session's stream when it is another one.
pub open spec fn logout_outcome(pool: PoolView, cmd: CommandInfo, stm: u64) -> (
    PoolView,
    Seq<ServerAction>,
) {
    let closes = match pool.get_client(cmd.sender, cmd.deviceid) {
        Some(o) => if o != stm {
            seq![ServerAction::Close { stream: o, code: LOGOUT_CODE }]
        } else {
            Seq::empty()
        },
        None => Seq::empty(),
    };
    (
        pool.remove_client(cmd.sender, cmd.deviceid),
        seq![
            ServerAction::CommandReply { stream: stm },
            ServerAction::Close { stream: stm, code: LOGOUT_CODE },
        ] + closes,
    )
}

/// Handles a logout command received on stream `stm`.
pub fn process_command_logout(pool: &mut ClientPoolManager, reqcmdgram: &CommandInfo, stm: u64) -> (actions: Vec<ServerAction>)
    requires
        old(pool).wf(),
    ensures
        final(pool).wf(),
        (final(pool)@, actions@) == logout_outcome(old(pool)@, *reqcmdgram, stm),
{
    let ghost pre = pool@;
    let mut actions: Vec<ServerAction> = Vec::new();
    actions.push(ServerAction::CommandReply { stream: stm });
    actions.push(ServerAction::Close { stream: stm, code: LOGOUT_CODE });
    let removed = pool.remove_client(reqcmdgram.sender, reqcmdgram.deviceid);
    match removed {
        Some(o) => {
            if o != stm {
                actions.push(ServerAction::Close { stream: o, code: LOGOUT_CODE });
            }
        },
        None => {},
    }
    assert(actions@ =~= logout_outcome(pre, *reqcmdgram, stm).1);
    actions
}

} // verus!
