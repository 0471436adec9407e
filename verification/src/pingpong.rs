use vstd::prelude::*;

use crate::action::ServerAction;
use crate::connservice::{time_ok, ClientPoolManager, PoolView};
use crate::datagram::CommandInfo;

verus! {

/// The pool and the actions after a ping command of `cmd` on stream `stm`: the session
/// is recorded on `stm` (whatever it replaces) and the ping is answered.
pub open spec fn pingpong_outcome(pool: PoolView, cmd: CommandInfo, stm: u64, now: u64) -> (
    PoolView,
    Seq<ServerAction>,
) {
    (
        pool.put_client(cmd.sender, cmd.deviceid, stm, now),
        seq![ServerAction::CommandReply { stream: stm }],
    )
}

/// Handles a ping command received on stream `stm`.
pub fn process_command_pingpong(
    pool: &mut ClientPoolManager,
    reqcmdgram: &CommandInfo,
    stm: u64,
    now: u64,
) -> (actions: Vec<ServerAction>)
    requires
        old(pool).wf(),
        time_ok(now),
    ensures
        final(pool).wf(),
        (final(pool)@, actions@) == pingpong_outcome(old(pool)@, *reqcmdgram, stm, now),
{
    pool.put_client(reqcmdgram.sender, reqcmdgram.deviceid, stm, now);
    let mut actions: Vec<ServerAction> = Vec::new();
    actions.push(ServerAction::CommandReply { stream: stm });
    assert(actions@ =~= seq![ServerAction::CommandReply { stream: stm }]);
    actions
}

} // verus!
