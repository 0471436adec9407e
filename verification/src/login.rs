use vstd::prelude::*;

use crate::action::ServerAction;
use crate::connservice::{opt_addr, time_ok, ClientPoolManager, PoolView};
use crate::datagram::CommandInfo;

verus! {

/// Application code with which a session displaced by a new login is closed.
pub const OT_LOGIN_CODE: u32 = 0x000B;

/// The pool and the actions after a login of `cmd` on stream `stm`: the peer address
/// (when known) maps to the sender's device, the session is recorded on `stm` and the
/// device is online; the login is answered, and the stream of the session it displaces
/// is closed when that is another stream.
pub open spec fn login_outcome(
    pool: PoolView,
    cmd: CommandInfo,
    stm: u64,
    address: Option<Seq<char>>,
    now: u64,
) -> (PoolView, Seq<ServerAction>) {
    let with_addr = match address {
        Some(a) => pool.put_addres(a, cmd.sender, cmd.deviceid),
        None => pool,
    };
    let closes = match pool.get_client(cmd.sender, cmd.deviceid) {
        Some(o) => if o != stm {
            seq![ServerAction::Close { stream: o, code: OT_LOGIN_CODE }]
        } else {
            Seq::empty()
        },
        None => Seq::empty(),
    };
    (
        with_addr.put_client(cmd.sender, cmd.deviceid, stm, now),
        seq![ServerAction::CommandReply { stream: stm }] + closes,
    )
}

/// Handles a login command received on stream `stm` from peer `address`.
pub fn process_command_login(
    pool: &mut ClientPoolManager,
    reqcmdgram: &CommandInfo,
    stm: u64,
    address: Option<String>,
    now: u64,
) -> (actions: Vec<ServerAction>)
    requires
        old(pool).wf(),
        time_ok(now),
    ensures
        final(pool).wf(),
        (final(pool)@, actions@) == login_outcome(old(pool)@, *reqcmdgram, stm, opt_addr(address), now),
{
    let ghost pre = pool@;
    let ghost addr = opt_addr(address);
    let mut actions: Vec<ServerAction> = Vec::new();
    actions.push(ServerAction::CommandReply { stream: stm });
    match address {
        Some(a) => {
            pool.put_addres(a, reqcmdgram.sender, reqcmdgram.deviceid);
        },
        None => {},
    }
    let displaced = pool.get_client(reqcmdgram.sender, reqcmdgram.deviceid);
    pool.put_client(reqcmdgram.sender, reqcmdgram.deviceid, stm, now);
    match displaced {
        Some(o) => {
            if o != stm {
                actions.push(ServerAction::Close { stream: o, code: OT_LOGIN_CODE });
            }
        },
        None => {},
    }
    assert(actions@ =~= login_outcome(pre, *reqcmdgram, stm, addr, now).1);
    actions
}

} // verus!
