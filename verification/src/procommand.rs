use vstd::prelude::*;

use crate::action::ServerAction;
use crate::connservice::{opt_addr, time_ok, ClientPoolManager, PoolView};
use crate::datagram::{BitCommand, CommandInfo};
use crate::login::{login_outcome, process_command_login};
use crate::logout::{logout_outcome, process_command_logout};
use crate::pingpong::{pingpong_outcome, process_command_pingpong};

verus! {

/// The pool and the actions after a command datagram, by its command; any other
/// command changes nothing and asks for nothing.
pub open spec fn command_outcome(
    pool: PoolView,
    cmd: CommandInfo,
    stm: u64,
    address: Option<Seq<char>>,
    now: u64,
) -> (PoolView, Seq<ServerAction>) {
    match cmd.command {
        BitCommand::LoginCommand => login_outcome(pool, cmd, stm, address, now),
        BitCommand::LogoutCommand => logout_outcome(pool, cmd, stm),
        BitCommand::SendPing => pingpong_outcome(pool, cmd, stm, now),
        BitCommand::OtherCommand => (pool, Seq::empty()),
    }
}

/// Handles a command datagram received on stream `stm` from peer `address`.
pub fn process_command_data(
    pool: &mut ClientPoolManager,
    reqcmdgram: &CommandInfo,
    stm: u64,
    address: Option<String>,
    now: u64,
) -> (actions: Vec<ServerAction>)
    requires
        old(pool).wf(),
        time_ok(now),
    ensures
        final(pool).wf(),
        (final(pool)@, actions@) == command_outcome(old(pool)@, *reqcmdgram, stm, opt_addr(address), now),
{
    match reqcmdgram.command {
        BitCommand::LoginCommand => process_command_login(pool, reqcmdgram, stm, address, now),
        BitCommand::LogoutCommand => process_command_logout(pool, reqcmdgram, stm),
        BitCommand::SendPing => process_command_pingpong(pool, reqcmdgram, stm, now),
        BitCommand::OtherCommand => {
            let actions: Vec<ServerAction> = Vec::new();
            assert(actions@ =~= Seq::<ServerAction>::empty());
            actions
        },
    }
}

} // verus!
