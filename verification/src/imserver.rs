use vstd::prelude::*;
use vstd::string::*;

use crate::action::ServerAction;
use crate::connservice::{opt_addr, time_ok, ClientPoolManager, PoolView};
use crate::datagram::{CommandInfo, InnerDataGram, MessageInfo};
use crate::procommand::{command_outcome, process_command_data};
use crate::promessage::process_message_data;
use crate::propingpong::{flag_outcome, process_bitcomm_flag_data};
use crate::recefromclient::rece_outcome;

verus! {

/// The host the server listens on.
pub const BITCOMM_IMSERVER: &'static str = "0.0.0.0";

/// The port the server listens on.
pub const BITCOMM_IMSERVER_PORT: &'static str = "1130";

/// The listening address, `host:port`.
pub fn get_imserver_port() -> (address: String)
    ensures
        address@ == BITCOMM_IMSERVER@ + ":"@ + BITCOMM_IMSERVER_PORT@,
{
    let mut address = String::from_str(BITCOMM_IMSERVER);
    address.append(":");
    address.append(BITCOMM_IMSERVER_PORT);
    address
}

/// What a received buffer is taken for, given what it was recognised as: a keep-alive
/// flag first, then a command, then a message; `None` when it is none of these.
pub open spec fn recognised(is_flag: bool, command: Option<CommandInfo>, message: Option<MessageInfo>) -> Option<
    InnerDataGram,
> {
    if is_flag {
        Some(InnerDataGram::Pingpong)
    } else {
        match command {
            Some(c) => Some(InnerDataGram::Command(c)),
            None => match message {
                Some(m) => Some(InnerDataGram::Message(m)),
                None => None,
            },
        }
    }
}

/// Decides what a received buffer is, from whether it is a keep-alive flag and what it
/// reads as a command gram and as a message gram.
pub fn prepare_data_buffer(
    is_flag: bool,
    command: Option<CommandInfo>,
    message: Option<MessageInfo>,
) -> (data: Option<InnerDataGram>)
    ensures
        data == recognised(is_flag, command, message),
{
    if is_flag {
        return Some(InnerDataGram::Pingpong);
    }
    if let Some(c) = command {
        return Some(InnerDataGram::Command(c));
    }
    if let Some(m) = message {
        return Some(InnerDataGram::Message(m));
    }
    None
}

/// The pool and the actions after a recognised datagram on stream `stm` from peer
/// `address`.
pub open spec fn data_outcome(
    pool: PoolView,
    data: InnerDataGram,
    stm: u64,
    address: Option<Seq<char>>,
    now: u64,
) -> (PoolView, Seq<ServerAction>) {
    match data {
        InnerDataGram::Command(c) => command_outcome(pool, c, stm, address, now),
        InnerDataGram::Message(m) => rece_outcome(pool, m, stm, now),
        InnerDataGram::Pingpong => flag_outcome(pool, stm, address, now),
    }
}

/// Handles a recognised datagram received on stream `stm` from peer `address`;
/// returns the datagram it was given, and the actions.
pub fn process_data(
    pool: &mut ClientPoolManager,
    data: &InnerDataGram,
    stm: u64,
    address: Option<String>,
    now: u64,
) -> (processed: (InnerDataGram, Vec<ServerAction>))
    requires
        old(pool).wf(),
        time_ok(now),
    ensures
        final(pool).wf(),
        processed.0 == *data,
        (final(pool)@, processed.1@) == data_outcome(old(pool)@, *data, stm, opt_addr(address), now),
{
    let actions = match data {
        InnerDataGram::Command(c) => process_command_data(pool, c, stm, address, now),
        InnerDataGram::Message(m) => process_message_data(pool, m, stm, now),
        InnerDataGram::Pingpong => process_bitcomm_flag_data(pool, stm, address, now),
    };
    (*data, actions)
}

/// The pool and the actions after any buffer received on stream `stm`: a recognised
/// datagram is handled, anything else is sent back as it came.
pub open spec fn receive_outcome(
    pool: PoolView,
    data: Option<InnerDataGram>,
    stm: u64,
    address: Option<Seq<char>>,
    now: u64,
) -> (PoolView, Seq<ServerAction>) {
    match data {
        Some(d) => data_outcome(pool, d, stm, address, now),
        None => (pool, seq![ServerAction::Echo { stream: stm }]),
    }
}

/// Handles one buffer received on stream `stm` from peer `address`, once it has been
/// recognised (or not) by [`prepare_data_buffer`].
pub fn process_received(
    pool: &mut ClientPoolManager,
    data: Option<InnerDataGram>,
    stm: u64,
    address: Option<String>,
    now: u64,
) -> (actions: Vec<ServerAction>)
    requires
        old(pool).wf(),
        time_ok(now),
    ensures
        final(pool).wf(),
        (final(pool)@, actions@) == receive_outcome(old(pool)@, data, stm, opt_addr(address), now),
{
    match data {
        Some(d) => {
            let (_, actions) = process_data(pool, &d, stm, address, now);
            actions
        },
        None => {
            let mut actions: Vec<ServerAction> = Vec::new();
            actions.push(ServerAction::Echo { stream: stm });
            assert(actions@ =~= seq![ServerAction::Echo { stream: stm }]);
            actions
        },
    }
}

} // verus!
