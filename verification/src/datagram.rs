use vstd::prelude::*;

verus! {

/// The kind of party a message is addressed to.
#[derive(Clone, Copy, Debug, PartialEq, Eq, Structural)]
pub enum ClientType {
    ClientPeople,
    ClientGroup,
    ClientDevice,
    ClientRobot,
    ClientService,
    /// Any other receiver type; such messages are not queued.
    ClientOther,
}

/// The command that a command datagram carries.
#[derive(Clone, Copy, Debug, PartialEq, Eq, Structural)]
pub enum BitCommand {
    LoginCommand,
    LogoutCommand,
    SendPing,
    /// Any other command; the server ignores it.
    OtherCommand,
}

/// The return code that the server sets in the receipt of a message.
#[derive(Clone, Copy, Debug, PartialEq, Eq, Structural)]
pub enum ReturnCode {
    /// The message was accepted and queued.
    ReturnOk,
    /// The sender has no live session.
    ReturnNotLogin,
    /// The sender's live session is on another stream.
    ReturnTwoSessionNoSame,
}

/// What the server reads of a command datagram.
#[derive(Clone, Copy, Debug, PartialEq, Eq, Structural)]
pub struct CommandInfo {
    pub sender: u64,
    pub deviceid: u32,
    pub command: BitCommand,
}

/// What the server reads of a message datagram.
#[derive(Clone, Copy, Debug, PartialEq, Eq, Structural)]
pub struct MessageInfo {
    pub sender: u64,
    pub deviceid: u32,
    pub receiver: u64,
    pub receivertype: ClientType,
}

/// A received buffer, once recognised.
#[derive(Clone, Copy, Debug, PartialEq, Eq, Structural)]
pub enum InnerDataGram {
    Command(CommandInfo),
    Message(MessageInfo),
    /// The bare ping flag of a keep-alive.
    Pingpong,
}

} // verus!
