use vstd::prelude::*;

use crate::datagram::ReturnCode;
use crate::eventqueue::MessageEvent;

verus! {

/// One piece of outside work that a decision of the server asks for. Streams are
/// named by the ids under which the sessions were recorded.
#[derive(Clone, Copy, Debug, PartialEq, Eq)]
pub enum ServerAction {
    /// Write and flush the reply command gram built from the request command gram.
    CommandReply { stream: u64 },
    /// Write and flush the command gram built from the request message gram, with its
    /// return code set when one is given.
    MessageReceipt { stream: u64, returncode: Option<ReturnCode> },
    /// Write and flush the PONG flag.
    Pong { stream: u64 },
    /// Write and flush the request message buffer.
    Forward { stream: u64 },
    /// Send the unrecognised request buffer back as it came.
    Echo { stream: u64 },
    /// Close the stream, then its connection with the given application code.
    Close { stream: u64, code: u32 },
    /// Put the event on the message event queue.
    Enqueue { event: MessageEvent },
    /// Start the message process of a group.
    GroupCreate { group: u64 },
    /// Hand the message at hand to the message process of a group.
    GroupDeliver { group: u64 },
}

} // verus!
