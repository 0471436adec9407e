use vstd::prelude::*;

use crate::datagram::MessageInfo;

verus! {

/// Capacity of the message event queue.
pub const EVENT_QUEUE_LEN: usize = 1024;

/// An accepted message on its way to its receiver, by the receiver's type.
#[derive(Clone, Copy, Debug, PartialEq, Eq, Structural)]
pub enum MessageEvent {
    MessageReceive { reqmsggram: MessageInfo },
    GroupReceive { reqmsggram: MessageInfo },
    ServiceReceive { reqmsggram: MessageInfo },
    DeviceReceive { reqmsggram: MessageInfo },
    RobotReceive { reqmsggram: MessageInfo },
}

} // verus!
