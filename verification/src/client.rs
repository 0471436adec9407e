use vstd::prelude::*;

verus! {

/// The connection state of one device of a client.
#[derive(Clone, Copy, Debug, PartialEq, Eq, Structural)]
pub enum DeviceConnState {
    /// The device has no live connection.
    StateOffline,
    /// The device is connected and in the foreground.
    StateOnline,
    /// The device is connected but runs in the background.
    StateOnBack,
    /// Any other state a device may report.
    StateOther,
}

/// What the server keeps of one device of a client: its id and its connection state.
#[derive(Clone, Copy, Debug, PartialEq, Eq, Structural)]
pub struct DeviceConnInfo {
    pub deviceid: u32,
    pub device_state: DeviceConnState,
}

impl DeviceConnInfo {
    /// A device record with the given id and state.
    pub fn new(deviceid: u32, device_state: DeviceConnState) -> (info: DeviceConnInfo)
        ensures
            info.deviceid == deviceid,
            info.device_state == device_state,
    {
        DeviceConnInfo { deviceid, device_state }
    }

    /// The connection state of the device.
    pub fn device_state(&self) -> (state: DeviceConnState)
        ensures
            state == self.device_state,
    {
        self.device_state
    }

    /// Changes the connection state of the device; its id stays.
    pub fn set_device_state(&mut self, state: DeviceConnState)
        ensures
            final(self).deviceid == old(self).deviceid,
            final(self).device_state == state,
    {
        self.device_state = state;
    }
}

} // verus!
