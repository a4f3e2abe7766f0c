//! Fences: the host's way to wait for one submission.

use vstd::prelude::*;
use crate::backend::DeviceCall;

verus! {

/// A fence that the device signals when the submission that returned it
/// has completed.
#[derive(Debug, PartialEq, Eq)]
pub struct EstFence {
    pub fence: u64,
    pub device: u64,
}

impl EstFence {
    /// The call that blocks until the device has signalled this fence.
    pub fn wait(&self) -> (call: DeviceCall)
        ensures
            call == (DeviceCall::WaitForFence {
                device: self.device,
                fence: self.fence,
                wait_all: false,
            }),
    {
        DeviceCall::WaitForFence { device: self.device, fence: self.fence, wait_all: false }
    }

    /// Gives the fence back to the device.
    pub fn release(self) -> (call: DeviceCall)
        ensures
            call == (DeviceCall::ReleaseFence { device: self.device, fence: self.fence }),
    {
        DeviceCall::ReleaseFence { device: self.device, fence: self.fence }
    }
}

} // verus!
