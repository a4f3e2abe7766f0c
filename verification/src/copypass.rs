//! Copy passes: the scope of transfer commands inside a command buffer.

use vstd::prelude::*;
use crate::backend::DeviceCall;
use crate::error::GPUError;

verus! {

/// A copy pass opened on a command buffer. `used` turns true when the pass
/// is ended, and stays so.
#[derive(Debug, PartialEq, Eq)]
pub struct GPUCopypass {
    pub copypass: u64,
    pub used: bool,
}

impl GPUCopypass {
    /// The pass after it was ended.
    pub open spec fn ended(self) -> Self {
        GPUCopypass { used: true, ..self }
    }

    /// The call that ends this pass.
    pub open spec fn end_call(self) -> DeviceCall {
        DeviceCall::EndCopyPass { copypass: self.copypass }
    }

    /// What ending does: an open pass is ended by one call; an ended one
    /// fails, issues nothing and stays as it is.
    pub open spec fn end_step(self) -> (Self, Result<DeviceCall, GPUError>) {
        if self.used {
            (self, Err(GPUError::AlreadyEnded))
        } else {
            (self.ended(), Ok(self.end_call()))
        }
    }

    /// Ends the pass.
    pub fn end(&mut self) -> (r: Result<DeviceCall, GPUError>)
        ensures
            (*final(self), r) == old(self).end_step(),
            old(self).used ==> r == Err::<DeviceCall, GPUError>(GPUError::AlreadyEnded)
                && *final(self) == *old(self),
    {
        if self.used {
            return Err(GPUError::AlreadyEnded);
        }
        self.used = true;
        Ok(DeviceCall::EndCopyPass { copypass: self.copypass })
    }

    /// Ends a pass that is going out of scope, unless it was ended before.
    pub fn finalize(&mut self) -> (call: Option<DeviceCall>)
        ensures
            call == (if old(self).used {
                None
            } else {
                Some(old(self).end_call())
            }),
            *final(self) == old(self).ended(),
    {
        match self.end() {
            Ok(call) => Some(call),
            Err(_) => None,
        }
    }
}

/// A copy pass is ended once: after `end` went through, a second `end`
/// fails with `AlreadyEnded`, issues no call and leaves the pass unchanged.
pub proof fn lemma_copypass_single_use(pass: GPUCopypass)
    requires
        !pass.used,
    ensures
        pass.end_step().1 == Ok::<DeviceCall, GPUError>(pass.end_call()),
        pass.end_step().0.end_step() == (
            pass.end_step().0,
            Err::<DeviceCall, GPUError>(GPUError::AlreadyEnded),
        ),
{
}

} // verus!
