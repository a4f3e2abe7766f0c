//! Command buffers: one recording, one submission.

use vstd::prelude::*;
use crate::backend::{DeviceCall, DeviceReply, Request, Step, StepView, batch1};
use crate::error::GPUError;
use crate::fence::EstFence;

verus! {

/// A command buffer acquired from the device. It is `usable` from its
/// acquisition until it is submitted or cancelled, and never again.
#[derive(Debug, PartialEq, Eq)]
pub struct CommandBuffer {
    pub device: u64,
    pub command_buffer: u64,
    pub usable: bool,
    pub has_swapchain: bool,
}

impl CommandBuffer {
    /// The buffer after its one submission or cancellation.
    pub open spec fn finalized(self) -> Self {
        CommandBuffer { usable: false, ..self }
    }

    /// What a terminal operation does that would issue `call`: on a usable
    /// buffer it issues the call and uses the buffer up; on any other it
    /// fails, issues nothing and leaves the buffer as it is.
    pub open spec fn terminal(self, call: DeviceCall) -> (Self, Result<DeviceCall, GPUError>) {
        if self.usable {
            (self.finalized(), Ok(call))
        } else {
            (self, Err(GPUError::AlreadyUsed))
        }
    }

    /// The call that submits this buffer.
    pub open spec fn submit_call(self) -> DeviceCall {
        DeviceCall::SubmitCommandBuffer { command_buffer: self.command_buffer }
    }

    /// The call that cancels this buffer.
    pub open spec fn cancel_call(self) -> DeviceCall {
        DeviceCall::CancelCommandBuffer { command_buffer: self.command_buffer }
    }

    /// The call that submits this buffer and asks for a fence.
    pub open spec fn fence_call(self) -> DeviceCall {
        DeviceCall::SubmitCommandBufferAndAcquireFence { command_buffer: self.command_buffer }
    }

    /// Hands the recorded work to the device queue.
    pub fn submit(&mut self) -> (r: Result<DeviceCall, GPUError>)
        ensures
            (*final(self), r) == old(self).terminal(old(self).submit_call()),
            !old(self).usable ==> r == Err::<DeviceCall, GPUError>(GPUError::AlreadyUsed)
                && *final(self) == *old(self),
    {
        if !self.usable {
            return Err(GPUError::AlreadyUsed);
        }
        self.usable = false;
        Ok(DeviceCall::SubmitCommandBuffer { command_buffer: self.command_buffer })
    }

    /// Discards the recorded work.
    pub fn cancel(&mut self) -> (r: Result<DeviceCall, GPUError>)
        ensures
            (*final(self), r) == old(self).terminal(old(self).cancel_call()),
            !old(self).usable ==> r == Err::<DeviceCall, GPUError>(GPUError::AlreadyUsed)
                && *final(self) == *old(self),
    {
        if !self.usable {
            return Err(GPUError::AlreadyUsed);
        }
        self.usable = false;
        Ok(DeviceCall::CancelCommandBuffer { command_buffer: self.command_buffer })
    }

    /// One transition of submitting with a fence, and the buffer after it.
    ///
    /// A used buffer fails at once. A usable one sends the submission, and
    /// on the reply either stays usable and fails with `SubmitFailed` (the
    /// backend gave no fence) or is used up and yields the fence.
    pub open spec fn submit_and_acquire_fence_step(
        self,
        state: Request,
        reply: DeviceReply,
    ) -> (Self, StepView<Request, EstFence>) {
        if !self.usable {
            (self, StepView::refuse(GPUError::AlreadyUsed))
        } else {
            match state {
                Request::Start => (
                    self,
                    StepView::Await { state: Request::Sent, calls: seq![self.fence_call()] },
                ),
                Request::Sent => if reply.spec_handle() == 0 {
                    (self, StepView::refuse(GPUError::SubmitFailed))
                } else {
                    (
                        self.finalized(),
                        StepView::done(EstFence { fence: reply.spec_handle(), device: self.device }),
                    )
                },
            }
        }
    }

    /// Submits the recorded work and acquires a fence that is signalled
    /// when the device has finished it.
    pub fn submit_and_acquire_fence(&mut self, state: Request, reply: DeviceReply) -> (step: Step<
        Request,
        EstFence,
    >)
        ensures
            (*final(self), step@) == old(self).submit_and_acquire_fence_step(state, reply),
            !old(self).usable ==> step@ == StepView::<Request, EstFence>::refuse(
                GPUError::AlreadyUsed,
            ) && *final(self) == *old(self),
    {
        if !self.usable {
            return Step::refuse(GPUError::AlreadyUsed);
        }
        match state {
            Request::Start => Step::Await {
                state: Request::Sent,
                calls: batch1(
                    DeviceCall::SubmitCommandBufferAndAcquireFence {
                        command_buffer: self.command_buffer,
                    },
                ),
            },
            Request::Sent => {
                let fence: u64 = reply.handle();
                if fence == 0 {
                    return Step::refuse(GPUError::SubmitFailed);
                }
                self.usable = false;
                Step::done(EstFence { fence, device: self.device })
            },
        }
    }

    /// What leaving a buffer behind does: a usable buffer is submitted if
    /// it holds a swapchain image and cancelled if not; a used one is left
    /// alone.
    pub open spec fn finalize_call(self) -> Option<DeviceCall> {
        if !self.usable {
            None
        } else if self.has_swapchain {
            Some(self.submit_call())
        } else {
            Some(self.cancel_call())
        }
    }

    /// Finishes a buffer that is going out of scope. A buffer that holds a
    /// swapchain image must be submitted, or the presentation engine
    /// stalls; any other is cancelled.
    pub fn finalize(&mut self) -> (call: Option<DeviceCall>)
        ensures
            call == old(self).finalize_call(),
            *final(self) == old(self).finalized(),
    {
        if self.usable {
            let r = if self.has_swapchain {
                self.submit()
            } else {
                self.cancel()
            };
            match r {
                Ok(call) => Some(call),
                Err(_) => None,
            }
        } else {
            None
        }
    }
}

/// A command buffer is finalized once: after a terminal operation went
/// through, every further one fails with `AlreadyUsed`, issues no call and
/// leaves the buffer unchanged, and leaving the buffer behind issues none.
pub proof fn lemma_command_buffer_single_use(
    buffer: CommandBuffer,
    first: DeviceCall,
    second: DeviceCall,
    state: Request,
    reply: DeviceReply,
)
    requires
        buffer.usable,
    ensures
        buffer.terminal(first).1 == Ok::<DeviceCall, GPUError>(first),
        buffer.terminal(first).0.terminal(second) == (
            buffer.terminal(first).0,
            Err::<DeviceCall, GPUError>(GPUError::AlreadyUsed),
        ),
        buffer.terminal(first).0.submit_and_acquire_fence_step(state, reply) == (
            buffer.terminal(first).0,
            StepView::<Request, EstFence>::refuse(GPUError::AlreadyUsed),
        ),
        buffer.terminal(first).0.finalize_call() is None,
{
}

/// The same holds after a submission that yielded a fence.
pub proof fn lemma_fenced_buffer_single_use(
    buffer: CommandBuffer,
    reply: DeviceReply,
    second: DeviceCall,
    state: Request,
    later: DeviceReply,
)
    requires
        buffer.usable,
        reply.spec_handle() != 0,
    ensures
        ({
            let used = buffer.submit_and_acquire_fence_step(Request::Sent, reply).0;
            &&& used.terminal(second) == (used, Err::<DeviceCall, GPUError>(GPUError::AlreadyUsed))
            &&& used.submit_and_acquire_fence_step(state, later) == (
                used,
                StepView::<Request, EstFence>::refuse(GPUError::AlreadyUsed),
            )
            &&& used.finalize_call() is None
        }),
{
}

} // verus!
