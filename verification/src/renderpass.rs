//! Render passes: the scope of draw commands inside a command buffer.

use vstd::prelude::*;
use crate::backend::DeviceCall;
use crate::buffer::GPUBuffer;
use crate::error::GPUError;
use crate::pipeline::GPUGraphicsPipeline;
use crate::texture::GPUTexture;

verus! {

/// The backend's code for indices of 32 bits.
pub const SDL_INDEX_ELEMENT_SIZE_32BIT: i32 = 1;

/// A render pass opened on a command buffer. `used` turns true when the
/// pass is ended, and stays so.
#[derive(Debug, PartialEq, Eq)]
pub struct GPURenderpass {
    pub renderpass: u64,
    pub used: bool,
}

impl GPURenderpass {
    /// The pass after it was ended.
    pub open spec fn ended(self) -> Self {
        GPURenderpass { used: true, ..self }
    }

    /// The call that ends this pass.
    pub open spec fn end_call(self) -> DeviceCall {
        DeviceCall::EndRenderPass { renderpass: self.renderpass }
    }

    /// What ending does: an open pass is ended by one call; an ended one
    /// fails, issues nothing and stays as it is.
    pub open spec fn end_step(self) -> (Self, Result<DeviceCall, GPUError>) {
        if self.used {
            (self, Err(GPUError::AlreadyEnded))
        } else {
            (self.ended(), Ok(self.end_call()))
        }
    }

    /// Ends the pass.
    pub fn end(&mut self) -> (r: Result<DeviceCall, GPUError>)
        ensures
            (*final(self), r) == old(self).end_step(),
            old(self).used ==> r == Err::<DeviceCall, GPUError>(GPUError::AlreadyEnded)
                && *final(self) == *old(self),
    {
        if self.used {
            return Err(GPUError::AlreadyEnded);
        }
        self.used = true;
        Ok(DeviceCall::EndRenderPass { renderpass: self.renderpass })
    }

    /// Ends a pass that is going out of scope, unless it was ended before.
    pub fn finalize(&mut self) -> (call: Option<DeviceCall>)
        ensures
            call == (if old(self).used {
                None
            } else {
                Some(old(self).end_call())
            }),
            *final(self) == old(self).ended(),
    {
        match self.end() {
            Ok(call) => Some(call),
            Err(_) => None,
        }
    }

    /// Draws `index_count` indices, starting at `index_offset` in the bound
    /// index buffer and adding `vertex_offset` to each, as one instance.
    pub fn draw_indexed(&self, index_count: u32, index_offset: u32, vertex_offset: i32) -> (call:
        DeviceCall)
        ensures
            call == (DeviceCall::DrawIndexedPrimitives {
                renderpass: self.renderpass,
                num_indices: index_count,
                num_instances: 1,
                first_index: index_offset,
                vertex_offset,
                first_instance: 0,
            }),
    {
        DeviceCall::DrawIndexedPrimitives {
            renderpass: self.renderpass,
            num_indices: index_count,
            num_instances: 1,
            first_index: index_offset,
            vertex_offset,
            first_instance: 0,
        }
    }

    /// Binds `buffer`, from byte `offset` on, as the vertex buffer of slot 0.
    pub fn bind_vertex_buffer(&self, buffer: &GPUBuffer, offset: u32) -> (call: DeviceCall)
        ensures
            call == (DeviceCall::BindVertexBuffer {
                renderpass: self.renderpass,
                first_slot: 0,
                buffer: buffer.buffer,
                offset,
            }),
    {
        DeviceCall::BindVertexBuffer {
            renderpass: self.renderpass,
            first_slot: 0,
            buffer: buffer.buffer,
            offset,
        }
    }

    /// Binds `buffer`, from byte `offset` on, as the buffer of 32-bit
    /// indices.
    pub fn bind_index_buffer(&self, buffer: &GPUBuffer, offset: u32) -> (call: DeviceCall)
        ensures
            call == (DeviceCall::BindIndexBuffer {
                renderpass: self.renderpass,
                buffer: buffer.buffer,
                offset,
                index_element_size: SDL_INDEX_ELEMENT_SIZE_32BIT,
            }),
    {
        DeviceCall::BindIndexBuffer {
            renderpass: self.renderpass,
            buffer: buffer.buffer,
            offset,
            index_element_size: SDL_INDEX_ELEMENT_SIZE_32BIT,
        }
    }

    /// Binds `pipeline` for the draws that follow.
    pub fn bind_graphics_pipeline(&self, pipeline: &GPUGraphicsPipeline) -> (call: DeviceCall)
        ensures
            call == (DeviceCall::BindGraphicsPipeline {
                renderpass: self.renderpass,
                pipeline: pipeline.pipeline,
            }),
    {
        DeviceCall::BindGraphicsPipeline {
            renderpass: self.renderpass,
            pipeline: pipeline.pipeline,
        }
    }

    /// Binds the texture and its sampler to slot 0 of the fragment stage.
    pub fn bind_fragment_samplers(&self, binding: &GPUTexture) -> (call: DeviceCall)
        ensures
            call == (DeviceCall::BindFragmentSampler {
                renderpass: self.renderpass,
                first_slot: 0,
                texture: binding.texture,
                sampler: binding.sampler,
            }),
    {
        DeviceCall::BindFragmentSampler {
            renderpass: self.renderpass,
            first_slot: 0,
            texture: binding.texture,
            sampler: binding.sampler,
        }
    }

    /// Binds the texture and its sampler to slot 0 of the vertex stage.
    pub fn bind_vertex_samplers(&self, binding: &GPUTexture) -> (call: DeviceCall)
        ensures
            call == (DeviceCall::BindVertexSampler {
                renderpass: self.renderpass,
                first_slot: 0,
                texture: binding.texture,
                sampler: binding.sampler,
            }),
    {
        DeviceCall::BindVertexSampler {
            renderpass: self.renderpass,
            first_slot: 0,
            texture: binding.texture,
            sampler: binding.sampler,
        }
    }

    /// Sets the viewport to the rectangle at `(x, y)` of `width` by
    /// `height`, with depths from zero to the number whose bit pattern is
    /// `depth_bits`.
    pub fn set_viewport(&self, x: i32, y: i32, width: u32, height: u32, depth_bits: u32) -> (call:
        DeviceCall)
        ensures
            call == (DeviceCall::SetViewport {
                renderpass: self.renderpass,
                x,
                y,
                w: width,
                h: height,
                min_depth_bits: 0,
                max_depth_bits: depth_bits,
            }),
    {
        DeviceCall::SetViewport {
            renderpass: self.renderpass,
            x,
            y,
            w: width,
            h: height,
            min_depth_bits: 0,
            max_depth_bits: depth_bits,
        }
    }

    /// The scissor rectangle at `(x, y)` of `width` by `height`, where the
    /// extent fits the backend's signed numbers.
    pub open spec fn scissor_call(self, x: i32, y: i32, width: u32, height: u32) -> DeviceCall {
        DeviceCall::SetScissor {
            renderpass: self.renderpass,
            x,
            y,
            w: width as i32,
            h: height as i32,
        }
    }

    /// Sets the scissor rectangle. An extent beyond the backend's signed
    /// range is refused with `SizeMismatch`.
    pub fn set_scissor(&self, x: i32, y: i32, width: u32, height: u32) -> (r: Result<
        DeviceCall,
        GPUError,
    >)
        ensures
            r == (if width <= i32::MAX && height <= i32::MAX {
                Ok::<DeviceCall, GPUError>(self.scissor_call(x, y, width, height))
            } else {
                Err::<DeviceCall, GPUError>(GPUError::SizeMismatch)
            }),
    {
        if width > 0x7fff_ffff || height > 0x7fff_ffff {
            return Err(GPUError::SizeMismatch);
        }
        Ok(
            DeviceCall::SetScissor {
                renderpass: self.renderpass,
                x,
                y,
                w: width as i32,
                h: height as i32,
            },
        )
    }
}

/// A render pass is ended once: after `end` went through, a second `end`
/// fails with `AlreadyEnded`, issues no call and leaves the pass unchanged.
pub proof fn lemma_renderpass_single_use(pass: GPURenderpass)
    requires
        !pass.used,
    ensures
        pass.end_step().1 == Ok::<DeviceCall, GPUError>(pass.end_call()),
        pass.end_step().0.end_step() == (
            pass.end_step().0,
            Err::<DeviceCall, GPUError>(GPUError::AlreadyEnded),
        ),
{
}

} // verus!
