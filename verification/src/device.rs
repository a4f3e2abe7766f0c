//! The device: factory of every resource, and of command buffers and passes.

use vstd::prelude::*;
use crate::backend::{
    ColorTarget, DeviceCall, DeviceReply, DiagnosedRequest, Request, SamplerInfo, ShaderInfo, Step,
    StepView, TextureInfo, batch1, batch2,
};
use crate::buffer::{
    GPUBuffer, GPUBufferType, GPUTransferBuffer, GPUTransferUsage, TextureWriteState,
    gpu_buffer_type_to_sdl, gpu_transfer_usage_to_sdl, sdl_buffer_usage_flag,
    sdl_transfer_usage_code,
};
use crate::command_buffer::CommandBuffer;
use crate::copypass::GPUCopypass;
use crate::error::{GPUError, Resource};
use crate::math::{ColorBits, Rect};
use crate::pipeline::{GPUGraphicsPipeline, GPUGraphicsPipelineCreateInfo};
use crate::renderpass::GPURenderpass;
use crate::shader::{GPUShader, GPUShaderType, sdl_shader_stage_code};
use crate::texture::{
    ColorLayout, DecodedImage, GPUTexture, GPUTextureAccess, GPUTextureCreateInfo,
    GPUTextureFormat,
};
use crate::texture_utils::{
    gpu_texture_access_to_sdl, gpu_texture_format_to_sdl, is_sdl_texture_format,
    sdl_texture_format_code, sdl_texture_format_of, sdl_texture_usage_flag,
    sdl_to_gpu_texture_format,
};

verus! {

/// A logical connection to the GPU, bound to a window.
#[derive(Debug, PartialEq, Eq)]
pub struct GPUDevice {
    pub window: u64,
    pub device: u64,
}

/// The backend's flag for shaders in SPIR-V.
pub const SDL_SHADER_FORMAT_SPIRV: u32 = 2;

/// The backend's code for clearing a target when a pass begins.
pub const SDL_LOAD_OP_CLEAR: i32 = 1;

/// The backend's code for keeping what a pass has drawn.
pub const SDL_STORE_OP_STORE: i32 = 0;

/// The backend's code for linear filtering, of texels and of mip levels.
pub const SDL_FILTER_LINEAR: i32 = 1;

/// The backend's code for repeating a texture beyond its edge.
pub const SDL_ADDRESS_MODE_REPEAT: i32 = 0;

/// The backend's code for the comparison that never passes.
pub const SDL_COMPARE_OP_NEVER: i32 = 1;

/// The bit pattern of the single-precision number one.
pub const ONE_BITS: u32 = 0x3f80_0000;

/// Where the creation of a device stands.
#[derive(Debug, Clone, Copy, PartialEq, Eq, Structural)]
pub enum DeviceCreation {
    /// Nothing was asked yet.
    Start,
    /// The device was asked for.
    Creating,
    /// The device was refused; the backend was asked why.
    DiagnosingDevice,
    /// The window was asked to be claimed for `device`.
    Claiming { device: u64 },
    /// The claim was refused and the device destroyed; the backend was
    /// asked why.
    DiagnosingClaim,
}

/// Where the acquisition of a swapchain image stands.
#[derive(Debug, Clone, Copy, PartialEq, Eq, Structural)]
pub enum SwapchainState {
    /// Nothing was asked yet.
    Start,
    /// The image was asked for.
    Acquiring,
    /// The request failed; the backend was asked why.
    Diagnosing,
    /// The image `texture` is there; the window was asked for its size.
    Measuring { texture: u64 },
}

/// Where the creation of a texture stands.
#[derive(Debug, PartialEq, Eq)]
pub enum TextureCreation {
    /// Nothing was asked yet.
    Start,
    /// The texture was asked for.
    CreatingTexture,
    /// The texture is there; its staging buffer was asked for.
    CreatingStaging { texture: u64 },
    /// The sampler was asked for.
    CreatingSampler { texture: u64, staging: GPUTransferBuffer },
    /// The initial pixels are on their way through `staging`.
    Uploading { texture: GPUTexture, staging: GPUTransferBuffer, upload: TextureWriteState },
}

/// The sampler that every created texture gets: linear filtering,
/// repeating in all directions, no anisotropy, no comparison.
pub open spec fn default_sampler() -> SamplerInfo {
    SamplerInfo {
        min_filter: SDL_FILTER_LINEAR,
        mag_filter: SDL_FILTER_LINEAR,
        mipmap_mode: SDL_FILTER_LINEAR,
        address_mode_u: SDL_ADDRESS_MODE_REPEAT,
        address_mode_v: SDL_ADDRESS_MODE_REPEAT,
        address_mode_w: SDL_ADDRESS_MODE_REPEAT,
        mip_lod_bias_bits: 0,
        max_anisotropy_bits: ONE_BITS,
        compare_op: SDL_COMPARE_OP_NEVER,
        min_lod_bits: 0,
        max_lod_bits: 0,
        enable_anisotropy: false,
        enable_compare: false,
    }
}

/// The error of `what` that the device refused, without a text.
pub open spec fn refused(what: Resource) -> GPUError {
    GPUError::CreationFailed { what, detail: None }
}

/// The error of `what` that the device refused, with the backend's text
/// where the reply is one.
pub open spec fn diagnosed(what: Resource, reply: DeviceReply) -> GPUError {
    GPUError::CreationFailed { what, detail: reply.spec_text() }
}

/// Whether a texture of `width` by `height` can be created: both fit the
/// signed numbers of a rectangle, and its staging buffer of four bytes a
/// texel fits the backend's sizes.
pub open spec fn texture_extent_fits(width: u32, height: u32) -> bool {
    &&& width <= i32::MAX
    &&& height <= i32::MAX
    &&& width * height * 4 <= u32::MAX
}

/// The command buffer that `device` hands out under `handle`: usable, and
/// without a swapchain image.
pub open spec fn fresh_command_buffer(device: GPUDevice, handle: u64) -> CommandBuffer {
    CommandBuffer { device: device.device, command_buffer: handle, usable: true, has_swapchain: false }
}

/// The error of a command buffer that the device refused, with the
/// backend's text where the reply is one.
pub open spec fn no_command_buffer(reply: DeviceReply) -> GPUError {
    GPUError::CreationFailed { what: Resource::CommandBuffer, detail: reply.spec_text() }
}

/// The error of a copy pass that the device refused.
pub open spec fn no_copypass() -> GPUError {
    GPUError::CreationFailed { what: Resource::CopyPass, detail: None }
}

impl GPUDevice {
    /// The call that asks for a command buffer.
    pub open spec fn acquire_call(self) -> DeviceCall {
        DeviceCall::AcquireCommandBuffer { device: self.device }
    }

    /// The command buffer that the device answered with, if it gave one.
    pub(crate) fn acquired(&self, reply: &DeviceReply) -> (r: Option<CommandBuffer>)
        ensures
            r == (if reply.spec_handle() == 0 {
                None
            } else {
                Some(fresh_command_buffer(*self, reply.spec_handle()))
            }),
    {
        let handle: u64 = reply.handle();
        if handle == 0 {
            None
        } else {
            Some(
                CommandBuffer {
                    device: self.device,
                    command_buffer: handle,
                    usable: true,
                    has_swapchain: false,
                },
            )
        }
    }

    /// The call that asks for a command buffer.
    pub(crate) fn acquire(&self) -> (call: DeviceCall)
        ensures
            call == self.acquire_call(),
    {
        DeviceCall::AcquireCommandBuffer { device: self.device }
    }

    /// The error of a command buffer that the device refused, with the
    /// backend's text where the reply is one.
    pub(crate) fn refused_command_buffer(reply: DeviceReply) -> (e: GPUError)
        ensures
            e == no_command_buffer(reply),
    {
        GPUError::CreationFailed { what: Resource::CommandBuffer, detail: reply.text() }
    }

    /// The copy pass that the device answered with, or the error of a
    /// refused one.
    pub(crate) fn opened_copypass(reply: &DeviceReply) -> (r: Result<GPUCopypass, GPUError>)
        ensures
            r == (if reply.spec_handle() == 0 {
                Err::<GPUCopypass, GPUError>(no_copypass())
            } else {
                Ok::<GPUCopypass, GPUError>(
                    GPUCopypass { copypass: reply.spec_handle(), used: false },
                )
            }),
    {
        let handle: u64 = reply.handle();
        if handle == 0 {
            Err(GPUError::CreationFailed { what: Resource::CopyPass, detail: None })
        } else {
            Ok(GPUCopypass { copypass: handle, used: false })
        }
    }

    /// One transition of acquiring a command buffer: the request, then
    /// either the fresh buffer or, after asking the backend why, the error
    /// with its text.
    pub open spec fn acquire_command_buffer_step(
        self,
        state: DiagnosedRequest,
        reply: DeviceReply,
    ) -> StepView<DiagnosedRequest, CommandBuffer> {
        match state {
            DiagnosedRequest::Start => StepView::Await {
                state: DiagnosedRequest::Sent,
                calls: seq![self.acquire_call()],
            },
            DiagnosedRequest::Sent => if reply.spec_handle() == 0 {
                StepView::Await {
                    state: DiagnosedRequest::Diagnosing,
                    calls: seq![DeviceCall::LastError],
                }
            } else {
                StepView::done(fresh_command_buffer(self, reply.spec_handle()))
            },
            DiagnosedRequest::Diagnosing => StepView::refuse(no_command_buffer(reply)),
        }
    }

    /// Acquires a command buffer: usable, and without a swapchain image.
    pub fn acquire_command_buffer(&self, state: DiagnosedRequest, reply: DeviceReply) -> (step:
        Step<DiagnosedRequest, CommandBuffer>)
        ensures
            step@ == self.acquire_command_buffer_step(state, reply),
    {
        match state {
            DiagnosedRequest::Start => Step::Await {
                state: DiagnosedRequest::Sent,
                calls: batch1(self.acquire()),
            },
            DiagnosedRequest::Sent => match self.acquired(&reply) {
                Some(command_buffer) => Step::done(command_buffer),
                None => Step::Await {
                    state: DiagnosedRequest::Diagnosing,
                    calls: batch1(DeviceCall::LastError),
                },
            },
            DiagnosedRequest::Diagnosing => Step::refuse(Self::refused_command_buffer(reply)),
        }
    }

    /// One transition of opening a copy pass on `command_buffer`.
    pub open spec fn begin_copypass_step(
        self,
        command_buffer: CommandBuffer,
        state: Request,
        reply: DeviceReply,
    ) -> StepView<Request, GPUCopypass> {
        match state {
            Request::Start => StepView::Await {
                state: Request::Sent,
                calls: seq![
                    DeviceCall::BeginCopyPass { command_buffer: command_buffer.command_buffer },
                ],
            },
            Request::Sent => if reply.spec_handle() == 0 {
                StepView::refuse(no_copypass())
            } else {
                StepView::done(GPUCopypass { copypass: reply.spec_handle(), used: false })
            },
        }
    }

    /// Opens a copy pass on `command_buffer`: a pass that has not ended.
    pub fn begin_copypass(
        &self,
        command_buffer: &CommandBuffer,
        state: Request,
        reply: DeviceReply,
    ) -> (step: Step<Request, GPUCopypass>)
        ensures
            step@ == self.begin_copypass_step(*command_buffer, state, reply),
    {
        match state {
            Request::Start => Step::Await {
                state: Request::Sent,
                calls: batch1(
                    DeviceCall::BeginCopyPass { command_buffer: command_buffer.command_buffer },
                ),
            },
            Request::Sent => match Self::opened_copypass(&reply) {
                Ok(pass) => Step::done(pass),
                Err(e) => Step::refuse(e),
            },
        }
    }

    /// One transition of creating a device for `window`.
    ///
    /// It asks for a device that takes SPIR-V shaders, in debug mode, and
    /// claims the window for it. A refused device ends the creation; a
    /// refused claim destroys the device first. Either error carries the
    /// backend's text.
    pub open spec fn new_step(window: u64, state: DeviceCreation, reply: DeviceReply) -> StepView<
        DeviceCreation,
        GPUDevice,
    > {
        match state {
            DeviceCreation::Start => StepView::Await {
                state: DeviceCreation::Creating,
                calls: seq![
                    DeviceCall::CreateDevice {
                        shader_formats: SDL_SHADER_FORMAT_SPIRV,
                        debug_mode: true,
                    },
                ],
            },
            DeviceCreation::Creating => if reply.spec_handle() == 0 {
                StepView::Await {
                    state: DeviceCreation::DiagnosingDevice,
                    calls: seq![DeviceCall::LastError],
                }
            } else {
                StepView::Await {
                    state: DeviceCreation::Claiming { device: reply.spec_handle() },
                    calls: seq![DeviceCall::ClaimWindow { device: reply.spec_handle(), window }],
                }
            },
            DeviceCreation::DiagnosingDevice => StepView::refuse(
                diagnosed(Resource::Device, reply),
            ),
            DeviceCreation::Claiming { device } => if reply.spec_flag() {
                StepView::done(GPUDevice { window, device })
            } else {
                StepView::Await {
                    state: DeviceCreation::DiagnosingClaim,
                    calls: seq![DeviceCall::DestroyDevice { device }, DeviceCall::LastError],
                }
            },
            DeviceCreation::DiagnosingClaim => StepView::refuse(
                diagnosed(Resource::WindowClaim, reply),
            ),
        }
    }

    /// Creates the device and claims `window` for it.
    pub fn new(window: u64, state: DeviceCreation, reply: DeviceReply) -> (step: Step<
        DeviceCreation,
        GPUDevice,
    >)
        ensures
            step@ == Self::new_step(window, state, reply),
    {
        match state {
            DeviceCreation::Start => Step::Await {
                state: DeviceCreation::Creating,
                calls: batch1(
                    DeviceCall::CreateDevice {
                        shader_formats: SDL_SHADER_FORMAT_SPIRV,
                        debug_mode: true,
                    },
                ),
            },
            DeviceCreation::Creating => {
                let device: u64 = reply.handle();
                if device == 0 {
                    Step::Await {
                        state: DeviceCreation::DiagnosingDevice,
                        calls: batch1(DeviceCall::LastError),
                    }
                } else {
                    Step::Await {
                        state: DeviceCreation::Claiming { device },
                        calls: batch1(DeviceCall::ClaimWindow { device, window }),
                    }
                }
            },
            DeviceCreation::DiagnosingDevice => Step::refuse(
                GPUError::CreationFailed { what: Resource::Device, detail: reply.text() },
            ),
            DeviceCreation::Claiming { device } => {
                if reply.flag() {
                    Step::done(GPUDevice { window, device })
                } else {
                    Step::Await {
                        state: DeviceCreation::DiagnosingClaim,
                        calls: batch2(DeviceCall::DestroyDevice { device }, DeviceCall::LastError),
                    }
                }
            },
            DeviceCreation::DiagnosingClaim => Step::refuse(
                GPUError::CreationFailed { what: Resource::WindowClaim, detail: reply.text() },
            ),
        }
    }

    /// Destroys the device.
    pub fn release(self) -> (call: DeviceCall)
        ensures
            call == (DeviceCall::DestroyDevice { device: self.device }),
    {
        DeviceCall::DestroyDevice { device: self.device }
    }

    /// The swapchain image `texture` of a window of `width` by `height`:
    /// a render target that the library does not own.
    pub open spec fn swapchain_texture(self, texture: u64, width: i32, height: i32) -> GPUTexture {
        GPUTexture {
            device: self.device,
            texture,
            sampler: 0,
            should_destroy: false,
            size: Rect { x: 0, y: 0, w: width, h: height },
            format: GPUTextureFormat::R8G8B8A8,
            access: GPUTextureAccess::RenderTarget,
        }
    }

    /// One transition of acquiring the swapchain image for
    /// `command_buffer`, and the command buffer after it.
    ///
    /// A request that fails ends with the backend's text. A request that
    /// goes through without an image ends with `None` and leaves the
    /// command buffer as it is. With an image, the window is asked for its
    /// size, the command buffer is marked as holding a swapchain image,
    /// and the image is the result.
    pub open spec fn acquire_swapchain_step(
        self,
        command_buffer: CommandBuffer,
        state: SwapchainState,
        reply: DeviceReply,
    ) -> (CommandBuffer, StepView<SwapchainState, Option<GPUTexture>>) {
        match state {
            SwapchainState::Start => (
                command_buffer,
                StepView::Await {
                    state: SwapchainState::Acquiring,
                    calls: seq![
                        DeviceCall::AcquireSwapchainTexture {
                            command_buffer: command_buffer.command_buffer,
                            window: self.window,
                        },
                    ],
                },
            ),
            SwapchainState::Acquiring => match reply {
                DeviceReply::Swapchain { acquired: true, texture } => if texture == 0 {
                    (command_buffer, StepView::done(None))
                } else {
                    (
                        command_buffer,
                        StepView::Await {
                            state: SwapchainState::Measuring { texture },
                            calls: seq![DeviceCall::WindowSize { window: self.window }],
                        },
                    )
                },
                _ => (
                    command_buffer,
                    StepView::Await {
                        state: SwapchainState::Diagnosing,
                        calls: seq![DeviceCall::LastError],
                    },
                ),
            },
            SwapchainState::Diagnosing => (
                command_buffer,
                StepView::refuse(diagnosed(Resource::SwapchainTexture, reply)),
            ),
            SwapchainState::Measuring { texture } => (
                CommandBuffer { has_swapchain: true, ..command_buffer },
                StepView::done(
                    Some(
                        match reply {
                            DeviceReply::Extent { width, height } => self.swapchain_texture(
                                texture,
                                width,
                                height,
                            ),
                            _ => self.swapchain_texture(texture, 0, 0),
                        },
                    ),
                ),
            ),
        }
    }

    /// Acquires the image that the window presents next, if one is ready.
    pub fn acquire_swapchain(
        &self,
        command_buffer: &mut CommandBuffer,
        state: SwapchainState,
        reply: DeviceReply,
    ) -> (step: Step<SwapchainState, Option<GPUTexture>>)
        ensures
            (*final(command_buffer), step@) == self.acquire_swapchain_step(
                *old(command_buffer),
                state,
                reply,
            ),
            step@ matches StepView::Finish { result: Ok(Some(texture)), .. }
                ==> !texture.should_destroy && final(command_buffer).has_swapchain,
    {
        match state {
            SwapchainState::Start => Step::Await {
                state: SwapchainState::Acquiring,
                calls: batch1(
                    DeviceCall::AcquireSwapchainTexture {
                        command_buffer: command_buffer.command_buffer,
                        window: self.window,
                    },
                ),
            },
            SwapchainState::Acquiring => match reply {
                DeviceReply::Swapchain { acquired: true, texture } => {
                    if texture == 0 {
                        Step::done(None)
                    } else {
                        Step::Await {
                            state: SwapchainState::Measuring { texture },
                            calls: batch1(DeviceCall::WindowSize { window: self.window }),
                        }
                    }
                },
                _ => Step::Await {
                    state: SwapchainState::Diagnosing,
                    calls: batch1(DeviceCall::LastError),
                },
            },
            SwapchainState::Diagnosing => Step::refuse(
                GPUError::CreationFailed { what: Resource::SwapchainTexture, detail: reply.text() },
            ),
            SwapchainState::Measuring { texture } => {
                let size = match reply {
                    DeviceReply::Extent { width, height } => Rect::new(0, 0, width, height),
                    _ => Rect::new(0, 0, 0, 0),
                };
                command_buffer.has_swapchain = true;
                Step::done(
                    Some(
                        GPUTexture {
                            device: self.device,
                            texture,
                            sampler: 0,
                            should_destroy: false,
                            size,
                            format: GPUTextureFormat::R8G8B8A8,
                            access: GPUTextureAccess::RenderTarget,
                        },
                    ),
                )
            },
        }
    }

    /// One transition of asking for the format of the swapchain's images.
    /// A reply that is no code of a texture format ends with
    /// `UnsupportedFormat`.
    pub open spec fn get_swapchain_format_step(self, state: Request, reply: DeviceReply) -> StepView<
        Request,
        GPUTextureFormat,
    > {
        match state {
            Request::Start => StepView::Await {
                state: Request::Sent,
                calls: seq![
                    DeviceCall::SwapchainTextureFormat { device: self.device, window: self.window },
                ],
            },
            Request::Sent => match reply {
                DeviceReply::Code(code) if is_sdl_texture_format(code as int) => StepView::done(
                    sdl_texture_format_of(code as int),
                ),
                _ => StepView::refuse(GPUError::UnsupportedFormat),
            },
        }
    }

    /// The texture format of the images that the window presents.
    pub fn get_swapchain_format(&self, state: Request, reply: DeviceReply) -> (step: Step<
        Request,
        GPUTextureFormat,
    >)
        ensures
            step@ == self.get_swapchain_format_step(state, reply),
    {
        match state {
            Request::Start => Step::Await {
                state: Request::Sent,
                calls: batch1(
                    DeviceCall::SwapchainTextureFormat { device: self.device, window: self.window },
                ),
            },
            Request::Sent => match reply {
                DeviceReply::Code(code) => {
                    if 1 <= code && code <= 104 {
                        Step::done(sdl_to_gpu_texture_format(code))
                    } else {
                        Step::refuse(GPUError::UnsupportedFormat)
                    }
                },
                _ => Step::refuse(GPUError::UnsupportedFormat),
            },
        }
    }

    /// One transition of opening a render pass on `command_buffer` that
    /// clears `texture` to `color`, keeps what is drawn, and lets the
    /// device cycle the texture.
    pub open spec fn begin_renderpass_step(
        self,
        command_buffer: CommandBuffer,
        color: ColorBits,
        texture: GPUTexture,
        state: Request,
        reply: DeviceReply,
    ) -> StepView<Request, GPURenderpass> {
        match state {
            Request::Start => StepView::Await {
                state: Request::Sent,
                calls: seq![
                    DeviceCall::BeginRenderPass {
                        command_buffer: command_buffer.command_buffer,
                        target: ColorTarget {
                            texture: texture.texture,
                            clear_color: color,
                            load_op: SDL_LOAD_OP_CLEAR,
                            store_op: SDL_STORE_OP_STORE,
                            cycle: true,
                        },
                    },
                ],
            },
            Request::Sent => if reply.spec_handle() == 0 {
                StepView::refuse(refused(Resource::RenderPass))
            } else {
                StepView::done(GPURenderpass { renderpass: reply.spec_handle(), used: false })
            },
        }
    }

    /// Opens a render pass on `command_buffer` with `texture` as its
    /// target: a pass that has not ended.
    pub fn begin_renderpass(
        &self,
        command_buffer: &CommandBuffer,
        color: &ColorBits,
        texture: &GPUTexture,
        state: Request,
        reply: DeviceReply,
    ) -> (step: Step<Request, GPURenderpass>)
        ensures
            step@ == self.begin_renderpass_step(*command_buffer, *color, *texture, state, reply),
    {
        match state {
            Request::Start => Step::Await {
                state: Request::Sent,
                calls: batch1(
                    DeviceCall::BeginRenderPass {
                        command_buffer: command_buffer.command_buffer,
                        target: ColorTarget {
                            texture: texture.texture,
                            clear_color: *color,
                            load_op: SDL_LOAD_OP_CLEAR,
                            store_op: SDL_STORE_OP_STORE,
                            cycle: true,
                        },
                    },
                ),
            },
            Request::Sent => {
                let handle: u64 = reply.handle();
                if handle == 0 {
                    Step::refuse(
                        GPUError::CreationFailed { what: Resource::RenderPass, detail: None },
                    )
                } else {
                    Step::done(GPURenderpass { renderpass: handle, used: false })
                }
            },
        }
    }

    /// One transition of creating a buffer of `size` bytes. A size beyond
    /// the backend's sizes is refused before any call.
    pub open spec fn create_buffer_step(
        self,
        size: usize,
        usage: GPUBufferType,
        state: Request,
        reply: DeviceReply,
    ) -> StepView<Request, GPUBuffer> {
        if size > u32::MAX {
            StepView::refuse(GPUError::SizeMismatch)
        } else {
            match state {
                Request::Start => StepView::Await {
                    state: Request::Sent,
                    calls: seq![
                        DeviceCall::CreateBuffer {
                            device: self.device,
                            usage: sdl_buffer_usage_flag(usage) as u32,
                            size: size as u32,
                        },
                    ],
                },
                Request::Sent => if reply.spec_handle() == 0 {
                    StepView::refuse(refused(Resource::Buffer))
                } else {
                    StepView::done(
                        GPUBuffer {
                            buffer: reply.spec_handle(),
                            device: self.device,
                            size: size as u32,
                        },
                    )
                },
            }
        }
    }

    /// Creates a device buffer of `size` bytes for `usage`.
    pub fn create_buffer(
        &self,
        size: usize,
        usage: GPUBufferType,
        state: Request,
        reply: DeviceReply,
    ) -> (step: Step<Request, GPUBuffer>)
        ensures
            step@ == self.create_buffer_step(size, usage, state, reply),
    {
        if size > 0xffff_ffff {
            return Step::refuse(GPUError::SizeMismatch);
        }
        match state {
            Request::Start => Step::Await {
                state: Request::Sent,
                calls: batch1(
                    DeviceCall::CreateBuffer {
                        device: self.device,
                        usage: gpu_buffer_type_to_sdl(usage),
                        size: size as u32,
                    },
                ),
            },
            Request::Sent => {
                let handle: u64 = reply.handle();
                if handle == 0 {
                    Step::refuse(GPUError::CreationFailed { what: Resource::Buffer, detail: None })
                } else {
                    Step::done(GPUBuffer { buffer: handle, device: self.device, size: size as u32 })
                }
            },
        }
    }

    /// The call that asks for a transfer buffer.
    pub open spec fn transfer_buffer_call(self, size: u32, usage: GPUTransferUsage) -> DeviceCall {
        DeviceCall::CreateTransferBuffer {
            device: self.device,
            usage: sdl_transfer_usage_code(usage) as i32,
            size,
        }
    }

    /// One transition of creating a transfer buffer of `size` bytes. A
    /// size beyond the backend's sizes is refused before any call.
    pub open spec fn create_transfer_buffer_step(
        self,
        size: usize,
        usage: GPUTransferUsage,
        state: Request,
        reply: DeviceReply,
    ) -> StepView<Request, GPUTransferBuffer> {
        if size > u32::MAX {
            StepView::refuse(GPUError::SizeMismatch)
        } else {
            match state {
                Request::Start => StepView::Await {
                    state: Request::Sent,
                    calls: seq![self.transfer_buffer_call(size as u32, usage)],
                },
                Request::Sent => if reply.spec_handle() == 0 {
                    StepView::refuse(refused(Resource::TransferBuffer))
                } else {
                    StepView::done(
                        GPUTransferBuffer {
                            buffer: reply.spec_handle(),
                            device: self.device,
                            usage,
                            size: size as u32,
                        },
                    )
                },
            }
        }
    }

    /// Creates staging memory of `size` bytes for the direction `usage`.
    pub fn create_transfer_buffer(
        &self,
        size: usize,
        usage: GPUTransferUsage,
        state: Request,
        reply: DeviceReply,
    ) -> (step: Step<Request, GPUTransferBuffer>)
        ensures
            step@ == self.create_transfer_buffer_step(size, usage, state, reply),
    {
        if size > 0xffff_ffff {
            return Step::refuse(GPUError::SizeMismatch);
        }
        match state {
            Request::Start => Step::Await {
                state: Request::Sent,
                calls: batch1(self.ask_transfer_buffer(size as u32, usage)),
            },
            Request::Sent => {
                let handle: u64 = reply.handle();
                if handle == 0 {
                    Step::refuse(
                        GPUError::CreationFailed { what: Resource::TransferBuffer, detail: None },
                    )
                } else {
                    Step::done(
                        GPUTransferBuffer {
                            buffer: handle,
                            device: self.device,
                            usage,
                            size: size as u32,
                        },
                    )
                }
            },
        }
    }

    fn ask_transfer_buffer(&self, size: u32, usage: GPUTransferUsage) -> (call: DeviceCall)
        ensures
            call == self.transfer_buffer_call(size, usage),
    {
        DeviceCall::CreateTransferBuffer {
            device: self.device,
            usage: gpu_transfer_usage_to_sdl(usage),
            size,
        }
    }

    /// One transition of creating a shader from SPIR-V byte code whose
    /// entry point is `main`.
    pub open spec fn create_shader_step(
        self,
        shader_type: GPUShaderType,
        source: Seq<u8>,
        num_samplers: u32,
        num_uniform_buffers: u32,
        num_storage_buffers: u32,
        state: Request,
        reply: DeviceReply,
    ) -> StepView<Request, GPUShader> {
        match state {
            Request::Start => StepView::Await {
                state: Request::Sent,
                calls: seq![
                    DeviceCall::CreateShader {
                        device: self.device,
                        info: ShaderInfo {
                            code_size: source.len() as usize,
                            format: SDL_SHADER_FORMAT_SPIRV,
                            stage: sdl_shader_stage_code(shader_type) as i32,
                            num_samplers,
                            num_uniform_buffers,
                            num_storage_buffers,
                        },
                    },
                ],
            },
            Request::Sent => if reply.spec_handle() == 0 {
                StepView::refuse(refused(Resource::Shader))
            } else {
                StepView::done(
                    GPUShader { device: self.device, shader: reply.spec_handle(), shader_type },
                )
            },
        }
    }

    /// Creates a shader of the stage `shader_type` from `source`.
    pub fn create_shader(
        &self,
        shader_type: GPUShaderType,
        source: &[u8],
        num_samplers: u32,
        num_uniform_buffers: u32,
        num_storage_buffers: u32,
        state: Request,
        reply: DeviceReply,
    ) -> (step: Step<Request, GPUShader>)
        ensures
            step@ == self.create_shader_step(
                shader_type,
                source@,
                num_samplers,
                num_uniform_buffers,
                num_storage_buffers,
                state,
                reply,
            ),
    {
        match state {
            Request::Start => Step::Await {
                state: Request::Sent,
                calls: batch1(
                    DeviceCall::CreateShader {
                        device: self.device,
                        info: ShaderInfo {
                            code_size: source.len(),
                            format: SDL_SHADER_FORMAT_SPIRV,
                            stage: match shader_type {
                                GPUShaderType::Vertex => 0,
                                GPUShaderType::Fragment => 1,
                            },
                            num_samplers,
                            num_uniform_buffers,
                            num_storage_buffers,
                        },
                    },
                ),
            },
            Request::Sent => {
                let handle: u64 = reply.handle();
                if handle == 0 {
                    Step::refuse(GPUError::CreationFailed { what: Resource::Shader, detail: None })
                } else {
                    Step::done(GPUShader { device: self.device, shader: handle, shader_type })
                }
            },
        }
    }

    /// Creates the graphics pipeline that `info` describes.
    ///
    /// The start sends the one call that creates the pipeline, with the
    /// description translated to the backend's codes; the reply gives the
    /// pipeline or, where the backend refused, the error.
    pub fn create_graphics_pipeline(
        &self,
        info: &GPUGraphicsPipelineCreateInfo,
        state: Request,
        reply: DeviceReply,
    ) -> (step: Step<Request, GPUGraphicsPipeline>)
        ensures
            state is Start ==> {
                &&& step@ matches StepView::Await { state: next, calls }
                &&& next == Request::Sent
                &&& calls.len() == 1
                &&& calls[0] matches DeviceCall::CreateGraphicsPipeline { device, info: described }
                &&& device == self.device
                &&& info.described_by(described)
            },
            state is Sent ==> step@ == (if reply.spec_handle() == 0 {
                StepView::<Request, GPUGraphicsPipeline>::refuse(
                    refused(Resource::GraphicsPipeline),
                )
            } else {
                StepView::<Request, GPUGraphicsPipeline>::done(
                    GPUGraphicsPipeline { pipeline: reply.spec_handle(), device: self.device },
                )
            }),
    {
        match state {
            Request::Start => Step::Await {
                state: Request::Sent,
                calls: batch1(
                    DeviceCall::CreateGraphicsPipeline {
                        device: self.device,
                        info: info.describe(),
                    },
                ),
            },
            Request::Sent => {
                let handle: u64 = reply.handle();
                if handle == 0 {
                    Step::refuse(
                        GPUError::CreationFailed { what: Resource::GraphicsPipeline, detail: None },
                    )
                } else {
                    Step::done(GPUGraphicsPipeline { pipeline: handle, device: self.device })
                }
            },
        }
    }
}

impl GPUDevice {
    /// The description of a texture of one layer and one mip level.
    pub open spec fn texture_info(
        width: u32,
        height: u32,
        format: GPUTextureFormat,
        access: GPUTextureAccess,
    ) -> TextureInfo {
        TextureInfo {
            format: sdl_texture_format_code(format) as i32,
            usage: sdl_texture_usage_flag(access) as u32,
            width,
            height,
            layer_count_or_depth: 1,
            num_levels: 1,
        }
    }

    /// The texture that the library owns once the device has created
    /// `texture` and `sampler`.
    pub open spec fn owned_texture(
        self,
        texture: u64,
        sampler: u64,
        width: u32,
        height: u32,
        format: GPUTextureFormat,
        access: GPUTextureAccess,
    ) -> GPUTexture {
        GPUTexture {
            device: self.device,
            texture,
            sampler,
            should_destroy: true,
            size: Rect { x: 0, y: 0, w: width as i32, h: height as i32 },
            format,
            access,
        }
    }

    /// The staging buffer of a texture of `width` by `height`: four bytes
    /// a texel, for uploads.
    pub open spec fn staging_buffer(self, handle: u64, width: u32, height: u32) -> GPUTransferBuffer {
        GPUTransferBuffer {
            buffer: handle,
            device: self.device,
            usage: GPUTransferUsage::Upload,
            size: (width * height * 4) as u32,
        }
    }

    /// How the creation goes on while the initial pixels are uploaded: it
    /// waits where the upload waits. Where the upload went through, the
    /// staging buffer is released and the texture is the result. Where it
    /// failed, the sampler, the texture and the staging buffer are
    /// released, each once, and the creation fails.
    pub open spec fn uploading(
        texture: GPUTexture,
        staging: GPUTransferBuffer,
        inner: StepView<TextureWriteState, ()>,
    ) -> StepView<TextureCreation, GPUTexture> {
        match inner {
            StepView::Await { state, calls } => StepView::Await {
                state: TextureCreation::Uploading { texture, staging, upload: state },
                calls,
            },
            StepView::Finish { calls, result: Ok(_) } => StepView::Finish {
                calls: calls + seq![staging.release_call()],
                result: Ok(texture),
            },
            StepView::Finish { calls, result: Err(_) } => StepView::Finish {
                calls: calls + texture.release_calls() + seq![staging.release_call()],
                result: Err(refused(Resource::TextureUpload)),
            },
        }
    }

    /// One transition of creating a texture of `width` by `height` from
    /// the pixels `data`.
    ///
    /// An extent that does not fit is refused before any call. Else the
    /// device creates the texture, an upload buffer of four bytes a texel
    /// and the default sampler, in this order, and the pixels are uploaded
    /// as `GPUTransferBuffer::write_texture` does. Whatever fails, every
    /// object created so far is released before the creation fails.
    pub open spec fn create_texture_step(
        self,
        data: Seq<u8>,
        width: u32,
        height: u32,
        format: GPUTextureFormat,
        access: GPUTextureAccess,
        state: TextureCreation,
        reply: DeviceReply,
    ) -> StepView<TextureCreation, GPUTexture> {
        if !texture_extent_fits(width, height) {
            StepView::refuse(GPUError::SizeMismatch)
        } else {
            match state {
                TextureCreation::Start => StepView::Await {
                    state: TextureCreation::CreatingTexture,
                    calls: seq![
                        DeviceCall::CreateTexture {
                            device: self.device,
                            info: Self::texture_info(width, height, format, access),
                        },
                    ],
                },
                TextureCreation::CreatingTexture => if reply.spec_handle() == 0 {
                    StepView::refuse(refused(Resource::Texture))
                } else {
                    StepView::Await {
                        state: TextureCreation::CreatingStaging { texture: reply.spec_handle() },
                        calls: seq![
                            self.transfer_buffer_call(
                                (width * height * 4) as u32,
                                GPUTransferUsage::Upload,
                            ),
                        ],
                    }
                },
                TextureCreation::CreatingStaging { texture } => if reply.spec_handle() == 0 {
                    StepView::Finish {
                        calls: seq![DeviceCall::ReleaseTexture { device: self.device, texture }],
                        result: Err(refused(Resource::TransferBuffer)),
                    }
                } else {
                    StepView::Await {
                        state: TextureCreation::CreatingSampler {
                            texture,
                            staging: self.staging_buffer(reply.spec_handle(), width, height),
                        },
                        calls: seq![
                            DeviceCall::CreateSampler {
                                device: self.device,
                                info: default_sampler(),
                            },
                        ],
                    }
                },
                TextureCreation::CreatingSampler { texture, staging } => if reply.spec_handle()
                    == 0 {
                    StepView::Finish {
                        calls: seq![
                            DeviceCall::ReleaseTexture { device: self.device, texture },
                            staging.release_call(),
                        ],
                        result: Err(refused(Resource::Sampler)),
                    }
                } else {
                    Self::uploading(
                        self.owned_texture(
                            texture,
                            reply.spec_handle(),
                            width,
                            height,
                            format,
                            access,
                        ),
                        staging,
                        staging.write_texture_step(
                            self,
                            self.owned_texture(
                                texture,
                                reply.spec_handle(),
                                width,
                                height,
                                format,
                                access,
                            ),
                            data,
                            TextureWriteState::Start,
                            DeviceReply::Nothing,
                        ),
                    )
                },
                TextureCreation::Uploading { texture, staging, upload } => Self::uploading(
                    texture,
                    staging,
                    staging.write_texture_step(self, texture, data, upload, reply),
                ),
            }
        }
    }

    /// Decides `texture_extent_fits`, and gives the size of the staging
    /// buffer where it holds.
    fn staging_size(width: u32, height: u32) -> (size: Option<u32>)
        ensures
            size == (if texture_extent_fits(width, height) {
                Some((width * height * 4) as u32)
            } else {
                None
            }),
    {
        if width > 0x7fff_ffff || height > 0x7fff_ffff {
            return None;
        }
        let w: u64 = width as u64;
        let h: u64 = height as u64;
        assert(w * h * 4 <= 0x7fff_ffff * 0x7fff_ffff * 4) by (nonlinear_arith)
            requires
                0 <= w <= 0x7fff_ffff,
                0 <= h <= 0x7fff_ffff,
        ;
        assert(w * h <= w * h * 4) by (nonlinear_arith)
            requires
                0 <= w,
                0 <= h,
        ;
        let total: u64 = w * h * 4;
        if total > 0xffff_ffff {
            None
        } else {
            Some(total as u32)
        }
    }

    /// Goes on with the creation where a transition of the upload ends.
    fn finish_upload(
        texture: GPUTexture,
        staging: GPUTransferBuffer,
        inner: Step<TextureWriteState, ()>,
    ) -> (step: Step<TextureCreation, GPUTexture>)
        ensures
            step@ == Self::uploading(texture, staging, inner@),
    {
        match inner {
            Step::Await { state, calls } => Step::Await {
                state: TextureCreation::Uploading { texture, staging, upload: state },
                calls,
            },
            Step::Finish { calls, result: Ok(_) } => {
                let mut calls = calls;
                let ghost before = calls@;
                calls.push(staging.release());
                assert(calls@ =~= before + seq![staging.release_call()]);
                Step::Finish { calls, result: Ok(texture) }
            },
            Step::Finish { calls, result: Err(_) } => {
                let mut calls = calls;
                let ghost before = calls@;
                let mut releases = texture.release();
                calls.append(&mut releases);
                calls.push(staging.release());
                assert(calls@ =~= before + texture.release_calls() + seq![
                    staging.release_call(),
                ]);
                Step::Finish {
                    calls,
                    result: Err(
                        GPUError::CreationFailed { what: Resource::TextureUpload, detail: None },
                    ),
                }
            },
        }
    }

    /// Runs one transition of the creation of a texture.
    fn create_texture_from(
        &self,
        data: &[u8],
        width: u32,
        height: u32,
        format: GPUTextureFormat,
        access: GPUTextureAccess,
        state: TextureCreation,
        reply: DeviceReply,
    ) -> (step: Step<TextureCreation, GPUTexture>)
        ensures
            step@ == self.create_texture_step(data@, width, height, format, access, state, reply),
    {
        let size: u32 = match Self::staging_size(width, height) {
            Some(size) => size,
            None => {
                return Step::refuse(GPUError::SizeMismatch);
            },
        };
        match state {
            TextureCreation::Start => Step::Await {
                state: TextureCreation::CreatingTexture,
                calls: batch1(
                    DeviceCall::CreateTexture {
                        device: self.device,
                        info: TextureInfo {
                            format: gpu_texture_format_to_sdl(format),
                            usage: gpu_texture_access_to_sdl(access),
                            width,
                            height,
                            layer_count_or_depth: 1,
                            num_levels: 1,
                        },
                    },
                ),
            },
            TextureCreation::CreatingTexture => {
                let texture: u64 = reply.handle();
                if texture == 0 {
                    return Step::refuse(
                        GPUError::CreationFailed { what: Resource::Texture, detail: None },
                    );
                }
                Step::Await {
                    state: TextureCreation::CreatingStaging { texture },
                    calls: batch1(self.ask_transfer_buffer(size, GPUTransferUsage::Upload)),
                }
            },
            TextureCreation::CreatingStaging { texture } => {
                let handle: u64 = reply.handle();
                if handle == 0 {
                    return Step::Finish {
                        calls: batch1(DeviceCall::ReleaseTexture { device: self.device, texture }),
                        result: Err(
                            GPUError::CreationFailed {
                                what: Resource::TransferBuffer,
                                detail: None,
                            },
                        ),
                    };
                }
                let staging = GPUTransferBuffer {
                    buffer: handle,
                    device: self.device,
                    usage: GPUTransferUsage::Upload,
                    size,
                };
                Step::Await {
                    state: TextureCreation::CreatingSampler { texture, staging },
                    calls: batch1(
                        DeviceCall::CreateSampler {
                            device: self.device,
                            info: SamplerInfo {
                                min_filter: SDL_FILTER_LINEAR,
                                mag_filter: SDL_FILTER_LINEAR,
                                mipmap_mode: SDL_FILTER_LINEAR,
                                address_mode_u: SDL_ADDRESS_MODE_REPEAT,
                                address_mode_v: SDL_ADDRESS_MODE_REPEAT,
                                address_mode_w: SDL_ADDRESS_MODE_REPEAT,
                                mip_lod_bias_bits: 0,
                                max_anisotropy_bits: ONE_BITS,
                                compare_op: SDL_COMPARE_OP_NEVER,
                                min_lod_bits: 0,
                                max_lod_bits: 0,
                                enable_anisotropy: false,
                                enable_compare: false,
                            },
                        },
                    ),
                }
            },
            TextureCreation::CreatingSampler { texture, staging } => {
                let sampler: u64 = reply.handle();
                if sampler == 0 {
                    return Step::Finish {
                        calls: batch2(
                            DeviceCall::ReleaseTexture { device: self.device, texture },
                            staging.release(),
                        ),
                        result: Err(
                            GPUError::CreationFailed { what: Resource::Sampler, detail: None },
                        ),
                    };
                }
                let texture = GPUTexture {
                    device: self.device,
                    texture,
                    sampler,
                    should_destroy: true,
                    size: Rect::new(0, 0, width as i32, height as i32),
                    format,
                    access,
                };
                let inner = staging.write_texture(
                    self,
                    &texture,
                    data,
                    TextureWriteState::Start,
                    DeviceReply::Nothing,
                );
                Self::finish_upload(texture, staging, inner)
            },
            TextureCreation::Uploading { texture, staging, upload } => {
                let inner = staging.write_texture(self, &texture, data, upload, reply);
                Self::finish_upload(texture, staging, inner)
            },
        }
    }

    /// Creates the texture that `info` describes, with the default
    /// sampler, and fills it with the pixels of `info`.
    pub fn create_texture(
        &self,
        info: &GPUTextureCreateInfo,
        state: TextureCreation,
        reply: DeviceReply,
    ) -> (step: Step<TextureCreation, GPUTexture>)
        ensures
            step@ == self.create_texture_step(
                info.data@,
                info.width,
                info.height,
                info.format,
                info.access,
                state,
                reply,
            ),
    {
        self.create_texture_from(
            info.data.as_slice(),
            info.width,
            info.height,
            info.format,
            info.access,
            state,
            reply,
        )
    }

    /// Whether a decoded image of this layout becomes a texture: one of
    /// red, green and blue in eight bits each, with or without alpha.
    pub open spec fn layout_supported(layout: ColorLayout) -> bool {
        layout == ColorLayout::Rgb8 || layout == ColorLayout::Rgba8
    }

    /// One transition of creating a texture from a decoded image: the
    /// creation of a sampled texture in the format `R8G8B8A8` from its
    /// pixels, after a start that refuses every other layout than the two
    /// supported ones.
    pub open spec fn create_texture_from_file_step(
        self,
        image: DecodedImage,
        state: TextureCreation,
        reply: DeviceReply,
    ) -> StepView<TextureCreation, GPUTexture> {
        if state is Start && !Self::layout_supported(image.layout) {
            StepView::refuse(GPUError::UnsupportedFormat)
        } else {
            self.create_texture_step(
                image.data@,
                image.width,
                image.height,
                GPUTextureFormat::R8G8B8A8,
                GPUTextureAccess::Sampler,
                state,
                reply,
            )
        }
    }

    /// Creates a sampled texture from the image that was decoded from a
    /// file.
    pub fn create_texture_from_file(
        &self,
        image: &DecodedImage,
        state: TextureCreation,
        reply: DeviceReply,
    ) -> (step: Step<TextureCreation, GPUTexture>)
        ensures
            step@ == self.create_texture_from_file_step(*image, state, reply),
            state is Start && !Self::layout_supported(image.layout) ==> step@ == StepView::<
                TextureCreation,
                GPUTexture,
            >::refuse(GPUError::UnsupportedFormat),
    {
        if let TextureCreation::Start = state {
            match image.layout {
                ColorLayout::Rgb8 | ColorLayout::Rgba8 => {},
                _ => {
                    return Step::refuse(GPUError::UnsupportedFormat);
                },
            }
        }
        self.create_texture_from(
            image.data.as_slice(),
            image.width,
            image.height,
            GPUTextureFormat::R8G8B8A8,
            GPUTextureAccess::Sampler,
            state,
            reply,
        )
    }
}

} // verus!
