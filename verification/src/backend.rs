//! The vocabulary between the library and the code that drives the device.
//!
//! The library never touches the device. Each operation is a transition
//! function: given where the operation stands and what the device answered
//! last, it says which calls to make next, or how the operation ended. The
//! caller performs the calls in order and comes back with the answer to the
//! last one.

use vstd::prelude::*;
use crate::error::GPUError;
use crate::math::ColorBits;

verus! {

/// A span of bytes inside a device buffer.
#[derive(Debug, Clone, Copy, PartialEq, Eq, Structural)]
pub struct BufferRegion {
    pub buffer: u64,
    pub offset: u32,
    pub size: u32,
}

/// A position inside a transfer buffer.
#[derive(Debug, Clone, Copy, PartialEq, Eq, Structural)]
pub struct TransferLocation {
    pub transfer_buffer: u64,
    pub offset: u32,
}

/// A box of texels inside one mip level and layer of a texture.
#[derive(Debug, Clone, Copy, PartialEq, Eq, Structural)]
pub struct TextureRegion {
    pub texture: u64,
    pub mip_level: u32,
    pub layer: u32,
    pub x: u32,
    pub y: u32,
    pub z: u32,
    pub w: u32,
    pub h: u32,
    pub d: u32,
}

/// Where texels lie inside a transfer buffer, and how they are laid out.
#[derive(Debug, Clone, Copy, PartialEq, Eq, Structural)]
pub struct TextureTransferInfo {
    pub transfer_buffer: u64,
    pub offset: u32,
    pub pixels_per_row: u32,
    pub rows_per_layer: u32,
}

/// The description of a texture to create, in the backend's codes.
#[derive(Debug, Clone, Copy, PartialEq, Eq, Structural)]
pub struct TextureInfo {
    pub format: i32,
    pub usage: u32,
    pub width: u32,
    pub height: u32,
    pub layer_count_or_depth: u32,
    pub num_levels: u32,
}

/// The description of a sampler to create, in the backend's codes. The
/// fields that end in `_bits` are bit patterns of single-precision numbers.
#[derive(Debug, Clone, Copy, PartialEq, Eq, Structural)]
pub struct SamplerInfo {
    pub min_filter: i32,
    pub mag_filter: i32,
    pub mipmap_mode: i32,
    pub address_mode_u: i32,
    pub address_mode_v: i32,
    pub address_mode_w: i32,
    pub mip_lod_bias_bits: u32,
    pub max_anisotropy_bits: u32,
    pub compare_op: i32,
    pub min_lod_bits: u32,
    pub max_lod_bits: u32,
    pub enable_anisotropy: bool,
    pub enable_compare: bool,
}

/// The colour attachment of a render pass.
#[derive(Debug, Clone, Copy, PartialEq, Eq, Structural)]
pub struct ColorTarget {
    pub texture: u64,
    pub clear_color: ColorBits,
    pub load_op: i32,
    pub store_op: i32,
    pub cycle: bool,
}

/// The description of a shader to create. Its byte code is the `source`
/// that the caller handed to `GPUDevice::create_shader`, `code_size` bytes
/// long; its entry point is `main`.
#[derive(Debug, Clone, Copy, PartialEq, Eq, Structural)]
pub struct ShaderInfo {
    pub code_size: usize,
    pub format: u32,
    pub stage: i32,
    pub num_samplers: u32,
    pub num_uniform_buffers: u32,
    pub num_storage_buffers: u32,
}

/// One vertex attribute, in the backend's codes.
#[derive(Debug, Clone, Copy, PartialEq, Eq, Structural)]
pub struct VertexAttributeInfo {
    pub location: u32,
    pub buffer_slot: u32,
    pub format: i32,
    pub offset: u32,
}

/// The blend state of a colour target, in the backend's codes.
#[derive(Debug, Clone, Copy, PartialEq, Eq, Structural)]
pub struct BlendInfo {
    pub enable_blend: bool,
    pub enable_color_write_mask: bool,
    pub color_write_mask: u8,
    pub color_blend_op: i32,
    pub src_color_blendfactor: i32,
    pub dst_color_blendfactor: i32,
    pub alpha_blend_op: i32,
    pub src_alpha_blendfactor: i32,
    pub dst_alpha_blendfactor: i32,
}

/// The description of a graphics pipeline to create, in the backend's
/// codes: one vertex buffer, one colour target.
#[derive(Debug, Clone, PartialEq, Eq)]
pub struct PipelineInfo {
    pub vertex_shader: u64,
    pub fragment_shader: u64,
    pub vertex_attributes: Vec<VertexAttributeInfo>,
    pub vertex_buffer_slot: u32,
    pub vertex_buffer_pitch: u32,
    pub vertex_input_rate: i32,
    pub primitive_type: i32,
    pub target_format: i32,
    pub blend: BlendInfo,
}

/// One call for the device. Handles are the backend's object addresses
/// as integers; zero is the null handle.
#[derive(Debug, Clone, PartialEq, Eq)]
pub enum DeviceCall {
    /// `SDL_CreateGPUDevice`, with no driver name. Answered by a handle.
    CreateDevice { shader_formats: u32, debug_mode: bool },
    /// `SDL_ClaimWindowForGPUDevice`. Answered by a flag.
    ClaimWindow { device: u64, window: u64 },
    /// `SDL_DestroyGPUDevice`.
    DestroyDevice { device: u64 },
    /// `SDL_GetError`. Answered by a text.
    LastError,
    /// `SDL_AcquireGPUCommandBuffer`. Answered by a handle.
    AcquireCommandBuffer { device: u64 },
    /// `SDL_SubmitGPUCommandBuffer`.
    SubmitCommandBuffer { command_buffer: u64 },
    /// `SDL_SubmitGPUCommandBufferAndAcquireFence`. Answered by a handle.
    SubmitCommandBufferAndAcquireFence { command_buffer: u64 },
    /// `SDL_CancelGPUCommandBuffer`.
    CancelCommandBuffer { command_buffer: u64 },
    /// `SDL_AcquireGPUSwapchainTexture`. Answered by a swapchain reply.
    AcquireSwapchainTexture { command_buffer: u64, window: u64 },
    /// `SDL_GetWindowSize`. Answered by an extent.
    WindowSize { window: u64 },
    /// `SDL_GetGPUSwapchainTextureFormat`. Answered by a code.
    SwapchainTextureFormat { device: u64, window: u64 },
    /// `SDL_BeginGPUCopyPass`. Answered by a handle.
    BeginCopyPass { command_buffer: u64 },
    /// `SDL_EndGPUCopyPass`.
    EndCopyPass { copypass: u64 },
    /// `SDL_BeginGPURenderPass` with one colour target and no depth
    /// target. Answered by a handle.
    BeginRenderPass { command_buffer: u64, target: ColorTarget },
    /// `SDL_EndGPURenderPass`.
    EndRenderPass { renderpass: u64 },
    /// `SDL_MapGPUTransferBuffer`. Answered by a handle: the mapping.
    MapTransferBuffer { device: u64, transfer_buffer: u64, cycle: bool },
    /// Copy the first `len` bytes of the data that the caller handed to
    /// the operation to the start of the mapping of `transfer_buffer`.
    StageBytes { transfer_buffer: u64, len: usize },
    /// Copy the first `len` bytes of the mapping of `transfer_buffer` out.
    /// Answered by those bytes.
    FetchBytes { transfer_buffer: u64, len: usize },
    /// `SDL_UnmapGPUTransferBuffer`.
    UnmapTransferBuffer { device: u64, transfer_buffer: u64 },
    /// `SDL_UploadToGPUBuffer`.
    UploadToBuffer {
        copypass: u64,
        source: TransferLocation,
        destination: BufferRegion,
        cycle: bool,
    },
    /// `SDL_DownloadFromGPUBuffer`.
    DownloadFromBuffer { copypass: u64, source: BufferRegion, destination: TransferLocation },
    /// `SDL_UploadToGPUTexture`.
    UploadToTexture {
        copypass: u64,
        source: TextureTransferInfo,
        destination: TextureRegion,
        cycle: bool,
    },
    /// `SDL_DownloadFromGPUTexture`.
    DownloadFromTexture {
        copypass: u64,
        source: TextureRegion,
        destination: TextureTransferInfo,
    },
    /// `SDL_CreateGPUTexture`. Answered by a handle.
    CreateTexture { device: u64, info: TextureInfo },
    /// `SDL_CreateGPUSampler`. Answered by a handle.
    CreateSampler { device: u64, info: SamplerInfo },
    /// `SDL_CreateGPUBuffer`. Answered by a handle.
    CreateBuffer { device: u64, usage: u32, size: u32 },
    /// `SDL_CreateGPUTransferBuffer`. Answered by a handle.
    CreateTransferBuffer { device: u64, usage: i32, size: u32 },
    /// `SDL_CreateGPUShader`. Answered by a handle.
    CreateShader { device: u64, info: ShaderInfo },
    /// `SDL_CreateGPUGraphicsPipeline`. Answered by a handle.
    CreateGraphicsPipeline { device: u64, info: PipelineInfo },
    /// `SDL_ReleaseGPUTexture`.
    ReleaseTexture { device: u64, texture: u64 },
    /// `SDL_ReleaseGPUSampler`.
    ReleaseSampler { device: u64, sampler: u64 },
    /// `SDL_ReleaseGPUBuffer`.
    ReleaseBuffer { device: u64, buffer: u64 },
    /// `SDL_ReleaseGPUTransferBuffer`.
    ReleaseTransferBuffer { device: u64, transfer_buffer: u64 },
    /// `SDL_ReleaseGPUShader`.
    ReleaseShader { device: u64, shader: u64 },
    /// `SDL_ReleaseGPUGraphicsPipeline`.
    ReleaseGraphicsPipeline { device: u64, pipeline: u64 },
    /// `SDL_ReleaseGPUComputePipeline`.
    ReleaseComputePipeline { device: u64, pipeline: u64 },
    /// `SDL_ReleaseGPUFence`.
    ReleaseFence { device: u64, fence: u64 },
    /// `SDL_WaitForGPUFences` on the one fence.
    WaitForFence { device: u64, fence: u64, wait_all: bool },
    /// `SDL_BindGPUVertexBuffers` with one binding.
    BindVertexBuffer { renderpass: u64, first_slot: u32, buffer: u64, offset: u32 },
    /// `SDL_BindGPUIndexBuffer`.
    BindIndexBuffer { renderpass: u64, buffer: u64, offset: u32, index_element_size: i32 },
    /// `SDL_BindGPUGraphicsPipeline`.
    BindGraphicsPipeline { renderpass: u64, pipeline: u64 },
    /// `SDL_BindGPUFragmentSamplers` with one binding.
    BindFragmentSampler { renderpass: u64, first_slot: u32, texture: u64, sampler: u64 },
    /// `SDL_BindGPUVertexSamplers` with one binding.
    BindVertexSampler { renderpass: u64, first_slot: u32, texture: u64, sampler: u64 },
    /// `SDL_SetGPUViewport`. The corner and extent are whole numbers; the
    /// depths are bit patterns of single-precision numbers.
    SetViewport {
        renderpass: u64,
        x: i32,
        y: i32,
        w: u32,
        h: u32,
        min_depth_bits: u32,
        max_depth_bits: u32,
    },
    /// `SDL_SetGPUScissor`.
    SetScissor { renderpass: u64, x: i32, y: i32, w: i32, h: i32 },
    /// `SDL_DrawGPUIndexedPrimitives`.
    DrawIndexedPrimitives {
        renderpass: u64,
        num_indices: u32,
        num_instances: u32,
        first_index: u32,
        vertex_offset: i32,
        first_instance: u32,
    },
}

/// What the device answered to the last call of a batch.
#[derive(Debug, Clone, PartialEq, Eq)]
pub enum DeviceReply {
    /// The call has no answer, or no call was made yet.
    Nothing,
    /// An object handle; zero where the backend refused.
    Handle(u64),
    /// Success or failure.
    Flag(bool),
    /// Whether the swapchain could be asked, and the image it gave: zero
    /// where it has none ready.
    Swapchain { acquired: bool, texture: u64 },
    /// A width and a height.
    Extent { width: i32, height: i32 },
    /// An enumeration code of the backend.
    Code(i32),
    /// Diagnostic text.
    Text(String),
    /// Bytes read from mapped memory.
    Bytes(Vec<u8>),
}

impl DeviceReply {
    /// The handle that the reply carries; a reply of another kind counts
    /// as the null handle.
    pub open spec fn spec_handle(self) -> u64 {
        match self {
            DeviceReply::Handle(h) => h,
            _ => 0,
        }
    }

    /// The flag that the reply carries; a reply of another kind counts as
    /// failure.
    pub open spec fn spec_flag(self) -> bool {
        match self {
            DeviceReply::Flag(b) => b,
            _ => false,
        }
    }

    /// The text that the reply carries, if it is one.
    pub open spec fn spec_text(self) -> Option<String> {
        match self {
            DeviceReply::Text(s) => Some(s),
            _ => None,
        }
    }

    /// The handle that the reply carries; a reply of another kind counts
    /// as the null handle.
    pub fn handle(&self) -> (h: u64)
        ensures
            h == self.spec_handle(),
    {
        match self {
            DeviceReply::Handle(h) => *h,
            _ => 0,
        }
    }

    /// The flag that the reply carries; a reply of another kind counts as
    /// failure.
    pub fn flag(&self) -> (b: bool)
        ensures
            b == self.spec_flag(),
    {
        match self {
            DeviceReply::Flag(b) => *b,
            _ => false,
        }
    }

    /// The text that the reply carries, if it is one.
    pub fn text(self) -> (t: Option<String>)
        ensures
            t == self.spec_text(),
    {
        match self {
            DeviceReply::Text(s) => Some(s),
            _ => None,
        }
    }
}

/// Where an operation of one call stands.
#[derive(Debug, Clone, Copy, PartialEq, Eq, Structural)]
pub enum Request {
    /// Nothing was asked yet.
    Start,
    /// The call is out; its reply comes next.
    Sent,
}

/// Where an operation of one call stands that asks the backend for its
/// diagnostic text when the call is refused.
#[derive(Debug, Clone, Copy, PartialEq, Eq, Structural)]
pub enum DiagnosedRequest {
    /// Nothing was asked yet.
    Start,
    /// The call is out; its reply comes next.
    Sent,
    /// The call was refused; the diagnostic text comes next.
    Diagnosing,
}

/// The outcome of one transition of an operation.
#[derive(Debug, PartialEq, Eq)]
pub enum Step<S, T> {
    /// Perform `calls` in order, then make the next transition from
    /// `state` with the reply to the last of them.
    Await { state: S, calls: Vec<DeviceCall> },
    /// Perform `calls` in order; the operation is over with `result`.
    Finish { calls: Vec<DeviceCall>, result: Result<T, GPUError> },
}

/// A `Step` as a mathematical value: its calls as a sequence.
pub enum StepView<S, T> {
    Await { state: S, calls: Seq<DeviceCall> },
    Finish { calls: Seq<DeviceCall>, result: Result<T, GPUError> },
}

impl<S, T> View for Step<S, T> {
    type V = StepView<S, T>;

    open spec fn view(&self) -> StepView<S, T> {
        match *self {
            Step::Await { state, calls } => StepView::Await { state, calls: calls@ },
            Step::Finish { calls, result } => StepView::Finish { calls: calls@, result },
        }
    }
}

impl<S, T> StepView<S, T> {
    /// A step that ends the operation with `error` and asks nothing of the
    /// device.
    pub open spec fn refuse(error: GPUError) -> Self {
        StepView::Finish { calls: Seq::empty(), result: Err(error) }
    }

    /// A step that ends the operation with `value` and asks nothing of the
    /// device.
    pub open spec fn done(value: T) -> Self {
        StepView::Finish { calls: Seq::empty(), result: Ok(value) }
    }
}

impl<S, T> Step<S, T> {
    /// Ends the operation with `error` without a call.
    pub fn refuse(error: GPUError) -> (step: Self)
        ensures
            step@ == StepView::<S, T>::refuse(error),
    {
        Step::Finish { calls: Vec::new(), result: Err(error) }
    }

    /// Ends the operation with `value` without a call.
    pub fn done(value: T) -> (step: Self)
        ensures
            step@ == StepView::<S, T>::done(value),
    {
        Step::Finish { calls: Vec::new(), result: Ok(value) }
    }
}

/// The batch of one call.
pub(crate) fn batch1(a: DeviceCall) -> (calls: Vec<DeviceCall>)
    ensures
        calls@ == seq![a],
{
    let mut calls: Vec<DeviceCall> = Vec::new();
    calls.push(a);
    assert(calls@ =~= seq![a]);
    calls
}

/// The batch of two calls, in this order.
pub(crate) fn batch2(a: DeviceCall, b: DeviceCall) -> (calls: Vec<DeviceCall>)
    ensures
        calls@ == seq![a, b],
{
    let mut calls: Vec<DeviceCall> = Vec::new();
    calls.push(a);
    calls.push(b);
    assert(calls@ =~= seq![a, b]);
    calls
}

/// The batch of three calls, in this order.
pub(crate) fn batch3(a: DeviceCall, b: DeviceCall, c: DeviceCall) -> (calls: Vec<DeviceCall>)
    ensures
        calls@ == seq![a, b, c],
{
    let mut calls: Vec<DeviceCall> = Vec::new();
    calls.push(a);
    calls.push(b);
    calls.push(c);
    assert(calls@ =~= seq![a, b, c]);
    calls
}

/// The batch of four calls, in this order.
pub(crate) fn batch4(a: DeviceCall, b: DeviceCall, c: DeviceCall, d: DeviceCall) -> (calls: Vec<
    DeviceCall,
>)
    ensures
        calls@ == seq![a, b, c, d],
{
    let mut calls: Vec<DeviceCall> = Vec::new();
    calls.push(a);
    calls.push(b);
    calls.push(c);
    calls.push(d);
    assert(calls@ =~= seq![a, b, c, d]);
    calls
}

/// The call, if there is one, as a batch.
pub open spec fn optional_call(call: Option<DeviceCall>) -> Seq<DeviceCall> {
    match call {
        Some(call) => seq![call],
        None => Seq::empty(),
    }
}

} // verus!
