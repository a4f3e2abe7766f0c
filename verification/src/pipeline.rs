//! Graphics pipelines and the state they are assembled from.

use vstd::prelude::*;
use crate::backend::{BlendInfo, DeviceCall, PipelineInfo, VertexAttributeInfo};
use crate::shader::GPUShader;
use crate::texture::GPUTextureFormat;
use crate::texture_utils::{gpu_texture_format_to_sdl, sdl_texture_format_code};

verus! {

/// The type of one vertex attribute.
#[derive(Debug, Clone, Copy, PartialEq, Eq, Structural)]
pub enum GPUVertexElement {
    Int,
    Int2,
    Int3,
    Int4,
    Uint,
    Uint2,
    Uint3,
    Uint4,
    Float,
    Float2,
    Float3,
    Float4,
    Byte2,
    Byte4,
    Ubyte2,
    Ubyte4,
    Byte2Norm,
    Byte4Norm,
    Ubyte2Norm,
    Ubyte4Norm,
    Short2,
    Short4,
    Ushort2,
    Ushort4,
    Short2Norm,
    Short4Norm,
    Ushort2Norm,
    Ushort4Norm,
    Half2,
    Half4,
}

/// The backend's code for each vertex element type.
pub open spec fn sdl_vertex_element_code(format: GPUVertexElement) -> int {
    match format {
        GPUVertexElement::Int => 1,
        GPUVertexElement::Int2 => 2,
        GPUVertexElement::Int3 => 3,
        GPUVertexElement::Int4 => 4,
        GPUVertexElement::Uint => 5,
        GPUVertexElement::Uint2 => 6,
        GPUVertexElement::Uint3 => 7,
        GPUVertexElement::Uint4 => 8,
        GPUVertexElement::Float => 9,
        GPUVertexElement::Float2 => 10,
        GPUVertexElement::Float3 => 11,
        GPUVertexElement::Float4 => 12,
        GPUVertexElement::Byte2 => 13,
        GPUVertexElement::Byte4 => 14,
        GPUVertexElement::Ubyte2 => 15,
        GPUVertexElement::Ubyte4 => 16,
        GPUVertexElement::Byte2Norm => 17,
        GPUVertexElement::Byte4Norm => 18,
        GPUVertexElement::Ubyte2Norm => 19,
        GPUVertexElement::Ubyte4Norm => 20,
        GPUVertexElement::Short2 => 21,
        GPUVertexElement::Short4 => 22,
        GPUVertexElement::Ushort2 => 23,
        GPUVertexElement::Ushort4 => 24,
        GPUVertexElement::Short2Norm => 25,
        GPUVertexElement::Short4Norm => 26,
        GPUVertexElement::Ushort2Norm => 27,
        GPUVertexElement::Ushort4Norm => 28,
        GPUVertexElement::Half2 => 29,
        GPUVertexElement::Half4 => 30,
    }
}

/// Translates a vertex element type to the backend's code.
pub fn gpu_vertex_element_to_sdl(format: GPUVertexElement) -> (code: i32)
    ensures
        code == sdl_vertex_element_code(format),
{
    match format {
        GPUVertexElement::Int => 1,
        GPUVertexElement::Int2 => 2,
        GPUVertexElement::Int3 => 3,
        GPUVertexElement::Int4 => 4,
        GPUVertexElement::Uint => 5,
        GPUVertexElement::Uint2 => 6,
        GPUVertexElement::Uint3 => 7,
        GPUVertexElement::Uint4 => 8,
        GPUVertexElement::Float => 9,
        GPUVertexElement::Float2 => 10,
        GPUVertexElement::Float3 => 11,
        GPUVertexElement::Float4 => 12,
        GPUVertexElement::Byte2 => 13,
        GPUVertexElement::Byte4 => 14,
        GPUVertexElement::Ubyte2 => 15,
        GPUVertexElement::Ubyte4 => 16,
        GPUVertexElement::Byte2Norm => 17,
        GPUVertexElement::Byte4Norm => 18,
        GPUVertexElement::Ubyte2Norm => 19,
        GPUVertexElement::Ubyte4Norm => 20,
        GPUVertexElement::Short2 => 21,
        GPUVertexElement::Short4 => 22,
        GPUVertexElement::Ushort2 => 23,
        GPUVertexElement::Ushort4 => 24,
        GPUVertexElement::Short2Norm => 25,
        GPUVertexElement::Short4Norm => 26,
        GPUVertexElement::Ushort2Norm => 27,
        GPUVertexElement::Ushort4Norm => 28,
        GPUVertexElement::Half2 => 29,
        GPUVertexElement::Half4 => 30,
    }
}

/// One attribute of a vertex: where it lies and what it holds.
#[derive(Debug, Clone, Copy, PartialEq, Eq, Structural)]
pub struct GPUVertexAttribute {
    pub location: u32,
    pub buffer_slot: u32,
    pub format: GPUVertexElement,
    pub offset: u32,
}

/// How source and destination are combined.
#[derive(Debug, Clone, Copy, PartialEq, Eq, Structural)]
pub enum GPUColorBlendOp {
    Invalid,
    Add,
    Subtract,
    ReverseSubtract,
    Min,
    Max,
}

/// What source or destination is multiplied by before blending.
#[derive(Debug, Clone, Copy, PartialEq, Eq, Structural)]
pub enum GPUColorBlendFactor {
    Invalid,
    Zero,
    One,
    SrcColor,
    OneMinusSrcColor,
    DstColor,
    OneMinusDstColor,
    SrcAlpha,
    OneMinusSrcAlpha,
    DstAlpha,
    OneMinusDstAlpha,
    ConstantColor,
    OneMinusConstantColor,
    SrcAlphaSaturate,
}

/// The backend's code for each blend factor.
pub open spec fn sdl_blend_factor_code(color_factor: GPUColorBlendFactor) -> int {
    match color_factor {
        GPUColorBlendFactor::Invalid => 0,
        GPUColorBlendFactor::Zero => 1,
        GPUColorBlendFactor::One => 2,
        GPUColorBlendFactor::SrcColor => 3,
        GPUColorBlendFactor::OneMinusSrcColor => 4,
        GPUColorBlendFactor::DstColor => 5,
        GPUColorBlendFactor::OneMinusDstColor => 6,
        GPUColorBlendFactor::SrcAlpha => 7,
        GPUColorBlendFactor::OneMinusSrcAlpha => 8,
        GPUColorBlendFactor::DstAlpha => 9,
        GPUColorBlendFactor::OneMinusDstAlpha => 10,
        GPUColorBlendFactor::ConstantColor => 11,
        GPUColorBlendFactor::OneMinusConstantColor => 12,
        GPUColorBlendFactor::SrcAlphaSaturate => 13,
    }
}

/// Translates a blend factor to the backend's code.
pub fn gpu_color_blend_factor_to_sdl(color_factor: GPUColorBlendFactor) -> (code: i32)
    ensures
        code == sdl_blend_factor_code(color_factor),
{
    match color_factor {
        GPUColorBlendFactor::Invalid => 0,
        GPUColorBlendFactor::Zero => 1,
        GPUColorBlendFactor::One => 2,
        GPUColorBlendFactor::SrcColor => 3,
        GPUColorBlendFactor::OneMinusSrcColor => 4,
        GPUColorBlendFactor::DstColor => 5,
        GPUColorBlendFactor::OneMinusDstColor => 6,
        GPUColorBlendFactor::SrcAlpha => 7,
        GPUColorBlendFactor::OneMinusSrcAlpha => 8,
        GPUColorBlendFactor::DstAlpha => 9,
        GPUColorBlendFactor::OneMinusDstAlpha => 10,
        GPUColorBlendFactor::ConstantColor => 11,
        GPUColorBlendFactor::OneMinusConstantColor => 12,
        GPUColorBlendFactor::SrcAlphaSaturate => 13,
    }
}

/// The backend's code for each blend operation.
pub open spec fn sdl_blend_op_code(color_op: GPUColorBlendOp) -> int {
    match color_op {
        GPUColorBlendOp::Invalid => 0,
        GPUColorBlendOp::Add => 1,
        GPUColorBlendOp::Subtract => 2,
        GPUColorBlendOp::ReverseSubtract => 3,
        GPUColorBlendOp::Min => 4,
        GPUColorBlendOp::Max => 5,
    }
}

/// Translates a blend operation to the backend's code.
pub fn gpu_color_blend_op_to_sdl(color_op: GPUColorBlendOp) -> (code: i32)
    ensures
        code == sdl_blend_op_code(color_op),
{
    match color_op {
        GPUColorBlendOp::Invalid => 0,
        GPUColorBlendOp::Add => 1,
        GPUColorBlendOp::Subtract => 2,
        GPUColorBlendOp::ReverseSubtract => 3,
        GPUColorBlendOp::Min => 4,
        GPUColorBlendOp::Max => 5,
    }
}

/// The colour channels that a pipeline writes: a set over R, G, B and A.
#[derive(Debug, Clone, Copy, PartialEq, Eq, Structural)]
pub struct GPUColorComponent {
    pub r: bool,
    pub g: bool,
    pub b: bool,
    pub a: bool,
}

impl GPUColorComponent {
    /// The set of no channel.
    pub open spec fn spec_none() -> Self {
        GPUColorComponent { r: false, g: false, b: false, a: false }
    }

    /// The channels that are in `self` or in `rhs`.
    pub open spec fn union(self, rhs: Self) -> Self {
        GPUColorComponent {
            r: self.r || rhs.r,
            g: self.g || rhs.g,
            b: self.b || rhs.b,
            a: self.a || rhs.a,
        }
    }

    /// The channels that are in `self` and in `rhs`.
    pub open spec fn intersection(self, rhs: Self) -> Self {
        GPUColorComponent {
            r: self.r && rhs.r,
            g: self.g && rhs.g,
            b: self.b && rhs.b,
            a: self.a && rhs.a,
        }
    }

    /// The backend's write mask: R is 1, G is 2, B is 4, A is 8, and a set
    /// is the sum of its channels.
    pub open spec fn spec_bits(self) -> int {
        (if self.r { 1int } else { 0 }) + (if self.g { 2int } else { 0 })
            + (if self.b { 4int } else { 0 }) + (if self.a { 8int } else { 0 })
    }

    /// The set of no channel.
    pub fn none() -> (c: Self)
        ensures
            c == Self::spec_none(),
    {
        GPUColorComponent { r: false, g: false, b: false, a: false }
    }

    /// The red channel alone.
    pub fn r() -> (c: Self)
        ensures
            c == (GPUColorComponent { r: true, ..Self::spec_none() }),
    {
        GPUColorComponent { r: true, g: false, b: false, a: false }
    }

    /// The green channel alone.
    pub fn g() -> (c: Self)
        ensures
            c == (GPUColorComponent { g: true, ..Self::spec_none() }),
    {
        GPUColorComponent { r: false, g: true, b: false, a: false }
    }

    /// The blue channel alone.
    pub fn b() -> (c: Self)
        ensures
            c == (GPUColorComponent { b: true, ..Self::spec_none() }),
    {
        GPUColorComponent { r: false, g: false, b: true, a: false }
    }

    /// The alpha channel alone.
    pub fn a() -> (c: Self)
        ensures
            c == (GPUColorComponent { a: true, ..Self::spec_none() }),
    {
        GPUColorComponent { r: false, g: false, b: false, a: true }
    }

    /// Translates the set to the backend's write mask.
    pub fn bits(&self) -> (mask: u8)
        ensures
            mask == self.spec_bits(),
            mask <= 15,
    {
        let mut mask: u8 = 0;
        if (*self & Self::r()) != Self::none() {
            mask = mask + 1;
        }
        if (*self & Self::g()) != Self::none() {
            mask = mask + 2;
        }
        if (*self & Self::b()) != Self::none() {
            mask = mask + 4;
        }
        if (*self & Self::a()) != Self::none() {
            mask = mask + 8;
        }
        mask
    }
}

impl vstd::std_specs::ops::BitOrSpecImpl for GPUColorComponent {
    open spec fn obeys_bitor_spec() -> bool {
        true
    }

    open spec fn bitor_req(self, rhs: GPUColorComponent) -> bool {
        true
    }

    open spec fn bitor_spec(self, rhs: GPUColorComponent) -> GPUColorComponent {
        self.union(rhs)
    }
}

impl core::ops::BitOr for GPUColorComponent {
    type Output = GPUColorComponent;

    /// The channels that are in `self` or in `rhs`.
    fn bitor(self, rhs: GPUColorComponent) -> (out: GPUColorComponent) {
        GPUColorComponent {
            r: self.r || rhs.r,
            g: self.g || rhs.g,
            b: self.b || rhs.b,
            a: self.a || rhs.a,
        }
    }
}

impl vstd::std_specs::ops::BitAndSpecImpl for GPUColorComponent {
    open spec fn obeys_bitand_spec() -> bool {
        true
    }

    open spec fn bitand_req(self, rhs: GPUColorComponent) -> bool {
        true
    }

    open spec fn bitand_spec(self, rhs: GPUColorComponent) -> GPUColorComponent {
        self.intersection(rhs)
    }
}

impl core::ops::BitAnd for GPUColorComponent {
    type Output = GPUColorComponent;

    /// The channels that are in `self` and in `rhs`.
    fn bitand(self, rhs: GPUColorComponent) -> (out: GPUColorComponent) {
        GPUColorComponent {
            r: self.r && rhs.r,
            g: self.g && rhs.g,
            b: self.b && rhs.b,
            a: self.a && rhs.a,
        }
    }
}

impl core::ops::BitOrAssign for GPUColorComponent {
    /// Adds the channels of `rhs`.
    fn bitor_assign(&mut self, rhs: GPUColorComponent)
        ensures
            *final(self) == old(self).union(rhs),
    {
        *self = *self | rhs;
    }
}

impl core::ops::BitAndAssign for GPUColorComponent {
    /// Keeps the channels that are in `rhs` too.
    fn bitand_assign(&mut self, rhs: GPUColorComponent)
        ensures
            *final(self) == old(self).intersection(rhs),
    {
        *self = *self & rhs;
    }
}

/// How a pipeline blends into its colour target.
#[derive(Debug, Clone, Copy, PartialEq, Eq, Structural)]
pub struct GPUColorTargetBlendState {
    pub enable_blend: bool,
    pub enable_color_write_mask: bool,
    pub color_write_mask: GPUColorComponent,
    pub color_blend_op: GPUColorBlendOp,
    pub color_blend_factor_src: GPUColorBlendFactor,
    pub color_blend_factor_dst: GPUColorBlendFactor,
    pub alpha_blend_op: GPUColorBlendOp,
    pub alpha_blend_factor_src: GPUColorBlendFactor,
    pub alpha_blend_factor_dst: GPUColorBlendFactor,
}

/// Whether a vertex buffer advances per vertex or per instance.
#[derive(Debug, Clone, Copy, PartialEq, Eq, Structural)]
pub enum GPUVertexInputRate {
    Vertex,
    Instance,
}

/// The backend's code for each input rate.
pub open spec fn sdl_input_rate_code(rate: GPUVertexInputRate) -> int {
    match rate {
        GPUVertexInputRate::Vertex => 0,
        GPUVertexInputRate::Instance => 1,
    }
}

/// The one vertex buffer of a pipeline.
#[derive(Debug, Clone, Copy, PartialEq, Eq, Structural)]
pub struct GPUVertexBufferDescription {
    pub slot: u32,
    pub pitch: u32,
    pub input_rate: GPUVertexInputRate,
}

/// How vertices are assembled into primitives.
#[derive(Debug, Clone, Copy, PartialEq, Eq, Structural)]
pub enum GPUPrimitiveType {
    PointList,
    LineList,
    LineStrip,
    TriangleList,
    TriangleStrip,
}

/// The backend's code for each primitive type.
pub open spec fn sdl_primitive_type_code(primitive_type: GPUPrimitiveType) -> int {
    match primitive_type {
        GPUPrimitiveType::PointList => 4,
        GPUPrimitiveType::LineList => 2,
        GPUPrimitiveType::LineStrip => 3,
        GPUPrimitiveType::TriangleList => 0,
        GPUPrimitiveType::TriangleStrip => 1,
    }
}

/// What `GPUDevice::create_graphics_pipeline` assembles a pipeline from.
#[derive(Debug)]
pub struct GPUGraphicsPipelineCreateInfo<'a> {
    pub texture_format: GPUTextureFormat,
    pub vertex_shader: &'a GPUShader,
    pub fragment_shader: &'a GPUShader,
    pub vertex_attributes: Vec<GPUVertexAttribute>,
    pub vertex_buffer_desc: GPUVertexBufferDescription,
    pub primitive_type: GPUPrimitiveType,
    pub blend_state: GPUColorTargetBlendState,
}

/// A vertex attribute in the backend's codes.
pub open spec fn attribute_info(attribute: GPUVertexAttribute) -> VertexAttributeInfo {
    VertexAttributeInfo {
        location: attribute.location,
        buffer_slot: attribute.buffer_slot,
        format: sdl_vertex_element_code(attribute.format) as i32,
        offset: attribute.offset,
    }
}

/// A blend state in the backend's codes.
pub open spec fn blend_info(state: GPUColorTargetBlendState) -> BlendInfo {
    BlendInfo {
        enable_blend: state.enable_blend,
        enable_color_write_mask: state.enable_color_write_mask,
        color_write_mask: state.color_write_mask.spec_bits() as u8,
        color_blend_op: sdl_blend_op_code(state.color_blend_op) as i32,
        src_color_blendfactor: sdl_blend_factor_code(state.color_blend_factor_src) as i32,
        dst_color_blendfactor: sdl_blend_factor_code(state.color_blend_factor_dst) as i32,
        alpha_blend_op: sdl_blend_op_code(state.alpha_blend_op) as i32,
        src_alpha_blendfactor: sdl_blend_factor_code(state.alpha_blend_factor_src) as i32,
        dst_alpha_blendfactor: sdl_blend_factor_code(state.alpha_blend_factor_dst) as i32,
    }
}

impl<'a> GPUGraphicsPipelineCreateInfo<'a> {
    /// Whether `info` describes this pipeline in the backend's codes: the
    /// two shaders by their handles, every vertex attribute in its place,
    /// the one vertex buffer, the primitive type, the target's format and
    /// the blend state.
    pub open spec fn described_by(self, info: PipelineInfo) -> bool {
        &&& info.vertex_shader == self.vertex_shader.shader
        &&& info.fragment_shader == self.fragment_shader.shader
        &&& info.vertex_attributes@ == self.vertex_attributes@.map_values(
            |a: GPUVertexAttribute| attribute_info(a),
        )
        &&& info.vertex_buffer_slot == self.vertex_buffer_desc.slot
        &&& info.vertex_buffer_pitch == self.vertex_buffer_desc.pitch
        &&& info.vertex_input_rate == sdl_input_rate_code(self.vertex_buffer_desc.input_rate)
        &&& info.primitive_type == sdl_primitive_type_code(self.primitive_type)
        &&& info.target_format == sdl_texture_format_code(self.texture_format)
        &&& info.blend == blend_info(self.blend_state)
    }

    /// Translates the description to the backend's codes.
    pub fn describe(&self) -> (info: PipelineInfo)
        ensures
            self.described_by(info),
    {
        let mut vertex_attributes: Vec<VertexAttributeInfo> = Vec::new();
        let count: usize = self.vertex_attributes.len();
        let mut i: usize = 0;
        while i < count
            invariant
                count == self.vertex_attributes@.len(),
                i <= count,
                vertex_attributes@ == self.vertex_attributes@.take(i as int).map_values(
                    |a: GPUVertexAttribute| attribute_info(a),
                ),
            decreases count - i,
        {
            let attribute = self.vertex_attributes[i];
            vertex_attributes.push(
                VertexAttributeInfo {
                    location: attribute.location,
                    buffer_slot: attribute.buffer_slot,
                    format: gpu_vertex_element_to_sdl(attribute.format),
                    offset: attribute.offset,
                },
            );
            i = i + 1;
            assert(vertex_attributes@ =~= self.vertex_attributes@.take(i as int).map_values(
                |a: GPUVertexAttribute| attribute_info(a),
            ));
        }
        assert(self.vertex_attributes@.take(count as int) =~= self.vertex_attributes@);
        let blend = self.blend_state;
        PipelineInfo {
            vertex_shader: self.vertex_shader.shader,
            fragment_shader: self.fragment_shader.shader,
            vertex_attributes,
            vertex_buffer_slot: self.vertex_buffer_desc.slot,
            vertex_buffer_pitch: self.vertex_buffer_desc.pitch,
            vertex_input_rate: match self.vertex_buffer_desc.input_rate {
                GPUVertexInputRate::Vertex => 0,
                GPUVertexInputRate::Instance => 1,
            },
            primitive_type: match self.primitive_type {
                GPUPrimitiveType::PointList => 4,
                GPUPrimitiveType::LineList => 2,
                GPUPrimitiveType::LineStrip => 3,
                GPUPrimitiveType::TriangleList => 0,
                GPUPrimitiveType::TriangleStrip => 1,
            },
            target_format: gpu_texture_format_to_sdl(self.texture_format),
            blend: BlendInfo {
                enable_blend: blend.enable_blend,
                enable_color_write_mask: blend.enable_color_write_mask,
                color_write_mask: blend.color_write_mask.bits(),
                color_blend_op: gpu_color_blend_op_to_sdl(blend.color_blend_op),
                src_color_blendfactor: gpu_color_blend_factor_to_sdl(blend.color_blend_factor_src),
                dst_color_blendfactor: gpu_color_blend_factor_to_sdl(blend.color_blend_factor_dst),
                alpha_blend_op: gpu_color_blend_op_to_sdl(blend.alpha_blend_op),
                src_alpha_blendfactor: gpu_color_blend_factor_to_sdl(blend.alpha_blend_factor_src),
                dst_alpha_blendfactor: gpu_color_blend_factor_to_sdl(blend.alpha_blend_factor_dst),
            },
        }
    }
}

/// A graphics pipeline on the device.
#[derive(Debug, PartialEq, Eq)]
pub struct GPUGraphicsPipeline {
    pub pipeline: u64,
    pub device: u64,
}

impl GPUGraphicsPipeline {
    /// Gives the pipeline back to the device.
    pub fn release(self) -> (call: DeviceCall)
        ensures
            call == (DeviceCall::ReleaseGraphicsPipeline {
                device: self.device,
                pipeline: self.pipeline,
            }),
    {
        DeviceCall::ReleaseGraphicsPipeline { device: self.device, pipeline: self.pipeline }
    }
}

/// A compute pipeline on the device.
#[derive(Debug, PartialEq, Eq)]
pub struct GPUComputePipeline {
    pub pipeline: u64,
    pub device: u64,
}

impl GPUComputePipeline {
    /// Gives the pipeline back to the device.
    pub fn release(self) -> (call: DeviceCall)
        ensures
            call == (DeviceCall::ReleaseComputePipeline {
                device: self.device,
                pipeline: self.pipeline,
            }),
    {
        DeviceCall::ReleaseComputePipeline { device: self.device, pipeline: self.pipeline }
    }
}

} // verus!
