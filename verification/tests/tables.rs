use est_gpu::buffer::{
    gpu_buffer_type_to_sdl, gpu_transfer_usage_to_sdl, GPUBufferType, GPUTransferUsage,
};
use est_gpu::device::{
    ONE_BITS, SDL_ADDRESS_MODE_REPEAT, SDL_COMPARE_OP_NEVER, SDL_FILTER_LINEAR, SDL_LOAD_OP_CLEAR,
    SDL_SHADER_FORMAT_SPIRV, SDL_STORE_OP_STORE,
};
use est_gpu::pipeline::{
    gpu_color_blend_factor_to_sdl, gpu_color_blend_op_to_sdl, gpu_vertex_element_to_sdl,
    GPUColorBlendFactor, GPUColorBlendOp, GPUColorComponent, GPUVertexElement,
};
use est_gpu::renderpass::SDL_INDEX_ELEMENT_SIZE_32BIT;
use est_gpu::texture::{GPUTextureAccess, GPUTextureFormat};
use est_gpu::texture_utils::{
    gpu_texture_access_to_sdl, gpu_texture_format_to_byte_size, gpu_texture_format_to_sdl,
    sdl_to_gpu_texture_format, SDL_TEXTURE_FORMAT_FIRST, SDL_TEXTURE_FORMAT_LAST,
};
use sdl3_sys::gpu;

fn all_texture_formats() -> Vec<(GPUTextureFormat, gpu::SDL_GPUTextureFormat, u32)> {
    vec![
        (GPUTextureFormat::R8, gpu::SDL_GPU_TEXTUREFORMAT_R8_UNORM, 1),
        (GPUTextureFormat::R8G8, gpu::SDL_GPU_TEXTUREFORMAT_R8G8_UNORM, 2),
        (GPUTextureFormat::R8G8B8A8, gpu::SDL_GPU_TEXTUREFORMAT_R8G8B8A8_UNORM, 4),
        (GPUTextureFormat::B8G8R8A8, gpu::SDL_GPU_TEXTUREFORMAT_B8G8R8A8_UNORM, 4),
        (GPUTextureFormat::A8_UNORM, gpu::SDL_GPU_TEXTUREFORMAT_A8_UNORM, 1),
        (GPUTextureFormat::R16_UNORM, gpu::SDL_GPU_TEXTUREFORMAT_R16_UNORM, 2),
        (GPUTextureFormat::R16G16_UNORM, gpu::SDL_GPU_TEXTUREFORMAT_R16G16_UNORM, 4),
        (GPUTextureFormat::R16G16B16A16_UNORM, gpu::SDL_GPU_TEXTUREFORMAT_R16G16B16A16_UNORM, 8),
        (GPUTextureFormat::R10G10B10A2_UNORM, gpu::SDL_GPU_TEXTUREFORMAT_R10G10B10A2_UNORM, 4),
        (GPUTextureFormat::B5G6R5_UNORM, gpu::SDL_GPU_TEXTUREFORMAT_B5G6R5_UNORM, 2),
        (GPUTextureFormat::B5G5R5A1_UNORM, gpu::SDL_GPU_TEXTUREFORMAT_B5G5R5A1_UNORM, 2),
        (GPUTextureFormat::B4G4R4A4_UNORM, gpu::SDL_GPU_TEXTUREFORMAT_B4G4R4A4_UNORM, 2),
        (GPUTextureFormat::BC1_RGBA_UNORM, gpu::SDL_GPU_TEXTUREFORMAT_BC1_RGBA_UNORM, 8),
        (GPUTextureFormat::BC2_RGBA_UNORM, gpu::SDL_GPU_TEXTUREFORMAT_BC2_RGBA_UNORM, 16),
        (GPUTextureFormat::BC3_RGBA_UNORM, gpu::SDL_GPU_TEXTUREFORMAT_BC3_RGBA_UNORM, 16),
        (GPUTextureFormat::BC4_R_UNORM, gpu::SDL_GPU_TEXTUREFORMAT_BC4_R_UNORM, 8),
        (GPUTextureFormat::BC5_RG_UNORM, gpu::SDL_GPU_TEXTUREFORMAT_BC5_RG_UNORM, 16),
        (GPUTextureFormat::BC7_RGBA_UNORM, gpu::SDL_GPU_TEXTUREFORMAT_BC7_RGBA_UNORM, 16),
        (GPUTextureFormat::BC6H_RGB_FLOAT, gpu::SDL_GPU_TEXTUREFORMAT_BC6H_RGB_FLOAT, 16),
        (GPUTextureFormat::BC6H_RGB_UFLOAT, gpu::SDL_GPU_TEXTUREFORMAT_BC6H_RGB_UFLOAT, 16),
        (GPUTextureFormat::R8_SNORM, gpu::SDL_GPU_TEXTUREFORMAT_R8_SNORM, 1),
        (GPUTextureFormat::R8G8_SNORM, gpu::SDL_GPU_TEXTUREFORMAT_R8G8_SNORM, 2),
        (GPUTextureFormat::R8G8B8A8_SNORM, gpu::SDL_GPU_TEXTUREFORMAT_R8G8B8A8_SNORM, 4),
        (GPUTextureFormat::R16_SNORM, gpu::SDL_GPU_TEXTUREFORMAT_R16_SNORM, 2),
        (GPUTextureFormat::R16G16_SNORM, gpu::SDL_GPU_TEXTUREFORMAT_R16G16_SNORM, 4),
        (GPUTextureFormat::R16G16B16A16_SNORM, gpu::SDL_GPU_TEXTUREFORMAT_R16G16B16A16_SNORM, 8),
        (GPUTextureFormat::R16_FLOAT, gpu::SDL_GPU_TEXTUREFORMAT_R16_FLOAT, 2),
        (GPUTextureFormat::R16G16_FLOAT, gpu::SDL_GPU_TEXTUREFORMAT_R16G16_FLOAT, 4),
        (GPUTextureFormat::R16G16B16A16_FLOAT, gpu::SDL_GPU_TEXTUREFORMAT_R16G16B16A16_FLOAT, 8),
        (GPUTextureFormat::R32_FLOAT, gpu::SDL_GPU_TEXTUREFORMAT_R32_FLOAT, 4),
        (GPUTextureFormat::R32G32_FLOAT, gpu::SDL_GPU_TEXTUREFORMAT_R32G32_FLOAT, 8),
        (GPUTextureFormat::R32G32B32A32_FLOAT, gpu::SDL_GPU_TEXTUREFORMAT_R32G32B32A32_FLOAT, 16),
        (GPUTextureFormat::R11G11B10_UFLOAT, gpu::SDL_GPU_TEXTUREFORMAT_R11G11B10_UFLOAT, 4),
        (GPUTextureFormat::R8_UINT, gpu::SDL_GPU_TEXTUREFORMAT_R8_UINT, 1),
        (GPUTextureFormat::R8G8_UINT, gpu::SDL_GPU_TEXTUREFORMAT_R8G8_UINT, 2),
        (GPUTextureFormat::R8G8B8A8_UINT, gpu::SDL_GPU_TEXTUREFORMAT_R8G8B8A8_UINT, 4),
        (GPUTextureFormat::R16_UINT, gpu::SDL_GPU_TEXTUREFORMAT_R16_UINT, 2),
        (GPUTextureFormat::R16G16_UINT, gpu::SDL_GPU_TEXTUREFORMAT_R16G16_UINT, 4),
        (GPUTextureFormat::R16G16B16A16_UINT, gpu::SDL_GPU_TEXTUREFORMAT_R16G16B16A16_UINT, 8),
        (GPUTextureFormat::R32_UINT, gpu::SDL_GPU_TEXTUREFORMAT_R32_UINT, 4),
        (GPUTextureFormat::R32G32_UINT, gpu::SDL_GPU_TEXTUREFORMAT_R32G32_UINT, 8),
        (GPUTextureFormat::R32G32B32A32_UINT, gpu::SDL_GPU_TEXTUREFORMAT_R32G32B32A32_UINT, 16),
        (GPUTextureFormat::R8_INT, gpu::SDL_GPU_TEXTUREFORMAT_R8_INT, 1),
        (GPUTextureFormat::R8G8_INT, gpu::SDL_GPU_TEXTUREFORMAT_R8G8_INT, 2),
        (GPUTextureFormat::R8G8B8A8_INT, gpu::SDL_GPU_TEXTUREFORMAT_R8G8B8A8_INT, 4),
        (GPUTextureFormat::R16_INT, gpu::SDL_GPU_TEXTUREFORMAT_R16_INT, 2),
        (GPUTextureFormat::R16G16_INT, gpu::SDL_GPU_TEXTUREFORMAT_R16G16_INT, 4),
        (GPUTextureFormat::R16G16B16A16_INT, gpu::SDL_GPU_TEXTUREFORMAT_R16G16B16A16_INT, 8),
        (GPUTextureFormat::R32_INT, gpu::SDL_GPU_TEXTUREFORMAT_R32_INT, 4),
        (GPUTextureFormat::R32G32_INT, gpu::SDL_GPU_TEXTUREFORMAT_R32G32_INT, 8),
        (GPUTextureFormat::R32G32B32A32_INT, gpu::SDL_GPU_TEXTUREFORMAT_R32G32B32A32_INT, 16),
        (GPUTextureFormat::R8G8B8A8_UNORM_SRGB, gpu::SDL_GPU_TEXTUREFORMAT_R8G8B8A8_UNORM_SRGB, 4),
        (GPUTextureFormat::B8G8R8A8_UNORM_SRGB, gpu::SDL_GPU_TEXTUREFORMAT_B8G8R8A8_UNORM_SRGB, 4),
        (GPUTextureFormat::BC1_RGBA_UNORM_SRGB, gpu::SDL_GPU_TEXTUREFORMAT_BC1_RGBA_UNORM_SRGB, 8),
        (GPUTextureFormat::BC2_RGBA_UNORM_SRGB, gpu::SDL_GPU_TEXTUREFORMAT_BC2_RGBA_UNORM_SRGB, 16),
        (GPUTextureFormat::BC3_RGBA_UNORM_SRGB, gpu::SDL_GPU_TEXTUREFORMAT_BC3_RGBA_UNORM_SRGB, 16),
        (GPUTextureFormat::BC7_RGBA_UNORM_SRGB, gpu::SDL_GPU_TEXTUREFORMAT_BC7_RGBA_UNORM_SRGB, 16),
        (GPUTextureFormat::D16_UNORM, gpu::SDL_GPU_TEXTUREFORMAT_D16_UNORM, 2),
        (GPUTextureFormat::D24_UNORM, gpu::SDL_GPU_TEXTUREFORMAT_D24_UNORM, 3),
        (GPUTextureFormat::D32_FLOAT, gpu::SDL_GPU_TEXTUREFORMAT_D32_FLOAT, 4),
        (GPUTextureFormat::D24_UNORM_S8_UINT, gpu::SDL_GPU_TEXTUREFORMAT_D24_UNORM_S8_UINT, 4),
        (GPUTextureFormat::D32_FLOAT_S8_UINT, gpu::SDL_GPU_TEXTUREFORMAT_D32_FLOAT_S8_UINT, 5),
        (GPUTextureFormat::ASTC_4x4_UNORM, gpu::SDL_GPU_TEXTUREFORMAT_ASTC_4x4_UNORM, 16),
        (GPUTextureFormat::ASTC_5x4_UNORM, gpu::SDL_GPU_TEXTUREFORMAT_ASTC_5x4_UNORM, 16),
        (GPUTextureFormat::ASTC_5x5_UNORM, gpu::SDL_GPU_TEXTUREFORMAT_ASTC_5x5_UNORM, 16),
        (GPUTextureFormat::ASTC_6x5_UNORM, gpu::SDL_GPU_TEXTUREFORMAT_ASTC_6x5_UNORM, 16),
        (GPUTextureFormat::ASTC_6x6_UNORM, gpu::SDL_GPU_TEXTUREFORMAT_ASTC_6x6_UNORM, 16),
        (GPUTextureFormat::ASTC_8x5_UNORM, gpu::SDL_GPU_TEXTUREFORMAT_ASTC_8x5_UNORM, 16),
        (GPUTextureFormat::ASTC_8x6_UNORM, gpu::SDL_GPU_TEXTUREFORMAT_ASTC_8x6_UNORM, 16),
        (GPUTextureFormat::ASTC_8x8_UNORM, gpu::SDL_GPU_TEXTUREFORMAT_ASTC_8x8_UNORM, 16),
        (GPUTextureFormat::ASTC_10x5_UNORM, gpu::SDL_GPU_TEXTUREFORMAT_ASTC_10x5_UNORM, 16),
        (GPUTextureFormat::ASTC_10x6_UNORM, gpu::SDL_GPU_TEXTUREFORMAT_ASTC_10x6_UNORM, 16),
        (GPUTextureFormat::ASTC_10x8_UNORM, gpu::SDL_GPU_TEXTUREFORMAT_ASTC_10x8_UNORM, 16),
        (GPUTextureFormat::ASTC_10x10_UNORM, gpu::SDL_GPU_TEXTUREFORMAT_ASTC_10x10_UNORM, 16),
        (GPUTextureFormat::ASTC_12x10_UNORM, gpu::SDL_GPU_TEXTUREFORMAT_ASTC_12x10_UNORM, 16),
        (GPUTextureFormat::ASTC_12x12_UNORM, gpu::SDL_GPU_TEXTUREFORMAT_ASTC_12x12_UNORM, 16),
        (GPUTextureFormat::ASTC_4x4_UNORM_SRGB, gpu::SDL_GPU_TEXTUREFORMAT_ASTC_4x4_UNORM_SRGB, 16),
        (GPUTextureFormat::ASTC_5x4_UNORM_SRGB, gpu::SDL_GPU_TEXTUREFORMAT_ASTC_5x4_UNORM_SRGB, 16),
        (GPUTextureFormat::ASTC_5x5_UNORM_SRGB, gpu::SDL_GPU_TEXTUREFORMAT_ASTC_5x5_UNORM_SRGB, 16),
        (GPUTextureFormat::ASTC_6x5_UNORM_SRGB, gpu::SDL_GPU_TEXTUREFORMAT_ASTC_6x5_UNORM_SRGB, 16),
        (GPUTextureFormat::ASTC_6x6_UNORM_SRGB, gpu::SDL_GPU_TEXTUREFORMAT_ASTC_6x6_UNORM_SRGB, 16),
        (GPUTextureFormat::ASTC_8x5_UNORM_SRGB, gpu::SDL_GPU_TEXTUREFORMAT_ASTC_8x5_UNORM_SRGB, 16),
        (GPUTextureFormat::ASTC_8x6_UNORM_SRGB, gpu::SDL_GPU_TEXTUREFORMAT_ASTC_8x6_UNORM_SRGB, 16),
        (GPUTextureFormat::ASTC_8x8_UNORM_SRGB, gpu::SDL_GPU_TEXTUREFORMAT_ASTC_8x8_UNORM_SRGB, 16),
        (GPUTextureFormat::ASTC_10x5_UNORM_SRGB, gpu::SDL_GPU_TEXTUREFORMAT_ASTC_10x5_UNORM_SRGB, 16),
        (GPUTextureFormat::ASTC_10x6_UNORM_SRGB, gpu::SDL_GPU_TEXTUREFORMAT_ASTC_10x6_UNORM_SRGB, 16),
        (GPUTextureFormat::ASTC_10x8_UNORM_SRGB, gpu::SDL_GPU_TEXTUREFORMAT_ASTC_10x8_UNORM_SRGB, 16),
        (GPUTextureFormat::ASTC_10x10_UNORM_SRGB, gpu::SDL_GPU_TEXTUREFORMAT_ASTC_10x10_UNORM_SRGB, 16),
        (GPUTextureFormat::ASTC_12x10_UNORM_SRGB, gpu::SDL_GPU_TEXTUREFORMAT_ASTC_12x10_UNORM_SRGB, 16),
        (GPUTextureFormat::ASTC_12x12_UNORM_SRGB, gpu::SDL_GPU_TEXTUREFORMAT_ASTC_12x12_UNORM_SRGB, 16),
        (GPUTextureFormat::ASTC_4x4_FLOAT, gpu::SDL_GPU_TEXTUREFORMAT_ASTC_4x4_FLOAT, 16),
        (GPUTextureFormat::ASTC_5x4_FLOAT, gpu::SDL_GPU_TEXTUREFORMAT_ASTC_5x4_FLOAT, 16),
        (GPUTextureFormat::ASTC_5x5_FLOAT, gpu::SDL_GPU_TEXTUREFORMAT_ASTC_5x5_FLOAT, 16),
        (GPUTextureFormat::ASTC_6x5_FLOAT, gpu::SDL_GPU_TEXTUREFORMAT_ASTC_6x5_FLOAT, 16),
        (GPUTextureFormat::ASTC_6x6_FLOAT, gpu::SDL_GPU_TEXTUREFORMAT_ASTC_6x6_FLOAT, 16),
        (GPUTextureFormat::ASTC_8x5_FLOAT, gpu::SDL_GPU_TEXTUREFORMAT_ASTC_8x5_FLOAT, 16),
        (GPUTextureFormat::ASTC_8x6_FLOAT, gpu::SDL_GPU_TEXTUREFORMAT_ASTC_8x6_FLOAT, 16),
        (GPUTextureFormat::ASTC_8x8_FLOAT, gpu::SDL_GPU_TEXTUREFORMAT_ASTC_8x8_FLOAT, 16),
        (GPUTextureFormat::ASTC_10x5_FLOAT, gpu::SDL_GPU_TEXTUREFORMAT_ASTC_10x5_FLOAT, 16),
        (GPUTextureFormat::ASTC_10x6_FLOAT, gpu::SDL_GPU_TEXTUREFORMAT_ASTC_10x6_FLOAT, 16),
        (GPUTextureFormat::ASTC_10x8_FLOAT, gpu::SDL_GPU_TEXTUREFORMAT_ASTC_10x8_FLOAT, 16),
        (GPUTextureFormat::ASTC_10x10_FLOAT, gpu::SDL_GPU_TEXTUREFORMAT_ASTC_10x10_FLOAT, 16),
        (GPUTextureFormat::ASTC_12x10_FLOAT, gpu::SDL_GPU_TEXTUREFORMAT_ASTC_12x10_FLOAT, 16),
        (GPUTextureFormat::ASTC_12x12_FLOAT, gpu::SDL_GPU_TEXTUREFORMAT_ASTC_12x12_FLOAT, 16),
    ]
}

#[test]
fn texture_format_codes_are_the_backends() {
    let all = all_texture_formats();
    assert_eq!(all.len(), 104);
    for (format, backend, _) in all {
        assert_eq!(gpu_texture_format_to_sdl(format), backend.0, "{:?}", format);
    }
}

#[test]
fn texture_format_codes_translate_back() {
    for (format, backend, _) in all_texture_formats() {
        assert_eq!(sdl_to_gpu_texture_format(backend.0), format);
        assert_eq!(sdl_to_gpu_texture_format(gpu_texture_format_to_sdl(format)), format);
    }
}

#[test]
fn texture_format_codes_fill_the_range() {
    assert_eq!(SDL_TEXTURE_FORMAT_FIRST, 1);
    assert_eq!(SDL_TEXTURE_FORMAT_LAST, gpu::SDL_GPU_TEXTUREFORMAT_ASTC_12x12_FLOAT.0);
    let mut seen = vec![false; 105];
    for (format, _, _) in all_texture_formats() {
        let code = gpu_texture_format_to_sdl(format);
        assert!(code >= SDL_TEXTURE_FORMAT_FIRST && code <= SDL_TEXTURE_FORMAT_LAST);
        assert!(!seen[code as usize], "code {} is used twice", code);
        seen[code as usize] = true;
    }
    for code in SDL_TEXTURE_FORMAT_FIRST..=SDL_TEXTURE_FORMAT_LAST {
        assert_eq!(gpu_texture_format_to_sdl(sdl_to_gpu_texture_format(code)), code);
    }
}

#[test]
fn texture_format_byte_sizes() {
    for (format, _, size) in all_texture_formats() {
        assert_eq!(gpu_texture_format_to_byte_size(format), size, "{:?}", format);
    }
    assert_eq!(gpu_texture_format_to_byte_size(GPUTextureFormat::R8), 1);
    assert_eq!(gpu_texture_format_to_byte_size(GPUTextureFormat::R8G8), 2);
    assert_eq!(gpu_texture_format_to_byte_size(GPUTextureFormat::D24_UNORM), 3);
    assert_eq!(gpu_texture_format_to_byte_size(GPUTextureFormat::R8G8B8A8), 4);
    assert_eq!(gpu_texture_format_to_byte_size(GPUTextureFormat::D32_FLOAT_S8_UINT), 5);
    assert_eq!(gpu_texture_format_to_byte_size(GPUTextureFormat::R16G16B16A16_FLOAT), 8);
    assert_eq!(gpu_texture_format_to_byte_size(GPUTextureFormat::R32G32B32A32_FLOAT), 16);
}

#[test]
fn texture_access_flags_are_the_backends() {
    let all = [
        (GPUTextureAccess::Sampler, gpu::SDL_GPU_TEXTUREUSAGE_SAMPLER),
        (GPUTextureAccess::RenderTarget, gpu::SDL_GPU_TEXTUREUSAGE_COLOR_TARGET),
        (GPUTextureAccess::DepthStencil, gpu::SDL_GPU_TEXTUREUSAGE_DEPTH_STENCIL_TARGET),
        (GPUTextureAccess::GraphicsStorage, gpu::SDL_GPU_TEXTUREUSAGE_GRAPHICS_STORAGE_READ),
        (GPUTextureAccess::ComputeStorageRead, gpu::SDL_GPU_TEXTUREUSAGE_COMPUTE_STORAGE_READ),
        (GPUTextureAccess::ComputeStorageWrite, gpu::SDL_GPU_TEXTUREUSAGE_COMPUTE_STORAGE_WRITE),
        (
            GPUTextureAccess::ComputeStorageReadWrite,
            gpu::SDL_GPU_TEXTUREUSAGE_COMPUTE_STORAGE_SIMULTANEOUS_READ_WRITE,
        ),
    ];
    for (access, backend) in all {
        assert_eq!(gpu_texture_access_to_sdl(access), backend.0);
    }
}

#[test]
fn buffer_usage_flags_are_the_backends() {
    assert_eq!(gpu_buffer_type_to_sdl(GPUBufferType::Vertex), gpu::SDL_GPU_BUFFERUSAGE_VERTEX.0);
    assert_eq!(gpu_buffer_type_to_sdl(GPUBufferType::Index), gpu::SDL_GPU_BUFFERUSAGE_INDEX.0);
    assert_eq!(
        gpu_buffer_type_to_sdl(GPUBufferType::Uniform),
        gpu::SDL_GPU_BUFFERUSAGE_GRAPHICS_STORAGE_READ.0
    );
}

#[test]
fn transfer_usage_codes_are_the_backends() {
    assert_eq!(
        gpu_transfer_usage_to_sdl(GPUTransferUsage::Upload),
        gpu::SDL_GPU_TRANSFERBUFFERUSAGE_UPLOAD.0
    );
    assert_eq!(
        gpu_transfer_usage_to_sdl(GPUTransferUsage::Download),
        gpu::SDL_GPU_TRANSFERBUFFERUSAGE_DOWNLOAD.0
    );
}

#[test]
fn vertex_element_codes_are_the_backends() {
    let all = [
        (GPUVertexElement::Int, gpu::SDL_GPU_VERTEXELEMENTFORMAT_INT),
        (GPUVertexElement::Int2, gpu::SDL_GPU_VERTEXELEMENTFORMAT_INT2),
        (GPUVertexElement::Int3, gpu::SDL_GPU_VERTEXELEMENTFORMAT_INT3),
        (GPUVertexElement::Int4, gpu::SDL_GPU_VERTEXELEMENTFORMAT_INT4),
        (GPUVertexElement::Uint, gpu::SDL_GPU_VERTEXELEMENTFORMAT_UINT),
        (GPUVertexElement::Uint2, gpu::SDL_GPU_VERTEXELEMENTFORMAT_UINT2),
        (GPUVertexElement::Uint3, gpu::SDL_GPU_VERTEXELEMENTFORMAT_UINT3),
        (GPUVertexElement::Uint4, gpu::SDL_GPU_VERTEXELEMENTFORMAT_UINT4),
        (GPUVertexElement::Float, gpu::SDL_GPU_VERTEXELEMENTFORMAT_FLOAT),
        (GPUVertexElement::Float2, gpu::SDL_GPU_VERTEXELEMENTFORMAT_FLOAT2),
        (GPUVertexElement::Float3, gpu::SDL_GPU_VERTEXELEMENTFORMAT_FLOAT3),
        (GPUVertexElement::Float4, gpu::SDL_GPU_VERTEXELEMENTFORMAT_FLOAT4),
        (GPUVertexElement::Byte2, gpu::SDL_GPU_VERTEXELEMENTFORMAT_BYTE2),
        (GPUVertexElement::Byte4, gpu::SDL_GPU_VERTEXELEMENTFORMAT_BYTE4),
        (GPUVertexElement::Ubyte2, gpu::SDL_GPU_VERTEXELEMENTFORMAT_UBYTE2),
        (GPUVertexElement::Ubyte4, gpu::SDL_GPU_VERTEXELEMENTFORMAT_UBYTE4),
        (GPUVertexElement::Byte2Norm, gpu::SDL_GPU_VERTEXELEMENTFORMAT_BYTE2_NORM),
        (GPUVertexElement::Byte4Norm, gpu::SDL_GPU_VERTEXELEMENTFORMAT_BYTE4_NORM),
        (GPUVertexElement::Ubyte2Norm, gpu::SDL_GPU_VERTEXELEMENTFORMAT_UBYTE2_NORM),
        (GPUVertexElement::Ubyte4Norm, gpu::SDL_GPU_VERTEXELEMENTFORMAT_UBYTE4_NORM),
        (GPUVertexElement::Short2, gpu::SDL_GPU_VERTEXELEMENTFORMAT_SHORT2),
        (GPUVertexElement::Short4, gpu::SDL_GPU_VERTEXELEMENTFORMAT_SHORT4),
        (GPUVertexElement::Ushort2, gpu::SDL_GPU_VERTEXELEMENTFORMAT_USHORT2),
        (GPUVertexElement::Ushort4, gpu::SDL_GPU_VERTEXELEMENTFORMAT_USHORT4),
        (GPUVertexElement::Short2Norm, gpu::SDL_GPU_VERTEXELEMENTFORMAT_SHORT2_NORM),
        (GPUVertexElement::Short4Norm, gpu::SDL_GPU_VERTEXELEMENTFORMAT_SHORT4_NORM),
        (GPUVertexElement::Ushort2Norm, gpu::SDL_GPU_VERTEXELEMENTFORMAT_USHORT2_NORM),
        (GPUVertexElement::Ushort4Norm, gpu::SDL_GPU_VERTEXELEMENTFORMAT_USHORT4_NORM),
        (GPUVertexElement::Half2, gpu::SDL_GPU_VERTEXELEMENTFORMAT_HALF2),
        (GPUVertexElement::Half4, gpu::SDL_GPU_VERTEXELEMENTFORMAT_HALF4),
    ];
    assert_eq!(all.len(), 30);
    for (element, backend) in all {
        assert_eq!(gpu_vertex_element_to_sdl(element), backend.0, "{:?}", element);
    }
}

#[test]
fn blend_factor_codes_are_the_backends() {
    let all = [
        (GPUColorBlendFactor::Invalid, gpu::SDL_GPU_BLENDFACTOR_INVALID),
        (GPUColorBlendFactor::Zero, gpu::SDL_GPU_BLENDFACTOR_ZERO),
        (GPUColorBlendFactor::One, gpu::SDL_GPU_BLENDFACTOR_ONE),
        (GPUColorBlendFactor::SrcColor, gpu::SDL_GPU_BLENDFACTOR_SRC_COLOR),
        (GPUColorBlendFactor::OneMinusSrcColor, gpu::SDL_GPU_BLENDFACTOR_ONE_MINUS_SRC_COLOR),
        (GPUColorBlendFactor::DstColor, gpu::SDL_GPU_BLENDFACTOR_DST_COLOR),
        (GPUColorBlendFactor::OneMinusDstColor, gpu::SDL_GPU_BLENDFACTOR_ONE_MINUS_DST_COLOR),
        (GPUColorBlendFactor::SrcAlpha, gpu::SDL_GPU_BLENDFACTOR_SRC_ALPHA),
        (GPUColorBlendFactor::OneMinusSrcAlpha, gpu::SDL_GPU_BLENDFACTOR_ONE_MINUS_SRC_ALPHA),
        (GPUColorBlendFactor::DstAlpha, gpu::SDL_GPU_BLENDFACTOR_DST_ALPHA),
        (GPUColorBlendFactor::OneMinusDstAlpha, gpu::SDL_GPU_BLENDFACTOR_ONE_MINUS_DST_ALPHA),
        (GPUColorBlendFactor::ConstantColor, gpu::SDL_GPU_BLENDFACTOR_CONSTANT_COLOR),
        (GPUColorBlendFactor::OneMinusConstantColor, gpu::SDL_GPU_BLENDFACTOR_ONE_MINUS_CONSTANT_COLOR),
        (GPUColorBlendFactor::SrcAlphaSaturate, gpu::SDL_GPU_BLENDFACTOR_SRC_ALPHA_SATURATE),
    ];
    assert_eq!(all.len(), 14);
    for (factor, backend) in all {
        assert_eq!(gpu_color_blend_factor_to_sdl(factor), backend.0, "{:?}", factor);
    }
}

#[test]
fn blend_op_codes_are_the_backends() {
    let all = [
        (GPUColorBlendOp::Add, gpu::SDL_GPU_BLENDOP_ADD),
        (GPUColorBlendOp::Subtract, gpu::SDL_GPU_BLENDOP_SUBTRACT),
        (GPUColorBlendOp::ReverseSubtract, gpu::SDL_GPU_BLENDOP_REVERSE_SUBTRACT),
        (GPUColorBlendOp::Min, gpu::SDL_GPU_BLENDOP_MIN),
        (GPUColorBlendOp::Max, gpu::SDL_GPU_BLENDOP_MAX),
        (GPUColorBlendOp::Invalid, gpu::SDL_GPU_BLENDOP_INVALID),
    ];
    assert_eq!(all.len(), 6);
    for (op, backend) in all {
        assert_eq!(gpu_color_blend_op_to_sdl(op), backend.0, "{:?}", op);
    }
}

#[test]
fn color_component_bits_are_the_backends() {
    assert_eq!(GPUColorComponent::none().bits(), 0);
    assert_eq!(GPUColorComponent::r().bits(), gpu::SDL_GPU_COLORCOMPONENT_R.0);
    assert_eq!(GPUColorComponent::g().bits(), gpu::SDL_GPU_COLORCOMPONENT_G.0);
    assert_eq!(GPUColorComponent::b().bits(), gpu::SDL_GPU_COLORCOMPONENT_B.0);
    assert_eq!(GPUColorComponent::a().bits(), gpu::SDL_GPU_COLORCOMPONENT_A.0);
    let all = GPUColorComponent::a()
        | GPUColorComponent::r()
        | GPUColorComponent::g()
        | GPUColorComponent::b();
    assert_eq!(all.bits(), 15);
    assert_eq!((GPUColorComponent::r() | GPUColorComponent::b()).bits(), 5);
}

#[test]
fn color_component_combinators() {
    let rg = GPUColorComponent::r() | GPUColorComponent::g();
    let gb = GPUColorComponent::g() | GPUColorComponent::b();
    assert_eq!(rg & gb, GPUColorComponent::g());
    assert_eq!(rg & GPUColorComponent::a(), GPUColorComponent::none());
    assert_eq!(rg | GPUColorComponent::none(), rg);
    assert_eq!(rg, GPUColorComponent { r: true, g: true, b: false, a: false });
    assert_ne!(rg & GPUColorComponent::r(), GPUColorComponent::none());
}

#[test]
fn fixed_codes_are_the_backends() {
    assert_eq!(SDL_SHADER_FORMAT_SPIRV, gpu::SDL_GPU_SHADERFORMAT_SPIRV.0);
    assert_eq!(SDL_LOAD_OP_CLEAR, gpu::SDL_GPU_LOADOP_CLEAR.0);
    assert_eq!(SDL_STORE_OP_STORE, gpu::SDL_GPU_STOREOP_STORE.0);
    assert_eq!(SDL_FILTER_LINEAR, gpu::SDL_GPU_FILTER_LINEAR.0);
    assert_eq!(SDL_FILTER_LINEAR, gpu::SDL_GPU_SAMPLERMIPMAPMODE_LINEAR.0);
    assert_eq!(SDL_ADDRESS_MODE_REPEAT, gpu::SDL_GPU_SAMPLERADDRESSMODE_REPEAT.0);
    assert_eq!(SDL_COMPARE_OP_NEVER, gpu::SDL_GPU_COMPAREOP_NEVER.0);
    assert_eq!(SDL_INDEX_ELEMENT_SIZE_32BIT, gpu::SDL_GPU_INDEXELEMENTSIZE_32BIT.0);
    assert_eq!(ONE_BITS, 1.0f32.to_bits());
    assert_eq!(0u32, 0.0f32.to_bits());
}

#[test]
fn color_component_assigning_combinators() {
    let mut mask = GPUColorComponent::r();
    mask |= GPUColorComponent::a();
    assert_eq!(mask, GPUColorComponent { r: true, g: false, b: false, a: true });
    assert_eq!(mask.bits(), 9);
    mask &= GPUColorComponent::a() | GPUColorComponent::g();
    assert_eq!(mask, GPUColorComponent::a());
    mask &= GPUColorComponent::none();
    assert_eq!(mask, GPUColorComponent::none());
}
