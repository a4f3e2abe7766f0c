//! Translation between the library's texture enumerations and the integer
//! codes of the backend, and the storage size of one texel block.

use vstd::prelude::*;
use crate::texture::{GPUTextureAccess, GPUTextureFormat};

verus! {

/// Smallest backend code of a texture format.
pub const SDL_TEXTURE_FORMAT_FIRST: i32 = 1;

/// Largest backend code of a texture format.
pub const SDL_TEXTURE_FORMAT_LAST: i32 = 104;

/// The backend's code for each texture format.
pub open spec fn sdl_texture_format_code(format: GPUTextureFormat) -> int {
    match format {
        GPUTextureFormat::R8 => 2,
        GPUTextureFormat::R8G8 => 3,
        GPUTextureFormat::R8G8B8A8 => 4,
        GPUTextureFormat::B8G8R8A8 => 12,
        GPUTextureFormat::A8_UNORM => 1,
        GPUTextureFormat::R16_UNORM => 5,
        GPUTextureFormat::R16G16_UNORM => 6,
        GPUTextureFormat::R16G16B16A16_UNORM => 7,
        GPUTextureFormat::R10G10B10A2_UNORM => 8,
        GPUTextureFormat::B5G6R5_UNORM => 9,
        GPUTextureFormat::B5G5R5A1_UNORM => 10,
        GPUTextureFormat::B4G4R4A4_UNORM => 11,
        GPUTextureFormat::BC1_RGBA_UNORM => 13,
        GPUTextureFormat::BC2_RGBA_UNORM => 14,
        GPUTextureFormat::BC3_RGBA_UNORM => 15,
        GPUTextureFormat::BC4_R_UNORM => 16,
        GPUTextureFormat::BC5_RG_UNORM => 17,
        GPUTextureFormat::BC7_RGBA_UNORM => 18,
        GPUTextureFormat::BC6H_RGB_FLOAT => 19,
        GPUTextureFormat::BC6H_RGB_UFLOAT => 20,
        GPUTextureFormat::R8_SNORM => 21,
        GPUTextureFormat::R8G8_SNORM => 22,
        GPUTextureFormat::R8G8B8A8_SNORM => 23,
        GPUTextureFormat::R16_SNORM => 24,
        GPUTextureFormat::R16G16_SNORM => 25,
        GPUTextureFormat::R16G16B16A16_SNORM => 26,
        GPUTextureFormat::R16_FLOAT => 27,
        GPUTextureFormat::R16G16_FLOAT => 28,
        GPUTextureFormat::R16G16B16A16_FLOAT => 29,
        GPUTextureFormat::R32_FLOAT => 30,
        GPUTextureFormat::R32G32_FLOAT => 31,
        GPUTextureFormat::R32G32B32A32_FLOAT => 32,
        GPUTextureFormat::R11G11B10_UFLOAT => 33,
        GPUTextureFormat::R8_UINT => 34,
        GPUTextureFormat::R8G8_UINT => 35,
        GPUTextureFormat::R8G8B8A8_UINT => 36,
        GPUTextureFormat::R16_UINT => 37,
        GPUTextureFormat::R16G16_UINT => 38,
        GPUTextureFormat::R16G16B16A16_UINT => 39,
        GPUTextureFormat::R32_UINT => 40,
        GPUTextureFormat::R32G32_UINT => 41,
        GPUTextureFormat::R32G32B32A32_UINT => 42,
        GPUTextureFormat::R8_INT => 43,
        GPUTextureFormat::R8G8_INT => 44,
        GPUTextureFormat::R8G8B8A8_INT => 45,
        GPUTextureFormat::R16_INT => 46,
        GPUTextureFormat::R16G16_INT => 47,
        GPUTextureFormat::R16G16B16A16_INT => 48,
        GPUTextureFormat::R32_INT => 49,
        GPUTextureFormat::R32G32_INT => 50,
        GPUTextureFormat::R32G32B32A32_INT => 51,
        GPUTextureFormat::R8G8B8A8_UNORM_SRGB => 52,
        GPUTextureFormat::B8G8R8A8_UNORM_SRGB => 53,
        GPUTextureFormat::BC1_RGBA_UNORM_SRGB => 54,
        GPUTextureFormat::BC2_RGBA_UNORM_SRGB => 55,
        GPUTextureFormat::BC3_RGBA_UNORM_SRGB => 56,
        GPUTextureFormat::BC7_RGBA_UNORM_SRGB => 57,
        GPUTextureFormat::D16_UNORM => 58,
        GPUTextureFormat::D24_UNORM => 59,
        GPUTextureFormat::D32_FLOAT => 60,
        GPUTextureFormat::D24_UNORM_S8_UINT => 61,
        GPUTextureFormat::D32_FLOAT_S8_UINT => 62,
        GPUTextureFormat::ASTC_4x4_UNORM => 63,
        GPUTextureFormat::ASTC_5x4_UNORM => 64,
        GPUTextureFormat::ASTC_5x5_UNORM => 65,
        GPUTextureFormat::ASTC_6x5_UNORM => 66,
        GPUTextureFormat::ASTC_6x6_UNORM => 67,
        GPUTextureFormat::ASTC_8x5_UNORM => 68,
        GPUTextureFormat::ASTC_8x6_UNORM => 69,
        GPUTextureFormat::ASTC_8x8_UNORM => 70,
        GPUTextureFormat::ASTC_10x5_UNORM => 71,
        GPUTextureFormat::ASTC_10x6_UNORM => 72,
        GPUTextureFormat::ASTC_10x8_UNORM => 73,
        GPUTextureFormat::ASTC_10x10_UNORM => 74,
        GPUTextureFormat::ASTC_12x10_UNORM => 75,
        GPUTextureFormat::ASTC_12x12_UNORM => 76,
        GPUTextureFormat::ASTC_4x4_UNORM_SRGB => 77,
        GPUTextureFormat::ASTC_5x4_UNORM_SRGB => 78,
        GPUTextureFormat::ASTC_5x5_UNORM_SRGB => 79,
        GPUTextureFormat::ASTC_6x5_UNORM_SRGB => 80,
        GPUTextureFormat::ASTC_6x6_UNORM_SRGB => 81,
        GPUTextureFormat::ASTC_8x5_UNORM_SRGB => 82,
        GPUTextureFormat::ASTC_8x6_UNORM_SRGB => 83,
        GPUTextureFormat::ASTC_8x8_UNORM_SRGB => 84,
        GPUTextureFormat::ASTC_10x5_UNORM_SRGB => 85,
        GPUTextureFormat::ASTC_10x6_UNORM_SRGB => 86,
        GPUTextureFormat::ASTC_10x8_UNORM_SRGB => 87,
        GPUTextureFormat::ASTC_10x10_UNORM_SRGB => 88,
        GPUTextureFormat::ASTC_12x10_UNORM_SRGB => 89,
        GPUTextureFormat::ASTC_12x12_UNORM_SRGB => 90,
        GPUTextureFormat::ASTC_4x4_FLOAT => 91,
        GPUTextureFormat::ASTC_5x4_FLOAT => 92,
        GPUTextureFormat::ASTC_5x5_FLOAT => 93,
        GPUTextureFormat::ASTC_6x5_FLOAT => 94,
        GPUTextureFormat::ASTC_6x6_FLOAT => 95,
        GPUTextureFormat::ASTC_8x5_FLOAT => 96,
        GPUTextureFormat::ASTC_8x6_FLOAT => 97,
        GPUTextureFormat::ASTC_8x8_FLOAT => 98,
        GPUTextureFormat::ASTC_10x5_FLOAT => 99,
        GPUTextureFormat::ASTC_10x6_FLOAT => 100,
        GPUTextureFormat::ASTC_10x8_FLOAT => 101,
        GPUTextureFormat::ASTC_10x10_FLOAT => 102,
        GPUTextureFormat::ASTC_12x10_FLOAT => 103,
        GPUTextureFormat::ASTC_12x12_FLOAT => 104,
    }
}

/// The texture format that the backend's `code` stands for.
pub open spec fn sdl_texture_format_of(code: int) -> GPUTextureFormat {
    choose|format: GPUTextureFormat| sdl_texture_format_code(format) == code
}

/// Whether `code` is the backend's code of some texture format.
pub open spec fn is_sdl_texture_format(code: int) -> bool {
    SDL_TEXTURE_FORMAT_FIRST <= code <= SDL_TEXTURE_FORMAT_LAST
}

/// The backend's usage flag for each access mode.
pub open spec fn sdl_texture_usage_flag(access: GPUTextureAccess) -> int {
    match access {
        GPUTextureAccess::Sampler => 1,
        GPUTextureAccess::RenderTarget => 2,
        GPUTextureAccess::DepthStencil => 4,
        GPUTextureAccess::GraphicsStorage => 8,
        GPUTextureAccess::ComputeStorageRead => 16,
        GPUTextureAccess::ComputeStorageWrite => 32,
        GPUTextureAccess::ComputeStorageReadWrite => 64,
    }
}

/// Bytes that one texel (for block-compressed formats, one block) occupies.
pub open spec fn texture_format_byte_size(format: GPUTextureFormat) -> int {
    match format {
        GPUTextureFormat::R8
        | GPUTextureFormat::A8_UNORM
        | GPUTextureFormat::R8_SNORM
        | GPUTextureFormat::R8_UINT
        | GPUTextureFormat::R8_INT => 1,
        GPUTextureFormat::R8G8
        | GPUTextureFormat::R16_UNORM
        | GPUTextureFormat::B5G6R5_UNORM
        | GPUTextureFormat::B5G5R5A1_UNORM
        | GPUTextureFormat::B4G4R4A4_UNORM
        | GPUTextureFormat::R8G8_SNORM
        | GPUTextureFormat::R16_SNORM
        | GPUTextureFormat::R16_FLOAT
        | GPUTextureFormat::R8G8_UINT
        | GPUTextureFormat::R16_UINT
        | GPUTextureFormat::R8G8_INT
        | GPUTextureFormat::R16_INT
        | GPUTextureFormat::D16_UNORM => 2,
        GPUTextureFormat::D24_UNORM => 3,
        GPUTextureFormat::R8G8B8A8
        | GPUTextureFormat::B8G8R8A8
        | GPUTextureFormat::R16G16_UNORM
        | GPUTextureFormat::R10G10B10A2_UNORM
        | GPUTextureFormat::R8G8B8A8_SNORM
        | GPUTextureFormat::R16G16_SNORM
        | GPUTextureFormat::R16G16_FLOAT
        | GPUTextureFormat::R32_FLOAT
        | GPUTextureFormat::R11G11B10_UFLOAT
        | GPUTextureFormat::R8G8B8A8_UINT
        | GPUTextureFormat::R16G16_UINT
        | GPUTextureFormat::R32_UINT
        | GPUTextureFormat::R8G8B8A8_INT
        | GPUTextureFormat::R16G16_INT
        | GPUTextureFormat::R32_INT
        | GPUTextureFormat::R8G8B8A8_UNORM_SRGB
        | GPUTextureFormat::B8G8R8A8_UNORM_SRGB
        | GPUTextureFormat::D32_FLOAT
        | GPUTextureFormat::D24_UNORM_S8_UINT => 4,
        GPUTextureFormat::D32_FLOAT_S8_UINT => 5,
        GPUTextureFormat::R16G16B16A16_UNORM
        | GPUTextureFormat::BC1_RGBA_UNORM
        | GPUTextureFormat::BC4_R_UNORM
        | GPUTextureFormat::R16G16B16A16_SNORM
        | GPUTextureFormat::R16G16B16A16_FLOAT
        | GPUTextureFormat::R32G32_FLOAT
        | GPUTextureFormat::R16G16B16A16_UINT
        | GPUTextureFormat::R32G32_UINT
        | GPUTextureFormat::R16G16B16A16_INT
        | GPUTextureFormat::R32G32_INT
        | GPUTextureFormat::BC1_RGBA_UNORM_SRGB => 8,
        GPUTextureFormat::BC2_RGBA_UNORM
        | GPUTextureFormat::BC3_RGBA_UNORM
        | GPUTextureFormat::BC5_RG_UNORM
        | GPUTextureFormat::BC7_RGBA_UNORM
        | GPUTextureFormat::BC6H_RGB_FLOAT
        | GPUTextureFormat::BC6H_RGB_UFLOAT
        | GPUTextureFormat::R32G32B32A32_FLOAT
        | GPUTextureFormat::R32G32B32A32_UINT
        | GPUTextureFormat::R32G32B32A32_INT
        | GPUTextureFormat::BC2_RGBA_UNORM_SRGB
        | GPUTextureFormat::BC3_RGBA_UNORM_SRGB
        | GPUTextureFormat::BC7_RGBA_UNORM_SRGB
        | GPUTextureFormat::ASTC_4x4_UNORM
        | GPUTextureFormat::ASTC_5x4_UNORM
        | GPUTextureFormat::ASTC_5x5_UNORM
        | GPUTextureFormat::ASTC_6x5_UNORM
        | GPUTextureFormat::ASTC_6x6_UNORM
        | GPUTextureFormat::ASTC_8x5_UNORM
        | GPUTextureFormat::ASTC_8x6_UNORM
        | GPUTextureFormat::ASTC_8x8_UNORM
        | GPUTextureFormat::ASTC_10x5_UNORM
        | GPUTextureFormat::ASTC_10x6_UNORM
        | GPUTextureFormat::ASTC_10x8_UNORM
        | GPUTextureFormat::ASTC_10x10_UNORM
        | GPUTextureFormat::ASTC_12x10_UNORM
        | GPUTextureFormat::ASTC_12x12_UNORM
        | GPUTextureFormat::ASTC_4x4_UNORM_SRGB
        | GPUTextureFormat::ASTC_5x4_UNORM_SRGB
        | GPUTextureFormat::ASTC_5x5_UNORM_SRGB
        | GPUTextureFormat::ASTC_6x5_UNORM_SRGB
        | GPUTextureFormat::ASTC_6x6_UNORM_SRGB
        | GPUTextureFormat::ASTC_8x5_UNORM_SRGB
        | GPUTextureFormat::ASTC_8x6_UNORM_SRGB
        | GPUTextureFormat::ASTC_8x8_UNORM_SRGB
        | GPUTextureFormat::ASTC_10x5_UNORM_SRGB
        | GPUTextureFormat::ASTC_10x6_UNORM_SRGB
        | GPUTextureFormat::ASTC_10x8_UNORM_SRGB
        | GPUTextureFormat::ASTC_10x10_UNORM_SRGB
        | GPUTextureFormat::ASTC_12x10_UNORM_SRGB
        | GPUTextureFormat::ASTC_12x12_UNORM_SRGB
        | GPUTextureFormat::ASTC_4x4_FLOAT
        | GPUTextureFormat::ASTC_5x4_FLOAT
        | GPUTextureFormat::ASTC_5x5_FLOAT
        | GPUTextureFormat::ASTC_6x5_FLOAT
        | GPUTextureFormat::ASTC_6x6_FLOAT
        | GPUTextureFormat::ASTC_8x5_FLOAT
        | GPUTextureFormat::ASTC_8x6_FLOAT
        | GPUTextureFormat::ASTC_8x8_FLOAT
        | GPUTextureFormat::ASTC_10x5_FLOAT
        | GPUTextureFormat::ASTC_10x6_FLOAT
        | GPUTextureFormat::ASTC_10x8_FLOAT
        | GPUTextureFormat::ASTC_10x10_FLOAT
        | GPUTextureFormat::ASTC_12x10_FLOAT
        | GPUTextureFormat::ASTC_12x12_FLOAT => 16,
    }
}

/// Translates a texture format to the backend's code.
pub fn gpu_texture_format_to_sdl(format: GPUTextureFormat) -> (code: i32)
    ensures
        code == sdl_texture_format_code(format),
        is_sdl_texture_format(code as int),
{
    match format {
        GPUTextureFormat::R8 => 2,
        GPUTextureFormat::R8G8 => 3,
        GPUTextureFormat::R8G8B8A8 => 4,
        GPUTextureFormat::B8G8R8A8 => 12,
        GPUTextureFormat::A8_UNORM => 1,
        GPUTextureFormat::R16_UNORM => 5,
        GPUTextureFormat::R16G16_UNORM => 6,
        GPUTextureFormat::R16G16B16A16_UNORM => 7,
        GPUTextureFormat::R10G10B10A2_UNORM => 8,
        GPUTextureFormat::B5G6R5_UNORM => 9,
        GPUTextureFormat::B5G5R5A1_UNORM => 10,
        GPUTextureFormat::B4G4R4A4_UNORM => 11,
        GPUTextureFormat::BC1_RGBA_UNORM => 13,
        GPUTextureFormat::BC2_RGBA_UNORM => 14,
        GPUTextureFormat::BC3_RGBA_UNORM => 15,
        GPUTextureFormat::BC4_R_UNORM => 16,
        GPUTextureFormat::BC5_RG_UNORM => 17,
        GPUTextureFormat::BC7_RGBA_UNORM => 18,
        GPUTextureFormat::BC6H_RGB_FLOAT => 19,
        GPUTextureFormat::BC6H_RGB_UFLOAT => 20,
        GPUTextureFormat::R8_SNORM => 21,
        GPUTextureFormat::R8G8_SNORM => 22,
        GPUTextureFormat::R8G8B8A8_SNORM => 23,
        GPUTextureFormat::R16_SNORM => 24,
        GPUTextureFormat::R16G16_SNORM => 25,
        GPUTextureFormat::R16G16B16A16_SNORM => 26,
        GPUTextureFormat::R16_FLOAT => 27,
        GPUTextureFormat::R16G16_FLOAT => 28,
        GPUTextureFormat::R16G16B16A16_FLOAT => 29,
        GPUTextureFormat::R32_FLOAT => 30,
        GPUTextureFormat::R32G32_FLOAT => 31,
        GPUTextureFormat::R32G32B32A32_FLOAT => 32,
        GPUTextureFormat::R11G11B10_UFLOAT => 33,
        GPUTextureFormat::R8_UINT => 34,
        GPUTextureFormat::R8G8_UINT => 35,
        GPUTextureFormat::R8G8B8A8_UINT => 36,
        GPUTextureFormat::R16_UINT => 37,
        GPUTextureFormat::R16G16_UINT => 38,
        GPUTextureFormat::R16G16B16A16_UINT => 39,
        GPUTextureFormat::R32_UINT => 40,
        GPUTextureFormat::R32G32_UINT => 41,
        GPUTextureFormat::R32G32B32A32_UINT => 42,
        GPUTextureFormat::R8_INT => 43,
        GPUTextureFormat::R8G8_INT => 44,
        GPUTextureFormat::R8G8B8A8_INT => 45,
        GPUTextureFormat::R16_INT => 46,
        GPUTextureFormat::R16G16_INT => 47,
        GPUTextureFormat::R16G16B16A16_INT => 48,
        GPUTextureFormat::R32_INT => 49,
        GPUTextureFormat::R32G32_INT => 50,
        GPUTextureFormat::R32G32B32A32_INT => 51,
        GPUTextureFormat::R8G8B8A8_UNORM_SRGB => 52,
        GPUTextureFormat::B8G8R8A8_UNORM_SRGB => 53,
        GPUTextureFormat::BC1_RGBA_UNORM_SRGB => 54,
        GPUTextureFormat::BC2_RGBA_UNORM_SRGB => 55,
        GPUTextureFormat::BC3_RGBA_UNORM_SRGB => 56,
        GPUTextureFormat::BC7_RGBA_UNORM_SRGB => 57,
        GPUTextureFormat::D16_UNORM => 58,
        GPUTextureFormat::D24_UNORM => 59,
        GPUTextureFormat::D32_FLOAT => 60,
        GPUTextureFormat::D24_UNORM_S8_UINT => 61,
        GPUTextureFormat::D32_FLOAT_S8_UINT => 62,
        GPUTextureFormat::ASTC_4x4_UNORM => 63,
        GPUTextureFormat::ASTC_5x4_UNORM => 64,
        GPUTextureFormat::ASTC_5x5_UNORM => 65,
        GPUTextureFormat::ASTC_6x5_UNORM => 66,
        GPUTextureFormat::ASTC_6x6_UNORM => 67,
        GPUTextureFormat::ASTC_8x5_UNORM => 68,
        GPUTextureFormat::ASTC_8x6_UNORM => 69,
        GPUTextureFormat::ASTC_8x8_UNORM => 70,
        GPUTextureFormat::ASTC_10x5_UNORM => 71,
        GPUTextureFormat::ASTC_10x6_UNORM => 72,
        GPUTextureFormat::ASTC_10x8_UNORM => 73,
        GPUTextureFormat::ASTC_10x10_UNORM => 74,
        GPUTextureFormat::ASTC_12x10_UNORM => 75,
        GPUTextureFormat::ASTC_12x12_UNORM => 76,
        GPUTextureFormat::ASTC_4x4_UNORM_SRGB => 77,
        GPUTextureFormat::ASTC_5x4_UNORM_SRGB => 78,
        GPUTextureFormat::ASTC_5x5_UNORM_SRGB => 79,
        GPUTextureFormat::ASTC_6x5_UNORM_SRGB => 80,
        GPUTextureFormat::ASTC_6x6_UNORM_SRGB => 81,
        GPUTextureFormat::ASTC_8x5_UNORM_SRGB => 82,
        GPUTextureFormat::ASTC_8x6_UNORM_SRGB => 83,
        GPUTextureFormat::ASTC_8x8_UNORM_SRGB => 84,
        GPUTextureFormat::ASTC_10x5_UNORM_SRGB => 85,
        GPUTextureFormat::ASTC_10x6_UNORM_SRGB => 86,
        GPUTextureFormat::ASTC_10x8_UNORM_SRGB => 87,
        GPUTextureFormat::ASTC_10x10_UNORM_SRGB => 88,
        GPUTextureFormat::ASTC_12x10_UNORM_SRGB => 89,
        GPUTextureFormat::ASTC_12x12_UNORM_SRGB => 90,
        GPUTextureFormat::ASTC_4x4_FLOAT => 91,
        GPUTextureFormat::ASTC_5x4_FLOAT => 92,
        GPUTextureFormat::ASTC_5x5_FLOAT => 93,
        GPUTextureFormat::ASTC_6x5_FLOAT => 94,
        GPUTextureFormat::ASTC_6x6_FLOAT => 95,
        GPUTextureFormat::ASTC_8x5_FLOAT => 96,
        GPUTextureFormat::ASTC_8x6_FLOAT => 97,
        GPUTextureFormat::ASTC_8x8_FLOAT => 98,
        GPUTextureFormat::ASTC_10x5_FLOAT => 99,
        GPUTextureFormat::ASTC_10x6_FLOAT => 100,
        GPUTextureFormat::ASTC_10x8_FLOAT => 101,
        GPUTextureFormat::ASTC_10x10_FLOAT => 102,
        GPUTextureFormat::ASTC_12x10_FLOAT => 103,
        GPUTextureFormat::ASTC_12x12_FLOAT => 104,
    }
}

/// Translates a backend code back to the texture format it stands for.
///
/// Codes outside the backend's range name no format and are left out.
pub fn sdl_to_gpu_texture_format(format: i32) -> (result: GPUTextureFormat)
    requires
        is_sdl_texture_format(format as int),
    ensures
        sdl_texture_format_code(result) == format,
        result == sdl_texture_format_of(format as int),
{
    let result = match format {
        1 => GPUTextureFormat::A8_UNORM,
        2 => GPUTextureFormat::R8,
        3 => GPUTextureFormat::R8G8,
        4 => GPUTextureFormat::R8G8B8A8,
        5 => GPUTextureFormat::R16_UNORM,
        6 => GPUTextureFormat::R16G16_UNORM,
        7 => GPUTextureFormat::R16G16B16A16_UNORM,
        8 => GPUTextureFormat::R10G10B10A2_UNORM,
        9 => GPUTextureFormat::B5G6R5_UNORM,
        10 => GPUTextureFormat::B5G5R5A1_UNORM,
        11 => GPUTextureFormat::B4G4R4A4_UNORM,
        12 => GPUTextureFormat::B8G8R8A8,
        13 => GPUTextureFormat::BC1_RGBA_UNORM,
        14 => GPUTextureFormat::BC2_RGBA_UNORM,
        15 => GPUTextureFormat::BC3_RGBA_UNORM,
        16 => GPUTextureFormat::BC4_R_UNORM,
        17 => GPUTextureFormat::BC5_RG_UNORM,
        18 => GPUTextureFormat::BC7_RGBA_UNORM,
        19 => GPUTextureFormat::BC6H_RGB_FLOAT,
        20 => GPUTextureFormat::BC6H_RGB_UFLOAT,
        21 => GPUTextureFormat::R8_SNORM,
        22 => GPUTextureFormat::R8G8_SNORM,
        23 => GPUTextureFormat::R8G8B8A8_SNORM,
        24 => GPUTextureFormat::R16_SNORM,
        25 => GPUTextureFormat::R16G16_SNORM,
        26 => GPUTextureFormat::R16G16B16A16_SNORM,
        27 => GPUTextureFormat::R16_FLOAT,
        28 => GPUTextureFormat::R16G16_FLOAT,
        29 => GPUTextureFormat::R16G16B16A16_FLOAT,
        30 => GPUTextureFormat::R32_FLOAT,
        31 => GPUTextureFormat::R32G32_FLOAT,
        32 => GPUTextureFormat::R32G32B32A32_FLOAT,
        33 => GPUTextureFormat::R11G11B10_UFLOAT,
        34 => GPUTextureFormat::R8_UINT,
        35 => GPUTextureFormat::R8G8_UINT,
        36 => GPUTextureFormat::R8G8B8A8_UINT,
        37 => GPUTextureFormat::R16_UINT,
        38 => GPUTextureFormat::R16G16_UINT,
        39 => GPUTextureFormat::R16G16B16A16_UINT,
        40 => GPUTextureFormat::R32_UINT,
        41 => GPUTextureFormat::R32G32_UINT,
        42 => GPUTextureFormat::R32G32B32A32_UINT,
        43 => GPUTextureFormat::R8_INT,
        44 => GPUTextureFormat::R8G8_INT,
        45 => GPUTextureFormat::R8G8B8A8_INT,
        46 => GPUTextureFormat::R16_INT,
        47 => GPUTextureFormat::R16G16_INT,
        48 => GPUTextureFormat::R16G16B16A16_INT,
        49 => GPUTextureFormat::R32_INT,
        50 => GPUTextureFormat::R32G32_INT,
        51 => GPUTextureFormat::R32G32B32A32_INT,
        52 => GPUTextureFormat::R8G8B8A8_UNORM_SRGB,
        53 => GPUTextureFormat::B8G8R8A8_UNORM_SRGB,
        54 => GPUTextureFormat::BC1_RGBA_UNORM_SRGB,
        55 => GPUTextureFormat::BC2_RGBA_UNORM_SRGB,
        56 => GPUTextureFormat::BC3_RGBA_UNORM_SRGB,
        57 => GPUTextureFormat::BC7_RGBA_UNORM_SRGB,
        58 => GPUTextureFormat::D16_UNORM,
        59 => GPUTextureFormat::D24_UNORM,
        60 => GPUTextureFormat::D32_FLOAT,
        61 => GPUTextureFormat::D24_UNORM_S8_UINT,
        62 => GPUTextureFormat::D32_FLOAT_S8_UINT,
        63 => GPUTextureFormat::ASTC_4x4_UNORM,
        64 => GPUTextureFormat::ASTC_5x4_UNORM,
        65 => GPUTextureFormat::ASTC_5x5_UNORM,
        66 => GPUTextureFormat::ASTC_6x5_UNORM,
        67 => GPUTextureFormat::ASTC_6x6_UNORM,
        68 => GPUTextureFormat::ASTC_8x5_UNORM,
        69 => GPUTextureFormat::ASTC_8x6_UNORM,
        70 => GPUTextureFormat::ASTC_8x8_UNORM,
        71 => GPUTextureFormat::ASTC_10x5_UNORM,
        72 => GPUTextureFormat::ASTC_10x6_UNORM,
        73 => GPUTextureFormat::ASTC_10x8_UNORM,
        74 => GPUTextureFormat::ASTC_10x10_UNORM,
        75 => GPUTextureFormat::ASTC_12x10_UNORM,
        76 => GPUTextureFormat::ASTC_12x12_UNORM,
        77 => GPUTextureFormat::ASTC_4x4_UNORM_SRGB,
        78 => GPUTextureFormat::ASTC_5x4_UNORM_SRGB,
        79 => GPUTextureFormat::ASTC_5x5_UNORM_SRGB,
        80 => GPUTextureFormat::ASTC_6x5_UNORM_SRGB,
        81 => GPUTextureFormat::ASTC_6x6_UNORM_SRGB,
        82 => GPUTextureFormat::ASTC_8x5_UNORM_SRGB,
        83 => GPUTextureFormat::ASTC_8x6_UNORM_SRGB,
        84 => GPUTextureFormat::ASTC_8x8_UNORM_SRGB,
        85 => GPUTextureFormat::ASTC_10x5_UNORM_SRGB,
        86 => GPUTextureFormat::ASTC_10x6_UNORM_SRGB,
        87 => GPUTextureFormat::ASTC_10x8_UNORM_SRGB,
        88 => GPUTextureFormat::ASTC_10x10_UNORM_SRGB,
        89 => GPUTextureFormat::ASTC_12x10_UNORM_SRGB,
        90 => GPUTextureFormat::ASTC_12x12_UNORM_SRGB,
        91 => GPUTextureFormat::ASTC_4x4_FLOAT,
        92 => GPUTextureFormat::ASTC_5x4_FLOAT,
        93 => GPUTextureFormat::ASTC_5x5_FLOAT,
        94 => GPUTextureFormat::ASTC_6x5_FLOAT,
        95 => GPUTextureFormat::ASTC_6x6_FLOAT,
        96 => GPUTextureFormat::ASTC_8x5_FLOAT,
        97 => GPUTextureFormat::ASTC_8x6_FLOAT,
        98 => GPUTextureFormat::ASTC_8x8_FLOAT,
        99 => GPUTextureFormat::ASTC_10x5_FLOAT,
        100 => GPUTextureFormat::ASTC_10x6_FLOAT,
        101 => GPUTextureFormat::ASTC_10x8_FLOAT,
        102 => GPUTextureFormat::ASTC_10x10_FLOAT,
        103 => GPUTextureFormat::ASTC_12x10_FLOAT,
        _ => GPUTextureFormat::ASTC_12x12_FLOAT,
    };
    proof {
        lemma_texture_format_code_injective(result, sdl_texture_format_of(format as int));
    }
    result
}

/// Translates an access mode to the backend's usage flag.
pub fn gpu_texture_access_to_sdl(access: GPUTextureAccess) -> (flags: u32)
    ensures
        flags == sdl_texture_usage_flag(access),
{
    match access {
        GPUTextureAccess::Sampler => 1,
        GPUTextureAccess::RenderTarget => 2,
        GPUTextureAccess::DepthStencil => 4,
        GPUTextureAccess::GraphicsStorage => 8,
        GPUTextureAccess::ComputeStorageRead => 16,
        GPUTextureAccess::ComputeStorageWrite => 32,
        GPUTextureAccess::ComputeStorageReadWrite => 64,
    }
}

/// Bytes per texel of `format`.
pub fn gpu_texture_format_to_byte_size(format: GPUTextureFormat) -> (size: u32)
    ensures
        size == texture_format_byte_size(format),
        1 <= size <= 16,
{
    match format {
        GPUTextureFormat::R8 => 1,
        GPUTextureFormat::R8G8 => 2,
        GPUTextureFormat::R8G8B8A8 => 4,
        GPUTextureFormat::B8G8R8A8 => 4,
        GPUTextureFormat::A8_UNORM => 1,
        GPUTextureFormat::R16_UNORM => 2,
        GPUTextureFormat::R16G16_UNORM => 4,
        GPUTextureFormat::R16G16B16A16_UNORM => 8,
        GPUTextureFormat::R10G10B10A2_UNORM => 4,
        GPUTextureFormat::B5G6R5_UNORM => 2,
        GPUTextureFormat::B5G5R5A1_UNORM => 2,
        GPUTextureFormat::B4G4R4A4_UNORM => 2,
        GPUTextureFormat::BC1_RGBA_UNORM => 8,
        GPUTextureFormat::BC2_RGBA_UNORM => 16,
        GPUTextureFormat::BC3_RGBA_UNORM => 16,
        GPUTextureFormat::BC4_R_UNORM => 8,
        GPUTextureFormat::BC5_RG_UNORM => 16,
        GPUTextureFormat::BC7_RGBA_UNORM => 16,
        GPUTextureFormat::BC6H_RGB_FLOAT => 16,
        GPUTextureFormat::BC6H_RGB_UFLOAT => 16,
        GPUTextureFormat::R8_SNORM => 1,
        GPUTextureFormat::R8G8_SNORM => 2,
        GPUTextureFormat::R8G8B8A8_SNORM => 4,
        GPUTextureFormat::R16_SNORM => 2,
        GPUTextureFormat::R16G16_SNORM => 4,
        GPUTextureFormat::R16G16B16A16_SNORM => 8,
        GPUTextureFormat::R16_FLOAT => 2,
        GPUTextureFormat::R16G16_FLOAT => 4,
        GPUTextureFormat::R16G16B16A16_FLOAT => 8,
        GPUTextureFormat::R32_FLOAT => 4,
        GPUTextureFormat::R32G32_FLOAT => 8,
        GPUTextureFormat::R32G32B32A32_FLOAT => 16,
        GPUTextureFormat::R11G11B10_UFLOAT => 4,
        GPUTextureFormat::R8_UINT => 1,
        GPUTextureFormat::R8G8_UINT => 2,
        GPUTextureFormat::R8G8B8A8_UINT => 4,
        GPUTextureFormat::R16_UINT => 2,
        GPUTextureFormat::R16G16_UINT => 4,
        GPUTextureFormat::R16G16B16A16_UINT => 8,
        GPUTextureFormat::R32_UINT => 4,
        GPUTextureFormat::R32G32_UINT => 8,
        GPUTextureFormat::R32G32B32A32_UINT => 16,
        GPUTextureFormat::R8_INT => 1,
        GPUTextureFormat::R8G8_INT => 2,
        GPUTextureFormat::R8G8B8A8_INT => 4,
        GPUTextureFormat::R16_INT => 2,
        GPUTextureFormat::R16G16_INT => 4,
        GPUTextureFormat::R16G16B16A16_INT => 8,
        GPUTextureFormat::R32_INT => 4,
        GPUTextureFormat::R32G32_INT => 8,
        GPUTextureFormat::R32G32B32A32_INT => 16,
        GPUTextureFormat::R8G8B8A8_UNORM_SRGB => 4,
        GPUTextureFormat::B8G8R8A8_UNORM_SRGB => 4,
        GPUTextureFormat::BC1_RGBA_UNORM_SRGB => 8,
        GPUTextureFormat::BC2_RGBA_UNORM_SRGB => 16,
        GPUTextureFormat::BC3_RGBA_UNORM_SRGB => 16,
        GPUTextureFormat::BC7_RGBA_UNORM_SRGB => 16,
        GPUTextureFormat::D16_UNORM => 2,
        GPUTextureFormat::D24_UNORM => 3,
        GPUTextureFormat::D32_FLOAT => 4,
        GPUTextureFormat::D24_UNORM_S8_UINT => 4,
        GPUTextureFormat::D32_FLOAT_S8_UINT => 5,
        GPUTextureFormat::ASTC_4x4_UNORM => 16,
        GPUTextureFormat::ASTC_5x4_UNORM => 16,
        GPUTextureFormat::ASTC_5x5_UNORM => 16,
        GPUTextureFormat::ASTC_6x5_UNORM => 16,
        GPUTextureFormat::ASTC_6x6_UNORM => 16,
        GPUTextureFormat::ASTC_8x5_UNORM => 16,
        GPUTextureFormat::ASTC_8x6_UNORM => 16,
        GPUTextureFormat::ASTC_8x8_UNORM => 16,
        GPUTextureFormat::ASTC_10x5_UNORM => 16,
        GPUTextureFormat::ASTC_10x6_UNORM => 16,
        GPUTextureFormat::ASTC_10x8_UNORM => 16,
        GPUTextureFormat::ASTC_10x10_UNORM => 16,
        GPUTextureFormat::ASTC_12x10_UNORM => 16,
        GPUTextureFormat::ASTC_12x12_UNORM => 16,
        GPUTextureFormat::ASTC_4x4_UNORM_SRGB => 16,
        GPUTextureFormat::ASTC_5x4_UNORM_SRGB => 16,
        GPUTextureFormat::ASTC_5x5_UNORM_SRGB => 16,
        GPUTextureFormat::ASTC_6x5_UNORM_SRGB => 16,
        GPUTextureFormat::ASTC_6x6_UNORM_SRGB => 16,
        GPUTextureFormat::ASTC_8x5_UNORM_SRGB => 16,
        GPUTextureFormat::ASTC_8x6_UNORM_SRGB => 16,
        GPUTextureFormat::ASTC_8x8_UNORM_SRGB => 16,
        GPUTextureFormat::ASTC_10x5_UNORM_SRGB => 16,
        GPUTextureFormat::ASTC_10x6_UNORM_SRGB => 16,
        GPUTextureFormat::ASTC_10x8_UNORM_SRGB => 16,
        GPUTextureFormat::ASTC_10x10_UNORM_SRGB => 16,
        GPUTextureFormat::ASTC_12x10_UNORM_SRGB => 16,
        GPUTextureFormat::ASTC_12x12_UNORM_SRGB => 16,
        GPUTextureFormat::ASTC_4x4_FLOAT => 16,
        GPUTextureFormat::ASTC_5x4_FLOAT => 16,
        GPUTextureFormat::ASTC_5x5_FLOAT => 16,
        GPUTextureFormat::ASTC_6x5_FLOAT => 16,
        GPUTextureFormat::ASTC_6x6_FLOAT => 16,
        GPUTextureFormat::ASTC_8x5_FLOAT => 16,
        GPUTextureFormat::ASTC_8x6_FLOAT => 16,
        GPUTextureFormat::ASTC_8x8_FLOAT => 16,
        GPUTextureFormat::ASTC_10x5_FLOAT => 16,
        GPUTextureFormat::ASTC_10x6_FLOAT => 16,
        GPUTextureFormat::ASTC_10x8_FLOAT => 16,
        GPUTextureFormat::ASTC_10x10_FLOAT => 16,
        GPUTextureFormat::ASTC_12x10_FLOAT => 16,
        GPUTextureFormat::ASTC_12x12_FLOAT => 16,
    }
}

/// Two formats with the same backend code are the same format.
pub proof fn lemma_texture_format_code_injective(a: GPUTextureFormat, b: GPUTextureFormat)
    requires
        sdl_texture_format_code(a) == sdl_texture_format_code(b),
    ensures
        a == b,
{
}

/// Every code in the backend's range is the code of exactly one format.
pub proof fn lemma_texture_format_code_onto(code: int)
    requires
        is_sdl_texture_format(code),
    ensures
        exists|format: GPUTextureFormat| sdl_texture_format_code(format) == code,
{
    if code <= 26 {
        lemma_code_onto_low(code);
    } else if code <= 52 {
        lemma_code_onto_mid(code);
    } else if code <= 78 {
        lemma_code_onto_high(code);
    } else {
        lemma_code_onto_top(code);
    }
}

proof fn lemma_code_onto_low(code: int)
    requires
        1 <= code <= 26,
    ensures
        exists|format: GPUTextureFormat| sdl_texture_format_code(format) == code,
{
    if code == 1 {
        assert(sdl_texture_format_code(GPUTextureFormat::A8_UNORM) == code);
    }     else if code == 2 {
        assert(sdl_texture_format_code(GPUTextureFormat::R8) == code);
    }     else if code == 3 {
        assert(sdl_texture_format_code(GPUTextureFormat::R8G8) == code);
    }     else if code == 4 {
        assert(sdl_texture_format_code(GPUTextureFormat::R8G8B8A8) == code);
    }     else if code == 5 {
        assert(sdl_texture_format_code(GPUTextureFormat::R16_UNORM) == code);
    }     else if code == 6 {
        assert(sdl_texture_format_code(GPUTextureFormat::R16G16_UNORM) == code);
    }     else if code == 7 {
        assert(sdl_texture_format_code(GPUTextureFormat::R16G16B16A16_UNORM) == code);
    }     else if code == 8 {
        assert(sdl_texture_format_code(GPUTextureFormat::R10G10B10A2_UNORM) == code);
    }     else if code == 9 {
        assert(sdl_texture_format_code(GPUTextureFormat::B5G6R5_UNORM) == code);
    }     else if code == 10 {
        assert(sdl_texture_format_code(GPUTextureFormat::B5G5R5A1_UNORM) == code);
    }     else if code == 11 {
        assert(sdl_texture_format_code(GPUTextureFormat::B4G4R4A4_UNORM) == code);
    }     else if code == 12 {
        assert(sdl_texture_format_code(GPUTextureFormat::B8G8R8A8) == code);
    }     else if code == 13 {
        assert(sdl_texture_format_code(GPUTextureFormat::BC1_RGBA_UNORM) == code);
    }     else if code == 14 {
        assert(sdl_texture_format_code(GPUTextureFormat::BC2_RGBA_UNORM) == code);
    }     else if code == 15 {
        assert(sdl_texture_format_code(GPUTextureFormat::BC3_RGBA_UNORM) == code);
    }     else if code == 16 {
        assert(sdl_texture_format_code(GPUTextureFormat::BC4_R_UNORM) == code);
    }     else if code == 17 {
        assert(sdl_texture_format_code(GPUTextureFormat::BC5_RG_UNORM) == code);
    }     else if code == 18 {
        assert(sdl_texture_format_code(GPUTextureFormat::BC7_RGBA_UNORM) == code);
    }     else if code == 19 {
        assert(sdl_texture_format_code(GPUTextureFormat::BC6H_RGB_FLOAT) == code);
    }     else if code == 20 {
        assert(sdl_texture_format_code(GPUTextureFormat::BC6H_RGB_UFLOAT) == code);
    }     else if code == 21 {
        assert(sdl_texture_format_code(GPUTextureFormat::R8_SNORM) == code);
    }     else if code == 22 {
        assert(sdl_texture_format_code(GPUTextureFormat::R8G8_SNORM) == code);
    }     else if code == 23 {
        assert(sdl_texture_format_code(GPUTextureFormat::R8G8B8A8_SNORM) == code);
    }     else if code == 24 {
        assert(sdl_texture_format_code(GPUTextureFormat::R16_SNORM) == code);
    }     else if code == 25 {
        assert(sdl_texture_format_code(GPUTextureFormat::R16G16_SNORM) == code);
    }     else if code == 26 {
        assert(sdl_texture_format_code(GPUTextureFormat::R16G16B16A16_SNORM) == code);
    }
}

proof fn lemma_code_onto_mid(code: int)
    requires
        27 <= code <= 52,
    ensures
        exists|format: GPUTextureFormat| sdl_texture_format_code(format) == code,
{
    if code == 27 {
        assert(sdl_texture_format_code(GPUTextureFormat::R16_FLOAT) == code);
    }     else if code == 28 {
        assert(sdl_texture_format_code(GPUTextureFormat::R16G16_FLOAT) == code);
    }     else if code == 29 {
        assert(sdl_texture_format_code(GPUTextureFormat::R16G16B16A16_FLOAT) == code);
    }     else if code == 30 {
        assert(sdl_texture_format_code(GPUTextureFormat::R32_FLOAT) == code);
    }     else if code == 31 {
        assert(sdl_texture_format_code(GPUTextureFormat::R32G32_FLOAT) == code);
    }     else if code == 32 {
        assert(sdl_texture_format_code(GPUTextureFormat::R32G32B32A32_FLOAT) == code);
    }     else if code == 33 {
        assert(sdl_texture_format_code(GPUTextureFormat::R11G11B10_UFLOAT) == code);
    }     else if code == 34 {
        assert(sdl_texture_format_code(GPUTextureFormat::R8_UINT) == code);
    }     else if code == 35 {
        assert(sdl_texture_format_code(GPUTextureFormat::R8G8_UINT) == code);
    }     else if code == 36 {
        assert(sdl_texture_format_code(GPUTextureFormat::R8G8B8A8_UINT) == code);
    }     else if code == 37 {
        assert(sdl_texture_format_code(GPUTextureFormat::R16_UINT) == code);
    }     else if code == 38 {
        assert(sdl_texture_format_code(GPUTextureFormat::R16G16_UINT) == code);
    }     else if code == 39 {
        assert(sdl_texture_format_code(GPUTextureFormat::R16G16B16A16_UINT) == code);
    }     else if code == 40 {
        assert(sdl_texture_format_code(GPUTextureFormat::R32_UINT) == code);
    }     else if code == 41 {
        assert(sdl_texture_format_code(GPUTextureFormat::R32G32_UINT) == code);
    }     else if code == 42 {
        assert(sdl_texture_format_code(GPUTextureFormat::R32G32B32A32_UINT) == code);
    }     else if code == 43 {
        assert(sdl_texture_format_code(GPUTextureFormat::R8_INT) == code);
    }     else if code == 44 {
        assert(sdl_texture_format_code(GPUTextureFormat::R8G8_INT) == code);
    }     else if code == 45 {
        assert(sdl_texture_format_code(GPUTextureFormat::R8G8B8A8_INT) == code);
    }     else if code == 46 {
        assert(sdl_texture_format_code(GPUTextureFormat::R16_INT) == code);
    }     else if code == 47 {
        assert(sdl_texture_format_code(GPUTextureFormat::R16G16_INT) == code);
    }     else if code == 48 {
        assert(sdl_texture_format_code(GPUTextureFormat::R16G16B16A16_INT) == code);
    }     else if code == 49 {
        assert(sdl_texture_format_code(GPUTextureFormat::R32_INT) == code);
    }     else if code == 50 {
        assert(sdl_texture_format_code(GPUTextureFormat::R32G32_INT) == code);
    }     else if code == 51 {
        assert(sdl_texture_format_code(GPUTextureFormat::R32G32B32A32_INT) == code);
    }     else if code == 52 {
        assert(sdl_texture_format_code(GPUTextureFormat::R8G8B8A8_UNORM_SRGB) == code);
    }
}

proof fn lemma_code_onto_high(code: int)
    requires
        53 <= code <= 78,
    ensures
        exists|format: GPUTextureFormat| sdl_texture_format_code(format) == code,
{
    if code == 53 {
        assert(sdl_texture_format_code(GPUTextureFormat::B8G8R8A8_UNORM_SRGB) == code);
    }     else if code == 54 {
        assert(sdl_texture_format_code(GPUTextureFormat::BC1_RGBA_UNORM_SRGB) == code);
    }     else if code == 55 {
        assert(sdl_texture_format_code(GPUTextureFormat::BC2_RGBA_UNORM_SRGB) == code);
    }     else if code == 56 {
        assert(sdl_texture_format_code(GPUTextureFormat::BC3_RGBA_UNORM_SRGB) == code);
    }     else if code == 57 {
        assert(sdl_texture_format_code(GPUTextureFormat::BC7_RGBA_UNORM_SRGB) == code);
    }     else if code == 58 {
        assert(sdl_texture_format_code(GPUTextureFormat::D16_UNORM) == code);
    }     else if code == 59 {
        assert(sdl_texture_format_code(GPUTextureFormat::D24_UNORM) == code);
    }     else if code == 60 {
        assert(sdl_texture_format_code(GPUTextureFormat::D32_FLOAT) == code);
    }     else if code == 61 {
        assert(sdl_texture_format_code(GPUTextureFormat::D24_UNORM_S8_UINT) == code);
    }     else if code == 62 {
        assert(sdl_texture_format_code(GPUTextureFormat::D32_FLOAT_S8_UINT) == code);
    }     else if code == 63 {
        assert(sdl_texture_format_code(GPUTextureFormat::ASTC_4x4_UNORM) == code);
    }     else if code == 64 {
        assert(sdl_texture_format_code(GPUTextureFormat::ASTC_5x4_UNORM) == code);
    }     else if code == 65 {
        assert(sdl_texture_format_code(GPUTextureFormat::ASTC_5x5_UNORM) == code);
    }     else if code == 66 {
        assert(sdl_texture_format_code(GPUTextureFormat::ASTC_6x5_UNORM) == code);
    }     else if code == 67 {
        assert(sdl_texture_format_code(GPUTextureFormat::ASTC_6x6_UNORM) == code);
    }     else if code == 68 {
        assert(sdl_texture_format_code(GPUTextureFormat::ASTC_8x5_UNORM) == code);
    }     else if code == 69 {
        assert(sdl_texture_format_code(GPUTextureFormat::ASTC_8x6_UNORM) == code);
    }     else if code == 70 {
        assert(sdl_texture_format_code(GPUTextureFormat::ASTC_8x8_UNORM) == code);
    }     else if code == 71 {
        assert(sdl_texture_format_code(GPUTextureFormat::ASTC_10x5_UNORM) == code);
    }     else if code == 72 {
        assert(sdl_texture_format_code(GPUTextureFormat::ASTC_10x6_UNORM) == code);
    }     else if code == 73 {
        assert(sdl_texture_format_code(GPUTextureFormat::ASTC_10x8_UNORM) == code);
    }     else if code == 74 {
        assert(sdl_texture_format_code(GPUTextureFormat::ASTC_10x10_UNORM) == code);
    }     else if code == 75 {
        assert(sdl_texture_format_code(GPUTextureFormat::ASTC_12x10_UNORM) == code);
    }     else if code == 76 {
        assert(sdl_texture_format_code(GPUTextureFormat::ASTC_12x12_UNORM) == code);
    }     else if code == 77 {
        assert(sdl_texture_format_code(GPUTextureFormat::ASTC_4x4_UNORM_SRGB) == code);
    }     else if code == 78 {
        assert(sdl_texture_format_code(GPUTextureFormat::ASTC_5x4_UNORM_SRGB) == code);
    }
}

proof fn lemma_code_onto_top(code: int)
    requires
        79 <= code <= 104,
    ensures
        exists|format: GPUTextureFormat| sdl_texture_format_code(format) == code,
{
    if code == 79 {
        assert(sdl_texture_format_code(GPUTextureFormat::ASTC_5x5_UNORM_SRGB) == code);
    }     else if code == 80 {
        assert(sdl_texture_format_code(GPUTextureFormat::ASTC_6x5_UNORM_SRGB) == code);
    }     else if code == 81 {
        assert(sdl_texture_format_code(GPUTextureFormat::ASTC_6x6_UNORM_SRGB) == code);
    }     else if code == 82 {
        assert(sdl_texture_format_code(GPUTextureFormat::ASTC_8x5_UNORM_SRGB) == code);
    }     else if code == 83 {
        assert(sdl_texture_format_code(GPUTextureFormat::ASTC_8x6_UNORM_SRGB) == code);
    }     else if code == 84 {
        assert(sdl_texture_format_code(GPUTextureFormat::ASTC_8x8_UNORM_SRGB) == code);
    }     else if code == 85 {
        assert(sdl_texture_format_code(GPUTextureFormat::ASTC_10x5_UNORM_SRGB) == code);
    }     else if code == 86 {
        assert(sdl_texture_format_code(GPUTextureFormat::ASTC_10x6_UNORM_SRGB) == code);
    }     else if code == 87 {
        assert(sdl_texture_format_code(GPUTextureFormat::ASTC_10x8_UNORM_SRGB) == code);
    }     else if code == 88 {
        assert(sdl_texture_format_code(GPUTextureFormat::ASTC_10x10_UNORM_SRGB) == code);
    }     else if code == 89 {
        assert(sdl_texture_format_code(GPUTextureFormat::ASTC_12x10_UNORM_SRGB) == code);
    }     else if code == 90 {
        assert(sdl_texture_format_code(GPUTextureFormat::ASTC_12x12_UNORM_SRGB) == code);
    }     else if code == 91 {
        assert(sdl_texture_format_code(GPUTextureFormat::ASTC_4x4_FLOAT) == code);
    }     else if code == 92 {
        assert(sdl_texture_format_code(GPUTextureFormat::ASTC_5x4_FLOAT) == code);
    }     else if code == 93 {
        assert(sdl_texture_format_code(GPUTextureFormat::ASTC_5x5_FLOAT) == code);
    }     else if code == 94 {
        assert(sdl_texture_format_code(GPUTextureFormat::ASTC_6x5_FLOAT) == code);
    }     else if code == 95 {
        assert(sdl_texture_format_code(GPUTextureFormat::ASTC_6x6_FLOAT) == code);
    }     else if code == 96 {
        assert(sdl_texture_format_code(GPUTextureFormat::ASTC_8x5_FLOAT) == code);
    }     else if code == 97 {
        assert(sdl_texture_format_code(GPUTextureFormat::ASTC_8x6_FLOAT) == code);
    }     else if code == 98 {
        assert(sdl_texture_format_code(GPUTextureFormat::ASTC_8x8_FLOAT) == code);
    }     else if code == 99 {
        assert(sdl_texture_format_code(GPUTextureFormat::ASTC_10x5_FLOAT) == code);
    }     else if code == 100 {
        assert(sdl_texture_format_code(GPUTextureFormat::ASTC_10x6_FLOAT) == code);
    }     else if code == 101 {
        assert(sdl_texture_format_code(GPUTextureFormat::ASTC_10x8_FLOAT) == code);
    }     else if code == 102 {
        assert(sdl_texture_format_code(GPUTextureFormat::ASTC_10x10_FLOAT) == code);
    }     else if code == 103 {
        assert(sdl_texture_format_code(GPUTextureFormat::ASTC_12x10_FLOAT) == code);
    }     else if code == 104 {
        assert(sdl_texture_format_code(GPUTextureFormat::ASTC_12x12_FLOAT) == code);
    }
}

} // verus!
