//! Textures: pixel formats, access modes and the handle of a device texture.

use vstd::prelude::*;
use crate::backend::DeviceCall;
use crate::math::Rect;
use crate::texture_utils::{gpu_texture_format_to_byte_size, texture_format_byte_size};

verus! {

/// How the device is going to use a texture.
#[derive(Debug, Clone, Copy, PartialEq, Eq, Structural)]
pub enum GPUTextureAccess {
    Sampler,
    RenderTarget,
    DepthStencil,
    GraphicsStorage,
    ComputeStorageRead,
    ComputeStorageWrite,
    ComputeStorageReadWrite,
}

/// Pixel layout of a texture.
#[derive(Debug, Clone, Copy, PartialEq, Eq, Structural)]
#[allow(non_camel_case_types)]
pub enum GPUTextureFormat {
    R8,
    R8G8,
    R8G8B8A8,
    B8G8R8A8,
    A8_UNORM,
    R16_UNORM,
    R16G16_UNORM,
    R16G16B16A16_UNORM,
    R10G10B10A2_UNORM,
    B5G6R5_UNORM,
    B5G5R5A1_UNORM,
    B4G4R4A4_UNORM,
    BC1_RGBA_UNORM,
    BC2_RGBA_UNORM,
    BC3_RGBA_UNORM,
    BC4_R_UNORM,
    BC5_RG_UNORM,
    BC7_RGBA_UNORM,
    BC6H_RGB_FLOAT,
    BC6H_RGB_UFLOAT,
    R8_SNORM,
    R8G8_SNORM,
    R8G8B8A8_SNORM,
    R16_SNORM,
    R16G16_SNORM,
    R16G16B16A16_SNORM,
    R16_FLOAT,
    R16G16_FLOAT,
    R16G16B16A16_FLOAT,
    R32_FLOAT,
    R32G32_FLOAT,
    R32G32B32A32_FLOAT,
    R11G11B10_UFLOAT,
    R8_UINT,
    R8G8_UINT,
    R8G8B8A8_UINT,
    R16_UINT,
    R16G16_UINT,
    R16G16B16A16_UINT,
    R32_UINT,
    R32G32_UINT,
    R32G32B32A32_UINT,
    R8_INT,
    R8G8_INT,
    R8G8B8A8_INT,
    R16_INT,
    R16G16_INT,
    R16G16B16A16_INT,
    R32_INT,
    R32G32_INT,
    R32G32B32A32_INT,
    R8G8B8A8_UNORM_SRGB,
    B8G8R8A8_UNORM_SRGB,
    BC1_RGBA_UNORM_SRGB,
    BC2_RGBA_UNORM_SRGB,
    BC3_RGBA_UNORM_SRGB,
    BC7_RGBA_UNORM_SRGB,
    D16_UNORM,
    D24_UNORM,
    D32_FLOAT,
    D24_UNORM_S8_UINT,
    D32_FLOAT_S8_UINT,
    ASTC_4x4_UNORM,
    ASTC_5x4_UNORM,
    ASTC_5x5_UNORM,
    ASTC_6x5_UNORM,
    ASTC_6x6_UNORM,
    ASTC_8x5_UNORM,
    ASTC_8x6_UNORM,
    ASTC_8x8_UNORM,
    ASTC_10x5_UNORM,
    ASTC_10x6_UNORM,
    ASTC_10x8_UNORM,
    ASTC_10x10_UNORM,
    ASTC_12x10_UNORM,
    ASTC_12x12_UNORM,
    ASTC_4x4_UNORM_SRGB,
    ASTC_5x4_UNORM_SRGB,
    ASTC_5x5_UNORM_SRGB,
    ASTC_6x5_UNORM_SRGB,
    ASTC_6x6_UNORM_SRGB,
    ASTC_8x5_UNORM_SRGB,
    ASTC_8x6_UNORM_SRGB,
    ASTC_8x8_UNORM_SRGB,
    ASTC_10x5_UNORM_SRGB,
    ASTC_10x6_UNORM_SRGB,
    ASTC_10x8_UNORM_SRGB,
    ASTC_10x10_UNORM_SRGB,
    ASTC_12x10_UNORM_SRGB,
    ASTC_12x12_UNORM_SRGB,
    ASTC_4x4_FLOAT,
    ASTC_5x4_FLOAT,
    ASTC_5x5_FLOAT,
    ASTC_6x5_FLOAT,
    ASTC_6x6_FLOAT,
    ASTC_8x5_FLOAT,
    ASTC_8x6_FLOAT,
    ASTC_8x8_FLOAT,
    ASTC_10x5_FLOAT,
    ASTC_10x6_FLOAT,
    ASTC_10x8_FLOAT,
    ASTC_10x10_FLOAT,
    ASTC_12x10_FLOAT,
    ASTC_12x12_FLOAT,
}

/// The channels of a decoded image and their width.
#[derive(Debug, Clone, Copy, PartialEq, Eq, Structural)]
pub enum ColorLayout {
    L8,
    La8,
    Rgb8,
    Rgba8,
    L16,
    La16,
    Rgb16,
    Rgba16,
    Rgb32F,
    Rgba32F,
    /// A layout that the library has no name for.
    Other,
}

/// An image as its decoder hands it over: the pixel bytes, row after row,
/// the extent and the layout of one pixel.
#[derive(Debug, PartialEq, Eq)]
pub struct DecodedImage {
    pub data: Vec<u8>,
    pub width: u32,
    pub height: u32,
    pub layout: ColorLayout,
}

/// A device texture together with the sampler that reads it.
///
/// `should_destroy` is false exactly for images that belong to the
/// presentation surface; the library never releases those.
#[derive(Debug, PartialEq, Eq)]
pub struct GPUTexture {
    pub device: u64,
    pub texture: u64,
    pub sampler: u64,
    pub should_destroy: bool,
    pub size: Rect,
    pub format: GPUTextureFormat,
    pub access: GPUTextureAccess,
}

/// What `GPUDevice::create_texture` needs: the pixels and their layout.
#[derive(Debug, PartialEq, Eq)]
pub struct GPUTextureCreateInfo {
    pub data: Vec<u8>,
    pub width: u32,
    pub height: u32,
    pub format: GPUTextureFormat,
    pub access: GPUTextureAccess,
}

impl GPUTexture {
    /// The bytes that the texels of the texture take: width times height
    /// times the size of one texel. A texture with a negative extent holds
    /// no number of bytes; it has the length -1.
    pub open spec fn spec_byte_len(self) -> int {
        if self.size.w < 0 || self.size.h < 0 {
            -1
        } else {
            self.size.w * self.size.h * texture_format_byte_size(self.format)
        }
    }

    /// The bytes that the texels of the texture take, if they can be
    /// counted in a `usize`.
    pub fn byte_len(&self) -> (len: Option<usize>)
        ensures
            len == (if 0 <= self.spec_byte_len() <= usize::MAX {
                Some(self.spec_byte_len() as usize)
            } else {
                None
            }),
    {
        if self.size.w < 0 || self.size.h < 0 {
            return None;
        }
        let w: u128 = self.size.w as u128;
        let h: u128 = self.size.h as u128;
        let texel: u128 = gpu_texture_format_to_byte_size(self.format) as u128;
        assert(w * h <= 0x7fff_ffff * 0x7fff_ffff) by (nonlinear_arith)
            requires
                0 <= w <= 0x7fff_ffff,
                0 <= h <= 0x7fff_ffff,
        ;
        let texels: u128 = w * h;
        assert(texels * texel <= 0x7fff_ffff * 0x7fff_ffff * 16) by (nonlinear_arith)
            requires
                0 <= texels <= 0x7fff_ffff * 0x7fff_ffff,
                0 <= texel <= 16,
        ;
        let total: u128 = texels * texel;
        if total > usize::MAX as u128 {
            None
        } else {
            Some(total as usize)
        }
    }

    /// The calls that give an owned texture back to the device: none for a
    /// borrowed image, else the sampler's release followed by the texture's.
    pub open spec fn release_calls(self) -> Seq<DeviceCall> {
        if self.should_destroy {
            seq![
                DeviceCall::ReleaseSampler { device: self.device, sampler: self.sampler },
                DeviceCall::ReleaseTexture { device: self.device, texture: self.texture },
            ]
        } else {
            Seq::empty()
        }
    }

    /// Ends the texture's life. Taking `self` by value means that the
    /// release calls of one texture are handed out at most once.
    pub fn release(self) -> (calls: Vec<DeviceCall>)
        ensures
            calls@ == self.release_calls(),
            !self.should_destroy ==> calls@.len() == 0,
    {
        let mut calls: Vec<DeviceCall> = Vec::new();
        if self.should_destroy {
            calls.push(DeviceCall::ReleaseSampler { device: self.device, sampler: self.sampler });
            calls.push(DeviceCall::ReleaseTexture { device: self.device, texture: self.texture });
            assert(calls@ =~= self.release_calls());
        }
        calls
    }
}

} // verus!
