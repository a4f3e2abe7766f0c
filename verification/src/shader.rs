//! Shaders: compiled stages of a pipeline.

use vstd::prelude::*;
use crate::backend::DeviceCall;

verus! {

/// The stage that a shader runs at.
#[derive(Debug, Clone, Copy, PartialEq, Eq, Structural)]
pub enum GPUShaderType {
    Vertex,
    Fragment,
}

/// The backend's code for each stage.
pub open spec fn sdl_shader_stage_code(shader_type: GPUShaderType) -> int {
    match shader_type {
        GPUShaderType::Vertex => 0,
        GPUShaderType::Fragment => 1,
    }
}

/// A compiled shader on the device.
#[derive(Debug, PartialEq, Eq)]
pub struct GPUShader {
    pub device: u64,
    pub shader: u64,
    pub shader_type: GPUShaderType,
}

impl GPUShader {
    /// Gives the shader back to the device.
    pub fn release(self) -> (call: DeviceCall)
        ensures
            call == (DeviceCall::ReleaseShader { device: self.device, shader: self.shader }),
    {
        DeviceCall::ReleaseShader { device: self.device, shader: self.shader }
    }
}

} // verus!
