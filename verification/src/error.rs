//! The errors that the library reports.

use vstd::prelude::*;
use vstd::string::*;

verus! {

/// The device object or step that a creation request was about.
#[derive(Debug, Clone, Copy, PartialEq, Eq, Structural)]
pub enum Resource {
    Device,
    WindowClaim,
    CommandBuffer,
    SwapchainTexture,
    RenderPass,
    CopyPass,
    Texture,
    TextureUpload,
    Sampler,
    Buffer,
    TransferBuffer,
    Shader,
    GraphicsPipeline,
}

/// Why an operation did not go through.
#[derive(Debug, Clone, PartialEq, Eq)]
pub enum GPUError {
    /// A command buffer was submitted or cancelled before.
    AlreadyUsed,
    /// A pass was ended before.
    AlreadyEnded,
    /// The bytes supplied do not fit the target they are meant for.
    SizeMismatch,
    /// The source holds more bytes than the staging buffer can take.
    CapacityExceeded,
    /// An upload buffer was asked to download, or the reverse.
    WrongDirection,
    /// The backend could not map the staging memory.
    MapFailed,
    /// The backend refused to create `what`; `detail` is its diagnostic
    /// text where the library asked for it.
    CreationFailed { what: Resource, detail: Option<String> },
    /// The backend rejected a submission.
    SubmitFailed,
    /// The pixel layout has no texture format.
    UnsupportedFormat,
}

impl Resource {
    /// The name of the resource as it appears in messages.
    pub open spec fn spec_name(self) -> Seq<char> {
        match self {
            Resource::Device => "GPU device"@,
            Resource::WindowClaim => "window claim"@,
            Resource::CommandBuffer => "command buffer"@,
            Resource::SwapchainTexture => "swapchain texture"@,
            Resource::RenderPass => "renderpass"@,
            Resource::CopyPass => "copypass"@,
            Resource::Texture => "texture"@,
            Resource::TextureUpload => "texture contents"@,
            Resource::Sampler => "sampler"@,
            Resource::Buffer => "buffer"@,
            Resource::TransferBuffer => "transfer buffer"@,
            Resource::Shader => "shader"@,
            Resource::GraphicsPipeline => "graphics pipeline"@,
        }
    }

    /// The name of the resource as it appears in messages.
    pub fn name(&self) -> (s: &'static str)
        ensures
            s@ == self.spec_name(),
    {
        match self {
            Resource::Device => "GPU device",
            Resource::WindowClaim => "window claim",
            Resource::CommandBuffer => "command buffer",
            Resource::SwapchainTexture => "swapchain texture",
            Resource::RenderPass => "renderpass",
            Resource::CopyPass => "copypass",
            Resource::Texture => "texture",
            Resource::TextureUpload => "texture contents",
            Resource::Sampler => "sampler",
            Resource::Buffer => "buffer",
            Resource::TransferBuffer => "transfer buffer",
            Resource::Shader => "shader",
            Resource::GraphicsPipeline => "graphics pipeline",
        }
    }
}

impl GPUError {
    /// The text of the error: a fixed sentence, followed for a backend
    /// failure by a colon and the backend's own words.
    pub open spec fn spec_message(self) -> Seq<char> {
        match self {
            GPUError::AlreadyUsed => "Command buffer is already used!"@,
            GPUError::AlreadyEnded => "Pass is already ended!"@,
            GPUError::SizeMismatch => "Data size does not match the size of its target"@,
            GPUError::CapacityExceeded => "Buffer size is larger than transfer buffer size"@,
            GPUError::WrongDirection => "Transfer buffer is not set to this direction"@,
            GPUError::MapFailed => "Failed to map transfer buffer"@,
            GPUError::CreationFailed { what, detail } => match detail {
                Some(text) => "Failed to create "@ + what.spec_name() + ": "@ + text@,
                None => "Failed to create "@ + what.spec_name(),
            },
            GPUError::SubmitFailed => "Failed to submit GPU command buffer with fence"@,
            GPUError::UnsupportedFormat => "Unsupported texture format"@,
        }
    }

    /// Renders the error as text.
    pub fn message(&self) -> (text: String)
        ensures
            text@ == self.spec_message(),
    {
        match self {
            GPUError::AlreadyUsed => String::from_str("Command buffer is already used!"),
            GPUError::AlreadyEnded => String::from_str("Pass is already ended!"),
            GPUError::SizeMismatch => String::from_str(
                "Data size does not match the size of its target",
            ),
            GPUError::CapacityExceeded => String::from_str(
                "Buffer size is larger than transfer buffer size",
            ),
            GPUError::WrongDirection => String::from_str(
                "Transfer buffer is not set to this direction",
            ),
            GPUError::MapFailed => String::from_str("Failed to map transfer buffer"),
            GPUError::CreationFailed { what, detail } => {
                let head = String::from_str("Failed to create ").concat(what.name());
                match detail {
                    Some(text) => head.concat(": ").concat(text.as_str()),
                    None => head,
                }
            },
            GPUError::SubmitFailed => String::from_str(
                "Failed to submit GPU command buffer with fence",
            ),
            GPUError::UnsupportedFormat => String::from_str("Unsupported texture format"),
        }
    }
}

} // verus!
