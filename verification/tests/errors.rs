use est_gpu::error::{GPUError, Resource};

#[test]
fn messages_of_the_plain_errors() {
    assert_eq!(GPUError::AlreadyUsed.message(), "Command buffer is already used!");
    assert_eq!(GPUError::AlreadyEnded.message(), "Pass is already ended!");
    assert_eq!(
        GPUError::SizeMismatch.message(),
        "Data size does not match the size of its target"
    );
    assert_eq!(
        GPUError::CapacityExceeded.message(),
        "Buffer size is larger than transfer buffer size"
    );
    assert_eq!(
        GPUError::WrongDirection.message(),
        "Transfer buffer is not set to this direction"
    );
    assert_eq!(GPUError::MapFailed.message(), "Failed to map transfer buffer");
    assert_eq!(
        GPUError::SubmitFailed.message(),
        "Failed to submit GPU command buffer with fence"
    );
    assert_eq!(GPUError::UnsupportedFormat.message(), "Unsupported texture format");
}

#[test]
fn creation_failure_names_the_resource() {
    let names = [
        (Resource::Device, "GPU device"),
        (Resource::WindowClaim, "window claim"),
        (Resource::CommandBuffer, "command buffer"),
        (Resource::SwapchainTexture, "swapchain texture"),
        (Resource::RenderPass, "renderpass"),
        (Resource::CopyPass, "copypass"),
        (Resource::Texture, "texture"),
        (Resource::TextureUpload, "texture contents"),
        (Resource::Sampler, "sampler"),
        (Resource::Buffer, "buffer"),
        (Resource::TransferBuffer, "transfer buffer"),
        (Resource::Shader, "shader"),
        (Resource::GraphicsPipeline, "graphics pipeline"),
    ];
    for (what, name) in names {
        assert_eq!(what.name(), name);
        assert_eq!(
            GPUError::CreationFailed { what, detail: None }.message(),
            format!("Failed to create {}", name)
        );
    }
}

#[test]
fn creation_failure_attaches_the_backends_text() {
    let error = GPUError::CreationFailed {
        what: Resource::CommandBuffer,
        detail: Some("device lost".to_string()),
    };
    assert_eq!(error.message(), "Failed to create command buffer: device lost");
    let empty = GPUError::CreationFailed { what: Resource::Device, detail: Some(String::new()) };
    assert_eq!(empty.message(), "Failed to create GPU device: ");
}
