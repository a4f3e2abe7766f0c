use est_gpu::backend::{
    BlendInfo, ColorTarget, DeviceCall, DeviceReply, DiagnosedRequest, PipelineInfo, Request,
    SamplerInfo, ShaderInfo, Step, TextureInfo, VertexAttributeInfo,
};
use est_gpu::buffer::{
    GPUBuffer, GPUBufferType, GPUTransferBuffer, GPUTransferUsage, TextureWriteState,
};
use est_gpu::command_buffer::CommandBuffer;
use est_gpu::copypass::GPUCopypass;
use est_gpu::device::{DeviceCreation, GPUDevice, SwapchainState, TextureCreation};
use est_gpu::error::{GPUError, Resource};
use est_gpu::math::{ColorBits, Rect};
use est_gpu::pipeline::{
    GPUColorBlendFactor, GPUColorBlendOp, GPUColorComponent, GPUColorTargetBlendState,
    GPUGraphicsPipeline, GPUGraphicsPipelineCreateInfo, GPUPrimitiveType, GPUVertexAttribute,
    GPUVertexBufferDescription, GPUVertexElement, GPUVertexInputRate,
};
use est_gpu::renderpass::GPURenderpass;
use est_gpu::shader::{GPUShader, GPUShaderType};
use est_gpu::texture::{
    ColorLayout, DecodedImage, GPUTexture, GPUTextureAccess, GPUTextureCreateInfo,
    GPUTextureFormat,
};
use sdl3_sys::gpu;

const DEVICE: u64 = 7;
const WINDOW: u64 = 5;

fn device() -> GPUDevice {
    GPUDevice { window: WINDOW, device: DEVICE }
}

fn command_buffer(handle: u64) -> CommandBuffer {
    CommandBuffer { device: DEVICE, command_buffer: handle, usable: true, has_swapchain: false }
}

fn refuse<S, T>(error: GPUError) -> Step<S, T> {
    Step::Finish { calls: vec![], result: Err(error) }
}

fn done<S, T>(value: T) -> Step<S, T> {
    Step::Finish { calls: vec![], result: Ok(value) }
}

fn failed(what: Resource, detail: Option<&str>) -> GPUError {
    GPUError::CreationFailed { what, detail: detail.map(|s| s.to_string()) }
}

#[test]
fn device_is_created_and_claims_the_window() {
    let step = GPUDevice::new(WINDOW, DeviceCreation::Start, DeviceReply::Nothing);
    assert_eq!(
        step,
        Step::Await {
            state: DeviceCreation::Creating,
            calls: vec![DeviceCall::CreateDevice {
                shader_formats: gpu::SDL_GPU_SHADERFORMAT_SPIRV.0,
                debug_mode: true,
            }],
        }
    );
    let step = GPUDevice::new(WINDOW, DeviceCreation::Creating, DeviceReply::Handle(DEVICE));
    assert_eq!(
        step,
        Step::Await {
            state: DeviceCreation::Claiming { device: DEVICE },
            calls: vec![DeviceCall::ClaimWindow { device: DEVICE, window: WINDOW }],
        }
    );
    let step = GPUDevice::new(
        WINDOW,
        DeviceCreation::Claiming { device: DEVICE },
        DeviceReply::Flag(true),
    );
    assert_eq!(step, done(GPUDevice { window: WINDOW, device: DEVICE }));
    assert_eq!(device().release(), DeviceCall::DestroyDevice { device: DEVICE });
}

#[test]
fn refused_device_is_diagnosed() {
    let step = GPUDevice::new(WINDOW, DeviceCreation::Creating, DeviceReply::Handle(0));
    assert_eq!(
        step,
        Step::Await { state: DeviceCreation::DiagnosingDevice, calls: vec![DeviceCall::LastError] }
    );
    let step = GPUDevice::new(
        WINDOW,
        DeviceCreation::DiagnosingDevice,
        DeviceReply::Text("no driver".to_string()),
    );
    assert_eq!(step, refuse(failed(Resource::Device, Some("no driver"))));
}

#[test]
fn refused_claim_destroys_the_device() {
    for reply in [DeviceReply::Flag(false), DeviceReply::Nothing, DeviceReply::Handle(1)] {
        let step = GPUDevice::new(WINDOW, DeviceCreation::Claiming { device: DEVICE }, reply);
        assert_eq!(
            step,
            Step::Await {
                state: DeviceCreation::DiagnosingClaim,
                calls: vec![DeviceCall::DestroyDevice { device: DEVICE }, DeviceCall::LastError],
            }
        );
    }
    let step = GPUDevice::new(
        WINDOW,
        DeviceCreation::DiagnosingClaim,
        DeviceReply::Text("claimed".to_string()),
    );
    assert_eq!(step, refuse(failed(Resource::WindowClaim, Some("claimed"))));
}

#[test]
fn command_buffer_is_acquired_usable() {
    let d = device();
    assert_eq!(
        d.acquire_command_buffer(DiagnosedRequest::Start, DeviceReply::Nothing),
        Step::Await {
            state: DiagnosedRequest::Sent,
            calls: vec![DeviceCall::AcquireCommandBuffer { device: DEVICE }],
        }
    );
    assert_eq!(
        d.acquire_command_buffer(DiagnosedRequest::Sent, DeviceReply::Handle(40)),
        done(CommandBuffer {
            device: DEVICE,
            command_buffer: 40,
            usable: true,
            has_swapchain: false,
        })
    );
}

#[test]
fn refused_command_buffer_carries_the_text() {
    let d = device();
    assert_eq!(
        d.acquire_command_buffer(DiagnosedRequest::Sent, DeviceReply::Handle(0)),
        Step::Await { state: DiagnosedRequest::Diagnosing, calls: vec![DeviceCall::LastError] }
    );
    assert_eq!(
        d.acquire_command_buffer(
            DiagnosedRequest::Diagnosing,
            DeviceReply::Text("device lost".to_string())
        ),
        refuse(failed(Resource::CommandBuffer, Some("device lost")))
    );
}

#[test]
fn swapchain_without_an_image_is_no_error() {
    let d = device();
    let mut cb = command_buffer(40);
    let step = d.acquire_swapchain(&mut cb, SwapchainState::Start, DeviceReply::Nothing);
    assert_eq!(
        step,
        Step::Await {
            state: SwapchainState::Acquiring,
            calls: vec![DeviceCall::AcquireSwapchainTexture { command_buffer: 40, window: WINDOW }],
        }
    );
    let step = d.acquire_swapchain(
        &mut cb,
        SwapchainState::Acquiring,
        DeviceReply::Swapchain { acquired: true, texture: 0 },
    );
    assert_eq!(step, done(None));
    assert_eq!(cb, command_buffer(40));
    assert_eq!(cb.finalize(), Some(DeviceCall::CancelCommandBuffer { command_buffer: 40 }));
}

#[test]
fn swapchain_image_is_borrowed() {
    let d = device();
    let mut cb = command_buffer(40);
    let step = d.acquire_swapchain(
        &mut cb,
        SwapchainState::Acquiring,
        DeviceReply::Swapchain { acquired: true, texture: 99 },
    );
    assert_eq!(
        step,
        Step::Await {
            state: SwapchainState::Measuring { texture: 99 },
            calls: vec![DeviceCall::WindowSize { window: WINDOW }],
        }
    );
    assert!(!cb.has_swapchain);
    let step = d.acquire_swapchain(
        &mut cb,
        SwapchainState::Measuring { texture: 99 },
        DeviceReply::Extent { width: 800, height: 600 },
    );
    let expected = GPUTexture {
        device: DEVICE,
        texture: 99,
        sampler: 0,
        should_destroy: false,
        size: Rect::new(0, 0, 800, 600),
        format: GPUTextureFormat::R8G8B8A8,
        access: GPUTextureAccess::RenderTarget,
    };
    assert_eq!(step, done(Some(expected)));
    assert!(cb.has_swapchain);
    assert!(cb.usable);
    assert_eq!(cb.finalize(), Some(DeviceCall::SubmitCommandBuffer { command_buffer: 40 }));
}

#[test]
fn swapchain_image_of_an_unmeasured_window_has_no_extent() {
    let d = device();
    let mut cb = command_buffer(40);
    let step = d.acquire_swapchain(
        &mut cb,
        SwapchainState::Measuring { texture: 99 },
        DeviceReply::Nothing,
    );
    match step {
        Step::Finish { calls, result: Ok(Some(texture)) } => {
            assert!(calls.is_empty());
            assert_eq!(texture.size, Rect::new(0, 0, 0, 0));
            assert!(!texture.should_destroy);
            assert_eq!(texture.release(), vec![]);
        }
        other => panic!("{:?}", other),
    }
}

#[test]
fn failed_swapchain_request_is_diagnosed() {
    let d = device();
    let mut cb = command_buffer(40);
    for reply in [
        DeviceReply::Swapchain { acquired: false, texture: 0 },
        DeviceReply::Swapchain { acquired: false, texture: 99 },
        DeviceReply::Nothing,
    ] {
        let step = d.acquire_swapchain(&mut cb, SwapchainState::Acquiring, reply);
        assert_eq!(
            step,
            Step::Await { state: SwapchainState::Diagnosing, calls: vec![DeviceCall::LastError] }
        );
    }
    let step = d.acquire_swapchain(
        &mut cb,
        SwapchainState::Diagnosing,
        DeviceReply::Text("minimized".to_string()),
    );
    assert_eq!(step, refuse(failed(Resource::SwapchainTexture, Some("minimized"))));
    assert_eq!(cb, command_buffer(40));
}

#[test]
fn swapchain_format_is_translated() {
    let d = device();
    assert_eq!(
        d.get_swapchain_format(Request::Start, DeviceReply::Nothing),
        Step::Await {
            state: Request::Sent,
            calls: vec![DeviceCall::SwapchainTextureFormat { device: DEVICE, window: WINDOW }],
        }
    );
    assert_eq!(
        d.get_swapchain_format(
            Request::Sent,
            DeviceReply::Code(gpu::SDL_GPU_TEXTUREFORMAT_B8G8R8A8_UNORM.0)
        ),
        done(GPUTextureFormat::B8G8R8A8)
    );
    assert_eq!(
        d.get_swapchain_format(Request::Sent, DeviceReply::Code(1)),
        done(GPUTextureFormat::A8_UNORM)
    );
    assert_eq!(
        d.get_swapchain_format(Request::Sent, DeviceReply::Code(104)),
        done(GPUTextureFormat::ASTC_12x12_FLOAT)
    );
}

#[test]
fn unknown_swapchain_format_is_unsupported() {
    let d = device();
    for reply in [
        DeviceReply::Code(gpu::SDL_GPU_TEXTUREFORMAT_INVALID.0),
        DeviceReply::Code(105),
        DeviceReply::Code(-1),
        DeviceReply::Code(i32::MAX),
        DeviceReply::Nothing,
        DeviceReply::Handle(4),
    ] {
        assert_eq!(
            d.get_swapchain_format(Request::Sent, reply),
            refuse(GPUError::UnsupportedFormat)
        );
    }
}

#[test]
fn renderpass_clears_and_stores() {
    let d = device();
    let cb = command_buffer(40);
    let color = ColorBits { r: 0, g: 0, b: 0, a: 1.0f32.to_bits() };
    let target = GPUTexture {
        device: DEVICE,
        texture: 99,
        sampler: 0,
        should_destroy: false,
        size: Rect::new(0, 0, 800, 600),
        format: GPUTextureFormat::R8G8B8A8,
        access: GPUTextureAccess::RenderTarget,
    };
    assert_eq!(
        d.begin_renderpass(&cb, &color, &target, Request::Start, DeviceReply::Nothing),
        Step::Await {
            state: Request::Sent,
            calls: vec![DeviceCall::BeginRenderPass {
                command_buffer: 40,
                target: ColorTarget {
                    texture: 99,
                    clear_color: color,
                    load_op: gpu::SDL_GPU_LOADOP_CLEAR.0,
                    store_op: gpu::SDL_GPU_STOREOP_STORE.0,
                    cycle: true,
                },
            }],
        }
    );
    assert_eq!(
        d.begin_renderpass(&cb, &color, &target, Request::Sent, DeviceReply::Handle(70)),
        done(GPURenderpass { renderpass: 70, used: false })
    );
    assert_eq!(
        d.begin_renderpass(&cb, &color, &target, Request::Sent, DeviceReply::Handle(0)),
        refuse(failed(Resource::RenderPass, None))
    );
}

#[test]
fn copypass_is_opened_on_the_command_buffer() {
    let d = device();
    let cb = command_buffer(40);
    assert_eq!(
        d.begin_copypass(&cb, Request::Start, DeviceReply::Nothing),
        Step::Await {
            state: Request::Sent,
            calls: vec![DeviceCall::BeginCopyPass { command_buffer: 40 }],
        }
    );
    assert_eq!(
        d.begin_copypass(&cb, Request::Sent, DeviceReply::Handle(60)),
        done(GPUCopypass { copypass: 60, used: false })
    );
    assert_eq!(
        d.begin_copypass(&cb, Request::Sent, DeviceReply::Handle(0)),
        refuse(failed(Resource::CopyPass, None))
    );
}

#[test]
fn buffer_is_created_with_its_size() {
    let d = device();
    assert_eq!(
        d.create_buffer(144, GPUBufferType::Vertex, Request::Start, DeviceReply::Nothing),
        Step::Await {
            state: Request::Sent,
            calls: vec![DeviceCall::CreateBuffer {
                device: DEVICE,
                usage: gpu::SDL_GPU_BUFFERUSAGE_VERTEX.0,
                size: 144,
            }],
        }
    );
    assert_eq!(
        d.create_buffer(144, GPUBufferType::Vertex, Request::Sent, DeviceReply::Handle(30)),
        done(GPUBuffer { buffer: 30, device: DEVICE, size: 144 })
    );
    assert_eq!(
        d.create_buffer(144, GPUBufferType::Index, Request::Sent, DeviceReply::Handle(0)),
        refuse(failed(Resource::Buffer, None))
    );
    assert_eq!(
        d.create_buffer(
            u32::MAX as usize,
            GPUBufferType::Uniform,
            Request::Start,
            DeviceReply::Nothing
        ),
        Step::Await {
            state: Request::Sent,
            calls: vec![DeviceCall::CreateBuffer {
                device: DEVICE,
                usage: gpu::SDL_GPU_BUFFERUSAGE_GRAPHICS_STORAGE_READ.0,
                size: u32::MAX,
            }],
        }
    );
}

#[test]
fn transfer_buffer_is_created_with_its_direction() {
    let d = device();
    assert_eq!(
        d.create_transfer_buffer(24, GPUTransferUsage::Download, Request::Start, DeviceReply::Nothing),
        Step::Await {
            state: Request::Sent,
            calls: vec![DeviceCall::CreateTransferBuffer {
                device: DEVICE,
                usage: gpu::SDL_GPU_TRANSFERBUFFERUSAGE_DOWNLOAD.0,
                size: 24,
            }],
        }
    );
    assert_eq!(
        d.create_transfer_buffer(24, GPUTransferUsage::Upload, Request::Sent, DeviceReply::Handle(20)),
        done(GPUTransferBuffer {
            buffer: 20,
            device: DEVICE,
            usage: GPUTransferUsage::Upload,
            size: 24,
        })
    );
    assert_eq!(
        d.create_transfer_buffer(24, GPUTransferUsage::Upload, Request::Sent, DeviceReply::Handle(0)),
        refuse(failed(Resource::TransferBuffer, None))
    );
}

#[test]
fn shader_is_created_from_its_code() {
    let d = device();
    let code = [3u8, 2, 35, 7, 0, 0, 1, 0];
    assert_eq!(
        d.create_shader(GPUShaderType::Fragment, &code, 1, 0, 0, Request::Start, DeviceReply::Nothing),
        Step::Await {
            state: Request::Sent,
            calls: vec![DeviceCall::CreateShader {
                device: DEVICE,
                info: ShaderInfo {
                    code_size: 8,
                    format: gpu::SDL_GPU_SHADERFORMAT_SPIRV.0,
                    stage: gpu::SDL_GPU_SHADERSTAGE_FRAGMENT.0,
                    num_samplers: 1,
                    num_uniform_buffers: 0,
                    num_storage_buffers: 0,
                },
            }],
        }
    );
    assert_eq!(
        d.create_shader(GPUShaderType::Vertex, &code, 0, 2, 3, Request::Start, DeviceReply::Nothing),
        Step::Await {
            state: Request::Sent,
            calls: vec![DeviceCall::CreateShader {
                device: DEVICE,
                info: ShaderInfo {
                    code_size: 8,
                    format: gpu::SDL_GPU_SHADERFORMAT_SPIRV.0,
                    stage: gpu::SDL_GPU_SHADERSTAGE_VERTEX.0,
                    num_samplers: 0,
                    num_uniform_buffers: 2,
                    num_storage_buffers: 3,
                },
            }],
        }
    );
    assert_eq!(
        d.create_shader(GPUShaderType::Vertex, &code, 0, 0, 0, Request::Sent, DeviceReply::Handle(82)),
        done(GPUShader { device: DEVICE, shader: 82, shader_type: GPUShaderType::Vertex })
    );
    assert_eq!(
        d.create_shader(GPUShaderType::Vertex, &code, 0, 0, 0, Request::Sent, DeviceReply::Handle(0)),
        refuse(failed(Resource::Shader, None))
    );
}

const VERTEX_SHADER: GPUShader =
    GPUShader { device: DEVICE, shader: 82, shader_type: GPUShaderType::Vertex };
const FRAGMENT_SHADER: GPUShader =
    GPUShader { device: DEVICE, shader: 83, shader_type: GPUShaderType::Fragment };

fn pipeline_info() -> GPUGraphicsPipelineCreateInfo<'static> {
    GPUGraphicsPipelineCreateInfo {
        texture_format: GPUTextureFormat::B8G8R8A8,
        vertex_shader: &VERTEX_SHADER,
        fragment_shader: &FRAGMENT_SHADER,
        vertex_attributes: vec![
            GPUVertexAttribute {
                location: 0,
                buffer_slot: 0,
                format: GPUVertexElement::Float3,
                offset: 0,
            },
            GPUVertexAttribute {
                location: 1,
                buffer_slot: 0,
                format: GPUVertexElement::Float4,
                offset: 12,
            },
            GPUVertexAttribute {
                location: 2,
                buffer_slot: 0,
                format: GPUVertexElement::Float2,
                offset: 28,
            },
        ],
        vertex_buffer_desc: GPUVertexBufferDescription {
            slot: 0,
            pitch: 36,
            input_rate: GPUVertexInputRate::Vertex,
        },
        primitive_type: GPUPrimitiveType::TriangleList,
        blend_state: GPUColorTargetBlendState {
            enable_blend: true,
            enable_color_write_mask: true,
            color_write_mask: GPUColorComponent::a()
                | GPUColorComponent::r()
                | GPUColorComponent::g()
                | GPUColorComponent::b(),
            color_blend_op: GPUColorBlendOp::Add,
            color_blend_factor_src: GPUColorBlendFactor::SrcAlpha,
            color_blend_factor_dst: GPUColorBlendFactor::OneMinusSrcAlpha,
            alpha_blend_op: GPUColorBlendOp::Add,
            alpha_blend_factor_src: GPUColorBlendFactor::One,
            alpha_blend_factor_dst: GPUColorBlendFactor::OneMinusSrcAlpha,
        },
    }
}

fn described() -> PipelineInfo {
    PipelineInfo {
        vertex_shader: 82,
        fragment_shader: 83,
        vertex_attributes: vec![
            VertexAttributeInfo {
                location: 0,
                buffer_slot: 0,
                format: gpu::SDL_GPU_VERTEXELEMENTFORMAT_FLOAT3.0,
                offset: 0,
            },
            VertexAttributeInfo {
                location: 1,
                buffer_slot: 0,
                format: gpu::SDL_GPU_VERTEXELEMENTFORMAT_FLOAT4.0,
                offset: 12,
            },
            VertexAttributeInfo {
                location: 2,
                buffer_slot: 0,
                format: gpu::SDL_GPU_VERTEXELEMENTFORMAT_FLOAT2.0,
                offset: 28,
            },
        ],
        vertex_buffer_slot: 0,
        vertex_buffer_pitch: 36,
        vertex_input_rate: gpu::SDL_GPU_VERTEXINPUTRATE_VERTEX.0,
        primitive_type: gpu::SDL_GPU_PRIMITIVETYPE_TRIANGLELIST.0,
        target_format: gpu::SDL_GPU_TEXTUREFORMAT_B8G8R8A8_UNORM.0,
        blend: BlendInfo {
            enable_blend: true,
            enable_color_write_mask: true,
            color_write_mask: 15,
            color_blend_op: gpu::SDL_GPU_BLENDOP_ADD.0,
            src_color_blendfactor: gpu::SDL_GPU_BLENDFACTOR_SRC_ALPHA.0,
            dst_color_blendfactor: gpu::SDL_GPU_BLENDFACTOR_ONE_MINUS_SRC_ALPHA.0,
            alpha_blend_op: gpu::SDL_GPU_BLENDOP_ADD.0,
            src_alpha_blendfactor: gpu::SDL_GPU_BLENDFACTOR_ONE.0,
            dst_alpha_blendfactor: gpu::SDL_GPU_BLENDFACTOR_ONE_MINUS_SRC_ALPHA.0,
        },
    }
}

#[test]
fn pipeline_description_is_translated() {
    assert_eq!(pipeline_info().describe(), described());
}

#[test]
fn pipeline_primitive_types_and_input_rates() {
    let cases = [
        (GPUPrimitiveType::PointList, gpu::SDL_GPU_PRIMITIVETYPE_POINTLIST.0),
        (GPUPrimitiveType::LineList, gpu::SDL_GPU_PRIMITIVETYPE_LINELIST.0),
        (GPUPrimitiveType::LineStrip, gpu::SDL_GPU_PRIMITIVETYPE_LINESTRIP.0),
        (GPUPrimitiveType::TriangleList, gpu::SDL_GPU_PRIMITIVETYPE_TRIANGLELIST.0),
        (GPUPrimitiveType::TriangleStrip, gpu::SDL_GPU_PRIMITIVETYPE_TRIANGLESTRIP.0),
    ];
    for (primitive_type, code) in cases {
        let mut info = pipeline_info();
        info.primitive_type = primitive_type;
        assert_eq!(info.describe().primitive_type, code);
    }
    let mut info = pipeline_info();
    info.vertex_buffer_desc.input_rate = GPUVertexInputRate::Instance;
    info.vertex_buffer_desc.slot = 2;
    info.vertex_attributes.clear();
    info.blend_state.color_write_mask = GPUColorComponent::g();
    let described = info.describe();
    assert_eq!(described.vertex_input_rate, gpu::SDL_GPU_VERTEXINPUTRATE_INSTANCE.0);
    assert_eq!(described.vertex_buffer_slot, 2);
    assert!(described.vertex_attributes.is_empty());
    assert_eq!(described.blend.color_write_mask, 2);
}

#[test]
fn pipeline_is_created_from_its_description() {
    let d = device();
    let info = pipeline_info();
    assert_eq!(
        d.create_graphics_pipeline(&info, Request::Start, DeviceReply::Nothing),
        Step::Await {
            state: Request::Sent,
            calls: vec![DeviceCall::CreateGraphicsPipeline { device: DEVICE, info: described() }],
        }
    );
    assert_eq!(
        d.create_graphics_pipeline(&info, Request::Sent, DeviceReply::Handle(81)),
        done(GPUGraphicsPipeline { pipeline: 81, device: DEVICE })
    );
    assert_eq!(
        d.create_graphics_pipeline(&info, Request::Sent, DeviceReply::Handle(0)),
        refuse(failed(Resource::GraphicsPipeline, None))
    );
}

fn white_pixel() -> GPUTextureCreateInfo {
    GPUTextureCreateInfo {
        data: vec![255, 255, 255, 255],
        width: 1,
        height: 1,
        format: GPUTextureFormat::R8G8B8A8,
        access: GPUTextureAccess::Sampler,
    }
}

fn staging() -> GPUTransferBuffer {
    GPUTransferBuffer { buffer: 20, device: DEVICE, usage: GPUTransferUsage::Upload, size: 4 }
}

fn created_texture() -> GPUTexture {
    GPUTexture {
        device: DEVICE,
        texture: 50,
        sampler: 51,
        should_destroy: true,
        size: Rect::new(0, 0, 1, 1),
        format: GPUTextureFormat::R8G8B8A8,
        access: GPUTextureAccess::Sampler,
    }
}

fn default_sampler() -> SamplerInfo {
    SamplerInfo {
        min_filter: gpu::SDL_GPU_FILTER_LINEAR.0,
        mag_filter: gpu::SDL_GPU_FILTER_LINEAR.0,
        mipmap_mode: gpu::SDL_GPU_SAMPLERMIPMAPMODE_LINEAR.0,
        address_mode_u: gpu::SDL_GPU_SAMPLERADDRESSMODE_REPEAT.0,
        address_mode_v: gpu::SDL_GPU_SAMPLERADDRESSMODE_REPEAT.0,
        address_mode_w: gpu::SDL_GPU_SAMPLERADDRESSMODE_REPEAT.0,
        mip_lod_bias_bits: 0.0f32.to_bits(),
        max_anisotropy_bits: 1.0f32.to_bits(),
        compare_op: gpu::SDL_GPU_COMPAREOP_NEVER.0,
        min_lod_bits: 0.0f32.to_bits(),
        max_lod_bits: 0.0f32.to_bits(),
        enable_anisotropy: false,
        enable_compare: false,
    }
}

#[test]
fn texture_creation_step_by_step() {
    let d = device();
    let info = white_pixel();
    let step = d.create_texture(&info, TextureCreation::Start, DeviceReply::Nothing);
    assert_eq!(
        step,
        Step::Await {
            state: TextureCreation::CreatingTexture,
            calls: vec![DeviceCall::CreateTexture {
                device: DEVICE,
                info: TextureInfo {
                    format: gpu::SDL_GPU_TEXTUREFORMAT_R8G8B8A8_UNORM.0,
                    usage: gpu::SDL_GPU_TEXTUREUSAGE_SAMPLER.0,
                    width: 1,
                    height: 1,
                    layer_count_or_depth: 1,
                    num_levels: 1,
                },
            }],
        }
    );
    let step = d.create_texture(&info, TextureCreation::CreatingTexture, DeviceReply::Handle(50));
    assert_eq!(
        step,
        Step::Await {
            state: TextureCreation::CreatingStaging { texture: 50 },
            calls: vec![DeviceCall::CreateTransferBuffer {
                device: DEVICE,
                usage: gpu::SDL_GPU_TRANSFERBUFFERUSAGE_UPLOAD.0,
                size: 4,
            }],
        }
    );
    let step = d.create_texture(
        &info,
        TextureCreation::CreatingStaging { texture: 50 },
        DeviceReply::Handle(20),
    );
    assert_eq!(
        step,
        Step::Await {
            state: TextureCreation::CreatingSampler { texture: 50, staging: staging() },
            calls: vec![DeviceCall::CreateSampler { device: DEVICE, info: default_sampler() }],
        }
    );
    let step = d.create_texture(
        &info,
        TextureCreation::CreatingSampler { texture: 50, staging: staging() },
        DeviceReply::Handle(51),
    );
    assert_eq!(
        step,
        Step::Await {
            state: TextureCreation::Uploading {
                texture: created_texture(),
                staging: staging(),
                upload: TextureWriteState::Mapping,
            },
            calls: vec![DeviceCall::MapTransferBuffer {
                device: DEVICE,
                transfer_buffer: 20,
                cycle: false,
            }],
        }
    );
    let state = TextureCreation::Uploading {
        texture: created_texture(),
        staging: staging(),
        upload: TextureWriteState::OpeningPass { command_buffer: command_buffer(40) },
    };
    let step = d.create_texture(&info, state, DeviceReply::Handle(60));
    match step {
        Step::Finish { calls, result } => {
            assert_eq!(result, Ok(created_texture()));
            assert_eq!(calls.len(), 4);
            assert!(matches!(calls[0], DeviceCall::UploadToTexture { copypass: 60, .. }));
            assert_eq!(calls[1], DeviceCall::EndCopyPass { copypass: 60 });
            assert_eq!(calls[2], DeviceCall::SubmitCommandBuffer { command_buffer: 40 });
            assert_eq!(
                calls[3],
                DeviceCall::ReleaseTransferBuffer { device: DEVICE, transfer_buffer: 20 }
            );
        }
        other => panic!("{:?}", other),
    }
}

#[test]
fn refused_texture_creates_nothing() {
    let d = device();
    assert_eq!(
        d.create_texture(&white_pixel(), TextureCreation::CreatingTexture, DeviceReply::Handle(0)),
        refuse(failed(Resource::Texture, None))
    );
}

#[test]
fn refused_staging_buffer_releases_the_texture() {
    let d = device();
    let step = d.create_texture(
        &white_pixel(),
        TextureCreation::CreatingStaging { texture: 50 },
        DeviceReply::Handle(0),
    );
    assert_eq!(
        step,
        Step::Finish {
            calls: vec![DeviceCall::ReleaseTexture { device: DEVICE, texture: 50 }],
            result: Err(failed(Resource::TransferBuffer, None)),
        }
    );
}

#[test]
fn refused_sampler_releases_texture_and_staging_buffer() {
    let d = device();
    let step = d.create_texture(
        &white_pixel(),
        TextureCreation::CreatingSampler { texture: 50, staging: staging() },
        DeviceReply::Handle(0),
    );
    assert_eq!(
        step,
        Step::Finish {
            calls: vec![
                DeviceCall::ReleaseTexture { device: DEVICE, texture: 50 },
                DeviceCall::ReleaseTransferBuffer { device: DEVICE, transfer_buffer: 20 },
            ],
            result: Err(failed(Resource::Sampler, None)),
        }
    );
}

#[test]
fn failed_initial_upload_releases_everything() {
    let d = device();
    let state = TextureCreation::Uploading {
        texture: created_texture(),
        staging: staging(),
        upload: TextureWriteState::Mapping,
    };
    let step = d.create_texture(&white_pixel(), state, DeviceReply::Handle(0));
    assert_eq!(
        step,
        Step::Finish {
            calls: vec![
                DeviceCall::ReleaseSampler { device: DEVICE, sampler: 51 },
                DeviceCall::ReleaseTexture { device: DEVICE, texture: 50 },
                DeviceCall::ReleaseTransferBuffer { device: DEVICE, transfer_buffer: 20 },
            ],
            result: Err(failed(Resource::TextureUpload, None)),
        }
    );
    let state = TextureCreation::Uploading {
        texture: created_texture(),
        staging: staging(),
        upload: TextureWriteState::OpeningPass { command_buffer: command_buffer(40) },
    };
    let step = d.create_texture(&white_pixel(), state, DeviceReply::Handle(0));
    assert_eq!(
        step,
        Step::Finish {
            calls: vec![
                DeviceCall::CancelCommandBuffer { command_buffer: 40 },
                DeviceCall::ReleaseSampler { device: DEVICE, sampler: 51 },
                DeviceCall::ReleaseTexture { device: DEVICE, texture: 50 },
                DeviceCall::ReleaseTransferBuffer { device: DEVICE, transfer_buffer: 20 },
            ],
            result: Err(failed(Resource::TextureUpload, None)),
        }
    );
}

#[test]
fn pixels_that_do_not_match_the_extent_fail_the_upload() {
    let d = device();
    let mut info = white_pixel();
    info.data = vec![255, 255, 255];
    let step = d.create_texture(
        &info,
        TextureCreation::CreatingSampler { texture: 50, staging: staging() },
        DeviceReply::Handle(51),
    );
    assert_eq!(
        step,
        Step::Finish {
            calls: vec![
                DeviceCall::ReleaseSampler { device: DEVICE, sampler: 51 },
                DeviceCall::ReleaseTexture { device: DEVICE, texture: 50 },
                DeviceCall::ReleaseTransferBuffer { device: DEVICE, transfer_buffer: 20 },
            ],
            result: Err(failed(Resource::TextureUpload, None)),
        }
    );
}

#[test]
fn texture_extent_must_fit() {
    let d = device();
    let mut info = white_pixel();
    info.width = 40000;
    info.height = 40000;
    assert_eq!(
        d.create_texture(&info, TextureCreation::Start, DeviceReply::Nothing),
        refuse(GPUError::SizeMismatch)
    );
    info.width = u32::MAX;
    info.height = 0;
    assert_eq!(
        d.create_texture(&info, TextureCreation::Start, DeviceReply::Nothing),
        refuse(GPUError::SizeMismatch)
    );
    info.width = 32768;
    info.height = 32767;
    assert!(matches!(
        d.create_texture(&info, TextureCreation::Start, DeviceReply::Nothing),
        Step::Await { state: TextureCreation::CreatingTexture, .. }
    ));
    info.height = 32768;
    assert_eq!(
        d.create_texture(&info, TextureCreation::Start, DeviceReply::Nothing),
        refuse(GPUError::SizeMismatch)
    );
}

fn image(layout: ColorLayout, data: Vec<u8>) -> DecodedImage {
    DecodedImage { data, width: 1, height: 1, layout }
}

#[test]
fn image_of_another_layout_is_unsupported() {
    let d = device();
    for layout in [
        ColorLayout::L8,
        ColorLayout::La8,
        ColorLayout::L16,
        ColorLayout::La16,
        ColorLayout::Rgb16,
        ColorLayout::Rgba16,
        ColorLayout::Rgb32F,
        ColorLayout::Rgba32F,
        ColorLayout::Other,
    ] {
        assert_eq!(
            d.create_texture_from_file(
                &image(layout, vec![0; 4]),
                TextureCreation::Start,
                DeviceReply::Nothing
            ),
            refuse(GPUError::UnsupportedFormat)
        );
    }
}

#[test]
fn image_with_alpha_becomes_a_sampled_texture() {
    let d = device();
    let rgba = image(ColorLayout::Rgba8, vec![255, 255, 255, 255]);
    let from_file = d.create_texture_from_file(&rgba, TextureCreation::Start, DeviceReply::Nothing);
    let direct = d.create_texture(&white_pixel(), TextureCreation::Start, DeviceReply::Nothing);
    assert_eq!(from_file, direct);
    let state = TextureCreation::CreatingSampler { texture: 50, staging: staging() };
    let from_file = d.create_texture_from_file(&rgba, state, DeviceReply::Handle(51));
    let state = TextureCreation::CreatingSampler { texture: 50, staging: staging() };
    let direct = d.create_texture(&white_pixel(), state, DeviceReply::Handle(51));
    assert_eq!(from_file, direct);
    assert!(matches!(direct, Step::Await { .. }));
}

#[test]
fn image_without_alpha_is_taken_but_its_pixels_do_not_fill_the_texture() {
    let d = device();
    let rgb = image(ColorLayout::Rgb8, vec![255, 255, 255]);
    let step = d.create_texture_from_file(&rgb, TextureCreation::Start, DeviceReply::Nothing);
    assert!(matches!(step, Step::Await { state: TextureCreation::CreatingTexture, .. }));
    let state = TextureCreation::CreatingSampler { texture: 50, staging: staging() };
    let step = d.create_texture_from_file(&rgb, state, DeviceReply::Handle(51));
    assert!(matches!(
        step,
        Step::Finish {
            result: Err(GPUError::CreationFailed { what: Resource::TextureUpload, detail: None }),
            ..
        }
    ));
}

#[test]
fn sizes_beyond_the_backends_are_refused() {
    let d = device();
    let too_large = u32::MAX as usize + 1;
    for state in [Request::Start, Request::Sent] {
        assert_eq!(
            d.create_buffer(too_large, GPUBufferType::Vertex, state, DeviceReply::Handle(30)),
            refuse(GPUError::SizeMismatch)
        );
        assert_eq!(
            d.create_transfer_buffer(
                too_large,
                GPUTransferUsage::Upload,
                state,
                DeviceReply::Handle(20)
            ),
            refuse(GPUError::SizeMismatch)
        );
    }
}

#[test]
fn staging_buffer_takes_four_bytes_a_texel() {
    let d = device();
    let info = GPUTextureCreateInfo {
        data: vec![0; 60],
        width: 3,
        height: 5,
        format: GPUTextureFormat::R8G8B8A8,
        access: GPUTextureAccess::RenderTarget,
    };
    let step = d.create_texture(&info, TextureCreation::CreatingTexture, DeviceReply::Handle(50));
    assert_eq!(
        step,
        Step::Await {
            state: TextureCreation::CreatingStaging { texture: 50 },
            calls: vec![DeviceCall::CreateTransferBuffer {
                device: DEVICE,
                usage: gpu::SDL_GPU_TRANSFERBUFFERUSAGE_UPLOAD.0,
                size: 60,
            }],
        }
    );
    let step = d.create_texture(&info, TextureCreation::Start, DeviceReply::Nothing);
    assert_eq!(
        step,
        Step::Await {
            state: TextureCreation::CreatingTexture,
            calls: vec![DeviceCall::CreateTexture {
                device: DEVICE,
                info: TextureInfo {
                    format: gpu::SDL_GPU_TEXTUREFORMAT_R8G8B8A8_UNORM.0,
                    usage: gpu::SDL_GPU_TEXTUREUSAGE_COLOR_TARGET.0,
                    width: 3,
                    height: 5,
                    layer_count_or_depth: 1,
                    num_levels: 1,
                },
            }],
        }
    );
}
