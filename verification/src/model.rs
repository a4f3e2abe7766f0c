//! A model of device memory, and the laws that the transfer operations
//! obey on it: what is uploaded is what comes back.
//!
//! The model keeps the bytes of buffers, textures and staging memory, the
//! samplers, the copy passes that are open and the copies that each
//! command buffer has recorded. An object is in the model from the reply
//! that hands it out until the call that gives it back. A copy takes
//! effect when its command buffer is submitted.

use vstd::prelude::*;
use crate::backend::{DeviceCall, DeviceReply, StepView, TextureInfo};
use crate::buffer::{
    BufferWriteState, DownloadState, GPUBuffer, GPUTransferBuffer, GPUTransferUsage,
    TextureWriteState,
};
use crate::device::GPUDevice;
use crate::error::GPUError;
use crate::texture::GPUTexture;
use crate::texture_utils::{sdl_texture_format_of, texture_format_byte_size};

verus! {

/// The bytes that the device holds, by handle, and the copies in flight.
pub struct DeviceMemory {
    /// The contents of the device buffers.
    pub buffers: Map<u64, Seq<u8>>,
    /// The texels of the textures.
    pub textures: Map<u64, Seq<u8>>,
    /// The contents of the transfer buffers.
    pub staging: Map<u64, Seq<u8>>,
    /// The samplers.
    pub samplers: Set<u64>,
    /// The open copy passes, each with its command buffer.
    pub passes: Map<u64, u64>,
    /// The copies that each command buffer has recorded.
    pub recorded: Map<u64, Seq<DeviceCall>>,
}

/// `target` with `bytes` written over it from position `at` on.
pub open spec fn overwrite(target: Seq<u8>, at: int, bytes: Seq<u8>) -> Seq<u8> {
    target.take(at) + bytes + target.skip(at + bytes.len())
}

/// Memory of `len` bytes as the model hands it out: all zero. No law
/// depends on what new memory holds.
pub open spec fn blank(len: int) -> Seq<u8> {
    Seq::new(len as nat, |i: int| 0u8)
}

/// The bytes that the texels of a texture of this description take.
pub open spec fn texels_len(info: TextureInfo) -> int {
    info.width * info.height * texture_format_byte_size(sdl_texture_format_of(info.format as int))
}

/// The memory after the device has executed the copy `copy`. Copies to and
/// from a texture move the whole texture.
pub open spec fn execute(mem: DeviceMemory, copy: DeviceCall) -> DeviceMemory {
    match copy {
        DeviceCall::UploadToBuffer { source, destination, .. } => DeviceMemory {
            buffers: mem.buffers.insert(
                destination.buffer,
                overwrite(
                    mem.buffers[destination.buffer],
                    destination.offset as int,
                    mem.staging[source.transfer_buffer].subrange(
                        source.offset as int,
                        source.offset + destination.size,
                    ),
                ),
            ),
            ..mem
        },
        DeviceCall::DownloadFromBuffer { source, destination, .. } => DeviceMemory {
            staging: mem.staging.insert(
                destination.transfer_buffer,
                overwrite(
                    mem.staging[destination.transfer_buffer],
                    destination.offset as int,
                    mem.buffers[source.buffer].subrange(
                        source.offset as int,
                        source.offset + source.size,
                    ),
                ),
            ),
            ..mem
        },
        DeviceCall::UploadToTexture { source, destination, .. } => DeviceMemory {
            textures: mem.textures.insert(
                destination.texture,
                mem.staging[source.transfer_buffer].subrange(
                    source.offset as int,
                    source.offset + mem.textures[destination.texture].len(),
                ),
            ),
            ..mem
        },
        DeviceCall::DownloadFromTexture { source, destination, .. } => DeviceMemory {
            staging: mem.staging.insert(
                destination.transfer_buffer,
                overwrite(
                    mem.staging[destination.transfer_buffer],
                    destination.offset as int,
                    mem.textures[source.texture],
                ),
            ),
            ..mem
        },
        _ => mem,
    }
}

/// The memory after the device has executed `copies` in order.
pub open spec fn execute_all(mem: DeviceMemory, copies: Seq<DeviceCall>) -> DeviceMemory
    decreases copies.len(),
{
    if copies.len() == 0 {
        mem
    } else {
        execute_all(execute(mem, copies[0]), copies.drop_first())
    }
}

/// The memory with `copy` recorded in the command buffer of `copypass`.
pub open spec fn record(mem: DeviceMemory, copypass: u64, copy: DeviceCall) -> DeviceMemory {
    DeviceMemory {
        recorded: mem.recorded.insert(
            mem.passes[copypass],
            mem.recorded[mem.passes[copypass]].push(copy),
        ),
        ..mem
    }
}

/// The memory after `call`, answered by `reply`, where `payload` is the
/// data of the operation that made the call.
///
/// Staging writes the payload into the staging memory. A command buffer
/// starts empty, a copy pass belongs to the buffer it was opened on until
/// it ends, and a copy is recorded in the buffer of its pass. Submitting
/// executes what a buffer has recorded; cancelling forgets it. A created
/// object is there from the reply that is its handle; a released one is
/// gone. No other call changes the model.
pub open spec fn effect(
    mem: DeviceMemory,
    call: DeviceCall,
    reply: DeviceReply,
    payload: Seq<u8>,
) -> DeviceMemory {
    match call {
        DeviceCall::StageBytes { transfer_buffer, len } => DeviceMemory {
            staging: mem.staging.insert(
                transfer_buffer,
                overwrite(mem.staging[transfer_buffer], 0, payload.take(len as int)),
            ),
            ..mem
        },
        DeviceCall::AcquireCommandBuffer { .. } => if reply.spec_handle() == 0 {
            mem
        } else {
            DeviceMemory {
                recorded: mem.recorded.insert(reply.spec_handle(), Seq::empty()),
                ..mem
            }
        },
        DeviceCall::BeginCopyPass { command_buffer } => if reply.spec_handle() == 0 {
            mem
        } else {
            DeviceMemory {
                passes: mem.passes.insert(reply.spec_handle(), command_buffer),
                ..mem
            }
        },
        DeviceCall::EndCopyPass { copypass } => DeviceMemory {
            passes: mem.passes.remove(copypass),
            ..mem
        },
        DeviceCall::CreateTexture { info, .. } => if reply.spec_handle() == 0 {
            mem
        } else {
            DeviceMemory {
                textures: mem.textures.insert(reply.spec_handle(), blank(texels_len(info))),
                ..mem
            }
        },
        DeviceCall::CreateBuffer { size, .. } => if reply.spec_handle() == 0 {
            mem
        } else {
            DeviceMemory {
                buffers: mem.buffers.insert(reply.spec_handle(), blank(size as int)),
                ..mem
            }
        },
        DeviceCall::CreateTransferBuffer { size, .. } => if reply.spec_handle() == 0 {
            mem
        } else {
            DeviceMemory {
                staging: mem.staging.insert(reply.spec_handle(), blank(size as int)),
                ..mem
            }
        },
        DeviceCall::CreateSampler { .. } => if reply.spec_handle() == 0 {
            mem
        } else {
            DeviceMemory { samplers: mem.samplers.insert(reply.spec_handle()), ..mem }
        },
        DeviceCall::ReleaseTexture { texture, .. } => DeviceMemory {
            textures: mem.textures.remove(texture),
            ..mem
        },
        DeviceCall::ReleaseBuffer { buffer, .. } => DeviceMemory {
            buffers: mem.buffers.remove(buffer),
            ..mem
        },
        DeviceCall::ReleaseTransferBuffer { transfer_buffer, .. } => DeviceMemory {
            staging: mem.staging.remove(transfer_buffer),
            ..mem
        },
        DeviceCall::ReleaseSampler { sampler, .. } => DeviceMemory {
            samplers: mem.samplers.remove(sampler),
            ..mem
        },
        DeviceCall::UploadToBuffer { copypass, .. } => record(mem, copypass, call),
        DeviceCall::DownloadFromBuffer { copypass, .. } => record(mem, copypass, call),
        DeviceCall::UploadToTexture { copypass, .. } => record(mem, copypass, call),
        DeviceCall::DownloadFromTexture { copypass, .. } => record(mem, copypass, call),
        DeviceCall::SubmitCommandBuffer { command_buffer } => execute_all(
            DeviceMemory { recorded: mem.recorded.remove(command_buffer), ..mem },
            mem.recorded[command_buffer],
        ),
        DeviceCall::CancelCommandBuffer { command_buffer } => DeviceMemory {
            recorded: mem.recorded.remove(command_buffer),
            ..mem
        },
        _ => mem,
    }
}

/// Whether `reply` is what the device answers to `call` in `mem`, as far
/// as the model decides it: fetched bytes are the start of the staging
/// memory, and a handle that is handed out is null or names no object of
/// its kind that is there already.
pub open spec fn answers(mem: DeviceMemory, call: DeviceCall, reply: DeviceReply) -> bool {
    match call {
        DeviceCall::FetchBytes { transfer_buffer, len } => {
            &&& reply matches DeviceReply::Bytes(bytes)
            &&& bytes@ == mem.staging[transfer_buffer].take(len as int)
        },
        DeviceCall::AcquireCommandBuffer { .. } => reply.spec_handle() == 0
            || !mem.recorded.dom().contains(reply.spec_handle()),
        DeviceCall::BeginCopyPass { .. } => reply.spec_handle() == 0 || !mem.passes.dom().contains(
            reply.spec_handle(),
        ),
        DeviceCall::CreateTexture { .. } => reply.spec_handle() == 0
            || !mem.textures.dom().contains(reply.spec_handle()),
        DeviceCall::CreateBuffer { .. } => reply.spec_handle() == 0 || !mem.buffers.dom().contains(
            reply.spec_handle(),
        ),
        DeviceCall::CreateTransferBuffer { .. } => reply.spec_handle() == 0
            || !mem.staging.dom().contains(reply.spec_handle()),
        DeviceCall::CreateSampler { .. } => reply.spec_handle() == 0 || !mem.samplers.contains(
            reply.spec_handle(),
        ),
        _ => true,
    }
}

/// The memory before the last call of the batch `calls`.
pub open spec fn before_last(
    mem: DeviceMemory,
    calls: Seq<DeviceCall>,
    payload: Seq<u8>,
) -> DeviceMemory
    decreases calls.len(),
{
    if calls.len() <= 1 {
        mem
    } else {
        before_last(
            effect(mem, calls[0], DeviceReply::Nothing, payload),
            calls.drop_first(),
            payload,
        )
    }
}

/// The memory after the batch `calls`, whose last call `reply` answers.
pub open spec fn after_batch(
    mem: DeviceMemory,
    calls: Seq<DeviceCall>,
    reply: DeviceReply,
    payload: Seq<u8>,
) -> DeviceMemory {
    if calls.len() == 0 {
        mem
    } else {
        effect(before_last(mem, calls, payload), calls.last(), reply, payload)
    }
}

/// How an operation ran on the model: the memory it left, its result if it
/// came to an end, and whether every reply was one that the model gives.
pub struct Run<T> {
    pub memory: DeviceMemory,
    pub result: Option<Result<T, GPUError>>,
    pub faithful: bool,
}

/// Runs the operation whose transitions are `step`, from `state`, on the
/// memory `mem`. The first of `replies` goes into the first transition;
/// each further one answers the batch of the transition before it.
pub open spec fn drive<S, T>(
    step: spec_fn(S, DeviceReply) -> StepView<S, T>,
    state: S,
    replies: Seq<DeviceReply>,
    mem: DeviceMemory,
    payload: Seq<u8>,
) -> Run<T>
    decreases replies.len(),
{
    if replies.len() == 0 {
        Run { memory: mem, result: None, faithful: true }
    } else {
        match step(state, replies[0]) {
            StepView::Finish { calls, result } => Run {
                memory: after_batch(mem, calls, DeviceReply::Nothing, payload),
                result: Some(result),
                faithful: true,
            },
            StepView::Await { state: next, calls } => if replies.len() == 1 {
                Run { memory: mem, result: None, faithful: true }
            } else {
                let rest = drive(
                    step,
                    next,
                    replies.drop_first(),
                    after_batch(mem, calls, replies[1], payload),
                    payload,
                );
                Run {
                    memory: rest.memory,
                    result: rest.result,
                    faithful: rest.faithful && calls.len() > 0 && answers(
                        before_last(mem, calls, payload),
                        calls.last(),
                        replies[1],
                    ),
                }
            },
        }
    }
}

/// An upload of `data` to `buffer` through `up` on the model, where the
/// device hands out the command buffer `command_buffer`, the mapping
/// `mapping` and the copy pass `copypass`.
pub open spec fn buffer_upload(
    mem: DeviceMemory,
    device: GPUDevice,
    up: GPUTransferBuffer,
    buffer: GPUBuffer,
    data: Seq<u8>,
    command_buffer: u64,
    mapping: u64,
    copypass: u64,
) -> Run<()> {
    drive(
        |state: BufferWriteState, reply: DeviceReply|
            up.write_buffer_step(device, buffer, data, state, reply),
        BufferWriteState::Start,
        seq![
            DeviceReply::Nothing,
            DeviceReply::Handle(command_buffer),
            DeviceReply::Handle(mapping),
            DeviceReply::Handle(copypass),
        ],
        mem,
        data,
    )
}

/// A download of `buffer` through `down` on the model, where the device
/// hands out the command buffer `command_buffer`, the copy pass `copypass`
/// and the mapping `mapping`, and answers the fetch with `fetched`.
pub open spec fn buffer_download(
    mem: DeviceMemory,
    device: GPUDevice,
    down: GPUTransferBuffer,
    buffer: GPUBuffer,
    command_buffer: u64,
    copypass: u64,
    mapping: u64,
    fetched: Vec<u8>,
) -> Run<Vec<u8>> {
    drive(
        |state: DownloadState, reply: DeviceReply|
            down.read_buffer_step(device, buffer, state, reply),
        DownloadState::Start,
        seq![
            DeviceReply::Nothing,
            DeviceReply::Handle(command_buffer),
            DeviceReply::Handle(copypass),
            DeviceReply::Handle(mapping),
            DeviceReply::Bytes(fetched),
        ],
        mem,
        Seq::empty(),
    )
}

/// Whatever `write_buffer` uploads to a buffer of the data's size,
/// `read_buffer` downloads again, byte for byte: on any memory in which
/// the two staging buffers and the buffer have their sizes, with any
/// handles that the device hands out, both operations succeed, and the
/// bytes that the download returns are the data.
pub proof fn lemma_buffer_round_trip(
    mem: DeviceMemory,
    device: GPUDevice,
    up: GPUTransferBuffer,
    down: GPUTransferBuffer,
    buffer: GPUBuffer,
    data: Seq<u8>,
    upload_handles: (u64, u64, u64),
    download_handles: (u64, u64, u64),
    fetched: Vec<u8>,
)
    requires
        up.usage == GPUTransferUsage::Upload,
        down.usage == GPUTransferUsage::Download,
        up.buffer != down.buffer,
        data.len() == buffer.size,
        data.len() <= up.size,
        buffer.size <= down.size,
        mem.staging.dom().contains(up.buffer),
        mem.staging.dom().contains(down.buffer),
        mem.buffers.dom().contains(buffer.buffer),
        mem.staging[up.buffer].len() == up.size,
        mem.staging[down.buffer].len() == down.size,
        mem.buffers[buffer.buffer].len() == buffer.size,
        upload_handles.0 != 0 && upload_handles.1 != 0 && upload_handles.2 != 0,
        download_handles.0 != 0 && download_handles.1 != 0 && download_handles.2 != 0,
        buffer_download(
            buffer_upload(
                mem,
                device,
                up,
                buffer,
                data,
                upload_handles.0,
                upload_handles.1,
                upload_handles.2,
            ).memory,
            device,
            down,
            buffer,
            download_handles.0,
            download_handles.1,
            download_handles.2,
            fetched,
        ).faithful,
    ensures
        buffer_upload(
            mem,
            device,
            up,
            buffer,
            data,
            upload_handles.0,
            upload_handles.1,
            upload_handles.2,
        ).result == Some(Ok::<(), GPUError>(())),
        buffer_download(
            buffer_upload(
                mem,
                device,
                up,
                buffer,
                data,
                upload_handles.0,
                upload_handles.1,
                upload_handles.2,
            ).memory,
            device,
            down,
            buffer,
            download_handles.0,
            download_handles.1,
            download_handles.2,
            fetched,
        ).result == Some(Ok::<Vec<u8>, GPUError>(fetched)),
        fetched@ == data,
{
    reveal_with_fuel(drive, 6);
    reveal_with_fuel(before_last, 5);
    reveal_with_fuel(execute_all, 3);
    let uploaded = buffer_upload(
        mem,
        device,
        up,
        buffer,
        data,
        upload_handles.0,
        upload_handles.1,
        upload_handles.2,
    );
    assert(uploaded.result == Some(Ok::<(), GPUError>(())));
    assert(uploaded.memory.buffers[buffer.buffer] =~= data);
}

/// An upload of `data` to `texture` through `up` on the model, where the
/// device hands out the mapping `mapping`, the command buffer
/// `command_buffer` and the copy pass `copypass`.
pub open spec fn texture_upload(
    mem: DeviceMemory,
    device: GPUDevice,
    up: GPUTransferBuffer,
    texture: GPUTexture,
    data: Seq<u8>,
    mapping: u64,
    command_buffer: u64,
    copypass: u64,
) -> Run<()> {
    drive(
        |state: TextureWriteState, reply: DeviceReply|
            up.write_texture_step(device, texture, data, state, reply),
        TextureWriteState::Start,
        seq![
            DeviceReply::Nothing,
            DeviceReply::Handle(mapping),
            DeviceReply::Handle(command_buffer),
            DeviceReply::Handle(copypass),
        ],
        mem,
        data,
    )
}

/// A download of `texture` through `down` on the model, where the device
/// hands out the command buffer `command_buffer`, the copy pass `copypass`
/// and the mapping `mapping`, and answers the fetch with `fetched`.
pub open spec fn texture_download(
    mem: DeviceMemory,
    device: GPUDevice,
    down: GPUTransferBuffer,
    texture: GPUTexture,
    command_buffer: u64,
    copypass: u64,
    mapping: u64,
    fetched: Vec<u8>,
) -> Run<Vec<u8>> {
    drive(
        |state: DownloadState, reply: DeviceReply|
            down.read_texture_step(device, texture, state, reply),
        DownloadState::Start,
        seq![
            DeviceReply::Nothing,
            DeviceReply::Handle(command_buffer),
            DeviceReply::Handle(copypass),
            DeviceReply::Handle(mapping),
            DeviceReply::Bytes(fetched),
        ],
        mem,
        Seq::empty(),
    )
}

/// Whatever `write_texture` writes to a texture, `read_texture` reads
/// again, byte for byte, whatever the extent and the format of the
/// texture: on any memory in which the two staging buffers have their
/// sizes and the texture its texels, with any handles that the device
/// hands out, both operations succeed, and the bytes that the download
/// returns are the data.
pub proof fn lemma_texture_round_trip(
    mem: DeviceMemory,
    device: GPUDevice,
    up: GPUTransferBuffer,
    down: GPUTransferBuffer,
    texture: GPUTexture,
    data: Seq<u8>,
    upload_handles: (u64, u64, u64),
    download_handles: (u64, u64, u64),
    fetched: Vec<u8>,
)
    requires
        up.usage == GPUTransferUsage::Upload,
        down.usage == GPUTransferUsage::Download,
        up.buffer != down.buffer,
        data.len() == texture.spec_byte_len(),
        data.len() <= up.size,
        data.len() <= down.size,
        mem.staging.dom().contains(up.buffer),
        mem.staging.dom().contains(down.buffer),
        mem.textures.dom().contains(texture.texture),
        mem.staging[up.buffer].len() == up.size,
        mem.staging[down.buffer].len() == down.size,
        mem.textures[texture.texture].len() == data.len(),
        upload_handles.0 != 0 && upload_handles.1 != 0 && upload_handles.2 != 0,
        download_handles.0 != 0 && download_handles.1 != 0 && download_handles.2 != 0,
        texture_download(
            texture_upload(
                mem,
                device,
                up,
                texture,
                data,
                upload_handles.0,
                upload_handles.1,
                upload_handles.2,
            ).memory,
            device,
            down,
            texture,
            download_handles.0,
            download_handles.1,
            download_handles.2,
            fetched,
        ).faithful,
    ensures
        texture_upload(
            mem,
            device,
            up,
            texture,
            data,
            upload_handles.0,
            upload_handles.1,
            upload_handles.2,
        ).result == Some(Ok::<(), GPUError>(())),
        texture_download(
            texture_upload(
                mem,
                device,
                up,
                texture,
                data,
                upload_handles.0,
                upload_handles.1,
                upload_handles.2,
            ).memory,
            device,
            down,
            texture,
            download_handles.0,
            download_handles.1,
            download_handles.2,
            fetched,
        ).result == Some(Ok::<Vec<u8>, GPUError>(fetched)),
        fetched@ == data,
{
    reveal_with_fuel(drive, 6);
    reveal_with_fuel(before_last, 5);
    reveal_with_fuel(execute_all, 3);
    let uploaded = texture_upload(
        mem,
        device,
        up,
        texture,
        data,
        upload_handles.0,
        upload_handles.1,
        upload_handles.2,
    );
    assert(uploaded.result == Some(Ok::<(), GPUError>(())));
    assert(uploaded.memory.textures[texture.texture] =~= data);
}

/// An upload that is refused at its start changes no byte of the device:
/// with data that do not fit the buffer, or through a buffer that is not
/// for uploads, `write_buffer` fails with the error of its contract and
/// leaves the memory as it was, whatever the device would have answered.
pub proof fn lemma_refused_write_buffer_is_silent(
    mem: DeviceMemory,
    device: GPUDevice,
    up: GPUTransferBuffer,
    buffer: GPUBuffer,
    data: Seq<u8>,
    replies: Seq<DeviceReply>,
)
    requires
        replies.len() > 0,
        up.usage != GPUTransferUsage::Upload || data.len() > buffer.size,
    ensures
        ({
            let run = drive(
                |state: BufferWriteState, reply: DeviceReply|
                    up.write_buffer_step(device, buffer, data, state, reply),
                BufferWriteState::Start,
                replies,
                mem,
                data,
            );
            &&& run.memory == mem
            &&& run.result == Some(
                Err::<(), GPUError>(
                    if up.usage != GPUTransferUsage::Upload {
                        GPUError::WrongDirection
                    } else {
                        GPUError::SizeMismatch
                    },
                ),
            )
        }),
{
    reveal_with_fuel(drive, 2);
}

/// A download through a buffer that is not for downloads changes no byte
/// of the device: `read_buffer` and `read_texture` fail with
/// `WrongDirection` and leave the memory as it was.
pub proof fn lemma_refused_read_is_silent(
    mem: DeviceMemory,
    device: GPUDevice,
    up: GPUTransferBuffer,
    buffer: GPUBuffer,
    texture: GPUTexture,
    replies: Seq<DeviceReply>,
)
    requires
        replies.len() > 0,
        up.usage != GPUTransferUsage::Download,
    ensures
        ({
            let run = drive(
                |state: DownloadState, reply: DeviceReply|
                    up.read_buffer_step(device, buffer, state, reply),
                DownloadState::Start,
                replies,
                mem,
                Seq::empty(),
            );
            &&& run.memory == mem
            &&& run.result == Some(Err::<Vec<u8>, GPUError>(GPUError::WrongDirection))
        }),
        ({
            let run = drive(
                |state: DownloadState, reply: DeviceReply|
                    up.read_texture_step(device, texture, state, reply),
                DownloadState::Start,
                replies,
                mem,
                Seq::empty(),
            );
            &&& run.memory == mem
            &&& run.result == Some(Err::<Vec<u8>, GPUError>(GPUError::WrongDirection))
        }),
{
    reveal_with_fuel(drive, 2);
}

/// An upload to a texture through a buffer that is not for uploads
/// changes no byte of the device: `write_texture` fails with
/// `WrongDirection` and leaves the memory as it was.
pub proof fn lemma_refused_write_texture_is_silent(
    mem: DeviceMemory,
    device: GPUDevice,
    down: GPUTransferBuffer,
    texture: GPUTexture,
    data: Seq<u8>,
    replies: Seq<DeviceReply>,
)
    requires
        replies.len() > 0,
        down.usage != GPUTransferUsage::Upload,
    ensures
        ({
            let run = drive(
                |state: TextureWriteState, reply: DeviceReply|
                    down.write_texture_step(device, texture, data, state, reply),
                TextureWriteState::Start,
                replies,
                mem,
                data,
            );
            &&& run.memory == mem
            &&& run.result == Some(Err::<(), GPUError>(GPUError::WrongDirection))
        }),
{
    reveal_with_fuel(drive, 2);
}

} // verus!
