//! Laws of accounting on the model of the device: an operation finishes
//! what it begins, and a creation that fails leaves no orphan.

use vstd::prelude::*;
use crate::backend::{DeviceCall, DeviceReply, StepView};
use crate::buffer::{
    BufferWriteState, DownloadState, GPUBuffer, GPUTransferBuffer, TextureWriteState,
};
use crate::device::{GPUDevice, TextureCreation, fresh_command_buffer, texture_extent_fits};
use crate::error::GPUError;
use crate::model::{
    DeviceMemory, Run, after_batch, before_last, drive, effect, execute_all, overwrite,
};
use crate::texture::{GPUTexture, GPUTextureAccess, GPUTextureFormat};
use crate::texture_utils::{
    lemma_texture_format_code_injective, sdl_texture_format_code, sdl_texture_format_of,
    texture_format_byte_size,
};

verus! {

/// The transitions of `write_texture` as a function of state and reply.
pub open spec fn texture_write_steps(
    device: GPUDevice,
    up: GPUTransferBuffer,
    texture: GPUTexture,
    data: Seq<u8>,
) -> spec_fn(TextureWriteState, DeviceReply) -> StepView<TextureWriteState, ()> {
    |state: TextureWriteState, reply: DeviceReply|
        up.write_texture_step(device, texture, data, state, reply)
}

/// Whether `after` holds the objects of `before` and no other: the same
/// textures, samplers, buffers, transfer buffers, command buffers and copy
/// passes.
pub open spec fn same_objects(before: DeviceMemory, after: DeviceMemory) -> bool {
    &&& after.textures.dom() == before.textures.dom()
    &&& after.samplers == before.samplers
    &&& after.staging.dom() == before.staging.dom()
    &&& after.buffers.dom() == before.buffers.dom()
    &&& after.recorded.dom() == before.recorded.dom()
    &&& after.passes.dom() == before.passes.dom()
}

/// An upload to a texture finishes what it begins: whatever the device
/// answers, when `write_texture` has come to its end, the command buffer
/// that it acquired is submitted or cancelled and its copy pass is ended,
/// so that the device holds the objects that it held before. Where the
/// upload succeeds, the texture holds the data.
pub proof fn lemma_write_texture_finishes(
    mem: DeviceMemory,
    device: GPUDevice,
    up: GPUTransferBuffer,
    texture: GPUTexture,
    data: Seq<u8>,
    replies: Seq<DeviceReply>,
)
    requires
        mem.staging.dom().contains(up.buffer),
        mem.textures.dom().contains(texture.texture),
        mem.staging[up.buffer].len() == up.size,
        mem.textures[texture.texture].len() == texture.spec_byte_len(),
        drive(
            texture_write_steps(device, up, texture, data),
            TextureWriteState::Start,
            replies,
            mem,
            data,
        ).faithful,
    ensures
        ({
            let run = drive(
                texture_write_steps(device, up, texture, data),
                TextureWriteState::Start,
                replies,
                mem,
                data,
            );
            &&& run.result is Some ==> same_objects(mem, run.memory)
            &&& run.result == Some(Ok::<(), GPUError>(())) ==> run.memory.textures[texture.texture]
                == data
        }),
{
    reveal_with_fuel(drive, 6);
    reveal_with_fuel(before_last, 5);
    reveal_with_fuel(execute_all, 3);
    let run = drive(
        texture_write_steps(device, up, texture, data),
        TextureWriteState::Start,
        replies,
        mem,
        data,
    );
    if run.result is Some {
        assert(run.memory.textures.dom() =~= mem.textures.dom());
        assert(run.memory.samplers =~= mem.samplers);
        assert(run.memory.staging.dom() =~= mem.staging.dom());
        assert(run.memory.buffers.dom() =~= mem.buffers.dom());
        assert(run.memory.recorded.dom() =~= mem.recorded.dom());
        assert(run.memory.passes.dom() =~= mem.passes.dom());
    }
    if run.result == Some(Ok::<(), GPUError>(())) {
        assert(run.memory.textures[texture.texture] =~= data);
    }
}

/// The transitions of `write_buffer` as a function of state and reply.
pub open spec fn buffer_write_steps(
    device: GPUDevice,
    up: GPUTransferBuffer,
    buffer: GPUBuffer,
    data: Seq<u8>,
) -> spec_fn(BufferWriteState, DeviceReply) -> StepView<BufferWriteState, ()> {
    |state: BufferWriteState, reply: DeviceReply|
        up.write_buffer_step(device, buffer, data, state, reply)
}

/// An upload to a buffer finishes what it begins: whatever the device
/// answers, when `write_buffer` has come to its end, the command buffer
/// that it acquired is submitted or cancelled and its copy pass is ended,
/// so that the device holds the objects that it held before. Where the
/// upload succeeds, the buffer starts with the data and is unchanged
/// behind them.
pub proof fn lemma_write_buffer_finishes(
    mem: DeviceMemory,
    device: GPUDevice,
    up: GPUTransferBuffer,
    buffer: GPUBuffer,
    data: Seq<u8>,
    replies: Seq<DeviceReply>,
)
    requires
        mem.staging.dom().contains(up.buffer),
        mem.buffers.dom().contains(buffer.buffer),
        mem.staging[up.buffer].len() == up.size,
        mem.buffers[buffer.buffer].len() == buffer.size,
        drive(
            buffer_write_steps(device, up, buffer, data),
            BufferWriteState::Start,
            replies,
            mem,
            data,
        ).faithful,
    ensures
        ({
            let run = drive(
                buffer_write_steps(device, up, buffer, data),
                BufferWriteState::Start,
                replies,
                mem,
                data,
            );
            &&& run.result is Some ==> same_objects(mem, run.memory)
            &&& run.result == Some(Ok::<(), GPUError>(())) ==> run.memory.buffers[buffer.buffer]
                == overwrite(mem.buffers[buffer.buffer], 0, data)
        }),
{
    reveal_with_fuel(drive, 6);
    reveal_with_fuel(before_last, 5);
    reveal_with_fuel(execute_all, 3);
    let run = drive(
        buffer_write_steps(device, up, buffer, data),
        BufferWriteState::Start,
        replies,
        mem,
        data,
    );
    if run.result is Some {
        assert(run.memory.textures.dom() =~= mem.textures.dom());
        assert(run.memory.samplers =~= mem.samplers);
        assert(run.memory.staging.dom() =~= mem.staging.dom());
        assert(run.memory.buffers.dom() =~= mem.buffers.dom());
        assert(run.memory.recorded.dom() =~= mem.recorded.dom());
        assert(run.memory.passes.dom() =~= mem.passes.dom());
    }
    if run.result == Some(Ok::<(), GPUError>(())) {
        assert(run.memory.buffers[buffer.buffer] =~= overwrite(
            mem.buffers[buffer.buffer],
            0,
            data,
        ));
    }
}

/// The transitions of `read_buffer` as a function of state and reply.
pub open spec fn buffer_read_steps(
    device: GPUDevice,
    down: GPUTransferBuffer,
    buffer: GPUBuffer,
) -> spec_fn(DownloadState, DeviceReply) -> StepView<DownloadState, Vec<u8>> {
    |state: DownloadState, reply: DeviceReply| down.read_buffer_step(device, buffer, state, reply)
}

/// A download of a buffer finishes what it begins, changes no buffer and
/// returns what the buffer holds: whatever the device answers, when
/// `read_buffer` has come to its end, the device holds the objects that it
/// held before, every buffer holds what it held, and the bytes of a
/// successful download are those of the buffer.
pub proof fn lemma_read_buffer_finishes(
    mem: DeviceMemory,
    device: GPUDevice,
    down: GPUTransferBuffer,
    buffer: GPUBuffer,
    replies: Seq<DeviceReply>,
)
    requires
        mem.staging.dom().contains(down.buffer),
        mem.buffers.dom().contains(buffer.buffer),
        mem.staging[down.buffer].len() == down.size,
        mem.buffers[buffer.buffer].len() == buffer.size,
        drive(
            buffer_read_steps(device, down, buffer),
            DownloadState::Start,
            replies,
            mem,
            Seq::empty(),
        ).faithful,
    ensures
        ({
            let run = drive(
                buffer_read_steps(device, down, buffer),
                DownloadState::Start,
                replies,
                mem,
                Seq::empty(),
            );
            &&& run.result is Some ==> same_objects(mem, run.memory) && run.memory.buffers
                == mem.buffers
            &&& run.result matches Some(Ok(bytes)) ==> bytes@ == mem.buffers[buffer.buffer]
        }),
{
    reveal_with_fuel(drive, 7);
    reveal_with_fuel(before_last, 5);
    reveal_with_fuel(execute_all, 3);
    let run = drive(
        buffer_read_steps(device, down, buffer),
        DownloadState::Start,
        replies,
        mem,
        Seq::empty(),
    );
    if run.result is Some {
        assert(run.memory.textures.dom() =~= mem.textures.dom());
        assert(run.memory.samplers =~= mem.samplers);
        assert(run.memory.staging.dom() =~= mem.staging.dom());
        assert(run.memory.buffers =~= mem.buffers);
        assert(run.memory.recorded.dom() =~= mem.recorded.dom());
        assert(run.memory.passes.dom() =~= mem.passes.dom());
    }
    if let Some(Ok(bytes)) = run.result {
        assert(bytes@ =~= mem.buffers[buffer.buffer]);
    }
}

/// The transitions of `read_texture` as a function of state and reply.
pub open spec fn texture_read_steps(
    device: GPUDevice,
    down: GPUTransferBuffer,
    texture: GPUTexture,
) -> spec_fn(DownloadState, DeviceReply) -> StepView<DownloadState, Vec<u8>> {
    |state: DownloadState, reply: DeviceReply|
        down.read_texture_step(device, texture, state, reply)
}

/// A download of a texture finishes what it begins, changes no texture and
/// returns what the texture holds: whatever the device answers, when
/// `read_texture` has come to its end, the device holds the objects that
/// it held before, every texture holds what it held, and the bytes of a
/// successful download are those of the texture.
pub proof fn lemma_read_texture_finishes(
    mem: DeviceMemory,
    device: GPUDevice,
    down: GPUTransferBuffer,
    texture: GPUTexture,
    replies: Seq<DeviceReply>,
)
    requires
        mem.staging.dom().contains(down.buffer),
        mem.textures.dom().contains(texture.texture),
        mem.staging[down.buffer].len() == down.size,
        mem.textures[texture.texture].len() == texture.spec_byte_len(),
        drive(
            texture_read_steps(device, down, texture),
            DownloadState::Start,
            replies,
            mem,
            Seq::empty(),
        ).faithful,
    ensures
        ({
            let run = drive(
                texture_read_steps(device, down, texture),
                DownloadState::Start,
                replies,
                mem,
                Seq::empty(),
            );
            &&& run.result is Some ==> same_objects(mem, run.memory) && run.memory.textures
                == mem.textures
            &&& run.result matches Some(Ok(bytes)) ==> bytes@ == mem.textures[texture.texture]
        }),
{
    reveal_with_fuel(drive, 7);
    reveal_with_fuel(before_last, 5);
    reveal_with_fuel(execute_all, 3);
    let run = drive(
        texture_read_steps(device, down, texture),
        DownloadState::Start,
        replies,
        mem,
        Seq::empty(),
    );
    if run.result is Some {
        assert(run.memory.textures =~= mem.textures);
        assert(run.memory.samplers =~= mem.samplers);
        assert(run.memory.staging.dom() =~= mem.staging.dom());
        assert(run.memory.buffers.dom() =~= mem.buffers.dom());
        assert(run.memory.recorded.dom() =~= mem.recorded.dom());
        assert(run.memory.passes.dom() =~= mem.passes.dom());
    }
    if let Some(Ok(bytes)) = run.result {
        assert(bytes@ =~= mem.textures[texture.texture]);
    }
}

/// The transitions of `create_texture` as a function of state and reply.
pub open spec fn texture_creation_steps(
    device: GPUDevice,
    data: Seq<u8>,
    extent: (u32, u32),
    format: GPUTextureFormat,
    access: GPUTextureAccess,
) -> spec_fn(TextureCreation, DeviceReply) -> StepView<TextureCreation, GPUTexture> {
    |state: TextureCreation, reply: DeviceReply|
        device.create_texture_step(data, extent.0, extent.1, format, access, state, reply)
}

/// What holds of a creation that has come to its end, on a device that
/// held the objects of `before` when it began: a failed creation has left
/// exactly those objects; a successful one has added the texture and its
/// sampler and nothing else, and the texture holds the pixels.
pub open spec fn creation_settled(
    before: DeviceMemory,
    data: Seq<u8>,
    format: GPUTextureFormat,
    run: Run<GPUTexture>,
) -> bool {
    &&& run.result matches Some(Err(_)) ==> same_objects(before, run.memory)
    &&& run.result matches Some(Ok(texture)) ==> {
        &&& texture.should_destroy
        &&& texture.format == format
        &&& !before.textures.dom().contains(texture.texture)
        &&& !before.samplers.contains(texture.sampler)
        &&& run.memory.textures.dom() == before.textures.dom().insert(texture.texture)
        &&& run.memory.samplers == before.samplers.insert(texture.sampler)
        &&& run.memory.staging.dom() == before.staging.dom()
        &&& run.memory.buffers.dom() == before.buffers.dom()
        &&& run.memory.recorded.dom() == before.recorded.dom()
        &&& run.memory.passes.dom() == before.passes.dom()
        &&& run.memory.textures[texture.texture] == data
    }
}

/// Whether `now` holds the objects of `before` and, of each kind, the one
/// further object that is named, which `before` does not hold.
spec fn held(
    before: DeviceMemory,
    now: DeviceMemory,
    texture: Option<u64>,
    staging: Option<u64>,
    sampler: Option<u64>,
    command_buffer: Option<u64>,
    copypass: Option<u64>,
) -> bool {
    &&& now.buffers.dom() == before.buffers.dom()
    &&& match texture {
        Some(h) => !before.textures.dom().contains(h) && now.textures.dom()
            == before.textures.dom().insert(h),
        None => now.textures.dom() == before.textures.dom(),
    }
    &&& match staging {
        Some(h) => !before.staging.dom().contains(h) && now.staging.dom()
            == before.staging.dom().insert(h),
        None => now.staging.dom() == before.staging.dom(),
    }
    &&& match sampler {
        Some(h) => !before.samplers.contains(h) && now.samplers == before.samplers.insert(h),
        None => now.samplers == before.samplers,
    }
    &&& match command_buffer {
        Some(h) => !before.recorded.dom().contains(h) && now.recorded.dom()
            == before.recorded.dom().insert(h),
        None => now.recorded.dom() == before.recorded.dom(),
    }
    &&& match copypass {
        Some(h) => !before.passes.dom().contains(h) && now.passes.dom()
            == before.passes.dom().insert(h),
        None => now.passes.dom() == before.passes.dom(),
    }
}

/// The handle of a reply, if it is not null.
spec fn handed(reply: DeviceReply) -> Option<u64> {
    if reply.spec_handle() == 0 {
        None
    } else {
        Some(reply.spec_handle())
    }
}

/// What the creation of a texture is about: the device, the pixels, and
/// the texture and the staging buffer once they are there.
struct Creation {
    device: GPUDevice,
    data: Seq<u8>,
    extent: (u32, u32),
    format: GPUTextureFormat,
    access: GPUTextureAccess,
    texture: GPUTexture,
    staging: GPUTransferBuffer,
}

impl Creation {
    spec fn steps(self) -> spec_fn(TextureCreation, DeviceReply) -> StepView<
        TextureCreation,
        GPUTexture,
    > {
        texture_creation_steps(self.device, self.data, self.extent, self.format, self.access)
    }

    spec fn uploading(self, upload: TextureWriteState) -> TextureCreation {
        TextureCreation::Uploading { texture: self.texture, staging: self.staging, upload }
    }

    /// The texture and the staging buffer are the ones of this creation,
    /// and the data fill both.
    spec fn well_formed(self) -> bool {
        &&& texture_extent_fits(self.extent.0, self.extent.1)
        &&& self.texture == self.device.owned_texture(
            self.texture.texture,
            self.texture.sampler,
            self.extent.0,
            self.extent.1,
            self.format,
            self.access,
        )
        &&& self.staging == self.device.staging_buffer(
            self.staging.buffer,
            self.extent.0,
            self.extent.1,
        )
        &&& self.data.len() == self.texture.spec_byte_len()
        &&& self.data.len() <= self.staging.size
    }

    /// The sizes of the texture and of the staging buffer in `now`.
    spec fn sized(self, now: DeviceMemory) -> bool {
        &&& now.textures[self.texture.texture].len() == self.data.len()
        &&& now.staging[self.staging.buffer].len() == self.staging.size
    }

    /// The data are staged in `now`.
    spec fn staged(self, now: DeviceMemory) -> bool {
        now.staging[self.staging.buffer].take(self.data.len() as int) == self.data
    }
}

proof fn lemma_creation_opening_pass(
    c: Creation,
    before: DeviceMemory,
    now: DeviceMemory,
    command_buffer: u64,
    replies: Seq<DeviceReply>,
)
    requires
        c.well_formed(),
        c.sized(now),
        c.staged(now),
        replies.len() > 0,
        held(
            before,
            now,
            Some(c.texture.texture),
            Some(c.staging.buffer),
            Some(c.texture.sampler),
            Some(command_buffer),
            handed(replies[0]),
        ),
        now.recorded[command_buffer] == Seq::<DeviceCall>::empty(),
        replies[0].spec_handle() != 0 ==> now.passes[replies[0].spec_handle()] == command_buffer,
    ensures
        creation_settled(
            before,
            c.data,
            c.format,
            drive(
                c.steps(),
                c.uploading(
                    TextureWriteState::OpeningPass {
                        command_buffer: fresh_command_buffer(
                            c.device,
                            command_buffer,
                        ),
                    },
                ),
                replies,
                now,
                c.data,
            ),
        ),
{
    reveal_with_fuel(before_last, 6);
    reveal_with_fuel(execute_all, 3);
    let run = drive(
        c.steps(),
        c.uploading(
            TextureWriteState::OpeningPass {
                command_buffer: fresh_command_buffer(c.device, command_buffer),
            },
        ),
        replies,
        now,
        c.data,
    );
    assert(run.result is Some);
    assert(run.memory.textures.dom() =~= if run.result matches Some(Ok(_)) {
        before.textures.dom().insert(c.texture.texture)
    } else {
        before.textures.dom()
    });
    assert(run.memory.samplers =~= if run.result matches Some(Ok(_)) {
        before.samplers.insert(c.texture.sampler)
    } else {
        before.samplers
    });
    assert(run.memory.staging.dom() =~= before.staging.dom());
    assert(run.memory.buffers.dom() =~= before.buffers.dom());
    assert(run.memory.recorded.dom() =~= before.recorded.dom());
    assert(run.memory.passes.dom() =~= before.passes.dom());
    if run.result matches Some(Ok(_)) {
        assert(run.memory.textures[c.texture.texture] =~= c.data);
    }
}

proof fn lemma_creation_diagnosing(
    c: Creation,
    before: DeviceMemory,
    now: DeviceMemory,
    replies: Seq<DeviceReply>,
)
    requires
        c.well_formed(),
        held(
            before,
            now,
            Some(c.texture.texture),
            Some(c.staging.buffer),
            Some(c.texture.sampler),
            None,
            None,
        ),
    ensures
        creation_settled(
            before,
            c.data,
            c.format,
            drive(c.steps(), c.uploading(TextureWriteState::Diagnosing), replies, now, c.data),
        ),
{
    reveal_with_fuel(before_last, 4);
    let run = drive(c.steps(), c.uploading(TextureWriteState::Diagnosing), replies, now, c.data);
    if run.result is Some {
        assert(run.memory.textures.dom() =~= before.textures.dom());
        assert(run.memory.samplers =~= before.samplers);
        assert(run.memory.staging.dom() =~= before.staging.dom());
    }
}

proof fn lemma_creation_acquiring(
    c: Creation,
    before: DeviceMemory,
    now: DeviceMemory,
    replies: Seq<DeviceReply>,
)
    requires
        c.well_formed(),
        c.sized(now),
        c.staged(now),
        replies.len() > 0,
        held(
            before,
            now,
            Some(c.texture.texture),
            Some(c.staging.buffer),
            Some(c.texture.sampler),
            handed(replies[0]),
            None,
        ),
        replies[0].spec_handle() != 0 ==> now.recorded[replies[0].spec_handle()] == Seq::<
            DeviceCall,
        >::empty(),
        drive(c.steps(), c.uploading(TextureWriteState::Acquiring), replies, now, c.data).faithful,
    ensures
        creation_settled(
            before,
            c.data,
            c.format,
            drive(c.steps(), c.uploading(TextureWriteState::Acquiring), replies, now, c.data),
        ),
{
    reveal_with_fuel(before_last, 2);
    if replies.len() > 1 {
        let rest = replies.drop_first();
        if replies[0].spec_handle() == 0 {
            let next = after_batch(now, seq![DeviceCall::LastError], replies[1], c.data);
            lemma_creation_diagnosing(c, before, next, rest);
        } else {
            let handle = replies[0].spec_handle();
            let begin = DeviceCall::BeginCopyPass { command_buffer: handle };
            let next = after_batch(now, seq![begin], replies[1], c.data);
            assert(next == effect(now, begin, replies[1], c.data));
            assert(next.passes.dom() =~= if replies[1].spec_handle() == 0 {
                before.passes.dom()
            } else {
                before.passes.dom().insert(replies[1].spec_handle())
            });
            lemma_creation_opening_pass(c, before, next, handle, rest);
        }
    }
}

proof fn lemma_creation_mapping(
    c: Creation,
    before: DeviceMemory,
    now: DeviceMemory,
    replies: Seq<DeviceReply>,
)
    requires
        c.well_formed(),
        c.sized(now),
        replies.len() > 0,
        held(
            before,
            now,
            Some(c.texture.texture),
            Some(c.staging.buffer),
            Some(c.texture.sampler),
            None,
            None,
        ),
        drive(c.steps(), c.uploading(TextureWriteState::Mapping), replies, now, c.data).faithful,
    ensures
        creation_settled(
            before,
            c.data,
            c.format,
            drive(c.steps(), c.uploading(TextureWriteState::Mapping), replies, now, c.data),
        ),
{
    reveal_with_fuel(before_last, 4);
    let run = drive(c.steps(), c.uploading(TextureWriteState::Mapping), replies, now, c.data);
    if replies[0].spec_handle() == 0 {
        assert(run.memory.textures.dom() =~= before.textures.dom());
        assert(run.memory.samplers =~= before.samplers);
        assert(run.memory.staging.dom() =~= before.staging.dom());
    } else if replies.len() > 1 {
        let rest = replies.drop_first();
        let calls = seq![
            c.staging.stage_call(c.data.len()),
            c.staging.unmap_call(),
            c.device.acquire_call(),
        ];
        let next = after_batch(now, calls, replies[1], c.data);
        assert(next.staging[c.staging.buffer].take(c.data.len() as int) =~= c.data);
        assert(next.staging.dom() =~= now.staging.dom());
        assert(next.recorded.dom() =~= if replies[1].spec_handle() == 0 {
            before.recorded.dom()
        } else {
            before.recorded.dom().insert(replies[1].spec_handle())
        });
        lemma_creation_acquiring(c, before, next, rest);
    }
}

proof fn lemma_creation_sampler(
    before: DeviceMemory,
    now: DeviceMemory,
    device: GPUDevice,
    data: Seq<u8>,
    extent: (u32, u32),
    format: GPUTextureFormat,
    access: GPUTextureAccess,
    texture: u64,
    staging: GPUTransferBuffer,
    replies: Seq<DeviceReply>,
)
    requires
        texture_extent_fits(extent.0, extent.1),
        staging == device.staging_buffer(staging.buffer, extent.0, extent.1),
        replies.len() > 0,
        held(before, now, Some(texture), Some(staging.buffer), handed(replies[0]), None, None),
        now.textures[texture].len() == extent.0 * extent.1 * texture_format_byte_size(format),
        now.staging[staging.buffer].len() == staging.size,
        drive(
            texture_creation_steps(device, data, extent, format, access),
            TextureCreation::CreatingSampler { texture, staging },
            replies,
            now,
            data,
        ).faithful,
    ensures
        creation_settled(
            before,
            data,
            format,
            drive(
                texture_creation_steps(device, data, extent, format, access),
                TextureCreation::CreatingSampler { texture, staging },
                replies,
                now,
                data,
            ),
        ),
{
    reveal_with_fuel(before_last, 4);
    let run = drive(
        texture_creation_steps(device, data, extent, format, access),
        TextureCreation::CreatingSampler { texture, staging },
        replies,
        now,
        data,
    );
    let made = device.owned_texture(
        texture,
        replies[0].spec_handle(),
        extent.0,
        extent.1,
        format,
        access,
    );
    let c = Creation { device, data, extent, format, access, texture: made, staging };
    if replies[0].spec_handle() != 0 && c.well_formed() {
        if replies.len() > 1 {
            let next = after_batch(now, seq![staging.map_call(false)], replies[1], data);
            assert(next == now);
            lemma_creation_mapping(c, before, next, replies.drop_first());
        }
    } else {
        assert(run.result is Some);
        assert(run.memory.textures.dom() =~= before.textures.dom());
        assert(run.memory.samplers =~= before.samplers);
        assert(run.memory.staging.dom() =~= before.staging.dom());
    }
}

proof fn lemma_creation_staging(
    before: DeviceMemory,
    now: DeviceMemory,
    device: GPUDevice,
    data: Seq<u8>,
    extent: (u32, u32),
    format: GPUTextureFormat,
    access: GPUTextureAccess,
    texture: u64,
    replies: Seq<DeviceReply>,
)
    requires
        texture_extent_fits(extent.0, extent.1),
        replies.len() > 0,
        held(before, now, Some(texture), handed(replies[0]), None, None, None),
        now.textures[texture].len() == extent.0 * extent.1 * texture_format_byte_size(format),
        replies[0].spec_handle() != 0 ==> now.staging[replies[0].spec_handle()].len() == extent.0
            * extent.1 * 4,
        drive(
            texture_creation_steps(device, data, extent, format, access),
            TextureCreation::CreatingStaging { texture },
            replies,
            now,
            data,
        ).faithful,
    ensures
        creation_settled(
            before,
            data,
            format,
            drive(
                texture_creation_steps(device, data, extent, format, access),
                TextureCreation::CreatingStaging { texture },
                replies,
                now,
                data,
            ),
        ),
{
    reveal_with_fuel(before_last, 2);
    let run = drive(
        texture_creation_steps(device, data, extent, format, access),
        TextureCreation::CreatingStaging { texture },
        replies,
        now,
        data,
    );
    if replies[0].spec_handle() == 0 {
        assert(run.memory.textures.dom() =~= before.textures.dom());
    } else if replies.len() > 1 {
        let staging = device.staging_buffer(replies[0].spec_handle(), extent.0, extent.1);
        let create = DeviceCall::CreateSampler {
            device: device.device,
            info: crate::device::default_sampler(),
        };
        let next = after_batch(now, seq![create], replies[1], data);
        assert(next == effect(now, create, replies[1], data));
        lemma_creation_sampler(
            before,
            next,
            device,
            data,
            extent,
            format,
            access,
            texture,
            staging,
            replies.drop_first(),
        );
    }
}

proof fn lemma_creation_texture(
    before: DeviceMemory,
    now: DeviceMemory,
    device: GPUDevice,
    data: Seq<u8>,
    extent: (u32, u32),
    format: GPUTextureFormat,
    access: GPUTextureAccess,
    replies: Seq<DeviceReply>,
)
    requires
        texture_extent_fits(extent.0, extent.1),
        replies.len() > 0,
        held(before, now, handed(replies[0]), None, None, None, None),
        replies[0].spec_handle() != 0 ==> now.textures[replies[0].spec_handle()].len() == extent.0
            * extent.1 * texture_format_byte_size(format),
        drive(
            texture_creation_steps(device, data, extent, format, access),
            TextureCreation::CreatingTexture,
            replies,
            now,
            data,
        ).faithful,
    ensures
        creation_settled(
            before,
            data,
            format,
            drive(
                texture_creation_steps(device, data, extent, format, access),
                TextureCreation::CreatingTexture,
                replies,
                now,
                data,
            ),
        ),
{
    reveal_with_fuel(before_last, 2);
    if replies[0].spec_handle() != 0 && replies.len() > 1 {
        let create = device.transfer_buffer_call(
            (extent.0 * extent.1 * 4) as u32,
            crate::buffer::GPUTransferUsage::Upload,
        );
        let next = after_batch(now, seq![create], replies[1], data);
        assert(next == effect(now, create, replies[1], data));
        assert(next.staging.dom() =~= if replies[1].spec_handle() == 0 {
            before.staging.dom()
        } else {
            before.staging.dom().insert(replies[1].spec_handle())
        });
        lemma_creation_staging(
            before,
            next,
            device,
            data,
            extent,
            format,
            access,
            replies[0].spec_handle(),
            replies.drop_first(),
        );
    }
}

/// The creation of a texture leaves no orphan: whatever the device
/// answers, a creation that fails leaves on the device exactly the objects
/// that were there before, and one that succeeds adds the texture and its
/// sampler and nothing else, and the texture holds the pixels.
pub proof fn lemma_create_texture_leaves_no_orphan(
    mem: DeviceMemory,
    device: GPUDevice,
    data: Seq<u8>,
    extent: (u32, u32),
    format: GPUTextureFormat,
    access: GPUTextureAccess,
    replies: Seq<DeviceReply>,
)
    requires
        drive(
            texture_creation_steps(device, data, extent, format, access),
            TextureCreation::Start,
            replies,
            mem,
            data,
        ).faithful,
    ensures
        creation_settled(
            mem,
            data,
            format,
            drive(
                texture_creation_steps(device, data, extent, format, access),
                TextureCreation::Start,
                replies,
                mem,
                data,
            ),
        ),
{
    reveal_with_fuel(before_last, 2);
    if texture_extent_fits(extent.0, extent.1) && replies.len() > 1 {
        let create = DeviceCall::CreateTexture {
            device: device.device,
            info: GPUDevice::texture_info(extent.0, extent.1, format, access),
        };
        let next = after_batch(mem, seq![create], replies[1], data);
        assert(next == effect(mem, create, replies[1], data));
        assert(sdl_texture_format_of(sdl_texture_format_code(format)) == format) by {
            lemma_texture_format_code_injective(
                sdl_texture_format_of(sdl_texture_format_code(format)),
                format,
            );
        }
        assert(next.textures.dom() =~= if replies[1].spec_handle() == 0 {
            mem.textures.dom()
        } else {
            mem.textures.dom().insert(replies[1].spec_handle())
        });
        lemma_creation_texture(
            mem,
            next,
            device,
            data,
            extent,
            format,
            access,
            replies.drop_first(),
        );
    }
}

/// Every transfer comes to its end: `write_buffer` and `write_texture`
/// within four transitions, `read_buffer` and `read_texture` within five,
/// whatever the device answers.
pub proof fn lemma_transfers_end(
    mem: DeviceMemory,
    device: GPUDevice,
    transfer: GPUTransferBuffer,
    buffer: GPUBuffer,
    texture: GPUTexture,
    data: Seq<u8>,
    replies: Seq<DeviceReply>,
)
    ensures
        replies.len() >= 4 ==> drive(
            buffer_write_steps(device, transfer, buffer, data),
            BufferWriteState::Start,
            replies,
            mem,
            data,
        ).result is Some,
        replies.len() >= 4 ==> drive(
            texture_write_steps(device, transfer, texture, data),
            TextureWriteState::Start,
            replies,
            mem,
            data,
        ).result is Some,
        replies.len() >= 5 ==> drive(
            buffer_read_steps(device, transfer, buffer),
            DownloadState::Start,
            replies,
            mem,
            Seq::empty(),
        ).result is Some,
        replies.len() >= 5 ==> drive(
            texture_read_steps(device, transfer, texture),
            DownloadState::Start,
            replies,
            mem,
            Seq::empty(),
        ).result is Some,
{
    reveal_with_fuel(drive, 7);
}

/// The creation of a texture comes to its end within seven transitions,
/// whatever the device answers.
pub proof fn lemma_create_texture_ends(
    mem: DeviceMemory,
    device: GPUDevice,
    data: Seq<u8>,
    extent: (u32, u32),
    format: GPUTextureFormat,
    access: GPUTextureAccess,
    replies: Seq<DeviceReply>,
)
    requires
        replies.len() >= 7,
    ensures
        drive(
            texture_creation_steps(device, data, extent, format, access),
            TextureCreation::Start,
            replies,
            mem,
            data,
        ).result is Some,
{
    reveal_with_fuel(drive, 9);
}

} // verus!
