//! Device buffers, and the transfer buffers that stage every byte moved
//! between host memory and device memory.

use vstd::prelude::*;
use crate::backend::{
    BufferRegion, DeviceCall, DeviceReply, Step, StepView, TextureRegion, TextureTransferInfo,
    TransferLocation, batch1, batch2, batch3, batch4, optional_call,
};
use crate::command_buffer::CommandBuffer;
use crate::device::{GPUDevice, fresh_command_buffer, no_command_buffer, no_copypass};
use crate::error::GPUError;
use crate::texture::GPUTexture;

verus! {

/// What a device buffer holds.
#[derive(Debug, Clone, Copy, PartialEq, Eq, Structural)]
pub enum GPUBufferType {
    Vertex,
    Index,
    Uniform,
}

/// The backend's usage flag for each kind of buffer.
pub open spec fn sdl_buffer_usage_flag(buffer_type: GPUBufferType) -> int {
    match buffer_type {
        GPUBufferType::Vertex => 1,
        GPUBufferType::Index => 2,
        GPUBufferType::Uniform => 8,
    }
}

/// Translates a kind of buffer to the backend's usage flag.
pub fn gpu_buffer_type_to_sdl(buffer_type: GPUBufferType) -> (flags: u32)
    ensures
        flags == sdl_buffer_usage_flag(buffer_type),
{
    match buffer_type {
        GPUBufferType::Vertex => 1,
        GPUBufferType::Index => 2,
        GPUBufferType::Uniform => 8,
    }
}

/// A buffer in device memory, `size` bytes long.
#[derive(Debug, PartialEq, Eq)]
pub struct GPUBuffer {
    pub buffer: u64,
    pub device: u64,
    pub size: u32,
}

impl GPUBuffer {
    /// Gives the buffer back to the device.
    pub fn release(self) -> (call: DeviceCall)
        ensures
            call == (DeviceCall::ReleaseBuffer { device: self.device, buffer: self.buffer }),
    {
        DeviceCall::ReleaseBuffer { device: self.device, buffer: self.buffer }
    }
}

/// The one direction in which a transfer buffer moves bytes.
#[derive(Debug, Clone, Copy, PartialEq, Eq, Structural)]
pub enum GPUTransferUsage {
    Upload,
    Download,
}

/// The backend's code for each direction.
pub open spec fn sdl_transfer_usage_code(usage: GPUTransferUsage) -> int {
    match usage {
        GPUTransferUsage::Upload => 0,
        GPUTransferUsage::Download => 1,
    }
}

/// Translates a direction to the backend's code.
pub fn gpu_transfer_usage_to_sdl(usage: GPUTransferUsage) -> (code: i32)
    ensures
        code == sdl_transfer_usage_code(usage),
{
    match usage {
        GPUTransferUsage::Upload => 0,
        GPUTransferUsage::Download => 1,
    }
}

/// Host-visible staging memory of `size` bytes, for one direction.
#[derive(Debug, PartialEq, Eq)]
pub struct GPUTransferBuffer {
    pub buffer: u64,
    pub device: u64,
    pub usage: GPUTransferUsage,
    pub size: u32,
}

/// Where an upload through a caller's command buffer stands.
#[derive(Debug, Clone, Copy, PartialEq, Eq, Structural)]
pub enum UploadState {
    /// Nothing was asked yet.
    Start,
    /// The mapping of the staging memory was asked for.
    Mapping,
    /// The bytes are staged; the copy pass was asked for.
    OpeningPass,
}

/// Where an upload to a buffer through a command buffer of its own stands.
#[derive(Debug, PartialEq, Eq)]
pub enum BufferWriteState {
    /// Nothing was asked yet.
    Start,
    /// The command buffer was asked for.
    Acquiring,
    /// The command buffer was refused; the backend was asked why.
    Diagnosing,
    /// The upload runs on `command_buffer`.
    Uploading { command_buffer: CommandBuffer, upload: UploadState },
}

/// Where an upload to a texture stands.
#[derive(Debug, PartialEq, Eq)]
pub enum TextureWriteState {
    /// Nothing was asked yet.
    Start,
    /// The mapping of the staging memory was asked for.
    Mapping,
    /// The bytes are staged; the command buffer was asked for.
    Acquiring,
    /// The command buffer was refused; the backend was asked why.
    Diagnosing,
    /// The copy pass was asked for on `command_buffer`.
    OpeningPass { command_buffer: CommandBuffer },
}

/// Where a download stands.
#[derive(Debug, PartialEq, Eq)]
pub enum DownloadState {
    /// Nothing was asked yet.
    Start,
    /// The command buffer was asked for.
    Acquiring,
    /// The command buffer was refused; the backend was asked why.
    Diagnosing,
    /// The copy pass was asked for on `command_buffer`.
    OpeningPass { command_buffer: CommandBuffer },
    /// The copy is submitted; the mapping of the staging memory was asked
    /// for.
    Mapping,
    /// The staged bytes were asked for.
    Fetching,
}

/// What a download copies from.
#[derive(Debug, Clone, Copy, PartialEq, Eq, Structural)]
pub enum DownloadSource {
    Buffer { bytes: BufferRegion },
    Texture { texels: TextureRegion, pixels_per_row: u32, rows_per_layer: u32 },
}

/// The whole of `texture` as a region: every texel of its one layer.
pub open spec fn whole_texture(texture: GPUTexture) -> TextureRegion {
    TextureRegion {
        texture: texture.texture,
        mip_level: 0,
        layer: 0,
        x: 0,
        y: 0,
        z: 0,
        w: texture.size.w as u32,
        h: texture.size.h as u32,
        d: 1,
    }
}

/// The whole of `buffer` as a region.
pub open spec fn whole_buffer(buffer: GPUBuffer) -> BufferRegion {
    BufferRegion { buffer: buffer.buffer, offset: 0, size: buffer.size }
}

impl GPUTransferBuffer {
    /// Gives the transfer buffer back to the device.
    pub fn release(self) -> (call: DeviceCall)
        ensures
            call == self.release_call(),
    {
        DeviceCall::ReleaseTransferBuffer { device: self.device, transfer_buffer: self.buffer }
    }

    /// The call that gives the transfer buffer back to the device.
    pub open spec fn release_call(self) -> DeviceCall {
        DeviceCall::ReleaseTransferBuffer { device: self.device, transfer_buffer: self.buffer }
    }

    /// The call that maps the staging memory.
    pub open spec fn map_call(self, cycle: bool) -> DeviceCall {
        DeviceCall::MapTransferBuffer { device: self.device, transfer_buffer: self.buffer, cycle }
    }

    /// The call that unmaps the staging memory.
    pub open spec fn unmap_call(self) -> DeviceCall {
        DeviceCall::UnmapTransferBuffer { device: self.device, transfer_buffer: self.buffer }
    }

    /// The call that copies `len` bytes of the caller's data into the
    /// mapping.
    pub open spec fn stage_call(self, len: nat) -> DeviceCall {
        DeviceCall::StageBytes { transfer_buffer: self.buffer, len: len as usize }
    }

    /// The call that copies `len` bytes out of the mapping.
    pub open spec fn fetch_call(self, len: usize) -> DeviceCall {
        DeviceCall::FetchBytes { transfer_buffer: self.buffer, len }
    }

    /// The start of the staging memory.
    pub open spec fn location(self) -> TransferLocation {
        TransferLocation { transfer_buffer: self.buffer, offset: 0 }
    }

    /// The device-side copy of the `len` staged bytes to the start of
    /// `buffer`, which the device may cycle.
    pub open spec fn upload_buffer_call(
        self,
        copypass: u64,
        buffer: GPUBuffer,
        len: nat,
    ) -> DeviceCall {
        DeviceCall::UploadToBuffer {
            copypass,
            source: self.location(),
            destination: BufferRegion { buffer: buffer.buffer, offset: 0, size: len as u32 },
            cycle: true,
        }
    }

    /// The staging memory as rows of the texels of `texture`.
    pub open spec fn texture_layout(self, texture: GPUTexture) -> TextureTransferInfo {
        TextureTransferInfo {
            transfer_buffer: self.buffer,
            offset: 0,
            pixels_per_row: texture.size.w as u32,
            rows_per_layer: texture.size.h as u32,
        }
    }

    /// The device-side copy of the staged texels to the whole of `texture`,
    /// which the device may cycle.
    pub open spec fn upload_texture_call(self, copypass: u64, texture: GPUTexture) -> DeviceCall {
        DeviceCall::UploadToTexture {
            copypass,
            source: self.texture_layout(texture),
            destination: whole_texture(texture),
            cycle: true,
        }
    }

    /// The device-side copy of `source` to the start of the staging memory.
    pub open spec fn download_call(self, copypass: u64, source: DownloadSource) -> DeviceCall {
        match source {
            DownloadSource::Buffer { bytes } => DeviceCall::DownloadFromBuffer {
                copypass,
                source: bytes,
                destination: self.location(),
            },
            DownloadSource::Texture {
                texels,
                pixels_per_row,
                rows_per_layer,
            } => DeviceCall::DownloadFromTexture {
                copypass,
                source: texels,
                destination: TextureTransferInfo {
                    transfer_buffer: self.buffer,
                    offset: 0,
                    pixels_per_row,
                    rows_per_layer,
                },
            },
        }
    }

    /// Whether this buffer stages uploads.
    pub fn is_upload(&self) -> (b: bool)
        ensures
            b == (self.usage == GPUTransferUsage::Upload),
    {
        match self.usage {
            GPUTransferUsage::Upload => true,
            GPUTransferUsage::Download => false,
        }
    }

    /// One transition of an upload to `buffer` through the caller's
    /// command buffer.
    ///
    /// It starts by checking the direction, that the data fit the buffer
    /// and that the staging memory can take them, and then maps the
    /// staging memory. Once mapped, it stages
    /// the data, unmaps and opens a copy pass; in the pass it copies the
    /// staged bytes to the buffer and ends the pass. A refused mapping or
    /// pass ends the upload with no further call.
    pub open spec fn write_buffer_cmd_step(
        self,
        buffer: GPUBuffer,
        command_buffer: CommandBuffer,
        data: Seq<u8>,
        state: UploadState,
        reply: DeviceReply,
    ) -> StepView<UploadState, ()> {
        match state {
            UploadState::Start => if self.usage != GPUTransferUsage::Upload {
                StepView::refuse(GPUError::WrongDirection)
            } else if data.len() > buffer.size {
                StepView::refuse(GPUError::SizeMismatch)
            } else if data.len() > self.size {
                StepView::refuse(GPUError::CapacityExceeded)
            } else {
                StepView::Await { state: UploadState::Mapping, calls: seq![self.map_call(false)] }
            },
            UploadState::Mapping => if reply.spec_handle() == 0 {
                StepView::refuse(GPUError::MapFailed)
            } else {
                StepView::Await {
                    state: UploadState::OpeningPass,
                    calls: seq![
                        self.stage_call(data.len()),
                        self.unmap_call(),
                        DeviceCall::BeginCopyPass { command_buffer: command_buffer.command_buffer },
                    ],
                }
            },
            UploadState::OpeningPass => if reply.spec_handle() == 0 {
                StepView::refuse(no_copypass())
            } else {
                StepView::Finish {
                    calls: seq![
                        self.upload_buffer_call(reply.spec_handle(), buffer, data.len()),
                        DeviceCall::EndCopyPass { copypass: reply.spec_handle() },
                    ],
                    result: Ok(()),
                }
            },
        }
    }

    /// Uploads `data` to the start of `buffer`, recording the copy in
    /// `command_buffer`, which the caller submits.
    pub fn write_buffer_cmd(
        &self,
        buffer: &GPUBuffer,
        command_buffer: &CommandBuffer,
        data: &[u8],
        state: UploadState,
        reply: DeviceReply,
    ) -> (step: Step<UploadState, ()>)
        ensures
            step@ == self.write_buffer_cmd_step(*buffer, *command_buffer, data@, state, reply),
            state is Start && self.usage != GPUTransferUsage::Upload ==> step@ == StepView::<
                UploadState,
                (),
            >::refuse(GPUError::WrongDirection),
            state is Start && self.usage == GPUTransferUsage::Upload && data@.len() > buffer.size
                ==> step@ == StepView::<UploadState, ()>::refuse(GPUError::SizeMismatch),
    {
        match state {
            UploadState::Start => {
                if !self.is_upload() {
                    return Step::refuse(GPUError::WrongDirection);
                }
                if data.len() > buffer.size as usize {
                    return Step::refuse(GPUError::SizeMismatch);
                }
                if data.len() > self.size as usize {
                    return Step::refuse(GPUError::CapacityExceeded);
                }
                Step::Await { state: UploadState::Mapping, calls: batch1(self.map(false)) }
            },
            UploadState::Mapping => {
                if reply.handle() == 0 {
                    return Step::refuse(GPUError::MapFailed);
                }
                Step::Await {
                    state: UploadState::OpeningPass,
                    calls: batch3(
                        self.stage(data.len()),
                        self.unmap(),
                        DeviceCall::BeginCopyPass { command_buffer: command_buffer.command_buffer },
                    ),
                }
            },
            UploadState::OpeningPass => {
                let mut pass = match GPUDevice::opened_copypass(&reply) {
                    Ok(pass) => pass,
                    Err(e) => {
                        return Step::refuse(e);
                    },
                };
                let upload = DeviceCall::UploadToBuffer {
                    copypass: pass.copypass,
                    source: TransferLocation { transfer_buffer: self.buffer, offset: 0 },
                    destination: BufferRegion {
                        buffer: buffer.buffer,
                        offset: 0,
                        size: #[verifier::truncate]
                        (data.len() as u32),
                    },
                    cycle: true,
                };
                match pass.end() {
                    Ok(end) => Step::Finish { calls: batch2(upload, end), result: Ok(()) },
                    Err(e) => Step::refuse(e),
                }
            },
        }
    }

    /// Whether `data` are the bytes of `element_count` elements of
    /// `element_size` bytes each, and fit `buffer`.
    pub open spec fn elements_fit(
        buffer: GPUBuffer,
        element_size: usize,
        element_count: usize,
        data: Seq<u8>,
    ) -> bool {
        &&& element_size * element_count <= buffer.size
        &&& data.len() == element_size * element_count
    }

    /// Decides `elements_fit`.
    fn check_elements(
        buffer: &GPUBuffer,
        element_size: usize,
        element_count: usize,
        data: &[u8],
    ) -> (fit: bool)
        ensures
            fit == Self::elements_fit(*buffer, element_size, element_count, data@),
    {
        let size: u128 = element_size as u128;
        let count: u128 = element_count as u128;
        assert(size * count <= 0xffff_ffff_ffff_ffff * 0xffff_ffff_ffff_ffff) by (nonlinear_arith)
            requires
                0 <= size <= 0xffff_ffff_ffff_ffff,
                0 <= count <= 0xffff_ffff_ffff_ffff,
        ;
        let total: u128 = size * count;
        total <= buffer.size as u128 && data.len() as u128 == total
    }

    /// One transition of an upload of typed elements through the caller's
    /// command buffer: the upload of their bytes, after a start that also
    /// checks that `data` are the elements' bytes and that they fit.
    pub open spec fn write_buffer_t_cmd_step(
        self,
        buffer: GPUBuffer,
        command_buffer: CommandBuffer,
        element_size: usize,
        element_count: usize,
        data: Seq<u8>,
        state: UploadState,
        reply: DeviceReply,
    ) -> StepView<UploadState, ()> {
        if state is Start && self.usage != GPUTransferUsage::Upload {
            StepView::refuse(GPUError::WrongDirection)
        } else if state is Start && !Self::elements_fit(buffer, element_size, element_count, data) {
            StepView::refuse(GPUError::SizeMismatch)
        } else {
            self.write_buffer_cmd_step(buffer, command_buffer, data, state, reply)
        }
    }

    /// Uploads `element_count` elements of `element_size` bytes each, whose
    /// bytes are `data`, to the start of `buffer`, recording the copy in
    /// `command_buffer`, which the caller submits.
    pub fn write_buffer_t_cmd(
        &self,
        buffer: &GPUBuffer,
        command_buffer: &CommandBuffer,
        element_size: usize,
        element_count: usize,
        data: &[u8],
        state: UploadState,
        reply: DeviceReply,
    ) -> (step: Step<UploadState, ()>)
        ensures
            step@ == self.write_buffer_t_cmd_step(
                *buffer,
                *command_buffer,
                element_size,
                element_count,
                data@,
                state,
                reply,
            ),
            state is Start && self.usage != GPUTransferUsage::Upload ==> step@ == StepView::<
                UploadState,
                (),
            >::refuse(GPUError::WrongDirection),
            state is Start && self.usage == GPUTransferUsage::Upload && element_size
                * element_count > buffer.size ==> step@ == StepView::<UploadState, ()>::refuse(
                GPUError::SizeMismatch,
            ),
    {
        if let UploadState::Start = state {
            if !self.is_upload() {
                return Step::refuse(GPUError::WrongDirection);
            }
            if !Self::check_elements(buffer, element_size, element_count, data) {
                return Step::refuse(GPUError::SizeMismatch);
            }
        }
        self.write_buffer_cmd(buffer, command_buffer, data, state, reply)
    }

    /// How an upload that runs on a command buffer of the library's own
    /// goes on: it waits where the upload waits; it submits the buffer
    /// where the upload went through, and finishes it where the upload
    /// failed.
    pub open spec fn on_own_buffer(
        command_buffer: CommandBuffer,
        inner: StepView<UploadState, ()>,
    ) -> StepView<BufferWriteState, ()> {
        match inner {
            StepView::Await { state, calls } => StepView::Await {
                state: BufferWriteState::Uploading { command_buffer, upload: state },
                calls,
            },
            StepView::Finish { calls, result: Ok(_) } => match command_buffer.terminal(
                command_buffer.submit_call(),
            ).1 {
                Ok(call) => StepView::Finish { calls: calls.push(call), result: Ok(()) },
                Err(e) => StepView::Finish { calls, result: Err(e) },
            },
            StepView::Finish { calls, result: Err(e) } => StepView::Finish {
                calls: calls + optional_call(command_buffer.finalize_call()),
                result: Err(e),
            },
        }
    }

    /// Finishes the library's own command buffer where the upload on it
    /// ends.
    fn finish_own_buffer(command_buffer: CommandBuffer, inner: Step<UploadState, ()>) -> (step:
        Step<BufferWriteState, ()>)
        ensures
            step@ == Self::on_own_buffer(command_buffer, inner@),
    {
        let mut command_buffer = command_buffer;
        match inner {
            Step::Await { state, calls } => Step::Await {
                state: BufferWriteState::Uploading { command_buffer, upload: state },
                calls,
            },
            Step::Finish { calls, result: Ok(_) } => {
                let mut calls = calls;
                match command_buffer.submit() {
                    Ok(call) => {
                        calls.push(call);
                        Step::Finish { calls, result: Ok(()) }
                    },
                    Err(e) => Step::Finish { calls, result: Err(e) },
                }
            },
            Step::Finish { calls, result: Err(e) } => {
                let mut calls = calls;
                let ghost before = calls@;
                match command_buffer.finalize() {
                    Some(call) => {
                        calls.push(call);
                        assert(calls@ =~= before + seq![call]);
                    },
                    None => {
                        assert(calls@ =~= before + Seq::<DeviceCall>::empty());
                    },
                }
                Step::Finish { calls, result: Err(e) }
            },
        }
    }

    /// One transition of an upload to `buffer` on a command buffer of the
    /// library's own.
    ///
    /// It starts by checking the direction, that the data fit the buffer
    /// and that the staging memory can take them, and then acquires a
    /// command buffer. On that buffer it runs
    /// the upload of `write_buffer_cmd`; it submits the buffer when the
    /// upload has gone through, and cancels it when the upload has failed.
    pub open spec fn write_buffer_step(
        self,
        device: GPUDevice,
        buffer: GPUBuffer,
        data: Seq<u8>,
        state: BufferWriteState,
        reply: DeviceReply,
    ) -> StepView<BufferWriteState, ()> {
        match state {
            BufferWriteState::Start => if self.usage != GPUTransferUsage::Upload {
                StepView::refuse(GPUError::WrongDirection)
            } else if data.len() > buffer.size {
                StepView::refuse(GPUError::SizeMismatch)
            } else if data.len() > self.size {
                StepView::refuse(GPUError::CapacityExceeded)
            } else {
                StepView::Await {
                    state: BufferWriteState::Acquiring,
                    calls: seq![device.acquire_call()],
                }
            },
            BufferWriteState::Acquiring => if reply.spec_handle() == 0 {
                StepView::Await {
                    state: BufferWriteState::Diagnosing,
                    calls: seq![DeviceCall::LastError],
                }
            } else {
                Self::on_own_buffer(
                    fresh_command_buffer(device, reply.spec_handle()),
                    self.write_buffer_cmd_step(
                        buffer,
                        fresh_command_buffer(device, reply.spec_handle()),
                        data,
                        UploadState::Start,
                        DeviceReply::Nothing,
                    ),
                )
            },
            BufferWriteState::Diagnosing => StepView::refuse(no_command_buffer(reply)),
            BufferWriteState::Uploading { command_buffer, upload } => Self::on_own_buffer(
                command_buffer,
                self.write_buffer_cmd_step(buffer, command_buffer, data, upload, reply),
            ),
        }
    }

    /// Uploads `data` to the start of `buffer` and submits the copy.
    pub fn write_buffer(
        &self,
        device: &GPUDevice,
        buffer: &GPUBuffer,
        data: &[u8],
        state: BufferWriteState,
        reply: DeviceReply,
    ) -> (step: Step<BufferWriteState, ()>)
        ensures
            step@ == self.write_buffer_step(*device, *buffer, data@, state, reply),
            state is Start && self.usage != GPUTransferUsage::Upload ==> step@ == StepView::<
                BufferWriteState,
                (),
            >::refuse(GPUError::WrongDirection),
            state is Start && self.usage == GPUTransferUsage::Upload && data@.len() > buffer.size
                ==> step@ == StepView::<BufferWriteState, ()>::refuse(GPUError::SizeMismatch),
    {
        match state {
            BufferWriteState::Start => {
                if !self.is_upload() {
                    return Step::refuse(GPUError::WrongDirection);
                }
                if data.len() > buffer.size as usize {
                    return Step::refuse(GPUError::SizeMismatch);
                }
                if data.len() > self.size as usize {
                    return Step::refuse(GPUError::CapacityExceeded);
                }
                Step::Await { state: BufferWriteState::Acquiring, calls: batch1(device.acquire()) }
            },
            BufferWriteState::Acquiring => match device.acquired(&reply) {
                Some(command_buffer) => {
                    let inner = self.write_buffer_cmd(
                        buffer,
                        &command_buffer,
                        data,
                        UploadState::Start,
                        DeviceReply::Nothing,
                    );
                    Self::finish_own_buffer(command_buffer, inner)
                },
                None => Step::Await {
                    state: BufferWriteState::Diagnosing,
                    calls: batch1(DeviceCall::LastError),
                },
            },
            BufferWriteState::Diagnosing => Step::refuse(GPUDevice::refused_command_buffer(reply)),
            BufferWriteState::Uploading { command_buffer, upload } => {
                let inner = self.write_buffer_cmd(buffer, &command_buffer, data, upload, reply);
                Self::finish_own_buffer(command_buffer, inner)
            },
        }
    }

    /// One transition of an upload of typed elements on a command buffer
    /// of the library's own: the upload of their bytes, after a start that
    /// also checks that `data` are the elements' bytes and that they fit.
    pub open spec fn write_buffer_t_step(
        self,
        device: GPUDevice,
        buffer: GPUBuffer,
        element_size: usize,
        element_count: usize,
        data: Seq<u8>,
        state: BufferWriteState,
        reply: DeviceReply,
    ) -> StepView<BufferWriteState, ()> {
        if state is Start && self.usage != GPUTransferUsage::Upload {
            StepView::refuse(GPUError::WrongDirection)
        } else if state is Start && !Self::elements_fit(buffer, element_size, element_count, data) {
            StepView::refuse(GPUError::SizeMismatch)
        } else {
            self.write_buffer_step(device, buffer, data, state, reply)
        }
    }

    /// Uploads `element_count` elements of `element_size` bytes each, whose
    /// bytes are `data`, to the start of `buffer` and submits the copy.
    pub fn write_buffer_t(
        &self,
        device: &GPUDevice,
        buffer: &GPUBuffer,
        element_size: usize,
        element_count: usize,
        data: &[u8],
        state: BufferWriteState,
        reply: DeviceReply,
    ) -> (step: Step<BufferWriteState, ()>)
        ensures
            step@ == self.write_buffer_t_step(
                *device,
                *buffer,
                element_size,
                element_count,
                data@,
                state,
                reply,
            ),
            state is Start && self.usage != GPUTransferUsage::Upload ==> step@ == StepView::<
                BufferWriteState,
                (),
            >::refuse(GPUError::WrongDirection),
            state is Start && self.usage == GPUTransferUsage::Upload && element_size
                * element_count > buffer.size ==> step@ == StepView::<
                BufferWriteState,
                (),
            >::refuse(GPUError::SizeMismatch),
    {
        if let BufferWriteState::Start = state {
            if !self.is_upload() {
                return Step::refuse(GPUError::WrongDirection);
            }
            if !Self::check_elements(buffer, element_size, element_count, data) {
                return Step::refuse(GPUError::SizeMismatch);
            }
        }
        self.write_buffer(device, buffer, data, state, reply)
    }

    /// One transition of an upload to `texture`.
    ///
    /// It starts by checking the direction, that the data are exactly the
    /// texels of the texture and that the staging memory can take them,
    /// and then maps the staging memory. Once
    /// mapped, it stages the data, unmaps and acquires a command buffer;
    /// on it, it opens a copy pass, copies the staged texels to the whole
    /// texture, ends the pass and submits. A command buffer whose pass the
    /// device refuses is finished before the upload fails.
    pub open spec fn write_texture_step(
        self,
        device: GPUDevice,
        texture: GPUTexture,
        data: Seq<u8>,
        state: TextureWriteState,
        reply: DeviceReply,
    ) -> StepView<TextureWriteState, ()> {
        match state {
            TextureWriteState::Start => if self.usage != GPUTransferUsage::Upload {
                StepView::refuse(GPUError::WrongDirection)
            } else if data.len() != texture.spec_byte_len() {
                StepView::refuse(GPUError::SizeMismatch)
            } else if data.len() > self.size {
                StepView::refuse(GPUError::CapacityExceeded)
            } else {
                StepView::Await {
                    state: TextureWriteState::Mapping,
                    calls: seq![self.map_call(false)],
                }
            },
            TextureWriteState::Mapping => if reply.spec_handle() == 0 {
                StepView::refuse(GPUError::MapFailed)
            } else {
                StepView::Await {
                    state: TextureWriteState::Acquiring,
                    calls: seq![
                        self.stage_call(data.len()),
                        self.unmap_call(),
                        device.acquire_call(),
                    ],
                }
            },
            TextureWriteState::Acquiring => if reply.spec_handle() == 0 {
                StepView::Await {
                    state: TextureWriteState::Diagnosing,
                    calls: seq![DeviceCall::LastError],
                }
            } else {
                StepView::Await {
                    state: TextureWriteState::OpeningPass {
                        command_buffer: fresh_command_buffer(device, reply.spec_handle()),
                    },
                    calls: seq![DeviceCall::BeginCopyPass { command_buffer: reply.spec_handle() }],
                }
            },
            TextureWriteState::Diagnosing => StepView::refuse(no_command_buffer(reply)),
            TextureWriteState::OpeningPass { command_buffer } => if !command_buffer.usable {
                StepView::refuse(GPUError::AlreadyUsed)
            } else if reply.spec_handle() == 0 {
                StepView::Finish {
                    calls: optional_call(command_buffer.finalize_call()),
                    result: Err(no_copypass()),
                }
            } else {
                StepView::Finish {
                    calls: seq![
                        self.upload_texture_call(reply.spec_handle(), texture),
                        DeviceCall::EndCopyPass { copypass: reply.spec_handle() },
                        command_buffer.submit_call(),
                    ],
                    result: Ok(()),
                }
            },
        }
    }

    /// Rewrites the whole of `texture` with `data` and submits the copy.
    pub fn write_texture(
        &self,
        device: &GPUDevice,
        texture: &GPUTexture,
        data: &[u8],
        state: TextureWriteState,
        reply: DeviceReply,
    ) -> (step: Step<TextureWriteState, ()>)
        ensures
            step@ == self.write_texture_step(*device, *texture, data@, state, reply),
            state is Start && self.usage != GPUTransferUsage::Upload ==> step@ == StepView::<
                TextureWriteState,
                (),
            >::refuse(GPUError::WrongDirection),
            state is Start && self.usage == GPUTransferUsage::Upload && data@.len()
                != texture.spec_byte_len() ==> step@ == StepView::<
                TextureWriteState,
                (),
            >::refuse(GPUError::SizeMismatch),
    {
        match state {
            TextureWriteState::Start => {
                if !self.is_upload() {
                    return Step::refuse(GPUError::WrongDirection);
                }
                let given: usize = data.len();
                match texture.byte_len() {
                    Some(len) => {
                        if given != len {
                            return Step::refuse(GPUError::SizeMismatch);
                        }
                    },
                    None => {
                        return Step::refuse(GPUError::SizeMismatch);
                    },
                }
                if given > self.size as usize {
                    return Step::refuse(GPUError::CapacityExceeded);
                }
                Step::Await { state: TextureWriteState::Mapping, calls: batch1(self.map(false)) }
            },
            TextureWriteState::Mapping => {
                if reply.handle() == 0 {
                    return Step::refuse(GPUError::MapFailed);
                }
                Step::Await {
                    state: TextureWriteState::Acquiring,
                    calls: batch3(self.stage(data.len()), self.unmap(), device.acquire()),
                }
            },
            TextureWriteState::Acquiring => match device.acquired(&reply) {
                Some(command_buffer) => {
                    let begin = DeviceCall::BeginCopyPass {
                        command_buffer: command_buffer.command_buffer,
                    };
                    Step::Await {
                        state: TextureWriteState::OpeningPass { command_buffer },
                        calls: batch1(begin),
                    }
                },
                None => Step::Await {
                    state: TextureWriteState::Diagnosing,
                    calls: batch1(DeviceCall::LastError),
                },
            },
            TextureWriteState::Diagnosing => Step::refuse(GPUDevice::refused_command_buffer(reply)),
            TextureWriteState::OpeningPass { command_buffer } => {
                let mut command_buffer = command_buffer;
                if !command_buffer.usable {
                    return Step::refuse(GPUError::AlreadyUsed);
                }
                let mut pass = match GPUDevice::opened_copypass(&reply) {
                    Ok(pass) => pass,
                    Err(e) => {
                        return Step::Finish {
                            calls: Self::calls_of(command_buffer.finalize()),
                            result: Err(e),
                        };
                    },
                };
                let upload = DeviceCall::UploadToTexture {
                    copypass: pass.copypass,
                    source: self.layout_of(texture),
                    destination: whole_of(texture),
                    cycle: true,
                };
                match (pass.end(), command_buffer.submit()) {
                    (Ok(end), Ok(submit)) => Step::Finish {
                        calls: batch3(upload, end, submit),
                        result: Ok(()),
                    },
                    (Err(e), _) => Step::refuse(e),
                    (_, Err(e)) => Step::refuse(e),
                }
            },
        }
    }

    /// One transition of a download of `len` bytes from `source`.
    ///
    /// It acquires a command buffer, opens a copy pass on it, copies the
    /// source to the staging memory, ends the pass and submits; then it
    /// maps the staging memory, takes `len` bytes out and unmaps. The
    /// bytes are the result if there are `len` of them.
    pub open spec fn download_step(
        self,
        device: GPUDevice,
        source: DownloadSource,
        len: usize,
        state: DownloadState,
        reply: DeviceReply,
    ) -> StepView<DownloadState, Vec<u8>> {
        match state {
            DownloadState::Start => StepView::Await {
                state: DownloadState::Acquiring,
                calls: seq![device.acquire_call()],
            },
            DownloadState::Acquiring => if reply.spec_handle() == 0 {
                StepView::Await {
                    state: DownloadState::Diagnosing,
                    calls: seq![DeviceCall::LastError],
                }
            } else {
                StepView::Await {
                    state: DownloadState::OpeningPass {
                        command_buffer: fresh_command_buffer(device, reply.spec_handle()),
                    },
                    calls: seq![DeviceCall::BeginCopyPass { command_buffer: reply.spec_handle() }],
                }
            },
            DownloadState::Diagnosing => StepView::refuse(no_command_buffer(reply)),
            DownloadState::OpeningPass { command_buffer } => if !command_buffer.usable {
                StepView::refuse(GPUError::AlreadyUsed)
            } else if reply.spec_handle() == 0 {
                StepView::Finish {
                    calls: optional_call(command_buffer.finalize_call()),
                    result: Err(no_copypass()),
                }
            } else {
                StepView::Await {
                    state: DownloadState::Mapping,
                    calls: seq![
                        self.download_call(reply.spec_handle(), source),
                        DeviceCall::EndCopyPass { copypass: reply.spec_handle() },
                        command_buffer.submit_call(),
                        self.map_call(true),
                    ],
                }
            },
            DownloadState::Mapping => if reply.spec_handle() == 0 {
                StepView::refuse(GPUError::MapFailed)
            } else {
                StepView::Await { state: DownloadState::Fetching, calls: seq![self.fetch_call(len)] }
            },
            DownloadState::Fetching => match reply {
                DeviceReply::Bytes(bytes) if bytes@.len() == len => StepView::Finish {
                    calls: seq![self.unmap_call()],
                    result: Ok(bytes),
                },
                _ => StepView::Finish {
                    calls: seq![self.unmap_call()],
                    result: Err(GPUError::MapFailed),
                },
            },
        }
    }

    /// Runs one transition of a download.
    fn download(
        &self,
        device: &GPUDevice,
        source: DownloadSource,
        len: usize,
        state: DownloadState,
        reply: DeviceReply,
    ) -> (step: Step<DownloadState, Vec<u8>>)
        ensures
            step@ == self.download_step(*device, source, len, state, reply),
    {
        match state {
            DownloadState::Start => Step::Await {
                state: DownloadState::Acquiring,
                calls: batch1(device.acquire()),
            },
            DownloadState::Acquiring => match device.acquired(&reply) {
                Some(command_buffer) => {
                    let begin = DeviceCall::BeginCopyPass {
                        command_buffer: command_buffer.command_buffer,
                    };
                    Step::Await {
                        state: DownloadState::OpeningPass { command_buffer },
                        calls: batch1(begin),
                    }
                },
                None => Step::Await {
                    state: DownloadState::Diagnosing,
                    calls: batch1(DeviceCall::LastError),
                },
            },
            DownloadState::Diagnosing => Step::refuse(GPUDevice::refused_command_buffer(reply)),
            DownloadState::OpeningPass { command_buffer } => {
                let mut command_buffer = command_buffer;
                if !command_buffer.usable {
                    return Step::refuse(GPUError::AlreadyUsed);
                }
                let mut pass = match GPUDevice::opened_copypass(&reply) {
                    Ok(pass) => pass,
                    Err(e) => {
                        return Step::Finish {
                            calls: Self::calls_of(command_buffer.finalize()),
                            result: Err(e),
                        };
                    },
                };
                let copy = self.download_from(pass.copypass, source);
                match (pass.end(), command_buffer.submit()) {
                    (Ok(end), Ok(submit)) => Step::Await {
                        state: DownloadState::Mapping,
                        calls: batch4(copy, end, submit, self.map(true)),
                    },
                    (Err(e), _) => Step::refuse(e),
                    (_, Err(e)) => Step::refuse(e),
                }
            },
            DownloadState::Mapping => {
                if reply.handle() == 0 {
                    return Step::refuse(GPUError::MapFailed);
                }
                Step::Await {
                    state: DownloadState::Fetching,
                    calls: batch1(DeviceCall::FetchBytes { transfer_buffer: self.buffer, len }),
                }
            },
            DownloadState::Fetching => {
                let unmap = batch1(self.unmap());
                match reply {
                    DeviceReply::Bytes(bytes) => {
                        if bytes.len() == len {
                            Step::Finish { calls: unmap, result: Ok(bytes) }
                        } else {
                            Step::Finish { calls: unmap, result: Err(GPUError::MapFailed) }
                        }
                    },
                    _ => Step::Finish { calls: unmap, result: Err(GPUError::MapFailed) },
                }
            },
        }
    }

    /// One transition of a download of the whole of `buffer`: the download
    /// of its bytes, after a start that checks the direction and that the
    /// staging memory can take them.
    pub open spec fn read_buffer_step(
        self,
        device: GPUDevice,
        buffer: GPUBuffer,
        state: DownloadState,
        reply: DeviceReply,
    ) -> StepView<DownloadState, Vec<u8>> {
        if state is Start && self.usage != GPUTransferUsage::Download {
            StepView::refuse(GPUError::WrongDirection)
        } else if state is Start && buffer.size > self.size {
            StepView::refuse(GPUError::CapacityExceeded)
        } else {
            self.download_step(
                device,
                DownloadSource::Buffer { bytes: whole_buffer(buffer) },
                buffer.size as usize,
                state,
                reply,
            )
        }
    }

    /// Downloads the whole of `buffer`.
    pub fn read_buffer(
        &self,
        device: &GPUDevice,
        buffer: &GPUBuffer,
        state: DownloadState,
        reply: DeviceReply,
    ) -> (step: Step<DownloadState, Vec<u8>>)
        ensures
            step@ == self.read_buffer_step(*device, *buffer, state, reply),
            state is Start && self.usage != GPUTransferUsage::Download ==> step@ == StepView::<
                DownloadState,
                Vec<u8>,
            >::refuse(GPUError::WrongDirection),
            step@ matches StepView::Finish { result: Ok(bytes), .. } ==> bytes@.len()
                == buffer.size,
    {
        if let DownloadState::Start = state {
            if self.is_upload() {
                return Step::refuse(GPUError::WrongDirection);
            }
            if buffer.size > self.size {
                return Step::refuse(GPUError::CapacityExceeded);
            }
        }
        let source = DownloadSource::Buffer {
            bytes: BufferRegion { buffer: buffer.buffer, offset: 0, size: buffer.size },
        };
        self.download(device, source, buffer.size as usize, state, reply)
    }

    /// One transition of a download of the whole of `texture`: the
    /// download of its texels, after a start that checks the direction and
    /// that the staging memory can take them. A texture whose texels
    /// cannot be counted is refused at any time.
    pub open spec fn read_texture_step(
        self,
        device: GPUDevice,
        texture: GPUTexture,
        state: DownloadState,
        reply: DeviceReply,
    ) -> StepView<DownloadState, Vec<u8>> {
        if state is Start && self.usage != GPUTransferUsage::Download {
            StepView::refuse(GPUError::WrongDirection)
        } else if !(0 <= texture.spec_byte_len() <= usize::MAX) {
            StepView::refuse(GPUError::SizeMismatch)
        } else if state is Start && texture.spec_byte_len() > self.size {
            StepView::refuse(GPUError::CapacityExceeded)
        } else {
            self.download_step(
                device,
                DownloadSource::Texture {
                    texels: whole_texture(texture),
                    pixels_per_row: texture.size.w as u32,
                    rows_per_layer: texture.size.h as u32,
                },
                texture.spec_byte_len() as usize,
                state,
                reply,
            )
        }
    }

    /// Downloads the whole of `texture`.
    pub fn read_texture(
        &self,
        device: &GPUDevice,
        texture: &GPUTexture,
        state: DownloadState,
        reply: DeviceReply,
    ) -> (step: Step<DownloadState, Vec<u8>>)
        ensures
            step@ == self.read_texture_step(*device, *texture, state, reply),
            state is Start && self.usage != GPUTransferUsage::Download ==> step@ == StepView::<
                DownloadState,
                Vec<u8>,
            >::refuse(GPUError::WrongDirection),
            step@ matches StepView::Finish { result: Ok(bytes), .. } ==> bytes@.len()
                == texture.spec_byte_len(),
    {
        if let DownloadState::Start = state {
            if self.is_upload() {
                return Step::refuse(GPUError::WrongDirection);
            }
        }
        let len: usize = match texture.byte_len() {
            Some(len) => len,
            None => {
                return Step::refuse(GPUError::SizeMismatch);
            },
        };
        if let DownloadState::Start = state {
            if len > self.size as usize {
                return Step::refuse(GPUError::CapacityExceeded);
            }
        }
        let region = whole_of(texture);
        let source = DownloadSource::Texture {
            texels: region,
            pixels_per_row: region.w,
            rows_per_layer: region.h,
        };
        self.download(device, source, len, state, reply)
    }

    fn map(&self, cycle: bool) -> (call: DeviceCall)
        ensures
            call == self.map_call(cycle),
    {
        DeviceCall::MapTransferBuffer { device: self.device, transfer_buffer: self.buffer, cycle }
    }

    fn unmap(&self) -> (call: DeviceCall)
        ensures
            call == self.unmap_call(),
    {
        DeviceCall::UnmapTransferBuffer { device: self.device, transfer_buffer: self.buffer }
    }

    fn stage(&self, len: usize) -> (call: DeviceCall)
        ensures
            call == self.stage_call(len as nat),
    {
        DeviceCall::StageBytes { transfer_buffer: self.buffer, len }
    }

    fn layout_of(&self, texture: &GPUTexture) -> (layout: TextureTransferInfo)
        ensures
            layout == self.texture_layout(*texture),
    {
        TextureTransferInfo {
            transfer_buffer: self.buffer,
            offset: 0,
            pixels_per_row: #[verifier::truncate]
            (texture.size.w as u32),
            rows_per_layer: #[verifier::truncate]
            (texture.size.h as u32),
        }
    }

    fn download_from(&self, copypass: u64, source: DownloadSource) -> (call: DeviceCall)
        ensures
            call == self.download_call(copypass, source),
    {
        match source {
            DownloadSource::Buffer { bytes } => DeviceCall::DownloadFromBuffer {
                copypass,
                source: bytes,
                destination: TransferLocation { transfer_buffer: self.buffer, offset: 0 },
            },
            DownloadSource::Texture {
                texels,
                pixels_per_row,
                rows_per_layer,
            } => DeviceCall::DownloadFromTexture {
                copypass,
                source: texels,
                destination: TextureTransferInfo {
                    transfer_buffer: self.buffer,
                    offset: 0,
                    pixels_per_row,
                    rows_per_layer,
                },
            },
        }
    }

    fn calls_of(call: Option<DeviceCall>) -> (calls: Vec<DeviceCall>)
        ensures
            calls@ == optional_call(call),
    {
        match call {
            Some(call) => batch1(call),
            None => Vec::new(),
        }
    }
}

fn whole_of(texture: &GPUTexture) -> (region: TextureRegion)
    ensures
        region == whole_texture(*texture),
{
    TextureRegion {
        texture: texture.texture,
        mip_level: 0,
        layer: 0,
        x: 0,
        y: 0,
        z: 0,
        w: #[verifier::truncate]
        (texture.size.w as u32),
        h: #[verifier::truncate]
        (texture.size.h as u32),
        d: 1,
    }
}

} // verus!
