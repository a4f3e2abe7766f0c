//! Resource lifecycle and command submission for a retained-mode GPU backend.
//!
//! The library decides; it never touches the device. Every operation that
//! needs the device is a transition function from the state of the
//! operation and the device's last reply to the calls to make next (see
//! `backend`). The handles (`command_buffer`, `copypass`, `renderpass`,
//! `buffer`, `texture`, `shader`, `pipeline`, `fence`, `device`) keep what
//! the protocol needs: which objects are live, which direction a transfer
//! buffer has, how many bytes fit. `model` and `accounting` state on a
//! model of device memory what the operations achieve.

pub mod accounting;
pub mod backend;
pub mod buffer;
pub mod command_buffer;
pub mod copypass;
pub mod device;
pub mod error;
pub mod fence;
pub mod math;
pub mod model;
pub mod pipeline;
pub mod renderpass;
pub mod shader;
pub mod texture;
pub mod texture_utils;
