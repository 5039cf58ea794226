//! Bootstrap and lifecycle manager for an explicitly managed GPU rendering
//! context.
//!
//! The library holds the decision logic of context bootstrap: capability and
//! format negotiation, queue-family selection, swapchain/render-target/command
//! planning, diagnostics formatting, and the creation/teardown ordering
//! discipline. Every GPU object is modelled as a plain value (a handle number
//! plus the fields the logic reads); the host application performs the actual
//! driver calls with the plans this library computes and records the created
//! objects in a [`lifecycle::Lifecycle`], which guarantees that teardown runs
//! in the exact reverse of creation order.

use vstd::prelude::*;

pub mod bootstrap;
pub mod caps;
pub mod commands;
pub mod device;
pub mod diagnostics;
pub mod format;
pub mod instance;
pub mod lifecycle;
pub mod name;
pub mod render;
pub mod shader;
pub mod swapchain;

verus! {

/// A configuration or capability mismatch found while planning the bootstrap.
/// Every variant is fatal: bootstrap has no retry or fallback path.
#[derive(Clone, Copy, Debug, PartialEq, Eq, Structural)]
pub enum BootstrapError {
    /// No physical device was enumerated.
    NoPhysicalDevice,
    /// No queue family of the selected device supports graphics work.
    NoGraphicsQueueFamily,
    /// The surface does not support the required (format, color space) pair.
    FormatNotSupported,
    /// Shader bytecode length is not a whole number of 32-bit words.
    ShaderCodeMisaligned,
}

} // verus!
