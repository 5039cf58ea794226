//! Physical-device and queue-family selection, and logical-device
//! configuration.

use vstd::prelude::*;
use crate::BootstrapError;

verus! {

/// Queue-capability flag bit: graphics work.
pub const QUEUE_GRAPHICS: u32 = 0x1;

/// Queue-capability flag bit: compute work.
pub const QUEUE_COMPUTE: u32 = 0x2;

/// Queue-capability flag bit: transfer work.
pub const QUEUE_TRANSFER: u32 = 0x4;

/// Whether a queue family's flag word includes graphics capability.
pub open spec fn has_graphics(flags: u32) -> bool {
    flags & QUEUE_GRAPHICS != 0
}

/// Picks the physical device. Policy: the first enumerated device,
/// unconditionally — a deliberate single-candidate simplification, not a
/// multi-GPU-aware chooser. Fails only when nothing was enumerated.
pub fn select_physical_device(device_count: usize) -> (r: Result<usize, BootstrapError>)
    ensures
        device_count > 0 ==> r == Ok::<usize, BootstrapError>(0usize),
        device_count == 0 ==> r == Err::<usize, BootstrapError>(BootstrapError::NoPhysicalDevice),
{
    if device_count > 0 {
        Ok(0)
    } else {
        Err(BootstrapError::NoPhysicalDevice)
    }
}

/// Scans the queue-family flag words in enumeration order and returns the
/// index of the first family that supports graphics; first match wins, with
/// no tie-break beyond enumeration order. Errs exactly when no family
/// qualifies.
pub fn select_queue_family(families: &Vec<u32>) -> (r: Result<usize, BootstrapError>)
    ensures
        match r {
            Ok(i) => 0 <= i < families@.len() && has_graphics(families@[i as int])
                && (forall|j: int| 0 <= j < i ==> !has_graphics(families@[j])),
            Err(e) => e == BootstrapError::NoGraphicsQueueFamily
                && (forall|j: int| 0 <= j < families@.len() ==> !has_graphics(families@[j])),
        },
{
    let n = families.len();
    let mut i: usize = 0;
    while i < n
        invariant
            n == families@.len(),
            0 <= i <= n,
            forall|j: int| 0 <= j < i ==> !has_graphics(families@[j]),
        decreases n - i,
    {
        if families[i] & QUEUE_GRAPHICS != 0 {
            return Ok(i);
        }
        i += 1;
    }
    Err(BootstrapError::NoGraphicsQueueFamily)
}

/// What the logical-device creation call is given: exactly one queue from
/// the selected family, the swapchain extension, and a minimal feature set.
/// (The single queue's priority is fixed at the maximum the API allows.)
#[derive(Clone, Copy, Debug, PartialEq, Eq, Structural)]
pub struct DeviceConfig {
    pub queue_family_index: u32,
    pub queue_count: u32,
    pub shader_clip_distance: bool,
}

/// Builds the logical-device configuration for the selected queue family.
pub fn device_config(queue_family_index: u32) -> (c: DeviceConfig)
    ensures
        c == (DeviceConfig { queue_family_index, queue_count: 1, shader_clip_distance: true }),
{
    DeviceConfig { queue_family_index, queue_count: 1, shader_clip_distance: true }
}

} // verus!
