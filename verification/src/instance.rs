//! Instance configuration: validation layers and the extension sets the
//! bootstrap requests, with and without the diagnostics channel.

use vstd::prelude::*;

verus! {

/// The validation layers requested at instance creation.
pub fn instance_layers() -> (v: Vec<&'static str>)
    ensures
        v@.len() == 1,
        v@[0]@ == "VK_LAYER_KHRONOS_validation"@,
{
    let mut v: Vec<&'static str> = Vec::new();
    v.push("VK_LAYER_KHRONOS_validation");
    v
}

/// The instance extensions the bootstrap requires: the surface extensions
/// always, plus the diagnostics-utilities extension when a diagnostics
/// channel is requested.
pub fn instance_extensions(enable_diagnostics: bool) -> (v: Vec<&'static str>)
    ensures
        v@.len() == if enable_diagnostics { 3int } else { 2int },
        v@[0]@ == "VK_KHR_surface"@,
        v@[1]@ == "VK_KHR_win32_surface"@,
        enable_diagnostics ==> v@[2]@ == "VK_EXT_debug_utils"@,
{
    let mut v: Vec<&'static str> = Vec::new();
    v.push("VK_KHR_surface");
    v.push("VK_KHR_win32_surface");
    if enable_diagnostics {
        v.push("VK_EXT_debug_utils");
    }
    v
}

/// The device extensions the bootstrap requires: presentation via a
/// swapchain.
pub fn device_extensions() -> (v: Vec<&'static str>)
    ensures
        v@.len() == 1,
        v@[0]@ == "VK_KHR_swapchain"@,
{
    let mut v: Vec<&'static str> = Vec::new();
    v.push("VK_KHR_swapchain");
    v
}

} // verus!
