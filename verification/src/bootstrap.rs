//! The aggregate bootstrap decision: from one probe of the hardware to
//! every creation parameter, or the first capability mismatch, in the fixed
//! dependency order device → queue family → swapchain → commands.

use vstd::prelude::*;
use crate::BootstrapError;
use crate::caps::SurfaceCapabilities;
use crate::commands::{CommandPoolDesc, CommandBufferAllocDesc, CommandBufferLevel,
    allocate_commands};
use crate::device::{DeviceConfig, has_graphics, select_physical_device, select_queue_family,
    device_config};
use crate::format::SurfaceFormat;
use crate::swapchain::{SwapchainPlan, swapchain_plan_spec, plan_swapchain};

verus! {

/// What one probe of the hardware reports: the enumerated device count and,
/// for the selected device and surface, the queue-family flag words, the
/// surface capabilities and the supported formats.
#[derive(Clone, Debug)]
pub struct HardwareProfile {
    pub device_count: usize,
    pub queue_family_flags: Vec<u32>,
    pub capabilities: SurfaceCapabilities,
    pub formats: Vec<SurfaceFormat>,
}

/// Every decision of a successful bootstrap: which device and queue family,
/// and the full logical-device, swapchain and command-resource plans.
#[derive(Clone, Debug, PartialEq, Eq)]
pub struct BootstrapPlan {
    pub device_index: usize,
    pub queue_family_index: usize,
    pub device: DeviceConfig,
    pub swapchain: SwapchainPlan,
    pub command_pool: CommandPoolDesc,
    pub command_alloc: CommandBufferAllocDesc,
}

/// Computes the whole bootstrap plan from one hardware probe, or the first
/// mismatch in dependency order: no device at all, then no graphics-capable
/// queue family, then the required surface format missing. A plan comes
/// back if and only if the hardware clears all three checks.
pub fn plan_bootstrap(profile: &HardwareProfile, required: &SurfaceFormat, width: u32, height: u32)
    -> (r: Result<BootstrapPlan, BootstrapError>)
    requires
        profile.capabilities.wf(),
        profile.capabilities.min_image_count < 0xffff_ffffu32,
        profile.queue_family_flags@.len() <= 0xffff_ffffu32,
    ensures
        match r {
            Ok(plan) => profile.device_count > 0 && plan.device_index == 0
                && 0 <= plan.queue_family_index < profile.queue_family_flags@.len()
                && has_graphics(profile.queue_family_flags@[plan.queue_family_index as int])
                && (forall|j: int| 0 <= j < plan.queue_family_index ==> !has_graphics(
                    profile.queue_family_flags@[j],
                ))
                && plan.device == (DeviceConfig {
                    queue_family_index: plan.queue_family_index as u32,
                    queue_count: 1,
                    shader_clip_distance: true,
                })
                && profile.formats@.contains(*required)
                && plan.swapchain == swapchain_plan_spec(profile.capabilities, *required, width, height)
                && plan.command_pool == (CommandPoolDesc {
                    allow_individual_reset: true,
                    queue_family_index: plan.queue_family_index as u32,
                })
                && plan.command_alloc == (CommandBufferAllocDesc {
                    count: 1,
                    level: CommandBufferLevel::Primary,
                }),
            Err(BootstrapError::NoPhysicalDevice) => profile.device_count == 0,
            Err(BootstrapError::NoGraphicsQueueFamily) => profile.device_count > 0 && (forall|
                j: int,
            | 0 <= j < profile.queue_family_flags@.len() ==> !has_graphics(
                profile.queue_family_flags@[j],
            )),
            Err(BootstrapError::FormatNotSupported) => profile.device_count > 0 && (exists|i: int|
                0 <= i < profile.queue_family_flags@.len() && has_graphics(
                    profile.queue_family_flags@[i],
                )) && !profile.formats@.contains(*required),
            Err(BootstrapError::ShaderCodeMisaligned) => false,
        },
{
    let device_index = match select_physical_device(profile.device_count) {
        Ok(i) => i,
        Err(e) => {
            return Err(e);
        },
    };
    let queue_family_index = match select_queue_family(&profile.queue_family_flags) {
        Ok(i) => i,
        Err(e) => {
            return Err(e);
        },
    };
    let swapchain = match plan_swapchain(
        &profile.capabilities,
        &profile.formats,
        required,
        width,
        height,
    ) {
        Ok(p) => p,
        Err(e) => {
            return Err(e);
        },
    };
    let device = device_config(queue_family_index as u32);
    let (command_pool, command_alloc) = allocate_commands(queue_family_index as u32);
    Ok(BootstrapPlan {
        device_index,
        queue_family_index,
        device,
        swapchain,
        command_pool,
        command_alloc,
    })
}

} // verus!
