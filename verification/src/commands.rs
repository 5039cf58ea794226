//! Command-resource planning: the command pool and its initial buffer
//! allocation.

use vstd::prelude::*;

verus! {

/// Allocation level of a command buffer.
#[derive(Clone, Copy, Debug, PartialEq, Eq, Structural)]
pub enum CommandBufferLevel {
    Primary,
    Secondary,
}

/// Everything handed to command-pool creation.
#[derive(Clone, Copy, Debug, PartialEq, Eq, Structural)]
pub struct CommandPoolDesc {
    /// Whether buffers from this pool may be reset individually.
    pub allow_individual_reset: bool,
    pub queue_family_index: u32,
}

/// Everything handed to a command-buffer allocation from the pool.
#[derive(Clone, Copy, Debug, PartialEq, Eq, Structural)]
pub struct CommandBufferAllocDesc {
    pub count: u32,
    pub level: CommandBufferLevel,
}

/// Plans the command resources: a pool on the selected queue family flagged
/// for individual buffer reset, and a single primary command buffer from it
/// (a minimal allocation — no submission loop exists in this bootstrap).
pub fn allocate_commands(queue_family_index: u32) -> (r: (CommandPoolDesc, CommandBufferAllocDesc))
    ensures
        r.0 == (CommandPoolDesc { allow_individual_reset: true, queue_family_index }),
        r.1 == (CommandBufferAllocDesc { count: 1, level: CommandBufferLevel::Primary }),
{
    (
        CommandPoolDesc { allow_individual_reset: true, queue_family_index },
        CommandBufferAllocDesc { count: 1, level: CommandBufferLevel::Primary },
    )
}

} // verus!
