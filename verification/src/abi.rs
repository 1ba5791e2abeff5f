//! Kernel ABI definitions, shared between the kernel and its applications.
//!
//! These records describe the application image the kernel loads: the
//! header, the task and memory-region tables, the interrupt routing, and
//! the lease records tasks exchange during message passing.  Flag words are
//! carried as plain integers here; their bit assignments belong to the
//! kernel's documentation.

use vstd::prelude::*;

verus! {

/// Magic number at the start of an application header, reassuring the
/// kernel that it is not reading uninitialized flash.
pub const CURRENT_APP_MAGIC: u32 = 0x1DE_fa7a1;

/// Number of region slots in a `TaskDesc` record.  Must not exceed the
/// number of regions in the MPU; may be less to improve context switch
/// performance.
pub const REGIONS_PER_TASK: usize = 8;

/// Response code returned by the kernel if the peer died or was restarted.
pub const DEAD: u32 = 0xFFFF_FFFF;

/// Response code returned by the kernel if a lender has defected.
pub const DEFECT: u32 = 1;

/// Priority of a task.
///
/// Priorities are small numbers starting from zero, and numerically lower
/// priorities are more important: priority 0 is the most likely to be
/// scheduled.  The type deliberately offers no ordering operators, to avoid
/// confusing "numerically greater" with "more important"; compare through
/// `is_more_important_than`.
#[derive(Copy, Clone, Debug, PartialEq, Eq, Default, Structural)]
pub struct Priority(pub u8);

impl Priority {
    /// Checks if `self` is strictly more important than `other`, which is
    /// easier to read than comparing the numeric values, since lower
    /// numbers are more important.
    pub fn is_more_important_than(self, other: Self) -> (more_important: bool)
        ensures
            more_important == (self.0 < other.0),
    {
        self.0 < other.0
    }
}

/// Application header, read by the kernel to load the application.  One
/// copy of this appears in flash next to the kernel, with the other record
/// tables following immediately.
#[derive(Copy, Clone, Debug, PartialEq, Eq)]
pub struct App {
    /// Should hold `CURRENT_APP_MAGIC`.
    pub magic: u32,
    /// Number of `TaskDesc` records immediately following the header.
    pub task_count: u32,
    /// Number of `RegionDesc` records following the `TaskDesc` table.
    pub region_count: u32,
    /// Number of `Interrupt` records following the `RegionDesc` table.
    pub irq_count: u32,
    /// Reserved expansion space; pads the header out to 32 bytes.
    pub zeroed_expansion_space: [u8; 16],
}

/// Record describing a single task.
#[derive(Copy, Clone, Debug, PartialEq, Eq)]
pub struct TaskDesc {
    /// Indices into the `RegionDesc` table selecting the memory this
    /// task may touch.  A task needing fewer than `REGIONS_PER_TASK`
    /// regions fills the remaining slots with a region conferring no
    /// access, by convention entry 0.
    pub regions: [u8; REGIONS_PER_TASK],
    /// Address of the task's entry point: the first instruction executed
    /// whenever the task is (re)started.  Must lie within one of the
    /// task's memory regions.
    pub entry_point: u32,
    /// Address of the task's initial stack pointer, loaded at (re)start.
    /// Must point into, or just past, one of the task's memory regions.
    pub initial_stack: u32,
    /// Priority the task starts with.
    pub priority: u32,
    /// Flag bits controlling task behavior; bit 0 requests a start at
    /// boot, the remaining bits are reserved.
    pub flags: u32,
}

/// Description of one memory region.
///
/// A region can be used by multiple tasks: most commonly a shared no-access
/// region fills unused slots, but regions may also deliberately overlap —
/// for instance two regions over the same addresses, one read-only and one
/// read-write.
#[derive(Copy, Clone, Debug, PartialEq, Eq, Structural)]
pub struct RegionDesc {
    /// Address of the start of the region; must meet the platform's
    /// alignment requirements.
    pub base: u32,
    /// Size of the region in bytes; must meet the platform's alignment
    /// and minimum-size requirements.
    pub size: u32,
    /// Attribute bits describing what can be done with the region: read,
    /// write, execute, and device-memory treatment in the low bits, the
    /// rest reserved.
    pub attributes: u32,
    /// Reserved word; must be zero.
    pub reserved_zero: u32,
}

/// Description of one interrupt response.
#[derive(Copy, Clone, Debug, PartialEq, Eq, Structural)]
pub struct Interrupt {
    /// Which interrupt number is being hooked.
    pub irq: u32,
    /// Which task to notify, by index.
    pub task: u32,
    /// Which notification bits to set.
    pub notification: u32,
}

/// Structure describing a lease in task memory.  At send, the task gives
/// the kernel the base and length of a section of memory that it claims
/// contains structures of this shape.
#[derive(Copy, Clone, Debug, PartialEq, Eq, Structural)]
pub struct ULease {
    /// Lease attribute bits: bit 0 allows the borrower to read the memory,
    /// bit 1 to write it.
    pub attributes: u32,
    /// Base address of the leased memory.
    pub base_address: usize,
    /// Length of the leased memory, in bytes.
    pub length: usize,
}

} // verus!
