//! Where things lie in memory.
use vstd::prelude::*;

verus! {

/// The addresses that the monitor and its processes agree on.
#[derive(Clone, Copy, Debug, PartialEq, Eq, Structural)]
pub struct MemoryLayout {
    /// Where the monitor sees the range that it works on.
    pub allocation_range: u64,
    /// Where a process has its manifest.
    pub manifest: u64,
    /// Where a process has the library operating system.
    pub libos: u64,
    /// Where a process has its stack.
    pub stack: u64,
    /// Where a process has the stack of its exception handlers.
    pub kern_stack: u64,
    /// Where a process has its input.
    pub input: u64,
    /// Where a process has its output.
    pub output: u64,
    /// The limit of a task-state segment.
    pub tss_limit: u64,
}

} // verus!
