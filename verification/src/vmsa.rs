//! The saved register file of a virtual processor.
use vstd::prelude::*;

verus! {

/// A segment register.
#[derive(Clone, Copy, Debug, PartialEq, Eq, Structural)]
pub struct VMSASegment {
    /// The selector.
    pub selector: u16,
    /// The attributes.
    pub flags: u16,
    /// The limit.
    pub limit: u32,
    /// The base address.
    pub base: u64,
}

/// The registers that the monitor reads or sets.
#[derive(Clone, Copy, Debug, PartialEq, Eq, Structural)]
pub struct VMSA {
    pub es: VMSASegment,
    pub cs: VMSASegment,
    pub ss: VMSASegment,
    pub ds: VMSASegment,
    pub fs: VMSASegment,
    pub gs: VMSASegment,
    pub gdt: VMSASegment,
    pub idt: VMSASegment,
    pub tr: VMSASegment,
    pub vmpl: u8,
    pub cpl: u8,
    pub efer: u64,
    pub cr4: u64,
    pub cr3: u64,
    pub cr2: u64,
    pub rflags: u64,
    pub rip: u64,
    pub rsp: u64,
    pub rbp: u64,
    pub rax: u64,
    pub rbx: u64,
    pub rcx: u64,
    pub rdx: u64,
    pub rsi: u64,
    pub rdi: u64,
    pub r8: u64,
    pub r9: u64,
    pub r10: u64,
    pub r11: u64,
    pub r12: u64,
    pub r13: u64,
    pub r14: u64,
    pub r15: u64,
    pub sev_features: u64,
    pub xcr0: u64,
    pub pkru: u32,
}

} // verus!
