//! What the monitor has done to the hardware and to the page tables.
use vstd::prelude::*;

use crate::page::ProcessPageFlags;

verus! {

/// Something that the monitor reports about a trustlet.
#[derive(Clone, Copy, Debug, PartialEq, Eq)]
pub enum Note {
    /// The trustlet failed.  Its message is a string that ends in a 0, `offset` bytes into the
    /// page at `page`.
    PalError { cr3: u64, page: u64, offset: u64, errno: u64 },
    /// The trustlet is done.
    Exited { code: u64 },
    /// The trustlet wrote a message, or the beginning of a longer one.
    DebugMessage { text: [u8; 256], partial: bool },
    /// The trustlet wrote a digit: the low 32 bits of `value`.
    Digit { value: u64 },
    /// The trustlet wants memory printed, which may not lie within one page.
    Memory { cr3: u64, page: u64, offset: u64, len: u64, within_page: bool },
    /// The trustlet made a request that does not exist.
    UnknownRequest { code: u64, rip: u64 },
    /// The trustlet used memory of a key whose domain was not open.
    PkeyViolation { cr2: u64, rip: u64, error_code: u64, pkru: u32 },
    /// A general-protection fault.
    GeneralProtection { cr2: u64, error_code: u64 },
    /// A page fault that nobody could handle.
    PageFault { cr2: u64, rip: u64, error_code: u64 },
    /// A double fault.
    DoubleFault { error_code: u64 },
    /// The `words` words on the stack, from word `first_word` of the page that `vaddr` lies in.
    Stack { cr3: u64, vaddr: u64, first_word: u64, words: u64 },
    /// The descriptor table whose limit and base lie at `vaddr`.
    DescriptorTable { cr3: u64, vaddr: u64 },
}

/// One thing to be done outside of the monitor's own state.
#[derive(Clone, Copy, Debug, PartialEq, Eq)]
pub enum Effect {
    /// Map `pages` fresh pages at `vaddr` in the page table `cr3`.
    AddPages { cr3: u64, vaddr: u64, pages: u64, flags: ProcessPageFlags },
    /// Unmap `pages` pages at `vaddr` in the page table `cr3` and free them.
    RemovePages { cr3: u64, vaddr: u64, pages: u64 },
    /// Clear the protection key in the entry of the page at `vaddr`.
    ClearPkey { cr3: u64, vaddr: u64 },
    /// Map the page at `vaddr` to the physical page `paddr`.
    MapPage { cr3: u64, vaddr: u64, paddr: u64, flags: ProcessPageFlags },
    /// Map the page at `dst` to a fresh physical page with the contents of the page at `src`.
    CopyPage { cr3: u64, src: u64, dst: u64, flags: ProcessPageFlags },
    /// Map the page at `dst` to the physical page that the page at `src` is mapped to.
    AliasPage { cr3: u64, src: u64, dst: u64, flags: ProcessPageFlags },
    /// Change what the page at `vaddr` may be used for.
    ChangeAttr {
        cr3: u64,
        vaddr: u64,
        readable: bool,
        writable: bool,
        executable: bool,
        writecopy: bool,
    },
    /// Make every page of the page table read-only.
    FinalizePages { cr3: u64 },
    /// Map `pages` fresh pages of a stack at `vaddr`.
    AddStack { cr3: u64, vaddr: u64, pages: u64 },
    /// Let the privilege level below use the page at `vaddr` in every way.
    ShareWithTrustlet { vaddr: u64 },
    /// Make the physical page `paddr` the register file of a virtual processor of the privilege
    /// level below.
    MakeVmsaPage { paddr: u64 },
    /// Give the page at `vaddr` a copy of its own, if it is shared.
    UnsharePage { cr3: u64, vaddr: u64, user_access: bool },
    /// Map the function at `code`, `size` bytes of it.
    AddFunction { cr3: u64, code: u64, size: u64 },
    /// Count the pages of the page table.
    CountPages { cr3: u64 },
    /// Make the input channel `size` bytes large.
    InflateInput { cr3: u64, size: u64 },
    /// Make the output channel `size` bytes large.
    InflateOutput { cr3: u64, size: u64 },
    /// Copy `size` bytes of the guest into the input channel.
    CopyInput { guest_page_table: u64, guest_vaddr: u64, size: u64 },
    /// Copy `size` bytes of the output channel to the guest.
    CopyOutput { guest_page_table: u64, guest_vaddr: u64, size: u64 },
    /// Copy `size` bytes at `vaddr` of the trustlet to the guest.
    CopyToGuest { cr3: u64, vaddr: u64, guest_page_table: u64, guest_vaddr: u64, size: u64 },
    /// Copy `size` bytes of the guest to `vaddr` of the trustlet.
    CopyFromGuest { cr3: u64, vaddr: u64, guest_page_table: u64, guest_vaddr: u64, size: u64 },
    /// Hand the guest the words of a request for a page of a file.
    WriteGuestWords { guest_page_table: u64, guest_vaddr: u64, words: [u64; 4] },
    /// Map the page at `dst` of the trustlet to a fresh physical page with the contents of a page
    /// of the guest, whose address is word `word` of what lies at `guest_vaddr`.
    LoadGuestPage {
        guest_page_table: u64,
        guest_vaddr: u64,
        word: u64,
        cr3: u64,
        dst: u64,
        flags: ProcessPageFlags,
    },
    /// Write a value to the port that a benchmark watches.
    Outb { value: u64 },
    /// Report something.
    Report(Note),
}

} // verus!
