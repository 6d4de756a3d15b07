//! Pages, page-table entry flags and the protection flags of a trustlet's requests.
use vstd::prelude::*;

verus! {

/// The size of a page in bytes.
pub const PAGE_SIZE: usize = 4096;

/// How many entries one level of a page table has.
pub const TABLE_ENTRIES: usize = 512;

/// `igvm_defs::PAGE_SIZE_4K`, the size of a 4 KiB page.
///
/// The contract gives the value that the crate's source declares the constant with.
#[verifier::external_body]
pub(crate) fn page_size_4k() -> (size: u64)
    ensures
        size == 4096,
{
    igvm_defs::PAGE_SIZE_4K
}

/// Whether an address or a size is a multiple of the page size.
pub open spec fn page_aligned(value: u64) -> bool {
    value % 4096 == 0
}

/// The start of the page that `addr` lies in.
pub open spec fn page_start(addr: u64) -> u64 {
    (addr - addr % 4096) as u64
}

/// Masking the low twelve bits away gives the start of the page, and keeping only those bits
/// gives the offset in it.
pub proof fn lemma_page_masks(addr: u64)
    ensures
        addr & !0xFFFu64 == page_start(addr),
        addr & 0xFFFu64 == addr % 4096,
{
    assert(addr & !0xFFFu64 == addr - addr % 4096) by (bit_vector);
    assert(addr & 0xFFFu64 == addr % 4096) by (bit_vector);
}

/// The start of the page that `addr` lies in.
pub fn page_start_of(addr: u64) -> (start: u64)
    ensures
        start == page_start(addr),
{
    proof {
        lemma_page_masks(addr);
    }
    addr & !0xFFFu64
}

/// Where in its page `addr` lies.
pub fn page_offset_of(addr: u64) -> (offset: u64)
    ensures
        offset == addr % 4096,
{
    proof {
        lemma_page_masks(addr);
    }
    addr & 0xFFFu64
}

/// The index of the top-level page-table entry that translates `vaddr`: bits 39 to 47.
pub open spec fn spec_pgd_index(vaddr: u64) -> int {
    (vaddr as int / 0x80_0000_0000) % 512
}

/// The index of the top-level page-table entry that translates `vaddr`.
pub fn pgd_index(vaddr: u64) -> (index: usize)
    ensures
        index == spec_pgd_index(vaddr),
        index < TABLE_ENTRIES,
{
    ((vaddr / 0x80_0000_0000) % 512) as usize
}

/// The entry is valid.
pub const PRESENT: u64 = 0x1;

/// The page may be written.
pub const WRITABLE: u64 = 0x2;

/// The page may be used from ring 3.
pub const USER_ACCESSIBLE: u64 = 0x4;

/// The page has been used.
pub const ACCESSED: u64 = 0x20;

/// The page may not be executed.
pub const NO_EXECUTE: u64 = 0x8000_0000_0000_0000;

/// The set of flags that a page-table entry starts from.
///
/// The bits of each set belong to the page-table code.
#[derive(Clone, Copy, Debug, PartialEq, Eq, Structural)]
pub enum FlagBase {
    /// No flag.
    Empty,
    /// The flags of a data page.
    Data,
    /// The flags of a data page that belongs to a protection key.
    DataWithPkey(u32),
    /// The flags of a code page.
    Exec,
    /// The flags that the entry already has.
    Reuse,
}

/// The flags of a page-table entry: a set to start from, and what is added to and taken from it.
#[derive(Clone, Copy, Debug, PartialEq, Eq, Structural)]
pub struct ProcessPageFlags {
    /// The set to start from.
    pub base: FlagBase,
    /// The bits that are added.
    pub added: u64,
    /// The bits that are taken away.
    pub removed: u64,
}

impl ProcessPageFlags {
    /// The flags of a set, with nothing added or removed.
    pub open spec fn spec_of(base: FlagBase) -> ProcessPageFlags {
        ProcessPageFlags { base, added: 0, removed: 0 }
    }

    /// These flags with the bits of `mask` added.
    pub open spec fn spec_with(self, mask: u64) -> ProcessPageFlags {
        ProcessPageFlags { base: self.base, added: self.added | mask, removed: self.removed & !mask }
    }

    /// These flags with the bits of `mask` taken away.
    pub open spec fn spec_without(self, mask: u64) -> ProcessPageFlags {
        ProcessPageFlags { base: self.base, added: self.added & !mask, removed: self.removed | mask }
    }

    /// The bits of the entry, where `base_bits` are those of the set it starts from.
    pub open spec fn spec_bits(self, base_bits: u64) -> u64 {
        (base_bits | self.added) & !self.removed
    }

    /// The flags of a set, with nothing added or removed.
    pub fn of(base: FlagBase) -> (flags: ProcessPageFlags)
        ensures
            flags == Self::spec_of(base),
    {
        ProcessPageFlags { base, added: 0, removed: 0 }
    }

    /// Adds the bits of `mask`.
    pub fn with(self, mask: u64) -> (flags: ProcessPageFlags)
        ensures
            flags == self.spec_with(mask),
    {
        ProcessPageFlags { base: self.base, added: self.added | mask, removed: self.removed & !mask }
    }

    /// Takes the bits of `mask` away.
    pub fn without(self, mask: u64) -> (flags: ProcessPageFlags)
        ensures
            flags == self.spec_without(mask),
    {
        ProcessPageFlags { base: self.base, added: self.added & !mask, removed: self.removed | mask }
    }

    /// The bits of the entry, where `base_bits` are those of the set it starts from.
    pub fn bits(&self, base_bits: u64) -> (bits: u64)
        ensures
            bits == self.spec_bits(base_bits),
    {
        (base_bits | self.added) & !self.removed
    }

    /// Whatever the bits of the set it starts from are, adding a mask is the bitwise union with
    /// it, and taking a mask away leaves exactly the other bits.
    pub proof fn law_flag_edits(self, mask: u64, base_bits: u64)
        ensures
            Self::spec_of(self.base).spec_bits(base_bits) == base_bits,
            self.spec_with(mask).spec_bits(base_bits) == self.spec_bits(base_bits) | mask,
            self.spec_without(mask).spec_bits(base_bits) == self.spec_bits(base_bits) & !mask,
    {
        let a = self.added;
        let r = self.removed;
        assert((base_bits | 0u64) & !0u64 == base_bits) by (bit_vector);
        assert((base_bits | (a | mask)) & !(r & !mask) == ((base_bits | a) & !r) | mask)
            by (bit_vector);
        assert((base_bits | (a & !mask)) & !(r | mask) == ((base_bits | a) & !r) & !mask)
            by (bit_vector);
    }
}

/// The protection that a trustlet asks for: reading.
pub const PAL_PROT_READ: u64 = 0x1;

/// The protection that a trustlet asks for: writing.
pub const PAL_PROT_WRITE: u64 = 0x2;

/// The protection that a trustlet asks for: executing.
pub const PAL_PROT_EXEC: u64 = 0x4;

/// The protection that a trustlet asks for: a private copy upon the first write.
pub const PAL_PROT_WRITECOPY: u64 = 0x8;

} // verus!
