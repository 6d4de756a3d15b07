//! The tables by which a trustlet's exceptions reach the monitor.
use vstd::arithmetic::div_mod;
use vstd::prelude::*;

use crate::bytes;
use crate::bytes::{read_u16, read_u64};
use crate::effects::Effect;
use crate::layout::MemoryLayout;
use crate::page::{page_offset_of, FlagBase, ProcessPageFlags};
use crate::process::ProcessPageTableRef;
use crate::vmsa::{VMSASegment, VMSA};

verus! {

/// The vector of a double fault.
pub const DF_VECTOR: usize = 8;

/// The vector of a general-protection fault.
pub const GP_VECTOR: usize = 13;

/// The vector of a page fault.
pub const PF_VECTOR: usize = 14;

/// The entry of the descriptor table at which the task-state segment begins.
pub const TSS_ENTRY: usize = 6;

/// The descriptor table of the trustlets.
///
/// Its entries are: null, kernel code, kernel data, user code, user data, null, and two for the
/// task-state segment.
#[derive(Clone, Copy, Debug)]
pub struct GDT {
    /// The descriptors.
    pub entries: [u64; 8],
}

/// A gate of the interrupt table.
#[derive(Clone, Copy, Debug, PartialEq, Eq, Structural)]
pub enum IdtEntry {
    /// No handler.
    Absent,
    /// A handler that runs with interrupts off.
    Interrupt(u64),
    /// A handler that runs with interrupts as they are.
    Trap(u64),
}

/// The interrupt table of the trustlets.
#[derive(Clone, Copy, Debug)]
pub struct IDT {
    /// The gates.
    pub entries: [IdtEntry; 256],
}

/// A task-state segment.
#[derive(Clone, Copy, Debug)]
pub struct X86Tss {
    /// The stack of each privilege level but the last.
    pub stacks: [u64; 3],
}

/// The tables that all trustlets share.
#[derive(Clone, Copy, Debug)]
pub struct TrustletTables {
    /// The descriptor table.
    pub gdt: GDT,
    /// The interrupt table.
    pub idt: IDT,
    /// The task-state segment.
    pub tss: X86Tss,
}

/// The descriptor table of the trustlets.
pub fn gdt_trustlet(tables: &TrustletTables) -> (gdt: &GDT)
    ensures
        *gdt == tables.gdt,
{
    &tables.gdt
}

/// The descriptor table of the trustlets, to be changed.
pub fn gdt_trustlet_mut(tables: &mut TrustletTables) -> (gdt: &mut GDT)
    ensures
        *gdt == old(tables).gdt,
        *final(tables) == (TrustletTables { gdt: *final(gdt), ..*old(tables) }),
{
    &mut tables.gdt
}

/// The interrupt table of the trustlets.
pub fn idt_trustlet(tables: &TrustletTables) -> (idt: &IDT)
    ensures
        *idt == tables.idt,
{
    &tables.idt
}

/// The interrupt table of the trustlets, to be changed.
pub fn idt_trustlet_mut(tables: &mut TrustletTables) -> (idt: &mut IDT)
    ensures
        *idt == old(tables).idt,
        *final(tables) == (TrustletTables { idt: *final(idt), ..*old(tables) }),
{
    &mut tables.idt
}

/// The task-state segment of the trustlets.
pub fn tss_trustlet(tables: &TrustletTables) -> (tss: &X86Tss)
    ensures
        *tss == tables.tss,
{
    &tables.tss
}

/// The task-state segment of the trustlets, to be changed.
pub fn tss_trustlet_mut(tables: &mut TrustletTables) -> (tss: &mut X86Tss)
    ensures
        *tss == old(tables).tss,
        *final(tables) == (TrustletTables { tss: *final(tss), ..*old(tables) }),
{
    &mut tables.tss
}

/// The interrupt table with another gate.
pub open spec fn with_gate(idt: IDT, vector: int, entry: IdtEntry) -> IDT {
    IDT { entries: vstd::array::spec_array_update(idt.entries, vector, entry) }
}

/// The descriptor table with another task-state segment.
pub open spec fn with_tss(gdt: GDT, descriptors: (u64, u64)) -> GDT {
    GDT {
        entries: vstd::array::spec_array_update(
            vstd::array::spec_array_update(gdt.entries, TSS_ENTRY as int, descriptors.0),
            TSS_ENTRY + 1,
            descriptors.1,
        ),
    }
}

impl IDT {
    /// Sets the entry of a vector.
    pub fn set_entry(&mut self, vector: usize, entry: IdtEntry)
        requires
            vector < 256,
        ensures
            *final(self) == with_gate(*old(self), vector as int, entry),
    {
        self.entries[vector] = entry;
    }
}

impl GDT {
    /// Sets the two descriptors of the task-state segment.
    pub fn set_tss_entry(&mut self, desc0: u64, desc1: u64)
        ensures
            *final(self) == with_tss(*old(self), (desc0, desc1)),
    {
        self.entries[TSS_ENTRY] = desc0;
        self.entries[TSS_ENTRY + 1] = desc1;
    }
}

/// The two descriptors of a task-state segment at `base`.
///
/// From the lowest bit up: 16 bits of the limit, 24 bits of the base, 8 bits that say that this is
/// a present, available segment, 4 more bits of the limit, 4 bits that are 0, and the other bits
/// of the base.
pub open spec fn tss_descriptor(base: u64, limit: u64) -> (u64, u64) {
    (
        (limit % 0x1_0000 + (base % 0x100_0000) * 0x1_0000 + 0x89 * 0x100_0000_0000 + ((limit
            / 0x1_0000) % 0x10) * 0x1_0000_0000_0000 + ((base / 0x100_0000) % 0x100)
            * 0x100_0000_0000_0000) as u64,
        base / 0x1_0000_0000,
    )
}

/// Makes the two descriptors of a task-state segment.
pub fn tss_to_gdt_entry(base: u64, limit: u64) -> (descriptors: (u64, u64))
    ensures
        descriptors == tss_descriptor(base, limit),
{
    let mut desc0: u64 = 0;
    let mut desc1: u64 = 0;
    desc0 = desc0 | (limit & 0xffffu64);
    desc0 = desc0 | (((limit >> 16) & 0xfu64) << 48);
    desc0 = desc0 | ((base & 0x00ff_ffffu64) << 16);
    desc0 = desc0 | ((base & 0xff00_0000u64) << 32);
    desc1 = desc1 | (base >> 32);
    desc0 = desc0 | (1u64 << 47);
    desc0 = desc0 | (0x9u64 << 40);
    assert(((((((0u64 | (limit & 0xffffu64)) | (((limit >> 16) & 0xfu64) << 48)) | ((base
        & 0x00ff_ffffu64) << 16)) | ((base & 0xff00_0000u64) << 32)) | (1u64 << 47)) | (0x9u64
        << 40)) == limit % 0x1_0000 + (base % 0x100_0000) * 0x1_0000 + 0x89 * 0x100_0000_0000 + ((
    limit / 0x1_0000) % 0x10) * 0x1_0000_0000_0000 + ((base / 0x100_0000) % 0x100)
        * 0x100_0000_0000_0000) by (bit_vector);
    assert((0u64 | (base >> 32)) == base / 0x1_0000_0000) by (bit_vector);
    (desc0, desc1)
}

/// The base that two descriptors say.
pub open spec fn descriptor_base(descriptors: (u64, u64)) -> int {
    (descriptors.0 as int / 0x1_0000) % 0x100_0000 + ((descriptors.0 as int / 0x100_0000_0000_0000)
        % 0x100) * 0x100_0000 + descriptors.1 * 0x1_0000_0000
}

/// The limit that a descriptor says.
pub open spec fn descriptor_limit(descriptors: (u64, u64)) -> int {
    descriptors.0 as int % 0x1_0000 + ((descriptors.0 as int / 0x1_0000_0000_0000) % 0x10)
        * 0x1_0000
}

/// The kind that a descriptor says.
pub open spec fn descriptor_access(descriptors: (u64, u64)) -> int {
    (descriptors.0 as int / 0x100_0000_0000) % 0x100
}

/// The descriptors of a task-state segment say where it is, how large it is, up to the 20 bits that
/// there are for it, and that it is a present and available one.
pub proof fn law_tss_descriptor_says_base_and_limit(base: u64, limit: u64)
    ensures
        descriptor_base(tss_descriptor(base, limit)) == base,
        descriptor_limit(tss_descriptor(base, limit)) == limit % 0x10_0000,
        descriptor_access(tss_descriptor(base, limit)) == 0x89,
{
    let low = limit as int % 0x1_0000;
    let high = (limit as int / 0x1_0000) % 0x10;
    let b0 = base as int % 0x100_0000;
    let b1 = (base as int / 0x100_0000) % 0x100;
    let d = tss_descriptor(base, limit).0 as int;
    let above_16 = b0 + 0x89 * 0x100_0000 + high * 0x1_0000_0000 + b1 * 0x100_0000_0000;
    let above_40 = 0x89 + high * 0x100 + b1 * 0x1_0000;
    let above_48 = high + b1 * 0x100;
    assert(d == low + b0 * 0x1_0000 + 0x89 * 0x100_0000_0000 + high * 0x1_0000_0000_0000 + b1
        * 0x100_0000_0000_0000);
    div_mod::lemma_fundamental_div_mod_converse(d, 0x1_0000, above_16, low);
    div_mod::lemma_fundamental_div_mod_converse(above_16, 0x100_0000, above_40, b0);
    div_mod::lemma_fundamental_div_mod_converse(d, 0x100_0000_0000, above_40, low + b0 * 0x1_0000);
    div_mod::lemma_fundamental_div_mod_converse(above_40, 0x100, above_48, 0x89);
    div_mod::lemma_fundamental_div_mod_converse(
        d,
        0x1_0000_0000_0000,
        above_48,
        low + b0 * 0x1_0000 + 0x89 * 0x100_0000_0000,
    );
    div_mod::lemma_fundamental_div_mod_converse(above_48, 0x10, b1 * 0x10, high);
    div_mod::lemma_fundamental_div_mod_converse(
        d,
        0x100_0000_0000_0000,
        b1,
        low + b0 * 0x1_0000 + 0x89 * 0x100_0000_0000 + high * 0x1_0000_0000_0000,
    );
}

/// Where the tables and the handlers lie.
#[derive(Clone, Copy, Debug, PartialEq, Eq, Structural)]
pub struct TableAddresses {
    /// The handler of page faults, at the start of the handlers.
    pub pf_handler: u64,
    /// The handler of general-protection faults.
    pub gp_handler: u64,
    /// The handler of double faults.
    pub df_handler: u64,
    /// The physical page of the handlers.
    pub handler_phys: u64,
    /// Where the handler of double faults stores the descriptor-table register.
    pub gdt_desc: u64,
    /// The physical page of that.
    pub gdt_desc_phys: u64,
    /// The interrupt table.
    pub idt_base: u64,
    /// The size of the interrupt table.
    pub idt_limit: u32,
    /// The physical page of the interrupt table.
    pub idt_phys: u64,
    /// The descriptor table.
    pub gdt_base: u64,
    /// The limit of the descriptor table.
    pub gdt_limit: u32,
    /// The physical page of the descriptor table.
    pub gdt_phys: u64,
    /// The physical page of the task-state segment.
    pub tss_phys: u64,
    /// Where the monitor sees that page.
    pub tss_vaddr: u64,
}

/// Whether the tables can be set up: every page is known, and nothing is empty.
pub open spec fn addresses_known(addresses: TableAddresses, layout: MemoryLayout) -> bool {
    &&& addresses.idt_phys != 0
    &&& addresses.handler_phys != 0
    &&& addresses.gdt_desc_phys != 0
    &&& addresses.gdt_phys != 0
    &&& addresses.idt_limit >= 1
    &&& 1 <= layout.tss_limit <= u32::MAX
    &&& layout.kern_stack + 8192 <= u64::MAX
}

impl TableAddresses {
    /// Whether the tables can be set up.
    pub fn are_known(&self, layout: &MemoryLayout) -> (known: bool)
        ensures
            known == addresses_known(*self, *layout),
    {
        self.idt_phys != 0 && self.handler_phys != 0 && self.gdt_desc_phys != 0 && self.gdt_phys
            != 0 && self.idt_limit >= 1 && layout.tss_limit >= 1 && layout.tss_limit
            <= u32::MAX as u64 && layout.kern_stack <= u64::MAX - 8192
    }
}

/// Where a trustlet has its task-state segment.
pub open spec fn tss_address(layout: MemoryLayout) -> u64 {
    (layout.kern_stack + 8192) as u64
}

/// The control register CR4 of a trustlet: the handlers may be used in ring 0, and protection keys
/// are on.
pub open spec fn trustlet_cr4(cr4: u64) -> u64 {
    (cr4 & !0x30_0000u64) | 0x40_0000u64
}

/// The code segment of a trustlet.
pub open spec fn user_code() -> VMSASegment {
    VMSASegment { selector: 0x1b, flags: 0xAFB, limit: 0xFFFF_FFFF, base: 0 }
}

/// The data segment of a trustlet.
pub open spec fn user_data() -> VMSASegment {
    VMSASegment { selector: 0x23, flags: 0xCF3, limit: 0xFFFF_FFFF, base: 0 }
}

/// The registers of a trustlet whose exceptions reach the monitor.
pub open spec fn exceptions_vmsa(
    vmsa: VMSA,
    addresses: TableAddresses,
    layout: MemoryLayout,
) -> VMSA {
    VMSA {
        cr4: trustlet_cr4(vmsa.cr4),
        idt: VMSASegment {
            selector: 0,
            flags: 0,
            limit: (addresses.idt_limit - 1) as u32,
            base: addresses.idt_base,
        },
        tr: VMSASegment {
            selector: 0x30,
            flags: 0x89,
            limit: (layout.tss_limit - 1) as u32,
            base: tss_address(layout),
        },
        gdt: VMSASegment {
            selector: 0,
            flags: 0,
            limit: addresses.gdt_limit,
            base: addresses.gdt_base,
        },
        cs: user_code(),
        ds: user_data(),
        es: user_data(),
        fs: user_data(),
        ss: user_data(),
        ..vmsa
    }
}

/// The tables by which exceptions reach the monitor.
pub open spec fn exceptions_tables(
    tables: TrustletTables,
    addresses: TableAddresses,
    layout: MemoryLayout,
) -> TrustletTables {
    TrustletTables {
        idt: with_gate(
            with_gate(
                with_gate(tables.idt, PF_VECTOR as int, IdtEntry::Trap(addresses.pf_handler)),
                GP_VECTOR as int,
                IdtEntry::Trap(addresses.gp_handler),
            ),
            DF_VECTOR as int,
            IdtEntry::Interrupt(addresses.df_handler),
        ),
        gdt: with_tss(tables.gdt, tss_descriptor(tss_address(layout), layout.tss_limit)),
        ..tables
    }
}

/// What is done so that a trustlet can use the tables and the handlers: each page is opened to it
/// and mapped where the monitor has it.
pub open spec fn exceptions_effects(
    cr3: u64,
    addresses: TableAddresses,
    layout: MemoryLayout,
) -> Seq<Effect> {
    let exec = ProcessPageFlags::spec_of(FlagBase::Exec);
    let data = ProcessPageFlags::spec_of(FlagBase::Data);
    seq![
        Effect::ShareWithTrustlet { vaddr: addresses.idt_base },
        Effect::ShareWithTrustlet { vaddr: addresses.pf_handler },
        Effect::ShareWithTrustlet { vaddr: addresses.gdt_desc },
        Effect::MapPage { cr3, vaddr: addresses.idt_base, paddr: addresses.idt_phys, flags: exec },
        Effect::MapPage {
            cr3,
            vaddr: addresses.pf_handler,
            paddr: addresses.handler_phys,
            flags: exec,
        },
        Effect::MapPage {
            cr3,
            vaddr: addresses.gdt_desc,
            paddr: addresses.gdt_desc_phys,
            flags: data,
        },
        Effect::AddStack { cr3, vaddr: layout.kern_stack, pages: 1 },
        Effect::MapPage { cr3, vaddr: tss_address(layout), paddr: addresses.tss_phys, flags: data },
        Effect::ShareWithTrustlet { vaddr: addresses.tss_vaddr },
        Effect::ShareWithTrustlet { vaddr: addresses.gdt_base },
        Effect::MapPage { cr3, vaddr: addresses.gdt_base, paddr: addresses.gdt_phys, flags: data },
    ]
}

/// The task-state segment of a trustlet: its exceptions run on a stack of one page.
pub open spec fn with_exception_stack(tss: X86Tss, layout: MemoryLayout) -> X86Tss {
    X86Tss {
        stacks: vstd::array::spec_array_update(tss.stacks, 0, (layout.kern_stack + 4096) as u64),
    }
}

/// Lets the exceptions of a trustlet reach the monitor.
///
/// `tss` is the task-state segment on the page that was allocated for it.
pub fn setup_exceptions(
    vmsa: &mut VMSA,
    page_table_ref: &ProcessPageTableRef,
    tables: &mut TrustletTables,
    tss: &mut X86Tss,
    addresses: &TableAddresses,
    layout: &MemoryLayout,
    effects: &mut Vec<Effect>,
)
    requires
        addresses_known(*addresses, *layout),
    ensures
        *final(vmsa) == exceptions_vmsa(*old(vmsa), *addresses, *layout),
        *final(tables) == exceptions_tables(*old(tables), *addresses, *layout),
        *final(tss) == (X86Tss {
            stacks: vstd::array::spec_array_update(
                old(tss).stacks,
                0,
                (layout.kern_stack + 4096) as u64,
            ),
        }),
        *final(tss) == with_exception_stack(*old(tss), *layout),
        final(effects)@ == old(effects)@ + exceptions_effects(
            page_table_ref.process_page_table,
            *addresses,
            *layout,
        ),
{
    let cr3 = page_table_ref.process_page_table;
    assert(!(1u64 << 20 | 1u64 << 21) == !0x30_0000u64) by (bit_vector);
    assert(1u64 << 22 == 0x40_0000u64) by (bit_vector);
    vmsa.cr4 = vmsa.cr4 & !(1u64 << 20 | 1u64 << 21);
    vmsa.cr4 = vmsa.cr4 | (1u64 << 22);

    idt_trustlet_mut(tables).set_entry(PF_VECTOR, IdtEntry::Trap(addresses.pf_handler));
    idt_trustlet_mut(tables).set_entry(GP_VECTOR, IdtEntry::Trap(addresses.gp_handler));
    idt_trustlet_mut(tables).set_entry(DF_VECTOR, IdtEntry::Interrupt(addresses.df_handler));
    let exec = ProcessPageFlags::of(FlagBase::Exec);
    let data = ProcessPageFlags::of(FlagBase::Data);
    effects.push(Effect::ShareWithTrustlet { vaddr: addresses.idt_base });
    effects.push(Effect::ShareWithTrustlet { vaddr: addresses.pf_handler });
    effects.push(Effect::ShareWithTrustlet { vaddr: addresses.gdt_desc });
    effects.push(
        Effect::MapPage { cr3, vaddr: addresses.idt_base, paddr: addresses.idt_phys, flags: exec },
    );
    effects.push(
        Effect::MapPage {
            cr3,
            vaddr: addresses.pf_handler,
            paddr: addresses.handler_phys,
            flags: exec,
        },
    );
    effects.push(
        Effect::MapPage {
            cr3,
            vaddr: addresses.gdt_desc,
            paddr: addresses.gdt_desc_phys,
            flags: data,
        },
    );
    vmsa.idt = VMSASegment {
        selector: 0,
        flags: 0,
        limit: addresses.idt_limit - 1,
        base: addresses.idt_base,
    };

    let tss_base = layout.kern_stack + 4096 * 2;
    tss.stacks[0] = layout.kern_stack + 4096;
    effects.push(Effect::AddStack { cr3, vaddr: layout.kern_stack, pages: 1 });
    effects.push(
        Effect::MapPage { cr3, vaddr: tss_base, paddr: addresses.tss_phys, flags: data },
    );
    effects.push(Effect::ShareWithTrustlet { vaddr: addresses.tss_vaddr });
    vmsa.tr = VMSASegment {
        selector: 6 * 8,
        flags: 0x89,
        limit: layout.tss_limit as u32 - 1,
        base: tss_base,
    };

    let (desc0, desc1) = tss_to_gdt_entry(tss_base, layout.tss_limit);
    gdt_trustlet_mut(tables).set_tss_entry(desc0, desc1);
    effects.push(Effect::ShareWithTrustlet { vaddr: addresses.gdt_base });
    effects.push(
        Effect::MapPage { cr3, vaddr: addresses.gdt_base, paddr: addresses.gdt_phys, flags: data },
    );
    vmsa.gdt = VMSASegment {
        selector: 0,
        flags: 0,
        limit: addresses.gdt_limit,
        base: addresses.gdt_base,
    };

    let cs = VMSASegment { selector: 0x1b, flags: 0xAFB, limit: 0xFFFF_FFFF, base: 0 };
    let ds = VMSASegment { selector: 0x23, flags: 0xCF3, limit: 0xFFFF_FFFF, base: 0 };
    vmsa.cs = cs;
    vmsa.ds = ds;
    vmsa.es = ds;
    vmsa.fs = ds;
    vmsa.ss = ds;
    assert(effects@ =~= old(effects)@ + exceptions_effects(cr3, *addresses, *layout));
}

/// A trustlet has protection keys on and the two protections of ring 0 against its memory off, and
/// every other bit of CR4 is what it was.
pub proof fn law_trustlet_cr4(cr4: u64)
    ensures
        trustlet_cr4(cr4) & 0x40_0000u64 == 0x40_0000u64,
        trustlet_cr4(cr4) & 0x30_0000u64 == 0,
        trustlet_cr4(cr4) & !0x70_0000u64 == cr4 & !0x70_0000u64,
{
    assert(((cr4 & !0x30_0000u64) | 0x40_0000u64) & 0x40_0000u64 == 0x40_0000u64) by (bit_vector);
    assert(((cr4 & !0x30_0000u64) | 0x40_0000u64) & 0x30_0000u64 == 0) by (bit_vector);
    assert(((cr4 & !0x30_0000u64) | 0x40_0000u64) & !0x70_0000u64 == cr4 & !0x70_0000u64)
        by (bit_vector);
}

/// The tables are shared: setting them up for one more trustlet changes nothing.
pub proof fn law_tables_are_set_up_once(
    tables: TrustletTables,
    addresses: TableAddresses,
    layout: MemoryLayout,
)
    ensures
        ({
            let once = exceptions_tables(tables, addresses, layout);
            exceptions_tables(once, addresses, layout) == once
        }),
{
    let once = exceptions_tables(tables, addresses, layout);
    let twice = exceptions_tables(once, addresses, layout);
    assert(twice.idt.entries =~= once.idt.entries);
    assert(twice.gdt.entries =~= once.gdt.entries);
}

/// The register that says where the descriptor table is.
#[derive(Clone, Copy, Debug, PartialEq, Eq, Structural)]
pub struct DescriptorTablePointer {
    /// The size of the table, less one.
    pub limit: u16,
    /// Where the table begins.
    pub base: u64,
}

/// The register that stands at `at` of a page.
pub open spec fn stored_pointer(page: Seq<u8>, at: int) -> (nat, nat) {
    (bytes::le_value(page.skip(at), 2), bytes::le_value(page.skip(at + 2), 8))
}

impl DescriptorTablePointer {
    /// Reads the register from where it was stored: two bytes for the limit, eight for the base.
    pub fn parse(page: &[u8], at: usize) -> (pointer: DescriptorTablePointer)
        requires
            at + 10 <= page.len(),
        ensures
            pointer.limit == bytes::le_value(page@.skip(at as int), 2),
            pointer.base == bytes::le_value(page@.skip(at + 2), 8),
            (pointer.limit as nat, pointer.base as nat) == stored_pointer(page@, at as int),
    {
        DescriptorTablePointer { limit: read_u16(page, at), base: read_u64(page, at + 2) }
    }

    /// The number of the last descriptor.
    pub fn last_entry(&self) -> (last: usize)
        ensures
            last == self.limit / 8,
    {
        self.limit as usize / 8
    }

    /// Where in its page the table begins.
    pub fn page_offset(&self) -> (offset: u64)
        ensures
            offset == self.base % 4096,
    {
        page_offset_of(self.base)
    }
}

} // verus!
