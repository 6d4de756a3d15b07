//! What a process is when it is made, and what becomes of the slots.
//!
//! Vectors, selectors and the bits of the registers are written out as numbers here.
use vstd::prelude::*;

use crate::effects::Effect;
use crate::exception_handling;
use crate::exception_handling::{GDT, IDT, IdtEntry, TableAddresses, TrustletTables, X86Tss};
use crate::layout::MemoryLayout;
use crate::measurements::ProcessMeasurements;
use crate::page::{FlagBase, ProcessPageFlags};
use crate::process;
use crate::process::{
    AllocationRange, ProcessBaseContext, ProcessContext, ProcessPageTableRef, ProcessState,
    TrustedProcessType,
};
use crate::process_cow;
use crate::process_cow::{CreationStep, LoadedFunction, Resources, ZygoteFiles};
use crate::protocol::{GuestCopy, RequestParams};
use crate::report_laws;
use crate::vmsa::{VMSASegment, VMSA};

verus! {

/// The six words that name the files of a zygote: the addresses of the program, of the manifest
/// and of the library operating system, and then their sizes in the same order.
pub proof fn law_words_of_a_zygote(words: Seq<u64>, page_table: u64)
    ensures
        process_cow::zygote_files(words, page_table) == (ZygoteFiles {
            pal: GuestCopy { addr: words[0], size: words[3], page_table },
            manifest: GuestCopy { addr: words[1], size: words[4], page_table },
            libos: GuestCopy { addr: words[2], size: words[5], page_table },
        }),
{
}

/// A process is made of what RDX points to, RCX bytes of it, in the page table that R8 names: the
/// words that name the files of a zygote, or the function of a trustlet.  A trustlet is made from
/// the zygote that R9 names, and without a function where RDX is 0.
pub proof fn law_creation_reads_what_the_guest_names(params: RequestParams)
    ensures
        process_cow::creation_step(params, TrustedProcessType::Zygote) == CreationStep::ReadFiles(
            GuestCopy { addr: params.rdx, size: params.rcx, page_table: params.r8 },
        ),
        process_cow::creation_step(params, TrustedProcessType::Trustlet) matches
            CreationStep::Duplicate { zygote, function } && zygote == params.r9 && (function is None
            <==> params.rdx == 0) && (function matches Some(copy) ==> copy.addr == params.rdx
            && copy.size == params.rcx && copy.page_table == params.r8),
{
}

proof fn lemma_set_bits(efer: u64, features: u64, rflags: u64, xcr0: u64)
    ensures
        (efer | 0x1000) & 0x1000 != 0 && (efer | 0x1000) & !0x1000u64 == efer & !0x1000u64,
        (features | 4) & 4 != 0 && (features | 4) & !4u64 == features & !4u64,
        (rflags & !0x200u64) & 0x200 == 0 && (rflags & !0x200u64) & !0x200u64 == rflags & !0x200u64,
        (xcr0 | 0x200) & 0x200 != 0 && (xcr0 | 0x200) & !0x200u64 == xcr0 & !0x200u64,
{
    assert((efer | 0x1000u64) & 0x1000u64 != 0 && (efer | 0x1000u64) & !0x1000u64 == efer & !0x1000u64
        && (features | 4u64) & 4u64 != 0 && (features | 4u64) & !4u64 == features & !4u64 && (
    rflags & !0x200u64) & 0x200u64 == 0 && (rflags & !0x200u64) & !0x200u64 == rflags & !0x200u64
        && (xcr0 | 0x200u64) & 0x200u64 != 0 && (xcr0 | 0x200u64) & !0x200u64 == xcr0 & !0x200u64)
        by (bit_vector);
}

/// A zygote starts at its entry point in its own page table, in ring 3 of the privilege level
/// below, at the top of a stack of eight pages.  Virtualisation is on (bit 12 of EFER), exceptions
/// reach the level above (bit 2 of the features), interrupts are off (bit 9 of RFLAGS), the state
/// of the protection keys is kept (bit 9 of XCR0) and only key 0 is open.
pub proof fn law_zygote_starts_at_its_entry(
    guest: VMSA,
    base: ProcessBaseContext,
    addresses: TableAddresses,
    layout: MemoryLayout,
)
    requires
        layout.stack + 8 * 4096 <= u64::MAX,
    ensures
        ({
            let vmsa = process_cow::zygote_vmsa(guest, base, addresses, layout);
            &&& vmsa.vmpl == 1 && vmsa.cpl == 3
            &&& vmsa.rip == base.entry_point
            &&& vmsa.cr3 == base.page_table_ref.process_page_table
            &&& vmsa.rsp == layout.stack + 32768 && vmsa.rbp == vmsa.rsp
            &&& vmsa.pkru == 0x5555_5554
            &&& vmsa.efer & 0x1000 != 0 && vmsa.efer & !0x1000u64 == guest.efer & !0x1000u64
            &&& vmsa.sev_features & 4 != 0 && vmsa.sev_features & !4u64 == guest.sev_features
                & !4u64
            &&& vmsa.rflags & 0x200 == 0 && vmsa.rflags & !0x200u64 == guest.rflags & !0x200u64
            &&& vmsa.xcr0 & 0x200 != 0 && vmsa.xcr0 & !0x200u64 == guest.xcr0 & !0x200u64
        }),
{
    lemma_set_bits(guest.efer, guest.sev_features, guest.rflags, guest.xcr0);
}

/// The segments of a zygote are those of ring 3, its tables are the shared ones, and its
/// task-state segment lies two pages above the start of its exception stack.  Protection keys are
/// on (bit 22 of CR4) and the two protections of ring 0 against its memory are off (bits 20 and
/// 21).  Every other register is that of the guest.
pub proof fn law_zygote_has_segments_of_ring_3(
    guest: VMSA,
    base: ProcessBaseContext,
    addresses: TableAddresses,
    layout: MemoryLayout,
)
    requires
        exception_handling::addresses_known(addresses, layout),
    ensures
        ({
            let vmsa = process_cow::zygote_vmsa(guest, base, addresses, layout);
            let code = VMSASegment { selector: 0x1b, flags: 0xAFB, limit: 0xFFFF_FFFF, base: 0 };
            let data = VMSASegment { selector: 0x23, flags: 0xCF3, limit: 0xFFFF_FFFF, base: 0 };
            &&& vmsa.cs == code
            &&& vmsa.ds == data && vmsa.es == data && vmsa.fs == data && vmsa.ss == data
            &&& vmsa.idt.base == addresses.idt_base && vmsa.idt.limit + 1 == addresses.idt_limit
            &&& vmsa.gdt.base == addresses.gdt_base && vmsa.gdt.limit == addresses.gdt_limit
            &&& vmsa.tr.base == layout.kern_stack + 8192 && vmsa.tr.limit + 1 == layout.tss_limit
            &&& vmsa.tr.selector == 48 && vmsa.tr.flags == 0x89
            &&& vmsa.idt.selector == 0 && vmsa.idt.flags == 0
            &&& vmsa.gdt.selector == 0 && vmsa.gdt.flags == 0
            &&& vmsa.cr4 & 0x40_0000 == 0x40_0000 && vmsa.cr4 & 0x30_0000 == 0 && vmsa.cr4
                & !0x70_0000u64 == guest.cr4 & !0x70_0000u64
            &&& vmsa == (VMSA {
                es: vmsa.es,
                cs: vmsa.cs,
                ss: vmsa.ss,
                ds: vmsa.ds,
                fs: vmsa.fs,
                gdt: vmsa.gdt,
                idt: vmsa.idt,
                tr: vmsa.tr,
                vmpl: vmsa.vmpl,
                cpl: vmsa.cpl,
                efer: vmsa.efer,
                cr4: vmsa.cr4,
                cr3: vmsa.cr3,
                rflags: vmsa.rflags,
                rip: vmsa.rip,
                rsp: vmsa.rsp,
                rbp: vmsa.rbp,
                sev_features: vmsa.sev_features,
                xcr0: vmsa.xcr0,
                pkru: vmsa.pkru,
                ..guest
            })
        }),
{
    exception_handling::law_trustlet_cr4(guest.cr4);
}

/// Setting the exceptions of a trustlet up changes its segments, its tables and CR4 alone: where
/// it runs, in what page table, at what level and with what rights stays.
pub proof fn law_exceptions_change_the_tables_alone(
    vmsa: VMSA,
    addresses: TableAddresses,
    layout: MemoryLayout,
)
    ensures
        ({
            let after = exception_handling::exceptions_vmsa(vmsa, addresses, layout);
            after == (VMSA {
                es: after.es,
                cs: after.cs,
                ss: after.ss,
                ds: after.ds,
                fs: after.fs,
                gdt: after.gdt,
                idt: after.idt,
                tr: after.tr,
                cr4: after.cr4,
                ..vmsa
            })
        }),
{
}

/// A page fault (14) and a general-protection fault (13) lead to their handlers with interrupts as
/// they are, a double fault (8) to its own with interrupts off, and every other gate stays.
pub proof fn law_faults_lead_to_their_handlers(
    tables: TrustletTables,
    addresses: TableAddresses,
    layout: MemoryLayout,
    vector: int,
)
    requires
        0 <= vector < 256,
    ensures
        exception_handling::exceptions_tables(tables, addresses, layout).idt.entries@[vector] == (
        if vector == 14 {
            IdtEntry::Trap(addresses.pf_handler)
        } else if vector == 13 {
            IdtEntry::Trap(addresses.gp_handler)
        } else if vector == 8 {
            IdtEntry::Interrupt(addresses.df_handler)
        } else {
            tables.idt.entries@[vector]
        }),
{
}

/// The last two entries of the descriptor table say where the task-state segment lies and how
/// large it is.  The other six, which the segments of the trustlets stand in, stay, and so does
/// the shared task-state segment itself.
pub proof fn law_descriptors_say_where_the_tss_is(
    tables: TrustletTables,
    addresses: TableAddresses,
    layout: MemoryLayout,
    entry: int,
)
    requires
        exception_handling::addresses_known(addresses, layout),
        0 <= entry < 6,
    ensures
        ({
            let after = exception_handling::exceptions_tables(tables, addresses, layout);
            let low = after.gdt.entries@[6] as int;
            let high = after.gdt.entries@[7] as int;
            &&& (low / 0x1_0000) % 0x100_0000 + ((low / 0x100_0000_0000_0000) % 0x100) * 0x100_0000
                + high * 0x1_0000_0000 == layout.kern_stack + 8192
            &&& low % 0x1_0000 + ((low / 0x1_0000_0000_0000) % 0x10) * 0x1_0000 == layout.tss_limit
                as int % 0x10_0000
            &&& (low / 0x100_0000_0000) % 0x100 == 0x89
            &&& after.gdt.entries@[entry] == tables.gdt.entries@[entry]
            &&& after.tss == tables.tss
        }),
{
    exception_handling::law_tss_descriptor_says_base_and_limit(
        (layout.kern_stack + 8192) as u64,
        layout.tss_limit,
    );
}

/// So that the handlers can run, the interrupt table and the handlers are mapped to be executed,
/// and the stored register, the task-state segment and the descriptor table as data, each where
/// the monitor has it, but for the task-state segment, which lies two pages above the start of the
/// stack.  The pages are opened to the trustlet, and the stack of the handlers is one page.
pub proof fn law_handlers_are_mapped(cr3: u64, addresses: TableAddresses, layout: MemoryLayout)
    requires
        exception_handling::addresses_known(addresses, layout),
    ensures
        ({
            let effects = exception_handling::exceptions_effects(cr3, addresses, layout);
            let exec = ProcessPageFlags { base: FlagBase::Exec, added: 0, removed: 0 };
            let data = ProcessPageFlags { base: FlagBase::Data, added: 0, removed: 0 };
            &&& effects.len() == 11
            &&& effects[0] == (Effect::ShareWithTrustlet { vaddr: addresses.idt_base })
            &&& effects[1] == (Effect::ShareWithTrustlet { vaddr: addresses.pf_handler })
            &&& effects[2] == (Effect::ShareWithTrustlet { vaddr: addresses.gdt_desc })
            &&& effects[3] == (Effect::MapPage {
                cr3,
                vaddr: addresses.idt_base,
                paddr: addresses.idt_phys,
                flags: exec,
            })
            &&& effects[4] == (Effect::MapPage {
                cr3,
                vaddr: addresses.pf_handler,
                paddr: addresses.handler_phys,
                flags: exec,
            })
            &&& effects[5] == (Effect::MapPage {
                cr3,
                vaddr: addresses.gdt_desc,
                paddr: addresses.gdt_desc_phys,
                flags: data,
            })
            &&& effects[6] == (Effect::AddStack { cr3, vaddr: layout.kern_stack, pages: 1 })
            &&& effects[7] == (Effect::MapPage {
                cr3,
                vaddr: (layout.kern_stack + 8192) as u64,
                paddr: addresses.tss_phys,
                flags: data,
            })
            &&& effects[8] == (Effect::ShareWithTrustlet { vaddr: addresses.tss_vaddr })
            &&& effects[9] == (Effect::ShareWithTrustlet { vaddr: addresses.gdt_base })
            &&& effects[10] == (Effect::MapPage {
                cr3,
                vaddr: addresses.gdt_base,
                paddr: addresses.gdt_phys,
                flags: data,
            })
        }),
{
}

/// The digests of the three files of a zygote are each kept under the file that was measured, and
/// nothing else of it is known.
pub proof fn law_zygote_files_are_measured(
    pal: [u8; 64],
    manifest: [u8; 64],
    libos: [u8; 64],
    module: int,
)
    requires
        0 <= module < 15,
    ensures
        ({
            let known = process_cow::zygote_measurements(pal, manifest, libos);
            &&& known.init_measurement == pal
            &&& known.manifest_measurement == manifest
            &&& known.libos_measurement == libos
            &&& report_laws::all_zero(known.runtime_measurement@)
            &&& report_laws::all_zero(known.function_measurement@)
            &&& report_laws::all_zero(known.wasm_module_measurements@[module]@)
            &&& report_laws::all_zero(known.env_hash@[module]@)
            &&& report_laws::all_zero(known.input_data@)
            &&& report_laws::all_zero(known.output_data@)
            &&& known.wasm_module_count == 0
        }),
{
}

/// A new zygote is a zygote of nobody, made of what was loaded and measured; no file is mapped
/// into it and it waits for no page.
pub proof fn law_new_zygote(
    base: ProcessBaseContext,
    measurements: ProcessMeasurements,
    context: ProcessContext,
)
    ensures
        process_cow::new_zygote(base, measurements, context) == (ProcessState {
            process_type: TrustedProcessType::Zygote,
            id: 0,
            parent_id: 0,
            base,
            measurements,
            context,
            mappings: Map::empty(),
            pf_target_vaddr: 0,
        }),
{
}

/// A process runs on what was set aside for it: its register file, its channel, the features that
/// its registers have, its digests and a page table, that of a zygote being the one that it was
/// loaded into and that of a trustlet its own.
pub proof fn law_process_runs_on_its_resources(
    base: ProcessBaseContext,
    measurements: ProcessMeasurements,
    own: ProcessPageTableRef,
    resources: Resources,
    vmsa: VMSA,
)
    ensures
        ({
            let zygote = process_cow::zygote_context(base, measurements, resources, vmsa);
            let trustlet = process_cow::trustlet_context(
                base,
                measurements,
                own,
                resources,
                vmsa,
            );
            &&& zygote.vmsa == resources.vmsa_page && trustlet.vmsa == resources.vmsa_page
            &&& zygote.channel.input == resources.channel.input
            &&& zygote.channel.output == resources.channel.output
            &&& trustlet.channel.input == resources.channel.input
            &&& trustlet.channel.output == resources.channel.output
            &&& zygote.sev_features == vmsa.sev_features
            &&& trustlet.sev_features == vmsa.sev_features
            &&& zygote.measurements == measurements && trustlet.measurements == measurements
            &&& zygote.page_table_ref == base.page_table_ref
            &&& trustlet.page_table_ref == own
            &&& trustlet.base == base
            &&& zygote.base.entry_point == 0 && zygote.base.page_table_ref.process_page_table == 0
            &&& zygote.base.alloc_range == AllocationRange(0, 0)
            &&& zygote.base.alloc_range_manifest == AllocationRange(0, 0)
            &&& zygote.base.alloc_range_libos == AllocationRange(0, 0)
            &&& zygote.base.alloc_range_function == AllocationRange(0, 0)
        }),
{
}

/// The registers of a process are accepted where they are of the privilege level below,
/// virtualisation is on and the features are those that were asked for, and only there.
pub proof fn law_accepted_registers(vmsa: VMSA, sev_features: u64)
    ensures
        process_cow::vmsa_accepted(vmsa, sev_features) <==> vmsa.vmpl == 1 && vmsa.efer & 0x1000
            != 0 && vmsa.sev_features == sev_features,
{
    let efer = vmsa.efer;
    assert(efer & 0x1000u64 == 0x1000u64 || efer & 0x1000u64 == 0) by (bit_vector);
}

/// A trustlet with a function has where it was loaded, its size and its digest on record, and
/// nothing else of what it inherits changes.  The function is mapped in the page table of the
/// trustlet, in whole pages, of which at least one byte is left.  Without a function nothing
/// happens.
pub proof fn law_function_of_a_trustlet(
    inherited: ProcessState,
    function: LoadedFunction,
)
    requires
        function.size - function.size % 4096 + 4096 <= u64::MAX,
    ensures
        ({
            let made = process_cow::with_function(inherited, Some(function));
            let effects = process_cow::function_effects(inherited, Some(function));
            &&& made.base.alloc_range_function == AllocationRange(function.range, function.size)
            &&& made.measurements.function_measurement == function.digest
            &&& made == (ProcessState {
                base: ProcessBaseContext {
                    alloc_range_function: made.base.alloc_range_function,
                    ..inherited.base
                },
                measurements: ProcessMeasurements {
                    function_measurement: made.measurements.function_measurement,
                    ..inherited.measurements
                },
                ..inherited
            })
            &&& effects.len() == 1
            &&& effects[0] matches Effect::AddFunction { cr3, code, size } && cr3
                == inherited.context.page_table_ref.process_page_table && code == function.code
                && size % 4096 == 0 && function.size < size <= function.size + 4096
            &&& process_cow::with_function(inherited, None) == inherited
            &&& process_cow::function_effects(inherited, None).len() == 0
        }),
{
}

/// A slot that holds no process has nothing of one.
pub proof fn law_no_process()
    ensures
        ({
            let none = process::no_process();
            &&& none.process_type == TrustedProcessType::Undefined
            &&& none.id == 0 && none.parent_id == 0 && none.pf_target_vaddr == 0
            &&& none.mappings == Map::<crate::mmap::RangeWrapper, crate::mmap::MmapInfo>::empty()
            &&& none.base.entry_point == 0 && none.base.page_table_ref.process_page_table == 0
            &&& none.base.alloc_range == AllocationRange(0, 0)
            &&& none.base.alloc_range_manifest == AllocationRange(0, 0)
            &&& none.base.alloc_range_libos == AllocationRange(0, 0)
            &&& none.base.alloc_range_function == AllocationRange(0, 0)
            &&& none.context.vmsa == 0 && none.context.sev_features == 0
            &&& none.context.page_table_ref.process_page_table == 0
            &&& none.context.channel.input == AllocationRange(0, 0)
            &&& none.context.channel.output == AllocationRange(0, 0)
            &&& none.context.base == none.base
            &&& none.context.measurements == none.measurements
            &&& none.measurements.wasm_module_count == 0
        }),
{
}

/// A process goes to the first slot that holds none, whose number a register gets, and every other
/// slot stays.  Where every slot holds a process they all stay, and the register gets -1.
pub proof fn law_process_goes_to_the_first_free_slot(
    slots: Seq<ProcessState>,
    made: ProcessState,
    other: int,
)
    requires
        slots.len() <= u32::MAX,
        0 <= other < slots.len(),
    ensures
        ({
            let slot = process::slot_for(slots);
            let after = process::with_process(slots, made);
            let register = process_cow::slot_register(slot);
            let room = exists|free: int|
                0 <= free < slots.len() && (#[trigger] slots[free]).process_type
                    == TrustedProcessType::Undefined;
            &&& after.len() == slots.len()
            &&& room ==> {
                &&& 0 <= slot < slots.len()
                &&& slots[slot].process_type == TrustedProcessType::Undefined
                &&& other < slot ==> slots[other].process_type != TrustedProcessType::Undefined
                &&& after[slot] == made
                &&& register == slot
            }
            &&& !room ==> after == slots && register == 0xFFFF_FFFF_FFFF_FFFF
            &&& other != slot ==> after[other] == slots[other]
        }),
{
    process::lemma_slot_for(slots);
    let room = exists|free: int|
        0 <= free < slots.len() && (#[trigger] slots[free]).process_type
            == TrustedProcessType::Undefined;
    if room {
        let free = choose|free: int|
            0 <= free < slots.len() && (#[trigger] slots[free]).process_type
                == TrustedProcessType::Undefined;
        assert(process::is_free_slot(slots, free));
        if other < process::slot_for(slots) {
            assert(!process::is_free_slot(slots, other));
        }
    } else {
        assert(!process::has_free_slot(slots));
    }
}

/// The deletion of a process is refused where it is a zygote and some trustlet in another slot
/// names it as the one that it was made from, and only there.
pub proof fn law_zygote_of_a_trustlet_stays(slots: Seq<ProcessState>, slot: int)
    requires
        0 <= slot < slots.len(),
    ensures
        process_cow::deletion_refused(slots, slot) <==> slots[slot].process_type
            == TrustedProcessType::Zygote && exists|child: int|
            0 <= child < slots.len() && child != slot && (#[trigger] slots[child]).process_type
                == TrustedProcessType::Trustlet && slots[child].parent_id == slot,
{
    if exists|child: int|
        0 <= child < slots.len() && child != slot && (#[trigger] slots[child]).process_type
            == TrustedProcessType::Trustlet && slots[child].parent_id == slot {
        let child = choose|child: int|
            0 <= child < slots.len() && child != slot && (#[trigger] slots[child]).process_type
                == TrustedProcessType::Trustlet && slots[child].parent_id == slot;
        assert(process_cow::is_child(slots, child, slot));
    }
    if process_cow::has_children(slots, slot) {
        let child = choose|child: int| process_cow::is_child(slots, child, slot);
        assert(slots[child].process_type == TrustedProcessType::Trustlet);
    }
}

/// A trustlet starts with the registers of its zygote, but in its own page table.  Its register
/// file is made one first, and then it gets a copy of the page of the exception stack.
pub proof fn law_trustlet_starts_like_its_zygote(
    zygote: VMSA,
    own: ProcessPageTableRef,
    resources: Resources,
    layout: MemoryLayout,
)
    ensures
        ({
            let vmsa = process_cow::trustlet_vmsa(zygote, own);
            let effects = process_cow::trustlet_effects(own, resources, layout);
            &&& vmsa.cr3 == own.process_page_table
            &&& vmsa == (VMSA { cr3: vmsa.cr3, ..zygote })
            &&& effects.len() == 2
            &&& effects[0] == (Effect::MakeVmsaPage { paddr: resources.vmsa_page })
            &&& effects[1] == (Effect::UnsharePage {
                cr3: own.process_page_table,
                vaddr: layout.kern_stack,
                user_access: false,
            })
        }),
{
}

/// The register file of a zygote is made one before anything is done about its exceptions, which
/// are set up in its own page table.
pub proof fn law_zygote_gets_its_registers_first(
    own: ProcessPageTableRef,
    resources: Resources,
    addresses: TableAddresses,
    layout: MemoryLayout,
)
    ensures
        ({
            let effects = process_cow::zygote_effects(own, resources, addresses, layout);
            &&& effects.len() > 0
            &&& effects[0] == (Effect::MakeVmsaPage { paddr: resources.vmsa_page })
            &&& effects.skip(1) == exception_handling::exceptions_effects(
                own.process_page_table,
                addresses,
                layout,
            )
        }),
{
    let effects = process_cow::zygote_effects(own, resources, addresses, layout);
    assert(effects.skip(1) =~= exception_handling::exceptions_effects(
        own.process_page_table,
        addresses,
        layout,
    ));
}

/// The exceptions of a trustlet run on the one page of its exception stack, from the top of it,
/// and the stacks of the other levels stay.
pub proof fn law_exceptions_run_on_their_stack(tss: X86Tss, layout: MemoryLayout, level: int)
    requires
        layout.kern_stack + 4096 <= u64::MAX,
        0 <= level < 3,
    ensures
        exception_handling::with_exception_stack(tss, layout).stacks@[level] == (if level == 0 {
            layout.kern_stack + 4096
        } else {
            tss.stacks@[level] as int
        }),
{
}

/// A zygote that is made has the digest of each of its three files where it belongs, in its own
/// record and in that of what it runs on, which is what was set aside for it.
pub proof fn law_made_zygote(
    base: ProcessBaseContext,
    pal: [u8; 64],
    manifest: [u8; 64],
    libos: [u8; 64],
    resources: Resources,
    vmsa: VMSA,
)
    ensures
        ({
            let made = process_cow::made_zygote(base, pal, manifest, libos, resources, vmsa);
            &&& made.process_type == TrustedProcessType::Zygote
            &&& made.base == base
            &&& made.measurements.init_measurement == pal
            &&& made.measurements.manifest_measurement == manifest
            &&& made.measurements.libos_measurement == libos
            &&& made.measurements.wasm_module_count == 0
            &&& made.context.measurements == made.measurements
            &&& made.context.vmsa == resources.vmsa_page
            &&& made.context.channel == resources.channel
            &&& made.context.sev_features == vmsa.sev_features
            &&& made.context.page_table_ref == base.page_table_ref
        }),
{
}

/// A process that could be made goes to the first slot that holds none and RCX gets its number, or
/// -1 where there is none.  One that could not be made goes nowhere, and RCX gets -1.  No other
/// register changes.
pub proof fn law_made_process_is_registered(
    slots: Seq<ProcessState>,
    made: ProcessState,
    params: RequestParams,
    slot: int,
)
    requires
        slots.len() <= u32::MAX,
        0 <= slot < slots.len(),
        slots[slot].process_type == TrustedProcessType::Undefined,
        forall|earlier: int|
            0 <= earlier < slot ==> (#[trigger] slots[earlier]).process_type
                != TrustedProcessType::Undefined,
    ensures
        ({
            let (after, registers) = process_cow::registered(slots, made, params);
            &&& made.process_type == TrustedProcessType::Undefined ==> after == slots
                && registers.rcx == 0xFFFF_FFFF_FFFF_FFFF
            &&& made.process_type != TrustedProcessType::Undefined ==> after == slots.update(
                slot,
                made,
            ) && registers.rcx == slot
            &&& registers.rdx == params.rdx && registers.r8 == params.r8 && registers.r9
                == params.r9
        }),
{
    law_process_goes_to_the_first_free_slot(slots, made, slot);
    let first = process::slot_for(slots);
    if first < slot {
        assert(slots[first].process_type != TrustedProcessType::Undefined);
    }
}

/// Where every slot holds a process, one more goes nowhere and RCX gets -1.
pub proof fn law_no_room_is_reported(
    slots: Seq<ProcessState>,
    made: ProcessState,
    params: RequestParams,
)
    requires
        forall|slot: int|
            0 <= slot < slots.len() ==> (#[trigger] slots[slot]).process_type
                != TrustedProcessType::Undefined,
    ensures
        process_cow::registered(slots, made, params) == (
            slots,
            (RequestParams { rcx: 0xFFFF_FFFF_FFFF_FFFF, ..params }),
        ),
{
    process::lemma_slot_for(slots);
}

/// A gate and the descriptors of a task-state segment are set where they belong, for every vector,
/// and no other entry changes.
pub proof fn law_entries_are_set_one_by_one(
    idt: IDT,
    gdt: GDT,
    vector: int,
    gate: IdtEntry,
    descriptors: (u64, u64),
    other: int,
    entry: int,
)
    requires
        0 <= vector < 256,
        0 <= other < 256,
        0 <= entry < 8,
    ensures
        exception_handling::with_gate(idt, vector, gate).entries@[other] == (if other == vector {
            gate
        } else {
            idt.entries@[other]
        }),
        exception_handling::with_tss(gdt, descriptors).entries@[entry] == (if entry == 6 {
            descriptors.0
        } else if entry == 7 {
            descriptors.1
        } else {
            gdt.entries@[entry]
        }),
{
}

/// The tables can be set up where the four shared pages are known, neither the interrupt table nor
/// the task-state segment is empty, and the exception stack lies in the address space.
pub proof fn law_tables_can_be_set_up(addresses: TableAddresses, layout: MemoryLayout)
    ensures
        exception_handling::addresses_known(addresses, layout) <==> addresses.idt_phys > 0
            && addresses.handler_phys > 0 && addresses.gdt_desc_phys > 0 && addresses.gdt_phys > 0
            && addresses.idt_limit > 0 && 0 < layout.tss_limit <= 0xFFFF_FFFF && layout.kern_stack
            <= u64::MAX - 8192,
{
}

} // verus!
