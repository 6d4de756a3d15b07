//! How processes are made and deleted.
use vstd::prelude::*;

use crate::effects::Effect;
use crate::exception_handling;
use crate::exception_handling::{setup_exceptions, TableAddresses, TrustletTables, X86Tss};
use crate::layout::MemoryLayout;
use crate::measurements;
use crate::measurements::ProcessMeasurements;
use crate::mmap::MmapManager;
use crate::pal_state::FAILURE;
use crate::pkru;
use crate::pkru::INITIAL_PKRU;
use crate::process;
use crate::process::{
    AllocationRange, MemoryChannel, ProcessBaseContext, ProcessContext, ProcessID,
    ProcessPageTableRef, ProcessState, ProcessStore, TrustedProcess, TrustedProcessType,
    PROCESS_STORE_SIZE,
};
use crate::protocol::{GuestCopy, RequestParams, SvsmReqError, SvsmResultCode};
use crate::vmsa::VMSA;

verus! {

/// How many words name the files of a zygote.
pub const ZYGOTE_WORDS: usize = 6;

/// The files that a zygote is loaded from.
#[derive(Clone, Copy, Debug, PartialEq, Eq, Structural)]
pub struct ZygoteFiles {
    /// The program that it starts with.
    pub pal: GuestCopy,
    /// The manifest.
    pub manifest: GuestCopy,
    /// The library operating system.
    pub libos: GuestCopy,
}

/// The files that the words name: three addresses, then three sizes.
pub open spec fn zygote_files(words: Seq<u64>, page_table: u64) -> ZygoteFiles {
    ZygoteFiles {
        pal: GuestCopy { addr: words[0], size: words[3], page_table },
        manifest: GuestCopy { addr: words[1], size: words[4], page_table },
        libos: GuestCopy { addr: words[2], size: words[5], page_table },
    }
}

impl ZygoteFiles {
    /// Reads what files a zygote is loaded from.
    pub fn parse(words: &[u64], pgt: u64) -> (files: ZygoteFiles)
        requires
            words@.len() >= ZYGOTE_WORDS,
        ensures
            files == zygote_files(words@, pgt),
    {
        ZygoteFiles {
            pal: GuestCopy { addr: words[0], size: words[3], page_table: pgt },
            manifest: GuestCopy { addr: words[1], size: words[4], page_table: pgt },
            libos: GuestCopy { addr: words[2], size: words[5], page_table: pgt },
        }
    }
}

/// What was set aside for a new process.
#[derive(Clone, Copy, Debug, PartialEq, Eq, Structural)]
pub struct Resources {
    /// The physical page of its register file.
    pub vmsa_page: u64,
    /// Its input and its output, a page each.
    pub channel: MemoryChannel,
}

/// The registers that a zygote starts with, before its exceptions are set up.
pub open spec fn fresh_vmsa(guest: VMSA, base: ProcessBaseContext, layout: MemoryLayout) -> VMSA {
    VMSA {
        vmpl: 1,
        cpl: 3,
        cr3: base.page_table_ref.process_page_table,
        efer: guest.efer | 0x1000u64,
        rip: base.entry_point,
        sev_features: guest.sev_features | 4u64,
        rflags: guest.rflags & !0x200u64,
        rbp: (layout.stack + 8 * 4096) as u64,
        rsp: (layout.stack + 8 * 4096) as u64,
        xcr0: guest.xcr0 | 0x200u64,
        pkru: INITIAL_PKRU,
        ..guest
    }
}

/// The registers that a zygote starts with: those of the guest, in ring 3 of the privilege level
/// below, on a stack of its own, with protection keys on and only key 0 open.
pub open spec fn zygote_vmsa(
    guest: VMSA,
    base: ProcessBaseContext,
    addresses: TableAddresses,
    layout: MemoryLayout,
) -> VMSA {
    exception_handling::exceptions_vmsa(fresh_vmsa(guest, base, layout), addresses, layout)
}

/// What a zygote runs on.
pub open spec fn zygote_context(
    base: ProcessBaseContext,
    measurements: ProcessMeasurements,
    resources: Resources,
    vmsa: VMSA,
) -> ProcessContext {
    ProcessContext {
        vmsa: resources.vmsa_page,
        sev_features: vmsa.sev_features,
        channel: resources.channel,
        measurements,
        page_table_ref: base.page_table_ref,
        base: process::no_base(),
    }
}

/// What a trustlet runs on.
pub open spec fn trustlet_context(
    base: ProcessBaseContext,
    measurements: ProcessMeasurements,
    page_table_ref: ProcessPageTableRef,
    resources: Resources,
    vmsa: VMSA,
) -> ProcessContext {
    ProcessContext {
        vmsa: resources.vmsa_page,
        sev_features: vmsa.sev_features,
        channel: resources.channel,
        base,
        measurements,
        page_table_ref,
    }
}

/// The registers that a trustlet starts with: those of its zygote, with a page table of its own.
pub open spec fn trustlet_vmsa(zygote: VMSA, page_table_ref: ProcessPageTableRef) -> VMSA {
    VMSA { cr3: page_table_ref.process_page_table, ..zygote }
}

/// What is done so that a trustlet can run: its register file is made one, and it gets an exception
/// stack of its own.
pub open spec fn trustlet_effects(
    page_table_ref: ProcessPageTableRef,
    resources: Resources,
    layout: MemoryLayout,
) -> Seq<Effect> {
    seq![
        Effect::MakeVmsaPage { paddr: resources.vmsa_page },
        Effect::UnsharePage {
            cr3: page_table_ref.process_page_table,
            vaddr: layout.kern_stack,
            user_access: false,
        },
    ]
}

/// What is done so that a zygote can run: its register file is made one, and its exceptions reach the
/// monitor.
pub open spec fn zygote_effects(
    page_table_ref: ProcessPageTableRef,
    resources: Resources,
    addresses: TableAddresses,
    layout: MemoryLayout,
) -> Seq<Effect> {
    seq![
        Effect::MakeVmsaPage { paddr: resources.vmsa_page },
    ] + exception_handling::exceptions_effects(
        page_table_ref.process_page_table,
        addresses,
        layout,
    )
}

/// Whether the registers can be handed to the processor: they are of the privilege level below,
/// virtualisation is on, and the features are those that were asked for.
pub open spec fn vmsa_accepted(vmsa: VMSA, sev_features: u64) -> bool {
    &&& vmsa.vmpl == 1
    &&& vmsa.efer & 0x1000u64 == 0x1000u64
    &&& vmsa.sev_features == sev_features
}

impl ProcessContext {
    /// Makes what a zygote runs on, and gives the registers that it starts with.
    ///
    /// `guest` are the registers of the guest, and `tss` is the task-state segment on the page that
    /// was allocated for it.
    pub fn early_init(
        &mut self,
        base: ProcessBaseContext,
        measurements: ProcessMeasurements,
        resources: &Resources,
        guest: &VMSA,
        tables: &mut TrustletTables,
        tss: &mut X86Tss,
        addresses: &TableAddresses,
        layout: &MemoryLayout,
        effects: &mut Vec<Effect>,
    ) -> (vmsa: VMSA)
        requires
            exception_handling::addresses_known(*addresses, *layout),
            layout.stack + 8 * 4096 <= u64::MAX,
        ensures
            vmsa == zygote_vmsa(*guest, base, *addresses, *layout),
            vmsa_accepted(vmsa, guest.sev_features | 4u64),
            *final(self) == (ProcessContext {
                base: old(self).base,
                ..zygote_context(base, measurements, *resources, vmsa)
            }),
            *final(tables) == exception_handling::exceptions_tables(
                *old(tables),
                *addresses,
                *layout,
            ),
            final(tss).stacks@ == old(tss).stacks@.update(0, (layout.kern_stack + 4096) as u64),
            final(effects)@ == old(effects)@ + zygote_effects(
                base.page_table_ref,
                *resources,
                *addresses,
                *layout,
            ),
            final(effects)@ == old(effects)@ + seq![
                Effect::MakeVmsaPage { paddr: resources.vmsa_page },
            ] + exception_handling::exceptions_effects(
                base.page_table_ref.process_page_table,
                *addresses,
                *layout,
            ),
    {
        let page_table_ref = base.page_table_ref;
        effects.push(Effect::MakeVmsaPage { paddr: resources.vmsa_page });
        assert(effects@ =~= old(effects)@ + seq![
            Effect::MakeVmsaPage { paddr: resources.vmsa_page },
        ]);
        proof {
            let efer = guest.efer;
            assert(1u64 << 12 == 0x1000u64) by (bit_vector);
            assert(1u64 << 9 == 0x200u64) by (bit_vector);
            assert((efer | 0x1000u64) & 0x1000u64 == 0x1000u64) by (bit_vector);
        }
        let mut vmsa = *guest;
        vmsa.vmpl = 1;
        vmsa.cpl = 3;
        vmsa.cr3 = page_table_ref.process_page_table;
        vmsa.efer = vmsa.efer | 1u64 << 12;
        vmsa.rip = base.entry_point;
        vmsa.sev_features = guest.sev_features | 4;
        vmsa.rflags = vmsa.rflags & !(1u64 << 9);
        vmsa.rbp = layout.stack + 8 * 4096;
        vmsa.rsp = layout.stack + 8 * 4096;
        vmsa.xcr0 = vmsa.xcr0 | (1u64 << 9);
        vmsa.pkru = INITIAL_PKRU;
        setup_exceptions(&mut vmsa, &page_table_ref, tables, tss, addresses, layout, effects);
        self.channel = resources.channel;
        self.vmsa = resources.vmsa_page;
        self.sev_features = vmsa.sev_features;
        self.measurements = measurements;
        self.page_table_ref = page_table_ref;
        vmsa
    }

    /// Makes what a trustlet runs on, and gives the registers that it starts with: those of the
    /// zygote, with a page table of its own.
    pub fn init(
        &mut self,
        base: ProcessBaseContext,
        measurements: ProcessMeasurements,
        page_table_ref: ProcessPageTableRef,
        resources: &Resources,
        zygote_vmsa: &VMSA,
        layout: &MemoryLayout,
        effects: &mut Vec<Effect>,
    ) -> (vmsa: VMSA)
        ensures
            vmsa == (VMSA { cr3: page_table_ref.process_page_table, ..*zygote_vmsa }),
            vmsa == trustlet_vmsa(*zygote_vmsa, page_table_ref),
            final(effects)@ == old(effects)@ + trustlet_effects(
                page_table_ref,
                *resources,
                *layout,
            ),
            *final(self) == trustlet_context(base, measurements, page_table_ref, *resources, vmsa),
            final(effects)@ == old(effects)@ + seq![
                Effect::MakeVmsaPage { paddr: resources.vmsa_page },
                Effect::UnsharePage {
                    cr3: page_table_ref.process_page_table,
                    vaddr: layout.kern_stack,
                    user_access: false,
                },
            ],
    {
        effects.push(Effect::MakeVmsaPage { paddr: resources.vmsa_page });
        let mut vmsa = *zygote_vmsa;
        vmsa.cr3 = page_table_ref.process_page_table;
        effects.push(
            Effect::UnsharePage { cr3: vmsa.cr3, vaddr: layout.kern_stack, user_access: false },
        );
        self.channel = resources.channel;
        self.vmsa = resources.vmsa_page;
        self.sev_features = vmsa.sev_features;
        self.base = base;
        self.measurements = measurements;
        self.page_table_ref = page_table_ref;
        assert(effects@ =~= old(effects)@ + seq![
            Effect::MakeVmsaPage { paddr: resources.vmsa_page },
            Effect::UnsharePage {
                cr3: page_table_ref.process_page_table,
                vaddr: layout.kern_stack,
                user_access: false,
            },
        ]);
        vmsa
    }
}

/// What was measured of the files of a zygote.
pub open spec fn zygote_measurements(
    pal: [u8; 64],
    manifest: [u8; 64],
    libos: [u8; 64],
) -> ProcessMeasurements {
    ProcessMeasurements {
        init_measurement: pal,
        manifest_measurement: manifest,
        libos_measurement: libos,
        ..measurements::no_measurements()
    }
}

/// A zygote that was just loaded.
pub open spec fn new_zygote(
    base: ProcessBaseContext,
    measurements: ProcessMeasurements,
    context: ProcessContext,
) -> ProcessState {
    ProcessState {
        process_type: TrustedProcessType::Zygote,
        base,
        measurements,
        context,
        ..process::no_process()
    }
}

/// A zygote that was made of what was loaded and measured.
pub open spec fn made_zygote(
    base: ProcessBaseContext,
    pal: [u8; 64],
    manifest: [u8; 64],
    libos: [u8; 64],
    resources: Resources,
    vmsa: VMSA,
) -> ProcessState {
    let known = zygote_measurements(pal, manifest, libos);
    new_zygote(base, known, zygote_context(base, known, resources, vmsa))
}

/// A function that was loaded for a trustlet.
#[derive(Clone, Copy, Debug)]
pub struct LoadedFunction {
    /// Where the memory that it was loaded into begins.
    pub range: u64,
    /// Where the monitor sees it.
    pub code: u64,
    /// Its size.
    pub size: u64,
    /// Its digest.
    pub digest: [u8; 64],
}

/// The room for a function: it ends at a page boundary, and at least one byte of it is free.
pub open spec fn function_room(size: u64) -> int {
    size - size % 4096 + 4096
}

/// A trustlet with a function.
pub open spec fn with_function(
    inherited: ProcessState,
    function: Option<LoadedFunction>,
) -> ProcessState {
    match function {
        Some(function) => ProcessState {
            base: ProcessBaseContext {
                alloc_range_function: AllocationRange(function.range, function.size),
                ..inherited.base
            },
            measurements: ProcessMeasurements {
                function_measurement: function.digest,
                ..inherited.measurements
            },
            ..inherited
        },
        None => inherited,
    }
}

/// What is done to give a trustlet its function.
pub open spec fn function_effects(
    inherited: ProcessState,
    function: Option<LoadedFunction>,
) -> Seq<Effect> {
    match function {
        Some(function) => seq![
            Effect::AddFunction {
                cr3: inherited.context.page_table_ref.process_page_table,
                code: function.code,
                size: function_room(function.size) as u64,
            },
        ],
        None => Seq::empty(),
    }
}

impl TrustedProcess {
    /// Makes a zygote of what was loaded, with the digests of its three files.  Gives the zygote
    /// and the registers that it starts with.
    pub fn zygote(
        base: ProcessBaseContext,
        pal_measurement: [u8; 64],
        manifest_measurement: [u8; 64],
        libos_measurement: [u8; 64],
        resources: &Resources,
        guest: &VMSA,
        tables: &mut TrustletTables,
        tss: &mut X86Tss,
        addresses: &TableAddresses,
        layout: &MemoryLayout,
        effects: &mut Vec<Effect>,
    ) -> (made: (TrustedProcess, VMSA))
        requires
            exception_handling::addresses_known(*addresses, *layout),
            layout.stack + 8 * 4096 <= u64::MAX,
        ensures
            ({
                let known = zygote_measurements(
                    pal_measurement,
                    manifest_measurement,
                    libos_measurement,
                );
                &&& made.1 == zygote_vmsa(*guest, base, *addresses, *layout)
                &&& made.0@ == new_zygote(
                    base,
                    known,
                    zygote_context(base, known, *resources, made.1),
                )
            }),
            made.0@ == made_zygote(
                base,
                pal_measurement,
                manifest_measurement,
                libos_measurement,
                *resources,
                made.1,
            ),
            *final(tables) == exception_handling::exceptions_tables(
                *old(tables),
                *addresses,
                *layout,
            ),
            final(tss).stacks@ == old(tss).stacks@.update(0, (layout.kern_stack + 4096) as u64),
            final(effects)@ == old(effects)@ + zygote_effects(
                base.page_table_ref,
                *resources,
                *addresses,
                *layout,
            ),
            final(effects)@ == old(effects)@ + seq![
                Effect::MakeVmsaPage { paddr: resources.vmsa_page },
            ] + exception_handling::exceptions_effects(
                base.page_table_ref.process_page_table,
                *addresses,
                *layout,
            ),
    {
        let mut measurements = ProcessMeasurements::default();
        measurements.init_measurement = pal_measurement;
        measurements.manifest_measurement = manifest_measurement;
        measurements.libos_measurement = libos_measurement;
        let mut context = ProcessContext::default();
        let vmsa = context.early_init(
            base,
            measurements,
            resources,
            guest,
            tables,
            tss,
            addresses,
            layout,
            effects,
        );
        let zygote = TrustedProcess {
            process_type: TrustedProcessType::Zygote,
            id: 0,
            parent_id: 0,
            base,
            measurements,
            context,
            mmap_manager: MmapManager::new(),
            pf_target_vaddr: 0,
        };
        (zygote, vmsa)
    }

    /// Makes a trustlet of what it inherits from its zygote, with a function where one was loaded.
    pub fn trustlet(
        inherited: TrustedProcess,
        function: Option<LoadedFunction>,
        effects: &mut Vec<Effect>,
    ) -> (trustlet: TrustedProcess)
        requires
            function matches Some(function) ==> function_room(function.size) <= u64::MAX,
        ensures
            trustlet@ == with_function(inherited@, function),
            final(effects)@ == old(effects)@ + function_effects(inherited@, function),
    {
        let mut trustlet = inherited;
        match function {
            Some(function) => {
                trustlet.base.alloc_range_function.0 = function.range;
                trustlet.base.alloc_range_function.1 = function.size;
                trustlet.measurements.function_measurement = function.digest;
                let size = function.size;
                proof {
                    crate::page::lemma_page_masks(size);
                }
                let size: u64 = (4096 - (size & 0xFFF)) + size;
                effects.push(
                    Effect::AddFunction {
                        cr3: trustlet.context.page_table_ref.process_page_table,
                        code: function.code,
                        size,
                    },
                );
            },
            None => {},
        }
        assert(effects@ =~= old(effects)@ + function_effects(inherited@, function));
        trustlet
    }
}

/// How the making of a process goes on.
#[derive(Clone, Copy, Debug, PartialEq, Eq, Structural)]
pub enum CreationStep {
    /// The words that name the files of a zygote are read.
    ReadFiles(GuestCopy),
    /// A zygote is duplicated, and a function is read where there is one.
    Duplicate { zygote: u64, function: Option<GuestCopy> },
}

/// What the making of a process begins with: RDX has an address, RCX a size and R8 the page table
/// of the guest.  R9 has the name of the zygote that a trustlet is made from.
pub open spec fn creation_step(params: RequestParams, t: TrustedProcessType) -> CreationStep {
    let copy = GuestCopy { addr: params.rdx, size: params.rcx, page_table: params.r8 };
    if t == TrustedProcessType::Zygote {
        CreationStep::ReadFiles(copy)
    } else {
        CreationStep::Duplicate {
            zygote: params.r9,
            function: if params.rdx != 0 {
                Some(copy)
            } else {
                None
            },
        }
    }
}

/// Begins to make a process.
pub fn create_trusted_process(params: &RequestParams, t: TrustedProcessType) -> (step: CreationStep)
    requires
        t != TrustedProcessType::Undefined,
    ensures
        step == creation_step(*params, t),
{
    let copy = GuestCopy { addr: params.rdx, size: params.rcx, page_table: params.r8 };
    if t == TrustedProcessType::Zygote {
        CreationStep::ReadFiles(copy)
    } else {
        let function = if params.rdx != 0 {
            Some(copy)
        } else {
            None
        };
        CreationStep::Duplicate { zygote: params.r9, function }
    }
}

/// The number of a slot as a register holds it: -1 is all ones.
pub open spec fn slot_register(slot: int) -> u64 {
    if slot < 0 {
        FAILURE
    } else {
        slot as u64
    }
}

/// The slots and the registers after a process was made: one that could not be made goes to no slot.
pub open spec fn registered(
    slots: Seq<ProcessState>,
    made: ProcessState,
    params: RequestParams,
) -> (Seq<ProcessState>, RequestParams) {
    if made.process_type == TrustedProcessType::Undefined {
        (slots, RequestParams { rcx: FAILURE, ..params })
    } else {
        (
            process::with_process(slots, made),
            RequestParams { rcx: slot_register(process::slot_for(slots)), ..params },
        )
    }
}

/// Puts a zygote into the store.  RCX gets its name.
pub fn register_zygote(
    store: &mut ProcessStore,
    zygote: TrustedProcess,
    params: &mut RequestParams,
) -> (id: ProcessID)
    requires
        process::has_free_slot(old(store)@),
    ensures
        process::is_first_free_slot(old(store)@, id.0 as int),
        final(store)@ == old(store)@.update(id.0 as int, zygote@),
        final(store)@ == process::with_process(old(store)@, zygote@),
        *final(params) == (RequestParams { rcx: id.0 as u64, ..*old(params) }),
        zygote@.process_type != TrustedProcessType::Undefined ==> (final(store)@, *final(params))
            == registered(old(store)@, zygote@, *old(params)),
{
    proof {
        process::lemma_slot_for(old(store)@);
    }
    let slot = store.insert(zygote);
    let id = store.id_of(slot as u64);
    params.rcx = slot as u64;
    id
}

/// Puts a trustlet into the store.  RCX gets its name, or -1 where it could not be made or there is
/// no room for it.
pub fn register_trustlet(
    store: &mut ProcessStore,
    trustlet: TrustedProcess,
    params: &mut RequestParams,
) -> (result: Result<(), SvsmReqError>)
    ensures
        result is Ok,
        trustlet@.process_type == TrustedProcessType::Undefined ==> {
            &&& final(store)@ == old(store)@
            &&& final(params).rcx == FAILURE
        },
        trustlet@.process_type != TrustedProcessType::Undefined ==> {
            &&& final(store)@ == process::with_process(old(store)@, trustlet@)
            &&& final(params).rcx == slot_register(process::slot_for(old(store)@))
        },
        *final(params) == (RequestParams { rcx: final(params).rcx, ..*old(params) }),
        (final(store)@, *final(params)) == registered(old(store)@, trustlet@, *old(params)),
{
    if trustlet.process_type == TrustedProcessType::Undefined {
        params.rcx = FAILURE;
        return Ok(());
    }
    let slot = store.insert(trustlet);
    params.rcx = if slot < 0 {
        FAILURE
    } else {
        slot as u64
    };
    Ok(())
}

/// Whether the process in slot `slot` is a trustlet that was made from the process in slot
/// `parent`.
pub open spec fn is_child(slots: Seq<ProcessState>, slot: int, parent: int) -> bool {
    &&& 0 <= slot < slots.len()
    &&& slot != parent
    &&& slots[slot].process_type == TrustedProcessType::Trustlet
    &&& slots[slot].parent_id == parent
}

/// Whether some trustlet was made from the process in slot `parent`.
pub open spec fn has_children(slots: Seq<ProcessState>, parent: int) -> bool {
    exists|slot: int| is_child(slots, slot, parent)
}

/// Whether the deletion of a process is refused: it is a zygote that trustlets were made from.
pub open spec fn deletion_refused(slots: Seq<ProcessState>, slot: int) -> bool {
    slots[slot].process_type == TrustedProcessType::Zygote && has_children(slots, slot)
}

/// Deletes a process, which RCX names, and gives it out, for its memory is to be freed.  A zygote
/// that trustlets were made from stays.
pub fn delete_trusted_process(store: &mut ProcessStore, params: &RequestParams) -> (result: Result<
    TrustedProcess,
    SvsmReqError,
>)
    requires
        old(store)@.len() == PROCESS_STORE_SIZE,
        params.rcx < old(store)@.len(),
    ensures
        match result {
            Ok(removed) => {
                &&& !deletion_refused(old(store)@, params.rcx as int)
                &&& removed@ == old(store)@[params.rcx as int]
                &&& final(store)@ == old(store)@.update(params.rcx as int, process::no_process())
            },
            Err(error) => {
                &&& deletion_refused(old(store)@, params.rcx as int)
                &&& error == SvsmReqError::RequestError(SvsmResultCode::InvalidParameter)
                &&& final(store)@ == old(store)@
            },
        },
{
    let process_id = store.id_of(params.rcx);
    if store.get(process_id).process_type == TrustedProcessType::Zygote {
        let mut i: u32 = 0;
        while i < PROCESS_STORE_SIZE
            invariant
                i <= PROCESS_STORE_SIZE,
                store@ == old(store)@,
                store@.len() == PROCESS_STORE_SIZE,
                process_id.0 == params.rcx,
                process_id.0 < store@.len(),
                store@[process_id.0 as int].process_type == TrustedProcessType::Zygote,
                forall|k: int| 0 <= k < i ==> !is_child(store@, k, process_id.0 as int),
            decreases PROCESS_STORE_SIZE - i,
        {
            if i as usize != process_id.0 {
                let process = store.get(ProcessID(i as usize));
                if process.process_type == TrustedProcessType::Trustlet {
                    if process.parent_id == process_id.0 as u64 {
                        assert(is_child(store@, i as int, process_id.0 as int));
                        return Err(SvsmReqError::invalid_parameter());
                    }
                }
            }
            i += 1;
        }
    }
    Ok(store.delete(process_id))
}

/// Whether every trustlet was made from a zygote that is still there.
pub open spec fn no_orphans(slots: Seq<ProcessState>) -> bool {
    forall|slot: int|
        0 <= slot < slots.len() && (#[trigger] slots[slot]).process_type
            == TrustedProcessType::Trustlet ==> slots[slot].parent_id < slots.len()
            && slots[slots[slot].parent_id as int].process_type == TrustedProcessType::Zygote
}

/// Deleting a process, where it is not refused, never leaves a trustlet without its zygote.
pub proof fn law_deletion_leaves_no_orphans(slots: Seq<ProcessState>, slot: int)
    requires
        0 <= slot < slots.len(),
        no_orphans(slots),
        !deletion_refused(slots, slot),
    ensures
        no_orphans(slots.update(slot, process::no_process())),
{
    let after = slots.update(slot, process::no_process());
    assert forall|other: int|
        0 <= other < after.len() && (#[trigger] after[other]).process_type
            == TrustedProcessType::Trustlet implies after[other].parent_id < after.len()
        && after[after[other].parent_id as int].process_type == TrustedProcessType::Zygote by {
        assert(after[other] == slots[other]);
        if slots[other].parent_id == slot {
            assert(is_child(slots, other, slot));
        }
    }
}

/// Whether a process may be put into a slot: a trustlet has a zygote there that it was made from.
pub open spec fn has_parent(slots: Seq<ProcessState>, made: ProcessState) -> bool {
    made.process_type == TrustedProcessType::Trustlet ==> made.parent_id < slots.len()
        && slots[made.parent_id as int].process_type == TrustedProcessType::Zygote
}

/// Putting a process into a slot never leaves a trustlet without its zygote, where a new trustlet
/// was made from a zygote that is there.
pub proof fn law_creation_leaves_no_orphans(slots: Seq<ProcessState>, made: ProcessState)
    requires
        no_orphans(slots),
        has_parent(slots, made),
    ensures
        no_orphans(process::with_process(slots, made)),
{
    process::lemma_slot_for(slots);
    let slot = process::slot_for(slots);
    let after = process::with_process(slots, made);
    assert forall|other: int|
        0 <= other < after.len() && (#[trigger] after[other]).process_type
            == TrustedProcessType::Trustlet implies after[other].parent_id < after.len()
        && after[after[other].parent_id as int].process_type == TrustedProcessType::Zygote by {
        if other == slot {
            assert(after[other] == made);
        } else {
            assert(after[other] == slots[other]);
        }
    }
}

/// A process that was taken out of its slot and put back, with whatever has changed of it but its
/// kind and its zygote, leaves no trustlet without its zygote.
pub proof fn law_return_leaves_no_orphans(
    slots: Seq<ProcessState>,
    slot: int,
    returned: ProcessState,
)
    requires
        0 <= slot < slots.len(),
        no_orphans(slots),
        returned.process_type == slots[slot].process_type,
        returned.parent_id == slots[slot].parent_id,
    ensures
        no_orphans(slots.update(slot, process::no_process()).update(slot, returned)),
{
    let after = slots.update(slot, process::no_process()).update(slot, returned);
    assert forall|other: int|
        0 <= other < after.len() && (#[trigger] after[other]).process_type
            == TrustedProcessType::Trustlet implies after[other].parent_id < after.len()
        && after[after[other].parent_id as int].process_type == TrustedProcessType::Zygote by {
        assert(slots[other].process_type == after[other].process_type);
    }
}

/// A process that was put into a free slot and deleted again leaves the store as it was.
pub proof fn law_deletion_undoes_creation(slots: Seq<ProcessState>, made: ProcessState)
    requires
        process::has_free_slot(slots),
        slots[process::slot_for(slots)] == process::no_process(),
    ensures
        ({
            let slot = process::slot_for(slots);
            let with_made = process::with_process(slots, made);
            &&& with_made[slot] == made
            &&& with_made.update(slot, process::no_process()) == slots
        }),
{
    process::lemma_slot_for(slots);
    let slot = process::slot_for(slots);
    assert(process::with_process(slots, made).update(slot, process::no_process()) =~= slots);
}

/// A new process never takes the place of another one.
pub proof fn law_creation_replaces_nobody(slots: Seq<ProcessState>, made: ProcessState, other: int)
    requires
        0 <= other < slots.len(),
        slots[other].process_type != TrustedProcessType::Undefined,
    ensures
        process::with_process(slots, made)[other] == slots[other],
        process::with_process(slots, made).len() == slots.len(),
{
    process::lemma_slot_for(slots);
}

/// The room for a function is whole pages, larger than the function, by a page at most.
pub proof fn law_function_room(size: u64)
    ensures
        function_room(size) % 4096 == 0,
        size < function_room(size) <= size + 4096,
{
}

/// A trustlet runs with the rights that its zygote started with: in ring 3 of the privilege level
/// below, with protection keys on and no domain open but that of key 0, and with a page table of
/// its own.
pub proof fn law_trustlet_inherits_rights(
    guest: VMSA,
    base: ProcessBaseContext,
    addresses: TableAddresses,
    layout: MemoryLayout,
    page_table: u64,
)
    ensures
        ({
            let zygote = zygote_vmsa(guest, base, addresses, layout);
            let trustlet = VMSA { cr3: page_table, ..zygote };
            &&& trustlet.vmpl == 1 && trustlet.cpl == 3
            &&& pkru::domain_open(trustlet.pkru, 0)
            &&& !pkru::other_domain_open(trustlet.pkru, 0)
            &&& trustlet.cr4 & 0x40_0000u64 == 0x40_0000u64
            &&& trustlet.cr4 == exception_handling::trustlet_cr4(guest.cr4)
            &&& trustlet.rip == base.entry_point
            &&& trustlet.cr3 == page_table
        }),
{
    pkru::law_at_most_one_domain_open(INITIAL_PKRU, 0);
    exception_handling::law_trustlet_cr4(guest.cr4);
}

} // verus!
