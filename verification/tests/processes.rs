use trustlet_monitor::attestation::AttestationStep;
use trustlet_monitor::call_handler::{
    can_handle, diff_attestation, get_stat, monitor_call_handler, reset_stat, MonitorStep,
};
use trustlet_monitor::effects::Effect;
use trustlet_monitor::exception_handling::{
    gdt_trustlet, gdt_trustlet_mut, idt_trustlet, idt_trustlet_mut, setup_exceptions,
    tss_to_gdt_entry, tss_trustlet, tss_trustlet_mut, DescriptorTablePointer, IdtEntry,
    TableAddresses, TrustletTables, X86Tss, GDT, IDT,
};
use trustlet_monitor::layout::MemoryLayout;
use trustlet_monitor::measurements::ProcessMeasurements;
use trustlet_monitor::monitor::{monitor_init, Monitor};
use trustlet_monitor::page::{FlagBase, ProcessPageFlags};
use trustlet_monitor::process::{
    AllocationRange, MemoryChannel, ProcessBaseContext, ProcessContext, ProcessID,
    ProcessPageTableRef, ProcessStore, TrustedProcess, TrustedProcessType,
};
use trustlet_monitor::process_cow::{
    create_trusted_process, delete_trusted_process, register_trustlet, register_zygote,
    CreationStep, LoadedFunction, Resources, ZygoteFiles,
};
use trustlet_monitor::protocol::{
    Features, GuestCopy, RequestParams, SvsmReqError, SvsmResultCode,
};
use trustlet_monitor::stats::Stats;
use trustlet_monitor::vmsa::{VMSASegment, VMSA};

fn segment(base: u64) -> VMSASegment {
    VMSASegment { selector: 9, flags: 9, limit: 9, base }
}

fn guest() -> VMSA {
    let s = segment(0);
    VMSA {
        es: s, cs: s, ss: s, ds: s, fs: s, gs: segment(0x99), gdt: s, idt: s, tr: s,
        vmpl: 2, cpl: 0, efer: 0x500, cr4: 0x30_0020, cr3: 0x1, cr2: 0, rflags: 0x246, rip: 0x1,
        rsp: 0, rbp: 0, rax: 1, rbx: 2, rcx: 3, rdx: 4, rsi: 0, rdi: 0, r8: 0, r9: 0,
        r10: 0, r11: 0, r12: 0, r13: 0, r14: 0, r15: 0, sev_features: 0x1, xcr0: 0x7, pkru: 0,
    }
}

fn layout() -> MemoryLayout {
    MemoryLayout {
        allocation_range: 0x300_0000_0000,
        manifest: 0x80_0000_0000,
        libos: 0x100_0000_0000,
        stack: 0x180_0000_0000,
        kern_stack: 0x200_0000_0000,
        input: 0x280_0000_0000,
        output: 0x380_0000_0000,
        tss_limit: 0x68,
    }
}

fn tables() -> TrustletTables {
    TrustletTables {
        gdt: GDT { entries: [0, 1, 2, 3, 4, 0, 0, 0] },
        idt: IDT { entries: [IdtEntry::Absent; 256] },
        tss: X86Tss { stacks: [0; 3] },
    }
}

fn addresses() -> TableAddresses {
    TableAddresses {
        pf_handler: 0xa000,
        gp_handler: 0xa100,
        df_handler: 0xa200,
        handler_phys: 0x1a000,
        gdt_desc: 0xb000,
        gdt_desc_phys: 0x1b000,
        idt_base: 0xc000,
        idt_limit: 4096,
        idt_phys: 0x1c000,
        gdt_base: 0xd000,
        gdt_limit: 63,
        gdt_phys: 0x1d000,
        tss_phys: 0x1e000,
        tss_vaddr: 0xe000,
    }
}

fn features() -> Features {
    Features { boottime: false, no_cow: false, stat: false }
}

fn resources() -> Resources {
    let input = AllocationRange(0x60000, 1);
    let output = AllocationRange(0x61000, 1);
    Resources { vmsa_page: 0x70000, channel: MemoryChannel { input, output } }
}

fn base() -> ProcessBaseContext {
    let mut base = ProcessBaseContext::default();
    base.entry_point = 0x40_0000;
    base.page_table_ref = ProcessPageTableRef { process_page_table: 0x5000 };
    base
}

fn process(process_type: TrustedProcessType, parent_id: u64) -> TrustedProcess {
    let mut process = TrustedProcess::default();
    process.process_type = process_type;
    process.parent_id = parent_id;
    process
}

fn request(rcx: u64, rdx: u64) -> RequestParams {
    RequestParams { rcx, rdx, r8: 0x9000, r9: 1 }
}

#[test]
fn the_tables_are_read_and_changed() {
    let mut tables = tables();
    gdt_trustlet_mut(&mut tables).set_tss_entry(66, 77);
    assert_eq!(gdt_trustlet(&tables).entries, [0, 1, 2, 3, 4, 0, 66, 77]);
    idt_trustlet_mut(&mut tables).set_entry(3, IdtEntry::Trap(5));
    assert_eq!(idt_trustlet(&tables).entries[3], IdtEntry::Trap(5));
    assert_eq!(idt_trustlet(&tables).entries[4], IdtEntry::Absent);
    tss_trustlet_mut(&mut tables).stacks[1] = 8;
    assert_eq!(tss_trustlet(&tables).stacks, [0, 8, 0]);
}

#[test]
fn a_descriptor_holds_a_base_and_a_limit() {
    let (low, high) = tss_to_gdt_entry(0x1234_5678_9abc_def0, 0x5_4321);
    assert_eq!(low, 0x9a05_89bc_def0_4321);
    assert_eq!(high, 0x1234_5678);
    assert_eq!(tss_to_gdt_entry(0, 0x68), (0x0000_8900_0000_0068, 0));
}

#[test]
fn exceptions_reach_the_monitor() {
    let mut vmsa = guest();
    let mut tables = tables();
    let mut tss = X86Tss { stacks: [1, 2, 3] };
    let mut effects: Vec<Effect> = Vec::new();
    let page_table = ProcessPageTableRef { process_page_table: 0x5000 };
    setup_exceptions(
        &mut vmsa,
        &page_table,
        &mut tables,
        &mut tss,
        &addresses(),
        &layout(),
        &mut effects,
    );
    assert_eq!(vmsa.cr4, 0x40_0020);
    assert_eq!(vmsa.cs, VMSASegment { selector: 27, flags: 0xAFB, limit: u32::MAX, base: 0 });
    let data = VMSASegment { selector: 35, flags: 0xCF3, limit: u32::MAX, base: 0 };
    assert_eq!([vmsa.ds, vmsa.es, vmsa.fs, vmsa.ss], [data; 4]);
    assert_eq!(vmsa.gs, segment(0x99));
    assert_eq!(vmsa.idt, VMSASegment { selector: 0, flags: 0, limit: 4095, base: 0xc000 });
    assert_eq!(vmsa.gdt, VMSASegment { selector: 0, flags: 0, limit: 63, base: 0xd000 });
    let tss_base = 0x200_0000_2000;
    assert_eq!(vmsa.tr, VMSASegment { selector: 48, flags: 0x89, limit: 0x67, base: tss_base });
    assert_eq!(tss.stacks, [0x200_0000_1000, 2, 3]);
    assert_eq!(tables.idt.entries[14], IdtEntry::Trap(0xa000));
    assert_eq!(tables.idt.entries[13], IdtEntry::Trap(0xa100));
    assert_eq!(tables.idt.entries[8], IdtEntry::Interrupt(0xa200));
    assert_eq!(tables.gdt.entries[6], tss_to_gdt_entry(tss_base, 0x68).0);
    assert_eq!(tables.gdt.entries[7], 0x200);
    let exec = ProcessPageFlags::of(FlagBase::Exec);
    let data = ProcessPageFlags::of(FlagBase::Data);
    let map = |vaddr: u64, paddr: u64, flags: ProcessPageFlags| Effect::MapPage {
        cr3: 0x5000,
        vaddr,
        paddr,
        flags,
    };
    assert_eq!(
        effects,
        vec![
            Effect::ShareWithTrustlet { vaddr: 0xc000 },
            Effect::ShareWithTrustlet { vaddr: 0xa000 },
            Effect::ShareWithTrustlet { vaddr: 0xb000 },
            map(0xc000, 0x1c000, exec),
            map(0xa000, 0x1a000, exec),
            map(0xb000, 0x1b000, data),
            Effect::AddStack { cr3: 0x5000, vaddr: 0x200_0000_0000, pages: 1 },
            map(tss_base, 0x1e000, data),
            Effect::ShareWithTrustlet { vaddr: 0xe000 },
            Effect::ShareWithTrustlet { vaddr: 0xd000 },
            map(0xd000, 0x1d000, data),
        ]
    );
}

#[test]
fn the_tables_need_known_pages() {
    assert!(addresses().are_known(&layout()));
    let mut unknown = addresses();
    unknown.gdt_phys = 0;
    assert!(!unknown.are_known(&layout()));
    let mut unknown = addresses();
    unknown.idt_limit = 0;
    assert!(!unknown.are_known(&layout()));
    let mut high = layout();
    high.kern_stack = u64::MAX - 8191;
    assert!(!addresses().are_known(&high));
}

#[test]
fn a_second_setup_leaves_the_tables_as_they_are() {
    let mut tables = tables();
    let mut effects: Vec<Effect> = Vec::new();
    let page_table = ProcessPageTableRef { process_page_table: 0x5000 };
    let mut seen: Vec<([u64; 8], [IdtEntry; 256])> = Vec::new();
    for _ in 0..2 {
        setup_exceptions(
            &mut guest(),
            &page_table,
            &mut tables,
            &mut X86Tss { stacks: [0; 3] },
            &addresses(),
            &layout(),
            &mut effects,
        );
        seen.push((tables.gdt.entries, tables.idt.entries));
    }
    assert!(seen[0] == seen[1]);
    assert_eq!(effects.len(), 22);
}

#[test]
fn the_descriptor_table_register_is_read() {
    let mut page: [u8; 4096] = [0; 4096];
    page[5] = 0x3f;
    page[7] = 0x80;
    page[8] = 0x12;
    page[14] = 0x01;
    let pointer = DescriptorTablePointer::parse(&page, 5);
    assert_eq!((pointer.limit, pointer.base), (0x3f, 0x0100_0000_0000_1280));
    assert_eq!(pointer.last_entry(), 7);
    assert_eq!(pointer.page_offset(), 0x280);
}

#[test]
fn a_zygote_is_loaded_from_three_files() {
    let files = ZygoteFiles::parse(&[1, 2, 3, 4, 5, 6], 7);
    assert_eq!(files.pal, GuestCopy { addr: 1, size: 4, page_table: 7 });
    assert_eq!(files.manifest, GuestCopy { addr: 2, size: 5, page_table: 7 });
    assert_eq!(files.libos, GuestCopy { addr: 3, size: 6, page_table: 7 });
}

#[test]
fn a_zygote_starts_in_ring_three_with_closed_domains() {
    let mut tables = tables();
    let mut tss = X86Tss { stacks: [0; 3] };
    let mut effects: Vec<Effect> = Vec::new();
    let (zygote, vmsa) = TrustedProcess::zygote(
        base(),
        [1; 64],
        [2; 64],
        [3; 64],
        &resources(),
        &guest(),
        &mut tables,
        &mut tss,
        &addresses(),
        &layout(),
        &mut effects,
    );
    assert_eq!((vmsa.vmpl, vmsa.cpl), (1, 3));
    assert_eq!((vmsa.efer, vmsa.sev_features), (0x1500, 0x5));
    assert_eq!((vmsa.rflags, vmsa.xcr0), (0x46, 0x207));
    assert_eq!((vmsa.cr3, vmsa.rip), (0x5000, 0x40_0000));
    assert_eq!((vmsa.rsp, vmsa.rbp), (0x180_0000_8000, 0x180_0000_8000));
    assert_eq!(vmsa.pkru, 0x5555_5554);
    assert_eq!((vmsa.rax, vmsa.rbx), (1, 2));
    assert_eq!(effects[0], Effect::MakeVmsaPage { paddr: 0x70000 });
    assert_eq!(effects.len(), 12);
    assert_eq!(zygote.process_type, TrustedProcessType::Zygote);
    assert_eq!(zygote.measurements.init_measurement, [1; 64]);
    assert_eq!(zygote.measurements.manifest_measurement, [2; 64]);
    assert_eq!(zygote.measurements.libos_measurement, [3; 64]);
    assert_eq!(zygote.measurements.runtime_measurement, [0; 64]);
    assert_eq!(zygote.context.vmsa, 0x70000);
    assert_eq!(zygote.context.sev_features, 0x5);
    assert_eq!(zygote.context.channel, resources().channel);
    assert_eq!(zygote.context.page_table_ref.process_page_table, 0x5000);
    assert_eq!(zygote.base, base());
}

#[test]
fn a_trustlet_starts_as_its_zygote_with_a_page_table_of_its_own() {
    let mut context = ProcessContext::default();
    let mut effects: Vec<Effect> = Vec::new();
    let page_table = ProcessPageTableRef { process_page_table: 0x6000 };
    let vmsa = context.init(
        base(),
        ProcessMeasurements::default(),
        page_table,
        &resources(),
        &guest(),
        &layout(),
        &mut effects,
    );
    let mut expected = guest();
    expected.cr3 = 0x6000;
    assert_eq!(vmsa, expected);
    assert_eq!((context.vmsa, context.sev_features), (0x70000, 1));
    assert_eq!(context.page_table_ref, page_table);
    assert_eq!(context.base, base());
    assert_eq!(
        effects,
        vec![
            Effect::MakeVmsaPage { paddr: 0x70000 },
            Effect::UnsharePage { cr3: 0x6000, vaddr: 0x200_0000_0000, user_access: false },
        ]
    );
}

#[test]
fn a_function_gets_whole_pages() {
    for (size, room) in [(0u64, 0x1000u64), (1, 0x1000), (0xfff, 0x1000), (0x1000, 0x2000)] {
        let mut effects: Vec<Effect> = Vec::new();
        let mut inherited = process(TrustedProcessType::Trustlet, 3);
        inherited.context.page_table_ref.process_page_table = 0x6000;
        let function = LoadedFunction { range: 0x33000, code: 0x44000, size, digest: [8; 64] };
        let trustlet = TrustedProcess::trustlet(inherited, Some(function), &mut effects);
        assert_eq!(trustlet.base.alloc_range_function, AllocationRange(0x33000, size));
        assert_eq!(trustlet.measurements.function_measurement, [8; 64]);
        assert_eq!(trustlet.parent_id, 3);
        let add = Effect::AddFunction { cr3: 0x6000, code: 0x44000, size: room };
        assert_eq!(effects, vec![add]);
    }
    let mut effects: Vec<Effect> = Vec::new();
    let trustlet =
        TrustedProcess::trustlet(process(TrustedProcessType::Trustlet, 3), None, &mut effects);
    assert_eq!(trustlet.base.alloc_range_function, AllocationRange(0, 0));
    assert_eq!(effects, vec![]);
}

#[test]
fn making_a_process_begins_with_what_the_guest_has() {
    let params = RequestParams { rcx: 48, rdx: 0x7000, r8: 0x9000, r9: 5 };
    let copy = GuestCopy { addr: 0x7000, size: 48, page_table: 0x9000 };
    assert_eq!(
        create_trusted_process(&params, TrustedProcessType::Zygote),
        CreationStep::ReadFiles(copy)
    );
    assert_eq!(
        create_trusted_process(&params, TrustedProcessType::Trustlet),
        CreationStep::Duplicate { zygote: 5, function: Some(copy) }
    );
    let params = RequestParams { rcx: 48, rdx: 0, r8: 0x9000, r9: 5 };
    assert_eq!(
        create_trusted_process(&params, TrustedProcessType::Trustlet),
        CreationStep::Duplicate { zygote: 5, function: None }
    );
}

#[test]
fn processes_take_the_first_free_slot() {
    let mut store = ProcessStore::new();
    store.init(3);
    let mut params = request(0, 0);
    let zygote = process(TrustedProcessType::Zygote, 0);
    assert_eq!(register_zygote(&mut store, zygote, &mut params), ProcessID(0));
    assert_eq!(params, request(0, 0));
    let trustlet = process(TrustedProcessType::Trustlet, 0);
    assert!(register_trustlet(&mut store, trustlet, &mut params).is_ok());
    assert_eq!(params.rcx, 1);
    let zygote = process(TrustedProcessType::Zygote, 0);
    assert_eq!(register_zygote(&mut store, zygote, &mut params), ProcessID(2));
    let trustlet = process(TrustedProcessType::Trustlet, 2);
    assert!(register_trustlet(&mut store, trustlet, &mut params).is_ok());
    assert_eq!(params.rcx, u64::MAX);
    assert!(!store.has_room());
    store.delete(ProcessID(1));
    assert!(store.has_room());
    let trustlet = process(TrustedProcessType::Trustlet, 2);
    assert!(register_trustlet(&mut store, trustlet, &mut params).is_ok());
    assert_eq!(params.rcx, 1);
    assert_eq!(store.get(ProcessID(1)).parent_id, 2);
}

#[test]
fn every_trustlet_keeps_its_zygote() {
    let mut store = ProcessStore::new();
    store.init(16);
    let mut params = request(0, 0);
    let zygote = register_zygote(
        &mut store,
        process(TrustedProcessType::Zygote, 0),
        &mut params,
    );
    for _ in 0..3 {
        let trustlet = process(TrustedProcessType::Trustlet, zygote.0 as u64);
        assert!(register_trustlet(&mut store, trustlet, &mut params).is_ok());
    }
    assert!(delete_trusted_process(&mut store, &request(0, 0)).is_err());
    assert!(delete_trusted_process(&mut store, &request(2, 0)).is_ok());
    let running = store.replace(ProcessID(0), TrustedProcess::default());
    store.replace(ProcessID(0), running);
    for slot in 0..16 {
        let stored = store.get(ProcessID(slot));
        if stored.process_type == TrustedProcessType::Trustlet {
            let parent = store.get(ProcessID(stored.parent_id as usize));
            assert_eq!(parent.process_type, TrustedProcessType::Zygote);
        }
    }
}

#[test]
fn a_trustlet_that_could_not_be_made_is_not_stored() {
    let mut store = ProcessStore::new();
    store.init(1);
    let mut params = request(0, 0);
    let nothing = process(TrustedProcessType::Undefined, 7);
    assert!(register_trustlet(&mut store, nothing, &mut params).is_ok());
    assert_eq!(params, request(u64::MAX, 0));
    assert_eq!(store.get(ProcessID(0)).parent_id, 0);
}

#[test]
fn a_zygote_with_trustlets_is_not_deleted() {
    let mut store = ProcessStore::new();
    store.init(16);
    store.insert(process(TrustedProcessType::Zygote, 0));
    store.insert(process(TrustedProcessType::Zygote, 0));
    store.insert(process(TrustedProcessType::Trustlet, 1));
    let refused = SvsmReqError::RequestError(SvsmResultCode::InvalidParameter);
    assert_eq!(delete_trusted_process(&mut store, &request(1, 0)).err(), Some(refused));
    assert_eq!(store.get(ProcessID(1)).process_type, TrustedProcessType::Zygote);
    let removed = delete_trusted_process(&mut store, &request(2, 0)).unwrap();
    assert_eq!(removed.process_type, TrustedProcessType::Trustlet);
    assert!(delete_trusted_process(&mut store, &request(1, 0)).is_ok());
    assert!(delete_trusted_process(&mut store, &request(0, 0)).is_ok());
    for slot in 0..16 {
        assert_eq!(store.get(ProcessID(slot)).process_type, TrustedProcessType::Undefined);
    }
    assert!(delete_trusted_process(&mut store, &request(9, 0)).is_ok());
}

fn monitor() -> Monitor {
    let mut monitor = Monitor::new(tables(), features(), layout());
    monitor_init(&mut monitor, false, false);
    monitor
}

#[test]
fn only_the_first_setup_counts() {
    let mut monitor = Monitor::new(tables(), features(), layout());
    assert_eq!(monitor.store.len(), 0);
    let actions = monitor_init(&mut monitor, true, false);
    assert!(actions.set_encryption_mask && actions.add_memory);
    assert!(actions.bench_memory && !actions.preallocate);
    assert_eq!(monitor.store.len(), 16);
    monitor.store.insert(process(TrustedProcessType::Zygote, 0));
    let actions = monitor_init(&mut monitor, true, true);
    assert!(!actions.set_encryption_mask && actions.add_memory);
    assert!(!actions.bench_memory && !actions.preallocate);
    let kept = monitor.store.get(ProcessID(0)).process_type;
    assert_eq!(kept, TrustedProcessType::Zygote);
}

#[test]
fn setting_up_fetches_the_report_for_nobody() {
    let mut monitor = monitor();
    let mut params = request(5, 6);
    let step = monitor_call_handler(0, &mut monitor, &mut params).unwrap();
    assert!(matches!(step, MonitorStep::Attest(AttestationStep::FetchReport { keep: true })));
    assert_eq!(params, request(0, 0));
    monitor.reports.store_snp_report(&[1, 2]);
    match monitor_call_handler(0, &mut monitor, &mut params).unwrap() {
        MonitorStep::Attest(step) => {
            assert_eq!(step, AttestationStep::CopyBack { page: 0, report: vec![1, 2] });
        }
        _ => panic!("no report was begun"),
    }
}

#[test]
fn requests_are_told_apart_by_their_number() {
    let mut monitor = monitor();
    monitor.store.insert(process(TrustedProcessType::Zygote, 0));
    let mut second = process(TrustedProcessType::Zygote, 0);
    second.context.vmsa = 0x70000;
    monitor.store.insert(second);
    let mut params = request(0, 1);
    let step = monitor_call_handler(4, &mut monitor, &mut params).unwrap();
    assert!(matches!(step, MonitorStep::Create(CreationStep::ReadFiles(_))));
    let step = monitor_call_handler(8, &mut monitor, &mut params).unwrap();
    let copy = GuestCopy { addr: 0x9000, size: 1, page_table: 1 };
    assert!(matches!(step, MonitorStep::Invoke(read) if read == copy));
    let step = monitor_call_handler(10, &mut monitor, &mut params).unwrap();
    assert!(matches!(step, MonitorStep::Join { first_vmsa: 0, second_vmsa: 0x70000 }));
    let step = monitor_call_handler(30, &mut monitor, &mut params).unwrap();
    assert!(matches!(step, MonitorStep::PublicKey { page: 0 }));
    let step = monitor_call_handler(31, &mut monitor, &mut params).unwrap();
    assert!(matches!(step, MonitorStep::Policy(policy) if policy.size == 1));
    let mut attest = request(0, 0);
    let step = monitor_call_handler(2, &mut monitor, &mut attest).unwrap();
    assert!(matches!(step, MonitorStep::Attest(AttestationStep::FetchReport { keep: true })));
    let mut deletion = request(1, 0);
    let step = monitor_call_handler(5, &mut monitor, &mut deletion).unwrap();
    assert!(matches!(step, MonitorStep::Free(freed) if freed.context.vmsa == 0x70000));
}

#[test]
fn other_numbers_are_refused() {
    let mut monitor = monitor();
    let refused = SvsmReqError::RequestError(SvsmResultCode::UnsupportedCall);
    for number in [1, 3, 6, 7, 9, 11, 29, 32, 99, 102, u32::MAX] {
        let mut params = request(3, 4);
        let result = monitor_call_handler(number, &mut monitor, &mut params);
        assert_eq!(result.err(), Some(refused));
        assert_eq!(params, request(3, 4));
    }
}

#[test]
fn deletion_is_refused_through_the_handler() {
    let mut monitor = monitor();
    monitor.store.insert(process(TrustedProcessType::Zygote, 0));
    monitor.store.insert(process(TrustedProcessType::Trustlet, 0));
    let refused = SvsmReqError::RequestError(SvsmResultCode::InvalidParameter);
    let result = monitor_call_handler(5, &mut monitor, &mut request(0, 0));
    assert_eq!(result.err(), Some(refused));
    let kept = monitor.store.get(ProcessID(0)).process_type;
    assert_eq!(kept, TrustedProcessType::Zygote);
}

#[test]
fn counters_are_reported_and_reset() {
    let mut monitor = monitor();
    let counted =
        Stats { pvalidate: 1, page_faults: 2, cow: 3, cow_pages: 4, non_cow_pages: 5 };
    monitor.stats = counted;
    assert_eq!(get_stat(&monitor), counted);
    let step = monitor_call_handler(100, &mut monitor, &mut request(0, 0)).unwrap();
    assert!(matches!(step, MonitorStep::ReportStats(stats) if stats == counted));
    let step = monitor_call_handler(101, &mut monitor, &mut request(0, 0)).unwrap();
    assert!(matches!(step, MonitorStep::Done));
    let left = Stats { pvalidate: 0, page_faults: 0, cow: 0, cow_pages: 4, non_cow_pages: 5 };
    assert_eq!(monitor.stats, left);
    reset_stat(&mut monitor);
    assert_eq!(monitor.stats, left);
}

#[test]
fn requests_that_make_no_sense_are_told_apart() {
    let mut monitor = monitor();
    assert!(!can_handle(5, &monitor, &request(16, 0)));
    assert!(can_handle(5, &monitor, &request(15, 0)));
    assert!(!can_handle(10, &monitor, &request(0, 16)));
    assert!(!can_handle(31, &monitor, &request(0, 1 << 32)));
    assert!(!can_handle(2, &monitor, &RequestParams { rcx: 0, rdx: 1, r8: 0, r9: 0 }));
    assert!(can_handle(2, &monitor, &RequestParams { rcx: 0, rdx: 2, r8: 0, r9: 0 }));
    monitor.reports.store_snp_report(&[1]);
    assert!(can_handle(2, &monitor, &RequestParams { rcx: 0, rdx: 1, r8: 0, r9: 0 }));
    assert!(!can_handle(2, &monitor, &RequestParams { rcx: 0, rdx: 7, r8: 16, r9: 0 }));
    let step = diff_attestation(&monitor, &request(0x8000, 0)).unwrap();
    assert_eq!(step, AttestationStep::CopyBack { page: 0x8000, report: vec![1] });
}
