use trustlet_monitor::effects::Effect;
use trustlet_monitor::invocation::{
    begin_invocation, can_begin, create_channel, invoke_trustlet, InvocationStep, InvokeData,
};
use trustlet_monitor::layout::MemoryLayout;
use trustlet_monitor::mpk_memory::MpkManagers;
use trustlet_monitor::page::{pgd_index, FlagBase, ProcessPageFlags};
use trustlet_monitor::pal_call::{
    PalSvsmGuestRequestType, TrustletInvocationType, TrustletReturnType,
};
use trustlet_monitor::process::{AllocationRange, ProcessID, ProcessStore, TrustedProcess};
use trustlet_monitor::protocol::{Features, GuestCopy, RequestParams};
use trustlet_monitor::runtime::PALContext;
use trustlet_monitor::stats::Stats;
use trustlet_monitor::vmsa::{VMSASegment, VMSA};

fn registers() -> VMSA {
    let s = VMSASegment { selector: 0, flags: 0, limit: 0, base: 0 };
    VMSA {
        es: s, cs: s, ss: s, ds: s, fs: s, gs: s, gdt: s, idt: s, tr: s,
        vmpl: 1, cpl: 3, efer: 0, cr4: 0, cr3: 0x5000, cr2: 0, rflags: 0, rip: 0x40_0000,
        rsp: 0, rbp: 0, rax: 0, rbx: 0, rcx: 0x30f00, rdx: 0, rsi: 0, rdi: 0, r8: 0, r9: 0,
        r10: 0, r11: 0, r12: 0, r13: 0, r14: 0, r15: 0, sev_features: 0, xcr0: 0, pkru: 0,
    }
}

fn layout() -> MemoryLayout {
    MemoryLayout {
        allocation_range: 0x300_0000_0000,
        manifest: 0x80_0000_0000,
        libos: 0x100_0000_0000,
        stack: 0x180_0000_0000,
        kern_stack: 0x200_0000_0000,
        input: 0x280_0000_0000,
        output: 0x380_0000_0000,
        tss_limit: 0x68,
    }
}

fn no_stats() -> Stats {
    Stats { pvalidate: 0, page_faults: 0, cow: 0, cow_pages: 0, non_cow_pages: 0 }
}

fn begin(words: [u64; 7], boottime: bool, target: u64) -> (PALContext, InvocationStep) {
    let mut process = TrustedProcess::default();
    process.pf_target_vaddr = target;
    begin_invocation(
        InvokeData::parse(&words),
        0x9000,
        process,
        registers(),
        MpkManagers::new(),
        no_stats(),
        Features { boottime, no_cow: false, stat: false },
        layout(),
    )
}

#[test]
fn the_arguments_of_an_invocation_are_read_from_the_guest() {
    let params = RequestParams { rcx: 3, rdx: 0x9000, r8: 0x7000, r9: 56 };
    assert_eq!(
        invoke_trustlet(&params),
        GuestCopy { addr: 0x7000, size: 56, page_table: 0x9000 }
    );
}

#[test]
fn seven_words_describe_an_invocation() {
    let data = InvokeData::parse(&[2, 11, 12, 13, 14, 15, 16, 99]);
    assert_eq!(
        data,
        InvokeData {
            invocation_type: TrustletInvocationType::Open,
            function_arg: 11,
            function_arg_size: 12,
            result_addr: 13,
            result_size: 14,
            invocation_arg_guest_vaddr: 15,
            invocation_arg_size: 16,
        }
    );
}

#[test]
fn numbers_stand_for_reasons_and_answers() {
    assert_eq!(TrustletInvocationType::from_code(0), Some(TrustletInvocationType::Normal));
    assert_eq!(TrustletInvocationType::from_code(1), Some(TrustletInvocationType::FileAttr));
    assert_eq!(TrustletInvocationType::from_code(3), Some(TrustletInvocationType::Read));
    assert_eq!(TrustletInvocationType::from_code(4), Some(TrustletInvocationType::Mmap));
    assert_eq!(TrustletInvocationType::from_code(5), None);
    assert_eq!(PalSvsmGuestRequestType::from_code(0), Some(PalSvsmGuestRequestType::FileAttr));
    assert_eq!(PalSvsmGuestRequestType::from_code(1), Some(PalSvsmGuestRequestType::Open));
    assert_eq!(PalSvsmGuestRequestType::from_code(2), Some(PalSvsmGuestRequestType::Read));
    assert_eq!(PalSvsmGuestRequestType::from_code(3), None);
    assert_eq!(TrustletReturnType::Exit.code(), 0);
    assert_eq!(TrustletReturnType::GetResult.code(), 1);
    assert_eq!(TrustletReturnType::Error.code(), 2);
    assert_eq!(TrustletReturnType::Mmap.code(), 6);
}

#[test]
fn an_input_is_copied_and_measured() {
    let (mut context, step) = begin([0, 0x7000, 100, 0x8000, 200, 0, 0], false, 0);
    assert_eq!(step, InvocationStep::MeasureInput);
    assert_eq!(
        context.take_effects(),
        vec![
            Effect::InflateInput { cr3: 0x5000, size: 100 },
            Effect::InflateOutput { cr3: 0x5000, size: 200 },
            Effect::CopyInput { guest_page_table: 0x9000, guest_vaddr: 0x7000, size: 100 },
        ]
    );
    assert_eq!(context.return_value, 2);
    assert_eq!((context.result_addr, context.result_size), (0x8000, 200));
    let header = [16u8, 0, 0, 0, 6, 0, 0, 0, 2, 0, 0, 0];
    let step = context.input_measured([9; 64], &header);
    let start = 0x300_0000_0000 + 20 + 8;
    assert_eq!(step, InvocationStep::MeasureModule { start, size: 16 });
    assert_eq!(context.process.measurements.input_data, [9; 64]);
    context.module_measured([8; 64]);
    assert_eq!(context.process.measurements.wasm_module_count, 1);
    assert_eq!(context.process.measurements.wasm_module_measurements[0], [8; 64]);
}

#[test]
fn an_input_without_a_module_runs_at_once() {
    let (mut context, _) = begin([0, 0x7000, 1, 0x8000, 200, 0, 0], false, 0);
    assert_eq!(context.take_effects().len(), 2);
    assert_eq!(context.input_measured([9; 64], &[0; 12]), InvocationStep::Run);
    assert_eq!(context.process.measurements.wasm_module_count, 0);
}

#[test]
fn nothing_is_measured_at_boot() {
    let (mut context, step) = begin([0, 0x7000, 2, 0x8000, 200, 0, 0], true, 0);
    assert_eq!(step, InvocationStep::Run);
    assert_eq!(context.take_effects().len(), 3);
}

#[test]
fn an_answer_of_the_guest_goes_to_the_trustlet() {
    for reason in 1..4u64 {
        let (mut context, step) = begin([reason, 0, 0, 0, 0, 0xa000, 0x100], false, 0);
        assert_eq!(step, InvocationStep::Run);
        assert_eq!(
            context.take_effects(),
            vec![Effect::CopyFromGuest {
                cr3: 0x5000,
                vaddr: 0x30f00,
                guest_page_table: 0x9000,
                guest_vaddr: 0xa000,
                size: 0x100,
            }]
        );
    }
}

#[test]
fn an_invocation_fits_what_the_trustlet_waits_for() {
    let mut process = TrustedProcess::default();
    let fits = |words: [u64; 7], process: &TrustedProcess| {
        can_begin(&InvokeData::parse(&words), process, &registers())
    };
    assert!(fits([0, 0, 0, 0, 0, 0, u64::MAX], &process));
    assert!(fits([1, 0, 0, 0, 0, 0, 0x100], &process));
    assert!(!fits([2, 0, 0, 0, 0, 0, 0x101], &process));
    assert!(!fits([3, 0, 0, 0, 0, 0, u64::MAX], &process));
    assert!(!fits([4, 0, 0, 0, 0, 0, 0], &process));
    process.pf_target_vaddr = 0x1000;
    assert!(fits([4, 0, 0, 0, 0, 0, 0], &process));
}

#[test]
fn a_page_of_a_file_goes_to_where_it_was_missed() {
    let (mut context, step) = begin([4, 0, 0, 0, 0, 0xa000, 40], false, 0x21000);
    assert_eq!(step, InvocationStep::Run);
    assert_eq!(
        context.take_effects(),
        vec![Effect::LoadGuestPage {
            guest_page_table: 0x9000,
            guest_vaddr: 0xa000,
            word: 4,
            cr3: 0x5000,
            dst: 0x21000,
            flags: ProcessPageFlags::of(FlagBase::Reuse),
        }]
    );
}

#[test]
fn the_answer_of_a_trustlet_is_in_rcx() {
    let mut store = ProcessStore::new();
    store.init(2);
    let mut params = RequestParams { rcx: 1, rdx: 2, r8: 3, r9: 4 };
    let (mut context, _) = begin([0, 0, 0, 0, 0, 0, 0], true, 0x4000);
    context.return_value = 6;
    context.stats.cow = 5;
    context.vmsa.rax = 77;
    let done = context.finish(&mut store, ProcessID(1), &mut params);
    assert_eq!(params, RequestParams { rcx: 6, rdx: 2, r8: 3, r9: 4 });
    assert_eq!(store.get(ProcessID(1)).pf_target_vaddr, 0x4000);
    assert_eq!(store.get(ProcessID(0)).pf_target_vaddr, 0);
    assert_eq!(done.vmsa.rax, 77);
    assert_eq!(done.stats.cow, 5);
    assert_eq!(done.effects.len(), 2);
}

#[test]
fn a_channel_joins_an_output_to_an_input() {
    let mut store = ProcessStore::new();
    store.init(3);
    let mut first = TrustedProcess::default();
    first.context.channel.output = AllocationRange(0x77000, 2);
    let mut second = TrustedProcess::default();
    second.context.channel.output = AllocationRange(0x88000, 1);
    store.replace(ProcessID(0), first);
    store.replace(ProcessID(2), second);
    let mut pgd1: [u64; 512] = [0; 512];
    let mut pgd2: [u64; 512] = [1; 512];
    pgd1[pgd_index(layout().output)] = 0xabc;
    let params = RequestParams { rcx: 0, rdx: 2, r8: 0, r9: 0 };
    assert!(create_channel(&mut store, &params, &pgd1, &mut pgd2, &layout()).is_ok());
    assert_eq!(pgd_index(layout().output), 7);
    assert_eq!(pgd2[pgd_index(layout().input)], 0xabc);
    assert_eq!(pgd2.iter().filter(|entry| **entry == 1).count(), 511);
    let second = store.get(ProcessID(2));
    assert_eq!(second.context.channel.input, AllocationRange(0x77000, 2));
    assert_eq!(second.context.channel.output, AllocationRange(0x88000, 1));
    assert_eq!(store.get(ProcessID(0)).context.channel.input, AllocationRange(0, 0));
}
