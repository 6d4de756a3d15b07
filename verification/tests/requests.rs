use trustlet_monitor::effects::{Effect, Note};
use trustlet_monitor::layout::MemoryLayout;
use trustlet_monitor::mpk_memory::{get_allocated_pkey_count, MpkManagers};
use trustlet_monitor::page::{
    FlagBase, ProcessPageFlags, ACCESSED, NO_EXECUTE, PRESENT, USER_ACCESSIBLE, WRITABLE,
};
use trustlet_monitor::pal_call::{pal_call, PalCall};
use trustlet_monitor::pal_state::{CpuidResult, Outcome};
use trustlet_monitor::pkru::INITIAL_PKRU;
use trustlet_monitor::process::TrustedProcess;
use trustlet_monitor::protocol::Features;
use trustlet_monitor::runtime::{early_invoke, PALContext, ProcessRuntime};
use trustlet_monitor::stats::Stats;
use trustlet_monitor::vmsa::{VMSASegment, VMSA};

const CR3: u64 = 0x5000;
const LIBOS: u64 = 0x100_0000_0000;

fn segment() -> VMSASegment {
    VMSASegment { selector: 0, flags: 0, limit: 0, base: 0 }
}

fn registers() -> VMSA {
    VMSA {
        es: segment(),
        cs: segment(),
        ss: segment(),
        ds: segment(),
        fs: segment(),
        gs: segment(),
        gdt: segment(),
        idt: segment(),
        tr: segment(),
        vmpl: 1,
        cpl: 3,
        efer: 0,
        cr4: 0,
        cr3: CR3,
        cr2: 0,
        rflags: 0,
        rip: 0x40_0000,
        rsp: 0x7000_0018,
        rbp: 0,
        rax: 0,
        rbx: 0,
        rcx: 0,
        rdx: 0,
        rsi: 0,
        rdi: 0,
        r8: 0,
        r9: 0,
        r10: 0,
        r11: 0,
        r12: 0,
        r13: 0,
        r14: 0,
        r15: 0,
        sev_features: 0,
        xcr0: 0,
        pkru: INITIAL_PKRU,
    }
}

fn features() -> Features {
    Features { boottime: false, no_cow: false, stat: false }
}

fn layout() -> MemoryLayout {
    MemoryLayout {
        allocation_range: 0x300_0000_0000,
        manifest: 0x80_0000_0000,
        libos: LIBOS,
        stack: 0x180_0000_0000,
        kern_stack: 0x200_0000_0000,
        input: 0x280_0000_0000,
        output: 0x380_0000_0000,
        tss_limit: 0x68,
    }
}

fn context() -> PALContext {
    early_invoke(
        TrustedProcess::default(),
        registers(),
        MpkManagers::new(),
        Stats { pvalidate: 0, page_faults: 0, cow: 0, cow_pages: 0, non_cow_pages: 0 },
        features(),
        layout(),
    )
}

fn serve(context: &mut PALContext, rax: u64) -> Outcome {
    context.vmsa.rax = rax;
    assert!(context.can_serve_request());
    context.handle_process_request()
}

fn refuse(context: &mut PALContext, rax: u64) {
    context.vmsa.rax = rax;
    assert!(!context.can_serve_request());
}

#[test]
fn codes_stand_for_requests() {
    assert_eq!(pal_call(0), PalCall::Cpuid);
    assert_eq!(pal_call(0x24), PalCall::Cpuid);
    assert_eq!(pal_call(0x25), PalCall::Unknown);
    assert_eq!(pal_call(0x8000_0000), PalCall::Cpuid);
    assert_eq!(pal_call(0x8000_0021), PalCall::Cpuid);
    assert_eq!(pal_call(0x8000_0022), PalCall::Unknown);
    assert_eq!(pal_call(99), PalCall::Digit);
    assert_eq!(pal_call(100), PalCall::PrintInfo);
    assert_eq!(pal_call(0x4FFF_FFFF), PalCall::Fail);
    assert_eq!(pal_call(0x4FFF_FFFB), PalCall::MapFile);
    assert_eq!(pal_call(0x4FFF_FFED), PalCall::MpkQueryPkru);
    assert_eq!(pal_call(0x4FFF_FFEC), PalCall::Unknown);
    assert_eq!(pal_call(0x4EFF_FFFF), PalCall::Exception);
    assert_eq!(pal_call(0x4EFF_FFFE), PalCall::DoubleFault);
    assert_eq!(pal_call(0x4FFF_FFA3), PalCall::InflateChannel);
}

#[test]
fn a_request_moves_behind_the_instruction() {
    let mut context = context();
    assert_eq!(serve(&mut context, 0x4FFF_FFF5), Outcome::Resume);
    assert_eq!(context.vmsa.rip, 0x40_0002);
    assert_eq!(context.take_effects(), vec![]);
    context.vmsa.rip = u64::MAX - 1;
    refuse(&mut context, 0x4FFF_FFF5);
}

#[test]
fn an_unknown_request_ends_the_run() {
    let mut context = context();
    assert_eq!(serve(&mut context, 0x1234), Outcome::Leave);
    let note = Note::UnknownRequest { code: 0x1234, rip: 0x40_0000 };
    assert_eq!(context.take_effects(), vec![Effect::Report(note)]);
    assert_eq!(context.return_value, 0);
}

#[test]
fn a_leaf_without_subleaves_has_subleaf_zero() {
    let mut context = context();
    context.vmsa.rcx = 0x9_0000_0003;
    assert_eq!(serve(&mut context, 1), Outcome::Cpuid { eax: 1, ecx: 0 });
    assert_eq!(serve(&mut context, 4), Outcome::Cpuid { eax: 4, ecx: 3 });
    let extended = Outcome::Cpuid { eax: 0x8000_001d, ecx: 3 };
    assert_eq!(serve(&mut context, 0x8000_001d), extended);
    assert_eq!(serve(&mut context, 0x24), Outcome::Cpuid { eax: 0x24, ecx: 3 });
    assert_eq!(serve(&mut context, 0x23), Outcome::Cpuid { eax: 0x23, ecx: 0 });
}

#[test]
fn the_answer_to_a_cpuid_fills_four_registers() {
    let mut context = context();
    let answer = CpuidResult { eax: 11, ebx: 12, ecx: 13, edx: 14 };
    assert_eq!(serve(&mut context, 0), Outcome::Cpuid { eax: 0, ecx: 0 });
    assert_eq!(context.cpuid_answered(Some(answer)), Outcome::Resume);
    let vmsa = context.vmsa;
    assert_eq!((vmsa.rax, vmsa.rbx, vmsa.rcx, vmsa.rdx), (11, 12, 13, 14));
}

#[test]
fn leaf_one_is_answered_like_every_other() {
    let mut context = context();
    let answer = CpuidResult { eax: 1, ebx: 2, ecx: 4, edx: 8 };
    context.vmsa.rcx = 9;
    assert_eq!(serve(&mut context, 1), Outcome::Cpuid { eax: 1, ecx: 0 });
    assert_eq!(context.cpuid_answered(Some(answer)), Outcome::Resume);
    let vmsa = context.vmsa;
    assert_eq!((vmsa.rax, vmsa.rbx, vmsa.rcx, vmsa.rdx), (1, 2, 4, 8));
}

#[test]
fn a_leaf_without_an_answer_is_zero() {
    for leaf in [1u64, 2] {
        let mut context = context();
        context.vmsa.rbx = 5;
        context.vmsa.rcx = 6;
        context.vmsa.rdx = 7;
        serve(&mut context, leaf);
        assert_eq!(context.cpuid_answered(None), Outcome::Resume);
        let vmsa = context.vmsa;
        assert_eq!((vmsa.rax, vmsa.rbx, vmsa.rcx, vmsa.rdx), (0, 0, 0, 0));
    }
}

#[test]
fn a_failure_and_an_exit_end_the_run() {
    let mut context = context();
    context.vmsa.rbx = 0x12345;
    context.vmsa.rcx = 7;
    context.return_value = 2;
    assert_eq!(serve(&mut context, 0x4FFF_FFFF), Outcome::Leave);
    assert_eq!(context.return_value, 2);
    let note = Note::PalError { cr3: CR3, page: 0x12000, offset: 0x345, errno: 7 };
    assert_eq!(context.take_effects(), vec![Effect::Report(note)]);
    assert_eq!(serve(&mut context, 0x4FFF_FFFE), Outcome::Leave);
    assert_eq!(context.return_value, 0);
    assert_eq!(context.take_effects(), vec![Effect::Report(Note::Exited { code: 0x12345 })]);
    context.return_value = 2;
    assert_eq!(serve(&mut context, 0x4FFF_FFA1), Outcome::Leave);
    assert_eq!(context.return_value, 2);
    assert_eq!(context.take_effects(), vec![]);
}

fn print(context: &mut PALContext, text: &[u8]) {
    for c in text {
        context.vmsa.rbx = *c as u64;
        assert_eq!(serve(context, 0x4FFF_FFFD), Outcome::Resume);
    }
}

#[test]
fn a_message_ends_with_a_zero() {
    let mut context = context();
    print(&mut context, b"hello");
    assert_eq!(context.take_effects(), vec![]);
    print(&mut context, &[0]);
    let mut text: [u8; 256] = [0; 256];
    text[..5].copy_from_slice(b"hello");
    let note = Note::DebugMessage { text, partial: false };
    assert_eq!(context.take_effects(), vec![Effect::Report(note)]);
    assert_eq!(context.string_pos, 0);
    assert_eq!(context.string_buf, [0; 256]);
}

#[test]
fn a_long_message_comes_in_parts() {
    let mut context = context();
    print(&mut context, &[b'a'; 255]);
    assert_eq!(context.take_effects(), vec![]);
    print(&mut context, b"b");
    let mut text: [u8; 256] = [b'a'; 256];
    text[255] = 0;
    let note = Note::DebugMessage { text, partial: true };
    assert_eq!(context.take_effects(), vec![Effect::Report(note)]);
    assert_eq!(context.string_pos, 0);
    print(&mut context, b"c\0");
    let mut rest: [u8; 256] = [0; 256];
    rest[0] = b'c';
    let note = Note::DebugMessage { text: rest, partial: false };
    assert_eq!(context.take_effects(), vec![Effect::Report(note)]);
}

#[test]
fn fresh_memory_is_mapped() {
    let mut context = context();
    context.vmsa.rbx = 0x10000;
    context.vmsa.rcx = 0x3000;
    context.vmsa.rdx = 0x6;
    assert_eq!(serve(&mut context, 0x4FFF_FFFC), Outcome::Resume);
    assert_eq!(context.vmsa.rcx, 0);
    let flags = ProcessPageFlags::of(FlagBase::Data).with(WRITABLE).without(NO_EXECUTE);
    assert_eq!(
        context.take_effects(),
        vec![Effect::AddPages { cr3: CR3, vaddr: 0x10000, pages: 3, flags }]
    );
    context.vmsa.rcx = 0x1000;
    context.vmsa.rdx = 0x1;
    serve(&mut context, 0x4FFF_FFFC);
    let flags = ProcessPageFlags::of(FlagBase::Data);
    assert_eq!(
        context.take_effects(),
        vec![Effect::AddPages { cr3: CR3, vaddr: 0x10000, pages: 1, flags }]
    );
}

#[test]
fn memory_comes_in_whole_pages() {
    for rax in [0x4FFF_FFFCu64, 0x4FFF_FFF6] {
        for (addr, size) in [(0x10001u64, 0x1000u64), (0x10000, 0x1001), (0x10001, 1)] {
            let mut context = context();
            context.vmsa.rbx = addr;
            context.vmsa.rcx = size;
            assert_eq!(serve(&mut context, rax), Outcome::Resume);
            assert_eq!(context.vmsa.rcx, u64::MAX);
            assert_eq!(context.take_effects(), vec![]);
        }
    }
}

#[test]
fn freed_memory_is_unmapped() {
    let mut context = context();
    context.vmsa.rbx = 0x10000;
    context.vmsa.rcx = 0x2000;
    assert_eq!(serve(&mut context, 0x4FFF_FFF6), Outcome::Resume);
    assert_eq!(context.vmsa.rcx, 0x2000);
    assert_eq!(
        context.take_effects(),
        vec![Effect::RemovePages { cr3: CR3, vaddr: 0x10000, pages: 2 }]
    );
}

fn map(context: &mut PALContext, addr: u64, size: u64, prot: u64, fd: u64, offset: u64) {
    context.vmsa.rbx = addr;
    context.vmsa.rcx = size;
    context.vmsa.rdx = prot;
    context.vmsa.r8 = fd;
    context.vmsa.r9 = offset;
}

#[test]
fn a_file_is_reserved_and_remembered() {
    let mut context = context();
    map(&mut context, 0x20000, 0x2000, 0x3, 9, 0x4000);
    assert_eq!(serve(&mut context, 0x4FFF_FFFB), Outcome::Resume);
    assert_eq!(context.vmsa.rcx, 0);
    let flags = ProcessPageFlags::of(FlagBase::Empty)
        .with(USER_ACCESSIBLE | ACCESSED)
        .with(WRITABLE)
        .with(NO_EXECUTE);
    assert_eq!(
        context.take_effects(),
        vec![
            Effect::MapPage { cr3: CR3, vaddr: 0x20000, paddr: 0, flags },
            Effect::MapPage { cr3: CR3, vaddr: 0x21000, paddr: 0, flags },
        ]
    );
    assert_eq!(flags.bits(0), USER_ACCESSIBLE | ACCESSED | WRITABLE | NO_EXECUTE);
    let info = context.process.mmap_manager.lookup(0x21fff).unwrap();
    assert_eq!((info.fd, info.offset, info.addr, info.size), (9, 0x4000, 0x20000, 0x2000));
}

#[test]
fn pages_of_the_library_operating_system_are_shared() {
    let mut context = context();
    map(&mut context, 0x20000, 0x2000, 0x4, u64::MAX - 1, 0x3000);
    assert_eq!(serve(&mut context, 0x4FFF_FFFB), Outcome::Resume);
    assert_eq!(context.vmsa.rcx, 0);
    let flags =
        ProcessPageFlags::of(FlagBase::Empty).with(USER_ACCESSIBLE | ACCESSED).with(PRESENT);
    assert_eq!(
        context.take_effects(),
        vec![
            Effect::AliasPage { cr3: CR3, src: LIBOS + 0x3000, dst: 0x20000, flags },
            Effect::AliasPage { cr3: CR3, src: LIBOS + 0x4000, dst: 0x21000, flags },
        ]
    );
    assert!(context.process.mmap_manager.lookup(0x20000).is_none());
}

#[test]
fn pages_of_the_library_operating_system_are_copied() {
    let mut context = context();
    map(&mut context, 0x20000, 0x1000, 0xa, u64::MAX - 1, 0);
    assert_eq!(serve(&mut context, 0x4FFF_FFFB), Outcome::Resume);
    let effects = context.take_effects();
    assert_eq!(effects.len(), 1);
    match effects[0] {
        Effect::CopyPage { cr3, src, dst, flags } => {
            assert_eq!((cr3, src, dst), (CR3, LIBOS, 0x20000));
            let expected = USER_ACCESSIBLE | ACCESSED | WRITABLE | NO_EXECUTE | PRESENT;
            assert_eq!(flags.bits(0), expected);
        }
        _ => panic!("a page was not copied"),
    }
}

#[test]
fn a_private_file_mapping_may_not_be_written() {
    let mut context = context();
    map(&mut context, 0x20000, 0x1000, 0xe, 3, 0);
    serve(&mut context, 0x4FFF_FFFB);
    match context.take_effects()[0] {
        Effect::MapPage { flags, .. } => {
            assert_eq!(flags.bits(0), USER_ACCESSIBLE | ACCESSED);
        }
        _ => panic!("a page was not reserved"),
    }
}

#[test]
fn a_misaligned_mapping_fails() {
    let cases = [(0x20001u64, 0x1000u64, 0u64), (0x20000, 0x1001, 0), (0x20000, 0x1000, 1)];
    for (addr, size, offset) in cases {
        let mut context = context();
        map(&mut context, addr, size, 1, 3, offset);
        assert_eq!(serve(&mut context, 0x4FFF_FFFB), Outcome::Leave);
        assert_eq!(context.vmsa.rcx, u64::MAX);
        assert_eq!(context.take_effects(), vec![]);
        assert!(context.process.mmap_manager.lookup(0x20000).is_none());
    }
}

#[test]
fn a_mapping_lies_in_the_address_space() {
    let mut context = context();
    map(&mut context, u64::MAX - 0xfff, 0x1000, 1, 3, 0);
    refuse(&mut context, 0x4FFF_FFFB);
    map(&mut context, u64::MAX - 0xfff, 0x1000, 1, u64::MAX - 1, 0);
    assert_eq!(serve(&mut context, 0x4FFF_FFFB), Outcome::Resume);
    map(&mut context, u64::MAX - 0xfff, 0x2000, 1, u64::MAX - 1, 0);
    refuse(&mut context, 0x4FFF_FFFB);
    map(&mut context, 0x1000, 0x1000, 1, u64::MAX - 1, u64::MAX - 0xfff);
    refuse(&mut context, 0x4FFF_FFFB);
    map(&mut context, u64::MAX - 0xfff, 0, 1, u64::MAX - 1, u64::MAX - 0xfff);
    assert_eq!(serve(&mut context, 0x4FFF_FFFB), Outcome::Resume);
}

#[test]
fn the_thread_control_block_is_the_base_of_gs() {
    let mut context = context();
    context.vmsa.rbx = 0xabc0;
    assert_eq!(serve(&mut context, 0x4FFF_FFFA), Outcome::Resume);
    assert_eq!(context.vmsa.gs.base, 0xabc0);
}

#[test]
fn every_page_that_is_touched_is_protected() {
    let mut context = context();
    context.vmsa.rbx = 0x30ff8;
    context.vmsa.rcx = 16;
    context.vmsa.rdx = 0x5;
    assert_eq!(serve(&mut context, 0x4FFF_FFF9), Outcome::Resume);
    assert_eq!(context.vmsa.rcx, 0);
    let change = |vaddr: u64| Effect::ChangeAttr {
        cr3: CR3,
        vaddr,
        readable: true,
        writable: false,
        executable: true,
        writecopy: false,
    };
    assert_eq!(context.take_effects(), vec![change(0x30000), change(0x31000)]);
    context.vmsa.rbx = 0x30000;
    context.vmsa.rcx = 0;
    serve(&mut context, 0x4FFF_FFF9);
    assert_eq!(context.take_effects(), vec![]);
    context.vmsa.rcx = u64::MAX;
    refuse(&mut context, 0x4FFF_FFF9);
}

#[test]
fn memory_is_printed_where_its_size_is_a_multiple_of_eight() {
    let mut context = context();
    context.vmsa.rbx = 0x30ff0;
    context.vmsa.rcx = 16;
    assert_eq!(serve(&mut context, 100), Outcome::Resume);
    let memory = |len: u64, within_page: bool| {
        let (page, offset) = (0x30000, 0xff0);
        Effect::Report(Note::Memory { cr3: CR3, page, offset, len, within_page })
    };
    assert_eq!(context.take_effects(), vec![memory(16, true)]);
    context.vmsa.rcx = 24;
    serve(&mut context, 100);
    assert_eq!(context.take_effects(), vec![memory(24, false)]);
    context.vmsa.rcx = 12;
    refuse(&mut context, 100);
}

#[test]
fn a_digit_is_printed() {
    let mut context = context();
    context.vmsa.rbx = 9;
    assert_eq!(serve(&mut context, 99), Outcome::Resume);
    assert_eq!(context.take_effects(), vec![Effect::Report(Note::Digit { value: 9 })]);
    context.vmsa.rbx = 0x5_0000_0003;
    assert_eq!(serve(&mut context, 99), Outcome::Resume);
    let note = Note::Digit { value: 0x5_0000_0003 };
    assert_eq!(context.take_effects(), vec![Effect::Report(note)]);
    context.vmsa.rbx = 10;
    refuse(&mut context, 99);
}

#[test]
fn a_request_to_the_guest_lies_within_a_page() {
    let mut context = context();
    context.guest_page_table = 0x9000;
    context.invocation_arg_guest_vaddr = 0x7000;
    context.invocation_arg_size = 0x1000;
    for (rbx, answer) in [(0u64, 3u64), (1, 4), (2, 5)] {
        context.vmsa.rbx = rbx;
        context.vmsa.rcx = 0x30f00;
        context.vmsa.rdx = 0x100;
        assert_eq!(serve(&mut context, 0x4FFF_FFF7), Outcome::Leave);
        assert_eq!(context.return_value, answer);
        assert_eq!(
            context.take_effects(),
            vec![Effect::CopyToGuest {
                cr3: CR3,
                vaddr: 0x30f00,
                guest_page_table: 0x9000,
                guest_vaddr: 0x7000,
                size: 0x100,
            }]
        );
    }
    context.vmsa.rdx = 0x101;
    refuse(&mut context, 0x4FFF_FFF7);
    context.vmsa.rdx = 0x100;
    context.invocation_arg_size = 0xff;
    refuse(&mut context, 0x4FFF_FFF7);
    context.invocation_arg_size = 0x1000;
    context.vmsa.rbx = 3;
    refuse(&mut context, 0x4FFF_FFF7);
}

#[test]
fn a_zygote_is_finalized_where_pages_are_shared() {
    let mut context = context();
    assert_eq!(serve(&mut context, 0x4FFF_FFF4), Outcome::Leave);
    assert_eq!(context.take_effects(), vec![Effect::FinalizePages { cr3: CR3 }]);
    context.features.no_cow = true;
    assert_eq!(serve(&mut context, 0x4FFF_FFF4), Outcome::Resume);
    assert_eq!(context.take_effects(), vec![]);
}

#[test]
fn the_output_is_collected_and_measured() {
    let mut context = context();
    context.result_addr = 0x8000;
    context.result_size = 0x200;
    context.guest_page_table = 0x9000;
    context.return_value = 2;
    context.process.measurements.record_module([1; 64]);
    context.process.measurements.record_module([2; 64]);
    let collect = Outcome::CollectResult {
        env_offset: 8,
        guest_page_table: 0x9000,
        guest_vaddr: 0x8000,
        size: 0x200,
    };
    assert_eq!(serve(&mut context, 0x4FFF_FFF8), collect);
    assert_eq!(context.return_value, 2);
    assert_eq!(context.result_collected([3; 64], [4; 64]), Outcome::Leave);
    assert_eq!(context.return_value, 0);
    assert_eq!(context.process.measurements.env_hash[1], [3; 64]);
    assert_eq!(context.process.measurements.env_hash[0], [0; 64]);
    assert_eq!(context.process.measurements.output_data, [4; 64]);
    assert_eq!(context.take_effects(), vec![]);
}

#[test]
fn the_output_is_copied_at_boot_time() {
    let mut context = context();
    context.features.boottime = true;
    context.features.stat = true;
    context.return_value = 2;
    context.result_addr = 0x8000;
    context.result_size = 0x200;
    context.guest_page_table = 0x9000;
    assert_eq!(serve(&mut context, 0x4FFF_FFF8), Outcome::Leave);
    assert_eq!(context.return_value, 0);
    assert_eq!(
        context.take_effects(),
        vec![
            Effect::CopyOutput { guest_page_table: 0x9000, guest_vaddr: 0x8000, size: 0x200 },
            Effect::CountPages { cr3: CR3 },
        ]
    );
}

#[test]
fn channels_grow() {
    let mut context = context();
    context.vmsa.rdx = 0x4000;
    context.vmsa.rcx = 0;
    assert_eq!(serve(&mut context, 0x4FFF_FFA3), Outcome::Resume);
    assert_eq!(context.take_effects(), vec![Effect::InflateInput { cr3: CR3, size: 0x4000 }]);
    context.vmsa.rcx = 1;
    serve(&mut context, 0x4FFF_FFA3);
    assert_eq!(context.take_effects(), vec![Effect::InflateOutput { cr3: CR3, size: 0x4000 }]);
    context.vmsa.rcx = 2;
    assert_eq!(serve(&mut context, 0x4FFF_FFA3), Outcome::Resume);
    assert_eq!(context.take_effects(), vec![]);
}

#[test]
fn marks_are_written_to_the_port() {
    let mut context = context();
    context.vmsa.rcx = 77;
    assert_eq!(serve(&mut context, 0x4FFF_FFA0), Outcome::Resume);
    assert_eq!(serve(&mut context, 0x4FFF_FFA2), Outcome::Resume);
    assert_eq!(
        context.take_effects(),
        vec![Effect::Outb { value: 110 }, Effect::Outb { value: 77 }]
    );
}

#[test]
fn keys_are_handed_out_to_a_trustlet() {
    let mut context = context();
    assert_eq!(serve(&mut context, 0x4FFF_FFF1), Outcome::Resume);
    assert_eq!((context.vmsa.rax, context.vmsa.rcx), (1, 0));
    context.vmsa.rbx = 0x40000;
    context.vmsa.rcx = 0x2000;
    context.vmsa.rdx = 1;
    assert_eq!(serve(&mut context, 0x4FFF_FFF3), Outcome::Resume);
    assert_eq!(context.vmsa.rcx, 0);
    let flags = ProcessPageFlags::of(FlagBase::DataWithPkey(1));
    assert_eq!(
        context.take_effects(),
        vec![Effect::AddPages { cr3: CR3, vaddr: 0x40000, pages: 2, flags }]
    );
    context.vmsa.rcx = 0x1000;
    serve(&mut context, 0x4FFF_FFF3);
    assert_eq!(context.vmsa.rcx, 3);
    context.vmsa.rcx = 0x1000;
    serve(&mut context, 0x4FFF_FFF2);
    assert_eq!(context.vmsa.rcx, 4);
    context.vmsa.rcx = 0x2000;
    serve(&mut context, 0x4FFF_FFF2);
    assert_eq!(context.vmsa.rcx, 0);
    assert_eq!(context.take_effects().len(), 3);
    context.vmsa.rcx = 0x2000;
    serve(&mut context, 0x4FFF_FFF2);
    assert_eq!(context.vmsa.rcx, 2);
}

#[test]
fn the_sixteenth_key_is_refused() {
    let mut context = context();
    for pkey in 1..16u64 {
        serve(&mut context, 0x4FFF_FFF1);
        assert_eq!((context.vmsa.rax, context.vmsa.rcx), (pkey, 0));
    }
    serve(&mut context, 0x4FFF_FFF1);
    assert_eq!((context.vmsa.rax, context.vmsa.rcx), (0x4FFF_FFF1, 6));
    context.vmsa.rbx = 7;
    context.vmsa.rcx = 0;
    context.vmsa.rdx = 0;
    serve(&mut context, 0x4FFF_FFEE);
    assert_eq!(context.vmsa.rcx, 0);
    serve(&mut context, 0x4FFF_FFF1);
    assert_eq!((context.vmsa.rax, context.vmsa.rcx), (7, 0));
}

#[test]
fn memory_of_a_key_comes_in_whole_pages() {
    let mut context = context();
    context.vmsa.rbx = 0x40001;
    context.vmsa.rcx = 0x1000;
    serve(&mut context, 0x4FFF_FFF3);
    assert_eq!(context.vmsa.rcx, 1);
    context.vmsa.rcx = 0x1000;
    serve(&mut context, 0x4FFF_FFF2);
    assert_eq!(context.vmsa.rcx, 1);
    context.vmsa.rbx = 1;
    context.vmsa.rcx = 0x40000;
    context.vmsa.rdx = 0x1001;
    serve(&mut context, 0x4FFF_FFEE);
    assert_eq!(context.vmsa.rcx, 1);
    assert_eq!(context.take_effects(), vec![]);
}

#[test]
fn memory_beyond_the_address_space_cannot_be_freed() {
    let mut context = context();
    context.vmsa.rbx = u64::MAX - 0xfff;
    context.vmsa.rcx = 0x2000;
    context.vmsa.rdx = 1;
    serve(&mut context, 0x4FFF_FFF3);
    assert_eq!(context.vmsa.rcx, 0);
    context.vmsa.rcx = 0x2000;
    refuse(&mut context, 0x4FFF_FFF2);
    context.vmsa.rcx = 0x1000;
    serve(&mut context, 0x4FFF_FFF2);
    assert_eq!(context.vmsa.rcx, 4);
}

#[test]
fn a_domain_is_entered_and_left() {
    let mut context = context();
    context.vmsa.rbx = 2;
    serve(&mut context, 0x4FFF_FFF0);
    assert_eq!((context.vmsa.rcx, context.vmsa.pkru), (0, 0x5555_5544));
    serve(&mut context, 0x4FFF_FFED);
    assert_eq!((context.vmsa.rax, context.vmsa.rcx), (0x5555_5544, 0));
    context.vmsa.rbx = 3;
    serve(&mut context, 0x4FFF_FFF0);
    assert_eq!((context.vmsa.rcx, context.vmsa.pkru), (8, 0x5555_5544));
    context.vmsa.rbx = 2;
    serve(&mut context, 0x4FFF_FFEF);
    assert_eq!((context.vmsa.rcx, context.vmsa.pkru), (0, INITIAL_PKRU));
    context.vmsa.rbx = 16;
    serve(&mut context, 0x4FFF_FFF0);
    assert_eq!(context.vmsa.rcx, 7);
    serve(&mut context, 0x4FFF_FFEF);
    assert_eq!(context.vmsa.rcx, 7);
}

fn fault(context: &mut PALContext, cr2: u64, code: u64) -> Outcome {
    context.vmsa.rcx = 14;
    context.vmsa.rbx = code;
    context.vmsa.cr2 = cr2;
    serve(context, 0x4EFF_FFFF)
}

fn stack() -> Effect {
    Effect::Report(Note::Stack { cr3: CR3, vaddr: 0x7000_0018, first_word: 3, words: 9 })
}

#[test]
fn a_violation_of_a_key_is_never_handled() {
    let mut context = context();
    context.features.stat = true;
    map(&mut context, 0x20000, 0x1000, 1, 3, 0);
    serve(&mut context, 0x4FFF_FFFB);
    context.take_effects();
    assert_eq!(fault(&mut context, 0x20010, 0x23), Outcome::Leave);
    assert_eq!(context.stats.page_faults, 1);
    assert_eq!(context.stats.cow, 0);
    assert_eq!(context.return_value, 0);
    let note = Note::PkeyViolation {
        cr2: 0x20010,
        rip: 0x40_0004,
        error_code: 0x23,
        pkru: INITIAL_PKRU,
    };
    assert_eq!(context.take_effects(), vec![Effect::Report(note)]);
}

#[test]
fn the_first_fault_on_a_file_asks_for_the_page() {
    let mut context = context();
    context.guest_page_table = 0x9000;
    context.invocation_arg_guest_vaddr = 0x7000;
    map(&mut context, 0x20000, 0x3000, 1, 0xFFFF_FFFF, 0x8000);
    serve(&mut context, 0x4FFF_FFFB);
    context.take_effects();
    assert_eq!(fault(&mut context, 0x21234, 0x4), Outcome::Leave);
    assert_eq!(context.return_value, 6);
    assert_eq!(context.process.pf_target_vaddr, 0x21000);
    assert_eq!(
        context.take_effects(),
        vec![Effect::WriteGuestWords {
            guest_page_table: 0x9000,
            guest_vaddr: 0x7000,
            words: [u64::MAX, 0x8000, 0x3000, 0x1000],
        }]
    );
}

#[test]
fn a_write_to_a_page_that_is_there_may_copy_it() {
    let mut context = context();
    context.features.stat = true;
    let ask = Outcome::Cow { cr3: CR3, vaddr: 0x20010, user_access: true };
    assert_eq!(fault(&mut context, 0x20010, 0x7), ask);
    assert_eq!((context.stats.page_faults, context.stats.cow), (1, 1));
    assert_eq!(context.cow_answered(true), Outcome::Resume);
    assert_eq!(context.take_effects(), vec![]);
    let ask = Outcome::Cow { cr3: CR3, vaddr: 0x20010, user_access: false };
    assert_eq!(fault(&mut context, 0x20010, 0x3), ask);
    assert_eq!(context.cow_answered(false), Outcome::Leave);
    let note = Note::PageFault { cr2: 0x20010, rip: 0x40_0004, error_code: 3 };
    assert_eq!(context.take_effects(), vec![Effect::Report(note), stack()]);
}

#[test]
fn a_fault_that_nobody_handles_ends_the_run() {
    let mut context = context();
    assert_eq!(fault(&mut context, 0x20010, 0x4), Outcome::Leave);
    let note = Note::PageFault { cr2: 0x20010, rip: 0x40_0002, error_code: 4 };
    assert_eq!(context.take_effects(), vec![Effect::Report(note), stack()]);
    assert_eq!(context.stats.page_faults, 0);
}

#[test]
fn a_protection_fault_ends_the_run() {
    let mut context = context();
    context.vmsa.rcx = 13;
    context.vmsa.rbx = 0x10;
    context.vmsa.cr2 = 0x123;
    assert_eq!(serve(&mut context, 0x4EFF_FFFF), Outcome::Leave);
    let note = Note::GeneralProtection { cr2: 0x123, error_code: 0x10 };
    assert_eq!(context.take_effects(), vec![Effect::Report(note), stack()]);
    context.vmsa.rcx = 15;
    refuse(&mut context, 0x4EFF_FFFF);
}

#[test]
fn a_double_fault_ends_the_run() {
    let mut context = context();
    context.vmsa.rcx = 0xabc;
    assert_eq!(serve(&mut context, 0x4EFF_FFFE), Outcome::Leave);
    assert_eq!(
        context.take_effects(),
        vec![
            Effect::Report(Note::DoubleFault { error_code: 0 }),
            stack(),
            Effect::Report(Note::DescriptorTable { cr3: CR3, vaddr: 0xabc }),
        ]
    );
}

#[test]
fn requests_leave_the_trustlet_what_it_is() {
    let codes = [
        0x4FFF_FFFFu64, 0x4FFF_FFFE, 0x4FFF_FFFD, 0x4FFF_FFFC, 0x4FFF_FFFB, 0x4FFF_FFFA,
        0x4FFF_FFF9, 0x4FFF_FFF8, 0x4FFF_FFF6, 0x4FFF_FFF5, 0x4FFF_FFF4, 0x4FFF_FFF3,
        0x4FFF_FFF2, 0x4FFF_FFF1, 0x4FFF_FFF0, 0x4FFF_FFEF, 0x4FFF_FFEE, 0x4FFF_FFED,
        0x4EFF_FFFE, 0x4FFF_FFA0, 0x4FFF_FFA1, 0x4FFF_FFA2, 0x4FFF_FFA3, 1, 99, 100, 12345,
    ];
    for code in codes {
        let mut context = context();
        context.guest_page_table = 0x9000;
        context.invocation_arg_size = 0x1000;
        context.process.measurements.record_module([5; 64]);
        serve(&mut context, code);
        assert_eq!((context.vmsa.cr3, context.vmsa.rip), (CR3, 0x40_0002));
        assert_eq!((context.vmsa.vmpl, context.vmsa.cpl), (1, 3));
        assert_eq!(context.guest_page_table, 0x9000);
        assert_eq!(context.invocation_arg_size, 0x1000);
        assert_eq!(context.layout, layout());
        assert_eq!(context.features, features());
        let measured = context.process.measurements;
        assert_eq!(measured.wasm_module_count, 1);
        assert_eq!(measured.wasm_module_measurements[0], [5; 64]);
        assert_eq!(measured.env_hash[0], [0; 64]);
    }
}

#[test]
fn the_keys_of_another_process_are_left_alone() {
    let mut context = context();
    context.vmsa.cr3 = 0x6000;
    serve(&mut context, 0x4FFF_FFF1);
    assert_eq!(get_allocated_pkey_count(&context.mpk, 0x6000), 1);
    context.vmsa.cr3 = CR3;
    serve(&mut context, 0x4FFF_FFF1);
    serve(&mut context, 0x4FFF_FFF1);
    context.vmsa.rbx = 1;
    context.vmsa.rcx = 0;
    serve(&mut context, 0x4FFF_FFEE);
    assert_eq!(get_allocated_pkey_count(&context.mpk, 0x6000), 1);
    assert_eq!(get_allocated_pkey_count(&context.mpk, CR3), 1);
}

#[test]
fn a_mapping_that_is_not_at_a_page_cannot_be_loaded() {
    let mut context = context();
    context.process.mmap_manager.add_mapping(0x20010, 0x1000, 3, 0);
    context.vmsa.rcx = 14;
    context.vmsa.cr2 = 0x20020;
    context.vmsa.rbx = 4;
    refuse(&mut context, 0x4EFF_FFFF);
    context.vmsa.rbx = 0x24;
    assert_eq!(serve(&mut context, 0x4EFF_FFFF), Outcome::Leave);
    context.vmsa.rcx = 14;
    context.vmsa.rbx = 5;
    assert_eq!(serve(&mut context, 0x4EFF_FFFF), Outcome::Leave);
    assert_eq!(context.return_value, 0);
}
