use trustlet_monitor::attestation::{
    copy_back_report, diff_attestation, exec_elf, function_report, get_public_key, measure_module,
    monitor_report, prepare_wamr_runtime_report_cold, report_fetched, report_signed, send_policy,
    signing_key, wamr_runtime_report_cold, wasm_module_report, wasm_module_report_cold,
    AttestationStep, FunctionData, ReportStore,
};
use trustlet_monitor::layout::MemoryLayout;
use trustlet_monitor::measurements::Measurement;
use trustlet_monitor::page::pgd_index;
use trustlet_monitor::process::{AllocationRange, ProcessID, ProcessStore, TrustedProcess};
use trustlet_monitor::protocol::{GuestCopy, RequestParams, SvsmReqError, SvsmResultCode};

const PAGE: u64 = 0x8000;

fn layout() -> MemoryLayout {
    MemoryLayout {
        allocation_range: 0x300_0000_0000,
        manifest: 0x80_0000_0000,
        libos: 0x100_0000_0000,
        stack: 0x180_0000_0000,
        kern_stack: 0x200_0000_0000,
        input: 0x280_0000_0000,
        output: 0x380_0000_0000,
        tss_limit: 0x68,
    }
}

fn params(rdx: u64, r8: u64, r9: u64) -> RequestParams {
    RequestParams { rcx: PAGE, rdx, r8, r9 }
}

fn store() -> ProcessStore {
    let mut process = TrustedProcess::default();
    process.measurements.init_measurement = [1; 64];
    process.measurements.runtime_measurement = [2; 64];
    process.measurements.record_module([3; 64]);
    process.measurements.record_env_hash([4; 64]);
    process.base.alloc_range = AllocationRange(0x1000, 10);
    process.base.alloc_range_manifest = AllocationRange(0x2000, 20);
    process.base.alloc_range_libos = AllocationRange(0x3000, 30);
    process.base.page_table_ref.process_page_table = 0x5000;
    process.context.channel.input = AllocationRange(0x6000, 1);
    let mut store = ProcessStore::new();
    store.init(2);
    store.replace(ProcessID(1), process);
    store
}

fn kept() -> ReportStore {
    let mut reports = ReportStore::new();
    reports.store_snp_report(&[0xaa, 0xbb]);
    reports
}

fn joined(parts: &[&[u8]]) -> Vec<u8> {
    parts.concat()
}

fn attest(params: &RequestParams, boottime: bool) -> AttestationStep {
    diff_attestation(&store(), &kept(), params, boottime, &layout()).unwrap()
}

#[test]
fn the_report_of_the_secure_processor_is_fetched_once() {
    let mut reports = ReportStore::new();
    let request = params(0, 0, 0);
    let fetch = AttestationStep::FetchReport { keep: true };
    assert_eq!(monitor_report(&reports, &request), fetch);
    let copy = AttestationStep::CopyBack { page: PAGE, report: vec![7, 8, 9] };
    assert_eq!(report_fetched(&mut reports, &request, true, &[7, 8, 9]), copy);
    assert_eq!(reports.get_snp_report(), Some(&vec![7, 8, 9]));
    assert_eq!(monitor_report(&reports, &request), copy);
}

#[test]
fn a_report_is_handed_over_only_where_it_is_wanted() {
    let mut reports = ReportStore::new();
    let request = RequestParams { rcx: 0, rdx: 0, r8: 0, r9: 0 };
    let step = report_fetched(&mut reports, &request, true, &[7]);
    assert_eq!(step, AttestationStep::Done);
    let again = AttestationStep::CopyBack { page: 0, report: vec![7] };
    assert_eq!(monitor_report(&reports, &request), again);
    let request = RequestParams { rcx: 0, rdx: 1, r8: 1, r9: 0 };
    assert_eq!(attest(&request, false), AttestationStep::Done);
}

#[test]
fn a_cold_report_is_not_kept() {
    let mut reports = ReportStore::new();
    let fetch = AttestationStep::FetchReport { keep: false };
    assert_eq!(attest(&params(4, 0, 0), false), fetch);
    let copy = AttestationStep::CopyBack { page: PAGE, report: vec![7] };
    assert_eq!(report_fetched(&mut reports, &params(4, 0, 0), false, &[7]), copy);
    assert_eq!(reports.get_snp_report(), None);
}

#[test]
fn the_report_of_a_runtime_adds_two_digests() {
    let report = joined(&[&[0xaa, 0xbb], &[1; 64], &[2; 64]]);
    let copy = AttestationStep::CopyBack { page: PAGE, report };
    assert_eq!(attest(&params(1, 1, 0), false), copy);
}

#[test]
fn the_report_of_a_module_adds_its_digest() {
    let report = joined(&[&[0xaa, 0xbb], &[1; 64], &[2; 64], &[3; 64]]);
    let copy = AttestationStep::CopyBack { page: PAGE, report };
    assert_eq!(attest(&params(2, 1, 0), false), copy);
}

#[test]
fn a_module_that_was_not_measured_is_refused() {
    let refused = SvsmReqError::RequestError(SvsmResultCode::InvalidParameter);
    for module in [1, 14, 15, u64::MAX] {
        let request = params(2, 1, module);
        assert_eq!(wasm_module_report(&store(), &kept(), &request), Err(refused));
        assert_eq!(attest(&request, false), AttestationStep::Done);
    }
}

#[test]
fn the_report_of_an_execution_adds_four_digests_and_a_signature() {
    let request = params(3, 0x9000, 0x7000);
    let copy = GuestCopy { addr: 0x7000, size: 4096, page_table: 0x9000 };
    assert_eq!(attest(&request, false), AttestationStep::ReadFunctionData(copy));
    let data = FunctionData::parse(&[1, 0, 50, 0xa000, 60, 0xb000], &request);
    assert_eq!(data.fn_input, GuestCopy { addr: 0xa000, size: 50, page_table: 0x9000 });
    assert_eq!(data.fn_output, GuestCopy { addr: 0xb000, size: 60, page_table: 0x9000 });
    let report = function_report(&store(), &kept(), &data, &[5; 64], &[6; 64]);
    let expected = joined(&[
        &[0xaa, 0xbb],
        &[1; 64],
        &[2; 64],
        &[3; 64],
        &[4; 64],
        &[5; 64],
        &[6; 64],
    ]);
    assert_eq!(report, expected);
    let signed = joined(&[&expected, &[7; 64]]);
    let copy = AttestationStep::CopyBack { page: PAGE, report: signed };
    assert_eq!(report_signed(&request, report, &[7; 64]), copy);
}

#[test]
fn an_unknown_module_has_zero_digests() {
    let request = params(3, 0x9000, 0x7000);
    let data = FunctionData::parse(&[1, 15, 0, 0, 0, 0], &request);
    let report = function_report(&store(), &kept(), &data, &[5; 64], &[6; 64]);
    let digests = [&[0xaa, 0xbb][..], &[1; 64], &[2; 64], &[0; 128], &[5; 64], &[6; 64]];
    assert_eq!(report, joined(&digests));
}

#[test]
fn reports_are_signed_with_one_key() {
    assert_eq!(signing_key(), [0x69; 32]);
}

#[test]
fn an_unknown_kind_of_report_does_nothing() {
    assert_eq!(attest(&params(8, 0, 0), false), AttestationStep::Done);
    assert_eq!(attest(&params(u64::MAX, 0, 0), false), AttestationStep::Done);
}

#[test]
fn a_runtime_is_made_visible_before_it_is_measured_anew() {
    let range = AllocationRange(0x1000, 10);
    let prepare = AttestationStep::PrepareRuntime { range, page_table: 0x5000 };
    assert_eq!(attest(&params(5, 1, 0), false), prepare);
    let mut monitor: [u64; 512] = [0; 512];
    let mut zygote: [u64; 512] = [0; 512];
    zygote[pgd_index(layout().manifest)] = 11;
    zygote[pgd_index(layout().libos)] = 12;
    zygote[500] = 13;
    prepare_wamr_runtime_report_cold(&mut monitor, &zygote, &layout());
    assert_eq!(monitor[1], 11);
    assert_eq!(monitor[2], 12);
    assert_eq!(monitor[500], 0);
}

#[test]
fn a_runtime_is_measured_anew() {
    let measure = AttestationStep::MeasureRuntime {
        manifest: Measurement::Region { start: 0x80_0000_0000, size: 20 },
        libos: Measurement::Region { start: 0x100_0000_0000, size: 30 },
        init: Measurement::Region { start: 0x300_0000_0000, size: 10 },
    };
    assert_eq!(attest(&params(6, 1, 0), false), measure);
    let known = Measurement::Known([0; 64]);
    let measure = AttestationStep::MeasureRuntime { manifest: known, libos: known, init: known };
    assert_eq!(attest(&params(6, 1, 0), true), measure);
    let step = wamr_runtime_report_cold(&store(), &kept(), &params(6, 1, 0), &[9; 64]);
    let report = joined(&[&[0xaa, 0xbb], &[9; 64], &[2; 64]]);
    assert_eq!(step, AttestationStep::CopyBack { page: PAGE, report });
}

#[test]
fn a_module_is_measured_anew() {
    let input = AllocationRange(0x6000, 1);
    let read = AttestationStep::ReadModuleHeader { input };
    assert_eq!(attest(&params(7, 1, 0), false), read);
    let header = [16u8, 0, 0, 0, 0, 0, 0, 0, 0, 0, 0, 0];
    let region = Measurement::Region { start: 0x300_0000_000c, size: 16 };
    assert_eq!(measure_module(false, &layout(), &header), region);
    assert_eq!(measure_module(true, &layout(), &header), Measurement::Known([0; 64]));
    assert_eq!(measure_module(false, &layout(), &[0; 12]), Measurement::Known([0; 64]));
    let step = wasm_module_report_cold(&store(), &kept(), &params(7, 1, 9), &[9; 64]);
    let report = joined(&[&[0xaa, 0xbb], &[1; 64], &[2; 64], &[9; 64]]);
    assert_eq!(step, AttestationStep::CopyBack { page: PAGE, report });
}

#[test]
fn a_report_is_copied_to_the_start_of_a_page() {
    let mut page: [u8; 4096] = [1; 4096];
    copy_back_report(&mut page, &[7, 8]);
    assert_eq!(&page[..3], &[7, 8, 1]);
    assert_eq!(page[4095], 1);
    copy_back_report(&mut page, &[9; 4096]);
    assert_eq!(page, [9; 4096]);
}

#[test]
fn the_public_key_ends_with_a_zero() {
    let mut page: [u8; 4096] = [1; 4096];
    get_public_key(&mut page, &[5; 32]);
    assert_eq!(&page[..34], &joined(&[&[5; 32], &[0, 1]])[..]);
}

#[test]
fn a_program_comes_in_two_pages() {
    let mut first: [u8; 4096] = [1; 4096];
    first[0] = 0x7f;
    let elf = exec_elf(&first, &[2; 4096], 4098);
    assert_eq!(elf.len(), 4098);
    assert_eq!((elf[0], elf[4095], elf[4096], elf[4097]), (0x7f, 1, 2, 2));
    assert_eq!(exec_elf(&first, &[2; 4096], 0), Vec::<u8>::new());
    assert_eq!(exec_elf(&first, &[2; 4096], 8192).len(), 8192);
}

#[test]
fn a_policy_has_a_zero_nonce() {
    let policy = send_policy(&RequestParams { rcx: 1, rdx: 0xFFFF_FFFF, r8: 3, r9: 4 });
    assert_eq!((policy.data, policy.size, policy.sender_key), (3, u32::MAX, 1));
    assert_eq!(policy.nonce, [0; 24]);
}
