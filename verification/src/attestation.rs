//! The reports by which a guest knows what runs.
//!
//! Each report begins with the report of the secure processor.  The report of a runtime adds what
//! a process was measured to be, the report of a module adds the digest of the module, and the
//! report of an execution adds the digests of its environment, its input and its output, and a
//! signature.
use vstd::prelude::*;

use crate::input;
use crate::input::{find_module, HEADER_SIZE};
use crate::layout::MemoryLayout;
use crate::measurements;
use crate::measurements::{measure, Measurement, ProcessMeasurements, MAX_WASM_MODULES};
use crate::page;
use crate::page::{pgd_index, PAGE_SIZE};
use crate::process::{AllocationRange, ProcessState, ProcessStore};
use crate::protocol::{GuestCopy, RequestParams, SvsmReqError};

verus! {

/// The size of a key in bytes.
pub const KEY_SIZE: usize = 32;

/// The report of the secure processor.
pub const MONITOR_ATTESTATION: u64 = 0;

/// The report of a runtime.
pub const WAMR_RUNTIME_ATTESTATION: u64 = 1;

/// The report of a module.
pub const WASM_MODULE_ATTESTATION: u64 = 2;

/// The report of an execution.
pub const FUNCTION_ATTESTATION: u64 = 3;

/// The report of the secure processor, which is not kept.
pub const MONITOR_ATTESTATION_COLD: u64 = 4;

/// The preparation of a report of a runtime that is measured anew.
pub const PREPARE_WAMR_RUNTIME_ATTESTATION_COLD: u64 = 5;

/// The report of a runtime that is measured anew.
pub const WAMR_RUNTIME_ATTESTATION_COLD: u64 = 6;

/// The report of a module that is measured anew.
pub const WASM_MODULE_ATTESTATION_COLD: u64 = 7;

/// The report of the secure processor, once it was fetched.
#[derive(Debug)]
pub struct ReportStore {
    stored: Option<Vec<u8>>,
}

impl View for ReportStore {
    type V = Option<Seq<u8>>;

    closed spec fn view(&self) -> Option<Seq<u8>> {
        match self.stored {
            Some(report) => Some(report@),
            None => None,
        }
    }
}

/// A copy of a report.
fn copy_of(report: &[u8]) -> (copy: Vec<u8>)
    ensures
        copy@ == report@,
{
    let mut copy: Vec<u8> = Vec::new();
    copy.extend_from_slice(report);
    assert(copy@ =~= report@);
    copy
}

impl ReportStore {
    /// No report was fetched yet.
    pub fn new() -> (store: ReportStore)
        ensures
            store@ == None::<Seq<u8>>,
    {
        ReportStore { stored: None }
    }

    /// Keeps a report.
    pub fn store_snp_report(&mut self, report_data: &[u8])
        ensures
            final(self)@ == Some(report_data@),
    {
        self.stored = Some(copy_of(report_data));
    }

    /// The report that was kept.
    pub fn get_snp_report(&self) -> (report: Option<&Vec<u8>>)
        ensures
            self@ == match report {
                Some(report) => Some(report@),
                None => None,
            },
    {
        match &self.stored {
            Some(report) => Some(report),
            None => None,
        }
    }
}

/// A page with a report at its start.
pub open spec fn with_report(page: Seq<u8>, report: Seq<u8>) -> Seq<u8> {
    report + page.skip(report.len() as int)
}

/// Copies a report to the start of a page of the guest, and leaves the rest of the page as it is.
pub fn copy_back_report(page: &mut [u8; 4096], report_data: &[u8])
    requires
        report_data@.len() <= PAGE_SIZE,
    ensures
        final(page)@ == with_report(old(page)@, report_data@),
{
    let mut i: usize = 0;
    while i < report_data.len()
        invariant
            i <= report_data@.len() <= 4096,
            page@.len() == 4096,
            forall|k: int| 0 <= k < i ==> page@[k] == report_data@[k],
            forall|k: int| i <= k < 4096 ==> page@[k] == old(page)@[k],
        decreases report_data@.len() - i,
    {
        page[i] = report_data[i];
        i += 1;
    }
    assert(page@ =~= with_report(old(page)@, report_data@));
}

/// How the making of a report goes on.
#[derive(Debug, PartialEq, Eq)]
pub enum AttestationStep {
    /// There is nothing more to do.
    Done,
    /// The report of the secure processor is fetched, and kept where `keep` says so.
    FetchReport { keep: bool },
    /// The report goes to the physical page `page`.
    CopyBack { page: u64, report: Vec<u8> },
    /// What the guest says of an execution is read.
    ReadFunctionData(GuestCopy),
    /// A range of memory becomes visible to the monitor, as do parts of the page table.
    PrepareRuntime { range: AllocationRange, page_table: u64 },
    /// A runtime is measured.
    MeasureRuntime { manifest: Measurement, libos: Measurement, init: Measurement },
    /// The header of an input is read.
    ReadModuleHeader { input: AllocationRange },
}

/// How the making of a report goes on, with the report as a sequence.
pub enum AttestationAsk {
    Done,
    FetchReport { keep: bool },
    CopyBack { page: u64, report: Seq<u8> },
    ReadFunctionData(GuestCopy),
    PrepareRuntime { range: AllocationRange, page_table: u64 },
    MeasureRuntime { manifest: Measurement, libos: Measurement, init: Measurement },
    ReadModuleHeader { input: AllocationRange },
}

impl View for AttestationStep {
    type V = AttestationAsk;

    open spec fn view(&self) -> AttestationAsk {
        match *self {
            AttestationStep::Done => AttestationAsk::Done,
            AttestationStep::FetchReport { keep } => AttestationAsk::FetchReport { keep },
            AttestationStep::CopyBack { page, report } => AttestationAsk::CopyBack {
                page,
                report: report@,
            },
            AttestationStep::ReadFunctionData(copy) => AttestationAsk::ReadFunctionData(copy),
            AttestationStep::PrepareRuntime { range, page_table } =>
                AttestationAsk::PrepareRuntime { range, page_table },
            AttestationStep::MeasureRuntime { manifest, libos, init } =>
                AttestationAsk::MeasureRuntime { manifest, libos, init },
            AttestationStep::ReadModuleHeader { input } => AttestationAsk::ReadModuleHeader {
                input,
            },
        }
    }
}

/// Where a report is wanted, it goes to the page that RCX names.
pub open spec fn handed_over(params: RequestParams, report: Seq<u8>) -> AttestationAsk {
    if params.rcx != 0 {
        AttestationAsk::CopyBack { page: params.rcx, report }
    } else {
        AttestationAsk::Done
    }
}

fn hand_over(params: &RequestParams, report: Vec<u8>) -> (step: AttestationStep)
    ensures
        step@ == handed_over(*params, report@),
{
    if params.rcx != 0 {
        AttestationStep::CopyBack { page: params.rcx, report }
    } else {
        AttestationStep::Done
    }
}

/// How the report of the secure processor is come by: from what was kept, else it is fetched.
pub open spec fn monitor_report_step(
    kept: Option<Seq<u8>>,
    params: RequestParams,
) -> AttestationAsk {
    match kept {
        Some(report) => AttestationAsk::CopyBack { page: params.rcx, report },
        None => AttestationAsk::FetchReport { keep: true },
    }
}

/// Begins a report of the secure processor.
pub fn monitor_report(reports: &ReportStore, params: &RequestParams) -> (step: AttestationStep)
    ensures
        step@ == monitor_report_step(reports@, *params),
{
    match reports.get_snp_report() {
        Some(report) => AttestationStep::CopyBack {
            page: params.rcx,
            report: copy_of(report.as_slice()),
        },
        None => AttestationStep::FetchReport { keep: true },
    }
}

/// The report that is kept when one was fetched.
pub open spec fn kept_after(kept: Option<Seq<u8>>, keep: bool, report: Seq<u8>) -> Option<Seq<u8>> {
    if keep {
        Some(report)
    } else {
        kept
    }
}

/// Takes the report of the secure processor.
pub fn report_fetched(
    reports: &mut ReportStore,
    params: &RequestParams,
    keep: bool,
    report: &[u8],
) -> (step: AttestationStep)
    ensures
        final(reports)@ == kept_after(old(reports)@, keep, report@),
        step@ == handed_over(*params, report@),
{
    if keep {
        reports.store_snp_report(report);
    }
    hand_over(params, copy_of(report))
}

/// The report of a runtime.
pub open spec fn runtime_report(snp: Seq<u8>, measurements: ProcessMeasurements) -> Seq<u8> {
    snp + measurements.init_measurement@ + measurements.runtime_measurement@
}

/// The report of a module.
pub open spec fn module_report(
    snp: Seq<u8>,
    measurements: ProcessMeasurements,
    digest: [u8; 64],
) -> Seq<u8> {
    runtime_report(snp, measurements) + digest@
}

/// The digest of a module, the zero digest where it was not measured.
pub open spec fn module_digest(measurements: ProcessMeasurements, module_id: int) -> [u8; 64] {
    if measurements::has_module(measurements, module_id) {
        measurements.wasm_module_measurements@[module_id]
    } else {
        measurements::zero_digest()
    }
}

/// The digest of the environment of a module, the zero digest where it was not measured.
pub open spec fn env_digest(measurements: ProcessMeasurements, module_id: int) -> [u8; 64] {
    if measurements::has_module(measurements, module_id) {
        measurements.env_hash@[module_id]
    } else {
        measurements::zero_digest()
    }
}

/// The report of an execution, before it is signed.
pub open spec fn execution_report(
    snp: Seq<u8>,
    measurements: ProcessMeasurements,
    module_id: int,
    input_hash: [u8; 64],
    output_hash: [u8; 64],
) -> Seq<u8> {
    module_report(snp, measurements, module_digest(measurements, module_id)) + env_digest(
        measurements,
        module_id,
    )@ + input_hash@ + output_hash@
}

fn append(report: &mut Vec<u8>, digest: &[u8; 64])
    ensures
        final(report)@ == old(report)@ + digest@,
{
    report.extend_from_slice(digest.as_slice());
    assert(report@ =~= old(report)@ + digest@);
}

/// The report of the secure processor, as the beginning of another one.
fn begin_report(reports: &ReportStore) -> (report: Vec<u8>)
    requires
        reports@ is Some,
    ensures
        report@ == reports@->0,
{
    copy_of(reports.get_snp_report().unwrap().as_slice())
}

fn make_runtime_report(reports: &ReportStore, measurements: &ProcessMeasurements) -> (report: Vec<
    u8,
>)
    requires
        reports@ is Some,
    ensures
        report@ == runtime_report(reports@->0, *measurements),
{
    let mut report = begin_report(reports);
    append(&mut report, &measurements.init_measurement);
    append(&mut report, &measurements.runtime_measurement);
    report
}

/// Makes the report of a runtime, which R8 names.
pub fn wamr_runtime_report(
    store: &ProcessStore,
    reports: &ReportStore,
    params: &RequestParams,
) -> (step: AttestationStep)
    requires
        params.r8 < store@.len(),
        reports@ is Some,
    ensures
        step@ == handed_over(
            *params,
            runtime_report(reports@->0, store@[params.r8 as int].measurements),
        ),
{
    let process = store.get(store.id_of(params.r8));
    hand_over(params, make_runtime_report(reports, &process.measurements))
}

/// Makes the report of a module: R8 has the name of the process and R9 the number of the module.
/// Where the module was not measured, the request is refused.
pub fn wasm_module_report(
    store: &ProcessStore,
    reports: &ReportStore,
    params: &RequestParams,
) -> (result: Result<AttestationStep, SvsmReqError>)
    requires
        params.r8 < store@.len(),
        measurements::has_module(store@[params.r8 as int].measurements, params.r9 as int)
            ==> reports@ is Some,
    ensures
        ({
            let known = store@[params.r8 as int].measurements;
            let module_id = params.r9 as int;
            match result {
                Ok(step) => measurements::has_module(known, module_id) && step@ == handed_over(
                    *params,
                    module_report(
                        reports@->0,
                        known,
                        known.wasm_module_measurements@[module_id],
                    ),
                ),
                Err(error) => !measurements::has_module(known, module_id) && error
                    == SvsmReqError::RequestError(
                    crate::protocol::SvsmResultCode::InvalidParameter,
                ),
            }
        }),
{
    let process = store.get(store.id_of(params.r8));
    let module_id = params.r9;
    if module_id >= MAX_WASM_MODULES as u64 || module_id
        >= process.measurements.wasm_module_count as u64 {
        return Err(SvsmReqError::invalid_parameter());
    }
    let mut report = make_runtime_report(reports, &process.measurements);
    append(&mut report, &process.measurements.wasm_module_measurements[module_id as usize]);
    Ok(hand_over(params, report))
}

/// How many words the guest says of an execution.
pub const FUNCTION_WORDS: usize = 6;

/// What the guest says of an execution.
#[derive(Clone, Copy, Debug, PartialEq, Eq, Structural)]
pub struct FunctionData {
    /// The name of the process.
    pub trustlet_id: u64,
    /// The number of the module.
    pub module_id: u64,
    /// The input.
    pub fn_input: GuestCopy,
    /// The output.
    pub fn_output: GuestCopy,
}

/// What the words say of an execution: the process, the module, and the size and the address of
/// the input and of the output.
pub open spec fn function_data(words: Seq<u64>, page_table: u64) -> FunctionData {
    FunctionData {
        trustlet_id: words[0],
        module_id: words[1],
        fn_input: GuestCopy { addr: words[3], size: words[2], page_table },
        fn_output: GuestCopy { addr: words[5], size: words[4], page_table },
    }
}

impl FunctionData {
    /// Reads what the guest says of an execution.  R8 has the page table of the guest.
    pub fn parse(words: &[u64], params: &RequestParams) -> (data: FunctionData)
        requires
            words@.len() >= FUNCTION_WORDS,
        ensures
            data == function_data(words@, params.r8),
    {
        let page_table = params.r8;
        FunctionData {
            trustlet_id: words[0],
            module_id: words[1],
            fn_input: GuestCopy { addr: words[3], size: words[2], page_table },
            fn_output: GuestCopy { addr: words[5], size: words[4], page_table },
        }
    }
}

/// The report of the execution that the guest names, before it is signed.
pub open spec fn report_of(
    slots: Seq<ProcessState>,
    snp: Seq<u8>,
    data: FunctionData,
    input_hash: [u8; 64],
    output_hash: [u8; 64],
) -> Seq<u8> {
    execution_report(
        snp,
        slots[data.trustlet_id as int].measurements,
        data.module_id as int,
        input_hash,
        output_hash,
    )
}

/// Makes the report of an execution, before it is signed.  A module that was not measured has the
/// zero digest.
pub fn function_report(
    store: &ProcessStore,
    reports: &ReportStore,
    data: &FunctionData,
    input_hash: &[u8; 64],
    output_hash: &[u8; 64],
) -> (report: Vec<u8>)
    requires
        data.trustlet_id < store@.len(),
        reports@ is Some,
    ensures
        report@ == execution_report(
            reports@->0,
            store@[data.trustlet_id as int].measurements,
            data.module_id as int,
            *input_hash,
            *output_hash,
        ),
        report@ == report_of(store@, reports@->0, *data, *input_hash, *output_hash),
{
    let trustlet = store.get(store.id_of(data.trustlet_id));
    let module_id = data.module_id;
    let known = module_id < MAX_WASM_MODULES as u64 && module_id
        < trustlet.measurements.wasm_module_count as u64;
    let wasm_module_measurement: [u8; 64] = if known {
        trustlet.measurements.wasm_module_measurements[module_id as usize]
    } else {
        [0;64]
    };
    let env_hash: [u8; 64] = if known {
        trustlet.measurements.env_hash[module_id as usize]
    } else {
        [0;64]
    };
    let mut report = make_runtime_report(reports, &trustlet.measurements);
    append(&mut report, &wasm_module_measurement);
    append(&mut report, &env_hash);
    append(&mut report, input_hash);
    append(&mut report, output_hash);
    report
}

/// The key that reports are signed with.
pub fn signing_key() -> (key: [u8; 32])
    ensures
        key@ == Seq::new(KEY_SIZE as nat, |i: int| 0x69u8),
{
    let key: [u8; 32] = [0x69;32];
    assert(key@ =~= Seq::new(KEY_SIZE as nat, |i: int| 0x69u8));
    key
}

/// A report with its signature.
pub open spec fn signed_report(report: Seq<u8>, signature: [u8; 64]) -> Seq<u8> {
    report + signature@
}

/// Takes the signature of a report and hands the report over.
pub fn report_signed(params: &RequestParams, report: Vec<u8>, signature: &[u8; 64]) -> (step:
    AttestationStep)
    ensures
        step@ == handed_over(*params, report@ + signature@),
        step@ == handed_over(*params, signed_report(report@, *signature)),
{
    let mut report = report;
    append(&mut report, signature);
    hand_over(params, report)
}

/// The page table of the monitor with the entries of a process for its manifest and its library
/// operating system.
pub open spec fn with_runtime_entries(
    monitor: [u64; 512],
    process: [u64; 512],
    layout: MemoryLayout,
) -> [u64; 512] {
    let manifest = page::spec_pgd_index(layout.manifest);
    let libos = page::spec_pgd_index(layout.libos);
    vstd::array::spec_array_update(
        vstd::array::spec_array_update(monitor, manifest, process@[manifest]),
        libos,
        process@[libos],
    )
}

/// Makes the manifest and the library operating system of a process visible to the monitor.
///
/// The tables are the top levels of the page tables of the monitor and of the process.
pub fn prepare_wamr_runtime_report_cold(
    monitor_pgd_table: &mut [u64; 512],
    zygote_pgd_table: &[u64; 512],
    layout: &MemoryLayout,
)
    ensures
        *final(monitor_pgd_table) == with_runtime_entries(
            *old(monitor_pgd_table),
            *zygote_pgd_table,
            *layout,
        ),
{
    let manifest_pgd_idx = pgd_index(layout.manifest);
    let libos_pgd_idx = pgd_index(layout.libos);
    monitor_pgd_table[manifest_pgd_idx] = zygote_pgd_table[manifest_pgd_idx];
    monitor_pgd_table[libos_pgd_idx] = zygote_pgd_table[libos_pgd_idx];
}

/// The report of a runtime that was measured anew.
pub open spec fn cold_runtime_report(
    snp: Seq<u8>,
    measurements: ProcessMeasurements,
    init_measurement: [u8; 64],
) -> Seq<u8> {
    runtime_report(snp, ProcessMeasurements { init_measurement, ..measurements })
}

/// Makes the report of a runtime that was measured anew, with the digest that was found.
pub fn wamr_runtime_report_cold(
    store: &ProcessStore,
    reports: &ReportStore,
    params: &RequestParams,
    init_measurement: &[u8; 64],
) -> (step: AttestationStep)
    requires
        params.r8 < store@.len(),
        reports@ is Some,
    ensures
        step@ == handed_over(
            *params,
            runtime_report(
                reports@->0,
                ProcessMeasurements {
                    init_measurement: *init_measurement,
                    ..store@[params.r8 as int].measurements
                },
            ),
        ),
        step@ == handed_over(
            *params,
            cold_runtime_report(
                reports@->0,
                store@[params.r8 as int].measurements,
                *init_measurement,
            ),
        ),
{
    let zygote = store.get(store.id_of(params.r8));
    let mut report = begin_report(reports);
    append(&mut report, init_measurement);
    append(&mut report, &zygote.measurements.runtime_measurement);
    hand_over(params, report)
}

/// How the digest of the module of an input is come by: the zero digest stands for no module.
pub open spec fn module_measured(
    boottime: bool,
    layout: MemoryLayout,
    header: Seq<u8>,
) -> Measurement {
    match input::module_region(layout.allocation_range, header) {
        Some((start, size)) => measurements::measured(boottime, start, size),
        None => Measurement::Known(measurements::zero_digest()),
    }
}

/// Finds the module of an input that is measured anew.
pub fn measure_module(boottime: bool, layout: &MemoryLayout, header: &[u8]) -> (measurement:
    Measurement)
    requires
        header@.len() >= HEADER_SIZE,
        input::module_in_address_space(layout.allocation_range, header@),
    ensures
        measurement == module_measured(boottime, *layout, header@),
{
    match find_module(layout.allocation_range, header) {
        Some((start, size)) => measure(boottime, start, size),
        None => {
            let hash: [u8; 64] = [0;64];
            Measurement::Known(hash)
        },
    }
}

/// Makes the report of a module that was measured anew, with the digest that was found.
pub fn wasm_module_report_cold(
    store: &ProcessStore,
    reports: &ReportStore,
    params: &RequestParams,
    digest: &[u8; 64],
) -> (step: AttestationStep)
    requires
        params.r8 < store@.len(),
        reports@ is Some,
    ensures
        step@ == handed_over(
            *params,
            module_report(reports@->0, store@[params.r8 as int].measurements, *digest),
        ),
{
    let trustlet = store.get(store.id_of(params.r8));
    let mut report = make_runtime_report(reports, &trustlet.measurements);
    append(&mut report, digest);
    hand_over(params, report)
}

/// What a request for a report leads to: RDX has the kind of the report.
pub open spec fn attestation_step(
    slots: Seq<ProcessState>,
    kept: Option<Seq<u8>>,
    params: RequestParams,
    boottime: bool,
    layout: MemoryLayout,
) -> AttestationAsk {
    let process = slots[params.r8 as int];
    let module_id = params.r9 as int;
    if params.rdx == MONITOR_ATTESTATION {
        monitor_report_step(kept, params)
    } else if params.rdx == WAMR_RUNTIME_ATTESTATION {
        handed_over(params, runtime_report(kept->0, process.measurements))
    } else if params.rdx == WASM_MODULE_ATTESTATION {
        if measurements::has_module(process.measurements, module_id) {
            handed_over(
                params,
                module_report(
                    kept->0,
                    process.measurements,
                    module_digest(process.measurements, module_id),
                ),
            )
        } else {
            AttestationAsk::Done
        }
    } else if params.rdx == FUNCTION_ATTESTATION {
        AttestationAsk::ReadFunctionData(
            GuestCopy { addr: params.r9, size: 4096, page_table: params.r8 },
        )
    } else if params.rdx == MONITOR_ATTESTATION_COLD {
        AttestationAsk::FetchReport { keep: false }
    } else if params.rdx == PREPARE_WAMR_RUNTIME_ATTESTATION_COLD {
        AttestationAsk::PrepareRuntime {
            range: process.base.alloc_range,
            page_table: process.base.page_table_ref.process_page_table,
        }
    } else if params.rdx == WAMR_RUNTIME_ATTESTATION_COLD {
        AttestationAsk::MeasureRuntime {
            manifest: measurements::measured(boottime, layout.manifest, process.base.alloc_range_manifest.1),
            libos: measurements::measured(boottime, layout.libos, process.base.alloc_range_libos.1),
            init: measurements::measured(boottime, layout.allocation_range, process.base.alloc_range.1),
        }
    } else if params.rdx == WASM_MODULE_ATTESTATION_COLD {
        AttestationAsk::ReadModuleHeader { input: process.context.channel.input }
    } else {
        AttestationAsk::Done
    }
}

/// Whether the process that a request for a report names exists, and the report of the secure
/// processor was kept where it is needed.
pub open spec fn attestation_ready(
    slots: Seq<ProcessState>,
    kept: Option<Seq<u8>>,
    params: RequestParams,
) -> bool {
    let names_process = params.rdx == WAMR_RUNTIME_ATTESTATION || params.rdx
        == WASM_MODULE_ATTESTATION || params.rdx == PREPARE_WAMR_RUNTIME_ATTESTATION_COLD
        || params.rdx == WAMR_RUNTIME_ATTESTATION_COLD || params.rdx
        == WASM_MODULE_ATTESTATION_COLD;
    &&& names_process ==> params.r8 < slots.len()
    &&& params.rdx == WAMR_RUNTIME_ATTESTATION ==> kept is Some
    &&& params.rdx == WASM_MODULE_ATTESTATION && measurements::has_module(
        slots[params.r8 as int].measurements,
        params.r9 as int,
    ) ==> kept is Some
}

/// Begins a report: RDX has its kind.  A request that is refused or that does not exist does
/// nothing, and is answered like one that was served.
pub fn diff_attestation(
    store: &ProcessStore,
    reports: &ReportStore,
    params: &RequestParams,
    boottime: bool,
    layout: &MemoryLayout,
) -> (result: Result<AttestationStep, SvsmReqError>)
    requires
        attestation_ready(store@, reports@, *params),
    ensures
        result matches Ok(step) && step@ == attestation_step(
            store@,
            reports@,
            *params,
            boottime,
            *layout,
        ),
{
    let step = match params.rdx {
        MONITOR_ATTESTATION => monitor_report(reports, params),
        WAMR_RUNTIME_ATTESTATION => wamr_runtime_report(store, reports, params),
        WASM_MODULE_ATTESTATION => match wasm_module_report(store, reports, params) {
            Ok(step) => step,
            Err(_) => AttestationStep::Done,
        },
        FUNCTION_ATTESTATION => AttestationStep::ReadFunctionData(
            GuestCopy { addr: params.r9, size: PAGE_SIZE as u64, page_table: params.r8 },
        ),
        MONITOR_ATTESTATION_COLD => AttestationStep::FetchReport { keep: false },
        PREPARE_WAMR_RUNTIME_ATTESTATION_COLD => {
            let zygote = store.get(store.id_of(params.r8));
            AttestationStep::PrepareRuntime {
                range: zygote.base.alloc_range,
                page_table: zygote.base.page_table_ref.process_page_table,
            }
        },
        WAMR_RUNTIME_ATTESTATION_COLD => {
            let zygote = store.get(store.id_of(params.r8));
            AttestationStep::MeasureRuntime {
                manifest: measure(boottime, layout.manifest, zygote.base.alloc_range_manifest.1),
                libos: measure(boottime, layout.libos, zygote.base.alloc_range_libos.1),
                init: measure(boottime, layout.allocation_range, zygote.base.alloc_range.1),
            }
        },
        WASM_MODULE_ATTESTATION_COLD => {
            let trustlet = store.get(store.id_of(params.r8));
            AttestationStep::ReadModuleHeader { input: trustlet.context.channel.input }
        },
        _ => AttestationStep::Done,
    };
    Ok(step)
}

/// A page with a key at its start, and a 0 behind the key.
pub open spec fn with_key(page: Seq<u8>, key: Seq<u8>) -> Seq<u8> {
    key + seq![0u8] + page.skip(KEY_SIZE + 1)
}

/// Writes the public key of the monitor to the start of a page of the guest, and a 0 behind it.
pub fn get_public_key(target: &mut [u8; 4096], public_key: &[u8; 32])
    ensures
        final(target)@ == public_key@ + seq![0u8] + old(target)@.skip(KEY_SIZE + 1),
        final(target)@ == with_key(old(target)@, public_key@),
{
    let mut i: usize = 0;
    while i < KEY_SIZE
        invariant
            i <= KEY_SIZE,
            target@.len() == 4096,
            forall|k: int| 0 <= k < i ==> target@[k] == public_key@[k],
            forall|k: int| i <= k < 4096 ==> target@[k] == old(target)@[k],
        decreases KEY_SIZE - i,
    {
        target[i] = public_key[i];
        i = i + 1;
    }
    target[KEY_SIZE] = 0;
    assert(target@ =~= public_key@ + seq![0u8] + old(target)@.skip(KEY_SIZE + 1));
}

/// The first `size` bytes of two pages.
pub open spec fn joined_pages(first: Seq<u8>, second: Seq<u8>, size: int) -> Seq<u8> {
    (first + second).take(size)
}

/// Joins the two pages that a program came in: it is the first `elf_size` bytes of them.
pub fn exec_elf(page1_data: &[u8; 4096], page2_data: &[u8; 4096], elf_size: u32) -> (elf: Vec<u8>)
    requires
        elf_size <= 2 * PAGE_SIZE,
    ensures
        elf@ == (page1_data@ + page2_data@).take(elf_size as int),
        elf@ == joined_pages(page1_data@, page2_data@, elf_size as int),
{
    let mut elf: Vec<u8> = Vec::new();
    let size = elf_size as usize;
    let mut i: usize = 0;
    while i < size
        invariant
            i <= size <= 8192,
            elf@ == (page1_data@ + page2_data@).take(i as int),
        decreases size - i,
    {
        if i < PAGE_SIZE {
            elf.push(page1_data[i]);
        } else {
            elf.push(page2_data[i - PAGE_SIZE]);
        }
        i += 1;
        assert(elf@ =~= (page1_data@ + page2_data@).take(i as int));
    }
    elf
}

/// An encrypted policy.
#[derive(Clone, Copy, Debug, PartialEq, Eq)]
pub struct EncryptedPolicy {
    /// The physical page that it lies in.
    pub data: u64,
    /// Its size.
    pub size: u32,
    /// The physical page that the sender's public key lies in.
    pub sender_key: u64,
    /// The nonce that it was encrypted with.
    pub nonce: [u8; 24],
}

/// The policy that a request hands over: R8 has its page, RDX its size and RCX the page of the
/// sender's key.  The nonce is all zeros.
pub open spec fn policy_of(params: RequestParams) -> EncryptedPolicy {
    EncryptedPolicy {
        data: params.r8,
        size: params.rdx as u32,
        sender_key: params.rcx,
        nonce: vstd::array::spec_array_fill_for_copy_type::<u8, 24>(0u8),
    }
}

/// Takes a policy.
pub fn send_policy(params: &RequestParams) -> (policy: EncryptedPolicy)
    requires
        params.rdx <= u32::MAX,
    ensures
        policy == policy_of(*params),
{
    let nonce: [u8; 24] = [0;24];
    EncryptedPolicy { data: params.r8, size: params.rdx as u32, sender_key: params.rcx, nonce }
}

/// Each report begins with the one before it: that of a runtime with that of the secure processor,
/// that of a module with that of its runtime, and that of an execution with that of its module.
/// Each digest adds 64 bytes.
pub proof fn law_reports_extend_each_other(
    snp: Seq<u8>,
    known: ProcessMeasurements,
    module_id: int,
    input_hash: [u8; 64],
    output_hash: [u8; 64],
)
    ensures
        ({
            let runtime = runtime_report(snp, known);
            let module = module_report(snp, known, module_digest(known, module_id));
            let execution = execution_report(snp, known, module_id, input_hash, output_hash);
            &&& snp.is_prefix_of(runtime)
            &&& runtime.is_prefix_of(module)
            &&& module.is_prefix_of(execution)
            &&& runtime.len() == snp.len() + 128
            &&& module.len() == snp.len() + 192
            &&& execution.len() == snp.len() + 384
        }),
{
    let runtime = runtime_report(snp, known);
    let module = module_report(snp, known, module_digest(known, module_id));
    let execution = execution_report(snp, known, module_id, input_hash, output_hash);
    assert(snp =~= runtime.subrange(0, snp.len() as int));
    assert(runtime =~= module.subrange(0, runtime.len() as int));
    assert(module =~= execution.subrange(0, module.len() as int));
}

/// A report says what was measured: two reports of executions under the same report of the secure
/// processor are equal only where every digest in them is.
pub proof fn law_report_determines_digests(
    snp: Seq<u8>,
    left: ProcessMeasurements,
    left_module: int,
    left_input: [u8; 64],
    left_output: [u8; 64],
    right: ProcessMeasurements,
    right_module: int,
    right_input: [u8; 64],
    right_output: [u8; 64],
)
    requires
        execution_report(snp, left, left_module, left_input, left_output) == execution_report(
            snp,
            right,
            right_module,
            right_input,
            right_output,
        ),
    ensures
        left.init_measurement@ == right.init_measurement@,
        left.runtime_measurement@ == right.runtime_measurement@,
        module_digest(left, left_module)@ == module_digest(right, right_module)@,
        env_digest(left, left_module)@ == env_digest(right, right_module)@,
        left_input@ == right_input@,
        left_output@ == right_output@,
{
    let a = execution_report(snp, left, left_module, left_input, left_output);
    let b = execution_report(snp, right, right_module, right_input, right_output);
    let n = snp.len() as int;
    assert(a.subrange(n, n + 64) =~= left.init_measurement@);
    assert(b.subrange(n, n + 64) =~= right.init_measurement@);
    assert(a.subrange(n + 64, n + 128) =~= left.runtime_measurement@);
    assert(b.subrange(n + 64, n + 128) =~= right.runtime_measurement@);
    assert(a.subrange(n + 128, n + 192) =~= module_digest(left, left_module)@);
    assert(b.subrange(n + 128, n + 192) =~= module_digest(right, right_module)@);
    assert(a.subrange(n + 192, n + 256) =~= env_digest(left, left_module)@);
    assert(b.subrange(n + 192, n + 256) =~= env_digest(right, right_module)@);
    assert(a.subrange(n + 256, n + 320) =~= left_input@);
    assert(b.subrange(n + 256, n + 320) =~= right_input@);
    assert(a.subrange(n + 320, n + 384) =~= left_output@);
    assert(b.subrange(n + 320, n + 384) =~= right_output@);
}

/// The report of the secure processor is fetched once: when it was fetched to be kept, every later
/// request for it gives that very report.  A report that is not kept changes nothing for the
/// requests after it.
pub proof fn law_kept_report_is_given_again(
    kept: Option<Seq<u8>>,
    report: Seq<u8>,
    params: RequestParams,
)
    ensures
        monitor_report_step(kept_after(kept, true, report), params) == (AttestationAsk::CopyBack {
            page: params.rcx,
            report,
        }),
        monitor_report_step(kept_after(kept, false, report), params) == monitor_report_step(
            kept,
            params,
        ),
{
}

/// A report that was copied back is found at the start of the page, and the rest of the page is
/// what it was.
pub proof fn law_copied_report_is_read_back(page: Seq<u8>, report: Seq<u8>)
    requires
        page.len() == PAGE_SIZE,
        report.len() <= PAGE_SIZE,
    ensures
        with_report(page, report).len() == PAGE_SIZE,
        with_report(page, report).take(report.len() as int) == report,
        with_report(page, report).skip(report.len() as int) == page.skip(report.len() as int),
{
    assert(with_report(page, report).take(report.len() as int) =~= report);
    assert(with_report(page, report).skip(report.len() as int) =~= page.skip(report.len() as int));
}

} // verus!
