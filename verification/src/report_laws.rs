//! What stands in each report, byte by byte, and where a report goes.
//!
//! Kinds of reports and positions are written out as numbers here.
use vstd::prelude::*;

use crate::attestation;
use crate::attestation::{AttestationAsk, FunctionData};
use crate::input;
use crate::layout::MemoryLayout;
use crate::measurements;
use crate::measurements::{Measurement, ProcessMeasurements};
use crate::process::ProcessState;
use crate::protocol::{GuestCopy, RequestParams};

verus! {

/// Whether every byte of a digest is 0.
pub open spec fn all_zero(digest: Seq<u8>) -> bool {
    digest.len() == 64 && forall|i: int| 0 <= i < 64 ==> digest[i] == 0
}

/// Whether a digest is come by as it has to be: from the memory from `start`, `size` bytes of it,
/// and where nothing is measured it is all zeros.
pub open spec fn comes_from(
    measurement: Measurement,
    boottime: bool,
    start: u64,
    size: u64,
) -> bool {
    match measurement {
        Measurement::Known(digest) => boottime && all_zero(digest@),
        Measurement::Region { start: from, size: len } => !boottime && from == start && len == size,
    }
}

/// Memory is measured from where it begins to where it ends; where nothing is measured the digest
/// is all zeros.
pub proof fn law_memory_is_measured(boottime: bool, start: u64, size: u64)
    ensures
        comes_from(measurements::measured(boottime, start, size), boottime, start, size),
{
}

/// Of a process that was not measured every digest is all zeros, and it has no module.
pub proof fn law_unmeasured_is_zero(module: int)
    requires
        0 <= module < 15,
    ensures
        ({
            let none = measurements::no_measurements();
            &&& all_zero(none.init_measurement@)
            &&& all_zero(none.runtime_measurement@)
            &&& all_zero(none.manifest_measurement@)
            &&& all_zero(none.libos_measurement@)
            &&& all_zero(none.function_measurement@)
            &&& all_zero(none.wasm_module_measurements@[module]@)
            &&& all_zero(none.env_hash@[module]@)
            &&& all_zero(none.input_data@)
            &&& all_zero(none.output_data@)
            &&& none.wasm_module_count == 0
        }),
{
}

/// The digest of one more module is kept under the next number, while there are fewer than fifteen,
/// and nothing else changes; after fifteen it changes nothing.
pub proof fn law_modules_are_numbered(known: ProcessMeasurements, digest: [u8; 64], module: int)
    requires
        0 <= module < 15,
    ensures
        ({
            let after = measurements::with_module(known, digest);
            let count = known.wasm_module_count;
            &&& count >= 15 ==> after == known
            &&& count < 15 ==> {
                &&& after.wasm_module_count == count + 1
                &&& after.wasm_module_measurements@[module] == (if module == count {
                    digest
                } else {
                    known.wasm_module_measurements@[module]
                })
                &&& after == (ProcessMeasurements {
                    wasm_module_count: after.wasm_module_count,
                    wasm_module_measurements: after.wasm_module_measurements,
                    ..known
                })
            }
        }),
{
}

/// The digest of an environment is kept under the number of the module that was measured last, and
/// under 0 where none was; nothing else changes.
pub proof fn law_environments_are_numbered(
    known: ProcessMeasurements,
    digest: [u8; 64],
    module: int,
)
    requires
        0 <= module < 15,
    ensures
        ({
            let after = measurements::with_env_hash(known, digest);
            let count = known.wasm_module_count;
            &&& after.env_hash@[module] == (if module + 1 == count || module == 0 && count == 0 {
                digest
            } else {
                known.env_hash@[module]
            })
            &&& after == (ProcessMeasurements { env_hash: after.env_hash, ..known })
        }),
{
}

/// The report of a runtime: the report of the secure processor, then the digest of the program that
/// the process starts with, then that of the configuration of the runtime.
pub proof fn law_runtime_report_bytes(snp: Seq<u8>, known: ProcessMeasurements)
    ensures
        ({
            let report = attestation::runtime_report(snp, known);
            let n = snp.len() as int;
            &&& report.len() == n + 128
            &&& report.subrange(0, n) == snp
            &&& report.subrange(n, n + 64) == known.init_measurement@
            &&& report.subrange(n + 64, n + 128) == known.runtime_measurement@
        }),
{
    let report = attestation::runtime_report(snp, known);
    let n = snp.len() as int;
    assert(report.subrange(0, n) =~= snp);
    assert(report.subrange(n, n + 64) =~= known.init_measurement@);
    assert(report.subrange(n + 64, n + 128) =~= known.runtime_measurement@);
}

/// The report of a module: the report of its runtime, then the digest of the module.
pub proof fn law_module_report_bytes(snp: Seq<u8>, known: ProcessMeasurements, digest: [u8; 64])
    ensures
        ({
            let report = attestation::module_report(snp, known, digest);
            let n = snp.len() as int;
            &&& report.len() == n + 192
            &&& report.subrange(0, n) == snp
            &&& report.subrange(n, n + 64) == known.init_measurement@
            &&& report.subrange(n + 64, n + 128) == known.runtime_measurement@
            &&& report.subrange(n + 128, n + 192) == digest@
        }),
{
    let report = attestation::module_report(snp, known, digest);
    let n = snp.len() as int;
    assert(report.subrange(0, n) =~= snp);
    assert(report.subrange(n, n + 64) =~= known.init_measurement@);
    assert(report.subrange(n + 64, n + 128) =~= known.runtime_measurement@);
    assert(report.subrange(n + 128, n + 192) =~= digest@);
}

/// The report of an execution: the report of the secure processor, the digests of the program and
/// of the configuration, the digests of the very module that is named and of its environment, both
/// all zeros where that module was not measured, and then those of the input and of the output.
pub proof fn law_execution_report_bytes(
    snp: Seq<u8>,
    known: ProcessMeasurements,
    module_id: int,
    input_hash: [u8; 64],
    output_hash: [u8; 64],
)
    ensures
        ({
            let report = attestation::execution_report(
                snp,
                known,
                module_id,
                input_hash,
                output_hash,
            );
            let n = snp.len() as int;
            let measured = 0 <= module_id < 15 && module_id < known.wasm_module_count;
            &&& report.len() == n + 384
            &&& report.subrange(0, n) == snp
            &&& report.subrange(n, n + 64) == known.init_measurement@
            &&& report.subrange(n + 64, n + 128) == known.runtime_measurement@
            &&& measured ==> report.subrange(n + 128, n + 192)
                == known.wasm_module_measurements@[module_id]@
            &&& measured ==> report.subrange(n + 192, n + 256) == known.env_hash@[module_id]@
            &&& !measured ==> all_zero(report.subrange(n + 128, n + 192))
            &&& !measured ==> all_zero(report.subrange(n + 192, n + 256))
            &&& report.subrange(n + 256, n + 320) == input_hash@
            &&& report.subrange(n + 320, n + 384) == output_hash@
        }),
{
    let report = attestation::execution_report(snp, known, module_id, input_hash, output_hash);
    let n = snp.len() as int;
    assert(report.subrange(0, n) =~= snp);
    assert(report.subrange(n, n + 64) =~= known.init_measurement@);
    assert(report.subrange(n + 64, n + 128) =~= known.runtime_measurement@);
    if 0 <= module_id < 15 && module_id < known.wasm_module_count {
        assert(report.subrange(n + 128, n + 192)
            =~= known.wasm_module_measurements@[module_id]@);
        assert(report.subrange(n + 192, n + 256) =~= known.env_hash@[module_id]@);
    }
    assert(report.subrange(n + 256, n + 320) =~= input_hash@);
    assert(report.subrange(n + 320, n + 384) =~= output_hash@);
}

/// What is recorded of a module is what its report shows: its digest and then, right after it,
/// that of its environment.  The reports of the modules before it show what they showed.
pub proof fn law_recorded_environment_is_reported(
    snp: Seq<u8>,
    known: ProcessMeasurements,
    module: [u8; 64],
    env: [u8; 64],
    earlier: int,
    input_hash: [u8; 64],
    output_hash: [u8; 64],
)
    requires
        known.wasm_module_count < 15,
    ensures
        ({
            let after = measurements::with_env_hash(measurements::with_module(known, module), env);
            let n = snp.len() as int;
            let report = attestation::execution_report(
                snp,
                after,
                known.wasm_module_count as int,
                input_hash,
                output_hash,
            );
            &&& report.subrange(n + 128, n + 192) == module@
            &&& report.subrange(n + 192, n + 256) == env@
            &&& 0 <= earlier < known.wasm_module_count ==> attestation::execution_report(
                snp,
                after,
                earlier,
                input_hash,
                output_hash,
            ) == attestation::execution_report(snp, known, earlier, input_hash, output_hash)
        }),
{
    let after = measurements::with_env_hash(measurements::with_module(known, module), env);
    law_execution_report_bytes(
        snp,
        after,
        known.wasm_module_count as int,
        input_hash,
        output_hash,
    );
}

/// A report goes to the physical page that RCX names, whole, and nowhere where RCX is 0.
pub proof fn law_report_goes_where_it_is_wanted(params: RequestParams, report: Seq<u8>)
    ensures
        params.rcx != 0 ==> attestation::handed_over(params, report) == (AttestationAsk::CopyBack {
            page: params.rcx,
            report,
        }),
        params.rcx == 0 ==> attestation::handed_over(params, report) == AttestationAsk::Done,
{
}

/// The kind of a report is the number in RDX.  R8 names the process and R9 the module, but for the
/// report of an execution (3), where R9 has the address of what the guest says of it and R8 the
/// page table of the guest.  A number that no report has leads to nothing.
pub proof fn law_kinds_of_reports(
    slots: Seq<ProcessState>,
    kept: Option<Seq<u8>>,
    params: RequestParams,
    boottime: bool,
    layout: MemoryLayout,
)
    ensures
        ({
            let step = attestation::attestation_step(slots, kept, params, boottime, layout);
            let process = slots[params.r8 as int];
            let module = params.r9 as int;
            let measured = module < 15 && module < process.measurements.wasm_module_count;
            &&& params.rdx == 0 ==> step == match kept {
                Some(report) => AttestationAsk::CopyBack { page: params.rcx, report },
                None => AttestationAsk::FetchReport { keep: true },
            }
            &&& params.rdx == 1 ==> step == attestation::handed_over(
                params,
                attestation::runtime_report(kept->0, process.measurements),
            )
            &&& params.rdx == 2 && measured ==> step == attestation::handed_over(
                params,
                attestation::module_report(
                    kept->0,
                    process.measurements,
                    process.measurements.wasm_module_measurements@[module],
                ),
            )
            &&& params.rdx == 2 && !measured ==> step == AttestationAsk::Done
            &&& params.rdx == 3 ==> step == AttestationAsk::ReadFunctionData(
                GuestCopy { addr: params.r9, size: 4096, page_table: params.r8 },
            )
            &&& params.rdx == 4 ==> step == (AttestationAsk::FetchReport { keep: false })
            &&& params.rdx == 5 ==> step == (AttestationAsk::PrepareRuntime {
                range: process.base.alloc_range,
                page_table: process.base.page_table_ref.process_page_table,
            })
            &&& params.rdx == 6 ==> (step matches AttestationAsk::MeasureRuntime {
                manifest,
                libos,
                init,
            } && comes_from(
                manifest,
                boottime,
                layout.manifest,
                process.base.alloc_range_manifest.1,
            ) && comes_from(libos, boottime, layout.libos, process.base.alloc_range_libos.1)
                && comes_from(
                init,
                boottime,
                layout.allocation_range,
                process.base.alloc_range.1,
            ))
            &&& params.rdx == 7 ==> step == (AttestationAsk::ReadModuleHeader {
                input: process.context.channel.input,
            })
            &&& params.rdx > 7 ==> step == AttestationAsk::Done
        }),
{
}

/// What the guest says of an execution: the process and the module, then the size and the address
/// of the input, then those of the output.
pub proof fn law_words_of_an_execution(words: Seq<u64>, page_table: u64)
    ensures
        attestation::function_data(words, page_table) == (FunctionData {
            trustlet_id: words[0],
            module_id: words[1],
            fn_input: GuestCopy { size: words[2], addr: words[3], page_table },
            fn_output: GuestCopy { size: words[4], addr: words[5], page_table },
        }),
{
}

/// To measure a runtime anew, the monitor sees what the process has in the two parts of its address
/// space, 512 GiB each, that the manifest and the library operating system lie in, and its own
/// memory everywhere else.
pub proof fn law_runtime_becomes_visible(
    monitor: [u64; 512],
    process: [u64; 512],
    layout: MemoryLayout,
    part: int,
)
    requires
        0 <= part < 512,
    ensures
        attestation::with_runtime_entries(monitor, process, layout)@[part] == (if (layout.manifest
            as int / 0x80_0000_0000) % 512 == part || (layout.libos as int / 0x80_0000_0000) % 512
            == part {
            process@[part]
        } else {
            monitor@[part]
        }),
{
}

/// A module that is measured anew is the one in the input; where there is none the digest is all
/// zeros.
pub proof fn law_module_is_measured_anew(boottime: bool, layout: MemoryLayout, header: Seq<u8>)
    ensures
        ({
            let measurement = attestation::module_measured(boottime, layout, header);
            match input::module_region(layout.allocation_range, header) {
                Some((start, size)) => comes_from(measurement, boottime, start, size),
                None => measurement matches Measurement::Known(digest) && all_zero(digest@),
            }
        }),
{
}

/// A policy lies in the page that R8 names, as many bytes of it as RDX says, and the key of its
/// sender in the page that RCX names.  The nonce is all zeros.
pub proof fn law_policy_is_where_the_guest_says(params: RequestParams, index: int)
    requires
        params.rdx <= u32::MAX,
        0 <= index < 24,
    ensures
        ({
            let policy = attestation::policy_of(params);
            &&& policy.data == params.r8
            &&& policy.size == params.rdx
            &&& policy.sender_key == params.rcx
            &&& policy.nonce@[index] == 0
        }),
{
}

/// The report of an execution is that of the process and of the module that the guest names.
pub proof fn law_report_is_of_the_named_execution(
    slots: Seq<ProcessState>,
    snp: Seq<u8>,
    data: FunctionData,
    input_hash: [u8; 64],
    output_hash: [u8; 64],
)
    requires
        data.trustlet_id < slots.len(),
    ensures
        ({
            let report = attestation::report_of(slots, snp, data, input_hash, output_hash);
            let known = slots[data.trustlet_id as int].measurements;
            let module = data.module_id as int;
            let n = snp.len() as int;
            let measured = module < 15 && module < known.wasm_module_count;
            &&& report.len() == n + 384
            &&& report.subrange(0, n) == snp
            &&& report.subrange(n, n + 64) == known.init_measurement@
            &&& report.subrange(n + 64, n + 128) == known.runtime_measurement@
            &&& measured ==> report.subrange(n + 128, n + 192)
                == known.wasm_module_measurements@[module]@
            &&& measured ==> report.subrange(n + 192, n + 256) == known.env_hash@[module]@
            &&& !measured ==> all_zero(report.subrange(n + 128, n + 192))
            &&& !measured ==> all_zero(report.subrange(n + 192, n + 256))
            &&& report.subrange(n + 256, n + 320) == input_hash@
            &&& report.subrange(n + 320, n + 384) == output_hash@
        }),
{
    law_execution_report_bytes(
        snp,
        slots[data.trustlet_id as int].measurements,
        data.module_id as int,
        input_hash,
        output_hash,
    );
}

/// The report of a runtime that was measured anew shows the digest that was found, in place of the
/// one that is known of the program, and the digest of the configuration that is known.
pub proof fn law_cold_report_shows_what_was_found(
    snp: Seq<u8>,
    known: ProcessMeasurements,
    found: [u8; 64],
)
    ensures
        ({
            let report = attestation::cold_runtime_report(snp, known, found);
            let n = snp.len() as int;
            &&& report.len() == n + 128
            &&& report.subrange(0, n) == snp
            &&& report.subrange(n, n + 64) == found@
            &&& report.subrange(n + 64, n + 128) == known.runtime_measurement@
        }),
{
    law_runtime_report_bytes(snp, ProcessMeasurements { init_measurement: found, ..known });
}

/// The report of the secure processor is kept where it was fetched to be kept, and what was kept
/// before stays where it was not.
pub proof fn law_report_is_kept_on_demand(kept: Option<Seq<u8>>, report: Seq<u8>)
    ensures
        attestation::kept_after(kept, true, report) == Some(report),
        attestation::kept_after(kept, false, report) == kept,
{
}

} // verus!
