//! The requests of the guest.
use vstd::prelude::*;

use crate::attestation;
use crate::attestation::{
    AttestationAsk, AttestationStep, EncryptedPolicy, MONITOR_ATTESTATION,
    PREPARE_WAMR_RUNTIME_ATTESTATION_COLD, WAMR_RUNTIME_ATTESTATION, WAMR_RUNTIME_ATTESTATION_COLD,
    WASM_MODULE_ATTESTATION, WASM_MODULE_ATTESTATION_COLD,
};
use crate::invocation;
use crate::measurements::MAX_WASM_MODULES;
use crate::monitor::{Monitor, MonitorState};
use crate::process;
use crate::process::{ProcessState, TrustedProcess, TrustedProcessType, PROCESS_STORE_SIZE};
use crate::process_cow;
use crate::process_cow::{create_trusted_process, delete_trusted_process, CreationStep};
use crate::protocol::{GuestCopy, RequestParams, SvsmReqError, SvsmResultCode};
use crate::stats::Stats;

verus! {

/// Set the monitor up.
pub const MONITOR_INIT: u32 = 0;

/// Make a report.
pub const DIFF_ATTEST: u32 = 2;

/// Make a zygote.
pub const CREATE_ZYGOTE: u32 = 4;

/// Delete a zygote.
pub const DELETE_ZYGOTE: u32 = 5;

/// Let a trustlet run.
pub const INVOKE_TRUSTLET: u32 = 8;

/// Join two trustlets.
pub const CREATE_CHANNEL: u32 = 10;

/// Give the public key of the monitor.
pub const GET_PUBLIC_KEY: u32 = 30;

/// Take a policy.
pub const SEND_POLICY: u32 = 31;

/// Report the counters.
pub const GET_STAT: u32 = 100;

/// Reset the counters.
pub const RESET_STAT: u32 = 101;

/// How a request goes on.
#[derive(Debug)]
pub enum MonitorStep {
    /// There is nothing more to do.
    Done,
    /// A report is made.
    Attest(AttestationStep),
    /// A process is made.
    Create(CreationStep),
    /// The memory of a process that was deleted is freed.
    Free(TrustedProcess),
    /// What a trustlet runs with is read.
    Invoke(GuestCopy),
    /// The page tables of the trustlets whose registers lie there are joined.
    Join { first_vmsa: u64, second_vmsa: u64 },
    /// The public key goes to the physical page `page`.
    PublicKey { page: u64 },
    /// A policy is decrypted.
    Policy(EncryptedPolicy),
    /// The counters are reported.
    ReportStats(Stats),
}

/// How a request goes on, with its collections as mathematical ones.
pub enum MonitorAsk {
    Done,
    Attest(AttestationAsk),
    Create(CreationStep),
    Free(ProcessState),
    Invoke(GuestCopy),
    Join { first_vmsa: u64, second_vmsa: u64 },
    PublicKey { page: u64 },
    Policy(EncryptedPolicy),
    ReportStats(Stats),
}

impl View for MonitorStep {
    type V = MonitorAsk;

    open spec fn view(&self) -> MonitorAsk {
        match *self {
            MonitorStep::Done => MonitorAsk::Done,
            MonitorStep::Attest(step) => MonitorAsk::Attest(step@),
            MonitorStep::Create(step) => MonitorAsk::Create(step),
            MonitorStep::Free(process) => MonitorAsk::Free(process@),
            MonitorStep::Invoke(copy) => MonitorAsk::Invoke(copy),
            MonitorStep::Join { first_vmsa, second_vmsa } => MonitorAsk::Join {
                first_vmsa,
                second_vmsa,
            },
            MonitorStep::PublicKey { page } => MonitorAsk::PublicKey { page },
            MonitorStep::Policy(policy) => MonitorAsk::Policy(policy),
            MonitorStep::ReportStats(stats) => MonitorAsk::ReportStats(stats),
        }
    }
}

/// The counters, to be reported.
pub fn get_stat(monitor: &Monitor) -> (stats: Stats)
    ensures
        stats == monitor@.stats,
{
    monitor.stats
}

/// The counters after a reset: pages are counted on.
pub open spec fn stats_reset(stats: Stats) -> Stats {
    Stats { pvalidate: 0, page_faults: 0, cow: 0, ..stats }
}

/// Resets the counters of validated pages and of faults.
pub fn reset_stat(monitor: &mut Monitor)
    ensures
        final(monitor)@ == (MonitorState {
            stats: stats_reset(old(monitor)@.stats),
            ..old(monitor)@
        }),
{
    monitor.stats.pvalidate = 0;
    monitor.stats.page_faults = 0;
    monitor.stats.cow = 0;
}

/// What a request for a report leads to.
pub open spec fn report_step(state: MonitorState, params: RequestParams) -> AttestationAsk {
    attestation::attestation_step(
        state.slots,
        state.kept,
        params,
        state.features.boottime,
        state.layout,
    )
}

/// Begins a report: RDX has its kind.
pub fn diff_attestation(monitor: &Monitor, params: &RequestParams) -> (result: Result<
    AttestationStep,
    SvsmReqError,
>)
    requires
        attestation::attestation_ready(monitor@.slots, monitor@.kept, *params),
    ensures
        result matches Ok(step) && step@ == report_step(monitor@, *params),
{
    attestation::diff_attestation(
        &monitor.store,
        &monitor.reports,
        params,
        monitor.features.boottime,
        &monitor.layout,
    )
}

/// The registers of a request to set the monitor up: a report of the secure processor is made, with
/// no page for it.  A report that has to be fetched first is then handed to nobody; one that is
/// kept already goes to the physical page 0.
pub open spec fn init_params(params: RequestParams) -> RequestParams {
    RequestParams { rcx: 0, rdx: MONITOR_ATTESTATION, ..params }
}

/// Begins a report of the secure processor, with no page for it.
fn monitor_init(monitor: &Monitor, params: &mut RequestParams) -> (result: Result<
    AttestationStep,
    SvsmReqError,
>)
    ensures
        *final(params) == init_params(*old(params)),
        result matches Ok(step) && step@ == report_step(monitor@, init_params(*old(params))),
{
    params.rdx = MONITOR_ATTESTATION;
    params.rcx = 0;
    diff_attestation(monitor, params)
}

/// What becomes of the monitor, and of the registers, when a request is served.
pub open spec fn after_call(request: u32, state: MonitorState, params: RequestParams) -> (
    MonitorState,
    RequestParams,
) {
    if request == MONITOR_INIT {
        (state, init_params(params))
    } else if request == DELETE_ZYGOTE && !process_cow::deletion_refused(
        state.slots,
        params.rcx as int,
    ) {
        (
            MonitorState {
                slots: state.slots.update(params.rcx as int, process::no_process()),
                ..state
            },
            params,
        )
    } else if request == RESET_STAT {
        (MonitorState { stats: stats_reset(state.stats), ..state }, params)
    } else {
        (state, params)
    }
}

/// How a request goes on, or why it is refused.
pub open spec fn call_answer(request: u32, state: MonitorState, params: RequestParams) -> Result<
    MonitorAsk,
    SvsmReqError,
> {
    if request == MONITOR_INIT {
        Ok(MonitorAsk::Attest(report_step(state, init_params(params))))
    } else if request == DIFF_ATTEST {
        Ok(MonitorAsk::Attest(report_step(state, params)))
    } else if request == CREATE_ZYGOTE {
        Ok(MonitorAsk::Create(process_cow::creation_step(params, TrustedProcessType::Zygote)))
    } else if request == DELETE_ZYGOTE {
        if process_cow::deletion_refused(state.slots, params.rcx as int) {
            Err(SvsmReqError::RequestError(SvsmResultCode::InvalidParameter))
        } else {
            Ok(MonitorAsk::Free(state.slots[params.rcx as int]))
        }
    } else if request == GET_PUBLIC_KEY {
        Ok(MonitorAsk::PublicKey { page: params.rcx })
    } else if request == SEND_POLICY {
        Ok(MonitorAsk::Policy(attestation::policy_of(params)))
    } else if request == INVOKE_TRUSTLET {
        Ok(
            MonitorAsk::Invoke(
                GuestCopy { addr: params.r8, size: params.r9, page_table: params.rdx },
            ),
        )
    } else if request == CREATE_CHANNEL {
        Ok(
            MonitorAsk::Join {
                first_vmsa: state.slots[params.rcx as int].context.vmsa,
                second_vmsa: state.slots[params.rdx as int].context.vmsa,
            },
        )
    } else if request == GET_STAT {
        Ok(MonitorAsk::ReportStats(state.stats))
    } else if request == RESET_STAT {
        Ok(MonitorAsk::Done)
    } else {
        Err(SvsmReqError::RequestError(SvsmResultCode::UnsupportedCall))
    }
}

/// Whether a request names processes that exist, and hands over sizes that make sense.
pub open spec fn request_fits(request: u32, state: MonitorState, params: RequestParams) -> bool {
    &&& request == DIFF_ATTEST ==> attestation::attestation_ready(state.slots, state.kept, params)
    &&& request == DELETE_ZYGOTE ==> state.slots.len() == PROCESS_STORE_SIZE && params.rcx
        < state.slots.len()
    &&& request == CREATE_CHANNEL ==> params.rcx < state.slots.len() && params.rdx
        < state.slots.len()
    &&& request == SEND_POLICY ==> params.rdx <= u32::MAX
}

/// Begins to serve a request of the guest.
pub fn monitor_call_handler(
    request: u32,
    monitor: &mut Monitor,
    params: &mut RequestParams,
) -> (result: Result<MonitorStep, SvsmReqError>)
    requires
        request_fits(request, old(monitor)@, *old(params)),
    ensures
        (final(monitor)@, *final(params)) == after_call(request, old(monitor)@, *old(params)),
        match result {
            Ok(step) => call_answer(request, old(monitor)@, *old(params)) == Ok::<
                MonitorAsk,
                SvsmReqError,
            >(step@),
            Err(error) => call_answer(request, old(monitor)@, *old(params)) == Err::<
                MonitorAsk,
                SvsmReqError,
            >(error),
        },
{
    match request {
        MONITOR_INIT => match monitor_init(monitor, params) {
            Ok(step) => Ok(MonitorStep::Attest(step)),
            Err(error) => Err(error),
        },
        DIFF_ATTEST => match diff_attestation(monitor, params) {
            Ok(step) => Ok(MonitorStep::Attest(step)),
            Err(error) => Err(error),
        },
        CREATE_ZYGOTE => Ok(
            MonitorStep::Create(create_trusted_process(params, TrustedProcessType::Zygote)),
        ),
        DELETE_ZYGOTE => match delete_trusted_process(&mut monitor.store, params) {
            Ok(process) => Ok(MonitorStep::Free(process)),
            Err(error) => Err(error),
        },
        GET_PUBLIC_KEY => Ok(MonitorStep::PublicKey { page: params.rcx }),
        SEND_POLICY => Ok(MonitorStep::Policy(attestation::send_policy(params))),
        INVOKE_TRUSTLET => Ok(MonitorStep::Invoke(invocation::invoke_trustlet(params))),
        CREATE_CHANNEL => {
            let first = monitor.store.id_of(params.rcx);
            let second = monitor.store.id_of(params.rdx);
            Ok(
                MonitorStep::Join {
                    first_vmsa: monitor.store.get(first).context.vmsa,
                    second_vmsa: monitor.store.get(second).context.vmsa,
                },
            )
        },
        GET_STAT => Ok(MonitorStep::ReportStats(get_stat(monitor))),
        RESET_STAT => {
            reset_stat(monitor);
            Ok(MonitorStep::Done)
        },
        _ => Err(SvsmReqError::unsupported_call()),
    }
}

/// Whether a request for a report can be served.
fn can_attest(monitor: &Monitor, params: &RequestParams) -> (ready: bool)
    ensures
        ready == attestation::attestation_ready(monitor@.slots, monitor@.kept, *params),
{
    let kept = monitor.reports.get_snp_report().is_some();
    match params.rdx {
        WAMR_RUNTIME_ATTESTATION => params.r8 < monitor.store.len() as u64 && kept,
        WASM_MODULE_ATTESTATION => {
            if params.r8 >= monitor.store.len() as u64 {
                return false;
            }
            let process = monitor.store.get(monitor.store.id_of(params.r8));
            kept || params.r9 >= MAX_WASM_MODULES as u64 || params.r9
                >= process.measurements.wasm_module_count as u64
        },
        PREPARE_WAMR_RUNTIME_ATTESTATION_COLD
        | WAMR_RUNTIME_ATTESTATION_COLD
        | WASM_MODULE_ATTESTATION_COLD => params.r8 < monitor.store.len() as u64,
        _ => true,
    }
}

/// Whether a request of the guest can be served.
pub fn can_handle(request: u32, monitor: &Monitor, params: &RequestParams) -> (ready: bool)
    ensures
        ready == request_fits(request, monitor@, *params),
{
    match request {
        DIFF_ATTEST => can_attest(monitor, params),
        DELETE_ZYGOTE => monitor.store.len() == PROCESS_STORE_SIZE as usize && params.rcx
            < monitor.store.len() as u64,
        CREATE_CHANNEL => params.rcx < monitor.store.len() as u64 && params.rdx
            < monitor.store.len() as u64,
        SEND_POLICY => params.rdx <= u32::MAX as u64,
        _ => true,
    }
}

/// A request that is refused changes nothing: neither the monitor nor the registers.
pub proof fn law_refused_request_changes_nothing(
    request: u32,
    state: MonitorState,
    params: RequestParams,
)
    requires
        call_answer(request, state, params) is Err,
    ensures
        after_call(request, state, params) == (state, params),
{
}

/// Whatever the guest asks for, no trustlet is left without its zygote.
pub proof fn law_requests_leave_no_orphans(
    request: u32,
    state: MonitorState,
    params: RequestParams,
)
    requires
        request_fits(request, state, params),
        process_cow::no_orphans(state.slots),
    ensures
        process_cow::no_orphans(after_call(request, state, params).0.slots),
{
    if request == DELETE_ZYGOTE && !process_cow::deletion_refused(state.slots, params.rcx as int) {
        process_cow::law_deletion_leaves_no_orphans(state.slots, params.rcx as int);
    }
}

/// Whatever the guest asks for, the protection keys, the kept report and the tables of the
/// trustlets stay as they are, and only a reset changes the counters.
pub proof fn law_requests_keep_the_rest(request: u32, state: MonitorState, params: RequestParams)
    ensures
        ({
            let after = after_call(request, state, params).0;
            &&& after.mpk == state.mpk
            &&& after.kept == state.kept
            &&& after.tables == state.tables
            &&& after.features == state.features
            &&& after.layout == state.layout
            &&& request != RESET_STAT ==> after.stats == state.stats
            &&& request != DELETE_ZYGOTE ==> after.slots == state.slots
        }),
{
}

} // verus!
