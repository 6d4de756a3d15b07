//! What the guest gets for each request, whatever the monitor knows.
//!
//! Requests are written out as numbers here.
use vstd::prelude::*;

use crate::attestation;
use crate::call_handler;
use crate::call_handler::MonitorAsk;
use crate::monitor;
use crate::monitor::MonitorState;
use crate::process;
use crate::process_cow;
use crate::process_cow::CreationStep;
use crate::protocol::{GuestCopy, RequestParams, SvsmReqError, SvsmResultCode};
use crate::stats::Stats;

verus! {

/// The number of a request says what it leads to.  A request of any other number is not supported.
pub proof fn law_answers_to_requests(request: u32, state: MonitorState, params: RequestParams)
    ensures
        ({
            let answer = call_handler::call_answer(request, state, params);
            let named = params.rcx as int;
            &&& request == 0 ==> answer == Ok::<MonitorAsk, SvsmReqError>(
                MonitorAsk::Attest(
                    attestation::attestation_step(
                        state.slots,
                        state.kept,
                        RequestParams { rcx: 0, rdx: 0, ..params },
                        state.features.boottime,
                        state.layout,
                    ),
                ),
            )
            &&& request == 2 ==> answer == Ok::<MonitorAsk, SvsmReqError>(
                MonitorAsk::Attest(
                    attestation::attestation_step(
                        state.slots,
                        state.kept,
                        params,
                        state.features.boottime,
                        state.layout,
                    ),
                ),
            )
            &&& request == 4 ==> answer == Ok::<MonitorAsk, SvsmReqError>(
                MonitorAsk::Create(
                    CreationStep::ReadFiles(
                        GuestCopy { addr: params.rdx, size: params.rcx, page_table: params.r8 },
                    ),
                ),
            )
            &&& request == 5 && !process_cow::deletion_refused(state.slots, named) ==> answer
                == Ok::<MonitorAsk, SvsmReqError>(MonitorAsk::Free(state.slots[named]))
            &&& request == 5 && process_cow::deletion_refused(state.slots, named) ==> answer
                == Err::<MonitorAsk, SvsmReqError>(
                SvsmReqError::RequestError(SvsmResultCode::InvalidParameter),
            )
            &&& request == 8 ==> answer == Ok::<MonitorAsk, SvsmReqError>(
                MonitorAsk::Invoke(
                    GuestCopy { addr: params.r8, size: params.r9, page_table: params.rdx },
                ),
            )
            &&& request == 10 ==> answer == Ok::<MonitorAsk, SvsmReqError>(
                MonitorAsk::Join {
                    first_vmsa: state.slots[named].context.vmsa,
                    second_vmsa: state.slots[params.rdx as int].context.vmsa,
                },
            )
            &&& request == 30 ==> answer == Ok::<MonitorAsk, SvsmReqError>(
                MonitorAsk::PublicKey { page: params.rcx },
            )
            &&& request == 31 ==> answer == Ok::<MonitorAsk, SvsmReqError>(
                MonitorAsk::Policy(attestation::policy_of(params)),
            )
            &&& request == 100 ==> answer == Ok::<MonitorAsk, SvsmReqError>(
                MonitorAsk::ReportStats(state.stats),
            )
            &&& request == 101 ==> answer == Ok::<MonitorAsk, SvsmReqError>(MonitorAsk::Done)
            &&& !seq![0u32, 2, 4, 5, 8, 10, 30, 31, 100, 101].contains(request) ==> answer == Err::<
                MonitorAsk,
                SvsmReqError,
            >(SvsmReqError::RequestError(SvsmResultCode::UnsupportedCall))
        }),
{
    let known = seq![0u32, 2, 4, 5, 8, 10, 30, 31, 100, 101];
    assert(known[0] == 0 && known[1] == 2 && known[2] == 4 && known[3] == 5 && known[4] == 8
        && known[5] == 10 && known[6] == 30 && known[7] == 31 && known[8] == 100 && known[9]
        == 101);
}

/// A deletion empties the slot that RCX names and no other, a reset sets the counters of validated
/// pages, of page faults and of first writes to 0 and keeps the other two, and setting the monitor
/// up leaves RCX and RDX 0.  Nothing else that the monitor knows, and no other register, ever
/// changes.
pub proof fn law_effects_of_requests(
    request: u32,
    state: MonitorState,
    params: RequestParams,
    slot: int,
)
    requires
        call_handler::request_fits(request, state, params),
    ensures
        ({
            let (after, registers) = call_handler::after_call(request, state, params);
            let deleted = request == 5 && slot == params.rcx && !process_cow::deletion_refused(
                state.slots,
                slot,
            );
            &&& after.slots.len() == state.slots.len()
            &&& 0 <= slot < state.slots.len() ==> after.slots[slot] == (if deleted {
                process::no_process()
            } else {
                state.slots[slot]
            })
            &&& after.stats == (if request == 101 {
                Stats {
                    pvalidate: 0,
                    page_faults: 0,
                    cow: 0,
                    cow_pages: state.stats.cow_pages,
                    non_cow_pages: state.stats.non_cow_pages,
                }
            } else {
                state.stats
            })
            &&& after == (MonitorState { slots: after.slots, stats: after.stats, ..state })
            &&& registers == (if request == 0 {
                RequestParams { rcx: 0, rdx: 0, ..params }
            } else {
                params
            })
        }),
{
}

/// A request can be served unless it names a process that is not there, hands over a policy that
/// is too large, or asks for a report that needs what is not there.
pub proof fn law_requests_that_fit(request: u32, state: MonitorState, params: RequestParams)
    ensures
        ({
            let fits = call_handler::request_fits(request, state, params);
            let count = state.slots.len();
            let process = state.slots[params.r8 as int];
            let names_process = params.rdx == 1 || params.rdx == 2 || 5 <= params.rdx <= 7;
            let needs_report = params.rdx == 1 || params.rdx == 2 && params.r9 < 15 && params.r9
                < process.measurements.wasm_module_count;
            &&& request == 2 ==> (fits <==> (names_process ==> params.r8 < count) && (needs_report
                ==> state.kept is Some))
            &&& request == 5 ==> (fits <==> count == 16 && params.rcx < 16)
            &&& request == 10 ==> (fits <==> params.rcx < count && params.rdx < count)
            &&& request == 31 ==> (fits <==> params.rdx <= 0xFFFF_FFFF)
            &&& request != 2 && request != 5 && request != 10 && request != 31 ==> fits
        }),
{
}

/// The first time that the monitor is set up it gets sixteen slots without a process, the mask of
/// encrypted addresses is found, and the memory is tested and set aside where that is wanted.
/// Every later time only more memory comes.  Nothing else that it knows changes.
pub proof fn law_monitor_is_set_up(before: MonitorState, bench: bool, prealloc: bool, slot: int)
    requires
        0 <= slot < 16,
    ensures
        ({
            let after = monitor::monitor_ready(before);
            let actions = monitor::init_actions(before.initialized, bench, prealloc);
            &&& before.initialized ==> after == before
            &&& !before.initialized ==> {
                &&& after.initialized
                &&& after.slots.len() == 16
                &&& after.slots[slot] == process::no_process()
                &&& after == (MonitorState { initialized: true, slots: after.slots, ..before })
            }
            &&& actions.add_memory
            &&& actions.set_encryption_mask <==> !before.initialized
            &&& actions.bench_memory <==> bench && !before.initialized
            &&& actions.preallocate <==> prealloc && !before.initialized
        }),
{
}

} // verus!
