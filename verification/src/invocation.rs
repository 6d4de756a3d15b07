//! The guest lets a trustlet run, and joins two trustlets.
use vstd::prelude::*;

use crate::effects::Effect;
use crate::input;
use crate::input::{find_module, HEADER_SIZE};
use crate::layout::MemoryLayout;
use crate::measurements;
use crate::measurements::ProcessMeasurements;
use crate::mpk_memory::{MpkManagers, MpkState};
use crate::page;
use crate::page::{page_offset_of, page_size_4k, pgd_index, FlagBase, ProcessPageFlags};
use crate::pal_call::{TrustletInvocationType, TrustletReturnType};
use crate::pal_state;
use crate::pal_state::PalState;
use crate::process::{
    AllocationRange, MemoryChannel, ProcessContext, ProcessID, ProcessState, ProcessStore,
    TrustedProcess,
};
use crate::protocol::{Features, GuestCopy, RequestParams, SvsmReqError};
use crate::runtime::PALContext;
use crate::stats::Stats;
use crate::vmsa::VMSA;

verus! {

/// How many words the guest hands over to let a trustlet run.
pub const INVOKE_WORDS: usize = 7;

/// What the guest hands over to let a trustlet run.
#[derive(Clone, Copy, Debug, PartialEq, Eq, Structural)]
pub struct InvokeData {
    /// Why the trustlet runs.
    pub invocation_type: TrustletInvocationType,
    /// Where the input lies.
    pub function_arg: u64,
    /// The size of the input.
    pub function_arg_size: u64,
    /// Where the output goes.
    pub result_addr: u64,
    /// How much output the guest wants.
    pub result_size: u64,
    /// Where the arguments of a request to the guest go.
    pub invocation_arg_guest_vaddr: u64,
    /// How much room there is for these arguments.
    pub invocation_arg_size: u64,
}

/// Whether `data` is what the words say.
pub open spec fn says(words: Seq<u64>, data: InvokeData) -> bool {
    &&& data.invocation_type.spec_code() == words[0]
    &&& data.function_arg == words[1]
    &&& data.function_arg_size == words[2]
    &&& data.result_addr == words[3]
    &&& data.result_size == words[4]
    &&& data.invocation_arg_guest_vaddr == words[5]
    &&& data.invocation_arg_size == words[6]
}

impl InvokeData {
    /// Reads what the guest hands over.
    pub fn parse(words: &[u64]) -> (data: InvokeData)
        requires
            words@.len() >= INVOKE_WORDS,
            words@[0] <= 4,
        ensures
            says(words@, data),
    {
        InvokeData {
            invocation_type: TrustletInvocationType::from_code(words[0]).unwrap(),
            function_arg: words[1],
            function_arg_size: words[2],
            result_addr: words[3],
            result_size: words[4],
            invocation_arg_guest_vaddr: words[5],
            invocation_arg_size: words[6],
        }
    }
}

/// What the guest wants a trustlet to run with: R8 has the address, R9 the size and RDX the page
/// table of the guest.
pub fn invoke_trustlet(params: &RequestParams) -> (copy: GuestCopy)
    ensures
        copy == (GuestCopy { addr: params.r8, size: params.r9, page_table: params.rdx }),
{
    GuestCopy { addr: params.r8, size: params.r9, page_table: params.rdx }
}

/// How an invocation goes on.
#[derive(Clone, Copy, Debug, PartialEq, Eq, Structural)]
pub enum InvocationStep {
    /// The trustlet runs.
    Run,
    /// The input channel is measured, and its header is read.
    MeasureInput,
    /// The module in the input channel is measured: `size` bytes from `start`.
    MeasureModule { start: u64, size: u64 },
}

/// What is left of a trustlet that has run, besides the process.
#[derive(Debug)]
pub struct Finished {
    /// Its registers.
    pub vmsa: VMSA,
    /// The protection keys of all processes.
    pub mpk: MpkManagers,
    /// The counters.
    pub stats: Stats,
    /// What is still to be done.
    pub effects: Vec<Effect>,
}

/// What is done before the trustlet runs.
pub open spec fn preparation(
    data: InvokeData,
    guest_page_table: u64,
    target: u64,
    vmsa: VMSA,
) -> Seq<Effect> {
    match data.invocation_type {
        TrustletInvocationType::Normal => {
            let channels = seq![
                Effect::InflateInput { cr3: vmsa.cr3, size: data.function_arg_size },
                Effect::InflateOutput { cr3: vmsa.cr3, size: data.result_size },
            ];
            if data.function_arg_size > 1 {
                channels.push(
                    Effect::CopyInput {
                        guest_page_table,
                        guest_vaddr: data.function_arg,
                        size: data.function_arg_size,
                    },
                )
            } else {
                channels
            }
        },
        TrustletInvocationType::Mmap => seq![
            Effect::LoadGuestPage {
                guest_page_table,
                guest_vaddr: data.invocation_arg_guest_vaddr,
                word: 4,
                cr3: vmsa.cr3,
                dst: target,
                flags: ProcessPageFlags::spec_of(FlagBase::Reuse),
            },
        ],
        _ => seq![
            Effect::CopyFromGuest {
                cr3: vmsa.cr3,
                vaddr: vmsa.rcx,
                guest_page_table,
                guest_vaddr: data.invocation_arg_guest_vaddr,
                size: data.invocation_arg_size,
            },
        ],
    }
}

/// Whether what the guest hands over fits what the trustlet waits for: an answer lies within one
/// page, and a page of a file comes only where one was asked for.
pub open spec fn fits_request(data: InvokeData, process: ProcessState, vmsa: VMSA) -> bool {
    match data.invocation_type {
        TrustletInvocationType::Normal => true,
        TrustletInvocationType::Mmap => process.pf_target_vaddr != 0,
        _ => vmsa.rcx % 4096 + data.invocation_arg_size <= 4096,
    }
}

/// Whether what the guest hands over fits what the trustlet waits for.
pub fn can_begin(data: &InvokeData, process: &TrustedProcess, vmsa: &VMSA) -> (fits: bool)
    ensures
        fits == fits_request(*data, process@, *vmsa),
{
    match data.invocation_type {
        TrustletInvocationType::Normal => true,
        TrustletInvocationType::FileAttr
        | TrustletInvocationType::Open
        | TrustletInvocationType::Read => page_offset_of(vmsa.rcx) as u128
            + data.invocation_arg_size as u128 <= page_size_4k() as u128,
        TrustletInvocationType::Mmap => process.pf_target_vaddr != 0,
    }
}

/// A trustlet that is about to run.  Until it says otherwise, it failed.
pub open spec fn invoked(
    data: InvokeData,
    guest_page_table: u64,
    process: ProcessState,
    vmsa: VMSA,
    mpk: Map<u64, MpkState>,
    stats: Stats,
    features: Features,
    layout: MemoryLayout,
) -> PalState {
    PalState {
        process,
        vmsa,
        string_buf: pal_state::empty_text(),
        string_pos: 0,
        result_addr: data.result_addr,
        result_size: data.result_size,
        guest_page_table,
        invocation_arg_guest_vaddr: data.invocation_arg_guest_vaddr,
        invocation_arg_size: data.invocation_arg_size,
        return_value: TrustletReturnType::Error.spec_code(),
        mpk,
        stats,
        features,
        layout,
        effects: preparation(data, guest_page_table, process.pf_target_vaddr, vmsa),
    }
}

/// How an invocation begins: an input is measured where anything is.
pub open spec fn first_step(data: InvokeData, features: Features) -> InvocationStep {
    if data.invocation_type == TrustletInvocationType::Normal && !features.boottime {
        InvocationStep::MeasureInput
    } else {
        InvocationStep::Run
    }
}

/// Prepares a trustlet to run.
pub fn begin_invocation(
    data: InvokeData,
    guest_page_table: u64,
    trustlet: TrustedProcess,
    vmsa: VMSA,
    mpk: MpkManagers,
    stats: Stats,
    features: Features,
    layout: MemoryLayout,
) -> (begun: (PALContext, InvocationStep))
    requires
        fits_request(data, trustlet@, vmsa),
    ensures
        begun.0@ == invoked(
            data,
            guest_page_table,
            trustlet@,
            vmsa,
            mpk@,
            stats,
            features,
            layout,
        ),
        begun.1 == first_step(data, features),
{
    let mut effects: Vec<Effect> = Vec::new();
    let mut step = InvocationStep::Run;
    match data.invocation_type {
        TrustletInvocationType::Normal => {
            effects.push(Effect::InflateInput { cr3: vmsa.cr3, size: data.function_arg_size });
            effects.push(Effect::InflateOutput { cr3: vmsa.cr3, size: data.result_size });
            if data.function_arg_size > 1 {
                effects.push(
                    Effect::CopyInput {
                        guest_page_table,
                        guest_vaddr: data.function_arg,
                        size: data.function_arg_size,
                    },
                );
            }
            if !features.boottime {
                step = InvocationStep::MeasureInput;
            }
        },
        TrustletInvocationType::FileAttr
        | TrustletInvocationType::Open
        | TrustletInvocationType::Read => {
            effects.push(
                Effect::CopyFromGuest {
                    cr3: vmsa.cr3,
                    vaddr: vmsa.rcx,
                    guest_page_table,
                    guest_vaddr: data.invocation_arg_guest_vaddr,
                    size: data.invocation_arg_size,
                },
            );
        },
        TrustletInvocationType::Mmap => {
            effects.push(
                Effect::LoadGuestPage {
                    guest_page_table,
                    guest_vaddr: data.invocation_arg_guest_vaddr,
                    word: 4,
                    cr3: vmsa.cr3,
                    dst: trustlet.pf_target_vaddr,
                    flags: ProcessPageFlags::of(FlagBase::Reuse),
                },
            );
        },
    }
    assert(effects@ =~= preparation(data, guest_page_table, trustlet.pf_target_vaddr, vmsa));
    let context = PALContext {
        process: trustlet,
        vmsa,
        string_buf: [0;256],
        string_pos: 0,
        result_addr: data.result_addr,
        result_size: data.result_size,
        guest_page_table,
        invocation_arg_guest_vaddr: data.invocation_arg_guest_vaddr,
        invocation_arg_size: data.invocation_arg_size,
        return_value: TrustletReturnType::Error.code(),
        mpk,
        stats,
        features,
        layout,
        effects,
    };
    (context, step)
}

/// How an invocation goes on when the header of the input is known: a module is measured.
pub open spec fn module_step(layout: MemoryLayout, header: Seq<u8>) -> InvocationStep {
    match input::module_region(layout.allocation_range, header) {
        Some((start, size)) => InvocationStep::MeasureModule { start, size },
        None => InvocationStep::Run,
    }
}

/// A trustlet with the digest of its input channel.
pub open spec fn with_input_digest(s: PalState, digest: [u8; 64]) -> PalState {
    PalState {
        process: ProcessState {
            measurements: ProcessMeasurements { input_data: digest, ..s.process.measurements },
            ..s.process
        },
        ..s
    }
}

/// A trustlet with the digest of one more module.
pub open spec fn with_module_digest(s: PalState, digest: [u8; 64]) -> PalState {
    PalState {
        process: ProcessState {
            measurements: measurements::with_module(s.process.measurements, digest),
            ..s.process
        },
        ..s
    }
}

/// The slots and the registers after a trustlet has run.
pub open spec fn finished(
    s: PalState,
    slots: Seq<ProcessState>,
    slot: int,
    params: RequestParams,
) -> (Seq<ProcessState>, RequestParams) {
    (slots.update(slot, s.process), RequestParams { rcx: s.return_value, ..params })
}

impl PALContext {
    /// Keeps the digest of the input channel, and finds the module in it.
    pub fn input_measured(&mut self, digest: [u8; 64], header: &[u8]) -> (step: InvocationStep)
        requires
            header@.len() >= HEADER_SIZE,
            input::module_in_address_space(old(self)@.layout.allocation_range, header@),
        ensures
            final(self)@ == (PalState {
                process: ProcessState {
                    measurements: ProcessMeasurements {
                        input_data: digest,
                        ..old(self)@.process.measurements
                    },
                    ..old(self)@.process
                },
                ..old(self)@
            }),
            final(self)@ == with_input_digest(old(self)@, digest),
            step == module_step(old(self)@.layout, header@),
    {
        self.process.measurements.input_data = digest;
        match find_module(self.layout.allocation_range, header) {
            Some((start, size)) => InvocationStep::MeasureModule { start, size },
            None => InvocationStep::Run,
        }
    }

    /// Keeps the digest of a module, where there is room for it.
    pub fn module_measured(&mut self, digest: [u8; 64])
        ensures
            final(self)@ == (PalState {
                process: ProcessState {
                    measurements: measurements::with_module(
                        old(self)@.process.measurements,
                        digest,
                    ),
                    ..old(self)@.process
                },
                ..old(self)@
            }),
            final(self)@ == with_module_digest(old(self)@, digest),
    {
        self.process.measurements.record_module(digest);
    }

    /// Ends an invocation: the process goes back to its slot, and the guest gets the answer.
    pub fn finish(
        self,
        store: &mut ProcessStore,
        id: ProcessID,
        params: &mut RequestParams,
    ) -> (done: Finished)
        requires
            id.0 < old(store)@.len(),
        ensures
            final(store)@ == old(store)@.update(id.0 as int, self@.process),
            *final(params) == (RequestParams { rcx: self@.return_value, ..*old(params) }),
            (final(store)@, *final(params)) == finished(
                self@,
                old(store)@,
                id.0 as int,
                *old(params),
            ),
            done.vmsa == self@.vmsa,
            done.mpk@ == self@.mpk,
            done.stats == self@.stats,
            done.effects@ == self@.effects,
    {
        params.rcx = self.return_value;
        store.replace(id, self.process);
        Finished { vmsa: self.vmsa, mpk: self.mpk, stats: self.stats, effects: self.effects }
    }
}

/// A process whose input is the memory of another channel.
pub open spec fn with_input(process: ProcessState, input: AllocationRange) -> ProcessState {
    ProcessState {
        context: ProcessContext {
            channel: MemoryChannel { input, ..process.context.channel },
            ..process.context
        },
        ..process
    }
}

/// A page table whose input channel is that of another page table's output.
pub open spec fn with_input_from(pgd: [u64; 512], from: [u64; 512], layout: MemoryLayout) -> [u64;
    512] {
    vstd::array::spec_array_update(
        pgd,
        page::spec_pgd_index(layout.input),
        from@[page::spec_pgd_index(layout.output)],
    )
}

/// The slots after the process in slot `second` was joined to the one in slot `first`.
pub open spec fn joined(slots: Seq<ProcessState>, first: int, second: int) -> Seq<ProcessState> {
    slots.update(second, with_input(slots[second], slots[first].context.channel.output))
}

/// Makes what one trustlet writes what another one reads: RCX has the name of the first and RDX
/// that of the second.
///
/// The tables are the top levels of the page tables of the two trustlets.
pub fn create_channel(
    store: &mut ProcessStore,
    params: &RequestParams,
    trustlet1_pgd: &[u64; 512],
    trustlet2_pgd: &mut [u64; 512],
    layout: &MemoryLayout,
) -> (result: Result<(), SvsmReqError>)
    requires
        params.rcx < old(store)@.len(),
        params.rdx < old(store)@.len(),
    ensures
        result is Ok,
        *final(trustlet2_pgd) == with_input_from(*old(trustlet2_pgd), *trustlet1_pgd, *layout),
        final(store)@ == old(store)@.update(
            params.rdx as int,
            with_input(
                old(store)@[params.rdx as int],
                old(store)@[params.rcx as int].context.channel.output,
            ),
        ),
        final(store)@ == joined(old(store)@, params.rcx as int, params.rdx as int),
{
    let tid1 = store.id_of(params.rcx);
    let tid2 = store.id_of(params.rdx);
    let output_index = pgd_index(layout.output);
    let input_index = pgd_index(layout.input);
    trustlet2_pgd[input_index] = trustlet1_pgd[output_index];
    let output = store.get(tid1).context.channel.output;
    let mut trustlet2 = store.replace(tid2, TrustedProcess::default());
    trustlet2.context.channel.input = output;
    store.replace(tid2, trustlet2);
    assert(store@ =~= old(store)@.update(
        params.rdx as int,
        with_input(old(store)@[params.rdx as int], output),
    ));
    Ok(())
}

/// After two trustlets were joined, the first one's output is the second one's input, in its record
/// and in its page table.  Nothing else of either, and no other process, has changed.
pub proof fn law_channel_joins_output_to_input(
    slots: Seq<ProcessState>,
    first: int,
    second: int,
    other: int,
    pgd1: [u64; 512],
    pgd2: [u64; 512],
    entry: int,
    layout: MemoryLayout,
)
    requires
        0 <= first < slots.len(),
        0 <= second < slots.len(),
        0 <= other < slots.len(),
        other != second,
        0 <= entry < 512,
        entry != page::spec_pgd_index(layout.input),
    ensures
        ({
            let joined = slots.update(
                second,
                with_input(slots[second], slots[first].context.channel.output),
            );
            let table = with_input_from(pgd2, pgd1, layout);
            &&& joined[second].context.channel.input == slots[first].context.channel.output
            &&& joined[second].context.channel.output == slots[second].context.channel.output
            &&& joined[other] == slots[other]
            &&& table@[page::spec_pgd_index(layout.input)] == pgd1@[page::spec_pgd_index(
                layout.output,
            )]
            &&& table@[entry] == pgd2@[entry]
        }),
{
}

/// The page of a file that the guest was asked for is loaded where the trustlet faulted, into its
/// own page table.
pub proof fn law_page_is_loaded_where_it_was_missed(
    fault: PalState,
    data: InvokeData,
    guest_page_table: u64,
    mpk: Map<u64, MpkState>,
    stats: Stats,
    features: Features,
    layout: MemoryLayout,
)
    requires
        fault.vmsa.rcx == 14,
        pal_state::serve_exception(fault).0.return_value == TrustletReturnType::Mmap.spec_code(),
        fault.return_value != TrustletReturnType::Mmap.spec_code(),
        fault.vmsa.cr2 >= 4096,
        data.invocation_type == TrustletInvocationType::Mmap,
    ensures
        ({
            let waiting = pal_state::serve_exception(fault).0;
            &&& fits_request(data, waiting.process, waiting.vmsa)
            &&& invoked(
                data,
                guest_page_table,
                waiting.process,
                waiting.vmsa,
                mpk,
                stats,
                features,
                layout,
            ).effects == seq![
                Effect::LoadGuestPage {
                    guest_page_table,
                    guest_vaddr: data.invocation_arg_guest_vaddr,
                    word: 4,
                    cr3: fault.vmsa.cr3,
                    dst: page::page_start(fault.vmsa.cr2),
                    flags: ProcessPageFlags::spec_of(FlagBase::Reuse),
                },
            ]
        }),
{
}

/// What the guest answers to a request goes to where the trustlet had the argument.
pub proof fn law_answer_goes_to_the_argument(
    asking: PalState,
    data: InvokeData,
    guest_page_table: u64,
    mpk: Map<u64, MpkState>,
    stats: Stats,
    features: Features,
    layout: MemoryLayout,
)
    requires
        pal_state::guest_request_fits(asking),
        data.invocation_type == TrustletInvocationType::FileAttr || data.invocation_type
            == TrustletInvocationType::Open || data.invocation_type == TrustletInvocationType::Read,
        data.invocation_arg_size <= asking.vmsa.rdx,
    ensures
        ({
            let waiting = pal_state::serve_guest_request(asking).0;
            &&& fits_request(data, waiting.process, waiting.vmsa)
            &&& invoked(
                data,
                guest_page_table,
                waiting.process,
                waiting.vmsa,
                mpk,
                stats,
                features,
                layout,
            ).effects == seq![
                Effect::CopyFromGuest {
                    cr3: asking.vmsa.cr3,
                    vaddr: asking.vmsa.rcx,
                    guest_page_table,
                    guest_vaddr: data.invocation_arg_guest_vaddr,
                    size: data.invocation_arg_size,
                },
            ]
        }),
{
}

} // verus!
