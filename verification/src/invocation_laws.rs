//! What a trustlet finds when the guest lets it run, whatever the guest hands over.
//!
//! Reasons and answers are written out as numbers here.
use vstd::prelude::*;

use crate::effects::Effect;
use crate::input;
use crate::invocation;
use crate::invocation::{InvocationStep, InvokeData};
use crate::layout::MemoryLayout;
use crate::measurements::ProcessMeasurements;
use crate::mpk_memory::MpkState;
use crate::page::{FlagBase, ProcessPageFlags};
use crate::pal_call::TrustletInvocationType;
use crate::pal_state;
use crate::pal_state::PalState;
use crate::process::{AllocationRange, ProcessState};
use crate::protocol::{Features, RequestParams};
use crate::stats::Stats;
use crate::vmsa::VMSA;

verus! {

/// The seven words that the guest hands over say, in this order: the reason, where the input lies
/// and its size, where the output goes and how much of it is wanted, and where the arguments of a
/// request go and how much room there is for them.
pub proof fn law_words_of_an_invocation(words: Seq<u64>, data: InvokeData)
    requires
        words[0] <= 4,
    ensures
        invocation::says(words, data) <==> {
            &&& data.invocation_type == (if words[0] == 0 {
                TrustletInvocationType::Normal
            } else if words[0] == 1 {
                TrustletInvocationType::FileAttr
            } else if words[0] == 2 {
                TrustletInvocationType::Open
            } else if words[0] == 3 {
                TrustletInvocationType::Read
            } else {
                TrustletInvocationType::Mmap
            })
            &&& data.function_arg == words[1]
            &&& data.function_arg_size == words[2]
            &&& data.result_addr == words[3]
            &&& data.result_size == words[4]
            &&& data.invocation_arg_guest_vaddr == words[5]
            &&& data.invocation_arg_size == words[6]
        },
{
}

/// An input of more than one byte is copied whole, once, after the input channel was made large
/// enough for it: from where the guest has it, as many bytes as the channel was made for.  The
/// output channel is made as large as what the guest wants.
pub proof fn law_input_is_copied_whole(
    data: InvokeData,
    guest_page_table: u64,
    process: ProcessState,
    vmsa: VMSA,
    mpk: Map<u64, MpkState>,
    stats: Stats,
    features: Features,
    layout: MemoryLayout,
    index: int,
)
    requires
        data.invocation_type == TrustletInvocationType::Normal,
        data.function_arg_size > 1,
    ensures
        ({
            let effects = invocation::invoked(
                data,
                guest_page_table,
                process,
                vmsa,
                mpk,
                stats,
                features,
                layout,
            ).effects;
            &&& effects.len() == 3
            &&& 0 <= index < 3 ==> match effects[index] {
                Effect::InflateInput { cr3, size } => index == 0 && cr3 == vmsa.cr3 && size
                    == data.function_arg_size,
                Effect::InflateOutput { cr3, size } => index == 1 && cr3 == vmsa.cr3 && size
                    == data.result_size,
                Effect::CopyInput { guest_page_table: table, guest_vaddr, size } => index == 2
                    && table == guest_page_table && guest_vaddr == data.function_arg && size
                    == data.function_arg_size,
                _ => false,
            }
            &&& effects[0] is InflateInput
            &&& effects[1] is InflateOutput
            &&& effects[2] is CopyInput
            &&& effects[2]->CopyInput_size == effects[0]->InflateInput_size
        }),
{
}

/// An input of one byte or none is not copied; the channels are still made as large as the guest
/// says.
pub proof fn law_empty_input_is_not_copied(
    data: InvokeData,
    guest_page_table: u64,
    process: ProcessState,
    vmsa: VMSA,
    mpk: Map<u64, MpkState>,
    stats: Stats,
    features: Features,
    layout: MemoryLayout,
)
    requires
        data.invocation_type == TrustletInvocationType::Normal,
        data.function_arg_size <= 1,
    ensures
        invocation::invoked(
            data,
            guest_page_table,
            process,
            vmsa,
            mpk,
            stats,
            features,
            layout,
        ).effects == seq![
            Effect::InflateInput { cr3: vmsa.cr3, size: data.function_arg_size },
            Effect::InflateOutput { cr3: vmsa.cr3, size: data.result_size },
        ],
{
}

/// The answer to a request of a trustlet is copied to where the trustlet has RCX point, from where
/// the guest has it, as many bytes as the guest says.  A page of a file that the trustlet waits
/// for is loaded where it was missed, with the flags of the entry that is there: word 4 of what
/// the guest hands over has the address of the page.
pub proof fn law_answers_are_handed_in(
    data: InvokeData,
    guest_page_table: u64,
    process: ProcessState,
    vmsa: VMSA,
    mpk: Map<u64, MpkState>,
    stats: Stats,
    features: Features,
    layout: MemoryLayout,
)
    requires
        data.invocation_type != TrustletInvocationType::Normal,
    ensures
        ({
            let effects = invocation::invoked(
                data,
                guest_page_table,
                process,
                vmsa,
                mpk,
                stats,
                features,
                layout,
            ).effects;
            &&& effects.len() == 1
            &&& data.invocation_type == TrustletInvocationType::Mmap ==> effects[0] == (
            Effect::LoadGuestPage {
                guest_page_table,
                guest_vaddr: data.invocation_arg_guest_vaddr,
                word: 4,
                cr3: vmsa.cr3,
                dst: process.pf_target_vaddr,
                flags: ProcessPageFlags { base: FlagBase::Reuse, added: 0, removed: 0 },
            })
            &&& data.invocation_type != TrustletInvocationType::Mmap ==> effects[0] == (
            Effect::CopyFromGuest {
                cr3: vmsa.cr3,
                vaddr: vmsa.rcx,
                guest_page_table,
                guest_vaddr: data.invocation_arg_guest_vaddr,
                size: data.invocation_arg_size,
            })
        }),
{
}

/// What the guest hands over is refused only where an answer would not fit the page that it goes
/// to, or a page of a file comes that the trustlet does not wait for.
pub proof fn law_what_fits(data: InvokeData, process: ProcessState, vmsa: VMSA)
    ensures
        ({
            let fits = invocation::fits_request(data, process, vmsa);
            let page = vmsa.rcx - vmsa.rcx % 4096;
            &&& data.invocation_type == TrustletInvocationType::Normal ==> fits
            &&& data.invocation_type == TrustletInvocationType::Mmap ==> (fits
                <==> process.pf_target_vaddr != 0)
            &&& data.invocation_type == TrustletInvocationType::FileAttr || data.invocation_type
                == TrustletInvocationType::Open || data.invocation_type
                == TrustletInvocationType::Read ==> (fits <==> vmsa.rcx + data.invocation_arg_size
                <= page + 4096)
        }),
{
}

/// A trustlet runs with what it was left with, and it answers to the guest that lets it run: the
/// output and the arguments of its requests go to where this guest wants them now.  No message is
/// begun, and until the trustlet says otherwise the guest is told 2, that it failed.
pub proof fn law_trustlet_answers_to_its_guest(
    data: InvokeData,
    guest_page_table: u64,
    process: ProcessState,
    vmsa: VMSA,
    mpk: Map<u64, MpkState>,
    stats: Stats,
    features: Features,
    layout: MemoryLayout,
    index: int,
)
    requires
        0 <= index < 256,
    ensures
        ({
            let begun = invocation::invoked(
                data,
                guest_page_table,
                process,
                vmsa,
                mpk,
                stats,
                features,
                layout,
            );
            &&& begun.string_buf@[index] == 0
            &&& begun == (PalState {
                process,
                vmsa,
                string_buf: begun.string_buf,
                string_pos: 0,
                result_addr: data.result_addr,
                result_size: data.result_size,
                guest_page_table,
                invocation_arg_guest_vaddr: data.invocation_arg_guest_vaddr,
                invocation_arg_size: data.invocation_arg_size,
                return_value: 2,
                mpk,
                stats,
                features,
                layout,
                effects: begun.effects,
            })
        }),
{
}

/// A zygote that runs for the first time answers to nobody: there is no guest, no room for
/// anything, and nothing is to be done yet.
pub proof fn law_zygote_answers_to_nobody(
    process: ProcessState,
    vmsa: VMSA,
    mpk: Map<u64, MpkState>,
    stats: Stats,
    features: Features,
    layout: MemoryLayout,
    index: int,
)
    requires
        0 <= index < 256,
    ensures
        ({
            let begun = pal_state::zygote_run(process, vmsa, mpk, stats, features, layout);
            &&& begun.string_buf@[index] == 0
            &&& begun == (PalState {
                process,
                vmsa,
                string_buf: begun.string_buf,
                string_pos: 0,
                result_addr: 0,
                result_size: 0,
                guest_page_table: 0,
                invocation_arg_guest_vaddr: 0,
                invocation_arg_size: 0,
                return_value: 0,
                mpk,
                stats,
                features,
                layout,
                effects: Seq::empty(),
            })
        }),
{
}

/// An input is measured before the trustlet runs, unless nothing is measured; an answer never is.
pub proof fn law_only_inputs_are_measured(data: InvokeData, features: Features)
    ensures
        invocation::first_step(data, features) == InvocationStep::MeasureInput <==>
            data.invocation_type == TrustletInvocationType::Normal && !features.boottime,
        invocation::first_step(data, features) == InvocationStep::Run <==> !(data.invocation_type
            == TrustletInvocationType::Normal && !features.boottime),
{
}

/// The header of an input: four bytes have the size of the module, four the length of the name of
/// the function and two the number of its arguments, the least significant byte first.  The module
/// begins behind the twelve bytes of the header, the name and four bytes for each argument, where
/// the end of the name is moved up to the next multiple of four.  Without a module, none is found.
pub proof fn law_module_of_an_input(at: u64, header: Seq<u8>)
    requires
        header.len() >= 12,
        input::module_in_address_space(at, header),
    ensures
        ({
            let size = header[0] + 0x100 * header[1] + 0x1_0000 * header[2] + 0x100_0000 * header[3];
            let name = header[4] + 0x100 * header[5] + 0x1_0000 * header[6] + 0x100_0000 * header[7];
            let args = header[8] + 0x100 * header[9];
            match input::module_region(at, header) {
                Some((start, len)) => {
                    let behind_name = start - at - 4 * args;
                    &&& len == size
                    &&& size > 0
                    &&& behind_name % 4 == 0
                    &&& 12 + name <= behind_name < 12 + name + 4
                },
                None => size == 0,
            }
        }),
{
    reveal_with_fuel(crate::bytes::le_value, 5);
}

/// The module of an input is measured where it is found, and without one the trustlet runs at once.
pub proof fn law_module_step(layout: MemoryLayout, header: Seq<u8>)
    ensures
        invocation::module_step(layout, header) == match input::module_region(
            layout.allocation_range,
            header,
        ) {
            Some((start, size)) => InvocationStep::MeasureModule { start, size },
            None => InvocationStep::Run,
        },
{
}

/// A trustlet that is joined to another one reads what the other writes: of its record only the
/// input changes, and of its address space only the 512 GiB that its input lies in, which become
/// those that the other has its output in.
pub proof fn law_joined_trustlet_reads_the_output(
    process: ProcessState,
    range: AllocationRange,
    table: [u64; 512],
    from: [u64; 512],
    layout: MemoryLayout,
    part: int,
)
    requires
        0 <= part < 512,
    ensures
        ({
            let joined = invocation::with_input(process, range);
            let entries = invocation::with_input_from(table, from, layout);
            let reads = (layout.input as int / 0x80_0000_0000) % 512;
            let writes = (layout.output as int / 0x80_0000_0000) % 512;
            &&& joined.context.channel.input == range
            &&& joined.context.channel.output == process.context.channel.output
            &&& joined.context.vmsa == process.context.vmsa
            &&& joined.context.sev_features == process.context.sev_features
            &&& joined.context.base == process.context.base
            &&& joined.context.measurements == process.context.measurements
            &&& joined.context.page_table_ref == process.context.page_table_ref
            &&& joined == (ProcessState { context: joined.context, ..process })
            &&& entries@[part] == (if part == reads {
                from@[writes]
            } else {
                table@[part]
            })
        }),
{
}

/// The digest of the input channel is kept as that of the input, and nothing else of a trustlet
/// changes.
pub proof fn law_input_digest_is_kept(s: PalState, digest: [u8; 64])
    ensures
        ({
            let after = invocation::with_input_digest(s, digest);
            &&& after.process.measurements.input_data == digest
            &&& after.process.measurements == (ProcessMeasurements {
                input_data: digest,
                ..s.process.measurements
            })
            &&& after == (PalState {
                process: ProcessState {
                    measurements: after.process.measurements,
                    ..s.process
                },
                ..s
            })
        }),
{
}

/// The digest of a module is kept as that of the next module, while there are fewer than fifteen,
/// and nothing else of a trustlet changes.
pub proof fn law_module_digest_is_kept(s: PalState, digest: [u8; 64])
    ensures
        ({
            let after = invocation::with_module_digest(s, digest);
            let count = s.process.measurements.wasm_module_count;
            let known = after.process.measurements;
            &&& count < 15 ==> known.wasm_module_count == count + 1
                && known.wasm_module_measurements@[count as int] == digest
            &&& count >= 15 ==> known == s.process.measurements
            &&& known == (ProcessMeasurements {
                wasm_module_count: known.wasm_module_count,
                wasm_module_measurements: known.wasm_module_measurements,
                ..s.process.measurements
            })
            &&& after == (PalState {
                process: ProcessState { measurements: known, ..s.process },
                ..s
            })
        }),
{
}

/// A trustlet that has run goes back to its slot as it is, and RCX gets what the guest is told.
/// No other slot and no other register changes.
pub proof fn law_trustlet_goes_back(
    s: PalState,
    slots: Seq<ProcessState>,
    slot: int,
    params: RequestParams,
    other: int,
)
    requires
        0 <= slot < slots.len(),
        0 <= other < slots.len(),
    ensures
        ({
            let (after, registers) = invocation::finished(s, slots, slot, params);
            &&& after.len() == slots.len()
            &&& after[other] == (if other == slot {
                s.process
            } else {
                slots[other]
            })
            &&& registers.rcx == s.return_value
            &&& registers.rdx == params.rdx && registers.r8 == params.r8 && registers.r9
                == params.r9
        }),
{
}

/// Joining two trustlets gives the second the output of the first as its input, and every other
/// process stays.
pub proof fn law_joining_changes_the_reader_alone(
    slots: Seq<ProcessState>,
    first: int,
    second: int,
    other: int,
)
    requires
        0 <= first < slots.len(),
        0 <= second < slots.len(),
        0 <= other < slots.len(),
    ensures
        ({
            let after = invocation::joined(slots, first, second);
            &&& after.len() == slots.len()
            &&& after[second].context.channel.input == slots[first].context.channel.output
            &&& after[second].context.channel.output == slots[second].context.channel.output
            &&& after[second] == (ProcessState {
                context: after[second].context,
                ..slots[second]
            })
            &&& other != second ==> after[other] == slots[other]
        }),
{
}

/// The module of an input begins inside the address space, or there is none.
pub proof fn law_module_begins_in_the_address_space(at: u64, header: Seq<u8>)
    requires
        header.len() >= 12,
    ensures
        ({
            let size = header[0] + 0x100 * header[1] + 0x1_0000 * header[2] + 0x100_0000 * header[3];
            let name = header[4] + 0x100 * header[5] + 0x1_0000 * header[6] + 0x100_0000 * header[7];
            let args = header[8] + 0x100 * header[9];
            input::module_in_address_space(at, header) <==> (size == 0 || at + (12 + name + 3) / 4 * 4
                + 4 * args <= u64::MAX)
        }),
{
    reveal_with_fuel(crate::bytes::le_value, 5);
}

} // verus!
