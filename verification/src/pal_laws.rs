//! What holds of a trustlet that runs, whatever it asks for.
use vstd::prelude::*;

use crate::effects::{Effect, Note};
use crate::mmap;
use crate::mmap::{MmapInfo, RangeWrapper};
use crate::mpk_laws;
use crate::mpk_memory;
use crate::page;
use crate::pal_call;
use crate::pal_call::{PalCall, TrustletReturnType};
use crate::pal_state;
use crate::pal_state::{CpuidResult, Outcome, PalState, LIBOS_FD, PF_PK, PF_PRESENT};
use crate::pkru;
use crate::vmsa::VMSA;

verus! {

/// The page table of a trustlet that something is done to or read from, if any.
pub open spec fn page_table_of(effect: Effect) -> Option<u64> {
    match effect {
        Effect::AddPages { cr3, .. } => Some(cr3),
        Effect::RemovePages { cr3, .. } => Some(cr3),
        Effect::ClearPkey { cr3, .. } => Some(cr3),
        Effect::MapPage { cr3, .. } => Some(cr3),
        Effect::CopyPage { cr3, .. } => Some(cr3),
        Effect::AliasPage { cr3, .. } => Some(cr3),
        Effect::ChangeAttr { cr3, .. } => Some(cr3),
        Effect::FinalizePages { cr3 } => Some(cr3),
        Effect::AddStack { cr3, .. } => Some(cr3),
        Effect::UnsharePage { cr3, .. } => Some(cr3),
        Effect::AddFunction { cr3, .. } => Some(cr3),
        Effect::CountPages { cr3 } => Some(cr3),
        Effect::InflateInput { cr3, .. } => Some(cr3),
        Effect::InflateOutput { cr3, .. } => Some(cr3),
        Effect::CopyToGuest { cr3, .. } => Some(cr3),
        Effect::CopyFromGuest { cr3, .. } => Some(cr3),
        Effect::LoadGuestPage { cr3, .. } => Some(cr3),
        Effect::Report(Note::PalError { cr3, .. }) => Some(cr3),
        Effect::Report(Note::Memory { cr3, .. }) => Some(cr3),
        Effect::Report(Note::Stack { cr3, .. }) => Some(cr3),
        Effect::Report(Note::DescriptorTable { cr3, .. }) => Some(cr3),
        _ => None,
    }
}

/// What stays as it is whatever a trustlet asks for.
pub open spec fn identity_kept(s: PalState, after: PalState) -> bool {
    &&& after.vmsa.cr3 == s.vmsa.cr3
    &&& after.vmsa.rip == s.vmsa.rip
    &&& after.vmsa.vmpl == s.vmsa.vmpl
    &&& after.vmsa.cpl == s.vmsa.cpl
    &&& after.process.process_type == s.process.process_type
    &&& after.process.id == s.process.id
    &&& after.process.parent_id == s.process.parent_id
    &&& after.process.base == s.process.base
    &&& after.process.context == s.process.context
    &&& after.result_addr == s.result_addr
    &&& after.result_size == s.result_size
    &&& after.guest_page_table == s.guest_page_table
    &&& after.invocation_arg_guest_vaddr == s.invocation_arg_guest_vaddr
    &&& after.invocation_arg_size == s.invocation_arg_size
    &&& after.features == s.features
    &&& after.layout == s.layout
}

/// Whether what is done comes after what was to be done before, and only to the own page table.
pub open spec fn own_effects(s: PalState, after: PalState) -> bool {
    &&& s.effects.len() <= after.effects.len()
    &&& forall|i: int| 0 <= i < s.effects.len() ==> #[trigger] after.effects[i] == s.effects[i]
    &&& forall|i: int|
        s.effects.len() <= i < after.effects.len() ==> (page_table_of(
            #[trigger] after.effects[i],
        ) matches Some(cr3) ==> cr3 == s.vmsa.cr3)
}

/// Whether an answer to the guest ends the run and is not that the trustlet failed.
pub open spec fn answer_ends(s: PalState, after: PalState, outcome: Outcome) -> bool {
    after.return_value != s.return_value ==> outcome == Outcome::Leave && after.return_value <= 6
        && after.return_value != TrustletReturnType::Error.spec_code()
}

/// All of that, and what was measured stays as it is.
#[verifier::opaque]
spec fn framed(s: PalState, served: (PalState, Outcome)) -> bool {
    &&& identity_kept(s, served.0)
    &&& own_effects(s, served.0)
    &&& answer_ends(s, served.0, served.1)
    &&& served.0.process.measurements == s.process.measurements
}

proof fn lemma_frame_cpuid(s: PalState)
    ensures
        framed(s, pal_state::serve_cpuid(s)),
{
    reveal(framed);
}

proof fn lemma_frame_fail(s: PalState)
    ensures
        framed(s, pal_state::serve_fail(s)),
{
    reveal(framed);
}

proof fn lemma_frame_exit(s: PalState)
    ensures
        framed(s, pal_state::serve_exit(s)),
{
    reveal(framed);
}

proof fn lemma_frame_debug_print(s: PalState)
    ensures
        framed(s, pal_state::serve_debug_print(s)),
{
    reveal(framed);
}

proof fn lemma_frame_virt_alloc(s: PalState)
    ensures
        framed(s, pal_state::serve_virt_alloc(s)),
{
    reveal(framed);
}

proof fn lemma_frame_map(s: PalState)
    ensures
        framed(s, pal_state::serve_map(s)),
{
    reveal(framed);
}

proof fn lemma_frame_set_tcb(s: PalState)
    ensures
        framed(s, pal_state::serve_set_tcb(s)),
{
    reveal(framed);
}

proof fn lemma_frame_mprotect(s: PalState)
    ensures
        framed(s, pal_state::serve_mprotect(s)),
{
    reveal(framed);
}

proof fn lemma_frame_get_result(s: PalState)
    ensures
        framed(s, pal_state::serve_get_result(s)),
{
    reveal(framed);
}

proof fn lemma_frame_guest_request(s: PalState)
    ensures
        framed(s, pal_state::serve_guest_request(s)),
{
    reveal(framed);
}

proof fn lemma_frame_virt_free(s: PalState)
    ensures
        framed(s, pal_state::serve_virt_free(s)),
{
    reveal(framed);
}

proof fn lemma_frame_finalize(s: PalState)
    ensures
        framed(s, pal_state::serve_finalize(s)),
{
    reveal(framed);
}

proof fn lemma_frame_mpk_alloc(s: PalState)
    ensures
        framed(s, pal_state::serve_mpk_alloc(s)),
{
    reveal(framed);
}

proof fn lemma_frame_mpk_free(s: PalState)
    ensures
        framed(s, pal_state::serve_mpk_free(s)),
{
    reveal(framed);
}

proof fn lemma_frame_mpk_pkey_alloc(s: PalState)
    ensures
        framed(s, pal_state::serve_mpk_pkey_alloc(s)),
{
    reveal(framed);
}

proof fn lemma_frame_mpk_enter_domain(s: PalState)
    ensures
        framed(s, pal_state::serve_mpk_enter_domain(s)),
{
    reveal(framed);
}

proof fn lemma_frame_mpk_exit_domain(s: PalState)
    ensures
        framed(s, pal_state::serve_mpk_exit_domain(s)),
{
    reveal(framed);
}

proof fn lemma_frame_mpk_free_pkey(s: PalState)
    ensures
        framed(s, pal_state::serve_mpk_free_pkey(s)),
{
    reveal(framed);
}

proof fn lemma_frame_mpk_query_pkru(s: PalState)
    ensures
        framed(s, pal_state::serve_mpk_query_pkru(s)),
{
    reveal(framed);
}

proof fn lemma_frame_exception(s: PalState)
    ensures
        framed(s, pal_state::serve_exception(s)),
{
    reveal(framed);
}

proof fn lemma_frame_double_fault(s: PalState)
    ensures
        framed(s, pal_state::serve_double_fault(s)),
{
    reveal(framed);
}

proof fn lemma_frame_outb(s: PalState, value: u64)
    ensures
        framed(s, pal_state::serve_outb(s, value)),
{
    reveal(framed);
}

proof fn lemma_frame_inflate_channel(s: PalState)
    ensures
        framed(s, pal_state::serve_inflate_channel(s)),
{
    reveal(framed);
}

proof fn lemma_frame_digit(s: PalState)
    ensures
        framed(s, pal_state::serve_digit(s)),
{
    reveal(framed);
}

proof fn lemma_frame_print_info(s: PalState)
    ensures
        framed(s, pal_state::serve_print_info(s)),
{
    reveal(framed);
}

proof fn lemma_frame_unknown(s: PalState)
    ensures
        framed(s, pal_state::serve_unknown(s)),
{
    reveal(framed);
}

proof fn lemma_frame(s: PalState, call: PalCall)
    ensures
        framed(s, pal_state::serve_call(s, call)),
{
    match call {
        PalCall::Cpuid => lemma_frame_cpuid(s),
        PalCall::Fail => lemma_frame_fail(s),
        PalCall::Exit => lemma_frame_exit(s),
        PalCall::DebugPrint => lemma_frame_debug_print(s),
        PalCall::VirtAlloc => lemma_frame_virt_alloc(s),
        PalCall::MapFile => lemma_frame_map(s),
        PalCall::SetTcb => lemma_frame_set_tcb(s),
        PalCall::Mprotect => lemma_frame_mprotect(s),
        PalCall::GetResult => lemma_frame_get_result(s),
        PalCall::GuestRequest => lemma_frame_guest_request(s),
        PalCall::VirtFree => lemma_frame_virt_free(s),
        PalCall::Finalize => lemma_frame_finalize(s),
        PalCall::MpkAlloc => lemma_frame_mpk_alloc(s),
        PalCall::MpkFree => lemma_frame_mpk_free(s),
        PalCall::MpkPkeyAlloc => lemma_frame_mpk_pkey_alloc(s),
        PalCall::MpkEnterDomain => lemma_frame_mpk_enter_domain(s),
        PalCall::MpkExitDomain => lemma_frame_mpk_exit_domain(s),
        PalCall::MpkFreePkey => lemma_frame_mpk_free_pkey(s),
        PalCall::MpkQueryPkru => lemma_frame_mpk_query_pkru(s),
        PalCall::Exception => lemma_frame_exception(s),
        PalCall::DoubleFault => lemma_frame_double_fault(s),
        PalCall::CallOutb => lemma_frame_outb(s, 110),
        PalCall::CallOutbWithValue => lemma_frame_outb(s, s.vmsa.rcx),
        PalCall::InflateChannel => lemma_frame_inflate_channel(s),
        PalCall::Digit => lemma_frame_digit(s),
        PalCall::PrintInfo => lemma_frame_print_info(s),
        PalCall::Unknown => lemma_frame_unknown(s),
        PalCall::Nop | PalCall::CallExit => {
            reveal(framed);
        },
    }
}

/// Whatever a trustlet asks for, what is done on its behalf is done after what was to be done
/// before, and only to its own page table.
pub proof fn law_only_the_own_page_table(s: PalState, call: PalCall)
    ensures
        own_effects(s, pal_state::serve_call(s, call).0),
{
    lemma_frame(s, call);
    reveal(framed);
}

/// Whatever a trustlet asks for, its page table, its privilege, what it was loaded from, its name,
/// the memory of the guest that it may be answered in, and how the monitor was built stay as they
/// are.
pub proof fn law_identity_is_kept(s: PalState, call: PalCall)
    ensures
        identity_kept(s, pal_state::serve_call(s, call).0),
{
    lemma_frame(s, call);
    reveal(framed);
}

/// An answer from outside changes as little: what is done comes after what was to be done before
/// and only to the own page table, and the trustlet stays what it is.
pub proof fn law_answers_keep_identity(
    s: PalState,
    cpuid: Option<CpuidResult>,
    handled: bool,
    env_hash: [u8; 64],
    output_hash: [u8; 64],
)
    ensures
        ({
            let after = pal_state::serve_cpuid_answer(s, cpuid).0;
            identity_kept(s, after) && own_effects(s, after)
        }),
        ({
            let after = pal_state::serve_cow_answer(s, handled).0;
            identity_kept(s, after) && own_effects(s, after)
        }),
        ({
            let after = pal_state::serve_result_collected(s, env_hash, output_hash).0;
            identity_kept(s, after) && own_effects(s, after)
        }),
{
}

/// Whatever a trustlet asks for, it goes on right behind the two bytes of the `cpuid` instruction.
pub proof fn law_request_advances_rip(s: PalState)
    requires
        pal_state::request_ready(s),
    ensures
        pal_state::serve_request(s).0.vmsa.rip == s.vmsa.rip + 2,
{
    lemma_frame(s.advance(), pal_call::pal_call_of(s.vmsa.rax));
    reveal(framed);
}

/// A request that answers the guest ends the run, and the answer is never that the trustlet
/// failed: that answer stands from the beginning.
pub proof fn law_answers_end_the_run(s: PalState, call: PalCall)
    ensures
        ({
            let (after, outcome) = pal_state::serve_call(s, call);
            answer_ends(s, after, outcome)
        }),
{
    lemma_frame(s, call);
    reveal(framed);
}

/// No request changes what was measured.  Only the output, once it was collected, and an input that
/// the guest hands over add to it.
pub proof fn law_requests_keep_measurements(s: PalState, call: PalCall)
    ensures
        pal_state::serve_call(s, call).0.process.measurements == s.process.measurements,
{
    lemma_frame(s, call);
    reveal(framed);
}

/// What stays as it is but for the requests that are there to change it: the keys, the open
/// domains, and the mapped files.
#[verifier::opaque]
spec fn untouched(s: PalState, after: PalState, call: PalCall) -> bool {
    &&& call != PalCall::MpkAlloc && call != PalCall::MpkFree && call != PalCall::MpkPkeyAlloc
        && call != PalCall::MpkFreePkey ==> after.mpk == s.mpk
    &&& call != PalCall::MpkEnterDomain && call != PalCall::MpkExitDomain ==> after.vmsa.pkru
        == s.vmsa.pkru
    &&& call != PalCall::MapFile ==> after.process.mappings == s.process.mappings
}

proof fn lemma_untouched(s: PalState, call: PalCall)
    ensures
        untouched(s, pal_state::serve_call(s, call).0, call),
{
    reveal(untouched);
}

/// Whatever a trustlet asks for, the protection keys of every other process, and the memory that
/// belongs to them, stay as they are.
pub proof fn law_other_processes_keep_their_pkeys(s: PalState, call: PalCall, other: u64)
    requires
        other != s.vmsa.cr3,
    ensures
        mpk_memory::state_of(pal_state::serve_call(s, call).0.mpk, other) == mpk_memory::state_of(
            s.mpk,
            other,
        ),
{
    lemma_untouched(s, call);
    reveal(untouched);
    mpk_laws::law_processes_are_isolated(
        s.mpk,
        s.vmsa.cr3,
        other,
        s.vmsa.rbx,
        s.vmsa.rcx,
        s.vmsa.rdx as u32,
    );
    mpk_laws::law_processes_are_isolated(
        s.mpk,
        s.vmsa.cr3,
        other,
        s.vmsa.rcx,
        s.vmsa.rdx,
        s.vmsa.rbx as u32,
    );
}

/// Whatever a trustlet asks for, it never has more than one domain open, key 0 not counted.
pub proof fn law_one_domain_at_a_time(s: PalState, call: PalCall)
    requires
        pkru::at_most_one_open(s.vmsa.pkru),
    ensures
        pkru::at_most_one_open(pal_state::serve_call(s, call).0.vmsa.pkru),
{
    lemma_untouched(s, call);
    reveal(untouched);
    pkru::law_at_most_one_domain_open(s.vmsa.pkru, s.vmsa.rbx as u32);
}

/// A change of protection reaches every byte that it names, and no page that holds none of them.
pub proof fn law_protection_reaches_every_byte(s: PalState, byte: u64, index: int)
    requires
        pal_state::call_ready(s, PalCall::Mprotect),
        s.vmsa.rcx > 0,
        s.vmsa.rbx <= byte < s.vmsa.rbx + s.vmsa.rcx,
        0 <= index < pal_state::protected_pages(s),
    ensures
        ({
            let start = page::page_start(s.vmsa.rbx);
            let of_byte = (byte - start) / 4096;
            let page = mpk_memory::page_at(start, index);
            &&& 0 <= of_byte < pal_state::protected_pages(s)
            &&& mpk_memory::page_at(start, of_byte) == page::page_start(byte)
            &&& page < s.vmsa.rbx + s.vmsa.rcx
            &&& s.vmsa.rbx < page + 4096
        }),
{
}

/// A file mapping reserves the page of every byte in it, and no other page.
pub proof fn law_mapping_reserves_its_pages(s: PalState, byte: u64, index: int)
    requires
        pal_state::call_ready(s, PalCall::MapFile),
        pal_state::mapping_aligned(s),
        s.vmsa.r8 != LIBOS_FD,
        s.vmsa.rbx <= byte < s.vmsa.rbx + s.vmsa.rcx,
        0 <= index < s.vmsa.rcx / 4096,
    ensures
        ({
            let after = pal_state::serve_map(s).0;
            let of_byte = (byte - s.vmsa.rbx) / 4096;
            &&& after.effects.len() == s.effects.len() + s.vmsa.rcx / 4096
            &&& after.effects[s.effects.len() + index] == pal_state::file_page_effect(s, index)
            &&& 0 <= of_byte < s.vmsa.rcx / 4096
            &&& mpk_memory::page_at(s.vmsa.rbx, of_byte) == page::page_start(byte)
            &&& s.vmsa.rbx <= mpk_memory::page_at(s.vmsa.rbx, index) < s.vmsa.rbx + s.vmsa.rcx
        }),
{
}

/// A trustlet that uses memory of a key whose domain is not open leaves, whatever else the fault
/// might be: the violation is reported, the fault is counted, and nothing else happens.
pub proof fn law_pkey_violation_ends_the_run(s: PalState)
    requires
        s.vmsa.rcx == 14,
        s.vmsa.rbx & PF_PK != 0,
    ensures
        pal_state::call_ready(s, PalCall::Exception),
        pal_state::serve_call(s, PalCall::Exception).1 == Outcome::Leave,
        pal_state::serve_call(s, PalCall::Exception).0 == pal_state::fault_counted(s).report(
            Note::PkeyViolation {
                cr2: s.vmsa.cr2,
                rip: s.vmsa.rip,
                error_code: s.vmsa.rbx,
                pkru: s.vmsa.pkru,
            },
        ),
{
}

/// Whatever a trustlet asks for, it maps files at page boundaries only.
pub proof fn law_files_are_mapped_at_pages(s: PalState, call: PalCall)
    requires
        s.maps_pages(),
        pal_state::call_ready(s, call),
    ensures
        pal_state::serve_call(s, call).0.maps_pages(),
{
    lemma_untouched(s, call);
    reveal(untouched);
    let after = pal_state::serve_call(s, call).0;
    assert forall|range: RangeWrapper| #[trigger]
        after.process.mappings.contains_key(range) implies after.process.mappings[range].addr
        % 4096 == 0 by {
        if s.process.mappings.contains_key(range) {
        }
    }
}

/// Where files are mapped at page boundaries only, every page fault can be served.
pub proof fn law_every_page_fault_is_served(s: PalState)
    requires
        s.maps_pages(),
        s.vmsa.rcx == 14,
        s.vmsa.cr2 <= usize::MAX,
    ensures
        pal_state::call_ready(s, PalCall::Exception),
{
    let target = s.vmsa.cr2 as usize;
    if exists|range: RangeWrapper| mmap::is_last_covering(s.process.mappings, target, range) {
        let range = choose|range: RangeWrapper|
            mmap::is_last_covering(s.process.mappings, target, range);
        assert(s.process.mappings.contains_key(range));
    }
}

/// The first fault on a page of a file that was just mapped makes the guest load this very page:
/// it is told the file, where in the file the mapping begins, the size of the mapping, and how far
/// into the mapping the page lies.  This does not hold where another mapping that comes later in
/// the order of the ranges contains the address too.
pub proof fn law_first_fault_loads_the_page(mapping: PalState, fault: PalState)
    requires
        pal_state::call_ready(mapping, PalCall::MapFile),
        pal_state::mapping_aligned(mapping),
        mapping.vmsa.r8 != LIBOS_FD,
        fault.process.mappings == pal_state::serve_map(mapping).0.process.mappings,
        fault.vmsa.rcx == 14,
        fault.vmsa.rbx & PF_PK == 0,
        fault.vmsa.rbx & PF_PRESENT == 0,
        mapping.vmsa.rbx <= fault.vmsa.cr2 < mapping.vmsa.rbx + mapping.vmsa.rcx,
        forall|other: RangeWrapper|
            mapping.process.mappings.contains_key(other) && #[trigger] mmap::covers(
                other,
                fault.vmsa.cr2 as usize,
            ) ==> !mmap::range_before(
                RangeWrapper {
                    start: mapping.vmsa.rbx as usize,
                    end: (mapping.vmsa.rbx + mapping.vmsa.rcx) as usize,
                },
                other,
            ),
    ensures
        ({
            let (after, outcome) = pal_state::serve_exception(fault);
            let page = page::page_start(fault.vmsa.cr2);
            &&& pal_state::call_ready(fault, PalCall::Exception)
            &&& outcome == Outcome::Leave
            &&& after.return_value == TrustletReturnType::Mmap.spec_code()
            &&& after.process.pf_target_vaddr == page
            &&& after.effects == fault.effects.push(
                Effect::WriteGuestWords {
                    guest_page_table: fault.guest_page_table,
                    guest_vaddr: fault.invocation_arg_guest_vaddr,
                    words: [
                        pal_state::fd_word(mapping.vmsa.r8 as i32),
                        mapping.vmsa.r9,
                        mapping.vmsa.rcx,
                        (page - mapping.vmsa.rbx) as u64,
                    ],
                },
            )
            &&& mapping.vmsa.rbx <= page < mapping.vmsa.rbx + mapping.vmsa.rcx
        }),
{
    mmap::law_added_mapping_is_found(
        mapping.process.mappings,
        mapping.vmsa.rbx as usize,
        mapping.vmsa.rcx as usize,
        mapping.vmsa.r8 as i32,
        mapping.vmsa.r9 as usize,
        fault.vmsa.cr2 as usize,
    );
    let after = pal_state::serve_exception(fault).0;
    let info = MmapInfo {
        fd: mapping.vmsa.r8 as i32,
        offset: mapping.vmsa.r9 as usize,
        addr: mapping.vmsa.rbx as usize,
        size: mapping.vmsa.rcx as usize,
    };
    let words = pal_state::request_words(info, page::page_start(fault.vmsa.cr2));
    assert(after.effects =~= fault.effects.push(
        Effect::WriteGuestWords {
            guest_page_table: fault.guest_page_table,
            guest_vaddr: fault.invocation_arg_guest_vaddr,
            words,
        },
    ));
}

/// A trustlet writes one character of a message after another.
pub open spec fn write_all(s: PalState, chars: Seq<u8>) -> PalState
    decreases chars.len(),
{
    if chars.len() == 0 {
        s
    } else {
        let before = write_all(s, chars.drop_last());
        pal_state::serve_debug_print(
            PalState { vmsa: VMSA { rbx: chars.last() as u64, ..before.vmsa }, ..before },
        ).0
    }
}

/// While a message has not ended, its characters are kept and nothing else happens.
proof fn lemma_message_grows(s: PalState, chars: Seq<u8>)
    requires
        s.string_pos == 0,
        s.string_buf == pal_state::empty_text(),
        chars.len() <= 255,
        !chars.contains(0),
    ensures
        ({
            let after = write_all(s, chars);
            &&& after.string_pos == chars.len()
            &&& after.effects == s.effects
            &&& forall|i: int|
                0 <= i < 256 ==> after.string_buf@[i] == if i < chars.len() {
                    chars[i]
                } else {
                    0
                }
        }),
    decreases chars.len(),
{
    if chars.len() > 0 {
        let rest = chars.drop_last();
        assert(!rest.contains(0)) by {
            if rest.contains(0) {
                let i = choose|i: int| 0 <= i < rest.len() && rest[i] == 0;
                assert(chars[i] == 0);
            }
        }
        lemma_message_grows(s, rest);
        assert(chars.last() != 0) by {
            assert(chars.contains(chars.last()));
        }
        let c = chars.last();
        assert(c as u64 as u8 == c) by (bit_vector);
    }
}

/// A message of up to 254 characters that ends in a 0 is reported once, as a whole and with
/// nothing behind it, and the next one begins anew.
pub proof fn law_message_is_reported_once(s: PalState, chars: Seq<u8>)
    requires
        s.string_pos == 0,
        s.string_buf == pal_state::empty_text(),
        chars.len() <= 254,
        !chars.contains(0),
    ensures
        ({
            let after = write_all(s, chars.push(0));
            &&& after.string_pos == 0
            &&& after.string_buf == pal_state::empty_text()
            &&& after.effects.len() == s.effects.len() + 1
            &&& after.effects.drop_last() == s.effects
            &&& after.effects.last() matches Effect::Report(
                Note::DebugMessage { text, partial: false },
            ) && forall|i: int|
                0 <= i < 256 ==> text@[i] == if i < chars.len() {
                    chars[i]
                } else {
                    0
                }
        }),
{
    lemma_message_grows(s, chars);
    assert(chars.push(0).drop_last() =~= chars);
    let before = write_all(s, chars);
    let after = write_all(s, chars.push(0));
    assert(0u8 as u64 as u8 == 0u8) by (bit_vector);
    assert(after.effects.drop_last() =~= s.effects);
}

} // verus!
