//! What becomes of a trustlet that faults, whatever else is true of it.
//!
//! The bits of a page-fault code are written out as numbers here: present (1), write (2), from ring
//! 3 (4) and protection key (0x20).
use vstd::prelude::*;

use crate::effects::{Effect, Note};
use crate::mmap;
use crate::mmap::RangeWrapper;
use crate::pal_call::PalCall;
use crate::pal_state;
use crate::pal_state::{Outcome, PalState};
use crate::process::ProcessState;
use crate::stats::Stats;

verus! {

/// The number after `count`, for a counter of 64 bits.
pub open spec fn next_count(count: u64) -> int {
    (count + 1) % 0x1_0000_0000_0000_0000
}

/// What was counted of a page fault, and of a first write where `shared` says that it was one:
/// one more of each, where anything is counted.  No other counter changes.
pub open spec fn counted_fault(s: PalState, after: Stats, shared: bool) -> bool {
    &&& after == (Stats { page_faults: after.page_faults, cow: after.cow, ..s.stats })
    &&& after.page_faults == (if s.features.stat {
        next_count(s.stats.page_faults)
    } else {
        s.stats.page_faults as int
    })
    &&& after.cow == (if s.features.stat && shared {
        next_count(s.stats.cow)
    } else {
        s.stats.cow as int
    })
}

/// What is reported of a fault that ends the run: the fault itself, and then nine words of the
/// stack from where RSP points.
pub open spec fn reported_with_stack(s: PalState, after: PalState, note: Note) -> bool {
    &&& after.effects.len() == s.effects.len() + 2
    &&& after.effects.take(s.effects.len() as int) == s.effects
    &&& after.effects[s.effects.len() as int] == Effect::Report(note)
    &&& after.effects[s.effects.len() as int + 1] matches Effect::Report(
        Note::Stack { cr3, vaddr, first_word, words },
    ) && cr3 == s.vmsa.cr3 && vaddr == s.vmsa.rsp && words == 9 && first_word * 8 <= s.vmsa.rsp
        % 4096 < first_word * 8 + 8
}

/// A write to a page that is there asks whether the page is shared, whatever files are mapped: the
/// own page table, the address that was written and whether ring 3 wrote it.  Nothing is to be
/// done before the answer, and nothing changes but the counters.
pub proof fn law_write_to_a_present_page_asks(s: PalState)
    requires
        s.vmsa.rcx == 14,
        s.vmsa.rbx & 0x20 == 0,
        s.vmsa.rbx & 1 != 0,
        s.vmsa.rbx & 2 != 0,
    ensures
        ({
            let (after, outcome) = pal_state::serve_call(s, PalCall::Exception);
            &&& outcome == Outcome::Cow {
                cr3: s.vmsa.cr3,
                vaddr: s.vmsa.cr2,
                user_access: s.vmsa.rbx & 4 != 0,
            }
            &&& after.effects == s.effects
            &&& counted_fault(s, after.stats, true)
            &&& after == (PalState { stats: after.stats, ..s })
        }),
{
}

/// Once the page has a copy of its own the trustlet goes on as it was; a page that was not shared
/// ends the run, with the address, the instruction and the code reported.
pub proof fn law_answer_to_a_write(s: PalState, handled: bool)
    ensures
        ({
            let (after, outcome) = pal_state::serve_cow_answer(s, handled);
            &&& handled ==> after == s && outcome == Outcome::Resume
            &&& !handled ==> outcome == Outcome::Leave && reported_with_stack(
                s,
                after,
                Note::PageFault { cr2: s.vmsa.cr2, rip: s.vmsa.rip, error_code: s.vmsa.rbx },
            ) && after == (PalState { effects: after.effects, ..s })
        }),
{
    let after = pal_state::serve_cow_answer(s, handled).0;
    if !handled {
        assert(after.effects.take(s.effects.len() as int) =~= s.effects);
    }
}

/// A fault on a page that is missing and that a file covers makes the guest load the page: it is
/// told 6 and gets the file, where the mapping begins in it, how large the mapping is and how far
/// into the mapping the page lies.  The page is the one that the address lies in, and the file the
/// one whose mapping begins last among those that cover the address.
pub proof fn law_missing_page_is_asked_for(s: PalState, range: RangeWrapper)
    requires
        s.vmsa.rcx == 14,
        s.vmsa.rbx & 0x20 == 0,
        s.vmsa.rbx & 1 == 0,
        s.vmsa.cr2 <= usize::MAX,
        s.process.mappings.contains_key(range),
        range.start <= s.vmsa.cr2 < range.end,
        forall|other: RangeWrapper| #[trigger]
            s.process.mappings.contains_key(other) && other.start <= s.vmsa.cr2 < other.end
                ==> other == range || other.start < range.start || (other.start == range.start
                && other.end < range.end),
        s.process.mappings[range].addr % 4096 == 0,
        s.process.mappings[range].addr <= s.vmsa.cr2,
    ensures
        ({
            let (after, outcome) = pal_state::serve_call(s, PalCall::Exception);
            let info = s.process.mappings[range];
            let target = after.process.pf_target_vaddr;
            &&& outcome == Outcome::Leave
            &&& target % 4096 == 0
            &&& target <= s.vmsa.cr2 < target + 4096
            &&& after.return_value == 6
            &&& after.effects.len() == s.effects.len() + 1
            &&& after.effects.drop_last() == s.effects
            &&& after.effects.last() matches Effect::WriteGuestWords {
                guest_page_table,
                guest_vaddr,
                words,
            } && guest_page_table == s.guest_page_table && guest_vaddr
                == s.invocation_arg_guest_vaddr && words@[0] == (if info.fd >= 0 {
                info.fd as int
            } else {
                info.fd + 0x1_0000_0000_0000_0000
            }) && words@[1] == info.offset && words@[2] == info.size && words@[3] == target
                - info.addr
            &&& counted_fault(s, after.stats, false)
            &&& after == (PalState {
                process: ProcessState { pf_target_vaddr: target, ..s.process },
                return_value: 6,
                stats: after.stats,
                effects: after.effects,
                ..s
            })
        }),
{
    let (after, outcome) = pal_state::serve_call(s, PalCall::Exception);
    let mappings = s.process.mappings;
    let addr = s.vmsa.cr2 as usize;
    assert(mmap::is_last_covering(mappings, addr, range));
    let found = choose|found: RangeWrapper| mmap::is_last_covering(mappings, addr, found);
    assert(mmap::is_last_covering(mappings, addr, found));
    assert(found == range);
    assert(after.effects.drop_last() =~= s.effects);
}

/// A fault that is neither of these ends the run: a page that is missing and that no file covers,
/// and a page that is there and was not written.  The address, the instruction and the code are
/// reported, and nothing changes but the counter.
pub proof fn law_other_faults_end_the_run(s: PalState)
    requires
        s.vmsa.rcx == 14,
        s.vmsa.rbx & 0x20 == 0,
        s.vmsa.rbx & 1 != 0 ==> s.vmsa.rbx & 2 == 0,
        s.vmsa.rbx & 1 == 0 ==> s.vmsa.cr2 <= usize::MAX && forall|other: RangeWrapper|
            #[trigger] s.process.mappings.contains_key(other) ==> !(other.start <= s.vmsa.cr2
                < other.end),
    ensures
        ({
            let (after, outcome) = pal_state::serve_call(s, PalCall::Exception);
            &&& outcome == Outcome::Leave
            &&& reported_with_stack(
                s,
                after,
                Note::PageFault { cr2: s.vmsa.cr2, rip: s.vmsa.rip, error_code: s.vmsa.rbx },
            )
            &&& counted_fault(s, after.stats, false)
            &&& after == (PalState { stats: after.stats, effects: after.effects, ..s })
        }),
{
    let (after, outcome) = pal_state::serve_call(s, PalCall::Exception);
    assert(after.effects.take(s.effects.len() as int) =~= s.effects);
}

/// A violation of a protection key ends the run whatever the page is: the address, the instruction,
/// the code and the rights are reported, and nothing changes but the counter.
pub proof fn law_pkey_violation_is_reported(s: PalState)
    requires
        s.vmsa.rcx == 14,
        s.vmsa.rbx & 0x20 != 0,
    ensures
        ({
            let (after, outcome) = pal_state::serve_call(s, PalCall::Exception);
            &&& outcome == Outcome::Leave
            &&& after.effects == s.effects.push(
                Effect::Report(
                    Note::PkeyViolation {
                        cr2: s.vmsa.cr2,
                        rip: s.vmsa.rip,
                        error_code: s.vmsa.rbx,
                        pkru: s.vmsa.pkru,
                    },
                ),
            )
            &&& counted_fault(s, after.stats, false)
            &&& after == (PalState { stats: after.stats, effects: after.effects, ..s })
        }),
{
    let (after, outcome) = pal_state::serve_call(s, PalCall::Exception);
    assert(after.effects =~= s.effects.push(
        Effect::Report(
            Note::PkeyViolation {
                cr2: s.vmsa.cr2,
                rip: s.vmsa.rip,
                error_code: s.vmsa.rbx,
                pkru: s.vmsa.pkru,
            },
        ),
    ));
}

/// A general-protection fault ends the run and is reported, and nothing else changes: it is no page
/// fault, and none is counted.
pub proof fn law_general_protection_ends_the_run(s: PalState)
    requires
        s.vmsa.rcx == 13,
    ensures
        ({
            let (after, outcome) = pal_state::serve_call(s, PalCall::Exception);
            &&& outcome == Outcome::Leave
            &&& reported_with_stack(
                s,
                after,
                Note::GeneralProtection { cr2: s.vmsa.cr2, error_code: s.vmsa.rbx },
            )
            &&& after == (PalState { effects: after.effects, ..s })
        }),
{
    let (after, outcome) = pal_state::serve_call(s, PalCall::Exception);
    assert(after.effects.take(s.effects.len() as int) =~= s.effects);
}

/// A double fault ends the run.  It is reported with the stack, and with the descriptor table that
/// RCX points to; nothing else changes.
pub proof fn law_double_fault_ends_the_run(s: PalState)
    ensures
        ({
            let (after, outcome) = pal_state::serve_double_fault(s);
            let shorter = PalState { effects: after.effects.drop_last(), ..s };
            &&& outcome == Outcome::Leave
            &&& after.effects.len() == s.effects.len() + 3
            &&& reported_with_stack(s, shorter, Note::DoubleFault { error_code: s.vmsa.rbx })
            &&& after.effects.last() == Effect::Report(
                Note::DescriptorTable { cr3: s.vmsa.cr3, vaddr: s.vmsa.rcx },
            )
            &&& after == (PalState { effects: after.effects, ..s })
        }),
{
    let after = pal_state::serve_double_fault(s).0;
    assert(after.effects.drop_last().take(s.effects.len() as int) =~= s.effects);
}

} // verus!
