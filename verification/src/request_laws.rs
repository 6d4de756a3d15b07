//! What each request of a trustlet is for, said of every state that it can be made in.
//!
//! Registers, bits and codes are written out as numbers here: they are what a trustlet was built
//! against.
use vstd::prelude::*;

use crate::effects::{Effect, Note};
use crate::measurements::ProcessMeasurements;
use crate::mmap::{MmapInfo, RangeWrapper};
use crate::page::{FlagBase, ProcessPageFlags};
use crate::pal_call::PalCall;
use crate::pal_state;
use crate::pal_state::{CpuidResult, Outcome, PalState};
use crate::process::ProcessState;
use crate::vmsa::{VMSASegment, VMSA};

verus! {

/// The code in RAX says what a trustlet asks for, and nothing but the instruction pointer changes
/// before it is served.
pub proof fn law_codes_of_requests(s: PalState)
    requires
        s.vmsa.rip + 2 <= u64::MAX,
    ensures
        ({
            let rax = s.vmsa.rax;
            let next = PalState {
                vmsa: VMSA { rip: (s.vmsa.rip + 2) as u64, ..s.vmsa },
                ..s
            };
            let served = pal_state::serve_request(s);
            &&& rax <= 0x24 || 0x8000_0000 <= rax <= 0x8000_0021 ==> served
                == pal_state::serve_cpuid(next)
            &&& rax == 0x4FFF_FFFF ==> served == pal_state::serve_fail(next)
            &&& rax == 0x4FFF_FFFE ==> served == pal_state::serve_exit(next)
            &&& rax == 0x4FFF_FFFD ==> served == pal_state::serve_debug_print(next)
            &&& rax == 0x4FFF_FFFC ==> served == pal_state::serve_virt_alloc(next)
            &&& rax == 0x4FFF_FFFB ==> served == pal_state::serve_map(next)
            &&& rax == 0x4FFF_FFFA ==> served == pal_state::serve_set_tcb(next)
            &&& rax == 0x4FFF_FFF9 ==> served == pal_state::serve_mprotect(next)
            &&& rax == 0x4FFF_FFF8 ==> served == pal_state::serve_get_result(next)
            &&& rax == 0x4FFF_FFF7 ==> served == pal_state::serve_guest_request(next)
            &&& rax == 0x4FFF_FFF6 ==> served == pal_state::serve_virt_free(next)
            &&& rax == 0x4FFF_FFF5 ==> served == (next, Outcome::Resume)
            &&& rax == 0x4FFF_FFF4 ==> served == pal_state::serve_finalize(next)
            &&& rax == 0x4FFF_FFF3 ==> served == pal_state::serve_mpk_alloc(next)
            &&& rax == 0x4FFF_FFF2 ==> served == pal_state::serve_mpk_free(next)
            &&& rax == 0x4FFF_FFF1 ==> served == pal_state::serve_mpk_pkey_alloc(next)
            &&& rax == 0x4FFF_FFF0 ==> served == pal_state::serve_mpk_enter_domain(next)
            &&& rax == 0x4FFF_FFEF ==> served == pal_state::serve_mpk_exit_domain(next)
            &&& rax == 0x4FFF_FFEE ==> served == pal_state::serve_mpk_free_pkey(next)
            &&& rax == 0x4FFF_FFED ==> served == pal_state::serve_mpk_query_pkru(next)
            &&& rax == 0x4EFF_FFFF ==> served == pal_state::serve_exception(next)
            &&& rax == 0x4EFF_FFFE ==> served == pal_state::serve_double_fault(next)
            &&& rax == 0x4FFF_FFA0 ==> served == pal_state::serve_outb(next, 110)
            &&& rax == 0x4FFF_FFA1 ==> served == (next, Outcome::Leave)
            &&& rax == 0x4FFF_FFA2 ==> served == pal_state::serve_outb(next, s.vmsa.rcx)
            &&& rax == 0x4FFF_FFA3 ==> served == pal_state::serve_inflate_channel(next)
            &&& rax == 99 ==> served == pal_state::serve_digit(next)
            &&& rax == 100 ==> served == pal_state::serve_print_info(next)
        }),
{
}

/// The code is none that a request has.
pub open spec fn is_no_request(rax: u64) -> bool {
    &&& 0x24 < rax && rax != 99 && rax != 100
    &&& !(0x8000_0000 <= rax <= 0x8000_0021)
    &&& rax != 0x4EFF_FFFF && rax != 0x4EFF_FFFE
    &&& !(0x4FFF_FFA0 <= rax <= 0x4FFF_FFA3)
    &&& !(0x4FFF_FFED <= rax <= 0x4FFF_FFFF)
}

/// A code that no request has ends the run.  The code and where the instruction was are reported,
/// and nothing else changes.
pub proof fn law_unknown_code_ends_the_run(s: PalState)
    requires
        s.vmsa.rip + 2 <= u64::MAX,
        is_no_request(s.vmsa.rax),
    ensures
        ({
            let (after, outcome) = pal_state::serve_request(s);
            &&& outcome == Outcome::Leave
            &&& after == (PalState {
                vmsa: VMSA { rip: (s.vmsa.rip + 2) as u64, ..s.vmsa },
                effects: s.effects.push(
                    Effect::Report(Note::UnknownRequest { code: s.vmsa.rax, rip: s.vmsa.rip }),
                ),
                ..s
            })
        }),
{
    let after = pal_state::serve_request(s).0;
    assert(after.effects =~= s.effects.push(
        Effect::Report(Note::UnknownRequest { code: s.vmsa.rax, rip: s.vmsa.rip }),
    ));
}

/// A `cpuid` asks for the leaf in the low half of RAX.  The subleaf in the low half of RCX counts
/// only for the leaves that have any.  Nothing changes before the answer is there.
pub proof fn law_cpuid_asks_for_the_leaf(s: PalState)
    ensures
        ({
            let (after, outcome) = pal_state::serve_cpuid(s);
            let leaf = s.vmsa.rax as int % 0x1_0000_0000;
            let leaves_with_subleaves = seq![
                4int,
                7,
                0xb,
                0xd,
                0xf,
                0x10,
                0x12,
                0x14,
                0x17,
                0x18,
                0x1d,
                0x1e,
                0x1f,
                0x24,
                0x8000_001d,
            ];
            &&& after == s
            &&& outcome matches Outcome::Cpuid { eax, ecx } && eax == leaf && ecx == (
            if leaves_with_subleaves.contains(leaf) {
                s.vmsa.rcx as int % 0x1_0000_0000
            } else {
                0
            })
        }),
{
    let rax = s.vmsa.rax;
    let rcx = s.vmsa.rcx;
    assert(rax as u32 == rax % 0x1_0000_0000 && rcx as u32 == rcx % 0x1_0000_0000) by (bit_vector);
    let leaf = rax as int % 0x1_0000_0000;
    let leaves = seq![
        4int,
        7,
        0xb,
        0xd,
        0xf,
        0x10,
        0x12,
        0x14,
        0x17,
        0x18,
        0x1d,
        0x1e,
        0x1f,
        0x24,
        0x8000_001d,
    ];
    assert(leaves[0] == 4 && leaves[1] == 7 && leaves[2] == 0xb && leaves[3] == 0xd && leaves[4]
        == 0xf && leaves[5] == 0x10 && leaves[6] == 0x12 && leaves[7] == 0x14 && leaves[8] == 0x17
        && leaves[9] == 0x18 && leaves[10] == 0x1d && leaves[11] == 0x1e && leaves[12] == 0x1f
        && leaves[13] == 0x24 && leaves[14] == 0x8000_001d);
}

/// The four parts of the answer to a `cpuid` go to the four registers, for every leaf; where there
/// is no answer, all four are 0.  Nothing else changes.
pub proof fn law_cpuid_answer_fills_registers(s: PalState, answer: Option<CpuidResult>)
    ensures
        ({
            let (after, outcome) = pal_state::serve_cpuid_answer(s, answer);
            let vmsa = after.vmsa;
            &&& outcome == Outcome::Resume
            &&& answer matches Some(found) ==> vmsa.rax == found.eax && vmsa.rbx == found.ebx
                && vmsa.rcx == found.ecx && vmsa.rdx == found.edx
            &&& answer is None ==> vmsa.rax == 0 && vmsa.rbx == 0 && vmsa.rcx == 0 && vmsa.rdx == 0
            &&& after == (PalState {
                vmsa: VMSA { rax: vmsa.rax, rbx: vmsa.rbx, rcx: vmsa.rcx, rdx: vmsa.rdx, ..s.vmsa },
                ..s
            })
        }),
{
}

/// A trustlet that failed leaves with the answer that stood before.  Its message is looked for at
/// the address in RBX, and the number in RCX goes with it.
pub proof fn law_failure_is_reported(s: PalState)
    ensures
        ({
            let (after, outcome) = pal_state::serve_fail(s);
            &&& outcome == Outcome::Leave
            &&& after.effects.len() == s.effects.len() + 1
            &&& after.effects.drop_last() == s.effects
            &&& after.effects.last() matches Effect::Report(
                Note::PalError { cr3, page, offset, errno },
            ) && cr3 == s.vmsa.cr3 && page % 4096 == 0 && offset < 4096 && page + offset
                == s.vmsa.rbx && errno == s.vmsa.rcx
            &&& after == (PalState { effects: after.effects, ..s })
        }),
{
    assert(pal_state::serve_fail(s).0.effects.drop_last() =~= s.effects);
}

/// A trustlet that is done leaves, the guest is told 0, and the exit code in RBX is reported.
pub proof fn law_exit_answers_zero(s: PalState)
    ensures
        ({
            let (after, outcome) = pal_state::serve_exit(s);
            &&& outcome == Outcome::Leave
            &&& after == (PalState {
                return_value: 0,
                effects: s.effects.push(Effect::Report(Note::Exited { code: s.vmsa.rbx })),
                ..s
            })
        }),
{
    assert(pal_state::serve_exit(s).0.effects =~= s.effects.push(
        Effect::Report(Note::Exited { code: s.vmsa.rbx }),
    ));
}

/// A character of a message that has room is kept behind those before it.  Nothing is reported, and
/// nothing else changes.
pub proof fn law_character_is_kept(s: PalState, index: int)
    requires
        s.string_pos < 255,
        s.vmsa.rbx != 0,
        0 <= index < 256,
    ensures
        ({
            let (after, outcome) = pal_state::serve_debug_print(s);
            &&& outcome == Outcome::Resume
            &&& after.string_pos == s.string_pos + 1
            &&& after.string_buf@[index] == (if index == s.string_pos {
                s.vmsa.rbx as int % 256
            } else {
                s.string_buf@[index] as int
            })
            &&& after == (PalState {
                string_buf: after.string_buf,
                string_pos: after.string_pos,
                ..s
            })
        }),
{
    let c = s.vmsa.rbx;
    assert(c as u8 == c % 256) by (bit_vector);
}

/// A character for which there is no room makes the part of the message that is there go out, and
/// the next part begins anew.
pub proof fn law_long_message_goes_out_in_parts(s: PalState, index: int)
    requires
        s.string_pos >= 255,
        s.vmsa.rbx != 0,
        0 <= index < 256,
    ensures
        ({
            let (after, outcome) = pal_state::serve_debug_print(s);
            &&& outcome == Outcome::Resume
            &&& after.string_pos == 0
            &&& after.string_buf@[index] == 0
            &&& after.effects == s.effects.push(
                Effect::Report(Note::DebugMessage { text: s.string_buf, partial: true }),
            )
            &&& after == (PalState {
                string_buf: after.string_buf,
                string_pos: after.string_pos,
                effects: after.effects,
                ..s
            })
        }),
{
    assert(pal_state::serve_debug_print(s).0.effects =~= s.effects.push(
        Effect::Report(Note::DebugMessage { text: s.string_buf, partial: true }),
    ));
}

/// The flags of memory that was asked for with the protection `prot`, over whatever bits `base`
/// data pages have: with write (2) it may be written, with exec (4) it may be executed, and every
/// other bit is that of a data page.
pub open spec fn fresh_memory_rights(flags: ProcessPageFlags, base: u64, prot: u64) -> bool {
    let bits = flags.spec_bits(base);
    &&& flags.base == FlagBase::Data
    &&& bits & 2 != 0 <==> prot & 2 != 0 || base & 2 != 0
    &&& bits & 0x8000_0000_0000_0000 != 0 <==> prot & 4 == 0 && base & 0x8000_0000_0000_0000 != 0
    &&& bits & !0x8000_0000_0000_0002u64 == base & !0x8000_0000_0000_0002u64
}

proof fn lemma_fresh_memory_rights(prot: u64, base: u64)
    ensures
        fresh_memory_rights(pal_state::fresh_flags(prot), base, prot),
{
    let flags = pal_state::fresh_flags(prot);
    let data = ProcessPageFlags::spec_of(FlagBase::Data);
    data.law_flag_edits(2, base);
    let written = if prot & 2 != 0 {
        data.spec_with(2)
    } else {
        data
    };
    written.law_flag_edits(0x8000_0000_0000_0000, base);
    let w = prot & 2 != 0;
    let x = prot & 4 != 0;
    let bits = flags.spec_bits(base);
    let one = if w {
        base | 2
    } else {
        base
    };
    assert(bits == if x {
        one & !0x8000_0000_0000_0000u64
    } else {
        one
    });
    assert(((bits & 2 != 0) == (w || base & 2 != 0)) && ((bits & 0x8000_0000_0000_0000u64 != 0) == (
    !x && base & 0x8000_0000_0000_0000u64 != 0)) && bits & !0x8000_0000_0000_0002u64 == base
        & !0x8000_0000_0000_0002u64) by (bit_vector)
        requires
            one == if w {
                base | 2u64
            } else {
                base
            },
            bits == if x {
                one & !0x8000_0000_0000_0000u64
            } else {
                one
            },
    ;
}

/// Fresh memory: the whole of it is mapped, in whole pages, with the rights that were asked for,
/// and RCX gets 0.  Where the address or the size is no multiple of the page size, RCX gets -1 and
/// nothing is mapped.
pub proof fn law_fresh_memory_is_mapped(s: PalState, base: u64)
    ensures
        ({
            let (after, outcome) = pal_state::serve_virt_alloc(s);
            let aligned = s.vmsa.rbx % 4096 == 0 && s.vmsa.rcx % 4096 == 0;
            &&& outcome == Outcome::Resume
            &&& !aligned ==> after == (PalState {
                vmsa: VMSA { rcx: 0xFFFF_FFFF_FFFF_FFFF, ..s.vmsa },
                ..s
            })
            &&& aligned ==> {
                &&& after == (PalState {
                    vmsa: VMSA { rcx: 0, ..s.vmsa },
                    effects: after.effects,
                    ..s
                })
                &&& after.effects.len() == s.effects.len() + 1
                &&& after.effects.drop_last() == s.effects
                &&& after.effects.last() matches Effect::AddPages { cr3, vaddr, pages, flags }
                    && cr3 == s.vmsa.cr3 && vaddr == s.vmsa.rbx && pages * 4096 == s.vmsa.rcx
                    && fresh_memory_rights(flags, base, s.vmsa.rdx)
            }
        }),
{
    lemma_fresh_memory_rights(s.vmsa.rdx, base);
    let after = pal_state::serve_virt_alloc(s).0;
    if s.vmsa.rbx % 4096 == 0 && s.vmsa.rcx % 4096 == 0 {
        assert(after.effects.drop_last() =~= s.effects);
    }
}

/// Memory that is given back is unmapped as a whole, and the registers stay as they are.  Where the
/// address or the size is no multiple of the page size, RCX gets -1 and nothing is unmapped.
pub proof fn law_freed_memory_is_unmapped(s: PalState)
    ensures
        ({
            let (after, outcome) = pal_state::serve_virt_free(s);
            let aligned = s.vmsa.rbx % 4096 == 0 && s.vmsa.rcx % 4096 == 0;
            &&& outcome == Outcome::Resume
            &&& !aligned ==> after == (PalState {
                vmsa: VMSA { rcx: 0xFFFF_FFFF_FFFF_FFFF, ..s.vmsa },
                ..s
            })
            &&& aligned ==> {
                &&& after == (PalState { effects: after.effects, ..s })
                &&& after.effects.len() == s.effects.len() + 1
                &&& after.effects.drop_last() == s.effects
                &&& after.effects.last() matches Effect::RemovePages { cr3, vaddr, pages } && cr3
                    == s.vmsa.cr3 && vaddr == s.vmsa.rbx && pages * 4096 == s.vmsa.rcx
            }
        }),
{
    let after = pal_state::serve_virt_free(s).0;
    if s.vmsa.rbx % 4096 == 0 && s.vmsa.rcx % 4096 == 0 {
        assert(after.effects.drop_last() =~= s.effects);
    }
}

/// The bits of a page of a file that was mapped with the protection `prot`, besides those in
/// `extra`: it is written only with write (2) and without a private copy (8), it is executed only
/// with exec (4), it is always for the trustlet and marked as used, and there is no other bit.
pub open spec fn file_rights(bits: u64, prot: u64, extra: u64) -> bool {
    &&& bits & 2 != 0 <==> prot & 2 != 0 && prot & 8 == 0
    &&& bits & 0x8000_0000_0000_0000 != 0 <==> prot & 4 == 0
    &&& bits & 0x24 == 0x24
    &&& bits & extra == extra
    &&& bits & !(0x8000_0000_0000_0026u64 | extra) == 0
}

/// The bits of a page of the library operating system that was copied for a trustlet: it may always
/// be written.
pub open spec fn copied_page_rights(bits: u64, prot: u64) -> bool {
    &&& bits & 0x27 == 0x27
    &&& bits & 0x8000_0000_0000_0000 != 0 <==> prot & 4 == 0
    &&& bits & !0x8000_0000_0000_0027u64 == 0
}

proof fn lemma_file_rights(prot: u64)
    ensures
        pal_state::file_flags(prot).base == FlagBase::Empty,
        file_rights(pal_state::file_flags(prot).spec_bits(0), prot, 0),
        file_rights(pal_state::file_flags(prot).spec_with(1).spec_bits(0), prot, 1),
        copied_page_rights(
            pal_state::file_flags(prot).spec_with(1).spec_with(2).spec_bits(0),
            prot,
        ),
{
    let flags = pal_state::file_flags(prot);
    let w = prot & 2 != 0;
    let c = prot & 8 != 0;
    let x = prot & 4 != 0;
    let empty = ProcessPageFlags::spec_of(FlagBase::Empty);
    let plain = empty.spec_with(4u64 | 0x20u64);
    let written = if w {
        plain.spec_with(2)
    } else {
        plain
    };
    let copied = if c {
        written.spec_without(2)
    } else {
        written
    };
    empty.law_flag_edits(4u64 | 0x20u64, 0);
    plain.law_flag_edits(2, 0);
    written.law_flag_edits(2, 0);
    copied.law_flag_edits(0x8000_0000_0000_0000, 0);
    flags.law_flag_edits(1, 0);
    flags.spec_with(1).law_flag_edits(2, 0);
    let b1 = plain.spec_bits(0);
    let b2 = written.spec_bits(0);
    let b3 = copied.spec_bits(0);
    let b = flags.spec_bits(0);
    let p = flags.spec_with(1).spec_bits(0);
    let q = flags.spec_with(1).spec_with(2).spec_bits(0);
    assert(((b & 2 != 0) == (w && !c)) && ((b & 0x8000_0000_0000_0000u64 != 0) == !x) && b & 0x24
        == 0x24 && b & 0 == 0 && b & !(0x8000_0000_0000_0026u64 | 0u64) == 0 && ((p & 2 != 0) == (w
        && !c)) && ((p & 0x8000_0000_0000_0000u64 != 0) == !x) && p & 0x24 == 0x24 && p & 1 == 1
        && p & !(0x8000_0000_0000_0026u64 | 1u64) == 0 && q & 0x27 == 0x27 && ((q
        & 0x8000_0000_0000_0000u64 != 0) == !x) && q & !0x8000_0000_0000_0027u64 == 0)
        by (bit_vector)
        requires
            b1 == (0u64 | (4u64 | 0x20u64)),
            b2 == if w {
                b1 | 2u64
            } else {
                b1
            },
            b3 == if c {
                b2 & !2u64
            } else {
                b2
            },
            b == if x {
                b3
            } else {
                b3 | 0x8000_0000_0000_0000u64
            },
            p == b | 1u64,
            q == p | 2u64,
    ;
}

/// A mapping whose address, size or offset is no multiple of the page size fails: RCX gets -1, the
/// trustlet leaves, and nothing is mapped.
pub proof fn law_misaligned_mapping_fails(s: PalState)
    requires
        s.vmsa.rbx % 4096 != 0 || s.vmsa.rcx % 4096 != 0 || s.vmsa.r9 % 4096 != 0,
    ensures
        pal_state::serve_map(s) == (
            (PalState { vmsa: VMSA { rcx: 0xFFFF_FFFF_FFFF_FFFF, ..s.vmsa }, ..s }),
            Outcome::Leave,
        ),
{
}

/// A file of the guest is mapped page by page, without contents and with exactly the rights that
/// were asked for; what was mapped is remembered, RCX gets 0, and nothing else changes.
pub proof fn law_file_is_mapped_as_asked(s: PalState, index: int)
    requires
        pal_state::mapping_in_address_space(s),
        s.vmsa.rbx % 4096 == 0,
        s.vmsa.rcx % 4096 == 0,
        s.vmsa.r9 % 4096 == 0,
        s.vmsa.r8 != 0xFFFF_FFFF_FFFF_FFFE,
    ensures
        ({
            let (after, outcome) = pal_state::serve_map(s);
            let before = s.effects.len();
            &&& outcome == Outcome::Resume
            &&& after == (PalState {
                process: ProcessState {
                    mappings: s.process.mappings.insert(
                        RangeWrapper {
                            start: s.vmsa.rbx as usize,
                            end: (s.vmsa.rbx + s.vmsa.rcx) as usize,
                        },
                        MmapInfo {
                            fd: s.vmsa.r8 as i32,
                            offset: s.vmsa.r9 as usize,
                            addr: s.vmsa.rbx as usize,
                            size: s.vmsa.rcx as usize,
                        },
                    ),
                    ..s.process
                },
                vmsa: VMSA { rcx: 0, ..s.vmsa },
                effects: after.effects,
                ..s
            })
            &&& (after.effects.len() - before) * 4096 == s.vmsa.rcx
            &&& after.effects.take(before as int) == s.effects
            &&& before <= index < after.effects.len() ==> (after.effects[index] matches
                Effect::MapPage { cr3, vaddr, paddr, flags } && cr3 == s.vmsa.cr3 && vaddr
                == s.vmsa.rbx + (index - before) * 4096 && paddr == 0 && flags.base
                == FlagBase::Empty && file_rights(flags.spec_bits(0), s.vmsa.rdx, 0))
        }),
{
    lemma_file_rights(s.vmsa.rdx);
    let after = pal_state::serve_map(s).0;
    assert(after.effects.take(s.effects.len() as int) =~= s.effects);
}

/// The library operating system is mapped page by page from where it was loaded: shared with
/// exactly the rights that were asked for, or copied where a private copy (8) was asked for.  No
/// file is remembered, RCX gets 0, and nothing else changes.
pub proof fn law_libos_is_shared_or_copied(s: PalState, index: int)
    requires
        pal_state::mapping_in_address_space(s),
        s.vmsa.rbx % 4096 == 0,
        s.vmsa.rcx % 4096 == 0,
        s.vmsa.r9 % 4096 == 0,
        s.vmsa.r8 == 0xFFFF_FFFF_FFFF_FFFE,
    ensures
        ({
            let (after, outcome) = pal_state::serve_map(s);
            let before = s.effects.len();
            let at = (index - before) * 4096;
            &&& outcome == Outcome::Resume
            &&& after == (PalState {
                vmsa: VMSA { rcx: 0, ..s.vmsa },
                effects: after.effects,
                ..s
            })
            &&& (after.effects.len() - before) * 4096 == s.vmsa.rcx
            &&& after.effects.take(before as int) == s.effects
            &&& before <= index < after.effects.len() && s.vmsa.rdx & 8 == 0 ==> (
            after.effects[index] matches Effect::AliasPage { cr3, src, dst, flags } && cr3
                == s.vmsa.cr3 && src == s.layout.libos + s.vmsa.r9 + at && dst == s.vmsa.rbx + at
                && flags.base == FlagBase::Empty && file_rights(
                flags.spec_bits(0),
                s.vmsa.rdx,
                1,
            ))
            &&& before <= index < after.effects.len() && s.vmsa.rdx & 8 != 0 ==> (
            after.effects[index] matches Effect::CopyPage { cr3, src, dst, flags } && cr3
                == s.vmsa.cr3 && src == s.layout.libos + s.vmsa.r9 + at && dst == s.vmsa.rbx + at
                && flags.base == FlagBase::Empty && copied_page_rights(
                flags.spec_bits(0),
                s.vmsa.rdx,
            ))
        }),
{
    lemma_file_rights(s.vmsa.rdx);
    let after = pal_state::serve_map(s).0;
    assert(after.effects.take(s.effects.len() as int) =~= s.effects);
}

/// The address of the thread control block is the base of GS, and nothing else changes.
pub proof fn law_thread_control_block(s: PalState)
    ensures
        pal_state::serve_set_tcb(s) == (
            (PalState {
                vmsa: VMSA {
                    gs: VMSASegment { base: s.vmsa.rbx, ..s.vmsa.gs },
                    ..s.vmsa
                },
                ..s
            }),
            Outcome::Resume,
        ),
{
}

/// Every page that a change of protection touches gets exactly the rights that were asked for: read
/// (1), write (2), exec (4) and a private copy (8), each on its own.  RCX gets 0, and nothing else
/// changes.
pub proof fn law_protection_is_what_was_asked(s: PalState, index: int)
    requires
        pal_state::call_ready(s, PalCall::Mprotect),
    ensures
        ({
            let (after, outcome) = pal_state::serve_mprotect(s);
            let before = s.effects.len();
            let start = s.vmsa.rbx - s.vmsa.rbx % 4096;
            let prot = s.vmsa.rdx;
            let count = after.effects.len() - before;
            &&& outcome == Outcome::Resume
            &&& after == (PalState {
                vmsa: VMSA { rcx: 0, ..s.vmsa },
                effects: after.effects,
                ..s
            })
            &&& after.effects.take(before as int) == s.effects
            &&& s.vmsa.rbx + s.vmsa.rcx <= start + count * 4096 < s.vmsa.rbx + s.vmsa.rcx + 4096
            &&& before <= index < after.effects.len() ==> (after.effects[index] matches
                Effect::ChangeAttr { cr3, vaddr, readable, writable, executable, writecopy } && cr3
                == s.vmsa.cr3 && vaddr == start + (index - before) * 4096 && readable == (prot & 1
                != 0) && writable == (prot & 2 != 0) && executable == (prot & 4 != 0) && writecopy
                == (prot & 8 != 0))
        }),
{
    let after = pal_state::serve_mprotect(s).0;
    assert(after.effects.take(s.effects.len() as int) =~= s.effects);
}

/// Where nothing is measured, the output goes to the guest at once: as many bytes as the guest has
/// room for, to where the guest wants them.  The guest is told 0, and nothing else changes.
pub proof fn law_unmeasured_result_is_copied(s: PalState)
    requires
        s.features.boottime,
    ensures
        ({
            let (after, outcome) = pal_state::serve_get_result(s);
            let copied = s.effects.push(
                Effect::CopyOutput {
                    guest_page_table: s.guest_page_table,
                    guest_vaddr: s.result_addr,
                    size: s.result_size,
                },
            );
            &&& outcome == Outcome::Leave
            &&& after == (PalState {
                return_value: 0,
                effects: if s.features.stat {
                    copied.push(Effect::CountPages { cr3: s.vmsa.cr3 })
                } else {
                    copied
                },
                ..s
            })
        }),
{
    let after = pal_state::serve_get_result(s).0;
    let copied = s.effects.push(
        Effect::CopyOutput {
            guest_page_table: s.guest_page_table,
            guest_vaddr: s.result_addr,
            size: s.result_size,
        },
    );
    if s.features.stat {
        assert(after.effects =~= copied.push(Effect::CountPages { cr3: s.vmsa.cr3 }));
    } else {
        assert(after.effects =~= copied);
    }
}

/// Where something is measured, the output is collected first: the digest of the environment lies
/// behind the first word of it, and as many bytes as the guest has room for go to where the guest
/// wants them.  Nothing changes before that.
pub proof fn law_measured_result_is_collected(s: PalState)
    requires
        !s.features.boottime,
    ensures
        pal_state::serve_get_result(s) == (
            s,
            Outcome::CollectResult {
                env_offset: 8,
                guest_page_table: s.guest_page_table,
                guest_vaddr: s.result_addr,
                size: s.result_size,
            },
        ),
{
}

/// Once the output is collected, its digest is that of the output, the digest of the environment
/// is that of the module which was measured last, and every other digest stays.  The guest is told
/// 0, and nothing else changes.
pub proof fn law_collected_result_is_measured(
    s: PalState,
    env_hash: [u8; 64],
    output_hash: [u8; 64],
    module: int,
)
    requires
        0 <= module < 15,
    ensures
        ({
            let (after, outcome) = pal_state::serve_result_collected(s, env_hash, output_hash);
            let before = s.process.measurements;
            let count = before.wasm_module_count;
            let measured = after.process.measurements;
            &&& outcome == Outcome::Leave
            &&& measured.output_data == output_hash
            &&& measured.env_hash@[module] == (if module + 1 == count || module == 0 && count == 0 {
                env_hash
            } else {
                before.env_hash@[module]
            })
            &&& measured == (ProcessMeasurements {
                env_hash: measured.env_hash,
                output_data: measured.output_data,
                ..before
            })
            &&& after == (PalState {
                process: ProcessState { measurements: measured, ..s.process },
                return_value: 0,
                effects: if s.features.stat {
                    s.effects.push(Effect::CountPages { cr3: s.vmsa.cr3 })
                } else {
                    s.effects
                },
                ..s
            })
        }),
{
    let after = pal_state::serve_result_collected(s, env_hash, output_hash).0;
    if s.features.stat {
        assert(after.effects =~= s.effects.push(Effect::CountPages { cr3: s.vmsa.cr3 }));
    }
}

/// A request to the guest: RDX bytes at RCX go to where the guest takes its arguments, and the
/// guest is told what is wanted, 3 for the attributes of a file (0), 4 for opening one (1) and 5
/// for reading (2).  The trustlet leaves, and nothing else changes.
pub proof fn law_guest_is_told_what_is_wanted(s: PalState)
    requires
        s.vmsa.rbx <= 2,
    ensures
        ({
            let (after, outcome) = pal_state::serve_guest_request(s);
            &&& outcome == Outcome::Leave
            &&& after == (PalState {
                return_value: (s.vmsa.rbx + 3) as u64,
                effects: s.effects.push(
                    Effect::CopyToGuest {
                        cr3: s.vmsa.cr3,
                        vaddr: s.vmsa.rcx,
                        guest_page_table: s.guest_page_table,
                        guest_vaddr: s.invocation_arg_guest_vaddr,
                        size: s.vmsa.rdx,
                    },
                ),
                ..s
            })
        }),
{
    let after = pal_state::serve_guest_request(s).0;
    assert(after.effects =~= s.effects.push(
        Effect::CopyToGuest {
            cr3: s.vmsa.cr3,
            vaddr: s.vmsa.rcx,
            guest_page_table: s.guest_page_table,
            guest_vaddr: s.invocation_arg_guest_vaddr,
            size: s.vmsa.rdx,
        },
    ));
}

/// A zygote that is ready leaves, and every page of it becomes read-only.  Where pages are not
/// shared it goes on, and nothing changes.
pub proof fn law_ready_zygote_is_read_only(s: PalState)
    ensures
        ({
            let (after, outcome) = pal_state::serve_finalize(s);
            &&& s.features.no_cow ==> after == s && outcome == Outcome::Resume
            &&& !s.features.no_cow ==> outcome == Outcome::Leave && after == (PalState {
                effects: s.effects.push(Effect::FinalizePages { cr3: s.vmsa.cr3 }),
                ..s
            })
        }),
{
    if !s.features.no_cow {
        assert(pal_state::serve_finalize(s).0.effects =~= s.effects.push(
            Effect::FinalizePages { cr3: s.vmsa.cr3 },
        ));
    }
}

/// A mark for a benchmark goes out with its value, and nothing else changes.
pub proof fn law_mark_goes_out(s: PalState, value: u64)
    ensures
        pal_state::serve_outb(s, value) == (
            (PalState { effects: s.effects.push(Effect::Outb { value }), ..s }),
            Outcome::Resume,
        ),
{
    assert(pal_state::serve_outb(s, value).0.effects =~= s.effects.push(Effect::Outb { value }));
}

/// A trustlet makes its input channel (0) or its output channel (1) as large as RDX says, and
/// nothing else.  A channel of any other number changes nothing.
pub proof fn law_channel_grows_as_asked(s: PalState)
    ensures
        ({
            let (after, outcome) = pal_state::serve_inflate_channel(s);
            &&& outcome == Outcome::Resume
            &&& after == (PalState { effects: after.effects, ..s })
            &&& s.vmsa.rcx == 0 ==> after.effects == s.effects.push(
                Effect::InflateInput { cr3: s.vmsa.cr3, size: s.vmsa.rdx },
            )
            &&& s.vmsa.rcx == 1 ==> after.effects == s.effects.push(
                Effect::InflateOutput { cr3: s.vmsa.cr3, size: s.vmsa.rdx },
            )
            &&& s.vmsa.rcx > 1 ==> after.effects == s.effects
        }),
{
    let after = pal_state::serve_inflate_channel(s).0;
    if s.vmsa.rcx == 0 {
        assert(after.effects =~= s.effects.push(
            Effect::InflateInput { cr3: s.vmsa.cr3, size: s.vmsa.rdx },
        ));
    } else if s.vmsa.rcx == 1 {
        assert(after.effects =~= s.effects.push(
            Effect::InflateOutput { cr3: s.vmsa.cr3, size: s.vmsa.rdx },
        ));
    }
}

/// A digit is reported as it stands in RBX, and nothing else changes.
pub proof fn law_digit_is_reported(s: PalState)
    ensures
        pal_state::serve_digit(s) == (
            (PalState {
                effects: s.effects.push(Effect::Report(Note::Digit { value: s.vmsa.rbx })),
                ..s
            }),
            Outcome::Resume,
        ),
{
    assert(pal_state::serve_digit(s).0.effects =~= s.effects.push(
        Effect::Report(Note::Digit { value: s.vmsa.rbx }),
    ));
}

/// Memory that is to be printed is looked for at the address in RBX, as many bytes as RCX says; it
/// lies within one page where its last byte does.  Nothing else changes.
pub proof fn law_printed_memory(s: PalState)
    ensures
        ({
            let (after, outcome) = pal_state::serve_print_info(s);
            &&& outcome == Outcome::Resume
            &&& after == (PalState { effects: after.effects, ..s })
            &&& after.effects.len() == s.effects.len() + 1
            &&& after.effects.drop_last() == s.effects
            &&& after.effects.last() matches Effect::Report(
                Note::Memory { cr3, page, offset, len, within_page },
            ) && cr3 == s.vmsa.cr3 && page % 4096 == 0 && offset < 4096 && page + offset
                == s.vmsa.rbx && len == s.vmsa.rcx && (within_page <==> s.vmsa.rbx + s.vmsa.rcx
                <= page + 4096)
        }),
{
    assert(pal_state::serve_print_info(s).0.effects.drop_last() =~= s.effects);
}

/// Which requests can be served: all of them but for arguments that make no sense.  A request to
/// the guest exists, fits the room for it and lies within one page; a digit is one; memory that is
/// to be printed is whole words in the address space; an exception is a general-protection fault
/// or a page fault; and memory that is mapped, protected or given back lies in the address space.
pub proof fn law_requests_that_can_be_served(s: PalState)
    ensures
        pal_state::call_ready(s, PalCall::GuestRequest) <==> s.vmsa.rbx <= 2 && s.vmsa.rdx
            <= s.invocation_arg_size && s.vmsa.rcx % 4096 + s.vmsa.rdx <= 4096,
        pal_state::call_ready(s, PalCall::Digit) <==> s.vmsa.rbx as int % 0x1_0000_0000 < 10,
        pal_state::call_ready(s, PalCall::PrintInfo) <==> s.vmsa.rcx % 8 == 0 && s.vmsa.rbx
            + s.vmsa.rcx <= u64::MAX && s.vmsa.rbx - s.vmsa.rbx % 4096 + 4096 <= u64::MAX,
        s.vmsa.rcx == 13 ==> pal_state::call_ready(s, PalCall::Exception),
        s.vmsa.rcx == 14 && s.vmsa.rbx & 0x20 != 0 ==> pal_state::call_ready(
            s,
            PalCall::Exception,
        ),
        s.vmsa.rcx == 14 && s.vmsa.rbx & 1 != 0 && s.vmsa.cr2 <= usize::MAX
            ==> pal_state::call_ready(s, PalCall::Exception),
        s.vmsa.rcx < 13 || s.vmsa.rcx > 14 ==> !pal_state::call_ready(s, PalCall::Exception),
        s.vmsa.rbx % 4096 != 0 || s.vmsa.rcx % 4096 != 0 || s.vmsa.r9 % 4096 != 0
            ==> pal_state::call_ready(s, PalCall::MapFile),
        s.vmsa.r8 != 0xFFFF_FFFF_FFFF_FFFE && s.vmsa.rbx + s.vmsa.rcx <= usize::MAX && s.vmsa.r9
            <= usize::MAX ==> pal_state::call_ready(s, PalCall::MapFile),
        s.vmsa.r8 == 0xFFFF_FFFF_FFFF_FFFE && s.vmsa.rbx + s.vmsa.rcx <= u64::MAX && s.layout.libos
            + s.vmsa.r9 + s.vmsa.rcx <= u64::MAX ==> pal_state::call_ready(s, PalCall::MapFile),
        s.vmsa.rbx + s.vmsa.rcx + 4095 <= u64::MAX ==> pal_state::call_ready(s, PalCall::Mprotect),
        s.vmsa.rbx + s.vmsa.rcx <= u64::MAX ==> pal_state::call_ready(s, PalCall::MpkFree),
        s.vmsa.rcx + s.vmsa.rdx <= u64::MAX ==> pal_state::call_ready(s, PalCall::MpkFreePkey),
{
    let rbx = s.vmsa.rbx;
    assert(rbx as u32 == rbx % 0x1_0000_0000) by (bit_vector);
}

/// A 0 ends a message: what was written is reported as the end of it, with a 0 behind it where
/// there is room, and the next message begins anew.  Where there is no room the part that is there
/// goes out first, and nothing is left for the end.
pub proof fn law_zero_ends_a_message(s: PalState, index: int)
    requires
        s.vmsa.rbx == 0,
        0 <= index < 256,
    ensures
        ({
            let (after, outcome) = pal_state::serve_debug_print(s);
            &&& outcome == Outcome::Resume
            &&& after.string_pos == 0
            &&& after.string_buf@[index] == 0
            &&& s.string_pos < 255 ==> after.effects.len() == s.effects.len() + 1
                && after.effects.drop_last() == s.effects
            &&& s.string_pos >= 255 ==> after.effects.len() == s.effects.len() + 2
                && after.effects.drop_last() == s.effects.push(
                Effect::Report(Note::DebugMessage { text: s.string_buf, partial: true }),
            )
            &&& after.effects.last() matches Effect::Report(Note::DebugMessage { text, partial })
                && !partial && text@[index] == (if s.string_pos >= 255 || index == s.string_pos {
                0
            } else {
                s.string_buf@[index]
            })
            &&& after == (PalState {
                string_buf: after.string_buf,
                string_pos: after.string_pos,
                effects: after.effects,
                ..s
            })
        }),
{
    let after = pal_state::serve_debug_print(s).0;
    assert(0u64 as u8 == 0u8);
    if s.string_pos < 255 {
        assert(after.effects.drop_last() =~= s.effects);
    } else {
        assert(after.effects.drop_last() =~= s.effects.push(
            Effect::Report(Note::DebugMessage { text: s.string_buf, partial: true }),
        ));
    }
}

} // verus!
