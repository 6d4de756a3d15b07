//! How each request of a trustlet is served, as a function of the state it is made in.
use vstd::prelude::*;

use crate::measurements;
use crate::mmap;
use crate::mpk_memory;
use crate::page;
use crate::pal_call;
use crate::pkru;
use crate::stats;
use crate::effects::{Effect, Note};
use crate::layout::MemoryLayout;
use crate::measurements::ProcessMeasurements;
use crate::mmap::{MmapInfo, RangeWrapper};
use crate::mpk_memory::MpkState;
use crate::page::{
    FlagBase, ProcessPageFlags, ACCESSED, NO_EXECUTE, PAL_PROT_EXEC, PAL_PROT_READ, PAL_PROT_WRITE,
    PAL_PROT_WRITECOPY, PRESENT, USER_ACCESSIBLE, WRITABLE,
};
use crate::pal_call::{PalCall, PalSvsmGuestRequestType, TrustletReturnType};
use crate::process::ProcessState;
use crate::protocol::Features;
use crate::stats::Stats;
use crate::vmsa::{VMSASegment, VMSA};

verus! {

/// What a register holds that reports a failure.
pub const FAILURE: u64 = 0xFFFF_FFFF_FFFF_FFFF;

/// The descriptor that stands for the library operating system, which the monitor has loaded.
pub const LIBOS_FD: u64 = 0xFFFF_FFFF_FFFF_FFFE;

/// The answer to the guest that the output is there.
pub const RESULT_READY: u64 = 0;

/// An address or a size is not a multiple of the page size.
pub const MPK_NOT_ALIGNED: u64 = 1;

/// The bit of a page-fault code: the page is present.
pub const PF_PRESENT: u64 = 0x1;

/// The bit of a page-fault code: the fault was a write.
pub const PF_WRITE: u64 = 0x2;

/// The bit of a page-fault code: the fault came from ring 3.
pub const PF_USER: u64 = 0x4;

/// The bit of a page-fault code: the fault was a violation of a protection key.
pub const PF_PK: u64 = 0x20;

/// The answer of the processor to `cpuid`.
#[derive(Clone, Copy, Debug, PartialEq, Eq, Structural)]
pub struct CpuidResult {
    pub eax: u32,
    pub ebx: u32,
    pub ecx: u32,
    pub edx: u32,
}

/// How the monitor goes on after a step.
#[derive(Clone, Copy, Debug, PartialEq, Eq, Structural)]
pub enum Outcome {
    /// The trustlet goes on.
    Resume,
    /// The guest gets control back.
    Leave,
    /// The answer for a leaf and a subleaf is looked up.
    Cpuid { eax: u32, ecx: u32 },
    /// The page at an address is copied, if it is shared.
    Cow { cr3: u64, vaddr: u64, user_access: bool },
    /// The digest of an environment is read `env_offset` bytes into the output channel, the output
    /// is copied to the guest, and the output channel is measured.
    CollectResult { env_offset: u64, guest_page_table: u64, guest_vaddr: u64, size: u64 },
}

/// A trustlet that runs, and what is to be done on its behalf.
#[verifier::ext_equal]
pub struct PalState {
    pub process: ProcessState,
    pub vmsa: VMSA,
    pub string_buf: [u8; 256],
    pub string_pos: usize,
    pub result_addr: u64,
    pub result_size: u64,
    pub guest_page_table: u64,
    pub invocation_arg_guest_vaddr: u64,
    pub invocation_arg_size: u64,
    pub return_value: u64,
    pub mpk: Map<u64, MpkState>,
    pub stats: Stats,
    pub features: Features,
    pub layout: MemoryLayout,
    pub effects: Seq<Effect>,
}

/// No character was written since the last message.
pub open spec fn empty_text() -> [u8; 256] {
    vstd::array::spec_array_fill_for_copy_type::<u8, 256>(0u8)
}

impl PalState {
    /// With another value of RCX.
    pub open spec fn set_rcx(self, rcx: u64) -> PalState {
        PalState { vmsa: VMSA { rcx, ..self.vmsa }, ..self }
    }

    /// With another answer to the guest.
    pub open spec fn answer(self, answer: TrustletReturnType) -> PalState {
        PalState { return_value: answer.spec_code(), ..self }
    }

    /// With the answer to the guest that the output is there.
    pub open spec fn answer_result(self) -> PalState {
        PalState { return_value: RESULT_READY, ..self }
    }

    /// With something more to be done.
    pub open spec fn emit(self, effects: Seq<Effect>) -> PalState {
        PalState { effects: self.effects + effects, ..self }
    }

    /// With one thing more to be reported.
    pub open spec fn report(self, note: Note) -> PalState {
        self.emit(seq![Effect::Report(note)])
    }

    /// With the `cpuid` instruction behind it.
    pub open spec fn advance(self) -> PalState {
        PalState { vmsa: VMSA { rip: (self.vmsa.rip + 2) as u64, ..self.vmsa }, ..self }
    }

    /// Every file is mapped at a page boundary.
    pub open spec fn maps_pages(self) -> bool {
        forall|range: RangeWrapper| #[trigger]
            self.process.mappings.contains_key(range) ==> self.process.mappings[range].addr % 4096
                == 0
    }
}

/// A zygote that runs for the first time.  It has no guest to talk to.
pub open spec fn zygote_run(
    process: ProcessState,
    vmsa: VMSA,
    mpk: Map<u64, MpkState>,
    stats: Stats,
    features: Features,
    layout: MemoryLayout,
) -> PalState {
    PalState {
        process,
        vmsa,
        string_buf: empty_text(),
        string_pos: 0,
        result_addr: 0,
        result_size: 0,
        guest_page_table: 0,
        invocation_arg_guest_vaddr: 0,
        invocation_arg_size: 0,
        return_value: 0,
        mpk,
        stats,
        features,
        layout,
        effects: Seq::empty(),
    }
}

/// Whether a leaf of `cpuid` has subleaves.
pub open spec fn has_subleaf(eax: u32) -> bool {
    ||| eax == 4 || eax == 7 || eax == 0xb || eax == 0xd || eax == 0xf
    ||| eax == 0x10 || eax == 0x12 || eax == 0x14 || eax == 0x17 || eax == 0x18
    ||| eax == 0x1d || eax == 0x1e || eax == 0x1f || eax == 0x24
    ||| eax == 0x8000_001d
}

/// An ordinary `cpuid`: the answer has to be looked up.
pub open spec fn serve_cpuid(s: PalState) -> (PalState, Outcome) {
    let eax = s.vmsa.rax as u32;
    (
        s,
        Outcome::Cpuid {
            eax,
            ecx: if has_subleaf(eax) {
                s.vmsa.rcx as u32
            } else {
                0
            },
        },
    )
}

/// The answer to a `cpuid`: each of the four registers gets its part, and zero where there is no
/// answer.
pub open spec fn serve_cpuid_answer(s: PalState, answer: Option<CpuidResult>) -> (
    PalState,
    Outcome,
) {
    let result = match answer {
        Some(result) => result,
        None => CpuidResult { eax: 0, ebx: 0, ecx: 0, edx: 0 },
    };
    (
        PalState {
            vmsa: VMSA {
                rax: result.eax as u64,
                rbx: result.ebx as u64,
                rcx: result.ecx as u64,
                rdx: result.edx as u64,
                ..s.vmsa
            },
            ..s
        },
        Outcome::Resume,
    )
}

/// The trustlet failed: its message is reported and it leaves.
pub open spec fn serve_fail(s: PalState) -> (PalState, Outcome) {
    (
        s.report(
            Note::PalError {
                cr3: s.vmsa.cr3,
                page: page::page_start(s.vmsa.rbx),
                offset: s.vmsa.rbx % 4096,
                errno: s.vmsa.rcx,
            },
        ),
        Outcome::Leave,
    )
}

/// The trustlet is done.
pub open spec fn serve_exit(s: PalState) -> (PalState, Outcome) {
    (
        s.report(Note::Exited { code: s.vmsa.rbx }).answer(TrustletReturnType::Exit),
        Outcome::Leave,
    )
}

/// One character of a message is kept.  Where there is no room for it, what is there is reported
/// and the character is lost.
pub open spec fn text_extended(s: PalState) -> PalState {
    if s.string_pos < 255 {
        PalState {
            string_buf: vstd::array::spec_array_update(
                s.string_buf,
                s.string_pos as int,
                s.vmsa.rbx as u8,
            ),
            string_pos: (s.string_pos + 1) as usize,
            ..s
        }
    } else {
        PalState {
            string_buf: empty_text(),
            string_pos: 0,
            ..s.report(Note::DebugMessage { text: s.string_buf, partial: true })
        }
    }
}

/// One character of a message: a 0 ends it, and it is reported.
pub open spec fn serve_debug_print(s: PalState) -> (PalState, Outcome) {
    let extended = text_extended(s);
    (
        if s.vmsa.rbx == 0 {
            PalState {
                string_buf: empty_text(),
                string_pos: 0,
                ..extended.report(
                    Note::DebugMessage { text: extended.string_buf, partial: false },
                )
            }
        } else {
            extended
        },
        Outcome::Resume,
    )
}

/// The flags of fresh memory.
pub open spec fn fresh_flags(prot: u64) -> ProcessPageFlags {
    let data = ProcessPageFlags::spec_of(FlagBase::Data);
    let written = if prot & PAL_PROT_WRITE != 0 {
        data.spec_with(WRITABLE)
    } else {
        data
    };
    if prot & PAL_PROT_EXEC != 0 {
        written.spec_without(NO_EXECUTE)
    } else {
        written
    }
}

/// Fresh memory: RBX has its address, RCX its size and RDX its protection.
pub open spec fn serve_virt_alloc(s: PalState) -> (PalState, Outcome) {
    let addr = s.vmsa.rbx;
    let size = s.vmsa.rcx;
    (
        if !page::page_aligned(addr) || !page::page_aligned(size) {
            s.set_rcx(FAILURE)
        } else {
            s.emit(
                seq![
                    Effect::AddPages {
                        cr3: s.vmsa.cr3,
                        vaddr: addr,
                        pages: size / 4096,
                        flags: fresh_flags(s.vmsa.rdx),
                    },
                ],
            ).set_rcx(0)
        },
        Outcome::Resume,
    )
}

/// Memory is given back: RBX has its address and RCX its size.
pub open spec fn serve_virt_free(s: PalState) -> (PalState, Outcome) {
    let addr = s.vmsa.rbx;
    let size = s.vmsa.rcx;
    (
        if !page::page_aligned(addr) || !page::page_aligned(size) {
            s.set_rcx(FAILURE)
        } else {
            s.emit(
                seq![Effect::RemovePages { cr3: s.vmsa.cr3, vaddr: addr, pages: size / 4096 }],
            )
        },
        Outcome::Resume,
    )
}

/// The flags of a file mapping.  A private copy upon the first write takes the right to write
/// away.
pub open spec fn file_flags(prot: u64) -> ProcessPageFlags {
    let plain = ProcessPageFlags::spec_of(FlagBase::Empty).spec_with(USER_ACCESSIBLE | ACCESSED);
    let written = if prot & PAL_PROT_WRITE != 0 {
        plain.spec_with(WRITABLE)
    } else {
        plain
    };
    let copied = if prot & PAL_PROT_WRITECOPY != 0 {
        written.spec_without(WRITABLE)
    } else {
        written
    };
    if prot & PAL_PROT_EXEC != 0 {
        copied
    } else {
        copied.spec_with(NO_EXECUTE)
    }
}

/// What is done to page `index` of a mapping of the library operating system: where the trustlet
/// wants a copy of its own it gets one, else the page is shared.
pub open spec fn libos_page_effect(s: PalState, index: int) -> Effect {
    let src = mpk_memory::page_at((s.layout.libos + s.vmsa.r9) as u64, index);
    let dst = mpk_memory::page_at(s.vmsa.rbx, index);
    let flags = file_flags(s.vmsa.rdx).spec_with(PRESENT);
    if s.vmsa.rdx & PAL_PROT_WRITECOPY != 0 {
        Effect::CopyPage { cr3: s.vmsa.cr3, src, dst, flags: flags.spec_with(WRITABLE) }
    } else {
        Effect::AliasPage { cr3: s.vmsa.cr3, src, dst, flags }
    }
}

/// What is done to page `index` of a mapping of a file of the guest: it is reserved, and its
/// contents come with the first fault.
pub open spec fn file_page_effect(s: PalState, index: int) -> Effect {
    Effect::MapPage {
        cr3: s.vmsa.cr3,
        vaddr: mpk_memory::page_at(s.vmsa.rbx, index),
        paddr: 0,
        flags: file_flags(s.vmsa.rdx),
    }
}

/// Whether the address, the size and the offset of a file mapping are multiples of the page size.
pub open spec fn mapping_aligned(s: PalState) -> bool {
    &&& page::page_aligned(s.vmsa.rbx)
    &&& page::page_aligned(s.vmsa.rcx)
    &&& page::page_aligned(s.vmsa.r9)
}

/// A file mapping: RBX has its address, RCX its size, RDX its protection, R8 the descriptor of the
/// file and R9 where in the file it begins.
pub open spec fn serve_map(s: PalState) -> (PalState, Outcome) {
    let pages = (s.vmsa.rcx / 4096) as nat;
    if !mapping_aligned(s) {
        (s.set_rcx(FAILURE), Outcome::Leave)
    } else if s.vmsa.r8 == LIBOS_FD {
        (
            s.emit(Seq::new(pages, |i: int| libos_page_effect(s, i))).set_rcx(0),
            Outcome::Resume,
        )
    } else {
        let process = ProcessState {
            mappings: mmap::with_mapping(
                s.process.mappings,
                s.vmsa.rbx as usize,
                s.vmsa.rcx as usize,
                s.vmsa.r8 as i32,
                s.vmsa.r9 as usize,
            ),
            ..s.process
        };
        (
            PalState {
                process,
                ..s.emit(Seq::new(pages, |i: int| file_page_effect(s, i))).set_rcx(0)
            },
            Outcome::Resume,
        )
    }
}

/// Whether a file mapping lies in the address space, as far as it matters.
pub open spec fn mapping_in_address_space(s: PalState) -> bool {
    if s.vmsa.r8 == LIBOS_FD {
        &&& mpk_memory::range_in_address_space(s.vmsa.rbx, s.vmsa.rcx)
        &&& s.vmsa.rcx >= 4096 ==> s.layout.libos + s.vmsa.r9 + (s.vmsa.rcx / 4096 - 1) * 4096
            <= u64::MAX
    } else {
        &&& s.vmsa.rbx + s.vmsa.rcx <= usize::MAX
        &&& s.vmsa.r9 <= usize::MAX
    }
}

/// The thread control block: RBX has its address.
pub open spec fn serve_set_tcb(s: PalState) -> (PalState, Outcome) {
    (
        PalState {
            vmsa: VMSA { gs: VMSASegment { base: s.vmsa.rbx, ..s.vmsa.gs }, ..s.vmsa },
            ..s
        },
        Outcome::Resume,
    )
}

/// How many pages the memory touches whose protection is to change.
pub open spec fn protected_pages(s: PalState) -> int {
    (s.vmsa.rbx % 4096 + s.vmsa.rcx + 4095) / 4096
}

/// What is done to page `index` of memory whose protection is to change.
pub open spec fn protect_effect(s: PalState, index: int) -> Effect {
    Effect::ChangeAttr {
        cr3: s.vmsa.cr3,
        vaddr: mpk_memory::page_at(page::page_start(s.vmsa.rbx), index),
        readable: s.vmsa.rdx & PAL_PROT_READ != 0,
        writable: s.vmsa.rdx & PAL_PROT_WRITE != 0,
        executable: s.vmsa.rdx & PAL_PROT_EXEC != 0,
        writecopy: s.vmsa.rdx & PAL_PROT_WRITECOPY != 0,
    }
}

/// Another protection: RBX has the address of the memory, RCX its size and RDX the protection.
pub open spec fn serve_mprotect(s: PalState) -> (PalState, Outcome) {
    (
        s.emit(Seq::new(protected_pages(s) as nat, |i: int| protect_effect(s, i))).set_rcx(0),
        Outcome::Resume,
    )
}

/// The output is ready.  Where nothing is measured it is copied to the guest at once.
pub open spec fn serve_get_result(s: PalState) -> (PalState, Outcome) {
    if s.features.boottime {
        (
            result_counted(
                s.emit(
                    seq![
                        Effect::CopyOutput {
                            guest_page_table: s.guest_page_table,
                            guest_vaddr: s.result_addr,
                            size: s.result_size,
                        },
                    ],
                ).answer_result(),
            ),
            Outcome::Leave,
        )
    } else {
        (
            s,
            Outcome::CollectResult {
                env_offset: 8,
                guest_page_table: s.guest_page_table,
                guest_vaddr: s.result_addr,
                size: s.result_size,
            },
        )
    }
}

/// The pages of a trustlet are counted, where anything is.
pub open spec fn result_counted(s: PalState) -> PalState {
    if s.features.stat {
        s.emit(seq![Effect::CountPages { cr3: s.vmsa.cr3 }])
    } else {
        s
    }
}

/// The output was copied to the guest: the digests are kept.
pub open spec fn serve_result_collected(
    s: PalState,
    env_hash: [u8; 64],
    output_hash: [u8; 64],
) -> (PalState, Outcome) {
    let measurements = ProcessMeasurements {
        output_data: output_hash,
        ..measurements::with_env_hash(s.process.measurements, env_hash)
    };
    (
        result_counted(
            PalState {
                process: ProcessState { measurements, ..s.process },
                ..s.answer_result()
            },
        ),
        Outcome::Leave,
    )
}

/// The answer to the guest that goes with a request to it.
pub open spec fn guest_answer(code: u64) -> TrustletReturnType {
    if code == PalSvsmGuestRequestType::FileAttr.spec_code() {
        TrustletReturnType::FileAttr
    } else if code == PalSvsmGuestRequestType::Open.spec_code() {
        TrustletReturnType::Open
    } else {
        TrustletReturnType::Read
    }
}

/// A request to the guest: RBX has its number, RCX the address of its argument and RDX the size.
pub open spec fn serve_guest_request(s: PalState) -> (PalState, Outcome) {
    (
        s.emit(
            seq![
                Effect::CopyToGuest {
                    cr3: s.vmsa.cr3,
                    vaddr: s.vmsa.rcx,
                    guest_page_table: s.guest_page_table,
                    guest_vaddr: s.invocation_arg_guest_vaddr,
                    size: s.vmsa.rdx,
                },
            ],
        ).answer(guest_answer(s.vmsa.rbx)),
        Outcome::Leave,
    )
}

/// Whether a request to the guest exists, fits the room for it and lies within one page.
pub open spec fn guest_request_fits(s: PalState) -> bool {
    &&& s.vmsa.rbx <= 2
    &&& s.vmsa.rdx <= s.invocation_arg_size
    &&& s.vmsa.rcx % 4096 + s.vmsa.rdx <= 4096
}

/// The zygote is ready: its pages become read-only and it leaves.  Where pages are not shared
/// there is nothing to do.
pub open spec fn serve_finalize(s: PalState) -> (PalState, Outcome) {
    if s.features.no_cow {
        (s, Outcome::Resume)
    } else {
        (s.emit(seq![Effect::FinalizePages { cr3: s.vmsa.cr3 }]), Outcome::Leave)
    }
}

/// A protection key: RAX gets the key, RCX gets 0 or a code.
pub open spec fn serve_mpk_pkey_alloc(s: PalState) -> (PalState, Outcome) {
    let (mpk, result) = mpk_memory::pkey_alloc_result(s.mpk, s.vmsa.cr3);
    (
        match result {
            Ok(pkey) => PalState {
                mpk,
                vmsa: VMSA { rax: pkey as u64, rcx: 0, ..s.vmsa },
                ..s
            },
            Err(code) => PalState { mpk, ..s.set_rcx(code as u64) },
        },
        Outcome::Resume,
    )
}

/// Memory of a key: RBX has its address, RCX its size and RDX the key.  RCX gets 0 or a code.
pub open spec fn serve_mpk_alloc(s: PalState) -> (PalState, Outcome) {
    let addr = s.vmsa.rbx;
    let size = s.vmsa.rcx;
    let pkey = s.vmsa.rdx as u32;
    let (mpk, result) = mpk_memory::alloc_memory_result(s.mpk, s.vmsa.cr3, addr, size, pkey);
    (
        if !page::page_aligned(addr) || !page::page_aligned(size) {
            s.set_rcx(MPK_NOT_ALIGNED)
        } else {
            match result {
                Ok(()) => PalState {
                    mpk,
                    ..s.emit(
                        mpk_memory::alloc_memory_effects(s.vmsa.cr3, addr, size, pkey),
                    ).set_rcx(0)
                },
                Err(code) => PalState { mpk, ..s.set_rcx(code as u64) },
            }
        },
        Outcome::Resume,
    )
}

/// Memory of a key is given back: RBX has its address and RCX its size.  RCX gets 0 or a code.
pub open spec fn serve_mpk_free(s: PalState) -> (PalState, Outcome) {
    let addr = s.vmsa.rbx;
    let size = s.vmsa.rcx;
    let (mpk, result) = mpk_memory::free_memory_result(s.mpk, s.vmsa.cr3, addr, size);
    (
        if !page::page_aligned(addr) || !page::page_aligned(size) {
            s.set_rcx(MPK_NOT_ALIGNED)
        } else {
            match result {
                Ok(()) => PalState {
                    mpk,
                    ..s.emit(mpk_memory::free_memory_effects(s.vmsa.cr3, addr, size)).set_rcx(0)
                },
                Err(code) => PalState { mpk, ..s.set_rcx(code as u64) },
            }
        },
        Outcome::Resume,
    )
}

/// A key is given back: RBX has the key, RCX the address of memory to free before it and RDX the
/// size of that memory, one of them 0 where there is none.  RCX gets 0 or a code.
pub open spec fn serve_mpk_free_pkey(s: PalState) -> (PalState, Outcome) {
    let pkey = s.vmsa.rbx as u32;
    let addr = s.vmsa.rcx;
    let size = s.vmsa.rdx;
    let (mpk, result) = mpk_memory::free_pkey_result(s.mpk, pkey, s.vmsa.cr3, addr, size);
    (
        if mpk_memory::names_memory(addr, size) && !(page::page_aligned(addr)
            && page::page_aligned(size)) {
            s.set_rcx(MPK_NOT_ALIGNED)
        } else {
            match result {
                Ok(()) => PalState {
                    mpk,
                    ..s.emit(
                        if mpk_memory::names_memory(addr, size) {
                            mpk_memory::free_memory_effects(s.vmsa.cr3, addr, size)
                        } else {
                            Seq::empty()
                        },
                    ).set_rcx(0)
                },
                Err(code) => PalState { mpk, ..s.set_rcx(code as u64) },
            }
        },
        Outcome::Resume,
    )
}

/// Whether memory that is given back lies in the address space, where it was allocated.
pub open spec fn freed_in_address_space(s: PalState, addr: u64, size: u64) -> bool {
    page::page_aligned(addr) && page::page_aligned(size) && mpk_memory::free_memory_result(
        s.mpk,
        s.vmsa.cr3,
        addr,
        size,
    ).1 is Ok ==> mpk_memory::range_in_address_space(addr, size)
}

/// The domain of a key is opened: RBX has the key.  RCX gets 0 or a code.
pub open spec fn serve_mpk_enter_domain(s: PalState) -> (PalState, Outcome) {
    (
        match pkru::enter_domain_result(s.vmsa.pkru, s.vmsa.rbx as u32) {
            Ok(pkru) => PalState { vmsa: VMSA { pkru, rcx: 0, ..s.vmsa }, ..s },
            Err(code) => s.set_rcx(code),
        },
        Outcome::Resume,
    )
}

/// The domain of a key is closed: RBX has the key.  RCX gets 0 or a code.
pub open spec fn serve_mpk_exit_domain(s: PalState) -> (PalState, Outcome) {
    (
        match pkru::exit_domain_result(s.vmsa.pkru, s.vmsa.rbx as u32) {
            Ok(pkru) => PalState { vmsa: VMSA { pkru, rcx: 0, ..s.vmsa }, ..s },
            Err(code) => s.set_rcx(code),
        },
        Outcome::Resume,
    )
}

/// The protection-key rights: RAX gets them, RCX gets 0.
pub open spec fn serve_mpk_query_pkru(s: PalState) -> (PalState, Outcome) {
    (
        PalState { vmsa: VMSA { rax: s.vmsa.pkru as u64, rcx: 0, ..s.vmsa }, ..s },
        Outcome::Resume,
    )
}

/// The stack of a trustlet, from where RSP points.
pub open spec fn stack_note(s: PalState) -> Note {
    Note::Stack {
        cr3: s.vmsa.cr3,
        vaddr: s.vmsa.rsp,
        first_word: (s.vmsa.rsp % 4096) / 8,
        words: 9,
    }
}

/// A general-protection fault: it is reported and the trustlet leaves.
pub open spec fn serve_general_protection(s: PalState) -> (PalState, Outcome) {
    (
        s.report(
            Note::GeneralProtection { cr2: s.vmsa.cr2, error_code: s.vmsa.rbx },
        ).report(stack_note(s)),
        Outcome::Leave,
    )
}

/// The page fault is counted, where anything is.
pub open spec fn fault_counted(s: PalState) -> PalState {
    if s.features.stat {
        PalState {
            stats: Stats { page_faults: stats::counted(s.stats.page_faults), ..s.stats },
            ..s
        }
    } else {
        s
    }
}

/// The first write to a shared page is counted, where anything is.
pub open spec fn cow_counted(s: PalState) -> PalState {
    if s.features.stat {
        PalState { stats: Stats { cow: stats::counted(s.stats.cow), ..s.stats }, ..s }
    } else {
        s
    }
}

/// The number of a file, as the guest gets it: a negative one is that many below 2^64.
pub open spec fn fd_word(fd: i32) -> u64 {
    if fd >= 0 {
        fd as u64
    } else {
        (0x1_0000_0000_0000_0000 + fd) as u64
    }
}

/// A fault on a page of a file that is not there yet: the guest is asked for the page.
pub open spec fn page_requested(s: PalState, info: MmapInfo) -> PalState {
    let target = page::page_start(s.vmsa.cr2);
    PalState {
        process: ProcessState { pf_target_vaddr: target, ..s.process },
        ..s.emit(
            seq![
                Effect::WriteGuestWords {
                    guest_page_table: s.guest_page_table,
                    guest_vaddr: s.invocation_arg_guest_vaddr,
                    words: request_words(info, target),
                },
            ],
        ).answer(TrustletReturnType::Mmap)
    }
}

/// The words of a request for a page of a file: the file, where in it the mapping begins, the size
/// of the mapping, and how far into the mapping the page lies.
pub open spec fn request_words(info: MmapInfo, target: u64) -> [u64; 4] {
    [fd_word(info.fd), info.offset as u64, info.size as u64, (target - info.addr) as u64]
}

/// A page fault that nobody could handle: it is reported and the trustlet leaves.
pub open spec fn serve_unhandled_fault(s: PalState) -> (PalState, Outcome) {
    (
        s.report(
            Note::PageFault { cr2: s.vmsa.cr2, rip: s.vmsa.rip, error_code: s.vmsa.rbx },
        ).report(stack_note(s)),
        Outcome::Leave,
    )
}

/// A page fault: CR2 has the address and RBX the code.
///
/// A violation of a protection key is never handled: the trustlet leaves.  A fault on a page of a
/// file that is not there yet makes the guest load the page.  A write to a page that is there may
/// be the first one to a shared page.
pub open spec fn serve_page_fault(before: PalState) -> (PalState, Outcome) {
    let s = fault_counted(before);
    let code = s.vmsa.rbx;
    let mapping = mmap::find_mapping(s.process.mappings, s.vmsa.cr2 as usize);
    if code & PF_PK != 0 {
        (
            s.report(
                Note::PkeyViolation {
                    cr2: s.vmsa.cr2,
                    rip: s.vmsa.rip,
                    error_code: code,
                    pkru: s.vmsa.pkru,
                },
            ),
            Outcome::Leave,
        )
    } else if mapping is Some && code & PF_PRESENT == 0 {
        (page_requested(s, mapping->0), Outcome::Leave)
    } else if code & PF_PRESENT != 0 && code & PF_WRITE != 0 {
        (
            cow_counted(s),
            Outcome::Cow {
                cr3: s.vmsa.cr3,
                vaddr: s.vmsa.cr2,
                user_access: code & PF_USER != 0,
            },
        )
    } else {
        serve_unhandled_fault(s)
    }
}

/// The page was copied, or it was not shared.
pub open spec fn serve_cow_answer(s: PalState, handled: bool) -> (PalState, Outcome) {
    if handled {
        (s, Outcome::Resume)
    } else {
        serve_unhandled_fault(s)
    }
}

/// An exception: RCX has its number.
pub open spec fn serve_exception(s: PalState) -> (PalState, Outcome) {
    if s.vmsa.rcx == 13 {
        serve_general_protection(s)
    } else {
        serve_page_fault(s)
    }
}

/// A double fault: it is reported and the trustlet leaves.
pub open spec fn serve_double_fault(s: PalState) -> (PalState, Outcome) {
    (
        s.report(Note::DoubleFault { error_code: s.vmsa.rbx }).report(stack_note(s)).report(
            Note::DescriptorTable { cr3: s.vmsa.cr3, vaddr: s.vmsa.rcx },
        ),
        Outcome::Leave,
    )
}

/// A mark for a benchmark.
pub open spec fn serve_outb(s: PalState, value: u64) -> (PalState, Outcome) {
    (s.emit(seq![Effect::Outb { value }]), Outcome::Resume)
}

/// A larger channel: RCX says which one, 0 the input and 1 the output, and RDX has the size.
pub open spec fn serve_inflate_channel(s: PalState) -> (PalState, Outcome) {
    (
        if s.vmsa.rcx == 0 {
            s.emit(seq![Effect::InflateInput { cr3: s.vmsa.cr3, size: s.vmsa.rdx }])
        } else if s.vmsa.rcx == 1 {
            s.emit(seq![Effect::InflateOutput { cr3: s.vmsa.cr3, size: s.vmsa.rdx }])
        } else {
            s
        },
        Outcome::Resume,
    )
}

/// A digit is printed: the low 32 bits of RBX have it.
pub open spec fn serve_digit(s: PalState) -> (PalState, Outcome) {
    (s.report(Note::Digit { value: s.vmsa.rbx }), Outcome::Resume)
}

/// Memory is printed: RBX has its address and RCX its size.
pub open spec fn serve_print_info(s: PalState) -> (PalState, Outcome) {
    (
        s.report(
            Note::Memory {
                cr3: s.vmsa.cr3,
                page: page::page_start(s.vmsa.rbx),
                offset: s.vmsa.rbx % 4096,
                len: s.vmsa.rcx,
                within_page: s.vmsa.rbx % 4096 + s.vmsa.rcx <= 4096,
            },
        ),
        Outcome::Resume,
    )
}

/// There is no such request: it is reported and the trustlet leaves.
pub open spec fn serve_unknown(s: PalState) -> (PalState, Outcome) {
    (
        s.report(Note::UnknownRequest { code: s.vmsa.rax, rip: (s.vmsa.rip - 2) as u64 }),
        Outcome::Leave,
    )
}

/// How a request is served.
pub open spec fn serve_call(s: PalState, call: PalCall) -> (PalState, Outcome) {
    match call {
        PalCall::Cpuid => serve_cpuid(s),
        PalCall::Fail => serve_fail(s),
        PalCall::Exit => serve_exit(s),
        PalCall::DebugPrint => serve_debug_print(s),
        PalCall::VirtAlloc => serve_virt_alloc(s),
        PalCall::MapFile => serve_map(s),
        PalCall::SetTcb => serve_set_tcb(s),
        PalCall::Mprotect => serve_mprotect(s),
        PalCall::GetResult => serve_get_result(s),
        PalCall::GuestRequest => serve_guest_request(s),
        PalCall::VirtFree => serve_virt_free(s),
        PalCall::Nop => (s, Outcome::Resume),
        PalCall::Finalize => serve_finalize(s),
        PalCall::MpkAlloc => serve_mpk_alloc(s),
        PalCall::MpkFree => serve_mpk_free(s),
        PalCall::MpkPkeyAlloc => serve_mpk_pkey_alloc(s),
        PalCall::MpkEnterDomain => serve_mpk_enter_domain(s),
        PalCall::MpkExitDomain => serve_mpk_exit_domain(s),
        PalCall::MpkFreePkey => serve_mpk_free_pkey(s),
        PalCall::MpkQueryPkru => serve_mpk_query_pkru(s),
        PalCall::Exception => serve_exception(s),
        PalCall::DoubleFault => serve_double_fault(s),
        PalCall::CallOutb => serve_outb(s, 110),
        PalCall::CallExit => (s, Outcome::Leave),
        PalCall::CallOutbWithValue => serve_outb(s, s.vmsa.rcx),
        PalCall::InflateChannel => serve_inflate_channel(s),
        PalCall::Digit => serve_digit(s),
        PalCall::PrintInfo => serve_print_info(s),
        PalCall::Unknown => serve_unknown(s),
    }
}

/// Whether the address of a page fault exists, and a file that is to be loaded there is mapped at
/// a page boundary.
pub open spec fn fault_ready(s: PalState) -> bool {
    let mapping = mmap::find_mapping(s.process.mappings, s.vmsa.cr2 as usize);
    s.vmsa.rbx & PF_PK == 0 ==> {
        &&& s.vmsa.cr2 <= usize::MAX
        &&& mapping is Some && s.vmsa.rbx & PF_PRESENT == 0 ==> mapping->0.addr % 4096 == 0
    }
}

/// Whether the monitor can serve a request with these arguments at all.
pub open spec fn call_ready(s: PalState, call: PalCall) -> bool {
    match call {
        PalCall::MapFile => mapping_aligned(s) ==> mapping_in_address_space(s),
        PalCall::Mprotect => {
            &&& s.vmsa.rbx % 4096 + s.vmsa.rcx + 4095 <= u64::MAX
            &&& protected_pages(s) > 0 ==> page::page_start(s.vmsa.rbx) + (protected_pages(s) - 1)
                * 4096 <= u64::MAX
        },
        PalCall::GuestRequest => guest_request_fits(s),
        PalCall::MpkFree => freed_in_address_space(s, s.vmsa.rbx, s.vmsa.rcx),
        PalCall::MpkFreePkey => mpk_memory::names_memory(s.vmsa.rcx, s.vmsa.rdx)
            ==> freed_in_address_space(s, s.vmsa.rcx, s.vmsa.rdx),
        PalCall::Exception => {
            &&& s.vmsa.rcx == 13 || s.vmsa.rcx == 14
            &&& s.vmsa.rcx == 14 ==> fault_ready(s)
        },
        PalCall::Digit => (s.vmsa.rbx as u32) < 10,
        PalCall::PrintInfo => {
            &&& s.vmsa.rcx % 8 == 0
            &&& s.vmsa.rbx + s.vmsa.rcx <= u64::MAX
            &&& page::page_start(s.vmsa.rbx) + 4096 <= u64::MAX
        },
        _ => true,
    }
}

/// Whether the monitor can serve the request that a trustlet makes at all.
pub open spec fn request_ready(s: PalState) -> bool {
    &&& s.vmsa.rip + 2 <= u64::MAX
    &&& call_ready(s.advance(), pal_call::pal_call_of(s.vmsa.rax))
}

/// How the request that a trustlet makes is served.
pub open spec fn serve_request(s: PalState) -> (PalState, Outcome) {
    serve_call(s.advance(), pal_call::pal_call_of(s.vmsa.rax))
}

} // verus!
