//! The monitor's side of a trustlet that runs.
//!
//! A trustlet makes its requests with the `cpuid` instruction, which hands control to the monitor.
//! The code of a request is in RAX, its arguments are in the other registers.
use vstd::prelude::*;

use crate::effects::{Effect, Note};
use crate::layout::MemoryLayout;
use crate::mpk_memory;
use crate::mpk_memory::{
    mpk_alloc_memory, mpk_free_memory, mpk_free_pkey, mpk_has_memory, mpk_pkey_alloc_only,
    MpkManagers,
};
use crate::page;
use crate::page::{
    page_offset_of, page_size_4k, page_start_of, FlagBase, ProcessPageFlags, ACCESSED, NO_EXECUTE,
    PAL_PROT_EXEC, PAL_PROT_READ, PAL_PROT_WRITE, PAL_PROT_WRITECOPY, PRESENT, USER_ACCESSIBLE,
    WRITABLE,
};
use crate::pal_call::{pal_call, PalCall, PalSvsmGuestRequestType, TrustletReturnType};
use crate::pal_state;
use crate::pal_state::{
    CpuidResult, Outcome, PalState, FAILURE, LIBOS_FD, MPK_NOT_ALIGNED, PF_PK, PF_PRESENT, PF_USER,
    PF_WRITE, RESULT_READY,
};
use crate::pkru::{enter_domain, exit_domain};
use crate::process::TrustedProcess;
use crate::protocol::Features;
use crate::stats::{count_one, Stats};
use crate::vmsa::VMSA;

verus! {

/// A trustlet that runs, and what is to be done on its behalf.
#[derive(Debug)]
pub struct PALContext {
    /// The process.
    pub process: TrustedProcess,
    /// Its registers.
    pub vmsa: VMSA,
    /// The characters of a message that has not ended yet.
    pub string_buf: [u8; 256],
    /// How many characters of the message there are.
    pub string_pos: usize,
    /// Where the guest wants the output.
    pub result_addr: u64,
    /// How much output the guest wants.
    pub result_size: u64,
    /// The page table of the guest.
    pub guest_page_table: u64,
    /// Where the arguments of a request to the guest go.
    pub invocation_arg_guest_vaddr: u64,
    /// How much room there is for these arguments.
    pub invocation_arg_size: u64,
    /// The answer to the guest.
    pub return_value: u64,
    /// The protection keys of all processes.
    pub mpk: MpkManagers,
    /// The counters.
    pub stats: Stats,
    /// How the monitor was built.
    pub features: Features,
    /// Where things lie in memory.
    pub layout: MemoryLayout,
    /// What is to be done, in this order.
    pub effects: Vec<Effect>,
}

impl View for PALContext {
    type V = PalState;

    open spec fn view(&self) -> PalState {
        PalState {
            process: self.process@,
            vmsa: self.vmsa,
            string_buf: self.string_buf,
            string_pos: self.string_pos,
            result_addr: self.result_addr,
            result_size: self.result_size,
            guest_page_table: self.guest_page_table,
            invocation_arg_guest_vaddr: self.invocation_arg_guest_vaddr,
            invocation_arg_size: self.invocation_arg_size,
            return_value: self.return_value,
            mpk: self.mpk@,
            stats: self.stats,
            features: self.features,
            layout: self.layout,
            effects: self.effects@,
        }
    }
}

impl PALContext {
    fn emit(&mut self, effect: Effect)
        ensures
            final(self)@ == old(self)@.emit(seq![effect]),
    {
        self.effects.push(effect);
        assert(self.effects@ =~= old(self).effects@ + seq![effect]);
    }

    fn report(&mut self, note: Note)
        ensures
            final(self)@ == old(self)@.report(note),
    {
        self.emit(Effect::Report(note));
    }

    /// Hands out what is to be done.
    pub fn take_effects(&mut self) -> (effects: Vec<Effect>)
        ensures
            effects@ == old(self)@.effects,
            final(self)@ == (PalState { effects: Seq::empty(), ..old(self)@ }),
    {
        let mut effects: Vec<Effect> = Vec::new();
        core::mem::swap(&mut effects, &mut self.effects);
        effects
    }

    fn map_libos(
        &mut self,
        addr: u64,
        num_pages: u64,
        offset: u64,
        writecopy: bool,
        flags: ProcessPageFlags,
    )
        requires
            addr == old(self).vmsa.rbx,
            num_pages == old(self).vmsa.rcx / 4096,
            offset == old(self).vmsa.r9,
            writecopy == (old(self).vmsa.rdx & PAL_PROT_WRITECOPY != 0),
            flags == pal_state::file_flags(old(self).vmsa.rdx).spec_with(PRESENT),
            old(self).vmsa.r8 == LIBOS_FD,
            pal_state::mapping_in_address_space(old(self)@),
        ensures
            final(self)@ == old(self)@.emit(
                Seq::new(num_pages as nat, |i: int| pal_state::libos_page_effect(old(self)@, i)),
            ),
    {
        let libos = self.layout.libos;
        let cr3 = self.vmsa.cr3;
        let page_size = page_size_4k();
        let mut i: u64 = 0;
        while i < num_pages
            invariant
                i <= num_pages,
                page_size == 4096,
                libos == old(self).layout.libos,
                cr3 == old(self).vmsa.cr3,
                addr == old(self).vmsa.rbx,
                num_pages == old(self).vmsa.rcx / 4096,
                offset == old(self).vmsa.r9,
                writecopy == (old(self).vmsa.rdx & PAL_PROT_WRITECOPY != 0),
                flags == pal_state::file_flags(old(self).vmsa.rdx).spec_with(PRESENT),
                old(self).vmsa.r8 == LIBOS_FD,
                pal_state::mapping_in_address_space(old(self)@),
                self@ == old(self)@.emit(
                    Seq::new(i as nat, |k: int| pal_state::libos_page_effect(old(self)@, k)),
                ),
            decreases num_pages - i,
        {
            let src = libos + i * page_size + offset;
            let dst = addr + i * page_size;
            let effect = if writecopy {
                Effect::CopyPage { cr3, src, dst, flags: flags.with(WRITABLE) }
            } else {
                Effect::AliasPage { cr3, src, dst, flags }
            };
            assert(effect == pal_state::libos_page_effect(old(self)@, i as int));
            self.emit(effect);
            i += 1;
            assert(self@.effects =~= old(self)@.effects + Seq::new(
                i as nat,
                |k: int| pal_state::libos_page_effect(old(self)@, k),
            ));
        }
        assert(self@.effects =~= old(self)@.effects + Seq::new(
            num_pages as nat,
            |k: int| pal_state::libos_page_effect(old(self)@, k),
        ));
    }

    fn map_file(&mut self, addr: u64, num_pages: u64, flags: ProcessPageFlags)
        requires
            addr == old(self).vmsa.rbx,
            num_pages == old(self).vmsa.rcx / 4096,
            flags == pal_state::file_flags(old(self).vmsa.rdx),
            addr + num_pages * 4096 <= u64::MAX,
        ensures
            final(self)@ == old(self)@.emit(
                Seq::new(num_pages as nat, |i: int| pal_state::file_page_effect(old(self)@, i)),
            ),
    {
        let cr3 = self.vmsa.cr3;
        let page_size = page_size_4k();
        let mut i: u64 = 0;
        while i < num_pages
            invariant
                i <= num_pages,
                page_size == 4096,
                cr3 == old(self).vmsa.cr3,
                addr == old(self).vmsa.rbx,
                flags == pal_state::file_flags(old(self).vmsa.rdx),
                addr + num_pages * 4096 <= u64::MAX,
                self@ == old(self)@.emit(
                    Seq::new(i as nat, |k: int| pal_state::file_page_effect(old(self)@, k)),
                ),
            decreases num_pages - i,
        {
            let effect = Effect::MapPage { cr3, vaddr: addr + i * page_size, paddr: 0, flags };
            assert(effect == pal_state::file_page_effect(old(self)@, i as int));
            self.emit(effect);
            i += 1;
            assert(self@.effects =~= old(self)@.effects + Seq::new(
                i as nat,
                |k: int| pal_state::file_page_effect(old(self)@, k),
            ));
        }
        assert(self@.effects =~= old(self)@.effects + Seq::new(
            num_pages as nat,
            |k: int| pal_state::file_page_effect(old(self)@, k),
        ));
    }

    fn count_pages(&mut self)
        ensures
            final(self)@ == pal_state::result_counted(old(self)@),
    {
        if self.features.stat {
            let cr3 = self.vmsa.cr3;
            self.emit(Effect::CountPages { cr3 });
        }
    }

    fn report_stack(&mut self)
        ensures
            final(self)@ == old(self)@.report(pal_state::stack_note(old(self)@)),
    {
        let rsp = self.vmsa.rsp;
        let cr3 = self.vmsa.cr3;
        self.report(
            Note::Stack { cr3, vaddr: rsp, first_word: page_offset_of(rsp) / 8, words: 9 },
        );
    }

    fn unhandled_fault(&mut self) -> (outcome: Outcome)
        ensures
            (final(self)@, outcome) == pal_state::serve_unhandled_fault(old(self)@),
    {
        let cr2 = self.vmsa.cr2;
        let rip = self.vmsa.rip;
        let error_code = self.vmsa.rbx;
        self.report(Note::PageFault { cr2, rip, error_code });
        self.report_stack();
        Outcome::Leave
    }

    fn page_fault(&mut self) -> (outcome: Outcome)
        requires
            pal_state::fault_ready(old(self)@),
        ensures
            (final(self)@, outcome) == pal_state::serve_page_fault(old(self)@),
    {
        if self.features.stat {
            self.stats.page_faults = count_one(self.stats.page_faults);
        }
        let rip = self.vmsa.rip;
        let cr2 = self.vmsa.cr2;
        let error_code = self.vmsa.rbx;
        if error_code & PF_PK != 0 {
            let pkru = self.vmsa.pkru;
            self.report(Note::PkeyViolation { cr2, rip, error_code, pkru });
            return Outcome::Leave;
        }
        if let Some(info) = self.process.mmap_manager.lookup(cr2 as usize) {
            if error_code & PF_PRESENT == 0 {
                let info = *info;
                let target_page_addr = page_start_of(cr2);
                let addr_offset = target_page_addr - info.addr as u64;
                let fd = info.fd;
                assert(fd >= 0 ==> fd as u64 == fd) by (bit_vector);
                assert(fd < 0 ==> fd as u64 == 0x1_0000_0000_0000_0000 + fd) by (bit_vector);
                let words: [u64; 4] = [
                    fd as u64,
                    info.offset as u64,
                    info.size as u64,
                    addr_offset,
                ];
                self.process.pf_target_vaddr = target_page_addr;
                let guest_page_table = self.guest_page_table;
                let guest_vaddr = self.invocation_arg_guest_vaddr;
                self.emit(Effect::WriteGuestWords { guest_page_table, guest_vaddr, words });
                self.return_value = TrustletReturnType::Mmap.code();
                return Outcome::Leave;
            }
        }
        if error_code & PF_PRESENT != 0 && error_code & PF_WRITE != 0 {
            if self.features.stat {
                self.stats.cow = count_one(self.stats.cow);
            }
            return Outcome::Cow {
                cr3: self.vmsa.cr3,
                vaddr: cr2,
                user_access: error_code & PF_USER != 0,
            };
        }
        self.unhandled_fault()
    }
}

/// The requests of a trustlet that runs.
///
/// Each method serves one request, as the function of the same purpose in `pal_state` says.
pub trait ProcessRuntime {
    /// The trustlet, and what is to be done on its behalf.
    spec fn state(&self) -> PalState;

    /// Serves the request that the trustlet makes.
    ///
    /// RAX has its code.  The trustlet goes on behind the `cpuid` instruction, which is two bytes
    /// long.
    fn handle_process_request(&mut self) -> (outcome: Outcome)
        requires
            pal_state::request_ready(old(self).state()),
        ensures
            (final(self).state(), outcome) == pal_state::serve_request(old(self).state()),
    ;

    /// Maps fresh memory.
    ///
    /// RBX has its address, RCX its size and RDX its protection.  RCX gets 0, or -1 where the address
    /// or the size is not a multiple of the page size.
    fn pal_svsm_virt_alloc(&mut self) -> (outcome: Outcome)
        ensures
            (final(self).state(), outcome) == pal_state::serve_virt_alloc(old(self).state()),
    ;

    /// Unmaps memory and frees it.
    ///
    /// RBX has its address and RCX its size.  RCX gets -1 where the address or the size is not a
    /// multiple of the page size.
    fn pal_svsm_virt_free(&mut self) -> (outcome: Outcome)
        ensures
            (final(self).state(), outcome) == pal_state::serve_virt_free(old(self).state()),
    ;

    /// Takes one character of a message, which RBX has.  The last one is 0.
    fn pal_svsm_debug_print(&mut self) -> (outcome: Outcome)
        ensures
            (final(self).state(), outcome) == pal_state::serve_debug_print(old(self).state()),
    ;

    /// Ends a trustlet that failed.
    ///
    /// RBX has the address of its message and RCX the number of the error.
    fn pal_svsm_fail(&mut self) -> (outcome: Outcome)
        ensures
            (final(self).state(), outcome) == pal_state::serve_fail(old(self).state()),
    ;

    /// Ends a trustlet that is done.  RBX has its exit code.
    fn pal_svsm_exit(&mut self) -> (outcome: Outcome)
        ensures
            (final(self).state(), outcome) == pal_state::serve_exit(old(self).state()),
    ;

    /// Maps a file.
    ///
    /// RBX has the address, RCX the size, RDX the protection, R8 the descriptor of the file and R9
    /// where in the file the mapping begins.  RCX gets 0.  Where the address, the size or the offset
    /// is not a multiple of the page size, RCX gets -1 and the trustlet leaves.
    ///
    /// The library operating system is loaded already, and its pages are shared or copied at once.
    /// The pages of another file are loaded upon the first fault.
    fn pal_svsm_map(&mut self) -> (outcome: Outcome)
        requires
            pal_state::call_ready(old(self).state(), PalCall::MapFile),
        ensures
            (final(self).state(), outcome) == pal_state::serve_map(old(self).state()),
    ;

    /// Changes the protection of memory.
    ///
    /// RBX has its address, RCX its size and RDX the protection.  Every page that the memory touches
    /// gets the protection.  RCX gets 0.
    fn pal_svsm_mprotect(&mut self) -> (outcome: Outcome)
        requires
            pal_state::call_ready(old(self).state(), PalCall::Mprotect),
        ensures
            (final(self).state(), outcome) == pal_state::serve_mprotect(old(self).state()),
    ;

    /// Prints memory.
    ///
    /// RBX has its address and RCX its size, which is a multiple of 8.
    fn pal_svsm_print_info(&mut self) -> (outcome: Outcome)
        requires
            pal_state::call_ready(old(self).state(), PalCall::PrintInfo),
        ensures
            (final(self).state(), outcome) == pal_state::serve_print_info(old(self).state()),
    ;

    /// Sets the address of the thread control block, which RBX has.
    fn pal_svsm_set_tcb(&mut self) -> (outcome: Outcome)
        ensures
            (final(self).state(), outcome) == pal_state::serve_set_tcb(old(self).state()),
    ;

    /// An ordinary `cpuid`.
    ///
    /// RAX has the leaf and RCX the subleaf, which counts only for a leaf that has any.
    fn pal_svsm_cpuid(&mut self) -> (outcome: Outcome)
        ensures
            (final(self).state(), outcome) == pal_state::serve_cpuid(old(self).state()),
    ;

    /// The output is ready: the guest gets it, and the answer to the guest is 0.
    fn pal_svsm_get_result(&mut self) -> (outcome: Outcome)
        ensures
            (final(self).state(), outcome) == pal_state::serve_get_result(old(self).state()),
    ;

    /// Makes a request to the guest.
    ///
    /// RBX has its number, RCX the address of its argument and RDX the size of the argument.  The
    /// trustlet goes on when the guest has served the request.
    fn pal_svsm_guest_request(&mut self) -> (outcome: Outcome)
        requires
            pal_state::call_ready(old(self).state(), PalCall::GuestRequest),
        ensures
            (final(self).state(), outcome) == pal_state::serve_guest_request(old(self).state()),
    ;

    /// An exception: RCX has its number and RBX its error code.
    fn handle_exception(&mut self) -> (outcome: Outcome)
        requires
            pal_state::call_ready(old(self).state(), PalCall::Exception),
        ensures
            (final(self).state(), outcome) == pal_state::serve_exception(old(self).state()),
    ;

    /// A double fault: RBX has its error code and RCX the address of the descriptor-table pointer.
    fn handle_df(&mut self) -> (outcome: Outcome)
        ensures
            (final(self).state(), outcome) == pal_state::serve_double_fault(old(self).state()),
    ;

    /// A mark for a benchmark.
    fn pal_svsm_call_outb(&mut self) -> (outcome: Outcome)
        ensures
            (final(self).state(), outcome) == pal_state::serve_outb(old(self).state(), 110),
    ;

    /// A mark for a benchmark, with the value that RCX has.
    fn pal_svsm_call_outb_with_value(&mut self) -> (outcome: Outcome)
        ensures
            (final(self).state(), outcome) == pal_state::serve_outb(
                old(self).state(),
                old(self).state().vmsa.rcx,
            ),
    ;

    /// The trustlet leaves.
    fn pal_svsm_call_exit(&mut self) -> (outcome: Outcome)
        ensures
            (final(self).state(), outcome) == ((old(self).state(), Outcome::Leave)),
    ;

    /// Makes a channel larger.
    ///
    /// RCX says which one, 0 the input and 1 the output, and RDX has the size.
    fn pal_svsm_inflate_channel(&mut self) -> (outcome: Outcome)
        ensures
            (final(self).state(), outcome) == pal_state::serve_inflate_channel(old(self).state()),
    ;

    /// Nothing.
    fn pal_nop(&mut self) -> (outcome: Outcome)
        ensures
            (final(self).state(), outcome) == ((old(self).state(), Outcome::Resume)),
    ;

    /// The zygote is ready to be copied.
    fn pal_svsm_finalize(&mut self) -> (outcome: Outcome)
        ensures
            (final(self).state(), outcome) == pal_state::serve_finalize(old(self).state()),
    ;

    /// Allocates a protection key.  RAX gets the key, RCX gets 0 or a code.
    fn pal_svsm_mpk_pkey_alloc(&mut self) -> (outcome: Outcome)
        ensures
            (final(self).state(), outcome) == pal_state::serve_mpk_pkey_alloc(old(self).state()),
    ;

    /// Maps memory of a protection key.
    ///
    /// RBX has its address, RCX its size and RDX the key.  RCX gets 0 or a code.
    fn pal_svsm_mpk_alloc(&mut self) -> (outcome: Outcome)
        ensures
            (final(self).state(), outcome) == pal_state::serve_mpk_alloc(old(self).state()),
    ;

    /// Opens the domain of a protection key, which RBX has.  RCX gets 0 or a code.
    ///
    /// No two domains are open at a time, except that of key 0.
    fn pal_svsm_mpk_enter_domain(&mut self) -> (outcome: Outcome)
        ensures
            (final(self).state(), outcome) == pal_state::serve_mpk_enter_domain(old(self).state()),
    ;

    /// Closes the domain of a protection key, which RBX has.  RCX gets 0 or a code.
    fn pal_svsm_mpk_exit_domain(&mut self) -> (outcome: Outcome)
        ensures
            (final(self).state(), outcome) == pal_state::serve_mpk_exit_domain(old(self).state()),
    ;

    /// Frees memory of a protection key, which stays allocated.
    ///
    /// RBX has the address and RCX the size.  RCX gets 0 or a code.
    fn pal_svsm_mpk_free(&mut self) -> (outcome: Outcome)
        requires
            pal_state::call_ready(old(self).state(), PalCall::MpkFree),
        ensures
            (final(self).state(), outcome) == pal_state::serve_mpk_free(old(self).state()),
    ;

    /// Frees a protection key, and before it memory.
    ///
    /// RBX has the key, RCX the address of the memory and RDX its size; where one of these is 0 no
    /// memory is freed.  RCX gets 0 or a code.
    fn pal_svsm_mpk_free_pkey(&mut self) -> (outcome: Outcome)
        requires
            pal_state::call_ready(old(self).state(), PalCall::MpkFreePkey),
        ensures
            (final(self).state(), outcome) == pal_state::serve_mpk_free_pkey(old(self).state()),
    ;

    /// Reads the protection-key rights.  RAX gets them, RCX gets 0.
    fn pal_svsm_mpk_query_pkru(&mut self) -> (outcome: Outcome)
        ensures
            (final(self).state(), outcome) == pal_state::serve_mpk_query_pkru(old(self).state()),
    ;
}

impl ProcessRuntime for PALContext {
    open spec fn state(&self) -> PalState {
        self@
    }

    fn handle_process_request(&mut self) -> (outcome: Outcome) {
        let rax = self.vmsa.rax;
        let rip = self.vmsa.rip;
        self.vmsa.rip = rip + 2;
        match pal_call(rax) {
            PalCall::Cpuid => self.pal_svsm_cpuid(),
            PalCall::Fail => self.pal_svsm_fail(),
            PalCall::Exit => self.pal_svsm_exit(),
            PalCall::DebugPrint => self.pal_svsm_debug_print(),
            PalCall::VirtAlloc => self.pal_svsm_virt_alloc(),
            PalCall::MapFile => self.pal_svsm_map(),
            PalCall::SetTcb => self.pal_svsm_set_tcb(),
            PalCall::Mprotect => self.pal_svsm_mprotect(),
            PalCall::GetResult => self.pal_svsm_get_result(),
            PalCall::GuestRequest => self.pal_svsm_guest_request(),
            PalCall::VirtFree => self.pal_svsm_virt_free(),
            PalCall::Nop => self.pal_nop(),
            PalCall::Finalize => self.pal_svsm_finalize(),
            PalCall::MpkAlloc => self.pal_svsm_mpk_alloc(),
            PalCall::MpkFree => self.pal_svsm_mpk_free(),
            PalCall::MpkPkeyAlloc => self.pal_svsm_mpk_pkey_alloc(),
            PalCall::MpkEnterDomain => self.pal_svsm_mpk_enter_domain(),
            PalCall::MpkExitDomain => self.pal_svsm_mpk_exit_domain(),
            PalCall::MpkFreePkey => self.pal_svsm_mpk_free_pkey(),
            PalCall::MpkQueryPkru => self.pal_svsm_mpk_query_pkru(),
            PalCall::Exception => self.handle_exception(),
            PalCall::DoubleFault => self.handle_df(),
            PalCall::CallOutb => self.pal_svsm_call_outb(),
            PalCall::CallExit => self.pal_svsm_call_exit(),
            PalCall::CallOutbWithValue => self.pal_svsm_call_outb_with_value(),
            PalCall::InflateChannel => self.pal_svsm_inflate_channel(),
            PalCall::Digit => {
                let value = self.vmsa.rbx;
                self.report(Note::Digit { value });
                Outcome::Resume
            },
            PalCall::PrintInfo => self.pal_svsm_print_info(),
            PalCall::Unknown => {
                self.report(Note::UnknownRequest { code: rax, rip });
                Outcome::Leave
            },
        }
    }

    fn pal_svsm_virt_alloc(&mut self) -> (outcome: Outcome) {
        let addr = self.vmsa.rbx;
        let size = self.vmsa.rcx;
        let prot = self.vmsa.rdx;
        if size % 4096 != 0 {
            self.vmsa.rcx = FAILURE;
            return Outcome::Resume;
        }
        if addr % 4096 != 0 {
            self.vmsa.rcx = FAILURE;
            return Outcome::Resume;
        }
        let mut flags = ProcessPageFlags::of(FlagBase::Data);
        if prot & PAL_PROT_WRITE != 0 {
            flags = flags.with(WRITABLE);
        }
        if prot & PAL_PROT_EXEC != 0 {
            flags = flags.without(NO_EXECUTE);
        }
        let cr3 = self.vmsa.cr3;
        self.emit(Effect::AddPages { cr3, vaddr: addr, pages: size / 4096, flags });
        self.vmsa.rcx = 0;
        Outcome::Resume
    }

    fn pal_svsm_virt_free(&mut self) -> (outcome: Outcome) {
        let addr = self.vmsa.rbx;
        let size = self.vmsa.rcx;
        if size % 4096 != 0 {
            self.vmsa.rcx = FAILURE;
            return Outcome::Resume;
        }
        if addr % 4096 != 0 {
            self.vmsa.rcx = FAILURE;
            return Outcome::Resume;
        }
        let cr3 = self.vmsa.cr3;
        self.emit(Effect::RemovePages { cr3, vaddr: addr, pages: size / 4096 });
        Outcome::Resume
    }

    fn pal_svsm_debug_print(&mut self) -> (outcome: Outcome) {
        let c = self.vmsa.rbx;
        if self.string_pos < 255 {
            self.string_buf[self.string_pos] = c as u8;
            self.string_pos = self.string_pos + 1;
        } else {
            let text = self.string_buf;
            self.report(Note::DebugMessage { text, partial: true });
            self.string_pos = 0;
            self.string_buf = [0;256];
        }
        if c == 0 {
            let text = self.string_buf;
            self.report(Note::DebugMessage { text, partial: false });
            self.string_pos = 0;
            self.string_buf = [0;256];
        }
        Outcome::Resume
    }

    fn pal_svsm_fail(&mut self) -> (outcome: Outcome) {
        let cr3 = self.vmsa.cr3;
        let string = self.vmsa.rbx;
        let errno = self.vmsa.rcx;
        let page = page_start_of(string);
        let offset = page_offset_of(string);
        self.report(Note::PalError { cr3, page, offset, errno });
        Outcome::Leave
    }

    fn pal_svsm_exit(&mut self) -> (outcome: Outcome) {
        let code = self.vmsa.rbx;
        self.report(Note::Exited { code });
        self.return_value = TrustletReturnType::Exit.code();
        Outcome::Leave
    }

    fn pal_svsm_map(&mut self) -> (outcome: Outcome) {
        let addr = self.vmsa.rbx;
        let size = self.vmsa.rcx;
        let prot = self.vmsa.rdx;
        let fd = self.vmsa.r8;
        let offset = self.vmsa.r9;
        if addr % 4096 != 0 || size % 4096 != 0 || offset % 4096 != 0 {
            self.vmsa.rcx = FAILURE;
            return Outcome::Leave;
        }
        let num_pages = size / 4096;
        let writable = prot & PAL_PROT_WRITE != 0;
        let executable = prot & PAL_PROT_EXEC != 0;
        let writecopy = prot & PAL_PROT_WRITECOPY != 0;
        let mut flags = ProcessPageFlags::of(FlagBase::Empty).with(USER_ACCESSIBLE | ACCESSED);
        if writable {
            flags = flags.with(WRITABLE);
        }
        if writecopy {
            flags = flags.without(WRITABLE);
        }
        if !executable {
            flags = flags.with(NO_EXECUTE);
        }
        if fd == LIBOS_FD {
            self.map_libos(addr, num_pages, offset, writecopy, flags.with(PRESENT));
            self.vmsa.rcx = 0;
            return Outcome::Resume;
        }
        self.map_file(addr, num_pages, flags);
        self.process.mmap_manager.add_mapping(
            addr as usize,
            size as usize,
            fd as i32,
            offset as usize,
        );
        self.vmsa.rcx = 0;
        Outcome::Resume
    }

    fn pal_svsm_mprotect(&mut self) -> (outcome: Outcome) {
        let addr = self.vmsa.rbx;
        let size = self.vmsa.rcx;
        let prot = self.vmsa.rdx;
        let cr3 = self.vmsa.cr3;
        let page_size = page_size_4k();
        let offset = page_offset_of(addr);
        let page_num = (offset + size + 4095) / page_size;
        let aligned_addr = page_start_of(addr);
        let readable = prot & PAL_PROT_READ != 0;
        let writable = prot & PAL_PROT_WRITE != 0;
        let executable = prot & PAL_PROT_EXEC != 0;
        let writecopy = prot & PAL_PROT_WRITECOPY != 0;
        let mut i: u64 = 0;
        while i < page_num
            invariant
                i <= page_num,
                page_size == 4096,
                cr3 == old(self).vmsa.cr3,
                page_num == pal_state::protected_pages(old(self)@),
                aligned_addr == page::page_start(old(self).vmsa.rbx),
                aligned_addr + (page_num - 1) * 4096 <= u64::MAX,
                readable == (old(self).vmsa.rdx & PAL_PROT_READ != 0),
                writable == (old(self).vmsa.rdx & PAL_PROT_WRITE != 0),
                executable == (old(self).vmsa.rdx & PAL_PROT_EXEC != 0),
                writecopy == (old(self).vmsa.rdx & PAL_PROT_WRITECOPY != 0),
                self@ == old(self)@.emit(
                    Seq::new(i as nat, |k: int| pal_state::protect_effect(old(self)@, k)),
                ),
            decreases page_num - i,
        {
            let vaddr = aligned_addr + i * page_size;
            let effect = Effect::ChangeAttr {
                cr3,
                vaddr,
                readable,
                writable,
                executable,
                writecopy,
            };
            assert(effect == pal_state::protect_effect(old(self)@, i as int));
            self.emit(effect);
            i += 1;
            assert(self@.effects =~= old(self)@.effects + Seq::new(
                i as nat,
                |k: int| pal_state::protect_effect(old(self)@, k),
            ));
        }
        assert(self@.effects =~= old(self)@.effects + Seq::new(
            page_num as nat,
            |k: int| pal_state::protect_effect(old(self)@, k),
        ));
        self.vmsa.rcx = 0;
        Outcome::Resume
    }

    fn pal_svsm_print_info(&mut self) -> (outcome: Outcome) {
        let addr = self.vmsa.rbx;
        let len = self.vmsa.rcx;
        let cr3 = self.vmsa.cr3;
        let page = page_start_of(addr);
        let offset = page_offset_of(addr);
        let within_page = addr + len <= page + page_size_4k();
        self.report(Note::Memory { cr3, page, offset, len, within_page });
        Outcome::Resume
    }

    fn pal_svsm_set_tcb(&mut self) -> (outcome: Outcome) {
        self.vmsa.gs.base = self.vmsa.rbx;
        Outcome::Resume
    }

    fn pal_svsm_cpuid(&mut self) -> (outcome: Outcome) {
        let eax = self.vmsa.rax as u32;
        let ecx: u32 = match eax {
            4 | 7 | 0xb | 0xd | 0xf | 0x10 | 0x12 | 0x14 | 0x17 | 0x18 | 0x1d | 0x1e | 0x1f | 0x24
            | 0x8000_001d => self.vmsa.rcx as u32,
            _ => 0,
        };
        Outcome::Cpuid { eax, ecx }
    }

    fn pal_svsm_get_result(&mut self) -> (outcome: Outcome) {
        let guest_page_table = self.guest_page_table;
        let guest_vaddr = self.result_addr;
        let size = self.result_size;
        if !self.features.boottime {
            return Outcome::CollectResult { env_offset: 8, guest_page_table, guest_vaddr, size };
        }
        self.emit(Effect::CopyOutput { guest_page_table, guest_vaddr, size });
        self.return_value = RESULT_READY;
        self.count_pages();
        Outcome::Leave
    }

    fn pal_svsm_guest_request(&mut self) -> (outcome: Outcome) {
        let request = PalSvsmGuestRequestType::from_code(self.vmsa.rbx).unwrap();
        let cr3 = self.vmsa.cr3;
        let vaddr = self.vmsa.rcx;
        let size = self.vmsa.rdx;
        let guest_page_table = self.guest_page_table;
        let guest_vaddr = self.invocation_arg_guest_vaddr;
        self.emit(Effect::CopyToGuest { cr3, vaddr, guest_page_table, guest_vaddr, size });
        self.return_value = match request {
            PalSvsmGuestRequestType::FileAttr => TrustletReturnType::FileAttr.code(),
            PalSvsmGuestRequestType::Open => TrustletReturnType::Open.code(),
            PalSvsmGuestRequestType::Read => TrustletReturnType::Read.code(),
        };
        Outcome::Leave
    }

    fn handle_exception(&mut self) -> (outcome: Outcome) {
        if self.vmsa.rcx == 13 {
            let cr2 = self.vmsa.cr2;
            let error_code = self.vmsa.rbx;
            self.report(Note::GeneralProtection { cr2, error_code });
            self.report_stack();
            return Outcome::Leave;
        }
        self.page_fault()
    }

    fn handle_df(&mut self) -> (outcome: Outcome) {
        let error_code = self.vmsa.rbx;
        let cr3 = self.vmsa.cr3;
        let vaddr = self.vmsa.rcx;
        self.report(Note::DoubleFault { error_code });
        self.report_stack();
        self.report(Note::DescriptorTable { cr3, vaddr });
        Outcome::Leave
    }

    fn pal_svsm_call_outb(&mut self) -> (outcome: Outcome) {
        self.emit(Effect::Outb { value: 110 });
        Outcome::Resume
    }

    fn pal_svsm_call_outb_with_value(&mut self) -> (outcome: Outcome) {
        let value = self.vmsa.rcx;
        self.emit(Effect::Outb { value });
        Outcome::Resume
    }

    fn pal_svsm_call_exit(&mut self) -> (outcome: Outcome) {
        Outcome::Leave
    }

    fn pal_svsm_inflate_channel(&mut self) -> (outcome: Outcome) {
        let select = self.vmsa.rcx;
        let size = self.vmsa.rdx;
        let cr3 = self.vmsa.cr3;
        if select == 0 {
            self.emit(Effect::InflateInput { cr3, size });
        }
        if select == 1 {
            self.emit(Effect::InflateOutput { cr3, size });
        }
        Outcome::Resume
    }

    fn pal_nop(&mut self) -> (outcome: Outcome) {
        Outcome::Resume
    }

    fn pal_svsm_finalize(&mut self) -> (outcome: Outcome) {
        if self.features.no_cow {
            return Outcome::Resume;
        }
        let cr3 = self.vmsa.cr3;
        self.emit(Effect::FinalizePages { cr3 });
        Outcome::Leave
    }

    fn pal_svsm_mpk_pkey_alloc(&mut self) -> (outcome: Outcome) {
        let cr3 = self.vmsa.cr3;
        match mpk_pkey_alloc_only(&mut self.mpk, cr3) {
            Ok(pkey) => {
                self.vmsa.rax = pkey as u64;
                self.vmsa.rcx = 0;
            },
            Err(code) => {
                self.vmsa.rcx = code as u64;
            },
        }
        Outcome::Resume
    }

    fn pal_svsm_mpk_alloc(&mut self) -> (outcome: Outcome) {
        let addr = self.vmsa.rbx;
        let size = self.vmsa.rcx;
        let pkey = self.vmsa.rdx as u32;
        let cr3 = self.vmsa.cr3;
        if addr % 4096 != 0 || size % 4096 != 0 {
            self.vmsa.rcx = MPK_NOT_ALIGNED;
            return Outcome::Resume;
        }
        match mpk_alloc_memory(&mut self.mpk, cr3, addr, size, pkey, &mut self.effects) {
            Ok(()) => {
                self.vmsa.rcx = 0;
            },
            Err(code) => {
                self.vmsa.rcx = code as u64;
            },
        }
        Outcome::Resume
    }

    fn pal_svsm_mpk_enter_domain(&mut self) -> (outcome: Outcome) {
        match enter_domain(self.vmsa.pkru, self.vmsa.rbx as u32) {
            Ok(pkru) => {
                self.vmsa.pkru = pkru;
                self.vmsa.rcx = 0;
            },
            Err(code) => {
                self.vmsa.rcx = code;
            },
        }
        Outcome::Resume
    }

    fn pal_svsm_mpk_exit_domain(&mut self) -> (outcome: Outcome) {
        match exit_domain(self.vmsa.pkru, self.vmsa.rbx as u32) {
            Ok(pkru) => {
                self.vmsa.pkru = pkru;
                self.vmsa.rcx = 0;
            },
            Err(code) => {
                self.vmsa.rcx = code;
            },
        }
        Outcome::Resume
    }

    fn pal_svsm_mpk_free(&mut self) -> (outcome: Outcome) {
        let addr = self.vmsa.rbx;
        let size = self.vmsa.rcx;
        let cr3 = self.vmsa.cr3;
        if addr % 4096 != 0 || size % 4096 != 0 {
            self.vmsa.rcx = MPK_NOT_ALIGNED;
            return Outcome::Resume;
        }
        match mpk_free_memory(&mut self.mpk, cr3, addr, size, &mut self.effects) {
            Ok(()) => {
                self.vmsa.rcx = 0;
            },
            Err(code) => {
                self.vmsa.rcx = code as u64;
            },
        }
        Outcome::Resume
    }

    fn pal_svsm_mpk_free_pkey(&mut self) -> (outcome: Outcome) {
        let pkey = self.vmsa.rbx as u32;
        let addr = self.vmsa.rcx;
        let size = self.vmsa.rdx;
        let cr3 = self.vmsa.cr3;
        if addr != 0 && size != 0 {
            if addr % 4096 != 0 || size % 4096 != 0 {
                self.vmsa.rcx = MPK_NOT_ALIGNED;
                return Outcome::Resume;
            }
        }
        match mpk_free_pkey(&mut self.mpk, pkey, cr3, addr, size, &mut self.effects) {
            Ok(()) => {
                self.vmsa.rcx = 0;
            },
            Err(code) => {
                self.vmsa.rcx = code as u64;
            },
        }
        assert(self.effects@ =~= pal_state::serve_mpk_free_pkey(old(self)@).0.effects);
        Outcome::Resume
    }

    fn pal_svsm_mpk_query_pkru(&mut self) -> (outcome: Outcome) {
        self.vmsa.rax = self.vmsa.pkru as u64;
        self.vmsa.rcx = 0;
        Outcome::Resume
    }
}

/// Whether the last page of a range still begins inside the address space.
fn ends_in_address_space(addr: u64, size: u64) -> (ends: bool)
    ensures
        ends == mpk_memory::range_in_address_space(addr, size),
{
    size < 4096 || addr as u128 + (size as u128 / 4096 - 1) * 4096 <= u64::MAX as u128
}

impl PALContext {
    fn can_map(&self) -> (ready: bool)
        ensures
            ready == pal_state::call_ready(self@, PalCall::MapFile),
    {
        let addr = self.vmsa.rbx;
        let size = self.vmsa.rcx;
        let offset = self.vmsa.r9;
        if addr % 4096 != 0 || size % 4096 != 0 || offset % 4096 != 0 {
            return true;
        }
        if self.vmsa.r8 == LIBOS_FD {
            ends_in_address_space(addr, size) && (size < 4096 || self.layout.libos as u128
                + offset as u128 + (size as u128 / 4096 - 1) * 4096 <= u64::MAX as u128)
        } else {
            addr as u128 + size as u128 <= usize::MAX as u128 && offset as u128
                <= usize::MAX as u128
        }
    }

    fn can_protect(&self) -> (ready: bool)
        ensures
            ready == pal_state::call_ready(self@, PalCall::Mprotect),
    {
        let addr = self.vmsa.rbx;
        let span = page_offset_of(addr) as u128 + self.vmsa.rcx as u128 + 4095;
        if span > u64::MAX as u128 {
            return false;
        }
        let pages = span / 4096;
        pages == 0 || page_start_of(addr) as u128 + (pages - 1) * 4096 <= u64::MAX as u128
    }

    fn can_free(&self, addr: u64, size: u64) -> (ready: bool)
        ensures
            ready == pal_state::freed_in_address_space(self@, addr, size),
    {
        if addr % 4096 == 0 && size % 4096 == 0 && mpk_has_memory(
            &self.mpk,
            self.vmsa.cr3,
            addr,
            size,
        ) {
            ends_in_address_space(addr, size)
        } else {
            true
        }
    }

    fn can_fault(&self) -> (ready: bool)
        ensures
            ready == pal_state::fault_ready(self@),
    {
        if self.vmsa.rbx & PF_PK != 0 {
            return true;
        }
        if self.vmsa.cr2 as u128 > usize::MAX as u128 {
            return false;
        }
        match self.process.mmap_manager.lookup(self.vmsa.cr2 as usize) {
            Some(info) => self.vmsa.rbx & PF_PRESENT != 0 || info.addr % 4096 == 0,
            None => true,
        }
    }

    /// Whether the monitor can serve a request with the arguments that the registers have.
    pub fn can_serve(&self, call: PalCall) -> (ready: bool)
        ensures
            ready == pal_state::call_ready(self@, call),
    {
        match call {
            PalCall::MapFile => self.can_map(),
            PalCall::Mprotect => self.can_protect(),
            PalCall::GuestRequest => self.vmsa.rbx <= 2 && self.vmsa.rdx <= self.invocation_arg_size
                && page_offset_of(self.vmsa.rcx) as u128 + self.vmsa.rdx as u128
                <= page_size_4k() as u128,
            PalCall::MpkFree => self.can_free(self.vmsa.rbx, self.vmsa.rcx),
            PalCall::MpkFreePkey => self.vmsa.rcx == 0 || self.vmsa.rdx == 0 || self.can_free(
                self.vmsa.rcx,
                self.vmsa.rdx,
            ),
            PalCall::Exception => self.vmsa.rcx == 13 || (self.vmsa.rcx == 14 && self.can_fault()),
            PalCall::Digit => (self.vmsa.rbx as u32) < 10,
            PalCall::PrintInfo => self.vmsa.rcx % 8 == 0 && self.vmsa.rbx as u128
                + self.vmsa.rcx as u128 <= u64::MAX as u128 && page_start_of(self.vmsa.rbx) as u128
                + 4096 <= u64::MAX as u128,
            _ => true,
        }
    }

    /// Whether the monitor can serve the request that the trustlet makes.
    pub fn can_serve_request(&self) -> (ready: bool)
        ensures
            ready == pal_state::request_ready(self@),
    {
        self.vmsa.rip as u128 + 2 <= u64::MAX as u128 && self.can_serve(pal_call(self.vmsa.rax))
    }

    /// Takes the answer that was looked up for a `cpuid`, `None` where there is none.
    pub fn cpuid_answered(&mut self, answer: Option<CpuidResult>) -> (outcome: Outcome)
        ensures
            (final(self)@, outcome) == pal_state::serve_cpuid_answer(old(self)@, answer),
    {
        let result = match answer {
            Some(result) => result,
            None => CpuidResult { eax: 0, ebx: 0, ecx: 0, edx: 0 },
        };
        self.vmsa.rax = result.eax as u64;
        self.vmsa.rbx = result.ebx as u64;
        self.vmsa.rcx = result.ecx as u64;
        self.vmsa.rdx = result.edx as u64;
        Outcome::Resume
    }

    /// Takes the answer whether the page of a fault was copied.
    pub fn cow_answered(&mut self, handled: bool) -> (outcome: Outcome)
        ensures
            (final(self)@, outcome) == pal_state::serve_cow_answer(old(self)@, handled),
    {
        if handled {
            return Outcome::Resume;
        }
        self.unhandled_fault()
    }

    /// Takes the digest that the trustlet wrote into its output and the digest of the output,
    /// which the guest has got.
    pub fn result_collected(&mut self, env_hash: [u8; 64], output_hash: [u8; 64]) -> (outcome:
        Outcome)
        ensures
            (final(self)@, outcome) == pal_state::serve_result_collected(
                old(self)@,
                env_hash,
                output_hash,
            ),
    {
        self.process.measurements.record_env_hash(env_hash);
        self.return_value = RESULT_READY;
        self.process.measurements.output_data = output_hash;
        self.count_pages();
        Outcome::Leave
    }
}

/// A zygote that runs for the first time.  It has no guest to talk to.
pub fn early_invoke(
    zygote: TrustedProcess,
    vmsa: VMSA,
    mpk: MpkManagers,
    stats: Stats,
    features: Features,
    layout: MemoryLayout,
) -> (context: PALContext)
    ensures
        context@ == pal_state::zygote_run(zygote@, vmsa, mpk@, stats, features, layout),
{
    PALContext {
        process: zygote,
        vmsa,
        string_buf: [0;256],
        string_pos: 0,
        result_addr: 0,
        result_size: 0,
        guest_page_table: 0,
        invocation_arg_guest_vaddr: 0,
        invocation_arg_size: 0,
        return_value: 0,
        mpk,
        stats,
        features,
        layout,
        effects: Vec::new(),
    }
}

} // verus!
