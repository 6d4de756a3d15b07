//! What a trustlet gets for its requests about protection keys, their memory and their domains.
//!
//! Codes and the bits of the rights are written out as numbers here.
use vstd::prelude::*;

use crate::effects::Effect;
use crate::mpk_memory;
use crate::mpk_memory::{MpkAllocation, MpkState};
use crate::page::{FlagBase, ProcessPageFlags};
use crate::pal_state;
use crate::pal_state::{Outcome, PalState};
use crate::pkru;
use crate::vmsa::VMSA;

verus! {

proof fn lemma_low_half(value: u64)
    ensures
        value as u32 == value as int % 0x1_0000_0000,
{
    assert(value as u32 == value % 0x1_0000_0000) by (bit_vector);
}

/// A process that is known has the keys and the memory that are recorded for it; one that is not
/// has neither.
pub proof fn law_unknown_process_has_nothing(managers: Map<u64, MpkState>, cr3: u64)
    ensures
        ({
            let state = mpk_memory::state_of(managers, cr3);
            &&& managers.contains_key(cr3) ==> state == managers[cr3]
            &&& !managers.contains_key(cr3) ==> state.keys == Set::<u32>::empty()
                && state.allocations == Map::<u64, MpkAllocation>::empty()
        }),
{
}

/// A key that is handed out was free, lies between 1 and 15, and no smaller one was free.  The
/// process has it from then on, beside those that it had, and its memory stays.  Where none of
/// the fifteen is free the code is 6.
pub proof fn law_smallest_free_pkey(managers: Map<u64, MpkState>, cr3: u64)
    ensures
        ({
            let before = mpk_memory::state_of(managers, cr3);
            let (after, result) = mpk_memory::pkey_alloc_result(managers, cr3);
            let kept = mpk_memory::state_of(after, cr3);
            &&& after.dom() == managers.dom().insert(cr3)
            &&& kept.allocations == before.allocations
            &&& match result {
                Ok(pkey) => {
                    &&& 1 <= pkey <= 15
                    &&& !before.keys.contains(pkey)
                    &&& forall|smaller: u32| 1 <= smaller < pkey ==> before.keys.contains(smaller)
                    &&& kept.keys == before.keys.insert(pkey)
                },
                Err(code) => {
                    &&& code == 6
                    &&& forall|pkey: u32| 1 <= pkey <= 15 ==> before.keys.contains(pkey)
                    &&& kept.keys == before.keys
                },
            }
        }),
{
    let before = mpk_memory::state_of(managers, cr3);
    let (after, result) = mpk_memory::pkey_alloc_result(managers, cr3);
    assert(after.dom() =~= managers.dom().insert(cr3));
    if result is Err {
        assert forall|pkey: u32| 1 <= pkey <= 15 implies before.keys.contains(pkey) by {
            if !before.keys.contains(pkey) {
                lemma_some_key_is_first(before.keys, pkey);
            }
        }
    }
}

proof fn lemma_some_key_is_first(keys: Set<u32>, missing: u32)
    requires
        1 <= missing <= 15,
        !keys.contains(missing),
    ensures
        mpk_memory::first_free(keys) is Some,
    decreases missing,
{
    if forall|other: u32| 0 < other < missing ==> keys.contains(other) {
        assert(mpk_memory::is_first_free(keys, missing));
    } else {
        let smaller = choose|other: u32| 0 < other < missing && !keys.contains(other);
        lemma_some_key_is_first(keys, smaller);
    }
}

/// RAX gets the key and RCX gets 0, or RCX gets the code and RAX stays.  Nothing else changes.
pub proof fn law_pkey_comes_in_rax(s: PalState)
    ensures
        ({
            let (after, outcome) = pal_state::serve_mpk_pkey_alloc(s);
            let (mpk, result) = mpk_memory::pkey_alloc_result(s.mpk, s.vmsa.cr3);
            let (rax, rcx) = match result {
                Ok(pkey) => (pkey as u64, 0u64),
                Err(code) => (s.vmsa.rax, code as u64),
            };
            &&& outcome == Outcome::Resume
            &&& after == (PalState { mpk, vmsa: VMSA { rax, rcx, ..s.vmsa }, ..s })
        }),
{
}

/// Memory that is allocated is recorded under its address with its key and its size, beside what
/// the process had, and its keys stay.  Where something is recorded there already the code is 3
/// and nothing changes.
pub proof fn law_memory_is_recorded(
    managers: Map<u64, MpkState>,
    cr3: u64,
    addr: u64,
    size: u64,
    pkey: u32,
)
    ensures
        ({
            let before = mpk_memory::state_of(managers, cr3);
            let (after, result) = mpk_memory::alloc_memory_result(managers, cr3, addr, size, pkey);
            if before.allocations.contains_key(addr) {
                after == managers && result == Err::<(), u32>(3)
            } else {
                &&& result is Ok
                &&& after == managers.insert(
                    cr3,
                    MpkState {
                        keys: before.keys,
                        allocations: before.allocations.insert(addr, MpkAllocation { pkey, size }),
                    },
                )
            }
        }),
{
}

/// Memory of a key: its pages, as many as the size holds, are mapped at the address with the key
/// and nothing more.
pub proof fn law_memory_has_its_pkey(cr3: u64, addr: u64, size: u64, pkey: u32)
    ensures
        ({
            let effects = mpk_memory::alloc_memory_effects(cr3, addr, size, pkey);
            &&& effects.len() == 1
            &&& effects[0] matches Effect::AddPages { cr3: table, vaddr, pages, flags } && table
                == cr3 && vaddr == addr && pages * 4096 <= size < pages * 4096 + 4096 && flags == (
            ProcessPageFlags { base: FlagBase::DataWithPkey(pkey), added: 0, removed: 0 })
        }),
{
}

/// A request for memory of a key: RCX gets 1 where the address or the size is no multiple of the
/// page size, and then nothing changes; else it gets 0 or the code, the key is the low half of
/// RDX, and nothing is mapped unless RCX gets 0.
pub proof fn law_memory_request(s: PalState)
    ensures
        ({
            let (after, outcome) = pal_state::serve_mpk_alloc(s);
            let addr = s.vmsa.rbx;
            let size = s.vmsa.rcx;
            let pkey = s.vmsa.rdx as u32;
            let (mpk, result) = mpk_memory::alloc_memory_result(s.mpk, s.vmsa.cr3, addr, size, pkey);
            &&& pkey == s.vmsa.rdx as int % 0x1_0000_0000
            &&& outcome == Outcome::Resume
            &&& if addr % 4096 != 0 || size % 4096 != 0 {
                after == (PalState { vmsa: VMSA { rcx: 1, ..s.vmsa }, ..s })
            } else {
                match result {
                    Ok(_) => after == (PalState {
                        mpk,
                        vmsa: VMSA { rcx: 0, ..s.vmsa },
                        effects: s.effects + mpk_memory::alloc_memory_effects(
                            s.vmsa.cr3,
                            addr,
                            size,
                            pkey,
                        ),
                        ..s
                    }),
                    Err(code) => after == (PalState {
                        vmsa: VMSA { rcx: code as u64, ..s.vmsa },
                        ..s
                    }),
                }
            }
        }),
{
    lemma_low_half(s.vmsa.rdx);
}

/// Memory that is given back is no longer recorded; the rest of the memory and the keys of the
/// process stay.  Where nothing is recorded at the address the code is 2, and where another size
/// is it is 4; then nothing changes.
pub proof fn law_memory_is_forgotten(
    managers: Map<u64, MpkState>,
    cr3: u64,
    addr: u64,
    size: u64,
)
    ensures
        ({
            let before = mpk_memory::state_of(managers, cr3);
            let (after, result) = mpk_memory::free_memory_result(managers, cr3, addr, size);
            if !before.allocations.contains_key(addr) {
                after == managers && result == Err::<(), u32>(2)
            } else if before.allocations[addr].size != size {
                after == managers && result == Err::<(), u32>(4)
            } else {
                &&& result is Ok
                &&& after == managers.insert(
                    cr3,
                    MpkState {
                        keys: before.keys,
                        allocations: before.allocations.remove(addr),
                    },
                )
            }
        }),
{
}

/// The key of every page of memory that is given back is cleared, one page after the other, and
/// then all of them are unmapped.
pub proof fn law_freed_pages_lose_their_pkey(cr3: u64, addr: u64, size: u64, index: int)
    ensures
        ({
            let effects = mpk_memory::free_memory_effects(cr3, addr, size);
            let pages = effects.len() - 1;
            &&& pages * 4096 <= size < pages * 4096 + 4096
            &&& 0 <= index < pages ==> effects[index] == (Effect::ClearPkey {
                cr3,
                vaddr: (addr + index * 4096) as u64,
            })
            &&& effects.last() == (Effect::RemovePages { cr3, vaddr: addr, pages: pages as u64 })
        }),
{
}

/// A request to give memory back: RCX gets 1 where the address or the size is no multiple of the
/// page size, and then nothing changes; else it gets 0 or the code, and nothing is unmapped unless
/// RCX gets 0.
pub proof fn law_memory_return(s: PalState)
    ensures
        ({
            let (after, outcome) = pal_state::serve_mpk_free(s);
            let addr = s.vmsa.rbx;
            let size = s.vmsa.rcx;
            let (mpk, result) = mpk_memory::free_memory_result(s.mpk, s.vmsa.cr3, addr, size);
            &&& outcome == Outcome::Resume
            &&& if addr % 4096 != 0 || size % 4096 != 0 {
                after == (PalState { vmsa: VMSA { rcx: 1, ..s.vmsa }, ..s })
            } else {
                match result {
                    Ok(_) => after == (PalState {
                        mpk,
                        vmsa: VMSA { rcx: 0, ..s.vmsa },
                        effects: s.effects + mpk_memory::free_memory_effects(
                            s.vmsa.cr3,
                            addr,
                            size,
                        ),
                        ..s
                    }),
                    Err(code) => after == (PalState {
                        vmsa: VMSA { rcx: code as u64, ..s.vmsa },
                        ..s
                    }),
                }
            }
        }),
{
}

/// A key that is given back is taken from the process, and nothing else is, where no memory is
/// named with it.  Where memory is named, the memory goes first; the key stays where the memory
/// does.
pub proof fn law_pkey_goes_after_its_memory(
    managers: Map<u64, MpkState>,
    pkey: u32,
    cr3: u64,
    addr: u64,
    size: u64,
)
    ensures
        ({
            let (freed, memory) = mpk_memory::free_memory_result(managers, cr3, addr, size);
            let (after, result) = mpk_memory::free_pkey_result(managers, pkey, cr3, addr, size);
            let named = addr != 0 && size != 0;
            let left = if named {
                freed
            } else {
                managers
            };
            &&& named && memory is Err ==> after == managers && result == memory
            &&& !named || memory is Ok ==> {
                &&& result is Ok
                &&& !left.contains_key(cr3) ==> after == left
                &&& left.contains_key(cr3) ==> after == left.insert(
                    cr3,
                    MpkState {
                        keys: left[cr3].keys.remove(pkey),
                        allocations: left[cr3].allocations,
                    },
                )
            }
        }),
{
}

/// A request to give a key back: the key is the low half of RBX, RCX has the address of its memory
/// and RDX the size, one of them 0 where none is named.  RCX gets 1 where memory is named whose
/// address or size is no multiple of the page size, and then nothing changes; else it gets 0 or
/// the code, and nothing is unmapped unless memory is named and RCX gets 0.
pub proof fn law_pkey_return(s: PalState)
    ensures
        ({
            let (after, outcome) = pal_state::serve_mpk_free_pkey(s);
            let pkey = s.vmsa.rbx as u32;
            let addr = s.vmsa.rcx;
            let size = s.vmsa.rdx;
            let named = addr != 0 && size != 0;
            let (mpk, result) = mpk_memory::free_pkey_result(s.mpk, pkey, s.vmsa.cr3, addr, size);
            &&& pkey == s.vmsa.rbx as int % 0x1_0000_0000
            &&& outcome == Outcome::Resume
            &&& if named && (addr % 4096 != 0 || size % 4096 != 0) {
                after == (PalState { vmsa: VMSA { rcx: 1, ..s.vmsa }, ..s })
            } else {
                match result {
                    Ok(_) => after == (PalState {
                        mpk,
                        vmsa: VMSA { rcx: 0, ..s.vmsa },
                        effects: if named {
                            s.effects + mpk_memory::free_memory_effects(s.vmsa.cr3, addr, size)
                        } else {
                            s.effects
                        },
                        ..s
                    }),
                    Err(code) => after == (PalState {
                        vmsa: VMSA { rcx: code as u64, ..s.vmsa },
                        ..s
                    }),
                }
            }
        }),
{
    lemma_low_half(s.vmsa.rbx);
    let after = pal_state::serve_mpk_free_pkey(s).0;
    if s.vmsa.rcx == 0 || s.vmsa.rdx == 0 {
        assert(after.effects =~= s.effects);
    }
}

/// Entering the domain of a key fails with 7 where there is no such key beside key 0, and with 8
/// where the domain of another key but key 0 is open, both bits of it clear.  Else both bits of
/// the key are clear afterwards, and those of every other key are as they were.
pub proof fn law_entering_a_domain(pkru: u32, pkey: u32, other: u32)
    requires
        other < 16,
        other != pkey,
    ensures
        ({
            let result = pkru::enter_domain_result(pkru, pkey);
            let open = exists|open: u32|
                1 <= open <= 15 && open != pkey && (pkru >> (#[trigger] (open * 2) as u32)) & 3u32
                    == 0;
            if pkey == 0 || pkey > 15 {
                result == Err::<u32, u64>(7)
            } else if open {
                result == Err::<u32, u64>(8)
            } else {
                &&& result matches Ok(after) && (after >> ((pkey * 2) as u32)) & 3u32 == 0 && (
                after >> ((other * 2) as u32)) & 3u32 == (pkru >> ((other * 2) as u32)) & 3u32
            }
        }),
{
    let open = exists|open: u32|
        1 <= open <= 15 && open != pkey && (pkru >> (#[trigger] (open * 2) as u32)) & 3u32 == 0;
    if 1 <= pkey <= 15 {
        if open {
            let key = choose|key: u32|
                1 <= key <= 15 && key != pkey && (pkru >> (#[trigger] (key * 2) as u32)) & 3u32
                    == 0;
            assert(pkru::domain_open(pkru, key));
        } else {
            if pkru::other_domain_open(pkru, pkey) {
                let key = choose|key: u32|
                    mpk_memory::is_user_pkey(key) && key != pkey && #[trigger] pkru::domain_open(
                        pkru,
                        key,
                    );
                assert((pkru >> ((key * 2) as u32)) & 3u32 == 0);
            }
            pkru::law_entered_domain_is_the_only_one(pkru, pkey, other);
        }
    }
}

/// Leaving the domain of a key fails with 7 where there is no such key beside key 0.  Else access
/// through the key is disabled afterwards, the lower of its two bits, and nothing else changes:
/// neither the other bit nor those of any other key.
pub proof fn law_leaving_a_domain(pkru: u32, pkey: u32, other: u32)
    requires
        other < 16,
        other != pkey,
    ensures
        ({
            let result = pkru::exit_domain_result(pkru, pkey);
            if pkey == 0 || pkey > 15 {
                result == Err::<u32, u64>(7)
            } else {
                &&& result matches Ok(after) && (after >> ((pkey * 2) as u32)) & 3u32 == ((pkru >> ((
                pkey * 2) as u32)) & 3u32) | 1u32 && (after >> ((other * 2) as u32)) & 3u32 == (
                pkru >> ((other * 2) as u32)) & 3u32
            }
        }),
{
    if 1 <= pkey <= 15 {
        pkru::law_left_domain_is_closed(pkru, pkey, other);
        let a = (pkey * 2) as u32;
        assert(a <= 30 ==> ((pkru | (1u32 << a)) >> a) & 3u32 == ((pkru >> a) & 3u32) | 1u32)
            by (bit_vector);
    }
}

/// A request to enter or to leave a domain names the key in the low half of RBX.  RCX gets 0 and
/// the rights change, or RCX gets the code and they do not.  Nothing else changes.
pub proof fn law_domain_requests(s: PalState)
    ensures
        ({
            let pkey = s.vmsa.rbx as u32;
            let (entered, entering) = pal_state::serve_mpk_enter_domain(s);
            let (left, leaving) = pal_state::serve_mpk_exit_domain(s);
            &&& pkey == s.vmsa.rbx as int % 0x1_0000_0000
            &&& entering == Outcome::Resume && leaving == Outcome::Resume
            &&& match pkru::enter_domain_result(s.vmsa.pkru, pkey) {
                Ok(pkru) => entered == (PalState { vmsa: VMSA { pkru, rcx: 0, ..s.vmsa }, ..s }),
                Err(code) => entered == (PalState { vmsa: VMSA { rcx: code, ..s.vmsa }, ..s }),
            }
            &&& match pkru::exit_domain_result(s.vmsa.pkru, pkey) {
                Ok(pkru) => left == (PalState { vmsa: VMSA { pkru, rcx: 0, ..s.vmsa }, ..s }),
                Err(code) => left == (PalState { vmsa: VMSA { rcx: code, ..s.vmsa }, ..s }),
            }
        }),
{
    lemma_low_half(s.vmsa.rbx);
}

/// Asking for the rights gives them in RAX and 0 in RCX, and changes nothing else: the answer
/// tells of each key what entering and leaving domains made of it.
pub proof fn law_rights_are_shown(s: PalState)
    ensures
        ({
            let (after, outcome) = pal_state::serve_mpk_query_pkru(s);
            &&& outcome == Outcome::Resume
            &&& after.vmsa.rax == s.vmsa.pkru
            &&& after == (PalState { vmsa: VMSA { rax: after.vmsa.rax, rcx: 0, ..s.vmsa }, ..s })
        }),
{
}

} // verus!
