//! What holds of the protection keys and their memory, whatever the processes do.
use vstd::prelude::*;

use crate::mpk_memory;
use crate::mpk_memory::{
    MpkAllocation, MpkState, MPK_IN_USE, MPK_NOT_FOUND, MPK_NO_PKEY, PKEY_COUNT,
};

verus! {

/// The keys that a process can own, below `bound`.
spec fn user_pkeys_below(bound: u32) -> Set<u32> {
    Set::new(|pkey: u32| 0 < pkey < bound)
}

/// There are `bound - 1` keys below `bound`.
proof fn lemma_user_pkeys_below(bound: u32)
    requires
        0 < bound,
    ensures
        user_pkeys_below(bound).finite(),
        user_pkeys_below(bound).len() == bound - 1,
    decreases bound,
{
    if bound == 1 {
        assert(user_pkeys_below(1) =~= Set::<u32>::empty());
    } else {
        let smaller = (bound - 1) as u32;
        lemma_user_pkeys_below(smaller);
        assert(user_pkeys_below(bound) =~= user_pkeys_below(smaller).insert(smaller));
    }
}

/// Where some key that a process can own is missing, there is a smallest one.
proof fn lemma_first_free_exists(keys: Set<u32>, missing: u32)
    requires
        mpk_memory::is_user_pkey(missing),
        !keys.contains(missing),
    ensures
        mpk_memory::first_free(keys) is Some,
    decreases missing,
{
    if forall|other: u32| 0 < other < missing ==> keys.contains(other) {
        assert(mpk_memory::is_first_free(keys, missing));
    } else {
        let smaller = choose|other: u32| 0 < other < missing && !keys.contains(other);
        lemma_first_free_exists(keys, smaller);
    }
}

/// A process that holds fewer than fifteen keys is given one: the smallest that it does not hold,
/// between 1 and 15.  A process that holds all fifteen is told that no key is free.
pub proof fn law_fifteen_pkeys_each(managers: Map<u64, MpkState>, cr3: u64)
    requires
        mpk_memory::only_user_pkeys(managers),
    ensures
        ({
            let before = mpk_memory::state_of(managers, cr3).keys;
            let (after, result) = mpk_memory::pkey_alloc_result(managers, cr3);
            &&& before.finite()
            &&& before.len() <= 15
            &&& result is Ok <==> before.len() < 15
            &&& result is Err ==> result == Err::<u32, u32>(MPK_NO_PKEY)
            &&& result matches Ok(pkey) ==> {
                &&& 1 <= pkey <= 15
                &&& !before.contains(pkey)
                &&& mpk_memory::state_of(after, cr3).keys == before.insert(pkey)
                &&& mpk_memory::state_of(after, cr3).keys.len() == before.len() + 1
                &&& forall|smaller: u32| 1 <= smaller < pkey ==> before.contains(smaller)
            }
        }),
{
    let before = mpk_memory::state_of(managers, cr3).keys;
    let all = user_pkeys_below(PKEY_COUNT);
    lemma_user_pkeys_below(PKEY_COUNT);
    assert(before.subset_of(all));
    vstd::set_lib::lemma_len_subset(before, all);
    if before.len() < 15 {
        if forall|pkey: u32| mpk_memory::is_user_pkey(pkey) ==> before.contains(pkey) {
            assert forall|pkey: u32| all.contains(pkey) implies before.contains(pkey) by {
                assert(mpk_memory::is_user_pkey(pkey));
            }
            assert(before =~= all);
            assert(false);
        }
        let missing = choose|pkey: u32| mpk_memory::is_user_pkey(pkey) && !before.contains(pkey);
        lemma_first_free_exists(before, missing);
    } else if mpk_memory::first_free(before) is Some {
        let pkey = choose|pkey: u32| mpk_memory::is_first_free(before, pkey);
        vstd::set_lib::lemma_len_subset(before, all.remove(pkey));
        assert(false);
    }
}

/// Whatever one process asks for, the keys and allocations of every other process stay as they
/// are.
pub proof fn law_processes_are_isolated(
    managers: Map<u64, MpkState>,
    cr3: u64,
    other: u64,
    addr: u64,
    size: u64,
    pkey: u32,
)
    requires
        other != cr3,
    ensures
        ({
            let kept = mpk_memory::state_of(managers, other);
            let (keyed, _) = mpk_memory::pkey_alloc_result(managers, cr3);
            let (allocated, _) = mpk_memory::alloc_memory_result(managers, cr3, addr, size, pkey);
            let (freed, _) = mpk_memory::free_memory_result(managers, cr3, addr, size);
            let (unkeyed, _) = mpk_memory::free_pkey_result(managers, pkey, cr3, addr, size);
            &&& mpk_memory::state_of(keyed, other) == kept
            &&& mpk_memory::state_of(allocated, other) == kept
            &&& mpk_memory::state_of(freed, other) == kept
            &&& mpk_memory::state_of(unkeyed, other) == kept
        }),
{
}

/// A call that fails leaves the keys and allocations of every process as they are.
pub proof fn law_failure_changes_nothing(
    managers: Map<u64, MpkState>,
    cr3: u64,
    addr: u64,
    size: u64,
    pkey: u32,
)
    ensures
        ({
            let keyed = mpk_memory::pkey_alloc_result(managers, cr3);
            let allocated = mpk_memory::alloc_memory_result(managers, cr3, addr, size, pkey);
            let freed = mpk_memory::free_memory_result(managers, cr3, addr, size);
            let unkeyed = mpk_memory::free_pkey_result(managers, pkey, cr3, addr, size);
            &&& keyed.1 is Err ==> keyed.0 == managers
            &&& allocated.1 is Err ==> allocated.0 == managers
            &&& freed.1 is Err ==> freed.0 == managers
            &&& unkeyed.1 is Err ==> unkeyed.0 == managers
        }),
{
    if mpk_memory::pkey_alloc_result(managers, cr3).1 is Err {
        let before = mpk_memory::state_of(managers, cr3);
        if !managers.contains_key(cr3) {
            lemma_first_free_exists(before.keys, 1);
        }
        assert(managers.insert(cr3, before) =~= managers);
    }
}

/// Giving back the key that was just handed out leaves the process as it was before, and the next
/// request for a key gets the same key again.
pub proof fn law_free_pkey_undoes_alloc(managers: Map<u64, MpkState>, cr3: u64, pkey: u32)
    requires
        mpk_memory::pkey_alloc_result(managers, cr3).1 == Ok::<u32, u32>(pkey),
    ensures
        ({
            let (freed, result) = mpk_memory::free_pkey_result(
                mpk_memory::pkey_alloc_result(managers, cr3).0,
                pkey,
                cr3,
                0,
                0,
            );
            &&& result is Ok
            &&& mpk_memory::state_of(freed, cr3) == mpk_memory::state_of(managers, cr3)
            &&& mpk_memory::pkey_alloc_result(freed, cr3).1 == Ok::<u32, u32>(pkey)
        }),
{
    let before = mpk_memory::state_of(managers, cr3);
    let keyed = mpk_memory::pkey_alloc_result(managers, cr3).0;
    let freed = mpk_memory::free_pkey_result(keyed, pkey, cr3, 0, 0).0;
    assert(mpk_memory::is_first_free(before.keys, pkey));
    assert(before.keys.insert(pkey).remove(pkey) =~= before.keys);
    assert(mpk_memory::state_of(freed, cr3) == before);
}

/// Memory that was allocated can be freed with the size it was allocated with.  The process is
/// then as it was before, and freeing once more reports that nothing is there.
pub proof fn law_free_memory_undoes_alloc(
    managers: Map<u64, MpkState>,
    cr3: u64,
    addr: u64,
    size: u64,
    pkey: u32,
)
    requires
        mpk_memory::alloc_memory_result(managers, cr3, addr, size, pkey).1 is Ok,
    ensures
        ({
            let allocated = mpk_memory::alloc_memory_result(managers, cr3, addr, size, pkey).0;
            let (freed, result) = mpk_memory::free_memory_result(allocated, cr3, addr, size);
            &&& result is Ok
            &&& mpk_memory::state_of(freed, cr3) == mpk_memory::state_of(managers, cr3)
            &&& mpk_memory::free_memory_result(freed, cr3, addr, size).1 == Err::<(), u32>(
                MPK_NOT_FOUND,
            )
        }),
{
    let before = mpk_memory::state_of(managers, cr3);
    let record = MpkAllocation { pkey, size };
    assert(before.allocations.insert(addr, record).remove(addr) =~= before.allocations);
}

/// An address that memory was allocated at cannot be allocated again until it is freed.
pub proof fn law_second_alloc_is_refused(
    managers: Map<u64, MpkState>,
    cr3: u64,
    addr: u64,
    size: u64,
    pkey: u32,
    other_size: u64,
    other_pkey: u32,
)
    requires
        mpk_memory::alloc_memory_result(managers, cr3, addr, size, pkey).1 is Ok,
    ensures
        ({
            let allocated = mpk_memory::alloc_memory_result(managers, cr3, addr, size, pkey).0;
            mpk_memory::alloc_memory_result(allocated, cr3, addr, other_size, other_pkey) == (
                allocated,
                Err::<(), u32>(MPK_IN_USE),
            )
        }),
{
}

/// Allocating and freeing memory leave the keys of a process allocated.
pub proof fn law_memory_calls_keep_pkeys(
    managers: Map<u64, MpkState>,
    cr3: u64,
    addr: u64,
    size: u64,
    pkey: u32,
)
    ensures
        ({
            let (allocated, _) = mpk_memory::alloc_memory_result(managers, cr3, addr, size, pkey);
            let (freed, _) = mpk_memory::free_memory_result(managers, cr3, addr, size);
            let before = mpk_memory::state_of(managers, cr3);
            &&& mpk_memory::state_of(allocated, cr3).keys == before.keys
            &&& mpk_memory::state_of(freed, cr3).keys == before.keys
        }),
{
}

/// Giving a key back takes that key from the process and no other, and key 0 cannot be given
/// back.
pub proof fn law_free_pkey_takes_one_pkey(managers: Map<u64, MpkState>, cr3: u64, pkey: u32)
    requires
        mpk_memory::only_user_pkeys(managers),
    ensures
        ({
            let before = mpk_memory::state_of(managers, cr3);
            let after = mpk_memory::state_of(
                mpk_memory::pkey_released(managers, pkey, cr3),
                cr3,
            );
            after.keys == before.keys.remove(pkey)
        }),
        mpk_memory::pkey_released(managers, 0, cr3) == managers,
{
    let before = mpk_memory::state_of(managers, cr3);
    let after = mpk_memory::state_of(mpk_memory::pkey_released(managers, pkey, cr3), cr3);
    assert(after.keys =~= before.keys.remove(pkey));
    if managers.contains_key(cr3) {
        assert(managers[cr3].keys.remove(0) =~= managers[cr3].keys);
    }
    assert(mpk_memory::pkey_released(managers, 0, cr3) =~= managers);
}

} // verus!
