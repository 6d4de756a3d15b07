//! Protection keys and the memory that belongs to them, process by process.
//!
//! A process is known by its page table (the value of CR3).  Each process has the protection keys
//! 1 to 15 for itself: two processes may hold the same key, because their page tables differ.
//! Key 0 belongs to the system and is never handed out.
//!
//! A failed call reports a code:
//!
//! | code | meaning |
//! |------|---------|
//! | 2 | nothing was allocated at the address |
//! | 3 | something is allocated at the address already |
//! | 4 | the size is not the one of the allocation |
//! | 6 | no key is free |
use std::collections::BTreeMap;
use vstd::prelude::*;

use crate::effects::Effect;
use crate::page::{FlagBase, ProcessPageFlags};

verus! {

/// The number of protection keys, key 0 included.
pub const PKEY_COUNT: u32 = 16;

/// Nothing was allocated at the address.
pub const MPK_NOT_FOUND: u32 = 2;

/// Something is allocated at the address already.
pub const MPK_IN_USE: u32 = 3;

/// The size is not the one of the allocation.
pub const MPK_SIZE_MISMATCH: u32 = 4;

/// No key is free.
pub const MPK_NO_PKEY: u32 = 6;

/// Whether `pkey` is one of the keys that a process can own.
pub open spec fn is_user_pkey(pkey: u32) -> bool {
    0 < pkey < PKEY_COUNT
}

/// Whether `pkey` is the smallest key that a process may own and that is not in `keys`.
pub open spec fn is_first_free(keys: Set<u32>, pkey: u32) -> bool {
    &&& is_user_pkey(pkey)
    &&& !keys.contains(pkey)
    &&& forall|other: u32| 0 < other < pkey ==> keys.contains(other)
}

/// The smallest key that a process may own and that is not in `keys`.
pub open spec fn first_free(keys: Set<u32>) -> Option<u32> {
    if exists|pkey: u32| is_first_free(keys, pkey) {
        Some(choose|pkey: u32| is_first_free(keys, pkey))
    } else {
        None
    }
}

/// The bit of key `pkey` in a key bitmap.
spec fn key_bit(bitmap: u16, pkey: u32) -> bool {
    (bitmap & (1u16 << pkey)) != 0
}

/// A bitmap of protection keys: a key is allocated where its bit is set.
#[derive(Debug)]
pub struct PkeyAllocator {
    bitmap: u16,
}

impl View for PkeyAllocator {
    type V = Set<u32>;

    /// The allocated keys, without the reserved key 0.
    closed spec fn view(&self) -> Set<u32> {
        Set::new(|pkey: u32| is_user_pkey(pkey) && key_bit(self.bitmap, pkey))
    }
}

impl PkeyAllocator {
    /// Key 0 is always reserved.
    #[verifier::type_invariant]
    spec fn reserves_key_zero(self) -> bool {
        key_bit(self.bitmap, 0)
    }

    /// No key is allocated but the reserved key 0.
    pub fn new() -> (allocator: PkeyAllocator)
        ensures
            allocator@ == Set::<u32>::empty(),
    {
        assert(1u16 & (1u16 << 0u32) != 0) by (bit_vector);
        assert forall|pkey: u32| is_user_pkey(pkey) implies !key_bit(0x0001, pkey) by {
            assert(0 < pkey < 16 ==> 1u16 & (1u16 << pkey) == 0) by (bit_vector);
        }
        let allocator = PkeyAllocator { bitmap: 0x0001 };
        assert(allocator@ =~= Set::<u32>::empty());
        allocator
    }

    /// Only keys that a process can own are ever allocated: the reserved key 0 is never among them,
    /// so that freeing it changes nothing.
    pub proof fn law_only_user_pkeys(&self)
        ensures
            forall|pkey: u32| #[trigger] self@.contains(pkey) ==> is_user_pkey(pkey),
            self@.remove(0) == self@,
    {
        assert(self@.remove(0) =~= self@);
    }

    /// Allocates the smallest free key.
    pub fn allocate(&mut self) -> (pkey: Option<u32>)
        ensures
            pkey == first_free(old(self)@),
            final(self)@ == match pkey {
                Some(pkey) => old(self)@.insert(pkey),
                None => old(self)@,
            },
    {
        proof {
            use_type_invariant(&*self);
        }
        let mut i: u32 = 1;
        while i < PKEY_COUNT
            invariant
                1 <= i <= PKEY_COUNT,
                *self == *old(self),
                key_bit(self.bitmap, 0),
                forall|other: u32| 0 < other < i ==> self@.contains(other),
            decreases PKEY_COUNT - i,
        {
            if (self.bitmap & (1u16 << i)) == 0 {
                let ghost before = self.bitmap;
                proof {
                    assert((before & (1u16 << 0u32)) != 0 ==> ((before | (1u16 << i)) & (1u16
                        << 0u32)) != 0) by (bit_vector);
                    lemma_set_bit(before, i);
                }
                self.bitmap = self.bitmap | (1u16 << i);
                proof {
                    assert(is_first_free(old(self)@, i));
                    lemma_first_free_unique(old(self)@, i);
                    assert(self@ =~= old(self)@.insert(i));
                }
                return Some(i);
            }
            i += 1;
        }
        None
    }

    /// Frees a key.  Key 0 and numbers that are no key are left alone.
    pub fn free(&mut self, pkey: u32)
        ensures
            final(self)@ == old(self)@.remove(pkey),
    {
        proof {
            use_type_invariant(&*self);
        }
        if pkey > 0 && pkey < PKEY_COUNT {
            let ghost before = self.bitmap;
            proof {
                assert((before & (1u16 << 0u32)) != 0 && 0 < pkey < 16 ==> ((before & !(1u16
                    << pkey)) & (1u16 << 0u32)) != 0) by (bit_vector);
                lemma_clear_bit(before, pkey);
            }
            self.bitmap = self.bitmap & !(1u16 << pkey);
        }
        assert(self@ =~= old(self)@.remove(pkey));
    }

    /// How many keys are allocated, the reserved key 0 not counted.
    pub fn count(&self) -> (count: u32)
        ensures
            count == self@.len(),
            count < PKEY_COUNT,
    {
        let mut count: u32 = 0;
        let mut i: u32 = 1;
        let ghost mut seen: Set<u32> = Set::empty();
        while i < PKEY_COUNT
            invariant
                1 <= i <= PKEY_COUNT,
                count < i,
                seen.finite(),
                seen.len() == count,
                forall|pkey: u32| seen.contains(pkey) <==> self@.contains(pkey) && pkey < i,
            decreases PKEY_COUNT - i,
        {
            if (self.bitmap & (1u16 << i)) != 0 {
                count += 1;
                proof {
                    seen = seen.insert(i);
                }
            }
            i += 1;
        }
        assert(seen =~= self@);
        count
    }
}

/// Setting the bit of one key changes no other.
proof fn lemma_set_bit(bitmap: u16, pkey: u32)
    requires
        pkey < 16,
    ensures
        forall|other: u32|
            other < 16 ==> (#[trigger] key_bit(bitmap | (1u16 << pkey), other) <==> other == pkey
                || key_bit(bitmap, other)),
{
    assert forall|other: u32| other < 16 implies (#[trigger] key_bit(bitmap | (1u16 << pkey), other)
        <==> other == pkey || key_bit(bitmap, other)) by {
        assert(pkey < 16 && other < 16 ==> ((((bitmap | (1u16 << pkey)) & (1u16 << other)) != 0)
            <==> (other == pkey || (bitmap & (1u16 << other)) != 0))) by (bit_vector);
    }
}

/// Clearing the bit of one key changes no other.
proof fn lemma_clear_bit(bitmap: u16, pkey: u32)
    requires
        pkey < 16,
    ensures
        forall|other: u32|
            other < 16 ==> (#[trigger] key_bit(bitmap & !(1u16 << pkey), other) <==> other != pkey
                && key_bit(bitmap, other)),
{
    assert forall|other: u32| other < 16 implies (#[trigger] key_bit(
        bitmap & !(1u16 << pkey),
        other,
    ) <==> other != pkey && key_bit(bitmap, other)) by {
        assert(pkey < 16 && other < 16 ==> ((((bitmap & !(1u16 << pkey)) & (1u16 << other)) != 0)
            <==> (other != pkey && (bitmap & (1u16 << other)) != 0))) by (bit_vector);
    }
}

/// A smallest free key is the one that `first_free` gives.
proof fn lemma_first_free_unique(keys: Set<u32>, pkey: u32)
    requires
        is_first_free(keys, pkey),
    ensures
        first_free(keys) == Some(pkey),
{
    let chosen = choose|other: u32| is_first_free(keys, other);
    assert(is_first_free(keys, chosen));
    assert(chosen == pkey);
}

/// What is known of one allocation.
#[derive(Clone, Copy, Debug, PartialEq, Eq, Structural)]
pub struct MpkAllocation {
    /// The key that the memory belongs to.
    pub pkey: u32,
    /// The size in bytes.
    pub size: u64,
}

/// The keys and the allocations of one process.
#[verifier::ext_equal]
pub struct MpkState {
    /// The allocated keys.
    pub keys: Set<u32>,
    /// The allocations, by address.
    pub allocations: Map<u64, MpkAllocation>,
}

impl MpkState {
    /// No key and no allocation.
    pub open spec fn fresh() -> MpkState {
        MpkState { keys: Set::empty(), allocations: Map::empty() }
    }
}

/// The keys and the allocations of one process.
#[derive(Debug)]
pub struct MpkMemoryManager {
    pkey_allocator: PkeyAllocator,
    allocations: BTreeMap<u64, MpkAllocation>,
}

impl View for MpkMemoryManager {
    type V = MpkState;

    closed spec fn view(&self) -> MpkState {
        MpkState { keys: self.pkey_allocator@, allocations: self.allocations@ }
    }
}

impl MpkMemoryManager {
    /// A process without keys and allocations.
    pub fn new() -> (manager: MpkMemoryManager)
        ensures
            manager@ == MpkState::fresh(),
    {
        MpkMemoryManager { pkey_allocator: PkeyAllocator::new(), allocations: BTreeMap::new() }
    }
}

/// The managers of all processes, by page table.
#[derive(Debug)]
pub struct MpkManagers {
    managers: BTreeMap<u64, MpkMemoryManager>,
}

impl View for MpkManagers {
    type V = Map<u64, MpkState>;

    closed spec fn view(&self) -> Map<u64, MpkState> {
        self.managers@.map_values(|manager: MpkMemoryManager| manager@)
    }
}

impl MpkManagers {
    /// No process is known.
    pub fn new() -> (managers: MpkManagers)
        ensures
            managers@ == Map::<u64, MpkState>::empty(),
    {
        let managers = MpkManagers { managers: BTreeMap::new() };
        assert(managers@ =~= Map::<u64, MpkState>::empty());
        managers
    }

    /// No process ever holds anything but the keys that a process can own: the reserved key 0 is
    /// never among them.
    pub proof fn law_only_user_pkeys(&self)
        ensures
            only_user_pkeys(self@),
    {
    }

    /// Takes the manager of a process out, or a fresh one where the process is not known.
    fn take_or_new(&mut self, page_table_cr3: u64) -> (manager: MpkMemoryManager)
        ensures
            manager@ == state_of(old(self)@, page_table_cr3),
            final(self)@ == old(self)@.remove(page_table_cr3),
    {
        let manager = self.managers.remove(&page_table_cr3);
        assert(self@ =~= old(self)@.remove(page_table_cr3));
        match manager {
            Some(manager) => manager,
            None => MpkMemoryManager::new(),
        }
    }

    /// Puts the manager of a process in.
    fn put(&mut self, page_table_cr3: u64, manager: MpkMemoryManager)
        ensures
            final(self)@ == old(self)@.insert(page_table_cr3, manager@),
    {
        let ghost state = manager@;
        self.managers.insert(page_table_cr3, manager);
        assert(self@ =~= old(self)@.insert(page_table_cr3, state));
    }
}

/// Whether every key that some process holds is one that a process can own.
pub open spec fn only_user_pkeys(managers: Map<u64, MpkState>) -> bool {
    forall|cr3: u64, pkey: u32|
        managers.contains_key(cr3) && #[trigger] managers[cr3].keys.contains(pkey) ==> is_user_pkey(
            pkey,
        )
}

/// The state of a process: a fresh one where the process is not known yet.
pub open spec fn state_of(managers: Map<u64, MpkState>, page_table_cr3: u64) -> MpkState {
    if managers.contains_key(page_table_cr3) {
        managers[page_table_cr3]
    } else {
        MpkState::fresh()
    }
}

/// What becomes of the processes when one of them asks for a key, and the answer.
pub open spec fn pkey_alloc_result(managers: Map<u64, MpkState>, page_table_cr3: u64) -> (
    Map<u64, MpkState>,
    Result<u32, u32>,
) {
    let before = state_of(managers, page_table_cr3);
    match first_free(before.keys) {
        Some(pkey) => (
            managers.insert(
                page_table_cr3,
                MpkState { keys: before.keys.insert(pkey), allocations: before.allocations },
            ),
            Ok(pkey),
        ),
        None => (managers.insert(page_table_cr3, before), Err(MPK_NO_PKEY)),
    }
}

/// Allocates a key for a process and no memory.  A process that is not known yet is registered.
pub fn mpk_pkey_alloc_only(managers: &mut MpkManagers, page_table_cr3: u64) -> (result: Result<
    u32,
    u32,
>)
    ensures
        (final(managers)@, result) == pkey_alloc_result(old(managers)@, page_table_cr3),
{
    let mut manager = managers.take_or_new(page_table_cr3);
    let pkey = manager.pkey_allocator.allocate();
    managers.put(page_table_cr3, manager);
    assert(managers@ =~= pkey_alloc_result(old(managers)@, page_table_cr3).0);
    match pkey {
        Some(pkey) => Ok(pkey),
        None => Err(MPK_NO_PKEY),
    }
}

/// What becomes of the processes when one of them asks for memory of a key, and the answer.
pub open spec fn alloc_memory_result(
    managers: Map<u64, MpkState>,
    page_table_cr3: u64,
    addr: u64,
    size: u64,
    pkey: u32,
) -> (Map<u64, MpkState>, Result<(), u32>) {
    let before = state_of(managers, page_table_cr3);
    if before.allocations.contains_key(addr) {
        (managers, Err(MPK_IN_USE))
    } else {
        (
            managers.insert(
                page_table_cr3,
                MpkState {
                    keys: before.keys,
                    allocations: before.allocations.insert(addr, MpkAllocation { pkey, size }),
                },
            ),
            Ok(()),
        )
    }
}

/// What has to be done to the page table when memory of a key is allocated.
pub open spec fn alloc_memory_effects(page_table_cr3: u64, addr: u64, size: u64, pkey: u32) -> Seq<
    Effect,
> {
    seq![
        Effect::AddPages {
            cr3: page_table_cr3,
            vaddr: addr,
            pages: size / 4096,
            flags: ProcessPageFlags::spec_of(FlagBase::DataWithPkey(pkey)),
        },
    ]
}

/// Allocates memory of a key that the process names.  A process that is not known yet is
/// registered.
pub fn mpk_alloc_memory(
    managers: &mut MpkManagers,
    page_table_cr3: u64,
    addr: u64,
    size: u64,
    pkey: u32,
    effects: &mut Vec<Effect>,
) -> (result: Result<(), u32>)
    ensures
        (final(managers)@, result) == alloc_memory_result(
            old(managers)@,
            page_table_cr3,
            addr,
            size,
            pkey,
        ),
        final(effects)@ == if result is Ok {
            old(effects)@ + alloc_memory_effects(page_table_cr3, addr, size, pkey)
        } else {
            old(effects)@
        },
{
    let mut manager = managers.take_or_new(page_table_cr3);
    let ghost expected = alloc_memory_result(old(managers)@, page_table_cr3, addr, size, pkey).0;
    if manager.allocations.contains_key(&addr) {
        managers.put(page_table_cr3, manager);
        assert(managers@ =~= expected);
        return Err(MPK_IN_USE);
    }
    let flags = ProcessPageFlags::of(FlagBase::DataWithPkey(pkey));
    effects.push(
        Effect::AddPages { cr3: page_table_cr3, vaddr: addr, pages: size / 4096, flags },
    );
    manager.allocations.insert(addr, MpkAllocation { pkey, size });
    managers.put(page_table_cr3, manager);
    assert(managers@ =~= expected);
    Ok(())
}

/// What becomes of the processes when one of them gives memory back, and the answer.
pub open spec fn free_memory_result(
    managers: Map<u64, MpkState>,
    page_table_cr3: u64,
    addr: u64,
    size: u64,
) -> (Map<u64, MpkState>, Result<(), u32>) {
    let before = state_of(managers, page_table_cr3);
    if !before.allocations.contains_key(addr) {
        (managers, Err(MPK_NOT_FOUND))
    } else if before.allocations[addr].size != size {
        (managers, Err(MPK_SIZE_MISMATCH))
    } else {
        (
            managers.insert(
                page_table_cr3,
                MpkState { keys: before.keys, allocations: before.allocations.remove(addr) },
            ),
            Ok(()),
        )
    }
}

/// The start of page `index` of a range that begins at `addr`.
pub open spec fn page_at(addr: u64, index: int) -> u64 {
    (addr + index * 4096) as u64
}

/// What has to be done to the page table when memory is given back: the key of every page is
/// cleared, then the pages are freed.
pub open spec fn free_memory_effects(page_table_cr3: u64, addr: u64, size: u64) -> Seq<Effect> {
    Seq::new(
        (size / 4096) as nat,
        |i: int| Effect::ClearPkey { cr3: page_table_cr3, vaddr: page_at(addr, i) },
    ).push(Effect::RemovePages { cr3: page_table_cr3, vaddr: addr, pages: size / 4096 })
}

/// Whether the last of the pages of a range still begins inside the address space.
pub open spec fn range_in_address_space(addr: u64, size: u64) -> bool {
    size < 4096 || addr + (size / 4096 - 1) * 4096 <= u64::MAX
}

/// Frees memory.  The key that the memory belonged to stays allocated.
pub fn mpk_free_memory(
    managers: &mut MpkManagers,
    page_table_cr3: u64,
    addr: u64,
    size: u64,
    effects: &mut Vec<Effect>,
) -> (result: Result<(), u32>)
    requires
        free_memory_result(old(managers)@, page_table_cr3, addr, size).1 is Ok
            ==> range_in_address_space(addr, size),
    ensures
        (final(managers)@, result) == free_memory_result(
            old(managers)@,
            page_table_cr3,
            addr,
            size,
        ),
        final(effects)@ == if result is Ok {
            old(effects)@ + free_memory_effects(page_table_cr3, addr, size)
        } else {
            old(effects)@
        },
{
    let ghost expected = free_memory_result(old(managers)@, page_table_cr3, addr, size);
    let mut manager = match managers.managers.remove(&page_table_cr3) {
        Some(manager) => manager,
        None => {
            assert(managers@ =~= old(managers)@);
            return Err(MPK_NOT_FOUND);
        },
    };
    assert(managers@ =~= old(managers)@.remove(page_table_cr3));
    let recorded = match manager.allocations.get(&addr) {
        Some(allocation) => allocation.size,
        None => {
            managers.put(page_table_cr3, manager);
            assert(managers@ =~= expected.0);
            return Err(MPK_NOT_FOUND);
        },
    };
    if recorded != size {
        managers.put(page_table_cr3, manager);
        assert(managers@ =~= expected.0);
        return Err(MPK_SIZE_MISMATCH);
    }
    let page_count = size / 4096;
    let mut i: u64 = 0;
    while i < page_count
        invariant
            i <= page_count,
            page_count == size / 4096,
            range_in_address_space(addr, size),
            effects@ == old(effects)@ + Seq::new(
                i as nat,
                |k: int| Effect::ClearPkey { cr3: page_table_cr3, vaddr: page_at(addr, k) },
            ),
        decreases page_count - i,
    {
        effects.push(Effect::ClearPkey { cr3: page_table_cr3, vaddr: addr + i * 4096 });
        i += 1;
        assert(effects@ =~= old(effects)@ + Seq::new(
            i as nat,
            |k: int| Effect::ClearPkey { cr3: page_table_cr3, vaddr: page_at(addr, k) },
        ));
    }
    effects.push(Effect::RemovePages { cr3: page_table_cr3, vaddr: addr, pages: page_count });
    assert(effects@ =~= old(effects)@ + free_memory_effects(page_table_cr3, addr, size));
    manager.allocations.remove(&addr);
    managers.put(page_table_cr3, manager);
    assert(managers@ =~= expected.0);
    Ok(())
}

/// Whether a process has memory of that size at `addr`, so that it can give it back.
pub fn mpk_has_memory(managers: &MpkManagers, page_table_cr3: u64, addr: u64, size: u64) -> (found:
    bool)
    ensures
        found == (free_memory_result(managers@, page_table_cr3, addr, size).1 is Ok),
{
    match managers.managers.get(&page_table_cr3) {
        Some(manager) => match manager.allocations.get(&addr) {
            Some(allocation) => allocation.size == size,
            None => false,
        },
        None => false,
    }
}

/// The processes without a key of one of them.
pub open spec fn pkey_released(
    managers: Map<u64, MpkState>,
    pkey: u32,
    page_table_cr3: u64,
) -> Map<u64, MpkState> {
    if managers.contains_key(page_table_cr3) {
        let before = managers[page_table_cr3];
        managers.insert(
            page_table_cr3,
            MpkState { keys: before.keys.remove(pkey), allocations: before.allocations },
        )
    } else {
        managers
    }
}

/// Whether giving a key back is to free memory too.
pub open spec fn names_memory(addr: u64, size: u64) -> bool {
    addr != 0 && size != 0
}

/// What becomes of the processes when one of them gives a key back, and the answer.
pub open spec fn free_pkey_result(
    managers: Map<u64, MpkState>,
    pkey: u32,
    page_table_cr3: u64,
    addr: u64,
    size: u64,
) -> (Map<u64, MpkState>, Result<(), u32>) {
    if names_memory(addr, size) {
        let (freed, result) = free_memory_result(managers, page_table_cr3, addr, size);
        if result is Err {
            (freed, result)
        } else {
            (pkey_released(freed, pkey, page_table_cr3), Ok(()))
        }
    } else {
        (pkey_released(managers, pkey, page_table_cr3), Ok(()))
    }
}

/// Frees a key, and before it the memory at `addr` where neither `addr` nor `size` is 0.  Where
/// the memory cannot be freed, the key stays allocated.
pub fn mpk_free_pkey(
    managers: &mut MpkManagers,
    pkey: u32,
    page_table_cr3: u64,
    addr: u64,
    size: u64,
    effects: &mut Vec<Effect>,
) -> (result: Result<(), u32>)
    requires
        names_memory(addr, size) && free_memory_result(
            old(managers)@,
            page_table_cr3,
            addr,
            size,
        ).1 is Ok ==> range_in_address_space(addr, size),
    ensures
        (final(managers)@, result) == free_pkey_result(
            old(managers)@,
            pkey,
            page_table_cr3,
            addr,
            size,
        ),
        final(effects)@ == if names_memory(addr, size) && result is Ok {
            old(effects)@ + free_memory_effects(page_table_cr3, addr, size)
        } else {
            old(effects)@
        },
{
    if addr != 0 && size != 0 {
        match mpk_free_memory(managers, page_table_cr3, addr, size, effects) {
            Ok(()) => {},
            Err(code) => {
                return Err(code);
            },
        }
    }
    let ghost middle = managers@;
    match managers.managers.remove(&page_table_cr3) {
        Some(manager) => {
            assert(managers@ =~= middle.remove(page_table_cr3));
            let mut manager = manager;
            manager.pkey_allocator.free(pkey);
            managers.put(page_table_cr3, manager);
        },
        None => {},
    }
    assert(managers@ =~= pkey_released(middle, pkey, page_table_cr3));
    Ok(())
}

/// How many keys a process has.
pub fn get_allocated_pkey_count(managers: &MpkManagers, page_table_cr3: u64) -> (count: u32)
    ensures
        count == state_of(managers@, page_table_cr3).keys.len(),
{
    match managers.managers.get(&page_table_cr3) {
        Some(manager) => manager.pkey_allocator.count(),
        None => 0,
    }
}

/// How many allocations a process has.
pub fn get_allocation_count(managers: &MpkManagers, page_table_cr3: u64) -> (count: usize)
    ensures
        count == state_of(managers@, page_table_cr3).allocations.len(),
{
    match managers.managers.get(&page_table_cr3) {
        Some(manager) => manager.allocations.len(),
        None => 0,
    }
}

/// How many processes are registered.
pub fn get_process_count(managers: &MpkManagers) -> (count: usize)
    ensures
        count == managers@.len(),
{
    assert(managers@.dom() =~= managers.managers@.dom());
    managers.managers.len()
}

} // verus!
