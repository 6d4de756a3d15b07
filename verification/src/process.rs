//! The processes that the monitor looks after.
//!
//! A zygote is a process that was loaded from the guest.  A trustlet is made from a zygote.  Each
//! process has a slot in the store, and the number of the slot is its name.
use vstd::prelude::*;

use crate::measurements::ProcessMeasurements;
use crate::mmap::{MmapInfo, MmapManager, RangeWrapper};

verus! {

/// How many processes there can be.
pub const PROCESS_STORE_SIZE: u32 = 16;

/// The name of a process: the number of its slot in the store.
#[derive(Clone, Copy, Debug, PartialEq, Eq, Structural)]
pub struct ProcessID(pub usize);

/// What a process is.
#[derive(Clone, Copy, Debug, PartialEq, Eq, Structural)]
pub enum TrustedProcessType {
    /// There is no process.
    Undefined,
    /// A process that others are made from.
    Zygote,
    /// A process that was made from a zygote.
    Trustlet,
}

/// A range of memory: where it begins, and its size.
#[derive(Clone, Copy, Debug, PartialEq, Eq, Structural)]
pub struct AllocationRange(pub u64, pub u64);

/// The page table of a process.
#[derive(Clone, Copy, Debug, PartialEq, Eq, Structural)]
pub struct ProcessPageTableRef {
    /// Where its top level lies in physical memory.
    pub process_page_table: u64,
}

/// What a process was loaded from.
#[derive(Clone, Copy, Debug, PartialEq, Eq, Structural)]
pub struct ProcessBaseContext {
    /// The page table that it was loaded into.
    pub page_table_ref: ProcessPageTableRef,
    /// Where it begins to run.
    pub entry_point: u64,
    /// The program that it starts with.
    pub alloc_range: AllocationRange,
    /// The manifest.
    pub alloc_range_manifest: AllocationRange,
    /// The library operating system.
    pub alloc_range_libos: AllocationRange,
    /// The function that it was made for.
    pub alloc_range_function: AllocationRange,
}

/// The memory through which a process gets its input and gives its output.
#[derive(Clone, Copy, Debug, PartialEq, Eq, Structural)]
pub struct MemoryChannel {
    /// The input.
    pub input: AllocationRange,
    /// The output.
    pub output: AllocationRange,
}

/// What a process runs on.
#[derive(Clone, Copy, Debug)]
pub struct ProcessContext {
    /// Where its register file lies in physical memory.
    pub vmsa: u64,
    /// The features of its virtual processor.
    pub sev_features: u64,
    /// Its input and output.
    pub channel: MemoryChannel,
    /// What it was loaded from.
    pub base: ProcessBaseContext,
    /// What it was measured to be.
    pub measurements: ProcessMeasurements,
    /// Its page table.
    pub page_table_ref: ProcessPageTableRef,
}

/// A process.
#[derive(Debug)]
pub struct TrustedProcess {
    /// What it is.
    pub process_type: TrustedProcessType,
    /// Its number.
    pub id: u64,
    /// The name of the zygote that it was made from.
    pub parent_id: u64,
    /// What it was loaded from.
    pub base: ProcessBaseContext,
    /// What it was measured to be.
    pub measurements: ProcessMeasurements,
    /// What it runs on.
    pub context: ProcessContext,
    /// The files that are mapped into its memory.
    pub mmap_manager: MmapManager,
    /// The page that it waits for.
    pub pf_target_vaddr: u64,
}

/// A process, with its file mappings as a map.
#[verifier::ext_equal]
pub struct ProcessState {
    pub process_type: TrustedProcessType,
    pub id: u64,
    pub parent_id: u64,
    pub base: ProcessBaseContext,
    pub measurements: ProcessMeasurements,
    pub context: ProcessContext,
    pub mappings: Map<RangeWrapper, MmapInfo>,
    pub pf_target_vaddr: u64,
}

impl View for TrustedProcess {
    type V = ProcessState;

    open spec fn view(&self) -> ProcessState {
        ProcessState {
            process_type: self.process_type,
            id: self.id,
            parent_id: self.parent_id,
            base: self.base,
            measurements: self.measurements,
            context: self.context,
            mappings: self.mmap_manager@,
            pf_target_vaddr: self.pf_target_vaddr,
        }
    }
}

/// No memory.
pub open spec fn no_range() -> AllocationRange {
    AllocationRange(0, 0)
}

/// Nothing was loaded.
pub open spec fn no_base() -> ProcessBaseContext {
    ProcessBaseContext {
        page_table_ref: ProcessPageTableRef { process_page_table: 0 },
        entry_point: 0,
        alloc_range: no_range(),
        alloc_range_manifest: no_range(),
        alloc_range_libos: no_range(),
        alloc_range_function: no_range(),
    }
}

/// Nothing to run on.
pub open spec fn no_context() -> ProcessContext {
    ProcessContext {
        vmsa: 0,
        sev_features: 0,
        channel: MemoryChannel { input: no_range(), output: no_range() },
        base: no_base(),
        measurements: crate::measurements::no_measurements(),
        page_table_ref: ProcessPageTableRef { process_page_table: 0 },
    }
}

/// No process.
pub open spec fn no_process() -> ProcessState {
    ProcessState {
        process_type: TrustedProcessType::Undefined,
        id: 0,
        parent_id: 0,
        base: no_base(),
        measurements: crate::measurements::no_measurements(),
        context: no_context(),
        mappings: Map::empty(),
        pf_target_vaddr: 0,
    }
}

impl Default for ProcessBaseContext {
    fn default() -> (base: ProcessBaseContext)
        ensures
            base == no_base(),
    {
        ProcessBaseContext {
            page_table_ref: ProcessPageTableRef { process_page_table: 0 },
            entry_point: 0,
            alloc_range: AllocationRange(0, 0),
            alloc_range_manifest: AllocationRange(0, 0),
            alloc_range_libos: AllocationRange(0, 0),
            alloc_range_function: AllocationRange(0, 0),
        }
    }
}

impl Default for ProcessContext {
    fn default() -> (context: ProcessContext)
        ensures
            context == no_context(),
    {
        ProcessContext {
            vmsa: 0,
            sev_features: 0,
            channel: MemoryChannel { input: AllocationRange(0, 0), output: AllocationRange(0, 0) },
            base: ProcessBaseContext::default(),
            measurements: ProcessMeasurements::default(),
            page_table_ref: ProcessPageTableRef { process_page_table: 0 },
        }
    }
}

impl Default for TrustedProcess {
    fn default() -> (process: TrustedProcess)
        ensures
            process@ == no_process(),
    {
        TrustedProcess {
            process_type: TrustedProcessType::Undefined,
            id: 0,
            parent_id: 0,
            base: ProcessBaseContext::default(),
            measurements: ProcessMeasurements::default(),
            context: ProcessContext::default(),
            mmap_manager: MmapManager::new(),
            pf_target_vaddr: 0,
        }
    }
}

/// The slots for processes.
#[derive(Debug)]
pub struct ProcessStore {
    slots: Vec<TrustedProcess>,
}

impl View for ProcessStore {
    type V = Seq<ProcessState>;

    /// The process in each slot.
    closed spec fn view(&self) -> Seq<ProcessState> {
        self.slots@.map_values(|process: TrustedProcess| process@)
    }
}

/// Whether a slot holds no process.
pub open spec fn is_free_slot(slots: Seq<ProcessState>, slot: int) -> bool {
    0 <= slot < slots.len() && slots[slot].process_type == TrustedProcessType::Undefined
}

/// Whether `slot` is the first slot that holds no process.
pub open spec fn is_first_free_slot(slots: Seq<ProcessState>, slot: int) -> bool {
    &&& is_free_slot(slots, slot)
    &&& forall|earlier: int| 0 <= earlier < slot ==> !is_free_slot(slots, earlier)
}

/// Whether some slot holds no process.
pub open spec fn has_free_slot(slots: Seq<ProcessState>) -> bool {
    exists|slot: int| is_free_slot(slots, slot)
}

/// The first slot that holds no process, -1 where there is none.
pub open spec fn slot_for(slots: Seq<ProcessState>) -> int {
    if exists|slot: int| is_first_free_slot(slots, slot) {
        choose|slot: int| is_first_free_slot(slots, slot)
    } else {
        -1
    }
}

/// The slots with a process put into the first that holds none.
pub open spec fn with_process(slots: Seq<ProcessState>, process: ProcessState) -> Seq<
    ProcessState,
> {
    if slot_for(slots) >= 0 {
        slots.update(slot_for(slots), process)
    } else {
        slots
    }
}

/// Where some slot is free, one is the first, and `slot_for` gives it.
pub proof fn lemma_slot_for(slots: Seq<ProcessState>)
    ensures
        has_free_slot(slots) ==> is_first_free_slot(slots, slot_for(slots)),
        !has_free_slot(slots) ==> slot_for(slots) == -1,
{
    if has_free_slot(slots) {
        let slot = choose|slot: int| is_free_slot(slots, slot);
        lemma_first_slot_up_to(slots, slot);
    }
}

proof fn lemma_first_slot_up_to(slots: Seq<ProcessState>, slot: int)
    requires
        is_free_slot(slots, slot),
    ensures
        exists|first: int| is_first_free_slot(slots, first),
    decreases slot,
{
    if is_first_free_slot(slots, slot) {
    } else {
        let earlier = choose|earlier: int| 0 <= earlier < slot && is_free_slot(slots, earlier);
        lemma_first_slot_up_to(slots, earlier);
    }
}

/// A first free slot is the one that `slot_for` gives.
proof fn lemma_slot_unique(slots: Seq<ProcessState>, slot: int)
    requires
        is_first_free_slot(slots, slot),
    ensures
        slot_for(slots) == slot,
{
    let chosen = choose|other: int| is_first_free_slot(slots, other);
    assert(is_first_free_slot(slots, chosen));
    if chosen < slot {
        assert(!is_free_slot(slots, chosen));
    } else if slot < chosen {
        assert(!is_free_slot(slots, slot));
    }
}

impl ProcessStore {
    /// The number of a slot always fits a signed register.
    #[verifier::type_invariant]
    spec fn numbered(self) -> bool {
        self.slots@.len() <= u32::MAX
    }

    /// No slots.
    pub fn new() -> (store: ProcessStore)
        ensures
            store@ == Seq::<ProcessState>::empty(),
    {
        let store = ProcessStore { slots: Vec::new() };
        assert(store@ =~= Seq::<ProcessState>::empty());
        store
    }

    /// Makes `size` slots, none of which holds a process.
    pub fn init(&mut self, size: u32)
        ensures
            final(self)@ == Seq::new(size as nat, |i: int| no_process()),
    {
        let mut slots: Vec<TrustedProcess> = Vec::new();
        let mut i: u32 = 0;
        while i < size
            invariant
                i <= size,
                slots@.len() == i,
                forall|k: int| 0 <= k < i ==> (#[trigger] slots@[k])@ == no_process(),
            decreases size - i,
        {
            slots.push(TrustedProcess::default());
            i += 1;
        }
        self.slots = slots;
        assert(self@ =~= Seq::new(size as nat, |i: int| no_process()));
    }

    /// How many slots there are.
    pub fn len(&self) -> (len: usize)
        ensures
            len == self@.len(),
    {
        self.slots.len()
    }

    /// The name of the process in the slot of that number.
    pub fn id_of(&self, number: u64) -> (id: ProcessID)
        requires
            number < self@.len(),
        ensures
            id.0 == number,
    {
        proof {
            use_type_invariant(self);
        }
        ProcessID(number as usize)
    }

    /// The process of that name.
    pub fn get(&self, id: ProcessID) -> (process: &TrustedProcess)
        requires
            id.0 < self@.len(),
        ensures
            process@ == self@[id.0 as int],
    {
        &self.slots[id.0]
    }

    /// Puts a process into a slot and gives out the one that was there.
    pub fn replace(&mut self, id: ProcessID, process: TrustedProcess) -> (previous: TrustedProcess)
        requires
            id.0 < old(self)@.len(),
        ensures
            previous@ == old(self)@[id.0 as int],
            final(self)@ == old(self)@.update(id.0 as int, process@),
    {
        proof {
            use_type_invariant(&*self);
        }
        let ghost state = process@;
        let mut process = process;
        let mut slots: Vec<TrustedProcess> = Vec::new();
        core::mem::swap(&mut slots, &mut self.slots);
        core::mem::swap(&mut slots[id.0], &mut process);
        self.slots = slots;
        assert(self@ =~= old(self)@.update(id.0 as int, state));
        process
    }

    /// Whether some slot holds no process.
    pub fn has_room(&self) -> (room: bool)
        ensures
            room == has_free_slot(self@),
    {
        let mut i: usize = 0;
        while i < self.slots.len()
            invariant
                i <= self.slots.len(),
                self.slots@.len() == self@.len(),
                forall|k: int| 0 <= k < i ==> !is_free_slot(self@, k),
            decreases self.slots.len() - i,
        {
            if self.slots[i].process_type == TrustedProcessType::Undefined {
                assert(is_free_slot(self@, i as int));
                return true;
            }
            i += 1;
        }
        false
    }

    /// Puts a process into the first slot that holds none, and gives the number of the slot, or
    /// -1 where every slot holds a process.
    pub fn insert(&mut self, process: TrustedProcess) -> (slot: i64)
        ensures
            slot == slot_for(old(self)@),
            final(self)@ == with_process(old(self)@, process@),
            -1 <= slot < old(self)@.len(),
    {
        proof {
            use_type_invariant(&*self);
        }
        let mut i: usize = 0;
        while i < self.slots.len()
            invariant
                i <= self.slots.len(),
                self@ == old(self)@,
                self.slots@.len() == self@.len(),
                self.slots@.len() <= u32::MAX,
                forall|k: int| 0 <= k < i ==> !is_free_slot(self@, k),
            decreases self.slots.len() - i,
        {
            if self.slots[i].process_type == TrustedProcessType::Undefined {
                proof {
                    assert(is_first_free_slot(self@, i as int));
                    lemma_slot_unique(self@, i as int);
                }
                self.replace(ProcessID(i), process);
                return i as i64;
            }
            i += 1;
        }
        proof {
            lemma_slot_for(self@);
        }
        -1
    }

    /// Empties a slot and gives out the process that was there, whose memory is to be freed.
    pub fn delete(&mut self, id: ProcessID) -> (process: TrustedProcess)
        requires
            id.0 < old(self)@.len(),
        ensures
            process@ == old(self)@[id.0 as int],
            final(self)@ == old(self)@.update(id.0 as int, no_process()),
    {
        self.replace(id, TrustedProcess::default())
    }
}

} // verus!
