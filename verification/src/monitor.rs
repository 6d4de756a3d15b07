//! The state of the monitor.
use vstd::prelude::*;

use crate::attestation::ReportStore;
use crate::exception_handling::TrustletTables;
use crate::layout::MemoryLayout;
use crate::mpk_memory::{MpkManagers, MpkState};
use crate::process;
use crate::process::{ProcessState, ProcessStore, PROCESS_STORE_SIZE};
use crate::protocol::Features;
use crate::stats::Stats;

verus! {

/// All that the monitor knows.
#[derive(Debug)]
pub struct Monitor {
    /// Whether it was set up.
    pub initialized: bool,
    /// The processes.
    pub store: ProcessStore,
    /// The protection keys of the processes.
    pub mpk: MpkManagers,
    /// The counters.
    pub stats: Stats,
    /// The report of the secure processor.
    pub reports: ReportStore,
    /// The tables of the trustlets.
    pub tables: TrustletTables,
    /// How it was built.
    pub features: Features,
    /// Where things lie in memory.
    pub layout: MemoryLayout,
}

/// All that the monitor knows, with its collections as mathematical ones.
#[verifier::ext_equal]
pub struct MonitorState {
    pub initialized: bool,
    pub slots: Seq<ProcessState>,
    pub mpk: Map<u64, MpkState>,
    pub stats: Stats,
    pub kept: Option<Seq<u8>>,
    pub tables: TrustletTables,
    pub features: Features,
    pub layout: MemoryLayout,
}

impl View for Monitor {
    type V = MonitorState;

    open spec fn view(&self) -> MonitorState {
        MonitorState {
            initialized: self.initialized,
            slots: self.store@,
            mpk: self.mpk@,
            stats: self.stats,
            kept: self.reports@,
            tables: self.tables,
            features: self.features,
            layout: self.layout,
        }
    }
}

/// What is done outside when the monitor is set up.
#[derive(Clone, Copy, Debug, PartialEq, Eq, Structural)]
pub struct InitActions {
    /// The mask of encrypted addresses is found.
    pub set_encryption_mask: bool,
    /// The monitor gets more memory.
    pub add_memory: bool,
    /// The memory is put to the test.
    pub bench_memory: bool,
    /// Memory is set aside.
    pub preallocate: bool,
}

impl Monitor {
    /// A monitor that was not set up yet.
    pub fn new(tables: TrustletTables, features: Features, layout: MemoryLayout) -> (monitor:
        Monitor)
        ensures
            monitor@ == (MonitorState {
                initialized: false,
                slots: Seq::empty(),
                mpk: Map::empty(),
                stats: Stats {
                    pvalidate: 0,
                    page_faults: 0,
                    cow: 0,
                    cow_pages: 0,
                    non_cow_pages: 0,
                },
                kept: None,
                tables,
                features,
                layout,
            }),
    {
        Monitor {
            initialized: false,
            store: ProcessStore::new(),
            mpk: MpkManagers::new(),
            stats: Stats {
                pvalidate: 0,
                page_faults: 0,
                cow: 0,
                cow_pages: 0,
                non_cow_pages: 0,
            },
            reports: ReportStore::new(),
            tables,
            features,
            layout,
        }
    }
}

/// The monitor after it was set up: the first time, it gets slots for its processes.
pub open spec fn monitor_ready(before: MonitorState) -> MonitorState {
    if before.initialized {
        before
    } else {
        MonitorState {
            initialized: true,
            slots: Seq::new(PROCESS_STORE_SIZE as nat, |i: int| process::no_process()),
            ..before
        }
    }
}

/// What is done outside when the monitor is set up: it gets more memory every time, and the rest
/// is done the first time only.
pub open spec fn init_actions(initialized: bool, bench_mem: bool, prealloc: bool) -> InitActions {
    InitActions {
        set_encryption_mask: !initialized,
        add_memory: true,
        bench_memory: !initialized && bench_mem,
        preallocate: !initialized && prealloc,
    }
}

/// Sets the monitor up.  Every processor does so, and only the first time counts.
pub fn monitor_init(monitor: &mut Monitor, bench_mem: bool, prealloc: bool) -> (actions:
    InitActions)
    ensures
        final(monitor)@ == monitor_ready(old(monitor)@),
        actions == init_actions(old(monitor)@.initialized, bench_mem, prealloc),
{
    if monitor.initialized {
        return InitActions {
            set_encryption_mask: false,
            add_memory: true,
            bench_memory: false,
            preallocate: false,
        };
    }
    monitor.store.init(PROCESS_STORE_SIZE);
    monitor.initialized = true;
    InitActions {
        set_encryption_mask: true,
        add_memory: true,
        bench_memory: bench_mem,
        preallocate: prealloc,
    }
}

/// Once the monitor was set up, setting it up again loses no process and forgets nothing.
pub proof fn law_second_init_changes_nothing(before: MonitorState)
    ensures
        monitor_ready(before).initialized,
        before.initialized ==> monitor_ready(before) == before,
{
}

} // verus!
