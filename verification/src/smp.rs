//! The processors besides the first one.
use vstd::prelude::*;

verus! {

/// The first processor that runs threads of trustlets.
pub const THREAD_RUNNER_BASE_APIC: u32 = 1;

/// A processor that the firmware knows of.
#[derive(Clone, Copy, Debug, PartialEq, Eq, Structural)]
pub struct ACPICPUInfo {
    /// Its number.
    pub apic_id: u32,
    /// Whether it can be used.
    pub enabled: bool,
}

/// Whether a processor is to be started: it can be used, and it is not the one that runs already.
pub open spec fn is_secondary(cpu: ACPICPUInfo) -> bool {
    cpu.apic_id != 0 && cpu.enabled
}

/// The numbers of the processors that are to be started.
pub open spec fn secondary_ids(cpus: Seq<ACPICPUInfo>) -> Seq<u32> {
    cpus.filter(|cpu: ACPICPUInfo| is_secondary(cpu)).map_values(|cpu: ACPICPUInfo| cpu.apic_id)
}

/// What is to be started.
#[derive(Debug)]
pub struct SecondaryCpus {
    /// The numbers of the processors, in the order in which they are started.
    pub apic_ids: Vec<u32>,
    /// How many of them run threads of trustlets.
    pub runners: usize,
}

/// How many of `count` processors run threads of trustlets.
pub open spec fn runner_count(count: nat, max_thread_runners: usize) -> nat {
    if count < max_thread_runners {
        count
    } else {
        max_thread_runners as nat
    }
}

/// Finds the processors that are to be started.  At most `max_thread_runners` of them run threads
/// of trustlets.
pub fn start_secondary_cpus(cpus: &[ACPICPUInfo], max_thread_runners: usize) -> (started:
    SecondaryCpus)
    ensures
        started.apic_ids@ == secondary_ids(cpus@),
        started.runners == if started.apic_ids@.len() < max_thread_runners {
            started.apic_ids@.len()
        } else {
            max_thread_runners as nat
        },
        started.runners == runner_count(started.apic_ids@.len(), max_thread_runners),
{
    let ghost chosen = |cpu: ACPICPUInfo| is_secondary(cpu);
    let ghost number = |cpu: ACPICPUInfo| cpu.apic_id;
    let mut apic_ids: Vec<u32> = Vec::new();
    let mut i: usize = 0;
    while i < cpus.len()
        invariant
            i <= cpus@.len(),
            chosen == (|cpu: ACPICPUInfo| is_secondary(cpu)),
            number == (|cpu: ACPICPUInfo| cpu.apic_id),
            apic_ids@ == cpus@.take(i as int).filter(chosen).map_values(number),
        decreases cpus@.len() - i,
    {
        let cpu = cpus[i];
        proof {
            let before = cpus@.take(i as int);
            let after = cpus@.take(i + 1);
            reveal(Seq::filter);
            assert(after.drop_last() =~= before);
            assert(after.filter(chosen).map_values(number) =~= if is_secondary(cpu) {
                before.filter(chosen).map_values(number).push(cpu.apic_id)
            } else {
                before.filter(chosen).map_values(number)
            });
        }
        if cpu.apic_id != 0 && cpu.enabled {
            apic_ids.push(cpu.apic_id);
        }
        i += 1;
    }
    assert(cpus@.take(i as int) =~= cpus@);
    let count = apic_ids.len();
    let runners = if count < max_thread_runners {
        count
    } else {
        max_thread_runners
    };
    SecondaryCpus { apic_ids, runners }
}

/// What a processor does once it is there.
#[derive(Clone, Copy, Debug, PartialEq, Eq, Structural)]
pub enum ApRole {
    /// It runs threads of trustlets.
    ThreadRunner,
    /// It serves requests of the guest.
    RequestHandler,
}

/// What the processor of a number does once it is there.
pub open spec fn role_of(apic_id: u32) -> ApRole {
    if apic_id == 0 {
        ApRole::RequestHandler
    } else {
        ApRole::ThreadRunner
    }
}

/// What a processor does once it is there.
pub fn start_ap(apic_id: u32) -> (role: ApRole)
    ensures
        role == if apic_id == 0 {
            ApRole::RequestHandler
        } else {
            ApRole::ThreadRunner
        },
        role == role_of(apic_id),
{
    if apic_id >= THREAD_RUNNER_BASE_APIC {
        ApRole::ThreadRunner
    } else {
        ApRole::RequestHandler
    }
}

/// No processor is started that runs already or that cannot be used, and every other one is.
pub proof fn law_every_usable_cpu_is_started(cpus: Seq<ACPICPUInfo>, apic_id: u32)
    ensures
        secondary_ids(cpus).contains(apic_id) <==> exists|i: int|
            0 <= i < cpus.len() && (#[trigger] cpus[i]).apic_id == apic_id && is_secondary(cpus[i]),
{
    let chosen = |cpu: ACPICPUInfo| is_secondary(cpu);
    let kept = cpus.filter(chosen);
    if secondary_ids(cpus).contains(apic_id) {
        let k = choose|k: int|
            0 <= k < secondary_ids(cpus).len() && secondary_ids(cpus)[k] == apic_id;
        cpus.lemma_filter_contains_rev(chosen, kept[k]);
        cpus.lemma_filter_pred(chosen, k);
    }
    if exists|i: int|
        0 <= i < cpus.len() && (#[trigger] cpus[i]).apic_id == apic_id && is_secondary(cpus[i]) {
        let i = choose|i: int|
            0 <= i < cpus.len() && (#[trigger] cpus[i]).apic_id == apic_id && is_secondary(cpus[i]);
        cpus.lemma_filter_contains(chosen, i);
        let k = choose|k: int| 0 <= k < kept.len() && kept[k] == cpus[i];
        assert(secondary_ids(cpus)[k] == apic_id);
    }
}

} // verus!
