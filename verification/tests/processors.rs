use trustlet_monitor::smp::{start_ap, start_secondary_cpus, ACPICPUInfo, ApRole};

fn cpu(apic_id: u32, enabled: bool) -> ACPICPUInfo {
    ACPICPUInfo { apic_id, enabled }
}

#[test]
fn usable_processors_are_started_in_order() {
    let cpus = [cpu(0, true), cpu(3, true), cpu(1, false), cpu(2, true), cpu(5, true)];
    let started = start_secondary_cpus(&cpus, 8);
    assert_eq!(started.apic_ids, vec![3, 2, 5]);
    assert_eq!(started.runners, 3);
}

#[test]
fn there_is_a_limit_to_the_runners() {
    let cpus = [cpu(1, true), cpu(2, true), cpu(3, true)];
    assert_eq!(start_secondary_cpus(&cpus, 2).runners, 2);
    assert_eq!(start_secondary_cpus(&cpus, 2).apic_ids.len(), 3);
    assert_eq!(start_secondary_cpus(&cpus, 0).runners, 0);
}

#[test]
fn a_single_processor_starts_nothing() {
    let started = start_secondary_cpus(&[cpu(0, true)], 4);
    assert_eq!(started.apic_ids, Vec::<u32>::new());
    assert_eq!(started.runners, 0);
    assert_eq!(start_secondary_cpus(&[], 4).runners, 0);
}

#[test]
fn the_first_processor_serves_requests() {
    assert_eq!(start_ap(0), ApRole::RequestHandler);
    assert_eq!(start_ap(1), ApRole::ThreadRunner);
    assert_eq!(start_ap(u32::MAX), ApRole::ThreadRunner);
}
