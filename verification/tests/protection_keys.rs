use trustlet_monitor::effects::Effect;
use trustlet_monitor::mpk_memory::{
    get_allocated_pkey_count, get_allocation_count, get_process_count, mpk_alloc_memory,
    mpk_free_memory, mpk_free_pkey, mpk_has_memory, mpk_pkey_alloc_only, MpkManagers,
    PkeyAllocator, MPK_IN_USE, MPK_NOT_FOUND, MPK_NO_PKEY, MPK_SIZE_MISMATCH,
};
use trustlet_monitor::page::{FlagBase, ProcessPageFlags};
use trustlet_monitor::pkru::{
    enter_domain, exit_domain, INITIAL_PKRU, PKRU_INVALID_PKEY, PKRU_OTHER_DOMAIN_OPEN,
};

const CR3: u64 = 0x1000;
const OTHER: u64 = 0x2000;

#[test]
fn keys_come_in_order_and_run_out() {
    let mut managers = MpkManagers::new();
    for expected in 1..16u32 {
        assert_eq!(mpk_pkey_alloc_only(&mut managers, CR3), Ok(expected));
    }
    assert_eq!(mpk_pkey_alloc_only(&mut managers, CR3), Err(MPK_NO_PKEY));
    assert_eq!(MPK_NO_PKEY, 6);
    assert_eq!(get_allocated_pkey_count(&managers, CR3), 15);
}

#[test]
fn the_lowest_free_key_comes_first() {
    let mut allocator = PkeyAllocator::new();
    assert_eq!(allocator.allocate(), Some(1));
    assert_eq!(allocator.allocate(), Some(2));
    assert_eq!(allocator.allocate(), Some(3));
    allocator.free(2);
    assert_eq!(allocator.count(), 2);
    assert_eq!(allocator.allocate(), Some(2));
    assert_eq!(allocator.allocate(), Some(4));
}

#[test]
fn key_zero_is_never_freed() {
    let mut allocator = PkeyAllocator::new();
    allocator.free(0);
    allocator.free(16);
    allocator.free(u32::MAX);
    assert_eq!(allocator.count(), 0);
    assert_eq!(allocator.allocate(), Some(1));
}

#[test]
fn processes_have_keys_of_their_own() {
    let mut managers = MpkManagers::new();
    assert_eq!(mpk_pkey_alloc_only(&mut managers, CR3), Ok(1));
    assert_eq!(mpk_pkey_alloc_only(&mut managers, OTHER), Ok(1));
    assert_eq!(mpk_pkey_alloc_only(&mut managers, CR3), Ok(2));
    assert_eq!(get_process_count(&managers), 2);
    assert_eq!(get_allocated_pkey_count(&managers, CR3), 2);
    assert_eq!(get_allocated_pkey_count(&managers, OTHER), 1);
    assert_eq!(get_allocated_pkey_count(&managers, 0x3000), 0);
}

#[test]
fn memory_is_mapped_with_its_key() {
    let mut managers = MpkManagers::new();
    let mut effects: Vec<Effect> = Vec::new();
    let result = mpk_alloc_memory(&mut managers, CR3, 0x10000, 0x3000, 5, &mut effects);
    assert_eq!(result, Ok(()));
    assert_eq!(
        effects,
        vec![Effect::AddPages {
            cr3: CR3,
            vaddr: 0x10000,
            pages: 3,
            flags: ProcessPageFlags::of(FlagBase::DataWithPkey(5)),
        }]
    );
    assert_eq!(get_allocation_count(&managers, CR3), 1);
    assert_eq!(get_allocation_count(&managers, OTHER), 0);
}

#[test]
fn a_second_allocation_at_an_address_is_refused() {
    let mut managers = MpkManagers::new();
    let mut effects: Vec<Effect> = Vec::new();
    assert_eq!(mpk_alloc_memory(&mut managers, CR3, 0x10000, 0x1000, 1, &mut effects), Ok(()));
    let before = effects.len();
    let second = mpk_alloc_memory(&mut managers, CR3, 0x10000, 0x2000, 2, &mut effects);
    assert_eq!(second, Err(MPK_IN_USE));
    assert_eq!(MPK_IN_USE, 3);
    assert_eq!(effects.len(), before);
    assert_eq!(mpk_alloc_memory(&mut managers, OTHER, 0x10000, 0x2000, 2, &mut effects), Ok(()));
}

#[test]
fn freed_memory_loses_its_key_page_by_page() {
    let mut managers = MpkManagers::new();
    let mut effects: Vec<Effect> = Vec::new();
    assert_eq!(mpk_pkey_alloc_only(&mut managers, CR3), Ok(1));
    assert_eq!(mpk_alloc_memory(&mut managers, CR3, 0x10000, 0x2000, 1, &mut effects), Ok(()));
    assert!(mpk_has_memory(&managers, CR3, 0x10000, 0x2000));
    effects.clear();
    assert_eq!(mpk_free_memory(&mut managers, CR3, 0x10000, 0x2000, &mut effects), Ok(()));
    assert_eq!(
        effects,
        vec![
            Effect::ClearPkey { cr3: CR3, vaddr: 0x10000 },
            Effect::ClearPkey { cr3: CR3, vaddr: 0x11000 },
            Effect::RemovePages { cr3: CR3, vaddr: 0x10000, pages: 2 },
        ]
    );
    assert!(!mpk_has_memory(&managers, CR3, 0x10000, 0x2000));
    assert_eq!(get_allocation_count(&managers, CR3), 0);
    assert_eq!(get_allocated_pkey_count(&managers, CR3), 1);
}

#[test]
fn memory_that_is_not_there_is_not_freed() {
    let mut managers = MpkManagers::new();
    let mut effects: Vec<Effect> = Vec::new();
    let unknown = mpk_free_memory(&mut managers, CR3, 0x10000, 0x1000, &mut effects);
    assert_eq!(unknown, Err(MPK_NOT_FOUND));
    assert_eq!(MPK_NOT_FOUND, 2);
    assert_eq!(mpk_alloc_memory(&mut managers, CR3, 0x10000, 0x1000, 1, &mut effects), Ok(()));
    let elsewhere = mpk_free_memory(&mut managers, CR3, 0x20000, 0x1000, &mut effects);
    assert_eq!(elsewhere, Err(MPK_NOT_FOUND));
    let larger = mpk_free_memory(&mut managers, CR3, 0x10000, 0x2000, &mut effects);
    assert_eq!(larger, Err(MPK_SIZE_MISMATCH));
    assert_eq!(MPK_SIZE_MISMATCH, 4);
    assert_eq!(effects.len(), 1);
    assert_eq!(get_allocation_count(&managers, CR3), 1);
}

#[test]
fn a_key_is_freed_with_or_without_memory() {
    let mut managers = MpkManagers::new();
    let mut effects: Vec<Effect> = Vec::new();
    assert_eq!(mpk_pkey_alloc_only(&mut managers, CR3), Ok(1));
    assert_eq!(mpk_pkey_alloc_only(&mut managers, CR3), Ok(2));
    assert_eq!(mpk_alloc_memory(&mut managers, CR3, 0x10000, 0x1000, 1, &mut effects), Ok(()));
    effects.clear();
    assert_eq!(mpk_free_pkey(&mut managers, 2, CR3, 0, 0, &mut effects), Ok(()));
    assert_eq!(effects, vec![]);
    assert_eq!(get_allocated_pkey_count(&managers, CR3), 1);
    assert_eq!(mpk_free_pkey(&mut managers, 1, CR3, 0x10000, 0x1000, &mut effects), Ok(()));
    assert_eq!(effects.len(), 2);
    assert_eq!(get_allocated_pkey_count(&managers, CR3), 0);
    assert_eq!(get_allocation_count(&managers, CR3), 0);
    assert_eq!(mpk_pkey_alloc_only(&mut managers, CR3), Ok(1));
}

#[test]
fn a_key_stays_when_its_memory_cannot_be_freed() {
    let mut managers = MpkManagers::new();
    let mut effects: Vec<Effect> = Vec::new();
    assert_eq!(mpk_pkey_alloc_only(&mut managers, CR3), Ok(1));
    let result = mpk_free_pkey(&mut managers, 1, CR3, 0x10000, 0x1000, &mut effects);
    assert_eq!(result, Err(MPK_NOT_FOUND));
    assert_eq!(get_allocated_pkey_count(&managers, CR3), 1);
    assert_eq!(mpk_free_pkey(&mut managers, 1, OTHER, 0, 0x1000, &mut effects), Ok(()));
    assert_eq!(get_process_count(&managers), 1);
}

#[test]
fn entering_a_domain_clears_its_two_bits() {
    assert_eq!(enter_domain(INITIAL_PKRU, 1), Ok(0x5555_5550));
    assert_eq!(enter_domain(INITIAL_PKRU, 2), Ok(0x5555_5544));
    assert_eq!(enter_domain(INITIAL_PKRU, 15), Ok(0x1555_5554));
    assert_eq!(enter_domain(0x5555_5550, 1), Ok(0x5555_5550));
}

#[test]
fn leaving_a_domain_disables_access() {
    assert_eq!(exit_domain(0x5555_5550, 1), Ok(INITIAL_PKRU));
    assert_eq!(exit_domain(INITIAL_PKRU, 7), Ok(INITIAL_PKRU));
    assert_eq!(exit_domain(0x1555_5554, 15), Ok(INITIAL_PKRU));
}

#[test]
fn one_domain_at_a_time() {
    let entered = enter_domain(INITIAL_PKRU, 3).unwrap();
    assert_eq!(enter_domain(entered, 4), Err(PKRU_OTHER_DOMAIN_OPEN));
    assert_eq!(PKRU_OTHER_DOMAIN_OPEN, 8);
    let left = exit_domain(entered, 3).unwrap();
    assert_eq!(enter_domain(left, 4), Ok(0x5555_5454));
    assert_eq!(enter_domain(0, 1), Err(PKRU_OTHER_DOMAIN_OPEN));
}

#[test]
fn only_the_keys_of_a_process_have_domains() {
    assert_eq!(enter_domain(INITIAL_PKRU, 0), Err(PKRU_INVALID_PKEY));
    assert_eq!(enter_domain(INITIAL_PKRU, 16), Err(PKRU_INVALID_PKEY));
    assert_eq!(exit_domain(INITIAL_PKRU, 0), Err(PKRU_INVALID_PKEY));
    assert_eq!(exit_domain(INITIAL_PKRU, 16), Err(PKRU_INVALID_PKEY));
    assert_eq!(PKRU_INVALID_PKEY, 7);
}
