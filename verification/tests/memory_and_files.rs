use trustlet_monitor::bytes::{read_u16, read_u32, read_u64};
use trustlet_monitor::input::{can_find_module, find_module};
use trustlet_monitor::measurements::{measure, Measurement, ProcessMeasurements, MAX_WASM_MODULES};
use trustlet_monitor::mmap::{MmapInfo, MmapManager, RangeWrapper};
use trustlet_monitor::page::{
    page_offset_of, page_start_of, pgd_index, FlagBase, ProcessPageFlags, NO_EXECUTE, PRESENT,
    USER_ACCESSIBLE, WRITABLE,
};
use trustlet_monitor::stats::count_one;

#[test]
fn ranges_are_ordered_by_start_and_then_by_end() {
    let a = RangeWrapper { start: 1, end: 3 };
    let b = RangeWrapper { start: 2, end: 4 };
    let c = RangeWrapper { start: 2, end: 5 };
    let d = RangeWrapper { start: 3, end: 4 };
    assert!(a < b && b < c && c < d);
    assert!(!(c < b));
    assert_eq!(a.cmp(&d), std::cmp::Ordering::Less);
    assert_eq!(c.cmp(&b), std::cmp::Ordering::Greater);
    assert_eq!(b.cmp(&b), std::cmp::Ordering::Equal);
}

#[test]
fn a_mapping_is_found_inside_its_range_only() {
    let mut manager = MmapManager::new();
    assert_eq!(manager.lookup(0x1000), None);
    manager.add_mapping(0x1000, 0x2000, 5, 0x4000);
    let info = MmapInfo { fd: 5, offset: 0x4000, addr: 0x1000, size: 0x2000 };
    assert_eq!(manager.lookup(0xfff), None);
    assert_eq!(manager.lookup(0x1000), Some(&info));
    assert_eq!(manager.lookup(0x2fff), Some(&info));
    assert_eq!(manager.lookup(0x3000), None);
}

#[test]
fn the_last_range_in_the_order_wins() {
    let mut manager = MmapManager::new();
    manager.add_mapping(0x2000, 0x3000, 1, 0);
    manager.add_mapping(0x1000, 0x9000, 2, 0);
    manager.add_mapping(0x2000, 0x2000, 3, 0);
    assert_eq!(manager.lookup(0x2800).unwrap().fd, 1);
    assert_eq!(manager.lookup(0x4800).unwrap().fd, 1);
    assert_eq!(manager.lookup(0x1800).unwrap().fd, 2);
    assert_eq!(manager.lookup(0x6000).unwrap().fd, 2);
}

#[test]
fn a_mapping_of_the_same_range_takes_the_place_of_the_first() {
    let mut manager = MmapManager::new();
    manager.add_mapping(0x1000, 0x1000, 1, 0);
    manager.add_mapping(0x1000, 0x1000, -1, 0x8000);
    let info = manager.lookup(0x1234).unwrap();
    assert_eq!((info.fd, info.offset), (-1, 0x8000));
    let copy = manager.clone();
    assert_eq!(copy.lookup(0x1234).unwrap().fd, -1);
}

#[test]
fn a_new_mapping_leaves_other_addresses_alone() {
    let mut manager = MmapManager::new();
    manager.add_mapping(0x1000, 0x4000, 1, 0);
    manager.add_mapping(0x2000, 0x1000, 2, 0);
    assert_eq!(manager.lookup(0x1fff).unwrap().fd, 1);
    assert_eq!(manager.lookup(0x2000).unwrap().fd, 2);
    assert_eq!(manager.lookup(0x3000).unwrap().fd, 1);
}

#[test]
fn an_empty_mapping_contains_nothing() {
    let mut manager = MmapManager::new();
    manager.add_mapping(0x1000, 0, 1, 0);
    assert_eq!(manager.lookup(0x1000), None);
}

#[test]
fn flags_are_added_and_taken_away() {
    let flags = ProcessPageFlags::of(FlagBase::Data).with(WRITABLE | USER_ACCESSIBLE);
    assert_eq!(flags.bits(PRESENT), PRESENT | WRITABLE | USER_ACCESSIBLE);
    assert_eq!(flags.without(WRITABLE).bits(PRESENT | WRITABLE), PRESENT | USER_ACCESSIBLE);
    assert_eq!(flags.without(WRITABLE).with(WRITABLE).bits(0), WRITABLE | USER_ACCESSIBLE);
    assert_eq!(ProcessPageFlags::of(FlagBase::Empty).with(NO_EXECUTE).bits(0), 1 << 63);
}

#[test]
fn addresses_have_a_page_and_an_offset() {
    assert_eq!(page_start_of(0x12345), 0x12000);
    assert_eq!(page_offset_of(0x12345), 0x345);
    assert_eq!(page_start_of(u64::MAX), u64::MAX - 0xfff);
    assert_eq!(page_offset_of(0x12000), 0);
}

#[test]
fn the_top_level_index_is_bits_39_to_47() {
    assert_eq!(pgd_index(0), 0);
    assert_eq!(pgd_index((1 << 39) - 1), 0);
    assert_eq!(pgd_index(1 << 39), 1);
    assert_eq!(pgd_index(511 << 39), 511);
    assert_eq!(pgd_index(1 << 48), 0);
}

#[test]
fn numbers_begin_with_the_least_byte() {
    let bytes: [u8; 11] = [0xff, 1, 2, 3, 4, 5, 6, 7, 8, 9, 10];
    assert_eq!(read_u16(&bytes, 1), 0x0201);
    assert_eq!(read_u32(&bytes, 1), 0x0403_0201);
    assert_eq!(read_u64(&bytes, 1), 0x0807_0605_0403_0201);
    assert_eq!(read_u64(&[0xff; 8], 0), u64::MAX);
}

fn header(wasm_size: u32, name_len: u32, argc: u16) -> Vec<u8> {
    let mut header: Vec<u8> = Vec::new();
    header.extend_from_slice(&wasm_size.to_le_bytes());
    header.extend_from_slice(&name_len.to_le_bytes());
    header.extend_from_slice(&argc.to_le_bytes());
    header.extend_from_slice(&[0, 0]);
    header
}

#[test]
fn a_module_lies_behind_the_name_and_the_arguments() {
    assert_eq!(find_module(0x10_0000, &header(100, 4, 0)), Some((0x10_0010, 100)));
    assert_eq!(find_module(0x10_0000, &header(100, 5, 0)), Some((0x10_0014, 100)));
    assert_eq!(find_module(0x10_0000, &header(100, 8, 3)), Some((0x10_0020, 100)));
    assert_eq!(find_module(0, &header(1, 0, 0)), Some((12, 1)));
}

#[test]
fn an_input_may_have_no_module() {
    assert_eq!(find_module(0x10_0000, &header(0, 4, 2)), None);
    assert_eq!(find_module(u64::MAX, &header(0, u32::MAX, u16::MAX)), None);
    assert!(can_find_module(u64::MAX, &header(0, u32::MAX, u16::MAX)));
    assert!(can_find_module(u64::MAX - 12, &header(1, 0, 0)));
    assert!(!can_find_module(u64::MAX - 11, &header(1, 0, 0)));
}

#[test]
fn the_largest_name_and_argument_count() {
    let found = find_module(0, &header(u32::MAX, u32::MAX, u16::MAX));
    let offset: u64 = ((12 + u32::MAX as u64 + 3) & !3) + 4 * u16::MAX as u64;
    assert_eq!(found, Some((offset, u32::MAX as u64)));
}

#[test]
fn nothing_is_measured_at_boot_time() {
    assert_eq!(measure(true, 0x1000, 64), Measurement::Known([0; 64]));
    assert_eq!(measure(false, 0x1000, 64), Measurement::Region { start: 0x1000, size: 64 });
}

#[test]
fn fifteen_modules_are_measured() {
    let mut measurements = ProcessMeasurements::default();
    for i in 0..20u8 {
        measurements.record_module([i + 1; 64]);
        measurements.record_env_hash([i + 100; 64]);
    }
    assert_eq!(measurements.wasm_module_count, MAX_WASM_MODULES);
    assert_eq!(measurements.wasm_module_measurements[0], [1; 64]);
    assert_eq!(measurements.wasm_module_measurements[14], [15; 64]);
    assert_eq!(measurements.env_hash[0], [100; 64]);
    assert_eq!(measurements.env_hash[14], [119; 64]);
}

#[test]
fn an_environment_without_a_module_is_the_first_one() {
    let mut measurements = ProcessMeasurements::default();
    measurements.record_env_hash([7; 64]);
    assert_eq!(measurements.env_hash[0], [7; 64]);
    assert_eq!(measurements.env_hash[1], [0; 64]);
    assert_eq!(measurements.wasm_module_count, 0);
}

#[test]
fn counters_wrap() {
    assert_eq!(count_one(0), 1);
    assert_eq!(count_one(u64::MAX), 0);
}
