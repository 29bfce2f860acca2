//! The memory bus.

use nes_emulator::bus::Bus;

#[test]
fn a_new_bus_is_all_zero() {
    let bus = Bus::new();
    assert_eq!(bus.read(0x0000, true), 0);
    assert_eq!(bus.read(0x1234, true), 0);
    assert_eq!(bus.read(0xFFFF, true), 0);
    assert!(bus.get_ram(0, 0x10000).iter().all(|byte| *byte == 0));
}

#[test]
fn a_write_is_read_back_and_touches_nothing_else() {
    let mut bus = Bus::new();
    bus.write(0x1234, 0xAB);
    assert_eq!(bus.read(0x1234, false), 0xAB);
    assert_eq!(bus.read(0x1233, false), 0);
    assert_eq!(bus.read(0x1235, false), 0);
    // No mirroring: the same offset in other pages is untouched.
    assert_eq!(bus.read(0x0234, false), 0);
    assert_eq!(bus.read(0x9234, false), 0);
}

#[test]
fn the_last_write_to_an_address_stays() {
    let mut bus = Bus::new();
    bus.write(0x0010, 1);
    bus.write(0x0010, 2);
    assert_eq!(bus.read(0x0010, false), 2);
}

#[test]
fn every_address_is_valid() {
    let mut bus = Bus::new();
    bus.write(0x0000, 0x11);
    bus.write(0xFFFF, 0x22);
    assert_eq!(bus.read(0x0000, false), 0x11);
    assert_eq!(bus.read(0xFFFF, false), 0x22);
}

#[test]
fn reading_does_not_depend_on_the_read_only_flag_and_changes_nothing() {
    let mut bus = Bus::new();
    bus.write(0x4000, 0x5A);
    assert_eq!(bus.read(0x4000, true), bus.read(0x4000, false));
    assert_eq!(bus.read(0x4000, false), 0x5A);
    assert_eq!(bus.read(0x4000, true), 0x5A);
}

#[test]
fn get_ram_copies_a_contiguous_range() {
    let mut bus = Bus::new();
    bus.write(0x0200, 1);
    bus.write(0x0201, 2);
    bus.write(0x0202, 3);
    assert_eq!(bus.get_ram(0x0200, 3), vec![1, 2, 3]);
    assert_eq!(bus.get_ram(0x01FF, 5), vec![0, 1, 2, 3, 0]);
    assert_eq!(bus.get_ram(0x0201, 0), Vec::<u8>::new());
}

#[test]
fn get_ram_reaches_the_top_of_memory() {
    let mut bus = Bus::new();
    bus.write(0xFFFE, 0xAA);
    bus.write(0xFFFF, 0xBB);
    assert_eq!(bus.get_ram(0xFFFE, 2), vec![0xAA, 0xBB]);
    assert_eq!(bus.get_ram(0x0000, 0x10000).len(), 0x10000);
}
