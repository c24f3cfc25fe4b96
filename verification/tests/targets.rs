use picoboot::{
    Access, Direction, Target, FLASH_END_RP2040, FLASH_END_RP2350, FLASH_START, PAGE_SIZE,
    PICOBOOT_PID_RP2040, PICOBOOT_PID_RP2350, PICOBOOT_VID, SECTOR_SIZE, SRAM_END_RP2040,
    SRAM_END_RP2350, STACK_POINTER_RP2040, STACK_POINTER_RP2350,
};

#[test]
fn pid_of_each_target() {
    assert_eq!(Target::Rp2040.pid(), 0x0003);
    assert_eq!(Target::Rp2350.pid(), 0x000f);
    assert_eq!(Target::Custom { vid: 0x1234, pid: 0x5678 }.pid(), 0x5678);
    assert_eq!(Target::Rp2040.pid(), PICOBOOT_PID_RP2040);
    assert_eq!(Target::Rp2350.pid(), PICOBOOT_PID_RP2350);
}

#[test]
fn vid_of_each_target() {
    assert_eq!(Target::Rp2040.vid(), 0x2E8A);
    assert_eq!(Target::Rp2350.vid(), PICOBOOT_VID);
    assert_eq!(Target::Custom { vid: 0x1234, pid: 0x5678 }.vid(), 0x1234);
}

#[test]
fn custom_target_ids_are_not_swapped() {
    let t = Target::Custom { vid: 0x0001, pid: 0x0002 };
    assert_eq!(t.vid(), 0x0001);
    assert_eq!(t.pid(), 0x0002);
}

#[test]
fn flash_start_is_the_same_for_all_targets() {
    assert_eq!(Target::Rp2040.flash_start(), 0x10000000);
    assert_eq!(Target::Rp2350.flash_start(), FLASH_START);
    assert_eq!(Target::Custom { vid: 1, pid: 2 }.flash_start(), FLASH_START);
}

#[test]
fn flash_end_known_only_for_stock_parts() {
    assert_eq!(Target::Rp2040.flash_end(), Some(0x11000000));
    assert_eq!(Target::Rp2350.flash_end(), Some(0x12000000));
    assert_eq!(Target::Rp2040.flash_end(), Some(FLASH_END_RP2040));
    assert_eq!(Target::Rp2350.flash_end(), Some(FLASH_END_RP2350));
    assert_eq!(Target::Custom { vid: PICOBOOT_VID, pid: 3 }.flash_end(), None);
}

#[test]
fn sector_and_page_sizes() {
    for t in [Target::Rp2040, Target::Rp2350, Target::Custom { vid: 9, pid: 9 }] {
        assert_eq!(t.flash_sector_size(), 4096);
        assert_eq!(t.flash_page_size(), 256);
        assert_eq!(t.flash_sector_size(), SECTOR_SIZE);
        assert_eq!(t.flash_page_size(), PAGE_SIZE);
    }
}

#[test]
fn default_stack_pointer_is_end_of_sram() {
    assert_eq!(Target::Rp2040.default_stack_pointer(), Some(0x20042000));
    assert_eq!(Target::Rp2350.default_stack_pointer(), Some(0x20082000));
    assert_eq!(Target::Rp2040.default_stack_pointer(), Some(SRAM_END_RP2040));
    assert_eq!(Target::Rp2350.default_stack_pointer(), Some(SRAM_END_RP2350));
    assert_eq!(STACK_POINTER_RP2040, SRAM_END_RP2040);
    assert_eq!(STACK_POINTER_RP2350, SRAM_END_RP2350);
    assert_eq!(Target::Custom { vid: 1, pid: 1 }.default_stack_pointer(), None);
}

#[test]
fn sector_is_whole_pages_on_every_target() {
    for t in [Target::Rp2040, Target::Rp2350, Target::Custom { vid: 9, pid: 9 }] {
        assert_eq!(t.flash_sector_size() % t.flash_page_size(), 0);
        assert!(t.flash_page_size() < t.flash_sector_size());
    }
}

#[test]
fn flash_is_whole_sectors_on_stock_parts() {
    for t in [Target::Rp2040, Target::Rp2350] {
        let end = t.flash_end().unwrap();
        assert!(t.flash_start() < end);
        assert_eq!((end - t.flash_start()) % t.flash_sector_size(), 0);
        assert_eq!((end - t.flash_start()) % t.flash_page_size(), 0);
    }
}

#[test]
fn flash_end_and_stack_pointer_known_for_same_targets() {
    for t in [Target::Rp2040, Target::Rp2350, Target::Custom { vid: 2, pid: 3 }] {
        assert_eq!(t.flash_end().is_some(), t.default_stack_pointer().is_some());
    }
}

#[test]
fn stack_pointer_above_flash_on_stock_parts() {
    for t in [Target::Rp2040, Target::Rp2350] {
        assert!(t.flash_end().unwrap() < t.default_stack_pointer().unwrap());
    }
}

#[test]
fn stock_targets_told_apart_by_pid() {
    assert_ne!(Target::Rp2040.pid(), Target::Rp2350.pid());
    assert_eq!(Target::Rp2040.vid(), Target::Rp2350.vid());
}

#[test]
fn target_equality_and_clone() {
    let t = Target::Custom { vid: 5, pid: 6 };
    assert_eq!(t.clone(), t);
    assert_ne!(Target::Rp2040, Target::Rp2350);
    assert_ne!(t, Target::Custom { vid: 5, pid: 7 });
}

#[test]
fn access_bytes() {
    assert_eq!(u8::from(Access::NotExclusive), 0);
    assert_eq!(u8::from(Access::Exclusive), 1);
    assert_eq!(u8::from(Access::ExclusiveAndEject), 2);
    let b: u8 = Access::ExclusiveAndEject.into();
    assert_eq!(b, 2);
}

#[test]
fn access_bytes_are_distinct() {
    let modes = [Access::NotExclusive, Access::Exclusive, Access::ExclusiveAndEject];
    for a in modes {
        for b in modes {
            assert_eq!(u8::from(a) == u8::from(b), a == b);
        }
        assert!(u8::from(a) < 3);
    }
}

#[test]
fn direction_variants() {
    assert_ne!(Direction::In, Direction::Out);
    let d = Direction::Out;
    let e = d;
    assert_eq!(d, e);
}
