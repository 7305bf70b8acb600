use mmio_bus::bus::{init_mem, AddressSpace, MemoryRegion, RegionKind, DSP, DSPCR, KBD, KBDCR};
use mmio_bus::errors::BusError;
use mmio_bus::keyboard::{Keyboard, KEY_READY_CODE};
use mmio_bus::screen::{Screen, COLUMNS};

#[test]
fn ram_write_then_read_low_window() {
    let mut bus = init_mem();
    let mut kbd = Keyboard::new();
    let mut scr = Screen::new();
    assert_eq!(bus.write(&mut kbd, &mut scr, 0x0200, 0x42), Ok(()));
    assert_eq!(bus.read(&mut kbd, 0x0200), Ok(0x42));
    // zero page and the top of the low window behave the same
    assert_eq!(bus.write(&mut kbd, &mut scr, 0x0000, 0x01), Ok(()));
    assert_eq!(bus.write(&mut kbd, &mut scr, 0x0FFF, 0xFE), Ok(()));
    assert_eq!(bus.read(&mut kbd, 0x0000), Ok(0x01));
    assert_eq!(bus.read(&mut kbd, 0x0FFF), Ok(0xFE));
}

#[test]
fn ram_write_then_read_high_window() {
    let mut bus = init_mem();
    let mut kbd = Keyboard::new();
    let mut scr = Screen::new();
    assert_eq!(bus.write(&mut kbd, &mut scr, 0xE000, 0x7A), Ok(()));
    assert_eq!(bus.write(&mut kbd, &mut scr, 0xEFFF, 0x7B), Ok(()));
    assert_eq!(bus.read(&mut kbd, 0xE000), Ok(0x7A));
    assert_eq!(bus.read(&mut kbd, 0xEFFF), Ok(0x7B));
    // the two windows share one bank but do not alias each other
    assert_eq!(bus.read(&mut kbd, 0x0000), Ok(0x00));
}

#[test]
fn rom_write_is_rejected_and_preserves_contents() {
    let mut bus = init_mem();
    let mut kbd = Keyboard::new();
    let mut scr = Screen::new();
    let image = vec![0xAA, 0xBB, 0xCC];
    bus.load_rom(&image);
    assert_eq!(bus.read(&mut kbd, 0xFF00), Ok(0xAA));
    assert_eq!(bus.write(&mut kbd, &mut scr, 0xFF00, 0x99), Err(BusError::ReadOnlyViolation));
    assert_eq!(bus.write(&mut kbd, &mut scr, 0xFFFF, 0x99), Err(BusError::ReadOnlyViolation));
    // the pre-write values are still there
    assert_eq!(bus.read(&mut kbd, 0xFF00), Ok(0xAA));
    assert_eq!(bus.read(&mut kbd, 0xFF01), Ok(0xBB));
    assert_eq!(bus.read(&mut kbd, 0xFF02), Ok(0xCC));
    assert_eq!(bus.read(&mut kbd, 0xFFFF), Ok(0x00));
}

#[test]
fn unmapped_addresses_error() {
    let mut bus = init_mem();
    let mut kbd = Keyboard::new();
    let mut scr = Screen::new();
    for addr in [0x1000u16, 0x2000, 0xD00F, 0xD014, 0xDFFF, 0xF000, 0xFEFF] {
        assert_eq!(bus.read(&mut kbd, addr), Err(BusError::UnmappedAddress));
        assert_eq!(bus.write(&mut kbd, &mut scr, addr, 0x55), Err(BusError::UnmappedAddress));
    }
}

#[test]
fn overlapping_region_is_refused() {
    let mut bus = AddressSpace::new();
    let mut kbd = Keyboard::new();
    let first = MemoryRegion { start: 0x00, end: 0xFF, kind: RegionKind::RamLow };
    let second = MemoryRegion { start: 0x80, end: 0x180, kind: RegionKind::RamLow };
    assert_eq!(bus.add_region(first), Ok(()));
    assert_eq!(bus.add_region(second), Err(BusError::OverlappingRegion));
    // the first region stays active, the refused one never becomes active
    assert_eq!(bus.read(&mut kbd, 0x0080), Ok(0x00));
    assert_eq!(bus.read(&mut kbd, 0x0100), Err(BusError::UnmappedAddress));
}

#[test]
fn disjoint_regions_are_accepted() {
    let mut bus = AddressSpace::new();
    let first = MemoryRegion { start: 0x00, end: 0xFF, kind: RegionKind::RamLow };
    let second = MemoryRegion { start: 0x100, end: 0x1FF, kind: RegionKind::RamLow };
    assert_eq!(bus.add_region(first), Ok(()));
    assert_eq!(bus.add_region(second), Ok(()));
}

#[test]
fn keyboard_window_dispatch() {
    let mut bus = init_mem();
    let mut kbd = Keyboard::new();
    let mut scr = Screen::new();
    // data register
    assert_eq!(bus.write(&mut kbd, &mut scr, KBD, 0x41), Ok(()));
    assert_eq!(kbd.kbd, 0x41);
    assert_eq!(bus.read(&mut kbd, KBD), Ok(0x41));
    // control register: mode transition, then stored strobe, then consumption
    assert_eq!(bus.write(&mut kbd, &mut scr, KBDCR, 0x90), Ok(()));
    assert!(kbd.kbd_interrupts);
    assert_eq!(bus.read(&mut kbd, KBDCR), Ok(0x00));
    assert_eq!(bus.write(&mut kbd, &mut scr, KBDCR, 0x90), Ok(()));
    assert_eq!(bus.read(&mut kbd, KBDCR), Ok(KEY_READY_CODE));
    assert_eq!(bus.read(&mut kbd, KBDCR), Ok(0x00));
}

#[test]
fn screen_window_dispatch() {
    let mut bus = init_mem();
    let mut kbd = Keyboard::new();
    let mut scr = Screen::new();
    // data register forwards to the screen controller
    assert_eq!(bus.write(&mut kbd, &mut scr, DSP, 0x5F), Err(BusError::CursorUnderflow));
    assert_eq!(bus.write(&mut kbd, &mut scr, DSP, b'A'), Ok(()));
    assert_eq!(scr.chars[0], b'A');
    assert_eq!((scr.x, scr.y), (1, 0));
    // control register latch
    assert_eq!(bus.write(&mut kbd, &mut scr, DSPCR, 0x80), Ok(()));
    assert!(scr.output);
    assert_eq!(scr.cr, 0);
    // the screen port reads as 0
    assert_eq!(bus.read(&mut kbd, DSP), Ok(0));
    assert_eq!(bus.read(&mut kbd, DSPCR), Ok(0));
}

#[test]
fn load_ram_reaches_the_high_window() {
    let mut bus = init_mem();
    let mut kbd = Keyboard::new();
    let image = vec![0x10, 0x20, 0x30];
    // bank offset 4096 is the first address of the high window
    bus.load_ram(4096, &image);
    assert_eq!(bus.read(&mut kbd, 0xE000), Ok(0x10));
    assert_eq!(bus.read(&mut kbd, 0xE001), Ok(0x20));
    assert_eq!(bus.read(&mut kbd, 0xE002), Ok(0x30));
    // the low window is untouched
    assert_eq!(bus.read(&mut kbd, 0x0000), Ok(0x00));
}

#[test]
fn load_ram_reaches_the_low_window() {
    let mut bus = init_mem();
    let mut kbd = Keyboard::new();
    let image = vec![0xDE, 0xAD];
    bus.load_ram(0x0280, &image);
    assert_eq!(bus.read(&mut kbd, 0x0280), Ok(0xDE));
    assert_eq!(bus.read(&mut kbd, 0x0281), Ok(0xAD));
}

#[test]
fn interleaved_peripheral_operations_do_not_interfere() {
    let mut bus = init_mem();
    let mut kbd = Keyboard::new();
    let mut scr = Screen::new();
    // interleave keyboard and screen traffic through the bus
    assert_eq!(bus.write(&mut kbd, &mut scr, KBD, 0x31), Ok(()));
    assert_eq!(bus.write(&mut kbd, &mut scr, DSP, b'x'), Ok(()));
    assert_eq!(bus.write(&mut kbd, &mut scr, KBDCR, 0x80), Ok(()));
    assert_eq!(bus.write(&mut kbd, &mut scr, DSP, b'y'), Ok(()));
    assert_eq!(bus.write(&mut kbd, &mut scr, KBDCR, 0xF0), Ok(()));
    assert_eq!(bus.write(&mut kbd, &mut scr, DSPCR, 0x80), Ok(()));

    // each peripheral holds exactly the state the same traffic produces alone
    let mut kbd_alone = Keyboard::new();
    kbd_alone.write_kbd(0x31);
    kbd_alone.write_cr(0x80);
    kbd_alone.write_cr(0xF0);
    assert_eq!(kbd, kbd_alone);

    let mut scr_alone = Screen::new();
    assert_eq!(scr_alone.write(b'x'), Ok(()));
    assert_eq!(scr_alone.write(b'y'), Ok(()));
    scr_alone.write_cr(0x80);
    assert_eq!(scr.chars, scr_alone.chars);
    assert_eq!((scr.x, scr.y), (scr_alone.x, scr_alone.y));
    assert_eq!((scr.cr, scr.output), (scr_alone.cr, scr_alone.output));
    assert_eq!(scr.chars[0], b'x');
    assert_eq!(scr.chars[1], b'y');
    assert_eq!((scr.x, scr.y), (2, 0));
}

#[test]
fn rom_image_loads_at_offset_zero() {
    let mut bus = init_mem();
    let mut kbd = Keyboard::new();
    let mut image = vec![0u8; 256];
    image[0xFC] = 0x00;
    image[0xFD] = 0xFF;
    bus.load_rom(&image);
    // the reset vector sits at the top of the address space
    assert_eq!(bus.read(&mut kbd, 0xFFFC), Ok(0x00));
    assert_eq!(bus.read(&mut kbd, 0xFFFD), Ok(0xFF));
}

#[test]
fn screen_wrap_is_visible_through_the_bus() {
    let mut bus = init_mem();
    let mut kbd = Keyboard::new();
    let mut scr = Screen::new();
    for _ in 0..COLUMNS {
        assert_eq!(bus.write(&mut kbd, &mut scr, DSP, b'.'), Ok(()));
    }
    assert_eq!((scr.x, scr.y), (0, 1));
}
