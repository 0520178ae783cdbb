use emu6502::c64memmap::MemMap;
use emu6502::cia::CIA;
use emu6502::memory::Memory;
use emu6502::ramrom::RamRom;
use emu6502::vic::{DerivedGraphicsMode, Sprite, VIC};

#[test]
fn port_a_masking() {
    let mut cia = CIA::new();
    cia.set_byte(2, 0b11110000);
    cia.set_byte(0, 0b11011000);
    assert_eq!(cia.get_byte(0), 0b11010000);
    cia.set_byte(0, 0b01101101);
    assert_eq!(cia.get_byte(0), 0b01100000);
}

#[test]
fn keyboard_scan_returns_inverted_row() {
    let mut cia = CIA::new();
    cia.keydown(3 * 8 + 5);
    cia.keydown(64);
    cia.set_byte(0, !(1u8 << 3));
    assert_eq!(cia.get_byte(1), !(1u8 << 5));
    cia.keyup(3 * 8 + 5);
    assert_eq!(cia.get_byte(1), 0xff);
    cia.set_byte(0, 0xff);
    assert_eq!(cia.get_byte(1), 0xff);
}

#[test]
fn timer_underflow_raises_interrupt_latch() {
    let mut cia = CIA::new();
    cia.set_byte(4, 10);
    cia.set_byte(5, 0);
    cia.set_byte(0x0e, 0x11);
    assert!(!cia.update_timers(4));
    assert_eq!(cia.get_byte(4), 6);
    assert!(cia.update_timers(7));
    assert_eq!(cia.get_byte(4), 10);
    assert_eq!(cia.get_byte(0x0d), 0x81);
    assert_eq!(cia.get_byte(0x0d), 0);
}

#[test]
fn one_shot_timer_stops() {
    let mut cia = CIA::new();
    cia.set_byte(4, 1);
    cia.set_byte(0x0e, 0x19);
    assert!(cia.update_timers(2));
    assert!(!cia.update_timers(2));
}

#[test]
fn sprite_position() {
    let mut vic = VIC::new();
    vic.set_byte(0x02, 0x34);
    vic.set_byte(0x03, 0x56);
    vic.set_byte(0x10, 0x02);
    assert_eq!(vic.sprites[1].x, 0x134);
    assert_eq!(vic.sprites[1].y, 0x56);
    assert_eq!(vic.get_byte(0x10), 0x02);
    assert_eq!(vic.get_byte(0x02), 0x34);
    let mut s = Sprite::new();
    s.set_x_low(0xff);
    s.set_x_high(1);
    s.set_y(9);
    assert_eq!((s.x, s.y), (0x1ff, 9));
}

#[test]
fn vic_colours_masked_and_modes() {
    let mut vic = VIC::new();
    vic.set_byte(0x20, 0xfe);
    assert_eq!(vic.get_byte(0x20), 0x0e);
    assert_eq!(vic.get_graphics_mode(), DerivedGraphicsMode::StandardCharMode);
    vic.set_byte(0x16, 0x10);
    assert_eq!(vic.get_graphics_mode(), DerivedGraphicsMode::MulticolorCharMode);
    vic.set_byte(0x11, 0x60);
    assert_eq!(vic.get_graphics_mode_bits(), 7);
    assert_eq!(vic.get_graphics_mode(), DerivedGraphicsMode::Invalid);
    vic.set_byte(0x15, 0x81);
    assert!(vic.sprites[0].enabled && vic.sprites[7].enabled && !vic.sprites[3].enabled);
    assert_eq!(vic.get_byte(0x15), 0x81);
}

#[test]
fn kernal_bank_switch() {
    let mut map = MemMap::new();
    let mut kernal = vec![0u8; 0x2000];
    kernal[0x123] = 0xab;
    map.ram_rom.initialize_kernal_rom(&kernal);
    map.ram_rom.ram[0xe123] = 0xcd;
    map.set_byte(1, 0x07);
    assert_eq!(map.get_byte(0xe123), 0xab);
    map.set_byte(1, 0x05);
    assert_eq!(map.get_byte(0xe123), 0xcd);
}

#[test]
fn basic_and_chargen_banking() {
    let mut map = MemMap::new();
    let basic = vec![0x11u8; 0x2000];
    map.ram_rom.initialize_basic_rom(&basic);
    let chars = vec![0x22u8; 0x1000];
    map.ram_rom.initialize_char_rom(&chars);
    assert_eq!(map.get_byte(0xa000), 0x11);
    map.set_byte(0xa000, 0x99);
    assert_eq!(map.get_byte(0xa000), 0x11);
    map.set_byte(1, 0x33);
    assert_eq!(map.get_byte(0xd000), 0x22);
    map.set_byte(1, 0x34);
    assert_eq!(map.get_byte(0xa000), 0);
    map.set_byte(0xd020, 0x05);
    assert_eq!(map.get_byte(0xd020), 0x05);
    map.set_byte(1, 0x37);
    map.set_byte(0xd020, 0x05);
    assert_eq!(map.get_byte(0xd020), 0x05);
    assert_eq!(map.vic.border_color, 0x05);
}

#[test]
fn ramrom_views() {
    let mut rr = RamRom::new();
    rr.ram[0x400] = 1;
    assert_eq!(rr.screen_ptr().len(), 1000);
    assert_eq!(rr.screen_ptr()[0], 1);
    assert_eq!(rr.kernal_ptr().len(), 0x2000);
    assert_eq!(rr.char_ptr().len(), 0x1000);
    assert_eq!(rr.basic_ptr().len(), 0x2000);
    assert_eq!(rr.color_ptr().len(), 0x400);
    assert_eq!(rr.ram_ptr().len(), 0x10000);
}
