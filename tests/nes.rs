use emu6502::nes_vm::VM;
use emu6502::apu::APU;
use emu6502::controller::Controller;
use emu6502::mapper::{create_mapper, Config, LoadError, Mapper, Mirroring};
use emu6502::memory::Memory;
use emu6502::mmc1::MMC1;
use emu6502::nesmemmap::MemMap;
use emu6502::nrom::NROM;
use emu6502::ppu2::PPU2;
use emu6502::ram::RAM;
use emu6502::sprite::Sprite;

struct SilentApu;

impl APU for SilentApu {
    fn toggle_square_0(&mut self, _enabled: bool) {}
    fn set_square_0_properties(&mut self, _d: u8, _l: bool, _c: bool, _v: u8) {}
    fn set_square_0_timer_low(&mut self, _low: u8) {}
    fn set_square_0_timer_high(&mut self, _high: u8) {}
    fn toggle_square_1(&mut self, _enabled: bool) {}
    fn set_square_1_properties(&mut self, _d: u8, _l: bool, _c: bool, _v: u8) {}
    fn set_square_1_timer_low(&mut self, _low: u8) {}
    fn set_square_1_timer_high(&mut self, _high: u8) {}
    fn toggle_triangle(&mut self, _enabled: bool) {}
    fn set_triangle_properties(&mut self, _control: bool, _reload: u8) {}
    fn set_triangle_timer_low(&mut self, _low: u8) {}
    fn set_triangle_timer_high(&mut self, _high: u8) {}
    fn set_square_0_length(&mut self, _length: u8) {}
    fn set_square_1_length(&mut self, _length: u8) {}
    fn set_triangle_length(&mut self, _length: u8) {}
    fn test_note(&mut self) {}
}

fn create_mmc() -> MMC1 {
    MMC1::new(Config {
        prg_rom_size: 0,
        chr_rom_size: 0,
        mirroring: Mirroring::Horizontal,
        contains_ram: true,
    })
}

fn config_of(m: &Mapper) -> Config {
    match m {
        Mapper::Nrom(n) => n.config,
        Mapper::Mmc1(x) => x.config,
    }
}

fn ines(prg: u8, chr: u8, flags6: u8, flags7: u8) -> Vec<u8> {
    let mut rom = vec![0x4e, 0x45, 0x53, 0x1a, prg, chr, flags6, flags7];
    rom.resize(16, 0);
    for i in 0..(prg as usize * 0x4000 + chr as usize * 0x2000) {
        rom.push((i % 251) as u8);
    }
    rom
}

#[test]
fn read_controller() {
    let mut c = Controller::new();
    assert_eq!(c.latch, 0);
    c.a = true;
    c.select = true;
    assert_eq!(c.latch, 0);
    c.begin_latch();
    assert_eq!(c.latch, 5);
    assert_eq!(c.read_latch(), 1);
    assert_eq!(c.read_latch(), 1);
    c.end_latch();
    assert_eq!(c.read_latch(), 1);
    assert_eq!(c.read_latch(), 0);
    assert_eq!(c.read_latch(), 1);
    assert_eq!(c.read_latch(), 0);
}

#[test]
fn controller_reads_all_buttons_in_order() {
    let mut c = Controller::new();
    c.b = true;
    c.start = true;
    c.down = true;
    c.right = true;
    c.begin_latch();
    c.end_latch();
    let reads: Vec<u8> = (0..9).map(|_| c.read_latch()).collect();
    assert_eq!(reads, vec![0, 1, 0, 1, 0, 1, 0, 1, 0]);
}

#[test]
fn test_write_register_control() {
    let mut mmc = create_mmc();
    mmc.register_control = 0;
    let mut data = 0xe;
    mmc.cpu_set_byte(0x8000, data);
    assert_eq!(mmc.register_control, 0);
    data = data >> 1;
    mmc.cpu_set_byte(0x8000, data);
    assert_eq!(mmc.register_control, 0);
    data = data >> 1;
    mmc.cpu_set_byte(0x8000, data);
    assert_eq!(mmc.register_control, 0);
    data = data >> 1;
    mmc.cpu_set_byte(0x8000, data);
    assert_eq!(mmc.register_control, 0);
    data = data >> 1;
    mmc.cpu_set_byte(0x8000, data);
    assert_eq!(mmc.register_control, 0xe);
    data = 0x1;
    mmc.cpu_set_byte(0x8000, data);
    assert_eq!(mmc.register_control, 0xe);
    data = data >> 1;
    mmc.cpu_set_byte(0x8000, data);
    assert_eq!(mmc.register_control, 0xe);
    data = data >> 1;
    mmc.cpu_set_byte(0x8000, data);
    assert_eq!(mmc.register_control, 0xe);
    data = data >> 1;
    mmc.cpu_set_byte(0x8000, data);
    assert_eq!(mmc.register_control, 0xe);
    data = data >> 1;
    mmc.cpu_set_byte(0x8000, data);
    assert_eq!(mmc.register_control, 0x1);
}

#[test]
fn test_reset_shifter() {
    let mut mmc = create_mmc();
    mmc.register_control = 0;
    let mut data = 0xf;
    mmc.cpu_set_byte(0x8000, data);
    data = data >> 1;
    mmc.cpu_set_byte(0x8000, data);
    data = data >> 1;
    mmc.cpu_set_byte(0x8000, data);
    assert_eq!(mmc.register_control, 0);
    mmc.cpu_set_byte(0x8000, data | 0x80);
    assert_eq!(mmc.register_control, 0xc);
    data = 0x8;
    mmc.cpu_set_byte(0x8000, data);
    assert_eq!(mmc.register_control, 0xc);
    data = data >> 1;
    mmc.cpu_set_byte(0x8000, data);
    assert_eq!(mmc.register_control, 0xc);
    data = data >> 1;
    mmc.cpu_set_byte(0x8000, data);
    assert_eq!(mmc.register_control, 0xc);
    data = data >> 1;
    mmc.cpu_set_byte(0x8000, data);
    assert_eq!(mmc.register_control, 0xc);
    data = data >> 1;
    mmc.cpu_set_byte(0x8000, data);
    assert_eq!(mmc.register_control, 0x8);
}

#[test]
fn mmc1_load_then_reset_keeps_control() {
    let mut mmc = create_mmc();
    for lsb in [1u8, 1, 1, 1, 0] {
        mmc.cpu_set_byte(0x8000, lsb);
    }
    assert_eq!(mmc.register_control, 0x0f);
    mmc.cpu_set_byte(0xc123, 0x80);
    assert_eq!(mmc.register_control, 0x0f);
    assert_eq!(mmc.shifter, 0x10);
}

#[test]
fn test_vertical_mirroring() {
    let mut mmc = create_mmc();
    mmc.register_control = 0xe;
    assert_eq!(mmc.ppu_get_mirrored_address(0x2000), 0x2000);
    assert_eq!(mmc.ppu_get_mirrored_address(0x2040), 0x2040);
    assert_eq!(mmc.ppu_get_mirrored_address(0x2111), 0x2111);
    assert_eq!(mmc.ppu_get_mirrored_address(0x23ff), 0x23ff);
    assert_eq!(mmc.ppu_get_mirrored_address(0x2400), 0x2400);
    assert_eq!(mmc.ppu_get_mirrored_address(0x24ff), 0x24ff);
    assert_eq!(mmc.ppu_get_mirrored_address(0x27ff), 0x27ff);
    assert_eq!(mmc.ppu_get_mirrored_address(0x2800), 0x2000);
    assert_eq!(mmc.ppu_get_mirrored_address(0x28fc), 0x20fc);
    assert_eq!(mmc.ppu_get_mirrored_address(0x2aaa), 0x22aa);
    assert_eq!(mmc.ppu_get_mirrored_address(0x2c00), 0x2400);
    assert_eq!(mmc.ppu_get_mirrored_address(0x2e20), 0x2620);
}

#[test]
fn test_horizontal_mirroring() {
    let mut mmc = create_mmc();
    mmc.register_control = 0xf;
    assert_eq!(mmc.ppu_get_mirrored_address(0x2000), 0x2000);
    assert_eq!(mmc.ppu_get_mirrored_address(0x2040), 0x2040);
    assert_eq!(mmc.ppu_get_mirrored_address(0x2111), 0x2111);
    assert_eq!(mmc.ppu_get_mirrored_address(0x23ff), 0x23ff);
    assert_eq!(mmc.ppu_get_mirrored_address(0x2400), 0x2000);
    assert_eq!(mmc.ppu_get_mirrored_address(0x24ff), 0x20ff);
    assert_eq!(mmc.ppu_get_mirrored_address(0x27ff), 0x23ff);
    assert_eq!(mmc.ppu_get_mirrored_address(0x2800), 0x2800);
    assert_eq!(mmc.ppu_get_mirrored_address(0x28fc), 0x28fc);
    assert_eq!(mmc.ppu_get_mirrored_address(0x2aaa), 0x2aaa);
    assert_eq!(mmc.ppu_get_mirrored_address(0x2c00), 0x2800);
    assert_eq!(mmc.ppu_get_mirrored_address(0x2e20), 0x2a20);
}

#[test]
fn nrom_mirroring_aliases() {
    let config = |m| Config { prg_rom_size: 1, chr_rom_size: 1, mirroring: m, contains_ram: false };
    let v = NROM::new(config(Mirroring::Vertical));
    assert_eq!(v.ppu_get_mirrored_address(0x2000), v.ppu_get_mirrored_address(0x2800));
    assert_eq!(v.ppu_get_mirrored_address(0x2412), v.ppu_get_mirrored_address(0x2c12));
    assert_ne!(v.ppu_get_mirrored_address(0x2000), v.ppu_get_mirrored_address(0x2400));
    let h = NROM::new(config(Mirroring::Horizontal));
    assert_eq!(h.ppu_get_mirrored_address(0x2000), h.ppu_get_mirrored_address(0x2400));
    assert_eq!(h.ppu_get_mirrored_address(0x2812), h.ppu_get_mirrored_address(0x2c12));
    assert_ne!(h.ppu_get_mirrored_address(0x2000), h.ppu_get_mirrored_address(0x2800));
    assert_eq!(h.get_nametable_offsets(), (0, 0, 0x400, 0x400));
}

#[test]
fn nrom_prg_mirrors_single_bank() {
    let rom = ines(1, 1, 0, 0);
    let m = create_mapper(&rom).unwrap();
    assert!(matches!(m, Mapper::Nrom(_)));
    assert_eq!(m.cpu_get_byte(0x8005), rom[16 + 5]);
    assert_eq!(m.cpu_get_byte(0xc005), rom[16 + 5]);
    assert_eq!(m.ppu_get_byte(0x0003), rom[16 + 0x4000 + 3]);
    assert_eq!(config_of(&m).mirroring, Mirroring::Vertical);
}

#[test]
fn create_mapper_errors() {
    assert!(matches!(create_mapper(&vec![0x4e, 0x45]), Err(LoadError::TooShort)));
    let mut bad = ines(1, 1, 0, 0);
    bad[3] = 0;
    assert!(matches!(create_mapper(&bad), Err(LoadError::BadMagic)));
    let unsupported = ines(1, 1, 0x40, 0);
    assert!(matches!(create_mapper(&unsupported), Err(LoadError::UnsupportedMapper(4))));
    let mut short = ines(2, 1, 0, 0);
    short.truncate(0x4000);
    assert!(matches!(create_mapper(&short), Err(LoadError::SizeMismatch)));
    let mmc = ines(2, 0, 0x11, 0);
    let m = create_mapper(&mmc).unwrap();
    assert!(matches!(m, Mapper::Mmc1(_)));
    assert_eq!(config_of(&m).mirroring, Mirroring::Horizontal);
}

#[test]
fn mmc1_prg_modes() {
    let rom = ines(4, 0, 0x10, 0);
    let mut m = create_mapper(&rom).unwrap();
    // Power-on control 0: 32 KiB mode, banks 0 and 1.
    assert_eq!(m.cpu_get_byte(0xc000), rom[16 + 0x4000]);
    // Control 0x0c: switch 0x8000, last bank fixed at 0xC000.
    for lsb in [0u8, 0, 1, 1, 0] {
        m.cpu_set_byte(0x8000, lsb);
    }
    for lsb in [0u8, 1, 0, 0, 0] {
        m.cpu_set_byte(0xe000, lsb);
    }
    assert_eq!(m.cpu_get_byte(0x8000), rom[16 + 2 * 0x4000]);
    assert_eq!(m.cpu_get_byte(0xc000), rom[16 + 3 * 0x4000]);
}

#[test]
fn ram_mirrors_every_2k() {
    let mut ram = RAM::new();
    ram.set_byte(0x0812, 7);
    assert_eq!(ram.get_byte(0x0012), 7);
    assert_eq!(ram.get_byte(0x1812), 7);
}

#[test]
fn sprite_oam_round_trip() {
    let mut s = Sprite::new();
    assert_eq!(s.get_oam_byte(0), 0xff);
    s.set_oam_byte(2, 0xe3);
    assert_eq!(s.palette, 3);
    assert!(!s.has_bg_priority && s.flip_horizontal && s.flip_vertical);
    assert_eq!(s.get_oam_byte(2), 0xe3);
    s.set_oam_byte(2, 0x1c);
    assert_eq!(s.get_oam_byte(2), 0);
    s.set_oam_byte(3, 0x44);
    assert_eq!(s.get_oam_byte(3), 0x44);
}

#[test]
fn oam_dma_copies_page_and_requests_stall() {
    let mapper = create_mapper(&ines(1, 1, 0, 0)).unwrap();
    let mut map = MemMap::new(mapper, SilentApu);
    for i in 0..256u16 {
        map.set_byte(0x0200 + i, i as u8);
    }
    map.set_byte(0x4014, 0x02);
    for i in 0..256usize {
        assert_eq!(map.ppu2.oam[i], i as u8);
    }
    assert!(map.dma_requested());
    assert!(!map.dma_requested());
}

#[test]
fn controller_port_through_memory_map() {
    let mapper = create_mapper(&ines(1, 1, 0, 0)).unwrap();
    let mut map = MemMap::new(mapper, SilentApu);
    map.controller_0.a = true;
    map.controller_0.up = true;
    map.set_byte(0x4016, 1);
    map.set_byte(0x4016, 0);
    let bits: Vec<u8> = (0..8).map(|_| map.get_byte(0x4016)).collect();
    assert_eq!(bits, vec![1, 0, 0, 0, 1, 0, 0, 0]);
}

#[test]
fn ppu_address_and_data_ports() {
    let mapper = create_mapper(&ines(1, 0, 0, 0)).unwrap();
    let mut map = MemMap::new(mapper, SilentApu);
    map.set_byte(0x2006, 0x3f);
    map.set_byte(0x2006, 0x01);
    assert_eq!(map.ppu2.v, 0x3f01);
    map.set_byte(0x2007, 0x2a);
    assert_eq!(map.ppu2.palette[1], 0x2a);
    assert_eq!(map.ppu2.v, 0x3f02);
    map.set_byte(0x2006, 0x3f);
    map.set_byte(0x2006, 0x10);
    map.set_byte(0x2007, 0x0f);
    assert_eq!(map.ppu2.palette[0], 0x0f);
    // Nametable write and read back through the vertical mirror.
    map.set_byte(0x2006, 0x28);
    map.set_byte(0x2006, 0x05);
    map.set_byte(0x2007, 0x77);
    map.set_byte(0x2006, 0x20);
    map.set_byte(0x2006, 0x05);
    assert_eq!(map.get_byte(0x2007), 0x77);
}

#[test]
fn ppu_status_read_clears_vblank_and_toggle() {
    let mut ppu = PPU2::new();
    ppu.status = 0xe0;
    ppu.w = 1;
    let mapper = create_mapper(&ines(1, 1, 0, 0)).unwrap();
    assert_eq!(ppu.get_byte(0x2002, &mapper), 0xe0);
    assert_eq!(ppu.status, 0x60);
    assert_eq!(ppu.w, 0);
}

#[test]
fn ppu_scroll_writes_fill_t_and_x() {
    let mut ppu = PPU2::new();
    let mut mapper = create_mapper(&ines(1, 1, 0, 0)).unwrap();
    ppu.set_byte(0x2000, 0x02, &mut mapper);
    assert_eq!(ppu.t, 0x0800);
    ppu.set_byte(0x2005, 0x7d, &mut mapper);
    assert_eq!(ppu.x, 5);
    assert_eq!(ppu.t & 0x1f, 0x0f);
    ppu.set_byte(0x2005, 0x5e, &mut mapper);
    assert_eq!((ppu.t >> 12) & 7, 6);
    assert_eq!((ppu.t >> 5) & 0x1f, 0x0b);
    assert_eq!(ppu.w, 0);
}

#[test]
fn ppu_enters_vblank_with_nmi() {
    let mut ppu = PPU2::new();
    let mut mapper = create_mapper(&ines(1, 1, 0, 0)).unwrap();
    ppu.set_byte(0x2000, 0x80, &mut mapper);
    ppu.scanline = 241;
    ppu.cycle = 0;
    ppu.increment_clock(&mapper);
    assert!(!ppu.should_interrupt());
    ppu.increment_clock(&mapper);
    assert!(ppu.status & 0x80 != 0);
    assert!(ppu.in_vblank());
    assert!(ppu.should_interrupt());
    assert!(!ppu.should_interrupt());
    ppu.scanline = 261;
    ppu.cycle = 1;
    ppu.increment_clock(&mapper);
    assert_eq!(ppu.status, 0);
}

#[test]
fn ppu_frame_timing_wraps() {
    let mut ppu = PPU2::new();
    let mapper = create_mapper(&ines(1, 1, 0, 0)).unwrap();
    for _ in 0..(341 * 262) {
        ppu.increment_clock(&mapper);
    }
    assert_eq!((ppu.scanline, ppu.cycle), (0, 0));
    assert_eq!(ppu.buffer_ptr().len(), 256 * 240);
}

#[test]
fn console_step_adds_dma_stall() {
    let mut rom = ines(1, 1, 0, 0);
    // Reset vector 0x8000; program: LDA #$02; STA $4014.
    let prg = 16;
    rom[prg] = 0xa9;
    rom[prg + 1] = 0x02;
    rom[prg + 2] = 0x8d;
    rom[prg + 3] = 0x14;
    rom[prg + 4] = 0x40;
    rom[prg + 0x3ffc] = 0x00;
    rom[prg + 0x3ffd] = 0x80;
    let mapper = create_mapper(&rom).unwrap();
    let mut vm = VM::new(mapper, SilentApu);
    assert_eq!(vm.cpu.pc, 0x8000);
    assert_eq!(vm.step(), 2);
    assert_eq!(vm.step(), 4 + 514);
    assert_eq!(vm.mem.ppu2.cycle as u32 + vm.mem.ppu2.scanline as u32 * 341, 3 * (2 + 4 + 514));
}
