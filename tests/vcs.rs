use emu6502::memory::Memory;
use emu6502::vcs_vm::VM;
use emu6502::riot::RIOT;
use emu6502::tia::{ExecState, ScanlineState, TIA};

#[test]
fn wsync_blocks_until_next_line() {
    let mut tia = TIA::new();
    tia.scanline = 40;
    tia.horiz_clock = 30;
    tia.set_byte(0x02, 0);
    assert_eq!(tia.get_exec_state(), ExecState::Block);
    for _ in 0..197 {
        tia.increment_clock(1);
        assert_eq!(tia.get_exec_state(), ExecState::Block);
    }
    tia.increment_clock(1);
    assert_eq!(tia.get_exec_state(), ExecState::Run);
    assert_eq!((tia.scanline, tia.horiz_clock), (41, 0));
}

#[test]
fn wsync_at_line_start_stalls_full_line() {
    let mut tia = TIA::new();
    tia.set_byte(0x02, 0);
    tia.increment_clock(227);
    assert_eq!(tia.get_exec_state(), ExecState::Block);
    tia.increment_clock(1);
    assert_eq!(tia.get_exec_state(), ExecState::Run);
}

#[test]
fn vsync_resets_beam() {
    let mut tia = TIA::new();
    tia.scanline = 100;
    tia.horiz_clock = 50;
    tia.set_byte(0x00, 0x02);
    assert_eq!((tia.scanline, tia.horiz_clock), (0, 0));
    assert_eq!(tia.get_scanline_state(), ScanlineState::VSync);
}

#[test]
fn playfield_and_background_pixels() {
    let mut tia = TIA::new();
    tia.set_byte(0x09, 0x44);
    tia.set_byte(0x08, 0x1e);
    tia.set_byte(0x0d, 0x10);
    tia.scanline = 50;
    tia.horiz_clock = 68;
    assert_eq!(tia.get_scanline_state(), ScanlineState::Pixel(0, 10, 0x1e));
    tia.horiz_clock = 68 + 4;
    assert_eq!(tia.get_scanline_state(), ScanlineState::Pixel(4, 10, 0x44));
    // Right half repeats without reflection.
    tia.horiz_clock = 68 + 80;
    assert_eq!(tia.get_scanline_state(), ScanlineState::Pixel(80, 10, 0x1e));
    // Reflected: column 0 shows at the far right.
    tia.set_byte(0x0a, 0x01);
    tia.horiz_clock = 68 + 159;
    assert_eq!(tia.get_scanline_state(), ScanlineState::Pixel(159, 10, 0x1e));
    tia.horiz_clock = 10;
    assert_eq!(tia.get_scanline_state(), ScanlineState::HBlank);
}

#[test]
fn player_reset_and_motion() {
    let mut tia = TIA::new();
    tia.horiz_clock = 100;
    tia.set_byte(0x10, 0);
    assert_eq!(tia.player_0_position, 109);
    tia.set_byte(0x20, 0x30);
    tia.set_byte(0x2a, 0);
    assert_eq!(tia.player_0_position, 106);
    tia.set_byte(0x20, 0xf0);
    tia.set_byte(0x2a, 0);
    assert_eq!(tia.player_0_position, 107);
    tia.set_byte(0x2b, 0);
    assert_eq!(tia.player_0_offset, 0);
    tia.set_byte(0x1b, 0x80);
    tia.set_byte(0x06, 0x5a);
    tia.scanline = 60;
    tia.horiz_clock = 107;
    assert_eq!(tia.get_scanline_state(), ScanlineState::Pixel(39, 20, 0x5a));
}

#[test]
fn riot_timer_counts_down_by_prescale() {
    let mut riot = RIOT::new();
    riot.set_timer_8(2);
    for _ in 0..24 {
        riot.increment_clock();
    }
    assert_eq!(riot.timer_count_remaining(), 1);
    for _ in 0..48 {
        riot.increment_clock();
    }
    assert_eq!(riot.timer_count_remaining(), 0);
    riot.set_timer_1(1);
    riot.set_timer_64(3);
    riot.set_timer_1024(4);
    assert_eq!(riot.timer_count_remaining(), 4);
}

#[test]
fn riot_joystick_active_low() {
    let mut riot = RIOT::new();
    assert_eq!(riot.get_port_a_data(), 0xff);
    riot.joystick_0_left = true;
    riot.joystick_0_up = true;
    assert_eq!(riot.get_port_a_data(), 0xaf);
}

#[test]
fn console_charges_wsync_stall_to_tia_only() {
    let mut vm = VM::new();
    vm.mem.tia.scanline = 40;
    vm.mem.tia.horiz_clock = 30;
    vm.mem.set_byte(0x02, 0);
    let pc = vm.cpu.pc;
    let mut spent = 0u32;
    let mut steps = 0;
    while vm.mem.tia.block_until_hsync {
        spent += vm.step() as u32;
        steps += 1;
    }
    assert_eq!(spent, 0);
    assert_eq!(steps, 198);
    assert_eq!(vm.cpu.pc, pc);
    assert_eq!((vm.mem.tia.scanline, vm.mem.tia.horiz_clock), (41, 0));
}

#[test]
fn console_runs_rom_with_bank_switch() {
    let mut vm = VM::new();
    let mut rom = vec![0xeau8; 0x2000];
    rom[0x1ffc] = 0x00;
    rom[0x1ffd] = 0xf0;
    rom[0x0ffc] = 0x00;
    rom[0x0ffd] = 0xf0;
    rom[0x1000] = 0xab;
    vm.mem.load_rom(&rom);
    assert_eq!(vm.mem.get_byte(0x1ff9), 0);
    assert_eq!(vm.mem.get_byte(0x1000), 0xab);
    assert_eq!(vm.mem.get_byte(0x1ff8), 0);
    vm.reset();
    assert_eq!(vm.cpu.pc, 0xf000);
    assert_eq!(vm.step(), 2);
    assert_eq!(vm.mem.tia.horiz_clock, 6);
}

#[test]
fn hmove_wraps_at_right_edge() {
    let mut tia = TIA::new();
    tia.player_0_position = 227;
    tia.set_byte(0x20, 0xf0);
    tia.set_byte(0x2a, 0);
    assert_eq!(tia.player_0_position, 68);
}

#[test]
fn playfield_priority_and_missile_width() {
    let mut tia = TIA::new();
    tia.set_byte(0x08, 0x1e);
    tia.set_byte(0x06, 0x5a);
    tia.set_byte(0x0d, 0x10);
    tia.horiz_clock = 60;
    tia.set_byte(0x10, 0);
    tia.set_byte(0x1b, 0xff);
    tia.scanline = 50;
    tia.horiz_clock = 69;
    assert_eq!(tia.get_scanline_state(), ScanlineState::Pixel(1, 10, 0x5a));
    tia.set_byte(0x0a, 0x04);
    assert_eq!(tia.get_scanline_state(), ScanlineState::Pixel(1, 10, 0x1e));
    // A one-pixel missile covers exactly one clock.
    tia.set_byte(0x0a, 0x00);
    tia.set_byte(0x1b, 0x00);
    tia.set_byte(0x0d, 0x00);
    tia.horiz_clock = 100;
    tia.set_byte(0x12, 0);
    tia.set_byte(0x1d, 0x02);
    tia.horiz_clock = 109;
    assert_eq!(tia.get_scanline_state(), ScanlineState::Pixel(41, 10, 0x5a));
    tia.horiz_clock = 110;
    assert_eq!(tia.get_scanline_state(), ScanlineState::Pixel(42, 10, 0));
}
