use emu6502::cpu::{create_cpu, Register, CPU};
use emu6502::flags;
use emu6502::memory::{FlatMemory, Memory};

fn cpu_at(pc: u16) -> (CPU, FlatMemory) {
    let mut cpu = CPU::new();
    cpu.pc = pc;
    (cpu, FlatMemory::new())
}

#[test]
fn exec_subroutine_and_return() {
    let (mut cpu, mut mem) = cpu_at(0x1000);
    cpu.stack = 0xfd;
    mem.set_byte(0x1000, 0x20); // JSR
    mem.set_byte(0x1001, 0x50);
    mem.set_byte(0x1002, 0x12);
    mem.set_byte(0x1250, 0xea); // NOP
    mem.set_byte(0x1251, 0x60); // RTS
    cpu.step(&mut mem);
    assert_eq!(cpu.pc, 0x1250);
    cpu.step(&mut mem);
    assert_eq!(cpu.pc, 0x1251);
    cpu.step(&mut mem);
    assert_eq!(cpu.pc, 0x1003);
}

#[test]
fn cpu_subroutine_and_return() {
    let mut cpu = create_cpu();
    let mut mem = FlatMemory::new();
    cpu.pc = 0x1000;
    mem.set_byte(0x1000, 0x20);
    mem.set_byte(0x1001, 0x50);
    mem.set_byte(0x1002, 0x12);
    mem.set_byte(0x1250, 0xea);
    mem.set_byte(0x1251, 0x60);
    cpu.step(&mut mem);
    assert_eq!(cpu.pc, 0x1250);
    cpu.step(&mut mem);
    assert_eq!(cpu.pc, 0x1251);
    cpu.step(&mut mem);
    assert_eq!(cpu.pc, 0x1003);
}

#[test]
fn instruction_0x01() {
    let (mut cpu, mut mem) = cpu_at(0x100);
    cpu.acc = 5;
    cpu.x = 8;
    mem.set_byte(0x100, 0x01);
    mem.set_byte(0x101, 0xe0);
    mem.set_byte(0xe8, 0x45);
    mem.set_byte(0xe9, 0x11);
    mem.set_byte(0x1145, 6);
    cpu.step(&mut mem);
    assert_eq!(cpu.pc, 0x102);
    assert_eq!(cpu.acc, 7);
}

#[test]
fn instruction_0x05() {
    let (mut cpu, mut mem) = cpu_at(0x100);
    cpu.acc = 0xf0;
    mem.set_byte(0x100, 0x05);
    mem.set_byte(0x101, 0xa4);
    mem.set_byte(0xa4, 0x15);
    cpu.step(&mut mem);
    assert_eq!(cpu.pc, 0x102);
    assert_eq!(cpu.acc, 0xf5);
}

#[test]
fn instruction_0x0d() {
    let (mut cpu, mut mem) = cpu_at(0x100);
    cpu.acc = 0x11;
    mem.set_byte(0x100, 0x0d);
    mem.set_byte(0x101, 0xb0);
    mem.set_byte(0x102, 0x0b);
    mem.set_byte(0x0bb0, 0x22);
    cpu.step(&mut mem);
    assert_eq!(cpu.pc, 0x103);
    assert_eq!(cpu.acc, 0x33);
}

#[test]
fn exec_instruction_0x10() {
    let (mut cpu, mut mem) = cpu_at(0x100);
    cpu.status = 0;
    mem.set_byte(0x100, 0x10);
    mem.set_byte(0x101, 0x05);
    cpu.step(&mut mem);
    assert_eq!(cpu.pc, 0x107);
    cpu.status = 1 << 7;
    mem.set_byte(0x107, 0x10);
    mem.set_byte(0x108, 0x05);
    cpu.step(&mut mem);
    assert_eq!(cpu.pc, 0x109);
}

#[test]
fn exec_instruction_0x24() {
    let (mut cpu, mut mem) = cpu_at(0x100);
    mem.set_byte(0x005, 0x10);
    mem.set_byte(0x100, 0x24);
    mem.set_byte(0x101, 0x05);
    cpu.step(&mut mem);
    assert_eq!(cpu.status, 2);
    cpu.acc = 0x30;
    mem.set_byte(0x102, 0x24);
    mem.set_byte(0x103, 0x05);
    cpu.step(&mut mem);
    assert_eq!(cpu.status, 0);
    mem.set_byte(0x005, 0x70);
    mem.set_byte(0x104, 0x24);
    mem.set_byte(0x105, 0x05);
    cpu.step(&mut mem);
    assert_eq!(cpu.status, 1 << 6);
    mem.set_byte(0x005, 0xb0);
    mem.set_byte(0x106, 0x24);
    mem.set_byte(0x107, 0x05);
    cpu.step(&mut mem);
    assert_eq!(cpu.status, 1 << 7);
    mem.set_byte(0x005, 0xd0);
    mem.set_byte(0x108, 0x24);
    mem.set_byte(0x109, 0x05);
    cpu.step(&mut mem);
    assert_eq!(cpu.status, (1 << 7) + (1 << 6));
}

#[test]
fn exec_instruction_0x2a() {
    let (mut cpu, mut mem) = cpu_at(0x100);
    cpu.status = 1;
    cpu.acc = 0b01101100;
    mem.set_byte(0x100, 0x2a);
    cpu.step(&mut mem);
    assert_eq!(cpu.acc, 0b11011001);
    assert_eq!(cpu.status & 1, 0);
    mem.set_byte(0x101, 0x2a);
    cpu.step(&mut mem);
    assert_eq!(cpu.acc, 0b10110010);
    assert_eq!(cpu.status & 1, 1);
}

#[test]
fn exec_instruction_0x65() {
    let (mut cpu, mut mem) = cpu_at(0x100);
    cpu.acc = 0x22;
    mem.set_byte(0x40, 0x33);
    mem.set_byte(0x100, 0x65);
    mem.set_byte(0x101, 0x40);
    cpu.step(&mut mem);
    assert_eq!(cpu.acc, 0x55);
}

#[test]
fn exec_instruction_0x66() {
    let (mut cpu, mut mem) = cpu_at(0x100);
    mem.set_byte(0x40, 0b10110011);
    mem.set_byte(0x100, 0x66);
    mem.set_byte(0x101, 0x40);
    cpu.step(&mut mem);
    assert_eq!(mem.get_byte(0x40), 0b01011001);
    assert_eq!(cpu.status, 1);
    mem.set_byte(0x102, 0x66);
    mem.set_byte(0x103, 0x40);
    cpu.step(&mut mem);
    assert_eq!(mem.get_byte(0x40), 0b10101100);
    assert_eq!(cpu.status, 1 | (1 << 7));
}

#[test]
fn exec_instruction_0x69() {
    let (mut cpu, mut mem) = cpu_at(0x100);
    mem.set_byte(0x100, 0x69);
    mem.set_byte(0x101, 0x40);
    cpu.step(&mut mem);
    assert_eq!(cpu.acc, 0x40);
    assert_eq!(cpu.status, 0);
    mem.set_byte(0x102, 0x69);
    mem.set_byte(0x103, 0x80);
    cpu.step(&mut mem);
    assert_eq!(cpu.acc, 0xc0);
    assert_eq!(cpu.status, 1 << 7);
    mem.set_byte(0x104, 0x69);
    mem.set_byte(0x105, 0x80);
    cpu.step(&mut mem);
    assert_eq!(cpu.acc, 0x40);
    assert_eq!(cpu.status, (1 << 6) + 1);
    mem.set_byte(0x106, 0x69);
    mem.set_byte(0x107, 0x70);
    cpu.step(&mut mem);
    assert_eq!(cpu.acc, 0xb1);
    assert_eq!(cpu.status, (1 << 7) + (1 << 6));
}

#[test]
fn exec_instruction_0x6d() {
    let (mut cpu, mut mem) = cpu_at(0x100);
    mem.set_byte(0x124, 0x44);
    mem.set_byte(0x100, 0x6d);
    mem.set_byte(0x101, 0x24);
    mem.set_byte(0x102, 0x01);
    cpu.step(&mut mem);
    assert_eq!(cpu.acc, 0x44);
}

#[test]
fn exec_instruction_0x75() {
    let (mut cpu, mut mem) = cpu_at(0x100);
    cpu.x = 0x2b;
    mem.set_byte(0x6b, 0x33);
    mem.set_byte(0x100, 0x75);
    mem.set_byte(0x101, 0x40);
    cpu.step(&mut mem);
    assert_eq!(cpu.acc, 0x33);
}

#[test]
fn exec_instruction_0x79() {
    let (mut cpu, mut mem) = cpu_at(0x100);
    cpu.y = 0x14;
    mem.set_byte(0x138, 0x44);
    mem.set_byte(0x100, 0x79);
    mem.set_byte(0x101, 0x24);
    mem.set_byte(0x102, 0x01);
    cpu.step(&mut mem);
    assert_eq!(cpu.acc, 0x44);
}

#[test]
fn exec_instruction_0x7d() {
    let (mut cpu, mut mem) = cpu_at(0x100);
    cpu.x = 0x23;
    mem.set_byte(0x147, 0x67);
    mem.set_byte(0x100, 0x7d);
    mem.set_byte(0x101, 0x24);
    mem.set_byte(0x102, 0x01);
    cpu.step(&mut mem);
    assert_eq!(cpu.acc, 0x67);
}

#[test]
fn exec_instruction_0x86() {
    let (mut cpu, mut mem) = cpu_at(0x100);
    cpu.x = 0x23;
    mem.set_byte(0x100, 0x86);
    mem.set_byte(0x101, 0x44);
    cpu.step(&mut mem);
    assert_eq!(mem.get_byte(0x44), 0x23);
}

#[test]
fn exec_instruction_0xe9() {
    let (mut cpu, mut mem) = cpu_at(0x100);
    cpu.acc = 0x43;
    cpu.status = 1;
    mem.set_byte(0x100, 0xe9);
    mem.set_byte(0x101, 0x12);
    cpu.step(&mut mem);
    assert_eq!(cpu.acc, 0x31);
    cpu.status = 0;
    mem.set_byte(0x102, 0xe9);
    mem.set_byte(0x103, 0x4);
    cpu.step(&mut mem);
    assert_eq!(cpu.acc, 0x2c);
    cpu.acc = 0x50;
    cpu.status = 1;
    mem.set_byte(0x104, 0xe9);
    mem.set_byte(0x105, 0xb0);
    cpu.step(&mut mem);
    assert_eq!(cpu.acc, 0xa0);
    assert!(cpu.status & (1 << 6) > 0);
}

#[test]
fn irq() {
    let mut cpu = CPU::new();
    let mut mem = FlatMemory::new();
    cpu.stack = 0xfc;
    cpu.pc = 0x1234;
    mem.set_byte(0xfffe, 0x20);
    mem.set_byte(0xffff, 0x40);
    cpu.status = flags::FLAG_CARRY | flags::FLAG_INTERRUPT_DISABLE;
    cpu.interrupt_request(&mut mem);
    assert_eq!(cpu.pc, 0x1234);

    cpu.status = flags::FLAG_CARRY;
    cpu.interrupt_request(&mut mem);
    assert_eq!(cpu.pc, 0x4020);
    assert_eq!(mem.get_byte(0x1fc), 0x12);
    assert_eq!(mem.get_byte(0x1fb), 0x34);
    assert_eq!(mem.get_byte(0x1fa), flags::FLAG_CARRY);
}

#[test]
fn nmi_ignores_interrupt_disable() {
    let mut cpu = CPU::new();
    let mut mem = FlatMemory::new();
    cpu.stack = 0xff;
    cpu.pc = 0x8123;
    cpu.status = flags::FLAG_INTERRUPT_DISABLE;
    mem.set_byte(0xfffa, 0x00);
    mem.set_byte(0xfffb, 0x90);
    cpu.nonmaskable_interrupt(&mut mem);
    assert_eq!(cpu.pc, 0x9000);
    assert_eq!(cpu.stack, 0xfc);
    assert_eq!(mem.get_byte(0x1ff), 0x81);
    assert_eq!(mem.get_byte(0x1fe), 0x23);
}

#[test]
fn pushpop() {
    let mut cpu = CPU::new();
    let mut mem = FlatMemory::new();
    cpu.stack = 0xfd;
    cpu.push(&mut mem, 0xa1);
    cpu.push(&mut mem, 0xb2);
    cpu.push(&mut mem, 0xc3);
    assert!(cpu.pop(&mut mem) == 0xc3);
    assert!(cpu.pop(&mut mem) == 0xb2);
    assert!(cpu.pop(&mut mem) == 0xa1);
}

#[test]
fn push_pop() {
    let mut cpu = create_cpu();
    let mut mem = FlatMemory::new();
    cpu.stack = 0xff;
    cpu.acc = 0;
    cpu.push(&mut mem, 0x20);
    cpu.push(&mut mem, 0x45);
    cpu.push(&mut mem, 0xab);
    assert_eq!(cpu.stack, 0xfc);
    assert_eq!(cpu.pop(&mut mem), 0xab);
    assert_eq!(cpu.pop(&mut mem), 0x45);
    assert_eq!(cpu.pop(&mut mem), 0x20);
    assert_eq!(cpu.stack, 0xff);
}

#[test]
fn addr_absolute() {
    let (mut cpu, mut mem) = cpu_at(99);
    mem.ram[100] = 0x41;
    mem.ram[101] = 0xc0;
    cpu.pc = 99;
    assert!(cpu.get_address_absolute(&mut mem) == 0xc041);
}

#[test]
fn addr_absolute_x() {
    let (mut cpu, mut mem) = cpu_at(99);
    mem.ram[100] = 0xb0;
    mem.ram[101] = 0x08;
    cpu.x = 5;
    assert!(cpu.get_address_absolute_x(&mut mem) == 0x8b5);
}

#[test]
fn addr_absolute_y() {
    let (mut cpu, mut mem) = cpu_at(99);
    mem.ram[100] = 0xbb;
    mem.ram[101] = 0xaa;
    cpu.y = 2;
    assert!(cpu.get_address_absolute_y(&mut mem) == 0xaabd);
}

#[test]
fn addr_indirect() {
    let (cpu, mut mem) = cpu_at(0x1f);
    mem.ram[0x20] = 0x40;
    mem.ram[0x21] = 0x00;
    mem.ram[0x40] = 0xca;
    mem.ram[0x41] = 0xb0;
    assert!(cpu.get_address_indirect(&mut mem) == 0xb0ca);
}

#[test]
fn addr_indirect_x() {
    let (mut cpu, mut mem) = cpu_at(0x1f);
    mem.ram[0x20] = 0x01;
    mem.ram[0x21] = 0x00;
    mem.ram[0x05] = 0x11;
    mem.ram[0x06] = 0x5c;
    cpu.x = 4;
    assert!(cpu.get_address_indexed_indirect(&mut mem) == 0x5c11);
}

#[test]
fn addr_indirect_y() {
    let (mut cpu, mut mem) = cpu_at(0x1f);
    mem.ram[0x20] = 0x33;
    mem.ram[0x21] = 0x00;
    mem.ram[0x33] = 0xc0;
    mem.ram[0x34] = 0xab;
    cpu.y = 0xd;
    assert!(cpu.get_address_indirect_indexed(&mut mem) == 0xabcd);
}

#[test]
fn zeropage_x_wraps_in_page_zero() {
    let (mut cpu, mut mem) = cpu_at(0x200);
    mem.ram[0x201] = 0xf0;
    cpu.x = 0x20;
    assert_eq!(cpu.get_address_zeropage_x(&mut mem), 0x10);
}

// The carry expectations follow the rule that C is set when the register
// is at least the operand.
#[test]
fn ops_compare() {
    let mut cpu = CPU::new();
    cpu.compare(0xf, 0x4);
    assert!(cpu.status & (1 << 7) == 0); // negative
    assert!(cpu.status & (1 << 1) == 0); // zero
    assert!(cpu.status & 1 == 1); // carry
    cpu.status = 0;
    cpu.compare(0xf0, 0x2);
    assert!(cpu.status & (1 << 7) > 0);
    assert!(cpu.status & (1 << 1) == 0);
    assert!(cpu.status & 1 == 1);
    cpu.status = 0;
    cpu.compare(0xf, 0x12);
    assert!(cpu.status & (1 << 7) > 0);
    assert!(cpu.status & (1 << 1) == 0);
    assert!(cpu.status & 1 == 0);
    cpu.status = 0;
    cpu.compare(0x20, 0x20);
    assert!(cpu.status & (1 << 7) == 0);
    assert!(cpu.status & (1 << 1) > 0);
    assert!(cpu.status & 1 == 1);
}

#[test]
fn cpu_compare() {
    let mut cpu = create_cpu();
    cpu.compare(0xf, 0x4);
    assert!(cpu.status & (1 << 7) == 0);
    assert!(cpu.status & (1 << 1) == 0);
    assert!(cpu.status & 1 == 1);
    cpu.status = 0;
    cpu.compare(0xf0, 0x2);
    assert!(cpu.status & (1 << 7) > 0);
    assert!(cpu.status & (1 << 1) == 0);
    assert!(cpu.status & 1 == 1);
    cpu.status = 0;
    cpu.compare(0xf, 0x12);
    assert!(cpu.status & (1 << 7) > 0);
    assert!(cpu.status & (1 << 1) == 0);
    assert!(cpu.status & 1 == 0);
    cpu.status = 0;
    cpu.compare(0x20, 0x20);
    assert!(cpu.status & (1 << 7) == 0);
    assert!(cpu.status & (1 << 1) > 0);
    assert!(cpu.status & 1 == 1);
}

#[test]
fn ops_jump() {
    let mut cpu = CPU::new();
    cpu.pc = 0x1000;
    cpu.jump_pc(0x70);
    assert_eq!(cpu.pc, 0x1070);
    cpu.jump_pc(0xf);
    assert_eq!(cpu.pc, 0x107f);
    cpu.jump_pc(0x80);
    assert_eq!(cpu.pc, 0xfff);
}

#[test]
fn cpu_jump() {
    let mut cpu = create_cpu();
    cpu.set_pc(0x1000);
    cpu.jump_pc(0x70);
    assert_eq!(cpu.pc, 0x1070);
    cpu.jump_pc(0xf);
    assert_eq!(cpu.pc, 0x107f);
    cpu.jump_pc(0x80);
    assert_eq!(cpu.pc, 0xfff);
}

#[test]
fn adc() {
    let mut cpu = create_cpu();
    cpu.acc = 0;
    cpu.adc(0);
    assert!(cpu.acc == 0);
    assert!(cpu.status & (1 << 7) == 0);
    assert!(cpu.status & (1 << 1) == 1 << 1);
    assert!(cpu.status & 1 == 0);
}

#[test]
fn adc_flags_on_signed_overflow() {
    let mut cpu = CPU::new();
    cpu.acc = 0x7f;
    cpu.status = flags::FLAG_CARRY;
    cpu.adc(0x00);
    assert_eq!(cpu.acc, 0x80);
    assert_eq!(cpu.status, flags::FLAG_NEGATIVE | flags::FLAG_OVERFLOW);
    cpu.adc(0x80);
    assert_eq!(cpu.acc, 0x00);
    assert_eq!(cpu.status, flags::FLAG_CARRY | flags::FLAG_ZERO | flags::FLAG_OVERFLOW);
}

#[test]
fn cmp_register_equal_and_below() {
    let (mut cpu, mut mem) = cpu_at(0x300);
    cpu.acc = 0x40;
    mem.set_byte(0x300, 0xc9); // CMP #$40
    mem.set_byte(0x301, 0x40);
    cpu.step(&mut mem);
    assert_eq!(cpu.status, flags::FLAG_CARRY | flags::FLAG_ZERO);
    mem.set_byte(0x302, 0xc9); // CMP #$41
    mem.set_byte(0x303, 0x41);
    cpu.step(&mut mem);
    assert_eq!(cpu.status, flags::FLAG_NEGATIVE);
}

#[test]
fn program_load_add_then_break() {
    let (mut cpu, mut mem) = cpu_at(0x1000);
    cpu.stack = 0xfd;
    for (i, b) in [0xa9u8, 0x22, 0x69, 0x11, 0x00].iter().enumerate() {
        mem.set_byte(0x1000 + i as u16, *b);
    }
    mem.set_byte(0xfffe, 0x00);
    mem.set_byte(0xffff, 0xc0);
    cpu.step(&mut mem);
    cpu.step(&mut mem);
    assert_eq!(cpu.acc, 0x33);
    assert_eq!(cpu.status & flags::FLAG_CARRY, 0);
    assert_eq!(cpu.pc, 0x1004);
    let status = cpu.status;
    let cycles = cpu.step(&mut mem);
    assert_eq!(cycles, 7);
    assert_eq!(cpu.pc, 0xc000);
    assert_eq!(mem.get_byte(0x1fd), 0x10);
    assert_eq!(mem.get_byte(0x1fc), 0x06);
    assert_eq!(mem.get_byte(0x1fb), status | 0x30);
}

#[test]
fn branch_forward_and_not_taken() {
    let (mut cpu, mut mem) = cpu_at(0x107f);
    mem.set_byte(0x107f, 0x10);
    mem.set_byte(0x1080, 0x05);
    assert_eq!(cpu.step(&mut mem), 3);
    assert_eq!(cpu.pc, 0x1086);
    cpu.pc = 0x107f;
    cpu.status = flags::FLAG_NEGATIVE;
    assert_eq!(cpu.step(&mut mem), 2);
    assert_eq!(cpu.pc, 0x1081);
}

#[test]
fn reset_loads_vector() {
    let mut cpu = CPU::new();
    let mut mem = FlatMemory::new();
    cpu.acc = 9;
    cpu.status = 0xff;
    mem.set_byte(0xfffc, 0x34);
    mem.set_byte(0xfffd, 0x12);
    cpu.reset(&mut mem);
    assert_eq!(cpu.pc, 0x1234);
    assert_eq!(cpu.stack, 0xfd);
    assert_eq!(cpu.get_register(Register::Acc), 0);
    assert_eq!(cpu.get_register(Register::Status), 0);
}

#[test]
fn plp_drops_break_bits() {
    let (mut cpu, mut mem) = cpu_at(0x400);
    cpu.stack = 0xfd;
    cpu.status = flags::FLAG_CARRY;
    mem.set_byte(0x400, 0x08); // PHP
    mem.set_byte(0x401, 0x28); // PLP
    cpu.step(&mut mem);
    assert_eq!(mem.get_byte(0x1fd), flags::FLAG_CARRY | 0x30);
    cpu.step(&mut mem);
    assert_eq!(cpu.status, flags::FLAG_CARRY);
    assert_eq!(cpu.stack, 0xfd);
}
