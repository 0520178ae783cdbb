use vstd::prelude::*;
use crate::cpu::CPU;
use crate::flags::{
    with_flag, with_nz, FLAG_CARRY, FLAG_DECIMAL, FLAG_INTERRUPT_DISABLE, FLAG_NEGATIVE,
    FLAG_OVERFLOW, FLAG_ZERO,
};
use crate::interrupts::{entered, IRQ_VECTOR};
use crate::memory::{add16, dec8, inc8, stack_addr, word, Memory};
use crate::ops::{
    adc_spec, bit_status, branch_target, carry_of, compare_status, pulled_status, pushed_status,
    written,
};

verus! {

/// The operation an opcode performs.
#[derive(Clone, Copy, PartialEq, Eq, Structural, Debug)]
pub enum Op {
    Adc, And, Asl, Bcc, Bcs, Beq, Bit, Bmi, Bne, Bpl, Brk, Bvc, Bvs, Clc, Cld, Cli, Clv, Cmp,
    Cpx, Cpy, Dec, Dex, Dey, Eor, Inc, Inx, Iny, Jmp, Jsr, Lda, Ldx, Ldy, Lsr, Nop, Ora, Pha,
    Php, Pla, Plp, Rol, Ror, Rti, Rts, Sbc, Sec, Sed, Sei, Sta, Stx, Sty, Tax, Tay, Tsx, Txa,
    Txs, Tya,
    /// A halting opcode, run as a one-byte no-op.
    Kil,
    /// An undocumented opcode, run as a no-op of its nominal length.
    Illegal,
}

/// Addressing mode of an opcode.
#[derive(Clone, Copy, PartialEq, Eq, Structural, Debug)]
pub enum Mode {
    Implied,
    Accumulator,
    Immediate,
    ZeroPage,
    ZeroPageX,
    ZeroPageY,
    Absolute,
    AbsoluteX,
    AbsoluteY,
    Indirect,
    IndexedIndirect,
    IndirectIndexed,
    Relative,
}

/// One row of the opcode table: operation, addressing mode, length in
/// bytes and base cycle count.
#[derive(Clone, Copy, PartialEq, Eq, Structural, Debug)]
pub struct Instr {
    pub op: Op,
    pub mode: Mode,
    pub length: u8,
    pub cycles: u8,
}

/// The opcode table: the one place that gives each opcode its meaning,
/// length and cycle count.
#[verifier::opaque]
pub open spec fn opcode(b: u8) -> Instr {
    match b {
        0x00 => Instr { op: Op::Brk, mode: Mode::Implied, length: 2, cycles: 7 },
        0x01 => Instr { op: Op::Ora, mode: Mode::IndexedIndirect, length: 2, cycles: 6 },
        0x02 => Instr { op: Op::Kil, mode: Mode::Implied, length: 1, cycles: 3 },
        0x03 => Instr { op: Op::Illegal, mode: Mode::Implied, length: 2, cycles: 1 },
        0x04 => Instr { op: Op::Illegal, mode: Mode::Implied, length: 2, cycles: 1 },
        0x05 => Instr { op: Op::Ora, mode: Mode::ZeroPage, length: 2, cycles: 3 },
        0x06 => Instr { op: Op::Asl, mode: Mode::ZeroPage, length: 2, cycles: 5 },
        0x07 => Instr { op: Op::Illegal, mode: Mode::Implied, length: 2, cycles: 1 },
        0x08 => Instr { op: Op::Php, mode: Mode::Implied, length: 1, cycles: 3 },
        0x09 => Instr { op: Op::Ora, mode: Mode::Immediate, length: 2, cycles: 2 },
        0x0a => Instr { op: Op::Asl, mode: Mode::Accumulator, length: 1, cycles: 2 },
        0x0b => Instr { op: Op::Illegal, mode: Mode::Implied, length: 2, cycles: 1 },
        0x0c => Instr { op: Op::Illegal, mode: Mode::Implied, length: 3, cycles: 1 },
        0x0d => Instr { op: Op::Ora, mode: Mode::Absolute, length: 3, cycles: 4 },
        0x0e => Instr { op: Op::Asl, mode: Mode::Absolute, length: 3, cycles: 6 },
        0x0f => Instr { op: Op::Illegal, mode: Mode::Implied, length: 3, cycles: 1 },
        0x10 => Instr { op: Op::Bpl, mode: Mode::Relative, length: 2, cycles: 2 },
        0x11 => Instr { op: Op::Ora, mode: Mode::IndirectIndexed, length: 2, cycles: 5 },
        0x12 => Instr { op: Op::Kil, mode: Mode::Implied, length: 1, cycles: 3 },
        0x13 => Instr { op: Op::Illegal, mode: Mode::Implied, length: 2, cycles: 1 },
        0x14 => Instr { op: Op::Illegal, mode: Mode::Implied, length: 2, cycles: 2 },
        0x15 => Instr { op: Op::Ora, mode: Mode::ZeroPageX, length: 2, cycles: 4 },
        0x16 => Instr { op: Op::Asl, mode: Mode::ZeroPageX, length: 2, cycles: 6 },
        0x17 => Instr { op: Op::Illegal, mode: Mode::Implied, length: 2, cycles: 1 },
        0x18 => Instr { op: Op::Clc, mode: Mode::Implied, length: 1, cycles: 2 },
        0x19 => Instr { op: Op::Ora, mode: Mode::AbsoluteY, length: 3, cycles: 4 },
        0x1a => Instr { op: Op::Illegal, mode: Mode::Implied, length: 1, cycles: 1 },
        0x1b => Instr { op: Op::Illegal, mode: Mode::Implied, length: 3, cycles: 1 },
        0x1c => Instr { op: Op::Illegal, mode: Mode::Implied, length: 3, cycles: 1 },
        0x1d => Instr { op: Op::Ora, mode: Mode::AbsoluteX, length: 3, cycles: 4 },
        0x1e => Instr { op: Op::Asl, mode: Mode::AbsoluteX, length: 3, cycles: 7 },
        0x1f => Instr { op: Op::Illegal, mode: Mode::Implied, length: 3, cycles: 1 },
        0x20 => Instr { op: Op::Jsr, mode: Mode::Absolute, length: 3, cycles: 6 },
        0x21 => Instr { op: Op::And, mode: Mode::IndexedIndirect, length: 2, cycles: 6 },
        0x22 => Instr { op: Op::Kil, mode: Mode::Implied, length: 1, cycles: 3 },
        0x23 => Instr { op: Op::Illegal, mode: Mode::Implied, length: 2, cycles: 1 },
        0x24 => Instr { op: Op::Bit, mode: Mode::ZeroPage, length: 2, cycles: 3 },
        0x25 => Instr { op: Op::And, mode: Mode::ZeroPage, length: 2, cycles: 3 },
        0x26 => Instr { op: Op::Rol, mode: Mode::ZeroPage, length: 2, cycles: 5 },
        0x27 => Instr { op: Op::Illegal, mode: Mode::Implied, length: 2, cycles: 1 },
        0x28 => Instr { op: Op::Plp, mode: Mode::Implied, length: 1, cycles: 4 },
        0x29 => Instr { op: Op::And, mode: Mode::Immediate, length: 2, cycles: 2 },
        0x2a => Instr { op: Op::Rol, mode: Mode::Accumulator, length: 1, cycles: 2 },
        0x2b => Instr { op: Op::Illegal, mode: Mode::Implied, length: 2, cycles: 1 },
        0x2c => Instr { op: Op::Bit, mode: Mode::Absolute, length: 3, cycles: 4 },
        0x2d => Instr { op: Op::And, mode: Mode::Absolute, length: 3, cycles: 4 },
        0x2e => Instr { op: Op::Rol, mode: Mode::Absolute, length: 3, cycles: 6 },
        0x2f => Instr { op: Op::Illegal, mode: Mode::Implied, length: 3, cycles: 1 },
        0x30 => Instr { op: Op::Bmi, mode: Mode::Relative, length: 2, cycles: 2 },
        0x31 => Instr { op: Op::And, mode: Mode::IndirectIndexed, length: 2, cycles: 5 },
        0x32 => Instr { op: Op::Kil, mode: Mode::Implied, length: 1, cycles: 3 },
        0x33 => Instr { op: Op::Illegal, mode: Mode::Implied, length: 2, cycles: 1 },
        0x34 => Instr { op: Op::Illegal, mode: Mode::Implied, length: 2, cycles: 2 },
        0x35 => Instr { op: Op::And, mode: Mode::ZeroPageX, length: 2, cycles: 4 },
        0x36 => Instr { op: Op::Rol, mode: Mode::ZeroPageX, length: 2, cycles: 6 },
        0x37 => Instr { op: Op::Illegal, mode: Mode::Implied, length: 2, cycles: 1 },
        0x38 => Instr { op: Op::Sec, mode: Mode::Implied, length: 1, cycles: 2 },
        0x39 => Instr { op: Op::And, mode: Mode::AbsoluteY, length: 3, cycles: 4 },
        0x3a => Instr { op: Op::Illegal, mode: Mode::Implied, length: 1, cycles: 1 },
        0x3b => Instr { op: Op::Illegal, mode: Mode::Implied, length: 3, cycles: 1 },
        0x3c => Instr { op: Op::Illegal, mode: Mode::Implied, length: 3, cycles: 1 },
        0x3d => Instr { op: Op::And, mode: Mode::AbsoluteX, length: 3, cycles: 4 },
        0x3e => Instr { op: Op::Rol, mode: Mode::AbsoluteX, length: 3, cycles: 7 },
        0x3f => Instr { op: Op::Illegal, mode: Mode::Implied, length: 3, cycles: 1 },
        0x40 => Instr { op: Op::Rti, mode: Mode::Implied, length: 1, cycles: 6 },
        0x41 => Instr { op: Op::Eor, mode: Mode::IndexedIndirect, length: 2, cycles: 6 },
        0x42 => Instr { op: Op::Kil, mode: Mode::Implied, length: 1, cycles: 3 },
        0x43 => Instr { op: Op::Illegal, mode: Mode::Implied, length: 2, cycles: 1 },
        0x44 => Instr { op: Op::Illegal, mode: Mode::Implied, length: 2, cycles: 1 },
        0x45 => Instr { op: Op::Eor, mode: Mode::ZeroPage, length: 2, cycles: 3 },
        0x46 => Instr { op: Op::Lsr, mode: Mode::ZeroPage, length: 2, cycles: 5 },
        0x47 => Instr { op: Op::Illegal, mode: Mode::Implied, length: 2, cycles: 1 },
        0x48 => Instr { op: Op::Pha, mode: Mode::Implied, length: 1, cycles: 3 },
        0x49 => Instr { op: Op::Eor, mode: Mode::Immediate, length: 2, cycles: 2 },
        0x4a => Instr { op: Op::Lsr, mode: Mode::Accumulator, length: 1, cycles: 2 },
        0x4b => Instr { op: Op::Illegal, mode: Mode::Implied, length: 2, cycles: 1 },
        0x4c => Instr { op: Op::Jmp, mode: Mode::Absolute, length: 3, cycles: 3 },
        0x4d => Instr { op: Op::Eor, mode: Mode::Absolute, length: 3, cycles: 4 },
        0x4e => Instr { op: Op::Lsr, mode: Mode::Absolute, length: 3, cycles: 6 },
        0x4f => Instr { op: Op::Illegal, mode: Mode::Implied, length: 3, cycles: 1 },
        0x50 => Instr { op: Op::Bvc, mode: Mode::Relative, length: 2, cycles: 2 },
        0x51 => Instr { op: Op::Eor, mode: Mode::IndirectIndexed, length: 2, cycles: 5 },
        0x52 => Instr { op: Op::Kil, mode: Mode::Implied, length: 1, cycles: 3 },
        0x53 => Instr { op: Op::Illegal, mode: Mode::Implied, length: 2, cycles: 1 },
        0x54 => Instr { op: Op::Illegal, mode: Mode::Implied, length: 2, cycles: 1 },
        0x55 => Instr { op: Op::Eor, mode: Mode::ZeroPageX, length: 2, cycles: 4 },
        0x56 => Instr { op: Op::Lsr, mode: Mode::ZeroPageX, length: 2, cycles: 6 },
        0x57 => Instr { op: Op::Illegal, mode: Mode::Implied, length: 2, cycles: 1 },
        0x58 => Instr { op: Op::Cli, mode: Mode::Implied, length: 1, cycles: 2 },
        0x59 => Instr { op: Op::Eor, mode: Mode::AbsoluteY, length: 3, cycles: 4 },
        0x5a => Instr { op: Op::Illegal, mode: Mode::Implied, length: 1, cycles: 1 },
        0x5b => Instr { op: Op::Illegal, mode: Mode::Implied, length: 3, cycles: 1 },
        0x5c => Instr { op: Op::Illegal, mode: Mode::Implied, length: 3, cycles: 1 },
        0x5d => Instr { op: Op::Eor, mode: Mode::AbsoluteX, length: 3, cycles: 4 },
        0x5e => Instr { op: Op::Lsr, mode: Mode::AbsoluteX, length: 3, cycles: 7 },
        0x5f => Instr { op: Op::Illegal, mode: Mode::Implied, length: 3, cycles: 1 },
        0x60 => Instr { op: Op::Rts, mode: Mode::Implied, length: 1, cycles: 6 },
        0x61 => Instr { op: Op::Adc, mode: Mode::IndexedIndirect, length: 2, cycles: 6 },
        0x62 => Instr { op: Op::Kil, mode: Mode::Implied, length: 1, cycles: 3 },
        0x63 => Instr { op: Op::Illegal, mode: Mode::Implied, length: 2, cycles: 1 },
        0x64 => Instr { op: Op::Illegal, mode: Mode::Implied, length: 2, cycles: 1 },
        0x65 => Instr { op: Op::Adc, mode: Mode::ZeroPage, length: 2, cycles: 3 },
        0x66 => Instr { op: Op::Ror, mode: Mode::ZeroPage, length: 2, cycles: 5 },
        0x67 => Instr { op: Op::Illegal, mode: Mode::Implied, length: 2, cycles: 1 },
        0x68 => Instr { op: Op::Pla, mode: Mode::Implied, length: 1, cycles: 4 },
        0x69 => Instr { op: Op::Adc, mode: Mode::Immediate, length: 2, cycles: 2 },
        0x6a => Instr { op: Op::Ror, mode: Mode::Accumulator, length: 1, cycles: 2 },
        0x6b => Instr { op: Op::Illegal, mode: Mode::Implied, length: 2, cycles: 1 },
        0x6c => Instr { op: Op::Jmp, mode: Mode::Indirect, length: 3, cycles: 5 },
        0x6d => Instr { op: Op::Adc, mode: Mode::Absolute, length: 3, cycles: 4 },
        0x6e => Instr { op: Op::Ror, mode: Mode::Absolute, length: 3, cycles: 6 },
        0x6f => Instr { op: Op::Illegal, mode: Mode::Implied, length: 3, cycles: 1 },
        0x70 => Instr { op: Op::Bvs, mode: Mode::Relative, length: 2, cycles: 2 },
        0x71 => Instr { op: Op::Adc, mode: Mode::IndirectIndexed, length: 2, cycles: 5 },
        0x72 => Instr { op: Op::Kil, mode: Mode::Implied, length: 1, cycles: 3 },
        0x73 => Instr { op: Op::Illegal, mode: Mode::Implied, length: 2, cycles: 1 },
        0x74 => Instr { op: Op::Illegal, mode: Mode::Implied, length: 2, cycles: 1 },
        0x75 => Instr { op: Op::Adc, mode: Mode::ZeroPageX, length: 2, cycles: 4 },
        0x76 => Instr { op: Op::Ror, mode: Mode::ZeroPageX, length: 2, cycles: 6 },
        0x77 => Instr { op: Op::Illegal, mode: Mode::Implied, length: 2, cycles: 1 },
        0x78 => Instr { op: Op::Sei, mode: Mode::Implied, length: 1, cycles: 2 },
        0x79 => Instr { op: Op::Adc, mode: Mode::AbsoluteY, length: 3, cycles: 4 },
        0x7a => Instr { op: Op::Illegal, mode: Mode::Implied, length: 1, cycles: 1 },
        0x7b => Instr { op: Op::Illegal, mode: Mode::Implied, length: 3, cycles: 1 },
        0x7c => Instr { op: Op::Illegal, mode: Mode::Implied, length: 3, cycles: 1 },
        0x7d => Instr { op: Op::Adc, mode: Mode::AbsoluteX, length: 3, cycles: 4 },
        0x7e => Instr { op: Op::Ror, mode: Mode::AbsoluteX, length: 3, cycles: 7 },
        0x7f => Instr { op: Op::Illegal, mode: Mode::Implied, length: 3, cycles: 1 },
        0x80 => Instr { op: Op::Illegal, mode: Mode::Implied, length: 1, cycles: 1 },
        0x81 => Instr { op: Op::Sta, mode: Mode::IndexedIndirect, length: 2, cycles: 6 },
        0x82 => Instr { op: Op::Illegal, mode: Mode::Implied, length: 1, cycles: 1 },
        0x83 => Instr { op: Op::Illegal, mode: Mode::Implied, length: 2, cycles: 6 },
        0x84 => Instr { op: Op::Sty, mode: Mode::ZeroPage, length: 2, cycles: 3 },
        0x85 => Instr { op: Op::Sta, mode: Mode::ZeroPage, length: 2, cycles: 3 },
        0x86 => Instr { op: Op::Stx, mode: Mode::ZeroPage, length: 2, cycles: 3 },
        0x87 => Instr { op: Op::Illegal, mode: Mode::Implied, length: 2, cycles: 1 },
        0x88 => Instr { op: Op::Dey, mode: Mode::Implied, length: 1, cycles: 2 },
        0x89 => Instr { op: Op::Illegal, mode: Mode::Implied, length: 1, cycles: 1 },
        0x8a => Instr { op: Op::Txa, mode: Mode::Implied, length: 1, cycles: 2 },
        0x8b => Instr { op: Op::Illegal, mode: Mode::Implied, length: 2, cycles: 1 },
        0x8c => Instr { op: Op::Sty, mode: Mode::Absolute, length: 3, cycles: 4 },
        0x8d => Instr { op: Op::Sta, mode: Mode::Absolute, length: 3, cycles: 4 },
        0x8e => Instr { op: Op::Stx, mode: Mode::Absolute, length: 3, cycles: 4 },
        0x8f => Instr { op: Op::Illegal, mode: Mode::Implied, length: 3, cycles: 1 },
        0x90 => Instr { op: Op::Bcc, mode: Mode::Relative, length: 2, cycles: 2 },
        0x91 => Instr { op: Op::Sta, mode: Mode::IndirectIndexed, length: 2, cycles: 6 },
        0x92 => Instr { op: Op::Kil, mode: Mode::Implied, length: 1, cycles: 3 },
        0x93 => Instr { op: Op::Illegal, mode: Mode::Implied, length: 2, cycles: 1 },
        0x94 => Instr { op: Op::Sty, mode: Mode::ZeroPageX, length: 2, cycles: 4 },
        0x95 => Instr { op: Op::Sta, mode: Mode::ZeroPageX, length: 2, cycles: 4 },
        0x96 => Instr { op: Op::Stx, mode: Mode::ZeroPageY, length: 2, cycles: 4 },
        0x97 => Instr { op: Op::Illegal, mode: Mode::Implied, length: 2, cycles: 1 },
        0x98 => Instr { op: Op::Tya, mode: Mode::Implied, length: 1, cycles: 2 },
        0x99 => Instr { op: Op::Sta, mode: Mode::AbsoluteY, length: 3, cycles: 5 },
        0x9a => Instr { op: Op::Txs, mode: Mode::Implied, length: 1, cycles: 2 },
        0x9b => Instr { op: Op::Illegal, mode: Mode::Implied, length: 3, cycles: 1 },
        0x9c => Instr { op: Op::Illegal, mode: Mode::Implied, length: 3, cycles: 1 },
        0x9d => Instr { op: Op::Sta, mode: Mode::AbsoluteX, length: 3, cycles: 5 },
        0x9e => Instr { op: Op::Illegal, mode: Mode::Implied, length: 1, cycles: 1 },
        0x9f => Instr { op: Op::Illegal, mode: Mode::Implied, length: 3, cycles: 1 },
        0xa0 => Instr { op: Op::Ldy, mode: Mode::Immediate, length: 2, cycles: 2 },
        0xa1 => Instr { op: Op::Lda, mode: Mode::IndexedIndirect, length: 2, cycles: 6 },
        0xa2 => Instr { op: Op::Ldx, mode: Mode::Immediate, length: 2, cycles: 2 },
        0xa3 => Instr { op: Op::Illegal, mode: Mode::Implied, length: 2, cycles: 1 },
        0xa4 => Instr { op: Op::Ldy, mode: Mode::ZeroPage, length: 2, cycles: 3 },
        0xa5 => Instr { op: Op::Lda, mode: Mode::ZeroPage, length: 2, cycles: 3 },
        0xa6 => Instr { op: Op::Ldx, mode: Mode::ZeroPage, length: 2, cycles: 3 },
        0xa7 => Instr { op: Op::Illegal, mode: Mode::Implied, length: 2, cycles: 1 },
        0xa8 => Instr { op: Op::Tay, mode: Mode::Implied, length: 1, cycles: 2 },
        0xa9 => Instr { op: Op::Lda, mode: Mode::Immediate, length: 2, cycles: 2 },
        0xaa => Instr { op: Op::Tax, mode: Mode::Implied, length: 1, cycles: 2 },
        0xab => Instr { op: Op::Illegal, mode: Mode::Implied, length: 2, cycles: 1 },
        0xac => Instr { op: Op::Ldy, mode: Mode::Absolute, length: 3, cycles: 4 },
        0xad => Instr { op: Op::Lda, mode: Mode::Absolute, length: 3, cycles: 4 },
        0xae => Instr { op: Op::Ldx, mode: Mode::Absolute, length: 3, cycles: 4 },
        0xaf => Instr { op: Op::Illegal, mode: Mode::Implied, length: 3, cycles: 1 },
        0xb0 => Instr { op: Op::Bcs, mode: Mode::Relative, length: 2, cycles: 2 },
        0xb1 => Instr { op: Op::Lda, mode: Mode::IndirectIndexed, length: 2, cycles: 5 },
        0xb2 => Instr { op: Op::Kil, mode: Mode::Implied, length: 1, cycles: 3 },
        0xb3 => Instr { op: Op::Illegal, mode: Mode::Implied, length: 2, cycles: 1 },
        0xb4 => Instr { op: Op::Ldy, mode: Mode::ZeroPageX, length: 2, cycles: 4 },
        0xb5 => Instr { op: Op::Lda, mode: Mode::ZeroPageX, length: 2, cycles: 4 },
        0xb6 => Instr { op: Op::Ldx, mode: Mode::ZeroPageY, length: 2, cycles: 4 },
        0xb7 => Instr { op: Op::Illegal, mode: Mode::Implied, length: 2, cycles: 1 },
        0xb8 => Instr { op: Op::Clv, mode: Mode::Implied, length: 1, cycles: 2 },
        0xb9 => Instr { op: Op::Lda, mode: Mode::AbsoluteY, length: 3, cycles: 4 },
        0xba => Instr { op: Op::Tsx, mode: Mode::Implied, length: 1, cycles: 2 },
        0xbb => Instr { op: Op::Illegal, mode: Mode::Implied, length: 3, cycles: 1 },
        0xbc => Instr { op: Op::Ldy, mode: Mode::AbsoluteX, length: 3, cycles: 4 },
        0xbd => Instr { op: Op::Lda, mode: Mode::AbsoluteX, length: 3, cycles: 4 },
        0xbe => Instr { op: Op::Ldx, mode: Mode::AbsoluteY, length: 3, cycles: 4 },
        0xbf => Instr { op: Op::Illegal, mode: Mode::Implied, length: 3, cycles: 1 },
        0xc0 => Instr { op: Op::Cpy, mode: Mode::Immediate, length: 2, cycles: 2 },
        0xc1 => Instr { op: Op::Cmp, mode: Mode::IndexedIndirect, length: 2, cycles: 6 },
        0xc2 => Instr { op: Op::Illegal, mode: Mode::Implied, length: 2, cycles: 1 },
        0xc3 => Instr { op: Op::Illegal, mode: Mode::Implied, length: 2, cycles: 1 },
        0xc4 => Instr { op: Op::Cpy, mode: Mode::ZeroPage, length: 2, cycles: 3 },
        0xc5 => Instr { op: Op::Cmp, mode: Mode::ZeroPage, length: 2, cycles: 3 },
        0xc6 => Instr { op: Op::Dec, mode: Mode::ZeroPage, length: 2, cycles: 5 },
        0xc7 => Instr { op: Op::Illegal, mode: Mode::Implied, length: 2, cycles: 1 },
        0xc8 => Instr { op: Op::Iny, mode: Mode::Implied, length: 1, cycles: 2 },
        0xc9 => Instr { op: Op::Cmp, mode: Mode::Immediate, length: 2, cycles: 2 },
        0xca => Instr { op: Op::Dex, mode: Mode::Implied, length: 1, cycles: 2 },
        0xcb => Instr { op: Op::Illegal, mode: Mode::Implied, length: 2, cycles: 1 },
        0xcc => Instr { op: Op::Cpy, mode: Mode::Absolute, length: 3, cycles: 4 },
        0xcd => Instr { op: Op::Cmp, mode: Mode::Absolute, length: 3, cycles: 4 },
        0xce => Instr { op: Op::Dec, mode: Mode::Absolute, length: 3, cycles: 6 },
        0xcf => Instr { op: Op::Illegal, mode: Mode::Implied, length: 3, cycles: 1 },
        0xd0 => Instr { op: Op::Bne, mode: Mode::Relative, length: 2, cycles: 2 },
        0xd1 => Instr { op: Op::Cmp, mode: Mode::IndirectIndexed, length: 2, cycles: 5 },
        0xd2 => Instr { op: Op::Kil, mode: Mode::Implied, length: 1, cycles: 3 },
        0xd3 => Instr { op: Op::Illegal, mode: Mode::Implied, length: 2, cycles: 1 },
        0xd4 => Instr { op: Op::Illegal, mode: Mode::Implied, length: 2, cycles: 1 },
        0xd5 => Instr { op: Op::Cmp, mode: Mode::ZeroPageX, length: 2, cycles: 4 },
        0xd6 => Instr { op: Op::Dec, mode: Mode::ZeroPageX, length: 2, cycles: 6 },
        0xd7 => Instr { op: Op::Illegal, mode: Mode::Implied, length: 2, cycles: 1 },
        0xd8 => Instr { op: Op::Cld, mode: Mode::Implied, length: 1, cycles: 2 },
        0xd9 => Instr { op: Op::Cmp, mode: Mode::AbsoluteY, length: 3, cycles: 4 },
        0xda => Instr { op: Op::Illegal, mode: Mode::Implied, length: 1, cycles: 1 },
        0xdb => Instr { op: Op::Illegal, mode: Mode::Implied, length: 3, cycles: 1 },
        0xdc => Instr { op: Op::Illegal, mode: Mode::Implied, length: 3, cycles: 1 },
        0xdd => Instr { op: Op::Cmp, mode: Mode::AbsoluteX, length: 3, cycles: 4 },
        0xde => Instr { op: Op::Dec, mode: Mode::AbsoluteX, length: 3, cycles: 7 },
        0xdf => Instr { op: Op::Illegal, mode: Mode::Implied, length: 3, cycles: 1 },
        0xe0 => Instr { op: Op::Cpx, mode: Mode::Immediate, length: 2, cycles: 2 },
        0xe1 => Instr { op: Op::Sbc, mode: Mode::IndexedIndirect, length: 2, cycles: 6 },
        0xe2 => Instr { op: Op::Illegal, mode: Mode::Implied, length: 2, cycles: 1 },
        0xe3 => Instr { op: Op::Illegal, mode: Mode::Implied, length: 2, cycles: 1 },
        0xe4 => Instr { op: Op::Cpx, mode: Mode::ZeroPage, length: 2, cycles: 3 },
        0xe5 => Instr { op: Op::Sbc, mode: Mode::ZeroPage, length: 2, cycles: 3 },
        0xe6 => Instr { op: Op::Inc, mode: Mode::ZeroPage, length: 2, cycles: 5 },
        0xe7 => Instr { op: Op::Illegal, mode: Mode::Implied, length: 2, cycles: 1 },
        0xe8 => Instr { op: Op::Inx, mode: Mode::Implied, length: 1, cycles: 2 },
        0xe9 => Instr { op: Op::Sbc, mode: Mode::Immediate, length: 2, cycles: 2 },
        0xea => Instr { op: Op::Nop, mode: Mode::Implied, length: 1, cycles: 2 },
        0xeb => Instr { op: Op::Illegal, mode: Mode::Implied, length: 2, cycles: 1 },
        0xec => Instr { op: Op::Cpx, mode: Mode::Absolute, length: 3, cycles: 4 },
        0xed => Instr { op: Op::Sbc, mode: Mode::Absolute, length: 3, cycles: 4 },
        0xee => Instr { op: Op::Inc, mode: Mode::Absolute, length: 3, cycles: 6 },
        0xef => Instr { op: Op::Illegal, mode: Mode::Implied, length: 3, cycles: 1 },
        0xf0 => Instr { op: Op::Beq, mode: Mode::Relative, length: 2, cycles: 2 },
        0xf1 => Instr { op: Op::Sbc, mode: Mode::IndirectIndexed, length: 2, cycles: 5 },
        0xf2 => Instr { op: Op::Kil, mode: Mode::Implied, length: 1, cycles: 3 },
        0xf3 => Instr { op: Op::Illegal, mode: Mode::Implied, length: 2, cycles: 1 },
        0xf4 => Instr { op: Op::Illegal, mode: Mode::Implied, length: 2, cycles: 1 },
        0xf5 => Instr { op: Op::Sbc, mode: Mode::ZeroPageX, length: 2, cycles: 4 },
        0xf6 => Instr { op: Op::Inc, mode: Mode::ZeroPageX, length: 2, cycles: 6 },
        0xf7 => Instr { op: Op::Illegal, mode: Mode::Implied, length: 2, cycles: 1 },
        0xf8 => Instr { op: Op::Sed, mode: Mode::Implied, length: 1, cycles: 2 },
        0xf9 => Instr { op: Op::Sbc, mode: Mode::AbsoluteY, length: 3, cycles: 4 },
        0xfa => Instr { op: Op::Illegal, mode: Mode::Implied, length: 1, cycles: 1 },
        0xfb => Instr { op: Op::Illegal, mode: Mode::Implied, length: 3, cycles: 1 },
        0xfc => Instr { op: Op::Illegal, mode: Mode::Implied, length: 3, cycles: 1 },
        0xfd => Instr { op: Op::Sbc, mode: Mode::AbsoluteX, length: 3, cycles: 4 },
        0xfe => Instr { op: Op::Inc, mode: Mode::AbsoluteX, length: 3, cycles: 7 },
        _ => Instr { op: Op::Illegal, mode: Mode::Implied, length: 3, cycles: 1 },
    }
}

/// Looks an opcode up in the table.
pub fn decode(b: u8) -> (r: Instr)
    ensures
        r == opcode(b),
{
    proof {
        reveal(opcode);
    }
    match b {
        0x00 => Instr { op: Op::Brk, mode: Mode::Implied, length: 2, cycles: 7 },
        0x01 => Instr { op: Op::Ora, mode: Mode::IndexedIndirect, length: 2, cycles: 6 },
        0x02 => Instr { op: Op::Kil, mode: Mode::Implied, length: 1, cycles: 3 },
        0x03 => Instr { op: Op::Illegal, mode: Mode::Implied, length: 2, cycles: 1 },
        0x04 => Instr { op: Op::Illegal, mode: Mode::Implied, length: 2, cycles: 1 },
        0x05 => Instr { op: Op::Ora, mode: Mode::ZeroPage, length: 2, cycles: 3 },
        0x06 => Instr { op: Op::Asl, mode: Mode::ZeroPage, length: 2, cycles: 5 },
        0x07 => Instr { op: Op::Illegal, mode: Mode::Implied, length: 2, cycles: 1 },
        0x08 => Instr { op: Op::Php, mode: Mode::Implied, length: 1, cycles: 3 },
        0x09 => Instr { op: Op::Ora, mode: Mode::Immediate, length: 2, cycles: 2 },
        0x0a => Instr { op: Op::Asl, mode: Mode::Accumulator, length: 1, cycles: 2 },
        0x0b => Instr { op: Op::Illegal, mode: Mode::Implied, length: 2, cycles: 1 },
        0x0c => Instr { op: Op::Illegal, mode: Mode::Implied, length: 3, cycles: 1 },
        0x0d => Instr { op: Op::Ora, mode: Mode::Absolute, length: 3, cycles: 4 },
        0x0e => Instr { op: Op::Asl, mode: Mode::Absolute, length: 3, cycles: 6 },
        0x0f => Instr { op: Op::Illegal, mode: Mode::Implied, length: 3, cycles: 1 },
        0x10 => Instr { op: Op::Bpl, mode: Mode::Relative, length: 2, cycles: 2 },
        0x11 => Instr { op: Op::Ora, mode: Mode::IndirectIndexed, length: 2, cycles: 5 },
        0x12 => Instr { op: Op::Kil, mode: Mode::Implied, length: 1, cycles: 3 },
        0x13 => Instr { op: Op::Illegal, mode: Mode::Implied, length: 2, cycles: 1 },
        0x14 => Instr { op: Op::Illegal, mode: Mode::Implied, length: 2, cycles: 2 },
        0x15 => Instr { op: Op::Ora, mode: Mode::ZeroPageX, length: 2, cycles: 4 },
        0x16 => Instr { op: Op::Asl, mode: Mode::ZeroPageX, length: 2, cycles: 6 },
        0x17 => Instr { op: Op::Illegal, mode: Mode::Implied, length: 2, cycles: 1 },
        0x18 => Instr { op: Op::Clc, mode: Mode::Implied, length: 1, cycles: 2 },
        0x19 => Instr { op: Op::Ora, mode: Mode::AbsoluteY, length: 3, cycles: 4 },
        0x1a => Instr { op: Op::Illegal, mode: Mode::Implied, length: 1, cycles: 1 },
        0x1b => Instr { op: Op::Illegal, mode: Mode::Implied, length: 3, cycles: 1 },
        0x1c => Instr { op: Op::Illegal, mode: Mode::Implied, length: 3, cycles: 1 },
        0x1d => Instr { op: Op::Ora, mode: Mode::AbsoluteX, length: 3, cycles: 4 },
        0x1e => Instr { op: Op::Asl, mode: Mode::AbsoluteX, length: 3, cycles: 7 },
        0x1f => Instr { op: Op::Illegal, mode: Mode::Implied, length: 3, cycles: 1 },
        0x20 => Instr { op: Op::Jsr, mode: Mode::Absolute, length: 3, cycles: 6 },
        0x21 => Instr { op: Op::And, mode: Mode::IndexedIndirect, length: 2, cycles: 6 },
        0x22 => Instr { op: Op::Kil, mode: Mode::Implied, length: 1, cycles: 3 },
        0x23 => Instr { op: Op::Illegal, mode: Mode::Implied, length: 2, cycles: 1 },
        0x24 => Instr { op: Op::Bit, mode: Mode::ZeroPage, length: 2, cycles: 3 },
        0x25 => Instr { op: Op::And, mode: Mode::ZeroPage, length: 2, cycles: 3 },
        0x26 => Instr { op: Op::Rol, mode: Mode::ZeroPage, length: 2, cycles: 5 },
        0x27 => Instr { op: Op::Illegal, mode: Mode::Implied, length: 2, cycles: 1 },
        0x28 => Instr { op: Op::Plp, mode: Mode::Implied, length: 1, cycles: 4 },
        0x29 => Instr { op: Op::And, mode: Mode::Immediate, length: 2, cycles: 2 },
        0x2a => Instr { op: Op::Rol, mode: Mode::Accumulator, length: 1, cycles: 2 },
        0x2b => Instr { op: Op::Illegal, mode: Mode::Implied, length: 2, cycles: 1 },
        0x2c => Instr { op: Op::Bit, mode: Mode::Absolute, length: 3, cycles: 4 },
        0x2d => Instr { op: Op::And, mode: Mode::Absolute, length: 3, cycles: 4 },
        0x2e => Instr { op: Op::Rol, mode: Mode::Absolute, length: 3, cycles: 6 },
        0x2f => Instr { op: Op::Illegal, mode: Mode::Implied, length: 3, cycles: 1 },
        0x30 => Instr { op: Op::Bmi, mode: Mode::Relative, length: 2, cycles: 2 },
        0x31 => Instr { op: Op::And, mode: Mode::IndirectIndexed, length: 2, cycles: 5 },
        0x32 => Instr { op: Op::Kil, mode: Mode::Implied, length: 1, cycles: 3 },
        0x33 => Instr { op: Op::Illegal, mode: Mode::Implied, length: 2, cycles: 1 },
        0x34 => Instr { op: Op::Illegal, mode: Mode::Implied, length: 2, cycles: 2 },
        0x35 => Instr { op: Op::And, mode: Mode::ZeroPageX, length: 2, cycles: 4 },
        0x36 => Instr { op: Op::Rol, mode: Mode::ZeroPageX, length: 2, cycles: 6 },
        0x37 => Instr { op: Op::Illegal, mode: Mode::Implied, length: 2, cycles: 1 },
        0x38 => Instr { op: Op::Sec, mode: Mode::Implied, length: 1, cycles: 2 },
        0x39 => Instr { op: Op::And, mode: Mode::AbsoluteY, length: 3, cycles: 4 },
        0x3a => Instr { op: Op::Illegal, mode: Mode::Implied, length: 1, cycles: 1 },
        0x3b => Instr { op: Op::Illegal, mode: Mode::Implied, length: 3, cycles: 1 },
        0x3c => Instr { op: Op::Illegal, mode: Mode::Implied, length: 3, cycles: 1 },
        0x3d => Instr { op: Op::And, mode: Mode::AbsoluteX, length: 3, cycles: 4 },
        0x3e => Instr { op: Op::Rol, mode: Mode::AbsoluteX, length: 3, cycles: 7 },
        0x3f => Instr { op: Op::Illegal, mode: Mode::Implied, length: 3, cycles: 1 },
        0x40 => Instr { op: Op::Rti, mode: Mode::Implied, length: 1, cycles: 6 },
        0x41 => Instr { op: Op::Eor, mode: Mode::IndexedIndirect, length: 2, cycles: 6 },
        0x42 => Instr { op: Op::Kil, mode: Mode::Implied, length: 1, cycles: 3 },
        0x43 => Instr { op: Op::Illegal, mode: Mode::Implied, length: 2, cycles: 1 },
        0x44 => Instr { op: Op::Illegal, mode: Mode::Implied, length: 2, cycles: 1 },
        0x45 => Instr { op: Op::Eor, mode: Mode::ZeroPage, length: 2, cycles: 3 },
        0x46 => Instr { op: Op::Lsr, mode: Mode::ZeroPage, length: 2, cycles: 5 },
        0x47 => Instr { op: Op::Illegal, mode: Mode::Implied, length: 2, cycles: 1 },
        0x48 => Instr { op: Op::Pha, mode: Mode::Implied, length: 1, cycles: 3 },
        0x49 => Instr { op: Op::Eor, mode: Mode::Immediate, length: 2, cycles: 2 },
        0x4a => Instr { op: Op::Lsr, mode: Mode::Accumulator, length: 1, cycles: 2 },
        0x4b => Instr { op: Op::Illegal, mode: Mode::Implied, length: 2, cycles: 1 },
        0x4c => Instr { op: Op::Jmp, mode: Mode::Absolute, length: 3, cycles: 3 },
        0x4d => Instr { op: Op::Eor, mode: Mode::Absolute, length: 3, cycles: 4 },
        0x4e => Instr { op: Op::Lsr, mode: Mode::Absolute, length: 3, cycles: 6 },
        0x4f => Instr { op: Op::Illegal, mode: Mode::Implied, length: 3, cycles: 1 },
        0x50 => Instr { op: Op::Bvc, mode: Mode::Relative, length: 2, cycles: 2 },
        0x51 => Instr { op: Op::Eor, mode: Mode::IndirectIndexed, length: 2, cycles: 5 },
        0x52 => Instr { op: Op::Kil, mode: Mode::Implied, length: 1, cycles: 3 },
        0x53 => Instr { op: Op::Illegal, mode: Mode::Implied, length: 2, cycles: 1 },
        0x54 => Instr { op: Op::Illegal, mode: Mode::Implied, length: 2, cycles: 1 },
        0x55 => Instr { op: Op::Eor, mode: Mode::ZeroPageX, length: 2, cycles: 4 },
        0x56 => Instr { op: Op::Lsr, mode: Mode::ZeroPageX, length: 2, cycles: 6 },
        0x57 => Instr { op: Op::Illegal, mode: Mode::Implied, length: 2, cycles: 1 },
        0x58 => Instr { op: Op::Cli, mode: Mode::Implied, length: 1, cycles: 2 },
        0x59 => Instr { op: Op::Eor, mode: Mode::AbsoluteY, length: 3, cycles: 4 },
        0x5a => Instr { op: Op::Illegal, mode: Mode::Implied, length: 1, cycles: 1 },
        0x5b => Instr { op: Op::Illegal, mode: Mode::Implied, length: 3, cycles: 1 },
        0x5c => Instr { op: Op::Illegal, mode: Mode::Implied, length: 3, cycles: 1 },
        0x5d => Instr { op: Op::Eor, mode: Mode::AbsoluteX, length: 3, cycles: 4 },
        0x5e => Instr { op: Op::Lsr, mode: Mode::AbsoluteX, length: 3, cycles: 7 },
        0x5f => Instr { op: Op::Illegal, mode: Mode::Implied, length: 3, cycles: 1 },
        0x60 => Instr { op: Op::Rts, mode: Mode::Implied, length: 1, cycles: 6 },
        0x61 => Instr { op: Op::Adc, mode: Mode::IndexedIndirect, length: 2, cycles: 6 },
        0x62 => Instr { op: Op::Kil, mode: Mode::Implied, length: 1, cycles: 3 },
        0x63 => Instr { op: Op::Illegal, mode: Mode::Implied, length: 2, cycles: 1 },
        0x64 => Instr { op: Op::Illegal, mode: Mode::Implied, length: 2, cycles: 1 },
        0x65 => Instr { op: Op::Adc, mode: Mode::ZeroPage, length: 2, cycles: 3 },
        0x66 => Instr { op: Op::Ror, mode: Mode::ZeroPage, length: 2, cycles: 5 },
        0x67 => Instr { op: Op::Illegal, mode: Mode::Implied, length: 2, cycles: 1 },
        0x68 => Instr { op: Op::Pla, mode: Mode::Implied, length: 1, cycles: 4 },
        0x69 => Instr { op: Op::Adc, mode: Mode::Immediate, length: 2, cycles: 2 },
        0x6a => Instr { op: Op::Ror, mode: Mode::Accumulator, length: 1, cycles: 2 },
        0x6b => Instr { op: Op::Illegal, mode: Mode::Implied, length: 2, cycles: 1 },
        0x6c => Instr { op: Op::Jmp, mode: Mode::Indirect, length: 3, cycles: 5 },
        0x6d => Instr { op: Op::Adc, mode: Mode::Absolute, length: 3, cycles: 4 },
        0x6e => Instr { op: Op::Ror, mode: Mode::Absolute, length: 3, cycles: 6 },
        0x6f => Instr { op: Op::Illegal, mode: Mode::Implied, length: 3, cycles: 1 },
        0x70 => Instr { op: Op::Bvs, mode: Mode::Relative, length: 2, cycles: 2 },
        0x71 => Instr { op: Op::Adc, mode: Mode::IndirectIndexed, length: 2, cycles: 5 },
        0x72 => Instr { op: Op::Kil, mode: Mode::Implied, length: 1, cycles: 3 },
        0x73 => Instr { op: Op::Illegal, mode: Mode::Implied, length: 2, cycles: 1 },
        0x74 => Instr { op: Op::Illegal, mode: Mode::Implied, length: 2, cycles: 1 },
        0x75 => Instr { op: Op::Adc, mode: Mode::ZeroPageX, length: 2, cycles: 4 },
        0x76 => Instr { op: Op::Ror, mode: Mode::ZeroPageX, length: 2, cycles: 6 },
        0x77 => Instr { op: Op::Illegal, mode: Mode::Implied, length: 2, cycles: 1 },
        0x78 => Instr { op: Op::Sei, mode: Mode::Implied, length: 1, cycles: 2 },
        0x79 => Instr { op: Op::Adc, mode: Mode::AbsoluteY, length: 3, cycles: 4 },
        0x7a => Instr { op: Op::Illegal, mode: Mode::Implied, length: 1, cycles: 1 },
        0x7b => Instr { op: Op::Illegal, mode: Mode::Implied, length: 3, cycles: 1 },
        0x7c => Instr { op: Op::Illegal, mode: Mode::Implied, length: 3, cycles: 1 },
        0x7d => Instr { op: Op::Adc, mode: Mode::AbsoluteX, length: 3, cycles: 4 },
        0x7e => Instr { op: Op::Ror, mode: Mode::AbsoluteX, length: 3, cycles: 7 },
        0x7f => Instr { op: Op::Illegal, mode: Mode::Implied, length: 3, cycles: 1 },
        0x80 => Instr { op: Op::Illegal, mode: Mode::Implied, length: 1, cycles: 1 },
        0x81 => Instr { op: Op::Sta, mode: Mode::IndexedIndirect, length: 2, cycles: 6 },
        0x82 => Instr { op: Op::Illegal, mode: Mode::Implied, length: 1, cycles: 1 },
        0x83 => Instr { op: Op::Illegal, mode: Mode::Implied, length: 2, cycles: 6 },
        0x84 => Instr { op: Op::Sty, mode: Mode::ZeroPage, length: 2, cycles: 3 },
        0x85 => Instr { op: Op::Sta, mode: Mode::ZeroPage, length: 2, cycles: 3 },
        0x86 => Instr { op: Op::Stx, mode: Mode::ZeroPage, length: 2, cycles: 3 },
        0x87 => Instr { op: Op::Illegal, mode: Mode::Implied, length: 2, cycles: 1 },
        0x88 => Instr { op: Op::Dey, mode: Mode::Implied, length: 1, cycles: 2 },
        0x89 => Instr { op: Op::Illegal, mode: Mode::Implied, length: 1, cycles: 1 },
        0x8a => Instr { op: Op::Txa, mode: Mode::Implied, length: 1, cycles: 2 },
        0x8b => Instr { op: Op::Illegal, mode: Mode::Implied, length: 2, cycles: 1 },
        0x8c => Instr { op: Op::Sty, mode: Mode::Absolute, length: 3, cycles: 4 },
        0x8d => Instr { op: Op::Sta, mode: Mode::Absolute, length: 3, cycles: 4 },
        0x8e => Instr { op: Op::Stx, mode: Mode::Absolute, length: 3, cycles: 4 },
        0x8f => Instr { op: Op::Illegal, mode: Mode::Implied, length: 3, cycles: 1 },
        0x90 => Instr { op: Op::Bcc, mode: Mode::Relative, length: 2, cycles: 2 },
        0x91 => Instr { op: Op::Sta, mode: Mode::IndirectIndexed, length: 2, cycles: 6 },
        0x92 => Instr { op: Op::Kil, mode: Mode::Implied, length: 1, cycles: 3 },
        0x93 => Instr { op: Op::Illegal, mode: Mode::Implied, length: 2, cycles: 1 },
        0x94 => Instr { op: Op::Sty, mode: Mode::ZeroPageX, length: 2, cycles: 4 },
        0x95 => Instr { op: Op::Sta, mode: Mode::ZeroPageX, length: 2, cycles: 4 },
        0x96 => Instr { op: Op::Stx, mode: Mode::ZeroPageY, length: 2, cycles: 4 },
        0x97 => Instr { op: Op::Illegal, mode: Mode::Implied, length: 2, cycles: 1 },
        0x98 => Instr { op: Op::Tya, mode: Mode::Implied, length: 1, cycles: 2 },
        0x99 => Instr { op: Op::Sta, mode: Mode::AbsoluteY, length: 3, cycles: 5 },
        0x9a => Instr { op: Op::Txs, mode: Mode::Implied, length: 1, cycles: 2 },
        0x9b => Instr { op: Op::Illegal, mode: Mode::Implied, length: 3, cycles: 1 },
        0x9c => Instr { op: Op::Illegal, mode: Mode::Implied, length: 3, cycles: 1 },
        0x9d => Instr { op: Op::Sta, mode: Mode::AbsoluteX, length: 3, cycles: 5 },
        0x9e => Instr { op: Op::Illegal, mode: Mode::Implied, length: 1, cycles: 1 },
        0x9f => Instr { op: Op::Illegal, mode: Mode::Implied, length: 3, cycles: 1 },
        0xa0 => Instr { op: Op::Ldy, mode: Mode::Immediate, length: 2, cycles: 2 },
        0xa1 => Instr { op: Op::Lda, mode: Mode::IndexedIndirect, length: 2, cycles: 6 },
        0xa2 => Instr { op: Op::Ldx, mode: Mode::Immediate, length: 2, cycles: 2 },
        0xa3 => Instr { op: Op::Illegal, mode: Mode::Implied, length: 2, cycles: 1 },
        0xa4 => Instr { op: Op::Ldy, mode: Mode::ZeroPage, length: 2, cycles: 3 },
        0xa5 => Instr { op: Op::Lda, mode: Mode::ZeroPage, length: 2, cycles: 3 },
        0xa6 => Instr { op: Op::Ldx, mode: Mode::ZeroPage, length: 2, cycles: 3 },
        0xa7 => Instr { op: Op::Illegal, mode: Mode::Implied, length: 2, cycles: 1 },
        0xa8 => Instr { op: Op::Tay, mode: Mode::Implied, length: 1, cycles: 2 },
        0xa9 => Instr { op: Op::Lda, mode: Mode::Immediate, length: 2, cycles: 2 },
        0xaa => Instr { op: Op::Tax, mode: Mode::Implied, length: 1, cycles: 2 },
        0xab => Instr { op: Op::Illegal, mode: Mode::Implied, length: 2, cycles: 1 },
        0xac => Instr { op: Op::Ldy, mode: Mode::Absolute, length: 3, cycles: 4 },
        0xad => Instr { op: Op::Lda, mode: Mode::Absolute, length: 3, cycles: 4 },
        0xae => Instr { op: Op::Ldx, mode: Mode::Absolute, length: 3, cycles: 4 },
        0xaf => Instr { op: Op::Illegal, mode: Mode::Implied, length: 3, cycles: 1 },
        0xb0 => Instr { op: Op::Bcs, mode: Mode::Relative, length: 2, cycles: 2 },
        0xb1 => Instr { op: Op::Lda, mode: Mode::IndirectIndexed, length: 2, cycles: 5 },
        0xb2 => Instr { op: Op::Kil, mode: Mode::Implied, length: 1, cycles: 3 },
        0xb3 => Instr { op: Op::Illegal, mode: Mode::Implied, length: 2, cycles: 1 },
        0xb4 => Instr { op: Op::Ldy, mode: Mode::ZeroPageX, length: 2, cycles: 4 },
        0xb5 => Instr { op: Op::Lda, mode: Mode::ZeroPageX, length: 2, cycles: 4 },
        0xb6 => Instr { op: Op::Ldx, mode: Mode::ZeroPageY, length: 2, cycles: 4 },
        0xb7 => Instr { op: Op::Illegal, mode: Mode::Implied, length: 2, cycles: 1 },
        0xb8 => Instr { op: Op::Clv, mode: Mode::Implied, length: 1, cycles: 2 },
        0xb9 => Instr { op: Op::Lda, mode: Mode::AbsoluteY, length: 3, cycles: 4 },
        0xba => Instr { op: Op::Tsx, mode: Mode::Implied, length: 1, cycles: 2 },
        0xbb => Instr { op: Op::Illegal, mode: Mode::Implied, length: 3, cycles: 1 },
        0xbc => Instr { op: Op::Ldy, mode: Mode::AbsoluteX, length: 3, cycles: 4 },
        0xbd => Instr { op: Op::Lda, mode: Mode::AbsoluteX, length: 3, cycles: 4 },
        0xbe => Instr { op: Op::Ldx, mode: Mode::AbsoluteY, length: 3, cycles: 4 },
        0xbf => Instr { op: Op::Illegal, mode: Mode::Implied, length: 3, cycles: 1 },
        0xc0 => Instr { op: Op::Cpy, mode: Mode::Immediate, length: 2, cycles: 2 },
        0xc1 => Instr { op: Op::Cmp, mode: Mode::IndexedIndirect, length: 2, cycles: 6 },
        0xc2 => Instr { op: Op::Illegal, mode: Mode::Implied, length: 2, cycles: 1 },
        0xc3 => Instr { op: Op::Illegal, mode: Mode::Implied, length: 2, cycles: 1 },
        0xc4 => Instr { op: Op::Cpy, mode: Mode::ZeroPage, length: 2, cycles: 3 },
        0xc5 => Instr { op: Op::Cmp, mode: Mode::ZeroPage, length: 2, cycles: 3 },
        0xc6 => Instr { op: Op::Dec, mode: Mode::ZeroPage, length: 2, cycles: 5 },
        0xc7 => Instr { op: Op::Illegal, mode: Mode::Implied, length: 2, cycles: 1 },
        0xc8 => Instr { op: Op::Iny, mode: Mode::Implied, length: 1, cycles: 2 },
        0xc9 => Instr { op: Op::Cmp, mode: Mode::Immediate, length: 2, cycles: 2 },
        0xca => Instr { op: Op::Dex, mode: Mode::Implied, length: 1, cycles: 2 },
        0xcb => Instr { op: Op::Illegal, mode: Mode::Implied, length: 2, cycles: 1 },
        0xcc => Instr { op: Op::Cpy, mode: Mode::Absolute, length: 3, cycles: 4 },
        0xcd => Instr { op: Op::Cmp, mode: Mode::Absolute, length: 3, cycles: 4 },
        0xce => Instr { op: Op::Dec, mode: Mode::Absolute, length: 3, cycles: 6 },
        0xcf => Instr { op: Op::Illegal, mode: Mode::Implied, length: 3, cycles: 1 },
        0xd0 => Instr { op: Op::Bne, mode: Mode::Relative, length: 2, cycles: 2 },
        0xd1 => Instr { op: Op::Cmp, mode: Mode::IndirectIndexed, length: 2, cycles: 5 },
        0xd2 => Instr { op: Op::Kil, mode: Mode::Implied, length: 1, cycles: 3 },
        0xd3 => Instr { op: Op::Illegal, mode: Mode::Implied, length: 2, cycles: 1 },
        0xd4 => Instr { op: Op::Illegal, mode: Mode::Implied, length: 2, cycles: 1 },
        0xd5 => Instr { op: Op::Cmp, mode: Mode::ZeroPageX, length: 2, cycles: 4 },
        0xd6 => Instr { op: Op::Dec, mode: Mode::ZeroPageX, length: 2, cycles: 6 },
        0xd7 => Instr { op: Op::Illegal, mode: Mode::Implied, length: 2, cycles: 1 },
        0xd8 => Instr { op: Op::Cld, mode: Mode::Implied, length: 1, cycles: 2 },
        0xd9 => Instr { op: Op::Cmp, mode: Mode::AbsoluteY, length: 3, cycles: 4 },
        0xda => Instr { op: Op::Illegal, mode: Mode::Implied, length: 1, cycles: 1 },
        0xdb => Instr { op: Op::Illegal, mode: Mode::Implied, length: 3, cycles: 1 },
        0xdc => Instr { op: Op::Illegal, mode: Mode::Implied, length: 3, cycles: 1 },
        0xdd => Instr { op: Op::Cmp, mode: Mode::AbsoluteX, length: 3, cycles: 4 },
        0xde => Instr { op: Op::Dec, mode: Mode::AbsoluteX, length: 3, cycles: 7 },
        0xdf => Instr { op: Op::Illegal, mode: Mode::Implied, length: 3, cycles: 1 },
        0xe0 => Instr { op: Op::Cpx, mode: Mode::Immediate, length: 2, cycles: 2 },
        0xe1 => Instr { op: Op::Sbc, mode: Mode::IndexedIndirect, length: 2, cycles: 6 },
        0xe2 => Instr { op: Op::Illegal, mode: Mode::Implied, length: 2, cycles: 1 },
        0xe3 => Instr { op: Op::Illegal, mode: Mode::Implied, length: 2, cycles: 1 },
        0xe4 => Instr { op: Op::Cpx, mode: Mode::ZeroPage, length: 2, cycles: 3 },
        0xe5 => Instr { op: Op::Sbc, mode: Mode::ZeroPage, length: 2, cycles: 3 },
        0xe6 => Instr { op: Op::Inc, mode: Mode::ZeroPage, length: 2, cycles: 5 },
        0xe7 => Instr { op: Op::Illegal, mode: Mode::Implied, length: 2, cycles: 1 },
        0xe8 => Instr { op: Op::Inx, mode: Mode::Implied, length: 1, cycles: 2 },
        0xe9 => Instr { op: Op::Sbc, mode: Mode::Immediate, length: 2, cycles: 2 },
        0xea => Instr { op: Op::Nop, mode: Mode::Implied, length: 1, cycles: 2 },
        0xeb => Instr { op: Op::Illegal, mode: Mode::Implied, length: 2, cycles: 1 },
        0xec => Instr { op: Op::Cpx, mode: Mode::Absolute, length: 3, cycles: 4 },
        0xed => Instr { op: Op::Sbc, mode: Mode::Absolute, length: 3, cycles: 4 },
        0xee => Instr { op: Op::Inc, mode: Mode::Absolute, length: 3, cycles: 6 },
        0xef => Instr { op: Op::Illegal, mode: Mode::Implied, length: 3, cycles: 1 },
        0xf0 => Instr { op: Op::Beq, mode: Mode::Relative, length: 2, cycles: 2 },
        0xf1 => Instr { op: Op::Sbc, mode: Mode::IndirectIndexed, length: 2, cycles: 5 },
        0xf2 => Instr { op: Op::Kil, mode: Mode::Implied, length: 1, cycles: 3 },
        0xf3 => Instr { op: Op::Illegal, mode: Mode::Implied, length: 2, cycles: 1 },
        0xf4 => Instr { op: Op::Illegal, mode: Mode::Implied, length: 2, cycles: 1 },
        0xf5 => Instr { op: Op::Sbc, mode: Mode::ZeroPageX, length: 2, cycles: 4 },
        0xf6 => Instr { op: Op::Inc, mode: Mode::ZeroPageX, length: 2, cycles: 6 },
        0xf7 => Instr { op: Op::Illegal, mode: Mode::Implied, length: 2, cycles: 1 },
        0xf8 => Instr { op: Op::Sed, mode: Mode::Implied, length: 1, cycles: 2 },
        0xf9 => Instr { op: Op::Sbc, mode: Mode::AbsoluteY, length: 3, cycles: 4 },
        0xfa => Instr { op: Op::Illegal, mode: Mode::Implied, length: 1, cycles: 1 },
        0xfb => Instr { op: Op::Illegal, mode: Mode::Implied, length: 3, cycles: 1 },
        0xfc => Instr { op: Op::Illegal, mode: Mode::Implied, length: 3, cycles: 1 },
        0xfd => Instr { op: Op::Sbc, mode: Mode::AbsoluteX, length: 3, cycles: 4 },
        0xfe => Instr { op: Op::Inc, mode: Mode::AbsoluteX, length: 3, cycles: 7 },
        _ => Instr { op: Op::Illegal, mode: Mode::Implied, length: 3, cycles: 1 },
    }
}

/// Address an operand of `mode` refers to, for the instruction at PC.
/// Immediate and relative operands are the byte after the opcode.
pub open spec fn operand_addr<M: Memory>(cpu: CPU, mem: M, mode: Mode) -> u16 {
    let b1 = mem.peek(add16(cpu.pc as int, 1));
    let b2 = mem.peek(add16(cpu.pc as int, 2));
    match mode {
        Mode::Immediate | Mode::Relative => add16(cpu.pc as int, 1),
        Mode::ZeroPage => b1 as u16,
        Mode::ZeroPageX => ((b1 + cpu.x) % 256) as u16,
        Mode::ZeroPageY => ((b1 + cpu.y) % 256) as u16,
        Mode::Absolute => word(b1, b2),
        Mode::AbsoluteX => add16(word(b1, b2) as int, cpu.x as int),
        Mode::AbsoluteY => add16(word(b1, b2) as int, cpu.y as int),
        Mode::Indirect => word(mem.peek(word(b1, b2)), mem.peek(add16(word(b1, b2) as int, 1))),
        Mode::IndexedIndirect => {
            let zp = (b1 + cpu.x) % 256;
            word(mem.peek(zp as u16), mem.peek(((zp + 1) % 256) as u16))
        },
        Mode::IndirectIndexed => add16(
            word(mem.peek(b1 as u16), mem.peek(((b1 + 1) % 256) as u16)) as int,
            cpu.y as int,
        ),
        Mode::Implied | Mode::Accumulator => 0,
    }
}

/// Whether a branch operation is taken under `status`.
pub open spec fn branch_taken(op: Op, status: u8) -> bool {
    match op {
        Op::Bpl => status & FLAG_NEGATIVE == 0,
        Op::Bmi => status & FLAG_NEGATIVE != 0,
        Op::Bvc => status & FLAG_OVERFLOW == 0,
        Op::Bvs => status & FLAG_OVERFLOW != 0,
        Op::Bcc => status & FLAG_CARRY == 0,
        Op::Bcs => status & FLAG_CARRY != 0,
        Op::Bne => status & FLAG_ZERO == 0,
        Op::Beq => status & FLAG_ZERO != 0,
        _ => false,
    }
}

pub open spec fn is_branch(op: Op) -> bool {
    op == Op::Bpl || op == Op::Bmi || op == Op::Bvc || op == Op::Bvs || op == Op::Bcc
        || op == Op::Bcs || op == Op::Bne || op == Op::Beq
}

/// Operations that use the stack: their effects are stated one by one.
pub open spec fn uses_stack(op: Op) -> bool {
    op == Op::Brk || op == Op::Jsr || op == Op::Rts || op == Op::Rti || op == Op::Pha
        || op == Op::Php || op == Op::Pla || op == Op::Plp
}

/// Shifts and rotates, the only operations with an accumulator form.
pub open spec fn is_shift(op: Op) -> bool {
    op == Op::Asl || op == Op::Lsr || op == Op::Rol || op == Op::Ror
}

/// Facts of the opcode table: only shifts and rotates address the
/// accumulator, JSR takes an absolute operand, and every row is at most three
/// bytes long and takes at most seven cycles.
pub proof fn lemma_opcode_table(b: u8)
    ensures
        opcode(b).mode == Mode::Accumulator ==> is_shift(opcode(b).op),
        opcode(b).op == Op::Jsr ==> opcode(b).mode == Mode::Absolute,
        opcode(b).mode == Mode::Implied ==> is_implied_op(opcode(b).op),
        is_branch(opcode(b).op) ==> opcode(b).length == 2 && opcode(b).mode == Mode::Relative,
        1 <= opcode(b).length <= 3,
        opcode(b).cycles <= 7,
{
    reveal(opcode);
}

/// Instructions that touch neither memory nor PC beyond their own opcode
/// byte: implied and accumulator forms outside the stack operations.
pub open spec fn register_only(ins: Instr) -> bool {
    !uses_stack(ins.op) && (ins.mode == Mode::Implied || ins.mode == Mode::Accumulator)
}

/// Operations whose implied form reads no operand.
pub open spec fn is_implied_op(op: Op) -> bool {
    uses_stack(op) || op == Op::Clc || op == Op::Sec || op == Op::Cli || op == Op::Sei || op
        == Op::Cld || op == Op::Sed || op == Op::Clv || op == Op::Tax || op == Op::Tay || op
        == Op::Txa || op == Op::Tya || op == Op::Tsx || op == Op::Txs || op == Op::Inx || op
        == Op::Iny || op == Op::Dex || op == Op::Dey || op == Op::Nop || op == Op::Kil || op
        == Op::Illegal
}

/// Read-modify-write operations.
pub open spec fn is_rmw(op: Op) -> bool {
    op == Op::Asl || op == Op::Lsr || op == Op::Rol || op == Op::Ror || op == Op::Inc || op
        == Op::Dec
}

/// Whether an instruction stores a byte at its operand address.
pub open spec fn writes_memory(ins: Instr) -> bool {
    ins.op == Op::Sta || ins.op == Op::Stx || ins.op == Op::Sty || (is_rmw(ins.op) && ins.mode
        != Mode::Accumulator)
}

/// New value of a read-modify-write operand `m`.
pub open spec fn rmw_value(op: Op, status: u8, m: u8) -> u8 {
    match op {
        Op::Asl => ((m as int * 2) % 256) as u8,
        Op::Lsr => m / 2,
        Op::Rol => ((m as int * 2) % 256 + carry_of(status)) as u8,
        Op::Ror => (m / 2 + 0x80 * carry_of(status)) as u8,
        Op::Inc => inc8(m),
        Op::Dec => dec8(m),
        _ => m,
    }
}

/// Byte an instruction that writes memory stores.
pub open spec fn store_value(ins: Instr, cpu: CPU, m: u8) -> u8 {
    match ins.op {
        Op::Sta => cpu.acc,
        Op::Stx => cpu.x,
        Op::Sty => cpu.y,
        _ => rmw_value(ins.op, cpu.status, m),
    }
}

/// Registers other than PC after an instruction that does not use the stack,
/// with operand value `m`.
pub open spec fn effect(ins: Instr, cpu: CPU, m: u8) -> CPU {
    let s = cpu.status;
    match ins.op {
        Op::Adc => adc_spec(cpu, m),
        Op::Sbc => adc_spec(cpu, (255 - m) as u8),
        Op::And => CPU { acc: cpu.acc & m, status: with_nz(s, cpu.acc & m), ..cpu },
        Op::Ora => CPU { acc: cpu.acc | m, status: with_nz(s, cpu.acc | m), ..cpu },
        Op::Eor => CPU { acc: cpu.acc ^ m, status: with_nz(s, cpu.acc ^ m), ..cpu },
        Op::Lda => CPU { acc: m, status: with_nz(s, m), ..cpu },
        Op::Ldx => CPU { x: m, status: with_nz(s, m), ..cpu },
        Op::Ldy => CPU { y: m, status: with_nz(s, m), ..cpu },
        Op::Cmp => CPU { status: compare_status(s, cpu.acc, m), ..cpu },
        Op::Cpx => CPU { status: compare_status(s, cpu.x, m), ..cpu },
        Op::Cpy => CPU { status: compare_status(s, cpu.y, m), ..cpu },
        Op::Bit => CPU { status: bit_status(s, cpu.acc, m), ..cpu },
        Op::Asl | Op::Lsr | Op::Rol | Op::Ror => {
            let r = rmw_value(ins.op, s, m);
            let out = if ins.op == Op::Asl || ins.op == Op::Rol { m >= 0x80 } else { m % 2 == 1 };
            let st = with_flag(with_nz(s, r), FLAG_CARRY, out);
            if ins.mode == Mode::Accumulator {
                CPU { acc: r, status: st, ..cpu }
            } else {
                CPU { status: st, ..cpu }
            }
        },
        Op::Inc | Op::Dec => CPU { status: with_nz(s, rmw_value(ins.op, s, m)), ..cpu },
        Op::Clc => CPU { status: s & !FLAG_CARRY, ..cpu },
        Op::Sec => CPU { status: s | FLAG_CARRY, ..cpu },
        Op::Cli => CPU { status: s & !FLAG_INTERRUPT_DISABLE, ..cpu },
        Op::Sei => CPU { status: s | FLAG_INTERRUPT_DISABLE, ..cpu },
        Op::Cld => CPU { status: s & !FLAG_DECIMAL, ..cpu },
        Op::Sed => CPU { status: s | FLAG_DECIMAL, ..cpu },
        Op::Clv => CPU { status: s & !FLAG_OVERFLOW, ..cpu },
        Op::Tax => CPU { x: cpu.acc, status: with_nz(s, cpu.acc), ..cpu },
        Op::Tay => CPU { y: cpu.acc, status: with_nz(s, cpu.acc), ..cpu },
        Op::Txa => CPU { acc: cpu.x, status: with_nz(s, cpu.x), ..cpu },
        Op::Tya => CPU { acc: cpu.y, status: with_nz(s, cpu.y), ..cpu },
        Op::Tsx => CPU { x: cpu.stack, status: with_nz(s, cpu.stack), ..cpu },
        Op::Txs => CPU { stack: cpu.x, ..cpu },
        Op::Inx => CPU { x: inc8(cpu.x), status: with_nz(s, inc8(cpu.x)), ..cpu },
        Op::Iny => CPU { y: inc8(cpu.y), status: with_nz(s, inc8(cpu.y)), ..cpu },
        Op::Dex => CPU { x: dec8(cpu.x), status: with_nz(s, dec8(cpu.x)), ..cpu },
        Op::Dey => CPU { y: dec8(cpu.y), status: with_nz(s, dec8(cpu.y)), ..cpu },
        _ => cpu,
    }
}

/// Operand value an instruction works on.
pub open spec fn operand_value<M: Memory>(cpu: CPU, mem: M, ins: Instr) -> u8 {
    if ins.mode == Mode::Accumulator {
        cpu.acc
    } else {
        mem.peek(operand_addr(cpu, mem, ins.mode))
    }
}

/// Program counter after one instruction: past the instruction, or the
/// target of a taken branch, a jump, a call, a return or BRK.
pub open spec fn next_pc<M: Memory>(cpu: CPU, mem: M) -> u16 {
    let ins = opcode(mem.peek(cpu.pc));
    let next = add16(cpu.pc as int, ins.length as int);
    match ins.op {
        Op::Jmp | Op::Jsr => operand_addr(cpu, mem, ins.mode),
        Op::Rts => add16(
            word(
                mem.peek(stack_addr(inc8(cpu.stack))),
                mem.peek(stack_addr(inc8(inc8(cpu.stack)))),
            ) as int,
            1,
        ),
        Op::Rti => word(
            mem.peek(stack_addr(inc8(inc8(cpu.stack)))),
            mem.peek(stack_addr(inc8(inc8(inc8(cpu.stack))))),
        ),
        Op::Brk => word(mem.peek(IRQ_VECTOR), mem.peek(add16(IRQ_VECTOR as int, 1))),
        _ => if is_branch(ins.op) && branch_taken(ins.op, cpu.status) {
            branch_target(next, mem.peek(add16(cpu.pc as int, 1)))
        } else {
            next
        },
    }
}

/// Cycles one instruction takes: the table's count, plus one for a taken branch.
pub open spec fn step_cycles<M: Memory>(cpu: CPU, mem: M) -> u8 {
    let ins = opcode(mem.peek(cpu.pc));
    if is_branch(ins.op) && branch_taken(ins.op, cpu.status) {
        (ins.cycles + 1) as u8
    } else {
        ins.cycles
    }
}

/// Operations that set PC to a target of their own.
pub open spec fn is_jump(op: Op) -> bool {
    op == Op::Jmp || op == Op::Jsr || op == Op::Rts || op == Op::Rti || op == Op::Brk
}

/// The program counter after `step`: past the instruction, by its length,
/// unless it is a taken branch, whose target is the signed offset from the
/// byte after the operand, or a jump, call, return or BRK, which go to the
/// address they compute.
pub proof fn lemma_pc_after_step<M: Memory>(cpu: CPU, mem: M)
    ensures
        ({
            let ins = opcode(mem.peek(cpu.pc));
            let taken = is_branch(ins.op) && branch_taken(ins.op, cpu.status);
            &&& !taken && !is_jump(ins.op) ==> next_pc(cpu, mem) == add16(
                cpu.pc as int,
                ins.length as int,
            )
            &&& taken ==> next_pc(cpu, mem) == branch_target(
                add16(cpu.pc as int, 2),
                mem.peek(add16(cpu.pc as int, 1)),
            )
            &&& ins.op == Op::Jmp || ins.op == Op::Jsr ==> next_pc(cpu, mem) == operand_addr(
                cpu,
                mem,
                ins.mode,
            )
        }),
{
    lemma_opcode_table(mem.peek(cpu.pc));
}

/// Effect of an instruction that uses the stack, for the registers other
/// than PC and for memory.
pub open spec fn stack_effect<M: Memory>(cpu: CPU, after: CPU, before: M, mem: M) -> bool {
    let ins = opcode(before.peek(cpu.pc));
    let s = cpu.stack;
    match ins.op {
        Op::Pha => after == (CPU { stack: dec8(s), pc: after.pc, ..cpu }) && written(
            before,
            mem,
            stack_addr(s),
            cpu.acc,
        ),
        Op::Php => after == (CPU { stack: dec8(s), pc: after.pc, ..cpu }) && written(
            before,
            mem,
            stack_addr(s),
            pushed_status(cpu.status),
        ),
        Op::Pla => {
            let v = before.peek(stack_addr(inc8(s)));
            after == (CPU { acc: v, status: with_nz(cpu.status, v), stack: inc8(s), pc: after.pc, ..cpu })
                && mem == before
        },
        Op::Plp => after == (CPU {
            status: pulled_status(before.peek(stack_addr(inc8(s)))),
            stack: inc8(s),
            pc: after.pc,
            ..cpu
        }) && mem == before,
        Op::Rts => after == (CPU { stack: inc8(inc8(s)), pc: after.pc, ..cpu }) && mem == before,
        Op::Rti => after == (CPU {
            status: pulled_status(before.peek(stack_addr(inc8(s)))),
            stack: inc8(inc8(inc8(s))),
            pc: after.pc,
            ..cpu
        }) && mem == before,
        Op::Jsr => {
            let ret = add16(cpu.pc as int, 2);
            after == (CPU { stack: dec8(dec8(s)), pc: after.pc, ..cpu }) && mem.plain() && forall|
                a: u16,
            | #[trigger]
                mem.peek(a) == if a == stack_addr(s) {
                    (ret / 256) as u8
                } else if a == stack_addr(dec8(s)) {
                    (ret % 256) as u8
                } else {
                    before.peek(a)
                }
        },
        Op::Brk => after.status == cpu.status && entered(
            cpu,
            after,
            before,
            mem,
            IRQ_VECTOR,
            add16(cpu.pc as int, 2),
            pushed_status(cpu.status),
        ),
        _ => true,
    }
}

impl CPU {
    /// Address of the operand of `mode` for the instruction at PC.
    pub fn operand_address<M: Memory>(&self, mem: &mut M, mode: Mode) -> (r: u16)
        ensures
            old(mem).inv() ==> final(mem).inv(),
            mode == Mode::Implied || mode == Mode::Accumulator ==> *final(mem) == *old(mem),
            old(mem).plain() ==> *final(mem) == *old(mem) && r == operand_addr(*self, *old(mem), mode),
    {
        match mode {
            Mode::Immediate => self.get_address_immediate(),
            Mode::Relative => self.get_address_relative(),
            Mode::ZeroPage => self.get_address_zeropage(mem),
            Mode::ZeroPageX => self.get_address_zeropage_x(mem),
            Mode::ZeroPageY => self.get_address_zeropage_y(mem),
            Mode::Absolute => self.get_address_absolute(mem),
            Mode::AbsoluteX => self.get_address_absolute_x(mem),
            Mode::AbsoluteY => self.get_address_absolute_y(mem),
            Mode::Indirect => self.get_address_indirect(mem),
            Mode::IndexedIndirect => self.get_address_indexed_indirect(mem),
            Mode::IndirectIndexed => self.get_address_indirect_indexed(mem),
            Mode::Implied | Mode::Accumulator => 0,
        }
    }

    /// Runs an instruction that does not use the stack, leaving PC alone.
    #[verifier::rlimit(60)]
    fn execute_plain_op<M: Memory>(&mut self, mem: &mut M, ins: Instr, addr: u16)
        requires
            !uses_stack(ins.op),
            ins.mode == Mode::Accumulator ==> is_shift(ins.op),
            ins.mode == Mode::Implied ==> is_implied_op(ins.op),
        ensures
            ins.mode == Mode::Implied || ins.mode == Mode::Accumulator ==> *final(mem) == *old(mem)
                && *final(self) == effect(ins, *old(self), old(self).acc),
            old(mem).inv() ==> final(mem).inv(),
            old(mem).plain() ==> {
                let m = if ins.mode == Mode::Accumulator {
                    old(self).acc
                } else {
                    old(mem).peek(addr)
                };
                &&& *final(self) == effect(ins, *old(self), m)
                &&& writes_memory(ins) ==> written(
                    *old(mem),
                    *final(mem),
                    addr,
                    store_value(ins, *old(self), m),
                )
                &&& !writes_memory(ins) ==> *final(mem) == *old(mem)
            },
    {
        match ins.op {
            Op::Adc => {
                let v = mem.get_byte(addr);
                self.adc(v);
            },
            Op::Sbc => self.sbc(mem, addr),
            Op::And => self.and(mem, addr),
            Op::Ora => self.ora(mem, addr),
            Op::Eor => self.eor(mem, addr),
            Op::Lda => self.lda(mem, addr),
            Op::Ldx => self.ldx(mem, addr),
            Op::Ldy => self.ldy(mem, addr),
            Op::Cmp => self.cmp(mem, addr),
            Op::Cpx => self.cpx(mem, addr),
            Op::Cpy => self.cpy(mem, addr),
            Op::Bit => self.bit(mem, addr),
            Op::Sta => self.sta(mem, addr),
            Op::Stx => self.stx(mem, addr),
            Op::Sty => self.sty(mem, addr),
            Op::Inc => self.inc(mem, addr),
            Op::Dec => self.dec(mem, addr),
            Op::Asl | Op::Lsr | Op::Rol | Op::Ror => {
                let in_acc = ins.mode == Mode::Accumulator;
                let value = if in_acc { self.acc } else { mem.get_byte(addr) };
                let result = match ins.op {
                    Op::Asl => self.asl(value),
                    Op::Lsr => self.lsr(value),
                    Op::Rol => self.rol(value),
                    _ => self.ror(value),
                };
                if in_acc {
                    self.acc = result;
                } else {
                    mem.set_byte(addr, result);
                }
            },
            Op::Clc => self.clc(),
            Op::Sec => self.sec(),
            Op::Cli => self.cli(),
            Op::Sei => self.sei(),
            Op::Cld => self.cld(),
            Op::Sed => self.sed(),
            Op::Clv => self.clv(),
            Op::Tax => self.tax(),
            Op::Tay => self.tay(),
            Op::Txa => self.txa(),
            Op::Tya => self.tya(),
            Op::Tsx => self.tsx(),
            Op::Txs => self.txs(),
            Op::Inx => self.inx(),
            Op::Iny => self.iny(),
            Op::Dex => self.dex(),
            Op::Dey => self.dey(),
            Op::Kil => self.kil(),
            _ => {},
        }
    }

    /// Runs an instruction that uses the stack, including PC.
    #[verifier::rlimit(60)]
    fn execute_stack_op<M: Memory>(&mut self, mem: &mut M, ins: Instr)
        requires
            uses_stack(ins.op),
        ensures
            !is_jump(ins.op) ==> final(self).pc == add16(old(self).pc as int, ins.length as int),
            old(mem).inv() ==> final(mem).inv(),
            old(mem).plain() && ins == opcode(old(mem).peek(old(self).pc)) ==> final(self).pc == next_pc(*old(self), *old(mem)) && stack_effect(
                *old(self),
                *final(self),
                *old(mem),
                *final(mem),
            ),
    {
        proof {
            lemma_opcode_table(mem.peek(self.pc));
        }
        let pc = self.pc;
        let next = pc.wrapping_add(ins.length as u16);
        match ins.op {
            Op::Brk => self.brk(mem),
            Op::Jsr => {
                let dest = self.get_address_absolute(mem);
                let ret = pc.wrapping_add(2);
                self.push(mem, (ret / 256) as u8);
                self.push(mem, (ret % 256) as u8);
                self.pc = dest;
            },
            Op::Rts => {
                self.rts(mem);
                self.pc = self.pc.wrapping_add(1);
            },
            Op::Rti => self.rti(mem),
            Op::Pha => {
                self.pha(mem);
                self.pc = next;
            },
            Op::Php => {
                self.php(mem);
                self.pc = next;
            },
            Op::Pla => {
                self.pla(mem);
                self.pc = next;
            },
            _ => {
                self.plp(mem);
                self.pc = next;
            },
        }
    }

    /// Runs a branch, including PC; returns whether it was taken.
    fn execute_branch<M: Memory>(&mut self, mem: &mut M, ins: Instr) -> (taken: bool)
        requires
            is_branch(ins.op),
        ensures
            old(mem).inv() ==> final(mem).inv(),
            taken == branch_taken(ins.op, old(self).status),
            old(mem).plain() ==> *final(mem) == *old(mem) && *final(self) == (CPU {
                pc: {
                    let next = add16(old(self).pc as int, ins.length as int);
                    if taken {
                        branch_target(next, old(mem).peek(add16(old(self).pc as int, 1)))
                    } else {
                        next
                    }
                },
                ..*old(self)
            }),
    {
        let pc = self.pc;
        let offset = mem.get_byte(pc.wrapping_add(1));
        let taken = match ins.op {
            Op::Bpl => self.status & FLAG_NEGATIVE == 0,
            Op::Bmi => self.status & FLAG_NEGATIVE != 0,
            Op::Bvc => self.status & FLAG_OVERFLOW == 0,
            Op::Bvs => self.status & FLAG_OVERFLOW != 0,
            Op::Bcc => self.status & FLAG_CARRY == 0,
            Op::Bcs => self.status & FLAG_CARRY != 0,
            Op::Bne => self.status & FLAG_ZERO == 0,
            _ => self.status & FLAG_ZERO != 0,
        };
        self.pc = pc.wrapping_add(ins.length as u16);
        if taken {
            self.jump_pc(offset);
        }
        taken
    }

    /// Executes the instruction at PC and returns the cycles it took.
    #[verifier::rlimit(80)]
    pub fn step<M: Memory>(&mut self, mem: &mut M) -> (cycles: u8)
        ensures
            old(mem).inv() ==> final(mem).inv(),
            cycles <= 8,
            old(mem).inv() ==> cycles == step_cycles(*old(self), *old(mem)),
            old(mem).inv() && !is_jump(opcode(old(mem).peek(old(self).pc)).op) && !is_branch(
                opcode(old(mem).peek(old(self).pc)).op,
            ) ==> final(self).pc == add16(
                old(self).pc as int,
                opcode(old(mem).peek(old(self).pc)).length as int,
            ),
            old(mem).inv() && old(mem).quiet(old(self).pc) && register_only(
                opcode(old(mem).peek(old(self).pc)),
            ) ==> *final(mem) == *old(mem) && *final(self) == (CPU {
                pc: add16(old(self).pc as int, opcode(old(mem).peek(old(self).pc)).length as int),
                ..effect(opcode(old(mem).peek(old(self).pc)), *old(self), old(self).acc)
            }),
            old(mem).plain() ==> {
                let ins = opcode(old(mem).peek(old(self).pc));
                let addr = operand_addr(*old(self), *old(mem), ins.mode);
                let m = operand_value(*old(self), *old(mem), ins);
                &&& cycles == step_cycles(*old(self), *old(mem))
                &&& final(self).pc == next_pc(*old(self), *old(mem))
                &&& !uses_stack(ins.op) ==> *final(self) == (CPU {
                    pc: final(self).pc,
                    ..effect(ins, *old(self), m)
                })
                &&& !uses_stack(ins.op) && writes_memory(ins) ==> written(
                    *old(mem),
                    *final(mem),
                    addr,
                    store_value(ins, *old(self), m),
                )
                &&& !uses_stack(ins.op) && !writes_memory(ins) ==> *final(mem) == *old(mem)
                &&& uses_stack(ins.op) ==> stack_effect(
                    *old(self),
                    *final(self),
                    *old(mem),
                    *final(mem),
                )
            },
    {
        let pc = self.pc;
        let b = mem.get_byte(pc);
        let ins = decode(b);
        proof {
            lemma_opcode_table(b);
        }
        if ins.op == Op::Brk || ins.op == Op::Jsr || ins.op == Op::Rts || ins.op == Op::Rti
            || ins.op == Op::Pha || ins.op == Op::Php || ins.op == Op::Pla || ins.op == Op::Plp {
            self.execute_stack_op(mem, ins);
            ins.cycles
        } else if ins.op == Op::Bpl || ins.op == Op::Bmi || ins.op == Op::Bvc || ins.op == Op::Bvs
            || ins.op == Op::Bcc || ins.op == Op::Bcs || ins.op == Op::Bne || ins.op == Op::Beq {
            let taken = self.execute_branch(mem, ins);
            if taken {
                ins.cycles + 1
            } else {
                ins.cycles
            }
        } else if ins.op == Op::Jmp {
            let dest = self.operand_address(mem, ins.mode);
            self.pc = dest;
            ins.cycles
        } else {
            let addr = self.operand_address(mem, ins.mode);
            self.execute_plain_op(mem, ins, addr);
            self.pc = pc.wrapping_add(ins.length as u16);
            ins.cycles
        }
    }
}

} // verus!
