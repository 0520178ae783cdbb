use vstd::prelude::*;
use crate::cpu::CPU;

verus! {

pub const FLAG_OFFSET_C: u8 = 0;
pub const FLAG_OFFSET_Z: u8 = 1;
pub const FLAG_OFFSET_I: u8 = 2;
pub const FLAG_OFFSET_D: u8 = 3;
pub const FLAG_OFFSET_B: u8 = 4;
pub const FLAG_OFFSET_V: u8 = 6;
pub const FLAG_OFFSET_N: u8 = 7;

/// Carry.
pub const FLAG_CARRY: u8 = 0x01;
/// Zero.
pub const FLAG_ZERO: u8 = 0x02;
/// Interrupt disable.
pub const FLAG_INTERRUPT_DISABLE: u8 = 0x04;
/// Decimal mode.
pub const FLAG_DECIMAL: u8 = 0x08;
/// Break; only present in a status byte pushed by BRK or PHP.
pub const FLAG_BRK: u8 = 0x10;
/// Bit 5, always set in a status byte pushed by BRK or PHP.
pub const FLAG_UNUSED: u8 = 0x20;
/// Overflow.
pub const FLAG_OVERFLOW: u8 = 0x40;
/// Negative.
pub const FLAG_NEGATIVE: u8 = 0x80;

/// `status` with the bits of `mask` set when `on`, cleared otherwise.
pub open spec fn with_flag(status: u8, mask: u8, on: bool) -> u8 {
    if on { status | mask } else { status & !mask }
}

/// Status after setting Z and N from `value`.
pub open spec fn with_nz(status: u8, value: u8) -> u8 {
    with_flag(with_flag(status, FLAG_ZERO, value == 0), FLAG_NEGATIVE, value >= 0x80)
}

/// Whether the single-bit `mask` is set in `status`.
pub open spec fn flag_set(status: u8, mask: u8) -> bool {
    status & mask != 0
}

pub open spec fn single_bit(m: u8) -> bool {
    m == 1 || m == 2 || m == 4 || m == 8 || m == 16 || m == 32 || m == 64 || m == 128
}

/// Setting or clearing one flag decides that flag and keeps every other.
pub proof fn lemma_with_flag(status: u8, mask: u8, other: u8, on: bool)
    requires
        single_bit(mask),
        single_bit(other),
    ensures
        flag_set(with_flag(status, mask, on), other) == if mask == other {
            on
        } else {
            flag_set(status, other)
        },
{
    lemma_with_flag_bits(status, mask, other, on);
}

proof fn lemma_with_flag_bits(status: u8, mask: u8, other: u8, on: bool)
    by (bit_vector)
    requires
        mask == 1 || mask == 2 || mask == 4 || mask == 8 || mask == 16 || mask == 32 || mask == 64
            || mask == 128,
        other == 1 || other == 2 || other == 4 || other == 8 || other == 16 || other == 32 || other
            == 64 || other == 128,
    ensures
        ((if on { status | mask } else { status & !mask }) & other != 0) == if mask == other {
            on
        } else {
            status & other != 0
        },
{
}

/// After setting N and Z from `value`: Z is set exactly when `value` is zero,
/// N exactly when bit 7 of `value` is set, and the other flags are kept.
pub proof fn lemma_nz(status: u8, value: u8, other: u8)
    requires
        single_bit(other),
    ensures
        flag_set(with_nz(status, value), FLAG_ZERO) == (value == 0),
        flag_set(with_nz(status, value), FLAG_NEGATIVE) == (value >= 0x80),
        other != FLAG_ZERO && other != FLAG_NEGATIVE ==> flag_set(with_nz(status, value), other)
            == flag_set(status, other),
{
    let z = with_flag(status, FLAG_ZERO, value == 0);
    lemma_with_flag(status, FLAG_ZERO, FLAG_ZERO, value == 0);
    lemma_with_flag(status, FLAG_ZERO, other, value == 0);
    lemma_with_flag(z, FLAG_NEGATIVE, FLAG_ZERO, value >= 0x80);
    lemma_with_flag(z, FLAG_NEGATIVE, FLAG_NEGATIVE, value >= 0x80);
    lemma_with_flag(z, FLAG_NEGATIVE, other, value >= 0x80);
}

impl CPU {
    /// Sets Z when `value` is zero, clears it otherwise.
    pub fn test_flag_zero(&mut self, value: u8)
        ensures
            *final(self) == (CPU { status: with_flag(old(self).status, FLAG_ZERO, value == 0), ..*old(self) }),
    {
        if value == 0 {
            self.status = self.status | FLAG_ZERO;
        } else {
            self.status = self.status & !FLAG_ZERO;
        }
    }

    /// Copies bit 7 of `value` into N.
    pub fn test_flag_negative(&mut self, value: u8)
        ensures
            *final(self) == (CPU { status: with_flag(old(self).status, FLAG_NEGATIVE, value >= 0x80), ..*old(self) }),
    {
        if value >= 0x80 {
            self.status = self.status | FLAG_NEGATIVE;
        } else {
            self.status = self.status & !FLAG_NEGATIVE;
        }
    }

    /// Sets Z and N from `value`.
    pub fn test_flags_n_z(&mut self, value: u8)
        ensures
            *final(self) == (CPU { status: with_nz(old(self).status, value), ..*old(self) }),
    {
        self.test_flag_zero(value);
        self.test_flag_negative(value);
    }

    /// Sets or clears C.
    pub fn set_flag_carry(&mut self, carry: bool)
        ensures
            *final(self) == (CPU { status: with_flag(old(self).status, FLAG_CARRY, carry), ..*old(self) }),
    {
        if carry {
            self.status = self.status | FLAG_CARRY;
        } else {
            self.status = self.status & !FLAG_CARRY;
        }
    }

    /// Sets or clears V.
    pub fn set_flag_overflow(&mut self, overflow: bool)
        ensures
            *final(self) == (CPU { status: with_flag(old(self).status, FLAG_OVERFLOW, overflow), ..*old(self) }),
    {
        if overflow {
            self.status = self.status | FLAG_OVERFLOW;
        } else {
            self.status = self.status & !FLAG_OVERFLOW;
        }
    }
}

} // verus!
