use vstd::prelude::*;
use crate::cpu::CPU;
use crate::flags::{flag_set, lemma_nz, lemma_with_flag, with_flag, with_nz, FLAG_BRK, FLAG_CARRY, FLAG_DECIMAL, FLAG_INTERRUPT_DISABLE, FLAG_NEGATIVE, FLAG_OVERFLOW, FLAG_UNUSED, FLAG_ZERO};
use crate::memory::{add16, dec8, inc8, stack_addr, word, Memory};

verus! {

/// Carry-in bit of a status byte.
pub open spec fn carry_of(status: u8) -> int {
    if status & FLAG_CARRY != 0 { 1 } else { 0 }
}

/// Unsigned sum A + M + C of an addition with carry.
pub open spec fn adc_sum(a: u8, m: u8, status: u8) -> int {
    a as int + m as int + carry_of(status)
}

/// Result byte of an addition with carry.
pub open spec fn adc_result(a: u8, m: u8, status: u8) -> u8 {
    (adc_sum(a, m, status) % 256) as u8
}

/// Signed overflow: both operands share a sign that the result does not.
pub open spec fn adc_overflow(a: u8, m: u8, r: u8) -> bool {
    (a >= 0x80) == (m >= 0x80) && (a >= 0x80) != (r >= 0x80)
}

/// Status after an addition with carry.
pub open spec fn adc_status(a: u8, m: u8, status: u8) -> u8 {
    let r = adc_result(a, m, status);
    with_flag(
        with_flag(with_nz(status, r), FLAG_CARRY, adc_sum(a, m, status) >= 256),
        FLAG_OVERFLOW,
        adc_overflow(a, m, r),
    )
}

/// Processor after an addition with carry of `m` into the accumulator.
pub open spec fn adc_spec(cpu: CPU, m: u8) -> CPU {
    CPU { acc: adc_result(cpu.acc, m, cpu.status), status: adc_status(cpu.acc, m, cpu.status), ..cpu }
}

/// Register minus operand, modulo 256.
pub open spec fn sub8(a: u8, b: u8) -> u8 {
    ((a as int - b as int + 256) % 256) as u8
}

/// Status after comparing register `a` with operand `b`.
pub open spec fn compare_status(status: u8, a: u8, b: u8) -> u8 {
    with_flag(with_nz(status, sub8(a, b)), FLAG_CARRY, a >= b)
}

/// Status after BIT with accumulator `a` and operand `m`.
pub open spec fn bit_status(status: u8, a: u8, m: u8) -> u8 {
    with_flag(
        with_flag(with_flag(status, FLAG_NEGATIVE, m >= 0x80), FLAG_OVERFLOW, m & 0x40 != 0),
        FLAG_ZERO,
        a & m == 0,
    )
}

/// Status byte as stored on the stack by BRK and PHP.
pub open spec fn pushed_status(status: u8) -> u8 {
    status | FLAG_BRK | FLAG_UNUSED
}

/// Status byte as restored from the stack by PLP and RTI: B and bit 5 cleared.
pub open spec fn pulled_status(v: u8) -> u8 {
    v & 0xcf
}

/// Program counter moved by a signed 8-bit offset.
pub open spec fn branch_target(pc: u16, offset: u8) -> u16 {
    if offset < 0x80 {
        add16(pc as int, offset as int)
    } else {
        add16(pc as int, offset as int - 256)
    }
}

/// Memory after a write of `v` at `addr`, seen through `peek`.
pub open spec fn written<M: Memory>(before: M, after: M, addr: u16, v: u8) -> bool {
    after.plain() && forall|a: u16| #[trigger]
        after.peek(a) == if a == addr {
            v
        } else {
            before.peek(a)
        }
}

/// Addition with carry: the result byte is (A + M + C) mod 256, C becomes
/// (A + M + C) / 256, Z tells whether the result is zero, N copies its bit 7,
/// and V is set exactly when A and M share bit 7 and the result does not.
pub proof fn lemma_adc_flags(cpu: CPU, m: u8)
    ensures
        ({
            let after = adc_spec(cpu, m);
            let sum = cpu.acc as int + m as int + carry_of(cpu.status);
            let r = after.acc;
            &&& r as int == sum % 256
            &&& carry_of(after.status) == sum / 256
            &&& flag_set(after.status, FLAG_ZERO) == (r == 0)
            &&& flag_set(after.status, FLAG_NEGATIVE) == (r >= 0x80)
            &&& flag_set(after.status, FLAG_OVERFLOW) == ((cpu.acc >= 0x80) == (m >= 0x80) && (
            cpu.acc >= 0x80) != (r >= 0x80))
        }),
{
    let s = cpu.status;
    let r = adc_result(cpu.acc, m, s);
    let nz = with_nz(s, r);
    let c = with_flag(nz, FLAG_CARRY, adc_sum(cpu.acc, m, s) >= 256);
    let v = adc_overflow(cpu.acc, m, r);
    lemma_nz(s, r, FLAG_CARRY);
    lemma_with_flag(nz, FLAG_CARRY, FLAG_ZERO, adc_sum(cpu.acc, m, s) >= 256);
    lemma_with_flag(nz, FLAG_CARRY, FLAG_NEGATIVE, adc_sum(cpu.acc, m, s) >= 256);
    lemma_with_flag(nz, FLAG_CARRY, FLAG_CARRY, adc_sum(cpu.acc, m, s) >= 256);
    lemma_with_flag(c, FLAG_OVERFLOW, FLAG_ZERO, v);
    lemma_with_flag(c, FLAG_OVERFLOW, FLAG_NEGATIVE, v);
    lemma_with_flag(c, FLAG_OVERFLOW, FLAG_CARRY, v);
    lemma_with_flag(c, FLAG_OVERFLOW, FLAG_OVERFLOW, v);
}

/// Compare: C is set iff the register is at least M, Z iff they are equal,
/// and N is bit 7 of (register - M) mod 256.
pub proof fn lemma_compare_flags(status: u8, a: u8, m: u8)
    ensures
        flag_set(compare_status(status, a, m), FLAG_CARRY) == (a >= m),
        flag_set(compare_status(status, a, m), FLAG_ZERO) == (a == m),
        flag_set(compare_status(status, a, m), FLAG_NEGATIVE) == (sub8(a, m) >= 0x80),
        sub8(a, m) as int == (a as int - m as int) % 256,
{
    let nz = with_nz(status, sub8(a, m));
    lemma_nz(status, sub8(a, m), FLAG_CARRY);
    lemma_with_flag(nz, FLAG_CARRY, FLAG_CARRY, a >= m);
    lemma_with_flag(nz, FLAG_CARRY, FLAG_ZERO, a >= m);
    lemma_with_flag(nz, FLAG_CARRY, FLAG_NEGATIVE, a >= m);
}

/// Pushing a, b and c and then popping three times returns c, b and a, and
/// leaves the stack pointer where it started.
pub proof fn lemma_push_pop_round_trip<M: Memory>(
    s: u8,
    m0: M,
    m1: M,
    m2: M,
    m3: M,
    a: u8,
    b: u8,
    c: u8,
)
    requires
        m0.plain(),
        written(m0, m1, stack_addr(s), a),
        written(m1, m2, stack_addr(dec8(s)), b),
        written(m2, m3, stack_addr(dec8(dec8(s))), c),
    ensures
        ({
            let s3 = dec8(dec8(dec8(s)));
            &&& m3.peek(stack_addr(inc8(s3))) == c
            &&& m3.peek(stack_addr(inc8(inc8(s3)))) == b
            &&& m3.peek(stack_addr(inc8(inc8(inc8(s3))))) == a
            &&& inc8(inc8(inc8(s3))) == s
        }),
{
    let s3 = dec8(dec8(dec8(s)));
    assert(inc8(s3) == dec8(dec8(s)));
    assert(inc8(inc8(s3)) == dec8(s));
    assert(inc8(inc8(inc8(s3))) == s);
    assert(m3.peek(stack_addr(dec8(dec8(s)))) == c);
    assert(m3.peek(stack_addr(dec8(s))) == m2.peek(stack_addr(dec8(s))));
    assert(m3.peek(stack_addr(s)) == m2.peek(stack_addr(s)));
    assert(m2.peek(stack_addr(s)) == m1.peek(stack_addr(s)));
}

impl CPU {
    /// A | M into A; sets N and Z.
    pub fn ora<M: Memory>(&mut self, mem: &mut M, addr: u16)
        ensures
            old(mem).inv() ==> final(mem).inv(),
            old(mem).plain() ==> *final(mem) == *old(mem) && {
                let r = old(self).acc | old(mem).peek(addr);
                *final(self) == (CPU { acc: r, status: with_nz(old(self).status, r), ..*old(self) })
            },
    {
        let value = mem.get_byte(addr);
        let result = self.acc | value;
        self.acc = result;
        self.test_flags_n_z(result);
    }

    /// A & M into A; sets N and Z.
    pub fn and<M: Memory>(&mut self, mem: &mut M, addr: u16)
        ensures
            old(mem).inv() ==> final(mem).inv(),
            old(mem).plain() ==> *final(mem) == *old(mem) && {
                let r = old(self).acc & old(mem).peek(addr);
                *final(self) == (CPU { acc: r, status: with_nz(old(self).status, r), ..*old(self) })
            },
    {
        let value = mem.get_byte(addr);
        let result = self.acc & value;
        self.acc = result;
        self.test_flags_n_z(result);
    }

    /// A ^ M into A; sets N and Z.
    pub fn eor<M: Memory>(&mut self, mem: &mut M, addr: u16)
        ensures
            old(mem).inv() ==> final(mem).inv(),
            old(mem).plain() ==> *final(mem) == *old(mem) && {
                let r = old(self).acc ^ old(mem).peek(addr);
                *final(self) == (CPU { acc: r, status: with_nz(old(self).status, r), ..*old(self) })
            },
    {
        let value = mem.get_byte(addr);
        let result = self.acc ^ value;
        self.acc = result;
        self.test_flags_n_z(result);
    }

    /// Shift left; bit 7 goes to C.
    pub fn asl(&mut self, value: u8) -> (r: u8)
        ensures
            r == (value as int * 2) % 256,
            *final(self) == (CPU {
                status: with_flag(with_nz(old(self).status, r), FLAG_CARRY, value >= 0x80),
                ..*old(self)
            }),
    {
        let result: u8 = if value >= 0x80 { (value - 0x80) * 2 } else { value * 2 };
        self.test_flags_n_z(result);
        self.set_flag_carry(value >= 0x80);
        result
    }

    /// Shift right; bit 0 goes to C.
    pub fn lsr(&mut self, value: u8) -> (r: u8)
        ensures
            r == value / 2,
            *final(self) == (CPU {
                status: with_flag(with_nz(old(self).status, r), FLAG_CARRY, value % 2 == 1),
                ..*old(self)
            }),
    {
        let result: u8 = value / 2;
        self.test_flags_n_z(result);
        self.set_flag_carry(value % 2 == 1);
        result
    }

    /// Rotate left through carry.
    pub fn rol(&mut self, value: u8) -> (r: u8)
        ensures
            r == (value as int * 2) % 256 + carry_of(old(self).status),
            *final(self) == (CPU {
                status: with_flag(with_nz(old(self).status, r), FLAG_CARRY, value >= 0x80),
                ..*old(self)
            }),
    {
        let shifted: u8 = if value >= 0x80 { (value - 0x80) * 2 } else { value * 2 };
        let result: u8 = if self.status & FLAG_CARRY != 0 { shifted + 1 } else { shifted };
        self.test_flags_n_z(result);
        self.set_flag_carry(value >= 0x80);
        result
    }

    /// Rotate right through carry.
    pub fn ror(&mut self, value: u8) -> (r: u8)
        ensures
            r == value / 2 + 0x80 * carry_of(old(self).status),
            *final(self) == (CPU {
                status: with_flag(with_nz(old(self).status, r), FLAG_CARRY, value % 2 == 1),
                ..*old(self)
            }),
    {
        let shifted: u8 = value / 2;
        let result: u8 = if self.status & FLAG_CARRY != 0 { shifted + 0x80 } else { shifted };
        self.test_flags_n_z(result);
        self.set_flag_carry(value % 2 == 1);
        result
    }

    /// Pushes the status byte with B and bit 5 set.
    pub fn php<M: Memory>(&mut self, mem: &mut M)
        ensures
            old(mem).inv() ==> final(mem).inv(),
            *final(self) == (CPU { stack: dec8(old(self).stack), ..*old(self) }),
            old(mem).plain() ==> written(
                *old(mem),
                *final(mem),
                stack_addr(old(self).stack),
                pushed_status(old(self).status),
            ),
    {
        let value = self.status | FLAG_BRK | FLAG_UNUSED;
        self.push(mem, value);
    }

    /// Pulls the status byte, dropping B and bit 5.
    pub fn plp<M: Memory>(&mut self, mem: &mut M)
        ensures
            old(mem).inv() ==> final(mem).inv(),
            final(self).stack == inc8(old(self).stack),
            *final(self) == (CPU { stack: final(self).stack, status: final(self).status, ..*old(self) }),
            old(mem).plain() ==> *final(mem) == *old(mem) && final(self).status == pulled_status(
                old(mem).peek(stack_addr(inc8(old(self).stack))),
            ),
    {
        let status = self.pop(mem);
        self.status = status & 0xcf;
    }

    /// Pushes the accumulator.
    pub fn pha<M: Memory>(&mut self, mem: &mut M)
        ensures
            old(mem).inv() ==> final(mem).inv(),
            *final(self) == (CPU { stack: dec8(old(self).stack), ..*old(self) }),
            old(mem).plain() ==> written(*old(mem), *final(mem), stack_addr(old(self).stack), old(self).acc),
    {
        let value = self.acc;
        self.push(mem, value);
    }

    /// Pulls the accumulator; sets N and Z.
    pub fn pla<M: Memory>(&mut self, mem: &mut M)
        ensures
            old(mem).inv() ==> final(mem).inv(),
            final(self).stack == inc8(old(self).stack),
            final(self).status == with_nz(old(self).status, final(self).acc),
            *final(self) == (CPU { stack: final(self).stack, status: final(self).status, acc: final(self).acc, ..*old(self) }),
            old(mem).plain() ==> *final(mem) == *old(mem) && final(self).acc == old(mem).peek(
                stack_addr(inc8(old(self).stack)),
            ),
    {
        let acc = self.pop(mem);
        self.acc = acc;
        self.test_flags_n_z(acc);
    }

    /// Returns from an interrupt: pulls status (dropping B and bit 5), then PC.
    pub fn rti<M: Memory>(&mut self, mem: &mut M)
        ensures
            old(mem).inv() ==> final(mem).inv(),
            final(self).stack == inc8(inc8(inc8(old(self).stack))),
            *final(self) == (CPU { stack: final(self).stack, status: final(self).status, pc: final(self).pc, ..*old(self) }),
            old(mem).plain() ==> *final(mem) == *old(mem)
                && final(self).status == pulled_status(old(mem).peek(stack_addr(inc8(old(self).stack))))
                && final(self).pc == word(
                    old(mem).peek(stack_addr(inc8(inc8(old(self).stack)))),
                    old(mem).peek(stack_addr(inc8(inc8(inc8(old(self).stack))))),
                ),
    {
        let status = self.pop(mem);
        let pc_low = self.pop(mem);
        let pc_high = self.pop(mem);
        self.status = status & 0xcf;
        self.pc = (pc_high as u16) * 256 + (pc_low as u16);
    }

    /// Pulls the return address; the caller adds one to it.
    pub fn rts<M: Memory>(&mut self, mem: &mut M)
        ensures
            old(mem).inv() ==> final(mem).inv(),
            final(self).stack == inc8(inc8(old(self).stack)),
            *final(self) == (CPU { stack: final(self).stack, pc: final(self).pc, ..*old(self) }),
            old(mem).plain() ==> *final(mem) == *old(mem) && final(self).pc == word(
                old(mem).peek(stack_addr(inc8(old(self).stack))),
                old(mem).peek(stack_addr(inc8(inc8(old(self).stack)))),
            ),
    {
        let low = self.pop(mem);
        let high = self.pop(mem);
        self.pc = (high as u16) * 256 + (low as u16);
    }

    /// Adds `value` and the carry to the accumulator, setting N, Z, C and V.
    pub fn adc(&mut self, value: u8)
        ensures
            *final(self) == adc_spec(*old(self), value),
    {
        let carry: u16 = if self.status & FLAG_CARRY != 0 { 1 } else { 0 };
        let sum: u16 = self.acc as u16 + value as u16 + carry;
        let result: u8 = (sum % 256) as u8;
        let overflow = (self.acc >= 0x80) == (value >= 0x80) && (self.acc >= 0x80) != (result >= 0x80);
        self.test_flags_n_z(result);
        self.set_flag_carry(sum >= 256);
        self.set_flag_overflow(overflow);
        self.acc = result;
    }

    /// Subtracts M and the borrow: an addition of the complement of M.
    pub fn sbc<M: Memory>(&mut self, mem: &mut M, addr: u16)
        ensures
            old(mem).inv() ==> final(mem).inv(),
            old(mem).plain() ==> *final(mem) == *old(mem) && *final(self) == adc_spec(
                *old(self),
                (255 - old(mem).peek(addr)) as u8,
            ),
    {
        let value = mem.get_byte(addr);
        self.adc(255 - value);
    }

    /// Stores A.
    pub fn sta<M: Memory>(&mut self, mem: &mut M, addr: u16)
        ensures
            old(mem).inv() ==> final(mem).inv(),
            *final(self) == *old(self),
            old(mem).plain() ==> written(*old(mem), *final(mem), addr, old(self).acc),
    {
        mem.set_byte(addr, self.acc);
    }

    /// Stores X.
    pub fn stx<M: Memory>(&mut self, mem: &mut M, addr: u16)
        ensures
            old(mem).inv() ==> final(mem).inv(),
            *final(self) == *old(self),
            old(mem).plain() ==> written(*old(mem), *final(mem), addr, old(self).x),
    {
        mem.set_byte(addr, self.x);
    }

    /// Stores Y.
    pub fn sty<M: Memory>(&mut self, mem: &mut M, addr: u16)
        ensures
            old(mem).inv() ==> final(mem).inv(),
            *final(self) == *old(self),
            old(mem).plain() ==> written(*old(mem), *final(mem), addr, old(self).y),
    {
        mem.set_byte(addr, self.y);
    }

    /// Loads A; sets N and Z.
    pub fn lda<M: Memory>(&mut self, mem: &mut M, addr: u16)
        ensures
            old(mem).inv() ==> final(mem).inv(),
            old(mem).plain() ==> *final(mem) == *old(mem) && {
                let v = old(mem).peek(addr);
                *final(self) == (CPU { acc: v, status: with_nz(old(self).status, v), ..*old(self) })
            },
    {
        let value = mem.get_byte(addr);
        self.acc = value;
        self.test_flags_n_z(value);
    }

    /// Loads X; sets N and Z.
    pub fn ldx<M: Memory>(&mut self, mem: &mut M, addr: u16)
        ensures
            old(mem).inv() ==> final(mem).inv(),
            old(mem).plain() ==> *final(mem) == *old(mem) && {
                let v = old(mem).peek(addr);
                *final(self) == (CPU { x: v, status: with_nz(old(self).status, v), ..*old(self) })
            },
    {
        let value = mem.get_byte(addr);
        self.x = value;
        self.test_flags_n_z(value);
    }

    /// Loads Y; sets N and Z.
    pub fn ldy<M: Memory>(&mut self, mem: &mut M, addr: u16)
        ensures
            old(mem).inv() ==> final(mem).inv(),
            old(mem).plain() ==> *final(mem) == *old(mem) && {
                let v = old(mem).peek(addr);
                *final(self) == (CPU { y: v, status: with_nz(old(self).status, v), ..*old(self) })
            },
    {
        let value = mem.get_byte(addr);
        self.y = value;
        self.test_flags_n_z(value);
    }

    /// Sets C.
    pub fn sec(&mut self)
        ensures
            *final(self) == (CPU { status: old(self).status | FLAG_CARRY, ..*old(self) }),
    {
        self.status = self.status | FLAG_CARRY;
    }

    /// Clears C.
    pub fn clc(&mut self)
        ensures
            *final(self) == (CPU { status: old(self).status & !FLAG_CARRY, ..*old(self) }),
    {
        self.status = self.status & !FLAG_CARRY;
    }

    /// Sets I.
    pub fn sei(&mut self)
        ensures
            *final(self) == (CPU { status: old(self).status | FLAG_INTERRUPT_DISABLE, ..*old(self) }),
    {
        self.status = self.status | FLAG_INTERRUPT_DISABLE;
    }

    /// Clears I.
    pub fn cli(&mut self)
        ensures
            *final(self) == (CPU { status: old(self).status & !FLAG_INTERRUPT_DISABLE, ..*old(self) }),
    {
        self.status = self.status & !FLAG_INTERRUPT_DISABLE;
    }

    /// Sets D.
    pub fn sed(&mut self)
        ensures
            *final(self) == (CPU { status: old(self).status | FLAG_DECIMAL, ..*old(self) }),
    {
        self.status = self.status | FLAG_DECIMAL;
    }

    /// Clears D.
    pub fn cld(&mut self)
        ensures
            *final(self) == (CPU { status: old(self).status & !FLAG_DECIMAL, ..*old(self) }),
    {
        self.status = self.status & !FLAG_DECIMAL;
    }

    /// Clears V.
    pub fn clv(&mut self)
        ensures
            *final(self) == (CPU { status: old(self).status & !FLAG_OVERFLOW, ..*old(self) }),
    {
        self.status = self.status & !FLAG_OVERFLOW;
    }

    /// X into A; sets N and Z.
    pub fn txa(&mut self)
        ensures
            *final(self) == (CPU { acc: old(self).x, status: with_nz(old(self).status, old(self).x), ..*old(self) }),
    {
        self.acc = self.x;
        self.test_flags_n_z(self.x);
    }

    /// Y into A; sets N and Z.
    pub fn tya(&mut self)
        ensures
            *final(self) == (CPU { acc: old(self).y, status: with_nz(old(self).status, old(self).y), ..*old(self) }),
    {
        self.acc = self.y;
        self.test_flags_n_z(self.y);
    }

    /// A into Y; sets N and Z.
    pub fn tay(&mut self)
        ensures
            *final(self) == (CPU { y: old(self).acc, status: with_nz(old(self).status, old(self).acc), ..*old(self) }),
    {
        self.y = self.acc;
        self.test_flags_n_z(self.acc);
    }

    /// A into X; sets N and Z.
    pub fn tax(&mut self)
        ensures
            *final(self) == (CPU { x: old(self).acc, status: with_nz(old(self).status, old(self).acc), ..*old(self) }),
    {
        self.x = self.acc;
        self.test_flags_n_z(self.acc);
    }

    /// S into X; sets N and Z.
    pub fn tsx(&mut self)
        ensures
            *final(self) == (CPU { x: old(self).stack, status: with_nz(old(self).status, old(self).stack), ..*old(self) }),
    {
        self.x = self.stack;
        self.test_flags_n_z(self.stack);
    }

    /// X into S; flags unchanged.
    pub fn txs(&mut self)
        ensures
            *final(self) == (CPU { stack: old(self).x, ..*old(self) }),
    {
        self.stack = self.x;
    }

    /// Y - 1 into Y; sets N and Z.
    pub fn dey(&mut self)
        ensures
            *final(self) == (CPU { y: dec8(old(self).y), status: with_nz(old(self).status, dec8(old(self).y)), ..*old(self) }),
    {
        let result = self.y.wrapping_sub(1);
        self.y = result;
        self.test_flags_n_z(result);
    }

    /// X - 1 into X; sets N and Z.
    pub fn dex(&mut self)
        ensures
            *final(self) == (CPU { x: dec8(old(self).x), status: with_nz(old(self).status, dec8(old(self).x)), ..*old(self) }),
    {
        let result = self.x.wrapping_sub(1);
        self.x = result;
        self.test_flags_n_z(result);
    }

    /// Y + 1 into Y; sets N and Z.
    pub fn iny(&mut self)
        ensures
            *final(self) == (CPU { y: inc8(old(self).y), status: with_nz(old(self).status, inc8(old(self).y)), ..*old(self) }),
    {
        let result = self.y.wrapping_add(1);
        self.y = result;
        self.test_flags_n_z(result);
    }

    /// X + 1 into X; sets N and Z.
    pub fn inx(&mut self)
        ensures
            *final(self) == (CPU { x: inc8(old(self).x), status: with_nz(old(self).status, inc8(old(self).x)), ..*old(self) }),
    {
        let result = self.x.wrapping_add(1);
        self.x = result;
        self.test_flags_n_z(result);
    }

    /// Increments the byte at `addr`; sets N and Z.
    pub fn inc<M: Memory>(&mut self, mem: &mut M, addr: u16)
        ensures
            old(mem).inv() ==> final(mem).inv(),
            old(mem).plain() ==> {
                let r = inc8(old(mem).peek(addr));
                written(*old(mem), *final(mem), addr, r)
                    && *final(self) == (CPU { status: with_nz(old(self).status, r), ..*old(self) })
            },
    {
        let result = mem.get_byte(addr).wrapping_add(1);
        mem.set_byte(addr, result);
        self.test_flags_n_z(result);
    }

    /// Decrements the byte at `addr`; sets N and Z.
    pub fn dec<M: Memory>(&mut self, mem: &mut M, addr: u16)
        ensures
            old(mem).inv() ==> final(mem).inv(),
            old(mem).plain() ==> {
                let r = dec8(old(mem).peek(addr));
                written(*old(mem), *final(mem), addr, r)
                    && *final(self) == (CPU { status: with_nz(old(self).status, r), ..*old(self) })
            },
    {
        let result = mem.get_byte(addr).wrapping_sub(1);
        mem.set_byte(addr, result);
        self.test_flags_n_z(result);
    }

    /// Sets N and Z from `a - b` and C when `a >= b`.
    pub fn compare(&mut self, a: u8, b: u8)
        ensures
            *final(self) == (CPU { status: compare_status(old(self).status, a, b), ..*old(self) }),
    {
        let value: u8 = if a >= b { a - b } else { ((a as u16 + 256) - b as u16) as u8 };
        self.test_flags_n_z(value);
        self.set_flag_carry(a >= b);
    }

    /// Compares Y with M.
    pub fn cpy<M: Memory>(&mut self, mem: &mut M, addr: u16)
        ensures
            old(mem).inv() ==> final(mem).inv(),
            old(mem).plain() ==> *final(mem) == *old(mem) && *final(self) == (CPU {
                status: compare_status(old(self).status, old(self).y, old(mem).peek(addr)),
                ..*old(self)
            }),
    {
        let value = mem.get_byte(addr);
        let y = self.y;
        self.compare(y, value);
    }

    /// Compares X with M.
    pub fn cpx<M: Memory>(&mut self, mem: &mut M, addr: u16)
        ensures
            old(mem).inv() ==> final(mem).inv(),
            old(mem).plain() ==> *final(mem) == *old(mem) && *final(self) == (CPU {
                status: compare_status(old(self).status, old(self).x, old(mem).peek(addr)),
                ..*old(self)
            }),
    {
        let value = mem.get_byte(addr);
        let x = self.x;
        self.compare(x, value);
    }

    /// Compares A with M.
    pub fn cmp<M: Memory>(&mut self, mem: &mut M, addr: u16)
        ensures
            old(mem).inv() ==> final(mem).inv(),
            old(mem).plain() ==> *final(mem) == *old(mem) && *final(self) == (CPU {
                status: compare_status(old(self).status, old(self).acc, old(mem).peek(addr)),
                ..*old(self)
            }),
    {
        let value = mem.get_byte(addr);
        let acc = self.acc;
        self.compare(acc, value);
    }

    /// BIT: Z from A & M, N from bit 7 of M, V from bit 6 of M.
    pub fn bit<M: Memory>(&mut self, mem: &mut M, addr: u16)
        ensures
            old(mem).inv() ==> final(mem).inv(),
            old(mem).plain() ==> *final(mem) == *old(mem) && *final(self) == (CPU {
                status: bit_status(old(self).status, old(self).acc, old(mem).peek(addr)),
                ..*old(self)
            }),
    {
        let value = mem.get_byte(addr);
        let mut status = self.status;
        if value >= 0x80 {
            status = status | FLAG_NEGATIVE;
        } else {
            status = status & !FLAG_NEGATIVE;
        }
        if value & 0x40 != 0 {
            status = status | FLAG_OVERFLOW;
        } else {
            status = status & !FLAG_OVERFLOW;
        }
        if self.acc & value == 0 {
            status = status | FLAG_ZERO;
        } else {
            status = status & !FLAG_ZERO;
        }
        self.status = status;
    }

    /// Moves PC by the signed offset.
    pub fn jump_pc(&mut self, offset: u8)
        ensures
            *final(self) == (CPU { pc: branch_target(old(self).pc, offset), ..*old(self) }),
    {
        if offset < 0x80 {
            self.pc = self.pc.wrapping_add(offset as u16);
        } else {
            self.pc = self.pc.wrapping_sub(256 - offset as u16);
        }
    }

    /// A halting opcode; this core treats it as doing nothing.
    pub fn kil(&mut self)
        ensures
            *final(self) == *old(self),
    {
    }
}

} // verus!
