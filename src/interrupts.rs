use vstd::prelude::*;
use crate::cpu::CPU;
use crate::flags::{FLAG_BRK, FLAG_INTERRUPT_DISABLE, FLAG_UNUSED};
use crate::memory::{add16, dec8, stack_addr, word, Memory};
use crate::ops::pushed_status;

verus! {

/// Vector of the maskable interrupt and BRK.
pub const IRQ_VECTOR: u16 = 0xfffe;
/// Vector of the non-maskable interrupt.
pub const NMI_VECTOR: u16 = 0xfffa;
/// `after` is `before` with three bytes pushed from stack pointer `s` downwards.
pub open spec fn pushed3<M: Memory>(before: M, after: M, s: u8, a: u8, b: u8, c: u8) -> bool {
    after.plain() && forall|addr: u16| #[trigger]
        after.peek(addr) == if addr == stack_addr(s) {
            a
        } else if addr == stack_addr(dec8(s)) {
            b
        } else if addr == stack_addr(dec8(dec8(s))) {
            c
        } else {
            before.peek(addr)
        }
}

/// `mem` is `before` after stacking `a`, `b` and `c` from stack pointer `s`
/// downwards and then two reads of the vector at `vector`, which leave it
/// as it was when they are quiet; the new PC is the vector.
pub open spec fn entered_through<M: Memory>(before: M, mem: M, s: u8, a: u8, b: u8, c: u8, vector: u16, pc: u16) -> bool {
    exists|m1: M, m2: M, m3: M|
        #![trigger m1.write_effect(stack_addr(dec8(s)), b, m2), m2.write_effect(stack_addr(dec8(dec8(s))), c, m3)]
        {
            &&& before.write_effect(stack_addr(s), a, m1)
            &&& m1.write_effect(stack_addr(dec8(s)), b, m2)
            &&& m2.write_effect(stack_addr(dec8(dec8(s))), c, m3)
            &&& m3.quiet(vector) && m3.quiet(add16(vector as int, 1)) ==> mem == m3 && pc == word(
                m3.peek(vector),
                m3.peek(add16(vector as int, 1)),
            )
        }
}

/// Processor and memory after entering an interrupt through `vector`, having
/// stacked `ret` and `status`.
pub open spec fn entered<M: Memory>(
    cpu: CPU,
    after: CPU,
    before: M,
    mem: M,
    vector: u16,
    ret: u16,
    status: u8,
) -> bool {
    &&& after.stack == dec8(dec8(dec8(cpu.stack)))
    &&& after.acc == cpu.acc && after.x == cpu.x && after.y == cpu.y
    &&& before.inv() ==> mem.inv() && entered_through(
        before,
        mem,
        cpu.stack,
        (ret / 256) as u8,
        (ret % 256) as u8,
        status,
        vector,
        after.pc,
    )
    &&& before.plain() ==> pushed3(
        before,
        mem,
        cpu.stack,
        (ret / 256) as u8,
        (ret % 256) as u8,
        status,
    ) && after.pc == word(before.peek(vector), before.peek(add16(vector as int, 1)))
}

impl CPU {
    /// Maskable interrupt: ignored while I is set, else enters through 0xFFFE.
    pub fn interrupt_request<M: Memory>(&mut self, mem: &mut M)
        ensures
            old(mem).inv() ==> final(mem).inv(),
            old(self).status & FLAG_INTERRUPT_DISABLE != 0 ==> *final(self) == *old(self) && *final(mem) == *old(mem),
            old(self).status & FLAG_INTERRUPT_DISABLE == 0 ==> entered(
                *old(self),
                *final(self),
                *old(mem),
                *final(mem),
                IRQ_VECTOR,
                old(self).pc,
                old(self).status & !FLAG_BRK,
            ) && final(self).status == old(self).status | FLAG_INTERRUPT_DISABLE,
    {
        if (self.status & FLAG_INTERRUPT_DISABLE) != 0 {
            return ;
        }
        self.interrupt(mem, IRQ_VECTOR);
    }

    /// Non-maskable interrupt through 0xFFFA.
    pub fn nonmaskable_interrupt<M: Memory>(&mut self, mem: &mut M)
        ensures
            old(mem).inv() ==> final(mem).inv(),
            entered(
                *old(self),
                *final(self),
                *old(mem),
                *final(mem),
                NMI_VECTOR,
                old(self).pc,
                old(self).status & !FLAG_BRK,
            ),
            final(self).status == old(self).status | FLAG_INTERRUPT_DISABLE,
    {
        self.interrupt(mem, NMI_VECTOR);
    }

    fn interrupt<M: Memory>(&mut self, mem: &mut M, vector: u16)
        requires
            vector == IRQ_VECTOR || vector == NMI_VECTOR,
        ensures
            old(mem).inv() ==> final(mem).inv(),
            entered(
                *old(self),
                *final(self),
                *old(mem),
                *final(mem),
                vector,
                old(self).pc,
                old(self).status & !FLAG_BRK,
            ),
            final(self).status == old(self).status | FLAG_INTERRUPT_DISABLE,
    {
        let pc = self.pc;
        let status = self.status;
        let ghost s = self.stack;
        self.push(mem, (pc / 256) as u8);
        let ghost m1 = *mem;
        self.push(mem, (pc % 256) as u8);
        let ghost m2 = *mem;
        self.push(mem, status & !FLAG_BRK);
        let ghost m3 = *mem;
        self.status = status | FLAG_INTERRUPT_DISABLE;
        let low = mem.get_byte(vector);
        let high = mem.get_byte(vector + 1);
        self.pc = (high as u16) * 256 + (low as u16);
        proof {
            if old(mem).inv() {
                assert(m1.write_effect(stack_addr(dec8(s)), (pc % 256) as u8, m2));
                assert(m2.write_effect(stack_addr(dec8(dec8(s))), status & !FLAG_BRK, m3));
            }
        }
    }

    /// BRK: stacks the address two bytes past the opcode and the status with
    /// B and bit 5 set, then jumps through 0xFFFE.
    pub fn brk<M: Memory>(&mut self, mem: &mut M)
        ensures
            old(mem).inv() ==> final(mem).inv(),
            entered(
                *old(self),
                *final(self),
                *old(mem),
                *final(mem),
                IRQ_VECTOR,
                add16(old(self).pc as int, 2),
                pushed_status(old(self).status),
            ),
            final(self).status == old(self).status,
    {
        let pc = self.pc.wrapping_add(2);
        let status = self.status | FLAG_BRK | FLAG_UNUSED;
        let ghost s = self.stack;
        self.push(mem, (pc / 256) as u8);
        let ghost m1 = *mem;
        self.push(mem, (pc % 256) as u8);
        let ghost m2 = *mem;
        self.push(mem, status);
        let ghost m3 = *mem;
        let low = mem.get_byte(IRQ_VECTOR);
        let high = mem.get_byte(IRQ_VECTOR + 1);
        self.pc = (high as u16) * 256 + (low as u16);
        proof {
            if old(mem).inv() {
                assert(m1.write_effect(stack_addr(dec8(s)), (pc % 256) as u8, m2));
                assert(m2.write_effect(stack_addr(dec8(dec8(s))), status, m3));
            }
        }
    }
}

} // verus!
