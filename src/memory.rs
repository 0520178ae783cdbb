use vstd::prelude::*;
use crate::cpu::CPU;

verus! {

/// 16-bit sum with wrap-around.
pub open spec fn add16(a: int, b: int) -> u16 {
    ((a + b) % 0x10000) as u16
}

/// 8-bit increment with wrap-around.
pub open spec fn inc8(a: u8) -> u8 {
    ((a + 1) % 256) as u8
}

/// 8-bit decrement with wrap-around.
pub open spec fn dec8(a: u8) -> u8 {
    ((a + 255) % 256) as u8
}

/// Little-endian 16-bit word from two bytes.
pub open spec fn word(low: u8, high: u8) -> u16 {
    (high as int * 256 + low as int) as u16
}

/// The byte-addressed bus seen by the processor.
///
/// A plain memory is ordinary storage: a read changes nothing and a write
/// changes exactly the byte written. Memory-mapped I/O is not plain; its
/// implementations state their own behaviour.
pub trait Memory: Sized {
    /// The byte a read of `addr` returns.
    spec fn peek(&self, addr: u16) -> u8;

    /// Whether this memory is plain storage.
    spec fn plain(&self) -> bool;

    /// The memory's own well-formedness, kept by every access.
    spec fn inv(&self) -> bool;

    /// Whether a read of `addr` leaves the memory as it was.
    spec fn quiet(&self, addr: u16) -> bool;

    /// Whether `after` is this memory after a write of `value` to `addr`.
    spec fn write_effect(&self, addr: u16, value: u8, after: Self) -> bool;

    fn get_byte(&mut self, addr: u16) -> (r: u8)
        ensures
            old(self).inv() ==> final(self).inv() && r == old(self).peek(addr),
            old(self).inv() && old(self).quiet(addr) ==> *final(self) == *old(self),
            old(self).plain() ==> r == old(self).peek(addr) && *final(self) == *old(self),
    ;

    fn set_byte(&mut self, addr: u16, value: u8)
        ensures
            old(self).inv() ==> final(self).inv() && old(self).write_effect(addr, value, *final(self)),
            old(self).plain() ==> final(self).plain() && forall|a: u16| #[trigger]
                final(self).peek(a) == if a == addr {
                    value
                } else {
                    old(self).peek(a)
                },
    ;
}

/// 64 KiB of plain RAM covering the whole address space.
pub struct FlatMemory {
    pub ram: Vec<u8>,
}

impl FlatMemory {
    /// Zero-filled memory.
    pub fn new() -> (r: FlatMemory)
        ensures
            r.plain(),
            forall|a: u16| #[trigger] r.peek(a) == 0,
    {
        FlatMemory { ram: vec![0u8; 0x10000] }
    }
}

impl Memory for FlatMemory {
    open spec fn peek(&self, addr: u16) -> u8 {
        self.ram@[addr as int]
    }

    open spec fn plain(&self) -> bool {
        self.ram@.len() == 0x10000
    }

    open spec fn inv(&self) -> bool {
        self.ram@.len() == 0x10000
    }

    open spec fn quiet(&self, addr: u16) -> bool {
        true
    }

    open spec fn write_effect(&self, addr: u16, value: u8, after: FlatMemory) -> bool {
        after.ram@ == self.ram@.update(addr as int, value)
    }

    fn get_byte(&mut self, addr: u16) -> (r: u8) {
        if (addr as usize) < self.ram.len() {
            self.ram[addr as usize]
        } else {
            0
        }
    }

    fn set_byte(&mut self, addr: u16, value: u8) {
        if (addr as usize) < self.ram.len() {
            self.ram.set(addr as usize, value);
        }
    }
}

/// Little-endian word at `addr` and the byte after it.
pub fn memory_get_short<M: Memory>(mem: &mut M, addr: u16) -> (r: u16)
    ensures
        old(mem).inv() && old(mem).quiet(addr) ==> r == word(
            old(mem).peek(addr),
            old(mem).peek(add16(addr as int, 1)),
        ),
        old(mem).inv() && old(mem).quiet(addr) && old(mem).quiet(add16(addr as int, 1))
            ==> *final(mem) == *old(mem),
        old(mem).inv() ==> final(mem).inv(),
        old(mem).plain() ==> *final(mem) == *old(mem) && r == word(
            old(mem).peek(addr),
            old(mem).peek(add16(addr as int, 1)),
        ),
{
    let low = mem.get_byte(addr);
    let high = mem.get_byte(addr.wrapping_add(1));
    (high as u16) * 256 + (low as u16)
}

/// Address of the stack slot that `s` points at.
pub open spec fn stack_addr(s: u8) -> u16 {
    (0x100 + s as int) as u16
}

impl CPU {
    /// Clears the registers, points S at 0xFD and loads PC from the reset vector.
    pub fn reset<M: Memory>(&mut self, mem: &mut M)
        ensures
            old(mem).inv() ==> final(mem).inv(),
            final(self).acc == 0 && final(self).x == 0 && final(self).y == 0,
            final(self).status == 0 && final(self).stack == 0xfd,
            old(mem).inv() && old(mem).quiet(0xfffc) ==> final(self).pc == word(
                old(mem).peek(0xfffc),
                old(mem).peek(0xfffd),
            ),
            old(mem).inv() && old(mem).quiet(0xfffc) && old(mem).quiet(0xfffd) ==> *final(mem)
                == *old(mem),
            old(mem).plain() ==> *final(mem) == *old(mem) && final(self).pc == word(
                old(mem).peek(0xfffc),
                old(mem).peek(0xfffd),
            ),
    {
        self.acc = 0;
        self.x = 0;
        self.y = 0;
        self.status = 0;
        self.stack = 0xfd;
        self.pc = memory_get_short(mem, 0xfffc);
    }

    /// Writes `value` at 0x100 + S, then decrements S.
    pub fn push<M: Memory>(&mut self, mem: &mut M, value: u8)
        ensures
            old(mem).inv() ==> old(mem).write_effect(stack_addr(old(self).stack), value, *final(mem)),
            old(mem).inv() ==> final(mem).inv(),
            *final(self) == (CPU { stack: dec8(old(self).stack), ..*old(self) }),
            old(mem).plain() ==> final(mem).plain() && forall|a: u16| #[trigger]
                final(mem).peek(a) == if a == stack_addr(old(self).stack) {
                    value
                } else {
                    old(mem).peek(a)
                },
    {
        let addr: u16 = 0x100 + (self.stack as u16);
        mem.set_byte(addr, value);
        self.stack = self.stack.wrapping_sub(1);
    }

    /// Increments S, then reads the byte at 0x100 + S.
    pub fn pop<M: Memory>(&mut self, mem: &mut M) -> (r: u8)
        ensures
            old(mem).inv() ==> final(mem).inv(),
            *final(self) == (CPU { stack: inc8(old(self).stack), ..*old(self) }),
            old(mem).plain() ==> *final(mem) == *old(mem) && r == old(mem).peek(
                stack_addr(final(self).stack),
            ),
    {
        self.stack = self.stack.wrapping_add(1);
        let addr: u16 = 0x100 + (self.stack as u16);
        mem.get_byte(addr)
    }

    /// Operand address of an immediate operand: the byte after the opcode.
    pub fn get_address_immediate(&self) -> (r: u16)
        ensures
            r == add16(self.pc as int, 1),
    {
        self.pc.wrapping_add(1)
    }

    /// Address of a branch's offset byte.
    pub fn get_address_relative(&self) -> (r: u16)
        ensures
            r == add16(self.pc as int, 1),
    {
        self.pc.wrapping_add(1)
    }

    /// Zero-page address `nn`.
    pub fn get_address_zeropage<M: Memory>(&self, mem: &mut M) -> (r: u16)
        ensures
            old(mem).inv() ==> final(mem).inv(),
            old(mem).plain() ==> *final(mem) == *old(mem) && r == old(mem).peek(
                add16(self.pc as int, 1),
            ) as u16,
    {
        mem.get_byte(self.pc.wrapping_add(1)) as u16
    }

    /// Zero-page address `nn + X`, wrapping within page zero.
    pub fn get_address_zeropage_x<M: Memory>(&self, mem: &mut M) -> (r: u16)
        ensures
            old(mem).inv() ==> final(mem).inv(),
            old(mem).plain() ==> *final(mem) == *old(mem) && r == ((old(mem).peek(
                add16(self.pc as int, 1),
            ) + self.x) % 256) as u16,
    {
        let base = mem.get_byte(self.pc.wrapping_add(1));
        base.wrapping_add(self.x) as u16
    }

    /// Zero-page address `nn + Y`, wrapping within page zero.
    pub fn get_address_zeropage_y<M: Memory>(&self, mem: &mut M) -> (r: u16)
        ensures
            old(mem).inv() ==> final(mem).inv(),
            old(mem).plain() ==> *final(mem) == *old(mem) && r == ((old(mem).peek(
                add16(self.pc as int, 1),
            ) + self.y) % 256) as u16,
    {
        let base = mem.get_byte(self.pc.wrapping_add(1));
        base.wrapping_add(self.y) as u16
    }

    /// Absolute address `nnnn` from the two bytes after the opcode.
    pub fn get_address_absolute<M: Memory>(&self, mem: &mut M) -> (r: u16)
        ensures
            old(mem).inv() ==> final(mem).inv(),
            old(mem).plain() ==> *final(mem) == *old(mem) && r == word(
                old(mem).peek(add16(self.pc as int, 1)),
                old(mem).peek(add16(self.pc as int, 2)),
            ),
    {
        let low = mem.get_byte(self.pc.wrapping_add(1));
        let high = mem.get_byte(self.pc.wrapping_add(2));
        (high as u16) * 256 + (low as u16)
    }

    /// Absolute address `nnnn + X`.
    pub fn get_address_absolute_x<M: Memory>(&self, mem: &mut M) -> (r: u16)
        ensures
            old(mem).inv() ==> final(mem).inv(),
            old(mem).plain() ==> *final(mem) == *old(mem) && r == add16(
                word(
                    old(mem).peek(add16(self.pc as int, 1)),
                    old(mem).peek(add16(self.pc as int, 2)),
                ) as int,
                self.x as int,
            ),
    {
        let base = self.get_address_absolute(mem);
        base.wrapping_add(self.x as u16)
    }

    /// Absolute address `nnnn + Y`.
    pub fn get_address_absolute_y<M: Memory>(&self, mem: &mut M) -> (r: u16)
        ensures
            old(mem).inv() ==> final(mem).inv(),
            old(mem).plain() ==> *final(mem) == *old(mem) && r == add16(
                word(
                    old(mem).peek(add16(self.pc as int, 1)),
                    old(mem).peek(add16(self.pc as int, 2)),
                ) as int,
                self.y as int,
            ),
    {
        let base = self.get_address_absolute(mem);
        base.wrapping_add(self.y as u16)
    }

    /// Indirect `(nnnn)`: the word stored at the absolute address.
    pub fn get_address_indirect<M: Memory>(&self, mem: &mut M) -> (r: u16)
        ensures
            old(mem).inv() ==> final(mem).inv(),
            old(mem).plain() ==> {
                let src = word(
                    old(mem).peek(add16(self.pc as int, 1)),
                    old(mem).peek(add16(self.pc as int, 2)),
                );
                *final(mem) == *old(mem) && r == word(
                    old(mem).peek(src),
                    old(mem).peek(add16(src as int, 1)),
                )
            },
    {
        let src = self.get_address_absolute(mem);
        memory_get_short(mem, src)
    }

    /// Indexed indirect `(nn,X)`: the word stored at `nn + X` in page zero.
    pub fn get_address_indexed_indirect<M: Memory>(&self, mem: &mut M) -> (r: u16)
        ensures
            old(mem).inv() ==> final(mem).inv(),
            old(mem).plain() ==> {
                let zp = (old(mem).peek(add16(self.pc as int, 1)) + self.x) % 256;
                *final(mem) == *old(mem) && r == word(
                    old(mem).peek(zp as u16),
                    old(mem).peek(((zp + 1) % 256) as u16),
                )
            },
    {
        let zp = mem.get_byte(self.pc.wrapping_add(1)).wrapping_add(self.x);
        let low = mem.get_byte(zp as u16);
        let high = mem.get_byte(zp.wrapping_add(1) as u16);
        (high as u16) * 256 + (low as u16)
    }

    /// Indirect indexed `(nn),Y`: the word stored at `nn` in page zero, plus Y.
    pub fn get_address_indirect_indexed<M: Memory>(&self, mem: &mut M) -> (r: u16)
        ensures
            old(mem).inv() ==> final(mem).inv(),
            old(mem).plain() ==> {
                let zp = old(mem).peek(add16(self.pc as int, 1));
                *final(mem) == *old(mem) && r == add16(
                    word(old(mem).peek(zp as u16), old(mem).peek(((zp + 1) % 256) as u16)) as int,
                    self.y as int,
                )
            },
    {
        let zp = mem.get_byte(self.pc.wrapping_add(1));
        let low = mem.get_byte(zp as u16);
        let high = mem.get_byte(zp.wrapping_add(1) as u16);
        let pointer = (high as u16) * 256 + (low as u16);
        pointer.wrapping_add(self.y as u16)
    }
}

} // verus!
