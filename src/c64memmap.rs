use vstd::prelude::*;
use crate::cia::CIA;
use crate::memory::Memory;
use crate::ramrom::RamRom;
use crate::vic::VIC;

verus! {

/// The C64 address space: RAM, ROMs and I/O chips layered by the processor
/// port at RAM address 1 (LORAM bit 0, HIRAM bit 1, CHAREN bit 2).
pub struct MemMap {
    pub ram_rom: RamRom,
    pub cia: CIA,
    pub vic: VIC,
}

/// Whether BASIC ROM shows at 0xA000: LORAM and HIRAM both set.
pub open spec fn basic_visible(port: u8) -> bool {
    port % 4 == 3
}

/// Whether KERNAL ROM shows at 0xE000: HIRAM set.
pub open spec fn kernal_visible(port: u8) -> bool {
    (port / 2) % 2 == 1
}

/// Whether 0xD000..0xDFFF shows ROM or I/O rather than RAM.
pub open spec fn d_block_mapped(port: u8) -> bool {
    port % 4 > 0
}

/// Whether the mapped 0xD000 block is I/O (CHAREN set) rather than CHARGEN.
pub open spec fn io_visible(port: u8) -> bool {
    (port / 4) % 2 == 1
}

impl MemMap {
    pub open spec fn wf(&self) -> bool {
        self.ram_rom.wf() && self.cia.wf() && self.vic.wf()
    }

    pub open spec fn port(&self) -> u8 {
        self.ram_rom.ram@[1]
    }

    /// What a read of the I/O block at `addr` (0xD000..0xDFFF) returns.
    pub open spec fn io_read(&self, addr: u16) -> u8 {
        if addr < 0xd400 {
            self.vic.read(((addr - 0xd000) % 0x40) as u16)
        } else if addr < 0xd800 {
            0
        } else if addr < 0xdc00 {
            self.ram_rom.color_ram@[addr - 0xd800]
        } else if addr < 0xde00 {
            self.cia.read((addr % 0x100) as u16)
        } else {
            0
        }
    }

    /// What a read of `addr` returns.
    pub open spec fn read(&self, addr: u16) -> u8 {
        let port = self.port();
        let ram = self.ram_rom.ram@[addr as int];
        if addr < 0xa000 {
            ram
        } else if addr < 0xc000 {
            if basic_visible(port) { self.ram_rom.basic@[addr - 0xa000] } else { ram }
        } else if addr < 0xd000 {
            ram
        } else if addr < 0xe000 {
            if !d_block_mapped(port) {
                ram
            } else if !io_visible(port) {
                self.ram_rom.char_gen@[addr - 0xd000]
            } else {
                self.io_read(addr)
            }
        } else {
            if kernal_visible(port) { self.ram_rom.kernal@[addr - 0xe000] } else { ram }
        }
    }

    /// Whether a write to `addr` lands in RAM.
    pub open spec fn writes_ram(&self, addr: u16) -> bool {
        let port = self.port();
        if 0xa000 <= addr < 0xc000 {
            !basic_visible(port)
        } else if 0xd000 <= addr < 0xe000 {
            !d_block_mapped(port)
        } else if addr >= 0xe000 {
            !kernal_visible(port)
        } else {
            true
        }
    }

    /// Whether `addr` is in the visible I/O block.
    pub open spec fn in_io(&self, addr: u16) -> bool {
        0xd000 <= addr < 0xe000 && d_block_mapped(self.port()) && io_visible(self.port())
    }

    /// `after` is this map after a write of `value` to `addr`: RAM takes it
    /// where RAM shows, the I/O block passes it to the VIC, colour RAM or
    /// CIA, and ROM regions drop it.
    pub open spec fn write_post(&self, addr: u16, value: u8, after: MemMap) -> bool {
        let io = self.in_io(addr);
        &&& after.ram_rom.kernal == self.ram_rom.kernal
        &&& after.ram_rom.basic == self.ram_rom.basic
        &&& after.ram_rom.char_gen == self.ram_rom.char_gen
        &&& after.ram_rom.ram@ == if self.writes_ram(addr) {
            self.ram_rom.ram@.update(addr as int, value)
        } else {
            self.ram_rom.ram@
        }
        &&& if io && addr < 0xd400 {
            self.vic.write_post(((addr - 0xd000) % 0x40) as u16, value, after.vic)
        } else {
            after.vic == self.vic
        }
        &&& after.ram_rom.color_ram@ == if io && 0xd800 <= addr < 0xdc00 {
            self.ram_rom.color_ram@.update(addr - 0xd800, value)
        } else {
            self.ram_rom.color_ram@
        }
        &&& if io && 0xdc00 <= addr < 0xde00 {
            self.cia.write_post((addr % 0x100) as u16, value, after.cia)
        } else {
            after.cia == self.cia
        }
    }

    /// Power-on memory: data direction 0x2F, port 0x37 (BASIC, KERNAL and
    /// I/O visible).
    pub fn new() -> (r: MemMap)
        ensures
            r.wf(),
            r.port() == 0x37,
            r.ram_rom.ram@[0] == 0x2f,
    {
        let mut ram_rom = RamRom::new();
        ram_rom.ram.set(0, 0x2f);
        ram_rom.ram.set(1, 0x37);
        MemMap { ram_rom, cia: CIA::new(), vic: VIC::new() }
    }

    /// Reads `addr` through the banking; only the CIA's interrupt status
    /// changes on a read.
    pub fn read_byte(&mut self, addr: u16) -> (r: u8)
        requires
            old(self).wf(),
        ensures
            final(self).wf(),
            r == old(self).read(addr),
            final(self).ram_rom == old(self).ram_rom,
            final(self).vic == old(self).vic,
            !old(self).in_io(addr) ==> *final(self) == *old(self),
    {
        let port = self.ram_rom.ram[1];
        if addr < 0xa000 {
            self.ram_rom.ram[addr as usize]
        } else if addr < 0xc000 {
            if port % 4 == 3 {
                self.ram_rom.basic[(addr - 0xa000) as usize]
            } else {
                self.ram_rom.ram[addr as usize]
            }
        } else if addr < 0xd000 {
            self.ram_rom.ram[addr as usize]
        } else if addr < 0xe000 {
            if port % 4 == 0 {
                self.ram_rom.ram[addr as usize]
            } else if (port / 4) % 2 == 0 {
                self.ram_rom.char_gen[(addr - 0xd000) as usize]
            } else if addr < 0xd400 {
                self.vic.get_byte((addr - 0xd000) % 0x40)
            } else if addr < 0xd800 {
                0
            } else if addr < 0xdc00 {
                self.ram_rom.color_ram[(addr - 0xd800) as usize]
            } else if addr < 0xde00 {
                self.cia.get_byte(addr % 0x100)
            } else {
                0
            }
        } else if (port / 2) % 2 == 1 {
            self.ram_rom.kernal[(addr - 0xe000) as usize]
        } else {
            self.ram_rom.ram[addr as usize]
        }
    }

    /// Writes `addr` through the banking: RAM where RAM shows, the chip
    /// registers and colour RAM in the I/O block, nothing where ROM shows.
    pub fn write_byte(&mut self, addr: u16, value: u8)
        requires
            old(self).wf(),
        ensures
            final(self).wf(),
            old(self).write_post(addr, value, *final(self)),
    {
        let port = self.ram_rom.ram[1];
        if (0xa000 <= addr && addr < 0xc000 && port % 4 == 3) || (addr >= 0xe000 && (port / 2) % 2
            == 1) {
            return ;
        }
        if 0xd000 <= addr && addr < 0xe000 && port % 4 != 0 {
            if (port / 4) % 2 == 0 {
                return ;
            }
            if addr < 0xd400 {
                self.vic.set_byte((addr - 0xd000) % 0x40, value);
            } else if addr < 0xd800 {
            } else if addr < 0xdc00 {
                self.ram_rom.color_ram.set((addr - 0xd800) as usize, value);
            } else if addr < 0xde00 {
                self.cia.set_byte(addr % 0x100, value);
            }
            return ;
        }
        self.ram_rom.ram.set(addr as usize, value);
    }

    /// Replaces BASIC ROM bytes from `offset` on.
    pub fn set_basic_rom(&mut self, bytes: &Vec<u8>, offset: usize)
        requires
            old(self).wf(),
        ensures
            final(self).wf(),
            final(self).ram_rom.ram == old(self).ram_rom.ram,
            forall|i: int|
                0 <= i < 0x2000 ==> #[trigger] final(self).ram_rom.basic@[i] == if offset <= i
                    < offset + bytes@.len() {
                    bytes@[i - offset]
                } else {
                    old(self).ram_rom.basic@[i]
                },
    {
        let mut i: usize = 0;
        while i < bytes.len() && offset < 0x2000 && i < 0x2000 - offset
            invariant
                self.wf(),
                i <= bytes@.len(),
                self.ram_rom.ram == old(self).ram_rom.ram,
                self.cia == old(self).cia,
                self.vic == old(self).vic,
                offset < 0x2000 ==> i <= 0x2000 - offset,
                forall|k: int|
                    0 <= k < 0x2000 ==> #[trigger] self.ram_rom.basic@[k] == if offset <= k < offset
                        + i {
                        bytes@[k - offset]
                    } else {
                        old(self).ram_rom.basic@[k]
                    },
            decreases bytes@.len() - i,
        {
            self.ram_rom.basic.set(offset + i, bytes[i]);
            i += 1;
        }
    }
}

/// With LORAM, HIRAM and CHAREN all set, a read from 0xE000..0xFFFF returns
/// KERNAL ROM; with HIRAM clear it returns the RAM underneath.
pub proof fn lemma_kernal_banking(m: MemMap, addr: u16)
    requires
        m.wf(),
        addr >= 0xe000,
    ensures
        m.port() % 8 == 7 ==> m.read(addr) == m.ram_rom.kernal@[addr - 0xe000],
        (m.port() / 2) % 2 == 0 ==> m.read(addr) == m.ram_rom.ram@[addr as int],
{
}

impl Memory for MemMap {
    open spec fn peek(&self, addr: u16) -> u8 {
        self.read(addr)
    }

    /// I/O reads have effects, so this memory is never plain.
    open spec fn plain(&self) -> bool {
        false
    }

    open spec fn inv(&self) -> bool {
        self.wf()
    }

    open spec fn quiet(&self, addr: u16) -> bool {
        !self.in_io(addr)
    }

    open spec fn write_effect(&self, addr: u16, value: u8, after: MemMap) -> bool {
        self.write_post(addr, value, after)
    }

    fn get_byte(&mut self, addr: u16) -> (r: u8) {
        if self.ram_rom.ram.len() == 0x10000 && self.ram_rom.basic.len() == 0x2000
            && self.ram_rom.kernal.len() == 0x2000 && self.ram_rom.char_gen.len() == 0x1000
            && self.ram_rom.color_ram.len() == 0x400 && self.cia.keys.len() == 8
            && self.vic.sprites.len() == 8 && self.vic.vertical_scroll < 8
            && self.vic.horizontal_scroll < 8 && self.vic.current_raster_line < 0x200 {
            self.read_byte(addr)
        } else {
            0
        }
    }

    fn set_byte(&mut self, addr: u16, value: u8) {
        if self.ram_rom.ram.len() == 0x10000 && self.ram_rom.basic.len() == 0x2000
            && self.ram_rom.kernal.len() == 0x2000 && self.ram_rom.char_gen.len() == 0x1000
            && self.ram_rom.color_ram.len() == 0x400 && self.cia.keys.len() == 8
            && self.vic.sprites.len() == 8 && self.vic.vertical_scroll < 8
            && self.vic.horizontal_scroll < 8 && self.vic.current_raster_line < 0x200 {
            self.write_byte(addr, value);
        }
    }
}

} // verus!
