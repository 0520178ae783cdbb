use vstd::prelude::*;
use crate::apu::APU;
use crate::controller::Controller;
use crate::mapper::Mapper;
use crate::memory::Memory;
use crate::ppu2::PPU2;
use crate::ram::RAM;

verus! {

/// CPU cycles an OAM DMA stalls the processor.
pub const DMA_STALL_CYCLES: u16 = 514;

/// The NES CPU address space: work RAM, PPU registers, sound and controller
/// ports, OAM DMA and the cartridge.
pub struct MemMap<A: APU> {
    pub apu: A,
    pub ppu2: PPU2,
    pub ram: RAM,
    pub mapper: Mapper,
    pub controller_0: Controller,
    pub needs_dma: bool,
    pub dma_source: u16,
}

impl<A: APU> MemMap<A> {
    pub open spec fn wf(&self) -> bool {
        self.ppu2.wf() && self.ram.wf() && self.mapper.wf()
    }

    /// A powered-on console around a cartridge's mapper and a sound unit.
    pub fn new(mapper: Mapper, apu: A) -> (r: MemMap<A>)
        requires
            mapper.wf(),
        ensures
            r.wf(),
            r.mapper == mapper,
            !r.needs_dma,
            forall|i: int| 0 <= i < 0x800 ==> r.ram.ram@[i] == 0,
    {
        MemMap {
            apu,
            ppu2: PPU2::new(),
            ram: RAM::new(),
            mapper,
            controller_0: Controller::new(),
            needs_dma: false,
            dma_source: 0,
        }
    }

    /// Reads a CPU address.
    pub fn read_byte(&mut self, addr: u16) -> (r: u8)
        requires
            old(self).wf(),
        ensures
            final(self).wf(),
            final(self).ram == old(self).ram,
            final(self).mapper == old(self).mapper,
            final(self).needs_dma == old(self).needs_dma,
            final(self).dma_source == old(self).dma_source,
            final(self).ppu2.oam_addr == old(self).ppu2.oam_addr,
            addr < 0x2000 ==> r == old(self).ram.ram@[addr as int % 0x800] && final(self).ppu2 == old(
                self,
            ).ppu2 && final(self).controller_0 == old(self).controller_0,
            r == old(self).read(addr),
            addr < 0x2000 || addr >= 0x4018 ==> *final(self) == *old(self),
    {
        if addr < 0x2000 {
            self.ram.get_byte(addr)
        } else if addr < 0x4000 {
            self.ppu2.get_byte(addr, &self.mapper)
        } else if addr == 0x4016 {
            self.controller_0.read_latch()
        } else if addr < 0x4020 {
            0
        } else {
            self.mapper.cpu_get_byte(addr)
        }
    }

    /// The byte a read of `addr` returns.
    pub open spec fn read(&self, addr: u16) -> u8 {
        if addr < 0x2000 {
            self.ram.ram@[addr as int % 0x800]
        } else if addr < 0x4000 {
            if addr % 8 == 2 {
                self.ppu2.status
            } else if addr % 8 == 4 {
                self.ppu2.oam_byte(self.ppu2.oam_addr)
            } else if addr % 8 == 7 {
                self.ppu2.data_read(self.mapper)
            } else {
                0
            }
        } else if addr == 0x4016 {
            self.controller_0.latch % 2
        } else if addr < 0x4020 {
            0
        } else {
            self.mapper.cpu_read(addr)
        }
    }

    /// `after` is this map after a write of `value` to `addr`.
    pub open spec fn write_post(&self, addr: u16, value: u8, after: MemMap<A>) -> bool {
        &&& addr < 0x2000 ==> after.ram.ram@ == self.ram.ram@.update(addr as int % 0x800, value)
            && after == (MemMap { ram: after.ram, ..*self })
        &&& 0x2000 <= addr < 0x4000 ==> self.ppu2.write_post(
            addr,
            value,
            self.mapper,
            after.ppu2,
            after.mapper,
        ) && after.ram == self.ram
        &&& addr == 0x4014 ==> after.needs_dma && after.dma_source == value as int * 256
            && after.ram == self.ram && after.ppu2.oam_addr == self.ppu2.oam_addr && (value < 0x20
            ==> forall|i: int|
            0 <= i < 256 ==> #[trigger] after.ppu2.oam@[(self.ppu2.oam_addr + i) % 256]
                == self.ram.ram@[(value as int * 256 + i) % 0x800])
        &&& addr == 0x4016 && value % 2 == 1 ==> after.controller_0.latching
            && after.controller_0.latch == crate::controller::button_bits(self.controller_0)
        &&& addr == 0x4016 && value % 2 == 0 ==> !after.controller_0.latching
            && after.controller_0.latch == self.controller_0.latch
        &&& addr >= 0x4020 ==> self.mapper.cpu_write_post(addr, value, after.mapper)
            && after.ram == self.ram && after.ppu2 == self.ppu2
    }

    /// Writes a CPU address. A write to 0x4014 copies the 256-byte page it
    /// names into OAM at once and leaves a DMA stall pending.
    pub fn write_byte(&mut self, addr: u16, value: u8)
        requires
            old(self).wf(),
        ensures
            final(self).wf(),
            old(self).write_post(addr, value, *final(self)),
    {
        if addr < 0x2000 {
            self.ram.set_byte(addr, value);
        } else if addr < 0x4000 {
            self.ppu2.set_byte(addr, value, &mut self.mapper);
        } else if addr < 0x4018 {
            if addr == 0x4000 {
                self.apu.set_square_0_properties(value / 64, (value / 32) % 2 == 1, (value / 16) % 2 == 1, value % 16);
            } else if addr == 0x4002 {
                self.apu.set_square_0_timer_low(value);
            } else if addr == 0x4003 {
                self.apu.set_square_0_timer_high(value % 8);
                self.apu.set_square_0_length(value / 8);
            } else if addr == 0x4004 {
                self.apu.set_square_1_properties(value / 64, (value / 32) % 2 == 1, (value / 16) % 2 == 1, value % 16);
            } else if addr == 0x4006 {
                self.apu.set_square_1_timer_low(value);
            } else if addr == 0x4007 {
                self.apu.set_square_1_timer_high(value % 8);
                self.apu.set_square_1_length(value / 8);
            } else if addr == 0x4008 {
                self.apu.set_triangle_properties(value >= 0x80, value % 0x80);
            } else if addr == 0x400a {
                self.apu.set_triangle_timer_low(value);
            } else if addr == 0x400b {
                self.apu.set_triangle_timer_high(value % 8);
                self.apu.set_triangle_length(value / 8);
            } else if addr == 0x4014 {
                self.dma_source = value as u16 * 256;
                self.dma_copy();
                self.needs_dma = true;
            } else if addr == 0x4015 {
                self.apu.toggle_square_0(value % 2 == 1);
                self.apu.toggle_square_1((value / 2) % 2 == 1);
                self.apu.toggle_triangle((value / 4) % 2 == 1);
            } else if addr == 0x4016 {
                if value % 2 == 1 {
                    self.controller_0.begin_latch();
                } else {
                    self.controller_0.end_latch();
                }
            }
        } else if addr >= 0x4020 {
            self.mapper.cpu_set_byte(addr, value);
        }
    }

    /// Copies the page at `dma_source` into OAM from OAMADDR on.
    pub fn dma_copy(&mut self)
        requires
            old(self).wf(),
            old(self).dma_source % 256 == 0,
        ensures
            final(self).wf(),
            final(self).ram == old(self).ram,
            final(self).needs_dma == old(self).needs_dma,
            final(self).dma_source == old(self).dma_source,
            final(self).ppu2.oam_addr == old(self).ppu2.oam_addr,
            old(self).dma_source < 0x2000 ==> forall|i: int|
                0 <= i < 256 ==> #[trigger] final(self).ppu2.oam@[(old(self).ppu2.oam_addr + i) % 256]
                    == old(self).ram.ram@[(old(self).dma_source + i) % 0x800],
    {
        let start = self.ppu2.oam_addr;
        let mut i: u16 = 0;
        while i < 256
            invariant
                self.wf(),
                i <= 256,
                self.ram == old(self).ram,
                self.needs_dma == old(self).needs_dma,
                self.dma_source == old(self).dma_source,
                self.dma_source % 256 == 0,
                start == old(self).ppu2.oam_addr,
                self.ppu2.oam_addr == (start + i) % 256,
                self.dma_source < 0x2000 ==> forall|j: int|
                    0 <= j < i ==> #[trigger] self.ppu2.oam@[(start + j) % 256] == old(
                        self,
                    ).ram.ram@[(self.dma_source + j) % 0x800],
            decreases 256 - i,
        {
            proof {
                assert forall|j: int| 0 <= j < i implies #[trigger] ((start + j) % 256) != (start + i) % 256 by {
                    lemma_mod_distinct(start as int, j, i as int);
                }
                assert((start + i + 1) % 256 == ((start + i) % 256 + 1) % 256);
            }
            let v = self.read_byte(self.dma_source + i);
            self.ppu2.write_oam(v);
            i += 1;
        }
        assert((start + 256) % 256 == start);
    }

    /// Takes a pending DMA stall: true once after each OAM DMA.
    pub fn dma_requested(&mut self) -> (r: bool)
        ensures
            r == old(self).needs_dma,
            !final(self).needs_dma,
            final(self).ppu2 == old(self).ppu2 && final(self).ram == old(self).ram,
            final(self).mapper == old(self).mapper,
    {
        let r = self.needs_dma;
        self.needs_dma = false;
        r
    }
}

proof fn lemma_mod_distinct(s: int, j: int, i: int)
    requires
        0 <= s,
        0 <= j < i < 256,
    ensures
        (s + j) % 256 != (s + i) % 256,
{
}

impl<A: APU> Memory for MemMap<A> {
    open spec fn peek(&self, addr: u16) -> u8 {
        self.read(addr)
    }

    open spec fn quiet(&self, addr: u16) -> bool {
        addr < 0x2000 || addr >= 0x4018
    }

    open spec fn write_effect(&self, addr: u16, value: u8, after: MemMap<A>) -> bool {
        self.write_post(addr, value, after)
    }

    /// The PPU and controller ports have read effects, so this memory is
    /// never plain.
    open spec fn plain(&self) -> bool {
        false
    }

    open spec fn inv(&self) -> bool {
        self.wf()
    }

    fn get_byte(&mut self, addr: u16) -> (r: u8) {
        if self.is_wf() {
            self.read_byte(addr)
        } else {
            0
        }
    }

    fn set_byte(&mut self, addr: u16, value: u8) {
        if self.is_wf() {
            self.write_byte(addr, value);
        }
    }
}

impl<A: APU> MemMap<A> {
    fn is_wf(&self) -> (r: bool)
        ensures
            r == self.wf(),
    {
        self.ppu2.palette.len() == 32 && self.ppu2.ciram.len() == 0x800 && self.ppu2.oam.len() == 256
            && self.ppu2.sprite_line.len() == 256 && self.ppu2.buffer.len() == 256 * 240
            && self.ppu2.scanline < 262 && self.ppu2.cycle < 341 && self.ram.ram.len() == 0x800
            && self.mapper.is_wf()
    }
}

} // verus!
