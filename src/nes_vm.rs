use vstd::prelude::*;
use crate::apu::APU;
use crate::cpu::CPU;
use crate::exec::{opcode, register_only, step_cycles};
use crate::flags::FLAG_INTERRUPT_DISABLE;
use crate::mapper::Mapper;
use crate::memory::{dec8, word, Memory};
use crate::ppu2::beam_after;
use crate::nesmemmap::{MemMap, DMA_STALL_CYCLES};

verus! {

/// A NES console: processor and memory map, with the PPU run three dots per
/// CPU cycle.
pub struct VM<A: APU> {
    pub cpu: CPU,
    pub mem: MemMap<A>,
}

impl<A: APU> VM<A> {
    pub open spec fn wf(&self) -> bool {
        self.mem.wf()
    }

    /// A console around a cartridge's mapper, reset.
    pub fn new(mapper: Mapper, apu: A) -> (r: VM<A>)
        requires
            mapper.wf(),
        ensures
            r.wf(),
            r.cpu.stack == 0xfd,
    {
        let mut vm = VM { cpu: CPU::new(), mem: MemMap::new(mapper, apu) };
        vm.reset();
        vm
    }

    /// Resets the processor through the reset vector.
    pub fn reset(&mut self)
        requires
            old(self).wf(),
        ensures
            final(self).wf(),
            final(self).cpu == (CPU {
                acc: 0,
                x: 0,
                y: 0,
                status: 0,
                stack: 0xfd,
                pc: word(old(self).mem.read(0xfffc), old(self).mem.read(0xfffd)),
            }),
            final(self).mem == old(self).mem,
    {
        self.cpu.reset(&mut self.mem);
    }

    /// One instruction: its cycles, plus the OAM DMA stall if it started
    /// one, then three PPU dots per cycle; an NMI the PPU raised is taken
    /// afterwards. Returns the cycles spent.
    pub fn step(&mut self) -> (cycles: u16)
        requires
            old(self).wf(),
        ensures
            final(self).wf(),
            cycles <= 8 + DMA_STALL_CYCLES,
            !final(self).mem.needs_dma,
            !final(self).mem.ppu2.needs_interrupt,
            exists|mid: MemMap<A>, mid_cpu: CPU|
                #![trigger mid.needs_dma, mid_cpu.stack]
                {
                    &&& cycles == step_cycles(old(self).cpu, old(self).mem) + if mid.needs_dma {
                        DMA_STALL_CYCLES as int
                    } else {
                        0
                    }
                    &&& (final(self).mem.ppu2.scanline, final(self).mem.ppu2.cycle) == beam_after(
                        (mid.ppu2.scanline, mid.ppu2.cycle),
                        3 * cycles as nat,
                    )
                    &&& final(self).cpu == mid_cpu || (final(self).cpu.stack == dec8(
                        dec8(dec8(mid_cpu.stack)),
                    ) && final(self).cpu.status == mid_cpu.status | FLAG_INTERRUPT_DISABLE)
                    &&& old(self).mem.quiet(old(self).cpu.pc) && register_only(
                        opcode(old(self).mem.peek(old(self).cpu.pc)),
                    ) ==> mid == old(self).mem
                },
    {
        assert(self.mem.inv());
        let c = self.cpu.step(&mut self.mem);
        assert(c == step_cycles(old(self).cpu, old(self).mem));
        let ghost mid = self.mem;
        let ghost mid_cpu = self.cpu;
        let mut cycles = c as u16;
        if self.mem.dma_requested() {
            cycles = cycles + DMA_STALL_CYCLES;
        }
        let dots = cycles * 3;
        let mut i: u16 = 0;
        while i < dots
            invariant
                self.wf(),
                i <= dots,
                !self.mem.needs_dma,
                self.cpu == mid_cpu,
                (self.mem.ppu2.scanline, self.mem.ppu2.cycle) == beam_after(
                    (mid.ppu2.scanline, mid.ppu2.cycle),
                    i as nat,
                ),
            decreases dots - i,
        {
            self.mem.ppu2.increment_clock(&self.mem.mapper);
            i += 1;
        }
        let nmi = self.mem.ppu2.should_interrupt();
        if nmi {
            self.cpu.nonmaskable_interrupt(&mut self.mem);
        }
        assert(cycles == step_cycles(old(self).cpu, old(self).mem) + if mid.needs_dma {
            DMA_STALL_CYCLES as int
        } else {
            0
        });
        assert(self.cpu == mid_cpu || (self.cpu.stack == dec8(dec8(dec8(mid_cpu.stack)))
            && self.cpu.status == mid_cpu.status | FLAG_INTERRUPT_DISABLE));
        assert(old(self).mem.quiet(old(self).cpu.pc) && register_only(
            opcode(old(self).mem.peek(old(self).cpu.pc)),
        ) ==> mid == old(self).mem);
        assert(!self.mem.ppu2.needs_interrupt);
        assert(!self.mem.needs_dma);
        assert((self.mem.ppu2.scanline, self.mem.ppu2.cycle) == beam_after(
            (mid.ppu2.scanline, mid.ppu2.cycle),
            3 * cycles as nat,
        ));
        cycles
    }

    /// Runs whole instructions until at least `cycles` CPU cycles have
    /// passed; returns how many did.
    pub fn run_for_cycles(&mut self, cycles: u32) -> (ran: u32)
        requires
            old(self).wf(),
            cycles <= 0xffff_0000,
        ensures
            final(self).wf(),
            ran >= cycles,
            ran < cycles + 8 + DMA_STALL_CYCLES + 1,
    {
        let mut ran: u32 = 0;
        while ran < cycles
            invariant
                self.wf(),
                ran < cycles + 8 + DMA_STALL_CYCLES + 1,
                cycles <= 0xffff_0000,
            decreases cycles + 8 + DMA_STALL_CYCLES + 1 - ran,
        {
            let spent = self.step();
            ran = ran + spent as u32 + if spent == 0 { 1 } else { 0 };
        }
        ran
    }
}

} // verus!
