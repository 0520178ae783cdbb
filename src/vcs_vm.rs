use vstd::prelude::*;
use crate::cpu::CPU;
use crate::exec::{effect, opcode, register_only, step_cycles};
use crate::memory::{add16, word, Memory};
use crate::tia::{ExecState, TIA};
use crate::vcsmemmap::MemMap;

verus! {

/// A VCS console: processor and memory map, run in lockstep with the TIA.
pub struct VM {
    pub cpu: CPU,
    pub mem: MemMap,
}

impl VM {
    pub open spec fn wf(&self) -> bool {
        self.mem.wf()
    }

    /// A console with empty cartridge memory, reset.
    pub fn new() -> (r: VM)
        ensures
            r.wf(),
            r.cpu.stack == 0xfd,
    {
        let mut vm = VM { cpu: CPU::new(), mem: MemMap::new() };
        vm.reset();
        vm
    }

    /// Resets the processor through the reset vector.
    pub fn reset(&mut self)
        requires
            old(self).wf(),
        ensures
            final(self).wf(),
            final(self).cpu == (CPU {
                acc: 0,
                x: 0,
                y: 0,
                status: 0,
                stack: 0xfd,
                pc: word(old(self).mem.read(0xfffc), old(self).mem.read(0xfffd)),
            }),
            final(self).mem == old(self).mem,
    {
        self.cpu.reset(&mut self.mem);
    }

    /// Advances the TIA and RIOT by `clocks` colour clocks.
    fn run_video(&mut self, clocks: u8)
        requires
            old(self).wf(),
        ensures
            final(self).wf(),
            final(self).cpu == old(self).cpu,
            final(self).mem.tia == old(self).mem.tia.advance(clocks as nat),
            final(self).mem.ram == old(self).mem.ram,
            final(self).mem.rom == old(self).mem.rom,
            final(self).mem.bank_no == old(self).mem.bank_no,
    {
        self.mem.tia.increment_clock(clocks);
        let mut i: u8 = 0;
        while i < clocks
            invariant
                self.wf(),
                i <= clocks,
                self.cpu == old(self).cpu,
                self.mem.tia == old(self).mem.tia.advance(clocks as nat),
                self.mem.ram == old(self).mem.ram,
                self.mem.rom == old(self).mem.rom,
                self.mem.bank_no == old(self).mem.bank_no,
            decreases clocks - i,
        {
            self.mem.riot.increment_clock();
            i += 1;
        }
    }

    /// One step of the console. While WSYNC holds the processor, only the
    /// TIA and RIOT move, by one colour clock, and no CPU cycle is spent;
    /// otherwise the processor runs one instruction and the TIA and RIOT
    /// advance three colour clocks per cycle it took.
    pub fn step(&mut self) -> (cycles: u8)
        requires
            old(self).wf(),
        ensures
            final(self).wf(),
            cycles <= 8,
            old(self).mem.tia.block_until_hsync ==> cycles == 0 && final(self).cpu == old(self).cpu
                && final(self).mem.tia == old(self).mem.tia.advance(1),
            !old(self).mem.tia.block_until_hsync ==> cycles == step_cycles(old(self).cpu, old(self).mem)
                && exists|mid: MemMap|
                #![trigger mid.tia]
                {
                    &&& final(self).mem.tia == mid.tia.advance(3 * cycles as nat)
                    &&& final(self).mem.ram == mid.ram && final(self).mem.bank_no == mid.bank_no
                    &&& old(self).mem.quiet(old(self).cpu.pc) && register_only(
                        opcode(old(self).mem.peek(old(self).cpu.pc)),
                    ) ==> mid == old(self).mem && final(self).cpu == (CPU {
                        pc: add16(
                            old(self).cpu.pc as int,
                            opcode(old(self).mem.peek(old(self).cpu.pc)).length as int,
                        ),
                        ..effect(opcode(old(self).mem.peek(old(self).cpu.pc)), old(self).cpu, old(self).cpu.acc)
                    })
                },
    {
        if self.mem.tia.get_exec_state() == ExecState::Block {
            self.run_video(1);
            return 0;
        }
        let cycles = self.cpu.step(&mut self.mem);
        let ghost mid = self.mem;
        self.run_video(cycles * 3);
        assert(self.mem.tia == mid.tia.advance(3 * cycles as nat));
        cycles
    }
}

} // verus!
