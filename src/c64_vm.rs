use vstd::prelude::*;
use crate::c64memmap::MemMap;
use crate::cia::CIA;
use crate::cpu::CPU;
use crate::exec::step_cycles;
use crate::flags::FLAG_INTERRUPT_DISABLE;
use crate::memory::{dec8, word, Memory};

verus! {

/// CPU cycles per millisecond of emulated time.
pub const CYCLES_PER_MS: u32 = 1023;

/// A C64: processor and memory map; CIA timer A drives the maskable
/// interrupt.
pub struct VM {
    pub cpu: CPU,
    pub mem: MemMap,
}

/// After an instruction left the processor at `mid_cpu` and the CIA at
/// `mid_cia`, timer A counts `cycles` (giving `timed` and `underflow`), and an
/// underflow with the timer interrupt enabled requests an IRQ, entered when I
/// is clear; `cpu` and `cia` are the results.
pub open spec fn timer_step(
    mid_cpu: CPU,
    mid_cia: CIA,
    timed: CIA,
    underflow: bool,
    cycles: u8,
    cpu: CPU,
    cia: CIA,
) -> bool {
    let irq = underflow && timed.timer_a_1_interrupt_enabled && mid_cpu.status
        & FLAG_INTERRUPT_DISABLE == 0;
    &&& mid_cia.timers_post(cycles, timed, underflow)
    &&& cia == timed
    &&& irq ==> cpu.stack == dec8(dec8(dec8(mid_cpu.stack))) && cpu.status == mid_cpu.status
        | FLAG_INTERRUPT_DISABLE
    &&& !irq ==> cpu == mid_cpu
}

impl VM {
    pub open spec fn wf(&self) -> bool {
        self.mem.wf()
    }

    /// A powered-on machine, not yet reset.
    pub fn new() -> (r: VM)
        ensures
            r.wf(),
            r.cpu == CPU::new_spec(),
    {
        VM { cpu: CPU::new(), mem: MemMap::new() }
    }

    /// Resets the processor through the reset vector.
    pub fn reset(&mut self)
        requires
            old(self).wf(),
        ensures
            final(self).wf(),
            final(self).cpu == (CPU {
                acc: 0,
                x: 0,
                y: 0,
                status: 0,
                stack: 0xfd,
                pc: word(old(self).mem.read(0xfffc), old(self).mem.read(0xfffd)),
            }),
            final(self).mem == old(self).mem,
    {
        self.cpu.reset(&mut self.mem);
    }

    /// One instruction, then timer A counts its cycles; an underflow with the
    /// timer interrupt enabled requests an IRQ. Returns the cycles spent.
    pub fn step(&mut self) -> (cycles: u8)
        requires
            old(self).wf(),
        ensures
            final(self).wf(),
            cycles <= 8,
            cycles == step_cycles(old(self).cpu, old(self).mem),
            exists|mid_cpu: CPU, mid_cia: CIA, timed: CIA, underflow: bool| #[trigger]
                timer_step(mid_cpu, mid_cia, timed, underflow, cycles, final(self).cpu, final(self).mem.cia),
    {
        let cycles = self.cpu.step(&mut self.mem);
        let ghost mid_cpu = self.cpu;
        let ghost mid_cia = self.mem.cia;
        let underflow = self.mem.cia.update_timers(cycles);
        let ghost timed = self.mem.cia;
        assert(self.mem.inv());
        if underflow && self.mem.cia.timer_a_1_interrupt_enabled {
            self.cpu.interrupt_request(&mut self.mem);
            assert(self.mem.cia == timed);
        }
        assert(timer_step(mid_cpu, mid_cia, timed, underflow, cycles, self.cpu, self.mem.cia));
        cycles
    }

    /// Runs whole instructions for `ms` milliseconds of emulated time.
    pub fn run_ms(&mut self, ms: u16)
        requires
            old(self).wf(),
        ensures
            final(self).wf(),
    {
        let cycles: u32 = CYCLES_PER_MS * ms as u32;
        let mut ran: u32 = 0;
        while ran < cycles
            invariant
                self.wf(),
                cycles <= CYCLES_PER_MS * 0x10000,
                ran <= cycles + 8,
            decreases cycles + 8 - ran,
        {
            let spent = self.step();
            ran = ran + spent as u32 + if spent == 0 { 1 } else { 0 };
        }
    }
}

} // verus!
