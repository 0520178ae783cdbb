use vstd::prelude::*;

verus! {

/// Register file of a MOS 6502/6510.
pub struct CPU {
    /// Accumulator.
    pub acc: u8,
    pub x: u8,
    pub y: u8,
    /// Processor status: C Z I D B - V N from bit 0 upwards.
    pub status: u8,
    /// Program counter.
    pub pc: u16,
    /// Stack pointer into page one.
    pub stack: u8,
}

/// The 8-bit registers, for reading by name.
#[derive(Clone, Copy, PartialEq, Eq, Structural, Debug)]
pub enum Register {
    Acc,
    X,
    Y,
    Status,
    Stack,
}

impl CPU {
    /// A processor with every register cleared.
    pub fn new() -> (r: CPU)
        ensures
            r == CPU::new_spec(),
    {
        CPU { acc: 0, x: 0, y: 0, status: 0, pc: 0, stack: 0 }
    }

    pub open spec fn new_spec() -> CPU {
        CPU { acc: 0, x: 0, y: 0, status: 0, pc: 0, stack: 0 }
    }

    pub open spec fn register_value(&self, reg: Register) -> u8 {
        match reg {
            Register::Acc => self.acc,
            Register::X => self.x,
            Register::Y => self.y,
            Register::Status => self.status,
            Register::Stack => self.stack,
        }
    }

    /// Reads one 8-bit register.
    pub fn get_register(&self, reg: Register) -> (r: u8)
        ensures
            r == self.register_value(reg),
    {
        match reg {
            Register::Acc => self.acc,
            Register::X => self.x,
            Register::Y => self.y,
            Register::Status => self.status,
            Register::Stack => self.stack,
        }
    }

    /// Moves the program counter.
    pub fn set_pc(&mut self, pc: u16)
        ensures
            *final(self) == (CPU { pc, ..*old(self) }),
    {
        self.pc = pc;
    }
}

/// A processor with every register cleared.
pub fn create_cpu() -> (r: CPU)
    ensures
        r.acc == 0 && r.x == 0 && r.y == 0 && r.status == 0 && r.pc == 0 && r.stack == 0,
{
    CPU::new()
}

} // verus!
