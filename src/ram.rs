use vstd::prelude::*;

verus! {

/// The console's 2 KiB of work RAM, seen four times over 0x0000..0x1FFF.
pub struct RAM {
    pub ram: Vec<u8>,
}

impl RAM {
    pub open spec fn wf(&self) -> bool {
        self.ram@.len() == 0x800
    }

    /// Zero-filled RAM.
    pub fn new() -> (r: RAM)
        ensures
            r.wf(),
            forall|i: int| 0 <= i < 0x800 ==> r.ram@[i] == 0,
    {
        RAM { ram: vec![0u8; 0x800] }
    }

    /// Reads through the mirrors.
    pub fn get_byte(&self, addr: u16) -> (r: u8)
        requires
            self.wf(),
        ensures
            r == self.ram@[addr as int % 0x800],
    {
        self.ram[(addr % 0x800) as usize]
    }

    /// Writes through the mirrors.
    pub fn set_byte(&mut self, addr: u16, value: u8)
        requires
            old(self).wf(),
        ensures
            final(self).ram@ == old(self).ram@.update(addr as int % 0x800, value),
    {
        self.ram.set((addr % 0x800) as usize, value);
    }
}

} // verus!
