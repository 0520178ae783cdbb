use vstd::prelude::*;

verus! {

/// Column whose select line is driven low in port value `p`, counting from
/// `col`; 8 when none is.
pub open spec fn scan_column(p: u8, col: int) -> int
    decreases 8 - col,
{
    if col >= 8 {
        8
    } else if p % 2 == 0 {
        col
    } else {
        scan_column(p / 2, col + 1)
    }
}

/// Index of key `index` (row * 8 + column) in its row byte, as a mask.
pub open spec fn key_mask(index: u8) -> u8 {
    (1u8 << (index % 8)) as u8
}

/// Complex interface adapter #1: keyboard matrix on ports A and B and
/// interval timer A with its interrupt latch.
pub struct CIA {
    /// Key matrix: one byte per column select line, one bit per row.
    pub keys: Vec<u8>,
    pub port_a_1: u8,
    /// Data direction mask of port A: 1 bits are outputs.
    pub mask_a_1: u8,
    pub timer_a_1_interrupt: bool,
    pub timer_a_1_interrupt_enabled: bool,
    pub timer_a_1_enabled: bool,
    pub timer_a_1_latch: u16,
    pub timer_a_1_value: u16,
    /// Reload from the latch on underflow, rather than stop.
    pub timer_a_1_restart: bool,
    pub timer_a_1_register: u8,
}

impl CIA {
    pub open spec fn wf(&self) -> bool {
        self.keys@.len() == 8
    }

    /// What port B reads: the complement of the row byte of the selected
    /// column, or 0xFF when no column is selected.
    pub open spec fn port_b(&self) -> u8 {
        let col = scan_column(self.port_a_1, 0);
        if col < 8 {
            !self.keys@[col]
        } else {
            0xff
        }
    }

    /// The byte a read of register `addr % 16` returns.
    pub open spec fn read(&self, addr: u16) -> u8 {
        let reg = addr % 16;
        if reg == 0 {
            self.port_a_1
        } else if reg == 1 {
            self.port_b()
        } else if reg == 2 {
            self.mask_a_1
        } else if reg == 4 {
            (self.timer_a_1_value % 256) as u8
        } else if reg == 5 {
            (self.timer_a_1_value / 256) as u8
        } else if reg == 0x0d {
            if self.timer_a_1_interrupt { 0x81 } else { 0 }
        } else if reg == 0x0e {
            self.timer_a_1_register
        } else {
            0
        }
    }

    /// Power-on state: no keys down, all of port A an output, timer stopped.
    pub fn new() -> (r: CIA)
        ensures
            r.wf(),
            forall|i: int| 0 <= i < 8 ==> r.keys@[i] == 0,
            r.port_a_1 == 0 && r.mask_a_1 == 0xff,
            !r.timer_a_1_interrupt && !r.timer_a_1_interrupt_enabled && !r.timer_a_1_enabled,
            r.timer_a_1_latch == 0 && r.timer_a_1_value == 0 && r.timer_a_1_register == 0,
    {
        CIA {
            keys: vec![0u8; 8],
            port_a_1: 0,
            mask_a_1: 0xff,
            timer_a_1_interrupt: false,
            timer_a_1_interrupt_enabled: false,
            timer_a_1_enabled: false,
            timer_a_1_latch: 0,
            timer_a_1_value: 0,
            timer_a_1_restart: false,
            timer_a_1_register: 0,
        }
    }

    fn scan_keys(&self) -> (r: u8)
        requires
            self.wf(),
        ensures
            r == self.port_b(),
    {
        let mut p = self.port_a_1;
        let mut col: usize = 0;
        while col < 8
            invariant
                col <= 8,
                scan_column(p, col as int) == scan_column(self.port_a_1, 0),
                self.wf(),
            decreases 8 - col,
        {
            if p % 2 == 0 {
                return !self.keys[col];
            }
            p = p / 2;
            col += 1;
        }
        0xff
    }

    /// Reads register `addr % 16`; reading the interrupt status clears it.
    pub fn get_byte(&mut self, addr: u16) -> (r: u8)
        requires
            old(self).wf(),
        ensures
            r == old(self).read(addr),
            *final(self) == (CIA {
                timer_a_1_interrupt: old(self).timer_a_1_interrupt && addr % 16 != 0x0d,
                ..*old(self)
            }),
    {
        let reg = addr % 16;
        if reg == 0 {
            self.port_a_1
        } else if reg == 1 {
            self.scan_keys()
        } else if reg == 2 {
            self.mask_a_1
        } else if reg == 4 {
            (self.timer_a_1_value % 256) as u8
        } else if reg == 5 {
            (self.timer_a_1_value / 256) as u8
        } else if reg == 0x0d {
            let status: u8 = if self.timer_a_1_interrupt { 0x81 } else { 0 };
            self.timer_a_1_interrupt = false;
            status
        } else if reg == 0x0e {
            self.timer_a_1_register
        } else {
            0
        }
    }

    pub open spec fn write_post(&self, addr: u16, value: u8, after: CIA) -> bool {
        &&& (after.keys == self.keys)
        &&& (addr % 16 == 0 ==> after == (CIA {
        port_a_1: (self.port_a_1 & !self.mask_a_1) | (value & self.mask_a_1),
        ..*self
        }))
        &&& (addr % 16 == 2 ==> after == (CIA { mask_a_1: value, ..*self }))
        &&& (addr % 16 == 4 ==> after == (CIA {
        timer_a_1_latch: (self.timer_a_1_latch / 256 * 256 + value) as u16,
        ..*self
        }))
        &&& (addr % 16 == 5 ==> after == (CIA {
        timer_a_1_latch: (value as int * 256 + self.timer_a_1_latch % 256) as u16,
        ..*self
        }))
        &&& (addr % 16 == 0x0d ==> after == (CIA {
        timer_a_1_interrupt_enabled: if value % 2 == 1 {
            value >= 0x80
        } else {
            self.timer_a_1_interrupt_enabled
        },
        ..*self
        }))
        &&& (addr % 16 == 0x0e ==> after == (CIA {
        timer_a_1_enabled: value % 2 == 1,
        timer_a_1_restart: (value / 8) % 2 == 0,
        timer_a_1_value: if (value / 16) % 2 == 1 {
            self.timer_a_1_latch
        } else {
            self.timer_a_1_value
        },
        timer_a_1_register: value,
        ..*self
        }))
        &&& (addr % 16 != 0 && addr % 16 != 2 && addr % 16 != 4 && addr % 16 != 5 && addr % 16
        != 0x0d && addr % 16 != 0x0e ==> after == *self)
    }

    /// Writes register `addr % 16`.
    pub fn set_byte(&mut self, addr: u16, value: u8)
        requires
            old(self).wf(),
        ensures
            final(self).wf(),
            old(self).write_post(addr, value, *final(self)),
    {
        let reg = addr % 16;
        if reg == 0 {
            self.port_a_1 = (self.port_a_1 & !self.mask_a_1) | (value & self.mask_a_1);
        } else if reg == 2 {
            self.mask_a_1 = value;
        } else if reg == 4 {
            self.timer_a_1_latch = self.timer_a_1_latch / 256 * 256 + value as u16;
        } else if reg == 5 {
            self.timer_a_1_latch = value as u16 * 256 + self.timer_a_1_latch % 256;
        } else if reg == 0x0d {
            if value % 2 == 1 {
                self.timer_a_1_interrupt_enabled = value >= 0x80;
            }
        } else if reg == 0x0e {
            self.timer_a_1_enabled = value % 2 == 1;
            self.timer_a_1_restart = (value / 8) % 2 == 0;
            if (value / 16) % 2 == 1 {
                self.timer_a_1_value = self.timer_a_1_latch;
            }
            self.timer_a_1_register = value;
        }
    }

    /// Presses key `index` (0..63); other indices are ignored.
    pub fn keydown(&mut self, index: u8)
        requires
            old(self).wf(),
        ensures
            final(self).wf(),
            *final(self) == (CIA { keys: final(self).keys, ..*old(self) }),
            final(self).keys@ == if index < 64 {
                old(self).keys@.update(
                    index as int / 8,
                    old(self).keys@[index as int / 8] | key_mask(index),
                )
            } else {
                old(self).keys@
            },
    {
        if index > 63 {
            return ;
        }
        let row = (index / 8) as usize;
        let orig = self.keys[row];
        self.keys.set(row, orig | (1u8 << (index % 8)));
    }

    /// Releases key `index` (0..63); other indices are ignored.
    pub fn keyup(&mut self, index: u8)
        requires
            old(self).wf(),
        ensures
            final(self).wf(),
            *final(self) == (CIA { keys: final(self).keys, ..*old(self) }),
            final(self).keys@ == if index < 64 {
                old(self).keys@.update(
                    index as int / 8,
                    old(self).keys@[index as int / 8] & !key_mask(index),
                )
            } else {
                old(self).keys@
            },
    {
        if index > 63 {
            return ;
        }
        let row = (index / 8) as usize;
        let orig = self.keys[row];
        self.keys.set(row, orig & !(1u8 << (index % 8)));
    }

    pub open spec fn timers_post(&self, cycles: u8, after: CIA, underflow: bool) -> bool {
        &&& (!self.timer_a_1_enabled ==> !underflow && after == *self)
        &&& (self.timer_a_1_enabled ==> underflow == (self.timer_a_1_value < cycles))
        &&& (self.timer_a_1_enabled && !underflow ==> after == (CIA {
        timer_a_1_value: (self.timer_a_1_value - cycles) as u16,
        ..*self
    }))
        &&& (self.timer_a_1_enabled && underflow ==> after == (CIA {
        timer_a_1_value: if self.timer_a_1_restart {
            self.timer_a_1_latch
        } else {
            self.timer_a_1_value
        },
        timer_a_1_enabled: self.timer_a_1_restart,
        timer_a_1_interrupt: true,
        ..*self
    }))
    }

    /// Counts timer A down by `cycles`. On underflow the timer reloads from
    /// its latch (or stops, in one-shot mode), the interrupt latch is raised,
    /// and the result is true.
    pub fn update_timers(&mut self, cycles: u8) -> (underflow: bool)
        ensures

            old(self).timers_post(cycles, *final(self), underflow),
    {
        if !self.timer_a_1_enabled {
            return false;
        }
        if self.timer_a_1_value < cycles as u16 {
            if self.timer_a_1_restart {
                self.timer_a_1_value = self.timer_a_1_latch;
            } else {
                self.timer_a_1_enabled = false;
            }
            self.timer_a_1_interrupt = true;
            return true;
        }
        self.timer_a_1_value = self.timer_a_1_value - cycles as u16;
        false
    }
}

} // verus!
