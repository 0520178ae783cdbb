use vstd::prelude::*;
use crate::memory::Memory;
use crate::riot::{prescale_clocks, Timer, RIOT};
use crate::tia::TIA;

verus! {

/// The VCS address space, 13 bits wide: TIA, 128 bytes of RAM (seen twice),
/// the RIOT ports and timer, and 4 KiB of cartridge ROM, banked F8-style
/// for 8 KiB cartridges.
pub struct MemMap {
    pub ram: Vec<u8>,
    pub rom: Vec<u8>,
    pub tia: TIA,
    pub riot: RIOT,
    pub enable_bankswitch: bool,
    pub bank_no: u16,
}

impl MemMap {
    pub open spec fn wf(&self) -> bool {
        &&& self.ram@.len() == 128
        &&& self.rom@.len() == 0x2000
        &&& self.tia.wf()
        &&& self.bank_no <= 1
    }

    /// Empty memories, bank 0.
    pub fn new() -> (r: MemMap)
        ensures
            r.wf(),
            !r.enable_bankswitch && r.bank_no == 0,
    {
        MemMap {
            ram: vec![0u8; 128],
            rom: vec![0u8; 0x2000],
            tia: TIA::new(),
            riot: RIOT::new(),
            enable_bankswitch: false,
            bank_no: 0,
        }
    }

    /// Loads a cartridge image of up to 8 KiB; more than 4 KiB turns F8
    /// bank switching on.
    pub fn load_rom(&mut self, rom: &[u8])
        requires
            old(self).wf(),
        ensures
            final(self).wf(),
            final(self).enable_bankswitch == (old(self).enable_bankswitch || rom@.len() > 0x1000),
            forall|i: int|
                0 <= i < 0x2000 ==> #[trigger] final(self).rom@[i] == if i < rom@.len() {
                    rom@[i]
                } else {
                    old(self).rom@[i]
                },
    {
        let n = if rom.len() < 0x2000 { rom.len() } else { 0x2000 };
        let mut i: usize = 0;
        while i < n
            invariant
                n <= rom@.len(),
                n <= 0x2000,
                i <= n,
                self.wf(),
                self.enable_bankswitch == old(self).enable_bankswitch,
                forall|j: int|
                    0 <= j < 0x2000 ==> #[trigger] self.rom@[j] == if j < i {
                        rom@[j]
                    } else {
                        old(self).rom@[j]
                    },
            decreases n - i,
        {
            self.rom.set(i, rom[i]);
            i += 1;
        }
        if rom.len() > 0x1000 {
            self.enable_bankswitch = true;
        }
    }

    /// The byte a read of `addr` returns.
    pub open spec fn read(&self, addr: u16) -> u8 {
        let dest = addr % 0x2000;
        if 0x80 <= dest < 0x100 {
            self.ram@[dest - 0x80]
        } else if 0x180 <= dest < 0x200 {
            self.ram@[dest - 0x180]
        } else if dest == 0x280 {
            (0x0f + (if self.riot.joystick_0_right { 0 } else { 0x80int }) + (if self.riot.joystick_0_left {
                0
            } else {
                0x40int
            }) + (if self.riot.joystick_0_down { 0 } else { 0x20int }) + (if self.riot.joystick_0_up {
                0
            } else {
                0x10int
            })) as u8
        } else if dest == 0x284 {
            self.riot.timer_count
        } else if dest >= 0x1000 {
            if self.enable_bankswitch && (dest == 0x1ff8 || dest == 0x1ff9) {
                0
            } else {
                self.rom@[dest - 0x1000 + self.bank_no * 0x1000]
            }
        } else {
            0
        }
    }

    /// Whether a read of `addr` leaves the map as it was: all but the bank
    /// switch hot spots of a banked cartridge.
    pub open spec fn quiet_at(&self, addr: u16) -> bool {
        !(self.enable_bankswitch && (addr % 0x2000 == 0x1ff8 || addr % 0x2000 == 0x1ff9))
    }

    /// `after` is this map after a write of `value` to `addr`.
    pub open spec fn write_post(&self, addr: u16, value: u8, after: MemMap) -> bool {
        let dest = addr % 0x2000;
        &&& after.rom == self.rom
        &&& after.enable_bankswitch == self.enable_bankswitch && after.bank_no == self.bank_no
        &&& dest < 0x80 ==> after.tia.playfield@ == self.tia.playfield_written(dest, value)
            && after.tia == (TIA { playfield: after.tia.playfield, ..self.tia.written(dest, value) })
            && after.ram == self.ram && after.riot == self.riot
        &&& 0x80 <= dest < 0x100 ==> after.ram@ == self.ram@.update(dest - 0x80, value)
            && after.tia == self.tia && after.riot == self.riot
        &&& 0x180 <= dest < 0x200 ==> after.ram@ == self.ram@.update(dest - 0x180, value)
            && after.tia == self.tia && after.riot == self.riot
        &&& 0x294 <= dest < 0x298 ==> after.tia == self.tia && after.ram == self.ram
            && after.riot == (RIOT {
            timer_type: if dest == 0x294 {
                Timer::Cycle1
            } else if dest == 0x295 {
                Timer::Cycle8
            } else if dest == 0x296 {
                Timer::Cycle64
            } else {
                Timer::Cycle1024
            },
            timer_cycles: prescale_clocks(after.riot.timer_type),
            timer_count: value,
            ..self.riot
        })
        &&& (0x100 <= dest < 0x180 || 0x200 <= dest < 0x294 || dest >= 0x298) ==> after == *self
    }

    /// Reads `addr`; reading 0x1FF8 or 0x1FF9 of a banked cartridge selects
    /// bank 0 or 1.
    pub fn read_byte(&mut self, addr: u16) -> (r: u8)
        requires
            old(self).wf(),
        ensures
            final(self).wf(),
            r == old(self).read(addr),
            old(self).quiet_at(addr) ==> *final(self) == *old(self),
            final(self).tia == old(self).tia && final(self).ram == old(self).ram,
            final(self).bank_no == if old(self).enable_bankswitch && addr % 0x2000 == 0x1ff8 {
                0
            } else if old(self).enable_bankswitch && addr % 0x2000 == 0x1ff9 {
                1
            } else {
                old(self).bank_no
            },
    {
        let dest = addr % 0x2000;
        if 0x80 <= dest && dest < 0x100 {
            self.ram[(dest - 0x80) as usize]
        } else if 0x180 <= dest && dest < 0x200 {
            self.ram[(dest - 0x180) as usize]
        } else if dest == 0x280 {
            self.riot.get_port_a_data()
        } else if dest == 0x284 {
            self.riot.timer_count_remaining()
        } else if dest >= 0x1000 {
            if self.enable_bankswitch && dest == 0x1ff8 {
                self.bank_no = 0;
                0
            } else if self.enable_bankswitch && dest == 0x1ff9 {
                self.bank_no = 1;
                0
            } else {
                self.rom[(dest - 0x1000 + self.bank_no * 0x1000) as usize]
            }
        } else {
            0
        }
    }

    /// Writes `addr`: TIA registers, RAM, or the RIOT timer.
    pub fn write_byte(&mut self, addr: u16, value: u8)
        requires
            old(self).wf(),
        ensures
            final(self).wf(),
            old(self).write_post(addr, value, *final(self)),
    {
        let dest = addr % 0x2000;
        if dest < 0x80 {
            self.tia.set_byte(dest, value);
        } else if dest < 0x100 {
            self.ram.set((dest - 0x80) as usize, value);
        } else if 0x180 <= dest && dest < 0x200 {
            self.ram.set((dest - 0x180) as usize, value);
        } else if dest == 0x294 {
            self.riot.set_timer_1(value);
        } else if dest == 0x295 {
            self.riot.set_timer_8(value);
        } else if dest == 0x296 {
            self.riot.set_timer_64(value);
        } else if dest == 0x297 {
            self.riot.set_timer_1024(value);
        }
    }

    fn is_wf(&self) -> (r: bool)
        ensures
            r == self.wf(),
    {
        self.ram.len() == 128 && self.rom.len() == 0x2000 && self.tia.playfield.len() == 20
            && self.tia.horiz_clock < 228 && self.tia.scanline < 262 && self.tia.player_0_offset < 16
            && self.tia.player_1_offset < 16 && self.tia.missile_0_offset < 16
            && self.tia.missile_1_offset < 16 && self.tia.ball_offset < 16 && self.bank_no <= 1
    }
}

impl Memory for MemMap {
    open spec fn peek(&self, addr: u16) -> u8 {
        self.read(addr)
    }

    /// Bank-switch hot spots and I/O make this memory never plain.
    open spec fn plain(&self) -> bool {
        false
    }

    open spec fn inv(&self) -> bool {
        self.wf()
    }

    open spec fn quiet(&self, addr: u16) -> bool {
        self.quiet_at(addr)
    }

    open spec fn write_effect(&self, addr: u16, value: u8, after: MemMap) -> bool {
        self.write_post(addr, value, after)
    }

    fn get_byte(&mut self, addr: u16) -> (r: u8) {
        if self.is_wf() {
            self.read_byte(addr)
        } else {
            0
        }
    }

    fn set_byte(&mut self, addr: u16, value: u8) {
        if self.is_wf() {
            self.write_byte(addr, value);
        }
    }
}

} // verus!
