use vstd::prelude::*;
use crate::mapper::{ChrMem, Config};

verus! {

/// Shift register value meaning "empty": the marker bit that reaches bit 0
/// after four more writes.
pub const SHIFTER_EMPTY: u8 = 0x10;

/// Size of the PRG ROM window: sixteen 16 KiB banks.
pub const MMC1_PRG_SIZE: usize = 0x40000;
/// Size of the CHR ROM window: thirty-two 4 KiB banks.
pub const MMC1_CHR_SIZE: usize = 0x20000;

/// CIRAM address of nametable address `addr` under MMC1 mirroring mode
/// `mode` (0 single-screen lower, 1 single-screen upper, 2 vertical,
/// 3 horizontal).
pub open spec fn mmc1_mirror(mode: u8, addr: u16) -> u16 {
    let offset = addr - 0x2000;
    if mode == 0 {
        (0x2000 + offset % 0x400) as u16
    } else if mode == 1 {
        (0x2400 + offset % 0x400) as u16
    } else if mode == 2 {
        (0x2000 + offset % 0x800) as u16
    } else {
        (0x2000 + (offset / 0x800) % 2 * 0x800 + offset % 0x400) as u16
    }
}

/// Mapper 1: a serial shift register feeding four internal registers that
/// switch PRG and CHR banks and choose mirroring.
pub struct MMC1 {
    pub shifter: u8,
    pub register_control: u8,
    pub register_chr0: u8,
    pub register_chr1: u8,
    pub register_prg: u8,
    pub prg_ram: Vec<u8>,
    pub prg_rom: Vec<u8>,
    pub chr_mem: ChrMem,
    pub config: Config,
}

impl MMC1 {
    pub open spec fn wf(&self) -> bool {
        &&& self.prg_ram@.len() == 0x2000
        &&& self.prg_rom@.len() == MMC1_PRG_SIZE
        &&& self.chr_mem.bytes().len() == if self.chr_mem.is_ram() {
            0x2000
        } else {
            MMC1_CHR_SIZE as int
        }
        &&& self.shifter < 0x20
        &&& self.register_control < 0x20
        &&& self.register_chr0 < 0x20
        &&& self.register_chr1 < 0x20
        &&& self.register_prg < 0x20
    }

    /// PRG mode: 0 and 1 switch 32 KiB, 2 fixes the first bank at 0x8000,
    /// 3 fixes the last bank at 0xC000.
    pub open spec fn prg_mode(&self) -> u8 {
        (self.register_control / 4) % 4
    }

    /// Index of the last PRG bank.
    pub open spec fn last_bank(&self) -> int {
        if self.config.prg_rom_size == 0 {
            0
        } else {
            (self.config.prg_rom_size - 1) % 16
        }
    }

    /// 16 KiB PRG bank mapped at 0x8000 (`high` false) or 0xC000 (`high` true).
    pub open spec fn prg_bank(&self, high: bool) -> int {
        let sel = self.register_prg % 16;
        if self.prg_mode() < 2 {
            (sel - sel % 2) + if high { 1int } else { 0 }
        } else if self.prg_mode() == 2 {
            if high { sel as int } else { 0 }
        } else {
            if high { self.last_bank() } else { sel as int }
        }
    }

    /// The byte a CPU read of `addr` returns.
    pub open spec fn cpu_read(&self, addr: u16) -> u8 {
        if addr < 0x6000 {
            0
        } else if addr < 0x8000 {
            if self.register_prg & 0x10 != 0 {
                0
            } else {
                self.prg_ram@[addr - 0x6000]
            }
        } else {
            let high = addr >= 0xc000;
            self.prg_rom@[self.prg_bank(high) * 0x4000 + (addr - 0x8000) % 0x4000]
        }
    }

    /// 4 KiB CHR bank seen at 0x0000 (`high` false) or 0x1000 (`high` true).
    pub open spec fn chr_bank(&self, high: bool) -> int {
        if self.register_control & 0x10 != 0 {
            if high { self.register_chr1 as int } else { self.register_chr0 as int }
        } else {
            let base = self.register_chr0 - self.register_chr0 % 2;
            base + if high { 1int } else { 0 }
        }
    }

    /// The byte a PPU read of pattern address `addr` returns.
    pub open spec fn ppu_read(&self, addr: u16) -> u8 {
        if addr >= 0x2000 {
            0
        } else if self.chr_mem.is_ram() {
            self.chr_mem.bytes()[addr as int]
        } else {
            self.chr_mem.bytes()[self.chr_bank(addr >= 0x1000) * 0x1000 + addr % 0x1000]
        }
    }

    /// Registers after a CPU write of `value` to `addr` in 0x8000..0xFFFF.
    pub open spec fn registers_after(&self, addr: u16, value: u8) -> (u8, u8, u8, u8, u8) {
        if value >= 0x80 {
            (
                SHIFTER_EMPTY,
                self.register_control | 0x0c,
                self.register_chr0,
                self.register_chr1,
                self.register_prg,
            )
        } else {
            let shifted = (self.shifter / 2 + (value % 2) * 0x10) as u8;
            if self.shifter % 2 == 1 {
                let sel = (addr - 0x8000) / 0x2000;
                (
                    SHIFTER_EMPTY,
                    if sel == 0 { shifted } else { self.register_control },
                    if sel == 1 { shifted } else { self.register_chr0 },
                    if sel == 2 { shifted } else { self.register_chr1 },
                    if sel == 3 { shifted } else { self.register_prg },
                )
            } else {
                (shifted, self.register_control, self.register_chr0, self.register_chr1, self.register_prg)
            }
        }
    }

    pub open spec fn registers(&self) -> (u8, u8, u8, u8, u8) {
        (self.shifter, self.register_control, self.register_chr0, self.register_chr1, self.register_prg)
    }

    /// Power-on state: empty shifter, registers cleared, memories zeroed.
    pub fn new(config: Config) -> (r: MMC1)
        ensures
            r.wf(),
            r.config == config,
            r.registers() == (SHIFTER_EMPTY, 0u8, 0u8, 0u8, 0u8),
            r.chr_mem.is_ram() == (config.chr_rom_size == 0),
    {
        let chr = if config.chr_rom_size == 0 {
            ChrMem::Ram(vec![0u8; 0x2000])
        } else {
            ChrMem::Rom(vec![0u8; MMC1_CHR_SIZE])
        };
        MMC1 {
            shifter: SHIFTER_EMPTY,
            register_control: 0,
            register_chr0: 0,
            register_chr1: 0,
            register_prg: 0,
            prg_ram: vec![0u8; 0x2000],
            prg_rom: vec![0u8; MMC1_PRG_SIZE],
            chr_mem: chr,
            config,
        }
    }

    /// CPU write: PRG RAM at 0x6000..0x7FFF while enabled; the shift register
    /// at 0x8000..0xFFFF.
    pub fn cpu_set_byte(&mut self, addr: u16, value: u8)
        requires
            old(self).wf(),
        ensures
            final(self).wf(),
            final(self).prg_rom == old(self).prg_rom,
            final(self).chr_mem == old(self).chr_mem,
            final(self).config == old(self).config,
            addr >= 0x8000 ==> final(self).registers() == old(self).registers_after(addr, value)
                && final(self).prg_ram == old(self).prg_ram,
            addr < 0x8000 ==> final(self).registers() == old(self).registers(),
            addr < 0x8000 ==> final(self).prg_ram@ == if addr >= 0x6000 && old(self).register_prg
                & 0x10 == 0 {
                old(self).prg_ram@.update(addr - 0x6000, value)
            } else {
                old(self).prg_ram@
            },
    {
        if addr < 0x6000 {
            return ;
        }
        if addr < 0x8000 {
            if self.register_prg & 0x10 == 0 {
                self.prg_ram.set((addr - 0x6000) as usize, value);
            }
            return ;
        }
        if value >= 0x80 {
            let control = self.register_control;
            assert(control | 0x0c < 0x20) by (bit_vector)
                requires
                    control < 0x20,
            ;
            self.shifter = SHIFTER_EMPTY;
            self.register_control = control | 0x0c;
            return ;
        }
        let full = self.shifter % 2 == 1;
        let shifted = self.shifter / 2 + (value % 2) * 0x10;
        if full {
            let sel = (addr - 0x8000) / 0x2000;
            if sel == 0 {
                self.register_control = shifted;
            } else if sel == 1 {
                self.register_chr0 = shifted;
            } else if sel == 2 {
                self.register_chr1 = shifted;
            } else {
                self.register_prg = shifted;
            }
            self.shifter = SHIFTER_EMPTY;
        } else {
            self.shifter = shifted;
        }
    }

    /// CPU read of PRG RAM or the switched PRG ROM banks.
    pub fn cpu_get_byte(&self, addr: u16) -> (r: u8)
        requires
            self.wf(),
        ensures
            r == self.cpu_read(addr),
    {
        if addr < 0x6000 {
            return 0;
        }
        if addr < 0x8000 {
            if self.register_prg & 0x10 != 0 {
                return 0;
            }
            return self.prg_ram[(addr - 0x6000) as usize];
        }
        let high = addr >= 0xc000;
        let sel = (self.register_prg % 16) as usize;
        let mode = (self.register_control / 4) % 4;
        let bank: usize = if mode < 2 {
            (sel - sel % 2) + if high { 1 } else { 0 }
        } else if mode == 2 {
            if high { sel } else { 0 }
        } else if high {
            if self.config.prg_rom_size == 0 { 0 } else { ((self.config.prg_rom_size - 1) % 16) as usize }
        } else {
            sel
        };
        let offset = ((addr - 0x8000) % 0x4000) as usize;
        self.prg_rom[bank * 0x4000 + offset]
    }

    /// PPU read of the pattern tables through the CHR banks.
    pub fn ppu_get_byte(&self, addr: u16) -> (r: u8)
        requires
            self.wf(),
        ensures
            r == self.ppu_read(addr),
    {
        if addr >= 0x2000 {
            return 0;
        }
        if let ChrMem::Ram(mem) = &self.chr_mem {
            return mem[addr as usize];
        }
        let high = addr >= 0x1000;
        let bank: usize = if self.register_control & 0x10 != 0 {
            if high { self.register_chr1 as usize } else { self.register_chr0 as usize }
        } else {
            (self.register_chr0 - self.register_chr0 % 2) as usize + if high { 1 } else { 0 }
        };
        self.chr_mem.get(bank * 0x1000 + (addr % 0x1000) as usize)
    }

    /// PPU write of the pattern tables; only CHR RAM takes it.
    pub fn ppu_set_byte(&mut self, addr: u16, value: u8)
        requires
            old(self).wf(),
        ensures
            final(self).wf(),
            final(self).registers() == old(self).registers(),
            final(self).prg_rom == old(self).prg_rom,
            final(self).prg_ram == old(self).prg_ram,
            final(self).config == old(self).config,
            final(self).chr_mem.is_ram() == old(self).chr_mem.is_ram(),
            final(self).chr_mem.bytes() == if addr < 0x2000 && old(self).chr_mem.is_ram() {
                old(self).chr_mem.bytes().update(addr as int, value)
            } else {
                old(self).chr_mem.bytes()
            },
    {
        if addr < 0x2000 && self.chr_mem.is_ram_exec() {
            self.chr_mem.write_ram(addr as usize, value);
        }
    }

    /// CIRAM address of a nametable address, by the control register's
    /// mirroring mode.
    pub fn ppu_get_mirrored_address(&self, addr: u16) -> (r: u16)
        requires
            0x2000 <= addr,
        ensures
            r == mmc1_mirror(self.register_control % 4, addr),
    {
        let offset = addr - 0x2000;
        let mode = self.register_control % 4;
        if mode == 0 {
            0x2000 + offset % 0x400
        } else if mode == 1 {
            0x2400 + offset % 0x400
        } else if mode == 2 {
            0x2000 + offset % 0x800
        } else {
            0x2000 + (offset / 0x800) % 2 * 0x800 + offset % 0x400
        }
    }

    /// Loads PRG ROM from the start of `rom`; bytes past 256 KiB are ignored.
    pub fn set_prg_rom(&mut self, rom: &[u8])
        requires
            old(self).wf(),
        ensures
            final(self).wf(),
            final(self).registers() == old(self).registers(),
            final(self).prg_ram == old(self).prg_ram,
            final(self).chr_mem == old(self).chr_mem,
            final(self).config == old(self).config,
            forall|i: int|
                0 <= i < MMC1_PRG_SIZE ==> #[trigger] final(self).prg_rom@[i] == if i < rom@.len() {
                    rom@[i]
                } else {
                    old(self).prg_rom@[i]
                },
    {
        let n = if rom.len() < MMC1_PRG_SIZE { rom.len() } else { MMC1_PRG_SIZE };
        let mut i: usize = 0;
        while i < n
            invariant
                n <= rom@.len(),
                n <= MMC1_PRG_SIZE,
                i <= n,
                self.prg_rom@.len() == MMC1_PRG_SIZE,
                self.registers() == old(self).registers(),
                self.prg_ram == old(self).prg_ram,
                self.chr_mem == old(self).chr_mem,
                self.config == old(self).config,
                forall|j: int|
                    0 <= j < MMC1_PRG_SIZE ==> #[trigger] self.prg_rom@[j] == if j < i {
                        rom@[j]
                    } else {
                        old(self).prg_rom@[j]
                    },
            decreases n - i,
        {
            self.prg_rom.set(i, rom[i]);
            i += 1;
        }
    }

    /// Loads CHR ROM from the start of `rom`; CHR RAM is left alone.
    pub fn set_chr_rom(&mut self, rom: &[u8])
        requires
            old(self).wf(),
        ensures
            final(self).wf(),
            final(self).registers() == old(self).registers(),
            final(self).prg_ram == old(self).prg_ram,
            final(self).prg_rom == old(self).prg_rom,
            final(self).config == old(self).config,
            final(self).chr_mem.is_ram() == old(self).chr_mem.is_ram(),
            forall|i: int|
                0 <= i < old(self).chr_mem.bytes().len() ==> #[trigger] final(self).chr_mem.bytes()[i]
                    == if i < rom@.len() && !old(self).chr_mem.is_ram() {
                    rom@[i]
                } else {
                    old(self).chr_mem.bytes()[i]
                },
    {
        self.chr_mem.load_rom(rom);
    }
}

} // verus!
