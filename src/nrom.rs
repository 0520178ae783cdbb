use vstd::prelude::*;
use crate::mapper::{ChrMem, Config, Mirroring};

verus! {

/// CIRAM address a nametable address `addr` (0x2000..0x3FFF) decodes to
/// under `mirroring`: vertical keeps the two left nametables, horizontal
/// keeps the two top ones, packed into 0x2000..0x27FF.
pub open spec fn fixed_mirror(mirroring: Mirroring, addr: u16) -> u16 {
    match mirroring {
        Mirroring::Vertical => (0x2000 + (addr - 0x2000) % 0x800) as u16,
        Mirroring::Horizontal => (0x2000 + ((addr - 0x2000) / 0x800) % 2 * 0x400 + (addr - 0x2000)
            % 0x400) as u16,
    }
}

/// Mapper 0: up to 32 KiB of PRG ROM, 8 KiB of PRG RAM, 8 KiB of CHR ROM or RAM
/// and mirroring fixed by the cartridge.
pub struct NROM {
    pub prg_ram: Vec<u8>,
    pub prg_rom: Vec<u8>,
    pub chr_mem: ChrMem,
    pub config: Config,
}

impl NROM {
    pub open spec fn wf(&self) -> bool {
        &&& self.prg_ram@.len() == 0x2000
        &&& self.prg_rom@.len() == 0x8000
        &&& self.chr_mem.bytes().len() == 0x2000
    }

    /// Offset into PRG ROM for a CPU address in 0x8000..0xFFFF: one 16 KiB
    /// bank seen twice, or 32 KiB seen once when the cartridge has two banks.
    pub open spec fn prg_offset(&self, addr: u16) -> int {
        if self.config.prg_rom_size == 2 {
            addr - 0x8000
        } else {
            (addr - 0x8000) % 0x4000
        }
    }

    /// The byte a CPU read of `addr` returns.
    pub open spec fn cpu_read(&self, addr: u16) -> u8 {
        if addr < 0x6000 {
            0
        } else if addr < 0x8000 {
            self.prg_ram@[addr - 0x6000]
        } else {
            self.prg_rom@[self.prg_offset(addr)]
        }
    }

    /// Empty cartridge memory for `config`; CHR is RAM when the cartridge has
    /// no CHR banks.
    pub fn new(config: Config) -> (r: NROM)
        ensures
            r.wf(),
            r.config == config,
            r.chr_mem.is_ram() == (config.chr_rom_size == 0),
            forall|i: int| 0 <= i < 0x8000 ==> r.prg_rom@[i] == 0,
            forall|i: int| 0 <= i < 0x2000 ==> r.prg_ram@[i] == 0 && r.chr_mem.bytes()[i] == 0,
    {
        let chr = if config.chr_rom_size == 0 {
            ChrMem::Ram(vec![0u8; 0x2000])
        } else {
            ChrMem::Rom(vec![0u8; 0x2000])
        };
        NROM { prg_ram: vec![0u8; 0x2000], prg_rom: vec![0u8; 0x8000], chr_mem: chr, config }
    }

    /// CPU read in 0x4020..0xFFFF.
    pub fn cpu_get_byte(&self, addr: u16) -> (r: u8)
        requires
            self.wf(),
        ensures
            r == self.cpu_read(addr),
    {
        if addr < 0x6000 {
            0
        } else if addr < 0x8000 {
            self.prg_ram[(addr - 0x6000) as usize]
        } else if self.config.prg_rom_size == 2 {
            self.prg_rom[(addr - 0x8000) as usize]
        } else {
            self.prg_rom[((addr - 0x8000) % 0x4000) as usize]
        }
    }

    /// CPU write: lands in PRG RAM at 0x6000..0x7FFF, dropped elsewhere.
    pub fn cpu_set_byte(&mut self, addr: u16, value: u8)
        requires
            old(self).wf(),
        ensures
            final(self).wf(),
            final(self).prg_rom == old(self).prg_rom,
            final(self).chr_mem == old(self).chr_mem,
            final(self).config == old(self).config,
            final(self).prg_ram@ == if 0x6000 <= addr < 0x8000 {
                old(self).prg_ram@.update(addr - 0x6000, value)
            } else {
                old(self).prg_ram@
            },
    {
        if 0x6000 <= addr && addr < 0x8000 {
            self.prg_ram.set((addr - 0x6000) as usize, value);
        }
    }

    /// PPU read of the pattern tables at 0x0000..0x1FFF; 0 above.
    pub fn ppu_get_byte(&self, addr: u16) -> (r: u8)
        requires
            self.wf(),
        ensures
            r == if addr < 0x2000 { self.chr_mem.bytes()[addr as int] } else { 0 },
    {
        if addr >= 0x2000 {
            return 0;
        }
        self.chr_mem.get(addr as usize)
    }

    /// PPU write of the pattern tables; only CHR RAM takes it.
    pub fn ppu_set_byte(&mut self, addr: u16, value: u8)
        requires
            old(self).wf(),
        ensures
            final(self).wf(),
            final(self).prg_rom == old(self).prg_rom,
            final(self).prg_ram == old(self).prg_ram,
            final(self).config == old(self).config,
            final(self).chr_mem.is_ram() == old(self).chr_mem.is_ram(),
            final(self).chr_mem.bytes() == if addr < 0x2000 && old(self).chr_mem.is_ram() {
                old(self).chr_mem.bytes().update(addr as int, value)
            } else {
                old(self).chr_mem.bytes()
            },
    {
        if addr < 0x2000 {
            self.chr_mem.write_ram(addr as usize, value);
        }
    }

    /// CIRAM address of a nametable address.
    pub fn ppu_get_mirrored_address(&self, addr: u16) -> (r: u16)
        requires
            0x2000 <= addr,
        ensures
            r == fixed_mirror(self.config.mirroring, addr),
    {
        let offset = addr - 0x2000;
        match self.config.mirroring {
            Mirroring::Vertical => 0x2000 + offset % 0x800,
            Mirroring::Horizontal => 0x2000 + (offset / 0x800) % 2 * 0x400 + offset % 0x400,
        }
    }

    /// Offsets into CIRAM of the four logical nametables.
    pub fn get_nametable_offsets(&self) -> (r: (usize, usize, usize, usize))
        ensures
            r.0 == fixed_mirror(self.config.mirroring, 0x2000) - 0x2000,
            r.1 == fixed_mirror(self.config.mirroring, 0x2400) - 0x2000,
            r.2 == fixed_mirror(self.config.mirroring, 0x2800) - 0x2000,
            r.3 == fixed_mirror(self.config.mirroring, 0x2c00) - 0x2000,
    {
        (
            (self.ppu_get_mirrored_address(0x2000) - 0x2000) as usize,
            (self.ppu_get_mirrored_address(0x2400) - 0x2000) as usize,
            (self.ppu_get_mirrored_address(0x2800) - 0x2000) as usize,
            (self.ppu_get_mirrored_address(0x2c00) - 0x2000) as usize,
        )
    }

    /// Loads PRG ROM from the start of `rom`; bytes past 32 KiB are ignored.
    pub fn set_prg_rom(&mut self, rom: &[u8])
        requires
            old(self).wf(),
        ensures
            final(self).wf(),
            final(self).prg_ram == old(self).prg_ram,
            final(self).chr_mem == old(self).chr_mem,
            final(self).config == old(self).config,
            forall|i: int|
                0 <= i < 0x8000 ==> #[trigger] final(self).prg_rom@[i] == if i < rom@.len() {
                    rom@[i]
                } else {
                    old(self).prg_rom@[i]
                },
    {
        let n = if rom.len() < 0x8000 { rom.len() } else { 0x8000 };
        let mut i: usize = 0;
        while i < n
            invariant
                n <= rom@.len(),
                n <= 0x8000,
                i <= n,
                self.prg_rom@.len() == 0x8000,
                self.prg_ram == old(self).prg_ram,
                self.chr_mem == old(self).chr_mem,
                self.config == old(self).config,
                forall|j: int|
                    0 <= j < 0x8000 ==> #[trigger] self.prg_rom@[j] == if j < i {
                        rom@[j]
                    } else {
                        old(self).prg_rom@[j]
                    },
            decreases n - i,
        {
            self.prg_rom.set(i, rom[i]);
            i += 1;
        }
    }

    /// Loads CHR ROM from the start of `rom`; CHR RAM is left alone.
    pub fn set_chr_rom(&mut self, rom: &[u8])
        requires
            old(self).wf(),
        ensures
            final(self).wf(),
            final(self).prg_ram == old(self).prg_ram,
            final(self).prg_rom == old(self).prg_rom,
            final(self).config == old(self).config,
            final(self).chr_mem.is_ram() == old(self).chr_mem.is_ram(),
            forall|i: int|
                0 <= i < 0x2000 ==> #[trigger] final(self).chr_mem.bytes()[i] == if i < rom@.len()
                    && !old(self).chr_mem.is_ram() {
                    rom@[i]
                } else {
                    old(self).chr_mem.bytes()[i]
                },
    {
        self.chr_mem.load_rom(rom);
    }
}

} // verus!
