use vstd::prelude::*;
use vstd::slice::slice_subrange;
use crate::mmc1::{mmc1_mirror, MMC1, MMC1_PRG_SIZE};
use crate::nrom::{fixed_mirror, NROM};

verus! {

/// Nametable arrangement fixed by a cartridge.
#[derive(Clone, Copy, PartialEq, Eq, Structural, Debug)]
pub enum Mirroring {
    Horizontal,
    Vertical,
}

/// Pattern-table memory of a cartridge: ROM, or RAM that the PPU may write.
pub enum ChrMem {
    Rom(Vec<u8>),
    Ram(Vec<u8>),
}

impl ChrMem {
    pub open spec fn bytes(&self) -> Seq<u8> {
        match self {
            ChrMem::Rom(v) => v@,
            ChrMem::Ram(v) => v@,
        }
    }

    pub open spec fn is_ram(&self) -> bool {
        self is Ram
    }

    /// Number of bytes.
    pub fn len(&self) -> (r: usize)
        ensures
            r == self.bytes().len(),
    {
        match self {
            ChrMem::Rom(v) => v.len(),
            ChrMem::Ram(v) => v.len(),
        }
    }

    /// Whether the PPU may write this memory.
    pub fn is_ram_exec(&self) -> (r: bool)
        ensures
            r == self.is_ram(),
    {
        match self {
            ChrMem::Rom(_) => false,
            ChrMem::Ram(_) => true,
        }
    }

    /// The byte at `i`.
    pub fn get(&self, i: usize) -> (r: u8)
        requires
            i < self.bytes().len(),
        ensures
            r == self.bytes()[i as int],
    {
        match self {
            ChrMem::Rom(v) => v[i],
            ChrMem::Ram(v) => v[i],
        }
    }

    /// Writes the byte at `i` if this is RAM.
    pub fn write_ram(&mut self, i: usize, value: u8)
        requires
            i < old(self).bytes().len(),
        ensures
            final(self).is_ram() == old(self).is_ram(),
            final(self).bytes() == if old(self).is_ram() {
                old(self).bytes().update(i as int, value)
            } else {
                old(self).bytes()
            },
    {
        if let ChrMem::Ram(v) = self {
            v.set(i, value);
        }
    }

    /// Copies `rom` over the start of ROM; RAM is left alone.
    pub fn load_rom(&mut self, rom: &[u8])
        ensures
            final(self).is_ram() == old(self).is_ram(),
            final(self).bytes().len() == old(self).bytes().len(),
            forall|i: int|
                0 <= i < old(self).bytes().len() ==> #[trigger] final(self).bytes()[i] == if i
                    < rom@.len() && !old(self).is_ram() {
                    rom@[i]
                } else {
                    old(self).bytes()[i]
                },
    {
        if let ChrMem::Rom(v) = self {
            let n = if rom.len() < v.len() { rom.len() } else { v.len() };
            let ghost before = v@;
            let mut i: usize = 0;
            while i < n
                invariant
                    n <= rom@.len(),
                    n <= before.len(),
                    v@.len() == before.len(),
                    i <= n,
                    forall|j: int|
                        0 <= j < before.len() ==> #[trigger] v@[j] == if j < i {
                            rom@[j]
                        } else {
                            before[j]
                        },
                decreases n - i,
            {
                v.set(i, rom[i]);
                i += 1;
            }
        }
    }
}

/// What an iNES header says of the cartridge.
#[derive(Clone, Copy, PartialEq, Eq, Structural, Debug)]
pub struct Config {
    /// PRG ROM size in 16 KiB banks.
    pub prg_rom_size: u8,
    /// CHR ROM size in 8 KiB banks; 0 means the cartridge has CHR RAM.
    pub chr_rom_size: u8,
    pub mirroring: Mirroring,
    pub contains_ram: bool,
}

/// Why a ROM image could not be loaded.
#[derive(Clone, Copy, PartialEq, Eq, Structural, Debug)]
pub enum LoadError {
    /// Shorter than the 16-byte header.
    TooShort,
    /// The header does not start with "NES" and 0x1A.
    BadMagic,
    /// A mapper other than NROM (0) or MMC1 (1).
    UnsupportedMapper(u8),
    /// Shorter than the PRG and CHR banks the header announces.
    SizeMismatch,
}

pub open spec fn ines_magic_ok(rom: Seq<u8>) -> bool {
    rom[0] == 0x4e && rom[1] == 0x45 && rom[2] == 0x53 && rom[3] == 0x1a
}

/// Mapper number: low nybble from the top of byte 6, high nybble from the
/// top of byte 7.
pub open spec fn ines_mapper_id(rom: Seq<u8>) -> u8 {
    (rom[6] / 16 + (rom[7] / 16) * 16) as u8
}

/// Cartridge configuration from the header bytes.
pub open spec fn ines_config(rom: Seq<u8>) -> Config {
    Config {
        prg_rom_size: rom[4],
        chr_rom_size: rom[5],
        mirroring: if rom[6] % 2 == 1 { Mirroring::Horizontal } else { Mirroring::Vertical },
        contains_ram: (rom[6] / 2) % 2 == 1,
    }
}

/// End of the PRG banks in the image.
pub open spec fn ines_prg_end(rom: Seq<u8>) -> int {
    16 + rom[4] as int * 0x4000
}

/// End of the CHR banks in the image.
pub open spec fn ines_chr_end(rom: Seq<u8>) -> int {
    ines_prg_end(rom) + rom[5] as int * 0x2000
}

/// The error loading `rom` gives, if any.
pub open spec fn ines_error(rom: Seq<u8>) -> Option<LoadError> {
    if rom.len() < 16 {
        Some(LoadError::TooShort)
    } else if !ines_magic_ok(rom) {
        Some(LoadError::BadMagic)
    } else if ines_mapper_id(rom) > 1 {
        Some(LoadError::UnsupportedMapper(ines_mapper_id(rom)))
    } else if rom.len() < ines_chr_end(rom) {
        Some(LoadError::SizeMismatch)
    } else {
        None
    }
}

/// A cartridge's mapper: the closed set of boards this core supports.
pub enum Mapper {
    Nrom(NROM),
    Mmc1(MMC1),
}

impl Mapper {
    pub open spec fn wf(&self) -> bool {
        match self {
            Mapper::Nrom(m) => m.wf(),
            Mapper::Mmc1(m) => m.wf(),
        }
    }

    pub open spec fn config(&self) -> Config {
        match self {
            Mapper::Nrom(m) => m.config,
            Mapper::Mmc1(m) => m.config,
        }
    }

    /// PRG ROM as loaded.
    pub open spec fn prg(&self) -> Seq<u8> {
        match self {
            Mapper::Nrom(m) => m.prg_rom@,
            Mapper::Mmc1(m) => m.prg_rom@,
        }
    }

    /// Pattern memory as loaded.
    pub open spec fn chr(&self) -> ChrMem {
        match self {
            Mapper::Nrom(m) => m.chr_mem,
            Mapper::Mmc1(m) => m.chr_mem,
        }
    }

    /// CIRAM address of a nametable address.
    pub open spec fn mirror(&self, addr: u16) -> u16 {
        match self {
            Mapper::Nrom(m) => fixed_mirror(m.config.mirroring, addr),
            Mapper::Mmc1(m) => mmc1_mirror(m.register_control % 4, addr),
        }
    }

    pub open spec fn is_vertical(&self) -> bool {
        match self {
            Mapper::Nrom(m) => m.config.mirroring == Mirroring::Vertical,
            Mapper::Mmc1(m) => m.register_control % 4 == 2,
        }
    }

    pub open spec fn is_horizontal(&self) -> bool {
        match self {
            Mapper::Nrom(m) => m.config.mirroring == Mirroring::Horizontal,
            Mapper::Mmc1(m) => m.register_control % 4 == 3,
        }
    }

    pub open spec fn cpu_read(&self, addr: u16) -> u8 {
        match self {
            Mapper::Nrom(m) => m.cpu_read(addr),
            Mapper::Mmc1(m) => m.cpu_read(addr),
        }
    }

    pub open spec fn ppu_read(&self, addr: u16) -> u8 {
        match self {
            Mapper::Nrom(m) => if addr < 0x2000 { m.chr_mem.bytes()[addr as int] } else { 0 },
            Mapper::Mmc1(m) => m.ppu_read(addr),
        }
    }

    /// Whether the cartridge memories have their sizes.
    pub fn is_wf(&self) -> (r: bool)
        ensures
            r == self.wf(),
    {
        match self {
            Mapper::Nrom(m) => m.prg_ram.len() == 0x2000 && m.prg_rom.len() == 0x8000
                && m.chr_mem.len() == 0x2000,
            Mapper::Mmc1(m) => m.prg_ram.len() == 0x2000 && m.prg_rom.len() == MMC1_PRG_SIZE
                && m.chr_mem.len() == if m.chr_mem.is_ram_exec() { 0x2000 } else { crate::mmc1::MMC1_CHR_SIZE }
                && m.shifter < 0x20 && m.register_control < 0x20 && m.register_chr0 < 0x20
                && m.register_chr1 < 0x20 && m.register_prg < 0x20,
        }
    }

    /// CPU read in 0x4020..0xFFFF.
    pub fn cpu_get_byte(&self, addr: u16) -> (r: u8)
        requires
            self.wf(),
        ensures
            r == self.cpu_read(addr),
    {
        match self {
            Mapper::Nrom(m) => m.cpu_get_byte(addr),
            Mapper::Mmc1(m) => m.cpu_get_byte(addr),
        }
    }

    pub open spec fn cpu_write_post(&self, addr: u16, value: u8, after: Mapper) -> bool {
        &&& (after.config() == self.config())
        &&& ((after is Nrom) == (self is Nrom))
        &&& (self is Nrom && 0x6000 <= addr < 0x8000 ==> after.cpu_read(addr) == value)
        &&& (self is Nrom && !(0x6000 <= addr < 0x8000) ==> forall|a: u16| #[trigger]
        after.cpu_read(a) == self.cpu_read(a))
        &&& (self is Mmc1 && addr >= 0x8000 ==> (after->Mmc1_0).registers() == (self->Mmc1_0).registers_after(
            addr,
            value,
        ))
    }

    /// CPU write in 0x4020..0xFFFF.
    pub fn cpu_set_byte(&mut self, addr: u16, value: u8)
        requires
            old(self).wf(),
        ensures
            final(self).wf(),
            old(self).cpu_write_post(addr, value, *final(self)),
    {
        match self {
            Mapper::Nrom(m) => m.cpu_set_byte(addr, value),
            Mapper::Mmc1(m) => m.cpu_set_byte(addr, value),
        }
    }

    /// PPU read of the pattern tables.
    pub fn ppu_get_byte(&self, addr: u16) -> (r: u8)
        requires
            self.wf(),
        ensures
            r == self.ppu_read(addr),
    {
        match self {
            Mapper::Nrom(m) => m.ppu_get_byte(addr),
            Mapper::Mmc1(m) => m.ppu_get_byte(addr),
        }
    }

    /// PPU write of the pattern tables; only CHR RAM takes it.
    pub fn ppu_set_byte(&mut self, addr: u16, value: u8)
        requires
            old(self).wf(),
        ensures
            final(self).wf(),
            final(self).config() == old(self).config(),
            forall|a: u16| #[trigger] final(self).mirror(a) == old(self).mirror(a),
            final(self).chr().bytes() == if addr < 0x2000 && old(self).chr().is_ram() {
                old(self).chr().bytes().update(addr as int, value)
            } else {
                old(self).chr().bytes()
            },
    {
        match self {
            Mapper::Nrom(m) => m.ppu_set_byte(addr, value),
            Mapper::Mmc1(m) => m.ppu_set_byte(addr, value),
        }
    }

    /// CIRAM address of a nametable address.
    pub fn ppu_get_mirrored_address(&self, addr: u16) -> (r: u16)
        requires
            0x2000 <= addr,
        ensures
            r == self.mirror(addr),
    {
        match self {
            Mapper::Nrom(m) => m.ppu_get_mirrored_address(addr),
            Mapper::Mmc1(m) => m.ppu_get_mirrored_address(addr),
        }
    }
}

/// Under vertical mirroring the nametables at 0x2000 and 0x2800 are one, as
/// are those at 0x2400 and 0x2C00; under horizontal mirroring 0x2000 and
/// 0x2400 are one, as are 0x2800 and 0x2C00. The two kept nametables differ.
pub proof fn lemma_mirroring_aliases(m: Mapper, k: u16)
    requires
        k < 0x400,
    ensures
        m.is_vertical() ==> m.mirror((0x2000 + k) as u16) == m.mirror((0x2800 + k) as u16) && m.mirror(
            (0x2400 + k) as u16,
        ) == m.mirror((0x2c00 + k) as u16) && m.mirror((0x2000 + k) as u16) != m.mirror(
            (0x2400 + k) as u16,
        ),
        m.is_horizontal() ==> m.mirror((0x2000 + k) as u16) == m.mirror((0x2400 + k) as u16)
            && m.mirror((0x2800 + k) as u16) == m.mirror((0x2c00 + k) as u16) && m.mirror(
            (0x2000 + k) as u16,
        ) != m.mirror((0x2800 + k) as u16),
{
}

/// Builds the mapper an iNES image asks for and loads its PRG and CHR banks.
pub fn create_mapper(rom: &Vec<u8>) -> (r: Result<Mapper, LoadError>)
    ensures
        ines_error(rom@) is Some <==> r is Err,
        r is Err ==> r == Err::<Mapper, LoadError>(ines_error(rom@)->0),
        r is Ok ==> {
            let m = r->Ok_0;
            &&& m.wf()
            &&& m.config() == ines_config(rom@)
            &&& (m is Nrom) == (ines_mapper_id(rom@) == 0)
            &&& m.chr().is_ram() == (rom@[5] == 0)
            &&& forall|i: int|
                0 <= i < m.prg().len() && i < rom@[4] * 0x4000 ==> #[trigger] m.prg()[i] == rom@[16
                    + i]
            &&& forall|i: int|
                0 <= i < m.chr().bytes().len() && i < rom@[5] * 0x2000 ==> #[trigger] m.chr().bytes()[i]
                    == rom@[ines_prg_end(rom@) + i]
        },
{
    if rom.len() < 16 {
        return Err(LoadError::TooShort);
    }
    if rom[0] != 0x4e || rom[1] != 0x45 || rom[2] != 0x53 || rom[3] != 0x1a {
        return Err(LoadError::BadMagic);
    }
    let id: u8 = rom[6] / 16 + (rom[7] / 16) * 16;
    if id > 1 {
        return Err(LoadError::UnsupportedMapper(id));
    }
    let prg_end: usize = 16 + rom[4] as usize * 0x4000;
    let chr_end: usize = prg_end + rom[5] as usize * 0x2000;
    if rom.len() < chr_end {
        return Err(LoadError::SizeMismatch);
    }
    let config = Config {
        prg_rom_size: rom[4],
        chr_rom_size: rom[5],
        mirroring: if rom[6] % 2 == 1 { Mirroring::Horizontal } else { Mirroring::Vertical },
        contains_ram: (rom[6] / 2) % 2 == 1,
    };
    let prg = slice_subrange(rom.as_slice(), 16, prg_end);
    let chr = slice_subrange(rom.as_slice(), prg_end, chr_end);
    if id == 0 {
        let mut m = NROM::new(config);
        m.set_prg_rom(prg);
        m.set_chr_rom(chr);
        Ok(Mapper::Nrom(m))
    } else {
        let mut m = MMC1::new(config);
        m.set_prg_rom(prg);
        m.set_chr_rom(chr);
        Ok(Mapper::Mmc1(m))
    }
}

} // verus!
