use vstd::prelude::*;
use crate::mapper::Mapper;
use crate::sprite::Sprite;

verus! {

/// Which 4 KiB pattern table a fetch uses.
#[derive(Clone, Copy, PartialEq, Eq, Structural, Debug)]
pub enum PatternTable {
    /// 0x0000
    Base,
    /// 0x1000
    Offset,
}

/// One prepared sprite pixel of the current scanline.
#[derive(Clone, Copy, PartialEq, Eq, Structural, Debug)]
pub struct SpritePixel {
    /// Index of the sprite in OAM; 0xFF for none.
    pub index: u8,
    /// Priority in bit 4, palette in bits 2-3, colour in bits 0-1.
    pub pixel: u8,
}

/// Frame width in pixels.
pub const FRAME_WIDTH: usize = 256;
/// Frame height in pixels.
pub const FRAME_HEIGHT: usize = 240;

/// CIRAM offset of a canonical nametable address from a mapper: the
/// nametable at 0x2000 takes the first kilobyte, any other the second.
pub open spec fn ciram_index(dest: u16) -> int {
    (dest - 0x2000) % 0x400 + if dest >= 0x2400 { 0x400int } else { 0 }
}

/// Palette RAM slot of PPU address `a`: every fourth entry is the
/// universal background colour.
pub open spec fn palette_index(a: u16) -> int {
    if a % 4 == 0 { 0 } else { (a % 32) as int }
}

/// `v` after the coarse-X increment: wrapping from column 31 to 0 flips the
/// horizontal nametable bit.
pub open spec fn coarse_x_increment(v: u16) -> u16 {
    if v & 0x1f == 0x1f {
        (v & !0x1fu16) ^ 0x400
    } else {
        ((v + 1) % 0x10000) as u16
    }
}

/// `v` after the fine-Y increment: fine Y overflows into coarse Y, which
/// wraps 29 to 0 flipping the vertical nametable bit, and 31 to 0 without.
pub open spec fn fine_y_increment(v: u16) -> u16 {
    if v & 0x7000 != 0x7000 {
        ((v + 0x1000) % 0x10000) as u16
    } else {
        let w = v & !0x7000u16;
        let y = (w & 0x3e0) >> 5u16;
        if y == 29 {
            (w & !0x3e0u16) ^ 0x800
        } else if y == 31 {
            w & !0x3e0u16
        } else {
            (w & !0x3e0u16) | (((y + 1) as u16) << 5u16)
        }
    }
}

/// Beam position one dot after (`scanline`, `cycle`).
pub open spec fn next_beam(beam: (u16, u16)) -> (u16, u16) {
    if beam.1 + 1 >= 341 {
        (if beam.0 + 1 >= 262 { 0 } else { (beam.0 + 1) as u16 }, 0)
    } else {
        (beam.0, (beam.1 + 1) as u16)
    }
}

/// Beam position `n` dots after `beam`.
pub open spec fn beam_after(beam: (u16, u16), n: nat) -> (u16, u16)
    decreases n,
{
    if n == 0 {
        beam
    } else {
        next_beam(beam_after(beam, (n - 1) as nat))
    }
}

/// The horizontal bits of `t` copied into `v`.
pub open spec fn copy_horizontal(v: u16, t: u16) -> u16 {
    (v & !0x41fu16) | (t & 0x41f)
}

/// The vertical bits of `t` copied into `v`.
pub open spec fn copy_vertical(v: u16, t: u16) -> u16 {
    (v & !0x7be0u16) | (t & 0x7be0)
}

/// The dot-based picture processing unit: loopy registers v, t, x and w,
/// the CPU-visible register file, OAM, nametable RAM, palette RAM and the
/// frame it draws.
pub struct PPU2 {
    /// Current VRAM address.
    pub v: u16,
    /// Temporary VRAM address.
    pub t: u16,
    /// Fine X scroll.
    pub x: u8,
    /// Write toggle of PPUSCROLL and PPUADDR.
    pub w: u8,
    pub status: u8,
    pub greyscale: bool,
    pub show_left_bg: bool,
    pub show_left_sprites: bool,
    pub show_bg: bool,
    pub show_sprites: bool,
    pub emphasize_red: bool,
    pub emphasize_green: bool,
    pub emphasize_blue: bool,
    /// Add 32 rather than 1 to v after a PPUDATA access.
    pub increment_down: bool,
    pub sprite_pattern: PatternTable,
    pub background_pattern: PatternTable,
    pub double_height_sprites: bool,
    pub nmi_enabled: bool,
    pub oam_addr: u8,
    pub scanline: u16,
    pub cycle: u16,
    pub read_nametable: u8,
    pub read_attribute: u8,
    pub read_bitmap_low: u8,
    pub read_bitmap_high: u8,
    pub needs_interrupt: bool,
    pub palette: Vec<u8>,
    pub ciram: Vec<u8>,
    /// Object attribute memory: 64 sprites of 4 bytes (Y, tile, attributes, X).
    pub oam: Vec<u8>,
    pub sprite_line: Vec<SpritePixel>,
    pub buffer: Vec<u8>,
}

/// Every nametable address a mapper decodes lands in CIRAM.
pub proof fn lemma_mirror_in_ciram(m: Mapper, a: u16)
    requires
        0x2000 <= a < 0x3000,
    ensures
        0x2000 <= m.mirror(a) < 0x2c00,
        0 <= ciram_index(m.mirror(a)) < 0x800,
{
}

impl PPU2 {
    pub open spec fn wf(&self) -> bool {
        &&& self.palette@.len() == 32
        &&& self.ciram@.len() == 0x800
        &&& self.oam@.len() == 256
        &&& self.sprite_line@.len() == 256
        &&& self.buffer@.len() == FRAME_WIDTH * FRAME_HEIGHT
        &&& self.scanline < 262
        &&& self.cycle < 341
    }

    /// OAM byte `a`.
    pub open spec fn oam_byte(&self, a: u8) -> u8 {
        self.oam@[a as int]
    }

    /// v after a PPUDATA access.
    pub open spec fn v_after_data(&self) -> u16 {
        ((self.v + if self.increment_down { 32int } else { 1 }) % 0x10000) as u16
    }

    /// Everything as at power-on.
    pub fn new() -> (r: PPU2)
        ensures
            r.wf(),
            r.v == 0 && r.t == 0 && r.x == 0 && r.w == 0 && r.status == 0,
            r.scanline == 0 && r.cycle == 0 && r.oam_addr == 0,
            !r.needs_interrupt && !r.nmi_enabled && !r.show_bg && !r.show_sprites,
    {
        PPU2 {
            v: 0,
            t: 0,
            x: 0,
            w: 0,
            status: 0,
            greyscale: false,
            show_left_bg: false,
            show_left_sprites: false,
            show_bg: false,
            show_sprites: false,
            emphasize_red: false,
            emphasize_green: false,
            emphasize_blue: false,
            increment_down: false,
            sprite_pattern: PatternTable::Base,
            background_pattern: PatternTable::Base,
            double_height_sprites: false,
            nmi_enabled: false,
            oam_addr: 0,
            scanline: 0,
            cycle: 0,
            read_nametable: 0,
            read_attribute: 0,
            read_bitmap_low: 0,
            read_bitmap_high: 0,
            needs_interrupt: false,
            palette: vec![0u8; 32],
            ciram: vec![0u8; 0x800],
            oam: vec![0u8; 256],
            sprite_line: vec![SpritePixel { index: 0xff, pixel: 0xff }; 256],
            buffer: vec![0u8; FRAME_WIDTH * FRAME_HEIGHT],
        }
    }

    /// OAMDATA write: stores at OAMADDR, then increments it.
    pub fn write_oam(&mut self, value: u8)
        requires
            old(self).wf(),
        ensures
            final(self).wf(),
            final(self).oam_addr == (old(self).oam_addr + 1) % 256,
            final(self).oam@ == old(self).oam@.update(old(self).oam_addr as int, value),
            *final(self) == (PPU2 { oam: final(self).oam, oam_addr: final(self).oam_addr, ..*old(self) }),
    {
        self.oam.set(self.oam_addr as usize, value);
        self.oam_addr = self.oam_addr.wrapping_add(1);
    }

    /// Registers after a CPU write of `value` to PPU register `addr % 8`,
    /// except for OAMDATA and PPUDATA, whose effects on memory are stated by
    /// `set_byte`.
    pub open spec fn registers_written(&self, addr: u16, value: u8) -> PPU2 {
        let p = *self;
        let reg = addr % 8;
        if reg == 0 {
            PPU2 {
                t: ((p.t & 0xf3ff) | (((value % 4) as u16) << 10u16)) as u16,
                increment_down: (value / 4) % 2 == 1,
                sprite_pattern: if (value / 8) % 2 == 1 {
                    PatternTable::Offset
                } else {
                    PatternTable::Base
                },
                background_pattern: if (value / 16) % 2 == 1 {
                    PatternTable::Offset
                } else {
                    PatternTable::Base
                },
                double_height_sprites: (value / 32) % 2 == 1,
                nmi_enabled: value >= 0x80,
                ..p
            }
        } else if reg == 1 {
            PPU2 {
                greyscale: value % 2 == 1,
                show_left_bg: (value / 2) % 2 == 1,
                show_left_sprites: (value / 4) % 2 == 1,
                show_bg: (value / 8) % 2 == 1,
                show_sprites: (value / 16) % 2 == 1,
                emphasize_red: (value / 32) % 2 == 1,
                emphasize_green: (value / 64) % 2 == 1,
                emphasize_blue: value >= 0x80,
                ..p
            }
        } else if reg == 3 {
            PPU2 { oam_addr: value, ..p }
        } else if reg == 5 {
            if p.w == 0 {
                PPU2 { t: (p.t & 0xffe0) | ((value / 8) as u16), x: value % 8, w: 1, ..p }
            } else {
                PPU2 {
                    t: (p.t & 0x0c1f) | (((value % 8) as u16) << 12u16) | (((value / 8) as u16) << 5u16),
                    w: 0,
                    ..p
                }
            }
        } else if reg == 6 {
            if p.w == 0 {
                PPU2 { t: (p.t & 0xff) | (((value % 64) as u16) << 8u16), w: 1, ..p }
            } else {
                let t = (p.t & 0xff00) | (value as u16);
                PPU2 { t, v: t, w: 0, ..p }
            }
        } else {
            p
        }
    }

    pub open spec fn write_post(&self, addr: u16, value: u8, m: Mapper, after: PPU2, m_after: Mapper) -> bool {
        &&& (addr % 8 != 4 && addr % 8 != 7 ==> after == self.registers_written(addr, value)
        && m_after == m)
        &&& (addr % 8 == 4 ==> after.oam_addr == (self.oam_addr + 1) % 256
        && after.oam@ == self.oam@.update(self.oam_addr as int, value))
        &&& (addr % 8 == 7 ==> after.v == self.v_after_data())
        &&& (addr % 8 == 7 ==> {
        let a = (self.v % 0x4000) as u16;
        &&& 0x2000 <= a < 0x3f00 ==> {
            let n = if a >= 0x3000 { (a - 0x1000) as u16 } else { a };
            after.ciram@ == self.ciram@.update(
                ciram_index(m.mirror(n)),
                value,
            )
        }
        &&& a >= 0x3f00 ==> after.palette@ == self.palette@.update(
            palette_index(a),
            value,
        )
        &&& a < 0x2000 ==> m_after.chr().bytes() == if m.chr().is_ram() {
            m.chr().bytes().update(a as int, value)
        } else {
            m.chr().bytes()
        }
    })
    }

    /// Writes CPU-visible PPU register `addr % 8`.
    pub fn set_byte(&mut self, addr: u16, value: u8, mapper: &mut Mapper)
        requires
            old(self).wf(),
            old(mapper).wf(),
        ensures
            final(self).wf(),
            final(mapper).wf(),
            old(self).write_post(addr, value, *old(mapper), *final(self), *final(mapper)),
    {
        let reg = addr % 8;
        if reg == 4 {
            self.write_oam(value);
        } else if reg == 7 {
            self.write_data(value, mapper);
        } else {
            self.write_register(addr, value);
        }
    }

    fn write_register(&mut self, addr: u16, value: u8)
        requires
            old(self).wf(),
            addr % 8 != 4 && addr % 8 != 7,
        ensures
            *final(self) == old(self).registers_written(addr, value),
    {
        let reg = addr % 8;
        if reg == 0 {
            self.write_control(addr, value);
        } else if reg == 1 {
            self.write_mask(addr, value);
        } else if reg == 3 {
            self.oam_addr = value;
        } else if reg == 5 {
            self.write_scroll(addr, value);
        } else if reg == 6 {
            self.write_address(addr, value);
        }
    }

    fn write_control(&mut self, addr: u16, value: u8)
        requires
            addr % 8 == 0,
        ensures
            *final(self) == old(self).registers_written(addr, value),
    {
        self.t = (self.t & 0xf3ff) | (((value % 4) as u16) << 10u16);
        self.increment_down = (value / 4) % 2 == 1;
        self.sprite_pattern = if (value / 8) % 2 == 1 {
            PatternTable::Offset
        } else {
            PatternTable::Base
        };
        self.background_pattern = if (value / 16) % 2 == 1 {
            PatternTable::Offset
        } else {
            PatternTable::Base
        };
        self.double_height_sprites = (value / 32) % 2 == 1;
        self.nmi_enabled = value >= 0x80;
    }

    fn write_mask(&mut self, addr: u16, value: u8)
        requires
            addr % 8 == 1,
        ensures
            *final(self) == old(self).registers_written(addr, value),
    {
        self.greyscale = value % 2 == 1;
        self.show_left_bg = (value / 2) % 2 == 1;
        self.show_left_sprites = (value / 4) % 2 == 1;
        self.show_bg = (value / 8) % 2 == 1;
        self.show_sprites = (value / 16) % 2 == 1;
        self.emphasize_red = (value / 32) % 2 == 1;
        self.emphasize_green = (value / 64) % 2 == 1;
        self.emphasize_blue = value >= 0x80;
    }

    fn write_scroll(&mut self, addr: u16, value: u8)
        requires
            addr % 8 == 5,
        ensures
            *final(self) == old(self).registers_written(addr, value),
    {
        if self.w == 0 {
            self.t = (self.t & 0xffe0) | ((value / 8) as u16);
            self.x = value % 8;
            self.w = 1;
        } else {
            self.t = (self.t & 0x0c1f) | (((value % 8) as u16) << 12u16) | (((value / 8) as u16)
                << 5u16);
            self.w = 0;
        }
    }

    fn write_address(&mut self, addr: u16, value: u8)
        requires
            addr % 8 == 6,
        ensures
            *final(self) == old(self).registers_written(addr, value),
    {
        if self.w == 0 {
            self.t = (self.t & 0xff) | (((value % 64) as u16) << 8u16);
            self.w = 1;
        } else {
            self.t = (self.t & 0xff00) | (value as u16);
            self.v = self.t;
            self.w = 0;
        }
    }

    #[verifier::rlimit(100)]
    fn write_data(&mut self, value: u8, mapper: &mut Mapper)
        requires
            old(self).wf(),
            old(mapper).wf(),
        ensures
            final(self).wf(),
            final(mapper).wf(),
            final(self).v == old(self).v_after_data(),
            ({
                let a = (old(self).v % 0x4000) as u16;
                &&& 0x2000 <= a < 0x3f00 ==> {
                    let n = if a >= 0x3000 { (a - 0x1000) as u16 } else { a };
                    final(self).ciram@ == old(self).ciram@.update(
                        ciram_index(old(mapper).mirror(n)),
                        value,
                    )
                }
                &&& a >= 0x3f00 ==> final(self).palette@ == old(self).palette@.update(
                    palette_index(a),
                    value,
                )
                &&& a < 0x2000 ==> final(mapper).chr().bytes() == if old(mapper).chr().is_ram() {
                    old(mapper).chr().bytes().update(a as int, value)
                } else {
                    old(mapper).chr().bytes()
                }
            }),
    {
        let a = self.v % 0x4000;
        if a < 0x2000 {
            mapper.ppu_set_byte(a, value);
        } else if a < 0x3f00 {
            let n = if a >= 0x3000 { a - 0x1000 } else { a };
            let dest = mapper.ppu_get_mirrored_address(n);
            proof {
                lemma_mirror_in_ciram(*mapper, n);
            }
            let i = ((dest - 0x2000) % 0x400) as usize + if dest >= 0x2400 { 0x400 } else { 0 };
            self.ciram.set(i, value);
        } else {
            let i: usize = if a % 4 == 0 { 0 } else { (a % 32) as usize };
            self.palette.set(i, value);
        }
        self.v = self.v.wrapping_add(if self.increment_down { 32 } else { 1 });
    }

    /// The byte a PPUDATA read at `v` returns.
    pub open spec fn data_read(&self, m: Mapper) -> u8 {
        let a = (self.v % 0x4000) as u16;
        if a < 0x2000 {
            m.ppu_read(a)
        } else if a < 0x3f00 {
            let n = if a >= 0x3000 { (a - 0x1000) as u16 } else { a };
            self.ciram@[ciram_index(m.mirror(n))]
        } else {
            self.palette@[palette_index(a)]
        }
    }

    /// Reads CPU-visible PPU register `addr % 8`. PPUSTATUS clears VBlank and
    /// the write toggle; PPUDATA moves v on.
    pub fn get_byte(&mut self, addr: u16, mapper: &Mapper) -> (r: u8)
        requires
            old(self).wf(),
            mapper.wf(),
        ensures
            final(self).wf(),
            addr % 8 == 2 ==> r == old(self).status && *final(self) == (PPU2 {
                status: old(self).status % 0x80,
                w: 0,
                ..*old(self)
            }),
            addr % 8 == 4 ==> r == old(self).oam_byte(old(self).oam_addr) && *final(self) == *old(
                self,
            ),
            addr % 8 == 7 ==> r == old(self).data_read(*mapper) && *final(self) == (PPU2 {
                v: old(self).v_after_data(),
                ..*old(self)
            }),
            addr % 8 != 2 && addr % 8 != 4 && addr % 8 != 7 ==> r == 0 && *final(self) == *old(
                self,
            ),
    {
        let reg = addr % 8;
        if reg == 2 {
            let status = self.status;
            self.status = status % 0x80;
            self.w = 0;
            status
        } else if reg == 4 {
            self.oam[self.oam_addr as usize]
        } else if reg == 7 {
            let a = self.v % 0x4000;
            let r = if a < 0x2000 {
                mapper.ppu_get_byte(a)
            } else if a < 0x3f00 {
                let n = if a >= 0x3000 { a - 0x1000 } else { a };
                let dest = mapper.ppu_get_mirrored_address(n);
                proof {
                    lemma_mirror_in_ciram(*mapper, n);
                }
                self.ciram[((dest - 0x2000) % 0x400) as usize + if dest >= 0x2400 { 0x400 } else { 0 }]
            } else {
                self.palette[if a % 4 == 0 { 0 } else { (a % 32) as usize }]
            };
            self.v = self.v.wrapping_add(if self.increment_down { 32 } else { 1 });
            r
        } else {
            0
        }
    }

    /// `self` agrees with `o` on everything but the frame, the prepared
    /// sprite pixels, the fetch latches and the status flags.
    pub open spec fn same_registers(&self, o: PPU2) -> bool {
        &&& self.v == o.v && self.t == o.t && self.x == o.x && self.w == o.w
        &&& self.scanline == o.scanline && self.cycle == o.cycle
        &&& self.ciram == o.ciram && self.palette == o.palette
        &&& self.oam == o.oam && self.oam_addr == o.oam_addr
        &&& self.needs_interrupt == o.needs_interrupt && self.nmi_enabled == o.nmi_enabled
        &&& self.show_bg == o.show_bg && self.show_sprites == o.show_sprites
        &&& self.background_pattern == o.background_pattern
        &&& self.double_height_sprites == o.double_height_sprites
    }

    /// Whether background or sprites are drawn.
    pub open spec fn rendering(&self) -> bool {
        self.show_bg || self.show_sprites
    }

    /// v after the dot at the current beam position.
    pub open spec fn v_after_dot(&self) -> u16 {
        let c = self.cycle;
        if !self.rendering() {
            self.v
        } else if self.scanline < 240 && 1 <= c <= 256 && (c - 1) % 8 == 7 {
            let v1 = coarse_x_increment(self.v);
            if c == 256 { fine_y_increment(v1) } else { v1 }
        } else if self.scanline < 240 && c == 257 {
            copy_horizontal(self.v, self.t)
        } else if self.scanline == 261 && 280 <= c <= 304 {
            copy_vertical(self.v, self.t)
        } else {
            self.v
        }
    }

    /// Beam position after one dot.
    pub open spec fn next_position(&self) -> (u16, u16) {
        next_beam((self.scanline, self.cycle))
    }

    /// Advances one dot: fetches and draws on visible lines, updates v by the
    /// scroll rules, enters VBlank (raising NMI when enabled) at line 241 dot
    /// 1 and leaves it at line 261 dot 1.
    pub fn increment_clock(&mut self, mapper: &Mapper)
        requires
            old(self).wf(),
            mapper.wf(),
        ensures
            final(self).wf(),
            (final(self).scanline, final(self).cycle) == old(self).next_position(),
            final(self).v == old(self).v_after_dot(),
            final(self).t == old(self).t && final(self).x == old(self).x && final(self).w == old(self).w,
            final(self).ciram == old(self).ciram && final(self).palette == old(self).palette,
            final(self).oam == old(self).oam && final(self).oam_addr == old(self).oam_addr,
            old(self).scanline == 241 && old(self).cycle == 1 ==> final(self).status >= 0x80
                && final(self).needs_interrupt == (old(self).needs_interrupt || old(self).nmi_enabled),
            old(self).scanline == 261 && old(self).cycle == 1 ==> final(self).status == 0
                && !final(self).needs_interrupt,
            !(old(self).scanline == 241 && old(self).cycle == 1) && !(old(self).scanline == 261
                && old(self).cycle == 1) ==> (final(self).status >= 0x80) == (old(self).status
                >= 0x80) && final(self).needs_interrupt == old(self).needs_interrupt,
    {
        if self.scanline < 240 {
            self.visible_dot(mapper);
        } else {
            self.blank_dot();
        }
        self.cycle = self.cycle + 1;
        if self.cycle >= 341 {
            self.cycle = 0;
            self.scanline = self.scanline + 1;
            if self.scanline >= 262 {
                self.scanline = 0;
            }
        }
    }

    /// The work of one dot on a visible line.
    #[verifier::rlimit(100)]
    fn visible_dot(&mut self, mapper: &Mapper)
        requires
            old(self).wf(),
            mapper.wf(),
            old(self).scanline < 240,
        ensures
            final(self).wf(),
            final(self).v == old(self).v_after_dot(),
            final(self).same_registers(PPU2 { v: final(self).v, ..*old(self) }),
            (final(self).status >= 0x80) == (old(self).status >= 0x80),
    {
        if 1 <= self.cycle && self.cycle <= 256 {
            if self.show_bg || self.show_sprites {
                let draw_cycle = self.cycle - 1;
                let step = draw_cycle % 8;
                self.load_tile_data((step / 2) as u8, mapper);
                if step == 7 {
                    self.draw_tile(draw_cycle);
                    let v1 = if self.v & 0x1f == 0x1f {
                        (self.v & !0x1fu16) ^ 0x400
                    } else {
                        self.v.wrapping_add(1)
                    };
                    self.v = if self.cycle == 256 { PPU2::next_fine_y(v1) } else { v1 };
                }
            }
        } else if self.cycle == 257 {
            if self.show_bg || self.show_sprites {
                self.v = (self.v & !0x41fu16) | (self.t & 0x41f);
            }
        } else if self.cycle == 320 {
            if self.show_sprites {
                self.copy_to_secondary_oam(mapper);
            }
        }
    }

    /// The work of one dot outside the visible lines.
    #[verifier::rlimit(100)]
    fn blank_dot(&mut self)
        requires
            old(self).wf(),
            old(self).scanline >= 240,
        ensures
            final(self).wf(),
            final(self).v == old(self).v_after_dot(),
            final(self).t == old(self).t && final(self).x == old(self).x && final(self).w == old(self).w,
            final(self).scanline == old(self).scanline && final(self).cycle == old(self).cycle,
            final(self).ciram == old(self).ciram && final(self).palette == old(self).palette,
            final(self).oam == old(self).oam && final(self).oam_addr == old(self).oam_addr,
            old(self).scanline == 241 && old(self).cycle == 1 ==> final(self).status >= 0x80
                && final(self).needs_interrupt == (old(self).needs_interrupt || old(self).nmi_enabled),
            old(self).scanline == 261 && old(self).cycle == 1 ==> final(self).status == 0
                && !final(self).needs_interrupt,
            !(old(self).scanline == 241 && old(self).cycle == 1) && !(old(self).scanline == 261
                && old(self).cycle == 1) ==> final(self).status == old(self).status
                && final(self).needs_interrupt == old(self).needs_interrupt,
    {
        if self.scanline == 241 && self.cycle == 1 {
            self.status = self.status % 0x80 + 0x80;
            if self.nmi_enabled {
                self.needs_interrupt = true;
            }
        } else if self.scanline == 261 {
            if self.cycle == 1 {
                self.status = 0;
                self.needs_interrupt = false;
                self.clear_sprite_line();
            }
            if 280 <= self.cycle && self.cycle <= 304 {
                if self.show_bg || self.show_sprites {
                    self.v = (self.v & !0x7be0u16) | (self.t & 0x7be0);
                }
            }
        }
    }

    fn next_fine_y(v: u16) -> (r: u16)
        ensures
            r == fine_y_increment(v),
    {
        if v & 0x7000 != 0x7000 {
            v.wrapping_add(0x1000)
        } else {
            let w = v & !0x7000u16;
            let y = (w & 0x3e0) >> 5u16;
            if y == 29 {
                (w & !0x3e0u16) ^ 0x800
            } else if y == 31 {
                w & !0x3e0u16
            } else {
                assert(y < 31) by (bit_vector)
                    requires
                        y == (w & 0x3e0) >> 5u16,
                        y != 31,
                ;
                (w & !0x3e0u16) | ((y + 1) << 5u16)
            }
        }
    }

    /// Fetches one of the four bytes of the next background tile.
    fn load_tile_data(&mut self, step: u8, mapper: &Mapper)
        requires
            old(self).wf(),
            mapper.wf(),
        ensures
            final(self).wf(),
            final(self).same_registers(*old(self)),
            final(self).status == old(self).status,
    {
        let v = self.v;
        if step == 0 {
            let n = 0x2000 + v % 0x1000;
            let dest = mapper.ppu_get_mirrored_address(n);
            proof {
                lemma_mirror_in_ciram(*mapper, n);
            }
            self.read_nametable = self.ciram[((dest - 0x2000) % 0x400) as usize + if dest >= 0x2400 {
                0x400
            } else {
                0
            }];
        } else if step == 1 {
            let n = 0x23c0 + (v / 0x400 % 4) * 0x400 + (v / 0x80 % 8) * 8 + (v / 4 % 8);
            let dest = mapper.ppu_get_mirrored_address(n);
            proof {
                lemma_mirror_in_ciram(*mapper, n);
            }
            self.read_attribute = self.ciram[((dest - 0x2000) % 0x400) as usize + if dest >= 0x2400 {
                0x400
            } else {
                0
            }];
        } else if step == 2 || step == 3 {
            let fine_y = v / 0x1000 % 8;
            let base: u16 = if self.background_pattern == PatternTable::Base { 0 } else { 0x1000 };
            let addr = base + (self.read_nametable as u16) * 16 + fine_y + if step == 3 { 8 } else { 0 };
            if step == 2 {
                self.read_bitmap_low = mapper.ppu_get_byte(addr);
            } else {
                self.read_bitmap_high = mapper.ppu_get_byte(addr);
            }
        }
    }

    /// Colour of palette entry `entry` (1..3) of 3-colour palette `pal`
    /// (0..3 background, 4..7 sprites); entry 0 is the background colour.
    fn palette_color(&self, pal: u8, entry: u8) -> (r: u8)
        requires
            self.wf(),
            pal < 8,
            entry < 4,
    {
        if entry == 0 {
            self.palette[0]
        } else {
            self.palette[(pal * 4 + entry) as usize]
        }
    }

    /// Draws the eight pixels of the tile just fetched, compositing the
    /// prepared sprite pixels and recording a sprite 0 hit.
    fn draw_tile(&mut self, draw_cycle: u16)
        requires
            old(self).wf(),
            old(self).scanline < 240,
            7 <= draw_cycle < 256,
        ensures
            final(self).wf(),
            final(self).same_registers(*old(self)),
            (final(self).status >= 0x80) == (old(self).status >= 0x80),
    {
        let mut attr = self.read_attribute;
        if (self.v / 2) % 2 == 1 {
            attr = attr / 4;
        }
        if (self.v / 0x40) % 2 == 1 {
            attr = attr / 16;
        }
        let pal = attr % 4;
        let mut i: u16 = 0;
        while i < 8
            invariant
                self.wf(),
                i <= 8,
                self.scanline < 240,
                7 <= draw_cycle < 256,
                pal < 4,
                self.same_registers(*old(self)),
                (self.status >= 0x80) == (old(self).status >= 0x80),
            decreases 8 - i,
        {
            let x = draw_cycle - 7 + i;
            let at = (self.scanline as usize) * 256 + x as usize;
            let mut sprite_px: u8 = 0;
            let mut sprite_front = false;
            let mut sprite_index: u8 = 0xff;
            if self.show_sprites {
                let px = self.sprite_line[x as usize];
                sprite_index = px.index;
                sprite_front = (px.pixel / 0x10) % 2 == 0;
                if px.index != 0xff && px.pixel % 4 != 0 {
                    sprite_px = px.pixel % 4;
                    let color = self.palette_color(4 + (px.pixel / 4) % 4, sprite_px);
                    self.buffer.set(at, color);
                }
            }
            let mut bg_px: u8 = 0;
            if self.show_bg {
                let shift = (7 - i) as u8;
                let high = (self.read_bitmap_high >> shift) % 2;
                let low = (self.read_bitmap_low >> shift) % 2;
                bg_px = high * 2 + low;
                if sprite_index == 0 && sprite_px != 0 && bg_px != 0 && 1 <= x && x < 255 {
                    if (self.status / 0x40) % 2 == 0 {
                        self.status = self.status + 0x40;
                    }
                }
            }
            if sprite_px == 0 || (!sprite_front && bg_px > 0) {
                let color = self.palette_color(pal, bg_px);
                self.buffer.set(at, color);
            }
            i += 1;
        }
    }

    /// Sprite `index` decoded from its four OAM bytes.
    pub fn sprite_at(&self, index: usize) -> (r: Sprite)
        requires
            self.wf(),
            index < 64,
        ensures
            r.wf(),
            r.y_position == self.oam@[4 * index as int],
            r.tile_index == self.oam@[4 * index as int + 1],
            r.x_position == self.oam@[4 * index as int + 3],
            r.oam_byte(2) == self.oam@[4 * index as int + 2] % 4 + (self.oam@[4 * index as int + 2]
                / 0x20) % 8 * 0x20,
    {
        let mut s = Sprite::new();
        s.set_oam_byte(0, self.oam[4 * index]);
        s.set_oam_byte(1, self.oam[4 * index + 1]);
        s.set_oam_byte(2, self.oam[4 * index + 2]);
        s.set_oam_byte(3, self.oam[4 * index + 3]);
        s
    }

    /// Empties the prepared sprite pixels.
    fn clear_sprite_line(&mut self)
        requires
            old(self).wf(),
        ensures
            final(self).wf(),
            final(self).same_registers(*old(self)),
            final(self).status == old(self).status,
    {
        let mut i: usize = 0;
        while i < 256
            invariant
                i <= 256,
                self.wf(),
                self.same_registers(*old(self)),
                self.status == old(self).status,
            decreases 256 - i,
        {
            self.sprite_line.set(i, SpritePixel { index: 0xff, pixel: 0xff });
            i += 1;
        }
    }

    /// Sprite evaluation: renders the first eight sprites whose rows cover
    /// the current line into the prepared sprite pixels, and sets the
    /// overflow flag when more qualify.
    fn copy_to_secondary_oam(&mut self, mapper: &Mapper)
        requires
            old(self).wf(),
            mapper.wf(),
        ensures
            final(self).wf(),
            final(self).same_registers(*old(self)),
            (final(self).status >= 0x80) == (old(self).status >= 0x80),
    {
        self.clear_sprite_line();
        let height: u16 = if self.double_height_sprites { 16 } else { 8 };
        let mut found: u8 = 0;
        let mut index: usize = 0;
        while index < 64
            invariant
                self.wf(),
                index <= 64,
                height == 8 || height == 16,
                mapper.wf(),
                self.same_registers(*old(self)),
                (self.status >= 0x80) == (old(self).status >= 0x80),
            decreases 64 - index,
        {
            let sprite = self.sprite_at(index);
            let ypos = sprite.y_position as u16;
            if ypos <= self.scanline && self.scanline - ypos < height {
                let mut offset = self.scanline - ypos;
                if sprite.flip_vertical {
                    offset = height - offset - 1;
                }
                if found < 8 {
                    let bank: u16 = if sprite.tile_index % 2 == 1 { 0x1000 } else { 0 };
                    let mut addr = bank + (sprite.tile_index as u16 / 2 * 2) * 16 + offset % 8;
                    if offset >= 8 {
                        addr = addr + 16;
                    }
                    let tile_low = mapper.ppu_get_byte(addr);
                    let tile_high = mapper.ppu_get_byte(addr + 8);
                    let mut i: usize = 0;
                    while i < 8
                        invariant
                            self.wf(),
                            i <= 8,
                            index < 64,
                            self.same_registers(*old(self)),
                            (self.status >= 0x80) == (old(self).status >= 0x80),
                        decreases 8 - i,
                    {
                        let px = i + sprite.x_position as usize;
                        if px < 256 && self.sprite_line[px].index == 0xff {
                            let shift: u8 = if sprite.flip_horizontal { i as u8 } else { (7 - i) as u8 };
                            let low = (tile_low >> shift) % 2;
                            let high = (tile_high >> shift) % 2;
                            let priority: u8 = if sprite.has_bg_priority { 0 } else { 0x10 };
                            let pixel = priority + (sprite.palette % 4) * 4 + high * 2 + low;
                            self.sprite_line.set(px, SpritePixel { index: index as u8, pixel });
                        }
                        i += 1;
                    }
                    found = found + 1;
                } else if (self.status / 0x20) % 2 == 0 {
                    self.status = self.status + 0x20;
                }
            }
            index += 1;
        }
    }

    /// Whether the beam is in vertical blank.
    pub fn in_vblank(&self) -> (r: bool)
        ensures
            r == (self.scanline >= 241),
    {
        self.scanline >= 241
    }

    /// Takes the pending NMI request, if any.
    pub fn should_interrupt(&mut self) -> (r: bool)
        ensures
            r == old(self).needs_interrupt,
            *final(self) == (PPU2 { needs_interrupt: false, ..*old(self) }),
    {
        let r = self.needs_interrupt;
        self.needs_interrupt = false;
        r
    }

    /// The frame: 256 x 240 palette indices, row by row.
    pub fn buffer_ptr(&self) -> (r: &[u8])
        ensures
            r@ == self.buffer@,
    {
        self.buffer.as_slice()
    }
}

} // verus!
