use vstd::prelude::*;

verus! {

/// One of the 64 sprites of the PPU's object attribute memory.
#[derive(Clone, Copy, PartialEq, Eq, Structural, Debug)]
pub struct Sprite {
    pub y_position: u8,
    pub x_position: u8,
    pub tile_index: u8,
    /// Sprite palette, 0..3.
    pub palette: u8,
    pub flip_horizontal: bool,
    pub flip_vertical: bool,
    /// Drawn in front of the background.
    pub has_bg_priority: bool,
}

/// OAM byte 2 of a sprite: palette in bits 0-1, behind-background in bit 5,
/// horizontal flip in bit 6, vertical flip in bit 7.
pub open spec fn attribute_byte(s: Sprite) -> u8 {
    (s.palette + if s.has_bg_priority { 0int } else { 0x20 } + if s.flip_horizontal {
        0x40int
    } else {
        0
    } + if s.flip_vertical { 0x80int } else { 0 }) as u8
}

impl Sprite {
    pub open spec fn wf(&self) -> bool {
        self.palette < 4
    }

    /// The byte at offset `addr` (0..3) of this sprite's OAM entry.
    pub open spec fn oam_byte(&self, addr: u8) -> u8 {
        if addr == 0 {
            self.y_position
        } else if addr == 1 {
            self.tile_index
        } else if addr == 2 {
            attribute_byte(*self)
        } else if addr == 3 {
            self.x_position
        } else {
            0
        }
    }

    /// A sprite parked below the screen.
    pub fn new() -> (r: Sprite)
        ensures
            r.wf(),
            r == (Sprite {
                y_position: 0xff,
                x_position: 0,
                tile_index: 0,
                palette: 0,
                flip_horizontal: false,
                flip_vertical: false,
                has_bg_priority: true,
            }),
    {
        Sprite {
            y_position: 0xff,
            x_position: 0,
            tile_index: 0,
            palette: 0,
            flip_horizontal: false,
            flip_vertical: false,
            has_bg_priority: true,
        }
    }

    /// Writes byte `addr` (0..3) of the OAM entry.
    pub fn set_oam_byte(&mut self, addr: u8, value: u8)
        requires
            old(self).wf(),
        ensures
            final(self).wf(),
            addr == 0 ==> *final(self) == (Sprite { y_position: value, ..*old(self) }),
            addr == 1 ==> *final(self) == (Sprite { tile_index: value, ..*old(self) }),
            addr == 2 ==> *final(self) == (Sprite {
                palette: value % 4,
                has_bg_priority: (value / 0x20) % 2 == 0,
                flip_horizontal: (value / 0x40) % 2 == 1,
                flip_vertical: value >= 0x80,
                ..*old(self)
            }),
            addr == 3 ==> *final(self) == (Sprite { x_position: value, ..*old(self) }),
            addr > 3 ==> *final(self) == *old(self),
            addr < 4 ==> final(self).oam_byte(addr) == if addr == 2 {
                value % 4 + (value / 0x20) % 8 * 0x20
            } else {
                value as int
            },
    {
        if addr == 0 {
            self.y_position = value;
        } else if addr == 1 {
            self.tile_index = value;
        } else if addr == 2 {
            self.palette = value % 4;
            self.has_bg_priority = (value / 0x20) % 2 == 0;
            self.flip_horizontal = (value / 0x40) % 2 == 1;
            self.flip_vertical = value >= 0x80;
        } else if addr == 3 {
            self.x_position = value;
        }
    }

    /// Reads byte `addr` (0..3) of the OAM entry; 0 beyond.
    pub fn get_oam_byte(&self, addr: u8) -> (r: u8)
        requires
            self.wf(),
        ensures
            r == self.oam_byte(addr),
    {
        if addr == 0 {
            self.y_position
        } else if addr == 1 {
            self.tile_index
        } else if addr == 2 {
            let priority_bit: u8 = if self.has_bg_priority { 0 } else { 0x20 };
            let flip_horiz_bit: u8 = if self.flip_horizontal { 0x40 } else { 0 };
            let flip_vert_bit: u8 = if self.flip_vertical { 0x80 } else { 0 };
            self.palette + priority_bit + flip_horiz_bit + flip_vert_bit
        } else if addr == 3 {
            self.x_position
        } else {
            0
        }
    }
}

} // verus!
