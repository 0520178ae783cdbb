use vstd::prelude::*;

verus! {

/// One of the VIC-II's eight hardware sprites.
#[derive(Clone, Copy, PartialEq, Eq, Structural, Debug)]
pub struct Sprite {
    /// Horizontal position, 9 bits.
    pub x: u16,
    pub y: u8,
    pub color: u8,
    pub enabled: bool,
    pub double_height: bool,
    pub double_width: bool,
}

impl Sprite {
    /// A disabled sprite at the origin.
    pub fn new() -> (r: Sprite)
        ensures
            r == (Sprite {
                x: 0,
                y: 0,
                color: 0,
                enabled: false,
                double_height: false,
                double_width: false,
            }),
    {
        Sprite { x: 0, y: 0, color: 0, enabled: false, double_height: false, double_width: false }
    }

    /// Replaces the low eight bits of X.
    pub fn set_x_low(&mut self, low: u8)
        ensures
            *final(self) == (Sprite { x: (old(self).x / 256 % 2 * 256 + low) as u16, ..*old(self) }),
    {
        self.x = self.x / 256 % 2 * 256 + low as u16;
    }

    /// Sets bit 8 of X when `high` is non-zero, clears it otherwise.
    pub fn set_x_high(&mut self, high: u8)
        ensures
            *final(self) == (Sprite {
                x: (old(self).x % 256 + if high != 0 { 256int } else { 0 }) as u16,
                ..*old(self)
            }),
    {
        self.x = self.x % 256 + if high != 0 { 256 } else { 0 };
    }

    pub fn set_y(&mut self, y: u8)
        ensures
            *final(self) == (Sprite { y, ..*old(self) }),
    {
        self.y = y;
    }
}

/// Rows of the text screen.
#[derive(Clone, Copy, PartialEq, Eq, Structural, Debug)]
pub enum ScreenHeight {
    TwentyFour,
    TwentyFive,
}

/// Columns of the text screen.
#[derive(Clone, Copy, PartialEq, Eq, Structural, Debug)]
pub enum ScreenWidth {
    ThirtyEight,
    Forty,
}

#[derive(Clone, Copy, PartialEq, Eq, Structural, Debug)]
pub enum Mode {
    Text,
    Bitmap,
}

/// Graphics mode from the ECM, BMM and MCM bits.
#[derive(Clone, Copy, PartialEq, Eq, Structural, Debug)]
pub enum DerivedGraphicsMode {
    StandardCharMode,
    MulticolorCharMode,
    StandardBitmapMode,
    MulticolorBitmapMode,
    ExtendedBackgroundColorMode,
    Invalid,
}

/// A per-sprite flag that one register packs, one bit per sprite.
#[derive(Clone, Copy, PartialEq, Eq, Structural, Debug)]
pub enum SpriteBit {
    XHigh,
    Enabled,
    DoubleHeight,
    DoubleWidth,
}

pub open spec fn sprite_flag(s: Sprite, which: SpriteBit) -> bool {
    match which {
        SpriteBit::XHigh => s.x >= 256,
        SpriteBit::Enabled => s.enabled,
        SpriteBit::DoubleHeight => s.double_height,
        SpriteBit::DoubleWidth => s.double_width,
    }
}

/// Register value packing `which` for the first `n` sprites, sprite i in bit i.
pub open spec fn packed(sprites: Seq<Sprite>, which: SpriteBit, n: nat) -> int
    decreases n,
{
    if n == 0 {
        0
    } else {
        packed(sprites, which, (n - 1) as nat) + if sprite_flag(sprites[n - 1], which) {
            pow2((n - 1) as nat)
        } else {
            0
        }
    }
}

pub open spec fn pow2(n: nat) -> int
    decreases n,
{
    if n == 0 { 1 } else { 2 * pow2((n - 1) as nat) }
}

/// Bit `i` of `value`.
pub open spec fn nth_bit(value: u8, i: nat) -> bool
    decreases i,
{
    if i == 0 { value % 2 == 1 } else { nth_bit(value / 2, (i - 1) as nat) }
}

proof fn lemma_packed_bound(sprites: Seq<Sprite>, which: SpriteBit, n: nat)
    ensures
        0 <= packed(sprites, which, n) < pow2(n),
    decreases n,
{
    if n > 0 {
        lemma_packed_bound(sprites, which, (n - 1) as nat);
    }
}

/// The VIC-II video chip's register file.
pub struct VIC {
    pub sprites: Vec<Sprite>,
    pub vertical_scroll: u8,
    pub screen_height: ScreenHeight,
    pub mode: Mode,
    pub screen_on: bool,
    pub extended_bg: bool,
    pub raster_interrupt_line: u16,
    pub current_raster_line: u16,
    pub horizontal_scroll: u8,
    pub screen_width: ScreenWidth,
    pub multicolor: bool,
    pub border_color: u8,
    pub background_color: u8,
    pub background_color_e1: u8,
    pub background_color_e2: u8,
    pub background_color_e3: u8,
    pub sprite_color_e1: u8,
    pub sprite_color_e2: u8,
}

/// A sprite after a write of its X low byte (even `addr`) or Y (odd `addr`).
pub open spec fn position_written(sp: Sprite, addr: u16, value: u8) -> Sprite {
    if addr % 2 == 0 {
        Sprite { x: (sp.x / 256 % 2 * 256 + value) as u16, ..sp }
    } else {
        Sprite { y: value, ..sp }
    }
}

pub open spec fn flag_value(on: bool, v: int) -> int {
    if on { v } else { 0 }
}

impl VIC {
    pub open spec fn wf(&self) -> bool {
        &&& self.sprites@.len() == 8
        &&& self.vertical_scroll < 8
        &&& self.horizontal_scroll < 8
        &&& self.current_raster_line < 0x200
    }

    /// Graphics mode bits: MCM in bit 0, BMM in bit 1, ECM in bit 2.
    pub open spec fn mode_bits(&self) -> u8 {
        (flag_value(self.multicolor, 1) + flag_value(self.mode == Mode::Bitmap, 2) + flag_value(
            self.extended_bg,
            4,
        )) as u8
    }

    /// The byte a read of register `addr` returns.
    pub open spec fn read(&self, addr: u16) -> u8 {
        let s = self.sprites@;
        if addr < 0x10 {
            let sp = s[addr as int / 2];
            if addr % 2 == 0 { (sp.x % 256) as u8 } else { sp.y }
        } else if addr == 0x10 {
            packed(s, SpriteBit::XHigh, 8) as u8
        } else if addr == 0x11 {
            (self.vertical_scroll + flag_value(self.screen_height == ScreenHeight::TwentyFive, 0x08)
                + flag_value(self.screen_on, 0x10) + flag_value(self.mode == Mode::Bitmap, 0x20)
                + flag_value(self.extended_bg, 0x40) + flag_value(
                self.current_raster_line >= 0x100,
                0x80,
            )) as u8
        } else if addr == 0x12 {
            (self.current_raster_line % 256) as u8
        } else if addr == 0x15 {
            packed(s, SpriteBit::Enabled, 8) as u8
        } else if addr == 0x16 {
            (0xc0 + self.horizontal_scroll + flag_value(self.screen_width == ScreenWidth::Forty, 0x08)
                + flag_value(self.multicolor, 0x10)) as u8
        } else if addr == 0x17 {
            packed(s, SpriteBit::DoubleHeight, 8) as u8
        } else if addr == 0x19 {
            if self.current_raster_line == self.raster_interrupt_line { 1 } else { 0 }
        } else if addr == 0x1d {
            packed(s, SpriteBit::DoubleWidth, 8) as u8
        } else if addr == 0x20 {
            self.border_color % 16
        } else if addr == 0x21 {
            self.background_color % 16
        } else if addr == 0x22 {
            self.background_color_e1 % 16
        } else if addr == 0x23 {
            self.background_color_e2 % 16
        } else if addr == 0x24 {
            self.background_color_e3 % 16
        } else if addr == 0x25 {
            self.sprite_color_e1 % 16
        } else if addr == 0x26 {
            self.sprite_color_e2 % 16
        } else if 0x27 <= addr < 0x2f {
            s[addr as int - 0x27].color % 16
        } else {
            0
        }
    }

    /// Power-on registers: text mode, 24 rows, 40 columns, screen on.
    pub fn new() -> (r: VIC)
        ensures
            r.wf(),
            forall|i: int| 0 <= i < 8 ==> r.sprites@[i] == Sprite::new_spec(),
            r.vertical_scroll == 3 && r.screen_height == ScreenHeight::TwentyFour,
            r.mode == Mode::Text && r.screen_on && !r.extended_bg && !r.multicolor,
            r.screen_width == ScreenWidth::Forty && r.horizontal_scroll == 0,
            r.raster_interrupt_line == 0 && r.current_raster_line == 0,
            r.border_color == 0 && r.background_color == 0,
    {
        let mut sprites: Vec<Sprite> = Vec::new();
        let mut i: usize = 0;
        while i < 8
            invariant
                i <= 8,
                sprites@.len() == i,
                forall|j: int| 0 <= j < i ==> sprites@[j] == Sprite::new_spec(),
            decreases 8 - i,
        {
            sprites.push(Sprite::new());
            i += 1;
        }
        VIC {
            sprites,
            vertical_scroll: 3,
            screen_height: ScreenHeight::TwentyFour,
            mode: Mode::Text,
            screen_on: true,
            extended_bg: false,
            raster_interrupt_line: 0,
            current_raster_line: 0,
            horizontal_scroll: 0,
            screen_width: ScreenWidth::Forty,
            multicolor: false,
            border_color: 0,
            background_color: 0,
            background_color_e1: 0,
            background_color_e2: 0,
            background_color_e3: 0,
            sprite_color_e1: 0,
            sprite_color_e2: 0,
        }
    }

    fn pack(&self, which: SpriteBit) -> (r: u8)
        requires
            self.wf(),
        ensures
            r == packed(self.sprites@, which, 8),
    {
        let mut acc: u8 = 0;
        let mut weight: u16 = 1;
        let mut i: usize = 0;
        while i < 8
            invariant
                self.wf(),
                i <= 8,
                acc == packed(self.sprites@, which, i as nat),
                weight == pow2(i as nat),
            decreases 8 - i,
        {
            proof {
                lemma_packed_bound(self.sprites@, which, (i + 1) as nat);
                reveal_with_fuel(pow2, 9);
            }
            let s = self.sprites[i];
            let on = match which {
                SpriteBit::XHigh => s.x >= 256,
                SpriteBit::Enabled => s.enabled,
                SpriteBit::DoubleHeight => s.double_height,
                SpriteBit::DoubleWidth => s.double_width,
            };
            if on {
                acc = acc + weight as u8;
            }
            weight = weight * 2;
            i += 1;
        }
        acc
    }

    fn unpack(&mut self, which: SpriteBit, value: u8)
        requires
            old(self).wf(),
        ensures
            final(self).wf(),
            *final(self) == (VIC { sprites: final(self).sprites, ..*old(self) }),
            forall|i: int|
                0 <= i < 8 ==> #[trigger] final(self).sprites@[i] == Sprite::with_flag(
                    old(self).sprites@[i],
                    which,
                    nth_bit(value, i as nat),
                ),
    {
        let mut v = value;
        let mut i: usize = 0;
        while i < 8
            invariant
                self.wf(),
                i <= 8,
                *self == (VIC { sprites: self.sprites, ..*old(self) }),
                forall|k: nat| #[trigger] nth_bit(v, k) == nth_bit(value, k + i as nat),
                forall|j: int|
                    0 <= j < 8 ==> #[trigger] self.sprites@[j] == if j < i {
                        Sprite::with_flag(old(self).sprites@[j], which, nth_bit(value, j as nat))
                    } else {
                        old(self).sprites@[j]
                    },
            decreases 8 - i,
        {
            let on = v % 2 == 1;
            proof {
                assert(nth_bit(v, 0) == on);
                assert forall|k: nat| #[trigger] nth_bit(v / 2, k) == nth_bit(value, k + (i + 1) as nat) by {
                    assert(nth_bit(v, k + 1) == nth_bit(v / 2, k));
                    assert(nth_bit(v, k + 1) == nth_bit(value, (k + 1) + i as nat));
                }
            }
            let mut s = self.sprites[i];
            match which {
                SpriteBit::XHigh => s.set_x_high(if on { 1 } else { 0 }),
                SpriteBit::Enabled => s.enabled = on,
                SpriteBit::DoubleHeight => s.double_height = on,
                SpriteBit::DoubleWidth => s.double_width = on,
            }
            self.sprites.set(i, s);
            v = v / 2;
            i += 1;
        }
    }

    /// Reads register `addr` (0x00..0x2E); unused registers read 0.
    pub fn get_byte(&self, addr: u16) -> (r: u8)
        requires
            self.wf(),
        ensures
            r == self.read(addr),
    {
        if addr < 0x10 {
            let sp = self.sprites[(addr / 2) as usize];
            if addr % 2 == 0 {
                (sp.x % 256) as u8
            } else {
                sp.y
            }
        } else if addr == 0x10 {
            self.pack(SpriteBit::XHigh)
        } else if addr == 0x11 {
            let mut register = self.vertical_scroll;
            if self.screen_height == ScreenHeight::TwentyFive {
                register = register + 0x08;
            }
            if self.screen_on {
                register = register + 0x10;
            }
            if self.mode == Mode::Bitmap {
                register = register + 0x20;
            }
            if self.extended_bg {
                register = register + 0x40;
            }
            if self.current_raster_line >= 0x100 {
                register = register + 0x80;
            }
            register
        } else if addr == 0x12 {
            (self.current_raster_line % 256) as u8
        } else if addr == 0x15 {
            self.pack(SpriteBit::Enabled)
        } else if addr == 0x16 {
            let mut register = 0xc0 + self.horizontal_scroll;
            if self.screen_width == ScreenWidth::Forty {
                register = register + 0x08;
            }
            if self.multicolor {
                register = register + 0x10;
            }
            register
        } else if addr == 0x17 {
            self.pack(SpriteBit::DoubleHeight)
        } else if addr == 0x19 {
            if self.current_raster_line == self.raster_interrupt_line {
                1
            } else {
                0
            }
        } else if addr == 0x1d {
            self.pack(SpriteBit::DoubleWidth)
        } else if addr == 0x20 {
            self.border_color % 16
        } else if addr == 0x21 {
            self.background_color % 16
        } else if addr == 0x22 {
            self.background_color_e1 % 16
        } else if addr == 0x23 {
            self.background_color_e2 % 16
        } else if addr == 0x24 {
            self.background_color_e3 % 16
        } else if addr == 0x25 {
            self.sprite_color_e1 % 16
        } else if addr == 0x26 {
            self.sprite_color_e2 % 16
        } else if 0x27 <= addr && addr < 0x2f {
            self.sprites[(addr - 0x27) as usize].color % 16
        } else {
            0
        }
    }

    pub open spec fn write_post(&self, addr: u16, value: u8, after: VIC) -> bool {
        &&& (addr < 0x10 ==> after == (VIC { sprites: after.sprites, ..*self })
        && after.sprites@ == self.sprites@.update(
        addr as int / 2,
        position_written(self.sprites@[addr as int / 2], addr, value)))
        &&& (addr == 0x10 ==> after.sprite_bits_set(*self, SpriteBit::XHigh, value))
        &&& (addr == 0x15 ==> after.sprite_bits_set(*self, SpriteBit::Enabled, value))
        &&& (addr == 0x17 ==> after.sprite_bits_set(*self, SpriteBit::DoubleHeight, value))
        &&& (addr == 0x1d ==> after.sprite_bits_set(*self, SpriteBit::DoubleWidth, value))
        &&& (addr == 0x11 ==> after == (VIC {
        vertical_scroll: value % 8,
        screen_height: if (value / 8) % 2 == 0 {
            ScreenHeight::TwentyFour
        } else {
            ScreenHeight::TwentyFive
        },
        screen_on: (value / 0x10) % 2 == 1,
        mode: if (value / 0x20) % 2 == 0 { Mode::Text } else { Mode::Bitmap },
        extended_bg: (value / 0x40) % 2 == 1,
        raster_interrupt_line: (self.raster_interrupt_line % 256 + if value >= 0x80 {
            256int
        } else {
            0
        }) as u16,
        ..*self
        }))
        &&& (addr == 0x12 ==> after == (VIC {
        raster_interrupt_line: (self.raster_interrupt_line / 256 * 256 + value) as u16,
        ..*self
        }))
        &&& (addr == 0x16 ==> after == (VIC {
        horizontal_scroll: value % 8,
        screen_width: if (value / 8) % 2 == 0 {
            ScreenWidth::ThirtyEight
        } else {
            ScreenWidth::Forty
        },
        multicolor: (value / 0x10) % 2 == 1,
        ..*self
        }))
        &&& (addr == 0x20 ==> after == (VIC { border_color: value % 16, ..*self }))
        &&& (addr == 0x21 ==> after == (VIC { background_color: value % 16, ..*self }))
        &&& (addr == 0x22 ==> after == (VIC { background_color_e1: value % 16, ..*self }))
        &&& (addr == 0x23 ==> after == (VIC { background_color_e2: value % 16, ..*self }))
        &&& (addr == 0x24 ==> after == (VIC { background_color_e3: value % 16, ..*self }))
        &&& (addr == 0x25 ==> after == (VIC { sprite_color_e1: value % 16, ..*self }))
        &&& (addr == 0x26 ==> after == (VIC { sprite_color_e2: value % 16, ..*self }))
        &&& (0x27 <= addr < 0x2f ==> after == (VIC {
        sprites: after.sprites,
        ..*self
        }) && after.sprites@ == self.sprites@.update(
        addr - 0x27,
        Sprite { color: value % 16, ..self.sprites@[addr as int - 0x27] }))
        &&& ((0x13 <= addr < 0x15 || 0x18 <= addr < 0x1d || 0x1e <= addr < 0x20 || addr >= 0x2f)
        ==> after == *self)
    }

    /// Writes register `addr` (0x00..0x2E); colours keep their low nybble.
    pub fn set_byte(&mut self, addr: u16, value: u8)
        requires
            old(self).wf(),
        ensures
            final(self).wf(),
            old(self).write_post(addr, value, *final(self)),
    {
        if addr < 0x10 {
            let i = (addr / 2) as usize;
            let mut sp = self.sprites[i];
            if addr % 2 == 0 {
                sp.set_x_low(value);
            } else {
                sp.set_y(value);
            }
            self.sprites.set(i, sp);
        } else if addr == 0x10 {
            self.unpack(SpriteBit::XHigh, value);
        } else if addr == 0x11 {
            self.vertical_scroll = value % 8;
            self.screen_height = if (value / 8) % 2 == 0 {
                ScreenHeight::TwentyFour
            } else {
                ScreenHeight::TwentyFive
            };
            self.screen_on = (value / 0x10) % 2 == 1;
            self.mode = if (value / 0x20) % 2 == 0 { Mode::Text } else { Mode::Bitmap };
            self.extended_bg = (value / 0x40) % 2 == 1;
            self.raster_interrupt_line = self.raster_interrupt_line % 256 + if value >= 0x80 {
                256
            } else {
                0
            };
        } else if addr == 0x12 {
            self.raster_interrupt_line = self.raster_interrupt_line / 256 * 256 + value as u16;
        } else if addr == 0x15 {
            self.unpack(SpriteBit::Enabled, value);
        } else if addr == 0x16 {
            self.horizontal_scroll = value % 8;
            self.screen_width = if (value / 8) % 2 == 0 {
                ScreenWidth::ThirtyEight
            } else {
                ScreenWidth::Forty
            };
            self.multicolor = (value / 0x10) % 2 == 1;
        } else if addr == 0x17 {
            self.unpack(SpriteBit::DoubleHeight, value);
        } else if addr == 0x1d {
            self.unpack(SpriteBit::DoubleWidth, value);
        } else if addr == 0x20 {
            self.border_color = value % 16;
        } else if addr == 0x21 {
            self.background_color = value % 16;
        } else if addr == 0x22 {
            self.background_color_e1 = value % 16;
        } else if addr == 0x23 {
            self.background_color_e2 = value % 16;
        } else if addr == 0x24 {
            self.background_color_e3 = value % 16;
        } else if addr == 0x25 {
            self.sprite_color_e1 = value % 16;
        } else if addr == 0x26 {
            self.sprite_color_e2 = value % 16;
        } else if 0x27 <= addr && addr < 0x2f {
            let i = (addr - 0x27) as usize;
            let mut sp = self.sprites[i];
            sp.color = value % 16;
            self.sprites.set(i, sp);
        }
    }

    /// `self` is `before` with flag `which` of each sprite i set from bit i
    /// of `value`.
    pub open spec fn sprite_bits_set(&self, before: VIC, which: SpriteBit, value: u8) -> bool {
        &&& *self == (VIC { sprites: self.sprites, ..before })
        &&& self.sprites@.len() == 8
        &&& forall|i: int|
            0 <= i < 8 ==> #[trigger] self.sprites@[i] == Sprite::with_flag(
                before.sprites@[i],
                which,
                nth_bit(value, i as nat),
            )
    }

    /// MCM | BMM << 1 | ECM << 2.
    pub fn get_graphics_mode_bits(&self) -> (r: u8)
        ensures
            r == self.mode_bits(),
    {
        let mcm: u8 = if self.multicolor { 1 } else { 0 };
        let bmm: u8 = if self.mode == Mode::Bitmap { 2 } else { 0 };
        let ecm: u8 = if self.extended_bg { 4 } else { 0 };
        mcm + bmm + ecm
    }

    /// The graphics mode the three mode bits select; combinations 5..7 are
    /// invalid.
    pub fn get_graphics_mode(&self) -> (r: DerivedGraphicsMode)
        ensures
            r == match self.mode_bits() {
                0 => DerivedGraphicsMode::StandardCharMode,
                1 => DerivedGraphicsMode::MulticolorCharMode,
                2 => DerivedGraphicsMode::StandardBitmapMode,
                3 => DerivedGraphicsMode::MulticolorBitmapMode,
                4 => DerivedGraphicsMode::ExtendedBackgroundColorMode,
                _ => DerivedGraphicsMode::Invalid,
            },
    {
        match self.get_graphics_mode_bits() {
            0 => DerivedGraphicsMode::StandardCharMode,
            1 => DerivedGraphicsMode::MulticolorCharMode,
            2 => DerivedGraphicsMode::StandardBitmapMode,
            3 => DerivedGraphicsMode::MulticolorBitmapMode,
            4 => DerivedGraphicsMode::ExtendedBackgroundColorMode,
            _ => DerivedGraphicsMode::Invalid,
        }
    }
}

impl Sprite {
    pub open spec fn new_spec() -> Sprite {
        Sprite { x: 0, y: 0, color: 0, enabled: false, double_height: false, double_width: false }
    }

    /// `s` with one packed flag set to `on`.
    pub open spec fn with_flag(s: Sprite, which: SpriteBit, on: bool) -> Sprite {
        match which {
            SpriteBit::XHigh => Sprite { x: (s.x % 256 + if on { 256int } else { 0 }) as u16, ..s },
            SpriteBit::Enabled => Sprite { enabled: on, ..s },
            SpriteBit::DoubleHeight => Sprite { double_height: on, ..s },
            SpriteBit::DoubleWidth => Sprite { double_width: on, ..s },
        }
    }
}

} // verus!
