use vstd::prelude::*;
use crate::vic::nth_bit;

verus! {

/// What the beam is doing at its current position.
#[derive(Clone, Copy, PartialEq, Eq, Structural, Debug)]
pub enum ScanlineState {
    VSync,
    VBlank,
    HBlank,
    /// A visible pixel: x, y and colour.
    Pixel(u8, u8, u8),
    Overscan,
}

/// Whether the CPU may run, or waits for the end of the line (WSYNC).
#[derive(Clone, Copy, PartialEq, Eq, Structural, Debug)]
pub enum ExecState {
    Block,
    Run,
}

/// The television interface adaptor: beam position, object latches,
/// playfield and colours.
pub struct TIA {
    pub scanline: u16,
    pub horiz_clock: u8,
    pub vsync_enabled: bool,
    pub vblank_enabled: bool,
    pub block_until_hsync: bool,
    pub bg_color: u8,
    pub playfield_color: u8,
    pub player_0_color: u8,
    pub player_1_color: u8,
    /// The 20 playfield columns of the left half.
    pub playfield: Vec<bool>,
    pub playfield_reflect: bool,
    pub playfield_use_player_color: bool,
    pub playfield_has_priority: bool,
    pub player_0_graphics: u8,
    pub player_0_mirror: bool,
    pub player_0_position: u8,
    pub player_0_offset: u8,
    pub player_1_graphics: u8,
    pub player_1_mirror: bool,
    pub player_1_position: u8,
    pub player_1_offset: u8,
    pub missile_0_length: u8,
    pub missile_0_position: u8,
    pub missile_0_offset: u8,
    pub missile_0_enabled: bool,
    pub missile_1_length: u8,
    pub missile_1_position: u8,
    pub missile_1_offset: u8,
    pub missile_1_enabled: bool,
    pub ball_length: u8,
    pub ball_position: u8,
    pub ball_offset: u8,
    pub ball_enabled: bool,
}

/// Width in pixels selected by bits 4-5 of NUSIZ or CTRLPF.
pub open spec fn size_length(value: u8) -> u8 {
    let s = (value / 16) % 4;
    if s == 0 {
        1
    } else if s == 1 {
        2
    } else if s == 2 {
        4
    } else {
        8
    }
}

/// Horizontal position after HMOVE with motion nybble `off`: 8..15 move
/// right by 16 - off, 0..7 move left by off, wrapping within [68, 228).
pub open spec fn moved(pos: u8, off: u8) -> u8 {
    if off >= 8 {
        let p = (pos + (16 - off)) % 256;
        if p >= 228 { (p - 160) as u8 } else { p as u8 }
    } else {
        let p = (pos - off + 256) % 256;
        if p < 68 { (p + 160) as u8 } else { p as u8 }
    }
}

/// Whether an object of `width` pixels at `pos` covers beam position `abs`.
pub open spec fn covers(pos: u8, abs: int, width: int) -> bool {
    pos < 228 && abs >= pos && abs - pos < width
}

/// Whether a player's 8-bit graphics draw at beam position `abs`.
pub open spec fn player_draws(pos: u8, graphics: u8, abs: int) -> bool {
    pos < 228 && abs >= pos && abs - pos < 8 && nth_bit(graphics, (7 - (abs - pos)) as nat)
}

/// Playfield column (0..19) of visible pixel `x` and whether it is in the
/// left half.
pub open spec fn playfield_column(x: u8, reflect: bool) -> (int, bool) {
    let i = x / 4;
    if i < 20 {
        (i as int, true)
    } else if reflect {
        (19 - (i - 20), false)
    } else {
        (i - 20, false)
    }
}

impl TIA {
    pub open spec fn wf(&self) -> bool {
        &&& self.playfield@.len() == 20
        &&& self.horiz_clock < 228
        &&& self.scanline < 262
        &&& self.player_0_offset < 16
        &&& self.player_1_offset < 16
        &&& self.missile_0_offset < 16
        &&& self.missile_1_offset < 16
        &&& self.ball_offset < 16
    }

    /// Colour of visible pixel `x` (0..159): players and their missiles,
    /// then the ball, then the playfield, then the background.
    pub open spec fn pixel_color(&self, x: u8) -> u8 {
        let abs = 68 + x;
        let p0 = player_draws(self.player_0_position, self.player_0_graphics, abs) || (
        self.missile_0_enabled && covers(self.missile_0_position, abs, self.missile_0_length as int));
        let p1 = player_draws(self.player_1_position, self.player_1_graphics, abs) || (
        self.missile_1_enabled && covers(self.missile_1_position, abs, self.missile_1_length as int));
        let ball = self.ball_enabled && covers(self.ball_position, abs, self.ball_length as int);
        let (col, left) = playfield_column(x, self.playfield_reflect);
        let pf = ball || self.playfield@[col];
        let pf_color = if ball || !self.playfield_use_player_color {
            self.playfield_color
        } else if left {
            self.player_0_color
        } else {
            self.player_1_color
        };
        if self.vblank_enabled {
            0
        } else if self.playfield_has_priority && pf {
            pf_color
        } else if p0 {
            self.player_0_color
        } else if p1 {
            self.player_1_color
        } else if pf {
            pf_color
        } else {
            self.bg_color
        }
    }

    /// Registers other than the playfield after a write of `value` to
    /// register `addr`.
    pub open spec fn written(&self, addr: u16, value: u8) -> TIA {
        if addr < 0x1b {
            self.written_low(addr, value)
        } else {
            self.written_high(addr, value)
        }
    }

    /// Sync, colour, control and position-reset registers.
    pub open spec fn written_low(&self, addr: u16, value: u8) -> TIA {
        let t = *self;
        if addr == 0x00 {
            if (value / 2) % 2 == 1 {
                TIA { vsync_enabled: true, scanline: 0, horiz_clock: 0, ..t }
            } else {
                TIA { vsync_enabled: false, ..t }
            }
        } else if addr == 0x01 {
            TIA { vblank_enabled: value & 0xc2 != 0, ..t }
        } else if addr == 0x02 {
            TIA { block_until_hsync: true, ..t }
        } else if addr == 0x04 {
            TIA { missile_0_length: size_length(value), ..t }
        } else if addr == 0x05 {
            TIA { missile_1_length: size_length(value), ..t }
        } else if addr == 0x06 {
            TIA { player_0_color: value, ..t }
        } else if addr == 0x07 {
            TIA { player_1_color: value, ..t }
        } else if addr == 0x08 {
            TIA { playfield_color: value, ..t }
        } else if addr == 0x09 {
            TIA { bg_color: value, ..t }
        } else if addr == 0x0a {
            TIA {
                ball_length: size_length(value),
                playfield_reflect: value % 2 == 1,
                playfield_use_player_color: (value / 2) % 2 == 1,
                playfield_has_priority: (value / 4) % 2 == 1,
                ..t
            }
        } else if addr == 0x10 {
            TIA { player_0_position: (t.horiz_clock + 9) as u8, ..t }
        } else if addr == 0x11 {
            TIA { player_1_position: (t.horiz_clock + 9) as u8, ..t }
        } else if addr == 0x12 {
            TIA { missile_0_position: (t.horiz_clock + 9) as u8, ..t }
        } else if addr == 0x13 {
            TIA { missile_1_position: (t.horiz_clock + 9) as u8, ..t }
        } else if addr == 0x14 {
            TIA { ball_position: (t.horiz_clock + 9) as u8, ..t }
        } else {
            t
        }
    }

    /// Graphics, enable and motion registers.
    pub open spec fn written_high(&self, addr: u16, value: u8) -> TIA {
        let t = *self;
        if addr == 0x1b {
            TIA { player_0_graphics: value, ..t }
        } else if addr == 0x1c {
            TIA { player_1_graphics: value, ..t }
        } else if addr == 0x1d {
            TIA { missile_0_enabled: (value / 2) % 2 == 1, ..t }
        } else if addr == 0x1e {
            TIA { missile_1_enabled: (value / 2) % 2 == 1, ..t }
        } else if addr == 0x1f {
            TIA { ball_enabled: (value / 2) % 2 == 1, ..t }
        } else if addr == 0x20 {
            TIA { player_0_offset: value / 16, ..t }
        } else if addr == 0x21 {
            TIA { player_1_offset: value / 16, ..t }
        } else if addr == 0x22 {
            TIA { missile_0_offset: value / 16, ..t }
        } else if addr == 0x23 {
            TIA { missile_1_offset: value / 16, ..t }
        } else if addr == 0x24 {
            TIA { ball_offset: value / 16, ..t }
        } else if addr == 0x2a {
            TIA {
                player_0_position: moved(t.player_0_position, t.player_0_offset),
                player_1_position: moved(t.player_1_position, t.player_1_offset),
                missile_0_position: moved(t.missile_0_position, t.missile_0_offset),
                missile_1_position: moved(t.missile_1_position, t.missile_1_offset),
                ball_position: moved(t.ball_position, t.ball_offset),
                ..t
            }
        } else if addr == 0x2b {
            TIA {
                player_0_offset: 0,
                player_1_offset: 0,
                missile_0_offset: 0,
                missile_1_offset: 0,
                ball_offset: 0,
                ..t
            }
        } else {
            t
        }
    }

    /// Playfield after a write of `value` to register `addr`: PF0 bits 4-7
    /// give columns 0-3, PF1 bits 7-0 columns 4-11, PF2 bits 0-7 columns 12-19.
    pub open spec fn playfield_written(&self, addr: u16, value: u8) -> Seq<bool> {
        let pf = self.playfield@;
        Seq::new(
            20,
            |i: int|
                if addr == 0x0d && i < 4 {
                    nth_bit(value, (i + 4) as nat)
                } else if addr == 0x0e && 4 <= i < 12 {
                    nth_bit(value, (11 - i) as nat)
                } else if addr == 0x0f && 12 <= i {
                    nth_bit(value, (i - 12) as nat)
                } else {
                    pf[i]
                },
        )
    }

    /// State after one colour clock.
    pub open spec fn tick(&self) -> TIA {
        if self.horiz_clock + 1 >= 228 {
            TIA {
                horiz_clock: 0,
                block_until_hsync: false,
                scanline: if self.scanline + 1 >= 262 { 0 } else { (self.scanline + 1) as u16 },
                ..*self
            }
        } else {
            TIA { horiz_clock: (self.horiz_clock + 1) as u8, ..*self }
        }
    }

    /// State after `n` colour clocks.
    pub open spec fn advance(&self, n: nat) -> TIA
        decreases n,
    {
        if n == 0 {
            *self
        } else {
            self.advance((n - 1) as nat).tick()
        }
    }

    /// Power-on state: beam at the origin, objects parked off screen.
    pub fn new() -> (r: TIA)
        ensures
            r.wf(),
            r.scanline == 0 && r.horiz_clock == 0,
            !r.block_until_hsync && !r.vsync_enabled && !r.vblank_enabled,
            forall|i: int| 0 <= i < 20 ==> !r.playfield@[i],
            r.player_0_position == 240 && r.player_1_position == 240,
            r.missile_0_position == 240 && r.missile_1_position == 240 && r.ball_position == 240,
    {
        TIA {
            scanline: 0,
            horiz_clock: 0,
            vsync_enabled: false,
            vblank_enabled: false,
            block_until_hsync: false,
            bg_color: 0,
            playfield_color: 0,
            player_0_color: 0,
            player_1_color: 0,
            playfield: vec![false; 20],
            playfield_reflect: false,
            playfield_use_player_color: false,
            playfield_has_priority: false,
            player_0_graphics: 0,
            player_0_mirror: false,
            player_0_position: 240,
            player_0_offset: 0,
            player_1_graphics: 0,
            player_1_mirror: false,
            player_1_position: 240,
            player_1_offset: 0,
            missile_0_length: 1,
            missile_0_position: 240,
            missile_0_offset: 0,
            missile_0_enabled: false,
            missile_1_length: 1,
            missile_1_position: 240,
            missile_1_offset: 0,
            missile_1_enabled: false,
            ball_length: 1,
            ball_position: 240,
            ball_offset: 0,
            ball_enabled: false,
        }
    }
    fn move_object(pos: u8, off: u8) -> (r: u8)
        requires
            off < 16,
        ensures
            r == moved(pos, off),
    {
        if off >= 8 {
            let p = pos.wrapping_add(16 - off);
            if p >= 228 {
                p - 160
            } else {
                p
            }
        } else {
            let p = pos.wrapping_sub(off);
            if p < 68 {
                p + 160
            } else {
                p
            }
        }
    }

    fn size_of(value: u8) -> (r: u8)
        ensures
            r == size_length(value),
    {
        let s = (value / 16) % 4;
        if s == 0 {
            1
        } else if s == 1 {
            2
        } else if s == 2 {
            4
        } else {
            8
        }
    }

    #[verifier::rlimit(100)]
    fn set_playfield_bits(&mut self, addr: u16, value: u8)
        requires
            old(self).wf(),
            addr == 0x0d || addr == 0x0e || addr == 0x0f,
        ensures
            final(self).playfield@ == old(self).playfield_written(addr, value),
            *final(self) == (TIA { playfield: final(self).playfield, ..*old(self) }),
    {
        let ghost target = old(self).playfield_written(addr, value);
        let mut i: usize = 0;
        while i < 20
            invariant
                i <= 20,
                target == old(self).playfield_written(addr, value),
                self.playfield@.len() == 20,
                *self == (TIA { playfield: self.playfield, ..*old(self) }),
                forall|j: int| 0 <= j < i ==> #[trigger] self.playfield@[j] == target[j],
                forall|j: int| i <= j < 20 ==> #[trigger] self.playfield@[j] == old(self).playfield@[j],
            decreases 20 - i,
        {
            if addr == 0x0d && i < 4 {
                let on = bit_n(value, (i + 4) as u8);
                self.playfield.set(i, on);
            } else if addr == 0x0e && 4 <= i && i < 12 {
                let on = bit_n(value, (11 - i) as u8);
                self.playfield.set(i, on);
            } else if addr == 0x0f && 12 <= i {
                let on = bit_n(value, (i - 12) as u8);
                self.playfield.set(i, on);
            }
            i += 1;
        }
        assert(self.playfield@ =~= target);
    }

    /// Writes TIA register `addr`.
    pub fn set_byte(&mut self, addr: u16, value: u8)
        requires
            old(self).wf(),
        ensures
            final(self).wf(),
            *final(self) == (TIA { playfield: final(self).playfield, ..old(self).written(addr, value) }),
            final(self).playfield@ == old(self).playfield_written(addr, value),
    {
        if addr == 0x0d || addr == 0x0e || addr == 0x0f {
            self.set_playfield_bits(addr, value);
            return ;
        }
        proof {
            assert(self.playfield@ =~= old(self).playfield_written(addr, value));
        }
        if addr < 0x1b {
            self.set_low_register(addr, value);
        } else {
            self.set_high_register(addr, value);
        }
    }

    #[verifier::rlimit(100)]
    fn set_low_register(&mut self, addr: u16, value: u8)
        requires
            old(self).wf(),
            addr < 0x1b,
            addr != 0x0d && addr != 0x0e && addr != 0x0f,
        ensures
            *final(self) == old(self).written_low(addr, value),
    {
        if addr == 0x00 {
            if (value / 2) % 2 == 1 {
                self.vsync_enabled = true;
                self.scanline = 0;
                self.horiz_clock = 0;
            } else {
                self.vsync_enabled = false;
            }
        } else if addr == 0x01 {
            self.vblank_enabled = value & 0xc2 != 0;
        } else if addr == 0x02 {
            self.block_until_hsync = true;
        } else if addr == 0x04 {
            self.missile_0_length = TIA::size_of(value);
        } else if addr == 0x05 {
            self.missile_1_length = TIA::size_of(value);
        } else if addr == 0x06 {
            self.player_0_color = value;
        } else if addr == 0x07 {
            self.player_1_color = value;
        } else if addr == 0x08 {
            self.playfield_color = value;
        } else if addr == 0x09 {
            self.bg_color = value;
        } else if addr == 0x0a {
            self.ball_length = TIA::size_of(value);
            self.playfield_reflect = value % 2 == 1;
            self.playfield_use_player_color = (value / 2) % 2 == 1;
            self.playfield_has_priority = (value / 4) % 2 == 1;
        } else if addr == 0x10 {
            self.player_0_position = self.horiz_clock + 9;
        } else if addr == 0x11 {
            self.player_1_position = self.horiz_clock + 9;
        } else if addr == 0x12 {
            self.missile_0_position = self.horiz_clock + 9;
        } else if addr == 0x13 {
            self.missile_1_position = self.horiz_clock + 9;
        } else if addr == 0x14 {
            self.ball_position = self.horiz_clock + 9;
        }
    }

    #[verifier::rlimit(100)]
    fn set_high_register(&mut self, addr: u16, value: u8)
        requires
            old(self).wf(),
            addr >= 0x1b,
        ensures
            *final(self) == old(self).written_high(addr, value),
    {
        if addr == 0x1b {
            self.player_0_graphics = value;
        } else if addr == 0x1c {
            self.player_1_graphics = value;
        } else if addr == 0x1d {
            self.missile_0_enabled = (value / 2) % 2 == 1;
        } else if addr == 0x1e {
            self.missile_1_enabled = (value / 2) % 2 == 1;
        } else if addr == 0x1f {
            self.ball_enabled = (value / 2) % 2 == 1;
        } else if addr == 0x20 {
            self.player_0_offset = value / 16;
        } else if addr == 0x21 {
            self.player_1_offset = value / 16;
        } else if addr == 0x22 {
            self.missile_0_offset = value / 16;
        } else if addr == 0x23 {
            self.missile_1_offset = value / 16;
        } else if addr == 0x24 {
            self.ball_offset = value / 16;
        } else if addr == 0x2a {
            self.player_0_position = TIA::move_object(self.player_0_position, self.player_0_offset);
            self.player_1_position = TIA::move_object(self.player_1_position, self.player_1_offset);
            self.missile_0_position = TIA::move_object(self.missile_0_position, self.missile_0_offset);
            self.missile_1_position = TIA::move_object(self.missile_1_position, self.missile_1_offset);
            self.ball_position = TIA::move_object(self.ball_position, self.ball_offset);
        } else if addr == 0x2b {
            self.player_0_offset = 0;
            self.player_1_offset = 0;
            self.missile_0_offset = 0;
            self.missile_1_offset = 0;
            self.ball_offset = 0;
        }
    }

    /// Moves the beam to the next scanline, wrapping after 262.
    pub fn increment_scanline(&mut self)
        requires
            old(self).wf(),
        ensures
            final(self).wf(),
            *final(self) == (TIA {
                scanline: if old(self).scanline + 1 >= 262 { 0 } else { (old(self).scanline + 1) as u16 },
                ..*old(self)
            }),
    {
        self.scanline = self.scanline + 1;
        if self.scanline >= 262 {
            self.scanline = self.scanline - 262;
        }
    }

    /// Advances the beam `cycles` colour clocks; crossing the end of a line
    /// releases a WSYNC stall.
    pub fn increment_clock(&mut self, cycles: u8)
        requires
            old(self).wf(),
        ensures
            final(self).wf(),
            *final(self) == old(self).advance(cycles as nat),
    {
        let mut n: u8 = 0;
        while n < cycles
            invariant
                n <= cycles,
                self.wf(),
                *self == old(self).advance(n as nat),
            decreases cycles - n,
        {
            if self.horiz_clock + 1 >= 228 {
                self.horiz_clock = 0;
                self.block_until_hsync = false;
                self.increment_scanline();
            } else {
                self.horiz_clock = self.horiz_clock + 1;
            }
            n += 1;
        }
    }

    /// Whether the CPU may run.
    pub fn get_exec_state(&self) -> (r: ExecState)
        ensures
            r == if self.block_until_hsync { ExecState::Block } else { ExecState::Run },
    {
        if self.block_until_hsync {
            ExecState::Block
        } else {
            ExecState::Run
        }
    }

    fn get_pixel_color(&self, x: u8) -> (r: u8)
        requires
            self.wf(),
            x < 160,
        ensures
            r == self.pixel_color(x),
    {
        if self.vblank_enabled {
            return 0;
        }
        let abs = 68 + x;
        let p0 = TIA::player_at(self.player_0_position, self.player_0_graphics, abs) || (
        self.missile_0_enabled && TIA::covers_at(self.missile_0_position, abs, self.missile_0_length));
        let p1 = TIA::player_at(self.player_1_position, self.player_1_graphics, abs) || (
        self.missile_1_enabled && TIA::covers_at(self.missile_1_position, abs, self.missile_1_length));
        let ball = self.ball_enabled && TIA::covers_at(self.ball_position, abs, self.ball_length);
        let i = x / 4;
        let left = i < 20;
        let col: usize = if left {
            i as usize
        } else if self.playfield_reflect {
            (19 - (i - 20)) as usize
        } else {
            (i - 20) as usize
        };
        let pf = ball || self.playfield[col];
        let pf_color = if ball || !self.playfield_use_player_color {
            self.playfield_color
        } else if left {
            self.player_0_color
        } else {
            self.player_1_color
        };
        if self.playfield_has_priority && pf {
            pf_color
        } else if p0 {
            self.player_0_color
        } else if p1 {
            self.player_1_color
        } else if pf {
            pf_color
        } else {
            self.bg_color
        }
    }

    fn covers_at(pos: u8, abs: u8, width: u8) -> (r: bool)
        ensures
            r == covers(pos, abs as int, width as int),
    {
        pos < 228 && abs >= pos && abs - pos < width
    }

    fn player_at(pos: u8, graphics: u8, abs: u8) -> (r: bool)
        ensures
            r == player_draws(pos, graphics, abs as int),
    {
        if pos < 228 && abs >= pos && abs - pos < 8 {
            bit_n(graphics, 7 - (abs - pos))
        } else {
            false
        }
    }

    /// What the beam draws now: three lines of VSYNC, VBLANK to line 40, 192
    /// visible lines with 68 clocks of HBLANK each, then overscan.
    pub fn get_scanline_state(&self) -> (r: ScanlineState)
        requires
            self.wf(),
        ensures
            r == if self.scanline < 4 {
                ScanlineState::VSync
            } else if self.scanline < 40 {
                ScanlineState::VBlank
            } else if self.scanline < 232 {
                if self.horiz_clock < 68 {
                    ScanlineState::HBlank
                } else {
                    let x = (self.horiz_clock - 68) as u8;
                    ScanlineState::Pixel(x, (self.scanline - 40) as u8, self.pixel_color(x))
                }
            } else {
                ScanlineState::Overscan
            },
    {
        if self.scanline < 4 {
            return ScanlineState::VSync;
        }
        if self.scanline < 40 {
            return ScanlineState::VBlank;
        }
        if self.scanline < 232 {
            if self.horiz_clock < 68 {
                return ScanlineState::HBlank;
            }
            let x = self.horiz_clock - 68;
            let color = self.get_pixel_color(x);
            return ScanlineState::Pixel(x, (self.scanline - 40) as u8, color);
        }
        ScanlineState::Overscan
    }
}

/// Bit `n` of `value`.
fn bit_n(value: u8, n: u8) -> (r: bool)
    requires
        n < 8,
    ensures
        r == nth_bit(value, n as nat),
{
    let mut v = value;
    let mut k: u8 = 0;
    while k < n
        invariant
            k <= n,
            forall|m: nat| #[trigger] nth_bit(v, m) == nth_bit(value, m + k as nat),
        decreases n - k,
    {
        proof {
            assert forall|m: nat| #[trigger] nth_bit(v / 2, m) == nth_bit(value, m + (k + 1) as nat) by {
                assert(nth_bit(v, m + 1) == nth_bit(v / 2, m));
                assert(nth_bit(v, m + 1) == nth_bit(value, (m + 1) + k as nat));
            }
        }
        v = v / 2;
        k += 1;
    }
    proof {
        assert(nth_bit(v, 0) == nth_bit(value, n as nat));
    }
    v % 2 == 1
}

/// WSYNC issued at the start of a line stalls the CPU for exactly one line:
/// the stall holds through the next 227 colour clocks and is gone after 228,
/// with the beam at the start of the next line.
pub proof fn lemma_wsync_full_line(t: TIA)
    requires
        t.wf(),
        t.horiz_clock == 0,
        t.block_until_hsync,
    ensures
        forall|k: nat| k < 228 ==> #[trigger] t.advance(k).block_until_hsync,
        !t.advance(228).block_until_hsync,
        t.advance(228).horiz_clock == 0,
{
    assert forall|k: nat| k < 228 implies #[trigger] t.advance(k).block_until_hsync
        && t.advance(k).horiz_clock == k by {
        lemma_advance_within_line(t, k);
    }
    lemma_advance_within_line(t, 227);
}

proof fn lemma_advance_within_line(t: TIA, k: nat)
    requires
        t.horiz_clock == 0,
        t.block_until_hsync,
        k < 228,
    ensures
        t.advance(k).block_until_hsync,
        t.advance(k).horiz_clock == k,
    decreases k,
{
    if k > 0 {
        lemma_advance_within_line(t, (k - 1) as nat);
    }
}

} // verus!
