use vstd::prelude::*;

verus! {

/// One standard controller: the eight buttons and the serial shift register
/// the CPU reads them through.
pub struct Controller {
    pub a: bool,
    pub b: bool,
    pub select: bool,
    pub start: bool,
    pub up: bool,
    pub down: bool,
    pub left: bool,
    pub right: bool,
    pub latching: bool,
    pub latch: u8,
}

pub open spec fn bit(on: bool) -> u8 {
    if on { 1 } else { 0 }
}

/// Button state packed A, B, Select, Start, Up, Down, Left, Right from bit 0.
pub open spec fn button_bits(c: Controller) -> u8 {
    (bit(c.a) + 2 * bit(c.b) + 4 * bit(c.select) + 8 * bit(c.start) + 16 * bit(c.up) + 32 * bit(
        c.down,
    ) + 64 * bit(c.left) + 128 * bit(c.right)) as u8
}

/// The value the `k`-th read returns after latching `latch` and leaving
/// latch mode.
pub open spec fn nth_read(latch: u8, k: nat) -> u8
    decreases k,
{
    if k == 0 {
        latch % 2
    } else {
        nth_read(latch / 2, (k - 1) as nat)
    }
}

/// After a latch and its end, the eight reads give A, B, Select, Start, Up,
/// Down, Left and Right in that order, and further reads give 0.
pub proof fn lemma_latch_reads(c: Controller)
    ensures
        nth_read(button_bits(c), 0) == bit(c.a),
        nth_read(button_bits(c), 1) == bit(c.b),
        nth_read(button_bits(c), 2) == bit(c.select),
        nth_read(button_bits(c), 3) == bit(c.start),
        nth_read(button_bits(c), 4) == bit(c.up),
        nth_read(button_bits(c), 5) == bit(c.down),
        nth_read(button_bits(c), 6) == bit(c.left),
        nth_read(button_bits(c), 7) == bit(c.right),
        nth_read(button_bits(c), 8) == 0,
{
    let r7: u8 = bit(c.right);
    let r6: u8 = (bit(c.left) + 2 * r7) as u8;
    let r5: u8 = (bit(c.down) + 2 * r6) as u8;
    let r4: u8 = (bit(c.up) + 2 * r5) as u8;
    let r3: u8 = (bit(c.start) + 2 * r4) as u8;
    let r2: u8 = (bit(c.select) + 2 * r3) as u8;
    let r1: u8 = (bit(c.b) + 2 * r2) as u8;
    let r0: u8 = (bit(c.a) + 2 * r1) as u8;
    assert(r0 == button_bits(c));
    lemma_shift(r0, bit(c.a), r1);
    lemma_shift(r1, bit(c.b), r2);
    lemma_shift(r2, bit(c.select), r3);
    lemma_shift(r3, bit(c.start), r4);
    lemma_shift(r4, bit(c.up), r5);
    lemma_shift(r5, bit(c.down), r6);
    lemma_shift(r6, bit(c.left), r7);
    lemma_shift(r7, bit(c.right), 0);
    reveal_with_fuel(nth_read, 9);
}

proof fn lemma_shift(x: u8, low: u8, rest: u8)
    requires
        x == low + 2 * rest,
        low <= 1,
    ensures
        x % 2 == low,
        x / 2 == rest,
{
}

impl Controller {
    /// No button pressed, nothing latched.
    pub fn new() -> (r: Controller)
        ensures
            !r.a && !r.b && !r.select && !r.start && !r.up && !r.down && !r.left && !r.right,
            !r.latching,
            r.latch == 0,
    {
        Controller {
            a: false,
            b: false,
            select: false,
            start: false,
            up: false,
            down: false,
            left: false,
            right: false,
            latching: false,
            latch: 0,
        }
    }

    /// Enters latch mode and snapshots the buttons into the shift register.
    pub fn begin_latch(&mut self)
        ensures
            *final(self) == (Controller { latching: true, latch: button_bits(*old(self)), ..*old(self) }),
    {
        let mut latch: u8 = if self.a { 1 } else { 0 };
        if self.b {
            latch = latch + 2;
        }
        if self.select {
            latch = latch + 4;
        }
        if self.start {
            latch = latch + 8;
        }
        if self.up {
            latch = latch + 16;
        }
        if self.down {
            latch = latch + 32;
        }
        if self.left {
            latch = latch + 64;
        }
        if self.right {
            latch = latch + 128;
        }
        self.latching = true;
        self.latch = latch;
    }

    /// Leaves latch mode; reads then shift.
    pub fn end_latch(&mut self)
        ensures
            *final(self) == (Controller { latching: false, ..*old(self) }),
    {
        self.latching = false;
    }

    /// Returns bit 0 of the shift register, shifting it right unless latching.
    pub fn read_latch(&mut self) -> (r: u8)
        ensures
            r == old(self).latch % 2,
            *final(self) == (Controller {
                latch: if old(self).latching { old(self).latch } else { old(self).latch / 2 },
                ..*old(self)
            }),
    {
        let value = self.latch % 2;
        if !self.latching {
            self.latch = self.latch / 2;
        }
        value
    }
}

} // verus!
