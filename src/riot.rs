use vstd::prelude::*;

verus! {

/// Prescale of the interval timer, in CPU cycles per count.
#[derive(Clone, Copy, PartialEq, Eq, Structural, Debug)]
pub enum Timer {
    Cycle1,
    Cycle8,
    Cycle64,
    Cycle1024,
}

/// Colour clocks per count of the timer: three per CPU cycle.
pub open spec fn prescale_clocks(t: Timer) -> u16 {
    match t {
        Timer::Cycle1 => 3,
        Timer::Cycle8 => 24,
        Timer::Cycle64 => 192,
        Timer::Cycle1024 => 3072,
    }
}

/// The RAM-I/O-timer chip's timer and joystick port.
pub struct RIOT {
    /// Colour clocks left until the next count.
    pub timer_cycles: u16,
    pub timer_type: Timer,
    pub timer_count: u8,
    pub joystick_0_left: bool,
    pub joystick_0_right: bool,
    pub joystick_0_up: bool,
    pub joystick_0_down: bool,
}

impl RIOT {
    /// Timer stopped at zero, joystick centred.
    pub fn new() -> (r: RIOT)
        ensures
            r == (RIOT {
                timer_cycles: 0,
                timer_type: Timer::Cycle1,
                timer_count: 0,
                joystick_0_left: false,
                joystick_0_right: false,
                joystick_0_up: false,
                joystick_0_down: false,
            }),
    {
        RIOT {
            timer_cycles: 0,
            timer_type: Timer::Cycle1,
            timer_count: 0,
            joystick_0_left: false,
            joystick_0_right: false,
            joystick_0_up: false,
            joystick_0_down: false,
        }
    }

    fn prescale(t: Timer) -> (r: u16)
        ensures
            r == prescale_clocks(t),
    {
        match t {
            Timer::Cycle1 => 3,
            Timer::Cycle8 => 24,
            Timer::Cycle64 => 192,
            Timer::Cycle1024 => 3072,
        }
    }

    fn set_timer(&mut self, t: Timer, count: u8)
        ensures
            *final(self) == (RIOT {
                timer_type: t,
                timer_cycles: prescale_clocks(t),
                timer_count: count,
                ..*old(self)
            }),
    {
        self.timer_type = t;
        self.timer_cycles = RIOT::prescale(t);
        self.timer_count = count;
    }

    /// TIM1T: count `count` down once per CPU cycle.
    pub fn set_timer_1(&mut self, count: u8)
        ensures
            *final(self) == (RIOT {
                timer_type: Timer::Cycle1,
                timer_cycles: 3,
                timer_count: count,
                ..*old(self)
            }),
    {
        self.set_timer(Timer::Cycle1, count);
    }

    /// TIM8T: count `count` down once per 8 CPU cycles.
    pub fn set_timer_8(&mut self, count: u8)
        ensures
            *final(self) == (RIOT {
                timer_type: Timer::Cycle8,
                timer_cycles: 24,
                timer_count: count,
                ..*old(self)
            }),
    {
        self.set_timer(Timer::Cycle8, count);
    }

    /// TIM64T: count `count` down once per 64 CPU cycles.
    pub fn set_timer_64(&mut self, count: u8)
        ensures
            *final(self) == (RIOT {
                timer_type: Timer::Cycle64,
                timer_cycles: 192,
                timer_count: count,
                ..*old(self)
            }),
    {
        self.set_timer(Timer::Cycle64, count);
    }

    /// TIM1024T: count `count` down once per 1024 CPU cycles.
    pub fn set_timer_1024(&mut self, count: u8)
        ensures
            *final(self) == (RIOT {
                timer_type: Timer::Cycle1024,
                timer_cycles: 3072,
                timer_count: count,
                ..*old(self)
            }),
    {
        self.set_timer(Timer::Cycle1024, count);
    }

    /// One colour clock: the prescaler counts down; when it runs out it
    /// reloads and the count drops by one, stopping at zero.
    pub fn increment_clock(&mut self)
        ensures
            ({
                let left = if old(self).timer_cycles > 0 {
                    old(self).timer_cycles - 1
                } else {
                    0
                };
                &&& left > 0 ==> *final(self) == (RIOT { timer_cycles: left as u16, ..*old(self) })
                &&& left == 0 ==> *final(self) == (RIOT {
                    timer_cycles: prescale_clocks(old(self).timer_type),
                    timer_count: if old(self).timer_count > 0 {
                        (old(self).timer_count - 1) as u8
                    } else {
                        0
                    },
                    ..*old(self)
                })
            }),
    {
        if self.timer_cycles > 0 {
            self.timer_cycles = self.timer_cycles - 1;
        }
        if self.timer_cycles == 0 {
            self.timer_cycles = RIOT::prescale(self.timer_type);
            if self.timer_count > 0 {
                self.timer_count = self.timer_count - 1;
            }
        }
    }

    /// INTIM: the timer's count.
    pub fn timer_count_remaining(&self) -> (r: u8)
        ensures
            r == self.timer_count,
    {
        self.timer_count
    }

    /// SWCHA: joystick 0 in the high nybble, active low (right in bit 7,
    /// left 6, down 5, up 4); the low nybble reads 1s.
    pub fn get_port_a_data(&self) -> (r: u8)
        ensures
            r == 0x0f + (if self.joystick_0_right { 0 } else { 0x80int }) + (if self.joystick_0_left {
                0
            } else {
                0x40int
            }) + (if self.joystick_0_down { 0 } else { 0x20int }) + (if self.joystick_0_up {
                0
            } else {
                0x10int
            }),
    {
        let right: u8 = if self.joystick_0_right { 0 } else { 0x80 };
        let left: u8 = if self.joystick_0_left { 0 } else { 0x40 };
        let down: u8 = if self.joystick_0_down { 0 } else { 0x20 };
        let up: u8 = if self.joystick_0_up { 0 } else { 0x10 };
        right + left + down + up + 0x0f
    }
}

} // verus!
