//! The delay and sound timers.
use vstd::prelude::*;

verus! {

/// Two independent 8-bit counters. A program sets and reads them; the host
/// counts them down sixty times a second.
#[derive(Clone, Copy, Debug, PartialEq, Eq, Structural)]
pub struct Timers {
    /// The delay timer.
    pub delay: u8,
    /// The sound timer; a tone sounds while it is above zero.
    pub sound: u8,
}

/// One step down, stopping at zero.
pub open spec fn count_down(value: u8) -> u8 {
    if value > 0 {
        (value - 1) as u8
    } else {
        0
    }
}

impl Timers {
    /// Both timers at zero.
    pub fn new() -> (timers: Timers)
        ensures
            timers == (Timers { delay: 0, sound: 0 }),
    {
        Timers { delay: 0, sound: 0 }
    }

    /// The delay timer's value.
    pub fn delay(&self) -> (value: u8)
        ensures
            value == self.delay,
    {
        self.delay
    }

    /// The sound timer's value.
    pub fn sound(&self) -> (value: u8)
        ensures
            value == self.sound,
    {
        self.sound
    }

    /// Sets the delay timer and leaves the sound timer.
    pub fn set_delay(&mut self, value: u8)
        ensures
            *final(self) == (Timers { delay: value, sound: old(self).sound }),
    {
        self.delay = value;
    }

    /// Sets the sound timer and leaves the delay timer.
    pub fn set_sound(&mut self, value: u8)
        ensures
            *final(self) == (Timers { delay: old(self).delay, sound: value }),
    {
        self.sound = value;
    }

    /// Counts both timers down by one; a timer at zero stays at zero.
    pub fn decrement(&mut self)
        ensures
            final(self).delay == count_down(old(self).delay),
            final(self).sound == count_down(old(self).sound),
    {
        self.delay = self.delay.saturating_sub(1);
        self.sound = self.sound.saturating_sub(1);
    }

    /// Whether the tone is on.
    pub fn tone_on(&self) -> (on: bool)
        ensures
            on == (self.sound > 0),
    {
        self.sound > 0
    }
}

} // verus!
