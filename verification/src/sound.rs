//! The sound countdown timer.
//!
//! An 8-bit counter decremented by at most one per tick, never below
//! zero. The host maps any nonzero value to an audible tone; the
//! interpreter itself produces no sound.

use vstd::prelude::*;

verus! {

/// The sound timer. Its view is the current counter value.
pub struct Sound {
    sound_timer: u8,
}

impl View for Sound {
    type V = u8;

    closed spec fn view(&self) -> u8 {
        self.sound_timer
    }
}

impl Sound {
    /// A fresh, silent timer.
    pub fn new() -> (s: Sound)
        ensures
            s@ == 0u8,
    {
        Sound { sound_timer: 0 }
    }

    /// Starts the countdown at `time`.
    pub fn set_sound_timer(&mut self, time: u8)
        ensures
            final(self)@ == time,
    {
        self.sound_timer = time;
    }

    /// The current counter value; the host sounds a tone while it is
    /// nonzero.
    pub fn get_sound_timer(&self) -> (r: u8)
        ensures
            r == self@,
    {
        self.sound_timer
    }

    /// One countdown step: decrements toward zero, with a floor at zero.
    pub fn tick(&mut self)
        ensures
            final(self)@ == (if old(self)@ > 0 {
                old(self)@ - 1
            } else {
                0int
            }),
    {
        if self.sound_timer > 0 {
            self.sound_timer = self.sound_timer - 1;
        }
    }
}

} // verus!
