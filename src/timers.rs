use vstd::prelude::*;

verus! {

/// The delay and sound countdown timers. Both count down once per tick of
/// a 60 Hz clock and stop at zero; a tone plays on every tick that finds
/// the sound timer above zero.
#[derive(PartialEq, Eq, Structural, Clone, Copy, Debug)]
pub struct Timers {
    pub delay: u8,
    pub sound: u8,
}

/// A counter after one tick: one less, but never below zero.
pub open spec fn count_down(v: u8) -> u8 {
    if v > 0 {
        (v - 1) as u8
    } else {
        0
    }
}

/// The timers after one tick.
pub open spec fn tick_spec(t: Timers) -> Timers {
    Timers { delay: count_down(t.delay), sound: count_down(t.sound) }
}

/// The timers after `k` ticks with no write in between.
pub open spec fn after_ticks(t: Timers, k: nat) -> Timers
    decreases k,
{
    if k == 0 {
        t
    } else {
        tick_spec(after_ticks(t, (k - 1) as nat))
    }
}

impl Timers {
    /// Both timers at zero.
    pub fn new() -> (r: Timers)
        ensures
            r.delay == 0,
            r.sound == 0,
    {
        Timers { delay: 0, sound: 0 }
    }

    /// One tick of the 60 Hz clock. Returns whether a tone is to be played,
    /// that is whether the sound timer was above zero.
    pub fn tick(&mut self) -> (play: bool)
        ensures
            *final(self) == tick_spec(*old(self)),
            play == (old(self).sound > 0),
    {
        let play = self.sound > 0;
        if self.sound > 0 {
            self.sound = self.sound - 1;
        }
        if self.delay > 0 {
            self.delay = self.delay - 1;
        }
        play
    }
}

/// After `k` ticks with no write in between, each timer has gone down by
/// `k` but stopped at zero: a timer set to `n` reads zero after `n` ticks
/// and stays there, never wrapping below zero.
pub proof fn lemma_timers_run_out(t: Timers, k: nat)
    ensures
        after_ticks(t, k).delay == if k >= t.delay { 0 } else { t.delay - k },
        after_ticks(t, k).sound == if k >= t.sound { 0 } else { t.sound - k },
    decreases k,
{
    if k > 0 {
        lemma_timers_run_out(t, (k - 1) as nat);
    }
}

} // verus!
