//! Repeating countdown timers: attack cooldown, wander re-randomisation and
//! the respawn interval. Times are whole microseconds.
use vstd::prelude::*;

verus! {

/// A repeating timer. Each tick adds the elapsed time; when the total reaches
/// the duration the timer reports that it fired, and what exceeds a whole
/// number of periods carries over.
#[derive(Clone, Copy, Debug, PartialEq, Eq, Structural)]
pub struct RepeatingTimer {
    pub duration: u64,
    pub elapsed: u64,
    pub finished: bool,
}

impl RepeatingTimer {
    pub open spec fn valid(&self) -> bool {
        self.elapsed < self.duration || (self.duration == 0 && self.elapsed == 0)
    }

    pub open spec fn new_spec(duration: u64) -> RepeatingTimer {
        RepeatingTimer { duration, elapsed: 0, finished: false }
    }

    /// A timer of the given period that has not run yet.
    pub fn new(duration: u64) -> (t: RepeatingTimer)
        ensures
            t == RepeatingTimer::new_spec(duration),
            t.valid(),
    {
        RepeatingTimer { duration, elapsed: 0, finished: false }
    }

    /// Advances the timer by `delta` microseconds and returns whether it fired.
    pub fn tick(&mut self, delta: u64) -> (fired: bool)
        requires
            old(self).valid(),
        ensures
            final(self).valid(),
            final(self).duration == old(self).duration,
            fired == (old(self).elapsed + delta >= old(self).duration),
            final(self).finished == fired,
            final(self).elapsed == if !fired {
                old(self).elapsed + delta
            } else if old(self).duration == 0 {
                0
            } else {
                (old(self).elapsed + delta) % (old(self).duration as int)
            },
    {
        let total: u128 = self.elapsed as u128 + delta as u128;
        if total >= self.duration as u128 {
            self.finished = true;
            if self.duration == 0 {
                self.elapsed = 0;
            } else {
                let rest: u128 = total % (self.duration as u128);
                self.elapsed = rest as u64;
            }
        } else {
            self.finished = false;
            self.elapsed = total as u64;
        }
        self.finished
    }

    /// Starts the current period over.
    pub fn reset(&mut self)
        ensures
            *final(self) == (RepeatingTimer { elapsed: 0, finished: false, ..*old(self) }),
            old(self).valid() ==> final(self).valid(),
    {
        self.elapsed = 0;
        self.finished = false;
    }
}

} // verus!
