//! Sleep-timer service: a free-running counter in one-shot capture-compare
//! mode that wakes the one sleeping task.
//!
//! A sleep request programs the compare register to the requested
//! millisecond count scaled by the prescaler-derived constant, resets the
//! counter, and enables counting. The counter then advances once per timer
//! tick; the interrupt condition is the counter reaching the compare
//! value. Serving the interrupt stops the counter and resets it to zero.
//! The hardware register accesses that realise this stay outside the
//! crate; the counting discipline itself is modelled and verified here.

use vstd::prelude::*;

verus! {

/// Timer ticks per millisecond: the peripheral clock divided by the
/// prescaler and by one thousand.
pub const SLEEP_TICKS_PER_MS: u64 = 8;

/// The sleep timer: one outstanding deadline at a time.
#[derive(Clone, Copy, PartialEq, Eq, Structural, Debug)]
pub struct SleepTimer {
    /// Whether the counter is running.
    pub enabled: bool,
    /// Current counter value, in timer ticks since the timer was armed.
    pub counter: u64,
    /// Compare value: the counter value at which the interrupt fires.
    pub compare: u64,
}

impl SleepTimer {
    /// The interrupt condition: the counter has reached the compare value.
    pub open spec fn fired(self) -> bool {
        self.enabled && self.counter >= self.compare
    }

    /// A timer at rest: disabled, counter and compare cleared.
    pub fn new() -> (t: SleepTimer)
        ensures
            t == (SleepTimer { enabled: false, counter: 0, compare: 0 }),
    {
        SleepTimer { enabled: false, counter: 0, compare: 0 }
    }

    /// Programs a one-shot deadline `ms` milliseconds ahead: the compare
    /// register takes the scaled count, the forced update event resets the
    /// counter, and the counter is enabled. A second sleep request simply
    /// overwrites the first — the service holds one deadline at a time.
    pub fn program(&mut self, ms: u32)
        ensures
            *final(self) == (SleepTimer {
                enabled: true,
                counter: 0,
                compare: (ms as u64 * SLEEP_TICKS_PER_MS) as u64,
            }),
    {
        self.compare = ms as u64 * SLEEP_TICKS_PER_MS;
        self.counter = 0;
        self.enabled = true;
    }

    /// One timer tick: an enabled counter advances by one; a disabled one
    /// stands still. Returns whether the interrupt condition now holds.
    pub fn advance(&mut self) -> (fired: bool)
        requires
            old(self).counter < u64::MAX,
        ensures
            *final(self) == (SleepTimer {
                counter: if old(self).enabled {
                    (old(self).counter + 1) as u64
                } else {
                    old(self).counter
                },
                ..*old(self)
            }),
            fired == final(self).fired(),
    {
        if self.enabled {
            self.counter = self.counter + 1;
            self.counter >= self.compare
        } else {
            false
        }
    }

    /// What serving the interrupt does to the peripheral: stop the
    /// counter, clear the update flag, reset the count to zero.
    pub fn stop(&mut self)
        ensures
            *final(self) == (SleepTimer { enabled: false, counter: 0, compare: old(self).compare }),
    {
        self.enabled = false;
        self.counter = 0;
    }
}

} // verus!
