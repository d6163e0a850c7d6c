//! Durations used for scheduling deadlines, in seconds plus sub-second
//! microseconds, as the 1 MHz hardware timer counts them.

use vstd::prelude::*;

verus! {

/// A non-negative span of time: whole seconds plus sub-second microseconds.
///
/// Well-formed values keep the microsecond part below one second.
#[derive(Clone, Copy, Debug, PartialEq, Eq, Structural)]
pub struct Duration {
    pub secs: u64,
    pub micros: u32,
}

impl Duration {
    /// The microsecond part stays below one second.
    pub open spec fn wf(self) -> bool {
        self.micros < 1_000_000
    }

    /// The whole span in microseconds, as a mathematical integer.
    pub open spec fn spec_total_micros(self) -> int {
        self.secs * 1_000_000 + self.micros
    }

    pub fn from_millis(ms: u64) -> (r: Duration)
        ensures
            r.wf(),
            r.spec_total_micros() == ms * 1000,
    {
        proof {
            vstd::arithmetic::div_mod::lemma_fundamental_div_mod(ms as int, 1000);
        }
        Duration { secs: ms / 1000, micros: ((ms % 1000) * 1000) as u32 }
    }

    pub fn from_micros(us: u64) -> (r: Duration)
        ensures
            r.wf(),
            r.spec_total_micros() == us,
    {
        proof {
            vstd::arithmetic::div_mod::lemma_fundamental_div_mod(us as int, 1_000_000);
        }
        Duration { secs: us / 1_000_000, micros: (us % 1_000_000) as u32 }
    }

    pub fn as_secs(&self) -> (r: u64)
        ensures
            r == self.secs,
    {
        self.secs
    }

    pub fn subsec_micros(&self) -> (r: u32)
        ensures
            r == self.micros,
    {
        self.micros
    }

    /// The whole span in microseconds, when it fits the 32-bit timer counter;
    /// `None` exactly when it would overflow the counter width.
    pub fn checked_micros(&self) -> (r: Option<u32>)
        requires
            self.wf(),
        ensures
            match r {
                Some(us) => us == self.spec_total_micros(),
                None => self.spec_total_micros() > u32::MAX,
            },
    {
        if self.secs > 4294 {
            None
        } else {
            let total: u64 = self.secs * 1_000_000 + self.micros as u64;
            if total > u32::MAX as u64 {
                None
            } else {
                Some(total as u32)
            }
        }
    }
}

} // verus!
