//! The timer scheduling service: a model of the single 32-bit, 1 MHz
//! hardware timer and the reprogram operation both interrupt handlers feed
//! their deadlines into.

use vstd::prelude::*;
use crate::time::Duration;

verus! {

/// The requested deadline exceeds the timer's 32-bit microsecond counter.
#[derive(Clone, Copy, Debug, PartialEq, Eq, Structural)]
pub enum TimerError {
    DeadlineOverflow,
}

/// The hardware timer as the scheduler sees it: armed with a compare value
/// in microseconds, or stopped; plus the latched compare-event flag the
/// hardware raises when an armed deadline elapses.
#[derive(Clone, Copy, Debug, PartialEq, Eq, Structural)]
pub struct Timer {
    pub armed: bool,
    pub compare_us: u32,
    pub event_flag: bool,
}

impl Timer {
    pub fn new() -> (r: Timer)
        ensures
            !r.armed,
            !r.event_flag,
            r.spec_pending() is None,
    {
        Timer { armed: false, compare_us: 0, event_flag: false }
    }

    /// The deadline that will fire next, if any.
    pub open spec fn spec_pending(self) -> Option<u32> {
        if self.armed {
            Some(self.compare_us)
        } else {
            None
        }
    }

    /// The state any successful reprogram request leaves the timer in: a
    /// function of the request alone, whatever was pending before.
    pub open spec fn spec_reprogrammed(d: Option<Duration>) -> Timer {
        match d {
            Some(dur) => Timer {
                armed: true,
                compare_us: dur.spec_total_micros() as u32,
                event_flag: false,
            },
            None => Timer { armed: false, compare_us: 0, event_flag: false },
        }
    }

    /// Whether a request passes the overflow validation.
    pub open spec fn spec_accepts(d: Option<Duration>) -> bool {
        match d {
            Some(dur) => dur.spec_total_micros() <= u32::MAX,
            None => true,
        }
    }

    /// Reprograms the timer to fire after `duration`, or stops it on `None`.
    /// A request validates against the 32-bit microsecond counter width and
    /// fails, leaving the timer untouched, exactly when the duration
    /// overflows it. A successful request fully supersedes whatever was
    /// pending: the new state depends on the request alone, the timer counts
    /// from zero again, and any stale latched compare event is acknowledged
    /// rather than left to fire against the new programming.
    pub fn reprogram(&mut self, duration: Option<Duration>) -> (r: Result<(), TimerError>)
        requires
            duration matches Some(d) ==> d.wf(),
        ensures
            match r {
                Ok(_) => {
                    &&& Self::spec_accepts(duration)
                    &&& *final(self) == Self::spec_reprogrammed(duration)
                },
                Err(_) => {
                    &&& !Self::spec_accepts(duration)
                    &&& *final(self) == *old(self)
                },
            },
    {
        match duration {
            Some(d) => {
                let us = match d.checked_micros() {
                    Some(us) => us,
                    None => {
                        return Err(TimerError::DeadlineOverflow);
                    },
                };
                self.compare_us = us;
                self.event_flag = false;
                self.armed = true;
                Ok(())
            },
            None => {
                self.armed = false;
                self.compare_us = 0;
                self.event_flag = false;
                Ok(())
            },
        }
    }

    /// Models the hardware reaching an armed compare value: the event
    /// latches and the compare shortcut stops the timer.
    pub fn expire(&mut self)
        requires
            old(self).armed,
        ensures
            !final(self).armed,
            final(self).event_flag,
            final(self).compare_us == old(self).compare_us,
    {
        self.armed = false;
        self.event_flag = true;
    }
}

/// One validated reprogram request applied to a timer state: the new
/// programming on success, the old state on an overflowing request.
pub open spec fn spec_reprogram_step(t: Timer, d: Option<Duration>) -> Timer {
    if Timer::spec_accepts(d) {
        Timer::spec_reprogrammed(d)
    } else {
        t
    }
}

/// A whole history of reprogram requests applied in order.
pub open spec fn spec_apply_reprograms(t: Timer, ds: Seq<Option<Duration>>) -> Timer
    decreases ds.len(),
{
    if ds.len() == 0 {
        t
    } else {
        spec_apply_reprograms(spec_reprogram_step(t, ds[0]), ds.drop_first())
    }
}

/// Law: after any sequence of reprogram requests whose last one is accepted,
/// only that last request governs the next firing — the pending deadline is
/// its own, and no stale latched event survives to fire an earlier deadline
/// after a later one was installed.
pub proof fn lemma_reprogram_supersedes(t: Timer, ds: Seq<Option<Duration>>)
    requires
        ds.len() > 0,
        Timer::spec_accepts(ds.last()),
    ensures
        spec_apply_reprograms(t, ds) == Timer::spec_reprogrammed(ds.last()),
        spec_apply_reprograms(t, ds).spec_pending() == Timer::spec_reprogrammed(
            ds.last(),
        ).spec_pending(),
        !spec_apply_reprograms(t, ds).event_flag,
    decreases ds.len(),
{
    if ds.len() == 1 {
        assert(ds[0] == ds.last());
        assert(ds.drop_first().len() == 0);
        assert(spec_apply_reprograms(spec_reprogram_step(t, ds[0]), ds.drop_first())
            == spec_reprogram_step(t, ds[0]));
    } else {
        assert(ds.drop_first().last() == ds.last());
        lemma_reprogram_supersedes(spec_reprogram_step(t, ds[0]), ds.drop_first());
    }
}

} // verus!
