use vstd::prelude::*;

verus! {

/// Milliseconds from `earlier` to `now`, zero when `now` is not later.
pub open spec fn elapsed_ms(now: u64, earlier: u64) -> nat {
    if now >= earlier {
        (now - earlier) as nat
    } else {
        0
    }
}

pub fn elapsed(now: u64, earlier: u64) -> (r: u64)
    ensures
        r as nat == elapsed_ms(now, earlier),
{
    if now >= earlier {
        now - earlier
    } else {
        0
    }
}

/// Decides when an evaluation cycle should run.
pub trait Trigger {
    /// Whether to fire at `now`; firing records `now`.
    fn should_fire(&mut self, now: u64) -> bool;

    /// Milliseconds until the next expected fire, 0 if ready.
    fn time_until_next_ms(&self, now: u64) -> u64;
}

/// Fires on the first call, then whenever `interval_ms` has elapsed since the last fire.
pub struct IntervalTrigger {
    pub interval_ms: u64,
    pub last: Option<u64>,
}

impl IntervalTrigger {
    pub open spec fn fires(&self, now: u64) -> bool {
        match self.last {
            None => true,
            Some(prev) => elapsed_ms(now, prev) >= self.interval_ms,
        }
    }

    /// The state after a call to `should_fire` at `now`.
    pub open spec fn after(&self, now: u64) -> IntervalTrigger {
        if self.fires(now) {
            IntervalTrigger { interval_ms: self.interval_ms, last: Some(now) }
        } else {
            *self
        }
    }

    pub open spec fn wait_ms(&self, now: u64) -> nat {
        match self.last {
            None => 0,
            Some(prev) => if elapsed_ms(now, prev) >= self.interval_ms {
                0
            } else {
                (self.interval_ms - elapsed_ms(now, prev)) as nat
            },
        }
    }

    pub fn new(interval_ms: u64) -> (r: IntervalTrigger)
        ensures
            r.interval_ms == interval_ms,
            r.last is None,
    {
        IntervalTrigger { interval_ms, last: None }
    }

    pub fn should_fire(&mut self, now: u64) -> (r: bool)
        ensures
            r == old(self).fires(now),
            *final(self) == old(self).after(now),
    {
        match self.last {
            None => {
                self.last = Some(now);
                true
            },
            Some(prev) => {
                if elapsed(now, prev) >= self.interval_ms {
                    self.last = Some(now);
                    true
                } else {
                    false
                }
            },
        }
    }

    pub fn time_until_next_ms(&self, now: u64) -> (r: u64)
        ensures
            r as nat == self.wait_ms(now),
    {
        match self.last {
            None => 0,
            Some(prev) => {
                let e = elapsed(now, prev);
                if e >= self.interval_ms {
                    0
                } else {
                    self.interval_ms - e
                }
            },
        }
    }
}

impl Trigger for IntervalTrigger {
    fn should_fire(&mut self, now: u64) -> bool {
        IntervalTrigger::should_fire(self, now)
    }

    fn time_until_next_ms(&self, now: u64) -> u64 {
        IntervalTrigger::time_until_next_ms(self, now)
    }
}

} // verus!
