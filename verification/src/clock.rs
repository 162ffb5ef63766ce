use vstd::prelude::*;

verus! {

/// A periodic gate driven by wall-clock deltas. Time accumulates in
/// milliseconds; whenever the accumulated time reaches the period the clock
/// fires, at most once per tick, and keeps the remainder.
#[derive(Clone, Copy, PartialEq, Eq, Structural, Debug)]
pub struct TickClock {
    /// The period in milliseconds; never zero.
    pub period_ms: u32,
    /// Time accumulated since the last firing; always below the period.
    pub acc_ms: u32,
}

impl TickClock {
    pub open spec fn wf(self) -> bool {
        self.period_ms > 0 && self.acc_ms < self.period_ms
    }

    /// Whether advancing this clock by `delta_ms` makes it fire.
    pub open spec fn fires(self, delta_ms: u32) -> bool {
        self.acc_ms + delta_ms >= self.period_ms
    }

    /// The clock state after advancing by `delta_ms`.
    pub open spec fn advanced(self, delta_ms: u32) -> TickClock {
        TickClock {
            period_ms: self.period_ms,
            acc_ms: ((self.acc_ms + delta_ms) % (self.period_ms as int)) as u32,
        }
    }

    pub fn new(period_ms: u32) -> (c: TickClock)
        requires
            period_ms > 0,
        ensures
            c.wf(),
            c.period_ms == period_ms,
            c.acc_ms == 0,
    {
        TickClock { period_ms, acc_ms: 0 }
    }

    /// Advances the clock by `delta_ms` and reports whether it fired.
    pub fn tick(&mut self, delta_ms: u32) -> (fired: bool)
        requires
            old(self).wf(),
        ensures
            final(self).wf(),
            fired == old(self).fires(delta_ms),
            *final(self) == old(self).advanced(delta_ms),
    {
        let sum: u64 = self.acc_ms as u64 + delta_ms as u64;
        let period: u64 = self.period_ms as u64;
        proof {
            assert((sum as int) % (period as int) < period as int && (sum as int) % (period as int) >= 0)
                by (nonlinear_arith)
                requires
                    period > 0,
                    sum >= 0,
            ;
        }
        if sum >= period {
            self.acc_ms = (sum % period) as u32;
            true
        } else {
            assert((sum as int) % (period as int) == sum as int) by (nonlinear_arith)
                requires
                    0 <= sum < period,
            ;
            self.acc_ms = sum as u32;
            false
        }
    }
}

/// A freshly wound clock fires after exactly one period and is freshly
/// wound again, so ticking a new clock by its period `n` times makes it
/// fire `n` times. With the mode clock this gives the mode cycle: three
/// exact periods return the mode to where it began.
pub proof fn lemma_exact_period_fires(c: TickClock)
    requires
        c.wf(),
        c.acc_ms == 0,
    ensures
        c.fires(c.period_ms),
        c.advanced(c.period_ms) == (TickClock { period_ms: c.period_ms, acc_ms: 0 }),
{
    assert((c.period_ms as int) % (c.period_ms as int) == 0) by (nonlinear_arith)
        requires
            c.period_ms > 0,
    ;
}

} // verus!
