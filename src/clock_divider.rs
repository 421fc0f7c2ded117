use vstd::prelude::*;

verus! {

/// Divides a fast clock: it fires once every `ratio` ticks, and can be
/// delayed by a number of its own periods or of raw ticks.
pub struct ClockDivider {
    pub ratio: u64,
    pub ticks_until_triggered: u64,
}

impl ClockDivider {
    pub open spec fn is_triggered_spec(&self) -> bool {
        self.ticks_until_triggered == 0
    }

    pub fn new(ratio: u64) -> (r: Self)
        requires
            ratio > 0,
        ensures
            r.ratio == ratio,
            r.ticks_until_triggered == 0,
    {
        ClockDivider { ratio, ticks_until_triggered: 0 }
    }

    pub fn reset(&mut self)
        ensures
            final(self).ratio == old(self).ratio,
            final(self).ticks_until_triggered == 0,
    {
        self.ticks_until_triggered = 0;
    }

    /// One tick of the fast clock: a divider that has fired restarts its period.
    pub fn tick(&mut self)
        requires
            old(self).ratio > 0,
        ensures
            final(self).ratio == old(self).ratio,
            old(self).ticks_until_triggered == 0 ==> final(self).ticks_until_triggered
                == old(self).ratio - 1,
            old(self).ticks_until_triggered > 0 ==> final(self).ticks_until_triggered
                == old(self).ticks_until_triggered - 1,
    {
        if self.ticks_until_triggered == 0 {
            self.ticks_until_triggered = self.ratio;
        }
        self.ticks_until_triggered -= 1;
    }

    /// Postpones the next firing by `triggers` whole periods.
    pub fn delay(&mut self, triggers: u64)
        requires
            old(self).ticks_until_triggered + triggers * old(self).ratio <= u64::MAX,
        ensures
            final(self).ratio == old(self).ratio,
            final(self).ticks_until_triggered == old(self).ticks_until_triggered + triggers
                * old(self).ratio,
    {
        proof {
            assert(triggers * self.ratio >= 0) by (nonlinear_arith);
        }
        self.ticks_until_triggered += triggers * self.ratio;
    }

    /// Postpones the next firing by `ticks` ticks of the fast clock.
    pub fn delay_ticks(&mut self, ticks: u64)
        requires
            old(self).ticks_until_triggered + ticks <= u64::MAX,
        ensures
            final(self).ratio == old(self).ratio,
            final(self).ticks_until_triggered == old(self).ticks_until_triggered + ticks,
    {
        self.ticks_until_triggered += ticks;
    }

    pub fn is_triggered(&self) -> (r: bool)
        ensures
            r == self.is_triggered_spec(),
    {
        self.ticks_until_triggered == 0
    }
}

} // verus!
