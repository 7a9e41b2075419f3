//! Windowed amplitude extraction.
//!
//! Raw samples are fed one by one; once a configured number of them (the
//! window) has been accumulated, the window's amplitude — the arithmetic mean
//! of the accumulated samples, rounded down to whole micro-units — becomes
//! available. Querying before the window is complete yields an explicit
//! "not ready" result, never a stale or zero value.
use vstd::prelude::*;
use crate::config::MAX_WINDOW;

verus! {

/// Mathematical model of an accumulator: the configured window size together
/// with the count and running sum of all samples fed since the last reset.
pub struct AccModel {
    pub window: int,
    pub count: int,
    pub sum: int,
}

impl AccModel {
    /// The state of a freshly constructed accumulator.
    pub open spec fn fresh(window: int) -> AccModel {
        AccModel { window, count: 0, sum: 0 }
    }

    /// Effect of feeding one sample.
    pub open spec fn feed1(self, x: int) -> AccModel {
        AccModel { count: self.count + 1, sum: self.sum + x, ..self }
    }

    /// Effect of feeding a whole sequence of samples, in order.
    pub open spec fn feed_all(self, s: Seq<int>) -> AccModel
        decreases s.len(),
    {
        if s.len() == 0 {
            self
        } else {
            self.feed_all(s.drop_last()).feed1(s.last())
        }
    }

    /// Effect of a reset: back to the fresh state, window kept.
    pub open spec fn reset(self) -> AccModel {
        AccModel::fresh(self.window)
    }

    /// The amplitude of the current window: the mean of the accumulated
    /// samples once the window is complete, and nothing before that.
    pub open spec fn amplitude(self) -> Option<int> {
        if self.count >= self.window {
            Some(self.sum / self.count)
        } else {
            None
        }
    }
}

/// Consumes raw samples (in micro-units) and produces one amplitude reading
/// per completed window.
pub struct AmplitudeAccumulator {
    window: u64,
    count: u64,
    sum: u64,
}

impl View for AmplitudeAccumulator {
    type V = AccModel;

    closed spec fn view(&self) -> AccModel {
        AccModel {
            window: self.window as int,
            count: self.count as int,
            sum: self.sum as int,
        }
    }
}

impl AmplitudeAccumulator {
    /// Structural invariant: the window is at least one sample and stays
    /// under the cap, and the sum never exceeds what `count` samples of the
    /// largest possible value could have contributed — which keeps every
    /// arithmetic step below inside `u64`.
    pub open spec fn wf(self) -> bool {
        &&& 1 <= self@.window <= MAX_WINDOW
        &&& self@.sum <= self@.count * (u32::MAX as int)
    }

    pub fn new(window_size: u64) -> (r: Self)
        requires
            1 <= window_size <= MAX_WINDOW,
        ensures
            r@ == AccModel::fresh(window_size as int),
            r.wf(),
    {
        AmplitudeAccumulator { window: window_size, count: 0, sum: 0 }
    }

    /// Appends one sample to the current window's aggregation; no other
    /// state is touched.
    pub fn feed(&mut self, sample: u32)
        requires
            old(self).wf(),
            old(self)@.count < u32::MAX as int,
        ensures
            final(self)@ == old(self)@.feed1(sample as int),
            final(self).wf(),
    {
        proof {
            assert(self@.count * (u32::MAX as int) + (u32::MAX as int)
                <= (u32::MAX as int) * (u32::MAX as int)) by (nonlinear_arith)
                requires
                    0 <= self@.count,
                    self@.count < u32::MAX as int,
            ;
        }
        self.count = self.count + 1;
        self.sum = self.sum + sample as u64;
    }

    /// The current window's amplitude, or `None` while the window is still
    /// incomplete. Non-destructive: repeated queries agree until the next
    /// feed or reset.
    pub fn amplitude(&self) -> (r: Option<u64>)
        requires
            self.wf(),
        ensures
            r matches Some(a) ==> self@.amplitude() == Some(a as int),
            r is None <==> self@.amplitude() is None,
    {
        if self.count >= self.window {
            Some(self.sum / self.count)
        } else {
            None
        }
    }

    /// Clears the window aggregation back to the initial state.
    pub fn reset(&mut self)
        ensures
            final(self)@ == old(self)@.reset(),
            old(self).wf() ==> final(self).wf(),
    {
        self.count = 0;
        self.sum = 0;
    }
}

/// Feeding preserves the window and grows the count by exactly the number of
/// samples fed.
pub proof fn lemma_feed_all_counts(m: AccModel, s: Seq<int>)
    ensures
        m.feed_all(s).window == m.window,
        m.feed_all(s).count == m.count + s.len(),
    decreases s.len(),
{
    if s.len() > 0 {
        lemma_feed_all_counts(m, s.drop_last());
    }
}

/// Window gating law: any sequence shorter than the window leaves the
/// amplitude unavailable, and any sequence reaching the window size makes
/// exactly one reading available, whatever the sample values are.
pub proof fn lemma_window_gating(window: int, s: Seq<int>)
    requires
        window >= 1,
    ensures
        s.len() < window ==> AccModel::fresh(window).feed_all(s).amplitude() is None,
        s.len() >= window ==> AccModel::fresh(window).feed_all(s).amplitude() is Some,
{
    lemma_feed_all_counts(AccModel::fresh(window), s);
}

/// Reset idempotence law: feeding a sequence, resetting, and feeding the
/// same sequence again yields the same amplitude result both times.
pub proof fn lemma_reset_idempotence(window: int, s: Seq<int>)
    requires
        window >= 1,
    ensures
        ({
            let first = AccModel::fresh(window).feed_all(s);
            let again = first.reset().feed_all(s);
            again.amplitude() == first.amplitude()
        }),
{
    lemma_feed_all_counts(AccModel::fresh(window), s);
}

} // verus!
