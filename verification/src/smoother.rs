//! Exponential smoothing of amplitude readings.
//!
//! The smoother keeps a running estimate in micro-units and folds each new
//! reading in with a fixed factor `num / den` in `(0, 1]`: the lower the
//! factor, the more smoothing (the less weight the newest reading carries).
//! The very first reading becomes the estimate unchanged. All arithmetic is
//! integer arithmetic; the fractional step is truncated toward the old
//! estimate, so the estimate moves toward a reading but never past it.
use vstd::prelude::*;
use vstd::arithmetic::div_mod::{lemma_div_by_self, lemma_div_is_ordered,
    lemma_div_multiples_vanish, lemma_div_pos_is_pos};
use vstd::arithmetic::mul::{lemma_mul_inequality, lemma_mul_nonnegative};

verus! {

/// One smoothing step: moves the estimate `v` toward the reading `x` by the
/// fraction `num / den` of their distance, rounded toward `v`.
pub open spec fn ema_step(v: int, x: int, num: int, den: int) -> int {
    if x >= v {
        v + num * (x - v) / den
    } else {
        v - num * (v - x) / den
    }
}

/// Mathematical model of a smoother: the smoothing factor `num / den`,
/// whether a first reading has been absorbed, and the current estimate.
pub struct SmModel {
    pub num: int,
    pub den: int,
    pub primed: bool,
    pub value: int,
}

impl SmModel {
    /// The state of a freshly constructed smoother.
    pub open spec fn fresh(num: int, den: int) -> SmModel {
        SmModel { num, den, primed: false, value: 0 }
    }

    /// Effect of folding in one reading.
    pub open spec fn feed1(self, x: int) -> SmModel {
        if !self.primed {
            SmModel { primed: true, value: x, ..self }
        } else {
            SmModel { value: ema_step(self.value, x, self.num, self.den), ..self }
        }
    }

    /// Effect of folding in the same reading `n` times over.
    pub open spec fn feed_const(self, x: int, n: nat) -> SmModel
        decreases n,
    {
        if n == 0 {
            self
        } else {
            self.feed_const(x, (n - 1) as nat).feed1(x)
        }
    }
}

/// Running exponential-moving-average estimate of the amplitude, in
/// micro-units.
pub struct Smoother {
    num: u64,
    den: u64,
    primed: bool,
    value: u64,
}

impl View for Smoother {
    type V = SmModel;

    closed spec fn view(&self) -> SmModel {
        SmModel {
            num: self.num as int,
            den: self.den as int,
            primed: self.primed,
            value: self.value as int,
        }
    }
}

impl Smoother {
    /// Structural invariant: the smoothing factor is a proportion in
    /// `(0, 1]`.
    pub open spec fn wf(self) -> bool {
        0 < self@.num <= self@.den
    }

    pub fn new(num: u64, den: u64) -> (r: Self)
        requires
            0 < num <= den,
        ensures
            r@ == SmModel::fresh(num as int, den as int),
            r.wf(),
    {
        Smoother { num, den, primed: false, value: 0 }
    }

    /// Folds one amplitude reading into the running estimate. The first
    /// reading on a fresh smoother becomes the estimate exactly; afterwards
    /// the estimate moves toward each reading by the smoothing fraction of
    /// their distance.
    pub fn feed(&mut self, x: u64)
        requires
            old(self).wf(),
        ensures
            final(self)@ == old(self)@.feed1(x as int),
            final(self).wf(),
    {
        if !self.primed {
            self.primed = true;
            self.value = x;
        } else if x >= self.value {
            let diff: u64 = x - self.value;
            proof {
                lemma_mul_u64_fits_u128(self.num as int, diff as int);
                lemma_scaled_diff_bound(self.num as int, self.den as int, diff as int);
            }
            let step: u128 = (self.num as u128) * (diff as u128) / (self.den as u128);
            self.value = self.value + step as u64;
        } else {
            let diff: u64 = self.value - x;
            proof {
                lemma_mul_u64_fits_u128(self.num as int, diff as int);
                lemma_scaled_diff_bound(self.num as int, self.den as int, diff as int);
            }
            let step: u128 = (self.num as u128) * (diff as u128) / (self.den as u128);
            self.value = self.value - step as u64;
        }
    }

    /// The current estimate; mutates nothing.
    pub fn value(&self) -> (r: u64)
        ensures
            r == self@.value,
    {
        self.value
    }
}

/// The product of two `u64`-sized factors always fits in a `u128`.
proof fn lemma_mul_u64_fits_u128(a: int, b: int)
    requires
        0 <= a < 0x1_0000_0000_0000_0000,
        0 <= b < 0x1_0000_0000_0000_0000,
    ensures
        a * b < 0x1_0000_0000_0000_0000_0000_0000_0000_0000,
{
    assert(a * b < 0x1_0000_0000_0000_0000_0000_0000_0000_0000) by (nonlinear_arith)
        requires
            0 <= a < 0x1_0000_0000_0000_0000,
            0 <= b < 0x1_0000_0000_0000_0000,
    ;
}

/// The truncated fractional step never exceeds the distance it is a fraction
/// of.
pub proof fn lemma_scaled_diff_bound(num: int, den: int, diff: int)
    requires
        0 < num <= den,
        0 <= diff,
    ensures
        0 <= num * diff / den <= diff,
{
    lemma_mul_nonnegative(num, diff);
    lemma_div_pos_is_pos(num * diff, den);
    lemma_mul_inequality(num, den, diff);
    lemma_div_is_ordered(num * diff, den * diff, den);
    lemma_div_multiples_vanish(diff, den);
}

/// First-value law: the first reading fed to a fresh smoother becomes the
/// estimate exactly — no blending against an undefined prior state.
pub proof fn lemma_first_value(sm: SmModel, x: int)
    requires
        !sm.primed,
    ensures
        sm.feed1(x).value == x,
        sm.feed1(x).primed,
{
}

/// One smoothing step keeps the estimate between its old value and the
/// reading: it moves toward the reading and never overshoots past it. The
/// move is strict whenever the weighted distance amounts to at least one
/// micro-unit.
pub proof fn lemma_step_toward(v: int, x: int, num: int, den: int)
    requires
        0 < num <= den,
    ensures
        v <= x ==> v <= ema_step(v, x, num, den) <= x,
        x <= v ==> x <= ema_step(v, x, num, den) <= v,
        v < x && num * (x - v) >= den ==> v < ema_step(v, x, num, den),
        x < v && num * (v - x) >= den ==> ema_step(v, x, num, den) < v,
{
    lemma_div_by_self(den);
    if x >= v {
        lemma_scaled_diff_bound(num, den, x - v);
        if num * (x - v) >= den {
            lemma_div_is_ordered(den, num * (x - v), den);
        }
    } else {
        lemma_scaled_diff_bound(num, den, v - x);
        if num * (v - x) >= den {
            lemma_div_is_ordered(den, num * (v - x), den);
        }
    }
}

/// Convergence law, from below: feeding a constant reading `x` at or above
/// the current estimate moves the estimate monotonically toward `x` and
/// never past it, for any smoothing factor in `(0, 1]`.
pub proof fn lemma_convergence_from_below(sm: SmModel, x: int, n: nat)
    requires
        0 < sm.num <= sm.den,
        sm.primed,
        sm.value <= x,
    ensures
        sm.value <= sm.feed_const(x, n).value <= x,
        sm.feed_const(x, n).value <= sm.feed_const(x, n + 1).value,
        sm.feed_const(x, n).primed,
        sm.feed_const(x, n).num == sm.num,
        sm.feed_const(x, n).den == sm.den,
    decreases n,
{
    if n > 0 {
        lemma_convergence_from_below(sm, x, (n - 1) as nat);
        lemma_step_toward(sm.feed_const(x, (n - 1) as nat).value, x, sm.num, sm.den);
    }
    lemma_step_toward(sm.feed_const(x, n).value, x, sm.num, sm.den);
    assert(sm.feed_const(x, n + 1) == sm.feed_const(x, n).feed1(x));
}

/// Convergence law, from above: feeding a constant reading `x` at or below
/// the current estimate moves the estimate monotonically down toward `x`
/// and never past it.
pub proof fn lemma_convergence_from_above(sm: SmModel, x: int, n: nat)
    requires
        0 < sm.num <= sm.den,
        sm.primed,
        x <= sm.value,
    ensures
        x <= sm.feed_const(x, n).value <= sm.value,
        sm.feed_const(x, n + 1).value <= sm.feed_const(x, n).value,
        sm.feed_const(x, n).primed,
        sm.feed_const(x, n).num == sm.num,
        sm.feed_const(x, n).den == sm.den,
    decreases n,
{
    if n > 0 {
        lemma_convergence_from_above(sm, x, (n - 1) as nat);
        lemma_step_toward(sm.feed_const(x, (n - 1) as nat).value, x, sm.num, sm.den);
    }
    lemma_step_toward(sm.feed_const(x, n).value, x, sm.num, sm.den);
    assert(sm.feed_const(x, n + 1) == sm.feed_const(x, n).feed1(x));
}

} // verus!
