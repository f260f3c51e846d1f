//! Linear parameter smoothing.
//!
//! A smoother holds a current value and ramps it toward a target by a
//! fixed nonnegative step per sample, stopping exactly on the target.
//! Setting a target over `n` samples picks the smallest step that reaches
//! the target within `n` ticks. Values are Q16 fixed point; the engine
//! ticks every cluster smoother once per sample (or in bulk once per
//! block), which keeps parameter changes free of clicks.
use vstd::prelude::*;

verus! {

/// Largest magnitude a smoothed value may take. Wide enough for every
/// quantity the engine smooths (weights, frame positions, log-domain
/// phase increments), small enough that all ramp arithmetic fits in i64.
pub const SMOOTH_VAL_BOUND: i64 = 0x1_0000_0000_0000;

/// A one-value linear ramp: `current` approaches `target` by `step` per tick.
#[derive(Clone, Copy, PartialEq, Eq, Structural, Debug)]
pub struct LinearSmoother {
    pub current: i64,
    pub target: i64,
    pub step: i64,
}

impl LinearSmoother {
    /// The values a smoother may hold without risking overflow.
    pub open spec fn wf(self) -> bool {
        &&& -SMOOTH_VAL_BOUND <= self.current <= SMOOTH_VAL_BOUND
        &&& -SMOOTH_VAL_BOUND <= self.target <= SMOOTH_VAL_BOUND
        &&& 0 <= self.step <= 2 * SMOOTH_VAL_BOUND
    }

    /// Distance still to travel before the ramp reaches its target.
    pub open spec fn distance(self) -> int {
        if self.target >= self.current {
            self.target - self.current
        } else {
            self.current - self.target
        }
    }

    /// One tick of the ramp: move `step` toward the target, stopping on it.
    pub open spec fn tick1_spec(self) -> LinearSmoother {
        if self.distance() <= self.step {
            LinearSmoother { current: self.target, ..self }
        } else if self.target >= self.current {
            LinearSmoother { current: (self.current + self.step) as i64, ..self }
        } else {
            LinearSmoother { current: (self.current - self.step) as i64, ..self }
        }
    }

    /// The ramp after `n` ticks.
    pub open spec fn ticked(self, n: nat) -> LinearSmoother
        decreases n,
    {
        if n == 0 {
            self
        } else {
            self.tick1_spec().ticked((n - 1) as nat)
        }
    }

    /// A fresh smoother rests at zero.
    pub fn new() -> (r: LinearSmoother)
        ensures
            r == (LinearSmoother { current: 0, target: 0, step: 0 }),
    {
        LinearSmoother { current: 0, target: 0, step: 0 }
    }

    /// Jump to `v` at once, cancelling any ramp in progress.
    pub fn set_val_instantly(&mut self, v: i64)
        requires
            -SMOOTH_VAL_BOUND <= v <= SMOOTH_VAL_BOUND,
        ensures
            *final(self) == (LinearSmoother { current: v, target: v, step: 0 }),
    {
        self.current = v;
        self.target = v;
        self.step = 0;
    }

    /// The smoother after retargeting: same current value, new target,
    /// and the smallest step that covers the distance in `samples` ticks.
    pub open spec fn retargeted_spec(self, target: i64, samples: u32) -> LinearSmoother {
        let d = if target >= self.current {
            target - self.current
        } else {
            self.current - target
        };
        LinearSmoother {
            current: self.current,
            target,
            step: ((d + samples - 1) / (samples as int)) as i64,
        }
    }

    /// Ramp toward `target`, reaching it within `samples` ticks: the step
    /// is the distance divided by `samples`, rounded up.
    pub fn set_target(&mut self, target: i64, samples: u32)
        requires
            old(self).wf(),
            1 <= samples,
            -SMOOTH_VAL_BOUND <= target <= SMOOTH_VAL_BOUND,
        ensures
            *final(self) == old(self).retargeted_spec(target, samples),
            final(self).wf(),
            final(self).step * samples >= final(self).distance(),
    {
        let d: u64 = if target >= self.current {
            (target - self.current) as u64
        } else {
            (self.current - target) as u64
        };
        let step: u64 = (d + (samples as u64) - 1) / (samples as u64);
        proof {
            let di = d as int;
            let si = samples as int;
            let q = (di + si - 1) / si;
            vstd::arithmetic::div_mod::lemma_fundamental_div_mod(di + si - 1, si);
            vstd::arithmetic::div_mod::lemma_mod_bound(di + si - 1, si);
            assert(q * si >= di);
            assert(q <= di) by {
                if q > di {
                    vstd::arithmetic::mul::lemma_mul_inequality(di + 1, q, si);
                    assert((di + 1) * si >= di + si) by (nonlinear_arith)
                        requires
                            di >= 0,
                            si >= 1,
                    ;
                }
            }
        }
        self.target = target;
        self.step = step as i64;
    }

    /// Advance the ramp by one sample.
    pub fn tick1(&mut self)
        requires
            old(self).wf(),
        ensures
            *final(self) == old(self).tick1_spec(),
            final(self).wf(),
    {
        if self.target >= self.current {
            if self.target - self.current <= self.step {
                self.current = self.target;
            } else {
                self.current = self.current + self.step;
            }
        } else {
            if self.current - self.target <= self.step {
                self.current = self.target;
            } else {
                self.current = self.current - self.step;
            }
        }
    }

    /// Advance the ramp by `n` samples.
    pub fn tick_n(&mut self, n: u32)
        requires
            old(self).wf(),
        ensures
            *final(self) == old(self).ticked(n as nat),
            final(self).wf(),
    {
        let mut i: u32 = 0;
        while i < n
            invariant
                i <= n,
                old(self).wf(),
                self.wf(),
                *self == old(self).ticked(i as nat),
            decreases n - i,
        {
            proof {
                lemma_ticked_one_more(*old(self), i as nat);
            }
            self.tick1();
            i = i + 1;
        }
    }
}

/// A ramp already resting on its target never moves again.
pub proof fn lemma_ticked_converged(s: LinearSmoother, n: nat)
    requires
        0 <= s.step,
        s.current == s.target,
    ensures
        s.ticked(n) == s,
    decreases n,
{
    if n > 0 {
        lemma_ticked_converged(s.tick1_spec(), (n - 1) as nat);
    }
}

/// Ticking `n + 1` times is one more tick after `n`.
pub proof fn lemma_ticked_one_more(s: LinearSmoother, n: nat)
    ensures
        s.ticked(n + 1) == s.ticked(n).tick1_spec(),
    decreases n,
{
    if n == 0 {
        assert(s.ticked(1) == s.tick1_spec().ticked(0));
        assert(s.tick1_spec().ticked(0) == s.tick1_spec());
    } else {
        assert(s.ticked(n + 1) == s.tick1_spec().ticked(n));
        assert(s.ticked(n) == s.tick1_spec().ticked((n - 1) as nat));
        lemma_ticked_one_more(s.tick1_spec(), (n - 1) as nat);
    }
}

/// Ticking preserves the target, the step, and well-formedness, and the
/// current value stays between where it started and the target.
pub proof fn lemma_ticked_stays_in_range(s: LinearSmoother, n: nat)
    requires
        s.wf(),
    ensures
        s.ticked(n).wf(),
        s.ticked(n).target == s.target,
        s.ticked(n).step == s.step,
        s.current <= s.target ==> s.current <= s.ticked(n).current <= s.target,
        s.current >= s.target ==> s.target <= s.ticked(n).current <= s.current,
    decreases n,
{
    if n > 0 {
        lemma_ticked_stays_in_range(s.tick1_spec(), (n - 1) as nat);
    }
}

/// A ramp whose current value sits below its target climbs monotonically:
/// each further tick never moves the value down, and never past the target.
pub proof fn lemma_ticked_monotone_up(s: LinearSmoother, n: nat)
    requires
        s.wf(),
        s.current <= s.target,
    ensures
        s.ticked(n).current <= s.ticked(n + 1).current <= s.target,
    decreases n,
{
    lemma_ticked_stays_in_range(s, n);
    lemma_ticked_one_more(s, n);
    lemma_ticked_stays_in_range(s, n + 1);
}

/// The mirror image: a ramp above its target descends monotonically.
pub proof fn lemma_ticked_monotone_down(s: LinearSmoother, n: nat)
    requires
        s.wf(),
        s.current >= s.target,
    ensures
        s.ticked(n).current >= s.ticked(n + 1).current >= s.target,
    decreases n,
{
    lemma_ticked_stays_in_range(s, n);
    lemma_ticked_one_more(s, n);
    lemma_ticked_stays_in_range(s, n + 1);
}

/// Once `n` steps cover the remaining distance the ramp has arrived:
/// after `n` ticks the current value equals the target exactly.
pub proof fn lemma_ticked_reaches_target(s: LinearSmoother, n: nat)
    requires
        s.wf(),
        s.step * n >= s.distance(),
    ensures
        s.ticked(n).current == s.target,
    decreases n,
{
    if n == 0 {
        assert(s.step * n == 0) by (nonlinear_arith)
            requires
                n == 0,
        ;
        assert(s.distance() <= 0);
    } else {
        assert(s.step * n == s.step * (n - 1) + s.step) by (nonlinear_arith)
            requires
                n >= 1,
        ;
        if s.distance() <= s.step {
            assert(s.tick1_spec().distance() == 0);
            assert(s.step * (n - 1) >= 0) by (nonlinear_arith)
                requires
                    n >= 1,
                    s.step >= 0,
            ;
            lemma_ticked_reaches_target(s.tick1_spec(), (n - 1) as nat);
        } else {
            assert(s.tick1_spec().distance() == s.distance() - s.step);
            lemma_ticked_reaches_target(s.tick1_spec(), (n - 1) as nat);
        }
    }
}

} // verus!
