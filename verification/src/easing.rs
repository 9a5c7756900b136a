//! An eased scalar transition, used by the camera's zoom animation.

use vstd::prelude::*;

verus! {

use crate::fx::FX_ONE;
use crate::fx::fx_in_bounds;
use crate::fx::fx_mul;
use crate::fx::lemma_fx_scale_bounds;
use vstd::math::min;
use vstd::math::max;
use vstd::arithmetic::div_mod::lemma_div_is_ordered;
use vstd::arithmetic::div_mod::lemma_div_pos_is_pos;
use vstd::arithmetic::div_mod::lemma_div_multiples_vanish;
use vstd::arithmetic::div_mod::lemma_fundamental_div_mod_converse_div;

/// The cubic ease-out curve at `x` (both in fixed point, `x` in [0, 1]):
/// one minus the cube of the remaining distance.
pub open spec fn ease_out_cubic_spec(x: int) -> int {
    let u = (FX_ONE as int) - x;
    (FX_ONE as int) - (u * u * u) / ((FX_ONE as int) * (FX_ONE as int))
}

/// The eased progress after `elapsed` of `duration` microseconds
/// (with `0 <= elapsed < duration`): the cubic ease-out of the elapsed
/// fraction, snapped to one once it passes 96 percent.
pub open spec fn eased_progress_spec(elapsed: int, duration: int) -> int {
    let x = (elapsed * (FX_ONE as int)) / duration;
    let p = ease_out_cubic_spec(x);
    if 100 * p > 96 * (FX_ONE as int) {
        FX_ONE as int
    } else {
        p
    }
}

/// The animated value after `elapsed` of `duration` microseconds
/// (with `0 <= elapsed < duration`): `start` moved toward `end` by the
/// eased progress.
pub open spec fn eased_sample_spec(start: int, end: int, elapsed: int, duration: int) -> int {
    start + ((end - start) * eased_progress_spec(elapsed, duration)) / (FX_ONE as int)
}

/// An eased transition of a fixed-point value over a duration in
/// microseconds.  A transition whose elapsed time has reached its duration
/// is finished and holds its end value.
#[derive(Debug, Copy, Clone, PartialEq, Eq, Structural)]
pub struct EasingAnimator {
    start: i64,
    end: i64,
    duration_us: u64,
    elapsed_us: u64,
}

impl EasingAnimator {
    /// Both endpoints are small enough for the interpolation arithmetic.
    pub closed spec fn wf(self) -> bool {
        fx_in_bounds(self.start as int) && fx_in_bounds(self.end as int)
    }

    pub closed spec fn start_spec(self) -> i64 {
        self.start
    }

    pub closed spec fn end_spec(self) -> i64 {
        self.end
    }

    pub closed spec fn duration_spec(self) -> u64 {
        self.duration_us
    }

    pub closed spec fn elapsed_spec(self) -> u64 {
        self.elapsed_us
    }

    /// A transition is finished once its elapsed time reaches its duration.
    pub open spec fn finished_spec(self) -> bool {
        self.elapsed_spec() >= self.duration_spec()
    }

    /// Starts a transition from `start` to `end` lasting `duration_us`
    /// microseconds.
    pub fn new(start: i64, end: i64, duration_us: u64) -> (a: EasingAnimator)
        requires
            fx_in_bounds(start as int),
            fx_in_bounds(end as int),
        ensures
            a.wf(),
            a.start_spec() == start,
            a.end_spec() == end,
            a.duration_spec() == duration_us,
            a.elapsed_spec() == 0,
    {
        EasingAnimator { start, end, duration_us, elapsed_us: 0 }
    }

    /// The transition's end value.
    pub fn end(&self) -> (e: i64)
        ensures
            e == self.end_spec(),
    {
        self.end
    }

    /// Whether the transition has run for its whole duration.
    pub fn if_finished(&self) -> (r: bool)
        ensures
            r == self.finished_spec(),
    {
        self.elapsed_us >= self.duration_us
    }

    /// Advances the transition by `delta_us` microseconds and returns the
    /// current value: the end value once finished, otherwise the eased
    /// sample between start and end.  The result never leaves the interval
    /// the two endpoints span.
    pub fn update(&mut self, delta_us: u64) -> (r: i64)
        requires
            old(self).wf(),
        ensures
            final(self).wf(),
            final(self).start_spec() == old(self).start_spec(),
            final(self).end_spec() == old(self).end_spec(),
            final(self).duration_spec() == old(self).duration_spec(),
            final(self).elapsed_spec() == if old(self).elapsed_spec() + delta_us <= u64::MAX {
                old(self).elapsed_spec() + delta_us
            } else {
                u64::MAX as int
            },
            final(self).finished_spec() ==> r == final(self).end_spec(),
            !final(self).finished_spec() ==> r == eased_sample_spec(
                final(self).start_spec() as int,
                final(self).end_spec() as int,
                final(self).elapsed_spec() as int,
                final(self).duration_spec() as int,
            ),
            min(final(self).start_spec() as int, final(self).end_spec() as int) <= r as int
                <= max(final(self).start_spec() as int, final(self).end_spec() as int),
    {
        self.elapsed_us = match self.elapsed_us.checked_add(delta_us) {
            Some(sum) => sum,
            None => u64::MAX,
        };
        if self.elapsed_us >= self.duration_us {
            return self.end;
        }
        let f = FX_ONE;
        let ghost fi: int = FX_ONE as int;
        // Elapsed fraction of the duration, in fixed point, below one.
        let x: i64 = ((self.elapsed_us as u128 * (f as u128)) / (self.duration_us as u128)) as i64;
        proof {
            let e = self.elapsed_us as int;
            let d = self.duration_us as int;
            lemma_div_pos_is_pos(e * fi, d);
            lemma_div_is_ordered(e * fi, fi * d - 1, d);
            assert(e * fi <= fi * d - 1) by (nonlinear_arith)
                requires 0 <= e && e < d && fi == 65536;
            assert((fi * d - 1) / d == fi - 1) by {
                assert(fi * d - 1 == (fi - 1) * d + (d - 1)) by (nonlinear_arith);
                lemma_fundamental_div_mod_converse_div(fi * d - 1, d, fi - 1, d - 1);
            };
        }
        let u: i64 = f - x;
        proof {
            assert(1 <= u <= 65536);
            assert(u * u <= 65536 * 65536) by (nonlinear_arith)
                requires 1 <= u <= 65536;
            assert(u * u * u <= 65536 * 65536 * 65536) by (nonlinear_arith)
                requires 1 <= u <= 65536;
            assert(u * u * u >= 1) by (nonlinear_arith)
                requires 1 <= u;
        }
        let u3: i64 = u * u * u;
        let shrink: u64 = (u3 as u64) / 4294967296;
        proof {
            lemma_div_pos_is_pos(u3 as int, 4294967296);
            lemma_div_is_ordered(u3 as int, 65536int * 65536 * 65536, 4294967296);
            lemma_div_multiples_vanish(65536, 4294967296);
        }
        let p: i64 = f - shrink as i64;
        proof {
            assert(p == ease_out_cubic_spec(x as int));
            assert(0 <= p <= fi);
        }
        let progress: i64 = if 100 * p > 96 * f {
            f
        } else {
            p
        };
        let diff: i64 = self.end - self.start;
        proof {
            lemma_fx_scale_bounds(diff as int, progress as int);
            assert(diff * progress <= i64::MAX * fi && diff * progress >= i64::MIN * fi)
                by (nonlinear_arith)
                requires -0x1_0000_0000_0000_0000i128 <= diff <= 0x1_0000_0000_0000_0000i128
                    && 0 <= progress <= 65536 && fi == 65536;
        }
        let scaled: i64 = fx_mul(diff, progress);
        self.start + scaled
    }
}

impl Default for EasingAnimator {
    /// A transition already finished at value zero.
    fn default() -> (a: Self)
        ensures
            a.wf(),
            a.start_spec() == 0,
            a.end_spec() == 0,
            a.duration_spec() == 0,
            a.elapsed_spec() == 0,
            a.finished_spec(),
    {
        EasingAnimator { start: 0, end: 0, duration_us: 0, elapsed_us: 0 }
    }
}

} // verus!
