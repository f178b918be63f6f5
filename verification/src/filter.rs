//! Two-stage one-pole smoothing filter.
//!
//! Each call to [`Filter::process`] advances two cascaded one-pole
//! low-pass stages that share one cutoff coefficient.  A resonance
//! parameter and the feedback term derived from it are tracked and
//! recomputed whenever cutoff or resonance changes, but the feedback term
//! is deliberately not folded into the two-stage recurrence; the filter is
//! a resonance-less two-pole smoother.

use crate::fixed::{div_trunc, lemma_div_bound_nonneg, scaled_mul, SCALE};
use vstd::prelude::*;

verus! {

/// One step of a one-pole stage: the buffer moves toward the input by the
/// cutoff fraction of their distance.
pub open spec fn filter_step(buf: int, cutoff: int, input: int) -> int {
    buf + div_trunc(cutoff * (input - buf), SCALE as int)
}

/// A one-pole step never leaves the interval spanned by its buffer and its
/// input, so in-range signals stay in range.
pub proof fn lemma_filter_step_bounds(buf: int, cutoff: int, input: int)
    requires
        0 <= cutoff <= SCALE,
    ensures
        buf <= input ==> buf <= filter_step(buf, cutoff, input) <= input,
        input <= buf ==> input <= filter_step(buf, cutoff, input) <= buf,
{
    let d = input - buf;
    if d >= 0 {
        assert(0 <= cutoff * d <= d * (SCALE as int)) by (nonlinear_arith)
            requires
                0 <= cutoff <= SCALE,
                d >= 0,
        ;
        lemma_div_bound_nonneg(cutoff * d, SCALE as int, d);
    } else {
        assert(0 <= cutoff * (-d) <= (-d) * (SCALE as int)) by (nonlinear_arith)
            requires
                0 <= cutoff <= SCALE,
                d < 0,
        ;
        lemma_div_bound_nonneg(cutoff * (-d), SCALE as int, -d);
        assert(-(cutoff * d) == cutoff * (-d) && cutoff * d <= 0) by (nonlinear_arith)
            requires
                0 <= cutoff,
                d < 0,
        ;
    }
}

/// The smoothing filter: a cutoff coefficient, a resonance setting with
/// its derived feedback term, and the two stage buffers.
pub struct Filter {
    /// Cutoff coefficient, a fixed-point fraction below 1.0.
    pub cutoff: i64,
    /// Resonance setting, a fixed-point fraction.
    pub resonance: i64,
    /// Feedback term derived from cutoff and resonance; tracked, not
    /// applied by `process`.
    pub feedback: i64,
    /// First stage buffer.
    pub buf0: i64,
    /// Second stage buffer.
    pub buf1: i64,
}

impl Filter {
    /// Coefficients are in-range fractions and both stage buffers carry
    /// in-range signal values.
    pub open spec fn wf(self) -> bool {
        &&& 0 <= self.cutoff < SCALE
        &&& 0 <= self.resonance <= SCALE
        &&& -(SCALE as int) <= self.buf0 <= SCALE as int
        &&& -(SCALE as int) <= self.buf1 <= SCALE as int
    }

    /// The feedback term the resonance and cutoff settings determine.
    pub open spec fn feedback_for(cutoff: int, resonance: int) -> int
        recommends
            0 <= cutoff < SCALE,
    {
        resonance + (resonance * (SCALE as int)) / ((SCALE as int) - cutoff)
    }

    /// Creates a filter with quiet stage buffers: the first at silence,
    /// the second at full amplitude.
    pub fn new(cutoff: i64, resonance: i64, feedback: i64) -> (f: Filter)
        requires
            0 <= cutoff < SCALE,
            0 <= resonance <= SCALE,
        ensures
            f.wf(),
            f.cutoff == cutoff,
            f.resonance == resonance,
            f.feedback == feedback,
            f.buf0 == 0,
            f.buf1 == SCALE,
    {
        Filter { cutoff, resonance, feedback, buf0: 0, buf1: SCALE }
    }

    /// Recomputes the feedback term from the current cutoff and resonance.
    fn calculate_feedback(&mut self)
        requires
            old(self).wf(),
        ensures
            final(self).wf(),
            *final(self) == (Filter {
                feedback: Filter::feedback_for(
                    old(self).cutoff as int,
                    old(self).resonance as int,
                ) as i64,
                ..*old(self)
            }),
    {
        proof {
            assert((self.resonance as int) * (SCALE as int) <= ((self.resonance as int) * (
            SCALE as int)) * ((SCALE as int) - (self.cutoff as int))) by (nonlinear_arith)
                requires
                    0 <= self.resonance,
                    0 < (SCALE as int) - (self.cutoff as int),
            ;
            lemma_div_bound_nonneg(
                (self.resonance as int) * (SCALE as int),
                (SCALE as int) - (self.cutoff as int),
                (self.resonance as int) * (SCALE as int),
            );
        }
        self.feedback = self.resonance + (self.resonance * SCALE) / (SCALE - self.cutoff);
    }

    /// Changes the cutoff coefficient and recomputes the feedback term.
    pub fn set_cutoff(&mut self, cutoff: i64)
        requires
            old(self).wf(),
            0 <= cutoff < SCALE,
        ensures
            final(self).wf(),
            *final(self) == (Filter {
                cutoff,
                feedback: Filter::feedback_for(cutoff as int, old(self).resonance as int) as i64,
                ..*old(self)
            }),
    {
        self.cutoff = cutoff;
        self.calculate_feedback();
    }

    /// Changes the resonance setting and recomputes the feedback term.
    pub fn set_resonance(&mut self, resonance: i64)
        requires
            old(self).wf(),
            0 <= resonance <= SCALE,
        ensures
            final(self).wf(),
            *final(self) == (Filter {
                resonance,
                feedback: Filter::feedback_for(old(self).cutoff as int, resonance as int) as i64,
                ..*old(self)
            }),
    {
        self.resonance = resonance;
        self.calculate_feedback();
    }

    /// Overrides the feedback term directly.
    pub fn set_feedback(&mut self, feedback: i64)
        requires
            old(self).wf(),
        ensures
            final(self).wf(),
            *final(self) == (Filter { feedback, ..*old(self) }),
    {
        self.feedback = feedback;
    }

    /// Feeds one sample through both stages and returns the second
    /// stage's buffer, the smoothed sample.
    pub fn process(&mut self, input: i64) -> (out: i64)
        requires
            old(self).wf(),
            -SCALE <= input <= SCALE,
        ensures
            final(self).wf(),
            final(self).buf0 == filter_step(old(self).buf0 as int, old(self).cutoff as int, input as int),
            final(self).buf1 == filter_step(
                old(self).buf1 as int,
                old(self).cutoff as int,
                final(self).buf0 as int,
            ),
            out == final(self).buf1,
            -SCALE <= out <= SCALE,
            final(self).cutoff == old(self).cutoff,
            final(self).resonance == old(self).resonance,
            final(self).feedback == old(self).feedback,
    {
        proof {
            lemma_filter_step_bounds(self.buf0 as int, self.cutoff as int, input as int);
        }
        let step0: i64 = scaled_mul(self.cutoff, input - self.buf0);
        self.buf0 = self.buf0 + step0;
        proof {
            lemma_filter_step_bounds(self.buf1 as int, self.cutoff as int, self.buf0 as int);
        }
        let step1: i64 = scaled_mul(self.cutoff, self.buf0 - self.buf1);
        self.buf1 = self.buf1 + step1;
        self.buf1
    }
}

} // verus!
