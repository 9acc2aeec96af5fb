//! Step-delay calculator for the learning/relearning phase of a
//! spaced-repetition scheduler.
//!
//! A card in learning walks through an ordered sequence of short step
//! delays before graduating to long-interval review.  [`LearningSteps`]
//! is a read-only view over that sequence (each step given in whole
//! seconds) and answers, for a caller-supplied progress counter, how
//! long to wait after each rating and how the counter changes.
//!
//! The progress counter packs an unrelated "seen today" lapse count in
//! its upper decimal digits; only `remaining % 1000` is interpreted
//! here.  Every query is total: an empty schedule or an out-of-range
//! counter yields a defined fallback, never a panic.

use vstd::prelude::*;
use vstd::slice::slice_index_get;

verus! {

/// Delay returned for "Again" in learning when no steps are configured:
/// a card in learning must always have some delay.
pub const DEFAULT_SECS_IF_MISSING: u32 = 60;

/// The index of the step a card currently sits at: strip the lapse
/// count (`remaining % 1000`), subtract from the step count with a
/// floor of zero, and clamp into `[0, len - 1]`.  An empty schedule
/// yields 0, which callers never use to index.
pub open spec fn index_for(steps: Seq<u32>, remaining: u32) -> int {
    let r = (remaining % 1000) as int;
    let total = steps.len() as int;
    let start = if total >= r {
        total - r
    } else {
        0
    };
    let cap = if total >= 1 {
        total - 1
    } else {
        0
    };
    if start <= cap {
        start
    } else {
        cap
    }
}

/// The step delay at `index`, or `None` when `index` is out of bounds.
pub open spec fn secs_at(steps: Seq<u32>, index: int) -> Option<u32> {
    if 0 <= index < steps.len() {
        Some(steps[index])
    } else {
        None
    }
}

/// `a + b`, clamped to `u32::MAX` on overflow.
pub open spec fn sat_add(a: u32, b: u32) -> u32 {
    if a + b > u32::MAX {
        u32::MAX
    } else {
        (a + b) as u32
    }
}

/// `2 * a`, clamped to `u32::MAX` on overflow.
pub open spec fn sat_double(a: u32) -> u32 {
    if 2 * a > u32::MAX {
        u32::MAX
    } else {
        (2 * a) as u32
    }
}

/// Delay for "Again" on a card in learning: the first step, or
/// [`DEFAULT_SECS_IF_MISSING`] when none is configured.
pub open spec fn again_delay_learn(steps: Seq<u32>) -> u32 {
    if steps.len() == 0 {
        DEFAULT_SECS_IF_MISSING
    } else {
        steps[0]
    }
}

/// Delay for "Hard": the step at the derived index, except that at
/// index 0 it is interpolated as the mean of the current step and the
/// next (a synthetic next of twice the current delay stands in when
/// there is no second step), so that "Hard" never shows the same
/// interval as "Again".  `None` only on an empty schedule.
pub open spec fn hard_delay(steps: Seq<u32>, remaining: u32) -> Option<u32> {
    if steps.len() == 0 {
        None
    } else {
        let idx = index_for(steps, remaining);
        let current = steps[idx];
        if idx == 0 {
            let next = if steps.len() >= 2 {
                steps[1]
            } else {
                sat_double(current)
            };
            Some(sat_add(current, next) / 2)
        } else {
            Some(current)
        }
    }
}

/// Delay for "Good": the step after the derived index.  `None` exactly
/// when the derived index is the last step — the graduation signal.
pub open spec fn good_delay(steps: Seq<u32>, remaining: u32) -> Option<u32> {
    secs_at(steps, index_for(steps, remaining) + 1)
}

/// The delay at the derived index, or 0 when there is none.
pub open spec fn current_delay(steps: Seq<u32>, remaining: u32) -> u32 {
    if steps.len() == 0 {
        0
    } else {
        steps[index_for(steps, remaining)]
    }
}

/// Steps still to be completed after "Good": the count past the derived
/// index, floored at zero.
pub open spec fn steps_left_after_good(steps: Seq<u32>, remaining: u32) -> int {
    let done = index_for(steps, remaining) + 1;
    if steps.len() >= done {
        steps.len() - done
    } else {
        0
    }
}

/// On a non-empty schedule the derived index is always in bounds:
/// whatever the counter holds, it lands in `[0, len - 1]`.
pub proof fn lemma_index_in_bounds(steps: Seq<u32>, remaining: u32)
    requires
        steps.len() > 0,
    ensures
        0 <= index_for(steps, remaining) < steps.len(),
{
}

/// The queries read only `remaining % 1000`: two counters that differ
/// by a multiple of 1000 (equal lapse-count digits aside) derive the
/// same index and produce identical delays and identical updated
/// counts.
pub proof fn lemma_depends_only_on_mod(steps: Seq<u32>, a: u32, b: u32)
    requires
        a % 1000 == b % 1000,
    ensures
        index_for(steps, a) == index_for(steps, b),
        hard_delay(steps, a) == hard_delay(steps, b),
        good_delay(steps, a) == good_delay(steps, b),
        current_delay(steps, a) == current_delay(steps, b),
        steps_left_after_good(steps, a) == steps_left_after_good(steps, b),
{
}

/// At the first step, "Hard" is the (saturating) mean of the current
/// step and the next — or of the current step and twice itself when no
/// second step exists.
pub proof fn lemma_hard_delay_interpolates(steps: Seq<u32>, remaining: u32)
    requires
        steps.len() > 0,
        index_for(steps, remaining) == 0,
    ensures
        hard_delay(steps, remaining) == Some(
            sat_add(
                steps[0],
                if steps.len() >= 2 {
                    steps[1]
                } else {
                    sat_double(steps[0])
                },
            ) / 2,
        ),
{
}

/// "Good" graduates exactly at the last step: the delay is `None` when
/// the step after the derived index does not exist, and is that step's
/// delay otherwise.
pub proof fn lemma_good_delay_graduates(steps: Seq<u32>, remaining: u32)
    ensures
        good_delay(steps, remaining) is None <==> index_for(steps, remaining) + 1
            >= steps.len(),
        index_for(steps, remaining) + 1 < steps.len() ==> good_delay(steps, remaining)
            == Some(steps[index_for(steps, remaining) + 1]),
{
}

/// Every query is a pure function of the schedule and the counter: its
/// contract pins the result to a spec function of those inputs alone,
/// so repeated calls on equal inputs return equal results.
pub proof fn lemma_queries_pure(s: Seq<u32>, t: Seq<u32>, a: u32, b: u32)
    requires
        s == t,
        a == b,
    ensures
        again_delay_learn(s) == again_delay_learn(t),
        secs_at(s, 0) == secs_at(t, 0),
        hard_delay(s, a) == hard_delay(t, b),
        good_delay(s, a) == good_delay(t, b),
        current_delay(s, a) == current_delay(t, b),
        steps_left_after_good(s, a) == steps_left_after_good(t, b),
{
}

/// An ordered, borrowed sequence of learning-step delays in whole
/// seconds.  Purely functional: it owns nothing and mutates nothing.
#[derive(Clone, Copy, Debug, PartialEq)]
pub struct LearningSteps<'a> {
    steps: &'a [u32],
}

impl<'a> View for LearningSteps<'a> {
    type V = Seq<u32>;

    closed spec fn view(&self) -> Seq<u32> {
        self.steps@
    }
}

impl<'a> LearningSteps<'a> {
    /// Takes `steps` as whole seconds per step; the sequence may be
    /// empty.
    pub fn new(steps: &'a [u32]) -> (s: LearningSteps<'a>)
        ensures
            s@ == steps@,
    {
        LearningSteps { steps }
    }

    /// Strip off the lapse-count digits and clamp the index in bounds.
    pub fn get_index(self, remaining: u32) -> (idx: usize)
        ensures
            idx == index_for(self@, remaining),
            self@.len() > 0 ==> idx < self@.len(),
            self@.len() == 0 ==> idx == 0,
    {
        let total: usize = self.steps.len();
        let r: usize = (remaining % 1000) as usize;
        let start: usize = if total >= r {
            total - r
        } else {
            0
        };
        let cap: usize = if total >= 1 {
            total - 1
        } else {
            0
        };
        if start <= cap {
            start
        } else {
            cap
        }
    }

    /// The step delay at `index`, if the schedule has one there.
    pub fn secs_at_index(&self, index: usize) -> (r: Option<u32>)
        ensures
            r == secs_at(self@, index as int),
    {
        if index < self.steps.len() {
            Some(*slice_index_get(self.steps, index))
        } else {
            None
        }
    }

    /// Delay for "Again" on a card newly entering learning.  Cards in
    /// learning must always have at least one learning step, so an
    /// empty schedule falls back to [`DEFAULT_SECS_IF_MISSING`].
    pub fn again_delay_secs_learn(&self) -> (r: u32)
        ensures
            r == again_delay_learn(self@),
    {
        match self.secs_at_index(0) {
            Some(secs) => secs,
            None => DEFAULT_SECS_IF_MISSING,
        }
    }

    /// Delay for "Again" on a card re-entering learning after a review
    /// lapse.  `None` when no steps are configured: skip the relearning
    /// phase and return the card straight to review.
    pub fn again_delay_secs_relearn(&self) -> (r: Option<u32>)
        ensures
            r == secs_at(self@, 0),
    {
        self.secs_at_index(0)
    }

    /// Delay for "Hard" at the step implied by `remaining`; see
    /// [`hard_delay`] for the interpolation at the first step.
    pub fn hard_delay_secs(self, remaining: u32) -> (r: Option<u32>)
        ensures
            r == hard_delay(self@, remaining),
    {
        let total: usize = self.steps.len();
        if total == 0 {
            None
        } else {
            let idx: usize = self.get_index(remaining);
            let current: u32 = *slice_index_get(self.steps, idx);
            if idx == 0 {
                // special case to avoid Hard and Again showing the same interval
                let next: u32 = if total >= 2 {
                    *slice_index_get(self.steps, 1)
                } else {
                    // no next step: simulate one with twice the current interval
                    if current > u32::MAX / 2 {
                        u32::MAX
                    } else {
                        current * 2
                    }
                };
                Some(current.saturating_add(next) / 2)
            } else {
                Some(current)
            }
        }
    }

    /// Delay for "Good": the step after the derived index.  `None` is
    /// the graduation signal — promote the card out of learning — not
    /// an error.
    pub fn good_delay_secs(self, remaining: u32) -> (r: Option<u32>)
        ensures
            r == good_delay(self@, remaining),
    {
        let total: usize = self.steps.len();
        let idx: usize = self.get_index(remaining);
        if idx < total {
            self.secs_at_index(idx + 1)
        } else {
            None
        }
    }

    /// The delay at the derived index, or 0 if the schedule has none
    /// there (a defensive default, not a semantic "no step").
    pub fn current_delay_secs(self, remaining: u32) -> (r: u32)
        ensures
            r == current_delay(self@, remaining),
    {
        match self.secs_at_index(self.get_index(remaining)) {
            Some(secs) => secs,
            None => 0,
        }
    }

    /// Steps left after a "Good" rating; the caller merges this with
    /// its own lapse-count digits to form the next progress counter.
    /// The step count must fit the returned counter type.
    pub fn remaining_for_good(self, remaining: u32) -> (r: u32)
        requires
            self@.len() <= u32::MAX,
        ensures
            r as int == steps_left_after_good(self@, remaining),
    {
        let total: usize = self.steps.len();
        if total == 0 {
            0
        } else {
            let idx: usize = self.get_index(remaining);
            (total - (idx + 1)) as u32
        }
    }

    /// Steps left after an "Again"/failing rating: the full step count.
    /// The step count must fit the returned counter type.
    pub fn remaining_for_failed(self) -> (r: u32)
        requires
            self@.len() <= u32::MAX,
        ensures
            r as int == self@.len(),
    {
        self.steps.len() as u32
    }
}

} // verus!
