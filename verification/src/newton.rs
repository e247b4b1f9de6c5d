//! The schedule of the Newton iteration that estimates where the n-th zero lies.
//!
//! An index below 1 names no zero: its estimate is zero and takes no update.
//! Every other estimate starts from a seed and takes a fixed number of updates,
//! however near or far the iteration then is. The ordinate type `T` is left
//! open; whoever drives the iteration computes the seed and each update.

use vstd::math::min;
use vstd::prelude::*;

verus! {

/// The number of Newton updates that an estimate takes.
pub const NEWTON_UPDATES: u32 = 20;

/// An estimate in the making: the current ordinate and the number of updates
/// still to come.
#[derive(Clone, Copy, Debug)]
pub struct Estimate<T> {
    pub t: T,
    pub updates_left: u32,
}

impl<T> Estimate<T> {
    /// The estimate before its first update: `zero` with nothing to come for a
    /// degenerate index, `seed` with all updates to come otherwise.
    pub open spec fn started(degenerate: bool, zero: T, seed: T) -> Self {
        if degenerate {
            Estimate { t: zero, updates_left: 0 }
        } else {
            Estimate { t: seed, updates_left: NEWTON_UPDATES }
        }
    }

    /// Whether no update is left, so that `t` is the answer.
    pub open spec fn finished(self) -> bool {
        self.updates_left == 0
    }

    /// The estimate after one update to `t`. A finished estimate stays as it is.
    pub open spec fn updated(self, t: T) -> Self {
        if self.updates_left == 0 {
            self
        } else {
            Estimate { t, updates_left: (self.updates_left - 1) as u32 }
        }
    }

    /// The estimate after the updates `ts`, taken in order.
    pub open spec fn updated_by(self, ts: Seq<T>) -> Self
        decreases ts.len(),
    {
        if ts.len() == 0 {
            self
        } else {
            self.updated_by(ts.drop_last()).updated(ts.last())
        }
    }

    /// Starts an estimate. `degenerate` says whether the index is below 1.
    pub fn start(degenerate: bool, zero: T, seed: T) -> (r: Self)
        ensures
            r == Self::started(degenerate, zero, seed),
            degenerate ==> r.finished() && r.t == zero,
    {
        if degenerate {
            Estimate { t: zero, updates_left: 0 }
        } else {
            Estimate { t: seed, updates_left: NEWTON_UPDATES }
        }
    }

    /// Whether no update is left.
    pub fn is_final(&self) -> (r: bool)
        ensures
            r == self.finished(),
    {
        self.updates_left == 0
    }

    /// Takes one update to `t`. On a finished estimate `t` is dropped.
    pub fn update(self, t: T) -> (r: Self)
        ensures
            r == self.updated(t),
    {
        if self.updates_left == 0 {
            self
        } else {
            Estimate { t, updates_left: self.updates_left - 1 }
        }
    }

    /// Of a run of updates, those that are still owed count and the rest are
    /// dropped: after `ts` the estimate is at the last update that counted, and
    /// has that many fewer to come.
    pub proof fn lemma_updates_are_counted(self, ts: Seq<T>)
        ensures
            ({
                let counted: int = min(ts.len() as int, self.updates_left as int);
                let after = self.updated_by(ts);
                &&& after.updates_left == self.updates_left - counted
                &&& after.t == if counted == 0 {
                    self.t
                } else {
                    ts[counted - 1]
                }
            }),
        decreases ts.len(),
    {
        if ts.len() > 0 {
            self.lemma_updates_are_counted(ts.drop_last());
        }
    }

    /// An estimate for a proper index takes exactly `NEWTON_UPDATES` updates:
    /// it is unfinished after fewer, and finished from then on at the value of
    /// the last one of them.
    pub proof fn lemma_fixed_number_of_updates(zero: T, seed: T, ts: Seq<T>)
        ensures
            ({
                let after = Self::started(false, zero, seed).updated_by(ts);
                &&& after.finished() <==> ts.len() >= NEWTON_UPDATES
                &&& 0 < ts.len() < NEWTON_UPDATES ==> after.t == ts.last()
                &&& ts.len() >= NEWTON_UPDATES ==> after.t == ts[NEWTON_UPDATES - 1]
            }),
    {
        Self::started(false, zero, seed).lemma_updates_are_counted(ts);
    }

    /// An estimate for a degenerate index is `zero`, whatever updates follow.
    pub proof fn lemma_degenerate_is_zero(zero: T, seed: T, ts: Seq<T>)
        ensures
            Self::started(true, zero, seed).updated_by(ts) == (Estimate {
                t: zero,
                updates_left: 0,
            }),
    {
        Self::started(true, zero, seed).lemma_updates_are_counted(ts);
    }
}

} // verus!
