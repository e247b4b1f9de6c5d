//! Bisection on a bracket whose ends straddle a sign change.
//!
//! The ordinate type `T` is left open: a bracket only stores and hands back the
//! values it is given. Whoever drives the search evaluates the function, takes
//! the midpoint, measures the width and multiplies two values to compare their
//! signs, and reports each finding as a `bool`. What follows from the findings
//! is decided here.

use vstd::prelude::*;

verus! {

/// A search interval: its two ends and the function's values there.
#[derive(Clone, Copy, Debug)]
pub struct Bracket<T> {
    pub lo: T,
    pub hi: T,
    pub z_lo: T,
    pub z_hi: T,
}

/// The outcome of one bisection step.
#[derive(Clone, Copy, Debug)]
pub enum Step<T> {
    /// The bracket was narrower than the tolerance; the midpoint is the answer.
    Found(T),
    /// The midpoint replaced one end; the search goes on in this bracket.
    Narrowed(Bracket<T>),
}

impl<T> Bracket<T> {
    /// The bracket that a search on `[lo, hi]` starts from, if any.
    ///
    /// `same_sign` says whether the values at the two ends have a positive
    /// product. If so there is nothing to search; otherwise the bracket holds
    /// the ends and their values as given.
    pub open spec fn started(lo: T, hi: T, z_lo: T, z_hi: T, same_sign: bool) -> Option<Self> {
        if same_sign {
            None
        } else {
            Some(Bracket { lo, hi, z_lo, z_hi })
        }
    }

    /// The outcome of one step at the midpoint `mid`, where the function is
    /// `z_mid`.
    ///
    /// A bracket narrower than the tolerance ends the search at `mid`, whatever
    /// the signs are. Otherwise `mid` replaces the lower end if the function has
    /// the same sign at both, and the upper end if not.
    pub open spec fn narrowed(self, mid: T, z_mid: T, within_tol: bool, same_sign: bool) -> Step<
        T,
    > {
        if within_tol {
            Step::Found(mid)
        } else if same_sign {
            Step::Narrowed(Bracket { lo: mid, hi: self.hi, z_lo: z_mid, z_hi: self.z_hi })
        } else {
            Step::Narrowed(Bracket { lo: self.lo, hi: mid, z_lo: self.z_lo, z_hi: z_mid })
        }
    }

    /// Whether the function changes sign across the bracket, where `negative`
    /// tells on which side of zero a value lies.
    pub open spec fn straddles(self, negative: spec_fn(T) -> bool) -> bool {
        negative(self.z_lo) != negative(self.z_hi)
    }

    /// Starts a search on `[lo, hi]`, where the function is `z_lo` and `z_hi`.
    ///
    /// `same_sign` says whether the product of `z_lo` and `z_hi` is positive.
    /// The search is refused exactly then.
    pub fn start(lo: T, hi: T, z_lo: T, z_hi: T, same_sign: bool) -> (r: Option<Self>)
        ensures
            r == Self::started(lo, hi, z_lo, z_hi, same_sign),
            r is None <==> same_sign,
    {
        if same_sign {
            None
        } else {
            Some(Bracket { lo, hi, z_lo, z_hi })
        }
    }

    /// Takes one bisection step at the midpoint `mid`, where the function is
    /// `z_mid`.
    ///
    /// `within_tol` says whether the bracket's width is below the tolerance;
    /// `same_sign` says whether the product of `z_mid` and the value at the
    /// lower end is positive.
    pub fn narrow(self, mid: T, z_mid: T, within_tol: bool, same_sign: bool) -> (r: Step<T>)
        ensures
            r == self.narrowed(mid, z_mid, within_tol, same_sign),
            r is Found <==> within_tol,
    {
        if within_tol {
            Step::Found(mid)
        } else if same_sign {
            Step::Narrowed(Bracket { lo: mid, hi: self.hi, z_lo: z_mid, z_hi: self.z_hi })
        } else {
            Step::Narrowed(Bracket { lo: self.lo, hi: mid, z_lo: self.z_lo, z_hi: z_mid })
        }
    }

    /// A search only starts on a sign change: if `same_sign` was reported in
    /// agreement with `negative`, the bracket that comes out straddles.
    pub proof fn lemma_started_straddles(
        lo: T,
        hi: T,
        z_lo: T,
        z_hi: T,
        same_sign: bool,
        negative: spec_fn(T) -> bool,
    )
        requires
            same_sign == (negative(z_lo) == negative(z_hi)),
        ensures
            Self::started(lo, hi, z_lo, z_hi, same_sign) matches Some(bracket)
                ==> bracket.straddles(negative),
    {
    }

    /// A step keeps the sign change inside the bracket: if the bracket
    /// straddles and `same_sign` was reported in agreement with `negative`,
    /// the narrowed bracket straddles too.
    pub proof fn lemma_narrowed_straddles(
        self,
        mid: T,
        z_mid: T,
        within_tol: bool,
        same_sign: bool,
        negative: spec_fn(T) -> bool,
    )
        requires
            self.straddles(negative),
            same_sign == (negative(self.z_lo) == negative(z_mid)),
        ensures
            self.narrowed(mid, z_mid, within_tol, same_sign) matches Step::Narrowed(next)
                ==> next.straddles(negative),
    {
    }
}

} // verus!
