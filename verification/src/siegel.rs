//! The discrete shape of a Riemann–Siegel evaluation of Z(t).
//!
//! With `a = t / 2π`, the formula is a main sum of `nu = floor(sqrt(a))` cosine
//! terms plus a remainder. The remainder carries a sign that alternates with
//! `nu`, and is a series of correction orders of which the leading one is always
//! taken and at most two more are added on request.

use vstd::math::{max, min};
use vstd::prelude::*;

verus! {

/// The highest correction order that an evaluation adds to the leading one.
pub const MAX_CORRECTION_ORDERS: u32 = 2;

/// The number of terms in the main sum, which runs over `k = 1..=nu`: `nu`
/// itself, and none where `nu` is not positive.
pub open spec fn terms_of(nu: int) -> int {
    max(nu, 0)
}

/// The remainder's sign for a main sum of `nu` terms: minus for an even `nu`,
/// plus for an odd one.
pub open spec fn sign_of(nu: int) -> int {
    if nu % 2 == 0 {
        -1
    } else {
        1
    }
}

/// The number of correction orders added for a request of `terms`: the request
/// itself, but never more than `MAX_CORRECTION_ORDERS`.
pub open spec fn orders_of(terms: int) -> int {
    min(terms, MAX_CORRECTION_ORDERS as int)
}

/// The number of terms that the main sum has for a given `nu`.
pub fn main_sum_terms(nu: i64) -> (n: u64)
    ensures
        n == terms_of(nu as int),
{
    if nu > 0 {
        nu as u64
    } else {
        0
    }
}

/// The sign that the remainder carries when the main sum has `nu` terms,
/// as `-1` or `1`.
pub fn remainder_sign(nu: i64) -> (s: i8)
    ensures
        s == sign_of(nu as int),
{
    if nu % 2 == 0 {
        -1
    } else {
        1
    }
}

/// The number of correction orders that an evaluation with `terms` adds to the
/// leading one.
pub fn correction_orders(terms: u32) -> (n: u32)
    ensures
        n == orders_of(terms as int),
{
    if terms < MAX_CORRECTION_ORDERS {
        terms
    } else {
        MAX_CORRECTION_ORDERS
    }
}

} // verus!
