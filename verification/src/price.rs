//! Prices on the pool's square-root axis: the direction of a trade, and
//! the tolerance band within which a realized price counts as reached.

use vstd::prelude::*;

verus! {

/// A target counts as reached within one part in this many.
pub const TOLERANCE_DIVISOR: u128 = 1000;

/// Whether moving the pool from `current` to `target` lowers the price.
pub open spec fn spec_resolves_decreasing(current: u128, target: u128) -> bool {
    current > target
}

/// Resolves the direction of a trade: decreasing where the current price
/// lies above the target. A tie is not a decrease.
pub fn resolves_decreasing(current: u128, target: u128) -> (decreasing: bool)
    ensures
        decreasing == spec_resolves_decreasing(current, target),
        decreasing == (current > target),
{
    current > target
}

/// The distance between two prices.
pub open spec fn spec_distance(a: u128, b: u128) -> u128 {
    if a > b {
        (a - b) as u128
    } else {
        (b - a) as u128
    }
}

/// The distance between two prices.
pub fn distance(a: u128, b: u128) -> (d: u128)
    ensures
        d == spec_distance(a, b),
{
    if a > b {
        a - b
    } else {
        b - a
    }
}

/// The width of the tolerance band on either side of `target`.
pub open spec fn spec_tolerance(target: u128) -> u128 {
    target / TOLERANCE_DIVISOR
}

/// The width of the tolerance band on either side of `target`.
pub fn tolerance(target: u128) -> (t: u128)
    ensures
        t == spec_tolerance(target),
        t == target / 1000,
{
    target / TOLERANCE_DIVISOR
}

/// Whether `realized` lies within the tolerance band of `target`, the
/// bounds included.
pub open spec fn price_reached(realized: u128, target: u128) -> bool {
    spec_distance(realized, target) <= spec_tolerance(target)
}

/// Decides whether `realized` lies within the tolerance band of `target`.
pub fn is_price_reached(realized: u128, target: u128) -> (reached: bool)
    ensures
        reached == price_reached(realized, target),
        reached <==> (if realized > target {
            realized - target
        } else {
            target - realized
        }) <= target / 1000,
{
    distance(realized, target) <= tolerance(target)
}

/// The band is symmetric about the target and closed: a realized price is
/// accepted exactly if it lies between `target - target / 1000` and
/// `target + target / 1000`.
pub proof fn law_tolerance_band(realized: u128, target: u128)
    ensures
        price_reached(realized, target) <==> target - target / 1000 <= realized <= target + target
            / 1000,
        price_reached(target, target),
        spec_distance(realized, target) == spec_tolerance(target) ==> price_reached(
            realized,
            target,
        ),
{
}

} // verus!
