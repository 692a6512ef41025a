use tag_the_chart_program::candle::SwapSqrt;
use tag_the_chart_program::error::ErrorCode;
use tag_the_chart_program::instructions::swap_simple::require_price_reached;
use tag_the_chart_program::price::{distance, is_price_reached, resolves_decreasing, tolerance};

#[test]
fn direction_is_decreasing_exactly_above_the_target() {
    assert!(resolves_decreasing(10, 9));
    assert!(!resolves_decreasing(9, 10));
    assert!(!resolves_decreasing(10, 10));
    assert!(resolves_decreasing(u128::MAX, 0));
    assert!(!resolves_decreasing(0, u128::MAX));
    assert!(!resolves_decreasing(0, 0));
}

#[test]
fn tolerance_is_a_thousandth_rounded_down() {
    assert_eq!(tolerance(1_000_000), 1000);
    assert_eq!(tolerance(999), 0);
    assert_eq!(tolerance(1999), 1);
    assert_eq!(tolerance(0), 0);
    assert_eq!(tolerance(u128::MAX), u128::MAX / 1000);
    assert_eq!(distance(5, 9), 4);
    assert_eq!(distance(9, 5), 4);
    assert_eq!(distance(0, u128::MAX), u128::MAX);
}

#[test]
fn band_is_closed_on_both_sides() {
    let target: u128 = 1_000_000;
    assert!(is_price_reached(target, target));
    assert!(is_price_reached(target + 1000, target));
    assert!(is_price_reached(target - 1000, target));
    assert!(!is_price_reached(target + 1001, target));
    assert!(!is_price_reached(target - 1001, target));
    assert!(is_price_reached(500, 500));
    assert!(!is_price_reached(501, 500));
    assert!(!is_price_reached(499, 500));
    assert!(is_price_reached(0, 0));
    assert!(!is_price_reached(1, 0));
    assert!(is_price_reached(u128::MAX, u128::MAX));
    assert!(!is_price_reached(0, u128::MAX));
}

#[test]
fn a_leg_is_held_to_its_target() {
    assert_eq!(
        require_price_reached(1_000_500, 900_000, 1_000_000),
        Ok(SwapSqrt {
            from_sqrt_price: 900_000,
            to_sqrt_price: 1_000_000,
            actual_sqrt_price: 1_000_500
        })
    );
    assert_eq!(
        require_price_reached(1_001_000, 900_000, 1_000_000),
        Ok(SwapSqrt {
            from_sqrt_price: 900_000,
            to_sqrt_price: 1_000_000,
            actual_sqrt_price: 1_001_000
        })
    );
    assert_eq!(
        require_price_reached(1_001_001, 900_000, 1_000_000),
        Err(ErrorCode::PriceNotReached)
    );
    assert_eq!(
        require_price_reached(998_999, 1_100_000, 1_000_000),
        Err(ErrorCode::PriceNotReached)
    );
}
