use tag_the_chart_program::error::ErrorCode;
use tag_the_chart_program::solver::{
    amount_remaining, is_step_computable, solve_step, step_amounts, PoolSnapshot, SwapStep,
};

fn snapshot(price: u128, liquidity: u128, fee_rate: u32) -> PoolSnapshot {
    PoolSnapshot { sqrt_price_x64: price, liquidity, fee_rate, timestamp: 1_700_000_000 }
}

const Q64: u128 = 1u128 << 64;

#[test]
fn solver_returns_the_pool_step_unchanged() {
    let from = Q64;
    let to = Q64 + Q64 / 100;
    let liquidity: u128 = 1_000_000_000_000;
    let snap = snapshot(from, liquidity, 30);
    let solved = solve_step(&snap, to, false, u64::MAX).unwrap();
    let direct = raydium_amm_v3::libraries::swap_math::compute_swap_step(
        from, to, liquidity, u64::MAX, 30, true, false,
    );
    assert_eq!(solved.amount_in, direct.amount_in);
    assert_eq!(solved.amount_out, direct.amount_out);
    assert_eq!(solved.sqrt_price_next_x64, direct.sqrt_price_next_x64);
    assert_eq!(solved.fee_amount, direct.fee_amount);
    assert_eq!(solved.sqrt_price_next_x64, to);
    assert!(solved.amount_in > 0);
}

#[test]
fn solver_refuses_zero_liquidity() {
    let snap = snapshot(Q64, 0, 30);
    assert_eq!(solve_step(&snap, Q64 + 5, false, 100), Err(ErrorCode::InvalidPoolData));
}

#[test]
fn step_rule_does_not_stop_inside_its_domain() {
    let prices: [u128; 12] = [
        1,
        2,
        4295048016,
        1 << 40,
        (1 << 64) - 1,
        1 << 64,
        (1 << 64) + 1,
        (1 << 64) + (1 << 57),
        1 << 80,
        79226673521066979257578248091,
        1 << 100,
        u128::MAX,
    ];
    let liquidities: [u128; 10] =
        [1, 2, 1000, 1 << 32, 1 << 50, (1 << 64) - 1, 1 << 64, 1 << 90, 1 << 120, u128::MAX];
    let fees: [u32; 5] = [0, 1, 30, 500_000, 999_999];
    let bounds: [u64; 7] = [0, 1, 2, 1000, 1 << 32, u64::MAX - 1, u64::MAX];
    let mut computed: u64 = 0;
    for &current in prices.iter() {
        for &target in prices.iter() {
            for &liquidity in liquidities.iter() {
                for &fee in fees.iter() {
                    if !is_step_computable(current, target, liquidity, fee) {
                        continue;
                    }
                    for &bound in bounds.iter() {
                        let snap = snapshot(current, liquidity, fee);
                        let step = solve_step(&snap, target, target < current, bound).unwrap();
                        let lo = current.min(target);
                        let hi = current.max(target);
                        assert!(lo <= step.sqrt_price_next_x64 && step.sqrt_price_next_x64 <= hi);
                        assert!(step.amount_in as u128 + step.fee_amount as u128 <= bound as u128);
                        if step.sqrt_price_next_x64 != target {
                            assert_eq!(step.amount_in as u128 + step.fee_amount as u128, bound as u128);
                        }
                        computed += 1;
                    }
                }
            }
        }
    }
    assert!(computed > 500);
}

#[test]
fn amount_remaining_reads_zero_as_unbounded() {
    assert_eq!(amount_remaining(0), u64::MAX);
    assert_eq!(amount_remaining(7), 7);
}

#[test]
fn minimum_output_is_capped_by_the_step() {
    let step = SwapStep { sqrt_price_next_x64: 5, amount_in: 10, amount_out: 20, fee_amount: 1 };
    let a = step_amounts(&step, 0);
    assert_eq!((a.amount_in, a.amount_out, a.minimum_amount_out), (10, 20, 0));
    let b = step_amounts(&step, 15);
    assert_eq!(b.minimum_amount_out, 15);
    let c = step_amounts(&step, 25);
    assert_eq!(c.minimum_amount_out, 20);
    assert_eq!(c.amount_out, 20);
}

#[test]
fn domain_of_the_step_rule_has_exact_edges() {
    let q: u128 = 1 << 64;
    // prices and liquidity must be positive, the fee a proper fraction
    assert!(is_step_computable(q, q + 5, 10, 0));
    assert!(!is_step_computable(0, q, 10, 0));
    assert!(!is_step_computable(q, 0, 10, 0));
    assert!(!is_step_computable(q, q + 5, 0, 0));
    assert!(is_step_computable(q, q + 5, 10, 999_999));
    assert!(!is_step_computable(q, q + 5, 10, 1_000_000));
    assert!(!is_step_computable(q, q + 5, 10, u32::MAX));
    // a step that stands still is defined
    assert!(is_step_computable(q, q, u128::MAX >> 65, 0));
    assert!(is_step_computable(1, 1, 1, 0));

    // the token-1 amount fits: liquidity * distance <= (2^64 - 1) * 2^64
    let lo: u128 = 1 << 100;
    assert!(is_step_computable(lo, lo + q, q - 1, 0));
    assert!(!is_step_computable(lo, lo + q, q, 0));
    assert!(is_step_computable(lo, lo + 1, (q - 1) << 64, 0));
    assert!(!is_step_computable(lo, lo + 1, ((q - 1) << 64) + 1, 0));

    // the token-0 amount fits: liquidity * distance * 2^64 <= (2^64 - 1) * low * high
    assert!(is_step_computable(1, 2, 1, 0));
    assert!(!is_step_computable(1, 2, 2, 0));
    // low * high = 2^128 + 2^64: liquidity * 2^64 * 2^64 <= (2^64 - 1) * (2^128 + 2^64)
    assert!(is_step_computable(q, q + 1, q - 1, 0));
    assert!(is_step_computable(3, 4, 11, 0));
    assert!(!is_step_computable(3, 4, 12, 0));

    // a falling price leaves room: liquidity * current <= (2^64 - 2) * 2^128
    let high: u128 = 1 << 127;
    assert!(is_step_computable(high, high - 1, (1 << 65) - 4, 0));
    assert!(!is_step_computable(high, high - 1, (1 << 65) - 3, 0));
    assert!(is_step_computable(high - 1, high, (1 << 65) - 3, 0));

    // outside the domain the solver refuses, whatever the bound
    let snap = snapshot(high, (1 << 65) - 3, 30);
    assert_eq!(solve_step(&snap, high - 1, true, 0), Err(ErrorCode::InvalidPoolData));
    assert_eq!(solve_step(&snap, high - 1, true, u64::MAX), Err(ErrorCode::InvalidPoolData));
    let snap = snapshot(high, (1 << 65) - 4, 30);
    assert!(solve_step(&snap, high - 1, true, u64::MAX).is_ok());
}

#[test]
fn wide_product_is_exact() {
    let cases: [(u128, u128, u128, u128); 6] = [
        (0, 0, 0, 0),
        (1, u128::MAX, 0, u128::MAX),
        (u128::MAX, u128::MAX, u128::MAX - 1, 1),
        (1 << 64, 1 << 64, 1, 0),
        ((1 << 64) + 1, (1 << 64) + 1, 1, (1 << 65) + 1),
        (u128::MAX, 2, 1, u128::MAX - 1),
    ];
    for (a, b, high, low) in cases {
        assert_eq!(tag_the_chart_program::wide::mul_wide(a, b), (high, low));
    }
}
