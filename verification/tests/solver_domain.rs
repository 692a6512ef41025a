use tag_the_chart_program::solver::{is_step_computable, solve_step, PoolSnapshot};

struct Rng(u64);
impl Rng {
    fn next(&mut self) -> u64 {
        self.0 ^= self.0 << 13;
        self.0 ^= self.0 >> 7;
        self.0 ^= self.0 << 17;
        self.0
    }
    fn wide(&mut self) -> u128 {
        let bits = (self.next() % 129) as u32;
        let raw = ((self.next() as u128) << 64) | self.next() as u128;
        let v = if bits == 0 { 0 } else if bits == 128 { raw } else { raw >> (128 - bits) };
        match self.next() % 8 {
            0 => v | 1,
            1 => if bits > 0 && bits < 128 { (1u128 << bits) - 1 } else { v },
            2 => if bits < 128 { 1u128 << bits } else { v },
            _ => v,
        }
    }
    fn narrow(&mut self) -> u64 {
        let bits = (self.next() % 65) as u32;
        let raw = self.next();
        let v = if bits == 0 { 0 } else if bits == 64 { raw } else { raw >> (64 - bits) };
        match self.next() % 6 {
            0 => u64::MAX,
            1 => 0,
            _ => v,
        }
    }
}

fn run(seed: u64, rounds: u32) -> u32 {
    let mut rng = Rng(seed);
    let mut computed = 0;
    for _ in 0..rounds {
        let current = rng.wide();
        let target = match rng.next() % 4 {
            0 => current.wrapping_add(rng.narrow() as u128),
            1 => current.wrapping_sub(rng.narrow() as u128),
            2 => current,
            _ => rng.wide(),
        };
        let liquidity = rng.wide();
        let fee = match rng.next() % 4 {
            0 => 999_999,
            1 => 0,
            _ => (rng.next() % 1_000_000) as u32,
        };
        if !is_step_computable(current, target, liquidity, fee) {
            continue;
        }
        let bound = rng.narrow();
        let snap = PoolSnapshot { sqrt_price_x64: current, liquidity, fee_rate: fee, timestamp: 0 };
        let step = solve_step(&snap, target, target < current, bound).unwrap();
        let lo = current.min(target);
        let hi = current.max(target);
        assert!(lo <= step.sqrt_price_next_x64 && step.sqrt_price_next_x64 <= hi);
        assert!(step.amount_in as u128 + step.fee_amount as u128 <= bound as u128);
        computed += 1;
    }
    computed
}

#[test]
fn random_steps_inside_the_domain_are_computed() {
    assert!(run(0x9E3779B97F4A7C15, 100_000) > 1000);
    assert!(run(12345, 100_000) > 1000);
}

/// The largest liquidity for which the step between the two prices is defined.
fn largest_liquidity(current: u128, target: u128, fee: u32) -> Option<u128> {
    if !is_step_computable(current, target, 1, fee) {
        return None;
    }
    let mut low: u128 = 1;
    let mut high: u128 = u128::MAX;
    while low < high {
        let mid = low + (high - low) / 2 + 1;
        if is_step_computable(current, target, mid, fee) {
            low = mid;
        } else {
            high = mid - 1;
        }
    }
    Some(low)
}

#[test]
fn steps_on_the_edge_of_the_domain_are_computed() {
    let prices: [u128; 14] = [
        1,
        3,
        4295048016,
        (1 << 32) + 12345,
        (1 << 48) - 1,
        (1 << 63) + 99,
        (1 << 64) - 1,
        1 << 64,
        (1 << 64) + 1,
        3 << 64,
        (1 << 80) + 7,
        79226673521066979257578248091,
        (1 << 127) + 5,
        u128::MAX,
    ];
    let bounds: [u64; 8] = [0, 1, 2, 999, 1 << 20, 1 << 40, u64::MAX - 1, u64::MAX];
    let mut edges = 0;
    for &current in prices.iter() {
        for &target in prices.iter() {
            for fee in [0u32, 30, 999_999] {
                let Some(top) = largest_liquidity(current, target, fee) else { continue };
                assert!(top == u128::MAX || !is_step_computable(current, target, top + 1, fee));
                edges += 1;
                for liquidity in [top, top - top / 3, top / 2 + 1, 1] {
                    for &bound in bounds.iter() {
                        let snap = PoolSnapshot {
                            sqrt_price_x64: current,
                            liquidity,
                            fee_rate: fee,
                            timestamp: 0,
                        };
                        let step = solve_step(&snap, target, target < current, bound).unwrap();
                        assert!(step.amount_in as u128 + step.fee_amount as u128 <= bound as u128);
                        let lo = current.min(target);
                        let hi = current.max(target);
                        assert!(lo <= step.sqrt_price_next_x64 && step.sqrt_price_next_x64 <= hi);
                    }
                }
            }
        }
    }
    assert!(edges > 300);
}
