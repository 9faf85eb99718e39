//! Tests of the draw-count estimator.

use circom_prover::draws::SecurityTarget;
use circom_prover::draws::number_of_draws;

/// Reference model for small cases: the exact numerator of `P(x, n)` over
/// the denominator `d^n`, in machine words, usable while `d^n` fits `u128`.
fn model_num(q: u128, d: u128, x: u128, n: u128) -> u128 {
    if x == q {
        d.pow(n as u32)
    } else if n == 0 {
        0
    } else {
        (d - x) * model_num(q, d, x + 1, n - 1) + x * model_num(q, d, x, n - 1)
    }
}

/// Reference estimator for small cases.
fn model_draws(q: u128, d: u128, s: u32) -> u128 {
    let mut n: u128 = 0;
    loop {
        let pow_d = d.pow(n as u32);
        let deficit = pow_d - model_num(q, d, 0, n);
        let keep_going = deficit << s > pow_d;
        if !keep_going {
            return n + 1;
        }
        n += 1;
    }
}

#[test]
fn single_query_small_domain() {
    // One required position out of two: the first meaningful draw always
    // collects it, and the look-ahead loop reports two.
    assert_eq!(number_of_draws(1, 2, 2), 2);
}

#[test]
fn two_queries_domain_four() {
    assert_eq!(number_of_draws(2, 4, 1), 3);
}

#[test]
fn zero_queries_returns_one() {
    // Nothing to collect: the very first probe meets the bound for any
    // domain and any security level.
    assert_eq!(number_of_draws(0, 1, 0), 1);
    assert_eq!(number_of_draws(0, 7, 13), 1);
    assert_eq!(number_of_draws(0, 1 << 20, 128), 1);
}

#[test]
fn deterministic() {
    let a = number_of_draws(3, 8, 12);
    let b = number_of_draws(3, 8, 12);
    assert_eq!(a, b);
}

#[test]
fn non_decreasing_in_security() {
    let mut last = 0u128;
    for s in 0..=24u32 {
        let n = number_of_draws(2, 4, s);
        assert!(n >= last, "estimate dropped from {} to {} at s = {}", last, n, s);
        last = n;
    }
    let mut last = 0u128;
    for s in 0..=16u32 {
        let n = number_of_draws(3, 8, s);
        assert!(n >= last);
        last = n;
    }
}

#[test]
fn matches_reference_model_on_small_cases() {
    for q in 0..=3u128 {
        for d in [1u128, 2, 3, 4, 8] {
            if q > d {
                continue;
            }
            for s in [0u32, 1, 2, 4, 8] {
                assert_eq!(
                    number_of_draws(q, d, s),
                    model_draws(q, d, s),
                    "q = {}, d = {}, s = {}",
                    q,
                    d,
                    s
                );
            }
        }
    }
}

#[test]
fn full_security_single_query() {
    // The production security level, on the smallest non-trivial inputs.
    assert_eq!(number_of_draws(1, 2, 128), 2);
}

#[test]
fn large_domain_single_query() {
    // One required position is found by the first meaningful draw whatever
    // the domain size.
    assert_eq!(number_of_draws(1, 1 << 40, 2), 2);
}

#[test]
fn security_target_matches_free_function() {
    let target = SecurityTarget { num_queries: 2, lde_domain_size: 4, security: 1 };
    assert_eq!(target.draws(), 3);
    assert_eq!(target.draws(), number_of_draws(2, 4, 1));
}
