//! Draw-count estimation: the smallest number of independent uniform draws
//! over a domain of `d` positions after which all `q` required distinct
//! positions have been collected with probability greater than `1 - 2^-s`.
//!
//! Probabilities are handled exactly.  `P(x, n)` — the probability of
//! eventually reaching `q` distinct positions when `x` are already collected
//! and `n` draws remain — is a rational with denominator `d^n`; the module
//! tracks its numerator as an unbounded integer, so the comparison against
//! the threshold `2^-s` is an exact integer comparison and no rounding can
//! disturb it even when `1 - P` is extremely close to zero.

use vstd::prelude::*;
use vstd::arithmetic::power::pow;
use vstd::arithmetic::power::lemma_pow0;
use vstd::arithmetic::power2::pow2;
use vstd::arithmetic::power2::lemma_pow2_adds;
use vstd::arithmetic::power2::lemma_pow2_pos;
use crate::bigint::big_value;
use crate::bigint::big_from_u128;
use crate::bigint::big_add;
use crate::bigint::big_sub;
use crate::bigint::big_mul;
use crate::bigint::big_shl;
use crate::bigint::big_gt;

verus! {

/// A soundness target for the estimator: how many distinct query positions
/// are required, the size of the domain they are drawn from, and the
/// demanded security level in bits.  Pure input; no persisted state.
pub struct SecurityTarget {
    pub num_queries: u128,
    pub lde_domain_size: u128,
    pub security: u32,
}

impl SecurityTarget {
    /// The target is reachable — the required positions fit in the domain —
    /// and small enough to tabulate.
    pub open spec fn well_formed(self) -> bool {
        &&& self.num_queries <= self.lde_domain_size
        &&& self.num_queries < usize::MAX as u128
    }

    /// The draw count this target demands; see [`number_of_draws`].
    pub fn draws(&self) -> (r: u128)
        requires
            self.well_formed(),
        ensures
            r as nat == draws_spec(
                self.num_queries as nat,
                self.lde_domain_size as nat,
                self.security as nat,
            ),
    {
        number_of_draws(self.num_queries, self.lde_domain_size, self.security)
    }
}

/// Numerator of `P(x, n)` over the denominator `d^n`, for a target of `q`
/// distinct positions out of a domain of `d`.
///
/// Boundary conditions: with all `q` positions collected the probability is
/// one (`numerator = d^n`); with draws exhausted short of the target it is
/// zero.  Otherwise one draw either finds a new position (`d - x` of the `d`
/// outcomes) or repeats a seen one (`x` outcomes).
pub open spec fn num_spec(q: nat, d: nat, x: nat, n: nat) -> int
    decreases n,
{
    if x == q {
        pow(d as int, n)
    } else if n == 0 {
        0int
    } else {
        (d - x) * num_spec(q, d, x + 1, (n - 1) as nat) + (x as int) * num_spec(
            q,
            d,
            x,
            (n - 1) as nat,
        )
    }
}

/// The estimator keeps drawing while the failure probability still exceeds
/// the threshold: `1 - P(0, n) > 2^-s`, stated over the exact numerators as
/// `2^s * (d^n - num) > d^n`.
pub open spec fn cond_spec(q: nat, d: nat, s: nat, n: nat) -> bool {
    (pow(d as int, n) - num_spec(q, d, 0, n)) * pow2(s) > pow(d as int, n)
}

/// First draw count at or above `k` for which the continuation condition
/// fails, capped at `u128::MAX` so the search is well defined.
pub open spec fn first_fail_from(q: nat, d: nat, s: nat, k: nat) -> nat
    decreases u128::MAX as nat - k,
{
    if k >= u128::MAX as nat {
        u128::MAX as nat
    } else if !cond_spec(q, d, s, k) {
        k
    } else {
        first_fail_from(q, d, s, k + 1)
    }
}

/// The number of draws the estimator reports: one past the first draw count
/// whose failure probability is within the threshold.  The final increment
/// reflects the estimator's look-ahead loop, which bumps the count once more
/// after the probe that satisfies the bound.
pub open spec fn draws_spec(q: nat, d: nat, s: nat) -> nat {
    let f = first_fail_from(q, d, s, 0);
    if f >= u128::MAX as nat {
        u128::MAX as nat
    } else {
        f + 1
    }
}

/// The numerator of a probability lies between zero and its denominator.
pub proof fn lemma_num_bounds(q: nat, d: nat, x: nat, n: nat)
    requires
        x <= q,
        q <= d,
    ensures
        0 <= num_spec(q, d, x, n) <= pow(d as int, n),
    decreases n,
{
    if x == q {
        if d > 0 {
            vstd::arithmetic::power::lemma_pow_positive(d as int, n);
        } else if n == 0 {
            lemma_pow0(d as int);
        } else {
            vstd::arithmetic::power::lemma0_pow(n);
        }
    } else if n == 0 {
        lemma_pow0(d as int);
        assert(num_spec(q, d, x, n) == 0);
    } else {
        let p = pow(d as int, (n - 1) as nat);
        lemma_num_bounds(q, d, x + 1, (n - 1) as nat);
        lemma_num_bounds(q, d, x, (n - 1) as nat);
        let a = num_spec(q, d, x + 1, (n - 1) as nat);
        let b = num_spec(q, d, x, (n - 1) as nat);
        assert(pow(d as int, n) == d * p) by {
            vstd::arithmetic::power::lemma_pow_adds(d as int, 1, (n - 1) as nat);
            vstd::arithmetic::power::lemma_pow1(d as int);
        }
        assert(0 <= (d - x) * a + (x as int) * b <= d * p) by (nonlinear_arith)
            requires
                0 <= a <= p,
                0 <= b <= p,
                0 <= (x as int) < (d as int),
        ;
    }
}

/// Raising the security target never lets the continuation condition flip
/// from holding to failing.
pub proof fn lemma_cond_monotonic(q: nat, d: nat, s1: nat, s2: nat, n: nat)
    requires
        q <= d,
        s1 <= s2,
        cond_spec(q, d, s1, n),
    ensures
        cond_spec(q, d, s2, n),
{
    let diff = pow(d as int, n) - num_spec(q, d, 0, n);
    lemma_num_bounds(q, d, 0, n);
    lemma_pow2_adds(s1, (s2 - s1) as nat);
    lemma_pow2_pos((s2 - s1) as nat);
    assert(diff * pow2(s2) >= diff * pow2(s1)) by (nonlinear_arith)
        requires
            diff >= 0,
            pow2(s2) == pow2(s1) * pow2((s2 - s1) as nat),
            pow2((s2 - s1) as nat) >= 1,
            pow2(s1) >= 0,
    ;
}

/// The search result never precedes its starting point, and never exceeds
/// the cap.
pub proof fn lemma_first_fail_range(q: nat, d: nat, s: nat, k: nat)
    ensures
        k <= first_fail_from(q, d, s, k) || first_fail_from(q, d, s, k) == u128::MAX as nat,
        first_fail_from(q, d, s, k) <= u128::MAX as nat,
    decreases u128::MAX as nat - k,
{
    if k >= u128::MAX as nat {
    } else if !cond_spec(q, d, s, k) {
    } else {
        lemma_first_fail_range(q, d, s, k + 1);
    }
}

/// While the continuation condition holds on `[k, m)`, the search from `k`
/// and the search from `m` agree.
pub proof fn lemma_first_fail_skip(q: nat, d: nat, s: nat, k: nat, m: nat)
    requires
        k <= m <= u128::MAX as nat,
        forall|j: nat| k <= j < m ==> cond_spec(q, d, s, j),
    ensures
        first_fail_from(q, d, s, k) == first_fail_from(q, d, s, m),
    decreases m - k,
{
    if k < m {
        assert(cond_spec(q, d, s, k));
        lemma_first_fail_skip(q, d, s, k + 1, m);
    }
}

/// The first failing draw count is non-decreasing in the security target.
pub proof fn lemma_first_fail_monotonic(q: nat, d: nat, s1: nat, s2: nat, k: nat)
    requires
        q <= d,
        s1 <= s2,
    ensures
        first_fail_from(q, d, s1, k) <= first_fail_from(q, d, s2, k),
    decreases u128::MAX as nat - k,
{
    if k >= u128::MAX as nat {
    } else if !cond_spec(q, d, s2, k) {
        if cond_spec(q, d, s1, k) {
            lemma_cond_monotonic(q, d, s1, s2, k);
        }
        assert(first_fail_from(q, d, s1, k) == k);
    } else {
        lemma_first_fail_range(q, d, s2, k + 1);
        if cond_spec(q, d, s1, k) {
            lemma_first_fail_monotonic(q, d, s1, s2, k + 1);
        } else {
            assert(first_fail_from(q, d, s1, k) == k);
        }
    }
}

/// The estimate is non-decreasing in the security target: demanding more
/// bits of soundness can only demand more draws.  (That the estimate is
/// deterministic is already the contract of [`number_of_draws`], whose
/// result equals the function [`draws_spec`] of the inputs alone.)
pub proof fn lemma_draws_monotonic(q: nat, d: nat, s1: nat, s2: nat)
    requires
        q <= d,
        s1 <= s2,
    ensures
        draws_spec(q, d, s1) <= draws_spec(q, d, s2),
{
    lemma_first_fail_monotonic(q, d, s1, s2, 0);
    lemma_first_fail_range(q, d, s1, 0);
    lemma_first_fail_range(q, d, s2, 0);
}

/// With no position required, the very first probe already meets the bound,
/// and the look-ahead loop reports one draw.
pub proof fn lemma_draws_zero_queries(d: nat, s: nat)
    ensures
        draws_spec(0, d, s) == 1,
{
    lemma_pow0(d as int);
    assert(num_spec(0, d, 0, 0) == pow(d as int, 0));
    assert(!cond_spec(0, d, s, 0));
    assert(first_fail_from(0, d, s, 0) == 0);
}

/// Advance the numerator table by one draw: entry `x` of the result is the
/// numerator of `P(x, n + 1)`, computed from entries `x` and `x + 1` of the
/// table for `n` draws.
fn step(
    row: Vec<num_bigint::BigInt>,
    num_queries: u128,
    lde_domain_size: u128,
    Ghost(n): Ghost<nat>,
) -> (out: Vec<num_bigint::BigInt>)
    requires
        num_queries <= lde_domain_size,
        row@.len() == num_queries + 1,
        forall|i: int|
            0 <= i <= num_queries ==> big_value(row@[i]) == num_spec(
                num_queries as nat,
                lde_domain_size as nat,
                i as nat,
                n,
            ),
    ensures
        out@.len() == num_queries + 1,
        forall|i: int|
            0 <= i <= num_queries ==> big_value(out@[i]) == num_spec(
                num_queries as nat,
                lde_domain_size as nat,
                i as nat,
                n + 1,
            ),
{
    let ghost q = num_queries as nat;
    let ghost d = lde_domain_size as nat;
    let len: usize = row.len();
    let mut out: Vec<num_bigint::BigInt> = Vec::new();
    let mut x: usize = 0;
    while x < len - 1
        invariant
            num_queries <= lde_domain_size,
            q == num_queries as nat,
            d == lde_domain_size as nat,
            len == row@.len(),
            row@.len() == num_queries + 1,
            forall|i: int| 0 <= i <= num_queries ==> big_value(row@[i]) == num_spec(q, d, i as nat, n),
            0 <= x < len,
            out@.len() == x,
            forall|i: int| 0 <= i < x ==> big_value(out@[i]) == num_spec(q, d, i as nat, n + 1),
        decreases len - x,
    {
        let fresh = big_from_u128(lde_domain_size - (x as u128));
        let seen = big_from_u128(x as u128);
        let extend = big_mul(&fresh, &row[x + 1]);
        let repeat = big_mul(&seen, &row[x]);
        let next = big_add(&extend, &repeat);
        proof {
            assert((x as nat) < q);
            assert(num_spec(q, d, x as nat, n + 1) == (d - x) * num_spec(q, d, x as nat + 1, n)
                + (x as int) * num_spec(q, d, x as nat, n));
        }
        out.push(next);
        x += 1;
    }
    let scale = big_from_u128(lde_domain_size);
    let last = big_mul(&scale, &row[len - 1]);
    proof {
        assert(num_spec(q, d, q, n + 1) == pow(d as int, n + 1));
        assert(pow(d as int, n + 1) == d * pow(d as int, n)) by {
            vstd::arithmetic::power::lemma_pow_adds(d as int, 1, n);
            vstd::arithmetic::power::lemma_pow1(d as int);
        }
        assert(num_spec(q, d, q, n) == pow(d as int, n));
    }
    out.push(last);
    out
}

/// Smallest number of draws after which all `num_queries` distinct query
/// positions out of a domain of `lde_domain_size` have been collected with
/// probability greater than `1 - 2^-security` — plus the estimator's final
/// look-ahead increment, as [`draws_spec`] states exactly.
///
/// Callers keep `num_queries` within the domain; otherwise the target is
/// unreachable and no draw count exists.
pub fn number_of_draws(num_queries: u128, lde_domain_size: u128, security: u32) -> (r: u128)
    requires
        num_queries <= lde_domain_size,
        num_queries < usize::MAX as u128,
    ensures
        r as nat == draws_spec(num_queries as nat, lde_domain_size as nat, security as nat),
{
    let ghost q = num_queries as nat;
    let ghost d = lde_domain_size as nat;
    let ghost s = security as nat;
    let qs: usize = num_queries as usize;
    let mut row: Vec<num_bigint::BigInt> = Vec::new();
    let mut i: usize = 0;
    while i < qs
        invariant
            qs == num_queries,
            0 <= i <= qs,
            row@.len() == i,
            forall|j: int| 0 <= j < i ==> big_value(row@[j]) == 0,
        decreases qs - i,
    {
        row.push(big_from_u128(0));
        i += 1;
    }
    row.push(big_from_u128(1));
    proof {
        lemma_pow0(d as int);
        assert(forall|j: int| 0 <= j <= num_queries ==> big_value(row@[j]) == num_spec(
            q,
            d,
            j as nat,
            0,
        ));
    }
    let mut n: u128 = 0;
    loop
        invariant
            num_queries <= lde_domain_size,
            num_queries < usize::MAX as u128,
            qs == num_queries,
            q == num_queries as nat,
            d == lde_domain_size as nat,
            s == security as nat,
            row@.len() == num_queries + 1,
            forall|i: int| 0 <= i <= num_queries ==> big_value(row@[i]) == num_spec(
                q,
                d,
                i as nat,
                n as nat,
            ),
            forall|k: nat| k < n as nat ==> cond_spec(q, d, s, k),
        decreases u128::MAX - n,
    {
        let deficit = big_sub(&row[qs], &row[0]);
        let scaled = big_shl(&deficit, security);
        let keep_going = big_gt(&scaled, &row[qs]);
        proof {
            assert(num_spec(q, d, q, n as nat) == pow(d as int, n as nat));
            assert(keep_going == cond_spec(q, d, s, n as nat));
        }
        if !keep_going {
            proof {
                lemma_first_fail_skip(q, d, s, 0, n as nat);
            }
            if n == u128::MAX {
                return u128::MAX;
            }
            return n + 1;
        }
        if n == u128::MAX {
            proof {
                lemma_first_fail_skip(q, d, s, 0, n as nat);
            }
            return u128::MAX;
        }
        row = step(row, num_queries, lde_domain_size, Ghost(n as nat));
        n = n + 1;
    }
}

} // verus!
