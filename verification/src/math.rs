//! Percentage-share arithmetic for the deposit split.
//!
//! A deposit of amount `a` is split by fixed integer percentages with
//! truncating division: each bucket receives `a * pct / 100`, rounded down.
//! The fractional remainder is forfeited, not redistributed.

use vstd::arithmetic::div_mod::{
    lemma_fundamental_div_mod, lemma_fundamental_div_mod_converse, lemma_mod_bound,
};
use vstd::prelude::*;

verus! {

/// The share a bucket receives from amount `amount` at percentage `pct`:
/// `amount * pct / 100`, truncated toward zero.
pub open spec fn share(amount: u128, pct: u128) -> int {
    (amount * pct) / 100
}

/// Computes `amount * pct / 100` exactly, without overflowing, by splitting
/// `amount` into its multiple-of-100 part and its remainder.
pub fn mul_pct(amount: u128, pct: u128) -> (r: u128)
    requires
        pct <= 100,
    ensures
        r == share(amount, pct),
        r <= amount,
{
    let q = amount / 100;
    let rem = amount % 100;
    proof {
        let a = amount as int;
        let p = pct as int;
        lemma_fundamental_div_mod(a, 100);
        lemma_mod_bound(a, 100);
        // a * p == 100 * (q * p) + rem * p
        assert((100 * (a / 100) + a % 100) * p == 100 * ((a / 100) * p) + (a % 100) * p)
            by (nonlinear_arith);
        lemma_fundamental_div_mod((a % 100) * p, 100);
        lemma_mod_bound((a % 100) * p, 100);
        assert((a % 100) * p >= 0) by (nonlinear_arith)
            requires
                a % 100 >= 0 && p >= 0,
        ;
        assert((a % 100) * p <= 9900) by (nonlinear_arith)
            requires
                0 <= a % 100 < 100 && 0 <= p <= 100,
        ;
        let q2 = ((a % 100) * p) / 100;
        assert(a * p == 100 * ((a / 100) * p + q2) + ((a % 100) * p) % 100);
        lemma_fundamental_div_mod_converse(a * p, 100, (a / 100) * p + q2, ((a % 100) * p) % 100);
        assert(share(amount, pct) == (a / 100) * p + q2);
        // the share never exceeds the amount itself
        assert((a / 100) * p <= (a / 100) * 100) by (nonlinear_arith)
            requires
                a / 100 >= 0 && p <= 100,
        ;
        assert((a % 100) * p <= (a % 100) * 100) by (nonlinear_arith)
            requires
                a % 100 >= 0 && p <= 100,
        ;
        assert(100 * q2 <= (a % 100) * 100);
        assert((a / 100) * 100 + q2 <= a);
    }
    q * pct + (rem * pct) / 100
}

/// The three bucket shares together never exceed the deposited amount, and
/// exhaust it exactly when the amount is a multiple of 20; otherwise the
/// truncating split forfeits the remainder.
pub proof fn lemma_deposit_split(amount: u128)
    ensures
        share(amount, 85) + share(amount, 10) + share(amount, 5) <= amount,
        share(amount, 85) + share(amount, 10) + share(amount, 5) == amount <==> amount as int % 20
            == 0,
{
    let a = amount as int;
    lemma_fundamental_div_mod(a, 20);
    lemma_mod_bound(a, 20);
    let s = a % 20;
    lemma_share_decompose(amount, 85, 17);
    lemma_share_decompose(amount, 10, 2);
    lemma_share_decompose(amount, 5, 1);
    assert(5 * s < 100);
    assert((5 * s) / 100 == 0) by {
        lemma_fundamental_div_mod_converse(5 * s, 100, 0, 5 * s);
    }
    assert((85 * s) / 100 + (10 * s) / 100 <= s && ((85 * s) / 100 + (10 * s) / 100 == s <==> s
        == 0));
}

/// Rewrites `share(amount, pct)` through the decomposition
/// `amount == 20 * (amount / 20) + amount % 20`, for a percentage that is a
/// multiple of 5 (`pct == 5 * k`, so `20 * pct == 100 * k`).
proof fn lemma_share_decompose(amount: u128, pct: u128, k: int)
    requires
        pct == 5 * k,
        0 <= k <= 20,
    ensures
        share(amount, pct) == k * (amount as int / 20) + ((pct * (amount as int % 20)) / 100),
{
    let a = amount as int;
    let p = pct as int;
    lemma_fundamental_div_mod(a, 20);
    lemma_mod_bound(a, 20);
    let q = a / 20;
    let s = a % 20;
    assert((20 * q + s) * p == 100 * (k * q) + p * s) by (nonlinear_arith)
        requires
            p == 5 * k,
    ;
    lemma_fundamental_div_mod(p * s, 100);
    lemma_mod_bound(p * s, 100);
    assert(p * s >= 0) by (nonlinear_arith)
        requires
            p >= 0 && s >= 0,
    ;
    assert(a * p == 100 * (k * q + (p * s) / 100) + (p * s) % 100);
    lemma_fundamental_div_mod_converse(a * p, 100, k * q + (p * s) / 100, (p * s) % 100);
}

} // verus!
