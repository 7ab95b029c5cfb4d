//! Exact comparison of 256-bit products.
//!
//! The trial formulas of the estimator are comparisons of rational
//! numbers; cross-multiplying their numerators and denominators yields
//! products of two `u128` factors, which do not fit a machine word.
//! `mul_wide` computes such a product exactly as a high/low pair of
//! `u128` halves, and `prod_geq` compares two such products, so the
//! decision tree never rounds.

use vstd::arithmetic::div_mod::lemma_fundamental_div_mod;
use vstd::arithmetic::div_mod::lemma_mod_bound;
use vstd::prelude::*;

verus! {

/// 2^64, the base in which `mul_wide` splits its operands.
pub const BASE: u128 = 0x1_0000_0000_0000_0000;

/// The integer a high/low pair of `u128` halves stands for.
pub open spec fn wide_val(hi: u128, lo: u128) -> int {
    hi * 0x1_0000_0000_0000_0000_0000_0000_0000_0000 + lo
}

/// Ring identity: splitting both factors at `base` splits the product
/// into the four partial products.
proof fn lemma_mul_parts(a: int, b: int, ah: int, al: int, bh: int, bl: int, base: int)
    requires
        a == ah * base + al,
        b == bh * base + bl,
    ensures
        a * b == (ah * bh) * (base * base) + (al * bh) * base + (ah * bl) * base + al * bl,
{
    assert(a * b == (ah * base) * b + al * b) by (nonlinear_arith)
        requires
            a == ah * base + al,
    ;
    assert((ah * base) * b == (ah * base) * (bh * base) + (ah * base) * bl) by (nonlinear_arith)
        requires
            b == bh * base + bl,
    ;
    assert(al * b == al * (bh * base) + al * bl) by (nonlinear_arith)
        requires
            b == bh * base + bl,
    ;
    assert((ah * base) * (bh * base) == (ah * bh) * (base * base)) by (nonlinear_arith);
    assert((ah * base) * bl == (ah * bl) * base) by (nonlinear_arith);
    assert(al * (bh * base) == (al * bh) * base) by (nonlinear_arith);
}

/// Ring identity: the carry propagation of `mul_wide` reassembles the
/// four partial products into a high/low pair.
proof fn lemma_recombine(
    hh: int,
    lh: int,
    hl: int,
    ll: int,
    q_lh: int,
    r_lh: int,
    q_hl: int,
    r_hl: int,
    q_ll: int,
    r_ll: int,
    t: int,
    q_t: int,
    r_t: int,
    hi: int,
    lo: int,
    base: int,
)
    by (nonlinear_arith)
    requires
        lh == q_lh * base + r_lh,
        hl == q_hl * base + r_hl,
        ll == q_ll * base + r_ll,
        t == q_ll + r_lh + r_hl,
        t == q_t * base + r_t,
        lo == r_t * base + r_ll,
        hi == hh + q_lh + q_hl + q_t,
    ensures
        hi * (base * base) + lo == hh * (base * base) + lh * base + hl * base + ll,
{
}

/// A quotient by `base` of a value at most `(base - 1)^2` is at most
/// `base - 2`.
proof fn lemma_quot_bound(x: int, q: int, r: int, base: int)
    by (nonlinear_arith)
    requires
        base >= 2,
        x == q * base + r,
        0 <= r < base,
        0 <= x <= (base - 1) * (base - 1),
    ensures
        0 <= q <= base - 2,
{
}

/// A quotient by `base` of a value below `base^2` is below `base`.
proof fn lemma_quot_bound_full(x: int, q: int, r: int, base: int)
    by (nonlinear_arith)
    requires
        base >= 2,
        x == q * base + r,
        0 <= r < base,
        0 <= x <= base * base - 1,
    ensures
        0 <= q <= base - 1,
{
}

/// Exact 128 x 128 -> 256 bit multiplication: the returned pair is the
/// full product in base 2^128.
pub fn mul_wide(a: u128, b: u128) -> (r: (u128, u128))
    ensures
        wide_val(r.0, r.1) == a * b,
{
    let a_hi: u128 = a / BASE;
    let a_lo: u128 = a % BASE;
    let b_hi: u128 = b / BASE;
    let b_lo: u128 = b % BASE;
    proof {
        lemma_fundamental_div_mod(a as int, BASE as int);
        lemma_fundamental_div_mod(b as int, BASE as int);
        lemma_mod_bound(a as int, BASE as int);
        lemma_mod_bound(b as int, BASE as int);
        lemma_quot_bound_full(a as int, a_hi as int, a_lo as int, BASE as int);
        lemma_quot_bound_full(b as int, b_hi as int, b_lo as int, BASE as int);
        vstd::arithmetic::mul::lemma_mul_upper_bound(
            a_hi as int,
            (BASE as int) - 1,
            b_hi as int,
            (BASE as int) - 1,
        );
        vstd::arithmetic::mul::lemma_mul_upper_bound(
            a_lo as int,
            (BASE as int) - 1,
            b_hi as int,
            (BASE as int) - 1,
        );
        vstd::arithmetic::mul::lemma_mul_upper_bound(
            a_hi as int,
            (BASE as int) - 1,
            b_lo as int,
            (BASE as int) - 1,
        );
        vstd::arithmetic::mul::lemma_mul_upper_bound(
            a_lo as int,
            (BASE as int) - 1,
            b_lo as int,
            (BASE as int) - 1,
        );
    }
    let hh: u128 = a_hi * b_hi;
    let lh: u128 = a_lo * b_hi;
    let hl: u128 = a_hi * b_lo;
    let ll: u128 = a_lo * b_lo;
    let q_lh: u128 = lh / BASE;
    let r_lh: u128 = lh % BASE;
    let q_hl: u128 = hl / BASE;
    let r_hl: u128 = hl % BASE;
    let q_ll: u128 = ll / BASE;
    let r_ll: u128 = ll % BASE;
    proof {
        lemma_fundamental_div_mod(lh as int, BASE as int);
        lemma_fundamental_div_mod(hl as int, BASE as int);
        lemma_fundamental_div_mod(ll as int, BASE as int);
        lemma_mod_bound(lh as int, BASE as int);
        lemma_mod_bound(hl as int, BASE as int);
        lemma_mod_bound(ll as int, BASE as int);
        lemma_quot_bound(lh as int, q_lh as int, r_lh as int, BASE as int);
        lemma_quot_bound(hl as int, q_hl as int, r_hl as int, BASE as int);
        lemma_quot_bound(ll as int, q_ll as int, r_ll as int, BASE as int);
    }
    let t: u128 = q_ll + r_lh + r_hl;
    let q_t: u128 = t / BASE;
    let r_t: u128 = t % BASE;
    proof {
        lemma_fundamental_div_mod(t as int, BASE as int);
        lemma_mod_bound(t as int, BASE as int);
        assert(q_t <= 2) by (nonlinear_arith)
            requires
                t as int == (q_t as int) * (BASE as int) + (r_t as int),
                0 <= r_t as int,
                BASE as int >= 2,
                t as int <= 3 * ((BASE as int) - 1),
                0 <= q_t as int,
        ;
    }
    let lo: u128 = r_t * BASE + r_ll;
    let hi: u128 = hh + q_lh + q_hl + q_t;
    proof {
        lemma_mul_parts(
            a as int,
            b as int,
            a_hi as int,
            a_lo as int,
            b_hi as int,
            b_lo as int,
            BASE as int,
        );
        lemma_recombine(
            hh as int,
            lh as int,
            hl as int,
            ll as int,
            q_lh as int,
            r_lh as int,
            q_hl as int,
            r_hl as int,
            q_ll as int,
            r_ll as int,
            t as int,
            q_t as int,
            r_t as int,
            hi as int,
            lo as int,
            BASE as int,
        );
        assert((BASE as int) * (BASE as int)
            == 0x1_0000_0000_0000_0000_0000_0000_0000_0000int);
    }
    (hi, lo)
}

/// Two high/low pairs with halves below 2^128 compare lexicographically.
proof fn lemma_lex_compare(h1: int, l1: int, h2: int, l2: int, p: int)
    by (nonlinear_arith)
    requires
        p > 0,
        0 <= l1 < p,
        0 <= l2 < p,
    ensures
        (h1 * p + l1 >= h2 * p + l2) == (h1 > h2 || (h1 == h2 && l1 >= l2)),
{
}

/// Decides `a1 * b1 >= a2 * b2` exactly, though either product may
/// exceed a machine word.
pub fn prod_geq(a1: u128, b1: u128, a2: u128, b2: u128) -> (r: bool)
    ensures
        r == (a1 * b1 >= a2 * b2),
{
    let (h1, l1) = mul_wide(a1, b1);
    let (h2, l2) = mul_wide(a2, b2);
    proof {
        lemma_lex_compare(
            h1 as int,
            l1 as int,
            h2 as int,
            l2 as int,
            0x1_0000_0000_0000_0000_0000_0000_0000_0000int,
        );
    }
    if h1 != h2 {
        h1 > h2
    } else {
        l1 >= l2
    }
}

} // verus!
