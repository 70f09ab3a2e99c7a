//! The conversion engine: a fiat amount into a token-unit count, by exact
//! fixed-point arithmetic on the rate's mantissa and decimal exponent.

use crate::errors::StablecoinError;
use crate::oracle::Rate;
use vstd::arithmetic::div_mod::{
    lemma_div_denominator, lemma_div_is_ordered, lemma_div_nonincreasing,
    lemma_fundamental_div_mod, lemma_fundamental_div_mod_converse, lemma_mod_pos_bound,
};
use vstd::arithmetic::mul::{lemma_mul_is_associative, lemma_mul_strictly_positive};
use vstd::arithmetic::mul::lemma_mul_inequality;
use vstd::arithmetic::power::{lemma_pow0, lemma_pow1, lemma_pow_adds, lemma_pow_increases, lemma_pow_positive, pow};
use vstd::prelude::*;

verus! {

/// `10^e`.
pub open spec fn pow10(e: nat) -> int {
    pow(10, e)
}

/// The fiat amount brought to the rate's precision: scaled up by
/// `10^(-e)` when the decimal exponent `e` is negative.
pub open spec fn scaled_fiat(amount_fiat: u64, e: int) -> int {
    if e < 0 {
        amount_fiat * pow10((-e) as nat)
    } else {
        amount_fiat as int
    }
}

/// The rate's mantissa brought to whole fiat units: scaled up by `10^e`
/// when the decimal exponent `e` is positive.
pub open spec fn scaled_rate(mantissa: u128, e: int) -> int {
    if e > 0 {
        mantissa * pow10(e as nat)
    } else {
        mantissa as int
    }
}

/// The exact token-unit count a fiat amount buys at a rate:
/// `floor(amount_fiat / (mantissa * 10^scale_exponent))`.
pub open spec fn token_units(amount_fiat: u64, rate: Rate) -> int {
    scaled_fiat(amount_fiat, rate.scale_exponent as int)
        / scaled_rate(rate.mantissa, rate.scale_exponent as int)
}

/// The token amount owed for a conversion that yields at least one unit:
/// the exact count, clamped to the widest representable amount.
pub open spec fn token_amount_of(amount_fiat: u64, rate: Rate) -> u64 {
    if token_units(amount_fiat, rate) > u64::MAX {
        u64::MAX
    } else {
        token_units(amount_fiat, rate) as u64
    }
}

/// Converts a fiat amount into the token-unit count it buys at `rate`,
/// rounding down.
///
/// Returns `InvalidTokenAmount` exactly when the amount is too small to buy
/// one whole token unit at this rate (in particular for a zero amount); a
/// count beyond the representable range is clamped to the largest amount.
pub fn convert(amount_fiat: u64, rate: &Rate) -> (r: Result<u64, StablecoinError>)
    requires
        rate.wf(),
    ensures
        r is Err <==> token_units(amount_fiat, *rate) == 0,
        r is Err ==> r == Err::<u64, StablecoinError>(StablecoinError::InvalidTokenAmount),
        r matches Ok(t) ==> t == token_amount_of(amount_fiat, *rate) && t > 0,
{
    let m: u128 = rate.mantissa;
    let e: i32 = rate.scale_exponent;
    if e >= 0 {
        let mut q: u128 = (amount_fiat as u128) / m;
        proof {
            lemma_pow0(10);
            lemma_div_nonincreasing(amount_fiat as int, m as int);
        }
        let mut i: i32 = 0;
        while i < e
            invariant
                0 <= i <= e,
                m == rate.mantissa,
                rate.wf(),
                q == (amount_fiat as int) / ((m as int) * pow10(i as nat)),
                q <= amount_fiat,
            decreases e - i,
        {
            proof {
                let fi = amount_fiat as int;
                let mi = m as int;
                let p = pow10(i as nat);
                lemma_pow_positive(10, i as nat);
                lemma_mul_strictly_positive(mi, p);
                lemma_div_denominator(fi, mi * p, 10);
                lemma_pow_adds(10, i as nat, 1);
                lemma_pow1(10);
                lemma_mul_is_associative(mi, p, 10);
                assert((mi * p) * 10 == mi * pow10((i + 1) as nat));
                lemma_div_nonincreasing(q as int, 10);
            }
            q = q / 10;
            i = i + 1;
        }
        proof {
            if e == 0 {
                assert((m as int) * pow10(0) == m as int);
            }
            assert(q == token_units(amount_fiat, *rate));
        }
        if q == 0 {
            Err(StablecoinError::InvalidTokenAmount)
        } else {
            Ok(q as u64)
        }
    } else {
        let k: u32 = (-e) as u32;
        let mut q: u128 = (amount_fiat as u128) / m;
        let mut r: u128 = (amount_fiat as u128) % m;
        proof {
            lemma_pow0(10);
            lemma_fundamental_div_mod(amount_fiat as int, m as int);
            lemma_mod_pos_bound(amount_fiat as int, m as int);
            lemma_div_nonincreasing(amount_fiat as int, m as int);
            assert((amount_fiat as int) * pow10(0) == (q as int) * (m as int) + (r as int))
                by (nonlinear_arith)
                requires
                    pow10(0) == 1,
                    (amount_fiat as int) == (m as int) * ((amount_fiat as int) / (m as int))
                        + (amount_fiat as int) % (m as int),
                    (q as int) == (amount_fiat as int) / (m as int),
                    (r as int) == (amount_fiat as int) % (m as int);
        }
        let mut i: u32 = 0;
        while i < k
            invariant
                0 <= i <= k,
                k == -(rate.scale_exponent as int),
                m == rate.mantissa,
                rate.wf(),
                (amount_fiat as int) * pow10(i as nat) == (q as int) * (m as int) + (r as int),
                r < m,
                q <= u64::MAX,
            decreases k - i,
        {
            let r10: u128 = 10 * r;
            let d: u128 = r10 / m;
            let q10: u128 = 10 * q;
            let qn: u128 = q10 + d;
            proof {
                let fi = amount_fiat as int;
                let mi = m as int;
                let p = pow10(i as nat);
                let pn = pow10((i + 1) as nat);
                lemma_pow_adds(10, i as nat, 1);
                lemma_pow1(10);
                assert(pn == p * 10);
                lemma_fundamental_div_mod(r10 as int, mi);
                lemma_mod_pos_bound(r10 as int, mi);
                assert(fi * pn == (qn as int) * mi + (r10 as int) % mi) by (nonlinear_arith)
                    requires
                        fi * p == (q as int) * mi + (r as int),
                        pn == p * 10,
                        (r10 as int) == 10 * (r as int),
                        (r10 as int) == mi * (d as int) + (r10 as int) % mi,
                        (qn as int) == 10 * (q as int) + (d as int);
            }
            if qn > (u64::MAX as u128) {
                proof {
                    let fi = amount_fiat as int;
                    let mi = m as int;
                    let pn = pow10((i + 1) as nat);
                    let pk = pow10(k as nat);
                    lemma_fundamental_div_mod_converse(
                        fi * pn,
                        mi,
                        qn as int,
                        ((10 * (r as int)) % mi),
                    );
                    lemma_pow_increases(10, (i + 1) as nat, k as nat);
                    lemma_mul_inequality(pn, pk, fi);
                    lemma_div_is_ordered(fi * pn, fi * pk, mi);
                    assert(token_units(amount_fiat, *rate) >= qn);
                }
                return Ok(u64::MAX);
            }
            q = qn;
            r = r10 % m;
            i = i + 1;
        }
        proof {
            lemma_fundamental_div_mod_converse(
                (amount_fiat as int) * pow10(k as nat),
                m as int,
                q as int,
                r as int,
            );
            assert(q == token_units(amount_fiat, *rate));
        }
        if q == 0 {
            Err(StablecoinError::InvalidTokenAmount)
        } else {
            Ok(q as u64)
        }
    }
}

} // verus!
