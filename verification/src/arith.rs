//! Exact integer arithmetic used by the share accounting and the fee split.
use vstd::prelude::*;
use vstd::arithmetic::div_mod::lemma_fundamental_div_mod_converse;
use vstd::arithmetic::div_mod::lemma_fundamental_div_mod;
use percentage::Percentage;

verus! {

/// The `b`-bit prefix of `b` seen from bit `s` upwards (`0` once every bit is dropped).
pub open spec fn high_bits(b: u128, s: u32) -> int {
    if s >= 128 {
        0
    } else {
        (b >> s) as int
    }
}

proof fn lemma_high_bits_step(b: u128, s: u32)
    requires
        s < 128,
    ensures
        high_bits(b, s) == 2 * high_bits(b, (s + 1) as u32) + ((b >> s) & 1) as int,
        ((b >> s) & 1) <= 1,
{
    assert(((b >> s) & 1) <= 1) by (bit_vector);
    if s == 127 {
        assert((b >> 127u32) == ((b >> 127u32) & 1)) by (bit_vector);
    } else {
        assert(s < 127);
        assert((b >> s) == 2 * (b >> ((s + 1) as u32)) + ((b >> s) & 1)) by (bit_vector)
            requires
                s < 127,
        ;
    }
}

proof fn lemma_double_step(ra: int, c: int, p: int, q: int, r: int, q2: int, r2: int, bit: int)
    requires
        c > 0,
        0 <= ra < c,
        q * c + r == ra * p,
        q2 * c + r2 == 2 * (q * c + r) + bit * ra,
    ensures
        q2 * c + r2 == ra * (2 * p + bit),
{
    assert(ra * (2 * p + bit) == 2 * (ra * p) + bit * ra) by (nonlinear_arith);
}

proof fn lemma_double(q: int, r: int, c: int, q1: int, r1: int)
    requires
        (q1 == 2 * q + 1 && r1 == 2 * r - c) || (q1 == 2 * q && r1 == 2 * r),
    ensures
        q1 * c + r1 == 2 * (q * c + r),
{
    assert(q1 * c + r1 == 2 * (q * c + r)) by (nonlinear_arith)
        requires
            (q1 == 2 * q + 1 && r1 == 2 * r - c) || (q1 == 2 * q && r1 == 2 * r),
    ;
}

proof fn lemma_add_bit(q1: int, r1: int, c: int, ra: int, q2: int, r2: int, bit: int)
    requires
        bit == 0 ==> q2 == q1 && r2 == r1,
        bit == 1 ==> (q2 == q1 + 1 && r2 == r1 + ra - c) || (q2 == q1 && r2 == r1 + ra),
        bit == 0 || bit == 1,
    ensures
        q2 * c + r2 == q1 * c + r1 + bit * ra,
{
    assert(q2 * c + r2 == q1 * c + r1 + bit * ra) by (nonlinear_arith)
        requires
            bit == 0 ==> q2 == q1 && r2 == r1,
            bit == 1 ==> (q2 == q1 + 1 && r2 == r1 + ra - c) || (q2 == q1 && r2 == r1 + ra),
            bit == 0 || bit == 1,
    ;
}

proof fn lemma_quotient_bound(ra: int, c: int, p: int, b: int, q: int, r: int)
    requires
        c > 0,
        0 <= ra,
        0 <= p <= b,
        0 <= r,
        q * c + r == ra * p,
    ensures
        q * c <= ra * b,
        q <= (ra * b) / c,
        ra < c ==> q <= b,
{
    assert(ra * p <= ra * b) by (nonlinear_arith)
        requires
            0 <= ra,
            p <= b,
    ;
    lemma_fundamental_div_mod(ra * b, c);
    let m = (ra * b) / c;
    let k = (ra * b) % c;
    assert(0 <= k < c) by {
        vstd::arithmetic::div_mod::lemma_mod_bound(ra * b, c);
    }
    assert(q <= m) by (nonlinear_arith)
        requires
            c > 0,
            q * c <= ra * b,
            ra * b == c * m + k,
            0 <= k < c,
    ;
    if ra < c {
        assert(q <= b) by (nonlinear_arith)
            requires
                c > 0,
                0 <= ra < c,
                0 <= b,
                q * c <= ra * b,
        ;
    }
}

/// `a * b / c` rounded down, computed without losing the high bits of `a * b`;
/// `None` where the quotient does not fit in 128 bits.
pub fn mul_div_checked(a: u128, b: u128, c: u128) -> (res: Option<u128>)
    requires
        c > 0,
    ensures
        res is Some <==> (a as int) * (b as int) / (c as int) <= u128::MAX,
        res matches Some(v) ==> v as int == (a as int) * (b as int) / (c as int),
{
    let qa: u128 = a / c;
    let ra: u128 = a % c;
    proof {
        lemma_fundamental_div_mod(a as int, c as int);
        vstd::arithmetic::div_mod::lemma_mod_bound(a as int, c as int);
        assert((a as int) == (c as int) * (qa as int) + (ra as int));
        assert(ra <= a) by (nonlinear_arith)
            requires
                (a as int) == (c as int) * (qa as int) + (ra as int),
                qa >= 0,
                c > 0,
        ;
        assert((a as int) * (b as int) == (qa as int) * (b as int) * (c as int) + (ra as int) * (b as int))
            by (nonlinear_arith)
            requires
                (a as int) == (c as int) * (qa as int) + (ra as int),
        ;
    }
    // quotient and remainder of `ra * high_bits(b, s)` by `c`
    let mut q: u128 = 0;
    let mut r: u128 = 0;
    let mut s: u32 = 128;
    proof {
        assert(high_bits(b, 128) == 0);
        assert((ra as int) * 0 == 0);
    }
    while s > 0
        invariant
            s <= 128,
            c > 0,
            ra < c,
            ra <= a,
            r < c,
            (q as int) * (c as int) + (r as int) == (ra as int) * high_bits(b, s),
            (a as int) * (b as int) == (qa as int) * (b as int) * (c as int) + (ra as int) * (b as int),
            q <= b,
        decreases s,
    {
        let t: u32 = s - 1;
        let bit: u128 = (b >> t) & 1;
        let ghost p_old: int = high_bits(b, s);
        proof {
            lemma_high_bits_step(b, t);
            assert(s == (t + 1) as u32);
        }
        let ghost p_new: int = 2 * p_old + bit as int;
        assert(p_new == high_bits(b, t));
        // doubling: (q, r) -> quotient and remainder of 2 * (q * c + r)
        let ghost q_old: int = q as int;
        let ghost r_old: int = r as int;
        let mut carry: u128 = 0;
        let mut r2: u128;
        if r >= c - r {
            r2 = r - (c - r);
            carry = 1;
        } else {
            r2 = r + r;
        }
        let ghost q1: int = 2 * q_old + carry as int;
        let ghost r1: int = r2 as int;
        proof {
            lemma_double(q_old, r_old, c as int, q1, r1);
        }
        // adding `bit * ra`
        if bit == 1 {
            if r2 >= c - ra {
                r2 = r2 - (c - ra);
                carry = carry + 1;
            } else {
                r2 = r2 + ra;
            }
        }
        let ghost q_new: int = 2 * q_old + carry as int;
        proof {
            lemma_add_bit(q1, r1, c as int, ra as int, q_new, r2 as int, bit as int);
            lemma_double_step(ra as int, c as int, p_old, q_old, r_old, q_new, r2 as int, bit as int);
            assert(0 <= p_new <= b) by {
                assert((b >> t) <= b) by (bit_vector);
            }
            lemma_quotient_bound(ra as int, c as int, p_new, b as int, q_new, r2 as int);
        }
        q = q * 2 + carry;
        r = r2;
        s = t;
    }
    proof {
        assert(high_bits(b, 0) == b as int) by {
            assert((b >> 0u32) == b) by (bit_vector);
        }
        lemma_fundamental_div_mod_converse((ra as int) * (b as int), c as int, q as int, r as int);
        let total = (qa as int) * (b as int) + (q as int);
        assert((a as int) * (b as int) == total * (c as int) + (r as int)) by (nonlinear_arith)
            requires
                (a as int) * (b as int) == (qa as int) * (b as int) * (c as int) + (ra as int) * (b as int),
                (q as int) * (c as int) + (r as int) == (ra as int) * (b as int),
                total == (qa as int) * (b as int) + (q as int),
        ;
        lemma_fundamental_div_mod_converse((a as int) * (b as int), c as int, total, r as int);
        assert(0 <= (qa as int) * (b as int)) by (nonlinear_arith);
        assert((qa as int) * (b as int) <= total);
    }
    let hi = match qa.checked_mul(b) {
        Some(v) => v,
        None => return None,
    };
    hi.checked_add(q)
}

/// `a * b / c` rounded down, where the quotient fits in 128 bits.
pub fn mul_div(a: u128, b: u128, c: u128) -> (res: u128)
    requires
        c > 0,
        (a as int) * (b as int) / (c as int) <= u128::MAX,
    ensures
        res as int == (a as int) * (b as int) / (c as int),
{
    mul_div_checked(a, b, c).unwrap()
}

/// `Percentage::from(percent).apply_to(value)` of the `percentage` crate: the
/// percentage is kept as a `u8` (the conversion panics above 100) and applied as
/// `value * percent / 100` in `u128`, which must not overflow.
#[verifier::external_body]
pub(crate) fn percentage_apply_to(percent: u128, value: u128) -> (res: u128)
    requires
        percent <= 100,
        value * percent <= u128::MAX,
    ensures
        res as int == (value as int) * (percent as int) / 100,
{
    Percentage::from(percent).apply_to(value)
}

/// `percent` percent of `value`, rounded down.
pub open spec fn percent_of_spec(percent: int, value: int) -> int {
    value * percent / 100
}

/// `percent` percent of `value`, rounded down; `None` where the product
/// `value * percent` does not fit in 128 bits.
pub fn percent_of(percent: u128, value: u128) -> (res: Option<u128>)
    requires
        percent <= 100,
    ensures
        (value as int) * (percent as int) <= u128::MAX ==> res == Some(
            percent_of_spec(percent as int, value as int) as u128,
        ),
        (value as int) * (percent as int) > u128::MAX ==> res is None,
        res matches Some(v) ==> v <= value,
{
    if percent == 0 {
        let r = percentage_apply_to(percent, value);
        assert((value as int) * 0 == 0);
        return Some(r);
    }
    if value > u128::MAX / percent {
        proof {
            assert((value as int) * (percent as int) > u128::MAX) by (nonlinear_arith)
                requires
                    percent > 0,
                    value > u128::MAX / percent,
            ;
        }
        None
    } else {
        proof {
            assert((value as int) * (percent as int) <= u128::MAX) by (nonlinear_arith)
                requires
                    percent > 0,
                    value <= u128::MAX / percent,
            ;
        }
        let r = percentage_apply_to(percent, value);
        proof {
            assert((value as int) * (percent as int) / 100 <= value) by (nonlinear_arith)
                requires
                    percent <= 100,
                    value >= 0,
            ;
        }
        Some(r)
    }
}

} // verus!
