//! Fixed-point scalar arithmetic.
//!
//! An `i64` value `v` represents the real number `v / ONE`.  All operations
//! are total: divisions by zero yield zero and results out of the `i64`
//! range saturate, and the specification functions state exactly that.

use vstd::prelude::*;

verus! {

/// Fixed-point scale: `ONE` stands for the real number 1.
pub const ONE: i64 = 65536;

/// Absolute value of a mathematical integer.
pub open spec fn abs_int(a: int) -> int {
    if a < 0 {
        -a
    } else {
        a
    }
}

/// Truncating division (rounds toward zero); division by zero yields zero.
pub open spec fn tdiv(a: int, b: int) -> int {
    if b == 0 {
        0
    } else {
        let q = abs_int(a) / abs_int(b);
        if (a < 0) == (b < 0) {
            q
        } else {
            -q
        }
    }
}

/// Saturation of a mathematical integer into the `i64` range.
pub open spec fn clamp64(v: int) -> int {
    if v > i64::MAX {
        i64::MAX as int
    } else if v < i64::MIN {
        i64::MIN as int
    } else {
        v
    }
}

/// Fixed-point product: `a * b` rescaled back by `ONE`, saturated.
pub open spec fn fp_mul_spec(a: int, b: int) -> int {
    clamp64(tdiv(a * b, ONE as int))
}

/// Fixed-point quotient: `a / b` at scale `ONE`, saturated; zero when `b == 0`.
pub open spec fn fp_div_spec(a: int, b: int) -> int {
    clamp64(tdiv(a * (ONE as int), b))
}

/// Saturating addition of two fixed-point values.
pub open spec fn fp_add_spec(a: int, b: int) -> int {
    clamp64(a + b)
}

proof fn lemma_div_le(a: int, b: int)
    requires
        0 <= a,
        1 <= b,
    ensures
        0 <= a / b <= a,
{
    vstd::arithmetic::div_mod::lemma_div_is_ordered_by_denominator(a, 1, b);
    vstd::arithmetic::div_mod::lemma_div_pos_is_pos(a, b);
    assert(a / 1 == a) by (nonlinear_arith);
}

/// A truncating quotient is no larger in magnitude than its dividend.
pub proof fn lemma_tdiv_abs_bound(a: int, b: int)
    ensures
        abs_int(tdiv(a, b)) <= abs_int(a),
{
    if b != 0 {
        lemma_div_le(abs_int(a), abs_int(b));
    }
}

/// Saturates an `i128` into the `i64` range.
pub fn clamp_i128(v: i128) -> (r: i64)
    ensures
        r as int == clamp64(v as int),
{
    if v > i64::MAX as i128 {
        i64::MAX
    } else if v < i64::MIN as i128 {
        i64::MIN
    } else {
        v as i64
    }
}

/// Truncating division on `i128`, total in its second argument.
pub fn tdiv_i128(a: i128, b: i128) -> (q: i128)
    requires
        a != i128::MIN,
        b != i128::MIN,
    ensures
        q as int == tdiv(a as int, b as int),
        abs_int(q as int) <= abs_int(a as int),
{
    if b == 0 {
        0
    } else {
        let na: u128 = if a < 0 {
            (-a) as u128
        } else {
            a as u128
        };
        let nb: u128 = if b < 0 {
            (-b) as u128
        } else {
            b as u128
        };
        let nq: u128 = na / nb;
        proof {
            lemma_div_le(na as int, nb as int);
        }
        if (a < 0) == (b < 0) {
            nq as i128
        } else {
            -(nq as i128)
        }
    }
}

/// Bound on the product of two `i64` values, used to justify `i128` products.
pub proof fn lemma_i64_product_bound(a: int, b: int)
    requires
        i64::MIN <= a <= i64::MAX,
        i64::MIN <= b <= i64::MAX,
    ensures
        -(0x40000000000000000000000000000000) <= a * b
            <= 0x40000000000000000000000000000000,
{
    assert(-(0x40000000000000000000000000000000) <= a * b
        <= 0x40000000000000000000000000000000) by (nonlinear_arith)
        requires
            -0x8000000000000000 <= a <= 0x7fffffffffffffff,
            -0x8000000000000000 <= b <= 0x7fffffffffffffff,
    ;
}

/// Fixed-point product of two `i64` values.
pub fn fp_mul(a: i64, b: i64) -> (r: i64)
    ensures
        r as int == fp_mul_spec(a as int, b as int),
{
    proof {
        lemma_i64_product_bound(a as int, b as int);
    }
    let p: i128 = (a as i128) * (b as i128);
    clamp_i128(tdiv_i128(p, ONE as i128))
}

/// Fixed-point quotient of two `i64` values; zero when `b == 0`.
pub fn fp_div(a: i64, b: i64) -> (r: i64)
    ensures
        r as int == fp_div_spec(a as int, b as int),
{
    proof {
        lemma_i64_product_bound(a as int, ONE as int);
    }
    let p: i128 = (a as i128) * (ONE as i128);
    clamp_i128(tdiv_i128(p, b as i128))
}

/// Saturating addition of two fixed-point `i64` values.
pub fn fp_add(a: i64, b: i64) -> (r: i64)
    ensures
        r as int == fp_add_spec(a as int, b as int),
{
    clamp_i128(a as i128 + b as i128)
}

/// Copies a vector of plain values, preserving its view.
pub fn clone_copied<T: Copy>(v: &Vec<T>) -> (r: Vec<T>)
    ensures
        r@ == v@,
{
    let mut r: Vec<T> = Vec::new();
    let mut i: usize = 0;
    while i < v.len()
        invariant
            i <= v.len(),
            r@ == v@.subrange(0, i as int),
        decreases v.len() - i,
    {
        r.push(v[i]);
        proof {
            assert(r@ =~= v@.subrange(0, i + 1 as int));
        }
        i = i + 1;
    }
    proof {
        assert(r@ =~= v@);
    }
    r
}

} // verus!
