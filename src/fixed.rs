//! Fixed-point arithmetic on `i64` values that count millionths.
use vstd::prelude::*;

verus! {

/// The fixed-point value of one unit.
pub const UNIT: i64 = 1_000_000;

pub open spec fn in_i64(v: int) -> bool {
    i64::MIN <= v <= i64::MAX
}

pub open spec fn abs(v: int) -> nat {
    if v < 0 {
        (-v) as nat
    } else {
        v as nat
    }
}

/// Integer division rounding toward zero, as Rust's `/` does.
pub open spec fn div_trunc(a: int, b: int) -> int
    recommends
        b != 0,
{
    let q = (abs(a) / abs(b)) as int;
    if (a < 0) == (b < 0) {
        q
    } else {
        -q
    }
}

/// The exact product of two fixed-point values, rounded toward zero.
pub open spec fn fixed_mul(a: int, b: int) -> int {
    div_trunc(a * b, UNIT as int)
}

/// The exact quotient of two fixed-point values, rounded toward zero.
pub open spec fn fixed_div(a: int, b: int) -> int
    recommends
        b != 0,
{
    div_trunc(a * UNIT, b)
}

/// The largest magnitude of a product of two `i64` values: 2^126.
const PRODUCT_BOUND: i128 = 0x4000_0000_0000_0000_0000_0000_0000_0000;

proof fn lemma_product_bound(a: int, b: int)
    requires
        i64::MIN <= a <= i64::MAX,
        i64::MIN <= b <= i64::MAX,
    ensures
        -PRODUCT_BOUND <= a * b <= PRODUCT_BOUND,
{
    assert(-0x4000_0000_0000_0000_0000_0000_0000_0000 <= a * b <= 0x4000_0000_0000_0000_0000_0000_0000_0000)
        by (nonlinear_arith)
        requires
            -0x8000_0000_0000_0000 <= a <= 0x7fff_ffff_ffff_ffff,
            -0x8000_0000_0000_0000 <= b <= 0x7fff_ffff_ffff_ffff,
    ;
}

fn div_trunc_i128(a: i128, b: i128) -> (r: i128)
    requires
        b != 0,
        -PRODUCT_BOUND <= a <= PRODUCT_BOUND,
        -PRODUCT_BOUND <= b <= PRODUCT_BOUND,
    ensures
        r == div_trunc(a as int, b as int),
{
    let ua: u128 = if a < 0 { (-a) as u128 } else { a as u128 };
    let ub: u128 = if b < 0 { (-b) as u128 } else { b as u128 };
    let q: u128 = ua / ub;
    assert(q <= ua) by (nonlinear_arith)
        requires q == ua / ub, ub >= 1;
    if (a < 0) == (b < 0) {
        q as i128
    } else {
        -(q as i128)
    }
}

/// Sum of two fixed-point values, or `None` where it leaves the `i64` range.
pub fn checked_add(a: i64, b: i64) -> (r: Option<i64>)
    ensures
        r == (if in_i64(a + b) { Some((a + b) as i64) } else { None::<i64> }),
{
    a.checked_add(b)
}

/// Difference of two fixed-point values, or `None` where it leaves the `i64` range.
pub fn checked_sub(a: i64, b: i64) -> (r: Option<i64>)
    ensures
        r == (if in_i64(a - b) { Some((a - b) as i64) } else { None::<i64> }),
{
    a.checked_sub(b)
}

/// Product of two fixed-point values rounded toward zero, or `None` where it
/// leaves the `i64` range.
pub fn checked_mul(a: i64, b: i64) -> (r: Option<i64>)
    ensures
        r == (if in_i64(fixed_mul(a as int, b as int)) {
            Some(fixed_mul(a as int, b as int) as i64)
        } else {
            None::<i64>
        }),
{
    proof {
        lemma_product_bound(a as int, b as int);
    }
    let p: i128 = (a as i128) * (b as i128);
    let q = div_trunc_i128(p, UNIT as i128);
    if q < i64::MIN as i128 || q > i64::MAX as i128 {
        None
    } else {
        Some(q as i64)
    }
}

/// Quotient of two fixed-point values rounded toward zero; `None` where the
/// divisor is zero or the result leaves the `i64` range.
pub fn checked_div(a: i64, b: i64) -> (r: Option<i64>)
    ensures
        r == (if b != 0 && in_i64(fixed_div(a as int, b as int)) {
            Some(fixed_div(a as int, b as int) as i64)
        } else {
            None::<i64>
        }),
{
    if b == 0 {
        return None;
    }
    proof {
        lemma_product_bound(a as int, UNIT as int);
    }
    let p: i128 = (a as i128) * (UNIT as i128);
    let q = div_trunc_i128(p, b as i128);
    if q < i64::MIN as i128 || q > i64::MAX as i128 {
        None
    } else {
        Some(q as i64)
    }
}

/// `a / b` rounded down, for a positive divisor.
pub fn floor_div(a: i64, b: i64) -> (r: i64)
    requires
        b > 0,
    ensures
        r == a as int / b as int,
{
    let ua: u64 = if a < 0 { (-(a as i128)) as u64 } else { a as u64 };
    let ub: u64 = b as u64;
    let q: u64 = ua / ub;
    let rem: u64 = ua % ub;
    proof {
        assert(ua as int == q as int * ub as int + rem as int) by (nonlinear_arith)
            requires q == ua / ub, rem == ua % ub, ub > 0;
        assert(q as int <= ua as int) by (nonlinear_arith)
            requires q == ua / ub, ub >= 1;
    }
    if a >= 0 {
        q as i64
    } else if rem == 0 {
        proof {
            assert(a as int == -(q as int) * b as int) by (nonlinear_arith)
                requires a == -(ua as int), ua as int == q as int * ub as int, ub == b;
            assert((a as int) / (b as int) == -(q as int)) by (nonlinear_arith)
                requires a as int == -(q as int) * b as int, b > 0;
        }
        (-(q as i128)) as i64
    } else {
        proof {
            assert(a as int == (-(q as int) - 1) * b as int + (b as int - rem as int)) by (nonlinear_arith)
                requires a == -(ua as int), ua as int == q as int * ub as int + rem as int, ub == b;
            assert(0 < (b as int - rem as int) && (b as int - rem as int) < b as int) by (nonlinear_arith)
                requires rem == ua % ub, ub == b, rem != 0, b > 0;
            assert((a as int) / (b as int) == -(q as int) - 1) by (nonlinear_arith)
                requires a as int == (-(q as int) - 1) * b as int + (b as int - rem as int),
                    0 < (b as int - rem as int), (b as int - rem as int) < b as int, b > 0;
        }
        assert(q as int * b as int <= ua as int - 1);
        assert(q as int <= ua as int - 1) by (nonlinear_arith)
            requires q as int * b as int <= ua as int - 1, b >= 1, q >= 0;
        (-(q as i128) - 1) as i64
    }
}

} // verus!
