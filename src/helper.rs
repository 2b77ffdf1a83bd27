use vstd::prelude::*;

verus! {

/// `v` can be held in an `i32`.
pub open spec fn in_i32(v: int) -> bool {
    i32::MIN <= v <= i32::MAX
}

/// The sign of an integer: `1`, `-1` or `0`.
pub open spec fn spec_sign(x: int) -> int {
    if x > 0 {
        1
    } else if x < 0 {
        -1
    } else {
        0
    }
}

/// The absolute value of an integer.
pub open spec fn spec_abs(x: int) -> int {
    if x < 0 {
        -x
    } else {
        x
    }
}

/// The smaller of two integers.
pub open spec fn spec_min(x: int, y: int) -> int {
    if x <= y {
        x
    } else {
        y
    }
}

/// The larger of two integers.
pub open spec fn spec_max(x: int, y: int) -> int {
    if x >= y {
        x
    } else {
        y
    }
}

/// Quotient rounded toward zero, as the `/` of Rust's signed integers:
/// the quotient of the magnitudes, negated where the signs differ.
pub open spec fn trunc_div(a: int, b: int) -> int {
    let q = spec_abs(a) / spec_abs(b);
    if (a < 0) == (b < 0) {
        q
    } else {
        -q
    }
}

/// Remainder with the sign of the dividend, as the `%` of Rust's signed
/// integers: the remainder of the magnitudes, negated where `a` is negative.
pub open spec fn trunc_rem(a: int, b: int) -> int {
    let r = spec_abs(a) % spec_abs(b);
    if a < 0 {
        -r
    } else {
        r
    }
}

/// `a / b` and `a % b` of `i32` neither divide by zero nor overflow.
pub open spec fn div_ok_i32(a: i32, b: i32) -> bool {
    b != 0 && !(a == i32::MIN && b == -1)
}

/// Returns `1` for a positive value, `-1` for a negative one and `0` for zero.
pub fn sign_i32(x: i32) -> (r: i32)
    ensures
        r == spec_sign(x as int),
{
    if x > 0 {
        1
    } else if x < 0 {
        -1
    } else {
        0
    }
}

/// `a / b`, rounding toward zero.
pub(crate) fn div_i32(a: i32, b: i32) -> (q: i32)
    requires
        div_ok_i32(a, b),
    ensures
        q == trunc_div(a as int, b as int),
{
    let r = a.checked_div(b);
    proof {
        let x = a as int;
        let d = b as int;
        assert(x * -1 == -x);
        assert(d * -1 == -d);
        if x == 0 {
            assert(0int / spec_abs(d) == 0) by (nonlinear_arith)
                requires
                    d != 0,
            ;
            assert(r == Some(0i32));
        } else if x > 0 && d > 0 {
            assert(0 <= x / d <= x) by (nonlinear_arith)
                requires
                    x > 0,
                    d > 0,
            ;
            assert(r == Some((x / d) as i32));
        } else if x < 0 && d < 0 {
            if d == -1 {
                assert((-x) / 1 == -x);
            } else {
                assert(0 <= (-x) / (-d) <= (-x) / 2) by (nonlinear_arith)
                    requires
                        x < 0,
                        d < -1,
                ;
            }
            assert(r == Some(((-x) / (-d)) as i32));
        } else if x < 0 {
            assert(0 <= (-x) / d <= -x) by (nonlinear_arith)
                requires
                    x < 0,
                    d > 0,
            ;
            assert(r == Some((-((-x) / d)) as i32));
        } else {
            assert(0 <= x / (-d) <= x) by (nonlinear_arith)
                requires
                    x > 0,
                    d < 0,
            ;
            assert(r == Some((-(x / (-d))) as i32));
        }
    }
    match r {
        Some(q) => q,
        None => 0,
    }
}

/// `a % b`, with the sign of `a`.
pub(crate) fn rem_i32(a: i32, b: i32) -> (r: i32)
    requires
        div_ok_i32(a, b),
    ensures
        r == trunc_rem(a as int, b as int),
{
    let m = a.checked_rem(b);
    proof {
        let x = a as int;
        let d = b as int;
        assert(x * -1 == -x);
        assert(d * -1 == -d);
        assert(0 <= spec_abs(x) % spec_abs(d) < spec_abs(d)) by (nonlinear_arith)
            requires
                d != 0,
        ;
        if x == 0 {
            assert(0int % spec_abs(d) == 0) by (nonlinear_arith)
                requires
                    d != 0,
            ;
            assert(m == Some(0i32));
        } else if x < 0 {
            assert(m == Some((-(spec_abs(x) % spec_abs(d))) as i32));
        } else {
            assert(m == Some((spec_abs(x) % spec_abs(d)) as i32));
        }
    }
    match m {
        Some(r) => r,
        None => 0,
    }
}

/// The absolute value of `x`, which may not be `i32::MIN`.
pub(crate) fn abs_i32(x: i32) -> (r: i32)
    requires
        x != i32::MIN,
    ensures
        r == spec_abs(x as int),
{
    if x < 0 {
        -x
    } else {
        x
    }
}

} // verus!
