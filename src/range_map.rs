use vstd::prelude::*;

verus! {

/// Integer division that rounds toward zero, as Rust's `/` does.
pub open spec fn trunc_div(n: int, d: int) -> int
    recommends
        d != 0,
{
    let q = abs(n) / abs(d);
    if (n < 0) != (d < 0) {
        -q
    } else {
        q
    }
}

pub open spec fn abs(x: int) -> int {
    if x < 0 {
        -x
    } else {
        x
    }
}

/// Linear interpolation of `value` from `[in_min, in_max]` onto
/// `[out_min, out_max]`, with truncating division and no clamping.
pub open spec fn map_spec(value: int, in_min: int, in_max: int, out_min: int, out_max: int) -> int
    recommends
        in_min != in_max,
{
    trunc_div((value - in_min) * (out_max - out_min), in_max - in_min) + out_min
}

/// Maps `value` linearly from `[in_min, in_max]` onto `[out_min, out_max]`.
///
/// Values outside the input range extrapolate. The intermediate product is
/// computed at a width where it cannot overflow; the result is `None` only
/// when it does not fit in an `i32`.
pub fn map_range(value: i32, in_min: i32, in_max: i32, out_min: i32, out_max: i32) -> (r: Option<
    i32,
>)
    requires
        in_min != in_max,
    ensures
        ({
            let m = map_spec(value as int, in_min as int, in_max as int, out_min as int, out_max as int);
            if i32::MIN <= m <= i32::MAX {
                r == Some(m as i32)
            } else {
                r is None
            }
        }),
{
    let a: i128 = value as i128 - in_min as i128;
    let b: i128 = out_max as i128 - out_min as i128;
    let d: i128 = in_max as i128 - in_min as i128;
    assert(-0x1_0000_0000 < a < 0x1_0000_0000);
    assert(-0x1_0000_0000 < b < 0x1_0000_0000);
    assert(-0x1_0000_0000_0000_0000 < a * b < 0x1_0000_0000_0000_0000) by (nonlinear_arith)
        requires
            -0x1_0000_0000 < a < 0x1_0000_0000,
            -0x1_0000_0000 < b < 0x1_0000_0000,
    ;
    let n: i128 = a * b;
    let n_abs: u128 = if n < 0 { (-n) as u128 } else { n as u128 };
    let d_abs: u128 = if d < 0 { (-d) as u128 } else { d as u128 };
    let q: u128 = n_abs / d_abs;
    assert(q <= n_abs) by (nonlinear_arith)
        requires
            q == n_abs / d_abs,
            d_abs >= 1,
    ;
    let t: i128 = if (n < 0) != (d < 0) { -(q as i128) } else { q as i128 };
    let m: i128 = t + out_min as i128;
    if i32::MIN as i128 <= m && m <= i32::MAX as i128 {
        Some(m as i32)
    } else {
        None
    }
}

/// An input inside `[in_min, in_max]` lands inside `[out_min, out_max]`
/// (for increasing ranges).
pub proof fn lemma_map_within_output(value: int, in_min: int, in_max: int, out_min: int, out_max: int)
    requires
        in_min < in_max,
        out_min <= out_max,
        in_min <= value <= in_max,
    ensures
        out_min <= map_spec(value, in_min, in_max, out_min, out_max) <= out_max,
{
    let a = value - in_min;
    let b = out_max - out_min;
    let d = in_max - in_min;
    assert(0 <= a * b <= d * b) by (nonlinear_arith)
        requires
            0 <= a <= d,
            0 <= b,
    ;
    assert((a * b) / d <= (d * b) / d) by (nonlinear_arith)
        requires
            0 <= a * b <= d * b,
            d > 0,
    ;
    assert((d * b) / d == b) by (nonlinear_arith)
        requires
            d > 0,
    ;
    assert(0 <= (a * b) / d) by (nonlinear_arith)
        requires
            0 <= a * b,
            d > 0,
    ;
}

} // verus!
