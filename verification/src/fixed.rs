//! Scalar fixed-point arithmetic: saturating addition, the scaled
//! product, and the two activation functions (ReLU and a piecewise
//! linear sigmoid), each with an exact specification.

use vstd::prelude::*;
use vstd::math::abs;

verus! {

/// Fraction steps per unit: a stored value `v` stands for `v / SCALE`.
pub const SCALE: i64 = 65536;

/// The fixed-point representation of one half.
pub const HALF: i64 = 32768;

/// Knot spacing of the sigmoid interpolation table: one quarter unit.
pub const QUARTER: i64 = 16384;

/// The sigmoid table covers inputs in `[-SIG_CAP, SIG_CAP]` (eight units);
/// beyond it the sigmoid is taken as flat.
pub const SIG_CAP: i64 = 524288;

/// Clamp a mathematical integer into the `i64` range.
pub open spec fn clamp64(x: int) -> int {
    if x > i64::MAX as int {
        i64::MAX as int
    } else if x < i64::MIN as int {
        i64::MIN as int
    } else {
        x
    }
}

/// The exact scaled product `a * b / SCALE`, rounded toward zero.
pub open spec fn fx_mul_raw(a: int, b: int) -> int {
    let p = (abs(a) * abs(b)) as int;
    if (a < 0) == (b < 0) {
        p / (SCALE as int)
    } else {
        -(p / (SCALE as int))
    }
}

/// The scaled product as computed: rounded toward zero, then saturated
/// into the `i64` range.
pub open spec fn fx_mul_spec(a: int, b: int) -> int {
    clamp64(fx_mul_raw(a, b))
}

/// Saturating fixed-point sum.
pub fn sat_add(a: i64, b: i64) -> (r: i64)
    ensures
        r as int == clamp64(a + b),
{
    let s: i128 = a as i128 + b as i128;
    if s > i64::MAX as i128 {
        i64::MAX
    } else if s < i64::MIN as i128 {
        i64::MIN
    } else {
        s as i64
    }
}

/// Saturating fixed-point product: `a * b / SCALE` rounded toward zero,
/// saturated into the `i64` range.
pub fn fx_mul(a: i64, b: i64) -> (r: i64)
    ensures
        r as int == fx_mul_spec(a as int, b as int),
{
    let neg: bool = (a < 0) != (b < 0);
    let am: u128 = if a < 0 {
        (-(a as i128)) as u128
    } else {
        a as u128
    };
    let bm: u128 = if b < 0 {
        (-(b as i128)) as u128
    } else {
        b as u128
    };
    assert(am == abs(a as int) && bm == abs(b as int));
    assert(am * bm <= 0x4000_0000_0000_0000_0000_0000_0000_0000u128) by (nonlinear_arith)
        requires
            am <= 0x8000_0000_0000_0000u128,
            bm <= 0x8000_0000_0000_0000u128,
    ;
    let m: u128 = (am * bm) / 65536;
    if neg {
        if m >= 0x8000_0000_0000_0000u128 {
            i64::MIN
        } else {
            -(m as i64)
        }
    } else {
        if m > i64::MAX as u128 {
            i64::MAX
        } else {
            m as i64
        }
    }
}

/// ReLU on one value: negative values are replaced by zero.
pub open spec fn relu_spec(x: int) -> int {
    if x < 0 {
        0
    } else {
        x
    }
}

/// ReLU, exactly as specified by [`relu_spec`].
pub fn relu_fx(x: i64) -> (r: i64)
    ensures
        r as int == relu_spec(x as int),
{
    if x < 0 {
        0
    } else {
        x
    }
}

/// Applying ReLU twice yields the same value as applying it once.
pub proof fn lemma_relu_idempotent(x: int)
    ensures
        relu_spec(relu_spec(x)) == relu_spec(x),
{
}

/// Sigmoid interpolation knots: `sig_knot(k)` is the standard logistic
/// function at `k` quarter units, scaled by `SCALE` and rounded to the
/// nearest integer.  Indices below zero are held at the value for zero,
/// indices above 32 at the value for 32.
pub open spec fn sig_knot(k: int) -> int {
    if k <= 0 {
        32768
    } else if k == 1 {
        36843
    } else if k == 2 {
        40793
    } else if k == 3 {
        44511
    } else if k == 4 {
        47911
    } else if k == 5 {
        50941
    } else if k == 6 {
        53581
    } else if k == 7 {
        55834
    } else if k == 8 {
        57724
    } else if k == 9 {
        59287
    } else if k == 10 {
        60565
    } else if k == 11 {
        61598
    } else if k == 12 {
        62428
    } else if k == 13 {
        63090
    } else if k == 14 {
        63615
    } else if k == 15 {
        64030
    } else if k == 16 {
        64357
    } else if k == 17 {
        64614
    } else if k == 18 {
        64816
    } else if k == 19 {
        64974
    } else if k == 20 {
        65097
    } else if k == 21 {
        65194
    } else if k == 22 {
        65269
    } else if k == 23 {
        65328
    } else if k == 24 {
        65374
    } else if k == 25 {
        65410
    } else if k == 26 {
        65438
    } else if k == 27 {
        65459
    } else if k == 28 {
        65476
    } else if k == 29 {
        65489
    } else if k == 30 {
        65500
    } else if k == 31 {
        65508
    } else {
        65514
    }
}

/// Every knot lies strictly inside `(0, SCALE)`, at or above one half.
pub proof fn lemma_sig_knot_bounds(k: int)
    ensures
        32768 <= sig_knot(k) <= 65514,
{
}

/// The knot table is nondecreasing.
pub proof fn lemma_sig_knot_monotone(k: int)
    requires
        0 <= k < 32,
    ensures
        sig_knot(k) <= sig_knot(k + 1),
{
}

/// The sigmoid for nonnegative inputs: linear interpolation between the
/// two nearest knots, flat at the last knot from `SIG_CAP` upward.
pub open spec fn sig_pos_spec(x: int) -> int {
    if x >= SIG_CAP as int {
        65514
    } else {
        let k = x / (QUARTER as int);
        let f = x % (QUARTER as int);
        sig_knot(k) + (sig_knot(k + 1) - sig_knot(k)) * f / (QUARTER as int)
    }
}

/// The sigmoid on the whole line, by the reflection
/// `sigmoid(-x) == 1 - sigmoid(x)` of the standard logistic function.
pub open spec fn sigmoid_spec(x: int) -> int {
    if x >= 0 {
        sig_pos_spec(x)
    } else {
        SCALE as int - sig_pos_spec(-x)
    }
}

/// For any nonnegative input the interpolated sigmoid stays between one
/// half and the last knot.
pub proof fn lemma_sig_pos_range(x: int)
    requires
        x >= 0,
    ensures
        32768 <= sig_pos_spec(x) <= 65514,
{
    if x < SIG_CAP as int {
        let q = QUARTER as int;
        let k = x / q;
        let f = x % q;
        vstd::arithmetic::div_mod::lemma_div_pos_is_pos(x, q);
        vstd::arithmetic::div_mod::lemma_div_is_ordered(x, SIG_CAP as int - 1, q);
        vstd::arithmetic::div_mod::lemma_fundamental_div_mod_converse(
            SIG_CAP as int - 1,
            q,
            31,
            q - 1,
        );
        vstd::arithmetic::div_mod::lemma_mod_bound(x, q);
        lemma_sig_knot_monotone(k);
        let d = sig_knot(k + 1) - sig_knot(k);
        assert(0 <= d * f) by (nonlinear_arith)
            requires
                d >= 0,
                f >= 0,
        ;
        assert(d * f <= d * q) by (nonlinear_arith)
            requires
                d >= 0,
                f <= q,
        ;
        vstd::arithmetic::div_mod::lemma_div_pos_is_pos(d * f, q);
        vstd::arithmetic::div_mod::lemma_div_is_ordered(d * f, d * q, q);
        vstd::arithmetic::div_mod::lemma_div_multiples_vanish(d, q);
        assert(d * f / q <= d);
        lemma_sig_knot_bounds(k);
        lemma_sig_knot_bounds(k + 1);
    }
}

/// The sigmoid of any input lies strictly between 0 and 1 (in fixed
/// point: strictly between 0 and `SCALE`), and the sigmoid of 0 is
/// exactly one half.
pub proof fn lemma_sigmoid_range(x: int)
    ensures
        0 < sigmoid_spec(x) < SCALE as int,
        sigmoid_spec(0) == HALF as int,
{
    if x >= 0 {
        lemma_sig_pos_range(x);
    } else {
        lemma_sig_pos_range(-x);
    }
    let q = QUARTER as int;
    vstd::arithmetic::div_mod::lemma_fundamental_div_mod_converse(0, q, 0, 0);
    assert(sig_pos_spec(0) == 32768);
}

/// The sigmoid for nonnegative inputs, exactly as specified by
/// [`sig_pos_spec`].
fn sig_pos_fx(x: i64) -> (r: i64)
    requires
        x >= 0,
    ensures
        r as int == sig_pos_spec(x as int),
        32768 <= r <= 65514,
{
    proof {
        lemma_sig_pos_range(x as int);
    }
    if x >= SIG_CAP {
        65514
    } else {
        let xu: u64 = x as u64;
        let k: u64 = xu / 16384;
        let f: u64 = xu % 16384;
        proof {
            vstd::arithmetic::div_mod::lemma_div_pos_is_pos(x as int, QUARTER as int);
            vstd::arithmetic::div_mod::lemma_div_is_ordered(x as int, SIG_CAP as int - 1, QUARTER as int);
            vstd::arithmetic::div_mod::lemma_fundamental_div_mod_converse(
                SIG_CAP as int - 1,
                QUARTER as int,
                31,
                QUARTER as int - 1,
            );
            vstd::arithmetic::div_mod::lemma_mod_bound(x as int, QUARTER as int);
        }
        let lo: i64 = sig_knot_fx(k as usize);
        let hi: i64 = sig_knot_fx(k as usize + 1);
        proof {
            lemma_sig_knot_monotone(k as int);
        }
        let d: u64 = (hi - lo) as u64;
        let add: u64 = d * f / 16384;
        proof {
            let q = QUARTER as int;
            vstd::arithmetic::div_mod::lemma_div_pos_is_pos(d as int * f as int, q);
            assert(d as int * f as int <= d as int * q) by (nonlinear_arith)
                requires
                    d as int >= 0,
                    f as int <= q,
            ;
            vstd::arithmetic::div_mod::lemma_div_is_ordered(d as int * f as int, d as int * q, q);
            vstd::arithmetic::div_mod::lemma_div_multiples_vanish(d as int, q);
        }
        lo + add as i64
    }
}

/// Table lookup for [`sig_knot`], for indices 0 through 32.
fn sig_knot_fx(k: usize) -> (r: i64)
    requires
        k <= 32,
    ensures
        r as int == sig_knot(k as int),
{
    if k == 0 {
        32768
    } else if k == 1 {
        36843
    } else if k == 2 {
        40793
    } else if k == 3 {
        44511
    } else if k == 4 {
        47911
    } else if k == 5 {
        50941
    } else if k == 6 {
        53581
    } else if k == 7 {
        55834
    } else if k == 8 {
        57724
    } else if k == 9 {
        59287
    } else if k == 10 {
        60565
    } else if k == 11 {
        61598
    } else if k == 12 {
        62428
    } else if k == 13 {
        63090
    } else if k == 14 {
        63615
    } else if k == 15 {
        64030
    } else if k == 16 {
        64357
    } else if k == 17 {
        64614
    } else if k == 18 {
        64816
    } else if k == 19 {
        64974
    } else if k == 20 {
        65097
    } else if k == 21 {
        65194
    } else if k == 22 {
        65269
    } else if k == 23 {
        65328
    } else if k == 24 {
        65374
    } else if k == 25 {
        65410
    } else if k == 26 {
        65438
    } else if k == 27 {
        65459
    } else if k == 28 {
        65476
    } else if k == 29 {
        65489
    } else if k == 30 {
        65500
    } else if k == 31 {
        65508
    } else {
        65514
    }
}

/// The sigmoid activation, exactly as specified by [`sigmoid_spec`];
/// its result always lies strictly between 0 and `SCALE`.
pub fn sigmoid_fx(x: i64) -> (r: i64)
    ensures
        r as int == sigmoid_spec(x as int),
        0 < r < SCALE,
{
    proof {
        lemma_sigmoid_range(x as int);
    }
    if x >= 0 {
        sig_pos_fx(x)
    } else if x <= -SIG_CAP {
        SCALE - 65514
    } else {
        SCALE - sig_pos_fx(-x)
    }
}

} // verus!
