//! Conversion of design-space quantities into window space.
use vstd::arithmetic::div_mod::{
    lemma_div_by_multiple, lemma_div_is_ordered, lemma_fundamental_div_mod,
    lemma_fundamental_div_mod_converse,
};
use vstd::prelude::*;

verus! {

/// Milli-units in one world unit.
pub const UNIT: i64 = 1000;

/// Milliseconds in one second.
pub const MILLIS_PER_SECOND: i64 = 1000;

/// Height of the reference resolution, in pixels.
pub const REFERENCE_HEIGHT: i64 = 720;

/// Largest window side accepted, in pixels.
pub const MAX_WINDOW: i64 = 16384;

/// Largest magnitude of a coordinate, size or velocity, in milli-units.
pub const MAX_MAGNITUDE: i64 = 0x1_0000_0000;

/// Largest size of a body or platform, in milli-units.
pub const MAX_SIZE: i64 = 0x8000_0000;

/// Largest magnitude of a design-space quantity after scaling to a window.
pub const MAX_SCALED: i64 = 23 * MAX_MAGNITUDE;

/// Longest frame accepted, in milliseconds.
pub const MAX_FRAME_MILLIS: i64 = 32768;

/// The size of the window the host draws into, in pixels.
#[derive(Clone, Copy, Debug, PartialEq, Eq, Structural)]
pub struct Window {
    pub width: i64,
    pub height: i64,
}

impl Window {
    pub open spec fn wf(self) -> bool {
        0 < self.width <= MAX_WINDOW && 0 < self.height <= MAX_WINDOW
    }
}

/// A magnitude that the simulation can hold without overflow.
pub open spec fn bounded(v: int) -> bool {
    -MAX_MAGNITUDE <= v <= MAX_MAGNITUDE
}

/// `v` measured against the reference height, expressed at `window_height`
/// (rounded towards negative infinity).
pub open spec fn scaled(v: int, window_height: int) -> int {
    v * window_height / (REFERENCE_HEIGHT as int)
}

/// Division rounding towards negative infinity, as `/` does on `int`.
pub fn floor_div(a: i64, b: i64) -> (r: i64)
    requires
        b > 0,
        a > i64::MIN,
    ensures
        r == a as int / b as int,
{
    if a >= 0 {
        a / b
    } else {
        let n: i64 = -a - 1;
        let q: i64 = n / b;
        proof {
            let rem = n as int % b as int;
            lemma_fundamental_div_mod(n as int, b as int);
            assert(n as int == b as int * q as int + rem);
            assert(a as int == (-(q as int) - 1) * b as int + (b as int - rem - 1)) by (nonlinear_arith)
                requires
                    a as int == -(n as int) - 1,
                    n as int == b as int * q as int + rem,
            ;
            lemma_fundamental_div_mod_converse(a as int, b as int, -(q as int) - 1, b as int - rem - 1);
        }
        -q - 1
    }
}

/// Converts a design-space quantity to window space:
/// `v * window_height / REFERENCE_HEIGHT`.
pub fn to_window(v: i64, window: Window) -> (r: i64)
    requires
        bounded(v as int),
        window.wf(),
    ensures
        r == scaled(v as int, window.height as int),
        -MAX_SCALED <= r <= MAX_SCALED,
{
    proof {
        lemma_product_bounded(v as int, window.height as int);
        lemma_scaled_bounded(v as int, window.height as int);
    }
    floor_div(v * window.height, REFERENCE_HEIGHT)
}

proof fn lemma_product_bounded(v: int, h: int)
    requires
        bounded(v),
        0 < h <= MAX_WINDOW,
    ensures
        -MAX_MAGNITUDE * MAX_WINDOW <= v * h <= MAX_MAGNITUDE * MAX_WINDOW,
{
    assert(-MAX_MAGNITUDE * MAX_WINDOW <= v * h <= MAX_MAGNITUDE * MAX_WINDOW) by (nonlinear_arith)
        requires
            -MAX_MAGNITUDE <= v <= MAX_MAGNITUDE,
            0 < h <= MAX_WINDOW,
    ;
}

/// A quantity scaled to any accepted window stays within `MAX_SCALED`.
pub proof fn lemma_scaled_bounded(v: int, h: int)
    requires
        bounded(v),
        0 < h <= MAX_WINDOW,
    ensures
        -MAX_SCALED <= scaled(v, h) <= MAX_SCALED,
{
    lemma_product_bounded(v, h);
    let m = MAX_MAGNITUDE * MAX_WINDOW;
    lemma_div_is_ordered(v * h, m, 720);
    lemma_div_is_ordered(-m, v * h, 720);
    lemma_div_is_ordered(m, MAX_SCALED * 720, 720);
    lemma_div_is_ordered(-MAX_SCALED * 720, -m, 720);
    lemma_div_by_multiple(MAX_SCALED as int, 720);
    lemma_fundamental_div_mod_converse(-MAX_SCALED * 720, 720, -MAX_SCALED as int, 0);
}

/// A quantity between 0 and `c` stays between 0 and `23 * c` when scaled to
/// any accepted window.
pub proof fn lemma_scaled_nonneg(v: int, c: int, h: int)
    requires
        0 <= v <= c,
        0 < h <= MAX_WINDOW,
    ensures
        0 <= scaled(v, h) <= 23 * c,
{
    assert(0 <= v * h <= c * MAX_WINDOW) by (nonlinear_arith)
        requires
            0 <= v <= c,
            0 < h <= MAX_WINDOW,
    ;
    lemma_div_is_ordered(v * h, 23 * c * 720, 720);
    lemma_div_is_ordered(0, v * h, 720);
    lemma_div_by_multiple(23 * c, 720);
}

/// Scaling is exact and linear in the window height: wherever `v * h` is a
/// whole multiple of the reference height, a window twice as tall gives
/// exactly twice the scaled value.
pub proof fn lemma_scale_doubles(v: int, h: int)
    requires
        0 < h,
        (v * h) % (REFERENCE_HEIGHT as int) == 0,
    ensures
        scaled(v, h) * (REFERENCE_HEIGHT as int) == v * h,
        scaled(v, 2 * h) == 2 * scaled(v, h),
{
    let r = REFERENCE_HEIGHT as int;
    lemma_fundamental_div_mod(v * h, r);
    let k = (v * h) / r;
    assert(v * (2 * h) == (2 * k) * r) by (nonlinear_arith)
        requires
            v * h == r * k,
    ;
    lemma_fundamental_div_mod_converse(v * (2 * h), r, 2 * k, 0);
}

} // verus!
