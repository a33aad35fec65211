//! Gravity and vertical motion of a body.
use crate::body::Body;
use crate::scale::{bounded, Window, MAX_FRAME_MILLIS, MAX_MAGNITUDE, MAX_WINDOW, MILLIS_PER_SECOND, REFERENCE_HEIGHT};
use vstd::prelude::*;

verus! {

/// Downward acceleration, in milli-units per second squared.
pub const GRAVITY: i64 = 100_000;

/// Velocity lost to one application of gravity over `dt` milliseconds.
pub open spec fn gravity_step(dt: int) -> int {
    GRAVITY * dt / (MILLIS_PER_SECOND as int)
}

/// Vertical displacement in window space of a body moving at `v` (design
/// space) for `dt` milliseconds, in a window `h` pixels tall.
pub open spec fn displacement(v: int, dt: int, h: int) -> int {
    v * dt * h / (MILLIS_PER_SECOND * REFERENCE_HEIGHT) as int
}

/// The body after one frame of integration. Gravity is applied once before
/// the position is advanced and once after; an exempt body does not move.
pub open spec fn integrated(b: Body, exempt: bool, dt: int, h: int) -> Body {
    if exempt {
        b
    } else {
        let v1 = b.velocity_y - gravity_step(dt);
        Body {
            y: (b.y + displacement(v1, dt, h)) as i64,
            velocity_y: (v1 - gravity_step(dt)) as i64,
            ..b
        }
    }
}

/// Advances a body by one frame of `dt` milliseconds, unless it is exempt.
///
/// Gravity is subtracted twice per frame, before and after the position is
/// advanced. This may once have been an accidental duplication, but the jump
/// arc is tuned to it, so it is kept.
pub fn integrate(body: &mut Body, exempt: bool, dt: i64, window: Window)
    requires
        old(body).wf(),
        0 <= dt <= MAX_FRAME_MILLIS,
        window.wf(),
    ensures
        *final(body) == integrated(*old(body), exempt, dt as int, window.height as int),
        !exempt ==> final(body).velocity_y == old(body).velocity_y - 2 * gravity_step(dt as int),
        !exempt ==> final(body).y == old(body).y + displacement(
            old(body).velocity_y - gravity_step(dt as int),
            dt as int,
            window.height as int,
        ),
        final(body).collidable(),
{
    if exempt {
        return;
    }
    let step: i64 = GRAVITY / MILLIS_PER_SECOND * dt;
    assert(step == gravity_step(dt as int));
    let v1: i64 = body.velocity_y - step;
    let h: i64 = window.height;
    proof {
        assert(-2 * MAX_MAGNITUDE <= v1 <= 2 * MAX_MAGNITUDE);
        assert(-2 * MAX_MAGNITUDE * MAX_FRAME_MILLIS <= v1 * dt <= 2 * MAX_MAGNITUDE * MAX_FRAME_MILLIS)
            by (nonlinear_arith)
            requires
                -2 * MAX_MAGNITUDE <= v1 <= 2 * MAX_MAGNITUDE,
                0 <= dt <= MAX_FRAME_MILLIS,
        ;
        assert(-2 * MAX_MAGNITUDE * MAX_FRAME_MILLIS * MAX_WINDOW <= v1 * dt * h
            <= 2 * MAX_MAGNITUDE * MAX_FRAME_MILLIS * MAX_WINDOW) by (nonlinear_arith)
            requires
                -2 * MAX_MAGNITUDE <= v1 <= 2 * MAX_MAGNITUDE,
                0 <= dt <= MAX_FRAME_MILLIS,
                0 < h <= MAX_WINDOW,
        ;
    }
    let dy = crate::scale::floor_div(v1 * dt * h, MILLIS_PER_SECOND * REFERENCE_HEIGHT);
    proof {
        lemma_quotient_bounded(v1 * dt * h, 2 * MAX_MAGNITUDE * MAX_FRAME_MILLIS * MAX_WINDOW);
    }
    body.y = body.y + dy;
    body.velocity_y = v1 - step;
}

proof fn lemma_quotient_bounded(x: int, m: int)
    requires
        m == 2 * MAX_MAGNITUDE * MAX_FRAME_MILLIS * MAX_WINDOW,
        -m <= x <= m,
    ensures
        -0x800_0000_0000 <= x / 720_000 <= 0x800_0000_0000,
{
    let k: int = 0x800_0000_0000;
    assert(m == 0x4000_0000_0000_0000);
    assert(k * 720_000 >= m);
    vstd::arithmetic::div_mod::lemma_div_is_ordered(x, k * 720_000, 720_000);
    vstd::arithmetic::div_mod::lemma_div_is_ordered(-k * 720_000, x, 720_000);
    vstd::arithmetic::div_mod::lemma_div_by_multiple(k, 720_000);
    vstd::arithmetic::div_mod::lemma_fundamental_div_mod_converse(-k * 720_000, 720_000, -k, 0);
}

/// The body after a run of frames of the given durations.
pub open spec fn integrated_frames(b: Body, exempt: bool, dts: Seq<int>, h: int) -> Body
    decreases dts.len(),
{
    if dts.len() == 0 {
        b
    } else {
        integrated(integrated_frames(b, exempt, dts.drop_last(), h), exempt, dts.last(), h)
    }
}

/// An exempt body keeps its position and velocity over any run of frames.
pub proof fn lemma_exempt_body_stays(b: Body, dts: Seq<int>, h: int)
    ensures
        integrated_frames(b, true, dts, h) == b,
    decreases dts.len(),
{
    if dts.len() > 0 {
        lemma_exempt_body_stays(b, dts.drop_last(), h);
    }
}

/// From rest, one frame leaves a body with twice one frame's gravity step
/// downward: gravity is applied twice per frame.
pub proof fn lemma_gravity_applied_twice(b: Body, dt: int, h: int)
    requires
        b.wf(),
        b.velocity_y == 0,
        0 <= dt <= MAX_FRAME_MILLIS,
    ensures
        integrated(b, false, dt, h).velocity_y == -2 * (GRAVITY * dt / (MILLIS_PER_SECOND as int)),
        integrated(b, false, dt, h).velocity_y == -2 * 100 * dt,
{
    vstd::arithmetic::div_mod::lemma_fundamental_div_mod_converse(GRAVITY * dt, 1000, 100 * dt, 0);
}

} // verus!
