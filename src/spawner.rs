//! The repeating spawn timer and the creation of new platforms.
use crate::body::Platform;
use crate::scale::{scaled, Window, MAX_FRAME_MILLIS, UNIT};
use rand::Rng;
use vstd::prelude::*;

verus! {

/// Time between two spawns, in milliseconds.
pub const SPAWN_INTERVAL_MILLIS: i64 = 1000;

/// Narrowest platform, in world units.
pub const PLATFORM_MIN_WIDTH: i64 = 200;

/// Widest platform, in world units.
pub const PLATFORM_MAX_WIDTH: i64 = 400;

/// Height of every platform, in milli-units before scaling.
pub const PLATFORM_HEIGHT: i64 = 10_000;

/// Highest centre of a new platform, in milli-units.
pub const PLATFORM_TOP_Y: i64 = 100_000;

/// Lowest centre of a new platform, in milli-units.
pub const PLATFORM_BOTTOM_Y: i64 = -100_000;

/// A repeating countdown that fires once every `duration` milliseconds.
#[derive(Clone, Copy, Debug, PartialEq, Eq, Structural)]
pub struct SpawnTimer {
    pub elapsed: i64,
    pub duration: i64,
}

impl SpawnTimer {
    pub open spec fn wf(self) -> bool {
        0 < self.duration <= crate::scale::MAX_MAGNITUDE && 0 <= self.elapsed < self.duration
    }

    /// Whether a tick of `dt` milliseconds fires the timer.
    pub open spec fn fires(self, dt: int) -> bool {
        self.elapsed + dt >= self.duration
    }

    /// The timer after a tick of `dt` milliseconds: the elapsed time wraps
    /// around the duration.
    pub open spec fn ticked(self, dt: int) -> SpawnTimer {
        SpawnTimer { elapsed: ((self.elapsed + dt) % (self.duration as int)) as i64, ..self }
    }

    /// A timer with the given period, started at zero; `None` for a period
    /// that is not positive or too large.
    pub fn new(duration: i64) -> (r: Option<SpawnTimer>)
        ensures
            r is Some <==> 0 < duration <= crate::scale::MAX_MAGNITUDE,
            r matches Some(t) ==> t.wf() && t.elapsed == 0 && t.duration == duration,
    {
        if 0 < duration && duration <= crate::scale::MAX_MAGNITUDE {
            Some(SpawnTimer { elapsed: 0, duration })
        } else {
            None
        }
    }

    /// Advances the timer by `dt` milliseconds and says whether it fired.
    pub fn tick(&mut self, dt: i64) -> (fired: bool)
        requires
            old(self).wf(),
            0 <= dt <= MAX_FRAME_MILLIS,
        ensures
            fired == old(self).fires(dt as int),
            *final(self) == old(self).ticked(dt as int),
            final(self).wf(),
    {
        let total: i64 = self.elapsed + dt;
        self.elapsed = total % self.duration;
        total >= self.duration
    }
}

/// The platform spawned for a drawn width (in world units) and centre height
/// (in milli-units): just beyond the window's right edge, its size scaled to
/// the window. Its height above the centre line is not scaled.
pub open spec fn spawned(width: int, y: int, window: Window) -> Platform {
    let w = scaled(width * UNIT, window.height as int);
    Platform {
        x: (window.width * UNIT / 2 + w) as i64,
        y: y as i64,
        width: w as i64,
        height: scaled(PLATFORM_HEIGHT as int, window.height as int) as i64,
    }
}

/// A drawn width lies in the platform width range.
pub open spec fn valid_width(width: int) -> bool {
    PLATFORM_MIN_WIDTH <= width <= PLATFORM_MAX_WIDTH
}

/// A drawn centre height lies in the platform height range.
pub open spec fn valid_y(y: int) -> bool {
    PLATFORM_BOTTOM_Y <= y <= PLATFORM_TOP_Y
}

/// Builds the platform for a drawn width and centre height.
pub fn new_platform(width: i64, y: i64, window: Window) -> (p: Platform)
    requires
        valid_width(width as int),
        valid_y(y as int),
        window.wf(),
    ensures
        p == spawned(width as int, y as int, window),
        p.wf(),
{
    proof {
        crate::scale::lemma_scaled_nonneg(width * UNIT, PLATFORM_MAX_WIDTH * UNIT, window.height as int);
        crate::scale::lemma_scaled_nonneg(PLATFORM_HEIGHT as int, PLATFORM_HEIGHT as int, window.height as int);
    }
    let w = crate::scale::to_window(width * UNIT, window);
    let h = crate::scale::to_window(PLATFORM_HEIGHT, window);
    Platform { x: window.width * UNIT / 2 + w, y, width: w, height: h }
}

/// Ticks the timer and, when it fires, builds exactly one platform from the
/// drawn width and centre height.
pub fn spawn_on_tick(timer: &mut SpawnTimer, dt: i64, window: Window, width: i64, y: i64) -> (r:
    Option<Platform>)
    requires
        old(timer).wf(),
        0 <= dt <= MAX_FRAME_MILLIS,
        window.wf(),
        valid_width(width as int),
        valid_y(y as int),
    ensures
        *final(timer) == old(timer).ticked(dt as int),
        final(timer).wf(),
        r is Some <==> old(timer).fires(dt as int),
        r matches Some(p) ==> p == spawned(width as int, y as int, window) && p.wf(),
{
    if timer.tick(dt) {
        Some(new_platform(width, y, window))
    } else {
        None
    }
}

/// Relies on rand's `thread_rng().gen_range(lo..=hi)`: a value in the
/// inclusive range, which must not be empty.
#[verifier::external_body]
fn random_in_range(lo: i64, hi: i64) -> (r: i64)
    requires
        lo <= hi,
    ensures
        lo <= r <= hi,
{
    rand::thread_rng().gen_range(lo..=hi)
}

/// Draws a platform width, in world units, from the process's random source.
pub fn draw_width() -> (w: i64)
    ensures
        valid_width(w as int),
{
    random_in_range(PLATFORM_MIN_WIDTH, PLATFORM_MAX_WIDTH)
}

/// Draws a platform centre height, in milli-units, from the process's random
/// source.
pub fn draw_y() -> (y: i64)
    ensures
        valid_y(y as int),
{
    random_in_range(PLATFORM_BOTTOM_Y, PLATFORM_TOP_Y)
}

} // verus!
