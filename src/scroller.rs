//! Leftward scrolling of the platforms and removal of those that left the
//! window.
use crate::body::Platform;
use crate::scale::{Window, MAX_FRAME_MILLIS, MAX_MAGNITUDE, MAX_WINDOW, MILLIS_PER_SECOND, REFERENCE_HEIGHT, UNIT};
use vstd::prelude::*;

verus! {

/// The scroll speed a session starts with, in milli-units per second.
pub const STARTING_GAME_SPEED: i64 = 200_000;

/// Distance every platform moves left in a frame of `dt` milliseconds at
/// design-space speed `speed`, in a window `h` pixels tall.
pub open spec fn scroll_shift(speed: int, dt: int, h: int) -> int {
    speed * h * dt / (MILLIS_PER_SECOND * REFERENCE_HEIGHT) as int
}

/// The platform moved left by `shift`.
pub open spec fn moved(p: Platform, shift: int) -> Platform {
    Platform { x: (p.x - shift) as i64, ..p }
}

/// The platform is still in play: its right edge has not passed the despawn
/// boundary, one platform width left of the window's left edge.
/// (Compared doubled: `2 * x + width` is twice the right edge.)
pub open spec fn in_play(p: Platform, window_width: int) -> bool {
    2 * p.x + p.width >= -(window_width * UNIT) - 2 * p.width
}

/// The platforms after a frame's scroll: each moved, those out of play
/// removed, the order kept.
pub open spec fn scrolled(ps: Seq<Platform>, shift: int, window_width: int) -> Seq<Platform> {
    ps.map_values(|p: Platform| moved(p, shift)).filter(|p: Platform| in_play(p, window_width))
}

/// Moves every platform left by the scaled game speed over `dt` milliseconds
/// and removes those whose right edge passed the despawn boundary.
pub fn scroll_platforms(platforms: &mut Vec<Platform>, speed: i64, dt: i64, window: Window)
    requires
        forall|i: int| 0 <= i < old(platforms).len() ==> (#[trigger] old(platforms)[i]).wf(),
        0 <= speed <= MAX_MAGNITUDE,
        0 <= dt <= MAX_FRAME_MILLIS,
        window.wf(),
    ensures
        final(platforms)@ == scrolled(
            old(platforms)@,
            scroll_shift(speed as int, dt as int, window.height as int),
            window.width as int,
        ),
        forall|i: int| 0 <= i < final(platforms).len() ==> (#[trigger] final(platforms)[i]).wf(),
{
    proof {
        assert(0 <= speed * window.height <= MAX_MAGNITUDE * MAX_WINDOW) by (nonlinear_arith)
            requires
                0 <= speed <= MAX_MAGNITUDE,
                0 < window.height <= MAX_WINDOW,
        ;
        assert(0 <= speed * window.height * dt <= MAX_MAGNITUDE * MAX_WINDOW * MAX_FRAME_MILLIS)
            by (nonlinear_arith)
            requires
                0 <= speed * window.height <= MAX_MAGNITUDE * MAX_WINDOW,
                0 <= dt <= MAX_FRAME_MILLIS,
        ;
        vstd::arithmetic::div_mod::lemma_div_is_ordered(
            speed * window.height * dt,
            MAX_MAGNITUDE * MAX_WINDOW * MAX_FRAME_MILLIS,
            720_000,
        );
        vstd::arithmetic::div_mod::lemma_div_is_ordered(0, speed * window.height * dt, 720_000);
        vstd::arithmetic::div_mod::lemma_div_is_ordered(
            MAX_MAGNITUDE * MAX_WINDOW * MAX_FRAME_MILLIS,
            0x800_0000_0000int * 720_000,
            720_000,
        );
        vstd::arithmetic::div_mod::lemma_div_by_multiple(0x800_0000_0000int, 720_000);
    }
    let shift: i64 = speed * window.height * dt / (MILLIS_PER_SECOND * REFERENCE_HEIGHT);
    let ghost f = |p: Platform| moved(p, shift as int);
    let ghost g = |p: Platform| in_play(p, window.width as int);
    let mut kept: Vec<Platform> = Vec::new();
    let n = platforms.len();
    let mut i: usize = 0;
    while i < n
        invariant
            0 <= i <= n,
            n == platforms.len(),
            *platforms == *old(platforms),
            0 <= shift <= 0x800_0000_0000,
            window.wf(),
            forall|j: int| 0 <= j < platforms.len() ==> (#[trigger] platforms[j]).wf(),
            f == (|p: Platform| moved(p, shift as int)),
            g == (|p: Platform| in_play(p, window.width as int)),
            kept@ == platforms@.subrange(0, i as int).map_values(f).filter(g),
            forall|j: int| 0 <= j < kept.len() ==> (#[trigger] kept[j]).wf(),
        decreases n - i,
    {
        let p = platforms[i];
        let q = Platform { x: p.x - shift, ..p };
        let keep = 2 * q.x + q.width >= -(window.width * UNIT) - 2 * q.width;
        proof {
            let s = platforms@.subrange(0, i as int);
            assert(platforms@.subrange(0, i as int + 1) == s.push(p));
            assert(s.push(p).map_values(f) =~= s.map_values(f).push(q));
            s.map_values(f).lemma_filter_push(q, g);
        }
        if keep {
            kept.push(q);
        }
        i = i + 1;
    }
    assert(platforms@.subrange(0, n as int) == platforms@);
    *platforms = kept;
}

/// Lifecycle of a platform over one frame: it moves left by exactly the
/// frame's shift (strictly, whenever the shift is positive) and it remains
/// exactly when its right edge has not passed the despawn boundary.
pub proof fn lemma_platform_lifecycle(ps: Seq<Platform>, shift: int, window_width: int, i: int)
    requires
        0 <= i < ps.len(),
        ps[i].wf(),
        0 <= shift <= 0x800_0000_0000,
    ensures
        moved(ps[i], shift).x == ps[i].x - shift,
        shift > 0 ==> moved(ps[i], shift).x < ps[i].x,
        in_play(moved(ps[i], shift), window_width) ==> scrolled(ps, shift, window_width).contains(
            moved(ps[i], shift),
        ),
        !in_play(moved(ps[i], shift), window_width) ==> forall|j: int|
            0 <= j < scrolled(ps, shift, window_width).len() ==> in_play(
                #[trigger] scrolled(ps, shift, window_width)[j],
                window_width,
            ),
{
    let f = |p: Platform| moved(p, shift);
    let g = |p: Platform| in_play(p, window_width);
    let m = ps.map_values(f);
    assert(m[i] == moved(ps[i], shift));
    broadcast use vstd::seq_lib::group_filter_ensures;

    assert(forall|j: int| 0 <= j < m.filter(g).len() ==> g(#[trigger] m.filter(g)[j]));
}

/// The scroll moves platforms by a positive distance whenever speed, window
/// height and frame time together make up at least one milli-unit.
pub proof fn lemma_shift_positive(speed: int, dt: int, h: int)
    requires
        speed * h * dt >= (MILLIS_PER_SECOND * REFERENCE_HEIGHT) as int,
    ensures
        scroll_shift(speed, dt, h) >= 1,
{
    vstd::arithmetic::div_mod::lemma_div_is_ordered(720_000, speed * h * dt, 720_000);
}

} // verus!
