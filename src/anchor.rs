//! Keeping the player at a fixed place and scale in a resizable window.
use crate::body::Body;
use crate::scale::{scaled, Window, UNIT};
use vstd::prelude::*;

verus! {

/// Width of the player at the reference resolution, in milli-units.
pub const PLAYER_WIDTH: i64 = 10_000;

/// Height of the player at the reference resolution, in milli-units.
pub const PLAYER_HEIGHT: i64 = 20_000;

/// Horizontal centre of the player: three quarters of the half-width left of
/// the window's centre.
pub open spec fn anchor_x(window_width: int) -> int {
    -(3 * (window_width * UNIT / 2)) / 4
}

/// The body with its horizontal place and its size set for the window.
pub open spec fn anchored(b: Body, window: Window) -> Body {
    Body {
        x: anchor_x(window.width as int) as i64,
        width: scaled(PLAYER_WIDTH as int, window.height as int) as i64,
        height: scaled(PLAYER_HEIGHT as int, window.height as int) as i64,
        ..b
    }
}

/// Re-centres the player horizontally and rescales it to the window height.
/// Its vertical place and velocity are left alone.
pub fn anchor_player(body: &mut Body, window: Window)
    requires
        window.wf(),
    ensures
        *final(body) == anchored(*old(body), window),
        final(body).x == -375 * window.width,
        crate::scale::bounded(final(body).x as int),
        0 <= final(body).width <= crate::scale::MAX_SIZE,
        0 <= final(body).height <= crate::scale::MAX_SIZE,
{
    proof {
        crate::scale::lemma_scaled_nonneg(PLAYER_WIDTH as int, PLAYER_WIDTH as int, window.height as int);
        crate::scale::lemma_scaled_nonneg(PLAYER_HEIGHT as int, PLAYER_HEIGHT as int, window.height as int);
    }
    body.x = -(3 * (window.width * UNIT / 2)) / 4;
    body.width = crate::scale::to_window(PLAYER_WIDTH, window);
    body.height = crate::scale::to_window(PLAYER_HEIGHT, window);
}

} // verus!
