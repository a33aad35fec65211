//! One session of the game and the per-frame step in its fixed order: jump
//! input, integration, collisions, spawning, scrolling, anchoring.
use crate::anchor::{anchor_player, anchored, PLAYER_HEIGHT, PLAYER_WIDTH};
use crate::body::{Body, Platform};
use crate::collision::{bumps_any, lands_on_any, resolve_collisions, resolved, Contacts};
use crate::jump::JumpStatus;
use crate::physics::{integrate, integrated};
use crate::scale::{Window, MAX_FRAME_MILLIS, MAX_MAGNITUDE};
use crate::scroller::{in_play, moved, scroll_platforms, scroll_shift, scrolled, STARTING_GAME_SPEED};
use crate::spawner::{
    draw_width, draw_y, spawn_on_tick, spawned, valid_width, valid_y, SpawnTimer,
    SPAWN_INTERVAL_MILLIS,
};
use vstd::prelude::*;

verus! {

/// A session: the player, its jump status, the platforms in play, the spawn
/// timer and the scroll speed.
#[derive(Clone, Debug)]
pub struct World {
    pub player: Body,
    pub status: JumpStatus,
    pub platforms: Vec<Platform>,
    pub timer: SpawnTimer,
    pub game_speed: i64,
}

/// The mathematical content of a `World`.
pub struct WorldView {
    pub player: Body,
    pub status: JumpStatus,
    pub platforms: Seq<Platform>,
    pub timer: SpawnTimer,
    pub game_speed: i64,
}

impl View for World {
    type V = WorldView;

    open spec fn view(&self) -> WorldView {
        WorldView {
            player: self.player,
            status: self.status,
            platforms: self.platforms@,
            timer: self.timer,
            game_speed: self.game_speed,
        }
    }
}

/// Every platform of `ps` within bounds.
pub open spec fn platforms_wf(ps: Seq<Platform>) -> bool {
    forall|i: int| 0 <= i < ps.len() ==> (#[trigger] ps[i]).wf()
}

impl WorldView {
    pub open spec fn wf(self) -> bool {
        &&& self.player.wf()
        &&& self.status.wf()
        &&& platforms_wf(self.platforms)
        &&& self.timer.wf()
        &&& 0 <= self.game_speed <= MAX_MAGNITUDE
    }

    /// The session after one frame of `dt` milliseconds in `window`, with
    /// the jump input `pressed` and, should the spawn timer fire, a platform
    /// of the drawn width and centre height.
    pub open spec fn frame(
        self,
        pressed: bool,
        dt: int,
        window: Window,
        width: int,
        y: int,
    ) -> WorldView {
        let (s1, v1) = self.status.transition(self.player.velocity_y, pressed, dt);
        let b1 = Body { velocity_y: v1, ..self.player };
        let exempt = s1.space_shipping;
        let b2 = integrated(b1, exempt, dt, window.height as int);
        let prev_y = self.player.y as int;
        let b3 = if exempt {
            b2
        } else {
            resolved(b2, prev_y, self.platforms)
        };
        let s2 = if exempt {
            s1
        } else {
            s1.after_contacts(
                Contacts {
                    landed: lands_on_any(b2, prev_y, self.platforms),
                    bumped: bumps_any(b2, prev_y, self.platforms),
                },
            )
        };
        let ps = if self.timer.fires(dt) {
            self.platforms.push(spawned(width, y, window))
        } else {
            self.platforms
        };
        WorldView {
            player: anchored(b3, window),
            status: s2,
            platforms: scrolled(
                ps,
                scroll_shift(self.game_speed as int, dt, window.height as int),
                window.width as int,
            ),
            timer: self.timer.ticked(dt),
            game_speed: self.game_speed,
        }
    }
}

impl World {
    /// A new session: the player anchored for the window at height zero, at
    /// rest, space-shipping; no platforms; the timer at zero; the starting
    /// scroll speed.
    pub fn new(window: Window) -> (w: World)
        requires
            window.wf(),
        ensures
            w@.wf(),
            w.player.x == -375 * window.width,
            w.player.y == 0,
            w.player.velocity_y == 0,
            w.player.width == PLAYER_WIDTH,
            w.player.height == PLAYER_HEIGHT,
            w.status == JumpStatus::new_spec(),
            w.platforms@.len() == 0,
            w.timer.elapsed == 0,
            w.timer.duration == SPAWN_INTERVAL_MILLIS,
            w.game_speed == STARTING_GAME_SPEED,
    {
        World {
            player: Body {
                x: -375 * window.width,
                y: 0,
                width: PLAYER_WIDTH,
                height: PLAYER_HEIGHT,
                velocity_y: 0,
            },
            status: JumpStatus::new(),
            platforms: Vec::new(),
            timer: SpawnTimer { elapsed: 0, duration: SPAWN_INTERVAL_MILLIS },
            game_speed: STARTING_GAME_SPEED,
        }
    }

    /// Whether the session is within the bounds that `advance` needs.
    pub fn is_within_bounds(&self) -> (r: bool)
        ensures
            r == self@.wf(),
    {
        let b = &self.player;
        let m = MAX_MAGNITUDE;
        let player_ok = -m <= b.x && b.x <= m && -m <= b.y && b.y <= m && -m <= b.velocity_y
            && b.velocity_y <= m && 0 <= b.width && b.width <= crate::scale::MAX_SIZE && 0
            <= b.height && b.height <= crate::scale::MAX_SIZE;
        let status_ok = 0 <= self.status.jump_buffer && self.status.jump_buffer
            <= crate::jump::MAX_JUMP_BUFFER;
        let timer_ok = 0 < self.timer.duration && self.timer.duration <= m && 0
            <= self.timer.elapsed && self.timer.elapsed < self.timer.duration;
        let speed_ok = 0 <= self.game_speed && self.game_speed <= m;
        let mut platforms_ok = true;
        let mut i: usize = 0;
        while i < self.platforms.len()
            invariant
                0 <= i <= self.platforms.len(),
                m == MAX_MAGNITUDE,
                platforms_ok == platforms_wf(self.platforms@.subrange(0, i as int)),
            decreases self.platforms.len() - i,
        {
            let p = &self.platforms[i];
            let ok = -m <= p.x && p.x <= m && -m <= p.y && p.y <= m && 0 <= p.width && p.width
                <= crate::scale::MAX_SIZE && 0 <= p.height && p.height <= crate::scale::MAX_SIZE;
            proof {
                let s1 = self.platforms@.subrange(0, i as int + 1);
                assert(s1[i as int] == *p);
                let s0 = self.platforms@.subrange(0, i as int);
                assert(forall|j: int| 0 <= j < i ==> s1[j] == s0[j]);
                assert(platforms_wf(s1) == (platforms_wf(s0) && ok)) by {
                    if platforms_wf(s0) && ok {
                        assert forall|j: int| 0 <= j < s1.len() implies (#[trigger] s1[j]).wf() by {
                            if j < i {
                                assert(s0[j].wf());
                            }
                        }
                    }
                    if platforms_wf(s1) {
                        assert(s1[i as int].wf());
                        assert forall|j: int| 0 <= j < s0.len() implies (#[trigger] s0[j]).wf() by {
                            assert(s1[j].wf());
                        }
                    }
                }
            }
            platforms_ok = platforms_ok && ok;
            i = i + 1;
        }
        assert(self.platforms@.subrange(0, self.platforms.len() as int) == self.platforms@);
        player_ok && status_ok && timer_ok && speed_ok && platforms_ok
    }

    /// Runs one frame with the given jump input, frame duration, window and
    /// drawn platform width (world units) and centre height (milli-units).
    pub fn advance(&mut self, pressed: bool, dt: i64, window: Window, width: i64, y: i64)
        requires
            old(self)@.wf(),
            0 <= dt <= MAX_FRAME_MILLIS,
            window.wf(),
            valid_width(width as int),
            valid_y(y as int),
        ensures
            final(self)@ == old(self)@.frame(pressed, dt as int, window, width as int, y as int),
            final(self).status.wf(),
            final(self).timer.wf(),
            platforms_wf(final(self).platforms@),
            final(self).platforms@.len() <= old(self).platforms@.len() + 1,
    {
        let prev_y = self.player.y;
        self.status.apply_input(&mut self.player.velocity_y, pressed, dt);
        let exempt = self.status.space_shipping;
        integrate(&mut self.player, exempt, dt, window);
        if !exempt {
            let c = resolve_collisions(&mut self.player, prev_y, &self.platforms);
            self.status.record_contacts(c);
        }
        match spawn_on_tick(&mut self.timer, dt, window, width, y) {
            Some(p) => self.platforms.push(p),
            None => {},
        }
        let ghost before_scroll = self.platforms@;
        scroll_platforms(&mut self.platforms, self.game_speed, dt, window);
        proof {
            let shift = scroll_shift(self.game_speed as int, dt as int, window.height as int);
            let m = before_scroll.map_values(|p: Platform| moved(p, shift));
            m.lemma_filter_len(|p: Platform| in_play(p, window.width as int));
        }
        anchor_player(&mut self.player, window);
    }

    /// Runs one frame, drawing the width and centre height of a platform
    /// that may spawn from the process's random source.
    pub fn advance_randomly(&mut self, pressed: bool, dt: i64, window: Window)
        requires
            old(self)@.wf(),
            0 <= dt <= MAX_FRAME_MILLIS,
            window.wf(),
        ensures
            exists|width: int, y: int|
                valid_width(width) && valid_y(y) && final(self)@ == old(self)@.frame(
                    pressed,
                    dt as int,
                    window,
                    width,
                    y,
                ),
    {
        let width = draw_width();
        let y = draw_y();
        self.advance(pressed, dt, window, width, y);
    }
}

/// While the player space-ships and does not jump, a frame leaves its
/// height and velocity as they were, and its jump status but for the buffer.
pub proof fn lemma_space_shipping_frame(w: WorldView, dt: int, window: Window, width: int, y: int)
    requires
        w.wf(),
        w.status.space_shipping,
        0 <= dt <= MAX_FRAME_MILLIS,
    ensures
        w.frame(false, dt, window, width, y).player.y == w.player.y,
        w.frame(false, dt, window, width, y).player.velocity_y == w.player.velocity_y,
        w.frame(false, dt, window, width, y).status.space_shipping,
        w.frame(false, dt, window, width, y).status.hanging == w.status.hanging,
{
}

} // verus!
