//! The player's jump state and its transition on the jump input.
use crate::collision::Contacts;
use crate::scale::MAX_FRAME_MILLIS;
use vstd::prelude::*;

verus! {

/// Upward velocity a jump gives, in milli-units per second.
pub const JUMP_STRENGTH: i64 = 200_000;

/// Downward speed of a drop from under a platform, in milli-units per second.
pub const DROP_STRENGTH: i64 = 100_000;

/// A jump is honoured while the buffer is below this many milliseconds.
pub const JUMP_BUFFER_THRESHOLD: i64 = 100;

/// Value the buffer is set to after a jump or drop, in milliseconds, so that
/// no second jump follows at once.
pub const JUMP_BUFFER_SENTINEL: i64 = 100_000;

/// The buffer a new player starts with, in milliseconds.
pub const INITIAL_JUMP_BUFFER: i64 = 10_000;

/// Largest buffer value accepted, in milliseconds.
pub const MAX_JUMP_BUFFER: i64 = 0x4000_0000_0000_0000;

/// The buffer after `dt` more milliseconds: `b + dt`, held at
/// `MAX_JUMP_BUFFER` so that it cannot overflow.
pub open spec fn buffer_after(b: int, dt: int) -> int {
    if b + dt > MAX_JUMP_BUFFER {
        MAX_JUMP_BUFFER as int
    } else {
        b + dt
    }
}

/// Jump bookkeeping that only the player carries.
#[derive(Clone, Copy, Debug, PartialEq, Eq, Structural)]
pub struct JumpStatus {
    /// Milliseconds since the player last became able to jump.
    pub jump_buffer: i64,
    /// True before the first jump: no gravity and no collisions.
    pub space_shipping: bool,
    /// True in a frame in which the player bumped a platform's underside.
    pub hanging: bool,
}

impl JumpStatus {
    pub open spec fn wf(self) -> bool {
        0 <= self.jump_buffer <= MAX_JUMP_BUFFER
    }

    /// The status a player starts a session with.
    pub open spec fn new_spec() -> JumpStatus {
        JumpStatus { jump_buffer: INITIAL_JUMP_BUFFER, space_shipping: true, hanging: false }
    }

    /// The status a player starts a session with: space-shipping, not
    /// hanging, with a buffer past the threshold.
    pub fn new() -> (r: JumpStatus)
        ensures
            r == JumpStatus::new_spec(),
            r.wf(),
            r.jump_buffer == INITIAL_JUMP_BUFFER,
            r.space_shipping,
            !r.hanging,
    {
        JumpStatus { jump_buffer: INITIAL_JUMP_BUFFER, space_shipping: true, hanging: false }
    }

    /// The status after a collision pass that found `c`.
    pub open spec fn after_contacts(self, c: Contacts) -> JumpStatus {
        JumpStatus {
            jump_buffer: if c.landed {
                0
            } else {
                self.jump_buffer
            },
            hanging: c.bumped,
            ..self
        }
    }

    /// Records a collision pass: a landing makes jumping possible again, and
    /// the player hangs exactly when it bumped a platform in this pass.
    pub fn record_contacts(&mut self, c: Contacts)
        requires
            old(self).wf(),
        ensures
            *final(self) == old(self).after_contacts(c),
            final(self).wf(),
    {
        self.hanging = c.bumped;
        if c.landed {
            self.jump_buffer = 0;
        }
    }

    /// Whether a jump pressed now is honoured.
    pub open spec fn accepts_jump(self, pressed: bool) -> bool {
        pressed && (self.jump_buffer < JUMP_BUFFER_THRESHOLD || self.space_shipping)
    }

    /// Whether a jump pressed now drops the player from under a platform.
    pub open spec fn accepts_drop(self, pressed: bool) -> bool {
        pressed && !self.accepts_jump(pressed) && self.hanging
    }

    /// The status and vertical velocity after one frame of the jump state
    /// machine.
    pub open spec fn transition(self, v: i64, pressed: bool, dt: int) -> (JumpStatus, i64) {
        if self.accepts_jump(pressed) {
            (
                JumpStatus {
                    jump_buffer: (JUMP_BUFFER_SENTINEL + dt) as i64,
                    space_shipping: false,
                    ..self
                },
                JUMP_STRENGTH,
            )
        } else if self.accepts_drop(pressed) {
            (JumpStatus { jump_buffer: (JUMP_BUFFER_SENTINEL + dt) as i64, ..self }, (-DROP_STRENGTH) as i64)
        } else {
            (JumpStatus { jump_buffer: buffer_after(self.jump_buffer as int, dt) as i64, ..self }, v)
        }
    }

    /// One frame of the jump state machine. A jump sets the velocity to
    /// `JUMP_STRENGTH` and ends space-shipping; a drop from under a platform
    /// sets it to `-DROP_STRENGTH`; either sets the buffer to the sentinel.
    /// The buffer then grows by the frame's duration.
    pub fn apply_input(&mut self, velocity_y: &mut i64, pressed: bool, dt: i64)
        requires
            old(self).wf(),
            0 <= dt <= MAX_FRAME_MILLIS,
        ensures
            (*final(self), *final(velocity_y)) == old(self).transition(*old(velocity_y), pressed, dt as int),
            final(self).wf(),
            final(self).hanging == old(self).hanging,
            old(self).accepts_jump(pressed) ==> {
                &&& *final(velocity_y) == JUMP_STRENGTH
                &&& final(self).jump_buffer == JUMP_BUFFER_SENTINEL + dt
                &&& !final(self).space_shipping
            },
            old(self).accepts_drop(pressed) ==> {
                &&& *final(velocity_y) == -DROP_STRENGTH
                &&& final(self).jump_buffer == JUMP_BUFFER_SENTINEL + dt
                &&& final(self).space_shipping == old(self).space_shipping
            },
            !old(self).accepts_jump(pressed) && !old(self).accepts_drop(pressed) ==> {
                &&& *final(velocity_y) == *old(velocity_y)
                &&& final(self).jump_buffer == buffer_after(old(self).jump_buffer as int, dt as int)
                &&& final(self).space_shipping == old(self).space_shipping
            },
    {
        if pressed && (self.jump_buffer < JUMP_BUFFER_THRESHOLD || self.space_shipping) {
            *velocity_y = JUMP_STRENGTH;
            self.jump_buffer = JUMP_BUFFER_SENTINEL;
            self.space_shipping = false;
        } else if self.hanging && pressed {
            *velocity_y = -DROP_STRENGTH;
            self.jump_buffer = JUMP_BUFFER_SENTINEL;
        }
        if self.jump_buffer > MAX_JUMP_BUFFER - dt {
            self.jump_buffer = MAX_JUMP_BUFFER;
        } else {
            self.jump_buffer = self.jump_buffer + dt;
        }
    }
}

/// Jump gating: a pressed jump is ignored while the buffer has reached the
/// threshold and the player neither space-ships nor hangs (velocity kept,
/// only the buffer grows), and is honoured with `JUMP_STRENGTH` while the
/// buffer is below the threshold or the player space-ships.
pub proof fn lemma_jump_gating(s: JumpStatus, v: i64, dt: int)
    requires
        s.wf(),
        0 <= dt <= MAX_FRAME_MILLIS,
    ensures
        s.jump_buffer >= JUMP_BUFFER_THRESHOLD && !s.space_shipping && !s.hanging ==> {
            let (s1, v1) = s.transition(v, true, dt);
            &&& v1 == v
            &&& s1.jump_buffer == buffer_after(s.jump_buffer as int, dt)
            &&& s1.space_shipping == s.space_shipping
            &&& s1.hanging == s.hanging
        },
        s.jump_buffer < JUMP_BUFFER_THRESHOLD || s.space_shipping ==> {
            let (s1, v1) = s.transition(v, true, dt);
            &&& v1 == JUMP_STRENGTH
            &&& !s1.space_shipping
        },
{
}

} // verus!
