//! Landing on and bumping into platforms.
//!
//! Edges are compared in doubled coordinates (twice the centre plus or minus
//! the size) so that odd sizes need no rounding. A snapped position rounds
//! away from the platform, so that a corrected body never overlaps it.
use crate::body::{Body, Platform};
use crate::jump::JumpStatus;
use vstd::prelude::*;

verus! {

/// Vertical velocity after bumping a platform's underside, in milli-units per
/// second.
pub const REBOUND_VELOCITY: i64 = 100_000;

/// Twice the bottom edge of a rectangle centred at `y` with height `h`.
pub open spec fn bottom2(y: int, h: int) -> int {
    2 * y - h
}

/// Twice the top edge of a rectangle centred at `y` with height `h`.
pub open spec fn top2(y: int, h: int) -> int {
    2 * y + h
}

/// The horizontal spans of the body and the platform intersect.
pub open spec fn aligned(b: Body, p: Platform) -> bool {
    &&& 2 * b.x - b.width <= 2 * p.x + p.width
    &&& 2 * b.x + b.width >= 2 * p.x - p.width
}

/// The body, last at `prev_y` and now at `b.y`, came down onto the platform's
/// top: it was clear above it and no longer is.
pub open spec fn lands(b: Body, prev_y: int, p: Platform) -> bool {
    &&& !(bottom2(b.y as int, b.height as int) > top2(p.y as int, p.height as int))
    &&& bottom2(prev_y, b.height as int) >= top2(p.y as int, p.height as int)
    &&& aligned(b, p)
}

/// The body, last at `prev_y` and now at `b.y`, rose into the platform's
/// underside: it was clear below it and no longer is.
pub open spec fn bumps(b: Body, prev_y: int, p: Platform) -> bool {
    &&& !(top2(b.y as int, b.height as int) < bottom2(p.y as int, p.height as int))
    &&& top2(prev_y, b.height as int) <= bottom2(p.y as int, p.height as int)
    &&& aligned(b, p)
}

/// Centre of a body of height `h` resting on the platform: its bottom on the
/// platform's top, rounded up.
pub open spec fn landing_y(p: Platform, h: int) -> int {
    (top2(p.y as int, p.height as int) + h + 1) / 2
}

/// Centre of a body of height `h` pressed against the platform's underside:
/// its top on the platform's bottom, rounded down.
pub open spec fn bump_y(p: Platform, h: int) -> int {
    (bottom2(p.y as int, p.height as int) - h) / 2
}

/// The correction that one platform applies to `acc`. The conditions are
/// taken from the raw body `b`; a bump is applied after a landing.
pub open spec fn corrected(acc: Body, b: Body, prev_y: int, p: Platform) -> Body {
    let landed = if lands(b, prev_y, p) {
        Body { y: landing_y(p, b.height as int) as i64, velocity_y: 0, ..acc }
    } else {
        acc
    };
    if bumps(b, prev_y, p) {
        Body { y: bump_y(p, b.height as int) as i64, velocity_y: REBOUND_VELOCITY, ..landed }
    } else {
        landed
    }
}

/// The body after every platform of `ps` was tested in order: the last
/// platform that corrects it decides its position and velocity.
pub open spec fn resolved(b: Body, prev_y: int, ps: Seq<Platform>) -> Body
    decreases ps.len(),
{
    if ps.len() == 0 {
        b
    } else {
        corrected(resolved(b, prev_y, ps.drop_last()), b, prev_y, ps.last())
    }
}

/// Some platform of `ps` has the body land on it.
pub open spec fn lands_on_any(b: Body, prev_y: int, ps: Seq<Platform>) -> bool {
    exists|i: int| 0 <= i < ps.len() && lands(b, prev_y, #[trigger] ps[i])
}

/// Some platform of `ps` has the body bump into it.
pub open spec fn bumps_any(b: Body, prev_y: int, ps: Seq<Platform>) -> bool {
    exists|i: int| 0 <= i < ps.len() && bumps(b, prev_y, #[trigger] ps[i])
}

/// What a collision pass found.
#[derive(Clone, Copy, Debug, PartialEq, Eq, Structural)]
pub struct Contacts {
    pub landed: bool,
    pub bumped: bool,
}

/// Tests one body, last at `prev_y`, against every platform in order and
/// corrects it. A landing puts its bottom on the platform's top and stops it;
/// a bump puts its top on the platform's bottom and sets the rebound
/// velocity. Where several platforms apply, the last in order wins.
pub fn resolve_collisions(body: &mut Body, prev_y: i64, platforms: &Vec<Platform>) -> (c:
    Contacts)
    requires
        old(body).collidable(),
        crate::scale::bounded(prev_y as int),
        forall|i: int| 0 <= i < platforms.len() ==> (#[trigger] platforms[i]).wf(),
    ensures
        *final(body) == resolved(*old(body), prev_y as int, platforms@),
        c.landed == lands_on_any(*old(body), prev_y as int, platforms@),
        c.bumped == bumps_any(*old(body), prev_y as int, platforms@),
{
    let raw: Body = *body;
    let mut landed = false;
    let mut bumped = false;
    let bh: i64 = raw.height;
    let n = platforms.len();
    let mut i: usize = 0;
    while i < n
        invariant
            0 <= i <= n,
            n == platforms.len(),
            raw == *old(body),
            bh == raw.height,
            raw.collidable(),
            crate::scale::bounded(prev_y as int),
            forall|j: int| 0 <= j < platforms.len() ==> (#[trigger] platforms[j]).wf(),
            *body == resolved(raw, prev_y as int, platforms@.subrange(0, i as int)),
            landed == lands_on_any(raw, prev_y as int, platforms@.subrange(0, i as int)),
            bumped == bumps_any(raw, prev_y as int, platforms@.subrange(0, i as int)),
        decreases n - i,
    {
        let p = platforms[i];
        let ptop2: i64 = 2 * p.y + p.height;
        let pbottom2: i64 = 2 * p.y - p.height;
        let is_aligned = 2 * raw.x - raw.width <= 2 * p.x + p.width && 2 * raw.x + raw.width >= 2
            * p.x - p.width;
        let on_platform = !(2 * raw.y - bh > ptop2) && 2 * prev_y - bh >= ptop2 && is_aligned;
        let under_platform = !(2 * raw.y + bh < pbottom2) && 2 * prev_y + bh <= pbottom2
            && is_aligned;
        if on_platform {
            body.y = crate::scale::floor_div(ptop2 + bh + 1, 2);
            body.velocity_y = 0;
            landed = true;
        }
        if under_platform {
            body.y = crate::scale::floor_div(pbottom2 - bh, 2);
            body.velocity_y = REBOUND_VELOCITY;
            bumped = true;
        }
        proof {
            let s = platforms@.subrange(0, i as int);
            let s1 = platforms@.subrange(0, i as int + 1);
            assert(s1.drop_last() == s);
            assert(s1.last() == p);
            if lands_on_any(raw, prev_y as int, s1) {
                let j = choose|j: int| 0 <= j < s1.len() && lands(raw, prev_y as int, #[trigger] s1[j]);
                if j < i {
                    assert(s[j] == s1[j]);
                }
            }
            if lands_on_any(raw, prev_y as int, s) {
                let j = choose|j: int| 0 <= j < s.len() && lands(raw, prev_y as int, #[trigger] s[j]);
                assert(s1[j] == s[j]);
            }
            if bumps_any(raw, prev_y as int, s1) {
                let j = choose|j: int| 0 <= j < s1.len() && bumps(raw, prev_y as int, #[trigger] s1[j]);
                if j < i {
                    assert(s[j] == s1[j]);
                }
            }
            if bumps_any(raw, prev_y as int, s) {
                let j = choose|j: int| 0 <= j < s.len() && bumps(raw, prev_y as int, #[trigger] s[j]);
                assert(s1[j] == s[j]);
            }
        }
        i = i + 1;
    }
    assert(platforms@.subrange(0, n as int) == platforms@);
    Contacts { landed, bumped }
}

/// A body cannot both land on and bump into a platform of positive height in
/// the same frame.
pub proof fn lemma_land_and_bump_exclusive(b: Body, prev_y: int, p: Platform)
    requires
        b.wf(),
        p.height > 0,
    ensures
        !(lands(b, prev_y, p) && bumps(b, prev_y, p)),
{
}

/// A body that falls onto a single platform's top ends with its bottom on the
/// platform's top (exactly, where the two heights sum to an even number),
/// stopped, and its jump buffer cleared.
pub proof fn lemma_landing(b: Body, prev_y: int, p: Platform, s: JumpStatus)
    requires
        b.wf(),
        p.wf(),
        p.height > 0,
        bottom2(prev_y, b.height as int) >= top2(p.y as int, p.height as int),
        bottom2(b.y as int, b.height as int) <= top2(p.y as int, p.height as int),
        aligned(b, p),
    ensures
        ({
            let r = resolved(b, prev_y, seq![p]);
            let c = Contacts {
                landed: lands_on_any(b, prev_y, seq![p]),
                bumped: bumps_any(b, prev_y, seq![p]),
            };
            &&& r.velocity_y == 0
            &&& r.y == landing_y(p, b.height as int)
            &&& bottom2(r.y as int, b.height as int) >= top2(p.y as int, p.height as int)
            &&& bottom2(r.y as int, b.height as int) <= top2(p.y as int, p.height as int) + 1
            &&& (p.height + b.height) % 2 == 0 ==> 2 * r.y == top2(p.y as int, p.height as int)
                + b.height
            &&& s.after_contacts(c).jump_buffer == 0
            &&& !s.after_contacts(c).hanging
        }),
{
    let ps = seq![p];
    assert(ps.drop_last() =~= Seq::<Platform>::empty());
    assert(lands(b, prev_y, ps[0]));
    lemma_land_and_bump_exclusive(b, prev_y, p);
}

/// A body that rises into a single platform's underside ends with its top on
/// the platform's bottom (exactly, where the two heights sum to an even
/// number), moving at the rebound velocity, and hanging.
pub proof fn lemma_bump(b: Body, prev_y: int, p: Platform, s: JumpStatus)
    requires
        b.wf(),
        p.wf(),
        p.height > 0,
        top2(prev_y, b.height as int) <= bottom2(p.y as int, p.height as int),
        top2(b.y as int, b.height as int) >= bottom2(p.y as int, p.height as int),
        aligned(b, p),
    ensures
        ({
            let r = resolved(b, prev_y, seq![p]);
            let c = Contacts {
                landed: lands_on_any(b, prev_y, seq![p]),
                bumped: bumps_any(b, prev_y, seq![p]),
            };
            &&& r.velocity_y == REBOUND_VELOCITY
            &&& r.y == bump_y(p, b.height as int)
            &&& top2(r.y as int, b.height as int) <= bottom2(p.y as int, p.height as int)
            &&& top2(r.y as int, b.height as int) >= bottom2(p.y as int, p.height as int) - 1
            &&& (p.height + b.height) % 2 == 0 ==> 2 * r.y == bottom2(p.y as int, p.height as int)
                - b.height
            &&& s.after_contacts(c).hanging
            &&& s.after_contacts(c).jump_buffer == s.jump_buffer
        }),
{
    let ps = seq![p];
    assert(ps.drop_last() =~= Seq::<Platform>::empty());
    assert(bumps(b, prev_y, ps[0]));
    lemma_land_and_bump_exclusive(b, prev_y, p);
}

/// Hanging does not stick: a pass in which no platform is bumped leaves the
/// player not hanging, whatever it was before.
pub proof fn lemma_hanging_not_sticky(b: Body, prev_y: int, ps: Seq<Platform>, s: JumpStatus)
    requires
        !bumps_any(b, prev_y, ps),
    ensures
        !s.after_contacts(
            Contacts { landed: lands_on_any(b, prev_y, ps), bumped: bumps_any(b, prev_y, ps) },
        ).hanging,
{
}

/// A corrected body never overlaps the platform that made the last
/// correction: it rests on its top or sits under its bottom.
pub proof fn lemma_no_overlap_after_correction(acc: Body, b: Body, prev_y: int, p: Platform)
    requires
        b.wf(),
        p.wf(),
        lands(b, prev_y, p) || bumps(b, prev_y, p),
    ensures
        ({
            let r = corrected(acc, b, prev_y, p);
            ||| bottom2(r.y as int, b.height as int) >= top2(p.y as int, p.height as int)
            ||| top2(r.y as int, b.height as int) <= bottom2(p.y as int, p.height as int)
        }),
{
}

} // verus!
