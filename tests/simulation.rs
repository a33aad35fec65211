use platform_jumper::body::{Body, Platform};
use platform_jumper::collision::{resolve_collisions, Contacts, REBOUND_VELOCITY};
use platform_jumper::jump::{JumpStatus, DROP_STRENGTH, JUMP_BUFFER_SENTINEL, JUMP_STRENGTH};
use platform_jumper::physics::integrate;
use platform_jumper::scale::{floor_div, to_window, Window};
use platform_jumper::scroller::scroll_platforms;
use platform_jumper::spawner::{draw_width, draw_y, new_platform, spawn_on_tick, SpawnTimer};
use platform_jumper::world::World;

const REFERENCE: Window = Window { width: 1280, height: 720 };

fn player_at(y: i64, velocity_y: i64) -> Body {
    Body { x: 0, y, width: 10_000, height: 20_000, velocity_y }
}

fn grounded_status() -> JumpStatus {
    JumpStatus { jump_buffer: 500, space_shipping: false, hanging: false }
}

#[test]
fn floor_division_rounds_down() {
    assert_eq!(floor_div(7, 2), 3);
    assert_eq!(floor_div(-7, 2), -4);
    assert_eq!(floor_div(-8, 2), -4);
    assert_eq!(floor_div(0, 5), 0);
}

#[test]
fn scale_is_identity_at_reference_height() {
    assert_eq!(to_window(1000, REFERENCE), 1000);
    assert_eq!(to_window(-250_000, REFERENCE), -250_000);
}

#[test]
fn scale_doubles_with_window_height() {
    let tall = Window { width: 1280, height: 1440 };
    let short = Window { width: 640, height: 360 };
    assert_eq!(to_window(1000, tall), 2000);
    assert_eq!(to_window(1000, short), 500);
    assert_eq!(to_window(1000, tall), 2 * to_window(1000, REFERENCE));
    // width does not change a physical magnitude
    assert_eq!(to_window(1000, Window { width: 100, height: 720 }), 1000);
}

#[test]
fn scale_rounds_toward_negative_infinity() {
    let short = Window { width: 640, height: 360 };
    assert_eq!(to_window(-1, short), -1);
    assert_eq!(to_window(1, short), 0);
}

#[test]
fn gravity_is_applied_twice_per_frame() {
    let mut b = player_at(0, 0);
    integrate(&mut b, false, 16, REFERENCE);
    assert_eq!(b.velocity_y, -2 * 100 * 16);
    // displacement uses the velocity after the first application: -1600 * 16 / 1000
    assert_eq!(b.y, -26);
}

#[test]
fn displacement_scales_with_window_height() {
    let mut b = player_at(0, 100_000);
    integrate(&mut b, false, 1000, Window { width: 1280, height: 1440 });
    assert_eq!(b.y, 2 * (100_000 - 100_000));
    let mut c = player_at(0, 200_000);
    integrate(&mut c, false, 500, Window { width: 1280, height: 1440 });
    assert_eq!(c.y, 2 * (150_000 / 2));
    assert_eq!(c.velocity_y, 100_000);
}

#[test]
fn space_shipping_body_is_not_integrated() {
    let mut b = player_at(12_345, -7_000);
    for _ in 0..50 {
        integrate(&mut b, true, 16, REFERENCE);
    }
    assert_eq!(b, player_at(12_345, -7_000));
}

#[test]
fn landing_snaps_stops_and_clears_buffer() {
    let platform = Platform { x: 0, y: 0, width: 300_000, height: 10_000 };
    let mut b = player_at(4_000, -50_000);
    let c = resolve_collisions(&mut b, 20_000, &vec![platform]);
    assert_eq!(c, Contacts { landed: true, bumped: false });
    assert_eq!(b.y, 5_000 + 10_000);
    assert_eq!(b.velocity_y, 0);
    let mut s = grounded_status();
    s.record_contacts(c);
    assert_eq!(s.jump_buffer, 0);
    assert!(!s.hanging);
}

#[test]
fn landing_with_odd_heights_does_not_overlap() {
    let platform = Platform { x: 0, y: 0, width: 300_000, height: 11 };
    let mut b = Body { x: 0, y: 0, width: 10, height: 20, velocity_y: -5 };
    let c = resolve_collisions(&mut b, 100, &vec![platform]);
    assert!(c.landed);
    // bottom edge b.y - 10 must be at or above the top edge 5.5
    assert_eq!(b.y, 16);
}

#[test]
fn bump_snaps_rebounds_and_hangs() {
    let platform = Platform { x: 0, y: 0, width: 300_000, height: 10_000 };
    let mut b = player_at(-12_000, 80_000);
    let c = resolve_collisions(&mut b, -20_000, &vec![platform]);
    assert_eq!(c, Contacts { landed: false, bumped: true });
    assert_eq!(b.y, -5_000 - 10_000);
    assert_eq!(b.velocity_y, REBOUND_VELOCITY);
    assert_eq!(REBOUND_VELOCITY, 100_000);
    let mut s = grounded_status();
    s.record_contacts(c);
    assert!(s.hanging);
    assert_eq!(s.jump_buffer, 500);
}

#[test]
fn hanging_is_cleared_without_a_bump() {
    let mut s = JumpStatus { jump_buffer: 300, space_shipping: false, hanging: true };
    let mut b = player_at(50_000, -1_000);
    let c = resolve_collisions(&mut b, 51_000, &vec![]);
    s.record_contacts(c);
    assert!(!s.hanging);
    assert_eq!(b, player_at(50_000, -1_000));
}

#[test]
fn misaligned_body_passes_platform() {
    let platform = Platform { x: 0, y: 0, width: 300_000, height: 10_000 };
    let mut b = Body { x: 200_000, y: 4_000, width: 10_000, height: 20_000, velocity_y: -50_000 };
    let c = resolve_collisions(&mut b, 20_000, &vec![platform]);
    assert_eq!(c, Contacts { landed: false, bumped: false });
    assert_eq!(b.y, 4_000);
}

#[test]
fn last_matching_platform_wins() {
    let low = Platform { x: 0, y: 0, width: 300_000, height: 10_000 };
    let high = Platform { x: 0, y: 2_000, width: 300_000, height: 10_000 };
    let mut b = player_at(4_000, -50_000);
    let c = resolve_collisions(&mut b, 30_000, &vec![low, high]);
    assert!(c.landed);
    assert_eq!(b.y, 7_000 + 10_000);
    let mut b2 = player_at(4_000, -50_000);
    resolve_collisions(&mut b2, 30_000, &vec![high, low]);
    assert_eq!(b2.y, 5_000 + 10_000);
}

#[test]
fn end_to_end_landing_scenario() {
    let platform = Platform { x: 0, y: 0, width: 300_000, height: 10_000 };
    let platforms = vec![platform];
    let mut s = JumpStatus { jump_buffer: 2_000, space_shipping: false, hanging: false };
    // previous y 56 (bottom 46), now y 48 (bottom 38): still clear above the
    // platform's top at 5, so nothing happens yet
    let mut b = Body { x: 0, y: 48_000, width: 10_000, height: 20_000, velocity_y: -50_000 };
    let c = resolve_collisions(&mut b, 56_000, &platforms);
    assert_eq!(c, Contacts { landed: false, bumped: false });
    assert_eq!(b.y, 48_000);
    s.record_contacts(c);
    assert_eq!(s.jump_buffer, 2_000);
    // next frame the bottom (2) crosses the top (5): landed
    b.y = 12_000;
    let c = resolve_collisions(&mut b, 48_000, &platforms);
    assert!(c.landed);
    assert_eq!(b.y, 5_000 + 10_000);
    assert_eq!(b.velocity_y, 0);
    s.record_contacts(c);
    assert_eq!(s.jump_buffer, 0);
}

#[test]
fn jump_accepted_within_buffer() {
    let mut s = JumpStatus { jump_buffer: 50, space_shipping: false, hanging: false };
    let mut v: i64 = -3_000;
    s.apply_input(&mut v, true, 16);
    assert_eq!(v, JUMP_STRENGTH);
    assert_eq!(s.jump_buffer, JUMP_BUFFER_SENTINEL + 16);
}

#[test]
fn jump_accepted_while_space_shipping() {
    let mut s = JumpStatus::new();
    let mut v: i64 = 0;
    s.apply_input(&mut v, true, 16);
    assert_eq!(v, 200_000);
    assert!(!s.space_shipping);
}

#[test]
fn jump_ignored_past_buffer() {
    let mut s = JumpStatus { jump_buffer: 100, space_shipping: false, hanging: false };
    let mut v: i64 = -3_000;
    s.apply_input(&mut v, true, 16);
    assert_eq!(v, -3_000);
    assert_eq!(s.jump_buffer, 116);
}

#[test]
fn drop_while_hanging() {
    let mut s = JumpStatus { jump_buffer: 400, space_shipping: false, hanging: true };
    let mut v: i64 = 100_000;
    s.apply_input(&mut v, true, 10);
    assert_eq!(v, -DROP_STRENGTH);
    assert_eq!(s.jump_buffer, JUMP_BUFFER_SENTINEL + 10);
}

#[test]
fn no_input_only_grows_buffer() {
    let mut s = JumpStatus { jump_buffer: 0, space_shipping: false, hanging: true };
    let mut v: i64 = 7;
    s.apply_input(&mut v, false, 33);
    assert_eq!(v, 7);
    assert_eq!(s.jump_buffer, 33);
    assert!(s.hanging);
}

#[test]
fn timer_fires_once_per_interval() {
    assert!(SpawnTimer::new(0).is_none());
    assert!(SpawnTimer::new(-5).is_none());
    let mut t = SpawnTimer::new(1000).unwrap();
    assert!(!t.tick(400));
    assert!(!t.tick(599));
    assert!(t.tick(1));
    assert_eq!(t.elapsed, 0);
    assert!(t.tick(1500));
    assert_eq!(t.elapsed, 500);
}

#[test]
fn spawned_platform_is_right_of_window() {
    let p = new_platform(300, 50_000, REFERENCE);
    assert_eq!(p, Platform { x: 640_000 + 300_000, y: 50_000, width: 300_000, height: 10_000 });
    let q = new_platform(200, -100_000, Window { width: 800, height: 1440 });
    assert_eq!(q, Platform { x: 400_000 + 400_000, y: -100_000, width: 400_000, height: 20_000 });
}

#[test]
fn spawn_on_tick_builds_exactly_one() {
    let mut t = SpawnTimer::new(1000).unwrap();
    assert_eq!(spawn_on_tick(&mut t, 999, REFERENCE, 250, 0), None);
    let p = spawn_on_tick(&mut t, 1, REFERENCE, 250, 0);
    assert_eq!(p, Some(Platform { x: 890_000, y: 0, width: 250_000, height: 10_000 }));
}

#[test]
fn platforms_scroll_and_despawn_past_boundary() {
    let mut ps = vec![
        Platform { x: 0, y: 0, width: 300_000, height: 10_000 },
        Platform { x: -800_000, y: 5, width: 300_000, height: 10_000 },
    ];
    scroll_platforms(&mut ps, 200_000, 1000, REFERENCE);
    assert_eq!(ps.len(), 2);
    assert_eq!(ps[0].x, -200_000);
    assert_eq!(ps[1].x, -1_000_000);
    scroll_platforms(&mut ps, 200_000, 1000, REFERENCE);
    assert_eq!(ps, vec![Platform { x: -400_000, y: 0, width: 300_000, height: 10_000 }]);
}

#[test]
fn platform_at_boundary_stays() {
    // right edge exactly on the boundary -640_000 - 300_000
    let mut ps = vec![Platform { x: -1_090_000 + 1, y: 0, width: 300_000, height: 10_000 }];
    scroll_platforms(&mut ps, 1000, 1, REFERENCE);
    assert_eq!(ps.len(), 1);
    assert_eq!(ps[0].x, -1_090_000);
    scroll_platforms(&mut ps, 1000, 1, REFERENCE);
    assert!(ps.is_empty());
}

#[test]
fn scroll_speed_scales_with_window_height() {
    let mut ps = vec![Platform { x: 0, y: 0, width: 300_000, height: 10_000 }];
    scroll_platforms(&mut ps, 200_000, 100, Window { width: 1280, height: 1440 });
    assert_eq!(ps[0].x, -40_000);
}

#[test]
fn new_world_starts_space_shipping() {
    let w = World::new(REFERENCE);
    assert_eq!(w.player, Body { x: -480_000, y: 0, width: 10_000, height: 20_000, velocity_y: 0 });
    assert!(w.status.space_shipping);
    assert!(w.platforms.is_empty());
    assert!(w.is_within_bounds());
}

#[test]
fn world_frames_follow_fixed_order() {
    let mut w = World::new(REFERENCE);
    w.advance(false, 16, REFERENCE, 300, 0);
    assert_eq!(w.player.y, 0);
    assert_eq!(w.player.velocity_y, 0);
    w.advance(true, 16, REFERENCE, 300, 0);
    assert!(!w.status.space_shipping);
    assert_eq!(w.player.velocity_y, 200_000 - 3_200);
    assert_eq!(w.player.y, 3_174);
    assert_eq!(w.status.jump_buffer, 100_016);
    // the timer fires on the frame that reaches one second
    w.advance(false, 968, REFERENCE, 300, 20_000);
    assert_eq!(w.platforms.len(), 1);
    assert_eq!(w.platforms[0].x, 940_000 - 193_600);
    assert_eq!(w.platforms[0].y, 20_000);
}

#[test]
fn world_resizes_player() {
    let mut w = World::new(REFERENCE);
    let big = Window { width: 1000, height: 1440 };
    w.advance(false, 16, big, 300, 0);
    assert_eq!(w.player.x, -375_000);
    assert_eq!(w.player.width, 20_000);
    assert_eq!(w.player.height, 40_000);
}

#[test]
fn random_frame_spawns_in_range() {
    let mut w = World::new(REFERENCE);
    w.advance_randomly(false, 1000, REFERENCE);
    assert_eq!(w.platforms.len(), 1);
    let p = w.platforms[0];
    assert!(p.width >= 200_000 && p.width <= 400_000);
    assert!(p.y >= -100_000 && p.y <= 100_000);
    assert_eq!(p.x, 640_000 + p.width - 200_000);
}

#[test]
fn random_draws_vary_within_range() {
    let widths: Vec<i64> = (0..200).map(|_| draw_width()).collect();
    assert!(widths.iter().all(|w| (200..=400).contains(w)));
    assert!(widths.iter().any(|w| *w != widths[0]));
    let ys: Vec<i64> = (0..200).map(|_| draw_y()).collect();
    assert!(ys.iter().all(|y| (-100_000..=100_000).contains(y)));
    assert!(ys.iter().any(|y| *y != ys[0]));
}
