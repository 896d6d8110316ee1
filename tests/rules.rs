use rusty_bird::game::{
    boundary_layout, check_collisions, on_player_collision, player_spawn, reset_terrain,
    reset_terrain_with, spawn_terrain, spawn_terrain_with, RunState, Scoreboard,
};
use rusty_bird::geometry::{collide, collider_outline, Body, Point, SPRITE_DIMENSION};
use rusty_bird::motion::{
    distance, move_terrain_forward, player_movement_system, recycle_body, recycle_terrain,
    simulated_gravity, GRAVITY_SPEED, LIFT_SPEED, SCROLL_SPEED,
};

const SIXTIETH_MICROS: u64 = 16_667;

fn sprite(x: i64, y: i64) -> Body {
    Body { center: Point { x, y }, width: SPRITE_DIMENSION, height: SPRITE_DIMENSION }
}

#[test]
fn distance_in_one_sixtieth_of_a_second() {
    assert_eq!(distance(GRAVITY_SPEED, SIXTIETH_MICROS), 2_500);
    assert_eq!(distance(LIFT_SPEED, SIXTIETH_MICROS), 6_666);
    assert_eq!(distance(SCROLL_SPEED, SIXTIETH_MICROS), 3_333);
    assert_eq!(distance(SCROLL_SPEED, 0), 0);
}

#[test]
fn gravity_pulls_the_player_down() {
    let mut p = sprite(-350_000, 10_000);
    simulated_gravity(&mut p, SIXTIETH_MICROS);
    assert_eq!(p, sprite(-350_000, 7_500));
}

#[test]
fn lift_raises_the_player_only_while_held() {
    let mut p = sprite(-350_000, 0);
    player_movement_system(&mut p, false, SIXTIETH_MICROS);
    assert_eq!(p, sprite(-350_000, 0));
    player_movement_system(&mut p, true, SIXTIETH_MICROS);
    assert_eq!(p, sprite(-350_000, 6_666));
}

#[test]
fn terrain_scrolls_left_by_speed_times_time() {
    let mut t = vec![sprite(400_000, 5_000), sprite(700_000, -20_000)];
    move_terrain_forward(&mut t, 1_000_000);
    assert_eq!(t, vec![sprite(200_000, 5_000), sprite(500_000, -20_000)]);
}

#[test]
fn recycle_moves_only_obstacles_past_the_line() {
    assert_eq!(recycle_body(&sprite(-1_000_001, 7), 42), sprite(1_000_000, 42));
    assert_eq!(recycle_body(&sprite(-1_000_000, 7), 42), sprite(-1_000_000, 7));
    let mut t = vec![sprite(-1_500_000, 3), sprite(0, 3)];
    recycle_terrain(&mut t);
    assert_eq!(t[0].center.x, 1_000_000);
    assert!(-100_000 <= t[0].center.y && t[0].center.y < 100_000);
    assert_eq!(t[1], sprite(0, 3));
}

#[test]
fn reset_lays_out_obstacles_ahead_of_the_player() {
    let mut t = vec![sprite(-5, 1), sprite(9, 2), sprite(0, 0)];
    let mut state = RunState::ResetTerrain;
    reset_terrain_with(&mut t, &mut state, &vec![10, -20, 30]);
    assert_eq!(state, RunState::Running);
    assert_eq!(t, vec![sprite(1_000_000, 10), sprite(1_300_000, -20), sprite(1_600_000, 30)]);
}

#[test]
fn reset_does_nothing_while_running() {
    let before = vec![sprite(-5, 1), sprite(9, 2)];
    let mut t = before.clone();
    let mut state = RunState::Running;
    reset_terrain_with(&mut t, &mut state, &vec![10, 20]);
    assert_eq!(t, before);
    reset_terrain(&mut t, &mut state);
    assert_eq!(t, before);
    assert_eq!(state, RunState::Running);
}

#[test]
fn reset_with_random_heights() {
    let mut t = vec![sprite(-5, 1), sprite(9, 2)];
    let mut state = RunState::ResetTerrain;
    reset_terrain(&mut t, &mut state);
    assert_eq!(state, RunState::Running);
    assert_eq!(t[0].center.x, 1_000_000);
    assert_eq!(t[1].center.x, 1_300_000);
    for b in &t {
        assert!(-100_000 <= b.center.y && b.center.y < 100_000);
    }
}

#[test]
fn collision_needs_shared_interior() {
    let a = sprite(0, 0);
    assert!(collide(&a, &sprite(63_999, 0)));
    assert!(!collide(&a, &sprite(64_000, 0)));
    assert!(!collide(&a, &sprite(0, -64_000)));
    assert!(collide(&a, &sprite(-10_000, 60_000)));
    assert!(collide(&a, &a));
    let small = Body { center: Point { x: 0, y: 0 }, width: 2, height: 2 };
    assert!(collide(&a, &small));
    assert!(collide(&small, &a));
}

#[test]
fn collision_with_any_collider() {
    let p = player_spawn();
    assert!(!check_collisions(&p, &vec![]));
    assert!(!check_collisions(&p, &vec![sprite(0, 0), sprite(400_000, 0)]));
    assert!(check_collisions(&p, &vec![sprite(0, 0), sprite(-386_000, -63_000)]));
}

#[test]
fn the_level_starts_with_the_player_clear_of_the_boundaries() {
    let p = player_spawn();
    assert_eq!(p, sprite(-350_000, 0));
    let b = boundary_layout();
    assert_eq!(b.len(), 30);
    assert_eq!(b[0], sprite(-386_000, 200_000));
    assert_eq!(b[1], sprite(-386_000, -200_000));
    assert_eq!(b[29], sprite(510_000, -200_000));
    assert!(!check_collisions(&p, &b));
}

#[test]
fn spawn_spaces_the_obstacles() {
    let t = spawn_terrain_with(&vec![1, 2, 3]);
    assert_eq!(t, vec![sprite(400_000, 1), sprite(700_000, 2), sprite(1_000_000, 3)]);
    let r = spawn_terrain();
    assert_eq!(r.len(), 8);
    assert_eq!(r[7].center.x, 400_000 + 7 * 300_000);
    assert!(r.iter().all(|b| -100_000 <= b.center.y && b.center.y < 100_000));
}

#[test]
fn score_counts_seconds_since_round_start() {
    let mut s = Scoreboard::new();
    s.update_scoreboard(12);
    assert_eq!(s, Scoreboard { score: 12, seconds_since_round_start: 0 });
    let mut s = Scoreboard { score: 3, seconds_since_round_start: 5 };
    s.update_scoreboard(5);
    assert_eq!(s.score, 0);
}

#[test]
fn score_renders_in_decimal() {
    assert_eq!(Scoreboard { score: 1234, seconds_since_round_start: 0 }.render_score(), "1234");
    assert_eq!(Scoreboard::new().render_score(), "0");
}

#[test]
fn crash_restarts_the_round() {
    let mut p = sprite(-350_000, -180_000);
    let mut s = Scoreboard { score: 9, seconds_since_round_start: 1 };
    let mut state = RunState::Running;
    on_player_collision(true, 10, &mut p, &mut s, &mut state);
    assert_eq!(p, sprite(-350_000, 0));
    assert_eq!(s, Scoreboard { score: 0, seconds_since_round_start: 10 });
    assert_eq!(state, RunState::ResetTerrain);
}

#[test]
fn no_crash_changes_nothing() {
    let mut p = sprite(-350_000, -180_000);
    let mut s = Scoreboard { score: 9, seconds_since_round_start: 1 };
    let mut state = RunState::Running;
    on_player_collision(false, 10, &mut p, &mut s, &mut state);
    assert_eq!(p, sprite(-350_000, -180_000));
    assert_eq!(s, Scoreboard { score: 9, seconds_since_round_start: 1 });
    assert_eq!(state, RunState::Running);
}

#[test]
fn outline_corners() {
    let o = collider_outline(&sprite(100, -100));
    assert_eq!(o.top_left, Point { x: -31_900, y: 31_900 });
    assert_eq!(o.top_right, Point { x: 32_100, y: 31_900 });
    assert_eq!(o.bottom_left, Point { x: -31_900, y: -32_100 });
    assert_eq!(o.bottom_right, Point { x: 32_100, y: -32_100 });
}

#[test]
fn in_play_rejects_negative_sizes() {
    assert!(sprite(0, 0).in_play());
    assert!(!Body { center: Point { x: 0, y: 0 }, width: -1, height: 1 }.in_play());
    assert!(!sprite(i64::MAX, 0).in_play());
}

#[test]
fn a_restarted_round_begins_clear_of_obstacles() {
    let mut p = sprite(-350_000, -180_000);
    let mut s = Scoreboard { score: 4, seconds_since_round_start: 0 };
    let mut state = RunState::Running;
    let mut t = vec![sprite(-350_000, -150_000), sprite(-300_000, 0), sprite(600_000, 50_000)];
    assert!(check_collisions(&p, &t));
    on_player_collision(check_collisions(&p, &t), 4, &mut p, &mut s, &mut state);
    reset_terrain(&mut t, &mut state);
    assert_eq!(state, RunState::Running);
    assert!(!check_collisions(&p, &t));
}
