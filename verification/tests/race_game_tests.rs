use kart_core::game::{
    death_effects, pregame_tick, spawn_kart, update_game_state, update_match_state,
    GameEndingState, GameState, IngameState,
};
use kart_core::health::Health;
use kart_core::math::{isqrt, Vec3i};
use kart_core::num_ext::{
    circular_decrement_isize, circular_decrement_usize, circular_increment_isize,
    circular_increment_usize,
};
use kart_core::race::{
    populate_waypoint_index, Kart, KartColor, LapCounter, NextWayPoint, Place, WayPoint,
    WayPoints, KART_HEALTH, STARTING_POINTS,
};

#[test]
fn karts_spawn_targeting_quarter_on_lap_one() {
    let kart = Kart::new(KartColor(3), true);
    assert_eq!(kart.next_waypoint, NextWayPoint(WayPoints::Quarter));
    assert_eq!(kart.lap_counter, LapCounter(1));
    assert_eq!(kart.points.0, STARTING_POINTS);
    assert!(kart.health.is_alive());
    assert!(kart.invulnerability.is_none());
    let mut h = kart.health;
    for _ in 0..KART_HEALTH {
        h.subtract(1);
    }
    assert!(h.is_dead());
}

#[test]
fn mismatched_waypoint_collisions_change_nothing() {
    let mut kart = Kart::new(KartColor(0), false);
    let before_tier = kart.next_waypoint;
    let before_lap = kart.lap_counter;
    let before_points = kart.points;
    // targeting Quarter; hitting Half or Start or Finish is a no-op
    kart.handle_waypoint_collision(WayPoints::Half);
    kart.handle_waypoint_collision(WayPoints::Start);
    kart.handle_waypoint_collision(WayPoints::Finish);
    assert_eq!(kart.next_waypoint, before_tier);
    assert_eq!(kart.lap_counter, before_lap);
    assert_eq!(kart.points, before_points);
}

#[test]
fn a_full_matching_cycle_scores_a_lap() {
    let mut kart = Kart::new(KartColor(0), false);
    kart.place = Place(2);
    kart.handle_waypoint_collision(WayPoints::Quarter);
    assert_eq!(kart.next_waypoint, NextWayPoint(WayPoints::Half));
    kart.handle_waypoint_collision(WayPoints::Half);
    assert_eq!(kart.next_waypoint, NextWayPoint(WayPoints::Finish));
    assert_eq!(kart.lap_counter, LapCounter(1));
    kart.handle_waypoint_collision(WayPoints::Finish);
    // crossing the finish: lap up, 9 - place credits earned
    assert_eq!(kart.next_waypoint, NextWayPoint(WayPoints::Start));
    assert_eq!(kart.lap_counter, LapCounter(2));
    assert_eq!(kart.points.0, STARTING_POINTS + 9 - 2);
}

#[test]
fn waypoints_resolve_against_the_path() {
    let mut path = kart_core::path::PathManager::new();
    path.insert(0, Vec3i::new(0, 0, 0));
    path.insert(1, Vec3i::new(50000, 0, 0));
    path.build();
    let mut w = WayPoint(WayPoints::Half, None);
    populate_waypoint_index(&mut w, &path, Vec3i::new(49000, 0, 0));
    assert_eq!(w.1, Some(1));
    // an already-resolved waypoint is left alone
    populate_waypoint_index(&mut w, &path, Vec3i::new(100, 0, 0));
    assert_eq!(w.1, Some(1));
}

#[test]
fn game_clock_and_peak_count_ratchet() {
    let mut gs = GameState::default();
    update_game_state(&mut gs, 10, None, 16);
    assert_eq!(gs.game_time_ms, 16);
    assert_eq!(gs.peak_number_of_entities, 10);
    update_game_state(&mut gs, 4, Some((Place(2), LapCounter(3))), 16);
    assert_eq!(gs.game_time_ms, 32);
    assert_eq!(gs.peak_number_of_entities, 10);
    assert_eq!(gs.player_place, 2);
    assert_eq!(gs.player_lap, 3);
}

fn dead_kart(is_player: bool) -> Kart {
    let mut k = Kart::new(KartColor(0), is_player);
    k.health = Health::new(0);
    k
}

#[test]
fn a_dead_player_ends_the_match_after_the_cooldown() {
    let karts = vec![dead_kart(true), Kart::new(KartColor(1), false)];
    let mut gs = GameState::default();
    let mut state = IngameState::InGame;
    // the condition must persist for the confirmation cooldown
    update_match_state(&karts, &mut gs, &mut state, 1000);
    assert_eq!(state, IngameState::InGame);
    assert_eq!(gs.ending_state, GameEndingState::Initial);
    update_match_state(&karts, &mut gs, &mut state, 1000);
    assert_eq!(state, IngameState::EndGame);
    assert_eq!(gs.ending_state, GameEndingState::Died);
    // re-entry does not fire again: the end phase is absorbing
    gs.ending_state = GameEndingState::Initial;
    update_match_state(&karts, &mut gs, &mut state, 5000);
    assert_eq!(gs.ending_state, GameEndingState::Initial);
}

#[test]
fn last_kart_standing_wins() {
    let karts = vec![Kart::new(KartColor(0), true)];
    let mut gs = GameState::default();
    let mut state = IngameState::InGame;
    update_match_state(&karts, &mut gs, &mut state, 2500);
    assert_eq!(state, IngameState::EndGame);
    assert_eq!(gs.ending_state, GameEndingState::Winner);
}

#[test]
fn a_running_race_does_not_end() {
    let karts = vec![Kart::new(KartColor(0), true), Kart::new(KartColor(1), false)];
    let mut gs = GameState::default();
    let mut state = IngameState::InGame;
    update_match_state(&karts, &mut gs, &mut state, 5000);
    assert_eq!(state, IngameState::InGame);
    assert_eq!(gs.ending_state, GameEndingState::Initial);
}

#[test]
fn dead_karts_burst_on_despawn() {
    let karts = vec![dead_kart(false), Kart::new(KartColor(1), false), dead_kart(true)];
    let where_at = vec![
        Vec3i::new(1, 0, 0),
        Vec3i::new(2, 0, 0),
        Vec3i::new(3, 0, 0),
    ];
    let effects = death_effects(&karts, &where_at, false);
    assert_eq!(effects.len(), 2);
    assert_eq!(effects[0].position, Vec3i::new(1, 0, 0));
    assert_eq!(effects[1].position, Vec3i::new(3, 0, 0));
}

#[test]
fn spawners_seat_the_player_first_then_bots() {
    let mut gs = GameState::default();
    let (player, brain) = spawn_kart(&mut gs, 0, 0, 0);
    assert!(player.is_player);
    assert!(brain.is_none());
    assert_eq!(player.color, KartColor(7));
    let (bot, brain) = spawn_kart(&mut gs, 1, -500, 123);
    assert!(!bot.is_player);
    let brain = brain.unwrap();
    assert_eq!(brain.bot.random, -500);
    assert_eq!(bot.color, KartColor(6));
}

#[test]
fn integer_square_roots_are_exact() {
    assert_eq!(isqrt(0), 0);
    assert_eq!(isqrt(1), 1);
    assert_eq!(isqrt(3), 1);
    assert_eq!(isqrt(4), 2);
    assert_eq!(isqrt(199_999_999), 14142);
    assert_eq!(isqrt(200_000_000), 14142);
    assert_eq!(isqrt(u64::MAX as u128), 0xFFFF_FFFF);
}

#[test]
fn circular_counters_wrap_at_their_bounds() {
    assert_eq!(circular_increment_usize(5, 0, 9), 6);
    assert_eq!(circular_increment_usize(9, 0, 9), 0);
    assert_eq!(circular_decrement_usize(0, 0, 9), 9);
    assert_eq!(circular_decrement_usize(5, 2, 9), 4);
    assert_eq!(circular_increment_isize(-1, -3, 3), 0);
    assert_eq!(circular_increment_isize(3, -3, 3), -3);
    assert_eq!(circular_decrement_isize(-3, -3, 3), 3);
}

#[test]
fn the_countdown_opens_the_race() {
    let mut gs = GameState::default();
    let mut state = IngameState::PreGame;
    // six seconds of countdown tick away second by second
    assert_eq!(pregame_tick(&mut gs, &mut state, 1000), 5);
    assert_eq!(state, IngameState::PreGame);
    for _ in 0..4 {
        pregame_tick(&mut gs, &mut state, 1000);
    }
    assert_eq!(state, IngameState::PreGame);
    assert_eq!(pregame_tick(&mut gs, &mut state, 1000), 0);
    assert_eq!(state, IngameState::InGame);
}
