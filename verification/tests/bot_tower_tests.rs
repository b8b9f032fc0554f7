use bevy_turborand::GlobalRng;
use kart_core::bot::{find_target, place_towers_tick, steer, Bot, BotBundle, TowerPlacer};
use kart_core::controller::MovementAction;
use kart_core::math::Vec3i;
use kart_core::path::PathManager;
use kart_core::race::{Points, WayPoint, WayPoints};
use kart_core::tower::{
    plan_tower_placement, probe_points, tower_check_point, update_bullet, Bullet, Tower,
    PROBE_COUNT, TOWER_COST,
};

fn dense_track(n: usize) -> PathManager {
    let mut path = PathManager::new();
    for i in 0..n {
        path.insert(i, Vec3i::new(i as i64 * 30000, 0, 0));
    }
    path.build();
    path
}

#[test]
fn bots_pick_the_nearest_waypoint_first() {
    let path = dense_track(40);
    let mut bot = Bot::new(0);
    find_target(&mut bot, &path, Vec3i::new(5 * 30000 + 100, 0, 0));
    assert_eq!(bot.target, Some(5));
}

#[test]
fn bots_advance_their_target_inside_the_capture_radius() {
    let path = dense_track(40);
    let mut bot = Bot::new(0);
    bot.target = Some(5);
    // far away: the target stays
    find_target(&mut bot, &path, Vec3i::new(0, 0, 0));
    assert_eq!(bot.target, Some(5));
    // within 20 units of waypoint 5: advance to 6
    find_target(&mut bot, &path, Vec3i::new(5 * 30000 - 19000, 0, 0));
    assert_eq!(bot.target, Some(6));
    // the wrap: reaching waypoint 39 goes back to 0
    bot.target = Some(39);
    find_target(&mut bot, &path, Vec3i::new(39 * 30000 + 1000, 0, 0));
    assert_eq!(bot.target, Some(0));
}

#[test]
fn steering_turns_toward_the_target_and_accelerates() {
    let bot = Bot::new(0);
    // the target sits off the right axis: the offset is negative
    let actions = steer(
        &bot,
        true,
        Vec3i::new(0, 0, 50000),
        Vec3i::new(1000, 0, 0),
        Vec3i::new(10000, 0, 0),
        Vec3i::new(0, 0, 0),
    );
    assert_eq!(actions.len(), 2);
    match actions[0] {
        MovementAction::Turn(t) => assert_eq!(t, 1000),
        _ => panic!("expected a turn"),
    }
    assert_eq!(actions[1], MovementAction::Gas);
    // no target: brake
    let actions = steer(
        &bot,
        false,
        Vec3i::new(0, 0, 0),
        Vec3i::new(1000, 0, 0),
        Vec3i::new(0, 0, 0),
        Vec3i::new(0, 0, 0),
    );
    assert_eq!(actions, vec![MovementAction::Brake]);
}

#[test]
fn threshold_crossing_places_and_rerolls() {
    // a threshold of 0.42 of the track
    let placer = TowerPlacer::new(320);
    assert_eq!(placer.min_permille_into_track, 420);
    let mut placer = placer;

    let path = dense_track(41);
    let waypoints = vec![
        WayPoint(WayPoints::Start, Some(0)),
        WayPoint(WayPoints::Finish, Some(40)),
    ];
    let mut bot = Bot::new(0);
    // halfway into the track: fraction 0.50 crosses the 0.42 threshold
    bot.target = Some(20);
    let mut rng = GlobalRng::with_seed(7);

    let placed = place_towers_tick(&mut bot, &mut placer, &path, &waypoints, &mut rng, 1500);
    assert!(placed);
    // the threshold re-rolled into [0.1, 0.9)
    assert!((100..900).contains(&placer.min_permille_into_track));
    // and the cooldown restarted: an immediate retry does nothing
    let placed_again =
        place_towers_tick(&mut bot, &mut placer, &path, &waypoints, &mut rng, 100);
    assert!(!placed_again);
}

#[test]
fn below_threshold_no_placement() {
    let mut placer = TowerPlacer::new(320);
    let path = dense_track(41);
    let waypoints = vec![
        WayPoint(WayPoints::Start, Some(0)),
        WayPoint(WayPoints::Finish, Some(40)),
    ];
    let mut bot = Bot::new(0);
    // fraction 0.25 stays under 0.42
    bot.target = Some(10);
    let mut rng = GlobalRng::with_seed(7);
    let placed = place_towers_tick(&mut bot, &mut placer, &path, &waypoints, &mut rng, 1500);
    assert!(!placed);
    assert_eq!(placer.min_permille_into_track, 420);
}

#[test]
fn placement_deducts_cost_only_on_success() {
    let check = Vec3i::new(0, 0, 0);
    // every probe over ground: no spot, nothing spent
    let mut points = Points(8);
    let all_hit = vec![true; PROBE_COUNT];
    assert!(plan_tower_placement(check, &mut points, &all_hit).is_none());
    assert_eq!(points.0, 8);

    // probe 1 (track width along +x) is free: offset lands past the edge
    let mut hits = vec![true; PROBE_COUNT];
    hits[1] = false;
    let spot = plan_tower_placement(check, &mut points, &hits).unwrap();
    assert_eq!(points.0, 8 - TOWER_COST);
    assert_eq!(spot, Vec3i::new(11000, 0, 0));

    // too poor: nothing happens even with room
    let mut poor = Points(TOWER_COST - 1);
    assert!(plan_tower_placement(check, &mut poor, &hits).is_none());
    assert_eq!(poor.0, TOWER_COST - 1);
}

#[test]
fn diagonal_spots_sit_past_the_edge() {
    let check = Vec3i::new(1000, 500, -2000);
    let mut points = Points(100);
    let mut hits = vec![true; PROBE_COUNT];
    hits[4] = false;  // the (+x, +z) diagonal
    let spot = plan_tower_placement(check, &mut points, &hits).unwrap();
    // 10000 * 11000 / isqrt(2 * 10000^2) = 7778 along each ground axis
    assert_eq!(spot, Vec3i::new(1000 + 7778, 500, -2000 + 7778));
}

#[test]
fn probe_ring_has_sixteen_points() {
    let pts = probe_points(Vec3i::new(0, 0, 0));
    assert_eq!(pts.len(), 16);
    assert_eq!(pts[0], Vec3i::new(-10000, 5000, 0));
    assert_eq!(pts[11], Vec3i::new(0, 5000, 11000));
}

#[test]
fn player_check_point_leads_along_the_path() {
    let path = dense_track(41);
    let spawn = Vec3i::new(5 * 30000, 0, 0);
    // a bot probes at its own position
    assert_eq!(tower_check_point(&path, spawn, false), spawn);
    // the player's probe point leans 45% toward waypoint nearest+3
    let lead = tower_check_point(&path, spawn, true);
    let target = 8 * 30000;
    let expected_x = spawn.x + (target - spawn.x) * 450 / 1000;
    assert_eq!(lead, Vec3i::new(expected_x, 0, 0));
}

#[test]
fn towers_fire_after_their_start_delay_at_cadence() {
    let mut tower = Tower::new(3, Vec3i::new(50000, 0, 0), 800, kart_core::race::KartColor(2));
    let base = Vec3i::new(0, 0, 0);
    // still inside the start delay
    assert!(tower.tick(base, 500).is_none());
    // delay done (1000 >= 800), cadence crossed (1000 >= 500): fire
    let shot = tower.tick(base, 500).unwrap();
    assert_eq!(shot.owner, 3);
    assert_eq!(shot.spawn_point, Vec3i::new(0, 10000, 0));
    assert_eq!(shot.direction, Vec3i::new(50000, -10000, 0));
    // cadence not crossed yet
    assert!(tower.tick(base, 100).is_none());
}

#[test]
fn bullets_move_along_their_direction() {
    let bullet = Bullet {
        owner: 0,
        direction: Vec3i::new(50000, -10000, 0),
        speed: 2000,
        color: kart_core::race::KartColor(0),
    };
    let mut pos = Vec3i::new(0, 10000, 0);
    // dt = 250 ms: factor = 2000 * 250 / 1000 = 500 milli
    update_bullet(&mut pos, &bullet, 250);
    assert_eq!(pos, Vec3i::new(25000, 5000, 0));
}

#[test]
fn bot_bundles_carry_their_draws() {
    let bundle = BotBundle::new(-250, 999);
    assert_eq!(bundle.bot.random, -250);
    assert_eq!(bundle.tower_placer.min_permille_into_track, 100 + 999 % 800);
    assert!(bundle.bot.target.is_none());
}
