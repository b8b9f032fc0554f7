use kart_core::markers::{classify_marker, marker_index, PlaceSensor};
use kart_core::math::Vec3i;
use kart_core::path::PathManager;
use kart_core::race::WayPoints;

fn dense_track(n: usize) -> PathManager {
    let mut path = PathManager::new();
    for i in 0..n {
        path.insert(i, Vec3i::new(i as i64 * 10000, 0, 0));
    }
    path.build();
    path
}

#[test]
fn marker_index_parses_trailing_digits() {
    assert_eq!(marker_index("quarter.003"), 3);
    assert_eq!(marker_index("finish.000"), 0);
    assert_eq!(marker_index("path.039"), 39);
    assert_eq!(marker_index("place_sensor.120"), 120);
    assert_eq!(marker_index("marker7"), 7);
}

#[test]
fn marker_index_falls_back_to_zero() {
    // no trailing digits at all
    assert_eq!(marker_index("path.start"), 0);
    assert_eq!(marker_index("kart_spawner"), 0);
    assert_eq!(marker_index(""), 0);
    // digits too large for the machine fall back too
    assert_eq!(marker_index("path.99999999999999999999999999"), 0);
    // leading zeros are no overflow
    assert_eq!(marker_index("path.0000000000000000000000007"), 7);
}

#[test]
fn place_sensor_parses_its_index() {
    let sensor = PlaceSensor::new("place_sensor.042");
    assert_eq!(sensor.index, 42);
    let fallback = PlaceSensor::new("place_sensor.x");
    assert_eq!(fallback.index, 0);
}

#[test]
fn classify_marker_finds_roles() {
    let roles = classify_marker("collide_outer.001");
    assert!(roles.collider);
    assert!(!roles.path);
    assert!(!roles.delete);
    let roles = classify_marker("kart_spawner.002");
    assert!(roles.kart_spawner);
    assert!(!roles.place_sensor);
    let roles = classify_marker("place_sensor.002");
    assert!(roles.place_sensor);
    let roles = classify_marker("waypoint_half");
    assert!(roles.waypoint);
}

#[test]
fn waypoint_tier_by_name() {
    assert_eq!(kart_core::markers::waypoint_tier("waypoint_start"), Some(WayPoints::Start));
    assert_eq!(kart_core::markers::waypoint_tier("finish.000"), Some(WayPoints::Finish));
    assert_eq!(kart_core::markers::waypoint_tier("quarter.003"), Some(WayPoints::Quarter));
    assert_eq!(kart_core::markers::waypoint_tier("half_line"), Some(WayPoints::Half));
    assert_eq!(kart_core::markers::waypoint_tier("collide_wall"), None);
}

#[test]
fn closed_loop_next_wraps_to_zero() {
    let path = dense_track(40);
    assert_eq!(path.get_next(39), Some(0));
    assert_eq!(path.get_next(5), Some(6));
    assert_eq!(path.get_next(38), Some(39));
}

#[test]
fn nearest_returns_the_closest_waypoint() {
    let path = dense_track(40);
    // a probe slightly off waypoint 10
    let probe = Vec3i::new(10 * 10000 + 700, 300, -400);
    assert_eq!(path.get_closest_index(probe), Some(10));
}

#[test]
fn nearest_of_empty_path_is_none() {
    let path = PathManager::new();
    assert_eq!(path.get_closest_index(Vec3i::new(0, 0, 0)), None);
}

#[test]
fn next_from_nearest_visits_every_index_once() {
    let n = 40usize;
    let path = dense_track(n);
    let start = path.get_closest_index(Vec3i::new(10 * 10000, 0, 0)).unwrap();
    let mut seen = vec![false; n];
    let mut current = start;
    for _ in 0..n {
        assert!(!seen[current], "index {} visited twice", current);
        seen[current] = true;
        current = path.get_next(current).unwrap();
    }
    assert_eq!(current, start);
    assert!(seen.iter().all(|&s| s));
}

#[test]
fn insert_replaces_and_clear_empties() {
    let mut path = PathManager::new();
    path.insert(7, Vec3i::new(1, 2, 3));
    assert_eq!(path.get(7), Vec3i::new(1, 2, 3));
    path.insert(7, Vec3i::new(4, 5, 6));
    assert_eq!(path.get(7), Vec3i::new(4, 5, 6));
    assert!(path.contains(7));
    path.clear();
    assert!(!path.contains(7));
}

#[test]
fn get_previous_wraps_to_largest_index() {
    let path = dense_track(40);
    assert_eq!(path.get_previous(0), Some(39));
    assert_eq!(path.get_previous(10), Some(9));
}

#[test]
fn path_samples_arrive_through_marker_names() {
    let mut path = PathManager::new();
    kart_core::markers::add_path_sample(&mut path, "path.003", Vec3i::new(30, 0, 0));
    kart_core::markers::add_path_sample(&mut path, "path.001", Vec3i::new(10, 0, 0));
    assert!(path.contains(3));
    assert!(path.contains(1));
    assert_eq!(path.get(3), Vec3i::new(30, 0, 0));
    // a malformed sample name still lands a point, at the fallback index
    kart_core::markers::add_path_sample(&mut path, "nodigits", Vec3i::new(99, 99, 99));
    assert!(path.contains(0));
    assert_eq!(path.get(0), Vec3i::new(99, 99, 99));
}
