use kart_core::controller::{
    apply_gravity, apply_movement, apply_movement_damping, handle_fallen, resolve_manifold,
    update_grounded, ContactManifold, ControllerGravity, LastGrounded, MaxSlopeAngle,
    MovementAction, MovementBundle, FALL_RECOVERY_LIFT, GRAVITY_FORCE, MAX_SLOPE_ANGLE_MRAD,
};
use kart_core::math::Vec3i;
use kart_core::path::PathManager;

fn dense_track(n: usize) -> PathManager {
    let mut path = PathManager::new();
    for i in 0..n {
        path.insert(i, Vec3i::new(i as i64 * 30000, 0, 0));
    }
    path.build();
    path
}

#[test]
fn gas_accelerates_along_the_forward_axis() {
    let bundle = MovementBundle::default();
    let mut velocity = Vec3i::new(0, -500, 0);
    let mut braking = true;
    // facing +x, one tenth of a second
    let yaw = apply_movement(
        &mut velocity,
        &mut braking,
        Vec3i::new(1000, 0, 0),
        &bundle,
        MovementAction::Gas,
        100,
    );
    // 1000 * 27000 * 100 / 1_000_000 = 2700 milli-units/s gained
    assert_eq!(velocity, Vec3i::new(2700, -500, 0));
    assert!(!braking);
    assert_eq!(yaw, 0);
}

#[test]
fn brake_decelerates_at_a_quarter_strength() {
    let bundle = MovementBundle::default();
    let mut velocity = Vec3i::new(2700, 0, 0);
    let mut braking = false;
    apply_movement(
        &mut velocity,
        &mut braking,
        Vec3i::new(1000, 0, 0),
        &bundle,
        MovementAction::Brake,
        100,
    );
    // strength 27000 * 250 / 1000 = 6750; delta 675
    assert_eq!(velocity, Vec3i::new(2700 - 675, 0, 0));
    assert!(braking);
}

#[test]
fn turn_scales_with_speed() {
    let bundle = MovementBundle::default();
    let mut velocity = Vec3i::new(3000, 0, 4000);
    let mut braking = false;
    let yaw = apply_movement(
        &mut velocity,
        &mut braking,
        Vec3i::new(1000, 0, 0),
        &bundle,
        MovementAction::Turn(1000),
        100,
    );
    // speed 5000, rate 70 * 100 / 1000 = 7: yaw = 1000 * 5000 * 7 / 1e6 = 35
    assert_eq!(yaw, 35);
    assert_eq!(velocity, Vec3i::new(3000, 0, 4000));
    // standing still, no turn at all
    let mut still = Vec3i::new(0, 0, 0);
    let yaw = apply_movement(
        &mut still,
        &mut braking,
        Vec3i::new(1000, 0, 0),
        &bundle,
        MovementAction::Turn(1000),
        100,
    );
    assert_eq!(yaw, 0);
}

#[test]
fn damping_slows_the_ground_plane_only() {
    let mut velocity = Vec3i::new(1000, -2000, -1000);
    apply_movement_damping(&mut velocity, 100);
    assert_eq!(velocity, Vec3i::new(900, -2000, -900));
}

#[test]
fn gravity_pulls_down() {
    let mut velocity = Vec3i::new(100, 0, 0);
    let gravity = ControllerGravity(Vec3i::new(0, -GRAVITY_FORCE, 0));
    apply_gravity(&mut velocity, &gravity, 1000);
    assert_eq!(velocity, Vec3i::new(100, -GRAVITY_FORCE, 0));
}

#[test]
fn grounded_needs_a_walkable_hit() {
    let limit = Some(MaxSlopeAngle(MAX_SLOPE_ANGLE_MRAD));
    let here = Vec3i::new(5, 6, 7);

    // a steep and a gentle hit: grounded, and the fall record clears
    let mut state = Some(LastGrounded { translation: here, delta_ms: 500 });
    assert!(update_grounded(&mut state, &vec![1600, 800], limit, here));
    assert!(state.is_none());

    // only steep hits: airborne, the clock starts at the current position
    let mut state = None;
    assert!(!update_grounded(&mut state, &vec![1600, 2000], limit, here));
    assert_eq!(state, Some(LastGrounded { translation: here, delta_ms: 0 }));

    // an existing record is kept, not restarted
    let old = Some(LastGrounded { translation: Vec3i::new(0, 0, 0), delta_ms: 900 });
    let mut state = old;
    assert!(!update_grounded(&mut state, &vec![], limit, here));
    assert_eq!(state, old);
}

#[test]
fn fall_recovery_teleports_past_the_nearest_waypoint() {
    let path = dense_track(40);
    let fell_at = Vec3i::new(10 * 30000 + 100, -5000, 0);
    let mut translation = Vec3i::new(123, -9999, 456);
    let mut state = Some(LastGrounded { translation: fell_at, delta_ms: 1500 });

    // not yet: the clock only accumulates
    assert!(!handle_fallen(&mut translation, &mut state, &path, 400));
    assert_eq!(state.unwrap().delta_ms, 1900);
    assert_eq!(translation, Vec3i::new(123, -9999, 456));

    // past two seconds: teleport to the waypoint after the nearest, lifted
    assert!(handle_fallen(&mut translation, &mut state, &path, 200));
    assert!(state.is_none());
    assert_eq!(translation, Vec3i::new(11 * 30000, FALL_RECOVERY_LIFT, 0));
}

#[test]
fn penetrating_contacts_push_the_body_out() {
    let mut position = Vec3i::new(0, 0, 0);
    let mut velocity = Vec3i::new(500, -300, 0);
    let manifold = ContactManifold {
        normal: Vec3i::new(0, 1000, 0),
        penetrations: vec![250, -50, 100],
        normal_angle_from_up_mrad: 0,
    };
    resolve_manifold(
        &mut position,
        &mut velocity,
        &manifold,
        Some(MaxSlopeAngle(MAX_SLOPE_ANGLE_MRAD)),
    );
    // only the positive penetrations push: 250 + 100
    assert_eq!(position, Vec3i::new(0, 350, 0));
    // a walkable surface clamps falling speed to zero
    assert_eq!(velocity, Vec3i::new(500, 0, 0));
}

#[test]
fn steep_contacts_leave_fall_speed_alone() {
    let mut position = Vec3i::new(0, 0, 0);
    let mut velocity = Vec3i::new(0, -300, 0);
    let manifold = ContactManifold {
        normal: Vec3i::new(1000, 0, 0),
        penetrations: vec![40],
        normal_angle_from_up_mrad: 1570,
    };
    resolve_manifold(
        &mut position,
        &mut velocity,
        &manifold,
        Some(MaxSlopeAngle(MAX_SLOPE_ANGLE_MRAD)),
    );
    assert_eq!(position, Vec3i::new(40, 0, 0));
    assert_eq!(velocity, Vec3i::new(0, -300, 0));
}
