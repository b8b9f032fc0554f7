//! The kinematic character controller: movement intents applied to velocity,
//! gravity, frame-time damping, grounded-state tracking with fall recovery,
//! and the manual push-out that resolves penetration against track geometry.
//!
//! All quantities are fixed-point: positions and velocities in milli-units,
//! directions as milli-unit vectors (a unit vector has length about 1000),
//! angles in milliradians, time in milliseconds. Division is taken on the
//! magnitude, so scaling rounds toward zero exactly as the contracts state.

use vstd::prelude::*;

use crate::math::Vec3i;
use crate::path::PathManager;

verus! {

/// Base forward acceleration, milli-units per second squared.
pub const BASE_ACCELERATION: i64 = 27000;

/// Brake strength as a milli-fraction of the acceleration.
pub const BASE_DECELERATION: i64 = 250;

/// Damping constant of the movement bundle, milli.
pub const MOVEMENT_DAMPING: i64 = 59000;

/// Yaw response per unit of speed, milli-radians per milli-unit.
pub const ROTATION_DAMPING: i64 = 70;

/// Steepest walkable slope: the angle between a contact normal and straight
/// up, in milliradians (0.35 of a half turn).
pub const MAX_SLOPE_ANGLE_MRAD: u32 = 1100;

/// Downward gravity acceleration, milli-units per second squared.
pub const GRAVITY_FORCE: i64 = 14715;

/// Milliseconds a vehicle may stay airborne before fall recovery teleports
/// it back over the track.
pub const FALL_RECOVERY_MS: u64 = 2000;

/// Vertical offset of the fall-recovery teleport target, milli-units.
pub const FALL_RECOVERY_LIFT: i64 = 3000;

/// Bound on the magnitudes fed to the fixed-point velocity updates.
pub const SPEED_LIMIT: i64 = 0x1_0000_0000;

/// A discrete movement intent.
#[derive(Clone, Copy, Debug, PartialEq, Eq, Structural)]
pub enum MovementAction {
    Gas,
    Brake,
    /// Signed turn input, milli (full left is 1000, full right is -1000).
    Turn(i64),
}

/// A movement intent aimed at one vehicle.
#[derive(Clone, Copy, Debug, PartialEq, Eq, Structural)]
pub struct MovementEvent {
    pub entity: usize,
    pub action: MovementAction,
}

/// The acceleration used for character movement (milli-units/s^2).
#[derive(Clone, Copy, Debug, PartialEq, Eq, Structural)]
pub struct MovementAcceleration(pub i64);

/// The deceleration used for braking, as a milli-fraction of acceleration.
#[derive(Clone, Copy, Debug, PartialEq, Eq, Structural)]
pub struct MovementDeceleration(pub i64);

/// The damping factor used for slowing down movement (milli).
#[derive(Clone, Copy, Debug, PartialEq, Eq, Structural)]
pub struct MovementDampingFactor(pub i64);

/// The damping factor used for slowing down rotation (milli).
#[derive(Clone, Copy, Debug, PartialEq, Eq, Structural)]
pub struct RotationDampingFactor(pub i64);

/// The maximum walkable slope angle, milliradians from straight up.
#[derive(Clone, Copy, Debug, PartialEq, Eq, Structural)]
pub struct MaxSlopeAngle(pub u32);

/// The gravitational acceleration applied to a controller (milli-units/s^2,
/// pointing down).
#[derive(Clone, Copy, Debug, PartialEq, Eq, Structural)]
pub struct ControllerGravity(pub Vec3i);

/// The movement tuning of one controller.
#[derive(Clone, Copy, Debug, PartialEq, Eq, Structural)]
pub struct MovementBundle {
    pub acceleration: MovementAcceleration,
    pub deceleration: MovementDeceleration,
    pub damping: MovementDampingFactor,
    pub rotation_damping: RotationDampingFactor,
    pub max_slope_angle: MaxSlopeAngle,
}

impl MovementBundle {
    pub open spec fn wf(self) -> bool {
        &&& 0 <= self.acceleration.0 <= SPEED_LIMIT
        &&& 0 <= self.deceleration.0 <= 1000
        &&& 0 <= self.rotation_damping.0 <= 1000
    }

    pub fn new(
        acceleration: i64,
        deceleration: i64,
        damping: i64,
        rotation_damping: i64,
        max_slope_angle: u32,
    ) -> (r: MovementBundle)
        ensures
            r.acceleration.0 == acceleration,
            r.deceleration.0 == deceleration,
            r.damping.0 == damping,
            r.rotation_damping.0 == rotation_damping,
            r.max_slope_angle.0 == max_slope_angle,
    {
        MovementBundle {
            acceleration: MovementAcceleration(acceleration),
            deceleration: MovementDeceleration(deceleration),
            damping: MovementDampingFactor(damping),
            rotation_damping: RotationDampingFactor(rotation_damping),
            max_slope_angle: MaxSlopeAngle(max_slope_angle),
        }
    }

}

impl Default for MovementBundle {
    /// The stock kart tuning.
    fn default() -> (r: MovementBundle)
        ensures
            r.wf(),
            r.acceleration.0 == BASE_ACCELERATION,
            r.deceleration.0 == BASE_DECELERATION,
            r.damping.0 == MOVEMENT_DAMPING,
            r.rotation_damping.0 == ROTATION_DAMPING,
            r.max_slope_angle.0 == MAX_SLOPE_ANGLE_MRAD,
    {
        MovementBundle::new(
            BASE_ACCELERATION,
            BASE_DECELERATION,
            MOVEMENT_DAMPING,
            ROTATION_DAMPING,
            MAX_SLOPE_ANGLE_MRAD,
        )
    }
}

/// Where and for how long a controller has been off the ground.
#[derive(Clone, Copy, Debug, PartialEq, Eq, Structural)]
pub struct LastGrounded {
    /// Position at the moment ground contact was lost.
    pub translation: Vec3i,
    /// Milliseconds spent airborne since.
    pub delta_ms: u64,
}

/// `a * b * c / 1_000_000`, rounding the magnitude down, carrying `a`'s
/// sign: the fixed-point product of a signed milli factor with a milli rate
/// and a millisecond interval.
pub open spec fn scale3_milli(a: int, b: int, c: int) -> int {
    if a >= 0 {
        a * b * c / 1000000
    } else {
        -((-a) * b * c / 1000000)
    }
}

/// Executable form of [`scale3_milli`], exact.
fn scale3_milli_exec(a: i64, b: i64, c: i64) -> (r: i64)
    requires
        -1000000 <= a <= 1000000,
        0 <= b <= 2 * SPEED_LIMIT,
        0 <= c <= 1000000,
    ensures
        r == scale3_milli(a as int, b as int, c as int),
        -2000000 * SPEED_LIMIT <= r <= 2000000 * SPEED_LIMIT,
{
    let mag: i128 = if a >= 0 {
        a as i128
    } else {
        -(a as i128)
    };
    proof {
        assert(0 <= mag * (b as i128) && mag * (b as i128) <= 1000000 * (2 * SPEED_LIMIT) && 0
            <= mag * (b as i128) * (c as i128) && mag * (b as i128) * (c as i128) <= 1000000 * (2
            * SPEED_LIMIT) * 1000000) by (nonlinear_arith)
            requires
                0 <= mag <= 1000000,
                0 <= b <= 2 * SPEED_LIMIT,
                0 <= c <= 1000000,
        ;
    }
    let product: i128 = mag * (b as i128) * (c as i128);
    let scaled: i128 = product / 1000000;
    proof {
        vstd::arithmetic::div_mod::lemma_div_is_ordered(
            product as int,
            1000000int * (2 * SPEED_LIMIT) * 1000000,
            1000000,
        );
        assert(1000000int * (2 * SPEED_LIMIT) * 1000000 / 1000000 == 2000000 * SPEED_LIMIT);
    }
    if a >= 0 {
        scaled as i64
    } else {
        -(scaled as i64)
    }
}

/// Apply one movement intent. Gas and Brake push the velocity along the
/// vehicle's forward axis in the ground plane; Turn yields the yaw rotation
/// to apply, proportional to current speed so the turning radius shrinks at
/// low speed. The returned yaw delta is in milliradians; `braking` reports
/// whether the vehicle is now braking.
pub fn apply_movement(
    velocity: &mut Vec3i,
    braking: &mut bool,
    forward: Vec3i,
    bundle: &MovementBundle,
    action: MovementAction,
    delta_ms: u64,
) -> (yaw_delta_mrad: i64)
    requires
        bundle.wf(),
        -1000 <= forward.x <= 1000,
        -1000 <= forward.z <= 1000,
        -SPEED_LIMIT <= old(velocity).x <= SPEED_LIMIT,
        -SPEED_LIMIT <= old(velocity).y <= SPEED_LIMIT,
        -SPEED_LIMIT <= old(velocity).z <= SPEED_LIMIT,
        delta_ms <= 1000000,
    ensures
        final(velocity).y == old(velocity).y,
        match action {
            MovementAction::Gas => {
                &&& final(velocity).x == old(velocity).x + scale3_milli(
                    forward.x as int,
                    bundle.acceleration.0 as int,
                    delta_ms as int,
                )
                &&& final(velocity).z == old(velocity).z + scale3_milli(
                    forward.z as int,
                    bundle.acceleration.0 as int,
                    delta_ms as int,
                )
                &&& !*final(braking)
                &&& yaw_delta_mrad == 0
            },
            MovementAction::Brake => {
                &&& final(velocity).x == old(velocity).x - scale3_milli(
                    forward.x as int,
                    bundle.acceleration.0 * bundle.deceleration.0 / 1000,
                    delta_ms as int,
                )
                &&& final(velocity).z == old(velocity).z - scale3_milli(
                    forward.z as int,
                    bundle.acceleration.0 * bundle.deceleration.0 / 1000,
                    delta_ms as int,
                )
                &&& *final(braking)
                &&& yaw_delta_mrad == 0
            },
            MovementAction::Turn(direction) => {
                &&& *final(velocity) == *old(velocity)
                &&& *final(braking) == *old(braking)
                &&& -1000000 <= direction <= 1000000 ==> yaw_delta_mrad == scale3_milli(
                    direction as int,
                    speed_of(*old(velocity)),
                    bundle.rotation_damping.0 * delta_ms / 1000,
                )
            },
        },
{
    match action {
        MovementAction::Gas => {
            *braking = false;
            let dx = scale3_milli_exec(forward.x, bundle.acceleration.0, delta_ms as i64);
            let dz = scale3_milli_exec(forward.z, bundle.acceleration.0, delta_ms as i64);
            velocity.x = velocity.x + dx;
            velocity.z = velocity.z + dz;
            0
        },
        MovementAction::Brake => {
            *braking = true;
            proof {
                assert(0 <= bundle.acceleration.0 * bundle.deceleration.0 <= SPEED_LIMIT * 1000)
                    by (nonlinear_arith)
                    requires
                        0 <= bundle.acceleration.0 <= SPEED_LIMIT,
                        0 <= bundle.deceleration.0 <= 1000,
                ;
                vstd::arithmetic::div_mod::lemma_div_is_ordered(
                    bundle.acceleration.0 * bundle.deceleration.0,
                    SPEED_LIMIT * 1000,
                    1000,
                );
            }
            let strength = bundle.acceleration.0 * bundle.deceleration.0 / 1000;
            let dx = scale3_milli_exec(forward.x, strength, delta_ms as i64);
            let dz = scale3_milli_exec(forward.z, strength, delta_ms as i64);
            velocity.x = velocity.x - dx;
            velocity.z = velocity.z - dz;
            0
        },
        MovementAction::Turn(direction) => {
            let direction = if direction > 1000000 {
                1000000
            } else if direction < -1000000 {
                -1000000
            } else {
                direction
            };
            let speed = speed_exec(velocity);
            proof {
                assert(0 <= bundle.rotation_damping.0 * (delta_ms as int) <= 1000 * 1000000)
                    by (nonlinear_arith)
                    requires
                        0 <= bundle.rotation_damping.0 <= 1000,
                        0 <= delta_ms <= 1000000,
                ;
                vstd::arithmetic::div_mod::lemma_div_is_ordered(
                    bundle.rotation_damping.0 * (delta_ms as int),
                    1000int * 1000000,
                    1000,
                );
            }
            let rate = bundle.rotation_damping.0 * (delta_ms as i64) / 1000;
            scale3_milli_exec(direction, speed, rate)
        },
    }
}

/// The length of a velocity vector, milli-units per second, rounded down.
pub open spec fn speed_of(v: Vec3i) -> int {
    let n = v.x * v.x + v.y * v.y + v.z * v.z;
    choose|r: int| crate::math::is_isqrt(n, r)
}

/// Compute the speed; the integer square root makes the choice in
/// [`speed_of`] unique.
fn speed_exec(v: &Vec3i) -> (r: i64)
    requires
        -SPEED_LIMIT <= v.x <= SPEED_LIMIT,
        -SPEED_LIMIT <= v.y <= SPEED_LIMIT,
        -SPEED_LIMIT <= v.z <= SPEED_LIMIT,
    ensures
        r == speed_of(*v),
        0 <= r <= 2 * SPEED_LIMIT,
{
    proof {
        crate::math::lemma_square_le(v.x as int, SPEED_LIMIT as int);
        crate::math::lemma_square_le(v.y as int, SPEED_LIMIT as int);
        crate::math::lemma_square_le(v.z as int, SPEED_LIMIT as int);
    }
    let n: i128 = (v.x as i128) * (v.x as i128) + (v.y as i128) * (v.y as i128) + (v.z as i128) * (
    v.z as i128);
    let root = crate::math::isqrt(n as u128);
    proof {
        let n_int = v.x * v.x + v.y * v.y + v.z * v.z;
        assert(crate::math::is_isqrt(n_int, root as int));
        assert(root as int <= 2 * SPEED_LIMIT) by {
            if root as int > 2 * SPEED_LIMIT {
                crate::math::lemma_square_le(2 * SPEED_LIMIT as int + 1, root as int);
                assert((2 * SPEED_LIMIT as int + 1) * (2 * SPEED_LIMIT as int + 1) > 3 * (
                SPEED_LIMIT as int) * (SPEED_LIMIT as int)) by (nonlinear_arith);
            }
        }
        let c = choose|r: int| crate::math::is_isqrt(n_int, r);
        assert(crate::math::is_isqrt(n_int, c));
        if c < root as int {
            crate::math::lemma_square_le(c + 1, root as int);
        }
        if (root as int) < c {
            crate::math::lemma_square_le(root as int + 1, c);
        }
        assert(speed_of(*v) == root as int);
    }
    root as i64
}

/// Apply gravity to the velocity: `v += g * dt`, componentwise fixed point.
pub fn apply_gravity(velocity: &mut Vec3i, gravity: &ControllerGravity, delta_ms: u64)
    requires
        -SPEED_LIMIT <= old(velocity).x <= SPEED_LIMIT,
        -SPEED_LIMIT <= old(velocity).y <= SPEED_LIMIT,
        -SPEED_LIMIT <= old(velocity).z <= SPEED_LIMIT,
        -1000000 <= gravity.0.x <= 1000000,
        -1000000 <= gravity.0.y <= 1000000,
        -1000000 <= gravity.0.z <= 1000000,
        delta_ms <= 1000000,
    ensures
        final(velocity).x == old(velocity).x + scale3_milli(
            gravity.0.x as int,
            delta_ms as int,
            1000,
        ),
        final(velocity).y == old(velocity).y + scale3_milli(
            gravity.0.y as int,
            delta_ms as int,
            1000,
        ),
        final(velocity).z == old(velocity).z + scale3_milli(
            gravity.0.z as int,
            delta_ms as int,
            1000,
        ),
{
    let dx = scale3_milli_exec(gravity.0.x, delta_ms as i64, 1000);
    let dy = scale3_milli_exec(gravity.0.y, delta_ms as i64, 1000);
    let dz = scale3_milli_exec(gravity.0.z, delta_ms as i64, 1000);
    velocity.x = velocity.x + dx;
    velocity.y = velocity.y + dy;
    velocity.z = velocity.z + dz;
}

/// `v * (1000 - dt) / 1000`, rounding the magnitude down: one tick of
/// frame-time damping.
pub open spec fn damped(v: int, delta_ms: int) -> int {
    if v >= 0 {
        v * (1000 - delta_ms) / 1000
    } else {
        -((-v) * (1000 - delta_ms) / 1000)
    }
}

/// Slow horizontal movement by the frame-time factor `1 - dt`, leaving the
/// vertical velocity (and so gravity) untouched.
pub fn apply_movement_damping(velocity: &mut Vec3i, delta_ms: u64)
    requires
        -SPEED_LIMIT <= old(velocity).x <= SPEED_LIMIT,
        -SPEED_LIMIT <= old(velocity).z <= SPEED_LIMIT,
        delta_ms <= 1000,
    ensures
        final(velocity).x == damped(old(velocity).x as int, delta_ms as int),
        final(velocity).y == old(velocity).y,
        final(velocity).z == damped(old(velocity).z as int, delta_ms as int),
{
    let factor = 1000 - delta_ms as i64;
    velocity.x = damp_component(velocity.x, factor);
    velocity.z = damp_component(velocity.z, factor);
}

fn damp_component(v: i64, factor: i64) -> (r: i64)
    requires
        -SPEED_LIMIT <= v <= SPEED_LIMIT,
        0 <= factor <= 1000,
    ensures
        r == damped(v as int, 1000 - factor),
{
    proof {
        let mag: int = if v >= 0 { v as int } else { -(v as int) };
        assert(0 <= mag * (factor as int)
            <= SPEED_LIMIT * 1000) by (nonlinear_arith)
            requires
                0 <= mag <= SPEED_LIMIT,
                0 <= factor <= 1000,
        ;
    }
    if v >= 0 {
        ((v as i128) * (factor as i128) / 1000) as i64
    } else {
        -((-(v as i128)) * (factor as i128) / 1000) as i64
    }
}

/// Whether any ground hit's surface is gentle enough to stand on: with a
/// slope limit, some hit normal within the limit; without one, any hit.
pub open spec fn grounded_spec(hit_angles_mrad: Seq<u32>, max_slope: Option<MaxSlopeAngle>) -> bool {
    match max_slope {
        Some(limit) => exists|i: int|
            0 <= i < hit_angles_mrad.len() && #[trigger] hit_angles_mrad[i] <= limit.0,
        None => hit_angles_mrad.len() > 0,
    }
}

/// Update the grounded status from this tick's downward shape-cast hits,
/// given each hit normal's angle from straight up. A grounded vehicle
/// forgets any airborne record; one that just left the ground starts the
/// fall clock at its current position.
pub fn update_grounded(
    last_grounded: &mut Option<LastGrounded>,
    hit_angles_mrad: &Vec<u32>,
    max_slope: Option<MaxSlopeAngle>,
    translation: Vec3i,
) -> (grounded: bool)
    ensures
        grounded == grounded_spec(hit_angles_mrad@, max_slope),
        grounded ==> *final(last_grounded) is None,
        !grounded ==> *final(last_grounded) == match *old(last_grounded) {
            Some(lg) => Some(lg),
            None => Some(LastGrounded { translation, delta_ms: 0u64 }),
        },
{
    let mut grounded = false;
    let mut i: usize = 0;
    while i < hit_angles_mrad.len()
        invariant
            i <= hit_angles_mrad@.len(),
            grounded == match max_slope {
                Some(limit) => exists|j: int|
                    0 <= j < i && #[trigger] hit_angles_mrad@[j] <= limit.0,
                None => i > 0,
            },
        decreases hit_angles_mrad@.len() - i,
    {
        match max_slope {
            Some(limit) => {
                if hit_angles_mrad[i] <= limit.0 {
                    grounded = true;
                }
            },
            None => {
                grounded = true;
            },
        }
        i = i + 1;
    }
    if grounded {
        *last_grounded = None;
    } else {
        if last_grounded.is_none() {
            *last_grounded = Some(LastGrounded { translation, delta_ms: 0 });
        }
    }
    grounded
}

/// Where fall recovery puts a vehicle that fell at `fell_at`: the path
/// waypoint after the nearest one, lifted vertically; or `fell_at` itself
/// when the path cannot answer.
pub open spec fn fall_recovery_target(path: PathManager, fell_at: Vec3i) -> Vec3i {
    match path.nearest_index_of(fell_at) {
        Some(i) => match path.next_spec(i) {
            Some(j) => {
                let p = path.map()[j];
                Vec3i { x: p.x, y: (p.y + FALL_RECOVERY_LIFT) as i64, z: p.z }
            },
            None => fell_at,
        },
        None => fell_at,
    }
}

/// Advance the fall clock and, once it exceeds the recovery timeout,
/// teleport the vehicle to the fall-recovery target derived from where it
/// last touched ground. Returns whether recovery fired (the airborne record
/// is then dropped).
pub fn handle_fallen(
    translation: &mut Vec3i,
    last_grounded: &mut Option<LastGrounded>,
    path: &PathManager,
    delta_ms: u64,
) -> (recovered: bool)
    requires
        path.wf(),
        *old(last_grounded) is Some,
        (*old(last_grounded))->0.translation.wf(),
        (*old(last_grounded))->0.delta_ms + delta_ms <= u64::MAX,
    ensures
        recovered == ((*old(last_grounded))->0.delta_ms + delta_ms > FALL_RECOVERY_MS),
        !recovered ==> {
            &&& *final(translation) == *old(translation)
            &&& *final(last_grounded) == Some(
                LastGrounded {
                    translation: (*old(last_grounded))->0.translation,
                    delta_ms: ((*old(last_grounded))->0.delta_ms + delta_ms) as u64,
                },
            )
        },
        recovered ==> {
            &&& *final(last_grounded) is None
            &&& *final(translation) == fall_recovery_target(
                *path,
                (*old(last_grounded))->0.translation,
            )
        },
{
    let lg = match *last_grounded {
        Some(lg) => lg,
        None => {
            proof {
                assert(false);
            }
            LastGrounded { translation: Vec3i { x: 0, y: 0, z: 0 }, delta_ms: 0 }
        },
    };
    let delta = lg.delta_ms + delta_ms;
    if delta > FALL_RECOVERY_MS {
        let target = match path.get_closest_index(lg.translation) {
            Some(i) => match path.get_next(i) {
                Some(j) => {
                    let p = path.get(j);
                    Vec3i { x: p.x, y: p.y + FALL_RECOVERY_LIFT, z: p.z }
                },
                None => lg.translation,
            },
            None => lg.translation,
        };
        *translation = target;
        *last_grounded = None;
        true
    } else {
        *last_grounded = Some(LastGrounded { translation: lg.translation, delta_ms: delta });
        false
    }
}

/// One contact manifold touching a kinematic controller, as the physics
/// engine reports it: the shared contact normal pointing away from the
/// obstacle (a milli-unit vector), each contact's penetration depth in
/// milli-units, and the normal's angle from straight up in milliradians.
#[derive(Clone, Debug)]
pub struct ContactManifold {
    pub normal: Vec3i,
    pub penetrations: Vec<i64>,
    pub normal_angle_from_up_mrad: u32,
}

impl ContactManifold {
    pub open spec fn wf(self) -> bool {
        &&& -1000 <= self.normal.x <= 1000
        &&& -1000 <= self.normal.y <= 1000
        &&& -1000 <= self.normal.z <= 1000
        &&& self.penetrations@.len() <= 1000
        &&& forall|i: int|
            0 <= i < self.penetrations@.len() ==> -1000000 <= #[trigger] self.penetrations@[i]
                <= 1000000
    }
}

/// `n * pen / 1000`, rounding the magnitude down, carrying `n`'s sign: one
/// contact's push along one axis.
pub open spec fn push_component(n: int, pen: int) -> int {
    if n >= 0 {
        n * pen / 1000
    } else {
        -((-n) * pen / 1000)
    }
}

fn push_component_exec(n: i64, pen: i64) -> (r: i64)
    requires
        -1000 <= n <= 1000,
        0 <= pen <= 1000000,
    ensures
        r == push_component(n as int, pen as int),
        -1000000 <= r <= 1000000,
{
    proof {
        let mag: int = if n >= 0 { n as int } else { -(n as int) };
        assert(0 <= mag * pen <= 1000 * 1000000) by (nonlinear_arith)
            requires
                0 <= mag <= 1000,
                0 <= pen <= 1000000,
        ;
        vstd::arithmetic::div_mod::lemma_div_is_ordered(mag * pen, 1000int * 1000000, 1000);
    }
    if n >= 0 {
        n * pen / 1000
    } else {
        -((-n) * pen / 1000)
    }
}

/// Where the body ends up after the manifold's penetrating contacts have
/// each pushed it along the contact normal by their penetration depth.
pub open spec fn pushed_out(pos: Vec3i, normal: Vec3i, pens: Seq<i64>) -> Vec3i
    decreases pens.len(),
{
    if pens.len() == 0 {
        pos
    } else {
        let p = pushed_out(pos, normal, pens.drop_last());
        if pens.last() > 0 {
            Vec3i {
                x: (p.x + push_component(normal.x as int, pens.last() as int)) as i64,
                y: (p.y + push_component(normal.y as int, pens.last() as int)) as i64,
                z: (p.z + push_component(normal.z as int, pens.last() as int)) as i64,
            }
        } else {
            p
        }
    }
}

/// The push stays within a widening envelope around the start position.
proof fn lemma_pushed_out_bound(pos: Vec3i, normal: Vec3i, pens: Seq<i64>, m: Vec3i)
    requires
        pos.wf(),
        forall|i: int| 0 <= i < pens.len() ==> -1000000 <= #[trigger] pens[i] <= 1000000,
        -1000 <= normal.x <= 1000,
        -1000 <= normal.y <= 1000,
        -1000 <= normal.z <= 1000,
        m == pushed_out(pos, normal, pens),
    ensures
        -crate::math::COORD_LIMIT - pens.len() * 1000000 <= m.x <= crate::math::COORD_LIMIT
            + pens.len() * 1000000,
        -crate::math::COORD_LIMIT - pens.len() * 1000000 <= m.y <= crate::math::COORD_LIMIT
            + pens.len() * 1000000,
        -crate::math::COORD_LIMIT - pens.len() * 1000000 <= m.z <= crate::math::COORD_LIMIT
            + pens.len() * 1000000,
    decreases pens.len(),
{
    if pens.len() > 0 {
        let p = pushed_out(pos, normal, pens.drop_last());
        lemma_pushed_out_bound(pos, normal, pens.drop_last(), p);
        if pens.last() > 0 {
            let mag_x: int = if normal.x >= 0 { normal.x as int } else { -(normal.x as int) };
            let mag_y: int = if normal.y >= 0 { normal.y as int } else { -(normal.y as int) };
            let mag_z: int = if normal.z >= 0 { normal.z as int } else { -(normal.z as int) };
            assert(0 <= mag_x * pens.last() <= 1000 * 1000000 && 0 <= mag_y * pens.last() <= 1000
                * 1000000 && 0 <= mag_z * pens.last() <= 1000 * 1000000) by (nonlinear_arith)
                requires
                    0 <= mag_x <= 1000,
                    0 <= mag_y <= 1000,
                    0 <= mag_z <= 1000,
                    0 < pens.last() <= 1000000,
            ;
            vstd::arithmetic::div_mod::lemma_div_is_ordered(
                mag_x * pens.last(),
                1000int * 1000000,
                1000,
            );
            vstd::arithmetic::div_mod::lemma_div_is_ordered(
                mag_y * pens.last(),
                1000int * 1000000,
                1000,
            );
            vstd::arithmetic::div_mod::lemma_div_is_ordered(
                mag_z * pens.last(),
                1000int * 1000000,
                1000,
            );
            vstd::arithmetic::div_mod::lemma_div_pos_is_pos(mag_x * pens.last(), 1000);
            vstd::arithmetic::div_mod::lemma_div_pos_is_pos(mag_y * pens.last(), 1000);
            vstd::arithmetic::div_mod::lemma_div_pos_is_pos(mag_z * pens.last(), 1000);
        }
    }
}

/// Resolve one contact manifold against a kinematic body: push the position
/// along the contact normal by every positive penetration depth, and, when
/// the surface is gentle enough to walk on and the body is falling, clamp
/// the vertical velocity to non-negative so fall speed cannot accumulate on
/// a walkable slope.
pub fn resolve_manifold(
    position: &mut Vec3i,
    velocity: &mut Vec3i,
    manifold: &ContactManifold,
    max_slope: Option<MaxSlopeAngle>,
)
    requires
        old(position).wf(),
        manifold.wf(),
    ensures
        *final(position) == pushed_out(*old(position), manifold.normal, manifold.penetrations@),
        final(velocity).x == old(velocity).x,
        final(velocity).z == old(velocity).z,
        final(velocity).y == if walkable(*manifold, max_slope) && old(velocity).y < 0 {
            0int
        } else {
            old(velocity).y as int
        },
{
    let n = manifold.penetrations.len();
    let mut i: usize = 0;
    while i < n
        invariant
            n == manifold.penetrations@.len(),
            i <= n,
            manifold.wf(),
            old(position).wf(),
            *position == pushed_out(
                *old(position),
                manifold.normal,
                manifold.penetrations@.subrange(0, i as int),
            ),
        decreases n - i,
    {
        let pen = manifold.penetrations[i];
        proof {
            lemma_pushed_out_bound(
                *old(position),
                manifold.normal,
                manifold.penetrations@.subrange(0, i as int),
                *position,
            );
            assert(manifold.penetrations@.subrange(0, i + 1int).drop_last()
                =~= manifold.penetrations@.subrange(0, i as int));
        }
        if pen > 0 {
            let dx = push_component_exec(manifold.normal.x, pen);
            let dy = push_component_exec(manifold.normal.y, pen);
            let dz = push_component_exec(manifold.normal.z, pen);
            position.x = position.x + dx;
            position.y = position.y + dy;
            position.z = position.z + dz;
        }
        i = i + 1;
    }
    proof {
        assert(manifold.penetrations@.subrange(0, n as int) =~= manifold.penetrations@);
    }
    let is_walkable = match max_slope {
        Some(limit) => manifold.normal_angle_from_up_mrad <= limit.0,
        None => false,
    };
    if is_walkable && velocity.y < 0 {
        velocity.y = 0;
    }
}

/// Whether the manifold's surface is within the walkable slope limit.
pub open spec fn walkable(manifold: ContactManifold, max_slope: Option<MaxSlopeAngle>) -> bool {
    match max_slope {
        Some(limit) => manifold.normal_angle_from_up_mrad <= limit.0,
        None => false,
    }
}

} // verus!
