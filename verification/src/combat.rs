//! Combat resolution: what a projectile does when it strikes a vehicle or
//! the track, how damage lands on a vehicle behind its invulnerability
//! window, and the knockback a hit imparts.

use vstd::prelude::*;

use crate::health::{health_after_subtract, Invulnerability, INVULNERABILITY_MS};
use crate::math::{is_isqrt, isqrt, isqrt_spec, lemma_isqrt_spec, lemma_square_le, mul_div_exec,
    mul_div_signed, Vec3i};
use crate::race::{Kart, KartColor};
use crate::tower::Bullet;

verus! {

/// Hit points one projectile takes off.
pub const BULLET_DAMAGE: usize = 1;

/// Particle count of a projectile impact burst.
pub const BULLET_HIT_COUNT: usize = 4;

/// Particle count of the burst a destroyed kart leaves behind.
pub const KART_DIE_HIT_COUNT: usize = 8;

/// Speed of the knockback a hit imparts, milli-units per second.
pub const KNOCKBACK_SPEED: i64 = 10000;

/// A request to damage one vehicle.
#[derive(Clone, Copy, Debug, PartialEq, Eq, Structural)]
pub struct HealthHitEvent {
    pub entity: usize,
    pub hit_points: usize,
}

/// A hit landed on a vehicle: where the knockback points.
#[derive(Clone, Copy, Debug, PartialEq, Eq, Structural)]
pub struct HitEvent {
    pub entity: usize,
    pub direction: Vec3i,
}

/// A request for a presentation-side hit effect; the simulation does not
/// depend on its outcome.
#[derive(Clone, Copy, Debug, PartialEq, Eq, Structural)]
pub struct CreateHitEvent {
    pub position: Vec3i,
    pub count: usize,
    pub color: KartColor,
    pub with_physics: bool,
}

/// Land a damage request on a kart: vehicles inside an invulnerability
/// window ignore it entirely; others lose the hit points (saturating at
/// zero) and gain a fresh window, so one projectile cannot land twice.
pub fn apply_health_hit(kart: &mut Kart, hit_points: usize)
    requires
        old(kart).wf(),
    ensures
        final(kart).wf(),
        old(kart).invulnerability is Some ==> *final(kart) == *old(kart),
        old(kart).invulnerability is None ==> {
            &&& final(kart).health == health_after_subtract(old(kart).health, hit_points)
            &&& final(kart).invulnerability matches Some(w) && w.time_to_live.elapsed() == 0
                && w.time_to_live.duration() == INVULNERABILITY_MS && w.time_to_live.mode_spec()
                == crate::timer::TimerMode::Once
            &&& final(kart).color == old(kart).color
            &&& final(kart).is_player == old(kart).is_player
            &&& final(kart).next_waypoint == old(kart).next_waypoint
            &&& final(kart).lap_counter == old(kart).lap_counter
            &&& final(kart).place_counter == old(kart).place_counter
            &&& final(kart).place == old(kart).place
            &&& final(kart).points == old(kart).points
        },
{
    if kart.invulnerability.is_none() {
        kart.health.subtract(hit_points);
        kart.invulnerability = Some(Invulnerability::new());
    }
}

/// Advance a kart's invulnerability window, removing it on expiry.
pub fn tick_invulnerability(kart: &mut Kart, delta_ms: u64)
    requires
        old(kart).wf(),
        delta_ms <= crate::timer::TIMER_LIMIT_MS,
    ensures
        final(kart).wf(),
        final(kart).health == old(kart).health,
        final(kart).color == old(kart).color,
        final(kart).is_player == old(kart).is_player,
        final(kart).next_waypoint == old(kart).next_waypoint,
        final(kart).lap_counter == old(kart).lap_counter,
        final(kart).place_counter == old(kart).place_counter,
        final(kart).place == old(kart).place,
        final(kart).points == old(kart).points,
        old(kart).invulnerability is None ==> final(kart).invulnerability is None,
        old(kart).invulnerability matches Some(inv) ==> {
            if inv.time_to_live.elapsed() + delta_ms >= inv.time_to_live.duration() {
                final(kart).invulnerability is None
            } else {
                final(kart).invulnerability is Some
            }
        },
{
    match &mut kart.invulnerability {
        Some(inv) => {
            let expired = inv.tick(delta_ms);
            if expired {
                kart.invulnerability = None;
            }
        },
        None => {},
    }
}

/// The knockback velocity of a hit from direction `d`: `d` normalized,
/// flattened to the ground plane, at knockback speed.
pub open spec fn knockback_spec(d: Vec3i) -> Vec3i {
    let len = isqrt_spec(d.x * d.x + d.y * d.y + d.z * d.z);
    Vec3i {
        x: mul_div_signed(d.x as int, KNOCKBACK_SPEED as int, len) as i64,
        y: 0,
        z: mul_div_signed(d.z as int, KNOCKBACK_SPEED as int, len) as i64,
    }
}

/// The velocity a struck vehicle is left with: the projectile's direction,
/// normalized and scaled, with no vertical component.
pub fn knockback_velocity(direction: Vec3i) -> (r: Vec3i)
    requires
        direction.wf(),
        direction.x != 0 || direction.y != 0 || direction.z != 0,
    ensures
        r == knockback_spec(direction),
        r.y == 0,
{
    proof {
        lemma_square_le(direction.x as int, crate::math::COORD_LIMIT as int);
        lemma_square_le(direction.y as int, crate::math::COORD_LIMIT as int);
        lemma_square_le(direction.z as int, crate::math::COORD_LIMIT as int);
        if direction.x >= 1 || direction.x <= -1 {
            crate::math::lemma_square_ge(direction.x as int, 1);
        } else if direction.y >= 1 || direction.y <= -1 {
            crate::math::lemma_square_ge(direction.y as int, 1);
        } else {
            crate::math::lemma_square_ge(direction.z as int, 1);
        }
    }
    let n: i128 = (direction.x as i128) * (direction.x as i128) + (direction.y as i128) * (
    direction.y as i128) + (direction.z as i128) * (direction.z as i128);
    proof {
        assert(n >= 1);
        assert((n as u128) as int == direction.x * direction.x + direction.y * direction.y
            + direction.z * direction.z);
    }
    let len = isqrt(n as u128);
    proof {
        let n_int = direction.x * direction.x + direction.y * direction.y + direction.z
            * direction.z;
        assert(is_isqrt(n_int, len as int));
        lemma_isqrt_spec(n_int, len as int);
        assert(len >= 1) by {
            if len == 0 {
                assert(n_int < 1);
                assert(false);
            }
        }
        assert(len < 0x8000_0000_0000_0000u64) by {
            if len >= 0x8000_0000_0000_0000u64 {
                crate::math::lemma_square_ge(len as int, 0x8000_0000_0000_0000);
                assert(0x8000_0000_0000_0000int * 0x8000_0000_0000_0000 > 3 * (
                crate::math::COORD_LIMIT as int) * (crate::math::COORD_LIMIT as int));
                assert(false);
            }
        }
    }
    let x = mul_div_exec(direction.x, KNOCKBACK_SPEED, len as i64);
    let z = mul_div_exec(direction.z, KNOCKBACK_SPEED, len as i64);
    Vec3i { x, y: 0, z }
}

/// What a projectile striking a kart causes. Damage lands only when the
/// projectile's owner is another vehicle and the kart is not inside an
/// invulnerability window; the projectile is then consumed and the kart
/// takes one hit, a knockback along the projectile's direction, and a hit
/// effect marks the impact.
pub struct BulletImpact {
    pub hit: HitEvent,
    pub health_hit: HealthHitEvent,
    pub effect: CreateHitEvent,
}

/// Decide a projectile-vehicle collision. `None` (the projectile flies on)
/// when it struck its own launcher's vehicle or an invulnerable one;
/// otherwise the full set of consequences, and the projectile is consumed.
pub fn collide_bullet_kart(
    bullet: &Bullet,
    bullet_translation: Vec3i,
    kart_id: usize,
    kart_invulnerable: bool,
    with_physics: bool,
) -> (impact: Option<BulletImpact>)
    ensures
        (bullet.owner == kart_id || kart_invulnerable) <==> impact is None,
        impact matches Some(i) ==> {
            &&& i.hit == (HitEvent { entity: kart_id, direction: bullet.direction })
            &&& i.health_hit == (HealthHitEvent { entity: kart_id, hit_points: BULLET_DAMAGE })
            &&& i.effect == (CreateHitEvent {
                position: bullet_translation,
                count: BULLET_HIT_COUNT,
                color: bullet.color,
                with_physics,
            })
        },
{
    if bullet.owner == kart_id || kart_invulnerable {
        return None;
    }
    Some(
        BulletImpact {
            hit: HitEvent { entity: kart_id, direction: bullet.direction },
            health_hit: HealthHitEvent { entity: kart_id, hit_points: BULLET_DAMAGE },
            effect: CreateHitEvent {
                position: bullet_translation,
                count: BULLET_HIT_COUNT,
                color: bullet.color,
                with_physics,
            },
        },
    )
}

/// Decide a projectile-track collision: the projectile is always consumed
/// and leaves a hit effect, with no damage to anyone.
pub fn collide_bullet_track(bullet: &Bullet, bullet_translation: Vec3i, with_physics: bool) -> (
    effect: CreateHitEvent)
    ensures
        effect == (CreateHitEvent {
            position: bullet_translation,
            count: BULLET_HIT_COUNT,
            color: bullet.color,
            with_physics,
        }),
{
    CreateHitEvent {
        position: bullet_translation,
        count: BULLET_HIT_COUNT,
        color: bullet.color,
        with_physics,
    }
}

/// Land a knockback on a struck vehicle: its velocity is replaced by the
/// projectile direction's knockback.
pub fn apply_hit_knockback(velocity: &mut Vec3i, direction: Vec3i)
    requires
        direction.wf(),
        direction.x != 0 || direction.y != 0 || direction.z != 0,
    ensures
        *final(velocity) == knockback_spec(direction),
{
    *velocity = knockback_velocity(direction);
}

} // verus!
