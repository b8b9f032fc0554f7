use kart_core::combat::{
    apply_health_hit, collide_bullet_kart, collide_bullet_track, knockback_velocity,
    tick_invulnerability, BULLET_HIT_COUNT,
};
use kart_core::health::Health;
use kart_core::math::Vec3i;
use kart_core::race::{Kart, KartColor};
use kart_core::tower::Bullet;

fn fresh_kart() -> Kart {
    Kart::new(KartColor(0), false)
}

#[test]
fn health_subtract_saturates_at_zero() {
    let mut h = Health::new(3);
    h.subtract(2);
    assert!(!h.is_dead());
    h.subtract(5);
    assert!(h.is_dead());
    h.subtract(1);
    assert!(h.is_dead());
}

#[test]
fn health_add_saturates_at_max() {
    let mut h = Health::new(3);
    h.subtract(2);
    h.add(1);
    assert!(h.is_alive());
    h.add(100);
    // at the maximum now: one hit per point kills in exactly three
    h.subtract(1);
    h.subtract(1);
    h.subtract(1);
    assert!(h.is_dead());
}

#[test]
fn three_separate_hits_kill_a_fourth_is_a_no_op() {
    let mut kart = fresh_kart();
    assert!(kart.health.is_alive());

    // first hit lands and grants invulnerability
    apply_health_hit(&mut kart, 1);
    assert!(kart.invulnerability.is_some());
    assert!(kart.health.is_alive());

    // a hit inside the window changes nothing
    apply_health_hit(&mut kart, 1);
    assert!(kart.health.is_alive());

    // the window expires; the second real hit lands
    tick_invulnerability(&mut kart, 2500);
    assert!(kart.invulnerability.is_none());
    apply_health_hit(&mut kart, 1);
    assert!(kart.health.is_alive());

    // third non-overlapping hit kills
    tick_invulnerability(&mut kart, 2500);
    apply_health_hit(&mut kart, 1);
    assert!(kart.health.is_dead());

    // a fourth hit afterward changes nothing
    tick_invulnerability(&mut kart, 2500);
    apply_health_hit(&mut kart, 1);
    assert!(kart.health.is_dead());
}

#[test]
fn bullets_never_damage_their_owner() {
    let bullet = Bullet {
        owner: 5,
        direction: Vec3i::new(1000, 0, 0),
        speed: 2000,
        color: KartColor(1),
    };
    let at = Vec3i::new(0, 0, 0);
    assert!(collide_bullet_kart(&bullet, at, 5, false, false).is_none());
    assert!(collide_bullet_kart(&bullet, at, 6, true, false).is_none());
    let impact = collide_bullet_kart(&bullet, at, 6, false, true).unwrap();
    assert_eq!(impact.hit.entity, 6);
    assert_eq!(impact.health_hit.hit_points, 1);
    assert_eq!(impact.effect.count, BULLET_HIT_COUNT);
    assert_eq!(impact.effect.color, KartColor(1));
    assert!(impact.effect.with_physics);
}

#[test]
fn track_hits_consume_bullets_without_damage() {
    let bullet = Bullet {
        owner: 5,
        direction: Vec3i::new(0, 0, 1000),
        speed: 2000,
        color: KartColor(2),
    };
    let effect = collide_bullet_track(&bullet, Vec3i::new(7, 8, 9), false);
    assert_eq!(effect.position, Vec3i::new(7, 8, 9));
    assert_eq!(effect.count, BULLET_HIT_COUNT);
}

#[test]
fn knockback_is_flat_and_scaled() {
    // direction along x: knockback is exactly the knockback speed along x
    let v = knockback_velocity(Vec3i::new(2000, 0, 0));
    assert_eq!(v, Vec3i::new(10000, 0, 0));
    // a vertical component is flattened away
    let v = knockback_velocity(Vec3i::new(0, 5000, 0));
    assert_eq!(v, Vec3i::new(0, 0, 0));
    // 3-4-5 triangle in the ground plane
    let v = knockback_velocity(Vec3i::new(3000, 0, 4000));
    assert_eq!(v, Vec3i::new(6000, 0, 8000));
}
