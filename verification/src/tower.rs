//! Towers and projectiles. Placing a tower probes a ring of sixteen points
//! around a check point ahead of the placing vehicle; the first probe whose
//! downward ray finds no ground marks a direction with room off-track, and
//! the tower spawns offset that way, past the track's edge. A placed tower
//! waits out a random start delay, then fires at a fixed cadence toward the
//! target point frozen at placement time.

use vstd::prelude::*;

use crate::math::{is_isqrt, isqrt, isqrt_spec, lemma_isqrt_spec, lemma_square_ge, lemma_square_le,
    mul_div_exec, mul_div_signed, Vec3i};
use crate::path::PathManager;
use crate::race::{KartColor, Points};
use crate::timer::{Timer, TimerMode};

verus! {

/// Track half-width: the probe ring's radius, milli-units.
pub const TRACK_WIDTH: i64 = 10000;

/// Extra clearance past the track edge for the tower's spot, milli-units.
pub const TOWER_POSITION_BUFFER: i64 = 1000;

/// Height of a tower: bullets leave from this far above its base,
/// milli-units.
pub const TOWER_HEIGHT: i64 = 10000;

/// Height above the check point from which the probe rays are cast,
/// milli-units.
pub const PROBE_HEIGHT: i64 = 5000;

/// Credits a tower costs to place.
pub const TOWER_COST: usize = 4;

/// Milliseconds between two shots of a tower.
pub const TOWER_FIRE_COOLDOWN_MS: u64 = 500;

/// Milli-fraction of the way from the vehicle to the waypoint ahead at which
/// a player's tower placement is probed, so towers lead the player.
pub const CHECK_POINT_LEAD: i64 = 450;

/// Speed factor of a tower's bullets, milli.
pub const BULLET_SPEED: i64 = 2000;

/// How many probe points ring a placement check point.
pub const PROBE_COUNT: usize = 16;

/// The fixed offsets of the sixteen probe points around the check point:
/// four cardinal, four diagonal, and a buffered variant of each, all raised
/// by the probe height.
pub open spec fn probe_offset(i: int) -> Vec3i {
    let w: i64 = 10000;
    let nw: i64 = (-10000) as i64;
    let b: i64 = 11000;
    let nb: i64 = (-11000) as i64;
    let h: i64 = 5000;
    if i == 0 {
        Vec3i { x: nw, y: h, z: 0 }
    } else if i == 1 {
        Vec3i { x: w, y: h, z: 0 }
    } else if i == 2 {
        Vec3i { x: 0, y: h, z: nw }
    } else if i == 3 {
        Vec3i { x: 0, y: h, z: w }
    } else if i == 4 {
        Vec3i { x: w, y: h, z: w }
    } else if i == 5 {
        Vec3i { x: w, y: h, z: nw }
    } else if i == 6 {
        Vec3i { x: nw, y: h, z: nw }
    } else if i == 7 {
        Vec3i { x: nw, y: h, z: w }
    } else if i == 8 {
        Vec3i { x: nb, y: h, z: 0 }
    } else if i == 9 {
        Vec3i { x: b, y: h, z: 0 }
    } else if i == 10 {
        Vec3i { x: 0, y: h, z: nb }
    } else if i == 11 {
        Vec3i { x: 0, y: h, z: b }
    } else if i == 12 {
        Vec3i { x: b, y: h, z: b }
    } else if i == 13 {
        Vec3i { x: b, y: h, z: nb }
    } else if i == 14 {
        Vec3i { x: nb, y: h, z: nb }
    } else {
        Vec3i { x: nb, y: h, z: b }
    }
}

/// The sixteen points probed around `check_point`.
pub fn probe_points(check_point: Vec3i) -> (r: Vec<Vec3i>)
    requires
        check_point.wf(),
    ensures
        r@.len() == PROBE_COUNT,
        forall|i: int|
            0 <= i < PROBE_COUNT ==> #[trigger] r@[i] == (Vec3i {
                x: (check_point.x + probe_offset(i).x) as i64,
                y: (check_point.y + probe_offset(i).y) as i64,
                z: (check_point.z + probe_offset(i).z) as i64,
            }),
{
    let mut r: Vec<Vec3i> = Vec::new();
    let mut i: usize = 0;
    while i < PROBE_COUNT
        invariant
            check_point.wf(),
            i <= PROBE_COUNT,
            r@.len() == i,
            forall|j: int|
                0 <= j < i ==> #[trigger] r@[j] == (Vec3i {
                    x: (check_point.x + probe_offset(j).x) as i64,
                    y: (check_point.y + probe_offset(j).y) as i64,
                    z: (check_point.z + probe_offset(j).z) as i64,
                }),
        decreases PROBE_COUNT - i,
    {
        let off = probe_offset_exec(i);
        r.push(
            Vec3i {
                x: check_point.x + off.x,
                y: check_point.y + off.y,
                z: check_point.z + off.z,
            },
        );
        i = i + 1;
    }
    r
}

fn probe_offset_exec(i: usize) -> (r: Vec3i)
    requires
        i < PROBE_COUNT,
    ensures
        r == probe_offset(i as int),
{
    let w: i64 = TRACK_WIDTH;
    let b: i64 = TRACK_WIDTH + 1000;
    let h: i64 = PROBE_HEIGHT;
    if i == 0 {
        Vec3i { x: -w, y: h, z: 0 }
    } else if i == 1 {
        Vec3i { x: w, y: h, z: 0 }
    } else if i == 2 {
        Vec3i { x: 0, y: h, z: -w }
    } else if i == 3 {
        Vec3i { x: 0, y: h, z: w }
    } else if i == 4 {
        Vec3i { x: w, y: h, z: w }
    } else if i == 5 {
        Vec3i { x: w, y: h, z: -w }
    } else if i == 6 {
        Vec3i { x: -w, y: h, z: -w }
    } else if i == 7 {
        Vec3i { x: -w, y: h, z: w }
    } else if i == 8 {
        Vec3i { x: -b, y: h, z: 0 }
    } else if i == 9 {
        Vec3i { x: b, y: h, z: 0 }
    } else if i == 10 {
        Vec3i { x: 0, y: h, z: -b }
    } else if i == 11 {
        Vec3i { x: 0, y: h, z: b }
    } else if i == 12 {
        Vec3i { x: b, y: h, z: b }
    } else if i == 13 {
        Vec3i { x: b, y: h, z: -b }
    } else if i == 14 {
        Vec3i { x: -b, y: h, z: -b }
    } else {
        Vec3i { x: -b, y: h, z: b }
    }
}

/// Position of the first probe index at or after `i` whose ray found no
/// ground.
pub open spec fn first_clear_from(hits: Seq<bool>, i: int) -> Option<int>
    decreases hits.len() - i,
{
    if i < 0 || i >= hits.len() {
        None
    } else if !hits[i] {
        Some(i)
    } else {
        first_clear_from(hits, i + 1)
    }
}

proof fn lemma_first_clear_skip(hits: Seq<bool>, i: int)
    requires
        0 <= i <= hits.len(),
        forall|j: int| 0 <= j < i ==> #[trigger] hits[j],
    ensures
        first_clear_from(hits, 0) == first_clear_from(hits, i),
    decreases i,
{
    if i > 0 {
        lemma_first_clear_skip(hits, i - 1);
    }
}

/// Where a tower stands when probe `i` found room: offset from the check
/// point in that probe's ground direction, normalized and scaled to just
/// past the track edge.
pub open spec fn tower_spot(check_point: Vec3i, i: int) -> Vec3i {
    let dx = probe_offset(i).x;
    let dz = probe_offset(i).z;
    let len = isqrt_spec(dx * dx + dz * dz);
    Vec3i {
        x: (check_point.x + mul_div_signed(
            dx as int,
            (TRACK_WIDTH + TOWER_POSITION_BUFFER) as int,
            len,
        )) as i64,
        y: check_point.y,
        z: (check_point.z + mul_div_signed(
            dz as int,
            (TRACK_WIDTH + TOWER_POSITION_BUFFER) as int,
            len,
        )) as i64,
    }
}

/// Try to place a tower around `check_point`, given for each probe point
/// whether its downward ray hit ground. With enough credits and a free
/// direction, the cost is deducted and the tower's spot returned; otherwise
/// nothing changes and nothing is spent.
pub fn plan_tower_placement(check_point: Vec3i, points: &mut Points, hits: &Vec<bool>) -> (spot:
    Option<Vec3i>)
    requires
        check_point.wf(),
        hits@.len() == PROBE_COUNT,
    ensures
        old(points).0 < TOWER_COST ==> spot is None && *final(points) == *old(points),
        old(points).0 >= TOWER_COST ==> match first_clear_from(hits@, 0) {
            None => spot is None && *final(points) == *old(points),
            Some(i) => spot == Some(tower_spot(check_point, i)) && final(points).0 == old(
                points,
            ).0 - TOWER_COST,
        },
{
    if points.0 < TOWER_COST {
        return None;
    }
    let mut i: usize = 0;
    while i < PROBE_COUNT
        invariant
            hits@.len() == PROBE_COUNT,
            i <= PROBE_COUNT,
            check_point.wf(),
            *points == *old(points),
            points.0 >= TOWER_COST,
            forall|j: int| 0 <= j < i ==> #[trigger] hits@[j],
        decreases PROBE_COUNT - i,
    {
        if !hits[i] {
            proof {
                lemma_first_clear_skip(hits@, i as int);
            }
            points.0 = points.0 - TOWER_COST;
            let off = probe_offset_exec(i);
            proof {
                lemma_square_le(off.x as int, 11000);
                lemma_square_le(off.z as int, 11000);
            }
            let n: i128 = (off.x as i128) * (off.x as i128) + (off.z as i128) * (off.z as i128);
            proof {
                assert(n >= 0);
                assert((n as u128) as int == off.x * off.x + off.z * off.z);
            }
            let len = isqrt(n as u128);
            proof {
                assert(is_isqrt(off.x * off.x + off.z * off.z, len as int));
                lemma_isqrt_spec(off.x * off.x + off.z * off.z, len as int);
                if off.x >= 10000 || off.x <= -10000 {
                    lemma_square_ge(off.x as int, 10000);
                } else {
                    lemma_square_ge(off.z as int, 10000);
                }
                assert(off.x * off.x + off.z * off.z >= 10000 * 10000);
                assert(len >= 1) by {
                    if len == 0 {
                        assert(off.x * off.x + off.z * off.z < 1);
                        assert(false);
                    }
                }
                assert(len <= 20000) by {
                    if len > 20000 {
                        lemma_square_ge(len as int, 20001);
                        assert(false);
                    }
                }
            }
            let dx = mul_div_exec(off.x, TRACK_WIDTH + TOWER_POSITION_BUFFER, len as i64);
            let dz = mul_div_exec(off.z, TRACK_WIDTH + TOWER_POSITION_BUFFER, len as i64);
            return Some(
                Vec3i { x: check_point.x + dx, y: check_point.y, z: check_point.z + dz },
            );
        }
        i = i + 1;
    }
    proof {
        lemma_first_clear_skip(hits@, PROBE_COUNT as int);
    }
    None
}

/// The point ahead of a placing vehicle at which placement is probed: for a
/// player, partway toward the waypoint two past the nearest one, so the
/// tower leads the vehicle; for a bot, the vehicle's own position.
pub open spec fn check_point_spec(path: PathManager, spawn_point: Vec3i, is_player: bool) -> Vec3i {
    if !is_player {
        spawn_point
    } else {
        match path.nearest_index_of(spawn_point) {
            Some(i) => if i + 2 <= usize::MAX {
                match path.next_spec((i + 2) as usize) {
                    Some(j) => lerp_milli(spawn_point, path.map()[j], CHECK_POINT_LEAD as int),
                    None => spawn_point,
                }
            } else {
                spawn_point
            },
            None => spawn_point,
        }
    }
}

/// `a + (b - a) * t / 1000`, componentwise: the point a milli-fraction `t`
/// of the way from `a` to `b`.
pub open spec fn lerp_milli(a: Vec3i, b: Vec3i, t: int) -> Vec3i {
    Vec3i {
        x: (a.x + mul_div_signed(b.x - a.x, t, 1000)) as i64,
        y: (a.y + mul_div_signed(b.y - a.y, t, 1000)) as i64,
        z: (a.z + mul_div_signed(b.z - a.z, t, 1000)) as i64,
    }
}

fn lerp_milli_exec(a: Vec3i, b: Vec3i, t: i64) -> (r: Vec3i)
    requires
        a.wf(),
        b.wf(),
        0 <= t <= 1000,
    ensures
        r == lerp_milli(a, b, t as int),
{
    let dx = mul_div_exec(b.x - a.x, t, 1000);
    let dy = mul_div_exec(b.y - a.y, t, 1000);
    let dz = mul_div_exec(b.z - a.z, t, 1000);
    Vec3i { x: a.x + dx, y: a.y + dy, z: a.z + dz }
}

/// Compute the placement check point; see [`check_point_spec`].
pub fn tower_check_point(path: &PathManager, spawn_point: Vec3i, is_player: bool) -> (r: Vec3i)
    requires
        path.wf(),
        spawn_point.wf(),
    ensures
        r == check_point_spec(*path, spawn_point, is_player),
{
    if !is_player {
        return spawn_point;
    }
    match path.get_closest_index(spawn_point) {
        Some(i) => {
            if i <= usize::MAX - 2 {
                match path.get_next(i + 2) {
                    Some(j) => {
                        let target = path.get(j);
                        lerp_milli_exec(spawn_point, target, CHECK_POINT_LEAD)
                    },
                    None => spawn_point,
                }
            } else {
                spawn_point
            }
        },
        None => spawn_point,
    }
}

/// A placed tower: who owns it, where it aims, and its firing clocks.
#[derive(Clone, Copy, Debug)]
pub struct Tower {
    /// Identifier of the owning vehicle (despawned owners are tolerated).
    pub owner: usize,
    /// The opponent position frozen at placement time.
    pub target: Vec3i,
    /// Random start delay that desynchronizes tower volleys.
    pub delay_start: Timer,
    /// Fixed firing cadence, running once the start delay has passed.
    pub action_cooldown: Timer,
    /// Team color of the owner.
    pub color: KartColor,
}

/// A request to spawn one projectile.
#[derive(Clone, Copy, Debug, PartialEq, Eq, Structural)]
pub struct BulletSpawn {
    pub owner: usize,
    pub spawn_point: Vec3i,
    pub direction: Vec3i,
    pub color: KartColor,
    /// Speed factor, milli.
    pub speed: i64,
}

impl Tower {
    pub open spec fn wf(self) -> bool {
        &&& self.delay_start.wf()
        &&& self.delay_start.mode_spec() == TimerMode::Once
        &&& self.action_cooldown.wf()
        &&& self.action_cooldown.mode_spec() == TimerMode::Repeating
        &&& self.target.wf()
    }

    /// A tower placed at a spot, aimed at `target`, owned by vehicle
    /// `owner`, with a start delay of `delay_ms`.
    pub fn new(owner: usize, target: Vec3i, delay_ms: u64, color: KartColor) -> (r: Tower)
        requires
            target.wf(),
            delay_ms <= crate::timer::TIMER_LIMIT_MS,
        ensures
            r.wf(),
            r.owner == owner,
            r.target == target,
            r.color == color,
            r.delay_start.duration() == delay_ms,
            r.delay_start.elapsed() == 0,
            r.action_cooldown.duration() == TOWER_FIRE_COOLDOWN_MS,
            r.action_cooldown.elapsed() == 0,
    {
        Tower {
            owner,
            target,
            delay_start: Timer::from_millis(delay_ms, TimerMode::Once),
            action_cooldown: Timer::from_millis(TOWER_FIRE_COOLDOWN_MS, TimerMode::Repeating),
            color,
        }
    }

    /// One tick of the tower: waiting out the start delay first, then firing
    /// a bullet from the cannon's height toward the frozen target each time
    /// the cadence timer crosses.
    pub fn tick(&mut self, translation: Vec3i, delta_ms: u64) -> (shot: Option<BulletSpawn>)
        requires
            old(self).wf(),
            translation.wf(),
            delta_ms <= crate::timer::TIMER_LIMIT_MS,
        ensures
            final(self).wf(),
            final(self).owner == old(self).owner,
            final(self).target == old(self).target,
            final(self).color == old(self).color,
            final(self).delay_start.duration() == old(self).delay_start.duration(),
            final(self).delay_start.elapsed() == if old(self).delay_start.elapsed() + delta_ms
                <= old(self).delay_start.duration() {
                old(self).delay_start.elapsed() + delta_ms
            } else {
                old(self).delay_start.duration() as int
            },
            final(self).action_cooldown.duration() == old(self).action_cooldown.duration(),
            old(self).delay_start.elapsed() + delta_ms < old(self).delay_start.duration() ==> {
                &&& shot is None
                &&& final(self).action_cooldown == old(self).action_cooldown
            },
            old(self).delay_start.elapsed() + delta_ms >= old(self).delay_start.duration()
                ==> final(self).action_cooldown.elapsed() == (old(self).action_cooldown.elapsed()
                + delta_ms) % (old(self).action_cooldown.duration() as int),
            old(self).delay_start.elapsed() + delta_ms >= old(self).delay_start.duration()
                ==> match shot {
                Some(b) => {
                    &&& old(self).action_cooldown.elapsed() + delta_ms >= old(
                        self,
                    ).action_cooldown.duration()
                    &&& b.owner == old(self).owner
                    &&& b.spawn_point == (Vec3i {
                        x: translation.x,
                        y: (translation.y + TOWER_HEIGHT) as i64,
                        z: translation.z,
                    })
                    &&& b.direction == (Vec3i {
                        x: (old(self).target.x - b.spawn_point.x) as i64,
                        y: (old(self).target.y - b.spawn_point.y) as i64,
                        z: (old(self).target.z - b.spawn_point.z) as i64,
                    })
                    &&& b.color == old(self).color
                    &&& b.speed == BULLET_SPEED
                },
                None => old(self).action_cooldown.elapsed() + delta_ms < old(
                    self,
                ).action_cooldown.duration(),
            },
    {
        self.delay_start.tick(delta_ms);
        if !self.delay_start.finished() {
            return None;
        }
        self.action_cooldown.tick(delta_ms);
        if self.action_cooldown.just_finished() {
            let spawn_point = Vec3i {
                x: translation.x,
                y: translation.y + TOWER_HEIGHT,
                z: translation.z,
            };
            Some(
                BulletSpawn {
                    owner: self.owner,
                    spawn_point,
                    direction: Vec3i {
                        x: self.target.x - spawn_point.x,
                        y: self.target.y - spawn_point.y,
                        z: self.target.z - spawn_point.z,
                    },
                    color: self.color,
                    speed: BULLET_SPEED,
                },
            )
        } else {
            None
        }
    }
}

/// A projectile in flight: it moves along its fixed direction at its speed
/// and lives until a collision consumes it.
#[derive(Clone, Copy, Debug, PartialEq, Eq, Structural)]
pub struct Bullet {
    pub owner: usize,
    pub direction: Vec3i,
    /// Speed factor, milli.
    pub speed: i64,
    pub color: KartColor,
}

/// Advance a bullet: `translation += direction * speed * dt`, componentwise
/// fixed point.
pub fn update_bullet(translation: &mut Vec3i, bullet: &Bullet, delta_ms: u64)
    requires
        old(translation).wf(),
        bullet.direction.wf(),
        0 <= bullet.speed <= 5000,
        delta_ms <= 10000,
    ensures
        final(translation).x == old(translation).x + mul_div_signed(
            bullet.direction.x as int,
            bullet.speed * delta_ms / 1000,
            1000,
        ),
        final(translation).y == old(translation).y + mul_div_signed(
            bullet.direction.y as int,
            bullet.speed * delta_ms / 1000,
            1000,
        ),
        final(translation).z == old(translation).z + mul_div_signed(
            bullet.direction.z as int,
            bullet.speed * delta_ms / 1000,
            1000,
        ),
{
    proof {
        assert(0 <= bullet.speed * delta_ms <= 5000 * 10000) by (nonlinear_arith)
            requires
                0 <= bullet.speed <= 5000,
                0 <= delta_ms <= 10000,
        ;
        vstd::arithmetic::div_mod::lemma_div_is_ordered(
            bullet.speed * delta_ms,
            5000int * 10000,
            1000,
        );
    }
    let factor = bullet.speed * (delta_ms as i64) / 1000;
    let dx = mul_div_exec(bullet.direction.x, factor, 1000);
    let dy = mul_div_exec(bullet.direction.y, factor, 1000);
    let dz = mul_div_exec(bullet.direction.z, factor, 1000);
    translation.x = translation.x + dx;
    translation.y = translation.y + dy;
    translation.z = translation.z + dz;
}

/// A countdown after which an entity despawns.
#[derive(Clone, Copy, Debug)]
pub struct TimeToLive(pub Timer);

impl TimeToLive {
    /// Advance the countdown; the result says whether the entity's time is
    /// up and it must despawn.
    pub fn tick(&mut self, delta_ms: u64) -> (despawn: bool)
        requires
            old(self).0.wf(),
            delta_ms <= crate::timer::TIMER_LIMIT_MS,
            old(self).0.mode_spec() == TimerMode::Once,
        ensures
            final(self).0.wf(),
            despawn == (old(self).0.elapsed() + delta_ms >= old(self).0.duration()),
    {
        self.0.tick(delta_ms);
        self.0.finished()
    }
}

/// The optional physics debris a hit can leave: after a cooldown it sheds
/// its physical body, and after its lifetime it despawns.
#[derive(Clone, Copy, Debug)]
pub struct ExtraEntity {
    pub cooldown: Timer,
    pub time_to_live: Timer,
}

impl ExtraEntity {
    pub open spec fn wf(self) -> bool {
        &&& self.cooldown.wf()
        &&& self.cooldown.mode_spec() == TimerMode::Once
        &&& self.time_to_live.wf()
        &&& self.time_to_live.mode_spec() == TimerMode::Once
    }

    /// Advance both clocks: the first result asks to strip the entity's
    /// physics, the second to despawn it.
    pub fn tick(&mut self, delta_ms: u64) -> (r: (bool, bool))
        requires
            old(self).wf(),
            delta_ms <= crate::timer::TIMER_LIMIT_MS,
        ensures
            final(self).wf(),
            r.0 == (old(self).cooldown.elapsed() + delta_ms >= old(self).cooldown.duration()),
            r.1 == (old(self).time_to_live.elapsed() + delta_ms >= old(
                self,
            ).time_to_live.duration()),
    {
        self.cooldown.tick(delta_ms);
        self.time_to_live.tick(delta_ms);
        (self.cooldown.finished(), self.time_to_live.finished())
    }
}

} // verus!
