//! Bot AI. Each tick a bot chases a moving path target: it picks the nearest
//! waypoint when it has none, advances to the next when close enough, and
//! steers by the lateral offset between its predicted position and the
//! target. Independently, a bot places a tower once its progress along the
//! track crosses a per-bot threshold, re-rolled after every placement.

use vstd::prelude::*;

use crate::controller::MovementAction;
use crate::math::{mul_div_signed, Vec3i};
use crate::path::PathManager;
use crate::race::{WayPoint, WayPoints};
use crate::rng::rng_below;
use crate::timer::{Timer, TimerMode};

verus! {

/// Distance under which a bot counts its target waypoint as reached,
/// milli-units.
pub const TARGET_CAPTURE_RADIUS: i64 = 20000;

/// Milliseconds between a bot's tower placements.
pub const BOT_PLACEMENT_DELAY_MS: u64 = 1000;

/// Fallback index used for the normalization denominator when the finish
/// waypoint sits at the wrap boundary and the path has no predecessor for
/// it.
pub const FINISH_FALLBACK_INDEX: usize = 20;

/// A bot brain: its current path target and its per-bot steering bias.
#[derive(Clone, Copy, Debug)]
pub struct Bot {
    /// The waypoint index currently chased, if any.
    pub target: Option<usize>,
    /// Cooldown between tower placements.
    pub spawn_delay: Timer,
    /// Steering bias, milli, in `-1000..=1000`, fixed at spawn so bots do
    /// not steer in lockstep.
    pub random: i64,
}

impl Bot {
    pub open spec fn wf(self) -> bool {
        &&& self.spawn_delay.wf()
        &&& self.spawn_delay.mode_spec() == TimerMode::Once
        &&& -1000 <= self.random <= 1000
    }

    /// A fresh brain with the given steering bias and no target yet.
    pub fn new(random: i64) -> (r: Bot)
        requires
            -1000 <= random <= 1000,
        ensures
            r.wf(),
            r.target is None,
            r.random == random,
            r.spawn_delay.duration() == BOT_PLACEMENT_DELAY_MS,
            r.spawn_delay.elapsed() == 0,
            r.spawn_delay.mode_spec() == TimerMode::Once,
    {
        Bot {
            target: None,
            spawn_delay: Timer::from_millis(BOT_PLACEMENT_DELAY_MS, TimerMode::Once),
            random,
        }
    }
}

/// The fraction into the track (thousandths) a bot must pass before it next
/// tries to place a tower.
#[derive(Clone, Copy, Debug, PartialEq, Eq, Structural)]
pub struct TowerPlacer {
    pub min_permille_into_track: u32,
}

impl TowerPlacer {
    pub open spec fn wf(self) -> bool {
        100 <= self.min_permille_into_track < 900
    }

    /// A threshold derived from a uniform draw in `0..1000`: the result lies
    /// uniformly in `100..900`.
    pub fn new(random_permille: u32) -> (r: TowerPlacer)
        requires
            random_permille < 1000,
        ensures
            r.wf(),
            r.min_permille_into_track == 100 + random_permille % 800,
    {
        TowerPlacer { min_permille_into_track: 100 + random_permille % 800 }
    }

    /// Re-roll the threshold after a successful placement: uniform in
    /// `100..900` again, from a fresh draw.
    pub fn reroll(&mut self, rng: &mut bevy_turborand::GlobalRng)
        ensures
            final(self).wf(),
    {
        let draw = rng_below(rng, 1000);
        self.min_permille_into_track = 100 + draw % 800;
    }
}

/// A bot and its tower placer, as spawned together.
#[derive(Clone, Copy, Debug)]
pub struct BotBundle {
    pub bot: Bot,
    pub tower_placer: TowerPlacer,
}

impl BotBundle {
    /// Bundle a brain from the spawn-time draws: a steering bias in
    /// `-1000..=1000` and a threshold draw in `0..1000`.
    pub fn new(normalized_rand: i64, positive_rand: u32) -> (r: BotBundle)
        requires
            -1000 <= normalized_rand <= 1000,
            positive_rand < 1000,
        ensures
            r.bot.wf(),
            r.tower_placer.wf(),
            r.bot.random == normalized_rand,
            r.tower_placer.min_permille_into_track == 100 + positive_rand % 800,
    {
        BotBundle { bot: Bot::new(normalized_rand), tower_placer: TowerPlacer::new(positive_rand) }
    }
}

/// Choose or advance the bot's path target: with none, the waypoint nearest
/// to the bot; with one, its successor once the bot is within the capture
/// radius.
pub fn find_target(bot: &mut Bot, path: &PathManager, translation: Vec3i)
    requires
        path.wf(),
        translation.wf(),
        match old(bot).target {
            Some(t) => path.contains_index(t),
            None => true,
        },
    ensures
        final(bot).spawn_delay == old(bot).spawn_delay,
        final(bot).random == old(bot).random,
        final(bot).target == match old(bot).target {
            Some(t) => {
                if translation.dist_sq_spec(path.map()[t]) < TARGET_CAPTURE_RADIUS
                    * TARGET_CAPTURE_RADIUS {
                    path.next_spec(t)
                } else {
                    Some(t)
                }
            },
            None => path.nearest_index_of(translation),
        },
        match final(bot).target {
            Some(t) => path.contains_index(t),
            None => true,
        },
{
    match bot.target {
        Some(t) => {
            let target_point = path.get(t);
            let d = translation.dist_sq(&target_point);
            if d < (TARGET_CAPTURE_RADIUS as i128) * (TARGET_CAPTURE_RADIUS as i128) {
                bot.target = path.get_next(t);
            }
        },
        None => {
            bot.target = path.get_closest_index(translation);
        },
    }
}

/// The (unscaled) dot product of two vectors.
pub open spec fn dot3(a: Vec3i, b: Vec3i) -> int {
    a.x * b.x + a.y * b.y + a.z * b.z
}

/// The lateral offset the steering reacts to: the dot product of the
/// vehicle's right axis (a milli-unit vector) with the vector from the
/// predicted next position to the target, scaled back to milli-units.
pub open spec fn steer_offset(right: Vec3i, target: Vec3i, translation: Vec3i, velocity: Vec3i)
    -> int {
    let d = Vec3i {
        x: (target.x - (translation.x + velocity.x)) as i64,
        y: (target.y - (translation.y + velocity.y)) as i64,
        z: (target.z - (translation.z + velocity.z)) as i64,
    };
    let raw = dot3(right, d);
    if raw >= 0 {
        raw / 1000
    } else {
        -((-raw) / 1000)
    }
}

/// The turn magnitude issued for a lateral offset `dot`: a tenth of its
/// magnitude toward the target, skewed by the bot's steering bias.
pub open spec fn steer_turn(dot: int, bias: int) -> int {
    let a = if dot < 0 {
        abs_int(dot) / 10
    } else {
        -(abs_int(dot) / 10)
    };
    a + mul_div_signed(bias, 600, 1000)
}

pub open spec fn abs_int(x: int) -> int {
    if x >= 0 {
        x
    } else {
        -x
    }
}

/// The actions a bot issues this tick: with a target, a turn toward it when
/// off axis and always gas; without one, brake.
pub fn steer(
    bot: &Bot,
    has_target: bool,
    target: Vec3i,
    right: Vec3i,
    translation: Vec3i,
    velocity: Vec3i,
) -> (actions: Vec<MovementAction>)
    requires
        bot.wf(),
        target.wf(),
        translation.wf(),
        -1000 <= right.x <= 1000,
        -1000 <= right.y <= 1000,
        -1000 <= right.z <= 1000,
        -crate::controller::SPEED_LIMIT <= velocity.x <= crate::controller::SPEED_LIMIT,
        -crate::controller::SPEED_LIMIT <= velocity.y <= crate::controller::SPEED_LIMIT,
        -crate::controller::SPEED_LIMIT <= velocity.z <= crate::controller::SPEED_LIMIT,
    ensures
        !has_target ==> actions@ =~= seq![MovementAction::Brake],
        has_target ==> {
            let dot = steer_offset(right, target, translation, velocity);
            if dot != 0 {
                actions@ =~= seq![
                    MovementAction::Turn(steer_turn(dot, bot.random as int) as i64),
                    MovementAction::Gas,
                ]
            } else {
                actions@ =~= seq![MovementAction::Gas]
            }
        },
{
    let mut actions: Vec<MovementAction> = Vec::new();
    if !has_target {
        actions.push(MovementAction::Brake);
        return actions;
    }
    let px = translation.x + velocity.x;
    let py = translation.y + velocity.y;
    let pz = translation.z + velocity.z;
    let dx = target.x - px;
    let dy = target.y - py;
    let dz = target.z - pz;
    proof {
        let bound: int = 0x2_0000_0000_0000;
        assert(-1000 * bound <= right.x * dx <= 1000 * bound && -1000 * bound <= right.y * dy
            <= 1000 * bound && -1000 * bound <= right.z * dz <= 1000 * bound) by (nonlinear_arith)
            requires
                -1000 <= right.x <= 1000,
                -1000 <= right.y <= 1000,
                -1000 <= right.z <= 1000,
                -bound <= dx <= bound,
                -bound <= dy <= bound,
                -bound <= dz <= bound,
                bound == 0x2_0000_0000_0000,
        ;
    }
    let raw: i128 = (right.x as i128) * (dx as i128) + (right.y as i128) * (dy as i128) + (
    right.z as i128) * (dz as i128);
    let dot: i64 = if raw >= 0 {
        (raw / 1000) as i64
    } else {
        -((-raw / 1000) as i64)
    };
    if dot < 0 {
        let mag = -dot;
        let bias = crate::math::mul_div_exec(bot.random, 600, 1000);
        actions.push(MovementAction::Turn(mag / 10 + bias));
    } else if dot > 0 {
        let mag = dot;
        let bias = crate::math::mul_div_exec(bot.random, 600, 1000);
        actions.push(MovementAction::Turn(-(mag / 10) + bias));
    }
    actions.push(MovementAction::Gas);
    actions
}

/// The start and finish waypoint indices the placement normalization uses:
/// the fold keeps, for each of the two tiers, the index of the last waypoint
/// of that tier that has one.
pub open spec fn tier_indices(ws: Seq<WayPoint>) -> (Option<usize>, Option<usize>)
    decreases ws.len(),
{
    if ws.len() == 0 {
        (None, None)
    } else {
        let acc = tier_indices(ws.drop_last());
        let w = ws.last();
        let start = if w.0 == WayPoints::Start && w.1 is Some {
            w.1
        } else {
            acc.0
        };
        let finish = if w.0 == WayPoints::Finish && w.1 is Some {
            w.1
        } else {
            acc.1
        };
        (start, finish)
    }
}

/// Fold the waypoint list into the start and finish indices.
pub fn find_tier_indices(waypoints: &Vec<WayPoint>) -> (r: (Option<usize>, Option<usize>))
    ensures
        r == tier_indices(waypoints@),
{
    let mut start: Option<usize> = None;
    let mut finish: Option<usize> = None;
    let mut i: usize = 0;
    while i < waypoints.len()
        invariant
            i <= waypoints@.len(),
            (start, finish) == tier_indices(waypoints@.subrange(0, i as int)),
        decreases waypoints@.len() - i,
    {
        let w = waypoints[i];
        proof {
            assert(waypoints@.subrange(0, i + 1int).drop_last() =~= waypoints@.subrange(
                0,
                i as int,
            ));
        }
        match (w.0, w.1) {
            (WayPoints::Start, Some(idx)) => {
                start = Some(idx);
            },
            (WayPoints::Finish, Some(idx)) => {
                finish = Some(idx);
            },
            _ => {},
        }
        i = i + 1;
    }
    proof {
        assert(waypoints@.subrange(0, waypoints@.len() as int) =~= waypoints@);
    }
    (start, finish)
}

/// Whether the bot's progress along the track has crossed its placement
/// threshold: its target index, normalized between the start and finish
/// indices, exceeds the threshold fraction.
pub fn placement_check(
    placer: &TowerPlacer,
    bot_index: usize,
    start_index: usize,
    finish_index: usize,
) -> (r: bool)
    ensures
        r == (start_index <= bot_index <= finish_index && (bot_index - start_index) * 1000
            > placer.min_permille_into_track * finish_index),
{
    if bot_index < start_index || bot_index > finish_index {
        return false;
    }
    let progress: u128 = ((bot_index - start_index) as u128) * 1000;
    proof {
        assert(0 <= (placer.min_permille_into_track as int) * (finish_index as int) < 0x1_0000_0000
            * 0x1_0000_0000_0000_0000) by (nonlinear_arith)
            requires
                0 <= placer.min_permille_into_track < 0x1_0000_0000,
                0 <= finish_index < 0x1_0000_0000_0000_0000,
        ;
    }
    let threshold: u128 = (placer.min_permille_into_track as u128) * (finish_index as u128);
    progress > threshold
}

/// The denominator the placement normalization divides by: the finish index
/// itself, or, when the finish waypoint sits at index 0 (the wrap boundary),
/// the path's previous index, with a fixed fallback for an empty path.
pub open spec fn norm_finish_spec(path: PathManager, finish_index: usize) -> usize {
    if finish_index != 0 {
        finish_index
    } else {
        match path.previous_spec(0) {
            Some(i) => i,
            None => FINISH_FALLBACK_INDEX,
        }
    }
}

/// Compute the normalization denominator; see [`norm_finish_spec`].
pub fn normalization_finish_index(path: &PathManager, finish_index: usize) -> (r: usize)
    requires
        path.wf(),
    ensures
        r == norm_finish_spec(*path, finish_index),
        finish_index != 0 ==> r == finish_index,
        finish_index == 0 && path.entries().len() == 0 ==> r == FINISH_FALLBACK_INDEX,
        finish_index == 0 && path.entries().len() > 0 ==> path.contains_index(r) && forall|
            k: usize,
        | path.contains_index(k) ==> k <= r,
{
    if finish_index != 0 {
        return finish_index;
    }
    match path.get_previous(0) {
        Some(i) => i,
        None => FINISH_FALLBACK_INDEX,
    }
}

/// Whether one tick of the tower-placement decision fires: the cooldown has
/// run out, the bot has a target, both tier indices are known, and the
/// bot's progress fraction between them has crossed its threshold.
pub open spec fn placement_fires(
    bot: Bot,
    placer: TowerPlacer,
    path: PathManager,
    waypoints: Seq<WayPoint>,
    delta_ms: u64,
) -> bool {
    &&& bot.spawn_delay.elapsed() + delta_ms >= bot.spawn_delay.duration()
    &&& bot.target is Some
    &&& tier_indices(waypoints).0 is Some
    &&& tier_indices(waypoints).1 is Some
    &&& {
        let bi = bot.target->0;
        let si = tier_indices(waypoints).0->0;
        let fi = norm_finish_spec(path, tier_indices(waypoints).1->0);
        si <= bi <= fi && (bi - si) * 1000 > placer.min_permille_into_track * fi
    }
}

/// One fixed tick of a bot's tower-placement decision. The placement
/// cooldown must have run out and the bot must have a target; the start and
/// finish waypoint indices frame the normalization (a finish at the wrap
/// boundary borrows the path's previous index); and the bot places exactly
/// when its progress fraction has crossed its threshold. On a placement the
/// cooldown restarts and the threshold re-rolls from the generator.
pub fn place_towers_tick(
    bot: &mut Bot,
    placer: &mut TowerPlacer,
    path: &PathManager,
    waypoints: &Vec<WayPoint>,
    rng: &mut bevy_turborand::GlobalRng,
    delta_ms: u64,
) -> (place: bool)
    requires
        old(bot).wf(),
        old(placer).wf(),
        path.wf(),
        delta_ms <= crate::timer::TIMER_LIMIT_MS,
    ensures
        final(bot).wf(),
        final(placer).wf(),
        final(bot).random == old(bot).random,
        final(bot).target == old(bot).target,
        !place ==> *final(placer) == *old(placer),
        place == placement_fires(
            *old(bot),
            *old(placer),
            *path,
            waypoints@,
            delta_ms,
        ),
        place ==> final(bot).spawn_delay.elapsed() == 0 && final(bot).spawn_delay.duration()
            == BOT_PLACEMENT_DELAY_MS && final(bot).spawn_delay.mode_spec() == TimerMode::Once,
        !place ==> final(bot).spawn_delay.duration() == old(bot).spawn_delay.duration() && final(bot).spawn_delay.mode_spec() == old(bot).spawn_delay.mode_spec() && final(bot).spawn_delay.elapsed() == if old(bot).spawn_delay.elapsed() + delta_ms <= old(
            bot,
        ).spawn_delay.duration() {
            old(bot).spawn_delay.elapsed() + delta_ms
        } else {
            old(bot).spawn_delay.duration() as int
        },
{
    bot.spawn_delay.tick(delta_ms);
    if !bot.spawn_delay.finished() {
        return false;
    }
    let bot_index = match bot.target {
        Some(t) => t,
        None => {
            return false;
        },
    };
    let (start, finish) = find_tier_indices(waypoints);
    let start_index = match start {
        Some(s) => s,
        None => {
            return false;
        },
    };
    let finish_raw = match finish {
        Some(f) => f,
        None => {
            return false;
        },
    };
    let finish_index = normalization_finish_index(path, finish_raw);
    if placement_check(placer, bot_index, start_index, finish_index) {
        bot.spawn_delay = Timer::from_millis(BOT_PLACEMENT_DELAY_MS, TimerMode::Once);
        placer.reroll(rng);
        true
    } else {
        false
    }
}

} // verus!
