//! Race progression: the per-vehicle waypoint tier machine, lap counting and
//! the lap-completion credit grant.
//!
//! A vehicle advances its tier only when it collides with the waypoint it is
//! currently targeting; colliding with any other waypoint changes nothing.
//! Crossing Finish increments the lap counter and grants `9 - place` credits,
//! so trailing racers earn more than the leader.

use vstd::prelude::*;

use crate::health::{Health, Invulnerability};
use crate::math::Vec3i;
use crate::path::PathManager;

verus! {

/// Hit points a kart spawns with.
pub const KART_HEALTH: usize = 3;

/// Credits a kart spawns with.
pub const STARTING_POINTS: usize = 8;

/// The four coarse lap-progress waypoints of the track.
#[derive(Clone, Copy, Debug, PartialEq, Eq, Structural)]
pub enum WayPoints {
    Start,
    Finish,
    Quarter,
    Half,
}

/// A waypoint marker: its tier and, once resolved against the path, the
/// index of the nearest path point.
#[derive(Clone, Copy, Debug, PartialEq, Eq, Structural)]
pub struct WayPoint(pub WayPoints, pub Option<usize>);

/// The tier a vehicle must hit next.
#[derive(Clone, Copy, Debug, PartialEq, Eq, Structural)]
pub struct NextWayPoint(pub WayPoints);

/// Laps completed plus one: karts start on lap 1.
#[derive(Clone, Copy, Debug, PartialEq, Eq, Structural)]
pub struct LapCounter(pub usize);

/// Fine-grained monotone track progress, from placement sensors.
#[derive(Clone, Copy, Debug, PartialEq, Eq, Structural)]
pub struct PlaceCounter(pub usize);

/// Live rank, 1 = leader; 0 until the first placement tick.
#[derive(Clone, Copy, Debug, PartialEq, Eq, Structural)]
pub struct Place(pub usize);

/// Credit balance, spent on towers and earned per lap.
#[derive(Clone, Copy, Debug, PartialEq, Eq, Structural)]
pub struct Points(pub usize);

/// Which of the fixed kart colors a vehicle carries.
#[derive(Clone, Copy, Debug, PartialEq, Eq, Structural)]
pub struct KartColor(pub usize);

/// One racing vehicle: its identity and every per-race counter the
/// simulation mutates tick over tick.
#[derive(Clone, Copy, Debug)]
pub struct Kart {
    pub color: KartColor,
    pub is_player: bool,
    pub next_waypoint: NextWayPoint,
    pub lap_counter: LapCounter,
    pub place_counter: PlaceCounter,
    pub place: Place,
    pub points: Points,
    pub health: Health,
    pub invulnerability: Option<Invulnerability>,
}

impl Kart {
    pub open spec fn wf(self) -> bool {
        &&& self.health.wf()
        &&& self.lap_counter.0 >= 1
        &&& match self.invulnerability {
            Some(inv) => inv.wf(),
            None => true,
        }
    }

    /// A freshly spawned kart: targeting Quarter on lap 1, no progress yet,
    /// starting credits and full health.
    pub fn new(color: KartColor, is_player: bool) -> (r: Kart)
        ensures
            r.wf(),
            r.color == color,
            r.is_player == is_player,
            r.next_waypoint == NextWayPoint(WayPoints::Quarter),
            r.lap_counter == LapCounter(1usize),
            r.place_counter == PlaceCounter(0usize),
            r.place == Place(0usize),
            r.points == Points(STARTING_POINTS),
            r.health.hp() == KART_HEALTH,
            r.health.max() == KART_HEALTH,
            r.invulnerability is None,
    {
        Kart {
            color,
            is_player,
            next_waypoint: NextWayPoint(WayPoints::Quarter),
            lap_counter: LapCounter(1),
            place_counter: PlaceCounter(0),
            place: Place(0),
            points: Points(STARTING_POINTS),
            health: Health::new(KART_HEALTH),
            invulnerability: None,
        }
    }

    /// The tier after `t` in the lap cycle.
    pub open spec fn tier_after(t: WayPoints) -> WayPoints {
        match t {
            WayPoints::Start => WayPoints::Quarter,
            WayPoints::Quarter => WayPoints::Half,
            WayPoints::Half => WayPoints::Finish,
            WayPoints::Finish => WayPoints::Start,
        }
    }

    /// Advance the waypoint tier unconditionally: the handler run once a
    /// matching waypoint collision is confirmed. Crossing Finish increments
    /// the lap and grants `9 - place` credits.
    pub fn advance_waypoint(&mut self)
        requires
            old(self).wf(),
            old(self).place.0 <= 9,
            old(self).points.0 + 9 <= usize::MAX,
            old(self).lap_counter.0 < usize::MAX,
        ensures
            final(self).wf(),
            final(self).next_waypoint.0 == Kart::tier_after(old(self).next_waypoint.0),
            old(self).next_waypoint.0 == WayPoints::Finish ==> {
                &&& final(self).lap_counter.0 == old(self).lap_counter.0 + 1
                &&& final(self).points.0 == old(self).points.0 + 9 - old(self).place.0
            },
            old(self).next_waypoint.0 != WayPoints::Finish ==> {
                &&& final(self).lap_counter == old(self).lap_counter
                &&& final(self).points == old(self).points
            },
            final(self).color == old(self).color,
            final(self).is_player == old(self).is_player,
            final(self).place_counter == old(self).place_counter,
            final(self).place == old(self).place,
            final(self).health == old(self).health,
            final(self).invulnerability == old(self).invulnerability,
    {
        self.next_waypoint.0 = match self.next_waypoint.0 {
            WayPoints::Start => WayPoints::Quarter,
            WayPoints::Quarter => WayPoints::Half,
            WayPoints::Half => WayPoints::Finish,
            WayPoints::Finish => {
                self.lap_counter.0 = self.lap_counter.0 + 1;
                self.points.0 = self.points.0 + (9 - self.place.0);
                WayPoints::Start
            },
        };
    }

    /// React to colliding with a waypoint of tier `hit`: the tier machine
    /// moves only on a matching collision, so waypoints cannot be skipped
    /// out of order or double-counted.
    pub fn handle_waypoint_collision(&mut self, hit: WayPoints)
        requires
            old(self).wf(),
            old(self).place.0 <= 9,
            old(self).points.0 + 9 <= usize::MAX,
            old(self).lap_counter.0 < usize::MAX,
        ensures
            final(self).wf(),
            hit != old(self).next_waypoint.0 ==> *final(self) == *old(self),
            hit == old(self).next_waypoint.0 ==> {
                &&& final(self).next_waypoint.0 == Kart::tier_after(old(self).next_waypoint.0)
                &&& (old(self).next_waypoint.0 == WayPoints::Finish ==> final(self).lap_counter.0
                    == old(self).lap_counter.0 + 1 && final(self).points.0 == old(self).points.0
                    + 9 - old(self).place.0)
                &&& (old(self).next_waypoint.0 != WayPoints::Finish ==> final(self).lap_counter
                    == old(self).lap_counter && final(self).points == old(self).points)
                &&& final(self).color == old(self).color
                &&& final(self).is_player == old(self).is_player
                &&& final(self).place_counter == old(self).place_counter
                &&& final(self).place == old(self).place
                &&& final(self).health == old(self).health
                &&& final(self).invulnerability == old(self).invulnerability
            },
    {
        if hit == self.next_waypoint.0 {
            self.advance_waypoint();
        }
    }
}

/// Resolve a freshly spawned waypoint marker against the path: one without
/// an index yet takes the index of the path point nearest to where it
/// spawned.
pub fn populate_waypoint_index(w: &mut WayPoint, path: &PathManager, spawn_point: Vec3i)
    requires
        path.wf(),
        spawn_point.wf(),
    ensures
        final(w).0 == old(w).0,
        old(w).1 is Some ==> *final(w) == *old(w),
        old(w).1 is None ==> final(w).1 == path.nearest_index_of(spawn_point),
{
    if w.1.is_none() {
        w.1 = path.get_closest_index(spawn_point);
    }
}

} // verus!
