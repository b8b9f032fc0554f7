//! Hit points with saturating arithmetic, and the time-boxed invulnerability
//! window granted after a hit.

use vstd::prelude::*;

use crate::timer::{Timer, TimerMode};

verus! {

/// How long a vehicle stays immune after taking a hit (ms).
pub const INVULNERABILITY_MS: u64 = 2000;

/// Cadence of the invulnerability flash effect (ms).
pub const INVULNERABILITY_FLASH_MS: u64 = 500;

/// Current and maximum hit points. Subtraction saturates at zero, addition
/// at the maximum.
#[derive(Clone, Copy, Debug)]
pub struct Health {
    health_points: usize,
    max_health: usize,
}

impl Health {
    pub closed spec fn hp(self) -> usize {
        self.health_points
    }

    pub closed spec fn max(self) -> usize {
        self.max_health
    }

    pub open spec fn wf(self) -> bool {
        self.hp() <= self.max()
    }

    pub open spec fn is_dead_spec(self) -> bool {
        self.hp() == 0
    }

    /// Full health: `max_health` out of `max_health` points.
    pub fn new(max_health: usize) -> (r: Health)
        ensures
            r.wf(),
            r.hp() == max_health,
            r.max() == max_health,
    {
        Health { health_points: max_health, max_health }
    }

    pub fn is_dead(&self) -> (r: bool)
        ensures
            r == self.is_dead_spec(),
    {
        self.health_points == 0
    }

    pub fn is_alive(&self) -> (r: bool)
        ensures
            r == !self.is_dead_spec(),
    {
        self.health_points > 0
    }

    /// Take `hp` points of damage, never dropping below zero.
    pub fn subtract(&mut self, hp: usize)
        ensures
            final(self).max() == old(self).max(),
            final(self).hp() == if old(self).hp() >= hp {
                old(self).hp() - hp
            } else {
                0
            },
            old(self).wf() ==> final(self).wf(),
            *final(self) == health_after_subtract(*old(self), hp),
    {
        self.health_points = if self.health_points >= hp {
            self.health_points - hp
        } else {
            0
        };
    }

    /// Recover `hp` points, never exceeding the maximum.
    pub fn add(&mut self, hp: usize)
        requires
            old(self).wf(),
        ensures
            final(self).wf(),
            final(self).max() == old(self).max(),
            final(self).hp() == if old(self).hp() + hp <= old(self).max() {
                old(self).hp() + hp
            } else {
                old(self).max() as int
            },
            *final(self) == health_after_add(*old(self), hp),
    {
        let headroom = self.max_health - self.health_points;
        self.health_points = if hp <= headroom {
            self.health_points + hp
        } else {
            self.max_health
        };
    }
}

/// Law: hit points never leave `0 ..= max_health`, damage never increases
/// them, recovery never decreases them, and either operation moves them
/// monotonically in its argument.
pub proof fn lemma_health_saturation(h: Health, a: usize, b: usize)
    requires
        h.wf(),
    ensures
        health_after_subtract(h, a).wf(),
        health_after_add(h, a).wf(),
        health_after_subtract(h, a).hp() <= h.hp(),
        health_after_add(h, a).hp() >= h.hp(),
        a <= b ==> health_after_subtract(h, b).hp() <= health_after_subtract(h, a).hp(),
        a <= b ==> health_after_add(h, a).hp() <= health_after_add(h, b).hp(),
        health_after_subtract(health_after_add(h, a), b).wf(),
{
}

/// The health value `subtract(hp)` leaves behind.
pub open spec fn health_after_subtract(h: Health, hp: usize) -> Health {
    if h.hp() >= hp {
        Health::spec_with(h.max(), (h.hp() - hp) as usize)
    } else {
        Health::spec_with(h.max(), 0)
    }
}

/// The health value `add(hp)` leaves behind.
pub open spec fn health_after_add(h: Health, hp: usize) -> Health {
    if h.hp() + hp <= h.max() {
        Health::spec_with(h.max(), (h.hp() + hp) as usize)
    } else {
        Health::spec_with(h.max(), h.max())
    }
}

impl Health {
    /// A health value with the given maximum and current points.
    pub closed spec fn spec_with(max: usize, hp: usize) -> Health {
        Health { health_points: hp, max_health: max }
    }
}

/// The invulnerability window attached to a vehicle on taking a hit, removed
/// automatically when its lifetime expires. Its default is the fresh window
/// a hit grants.
#[derive(Clone, Copy, Debug)]
pub struct Invulnerability {
    pub time_to_live: Timer,
    pub flash_cooldown: Timer,
}

impl Invulnerability {
    pub open spec fn wf(self) -> bool {
        self.time_to_live.wf() && self.flash_cooldown.wf()
    }

    /// A fresh window: hit immunity for [`INVULNERABILITY_MS`].
    pub fn new() -> (r: Invulnerability)
        ensures
            r.wf(),
            r.time_to_live.elapsed() == 0,
            r.time_to_live.duration() == INVULNERABILITY_MS,
            r.time_to_live.mode_spec() == TimerMode::Once,
            !r.time_to_live.finished_spec(),
    {
        Invulnerability {
            time_to_live: Timer::from_millis(INVULNERABILITY_MS, TimerMode::Once),
            flash_cooldown: Timer::from_millis(INVULNERABILITY_FLASH_MS, TimerMode::Repeating),
        }
    }

    /// Advance the window's clock; the result says whether it has expired
    /// and must be removed.
    pub fn tick(&mut self, delta_ms: u64) -> (expired: bool)
        requires
            old(self).wf(),
            delta_ms <= crate::timer::TIMER_LIMIT_MS,
        ensures
            final(self).wf(),
            expired == (old(self).time_to_live.elapsed() + delta_ms
                >= old(self).time_to_live.duration()),
            final(self).time_to_live.duration() == old(self).time_to_live.duration(),
            final(self).time_to_live.mode_spec() == old(self).time_to_live.mode_spec(),
    {
        self.time_to_live.tick(delta_ms);
        self.time_to_live.finished()
    }
}

impl Default for Invulnerability {
    /// The window a fresh hit grants.
    fn default() -> (r: Invulnerability)
        ensures
            r.wf(),
            r.time_to_live.elapsed() == 0,
            r.time_to_live.duration() == INVULNERABILITY_MS,
            r.time_to_live.mode_spec() == TimerMode::Once,
    {
        Invulnerability::new()
    }
}

} // verus!
