//! Global race state: the match clock, the remaining kart colors, peak
//! entity counts, the player snapshot for the UI, and the end-of-match state
//! machine with its three distinct outcomes.

use vstd::prelude::*;

use crate::combat::{CreateHitEvent, KART_DIE_HIT_COUNT};
use crate::math::Vec3i;
use crate::bot::BotBundle;
use crate::race::{Kart, KartColor, LapCounter, Place};
use crate::timer::{Timer, TimerMode};

verus! {

/// How many kart colors a race starts with.
pub const KART_COLOR_COUNT: usize = 8;

/// Milliseconds an end condition must persist before the match ends.
pub const PLAYER_DEATH_COOLDOWN_MS: u64 = 2000;

/// Milliseconds of the pre-race countdown.
pub const PREGAME_COOLDOWN_MS: u64 = 6000;

#[derive(Clone, Copy, Debug, PartialEq, Eq, Structural)]
pub enum ControllerType {
    Keyboard,
    Gamepad,
}

/// How the match ended, once it did.
#[derive(Clone, Copy, Debug, PartialEq, Eq, Structural)]
pub enum GameEndingState {
    Winner,
    Died,
    FellBehind,
    Initial,
}

/// The phase of one race.
#[derive(Clone, Copy, Debug, PartialEq, Eq, Structural)]
pub enum IngameState {
    InGame,
    EndGame,
    PreGame,
}

/// The per-race global state.
pub struct GameState {
    /// Colors not yet assigned to a kart; spawners take from the end.
    pub kart_colors: Vec<KartColor>,
    /// Confirmation delay before an end condition ends the match.
    pub player_death_cooldown: Timer,
    /// The pre-race countdown.
    pub pregame_cooldown: Timer,
    pub ending_state: GameEndingState,
    pub enable_shadows: bool,
    pub enable_background: bool,
    pub enable_extra_physics: bool,
    pub enable_extra_entities: bool,
    /// Race clock, milliseconds.
    pub game_time_ms: u64,
    /// The most entities ever alive at once this race.
    pub peak_number_of_entities: usize,
    /// The player's rank last tick.
    pub player_place: usize,
    /// The player's lap last tick.
    pub player_lap: usize,
    pub controller_type: ControllerType,
}

impl GameState {
    pub open spec fn wf(self) -> bool {
        &&& self.player_death_cooldown.wf()
        &&& self.player_death_cooldown.mode_spec() == TimerMode::Once
        &&& self.pregame_cooldown.wf()
        &&& self.pregame_cooldown.mode_spec() == TimerMode::Once
    }

}

impl Default for GameState {
    /// The stock race state: all eight colors available, timers unstarted,
    /// no outcome yet.
    fn default() -> (r: GameState)
        ensures
            r.wf(),
            r.kart_colors@.len() == KART_COLOR_COUNT,
            forall|i: int|
                0 <= i < KART_COLOR_COUNT ==> #[trigger] r.kart_colors@[i] == KartColor(
                    i as usize,
                ),
            r.ending_state == GameEndingState::Initial,
            r.game_time_ms == 0,
            r.peak_number_of_entities == 0,
            r.player_place == 0,
            r.player_lap == 0,
            r.player_death_cooldown.elapsed() == 0,
            r.player_death_cooldown.duration() == PLAYER_DEATH_COOLDOWN_MS,
            r.player_death_cooldown.mode_spec() == TimerMode::Once,
            r.pregame_cooldown.elapsed() == 0,
            r.pregame_cooldown.duration() == PREGAME_COOLDOWN_MS,
            r.pregame_cooldown.mode_spec() == TimerMode::Once,
            r.enable_shadows && r.enable_background && r.enable_extra_physics
                && !r.enable_extra_entities,
            r.controller_type == ControllerType::Keyboard,
    {
        let mut kart_colors: Vec<KartColor> = Vec::new();
        let mut i: usize = 0;
        while i < KART_COLOR_COUNT
            invariant
                i <= KART_COLOR_COUNT,
                kart_colors@.len() == i,
                forall|j: int| 0 <= j < i ==> #[trigger] kart_colors@[j] == KartColor(j as usize),
            decreases KART_COLOR_COUNT - i,
        {
            kart_colors.push(KartColor(i));
            i = i + 1;
        }
        GameState {
            kart_colors,
            player_death_cooldown: Timer::from_millis(PLAYER_DEATH_COOLDOWN_MS, TimerMode::Once),
            pregame_cooldown: Timer::from_millis(PREGAME_COOLDOWN_MS, TimerMode::Once),
            ending_state: GameEndingState::Initial,
            enable_shadows: true,
            enable_background: true,
            enable_extra_physics: true,
            enable_extra_entities: false,
            game_time_ms: 0,
            peak_number_of_entities: 0,
            player_place: 0,
            player_lap: 0,
            controller_type: ControllerType::Keyboard,
        }
    }
}

impl GameState {
    /// The race state as configured from the settings screen.
    pub fn initialize(
        enable_shadows: bool,
        enable_background: bool,
        enable_extra_physics: bool,
        enable_extra_entities: bool,
        controller_type: ControllerType,
    ) -> (r: GameState)
        ensures
            r.wf(),
            r.enable_shadows == enable_shadows,
            r.enable_background == enable_background,
            r.enable_extra_physics == enable_extra_physics,
            r.enable_extra_entities == enable_extra_entities,
            r.controller_type == controller_type,
            r.ending_state == GameEndingState::Initial,
            r.game_time_ms == 0,
            r.peak_number_of_entities == 0,
            r.player_place == 0,
            r.player_lap == 0,
            r.kart_colors@.len() == KART_COLOR_COUNT,
            forall|i: int|
                0 <= i < KART_COLOR_COUNT ==> #[trigger] r.kart_colors@[i] == KartColor(
                    i as usize,
                ),
            r.player_death_cooldown.elapsed() == 0,
            r.player_death_cooldown.duration() == PLAYER_DEATH_COOLDOWN_MS,
            r.pregame_cooldown.elapsed() == 0,
            r.pregame_cooldown.duration() == PREGAME_COOLDOWN_MS,
    {
        let mut r = GameState::default();
        r.enable_shadows = enable_shadows;
        r.enable_background = enable_background;
        r.enable_extra_physics = enable_extra_physics;
        r.enable_extra_entities = enable_extra_entities;
        r.controller_type = controller_type;
        r
    }

    /// Take the next free kart color, if one is left.
    pub fn take_kart_color(&mut self) -> (r: Option<KartColor>)
        ensures
            old(self).kart_colors@.len() == 0 ==> r is None && final(self).kart_colors@ == old(
                self,
            ).kart_colors@,
            old(self).kart_colors@.len() > 0 ==> {
                &&& r == Some(old(self).kart_colors@.last())
                &&& final(self).kart_colors@ == old(self).kart_colors@.drop_last()
            },
            final(self).pregame_cooldown == old(self).pregame_cooldown,
            final(self).enable_shadows == old(self).enable_shadows,
            final(self).enable_background == old(self).enable_background,
            final(self).enable_extra_physics == old(self).enable_extra_physics,
            final(self).enable_extra_entities == old(self).enable_extra_entities,
            final(self).player_place == old(self).player_place,
            final(self).player_lap == old(self).player_lap,
            final(self).controller_type == old(self).controller_type,
            final(self).player_death_cooldown == old(self).player_death_cooldown,
            final(self).pregame_cooldown == old(self).pregame_cooldown,
            final(self).ending_state == old(self).ending_state,
            final(self).game_time_ms == old(self).game_time_ms,
            final(self).peak_number_of_entities == old(self).peak_number_of_entities,
    {
        self.kart_colors.pop()
    }
}

/// Per-tick bookkeeping of the global state: the race clock advances, the
/// peak entity count ratchets up, and the player's place and lap are
/// snapshotted for the UI.
pub fn update_game_state(
    game_state: &mut GameState,
    entity_count: usize,
    player: Option<(Place, LapCounter)>,
    delta_ms: u64,
)
    requires
        old(game_state).game_time_ms + delta_ms <= u64::MAX,
    ensures
        final(game_state).game_time_ms == old(game_state).game_time_ms + delta_ms,
        final(game_state).peak_number_of_entities == if entity_count > old(
            game_state,
        ).peak_number_of_entities {
            entity_count as int
        } else {
            old(game_state).peak_number_of_entities as int
        },
        match player {
            Some((place, lap)) => final(game_state).player_place == place.0
                && final(game_state).player_lap == lap.0,
            None => final(game_state).player_place == old(game_state).player_place
                && final(game_state).player_lap == old(game_state).player_lap,
        },
        final(game_state).kart_colors == old(game_state).kart_colors,
        final(game_state).ending_state == old(game_state).ending_state,
        final(game_state).player_death_cooldown == old(game_state).player_death_cooldown,
{
    if entity_count > game_state.peak_number_of_entities {
        game_state.peak_number_of_entities = entity_count;
    }
    game_state.game_time_ms = game_state.game_time_ms + delta_ms;
    match player {
        Some((place, lap)) => {
            game_state.player_place = place.0;
            game_state.player_lap = lap.0;
        },
        None => {},
    }
}

/// A player vehicle is among the karts.
pub open spec fn player_exists(karts: Seq<Kart>) -> bool {
    exists|i: int| 0 <= i < karts.len() && (#[trigger] karts[i]).is_player
}

/// The player vehicle is dead (meaningful when exactly one player exists).
pub open spec fn player_is_dead(karts: Seq<Kart>) -> bool {
    exists|i: int| 0 <= i < karts.len() && (#[trigger] karts[i]).is_player && karts[i].health.hp()
        == 0
}

/// The match is decided: the player has won by attrition, died, or is gone.
pub open spec fn game_is_over(karts: Seq<Kart>) -> bool {
    ||| !player_exists(karts)
    ||| player_is_dead(karts)
    ||| (player_exists(karts) && karts.len() <= 1)
}

/// The hit-effect bursts the dead karts among the first `m` leave behind,
/// in kart order.
pub open spec fn death_effects_spec(
    karts: Seq<Kart>,
    translations: Seq<Vec3i>,
    with_physics: bool,
    m: int,
) -> Seq<CreateHitEvent>
    decreases m,
{
    if m <= 0 {
        Seq::empty()
    } else {
        let prefix = death_effects_spec(karts, translations, with_physics, m - 1);
        if karts[m - 1].health.hp() == 0 {
            prefix.push(
                CreateHitEvent {
                    position: translations[m - 1],
                    count: KART_DIE_HIT_COUNT,
                    color: karts[m - 1].color,
                    with_physics,
                },
            )
        } else {
            prefix
        }
    }
}

/// The hit-effect bursts dead karts leave behind as they despawn, in kart
/// order.
pub fn death_effects(karts: &Vec<Kart>, translations: &Vec<Vec3i>, with_physics: bool) -> (effects:
    Vec<CreateHitEvent>)
    requires
        karts@.len() == translations@.len(),
    ensures
        effects@ == death_effects_spec(karts@, translations@, with_physics, karts@.len() as int),
{
    let mut effects: Vec<CreateHitEvent> = Vec::new();
    let mut i: usize = 0;
    while i < karts.len()
        invariant
            karts@.len() == translations@.len(),
            i <= karts@.len(),
            effects@ =~= death_effects_spec(karts@, translations@, with_physics, i as int),
        decreases karts@.len() - i,
    {
        if karts[i].health.is_dead() {
            effects.push(
                CreateHitEvent {
                    position: translations[i],
                    count: KART_DIE_HIT_COUNT,
                    color: karts[i].color,
                    with_physics,
                },
            );
        }
        i = i + 1;
    }
    effects
}

/// Check the end-of-match conditions once per tick. While the race runs and
/// an end condition holds, the confirmation timer advances; once it
/// finishes, the outcome is recorded (a win by attrition beats a death) and
/// the match moves to its end phase. The move happens only from the running
/// phase, so re-entry cannot re-fire it.
pub fn update_match_state(
    karts: &Vec<Kart>,
    game_state: &mut GameState,
    ingame: &mut IngameState,
    delta_ms: u64,
)
    requires
        old(game_state).wf(),
        delta_ms <= crate::timer::TIMER_LIMIT_MS,
    ensures
        final(game_state).wf(),
        final(game_state).kart_colors == old(game_state).kart_colors,
        final(game_state).game_time_ms == old(game_state).game_time_ms,
        final(game_state).peak_number_of_entities == old(game_state).peak_number_of_entities,
        *old(ingame) != IngameState::InGame ==> *final(ingame) == *old(ingame) && *final(game_state) == *old(game_state),
        *old(ingame) == IngameState::InGame && !game_is_over(karts@) ==> *final(ingame) == *old(
            ingame,
        ) && *final(game_state) == *old(game_state),
        *old(ingame) == IngameState::InGame && game_is_over(karts@) ==> {
            let fired = old(game_state).player_death_cooldown.elapsed() + delta_ms >= old(
                game_state,
            ).player_death_cooldown.duration();
            if fired {
                &&& *final(ingame) == IngameState::EndGame
                &&& final(game_state).ending_state == if player_exists(karts@) && karts@.len()
                    <= 1 {
                    GameEndingState::Winner
                } else {
                    GameEndingState::Died
                }
            } else {
                &&& *final(ingame) == *old(ingame)
                &&& final(game_state).ending_state == old(game_state).ending_state
                &&& final(game_state).player_death_cooldown.elapsed() == old(
                    game_state,
                ).player_death_cooldown.elapsed() + delta_ms
            }
        },
{
    if !matches!(*ingame, IngameState::InGame) {
        return ;
    }
    let n = karts.len();
    let mut p_exists = false;
    let mut p_dead = false;
    let mut i: usize = 0;
    while i < n
        invariant
            n == karts@.len(),
            i <= n,
            p_exists == exists|j: int| 0 <= j < i && (#[trigger] karts@[j]).is_player,
            p_dead == exists|j: int|
                0 <= j < i && (#[trigger] karts@[j]).is_player && karts@[j].health.hp() == 0,
        decreases n - i,
    {
        if karts[i].is_player {
            p_exists = true;
            if karts[i].health.is_dead() {
                p_dead = true;
            }
        }
        i = i + 1;
    }
    let player_won = p_exists && n <= 1;
    let over = !p_exists || p_dead || player_won;
    if over {
        game_state.player_death_cooldown.tick(delta_ms);
        if game_state.player_death_cooldown.finished() {
            game_state.ending_state = if player_won {
                GameEndingState::Winner
            } else {
                GameEndingState::Died
            };
            *ingame = IngameState::EndGame;
        }
    }
}

/// How many human players a race seats; spawners beyond this count get a
/// bot brain instead of input bindings.
pub const NUMBER_OF_PLAYERS: usize = 1;

/// Spawn one kart at a spawner: it takes the next free color, becomes the
/// player while player seats remain and a bot otherwise, and a bot brings a
/// brain seeded from the two spawn-time draws.
pub fn spawn_kart(
    game_state: &mut GameState,
    count_of_spawned_players: usize,
    normalized_rand: i64,
    positive_rand: u32,
) -> (r: (Kart, Option<BotBundle>))
    requires
        old(game_state).kart_colors@.len() > 0,
        -1000 <= normalized_rand <= 1000,
        positive_rand < 1000,
    ensures
        final(game_state).kart_colors@ == old(game_state).kart_colors@.drop_last(),
        final(game_state).ending_state == old(game_state).ending_state,
        final(game_state).game_time_ms == old(game_state).game_time_ms,
        final(game_state).player_death_cooldown == old(game_state).player_death_cooldown,
        r.0.wf(),
        r.0.color == old(game_state).kart_colors@.last(),
        r.0.is_player == (count_of_spawned_players < NUMBER_OF_PLAYERS),
        r.0.next_waypoint == crate::race::NextWayPoint(crate::race::WayPoints::Quarter),
        r.0.lap_counter.0 == 1,
        r.0.place_counter.0 == 0,
        r.0.place.0 == 0,
        r.0.points.0 == crate::race::STARTING_POINTS,
        r.0.health.hp() == crate::race::KART_HEALTH,
        r.0.health.max() == crate::race::KART_HEALTH,
        r.0.invulnerability is None,
        r.0.is_player ==> r.1 is None,
        !r.0.is_player ==> match r.1 {
            Some(bundle) => bundle.bot.wf() && bundle.tower_placer.wf() && bundle.bot.random
                == normalized_rand,
            None => false,
        },
{
    let color = match game_state.take_kart_color() {
        Some(c) => c,
        None => {
            proof {
                assert(false);
            }
            KartColor(0)
        },
    };
    let is_player = count_of_spawned_players < NUMBER_OF_PLAYERS;
    let kart = Kart::new(color, is_player);
    let brain = if is_player {
        None
    } else {
        Some(BotBundle::new(normalized_rand, positive_rand))
    };
    (kart, brain)
}

/// One tick of the pre-race countdown: the clock advances, and once less
/// than a second remains the race begins. Returns the whole seconds left,
/// the number the countdown display shows.
pub fn pregame_tick(game_state: &mut GameState, ingame: &mut IngameState, delta_ms: u64) -> (
    remaining_secs: u64)
    requires
        old(game_state).wf(),
        delta_ms <= crate::timer::TIMER_LIMIT_MS,
    ensures
        final(game_state).wf(),
        final(game_state).ending_state == old(game_state).ending_state,
        final(game_state).kart_colors == old(game_state).kart_colors,
        final(game_state).player_death_cooldown == old(game_state).player_death_cooldown,
        ({
            let elapsed_now = if old(game_state).pregame_cooldown.elapsed() + delta_ms <= old(
                game_state,
            ).pregame_cooldown.duration() {
                old(game_state).pregame_cooldown.elapsed() + delta_ms
            } else {
                old(game_state).pregame_cooldown.duration() as int
            };
            let remaining_ms = old(game_state).pregame_cooldown.duration() - elapsed_now;
            &&& remaining_secs == remaining_ms / 1000
            &&& (remaining_ms < 1000 ==> *final(ingame) == IngameState::InGame)
            &&& (remaining_ms >= 1000 ==> *final(ingame) == *old(ingame))
        }),
{
    game_state.pregame_cooldown.tick(delta_ms);
    let remaining_ms = game_state.pregame_cooldown.duration_left();
    if remaining_ms < 1000 {
        *ingame = IngameState::InGame;
    }
    remaining_ms / 1000
}

} // verus!
