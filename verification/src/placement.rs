//! Live race placement: the per-vehicle place counter fed by track sensors,
//! and the total ranking recomputed every fixed tick from `(lap, progress)`.
//!
//! The place counter only ever increases, and only by a bounded jump per
//! tick, which rejects spurious sensor readings from falls or teleports.
//! Ranks are assigned by counting, for each racer, how many others beat it
//! under the strict order "higher key, ties to the later racer", which yields
//! the ranks `1..=n` exactly, with no duplicates and no gaps.

use vstd::prelude::*;

use crate::game::{GameEndingState, GameState, IngameState};
use crate::health::health_after_subtract;
use crate::race::{Kart, LapCounter, Place, PlaceCounter};

verus! {

/// Largest accepted per-tick increase of the place counter.
pub const PLACE_JUMP_BOUND: usize = 20;

/// Lap weight in the ranking key; it exceeds every sensor index, so the lap
/// always dominates the ordering.
pub const LAP_KEY_WEIGHT: usize = 1000;

/// Health penalty applied each tick to a racer that fell a lap behind.
pub const FELL_BEHIND_PENALTY: usize = 10;

/// Accept a sensed sensor index only if it is ahead of the stored progress
/// by less than the jump bound; the counter never decreases.
pub fn update_place_counter(pc: &mut PlaceCounter, sensed_index: usize)
    ensures
        final(pc).0 == if old(pc).0 < sensed_index && sensed_index - old(pc).0
            < PLACE_JUMP_BOUND {
            sensed_index
        } else {
            old(pc).0
        },
        final(pc).0 >= old(pc).0,
        final(pc).0 - old(pc).0 < PLACE_JUMP_BOUND,
{
    if pc.0 < sensed_index && sensed_index - pc.0 < PLACE_JUMP_BOUND {
        pc.0 = sensed_index;
    }
}

/// The sort key of the ranking: laps dominate, progress breaks lap ties.
pub open spec fn race_key(standing: (LapCounter, PlaceCounter)) -> int {
    standing.0.0 * LAP_KEY_WEIGHT + standing.1.0
}

/// Racer `j` beats racer `i`: a strictly larger key, or an equal key and a
/// later position in the list.
pub open spec fn beats(s: Seq<(LapCounter, PlaceCounter)>, j: int, i: int) -> bool {
    race_key(s[j]) > race_key(s[i]) || (race_key(s[j]) == race_key(s[i]) && j > i)
}

/// How many racers with position below `m` beat racer `i`.
pub open spec fn beat_count(s: Seq<(LapCounter, PlaceCounter)>, i: int, m: nat) -> nat
    decreases m,
{
    if m == 0 {
        0
    } else {
        (beat_count(s, i, (m - 1) as nat) + if beats(s, m - 1, i) {
            1int
        } else {
            0int
        }) as nat
    }
}

/// At most the racers other than `i` itself can beat `i`.
proof fn lemma_beat_count_bound(s: Seq<(LapCounter, PlaceCounter)>, i: int, m: nat)
    requires
        0 <= i,
    ensures
        beat_count(s, i, m) <= if i < m {
            m - 1
        } else {
            m as int
        },
    decreases m,
{
    if m > 0 {
        lemma_beat_count_bound(s, i, (m - 1) as nat);
    }
}

/// If `a` beats `b`, then strictly more racers beat `b` than beat `a`.
proof fn lemma_beat_count_strict(s: Seq<(LapCounter, PlaceCounter)>, a: int, b: int, m: nat)
    requires
        0 <= a,
        0 <= b,
        beats(s, a, b),
    ensures
        beat_count(s, b, m) >= beat_count(s, a, m) + if a < m {
            1int
        } else {
            0int
        },
    decreases m,
{
    if m > 0 {
        lemma_beat_count_strict(s, a, b, (m - 1) as nat);
    }
}

/// Count at run time how many racers beat racer `i`.
fn count_beaters(standings: &Vec<(LapCounter, PlaceCounter)>, i: usize) -> (c: usize)
    requires
        i < standings@.len(),
    ensures
        c == beat_count(standings@, i as int, standings@.len()),
        c < standings@.len(),
{
    let n = standings.len();
    let key_i: u128 = standings[i].0.0 as u128 * LAP_KEY_WEIGHT as u128 + standings[i].1.0 as u128;
    let mut c: usize = 0;
    let mut j: usize = 0;
    while j < n
        invariant
            n == standings@.len(),
            i < n,
            j <= n,
            key_i == race_key(standings@[i as int]),
            c == beat_count(standings@, i as int, j as nat),
            c <= if (i as int) < j { j - 1 } else { j as int },
        decreases n - j,
    {
        let key_j: u128 = standings[j].0.0 as u128 * LAP_KEY_WEIGHT as u128
            + standings[j].1.0 as u128;
        if key_j > key_i || (key_j == key_i && j > i) {
            c = c + 1;
        }
        j = j + 1;
    }
    proof {
        lemma_beat_count_bound(standings@, i as int, n as nat);
    }
    c
}

/// Rank every racer from its `(lap, place counter)` standing: rank 1 is the
/// leader. The result lists, in racer order, ranks that are a permutation of
/// `1..=n`, and any racer with a strictly better key ranks strictly ahead.
pub fn assign_places(standings: &Vec<(LapCounter, PlaceCounter)>) -> (places: Vec<Place>)
    ensures
        places@.len() == standings@.len(),
        forall|i: int|
            0 <= i < places@.len() ==> 1 <= (#[trigger] places@[i]).0 <= standings@.len(),
        forall|i: int, j: int|
            0 <= i < places@.len() && 0 <= j < places@.len() && i != j ==> places@[i].0
                != places@[j].0,
        forall|i: int, j: int|
            0 <= i < places@.len() && 0 <= j < places@.len() && race_key(standings@[j])
                > race_key(standings@[i]) ==> places@[j].0 < places@[i].0,
{
    let n = standings.len();
    let mut places: Vec<Place> = Vec::new();
    let mut i: usize = 0;
    while i < n
        invariant
            n == standings@.len(),
            i <= n,
            places@.len() == i,
            forall|k: int|
                0 <= k < i ==> (#[trigger] places@[k]).0 == beat_count(
                    standings@,
                    k,
                    n as nat,
                ) + 1,
            forall|k: int| 0 <= k < i ==> 1 <= (#[trigger] places@[k]).0 <= n,
        decreases n - i,
    {
        let c = count_beaters(standings, i);
        places.push(Place(c + 1));
        i = i + 1;
    }
    proof {
        assert forall|a: int, b: int|
            0 <= a < n && 0 <= b < n && a != b implies places@[a].0 != places@[b].0 by {
            if beats(standings@, a, b) {
                lemma_beat_count_strict(standings@, a, b, n as nat);
            } else {
                assert(beats(standings@, b, a));
                lemma_beat_count_strict(standings@, b, a, n as nat);
            }
        }
        assert forall|a: int, b: int|
            0 <= a < n && 0 <= b < n && race_key(standings@[b]) > race_key(
                standings@[a],
            ) implies places@[b].0 < places@[a].0 by {
            lemma_beat_count_strict(standings@, b, a, n as nat);
        }
    }
    places
}

/// Law: the assigned ranks cover every value `1..=n`: together with the
/// distinctness `assign_places` ensures, the ranking is a total order with
/// no duplicates and no gaps.
pub proof fn lemma_places_cover(places: Seq<Place>, r: int)
    requires
        forall|i: int| 0 <= i < places.len() ==> 1 <= (#[trigger] places[i]).0 <= places.len(),
        forall|i: int, j: int|
            0 <= i < places.len() && 0 <= j < places.len() && i != j ==> places[i].0
                != places[j].0,
        1 <= r <= places.len(),
    ensures
        exists|i: int| 0 <= i < places.len() && (#[trigger] places[i]).0 == r,
{
    broadcast use vstd::set::group_set_axioms;

    let n = places.len() as int;
    let ranks = places.map(|i: int, p: Place| p.0 as int);
    assert(ranks.no_duplicates());
    ranks.unique_seq_to_set();
    let all = vstd::set_lib::set_int_range(1, n + 1);
    vstd::set_lib::lemma_int_range(1, n + 1);
    if forall|i: int| 0 <= i < n ==> (#[trigger] ranks[i]) != r {
        let missing = all.remove(r);
        assert(ranks.to_set().subset_of(missing)) by {
            assert forall|x: int| ranks.to_set().contains(x) implies missing.contains(x) by {
                let i = choose|i: int| 0 <= i < ranks.len() && ranks[i] == x;
                assert(places[i].0 == x);
            }
        }
        vstd::set_lib::lemma_len_subset(ranks.to_set(), missing);
        assert(missing.len() == n - 1);
        assert(false);
    }
    let i = choose|i: int| 0 <= i < n && (#[trigger] ranks[i]) == r;
    assert(places[i].0 == r);
}

/// Whether a racer's lap count has fallen more than one lap behind the
/// current leader: the fell-behind penalty applies each tick this holds.
pub fn fell_behind(lap: LapCounter, furthest_lap: usize) -> (r: bool)
    ensures
        r == (lap.0 < if furthest_lap >= 1 {
            (furthest_lap - 1) as int
        } else {
            0int
        }),
{
    let threshold = if furthest_lap >= 1 {
        furthest_lap - 1
    } else {
        0
    };
    lap.0 < threshold
}

/// The place counter a sensor reading leaves behind.
pub open spec fn pc_after(pc: PlaceCounter, sensed: Option<usize>) -> PlaceCounter {
    match sensed {
        Some(s) => if pc.0 < s && s - pc.0 < PLACE_JUMP_BOUND {
            PlaceCounter(s)
        } else {
            pc
        },
        None => pc,
    }
}

/// The highest lap among the first `m` racers that a sensor saw this tick.
pub open spec fn furthest_lap_spec(karts: Seq<Kart>, sensed: Seq<Option<usize>>, m: int) -> int
    decreases m,
{
    if m <= 0 {
        0
    } else {
        let rest = furthest_lap_spec(karts, sensed, m - 1);
        if sensed[m - 1] is Some && karts[m - 1].lap_counter.0 > rest {
            karts[m - 1].lap_counter.0 as int
        } else {
            rest
        }
    }
}

/// A lap count more than one behind the leader's.
pub open spec fn fell_behind_spec(lap: int, furthest: int) -> bool {
    lap < if furthest >= 1 {
        furthest - 1
    } else {
        0
    }
}

/// The fields of a kart the placement tick never touches.
pub open spec fn placement_keeps_identity(a: Kart, b: Kart) -> bool {
    &&& a.color == b.color
    &&& a.is_player == b.is_player
    &&& a.next_waypoint == b.next_waypoint
    &&& a.lap_counter == b.lap_counter
    &&& a.points == b.points
}

/// One fixed tick of placement ranking. Each racer's place counter absorbs
/// the sensor index its downward ray found (bounded, never decreasing); all
/// racers are ranked by `(lap, place counter)`; and any racer more than one
/// lap behind the leader takes the fell-behind health penalty, which ends
/// the match in the fell-behind state when it strikes the player.
pub fn detect_racer_places(
    karts: &mut Vec<Kart>,
    sensed: &Vec<Option<usize>>,
    game_state: &mut GameState,
    ingame: &mut IngameState,
)
    requires
        old(karts)@.len() == sensed@.len(),
        forall|i: int| 0 <= i < old(karts)@.len() ==> (#[trigger] old(karts)@[i]).wf(),
    ensures
        final(karts)@.len() == old(karts)@.len(),
        forall|i: int|
            0 <= i < final(karts)@.len() ==> placement_keeps_identity(
                #[trigger] final(karts)@[i],
                old(karts)@[i],
            ) && final(karts)@[i].wf(),
        // the place counter rule (monotone, bounded jump)
        forall|i: int|
            0 <= i < final(karts)@.len() ==> (#[trigger] final(karts)@[i]).place_counter
                == pc_after(old(karts)@[i].place_counter, sensed@[i]),
        // the ranking is a permutation of 1..=n, consistent with the keys
        forall|i: int|
            0 <= i < final(karts)@.len() ==> 1 <= (#[trigger] final(karts)@[i]).place.0 <= final(karts)@.len(),
        forall|i: int, j: int|
            0 <= i < final(karts)@.len() && 0 <= j < final(karts)@.len() && i != j ==> final(karts)@[i].place.0 != final(karts)@[j].place.0,
        forall|i: int, j: int|
            0 <= i < final(karts)@.len() && 0 <= j < final(karts)@.len() && race_key(
                (final(karts)@[j].lap_counter, final(karts)@[j].place_counter),
            ) > race_key((final(karts)@[i].lap_counter, final(karts)@[i].place_counter))
                ==> final(karts)@[j].place.0 < final(karts)@[i].place.0,
        // the fell-behind penalty, gated by invulnerability
        ({
            let furthest = furthest_lap_spec(old(karts)@, sensed@, old(karts)@.len() as int);
            &&& forall|i: int|
                0 <= i < final(karts)@.len() && !fell_behind_spec(
                    old(karts)@[i].lap_counter.0 as int,
                    furthest,
                ) ==> (#[trigger] final(karts)@[i]).health == old(karts)@[i].health && final(karts)@[i].invulnerability == old(karts)@[i].invulnerability
            &&& forall|i: int|
                0 <= i < final(karts)@.len() && fell_behind_spec(
                    old(karts)@[i].lap_counter.0 as int,
                    furthest,
                ) ==> match old(karts)@[i].invulnerability {
                    Some(w) => (#[trigger] final(karts)@[i]).health == old(karts)@[i].health
                        && final(karts)@[i].invulnerability == Some(w),
                    None => {
                        &&& (#[trigger] final(karts)@[i]).health == health_after_subtract(
                            old(karts)@[i].health,
                            FELL_BEHIND_PENALTY,
                        )
                        &&& final(karts)@[i].invulnerability matches Some(w)
                            && w.time_to_live.elapsed() == 0 && w.time_to_live.duration()
                            == crate::health::INVULNERABILITY_MS
                    },
                }
            &&& {
                let player_fell = exists|i: int|
                    0 <= i < old(karts)@.len() && (#[trigger] old(karts)@[i]).is_player
                        && fell_behind_spec(old(karts)@[i].lap_counter.0 as int, furthest);
                if player_fell {
                    final(game_state).ending_state == GameEndingState::FellBehind && *final(ingame) == IngameState::EndGame
                } else {
                    final(game_state).ending_state == old(game_state).ending_state && *final(ingame) == *old(ingame)
                }
            }
        }),
        final(game_state).kart_colors == old(game_state).kart_colors,
        final(game_state).game_time_ms == old(game_state).game_time_ms,
        final(game_state).peak_number_of_entities == old(game_state).peak_number_of_entities,
        final(game_state).player_death_cooldown == old(game_state).player_death_cooldown,
        final(game_state).player_place == old(game_state).player_place,
        final(game_state).player_lap == old(game_state).player_lap,
{
    let n = karts.len();

    // absorb this tick's sensor readings into the place counters
    let mut i: usize = 0;
    while i < n
        invariant
            n == karts@.len() == sensed@.len(),
            old(karts)@.len() == n,
            i <= n,
            forall|j: int| 0 <= j < n ==> (#[trigger] karts@[j]).wf(),
            forall|j: int|
                i <= j < n ==> #[trigger] karts@[j] == old(karts)@[j],
            forall|j: int|
                0 <= j < i ==> (#[trigger] karts@[j]).place_counter == pc_after(
                    old(karts)@[j].place_counter,
                    sensed@[j],
                ) && placement_keeps_identity(karts@[j], old(karts)@[j]) && karts@[j].health == old(
                    karts,
                )@[j].health && karts@[j].invulnerability == old(karts)@[j].invulnerability
                    && karts@[j].place == old(karts)@[j].place,
        decreases n - i,
    {
        match sensed[i] {
            Some(s) => {
                let mut k = karts[i];
                update_place_counter(&mut k.place_counter, s);
                karts.set(i, k);
            },
            None => {},
        }
        i = i + 1;
    }

    // the leader's lap among the racers the sensors saw
    let mut furthest: usize = 0;
    let mut i2: usize = 0;
    while i2 < n
        invariant
            n == karts@.len() == sensed@.len(),
            old(karts)@.len() == n,
            i2 <= n,
            forall|j: int|
                0 <= j < n ==> (#[trigger] karts@[j]).lap_counter == old(karts)@[j].lap_counter,
            furthest == furthest_lap_spec(old(karts)@, sensed@, i2 as int),
        decreases n - i2,
    {
        if sensed[i2].is_some() && karts[i2].lap_counter.0 > furthest {
            furthest = karts[i2].lap_counter.0;
        }
        i2 = i2 + 1;
    }

    // rank everyone by (lap, progress)
    let mut standings: Vec<(LapCounter, PlaceCounter)> = Vec::new();
    let mut i3: usize = 0;
    while i3 < n
        invariant
            n == karts@.len(),
            i3 <= n,
            standings@.len() == i3,
            forall|j: int|
                0 <= j < i3 ==> #[trigger] standings@[j] == (
                    karts@[j].lap_counter,
                    karts@[j].place_counter,
                ),
        decreases n - i3,
    {
        standings.push((karts[i3].lap_counter, karts[i3].place_counter));
        i3 = i3 + 1;
    }
    let places = assign_places(&standings);
    let ghost karts_ranked = karts@;
    let mut i4: usize = 0;
    while i4 < n
        invariant
            n == karts@.len() == places@.len() == standings@.len(),
            old(karts)@.len() == n,
            i4 <= n,
            forall|j: int|
                i4 <= j < n ==> #[trigger] karts@[j] == karts_ranked[j],
            forall|j: int|
                0 <= j < i4 ==> #[trigger] karts@[j] == (Kart {
                    place: places@[j],
                    ..karts_ranked[j]
                }),
        decreases n - i4,
    {
        let mut k = karts[i4];
        k.place = places[i4];
        karts.set(i4, k);
        i4 = i4 + 1;
    }

    // penalize racers that fell more than a lap behind the leader
    let mut player_fell = false;
    let ghost karts_placed = karts@;
    let mut i5: usize = 0;
    while i5 < n
        invariant
            n == karts@.len(),
            old(karts)@.len() == n,
            i5 <= n,
            forall|j: int| 0 <= j < n ==> (#[trigger] karts_placed[j]).wf(),
            forall|j: int|
                0 <= j < n ==> (#[trigger] karts_placed[j]).lap_counter == old(
                    karts,
                )@[j].lap_counter && karts_placed[j].is_player == old(karts)@[j].is_player,
            forall|j: int|
                i5 <= j < n ==> #[trigger] karts@[j] == karts_placed[j],
            forall|j: int|
                0 <= j < i5 && !fell_behind_spec(
                    old(karts)@[j].lap_counter.0 as int,
                    furthest as int,
                ) ==> #[trigger] karts@[j] == karts_placed[j],
            forall|j: int|
                0 <= j < i5 && fell_behind_spec(
                    old(karts)@[j].lap_counter.0 as int,
                    furthest as int,
                ) ==> (#[trigger] karts@[j]).wf() && match karts_placed[j].invulnerability {
                    Some(w) => karts@[j] == karts_placed[j],
                    None => {
                        &&& karts@[j] == (Kart {
                            health: health_after_subtract(
                                karts_placed[j].health,
                                FELL_BEHIND_PENALTY,
                            ),
                            invulnerability: karts@[j].invulnerability,
                            ..karts_placed[j]
                        })
                        &&& karts@[j].invulnerability matches Some(w) && w.time_to_live.elapsed()
                            == 0 && w.time_to_live.duration() == crate::health::INVULNERABILITY_MS
                    },
                },
            player_fell == exists|j: int|
                0 <= j < i5 && (#[trigger] old(karts)@[j]).is_player && fell_behind_spec(
                    old(karts)@[j].lap_counter.0 as int,
                    furthest as int,
                ),
        decreases n - i5,
    {
        let threshold: usize = if furthest >= 1 {
            furthest - 1
        } else {
            0
        };
        if karts[i5].lap_counter.0 < threshold {
            let mut k = karts[i5];
            crate::combat::apply_health_hit(&mut k, FELL_BEHIND_PENALTY);
            karts.set(i5, k);
            if k.is_player {
                player_fell = true;
            }
        }
        i5 = i5 + 1;
    }
    if player_fell {
        game_state.ending_state = GameEndingState::FellBehind;
        *ingame = IngameState::EndGame;
    }
}

} // verus!
