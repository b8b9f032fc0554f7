use kart_core::game::{GameEndingState, GameState, IngameState};
use kart_core::placement::{
    assign_places, detect_racer_places, fell_behind, update_place_counter,
};
use kart_core::race::{Kart, KartColor, LapCounter, PlaceCounter};

#[test]
fn place_counter_accepts_bounded_forward_jumps() {
    let mut pc = PlaceCounter(100);
    update_place_counter(&mut pc, 119);
    assert_eq!(pc.0, 119);
    // a jump of exactly the bound is rejected
    update_place_counter(&mut pc, 139);
    assert_eq!(pc.0, 119);
    // the counter never decreases
    update_place_counter(&mut pc, 4);
    assert_eq!(pc.0, 119);
    // no reading, no change
    update_place_counter(&mut pc, 119);
    assert_eq!(pc.0, 119);
}

#[test]
fn ranks_are_a_permutation_ordered_by_progress() {
    let standings = vec![
        (LapCounter(2), PlaceCounter(50)),
        (LapCounter(1), PlaceCounter(900)),
        (LapCounter(2), PlaceCounter(51)),
        (LapCounter(3), PlaceCounter(0)),
    ];
    let places = assign_places(&standings);
    let ranks: Vec<usize> = places.iter().map(|p| p.0).collect();
    assert_eq!(ranks, vec![3, 4, 2, 1]);

    let mut sorted = ranks.clone();
    sorted.sort();
    assert_eq!(sorted, vec![1, 2, 3, 4]);
}

#[test]
fn equal_keys_still_rank_without_duplicates() {
    let standings = vec![
        (LapCounter(1), PlaceCounter(10)),
        (LapCounter(1), PlaceCounter(10)),
        (LapCounter(1), PlaceCounter(10)),
    ];
    let places = assign_places(&standings);
    let mut ranks: Vec<usize> = places.iter().map(|p| p.0).collect();
    ranks.sort();
    assert_eq!(ranks, vec![1, 2, 3]);
}

#[test]
fn fell_behind_needs_more_than_one_lap() {
    assert!(!fell_behind(LapCounter(3), 4));
    assert!(!fell_behind(LapCounter(3), 3));
    assert!(fell_behind(LapCounter(1), 3));
    assert!(!fell_behind(LapCounter(1), 0));
}

fn kart(is_player: bool, lap: usize, pc: usize) -> Kart {
    let mut k = Kart::new(KartColor(0), is_player);
    k.lap_counter = LapCounter(lap);
    k.place_counter = PlaceCounter(pc);
    k
}

#[test]
fn fell_behind_player_ends_the_match_once() {
    let mut karts = vec![kart(true, 1, 30), kart(false, 3, 40), kart(false, 3, 35)];
    let sensed = vec![Some(31), Some(41), Some(36)];
    let mut game_state = GameState::default();
    let mut ingame = IngameState::InGame;

    detect_racer_places(&mut karts, &sensed, &mut game_state, &mut ingame);

    // the sensor readings were absorbed
    assert_eq!(karts[0].place_counter.0, 31);
    assert_eq!(karts[1].place_counter.0, 41);
    // the player is two laps behind the leader: penalized and the match ends
    assert_eq!(game_state.ending_state, GameEndingState::FellBehind);
    assert_eq!(ingame, IngameState::EndGame);
    assert!(karts[0].health.is_dead());
    assert!(karts[0].invulnerability.is_some());
    // ranks are 1..=3 with the leader in front
    let mut ranks: Vec<usize> = karts.iter().map(|k| k.place.0).collect();
    assert_eq!(ranks[1], 1);
    ranks.sort();
    assert_eq!(ranks, vec![1, 2, 3]);

    // running the tick again does not change the outcome, and the
    // invulnerability window shields the player from a second penalty
    let health_before = karts[0].health.is_dead();
    detect_racer_places(&mut karts, &sensed, &mut game_state, &mut ingame);
    assert_eq!(game_state.ending_state, GameEndingState::FellBehind);
    assert_eq!(ingame, IngameState::EndGame);
    assert_eq!(karts[0].health.is_dead(), health_before);
}

#[test]
fn keeping_pace_draws_no_penalty() {
    let mut karts = vec![kart(true, 2, 30), kart(false, 3, 40)];
    let sensed = vec![None, Some(41)];
    let mut game_state = GameState::default();
    let mut ingame = IngameState::InGame;
    detect_racer_places(&mut karts, &sensed, &mut game_state, &mut ingame);
    assert_eq!(game_state.ending_state, GameEndingState::Initial);
    assert_eq!(ingame, IngameState::InGame);
    assert!(karts[0].health.is_alive());
    // no sensor reading leaves the counter alone
    assert_eq!(karts[0].place_counter.0, 30);
}
