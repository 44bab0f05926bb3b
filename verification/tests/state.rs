use soup_game::state::{AppState, Change, SoupStatus};
use soup_game::state_cell::StateCell;

fn game(soup_hp: u32, player_hp: u32) -> AppState {
    AppState::Game {
        soup_hp,
        player_hp,
        soup_status: SoupStatus::Neutral,
        sweet_spot_min: 0,
        sweet_spot_max: 200_000,
        sweet_spot_progress: 450,
        loadcell_reading: 77,
    }
}

#[test]
fn a_round_starts_with_full_hit_points() {
    assert_eq!(
        AppState::new_game(),
        AppState::Game {
            soup_hp: 100,
            player_hp: 100,
            soup_status: SoupStatus::Neutral,
            sweet_spot_min: 0,
            sweet_spot_max: 0,
            sweet_spot_progress: 0,
            loadcell_reading: 0,
        }
    );
}

#[test]
fn screens_are_told_apart() {
    assert!(game(1, 1).is_game());
    assert!(!AppState::Rules.is_game());
    assert!(AppState::EndScreen { player_won: true }.is_end_screen());
    assert!(!AppState::Start.is_end_screen());
    assert!(game(5, 0).is_player_defeated());
    assert!(!game(0, 5).is_player_defeated());
    assert!(!AppState::EndScreen { player_won: false }.is_player_defeated());
    assert!(game(0, 5).is_soup_defeated());
    assert!(!game(5, 0).is_soup_defeated());
}

#[test]
fn damage_to_the_player_makes_the_soup_angry() {
    assert_eq!(
        Change::DamagePlayer { damage: 3 }.apply(&game(40, 10)),
        AppState::Game {
            soup_hp: 40,
            player_hp: 7,
            soup_status: SoupStatus::Angry,
            sweet_spot_min: 0,
            sweet_spot_max: 200_000,
            sweet_spot_progress: 450,
            loadcell_reading: 77,
        }
    );
}

#[test]
fn damage_stops_at_zero() {
    let after = Change::DamagePlayer { damage: u32::MAX }.apply(&game(40, 10));
    assert!(after.is_player_defeated());
    let after = Change::DamageSoup { min: 0, max: 200_000, reading: 0 }.apply(&game(9, 10));
    assert!(after.is_soup_defeated());
}

#[test]
fn a_completed_hold_moves_the_zone_and_resets_progress() {
    assert_eq!(
        Change::DamageSoup { min: 300_000, max: 500_000, reading: 123 }.apply(&game(40, 10)),
        AppState::Game {
            soup_hp: 30,
            player_hp: 10,
            soup_status: SoupStatus::Sad,
            sweet_spot_min: 300_000,
            sweet_spot_max: 500_000,
            sweet_spot_progress: 0,
            loadcell_reading: 123,
        }
    );
}

#[test]
fn readings_and_zones_leave_hit_points_alone() {
    assert_eq!(
        Change::ShowReading { min: 1, max: 2, progress: 50, reading: 3 }.apply(&game(40, 10)),
        AppState::Game {
            soup_hp: 40,
            player_hp: 10,
            soup_status: SoupStatus::Neutral,
            sweet_spot_min: 1,
            sweet_spot_max: 2,
            sweet_spot_progress: 50,
            loadcell_reading: 3,
        }
    );
    assert_eq!(
        Change::ShowZone { min: 1, max: 2 }.apply(&game(40, 10)),
        AppState::Game {
            soup_hp: 40,
            player_hp: 10,
            soup_status: SoupStatus::Neutral,
            sweet_spot_min: 1,
            sweet_spot_max: 2,
            sweet_spot_progress: 0,
            loadcell_reading: 0,
        }
    );
}

#[test]
fn changes_do_nothing_outside_a_game() {
    let changes = [
        Change::DamagePlayer { damage: 3 },
        Change::ShowZone { min: 1, max: 2 },
        Change::ShowReading { min: 1, max: 2, progress: 50, reading: 3 },
        Change::DamageSoup { min: 1, max: 2, reading: 3 },
    ];
    let screens =
        [AppState::Start, AppState::Rules, AppState::EndScreen { player_won: true }];
    for change in changes {
        for screen in screens {
            assert_eq!(change.apply(&screen), screen);
        }
    }
}

#[test]
fn ten_holds_defeat_a_fresh_soup() {
    let mut state = AppState::new_game();
    for hold in 1..=10 {
        state = Change::DamageSoup { min: 0, max: 200_000, reading: 0 }.apply(&state);
        state = Change::DamagePlayer { damage: 1 }.apply(&state);
        assert_eq!(state.is_soup_defeated(), hold == 10);
    }
    assert!(!state.is_player_defeated());
}

#[test]
fn a_cell_publishes_what_it_stores() {
    let mut cell = StateCell::new(AppState::Start);
    assert_eq!(cell.get(), AppState::Start);
    assert_eq!(cell.set(game(40, 10)), game(40, 10));
    assert_eq!(cell.get(), game(40, 10));
    let change = Change::DamagePlayer { damage: 4 };
    let published = cell.update(|state| change.apply(state));
    assert_eq!(published, change.apply(&game(40, 10)));
    assert_eq!(cell.get(), published);
}

#[test]
fn setting_is_updating_with_a_constant() {
    let mut set = StateCell::new(AppState::Start);
    let mut updated = StateCell::new(AppState::Start);
    assert_eq!(set.set(AppState::Rules), updated.update(|_| AppState::Rules));
    assert_eq!(set.get(), updated.get());
}

#[test]
fn a_cell_clones_values_that_own_memory() {
    let mut cell = StateCell::new(String::from("hot"));
    let published = cell.update(|old| {
        let mut new = old.clone();
        new.push_str(" soup");
        new
    });
    assert_eq!(published, "hot soup");
    assert_eq!(cell.get(), "hot soup");
}

#[test]
fn no_update_is_lost() {
    let mut cell = StateCell::new(7u64);
    for n in 1..=1000 {
        assert_eq!(cell.update(|x| x + 1), 7 + n);
    }
    assert_eq!(cell.get(), 1007);
}

#[test]
fn updates_compose_in_their_order() {
    let mut cell = StateCell::new(5u64);
    cell.update(|x| x + 1);
    cell.update(|x| x * 10);
    assert_eq!(cell.update(|x| x - 3), 57);
    assert_eq!(cell.get(), 57);
    cell.set(2);
    assert_eq!(cell.update(|x| x * 10), 20);
    assert_eq!(cell.get(), 20);
}
