use soup_game::buttons::Level;
use soup_game::loadcell_task::{LoadcellAction, LoadcellEvent, LoadcellNote, LoadcellTask};
use soup_game::state::{AppState, Change};
use soup_game::sweet_spot::{
    hx711_short_delay, is_saturated_hx711_reading, random_sweet_spot_center, Hx711, Pulse, RawFrame,
};

/// Clocks a 24-bit number through a frame.
fn clock_out(bits: u32) -> i32 {
    let mut frame = RawFrame::new();
    let mut sent = 0;
    while let Some(pulse) = frame.next_pulse() {
        match pulse {
            Pulse::Data => {
                frame.clock((bits >> (23 - sent)) & 1 == 1);
                sent += 1;
            }
            Pulse::Gain => {
                assert_eq!(sent, 24);
                frame.clock(true);
                sent += 1;
            }
        }
    }
    assert_eq!(sent, 25);
    frame.reading()
}

/// Expects an action, answers it, and hands back the line for the log.
fn expect(
    task: &mut LoadcellTask,
    action: LoadcellAction,
    event: LoadcellEvent,
) -> Option<LoadcellNote> {
    assert_eq!(task.action(), action);
    task.advance(event)
}

fn state(task: &mut LoadcellTask, state: AppState) -> Option<LoadcellNote> {
    expect(task, LoadcellAction::ReadState, LoadcellEvent::State(state))
}

fn data_line(task: &mut LoadcellTask, level: Level) -> Option<LoadcellNote> {
    expect(task, LoadcellAction::ReadDataLine, LoadcellEvent::DataLine(level))
}

fn raw(task: &mut LoadcellTask, value: i32) -> Option<LoadcellNote> {
    expect(task, LoadcellAction::ReadRaw, LoadcellEvent::Raw(value))
}

fn sleep(task: &mut LoadcellTask) -> Option<LoadcellNote> {
    expect(task, LoadcellAction::Sleep { ms: 50 }, LoadcellEvent::Done)
}

fn random(task: &mut LoadcellTask, number: u32) {
    expect(task, LoadcellAction::ReadRandom, LoadcellEvent::Random(number));
}

fn change(task: &mut LoadcellTask, change: Change) {
    expect(task, LoadcellAction::Update(change), LoadcellEvent::Done);
}

/// A task in a game, tared at 1000, with the zone from 0 to 200000.
fn in_game() -> LoadcellTask {
    let mut task = LoadcellTask::new();
    state(&mut task, AppState::new_game());
    data_line(&mut task, Level::Low);
    raw(&mut task, 1000);
    random(&mut task, 600_000);
    change(&mut task, Change::ShowZone { min: 0, max: 200_000 });
    task
}

/// A poll that reads `value`, up to its outcome.
fn poll(task: &mut LoadcellTask, value: i32) -> Option<LoadcellNote> {
    state(task, AppState::new_game());
    data_line(task, Level::Low);
    raw(task, value)
}

#[test]
fn the_delay_returns() {
    hx711_short_delay();
}

#[test]
fn only_the_extremes_are_saturated() {
    assert!(is_saturated_hx711_reading(8_388_607));
    assert!(is_saturated_hx711_reading(-8_388_608));
    assert!(!is_saturated_hx711_reading(8_388_606));
    assert!(!is_saturated_hx711_reading(-8_388_607));
    assert!(!is_saturated_hx711_reading(0));
}

#[test]
fn a_frame_is_twos_complement() {
    assert_eq!(clock_out(0), 0);
    assert_eq!(clock_out(1), 1);
    assert_eq!(clock_out(0x7f_ffff), 8_388_607);
    assert_eq!(clock_out(0x80_0000), -8_388_608);
    assert_eq!(clock_out(0xff_ffff), -1);
    assert_eq!(clock_out(0x12_3456), 0x12_3456);
    for reading in [-8_388_608, -123_456, -1, 0, 1, 654_321, 8_388_607] {
        assert_eq!(clock_out((reading as u32) & 0xff_ffff), reading);
    }
}

#[test]
fn a_low_data_line_means_ready() {
    assert!(Hx711::is_ready(Level::Low));
    assert!(!Hx711::is_ready(Level::High));
}

#[test]
fn force_is_the_distance_from_the_offset() {
    let mut cell = Hx711::new();
    assert_eq!(cell.read_force_debug(Some(-5)), Some((-5, -5, 5)));
    cell.set_offset(1000);
    assert_eq!(cell.read_force_debug(Some(1500)), Some((1500, 500, 500)));
    assert_eq!(cell.read_force_debug(Some(400)), Some((400, -600, 600)));
    assert_eq!(cell.read_force_debug(Some(1000)), Some((1000, 0, 0)));
    assert_eq!(cell.read_force_debug(None), None);
}

#[test]
fn a_saturated_reading_stands_for_itself() {
    let cell = Hx711 { offset: 1000 };
    assert_eq!(cell.read_force_debug(Some(8_388_607)), Some((8_388_607, 0, 8_388_607)));
    assert_eq!(cell.read_force_debug(Some(-8_388_608)), Some((-8_388_608, 0, -8_388_608)));
}

#[test]
fn the_tare_is_taken_off_every_reading() {
    let cell = Hx711 { offset: 1000 };
    assert_eq!(cell.post_tare_reading(1000), 0);
    assert_eq!(cell.post_tare_reading(400), 600);
    assert_eq!(cell.post_tare_reading(8_388_607), 8_387_607);
    assert_eq!(cell.post_tare_reading(-8_388_608), 8_389_608);
}

#[test]
fn extreme_offsets_are_clamped() {
    let cell = Hx711 { offset: i32::MIN };
    assert_eq!(cell.read_force_debug(Some(7)), Some((7, i32::MAX, i32::MAX)));
    let cell = Hx711 { offset: i32::MAX };
    assert_eq!(cell.read_force_debug(Some(-7)), Some((-7, i32::MIN, i32::MAX)));
}

#[test]
fn centres_stay_in_their_range() {
    assert_eq!(random_sweet_spot_center(0), 100_000);
    assert_eq!(random_sweet_spot_center(599_999), 699_999);
    assert_eq!(random_sweet_spot_center(600_000), 100_000);
    assert_eq!(random_sweet_spot_center(u32::MAX), 100_000 + (u32::MAX % 600_000) as i32);
}

#[test]
fn waiting_for_a_game_is_logged_every_second() {
    let mut task = LoadcellTask::new();
    for round in 1..=40 {
        let note = state(&mut task, AppState::Rules);
        let due = round % 20 == 0;
        assert_eq!(note, if due { Some(LoadcellNote::WaitingForGame) } else { None });
        sleep(&mut task);
    }
}

#[test]
fn the_first_good_sample_is_the_offset() {
    let mut task = LoadcellTask::new();
    assert_eq!(state(&mut task, AppState::new_game()), Some(LoadcellNote::EnteredGame));
    assert_eq!(data_line(&mut task, Level::High), Some(LoadcellNote::TareNotReady));
    assert_eq!(sleep(&mut task), None);
    data_line(&mut task, Level::Low);
    assert_eq!(raw(&mut task, 8_388_607), None);
    assert_eq!(sleep(&mut task), None);
    data_line(&mut task, Level::Low);
    let sample =
        LoadcellNote::TareSample { samples: 1, reading: -4321, result: Some(-4321) };
    assert_eq!(raw(&mut task, -4321), Some(sample));
    assert_eq!(task.loadcell.offset, -4321);
    assert_eq!(task.action(), LoadcellAction::ReadRandom);
}

#[test]
fn a_saturated_tare_sample_is_logged_once_a_second() {
    let mut task = LoadcellTask::new();
    state(&mut task, AppState::new_game());
    for round in 0..41 {
        data_line(&mut task, Level::Low);
        let note = raw(&mut task, -8_388_608);
        let due = round % 20 == 0;
        let saturated = LoadcellNote::TareSaturated { reading: -8_388_608 };
        assert_eq!(note, if due { Some(saturated) } else { None });
        sleep(&mut task);
    }
}

#[test]
fn a_dead_load_cell_does_not_hang_the_tare() {
    let mut task = LoadcellTask::new();
    state(&mut task, AppState::new_game());
    for round in 1..=60 {
        data_line(&mut task, Level::High);
        let note = sleep(&mut task);
        let timed_out = LoadcellNote::TareTimedOut { elapsed_ms: 3000 };
        assert_eq!(note, if round == 60 { Some(timed_out) } else { None });
    }
    assert_eq!(task.loadcell.offset, 0);
    assert_eq!(task.action(), LoadcellAction::ReadRandom);
}

#[test]
fn thirty_polls_in_the_zone_hit_the_soup() {
    let mut task = in_game();
    for round in 1..30 {
        let read = LoadcellNote::Reading { raw: 101_000, delta: 100_000, force: 100_000 };
        assert_eq!(poll(&mut task, 101_000), Some(read));
        let shown =
            Change::ShowReading { min: 0, max: 200_000, progress: 50 * round, reading: 100_000 };
        change(&mut task, shown);
        sleep(&mut task);
    }
    poll(&mut task, 101_000);
    random(&mut task, 5);
    change(&mut task, Change::DamageSoup { min: 5, max: 200_005, reading: 100_000 });
    state(&mut task, AppState::new_game());
    sleep(&mut task);
    poll(&mut task, 1000);
    change(&mut task, Change::ShowReading { min: 5, max: 200_005, progress: 0, reading: 0 });
}

#[test]
fn leaving_the_zone_resets_the_hold() {
    let mut task = in_game();
    poll(&mut task, 201_000);
    let edge = Change::ShowReading { min: 0, max: 200_000, progress: 50, reading: 200_000 };
    change(&mut task, edge);
    sleep(&mut task);
    poll(&mut task, 201_001);
    let outside = Change::ShowReading { min: 0, max: 200_000, progress: 0, reading: 200_001 };
    change(&mut task, outside);
    sleep(&mut task);
    poll(&mut task, 8_388_607);
    let full = Change::ShowReading { min: 0, max: 200_000, progress: 0, reading: 8_387_607 };
    change(&mut task, full);
}

#[test]
fn a_saturated_reading_is_published_after_the_tare() {
    let mut task = in_game();
    let read =
        LoadcellNote::Reading { raw: -8_388_608, delta: 0, force: -8_388_608 };
    assert_eq!(poll(&mut task, -8_388_608), Some(read));
    let shown = Change::ShowReading { min: 0, max: 200_000, progress: 0, reading: 8_389_608 };
    change(&mut task, shown);
}

#[test]
fn a_saturated_reading_never_counts_as_held() {
    let mut task = LoadcellTask::new();
    state(&mut task, AppState::new_game());
    data_line(&mut task, Level::Low);
    raw(&mut task, 8_300_000);
    random(&mut task, 0);
    change(&mut task, Change::ShowZone { min: 0, max: 200_000 });
    poll(&mut task, 8_388_606);
    let held = Change::ShowReading { min: 0, max: 200_000, progress: 50, reading: 88_606 };
    change(&mut task, held);
    sleep(&mut task);
    poll(&mut task, 8_388_607);
    let reset = Change::ShowReading { min: 0, max: 200_000, progress: 0, reading: 88_607 };
    change(&mut task, reset);
}

#[test]
fn a_poll_without_a_conversion_keeps_the_hold() {
    let mut task = in_game();
    poll(&mut task, 1000);
    change(&mut task, Change::ShowReading { min: 0, max: 200_000, progress: 50, reading: 0 });
    sleep(&mut task);
    for round in 1..=20 {
        state(&mut task, AppState::new_game());
        let note = data_line(&mut task, Level::High);
        assert_eq!(note, if round == 20 { Some(LoadcellNote::NotReady) } else { None });
        sleep(&mut task);
    }
    poll(&mut task, 1000);
    change(&mut task, Change::ShowReading { min: 0, max: 200_000, progress: 100, reading: 0 });
}

#[test]
fn a_defeated_soup_wins_the_game() {
    let mut task = in_game();
    for _ in 1..30 {
        poll(&mut task, 1000);
        task.advance(LoadcellEvent::Done);
        sleep(&mut task);
    }
    poll(&mut task, 1000);
    random(&mut task, 0);
    let hit = Change::DamageSoup { min: 0, max: 200_000, reading: 0 };
    change(&mut task, hit);
    let mut beaten = AppState::new_game();
    for _ in 0..10 {
        beaten = hit.apply(&beaten);
    }
    state(&mut task, beaten);
    let won = AppState::EndScreen { player_won: true };
    expect(&mut task, LoadcellAction::Publish(won), LoadcellEvent::Done);
    assert_eq!(state(&mut task, won), None);
    sleep(&mut task);
}

#[test]
fn a_game_that_ends_elsewhere_is_waited_out() {
    let mut task = in_game();
    state(&mut task, AppState::EndScreen { player_won: false });
    assert_eq!(state(&mut task, AppState::Rules), None);
    sleep(&mut task);
    assert_eq!(state(&mut task, AppState::new_game()), Some(LoadcellNote::EnteredGame));
    assert_eq!(task.loadcell.offset, 0);
}

#[test]
fn stray_load_cell_events_change_nothing() {
    let mut task = in_game();
    let before = task;
    task.advance(LoadcellEvent::Done);
    task.advance(LoadcellEvent::Raw(3));
    task.advance(LoadcellEvent::Random(3));
    task.advance(LoadcellEvent::DataLine(Level::Low));
    assert_eq!(task, before);
}
