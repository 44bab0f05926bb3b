use soup_game::button_task::{ButtonAction, ButtonEvent, ButtonNote, ButtonPhase, ButtonTask, Hurt};
use soup_game::buttons::{ButtonLeds, Buttons, Level};
use soup_game::state::{AppState, Change};

const UP: Buttons = Buttons { btn0: Level::High, btn1: Level::High };
const DOWN0: Buttons = Buttons { btn0: Level::Low, btn1: Level::High };
const DOWN1: Buttons = Buttons { btn0: Level::High, btn1: Level::Low };
const BOTH: Buttons = Buttons { btn0: Level::Low, btn1: Level::Low };
const OFF: ButtonLeds = ButtonLeds { led0: Level::Low, led1: Level::Low };
const ON: ButtonLeds = ButtonLeds { led0: Level::High, led1: Level::High };
const ONLY0: ButtonLeds = ButtonLeds { led0: Level::High, led1: Level::Low };
const ONLY1: ButtonLeds = ButtonLeds { led0: Level::Low, led1: Level::High };

/// Expects an action, answers it, and hands back the line for the log.
fn expect(task: &mut ButtonTask, action: ButtonAction, event: ButtonEvent) -> Option<ButtonNote> {
    assert_eq!(task.action(), action);
    task.advance(event)
}

fn sleep(task: &mut ButtonTask, ms: u64) {
    assert_eq!(expect(task, ButtonAction::Sleep { ms }, ButtonEvent::Done), None);
}

fn leds(task: &mut ButtonTask, leds: ButtonLeds) {
    assert_eq!(expect(task, ButtonAction::SetLeds(leds), ButtonEvent::Done), None);
}

fn state(task: &mut ButtonTask, state: AppState) {
    assert_eq!(expect(task, ButtonAction::ReadState, ButtonEvent::State(state)), None);
}

fn buttons(task: &mut ButtonTask, buttons: Buttons) -> Option<ButtonNote> {
    expect(task, ButtonAction::ReadButtons, ButtonEvent::Buttons(buttons))
}

/// A task past its self-test, in a game with the first LED just lit.
fn first_led_lit(held: Buttons) -> ButtonTask {
    let mut task = ButtonTask::new();
    for _ in 0..10 {
        task.advance(ButtonEvent::Done);
    }
    state(&mut task, AppState::new_game());
    leds(&mut task, OFF);
    state(&mut task, AppState::new_game());
    expect(&mut task, ButtonAction::ReadRandom, ButtonEvent::Random(6));
    leds(&mut task, ONLY0);
    expect(&mut task, ButtonAction::StartTimer, ButtonEvent::Done);
    buttons(&mut task, held);
    task
}

/// The start of a poll, up to the first look at the buttons.
fn poll(task: &mut ButtonTask, ms: u64) -> Option<ButtonNote> {
    state(task, AppState::new_game());
    expect(task, ButtonAction::ReadTimer, ButtonEvent::Elapsed(ms))
}

/// A whole poll with no button down, and no tick due.
fn quiet_poll(task: &mut ButtonTask, ms: u64) {
    poll(task, ms);
    buttons(task, UP);
    buttons(task, UP);
    sleep(task, 10);
}

/// The player takes damage and survives.
fn survive(task: &mut ButtonTask, damage: u32) {
    expect(task, ButtonAction::Update(Change::DamagePlayer { damage }), ButtonEvent::Done);
    state(task, AppState::new_game());
}

fn defeated() -> AppState {
    Change::DamagePlayer { damage: 100 }.apply(&AppState::new_game())
}

#[test]
fn leds_are_driven_as_asked() {
    let mut leds = ON;
    leds.all_off();
    assert_eq!(leds, OFF);
    leds.all_on();
    assert_eq!(leds, ON);
    leds.set_only(0);
    assert_eq!(leds, ONLY0);
    leds.set_only(1);
    assert_eq!(leds, ONLY1);
    leds.set_only(7);
    assert_eq!(leds, ONLY1);
}

#[test]
fn the_lowest_pressed_button_is_found() {
    assert!(DOWN0.is_pressed(0) && !DOWN0.is_pressed(1));
    assert_eq!(UP.pressed_index(), None);
    assert_eq!(DOWN0.pressed_index(), Some(0));
    assert_eq!(DOWN1.pressed_index(), Some(1));
    assert_eq!(BOTH.pressed_index(), Some(0));
    assert_eq!(BOTH.pressed_unlit_index(Some(0)), Some(1));
    assert_eq!(BOTH.pressed_unlit_index(Some(1)), Some(0));
    assert_eq!(DOWN0.pressed_unlit_index(Some(0)), None);
    assert_eq!(DOWN1.pressed_unlit_index(None), Some(1));
}

#[test]
fn the_self_test_lights_both_leds_then_each() {
    let mut task = ButtonTask::new();
    leds(&mut task, OFF);
    leds(&mut task, ON);
    sleep(&mut task, 1000);
    leds(&mut task, OFF);
    sleep(&mut task, 200);
    leds(&mut task, ONLY0);
    sleep(&mut task, 1000);
    leds(&mut task, ONLY1);
    sleep(&mut task, 1000);
    leds(&mut task, OFF);
    assert_eq!(task.action(), ButtonAction::ReadState);
}

#[test]
fn leds_blink_before_a_game_and_rest_on_the_end_screen() {
    let mut task = ButtonTask::new();
    for _ in 0..10 {
        task.advance(ButtonEvent::Done);
    }
    state(&mut task, AppState::Start);
    leds(&mut task, ONLY0);
    sleep(&mut task, 500);
    state(&mut task, AppState::Rules);
    leds(&mut task, ONLY1);
    sleep(&mut task, 500);
    state(&mut task, AppState::EndScreen { player_won: true });
    leds(&mut task, OFF);
    sleep(&mut task, 500);
    state(&mut task, AppState::Rules);
    leds(&mut task, ONLY0);
    sleep(&mut task, 500);
    state(&mut task, AppState::new_game());
    leds(&mut task, OFF);
    state(&mut task, AppState::new_game());
    expect(&mut task, ButtonAction::ReadRandom, ButtonEvent::Random(7));
    leds(&mut task, ONLY1);
}

#[test]
fn a_debounced_press_ends_the_round() {
    let mut task = first_led_lit(UP);
    poll(&mut task, 20);
    buttons(&mut task, DOWN0);
    buttons(&mut task, DOWN0);
    sleep(&mut task, 30);
    buttons(&mut task, DOWN0);
    leds(&mut task, OFF);
    expect(&mut task, ButtonAction::ReadRandom, ButtonEvent::Random(1499));
    expect(&mut task, ButtonAction::StartTimer, ButtonEvent::Done);
    assert_eq!(buttons(&mut task, DOWN0), Some(ButtonNote::HeldInGap));
    // 300 + 1499 % 700 = 399 ms without a light.
    expect(&mut task, ButtonAction::ReadTimer, ButtonEvent::Elapsed(398));
    state(&mut task, AppState::new_game());
    assert_eq!(buttons(&mut task, DOWN0), None);
    sleep(&mut task, 10);
    expect(&mut task, ButtonAction::ReadTimer, ButtonEvent::Elapsed(399));
    state(&mut task, AppState::new_game());
    assert_eq!(task.action(), ButtonAction::ReadRandom);
}

#[test]
fn a_bounce_is_not_a_press() {
    let mut task = first_led_lit(UP);
    poll(&mut task, 20);
    buttons(&mut task, DOWN0);
    buttons(&mut task, DOWN0);
    sleep(&mut task, 30);
    buttons(&mut task, UP);
    sleep(&mut task, 10);
    assert_eq!(task.action(), ButtonAction::ReadState);
}

#[test]
fn missed_ticks_cost_one_two_three() {
    let mut task = first_led_lit(UP);
    quiet_poll(&mut task, 1499);
    for (ms, damage) in [(1500, 1), (2250, 2), (3000, 3)] {
        poll(&mut task, ms);
        buttons(&mut task, UP);
        buttons(&mut task, UP);
        survive(&mut task, damage);
        sleep(&mut task, 10);
        quiet_poll(&mut task, ms + 749);
    }
}

#[test]
fn a_button_held_since_before_the_light_must_be_released() {
    let mut task = first_led_lit(DOWN0);
    for ms in [20, 40, 60] {
        poll(&mut task, ms);
        buttons(&mut task, DOWN0);
        assert_eq!(buttons(&mut task, DOWN0), None);
        sleep(&mut task, 10);
    }
    poll(&mut task, 80);
    buttons(&mut task, UP);
    assert_eq!(buttons(&mut task, UP), Some(ButtonNote::PressArmed));
    sleep(&mut task, 10);
    poll(&mut task, 100);
    buttons(&mut task, DOWN0);
    buttons(&mut task, DOWN0);
    sleep(&mut task, 30);
}

#[test]
fn the_log_tells_which_buttons_are_held_when_lit() {
    let mut task = ButtonTask { phase: ButtonPhase::LightArm(0) };
    assert_eq!(buttons(&mut task, UP), None);
    let mut task = ButtonTask { phase: ButtonPhase::LightArm(0) };
    let note = ButtonNote::HeldWhenLit { lit: false, unlit: true };
    assert_eq!(buttons(&mut task, DOWN1), Some(note));
}

#[test]
fn a_press_off_the_light_costs_once() {
    let mut task = first_led_lit(UP);
    poll(&mut task, 20);
    buttons(&mut task, DOWN1);
    sleep(&mut task, 30);
    buttons(&mut task, DOWN1);
    survive(&mut task, 1);
    buttons(&mut task, DOWN1);
    sleep(&mut task, 10);
    // Held: no second penalty.
    poll(&mut task, 60);
    assert_eq!(buttons(&mut task, DOWN1), None);
    buttons(&mut task, DOWN1);
    sleep(&mut task, 10);
    // Released and pressed again: another one.
    poll(&mut task, 80);
    assert_eq!(buttons(&mut task, UP), Some(ButtonNote::OffLightArmed));
    buttons(&mut task, UP);
    sleep(&mut task, 10);
    poll(&mut task, 100);
    buttons(&mut task, DOWN1);
    sleep(&mut task, 30);
    buttons(&mut task, DOWN1);
    survive(&mut task, 1);
}

#[test]
fn a_bounce_off_the_light_costs_nothing() {
    let mut task = first_led_lit(UP);
    poll(&mut task, 20);
    buttons(&mut task, DOWN1);
    sleep(&mut task, 30);
    buttons(&mut task, UP);
    buttons(&mut task, UP);
    sleep(&mut task, 10);
}

#[test]
fn a_press_without_a_light_costs_once() {
    let mut task = ButtonTask { phase: ButtonPhase::GapArm(500) };
    assert_eq!(buttons(&mut task, UP), None);
    for (look, penalty) in [(DOWN1, true), (DOWN1, false), (UP, false), (DOWN0, true)] {
        expect(&mut task, ButtonAction::ReadTimer, ButtonEvent::Elapsed(10));
        state(&mut task, AppState::new_game());
        let note = buttons(&mut task, look);
        assert_eq!(note, if look == UP { Some(ButtonNote::GapArmed) } else { None });
        if penalty {
            sleep(&mut task, 30);
            buttons(&mut task, look);
            survive(&mut task, 1);
        }
        sleep(&mut task, 10);
    }
}

#[test]
fn a_defeated_player_loses_the_game() {
    let mut task = first_led_lit(UP);
    poll(&mut task, 1500);
    buttons(&mut task, UP);
    buttons(&mut task, UP);
    let hit = ButtonAction::Update(Change::DamagePlayer { damage: 1 });
    expect(&mut task, hit, ButtonEvent::Done);
    state(&mut task, defeated());
    let lost = ButtonAction::Publish(AppState::EndScreen { player_won: false });
    expect(&mut task, lost, ButtonEvent::Done);
    leds(&mut task, OFF);
    state(&mut task, AppState::EndScreen { player_won: false });
    leds(&mut task, OFF);
}

#[test]
fn a_game_that_ends_elsewhere_turns_the_leds_off() {
    let mut task = first_led_lit(UP);
    state(&mut task, AppState::EndScreen { player_won: true });
    leds(&mut task, OFF);
    assert_eq!(task.action(), ButtonAction::ReadState);
}

#[test]
fn a_wait_is_logged_every_half_second() {
    let mut task = first_led_lit(UP);
    for (ms, logged) in [(499, false), (500, true), (510, false), (999, false), (1000, true)] {
        let note = poll(&mut task, ms);
        assert_eq!(note, if logged { Some(ButtonNote::Waiting) } else { None });
        buttons(&mut task, UP);
        buttons(&mut task, UP);
        sleep(&mut task, 10);
    }
}

#[test]
fn the_cost_of_a_tick_has_a_ceiling() {
    let mut task = first_led_lit(UP);
    poll(&mut task, 1500);
    let ButtonPhase::OffLightCheck(round) = task.phase else { panic!("not at the buttons") };
    let mut round = round;
    round.damage = u32::MAX;
    round.next_damage_ms = 1500 + 750 * (u32::MAX as u64 - 1);
    round.elapsed_ms = round.next_damage_ms;
    let due = round.next_damage_ms;
    let mut task = ButtonTask { phase: ButtonPhase::HurtCheck(Hurt::Missed(round)) };
    state(&mut task, AppState::new_game());
    let ButtonPhase::PollPause(round) = task.phase else { panic!("not at the pause") };
    assert_eq!(round.damage, u32::MAX);
    assert_eq!(round.next_damage_ms, due + 750);
}

#[test]
fn stray_button_events_change_nothing() {
    let mut task = first_led_lit(UP);
    let before = task.phase;
    task.advance(ButtonEvent::Done);
    task.advance(ButtonEvent::Random(3));
    task.advance(ButtonEvent::Elapsed(9000));
    task.advance(ButtonEvent::Buttons(BOTH));
    assert_eq!(task.phase, before);
}
