//! The task that runs the reaction mini-game.
use vstd::prelude::*;
use crate::buttons::{
    ButtonLeds, Buttons, Level, BUTTON_DEBOUNCE_MS, BUTTON_POLL_MS, BUTTON_WAIT_LOG_MS,
    DAMAGE_TICK_MS, GAP_MIN_MS, GAP_SPREAD_MS, LED_COUNT, LED_SELF_TEST_MS, LED_SELF_TEST_PAUSE_MS,
    MAX_ELAPSED_MS, OFF_LIGHT_DAMAGE, PRE_GAME_LED_BLINK_MS, REACTION_WINDOW_MS,
};
use crate::state::{AppState, Change};

verus! {

/// One lit LED, until its button is pressed.
#[derive(Clone, Copy, Debug, PartialEq, Eq, Structural)]
pub struct Round {
    /// The lit LED.
    pub idx: usize,
    /// The lit button was seen up since the LED was lit.
    pub armed_for_press: bool,
    /// The other button was seen up since the LED was lit and since the last
    /// penalty for it.
    pub armed_for_off_light_press: bool,
    /// What the next missed tick costs. The first tick drains 1 HP; each
    /// subsequent missed tick adds 1 more.
    pub damage: u32,
    /// When the next missed tick is due, in ms since the LED was lit.
    pub next_damage_ms: u64,
    /// When the next log line is due, in ms since the LED was lit.
    pub next_button_wait_log_ms: u64,
    /// Time of the current poll, in ms since the LED was lit.
    pub elapsed_ms: u64,
}

impl Round {
    /// A round on the LED `idx`, just lit while the buttons look like `buttons`.
    pub open spec fn lit(idx: usize, buttons: Buttons) -> Round {
        Round {
            idx,
            armed_for_press: !buttons.pressed(idx as int),
            armed_for_off_light_press: buttons.unlit_press(Some(idx)) is None,
            damage: 1,
            next_damage_ms: REACTION_WINDOW_MS,
            next_button_wait_log_ms: BUTTON_WAIT_LOG_MS,
            elapsed_ms: 0,
        }
    }

    /// The damage ramp: tick number `damage` is due one window and `damage - 1`
    /// ticks after the LED was lit. Once the cost has reached its ceiling, later
    /// ticks cost no more.
    pub open spec fn wf(self) -> bool {
        &&& self.idx < LED_COUNT
        &&& self.damage >= 1
        &&& self.next_damage_ms >= REACTION_WINDOW_MS + DAMAGE_TICK_MS * (self.damage - 1)
        &&& self.damage < u32::MAX ==> self.next_damage_ms == REACTION_WINDOW_MS + DAMAGE_TICK_MS
            * (self.damage - 1)
        &&& self.elapsed_ms <= MAX_ELAPSED_MS
    }

    /// The current poll comes when a missed tick is due.
    pub open spec fn is_tick_due(self) -> bool {
        self.elapsed_ms >= self.next_damage_ms
    }

    /// The round at a poll `elapsed_ms` after the LED was lit.
    pub open spec fn polled(self, elapsed_ms: u64) -> Round {
        Round {
            elapsed_ms,
            next_button_wait_log_ms: if elapsed_ms >= self.next_button_wait_log_ms {
                (self.next_button_wait_log_ms + BUTTON_WAIT_LOG_MS) as u64
            } else {
                self.next_button_wait_log_ms
            },
            ..self
        }
    }

    /// The round after a missed tick was paid for.
    pub open spec fn ticked(self) -> Round {
        Round {
            damage: if self.damage < u32::MAX {
                (self.damage + 1) as u32
            } else {
                u32::MAX
            },
            next_damage_ms: (self.next_damage_ms + DAMAGE_TICK_MS) as u64,
            ..self
        }
    }

    /// Starts a round on the LED `idx`. A button that is already held counts
    /// only once it was seen up.
    fn new(idx: usize, buttons: &Buttons) -> (round: Round)
        requires
            idx < LED_COUNT,
        ensures
            round == Round::lit(idx, *buttons),
            round.wf(),
    {
        Round {
            idx,
            armed_for_press: !buttons.is_pressed(idx),
            armed_for_off_light_press: buttons.pressed_unlit_index(Some(idx)).is_none(),
            damage: 1,
            next_damage_ms: REACTION_WINDOW_MS,
            next_button_wait_log_ms: BUTTON_WAIT_LOG_MS,
            elapsed_ms: 0,
        }
    }
}

/// The time between a press and the next LED.
#[derive(Clone, Copy, Debug, PartialEq, Eq, Structural)]
pub struct Gap {
    /// How long no LED is lit.
    pub gap_ms: u64,
    /// All buttons were seen up since the LED went dark and since the last
    /// penalty.
    pub armed_for_gap_press: bool,
}

/// How long no LED is lit, for a random number.
pub open spec fn gap_length(random: u32) -> u64 {
    (GAP_MIN_MS + random % GAP_SPREAD_MS) as u64
}

/// Why the player is being hurt.
#[derive(Clone, Copy, Debug, PartialEq, Eq, Structural)]
pub enum Hurt {
    /// The button of the dark LED was pressed.
    OffLight(Round, usize),
    /// A tick passed without a press of the lit button.
    Missed(Round),
    /// A button was pressed while no LED was lit.
    NoLight(Gap, usize),
}

impl Hurt {
    /// What it costs.
    pub open spec fn damage(self) -> u32 {
        match self {
            Hurt::OffLight(..) => OFF_LIGHT_DAMAGE,
            Hurt::Missed(round) => round.damage,
            Hurt::NoLight(..) => OFF_LIGHT_DAMAGE,
        }
    }

    /// Where the game goes on if the player survives.
    pub open spec fn survived(self) -> ButtonPhase {
        match self {
            Hurt::OffLight(round, _) => ButtonPhase::PressCheck(
                Round { armed_for_off_light_press: false, ..round },
            ),
            Hurt::Missed(round) => ButtonPhase::PollPause(round.ticked()),
            Hurt::NoLight(gap, _) => ButtonPhase::GapPause(
                Gap { armed_for_gap_press: false, ..gap },
            ),
        }
    }

    /// What holds of every value that the task can reach.
    pub open spec fn wf(self) -> bool {
        match self {
            Hurt::OffLight(round, idx) => round.wf() && idx < LED_COUNT && idx != round.idx,
            Hurt::Missed(round) => round.wf() && round.is_tick_due(),
            Hurt::NoLight(_, idx) => idx < LED_COUNT,
        }
    }
}

/// What the task waits for. The comment says what the task wants done.
#[derive(Clone, Copy, Debug, PartialEq, Eq, Structural)]
pub enum ButtonPhase {
    /// Step of the LED self-test: LEDs or sleep.
    SelfTest(u8),
    /// No game: snapshot. The number is the LED to blink next.
    PreGame(usize),
    /// End screen: LEDs off.
    PreGameDark(usize),
    /// Start or rules screen: light the LED.
    PreGameBlink(usize),
    /// No game: sleep.
    PreGamePause(usize),
    /// A game began: LEDs off.
    EnterGame,
    /// Before the next LED: snapshot.
    PickCheck,
    /// Pick the next LED: random number.
    Pick,
    /// Light the LED.
    Light(usize),
    /// The LED is lit: start the timer.
    LightTimer(usize),
    /// The LED is lit: first look at the buttons.
    LightArm(usize),
    /// A poll begins: snapshot.
    Poll(Round),
    /// Read the timer.
    PollTime(Round),
    /// Is the other button down? Look at the buttons.
    OffLightCheck(Round),
    /// The other button is down: sleep.
    OffLightDebounce(Round, usize),
    /// Is it still down? Look at the buttons.
    OffLightConfirm(Round, usize),
    /// Is the lit button down? Look at the buttons.
    PressCheck(Round),
    /// The lit button is down: sleep.
    PressDebounce(Round),
    /// Is it still down? Look at the buttons.
    PressConfirm(Round),
    /// A poll ends: sleep.
    PollPause(Round),
    /// The lit button was pressed: LEDs off.
    GapDark,
    /// Pick the length of the gap: random number.
    GapPick,
    /// Start the timer.
    GapTimer(u64),
    /// First look at the buttons.
    GapArm(u64),
    /// Is the gap over? Read the timer.
    GapTime(Gap),
    /// Snapshot.
    GapPoll(Gap),
    /// Is a button down? Look at the buttons.
    GapCheck(Gap),
    /// A button is down: sleep.
    GapDebounce(Gap, usize),
    /// Is it still down? Look at the buttons.
    GapConfirm(Gap, usize),
    /// Sleep.
    GapPause(Gap),
    /// The player is being hurt: change the shared state.
    Hurting(Hurt),
    /// Did the player survive? Snapshot.
    HurtCheck(Hurt),
    /// The player lost: publish the end screen.
    Lost,
    /// The game is over: LEDs off.
    Leave,
}

/// What the task wants done next.
#[derive(Clone, Copy, Debug, PartialEq, Eq, Structural)]
pub enum ButtonAction {
    /// Drive both LEDs.
    SetLeds(ButtonLeds),
    /// Sleep.
    Sleep { ms: u64 },
    /// Take a snapshot of the shared state.
    ReadState,
    /// Look at both buttons.
    ReadButtons,
    /// Draw a random number.
    ReadRandom,
    /// Start the timer at zero.
    StartTimer,
    /// Read the timer.
    ReadTimer,
    /// Change the shared state atomically.
    Update(Change),
    /// Replace the shared state.
    Publish(AppState),
}

/// What came of an action.
#[derive(Clone, Copy, Debug, PartialEq, Eq, Structural)]
pub enum ButtonEvent {
    /// The action is done, where it gives no value.
    Done,
    /// The snapshot.
    State(AppState),
    /// What the buttons look like.
    Buttons(Buttons),
    /// The random number.
    Random(u32),
    /// The timer, in ms.
    Elapsed(u64),
}

/// A line for the log.
#[derive(Clone, Copy, Debug, PartialEq, Eq, Structural)]
pub enum ButtonNote {
    /// Buttons are held while their LED situation starts: the lit one, the
    /// other one.
    HeldWhenLit { lit: bool, unlit: bool },
    /// A press of the lit button is still awaited.
    Waiting,
    /// The other button was released; pressing it costs again.
    OffLightArmed,
    /// The lit button was released; pressing it counts again.
    PressArmed,
    /// A button is held while the LEDs go dark.
    HeldInGap,
    /// All buttons were released; pressing one costs again.
    GapArmed,
}

impl ButtonEvent {
    /// The event is what comes of `action`.
    pub open spec fn answers(self, action: ButtonAction) -> bool {
        match action {
            ButtonAction::ReadState => self is State,
            ButtonAction::ReadButtons => self is Buttons,
            ButtonAction::ReadRandom => self is Random,
            ButtonAction::ReadTimer => self is Elapsed,
            _ => self is Done,
        }
    }

    /// The timer has not run longer than the task can take in.
    pub open spec fn in_range(self) -> bool {
        self matches ButtonEvent::Elapsed(ms) ==> ms <= MAX_ELAPSED_MS
    }
}

/// The LED self-test: both LEDs, then one after the other.
pub open spec fn self_test(step: int) -> ButtonAction {
    if step == 1 {
        ButtonAction::SetLeds(ButtonLeds::on())
    } else if step == 2 || step == 6 || step == 8 {
        ButtonAction::Sleep { ms: LED_SELF_TEST_MS }
    } else if step == 4 {
        ButtonAction::Sleep { ms: LED_SELF_TEST_PAUSE_MS }
    } else if step == 5 {
        ButtonAction::SetLeds(ButtonLeds::only(0))
    } else if step == 7 {
        ButtonAction::SetLeds(ButtonLeds::only(1))
    } else {
        ButtonAction::SetLeds(ButtonLeds::off())
    }
}

/// Last step of the LED self-test.
pub const SELF_TEST_LAST: u8 = 9;

impl ButtonPhase {
    /// What holds of every value that the task can reach.
    pub open spec fn wf(self) -> bool {
        match self {
            ButtonPhase::SelfTest(step) => step <= SELF_TEST_LAST,
            ButtonPhase::PreGame(led) | ButtonPhase::PreGameDark(led) | ButtonPhase::PreGameBlink(
                led,
            ) | ButtonPhase::PreGamePause(led) => led < LED_COUNT,
            ButtonPhase::Light(idx) | ButtonPhase::LightTimer(idx) | ButtonPhase::LightArm(idx) =>
                idx < LED_COUNT,
            ButtonPhase::Poll(round) | ButtonPhase::PollTime(round) | ButtonPhase::OffLightCheck(
                round,
            ) | ButtonPhase::PressCheck(round) | ButtonPhase::PollPause(round) => round.wf(),
            ButtonPhase::OffLightDebounce(round, idx) | ButtonPhase::OffLightConfirm(round, idx) =>
                round.wf() && round.armed_for_off_light_press && idx < LED_COUNT && idx
                    != round.idx,
            ButtonPhase::PressDebounce(round) | ButtonPhase::PressConfirm(round) => round.wf()
                && round.armed_for_press,
            ButtonPhase::GapDebounce(gap, idx) | ButtonPhase::GapConfirm(gap, idx) =>
                gap.armed_for_gap_press && idx < LED_COUNT,
            ButtonPhase::Hurting(hurt) | ButtonPhase::HurtCheck(hurt) => hurt.wf(),
            _ => true,
        }
    }

    /// What the task wants done in this phase.
    pub open spec fn action(self) -> ButtonAction {
        match self {
            ButtonPhase::SelfTest(step) => self_test(step as int),
            ButtonPhase::PreGameBlink(idx) | ButtonPhase::Light(idx) => ButtonAction::SetLeds(
                ButtonLeds::only(idx),
            ),
            ButtonPhase::PreGameDark(_) | ButtonPhase::EnterGame | ButtonPhase::GapDark
            | ButtonPhase::Leave => ButtonAction::SetLeds(ButtonLeds::off()),
            ButtonPhase::PreGamePause(_) => ButtonAction::Sleep { ms: PRE_GAME_LED_BLINK_MS },
            ButtonPhase::OffLightDebounce(..) | ButtonPhase::PressDebounce(_)
            | ButtonPhase::GapDebounce(..) => ButtonAction::Sleep { ms: BUTTON_DEBOUNCE_MS },
            ButtonPhase::PollPause(_) | ButtonPhase::GapPause(_) => ButtonAction::Sleep {
                ms: BUTTON_POLL_MS,
            },
            ButtonPhase::PreGame(_) | ButtonPhase::PickCheck | ButtonPhase::Poll(_)
            | ButtonPhase::GapPoll(_) | ButtonPhase::HurtCheck(_) => ButtonAction::ReadState,
            ButtonPhase::LightArm(_) | ButtonPhase::OffLightCheck(_) | ButtonPhase::OffLightConfirm(
                ..,
            ) | ButtonPhase::PressCheck(_) | ButtonPhase::PressConfirm(_) | ButtonPhase::GapArm(_)
            | ButtonPhase::GapCheck(_) | ButtonPhase::GapConfirm(..) => ButtonAction::ReadButtons,
            ButtonPhase::Pick | ButtonPhase::GapPick => ButtonAction::ReadRandom,
            ButtonPhase::LightTimer(_) | ButtonPhase::GapTimer(_) => ButtonAction::StartTimer,
            ButtonPhase::PollTime(_) | ButtonPhase::GapTime(_) => ButtonAction::ReadTimer,
            ButtonPhase::Hurting(hurt) => ButtonAction::Update(
                Change::DamagePlayer { damage: hurt.damage() },
            ),
            ButtonPhase::Lost => ButtonAction::Publish(AppState::EndScreen { player_won: false }),
        }
    }

    /// Where a poll goes on once the buttons were dealt with: to the missed tick
    /// that is due, or to the end of the poll.
    pub open spec fn after_buttons(round: Round) -> ButtonPhase {
        if round.is_tick_due() {
            ButtonPhase::Hurting(Hurt::Missed(round))
        } else {
            ButtonPhase::PollPause(round)
        }
    }

    /// The phase that follows a step without a value.
    pub open spec fn next_done(self) -> ButtonPhase {
        match self {
            ButtonPhase::SelfTest(step) => if step < SELF_TEST_LAST {
                ButtonPhase::SelfTest((step + 1) as u8)
            } else {
                ButtonPhase::PreGame(0)
            },
            ButtonPhase::PreGameDark(led) => ButtonPhase::PreGamePause(led),
            ButtonPhase::PreGameBlink(led) => ButtonPhase::PreGamePause(
                (led + 1) as usize % LED_COUNT,
            ),
            ButtonPhase::PreGamePause(led) => ButtonPhase::PreGame(led),
            ButtonPhase::EnterGame => ButtonPhase::PickCheck,
            ButtonPhase::Light(idx) => ButtonPhase::LightTimer(idx),
            ButtonPhase::LightTimer(idx) => ButtonPhase::LightArm(idx),
            ButtonPhase::OffLightDebounce(round, idx) => ButtonPhase::OffLightConfirm(round, idx),
            ButtonPhase::PressDebounce(round) => ButtonPhase::PressConfirm(round),
            ButtonPhase::PollPause(round) => ButtonPhase::Poll(round),
            ButtonPhase::GapDark => ButtonPhase::GapPick,
            ButtonPhase::GapTimer(gap_ms) => ButtonPhase::GapArm(gap_ms),
            ButtonPhase::GapDebounce(gap, idx) => ButtonPhase::GapConfirm(gap, idx),
            ButtonPhase::GapPause(gap) => ButtonPhase::GapTime(gap),
            ButtonPhase::Hurting(hurt) => ButtonPhase::HurtCheck(hurt),
            ButtonPhase::Lost => ButtonPhase::Leave,
            ButtonPhase::Leave => ButtonPhase::PreGame(0),
            phase => phase,
        }
    }

    /// The phase that follows a snapshot of the shared state.
    pub open spec fn next_state(self, state: AppState) -> ButtonPhase {
        match self {
            ButtonPhase::PreGame(led) => match state {
                AppState::Game { .. } => ButtonPhase::EnterGame,
                AppState::EndScreen { .. } => ButtonPhase::PreGameDark(led),
                _ => ButtonPhase::PreGameBlink(led),
            },
            ButtonPhase::HurtCheck(hurt) => if state.player_hp() == Some(0u32) {
                ButtonPhase::Lost
            } else {
                hurt.survived()
            },
            ButtonPhase::PickCheck if state is Game => ButtonPhase::Pick,
            ButtonPhase::Poll(round) if state is Game => ButtonPhase::PollTime(round),
            ButtonPhase::GapPoll(gap) if state is Game => ButtonPhase::GapCheck(gap),
            ButtonPhase::PickCheck | ButtonPhase::Poll(_) | ButtonPhase::GapPoll(_) =>
                ButtonPhase::Leave,
            phase => phase,
        }
    }

    /// The phase that follows a look at the buttons.
    pub open spec fn next_buttons(self, buttons: Buttons) -> ButtonPhase {
        match self {
            ButtonPhase::LightArm(idx) => ButtonPhase::Poll(Round::lit(idx, buttons)),
            ButtonPhase::OffLightCheck(round) => match buttons.unlit_press(Some(round.idx)) {
                Some(idx) if round.armed_for_off_light_press => ButtonPhase::OffLightDebounce(
                    round,
                    idx,
                ),
                Some(_) => ButtonPhase::PressCheck(round),
                None => ButtonPhase::PressCheck(Round { armed_for_off_light_press: true, ..round }),
            },
            ButtonPhase::OffLightConfirm(round, idx) => if buttons.pressed(idx as int) {
                ButtonPhase::Hurting(Hurt::OffLight(round, idx))
            } else {
                ButtonPhase::PressCheck(round)
            },
            ButtonPhase::PressCheck(round) => if !buttons.pressed(round.idx as int) {
                Self::after_buttons(Round { armed_for_press: true, ..round })
            } else if round.armed_for_press {
                ButtonPhase::PressDebounce(round)
            } else {
                Self::after_buttons(round)
            },
            ButtonPhase::PressConfirm(round) => if buttons.pressed(round.idx as int) {
                ButtonPhase::GapDark
            } else {
                Self::after_buttons(round)
            },
            ButtonPhase::GapArm(gap_ms) => ButtonPhase::GapTime(
                Gap { gap_ms, armed_for_gap_press: buttons.unlit_press(None) is None },
            ),
            ButtonPhase::GapCheck(gap) => match buttons.unlit_press(None) {
                Some(idx) if gap.armed_for_gap_press => ButtonPhase::GapDebounce(gap, idx),
                Some(_) => ButtonPhase::GapPause(gap),
                None => ButtonPhase::GapPause(Gap { armed_for_gap_press: true, ..gap }),
            },
            ButtonPhase::GapConfirm(gap, idx) => if buttons.pressed(idx as int) {
                ButtonPhase::Hurting(Hurt::NoLight(gap, idx))
            } else {
                ButtonPhase::GapPause(gap)
            },
            phase => phase,
        }
    }

    /// The phase that follows a random number.
    pub open spec fn next_random(self, random: u32) -> ButtonPhase {
        match self {
            ButtonPhase::Pick => ButtonPhase::Light((random as usize) % LED_COUNT),
            ButtonPhase::GapPick => ButtonPhase::GapTimer(gap_length(random)),
            phase => phase,
        }
    }

    /// The phase that follows a look at the timer.
    pub open spec fn next_elapsed(self, ms: u64) -> ButtonPhase {
        match self {
            ButtonPhase::PollTime(round) => ButtonPhase::OffLightCheck(round.polled(ms)),
            ButtonPhase::GapTime(gap) => if ms < gap.gap_ms {
                ButtonPhase::GapPoll(gap)
            } else {
                ButtonPhase::PickCheck
            },
            phase => phase,
        }
    }

    /// The phase that follows once `event` came of this phase's action. An
    /// event that answers another action changes nothing.
    pub open spec fn next(self, event: ButtonEvent) -> ButtonPhase {
        match event {
            ButtonEvent::Done => self.next_done(),
            ButtonEvent::State(state) => self.next_state(state),
            ButtonEvent::Buttons(buttons) => self.next_buttons(buttons),
            ButtonEvent::Random(random) => self.next_random(random),
            ButtonEvent::Elapsed(ms) => self.next_elapsed(ms),
        }
    }

    /// The line for the log that `event` calls for in this phase.
    pub open spec fn note(self, event: ButtonEvent) -> Option<ButtonNote> {
        match (self, event) {
            (ButtonPhase::LightArm(idx), ButtonEvent::Buttons(buttons)) => {
                let round = Round::lit(idx, buttons);
                if round.armed_for_press && round.armed_for_off_light_press {
                    None
                } else {
                    Some(
                        ButtonNote::HeldWhenLit {
                            lit: !round.armed_for_press,
                            unlit: !round.armed_for_off_light_press,
                        },
                    )
                }
            },
            (ButtonPhase::PollTime(round), ButtonEvent::Elapsed(ms)) => if ms
                >= round.next_button_wait_log_ms {
                Some(ButtonNote::Waiting)
            } else {
                None
            },
            (ButtonPhase::OffLightCheck(round), ButtonEvent::Buttons(buttons)) => if
            !round.armed_for_off_light_press && buttons.unlit_press(Some(round.idx)) is None {
                Some(ButtonNote::OffLightArmed)
            } else {
                None
            },
            (ButtonPhase::PressCheck(round), ButtonEvent::Buttons(buttons)) => if
            !round.armed_for_press && !buttons.pressed(round.idx as int) {
                Some(ButtonNote::PressArmed)
            } else {
                None
            },
            (ButtonPhase::GapArm(_), ButtonEvent::Buttons(buttons)) => if buttons.unlit_press(
                None,
            ) is Some {
                Some(ButtonNote::HeldInGap)
            } else {
                None
            },
            (ButtonPhase::GapCheck(gap), ButtonEvent::Buttons(buttons)) => if
            !gap.armed_for_gap_press && buttons.unlit_press(None) is None {
                Some(ButtonNote::GapArmed)
            } else {
                None
            },
            _ => None,
        }
    }

    /// The phase after all of `events`, first to last.
    pub open spec fn after(self, events: Seq<ButtonEvent>) -> ButtonPhase
        decreases events.len(),
    {
        if events.len() == 0 {
            self
        } else {
            self.after(events.drop_last()).next(events.last())
        }
    }
}

/// Reaction mini-game: lights a random LED and drains the player's HP if the
/// matching button isn't pressed in time. Damage ramps up slowly every tick
/// past the reaction window until the button is finally pressed.
pub struct ButtonTask {
    pub phase: ButtonPhase,
}

/// Both LEDs off.
fn leds_off() -> (leds: ButtonLeds)
    ensures
        leds == ButtonLeds::off(),
{
    ButtonLeds { led0: Level::Low, led1: Level::Low }
}

/// Just one LED on.
fn leds_only(idx: usize) -> (leds: ButtonLeds)
    ensures
        leds == ButtonLeds::only(idx),
{
    let mut leds = leds_off();
    leds.set_only(idx);
    leds
}

/// What the LED self-test wants done in a step.
fn self_test_action(step: u8) -> (action: ButtonAction)
    ensures
        action == self_test(step as int),
{
    match step {
        1 => {
            let mut leds = leds_off();
            leds.all_on();
            ButtonAction::SetLeds(leds)
        },
        2 => ButtonAction::Sleep { ms: LED_SELF_TEST_MS },
        4 => ButtonAction::Sleep { ms: LED_SELF_TEST_PAUSE_MS },
        5 => ButtonAction::SetLeds(leds_only(0)),
        6 => ButtonAction::Sleep { ms: LED_SELF_TEST_MS },
        7 => ButtonAction::SetLeds(leds_only(1)),
        8 => ButtonAction::Sleep { ms: LED_SELF_TEST_MS },
        _ => ButtonAction::SetLeds(leds_off()),
    }
}

impl Hurt {
    /// What it costs.
    fn cost(&self) -> (damage: u32)
        ensures
            damage == self.damage(),
    {
        match *self {
            Hurt::OffLight(_, _) => OFF_LIGHT_DAMAGE,
            Hurt::Missed(round) => round.damage,
            Hurt::NoLight(_, _) => OFF_LIGHT_DAMAGE,
        }
    }

    /// Where the game goes on if the player survives.
    fn resume(self) -> (phase: ButtonPhase)
        requires
            self.wf(),
        ensures
            phase == self.survived(),
            phase.wf(),
    {
        match self {
            Hurt::OffLight(round, _) => ButtonPhase::PressCheck(
                Round { armed_for_off_light_press: false, ..round },
            ),
            Hurt::Missed(round) => ButtonPhase::PollPause(
                Round {
                    damage: round.damage.saturating_add(1),
                    next_damage_ms: round.next_damage_ms + DAMAGE_TICK_MS,
                    ..round
                },
            ),
            Hurt::NoLight(gap, _) => ButtonPhase::GapPause(
                Gap { armed_for_gap_press: false, ..gap },
            ),
        }
    }
}

impl ButtonTask {
    /// What holds of every value that the task can reach.
    pub open spec fn wf(&self) -> bool {
        self.phase.wf()
    }

    /// The task at power-up.
    pub fn new() -> (task: Self)
        ensures
            task.phase == ButtonPhase::SelfTest(0),
            task.wf(),
    {
        ButtonTask { phase: ButtonPhase::SelfTest(0) }
    }

    /// What to do next.
    pub fn action(&self) -> (action: ButtonAction)
        ensures
            action == self.phase.action(),
    {
        match self.phase {
            ButtonPhase::SelfTest(step) => self_test_action(step),
            ButtonPhase::PreGameBlink(idx) => ButtonAction::SetLeds(leds_only(idx)),
            ButtonPhase::Light(idx) => ButtonAction::SetLeds(leds_only(idx)),
            ButtonPhase::PreGameDark(_) => ButtonAction::SetLeds(leds_off()),
            ButtonPhase::EnterGame => ButtonAction::SetLeds(leds_off()),
            ButtonPhase::GapDark => ButtonAction::SetLeds(leds_off()),
            ButtonPhase::Leave => ButtonAction::SetLeds(leds_off()),
            ButtonPhase::PreGamePause(_) => ButtonAction::Sleep { ms: PRE_GAME_LED_BLINK_MS },
            ButtonPhase::OffLightDebounce(_, _) => ButtonAction::Sleep { ms: BUTTON_DEBOUNCE_MS },
            ButtonPhase::PressDebounce(_) => ButtonAction::Sleep { ms: BUTTON_DEBOUNCE_MS },
            ButtonPhase::GapDebounce(_, _) => ButtonAction::Sleep { ms: BUTTON_DEBOUNCE_MS },
            ButtonPhase::PollPause(_) => ButtonAction::Sleep { ms: BUTTON_POLL_MS },
            ButtonPhase::GapPause(_) => ButtonAction::Sleep { ms: BUTTON_POLL_MS },
            ButtonPhase::PreGame(_) => ButtonAction::ReadState,
            ButtonPhase::PickCheck => ButtonAction::ReadState,
            ButtonPhase::Poll(_) => ButtonAction::ReadState,
            ButtonPhase::GapPoll(_) => ButtonAction::ReadState,
            ButtonPhase::HurtCheck(_) => ButtonAction::ReadState,
            ButtonPhase::LightArm(_) => ButtonAction::ReadButtons,
            ButtonPhase::OffLightCheck(_) => ButtonAction::ReadButtons,
            ButtonPhase::OffLightConfirm(_, _) => ButtonAction::ReadButtons,
            ButtonPhase::PressCheck(_) => ButtonAction::ReadButtons,
            ButtonPhase::PressConfirm(_) => ButtonAction::ReadButtons,
            ButtonPhase::GapArm(_) => ButtonAction::ReadButtons,
            ButtonPhase::GapCheck(_) => ButtonAction::ReadButtons,
            ButtonPhase::GapConfirm(_, _) => ButtonAction::ReadButtons,
            ButtonPhase::Pick => ButtonAction::ReadRandom,
            ButtonPhase::GapPick => ButtonAction::ReadRandom,
            ButtonPhase::LightTimer(_) => ButtonAction::StartTimer,
            ButtonPhase::GapTimer(_) => ButtonAction::StartTimer,
            ButtonPhase::PollTime(_) => ButtonAction::ReadTimer,
            ButtonPhase::GapTime(_) => ButtonAction::ReadTimer,
            ButtonPhase::Hurting(hurt) => ButtonAction::Update(
                Change::DamagePlayer { damage: hurt.cost() },
            ),
            ButtonPhase::Lost => ButtonAction::Publish(AppState::EndScreen { player_won: false }),
        }
    }

    /// A step without a value is done.
    fn on_done(&mut self)
        requires
            old(self).wf(),
        ensures
            final(self).phase == old(self).phase.next_done(),
            final(self).wf(),
    {
        self.phase = match self.phase {
            ButtonPhase::SelfTest(step) => if step < SELF_TEST_LAST {
                ButtonPhase::SelfTest(step + 1)
            } else {
                ButtonPhase::PreGame(0)
            },
            ButtonPhase::PreGameDark(led) => ButtonPhase::PreGamePause(led),
            ButtonPhase::PreGameBlink(led) => ButtonPhase::PreGamePause((led + 1) % LED_COUNT),
            ButtonPhase::PreGamePause(led) => ButtonPhase::PreGame(led),
            ButtonPhase::EnterGame => ButtonPhase::PickCheck,
            ButtonPhase::Light(idx) => ButtonPhase::LightTimer(idx),
            ButtonPhase::LightTimer(idx) => ButtonPhase::LightArm(idx),
            ButtonPhase::OffLightDebounce(round, idx) => ButtonPhase::OffLightConfirm(round, idx),
            ButtonPhase::PressDebounce(round) => ButtonPhase::PressConfirm(round),
            ButtonPhase::PollPause(round) => ButtonPhase::Poll(round),
            ButtonPhase::GapDark => ButtonPhase::GapPick,
            ButtonPhase::GapTimer(gap_ms) => ButtonPhase::GapArm(gap_ms),
            ButtonPhase::GapDebounce(gap, idx) => ButtonPhase::GapConfirm(gap, idx),
            ButtonPhase::GapPause(gap) => ButtonPhase::GapTime(gap),
            ButtonPhase::Hurting(hurt) => ButtonPhase::HurtCheck(hurt),
            ButtonPhase::Lost => ButtonPhase::Leave,
            ButtonPhase::Leave => ButtonPhase::PreGame(0),
            phase => phase,
        };
    }

    /// A snapshot of the shared state came.
    fn on_state(&mut self, state: &AppState)
        requires
            old(self).wf(),
        ensures
            final(self).phase == old(self).phase.next_state(*state),
            final(self).wf(),
    {
        let in_game = state.is_game();
        self.phase = match self.phase {
            ButtonPhase::PreGame(led) => if in_game {
                ButtonPhase::EnterGame
            } else if state.is_end_screen() {
                ButtonPhase::PreGameDark(led)
            } else {
                ButtonPhase::PreGameBlink(led)
            },
            ButtonPhase::HurtCheck(hurt) => if state.is_player_defeated() {
                ButtonPhase::Lost
            } else {
                hurt.resume()
            },
            ButtonPhase::PickCheck => if in_game {
                ButtonPhase::Pick
            } else {
                ButtonPhase::Leave
            },
            ButtonPhase::Poll(round) => if in_game {
                ButtonPhase::PollTime(round)
            } else {
                ButtonPhase::Leave
            },
            ButtonPhase::GapPoll(gap) => if in_game {
                ButtonPhase::GapCheck(gap)
            } else {
                ButtonPhase::Leave
            },
            phase => phase,
        };
    }

    /// Deals with a missed tick that is due, or ends the poll.
    fn finish_poll(round: Round) -> (phase: ButtonPhase)
        requires
            round.wf(),
        ensures
            phase == ButtonPhase::after_buttons(round),
            phase.wf(),
    {
        if round.elapsed_ms >= round.next_damage_ms {
            ButtonPhase::Hurting(Hurt::Missed(round))
        } else {
            ButtonPhase::PollPause(round)
        }
    }

    /// A look at the buttons came.
    fn on_buttons(&mut self, buttons: &Buttons) -> (note: Option<ButtonNote>)
        requires
            old(self).wf(),
        ensures
            final(self).phase == old(self).phase.next_buttons(*buttons),
            note == old(self).phase.note(ButtonEvent::Buttons(*buttons)),
            final(self).wf(),
    {
        match self.phase {
            ButtonPhase::LightArm(idx) => {
                let round = Round::new(idx, buttons);
                self.phase = ButtonPhase::Poll(round);
                if round.armed_for_press && round.armed_for_off_light_press {
                    None
                } else {
                    Some(
                        ButtonNote::HeldWhenLit {
                            lit: !round.armed_for_press,
                            unlit: !round.armed_for_off_light_press,
                        },
                    )
                }
            },
            ButtonPhase::OffLightCheck(round) => {
                let unlit = buttons.pressed_unlit_index(Some(round.idx));
                if !round.armed_for_off_light_press {
                    if unlit.is_none() {
                        self.phase = ButtonPhase::PressCheck(
                            Round { armed_for_off_light_press: true, ..round },
                        );
                        Some(ButtonNote::OffLightArmed)
                    } else {
                        self.phase = ButtonPhase::PressCheck(round);
                        None
                    }
                } else if let Some(unlit_idx) = unlit {
                    self.phase = ButtonPhase::OffLightDebounce(round, unlit_idx);
                    None
                } else {
                    self.phase = ButtonPhase::PressCheck(round);
                    None
                }
            },
            ButtonPhase::OffLightConfirm(round, idx) => {
                self.phase = if buttons.is_pressed(idx) {
                    ButtonPhase::Hurting(Hurt::OffLight(round, idx))
                } else {
                    ButtonPhase::PressCheck(round)
                };
                None
            },
            ButtonPhase::PressCheck(round) => {
                let pressed = buttons.is_pressed(round.idx);
                if !round.armed_for_press {
                    if !pressed {
                        self.phase = Self::finish_poll(Round { armed_for_press: true, ..round });
                        Some(ButtonNote::PressArmed)
                    } else {
                        self.phase = Self::finish_poll(round);
                        None
                    }
                } else if pressed {
                    self.phase = ButtonPhase::PressDebounce(round);
                    None
                } else {
                    self.phase = Self::finish_poll(round);
                    None
                }
            },
            ButtonPhase::PressConfirm(round) => {
                self.phase = if buttons.is_pressed(round.idx) {
                    ButtonPhase::GapDark
                } else {
                    Self::finish_poll(round)
                };
                None
            },
            ButtonPhase::GapArm(gap_ms) => {
                let armed_for_gap_press = buttons.pressed_index().is_none();
                self.phase = ButtonPhase::GapTime(Gap { gap_ms, armed_for_gap_press });
                if armed_for_gap_press {
                    None
                } else {
                    Some(ButtonNote::HeldInGap)
                }
            },
            ButtonPhase::GapCheck(gap) => {
                let pressed = buttons.pressed_index();
                if !gap.armed_for_gap_press {
                    if pressed.is_none() {
                        self.phase = ButtonPhase::GapPause(
                            Gap { armed_for_gap_press: true, ..gap },
                        );
                        Some(ButtonNote::GapArmed)
                    } else {
                        self.phase = ButtonPhase::GapPause(gap);
                        None
                    }
                } else if let Some(idx) = pressed {
                    self.phase = ButtonPhase::GapDebounce(gap, idx);
                    None
                } else {
                    self.phase = ButtonPhase::GapPause(gap);
                    None
                }
            },
            ButtonPhase::GapConfirm(gap, idx) => {
                self.phase = if buttons.is_pressed(idx) {
                    ButtonPhase::Hurting(Hurt::NoLight(gap, idx))
                } else {
                    ButtonPhase::GapPause(gap)
                };
                None
            },
            _ => None,
        }
    }

    /// A look at the timer came.
    fn on_elapsed(&mut self, ms: u64) -> (note: Option<ButtonNote>)
        requires
            old(self).wf(),
            ms <= MAX_ELAPSED_MS,
        ensures
            final(self).phase == old(self).phase.next_elapsed(ms),
            note == old(self).phase.note(ButtonEvent::Elapsed(ms)),
            final(self).wf(),
    {
        match self.phase {
            ButtonPhase::PollTime(round) => {
                if ms >= round.next_button_wait_log_ms {
                    self.phase = ButtonPhase::OffLightCheck(
                        Round {
                            elapsed_ms: ms,
                            next_button_wait_log_ms: round.next_button_wait_log_ms
                                + BUTTON_WAIT_LOG_MS,
                            ..round
                        },
                    );
                    Some(ButtonNote::Waiting)
                } else {
                    self.phase = ButtonPhase::OffLightCheck(Round { elapsed_ms: ms, ..round });
                    None
                }
            },
            ButtonPhase::GapTime(gap) => {
                self.phase = if ms < gap.gap_ms {
                    ButtonPhase::GapPoll(gap)
                } else {
                    ButtonPhase::PickCheck
                };
                None
            },
            _ => None,
        }
    }

    /// Takes in what came of the action, and hands back a line for the log.
    pub fn advance(&mut self, event: ButtonEvent) -> (note: Option<ButtonNote>)
        requires
            old(self).wf(),
            event.in_range(),
        ensures
            final(self).phase == old(self).phase.next(event),
            note == old(self).phase.note(event),
            final(self).wf(),
    {
        match event {
            ButtonEvent::Done => {
                self.on_done();
                None
            },
            ButtonEvent::State(state) => {
                self.on_state(&state);
                None
            },
            ButtonEvent::Buttons(buttons) => self.on_buttons(&buttons),
            ButtonEvent::Random(random) => {
                self.phase = match self.phase {
                    ButtonPhase::Pick => ButtonPhase::Light(random as usize % LED_COUNT),
                    ButtonPhase::GapPick => ButtonPhase::GapTimer(
                        (GAP_MIN_MS + random % GAP_SPREAD_MS) as u64,
                    ),
                    phase => phase,
                };
                None
            },
            ButtonEvent::Elapsed(ms) => self.on_elapsed(ms),
        }
    }
}

} // verus!
