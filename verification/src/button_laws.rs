//! What holds of the reaction mini-game as a whole.
use vstd::prelude::*;
use crate::buttons::{
    ButtonLeds, Buttons, Level, DAMAGE_TICK_MS, GAP_MIN_MS, GAP_SPREAD_MS, LED_COUNT,
    OFF_LIGHT_DAMAGE, REACTION_WINDOW_MS,
};
use crate::button_task::{
    gap_length, ButtonAction, ButtonEvent, ButtonPhase, Gap, Hurt, Round,
};
use crate::state::{AppState, Change};

verus! {

impl ButtonPhase {
    /// The round that is being played.
    pub open spec fn round(self) -> Option<Round> {
        match self {
            ButtonPhase::Poll(round) => Some(round),
            ButtonPhase::PollTime(round) => Some(round),
            ButtonPhase::OffLightCheck(round) => Some(round),
            ButtonPhase::OffLightDebounce(round, _) => Some(round),
            ButtonPhase::OffLightConfirm(round, _) => Some(round),
            ButtonPhase::PressCheck(round) => Some(round),
            ButtonPhase::PressDebounce(round) => Some(round),
            ButtonPhase::PressConfirm(round) => Some(round),
            ButtonPhase::PollPause(round) => Some(round),
            ButtonPhase::Hurting(Hurt::OffLight(round, _)) => Some(round),
            ButtonPhase::Hurting(Hurt::Missed(round)) => Some(round),
            ButtonPhase::HurtCheck(Hurt::OffLight(round, _)) => Some(round),
            ButtonPhase::HurtCheck(Hurt::Missed(round)) => Some(round),
            _ => None,
        }
    }

    /// The gap that is being waited out.
    pub open spec fn gap(self) -> Option<Gap> {
        match self {
            ButtonPhase::GapTime(gap) => Some(gap),
            ButtonPhase::GapPoll(gap) => Some(gap),
            ButtonPhase::GapCheck(gap) => Some(gap),
            ButtonPhase::GapDebounce(gap, _) => Some(gap),
            ButtonPhase::GapConfirm(gap, _) => Some(gap),
            ButtonPhase::GapPause(gap) => Some(gap),
            ButtonPhase::Hurting(Hurt::NoLight(gap, _)) => Some(gap),
            ButtonPhase::HurtCheck(Hurt::NoLight(gap, _)) => Some(gap),
            _ => None,
        }
    }

    /// What the LEDs show while a game is on.
    pub open spec fn leds(self) -> Option<ButtonLeds> {
        match self {
            ButtonPhase::PickCheck | ButtonPhase::Pick | ButtonPhase::Light(_)
            | ButtonPhase::GapPick | ButtonPhase::GapTimer(_) | ButtonPhase::GapArm(_) => Some(
                ButtonLeds::off(),
            ),
            ButtonPhase::LightTimer(idx) | ButtonPhase::LightArm(idx) => Some(
                ButtonLeds::only(idx),
            ),
            phase => match (phase.round(), phase.gap()) {
                (Some(round), _) => Some(ButtonLeds::only(round.idx)),
                (_, Some(_)) => Some(ButtonLeds::off()),
                _ => None,
            },
        }
    }

    /// The other button was not seen up since the last penalty for it, and no
    /// new penalty is on the way.
    pub open spec fn off_light_spent(self, idx: usize) -> bool {
        &&& self.round() matches Some(round) && round.idx == idx
            && !round.armed_for_off_light_press
        &&& !(self is OffLightDebounce)
        &&& !(self is OffLightConfirm)
        &&& !(self matches ButtonPhase::Hurting(hurt) && hurt is OffLight)
        &&& !(self matches ButtonPhase::HurtCheck(hurt) && hurt is OffLight)
    }

    /// The lit button was not seen up since its LED was lit.
    pub open spec fn press_not_armed(self, idx: usize) -> bool {
        &&& self.round() matches Some(round) && round.idx == idx && !round.armed_for_press
        &&& !(self is PressDebounce)
        &&& !(self is PressConfirm)
    }

    /// The buttons were not all seen up since the last penalty in this gap, and
    /// no new penalty is on the way.
    pub open spec fn gap_spent(self) -> bool {
        &&& self.gap() matches Some(gap) && !gap.armed_for_gap_press
        &&& !(self is GapDebounce)
        &&& !(self is GapConfirm)
        &&& !(self is Hurting)
        &&& !(self is HurtCheck)
    }
}

/// An event that answers another action than the one asked for changes nothing.
pub proof fn law_stray_event_changes_nothing(phase: ButtonPhase, event: ButtonEvent)
    requires
        !event.answers(phase.action()),
    ensures
        phase.next(event) == phase,
        phase.note(event) is None,
{
}

/// From power-up on, whatever happens, the task stays well-formed.
pub proof fn law_task_stays_well_formed(events: Seq<ButtonEvent>)
    requires
        forall|i: int| 0 <= i < events.len() ==> #[trigger] events[i].in_range(),
    ensures
        ButtonPhase::SelfTest(0).after(events).wf(),
    decreases events.len(),
{
    if events.len() > 0 {
        let before = events.drop_last();
        assert forall|i: int| 0 <= i < before.len() implies #[trigger] before[i].in_range() by {
            assert(events[i].in_range());
        }
        law_task_stays_well_formed(before);
        assert(events[events.len() - 1].in_range());
    }
}

/// While a game is on, the LEDs show what the task last asked for: exactly the
/// LED of the round, and nothing in a gap.
pub proof fn law_leds_follow_the_task(phase: ButtonPhase, event: ButtonEvent)
    requires
        event.answers(phase.action()),
        phase.next(event).leds() is Some,
    ensures
        phase.next(event).leds() == match phase.action() {
            ButtonAction::SetLeds(leds) => Some(leds),
            _ => phase.leds(),
        },
{
}

/// Within a round the LED stays the same, and the cost and time of the next
/// missed tick change only when a missed tick was paid for. It then costs one
/// more (up to the ceiling) and comes one tick later.
pub proof fn law_ticks_ramp_one_by_one(
    phase: ButtonPhase,
    event: ButtonEvent,
    round: Round,
    next: Round,
)
    requires
        phase.round() == Some(round),
        phase.next(event).round() == Some(next),
        phase.wf(),
    ensures
        next.idx == round.idx,
        if phase matches ButtonPhase::HurtCheck(hurt) && hurt is Missed && event is State {
            &&& next.next_damage_ms == round.next_damage_ms + DAMAGE_TICK_MS
            &&& round.damage < u32::MAX ==> next.damage == round.damage + 1
            &&& round.damage == u32::MAX ==> next.damage == u32::MAX
        } else {
            next.damage == round.damage && next.next_damage_ms == round.next_damage_ms
        },
{
}

/// No damage is dealt for a lit button inside its reaction window, and the
/// `n`-th missed tick costs `n` and comes no earlier than `n - 1` ticks after
/// the window.
pub proof fn law_damage_ramps_after_the_window(events: Seq<ButtonEvent>, round: Round)
    requires
        forall|i: int| 0 <= i < events.len() ==> #[trigger] events[i].in_range(),
        ButtonPhase::SelfTest(0).after(events) == ButtonPhase::Hurting(Hurt::Missed(round)),
    ensures
        ButtonPhase::SelfTest(0).after(events).action() == ButtonAction::Update(
            Change::DamagePlayer { damage: round.damage },
        ),
        round.damage >= 1,
        round.elapsed_ms >= REACTION_WINDOW_MS + DAMAGE_TICK_MS * (round.damage - 1),
{
    law_task_stays_well_formed(events);
}

/// A tick that is due is dealt when the lit button is up, and costs what the
/// ramp says.
pub proof fn law_due_tick_is_dealt(round: Round, buttons: Buttons)
    requires
        round.is_tick_due(),
        !buttons.pressed(round.idx as int),
    ensures
        ButtonPhase::PressCheck(round).next(ButtonEvent::Buttons(buttons)).action()
            == ButtonAction::Update(Change::DamagePlayer { damage: round.damage }),
{
}

/// The penalty for a press off the light is small, and goes to a button whose
/// LED is off.
pub proof fn law_penalty_is_for_a_dark_button(events: Seq<ButtonEvent>, round: Round, idx: usize)
    requires
        forall|i: int| 0 <= i < events.len() ==> #[trigger] events[i].in_range(),
        ButtonPhase::SelfTest(0).after(events) == ButtonPhase::Hurting(Hurt::OffLight(round, idx)),
    ensures
        ButtonPhase::SelfTest(0).after(events).action() == ButtonAction::Update(
            Change::DamagePlayer { damage: OFF_LIGHT_DAMAGE },
        ),
        idx < LED_COUNT,
        ({
            let leds = ButtonPhase::SelfTest(0).after(events).leds()->0;
            if idx == 0 {
                leds.led0 == Level::Low
            } else {
                leds.led1 == Level::Low
            }
        }),
{
    law_task_stays_well_formed(events);
}

/// A press of the lit button counts only when the button is seen down twice, a
/// debounce apart, after it was seen up.
pub proof fn law_press_is_armed_and_debounced(phase: ButtonPhase, event: ButtonEvent)
    requires
        phase.wf(),
        phase != ButtonPhase::GapDark,
        phase.next(event) == ButtonPhase::GapDark,
    ensures
        phase matches ButtonPhase::PressConfirm(round) && round.armed_for_press && (event matches
            ButtonEvent::Buttons(buttons) && buttons.pressed(round.idx as int)),
{
}

/// A lit button that is held down since before its LED was lit never counts,
/// however long the round lasts.
pub proof fn law_held_button_does_not_count(
    phase: ButtonPhase,
    events: Seq<ButtonEvent>,
    idx: usize,
)
    requires
        phase.press_not_armed(idx),
        forall|i: int|
            0 <= i < events.len() ==> (#[trigger] events[i] matches ButtonEvent::Buttons(buttons)
                ==> buttons.pressed(idx as int)),
        forall|i: int|
            0 <= i < events.len() ==> (#[trigger] phase.after(events.take(i))).round() is Some,
    ensures
        phase.after(events) != ButtonPhase::GapDark,
        phase.after(events).round() is Some ==> phase.after(events).press_not_armed(idx),
    decreases events.len(),
{
    if events.len() > 0 {
        let before = events.drop_last();
        assert(before =~= events.take(events.len() - 1));
        assert(phase.after(events.take(events.len() - 1)).round() is Some);
        assert forall|i: int| 0 <= i < before.len() implies (#[trigger] before[i] matches
            ButtonEvent::Buttons(buttons) ==> buttons.pressed(idx as int)) by {
            assert(before[i] == events[i]);
        }
        assert forall|i: int| 0 <= i < before.len() implies (#[trigger] phase.after(
            before.take(i),
        )).round() is Some by {
            assert(before.take(i) =~= events.take(i));
        }
        law_held_button_does_not_count(phase, before, idx);
        assert(events[events.len() - 1] == events.last());
    }
}

/// After a penalty for the button off the light, holding it down costs nothing
/// more for the rest of the round: it has to be let go first.
pub proof fn law_one_penalty_per_press(phase: ButtonPhase, events: Seq<ButtonEvent>, idx: usize)
    requires
        phase.off_light_spent(idx),
        forall|i: int|
            0 <= i < events.len() ==> (#[trigger] events[i] matches ButtonEvent::Buttons(buttons)
                ==> buttons.unlit_press(Some(idx)) is Some),
        forall|i: int|
            0 <= i <= events.len() ==> (#[trigger] phase.after(events.take(i))).round() is Some,
    ensures
        phase.after(events).off_light_spent(idx),
    decreases events.len(),
{
    if events.len() > 0 {
        let before = events.drop_last();
        assert(before =~= events.take(events.len() - 1));
        assert(events =~= events.take(events.len() as int));
        assert(phase.after(events.take(events.len() as int)).round() is Some);
        assert forall|i: int| 0 <= i < before.len() implies (#[trigger] before[i] matches
            ButtonEvent::Buttons(buttons) ==> buttons.unlit_press(Some(idx)) is Some) by {
            assert(before[i] == events[i]);
        }
        assert forall|i: int| 0 <= i <= before.len() implies (#[trigger] phase.after(
            before.take(i),
        )).round() is Some by {
            assert(before.take(i) =~= events.take(i));
        }
        law_one_penalty_per_press(phase, before, idx);
        assert(events[events.len() - 1] == events.last());
    }
}

/// A player who survives a penalty off the light goes on with that penalty spent.
pub proof fn law_penalty_is_spent(round: Round, idx: usize, state: AppState)
    requires
        state.player_hp() != Some(0u32),
    ensures
        ButtonPhase::HurtCheck(Hurt::OffLight(round, idx)).next(
            ButtonEvent::State(state),
        ).off_light_spent(round.idx),
{
}

/// After a penalty in a gap, holding a button down costs nothing more in that
/// gap: all buttons have to be let go first.
pub proof fn law_one_gap_penalty_per_press(phase: ButtonPhase, events: Seq<ButtonEvent>)
    requires
        phase.gap_spent(),
        forall|i: int|
            0 <= i < events.len() ==> (#[trigger] events[i] matches ButtonEvent::Buttons(buttons)
                ==> buttons.unlit_press(None) is Some),
        forall|i: int|
            0 <= i <= events.len() ==> (#[trigger] phase.after(events.take(i))).gap() is Some,
    ensures
        phase.after(events).gap_spent(),
    decreases events.len(),
{
    if events.len() > 0 {
        let before = events.drop_last();
        assert(before =~= events.take(events.len() - 1));
        assert(events =~= events.take(events.len() as int));
        assert(phase.after(events.take(events.len() as int)).gap() is Some);
        assert forall|i: int| 0 <= i < before.len() implies (#[trigger] before[i] matches
            ButtonEvent::Buttons(buttons) ==> buttons.unlit_press(None) is Some) by {
            assert(before[i] == events[i]);
        }
        assert forall|i: int| 0 <= i <= before.len() implies (#[trigger] phase.after(
            before.take(i),
        )).gap() is Some by {
            assert(before.take(i) =~= events.take(i));
        }
        law_one_gap_penalty_per_press(phase, before);
        assert(events[events.len() - 1] == events.last());
    }
}

/// A player who survives a penalty in a gap goes on with that penalty spent.
pub proof fn law_gap_penalty_is_spent(gap: Gap, idx: usize, state: AppState)
    requires
        state.player_hp() != Some(0u32),
    ensures
        ButtonPhase::HurtCheck(Hurt::NoLight(gap, idx)).next(ButtonEvent::State(state)).gap_spent(),
{
}

/// The task publishes nothing but the lost game, and only after damage that was
/// followed by a snapshot of a game in which the player has no hit points left.
pub proof fn law_loss_needs_a_defeated_player(phase: ButtonPhase, event: ButtonEvent)
    ensures
        phase.action() matches ButtonAction::Publish(state) ==> phase == ButtonPhase::Lost && state
            == (AppState::EndScreen { player_won: false }),
        phase.next(event) == ButtonPhase::Lost && phase != ButtonPhase::Lost ==> phase is HurtCheck
            && (event matches ButtonEvent::State(state) && state.player_hp() == Some(0u32)),
        phase matches ButtonPhase::HurtCheck(_) ==> (event matches ButtonEvent::State(state)
            && state.player_hp() == Some(0u32) ==> phase.next(event) == ButtonPhase::Lost),
{
}

/// Every change that the task makes, and every state that it publishes, is valid.
pub proof fn law_task_keeps_state_valid(phase: ButtonPhase)
    ensures
        phase.action() matches ButtonAction::Update(change) ==> change.valid(),
        phase.action() matches ButtonAction::Publish(state) ==> state.valid(),
{
}

/// A snapshot without a game ends the round or the gap, and then the LEDs go off.
pub proof fn law_game_over_turns_leds_off(phase: ButtonPhase, state: AppState)
    requires
        !(state is Game),
        phase is PickCheck || phase is Poll || phase is GapPoll,
    ensures
        phase.next(ButtonEvent::State(state)).action() == ButtonAction::SetLeds(ButtonLeds::off()),
        phase.next(ButtonEvent::State(state)).next(ButtonEvent::Done) == ButtonPhase::PreGame(0),
{
}

/// A gap lasts from 300 to 999 ms.
pub proof fn law_gap_length(random: u32)
    ensures
        GAP_MIN_MS <= gap_length(random) < GAP_MIN_MS + GAP_SPREAD_MS,
{
}

} // verus!
