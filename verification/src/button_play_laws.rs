//! What the player of the reaction mini-game sees, told by the pins of the
//! buttons, the clock and what the task asks for.
use vstd::prelude::*;
use crate::button_task::{
    ButtonAction, ButtonEvent, ButtonNote, ButtonPhase, Gap, Hurt, Round,
};
use crate::buttons::Buttons;
use crate::state::{AppState, Change};

verus! {

/// The pin of the button is low.
pub open spec fn down(look: Buttons, idx: int) -> bool {
    idx == 0 && look.btn0 is Low || idx == 1 && look.btn1 is Low
}

/// Neither LED is on.
pub open spec fn dark(action: ButtonAction) -> bool {
    action matches ButtonAction::SetLeds(leds) && leds.led0 is Low && leds.led1 is Low
}

/// Exactly the LED `idx` is on.
pub open spec fn lights(action: ButtonAction, idx: int) -> bool {
    action matches ButtonAction::SetLeds(leds) && {
        &&& leds.led0 is High <==> idx == 0
        &&& leds.led1 is High <==> idx == 1
    }
}

/// The player is to lose `damage` hit points.
pub open spec fn hurts(action: ButtonAction, damage: u32) -> bool {
    action == ButtonAction::Update(Change::DamagePlayer { damage })
}

/// Nothing but sleep.
pub open spec fn sleeps(action: ButtonAction, ms: u64) -> bool {
    action == ButtonAction::Sleep { ms }
}

/// The index of the other button.
pub open spec fn other(idx: usize) -> int {
    1 - idx
}

/// At power-up the LEDs go off, both come on for a second, go off for 200 ms, come
/// on one after the other for a second each, and go off. Then the task looks at
/// the shared state.
pub proof fn law_self_test()
    ensures
        ({
            let s0 = ButtonPhase::SelfTest(0);
            let s1 = s0.next(ButtonEvent::Done);
            let s2 = s1.next(ButtonEvent::Done);
            let s3 = s2.next(ButtonEvent::Done);
            let s4 = s3.next(ButtonEvent::Done);
            let s5 = s4.next(ButtonEvent::Done);
            let s6 = s5.next(ButtonEvent::Done);
            let s7 = s6.next(ButtonEvent::Done);
            let s8 = s7.next(ButtonEvent::Done);
            let s9 = s8.next(ButtonEvent::Done);
            &&& dark(s0.action())
            &&& s1.action() matches ButtonAction::SetLeds(leds) && leds.led0 is High
                && leds.led1 is High
            &&& sleeps(s2.action(), 1000)
            &&& dark(s3.action())
            &&& sleeps(s4.action(), 200)
            &&& lights(s5.action(), 0)
            &&& sleeps(s6.action(), 1000)
            &&& lights(s7.action(), 1)
            &&& sleeps(s8.action(), 1000)
            &&& dark(s9.action())
            &&& s9.next(ButtonEvent::Done) == ButtonPhase::PreGame(0)
        }),
{
}

/// On the start screen and on the rules screen the LEDs blink in turn, half a
/// second each.
pub proof fn law_leds_blink_in_turn(led: usize, seen: AppState)
    requires
        led < 2,
        seen is Start || seen is Rules,
    ensures
        ({
            let blink = ButtonPhase::PreGame(led).next(ButtonEvent::State(seen));
            let pause = blink.next(ButtonEvent::Done);
            &&& ButtonPhase::PreGame(led).action() is ReadState
            &&& lights(blink.action(), led as int)
            &&& sleeps(pause.action(), 500)
            &&& pause.next(ButtonEvent::Done) == ButtonPhase::PreGame(other(led) as usize)
        }),
{
}

/// On the end screen the LEDs stay dark.
pub proof fn law_leds_are_dark_on_the_end_screen(led: usize, player_won: bool)
    ensures
        ({
            let off = ButtonPhase::PreGame(led).next(
                ButtonEvent::State(AppState::EndScreen { player_won }),
            );
            let pause = off.next(ButtonEvent::Done);
            &&& dark(off.action())
            &&& sleeps(pause.action(), 500)
            &&& pause.next(ButtonEvent::Done) == ButtonPhase::PreGame(led)
        }),
{
}

/// When a game begins the LEDs go off, and the task looks once more whether it is
/// on before it picks an LED.
pub proof fn law_game_begins(led: usize, seen: AppState)
    requires
        seen is Game,
    ensures
        ({
            let enter = ButtonPhase::PreGame(led).next(ButtonEvent::State(seen));
            &&& dark(enter.action())
            &&& enter.next(ButtonEvent::Done) == ButtonPhase::PickCheck
            &&& ButtonPhase::PickCheck.action() is ReadState
        }),
{
}

/// The parity of a random number picks the LED. It is lit, the clock starts, and
/// one look at the buttons tells which of them must be let go first. No tick is due
/// before 1500 ms, and the first one costs one hit point.
pub proof fn law_round_begins(seen: AppState, random: u32, look: Buttons)
    requires
        seen is Game,
    ensures
        ({
            let pick = ButtonPhase::PickCheck.next(ButtonEvent::State(seen));
            let light = pick.next(ButtonEvent::Random(random));
            let timer = light.next(ButtonEvent::Done);
            let arm = timer.next(ButtonEvent::Done);
            let idx = random as int % 2;
            &&& pick.action() is ReadRandom
            &&& lights(light.action(), idx)
            &&& timer.action() is StartTimer
            &&& arm.action() is ReadButtons
            &&& arm.next(ButtonEvent::Buttons(look)) matches ButtonPhase::Poll(round) && {
                &&& round.idx == idx
                &&& round.armed_for_press <==> !down(look, idx)
                &&& round.armed_for_off_light_press <==> !down(look, 1 - idx)
                &&& round.damage == 1
                &&& round.next_damage_ms == 1500
                &&& round.next_button_wait_log_ms == 500
            }
            &&& arm.note(ButtonEvent::Buttons(look)) == if down(look, 0) || down(look, 1) {
                Some(
                    ButtonNote::HeldWhenLit { lit: down(look, idx), unlit: down(look, 1 - idx) },
                )
            } else {
                None
            }
        }),
{
}

/// A poll begins with a look at the shared state. Without a game the LEDs go off
/// and the round is over; otherwise the clock and then the buttons are read, and
/// nothing else of the round changes.
pub proof fn law_poll_begins(round: Round, seen: AppState, ms: u64)
    requires
        round.wf(),
        ms <= u64::MAX - 750,
    ensures
        ({
            let poll = ButtonPhase::Poll(round);
            let timed = poll.next(ButtonEvent::State(seen));
            let looking = timed.next(ButtonEvent::Elapsed(ms));
            &&& poll.action() is ReadState
            &&& if seen is Game {
                &&& timed.action() is ReadTimer
                &&& looking.action() is ReadButtons
                &&& looking matches ButtonPhase::OffLightCheck(now) && {
                    &&& now.idx == round.idx
                    &&& now.armed_for_press == round.armed_for_press
                    &&& now.armed_for_off_light_press == round.armed_for_off_light_press
                    &&& now.damage == round.damage
                    &&& now.next_damage_ms == round.next_damage_ms
                    &&& now.elapsed_ms == ms
                    &&& now.next_button_wait_log_ms == if round.next_button_wait_log_ms <= ms {
                        round.next_button_wait_log_ms + 500
                    } else {
                        round.next_button_wait_log_ms as int
                    }
                }
                &&& timed.note(ButtonEvent::Elapsed(ms)) == if round.next_button_wait_log_ms <= ms {
                    Some(ButtonNote::Waiting)
                } else {
                    None
                }
            } else {
                &&& dark(timed.action())
                &&& timed.next(ButtonEvent::Done) == ButtonPhase::PreGame(0)
            }
        }),
{
}

/// Whenever the button of the dark LED may cost something and is seen down, and is
/// down again 30 ms later, the player loses one hit point. That goes for either
/// LED, at any time of the round.
pub proof fn law_press_off_the_light_costs(round: Round, first: Buttons, second: Buttons)
    requires
        round.idx < 2,
        round.armed_for_off_light_press,
        down(first, other(round.idx)),
        down(second, other(round.idx)),
    ensures
        ({
            let debounce = ButtonPhase::OffLightCheck(round).next(ButtonEvent::Buttons(first));
            let confirm = debounce.next(ButtonEvent::Done);
            let hurt = confirm.next(ButtonEvent::Buttons(second));
            &&& sleeps(debounce.action(), 30)
            &&& confirm.action() is ReadButtons
            &&& hurts(hurt.action(), 1)
            &&& hurt.round_at_risk() == Some(round)
            &&& hurt.next(ButtonEvent::Done).action() is ReadState
        }),
{
}

/// In every other case nothing is taken for the button of the dark LED, and the
/// poll goes on to the lit button: it is up, which lets its next press cost again;
/// it was not let go since the last penalty; or it is up again 30 ms later.
pub proof fn law_no_cost_off_the_light(round: Round, first: Buttons, second: Buttons)
    requires
        round.idx < 2,
        !down(second, other(round.idx)),
    ensures
        ({
            let check = ButtonPhase::OffLightCheck(round);
            let after = check.next(ButtonEvent::Buttons(first));
            if !down(first, other(round.idx)) {
                &&& after == ButtonPhase::PressCheck(
                    Round { armed_for_off_light_press: true, ..round },
                )
                &&& check.note(ButtonEvent::Buttons(first)) == if round.armed_for_off_light_press {
                    None
                } else {
                    Some(ButtonNote::OffLightArmed)
                }
            } else {
                &&& check.note(ButtonEvent::Buttons(first)) is None
                &&& if round.armed_for_off_light_press {
                    after.next(ButtonEvent::Done).next(ButtonEvent::Buttons(second))
                        == ButtonPhase::PressCheck(round)
                } else {
                    after == ButtonPhase::PressCheck(round)
                }
            }
        }),
{
}

/// Whenever the lit button was let go before and is seen down, and is down again
/// 30 ms later, the round is over: the LEDs go off and the gap begins. That goes
/// for either LED, however late the press comes and whatever the next tick would
/// have cost.
pub proof fn law_confirmed_press_ends_the_round(
    round: Round,
    first: Buttons,
    second: Buttons,
    random: u32,
    look: Buttons,
)
    requires
        round.idx < 2,
        round.armed_for_press,
        down(first, round.idx as int),
        down(second, round.idx as int),
    ensures
        ({
            let debounce = ButtonPhase::PressCheck(round).next(ButtonEvent::Buttons(first));
            let confirm = debounce.next(ButtonEvent::Done);
            let over = confirm.next(ButtonEvent::Buttons(second));
            let pick = over.next(ButtonEvent::Done);
            let timer = pick.next(ButtonEvent::Random(random));
            let arm = timer.next(ButtonEvent::Done);
            let gap = arm.next(ButtonEvent::Buttons(look));
            &&& ButtonPhase::PressCheck(round).action() is ReadButtons
            &&& sleeps(debounce.action(), 30)
            &&& confirm.action() is ReadButtons
            &&& dark(over.action())
            &&& pick.action() is ReadRandom
            &&& timer.action() is StartTimer
            &&& arm.action() is ReadButtons
            &&& gap.action() is ReadTimer
            &&& gap matches ButtonPhase::GapTime(now) && {
                &&& 300 <= now.gap_ms < 1000
                &&& (now.gap_ms - 300 - random) % 700 == 0
                &&& now.armed_for_gap_press <==> !down(look, 0) && !down(look, 1)
            }
            &&& arm.note(ButtonEvent::Buttons(look)) == if down(look, 0) || down(look, 1) {
                Some(ButtonNote::HeldInGap)
            } else {
                None
            }
        }),
{
}

/// In every other case the round goes on, with a tick if one is due and a pause of
/// 10 ms otherwise: the lit button is up, which lets its next press count; it was
/// not let go since its LED was lit; or it is up again 30 ms later.
pub proof fn law_round_goes_on_without_a_press(round: Round, first: Buttons, second: Buttons)
    requires
        round.idx < 2,
        !down(second, round.idx as int),
    ensures
        ({
            let check = ButtonPhase::PressCheck(round);
            let after = check.next(ButtonEvent::Buttons(first));
            let settled = if down(first, round.idx as int) && round.armed_for_press {
                after.next(ButtonEvent::Done).next(ButtonEvent::Buttons(second))
            } else {
                after
            };
            let now = Round {
                armed_for_press: round.armed_for_press || !down(first, round.idx as int),
                ..round
            };
            &&& if round.elapsed_ms >= round.next_damage_ms {
                &&& hurts(settled.action(), round.damage)
                &&& settled.round_at_risk() == Some(now)
            } else {
                &&& sleeps(settled.action(), 10)
                &&& settled.next(ButtonEvent::Done) == ButtonPhase::Poll(now)
            }
            &&& check.note(ButtonEvent::Buttons(first)) == if !round.armed_for_press && !down(
                first,
                round.idx as int,
            ) {
                Some(ButtonNote::PressArmed)
            } else {
                None
            }
        }),
{
}

impl ButtonPhase {
    /// The round in which the player is being hurt.
    pub open spec fn round_at_risk(self) -> Option<Round> {
        match self {
            ButtonPhase::Hurting(Hurt::OffLight(round, _)) => Some(round),
            ButtonPhase::Hurting(Hurt::Missed(round)) => Some(round),
            _ => None,
        }
    }
}

/// After damage the task looks at the shared state. A game in which the player has
/// no hit points left is published as lost, the LEDs go off, and the task waits for
/// the next game.
pub proof fn law_defeat_ends_the_game(hurt: Hurt, seen: AppState)
    requires
        seen is Game,
        seen->player_hp == 0,
    ensures
        ({
            let check = ButtonPhase::Hurting(hurt).next(ButtonEvent::Done);
            let lost = check.next(ButtonEvent::State(seen));
            let off = lost.next(ButtonEvent::Done);
            &&& check.action() is ReadState
            &&& lost.action() == ButtonAction::Publish(AppState::EndScreen { player_won: false })
            &&& dark(off.action())
            &&& off.next(ButtonEvent::Done) == ButtonPhase::PreGame(0)
        }),
{
}

/// A player who has hit points left, or whose game is over anyway, plays on. After
/// a tick the next one costs one more and comes 750 ms later. After a press off the
/// light the lit button is looked at next, and that press costs nothing more. In a
/// gap likewise, after a pause of 10 ms.
pub proof fn law_survivor_plays_on(hurt: Hurt, seen: AppState)
    requires
        hurt.wf(),
        seen is Game ==> seen->player_hp > 0,
    ensures
        ({
            let after = ButtonPhase::Hurting(hurt).next(ButtonEvent::Done).next(
                ButtonEvent::State(seen),
            );
            match hurt {
                Hurt::Missed(round) => {
                    &&& sleeps(after.action(), 10)
                    &&& after.next(ButtonEvent::Done) matches ButtonPhase::Poll(now) && {
                        &&& now.damage == round.damage + 1 || round.damage == u32::MAX && now.damage
                            == u32::MAX
                        &&& now.next_damage_ms == round.next_damage_ms + 750
                        &&& now.idx == round.idx
                        &&& now.armed_for_press == round.armed_for_press
                        &&& now.armed_for_off_light_press == round.armed_for_off_light_press
                        &&& now.next_button_wait_log_ms == round.next_button_wait_log_ms
                    }
                },
                Hurt::OffLight(round, _) => after == ButtonPhase::PressCheck(
                    Round { armed_for_off_light_press: false, ..round },
                ),
                Hurt::NoLight(gap, _) => {
                    &&& sleeps(after.action(), 10)
                    &&& after.next(ButtonEvent::Done) == ButtonPhase::GapTime(
                        Gap { armed_for_gap_press: false, ..gap },
                    )
                },
            }
        }),
{
}

/// A gap lasts until its time is up and a game that is on then goes on with the
/// next LED. Before that, a shared state without a game ends it, with the LEDs off.
pub proof fn law_gap_lasts_its_time(gap: Gap, ms: u64, seen: AppState)
    ensures
        ({
            let after = ButtonPhase::GapTime(gap).next(ButtonEvent::Elapsed(ms));
            &&& after.action() is ReadState
            &&& if ms >= gap.gap_ms {
                after == ButtonPhase::PickCheck
            } else {
                let polled = after.next(ButtonEvent::State(seen));
                if seen is Game {
                    &&& polled.action() is ReadButtons
                    &&& polled == ButtonPhase::GapCheck(gap)
                } else {
                    &&& dark(polled.action())
                    &&& polled.next(ButtonEvent::Done) == ButtonPhase::PreGame(0)
                }
            }
        }),
{
}

/// A round or a gap that finds no game before the next LED ends with the LEDs off.
pub proof fn law_no_led_without_a_game(seen: AppState)
    requires
        !(seen is Game),
    ensures
        ({
            let off = ButtonPhase::PickCheck.next(ButtonEvent::State(seen));
            &&& dark(off.action())
            &&& off.next(ButtonEvent::Done) == ButtonPhase::PreGame(0)
        }),
{
}

/// Whenever all buttons were let go in a gap and one is seen down, and the same one
/// is down again 30 ms later, the player loses one hit point. Of two buttons the
/// first is meant.
pub proof fn law_press_in_the_gap_costs(gap: Gap, first: Buttons, second: Buttons)
    requires
        gap.armed_for_gap_press,
        down(first, 0) && down(second, 0) || !down(first, 0) && down(first, 1) && down(second, 1),
    ensures
        ({
            let debounce = ButtonPhase::GapCheck(gap).next(ButtonEvent::Buttons(first));
            let confirm = debounce.next(ButtonEvent::Done);
            let hurt = confirm.next(ButtonEvent::Buttons(second));
            &&& sleeps(debounce.action(), 30)
            &&& confirm.action() is ReadButtons
            &&& hurts(hurt.action(), 1)
            &&& hurt matches ButtonPhase::Hurting(Hurt::NoLight(same, _)) && same == gap
        }),
{
}

/// In every other case nothing is taken in a gap, and after 10 ms the task looks
/// whether it is over: no button is down, which lets the next press cost; not all
/// were let go since the last penalty; or the button is up again 30 ms later.
pub proof fn law_no_cost_in_the_gap(gap: Gap, first: Buttons, second: Buttons)
    requires
        !(down(first, 0) && down(second, 0)),
        !(!down(first, 0) && down(first, 1) && down(second, 1)),
    ensures
        ({
            let check = ButtonPhase::GapCheck(gap);
            let after = check.next(ButtonEvent::Buttons(first));
            let none = !down(first, 0) && !down(first, 1);
            let settled = if !none && gap.armed_for_gap_press {
                after.next(ButtonEvent::Done).next(ButtonEvent::Buttons(second))
            } else {
                after
            };
            &&& sleeps(settled.action(), 10)
            &&& settled.next(ButtonEvent::Done) == ButtonPhase::GapTime(
                Gap { armed_for_gap_press: gap.armed_for_gap_press || none, ..gap },
            )
            &&& check.note(ButtonEvent::Buttons(first)) == if none && !gap.armed_for_gap_press {
                Some(ButtonNote::GapArmed)
            } else {
                None
            }
        }),
{
}

/// A button that is held in a gap and was not let go since the last penalty costs
/// nothing, whatever a second look would show.
pub proof fn law_held_button_is_free_in_the_gap(gap: Gap, look: Buttons)
    requires
        !gap.armed_for_gap_press,
        down(look, 0) || down(look, 1),
    ensures
        ({
            let after = ButtonPhase::GapCheck(gap).next(ButtonEvent::Buttons(look));
            &&& sleeps(after.action(), 10)
            &&& after.next(ButtonEvent::Done) == ButtonPhase::GapTime(gap)
        }),
{
}

/// A button off the light, or the lit one, that is held and was not let go is left
/// alone, whatever a second look would show.
pub proof fn law_held_button_is_left_alone(round: Round, look: Buttons)
    requires
        round.idx < 2,
    ensures
        !round.armed_for_off_light_press && down(look, other(round.idx))
            ==> ButtonPhase::OffLightCheck(round).next(ButtonEvent::Buttons(look))
            == ButtonPhase::PressCheck(round),
        !round.armed_for_press && down(look, round.idx as int) && round.elapsed_ms
            < round.next_damage_ms ==> ButtonPhase::PressCheck(round).next(
            ButtonEvent::Buttons(look),
        ) == ButtonPhase::PollPause(round),
        !round.armed_for_press && down(look, round.idx as int) && round.elapsed_ms
            >= round.next_damage_ms ==> hurts(
            ButtonPhase::PressCheck(round).next(ButtonEvent::Buttons(look)).action(),
            round.damage,
        ),
{
}

/// The steps of the task that have no line for the log: everything but a look at
/// the buttons or at the clock.
pub proof fn law_quiet_steps(phase: ButtonPhase, event: ButtonEvent)
    requires
        event is Done || event is State || event is Random,
    ensures
        phase.note(event) is None,
{
}

/// The lit button was seen up at some look that tells whether a press may count,
/// from the look right after its LED was lit through `events`.
pub open spec fn let_go(idx: usize, events: Seq<ButtonEvent>) -> bool
    decreases events.len(),
{
    events.len() > 0 && {
        let phase = ButtonPhase::LightArm(idx).after(events.drop_last());
        ||| let_go(idx, events.drop_last())
        ||| (phase is LightArm || phase is PressCheck) && (events.last() matches
            ButtonEvent::Buttons(look) && !down(look, idx as int))
    }
}

/// The other button was seen up since the last penalty for it, or since the LED was
/// lit.
pub open spec fn other_let_go(idx: usize, events: Seq<ButtonEvent>) -> bool
    decreases events.len(),
{
    events.len() > 0 && {
        let phase = ButtonPhase::LightArm(idx).after(events.drop_last());
        let penalty = phase matches ButtonPhase::HurtCheck(hurt) && hurt is OffLight
            && events.last() is State;
        &&& !penalty
        &&& {
            ||| other_let_go(idx, events.drop_last())
            ||| (phase is LightArm || phase is OffLightCheck) && (events.last() matches
                ButtonEvent::Buttons(look) && !down(look, other(idx)))
        }
    }
}

/// How many ticks the player has survived since the LED was lit.
pub open spec fn ticks_survived(idx: usize, events: Seq<ButtonEvent>) -> nat
    decreases events.len(),
{
    if events.len() == 0 {
        0
    } else {
        let phase = ButtonPhase::LightArm(idx).after(events.drop_last());
        let tick = phase matches ButtonPhase::HurtCheck(hurt) && hurt is Missed
            && events.last() is State;
        ticks_survived(idx, events.drop_last()) + if tick {
            1nat
        } else {
            0nat
        }
    }
}

/// What one step does to what a round remembers.
proof fn lemma_round_step(phase: ButtonPhase, event: ButtonEvent)
    requires
        phase.wf(),
        event.in_range(),
        phase.round() is Some,
        phase.next(event).round() is Some,
    ensures
        ({
            let round = phase.round()->0;
            let next = phase.next(event).round()->0;
            let tick = phase matches ButtonPhase::HurtCheck(hurt) && hurt is Missed
                && event is State;
            let penalty = phase matches ButtonPhase::HurtCheck(hurt) && hurt is OffLight
                && event is State;
            &&& phase.next(event).wf()
            &&& next.idx == round.idx
            &&& next.armed_for_press <==> (round.armed_for_press || phase is PressCheck && (
            event matches ButtonEvent::Buttons(look) && !down(look, round.idx as int)))
            &&& next.armed_for_off_light_press <==> !penalty && (round.armed_for_off_light_press
                || phase is OffLightCheck && (event matches ButtonEvent::Buttons(look) && !down(
                look,
                other(round.idx),
            )))
            &&& if tick {
                &&& next.next_damage_ms == round.next_damage_ms + 750
                &&& round.damage < u32::MAX ==> next.damage == round.damage + 1
            } else {
                next.next_damage_ms == round.next_damage_ms && next.damage == round.damage
            }
        }),
{
}

/// However long a round lasts: a press of the lit button can count exactly once the
/// button was seen up, a press off the light can cost exactly once that button was
/// seen up since its last penalty, and after `n` ticks the next one costs `n + 1`
/// and is due `750 n` ms after the reaction window of 1500 ms.
pub proof fn law_round_remembers_what_was_seen(idx: usize, events: Seq<ButtonEvent>)
    requires
        idx < 2,
        events.len() > 0,
        forall|i: int| 0 <= i < events.len() ==> #[trigger] events[i].in_range(),
        forall|i: int|
            0 < i <= events.len() ==> (#[trigger] ButtonPhase::LightArm(idx).after(
                events.take(i),
            )).round() is Some,
        events[0] is Buttons,
    ensures
        ButtonPhase::LightArm(idx).after(events).wf(),
        ButtonPhase::LightArm(idx).after(events).round() matches Some(round) && {
            &&& round.idx == idx
            &&& round.armed_for_press <==> let_go(idx, events)
            &&& round.armed_for_off_light_press <==> other_let_go(idx, events)
            &&& ticks_survived(idx, events) < u32::MAX - 1 ==> round.damage == 1 + ticks_survived(
                idx,
                events,
            )
            &&& round.next_damage_ms == 1500 + 750 * ticks_survived(idx, events)
        },
    decreases events.len(),
{
    let start = ButtonPhase::LightArm(idx);
    let before = events.drop_last();
    assert(events =~= events.take(events.len() as int));
    assert(start.after(events.take(events.len() as int)).round() is Some);
    assert(events[events.len() - 1].in_range());
    if before.len() > 0 {
        assert forall|i: int| 0 <= i < before.len() implies #[trigger] before[i].in_range() by {
            assert(events[i].in_range());
        }
        assert forall|i: int| 0 < i <= before.len() implies (#[trigger] start.after(
            before.take(i),
        )).round() is Some by {
            assert(before.take(i) =~= events.take(i));
        }
        law_round_remembers_what_was_seen(idx, before);
        assert(start.after(before.take(before.len() as int)).round() is Some);
        assert(before.take(before.len() as int) =~= before);
        lemma_round_step(start.after(before), events.last());
        assert(!(start.after(before) is LightArm));
    } else {
        assert(before =~= Seq::<ButtonEvent>::empty());
        assert(start.after(before) == start);
        assert(events.last() == events[0]);
        assert(!let_go(idx, before) && !other_let_go(idx, before));
        assert(ticks_survived(idx, before) == 0);
    }
}

} // verus!
