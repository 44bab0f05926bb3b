//! What holds of the sweet-spot mini-game as a whole.
use vstd::prelude::*;
use crate::buttons::Level;
use crate::loadcell_task::{
    Hold, LoadcellAction, LoadcellEvent, LoadcellPhase, LoadcellTask, Tare, LOADCELL_POLL_MS,
    LOADCELL_POLL_PROGRESS, LOADCELL_TARE_TIMEOUT_MS,
};
use crate::state::{is_zone, AppState, Change, SWEET_SPOT_HOLD_MS};
use crate::sweet_spot::{is_saturated, Hx711};

verus! {

/// An event that answers another action than the one asked for changes nothing.
pub proof fn law_stray_event_changes_nothing(task: LoadcellTask, event: LoadcellEvent)
    requires
        !event.answers(task.phase.action()),
    ensures
        task.next(event) == task,
        task.note(event) is None,
{
}

/// From power-up on, whatever happens, the task stays well-formed.
pub proof fn law_task_stays_well_formed(events: Seq<LoadcellEvent>)
    ensures
        LoadcellTask::start().after(events).wf(),
    decreases events.len(),
{
    if events.len() > 0 {
        law_task_stays_well_formed(events.drop_last());
    }
}

/// Every change that the task makes, and every state that it publishes, is valid:
/// in particular the progress on show stays below a complete hold.
pub proof fn law_task_keeps_state_valid(events: Seq<LoadcellEvent>)
    ensures
        LoadcellTask::start().after(events).phase.action() matches LoadcellAction::Update(change)
            ==> change.valid(),
        LoadcellTask::start().after(events).phase.action() matches LoadcellAction::Publish(state)
            ==> state.valid(),
{
    law_task_stays_well_formed(events);
}

/// The task at the start of the next poll, if this poll finds the game on, a
/// conversion ready and `raw` as its value.
pub open spec fn after_poll(task: LoadcellTask, game: AppState, raw: i32) -> LoadcellTask {
    task.next(LoadcellEvent::State(game)).next(LoadcellEvent::DataLine(Level::Low)).next(
        LoadcellEvent::Raw(raw),
    ).next(LoadcellEvent::Done).next(LoadcellEvent::Done)
}

/// The task after all of `polls`, first to last.
pub open spec fn after_polls(task: LoadcellTask, polls: Seq<(AppState, i32)>) -> LoadcellTask
    decreases polls.len(),
{
    if polls.len() == 0 {
        task
    } else {
        let last = polls.last();
        after_poll(after_polls(task, polls.drop_last()), last.0, last.1)
    }
}

/// Number of polls in a row that complete a hold.
pub open spec fn polls_in_a_hold() -> int {
    SWEET_SPOT_HOLD_MS as int / LOADCELL_POLL_PROGRESS as int
}

/// The game is on and the raw value counts as held inside the zone of `hold`.
pub open spec fn holds_on(task: LoadcellTask, hold: Hold, poll: (AppState, i32)) -> bool {
    poll.0 is Game && hold.counts(task.loadcell, poll.1 as int)
}

/// While the force stays in the zone, each poll adds one step to the progress,
/// and the hold is not complete before 1500 ms.
pub proof fn law_progress_counts_polls_in_the_zone(
    task: LoadcellTask,
    hold: Hold,
    polls: Seq<(AppState, i32)>,
)
    requires
        task.phase == LoadcellPhase::Live(hold),
        hold.wf(),
        hold.progress == 0,
        polls.len() < polls_in_a_hold(),
        forall|i: int| 0 <= i < polls.len() ==> holds_on(task, hold, #[trigger] polls[i]),
    ensures
        after_polls(task, polls).loadcell == task.loadcell,
        after_polls(task, polls).phase matches LoadcellPhase::Live(now) && {
            &&& now.wf()
            &&& now.min == hold.min
            &&& now.max == hold.max
            &&& now.progress == LOADCELL_POLL_PROGRESS * polls.len()
        },
    decreases polls.len(),
{
    if polls.len() > 0 {
        let before = polls.drop_last();
        assert forall|i: int| 0 <= i < before.len() implies holds_on(
            task,
            hold,
            #[trigger] before[i],
        ) by {
            assert(before[i] == polls[i]);
        }
        law_progress_counts_polls_in_the_zone(task, hold, before);
        assert(holds_on(task, hold, polls[polls.len() - 1]));
    }
}

/// Thirty polls in a row inside the zone complete the hold: the next random
/// number picks a new zone, and the soup takes damage with it.
pub proof fn law_full_hold_hits_the_soup(
    task: LoadcellTask,
    hold: Hold,
    polls: Seq<(AppState, i32)>,
    random: u32,
)
    requires
        task.phase == LoadcellPhase::Live(hold),
        hold.wf(),
        hold.progress == 0,
        polls.len() == polls_in_a_hold(),
        forall|i: int| 0 <= i < polls.len() ==> holds_on(task, hold, #[trigger] polls[i]),
    ensures
        ({
            let read = after_polls(task, polls.drop_last()).next(
                LoadcellEvent::State(polls.last().0),
            ).next(LoadcellEvent::DataLine(Level::Low)).next(LoadcellEvent::Raw(polls.last().1));
            let reading = task.loadcell.reading(polls.last().1 as int) as i32;
            let new = Hold::picked(random, 0);
            &&& read.phase.action() is ReadRandom
            &&& read.next(LoadcellEvent::Random(random)).phase.action() == LoadcellAction::Update(
                Change::DamageSoup { min: new.min, max: new.max, reading },
            )
            &&& is_zone(new.min as int, new.max as int)
        }),
{
    let before = polls.drop_last();
    assert forall|i: int| 0 <= i < before.len() implies holds_on(task, hold, #[trigger] before[i]) by {
        assert(before[i] == polls[i]);
    }
    law_progress_counts_polls_in_the_zone(task, hold, before);
    assert(holds_on(task, hold, polls[polls.len() - 1]));
}

/// The raw value is not one of the two ends of the 24-bit range, and lies from `min`
/// to `max` away from the offset, both ends included, on either side.
pub open spec fn presses_within(raw: int, offset: int, min: int, max: int) -> bool {
    &&& raw != 8_388_607
    &&& raw != -8_388_608
    &&& min <= raw - offset <= max || min <= offset - raw <= max
}

/// How many raw values in a row have counted as held, from power-up through
/// `events`: those since the zone was picked and since the last one that did not
/// count.
pub open spec fn held_polls(events: Seq<LoadcellEvent>) -> nat
    decreases events.len(),
{
    if events.len() == 0 {
        0
    } else {
        let task = LoadcellTask::start().after(events.drop_last());
        let before = held_polls(events.drop_last());
        match (task.phase, events.last()) {
            (LoadcellPhase::Read(hold), LoadcellEvent::Raw(raw)) => if presses_within(
                raw as int,
                task.loadcell.offset as int,
                hold.min as int,
                hold.max as int,
            ) {
                before + 1
            } else {
                0
            },
            (LoadcellPhase::FirstZone, LoadcellEvent::Random(_)) => 0,
            (LoadcellPhase::NextZone(..), LoadcellEvent::Random(_)) => 0,
            _ => before,
        }
    }
}

/// In every run, the progress is what the raw values held in a row add up to, and
/// a hold is complete only once they fill the hold time.
pub proof fn law_only_a_full_hold_completes(events: Seq<LoadcellEvent>)
    ensures
        match LoadcellTask::start().after(events).phase {
            LoadcellPhase::NextZone(..) => held_polls(events) == polls_in_a_hold(),
            LoadcellPhase::ShowZone(hold) | LoadcellPhase::Live(hold) | LoadcellPhase::Ready(hold)
            | LoadcellPhase::Read(hold) | LoadcellPhase::Show(hold, _) | LoadcellPhase::HitSoup(
                hold,
                _,
            ) | LoadcellPhase::HitCheck(hold) | LoadcellPhase::LivePause(hold) => hold.progress
                == LOADCELL_POLL_PROGRESS * held_polls(events),
            _ => true,
        },
    decreases events.len(),
{
    if events.len() > 0 {
        law_only_a_full_hold_completes(events.drop_last());
        law_task_stays_well_formed(events.drop_last());
    }
}

/// The soup is hit only by the write that ends a completed hold: the task comes to
/// it only from a completed hold by way of the next zone's random number.
pub proof fn law_hit_needs_a_completed_hold(task: LoadcellTask, event: LoadcellEvent)
    ensures
        task.phase.action() matches LoadcellAction::Update(Change::DamageSoup { .. })
            ==> task.phase is HitSoup,
        task.next(event).phase is HitSoup && !(task.phase is HitSoup) ==> task.phase is NextZone
            && event is Random,
        task.next(event).phase is NextZone && !(task.phase is NextZone) ==> (
        task.phase matches LoadcellPhase::Read(hold) && (event matches LoadcellEvent::Raw(raw)
            && hold.completed_by(task.loadcell, raw as int))),
{
}

/// A reading that does not count as held inside the zone resets the progress,
/// and leaves the zone where it is. What is published is the reading after the
/// tare.
pub proof fn law_leaving_the_zone_resets(task: LoadcellTask, hold: Hold, raw: i32)
    requires
        task.phase == LoadcellPhase::Read(hold),
        !hold.counts(task.loadcell, raw as int),
    ensures
        task.next(LoadcellEvent::Raw(raw)).phase.action() == LoadcellAction::Update(
            Change::ShowReading {
                min: hold.min,
                max: hold.max,
                progress: 0,
                reading: task.loadcell.reading(raw as int) as i32,
            },
        ),
{
}

/// A saturated raw value never counts as held inside the zone, whatever the tare
/// was: the progress is reset, the zone stays, and the soup is not hit.
pub proof fn law_saturated_reading_is_outside_every_zone(
    task: LoadcellTask,
    hold: Hold,
    raw: i32,
)
    requires
        task.phase == LoadcellPhase::Read(hold),
        is_saturated(raw as int),
    ensures
        !hold.counts(task.loadcell, raw as int),
        task.next(LoadcellEvent::Raw(raw)).phase.action() == LoadcellAction::Update(
            Change::ShowReading {
                min: hold.min,
                max: hold.max,
                progress: 0,
                reading: task.loadcell.reading(raw as int) as i32,
            },
        ),
{
    law_leaving_the_zone_resets(task, hold, raw);
}

/// Every reading that the task publishes is the raw value after the tare,
/// saturated or not.
pub proof fn law_published_reading_is_post_tare(
    task: LoadcellTask,
    hold: Hold,
    raw: i32,
    random: u32,
)
    requires
        task.phase == LoadcellPhase::Read(hold),
    ensures
        ({
            let read = task.next(LoadcellEvent::Raw(raw));
            let then = if read.phase.action() is ReadRandom {
                read.next(LoadcellEvent::Random(random))
            } else {
                read
            };
            match then.phase.action() {
                LoadcellAction::Update(Change::ShowReading { reading, .. }) => reading
                    == task.loadcell.reading(raw as int),
                LoadcellAction::Update(Change::DamageSoup { reading, .. }) => reading
                    == task.loadcell.reading(raw as int),
                _ => false,
            }
        }),
{
}

/// The task publishes nothing but the won game, and exactly after damage to the
/// soup that was followed by a snapshot of a game in which the soup has no hit
/// points left.
pub proof fn law_win_needs_a_defeated_soup(task: LoadcellTask, event: LoadcellEvent)
    ensures
        task.phase.action() matches LoadcellAction::Publish(state) ==> task.phase
            == LoadcellPhase::Won && state == (AppState::EndScreen { player_won: true }),
        task.next(event).phase == LoadcellPhase::Won && task.phase != LoadcellPhase::Won
            ==> task.phase is HitCheck && (event matches LoadcellEvent::State(state)
            && state.soup_hp() == Some(0u32)),
        task.phase is HitCheck ==> (event matches LoadcellEvent::State(state) && state.soup_hp()
            == Some(0u32) ==> task.next(event).phase == LoadcellPhase::Won),
{
}

/// The first valid sample ends the tare and becomes the offset, so that the same
/// raw value reads zero afterwards.
pub proof fn law_first_valid_sample_is_the_offset(task: LoadcellTask, tare: Tare, raw: i32)
    requires
        task.phase == LoadcellPhase::TareRead(tare),
        task.wf(),
        !is_saturated(raw as int),
    ensures
        task.next(LoadcellEvent::Raw(raw)).phase == LoadcellPhase::FirstZone,
        task.next(LoadcellEvent::Raw(raw)).loadcell.offset == raw,
        task.next(LoadcellEvent::Raw(raw)).loadcell.reading(raw as int) == 0,
{
    assert(tare.samples == 0 && tare.sum == 0);
    let sampled = tare.sampled(raw);
    assert(sampled.sum == raw && sampled.samples == 1);
    assert(sampled.offset() == raw);
}

/// A tare poll that gives no valid sample: nothing is ready, or the conversion
/// is saturated.
pub open spec fn is_bad_sample(poll: Option<i32>) -> bool {
    poll matches Some(raw) ==> is_saturated(raw as int)
}

/// The task after one tare poll that gives no valid sample.
pub open spec fn after_tare_poll(task: LoadcellTask, poll: Option<i32>) -> LoadcellTask {
    match poll {
        Some(raw) => task.next(LoadcellEvent::DataLine(Level::Low)).next(LoadcellEvent::Raw(raw)),
        None => task.next(LoadcellEvent::DataLine(Level::High)),
    }.next(LoadcellEvent::Done)
}

/// The task after all of `polls`, first to last.
pub open spec fn after_tare_polls(task: LoadcellTask, polls: Seq<Option<i32>>) -> LoadcellTask
    decreases polls.len(),
{
    if polls.len() == 0 {
        task
    } else {
        after_tare_poll(after_tare_polls(task, polls.drop_last()), polls.last())
    }
}

/// Where the tare is after `count` polls without a valid sample.
proof fn lemma_bad_tare_polls(task: LoadcellTask, polls: Seq<Option<i32>>)
    requires
        task.phase == LoadcellPhase::TareReady(Tare::start()),
        task.loadcell.offset == 0,
        polls.len() * LOADCELL_POLL_MS <= LOADCELL_TARE_TIMEOUT_MS,
        forall|i: int| 0 <= i < polls.len() ==> is_bad_sample(#[trigger] polls[i]),
    ensures
        ({
            let now = after_tare_polls(task, polls);
            &&& now.loadcell.offset == 0
            &&& if polls.len() * LOADCELL_POLL_MS < LOADCELL_TARE_TIMEOUT_MS {
                now.phase matches LoadcellPhase::TareReady(tare) && {
                    &&& tare.elapsed_ms == polls.len() * LOADCELL_POLL_MS
                    &&& tare.samples == 0
                    &&& tare.sum == 0
                }
            } else {
                now.phase == LoadcellPhase::FirstZone
            }
        }),
    decreases polls.len(),
{
    if polls.len() > 0 {
        let before = polls.drop_last();
        assert forall|i: int| 0 <= i < before.len() implies is_bad_sample(#[trigger] before[i]) by {
            assert(before[i] == polls[i]);
        }
        lemma_bad_tare_polls(task, before);
        assert(is_bad_sample(polls[polls.len() - 1]));
    }
}

/// A load cell that never gives a valid sample does not hang the game: after
/// 3000 ms of polls, and no sooner, the tare ends without an offset.
pub proof fn law_tare_times_out(task: LoadcellTask, polls: Seq<Option<i32>>)
    requires
        task.phase == LoadcellPhase::TareReady(Tare::start()),
        task.loadcell.offset == 0,
        polls.len() * LOADCELL_POLL_MS <= LOADCELL_TARE_TIMEOUT_MS,
        forall|i: int| 0 <= i < polls.len() ==> is_bad_sample(#[trigger] polls[i]),
    ensures
        after_tare_polls(task, polls).phase == LoadcellPhase::FirstZone <==> polls.len()
            * LOADCELL_POLL_MS == LOADCELL_TARE_TIMEOUT_MS,
        after_tare_polls(task, polls).loadcell.offset == 0,
{
    lemma_bad_tare_polls(task, polls);
}

/// Every game starts with a tare from scratch.
pub proof fn law_game_starts_with_a_tare(task: LoadcellTask, ms: u64, game: AppState)
    requires
        task.phase == LoadcellPhase::Waiting(ms),
        game is Game,
    ensures
        task.next(LoadcellEvent::State(game)).phase == LoadcellPhase::TareReady(Tare::start()),
        task.next(LoadcellEvent::State(game)).loadcell == (Hx711 { offset: 0 }),
{
}

} // verus!
