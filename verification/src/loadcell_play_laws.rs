//! What the player of the sweet-spot mini-game sees, told by the raw values of the
//! load cell and by what the task publishes.
use vstd::prelude::*;
use crate::buttons::Level;
use crate::loadcell_laws::presses_within;
use crate::loadcell_task::{
    Hold, LoadcellAction, LoadcellEvent, LoadcellNote, LoadcellPhase, LoadcellTask, Tare,
};
use crate::state::{AppState, Change};
use crate::sweet_spot::Hx711;

verus! {

/// `reading` is how far the raw value lies from the offset, as far as an `i32` can
/// hold that.
pub open spec fn measures(reading: int, raw: int, offset: int) -> bool {
    &&& 0 <= reading <= i32::MAX
    &&& raw - offset <= i32::MAX && offset - raw <= i32::MAX ==> reading == raw - offset || reading
        == offset - raw
    &&& raw - offset > i32::MAX || offset - raw > i32::MAX ==> reading == i32::MAX
}

/// The bounds of a zone that the random number picks: 200000 wide, starting below
/// 600000, and moving with the random number.
pub open spec fn is_picked_by(random: u32, min: i32, max: i32) -> bool {
    &&& 0 <= min < 600_000
    &&& max == min + 200_000
    &&& (random - min) % 600_000 == 0
}

/// The task once a poll finds the game on, a conversion ready and `raw` as its
/// value.
pub open spec fn polled(task: LoadcellTask, game: AppState, raw: i32) -> LoadcellTask {
    task.next(LoadcellEvent::State(game)).next(LoadcellEvent::DataLine(Level::Low)).next(
        LoadcellEvent::Raw(raw),
    )
}

/// What a poll asks for that reads `raw` while the zone from `min` to `max` and
/// `progress` are on show: outside the zone the progress is shown as lost; inside
/// it grows by 50, and once it would reach 1500 a random number is drawn instead,
/// with which the soup is hit and the next zone is shown. The reading on show is
/// the distance from the offset either way.
pub open spec fn answers_reading(
    after: LoadcellTask,
    offset: i32,
    raw: i32,
    min: i32,
    max: i32,
    progress: int,
    random: u32,
) -> bool {
    let held = presses_within(raw as int, offset as int, min as int, max as int);
    let hit = after.next(LoadcellEvent::Random(random));
    &&& after.loadcell.offset == offset
    &&& if held && progress + 50 >= 1500 {
        &&& after.phase.action() is ReadRandom
        &&& hit.loadcell.offset == offset
        &&& hit.phase.action() matches LoadcellAction::Update(Change::DamageSoup {
            min: next_min,
            max: next_max,
            reading,
        }) && {
            &&& is_picked_by(random, next_min, next_max)
            &&& measures(reading as int, raw as int, offset as int)
        }
    } else {
        after.phase.action() matches LoadcellAction::Update(Change::ShowReading {
            min: same_min,
            max: same_max,
            progress: shown,
            reading,
        }) && {
            &&& same_min == min && same_max == max
            &&& shown == if held {
                progress + 50
            } else {
                0
            }
            &&& measures(reading as int, raw as int, offset as int)
        }
    }
}

/// The random number after the tare picks the first zone, and the first poll in it
/// starts from no progress.
pub proof fn law_first_poll_in_a_zone(
    loadcell: Hx711,
    random: u32,
    game: AppState,
    raw: i32,
    later: u32,
)
    requires
        game is Game,
    ensures
        ({
            let show = LoadcellTask { phase: LoadcellPhase::FirstZone, loadcell }.next(
                LoadcellEvent::Random(random),
            );
            let live = show.next(LoadcellEvent::Done);
            let look = live.next(LoadcellEvent::State(game));
            &&& live.phase.action() is ReadState
            &&& look.phase.action() is ReadDataLine
            &&& look.next(LoadcellEvent::DataLine(Level::Low)).phase.action() is ReadRaw
            &&& show.phase.action() matches LoadcellAction::Update(Change::ShowZone { min, max })
                && {
                &&& is_picked_by(random, min, max)
                &&& answers_reading(
                    polled(live, game, raw),
                    loadcell.offset,
                    raw,
                    min,
                    max,
                    0,
                    later,
                )
            }
        }),
{
}

/// The next poll goes on from what is on show: how one published reading relates to
/// the next one, 50 ms later.
pub proof fn law_next_poll_goes_on_from_what_is_on_show(
    task: LoadcellTask,
    min: i32,
    max: i32,
    progress: u32,
    reading: i32,
    game: AppState,
    raw: i32,
    random: u32,
)
    requires
        task.wf(),
        task.phase.action() == LoadcellAction::Update(
            Change::ShowReading { min, max, progress, reading },
        ),
        game is Game,
    ensures
        ({
            let pause = task.next(LoadcellEvent::Done);
            let live = pause.next(LoadcellEvent::Done);
            &&& pause.phase.action() == LoadcellAction::Sleep { ms: 50 }
            &&& live.phase.action() is ReadState
            &&& answers_reading(
                polled(live, game, raw),
                task.loadcell.offset,
                raw,
                min,
                max,
                progress as int,
                random,
            )
        }),
{
}

/// After a hit that did not defeat the soup, or after which the game is over
/// anyway, the next poll is 50 ms later and starts from no progress in the new zone.
pub proof fn law_poll_after_a_hit(
    hold: Hold,
    old_reading: i32,
    loadcell: Hx711,
    random: u32,
    seen: AppState,
    game: AppState,
    raw: i32,
    later: u32,
)
    requires
        hold.wf(),
        seen is Game ==> seen->soup_hp > 0,
        game is Game,
    ensures
        ({
            let picking = LoadcellTask {
                phase: LoadcellPhase::NextZone(hold, old_reading),
                loadcell,
            };
            let hit = picking.next(LoadcellEvent::Random(random));
            let check = hit.next(LoadcellEvent::Done);
            let pause = check.next(LoadcellEvent::State(seen));
            let live = pause.next(LoadcellEvent::Done);
            &&& check.phase.action() is ReadState
            &&& pause.phase.action() == LoadcellAction::Sleep { ms: 50 }
            &&& live.phase.action() is ReadState
            &&& hit.phase.action() matches LoadcellAction::Update(Change::DamageSoup {
                min,
                max,
                reading,
            }) && {
                &&& reading == old_reading
                &&& is_picked_by(random, min, max)
                &&& answers_reading(
                    polled(live, game, raw),
                    loadcell.offset,
                    raw,
                    min,
                    max,
                    0,
                    later,
                )
            }
        }),
{
}

/// A hit that leaves the soup no hit points wins the game, and the task waits for
/// the next one.
pub proof fn law_defeated_soup_wins(hold: Hold, reading: i32, loadcell: Hx711, seen: AppState)
    requires
        seen is Game,
        seen->soup_hp == 0,
    ensures
        ({
            let hit = LoadcellTask { phase: LoadcellPhase::HitSoup(hold, reading), loadcell };
            let won = hit.next(LoadcellEvent::Done).next(LoadcellEvent::State(seen));
            &&& won.phase.action() == LoadcellAction::Publish(
                AppState::EndScreen { player_won: true },
            )
            &&& won.next(LoadcellEvent::Done).phase == LoadcellPhase::Waiting(0)
        }),
{
}

/// A poll that finds no conversion ready sleeps 50 ms and changes nothing of the
/// hold, and the log tells of it once a second.
pub proof fn law_poll_without_a_conversion(task: LoadcellTask, hold: Hold, game: AppState)
    requires
        task.phase == LoadcellPhase::Live(hold),
        hold.wf(),
        game is Game,
    ensures
        ({
            let look = task.next(LoadcellEvent::State(game));
            let pause = look.next(LoadcellEvent::DataLine(Level::High));
            let due = hold.not_ready_ms + 50 >= 1000;
            &&& look.phase.action() is ReadDataLine
            &&& pause.phase.action() == LoadcellAction::Sleep { ms: 50 }
            &&& pause.next(LoadcellEvent::Done).loadcell == task.loadcell
            &&& pause.next(LoadcellEvent::Done).phase matches LoadcellPhase::Live(now) && {
                &&& now.min == hold.min && now.max == hold.max && now.progress == hold.progress
                &&& now.not_ready_ms == if due {
                    0
                } else {
                    hold.not_ready_ms + 50
                }
            }
            &&& look.note(LoadcellEvent::DataLine(Level::High)) == if due {
                Some(LoadcellNote::NotReady)
            } else {
                None
            }
            &&& look.note(LoadcellEvent::DataLine(Level::Low)) is None
        }),
{
}

/// Every reading is logged with its difference from the offset and its force, and
/// starts the time without a conversion from zero.
pub proof fn law_reading_is_logged(task: LoadcellTask, hold: Hold, raw: i32)
    requires
        task.phase == LoadcellPhase::Read(hold),
        task.wf(),
    ensures
        task.note(LoadcellEvent::Raw(raw)) matches Some(
            LoadcellNote::Reading { raw: same, delta, force },
        ) && {
            &&& same == raw
            &&& if raw == 8_388_607 || raw == -8_388_608 {
                delta == 0 && force == raw
            } else {
                &&& i32::MIN <= raw - task.loadcell.offset <= i32::MAX ==> delta == raw
                    - task.loadcell.offset
                &&& measures(force as int, raw as int, task.loadcell.offset as int)
            }
        },
        match task.next(LoadcellEvent::Raw(raw)).phase {
            LoadcellPhase::Show(now, _) => now.not_ready_ms == 0,
            LoadcellPhase::NextZone(now, _) => now.not_ready_ms == 0,
            _ => false,
        },
{
}

/// A game that is over sends the task back to waiting.
pub proof fn law_game_over_ends_the_polls(task: LoadcellTask, hold: Hold, seen: AppState)
    requires
        task.phase == LoadcellPhase::Live(hold),
        !(seen is Game),
    ensures
        task.phase.action() is ReadState,
        task.next(LoadcellEvent::State(seen)).phase == LoadcellPhase::Waiting(0),
        task.next(LoadcellEvent::State(seen)).loadcell == task.loadcell,
{
}

/// At power-up the task waits for a game, without an offset, and has not waited yet.
pub proof fn law_power_up()
    ensures
        LoadcellTask::start().phase == LoadcellPhase::Waiting(0),
        LoadcellTask::start().loadcell.offset == 0,
        LoadcellTask::start().phase.action() is ReadState,
{
}

/// Without a game the task looks every 50 ms, and logs once a second that it waits.
pub proof fn law_waiting_for_a_game(task: LoadcellTask, ms: u64, seen: AppState)
    requires
        task.phase == LoadcellPhase::Waiting(ms),
        ms < 1000,
        !(seen is Game),
    ensures
        ({
            let pause = task.next(LoadcellEvent::State(seen));
            let due = ms + 50 >= 1000;
            &&& task.phase.action() is ReadState
            &&& pause.phase.action() == LoadcellAction::Sleep { ms: 50 }
            &&& pause.next(LoadcellEvent::Done).phase matches LoadcellPhase::Waiting(now) && now
                == if due {
                0
            } else {
                ms + 50
            }
            &&& task.note(LoadcellEvent::State(seen)) == if due {
                Some(LoadcellNote::WaitingForGame)
            } else {
                None
            }
        }),
{
}

/// A game starts with a tare without samples and without an offset.
pub proof fn law_tare_starts_from_scratch(task: LoadcellTask, ms: u64, game: AppState)
    requires
        task.phase == LoadcellPhase::Waiting(ms),
        game is Game,
    ensures
        ({
            let tare = task.next(LoadcellEvent::State(game));
            &&& tare.phase == LoadcellPhase::TareReady(
                Tare { sum: 0, samples: 0, elapsed_ms: 0, next_diagnostic_log_ms: 0 },
            )
            &&& tare.loadcell.offset == 0
            &&& tare.phase.action() is ReadDataLine
            &&& task.note(LoadcellEvent::State(game)) == Some(LoadcellNote::EnteredGame)
        }),
{
}

/// The first sample that is not an end of the range becomes the offset at once, and
/// the task picks the first zone and shows it.
pub proof fn law_first_good_sample_ends_the_tare(
    task: LoadcellTask,
    tare: Tare,
    raw: i32,
    random: u32,
)
    requires
        task.phase == LoadcellPhase::TareReady(tare),
        task.wf(),
        raw != 8_388_607,
        raw != -8_388_608,
    ensures
        ({
            let read = task.next(LoadcellEvent::DataLine(Level::Low));
            let pick = read.next(LoadcellEvent::Raw(raw));
            let show = pick.next(LoadcellEvent::Random(random));
            &&& read.phase.action() is ReadRaw
            &&& pick.loadcell.offset == raw
            &&& pick.phase.action() is ReadRandom
            &&& show.loadcell.offset == raw
            &&& show.phase.action() matches LoadcellAction::Update(Change::ShowZone { min, max })
                && is_picked_by(random, min, max)
            &&& show.phase matches LoadcellPhase::ShowZone(hold) && hold.progress == 0
                && hold.not_ready_ms == 0
            &&& read.note(LoadcellEvent::Raw(raw)) == Some(
                LoadcellNote::TareSample { samples: 1, reading: raw, result: Some(raw) },
            )
        }),
{
    assert(tare.samples == 0 && tare.sum == 0);
    assert(tare.sampled(raw).sum == raw && tare.sampled(raw).samples == 1);
    assert(tare.sampled(raw).offset() == raw);
}

/// A tare poll without a conversion, or with an end of the range, sleeps 50 ms. The
/// tare then goes on until 3000 ms are over, and ends without an offset. The log
/// tells of the bad polls at most once a second.
pub proof fn law_bad_tare_poll(task: LoadcellTask, tare: Tare, sample: Option<i32>)
    requires
        task.phase == LoadcellPhase::TareReady(tare),
        task.wf(),
        sample matches Some(raw) ==> raw == 8_388_607 || raw == -8_388_608,
    ensures
        ({
            let due = tare.elapsed_ms >= tare.next_diagnostic_log_ms;
            let read = task.next(LoadcellEvent::DataLine(Level::Low));
            let pause = match sample {
                Some(raw) => read.next(LoadcellEvent::Raw(raw)),
                None => task.next(LoadcellEvent::DataLine(Level::High)),
            };
            let note = match sample {
                Some(raw) => read.note(LoadcellEvent::Raw(raw)),
                None => task.note(LoadcellEvent::DataLine(Level::High)),
            };
            let after = pause.next(LoadcellEvent::Done);
            &&& pause.phase.action() == LoadcellAction::Sleep { ms: 50 }
            &&& note == if !due {
                None
            } else if sample is Some {
                Some(LoadcellNote::TareSaturated { reading: sample->0 })
            } else {
                Some(LoadcellNote::TareNotReady)
            }
            &&& if tare.elapsed_ms + 50 < 3000 {
                &&& after.phase matches LoadcellPhase::TareReady(now) && {
                    &&& now.samples == 0 && now.sum == 0
                    &&& now.elapsed_ms == tare.elapsed_ms + 50
                    &&& now.next_diagnostic_log_ms == if due {
                        tare.elapsed_ms + 1000
                    } else {
                        tare.next_diagnostic_log_ms as int
                    }
                }
                &&& after.loadcell == task.loadcell
                &&& pause.note(LoadcellEvent::Done) is None
            } else {
                &&& after.phase.action() is ReadRandom
                &&& after.phase == LoadcellPhase::FirstZone
                &&& after.loadcell.offset == 0
                &&& pause.note(LoadcellEvent::Done) == Some(
                    LoadcellNote::TareTimedOut { elapsed_ms: (tare.elapsed_ms + 50) as u64 },
                )
            }
        }),
{
}

/// The steps that have no line for the log: random numbers, and the end of every
/// action but a tare pause.
pub proof fn law_quiet_steps(task: LoadcellTask, event: LoadcellEvent)
    requires
        event is Random || event is Done && !(task.phase is TarePause) || event is State
            && !(task.phase is Waiting),
    ensures
        task.note(event) is None,
{
}

} // verus!
