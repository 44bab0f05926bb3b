//! The task that runs the sweet-spot mini-game.
use vstd::prelude::*;
use crate::buttons::Level;
use crate::state::{
    is_zone, AppState, Change, SWEET_SPOT_HOLD_MS, SWEET_SPOT_TOLERANCE,
};
use crate::sweet_spot::{
    center_for, is_saturated, is_saturated_hx711_reading, random_sweet_spot_center, Hx711,
};

verus! {

/// Pause between two looks at the load cell.
pub const LOADCELL_POLL_MS: u64 = 50;

/// What one poll inside the zone adds to the hold time.
pub const LOADCELL_POLL_PROGRESS: u32 = 50;

/// Number of initial valid samples to use for the tare offset.
pub const LOADCELL_TARE_SAMPLES: usize = 1;

/// Maximum time to spend collecting tare samples. If the load cell or its wiring
/// is bad, the game goes on instead of hanging forever.
pub const LOADCELL_TARE_TIMEOUT_MS: u64 = 3_000;

/// Time between two log lines while nothing is ready.
pub const LOADCELL_NOT_READY_LOG_MS: u64 = 1000;

/// The quotient of two numbers, rounded towards zero.
pub open spec fn quotient(a: int, b: int) -> int {
    if a >= 0 {
        a / b
    } else {
        -((-a) / b)
    }
}

/// Tare samples as they come in.
#[derive(Clone, Copy, Debug, PartialEq, Eq, Structural)]
pub struct Tare {
    pub sum: i64,
    pub samples: usize,
    pub elapsed_ms: u64,
    pub next_diagnostic_log_ms: u64,
}

impl Tare {
    /// No samples yet.
    pub open spec fn start() -> Tare {
        Tare { sum: 0, samples: 0, elapsed_ms: 0, next_diagnostic_log_ms: 0 }
    }

    /// What holds of every value that the task can reach.
    pub open spec fn wf(self) -> bool {
        &&& self.samples <= LOADCELL_TARE_SAMPLES
        &&& self.samples * i32::MIN <= self.sum <= self.samples * i32::MAX
        &&& self.elapsed_ms <= LOADCELL_TARE_TIMEOUT_MS + LOADCELL_POLL_MS
    }

    /// More samples are wanted and there is time left for them.
    pub open spec fn goes_on(self) -> bool {
        self.samples < LOADCELL_TARE_SAMPLES && self.elapsed_ms < LOADCELL_TARE_TIMEOUT_MS
    }

    /// After one more sample.
    pub open spec fn sampled(self, reading: i32) -> Tare {
        Tare { sum: (self.sum + reading) as i64, samples: (self.samples + 1) as usize, ..self }
    }

    /// A line for the log is due when no sample came.
    pub open spec fn is_log_due(self) -> bool {
        self.elapsed_ms >= self.next_diagnostic_log_ms
    }

    /// After a poll without a sample.
    pub open spec fn missed(self) -> Tare {
        if self.is_log_due() {
            Tare {
                next_diagnostic_log_ms: (self.elapsed_ms + LOADCELL_NOT_READY_LOG_MS) as u64,
                ..self
            }
        } else {
            self
        }
    }

    /// After the pause between two polls.
    pub open spec fn waited(self) -> Tare {
        Tare { elapsed_ms: (self.elapsed_ms + LOADCELL_POLL_MS) as u64, ..self }
    }

    /// The offset that the samples give: their mean, or none without samples.
    pub open spec fn offset(self) -> int {
        if self.samples == 0 {
            0
        } else {
            quotient(self.sum as int, self.samples as int)
        }
    }

    /// The offset once the tare is over, and none before.
    pub open spec fn result(self) -> Option<i32> {
        if self.goes_on() {
            None
        } else {
            Some(self.offset() as i32)
        }
    }

    /// After a poll without a sample, with a line for the log when one is due.
    fn miss(self, note: LoadcellNote) -> (after: (Tare, Option<LoadcellNote>))
        requires
            self.wf(),
        ensures
            after.0 == self.missed(),
            after.0.wf(),
            after.1 == if self.is_log_due() {
                Some(note)
            } else {
                None
            },
    {
        if self.elapsed_ms >= self.next_diagnostic_log_ms {
            (
                Tare {
                    next_diagnostic_log_ms: self.elapsed_ms + LOADCELL_NOT_READY_LOG_MS,
                    ..self
                },
                Some(note),
            )
        } else {
            (self, None)
        }
    }

    /// The mean of the samples, or zero without samples.
    fn mean(&self) -> (offset: i32)
        requires
            self.wf(),
        ensures
            offset == self.offset(),
    {
        if self.samples == 0 {
            return 0;
        }
        assert(self.samples == 1);
        let count: i64 = self.samples as i64;
        let mean: i64 = if self.sum >= 0 {
            self.sum / count
        } else {
            -((-self.sum) / count)
        };
        mean as i32
    }
}

/// A sweet spot, and how long the force has been held inside it.
#[derive(Clone, Copy, Debug, PartialEq, Eq, Structural)]
pub struct Hold {
    pub min: i32,
    pub max: i32,
    /// Time in the zone, in ms.
    pub progress: u32,
    /// Time without a conversion, in ms.
    pub not_ready_ms: u64,
}

impl Hold {
    /// A hold that has not begun, on the zone that a random number picks.
    pub open spec fn picked(random: u32, not_ready_ms: u64) -> Hold {
        Hold {
            min: (center_for(random) - SWEET_SPOT_TOLERANCE) as i32,
            max: (center_for(random) + SWEET_SPOT_TOLERANCE) as i32,
            progress: 0,
            not_ready_ms,
        }
    }

    /// What holds of every value that the task can reach.
    pub open spec fn wf(self) -> bool {
        &&& is_zone(self.min as int, self.max as int)
        &&& self.progress < SWEET_SPOT_HOLD_MS
        &&& self.progress % LOADCELL_POLL_PROGRESS == 0
        &&& self.not_ready_ms < LOADCELL_NOT_READY_LOG_MS
    }

    /// The reading lies in the zone.
    pub open spec fn in_zone(self, reading: int) -> bool {
        self.min <= reading <= self.max
    }

    /// A raw value of the load cell counts as held inside the zone. A saturated
    /// one never does, wherever the tare puts it.
    pub open spec fn counts(self, loadcell: Hx711, raw: int) -> bool {
        !is_saturated(raw) && self.in_zone(loadcell.reading(raw))
    }

    /// The hold time that a raw value leaves: one poll more if it counts, and
    /// none if it does not.
    pub open spec fn progress_after(self, loadcell: Hx711, raw: int) -> int {
        if self.counts(loadcell, raw) {
            self.progress + LOADCELL_POLL_PROGRESS
        } else {
            0
        }
    }

    /// The raw value completes the hold.
    pub open spec fn completed_by(self, loadcell: Hx711, raw: int) -> bool {
        self.progress_after(loadcell, raw) >= SWEET_SPOT_HOLD_MS
    }

    /// The hold after a raw value that does not complete it.
    pub open spec fn read(self, loadcell: Hx711, raw: int) -> Hold {
        Hold { progress: self.progress_after(loadcell, raw) as u32, not_ready_ms: 0, ..self }
    }

    /// The hold after a poll without a conversion.
    pub open spec fn not_ready(self) -> Hold {
        Hold {
            not_ready_ms: if self.is_log_due() {
                0
            } else {
                (self.not_ready_ms + LOADCELL_POLL_MS) as u64
            },
            ..self
        }
    }

    /// A line for the log is due at a poll without a conversion.
    pub open spec fn is_log_due(self) -> bool {
        self.not_ready_ms + LOADCELL_POLL_MS >= LOADCELL_NOT_READY_LOG_MS
    }

    /// A hold that has not begun, on the zone that a random number picks.
    fn pick(random: u32, not_ready_ms: u64) -> (hold: Hold)
        requires
            not_ready_ms < LOADCELL_NOT_READY_LOG_MS,
        ensures
            hold == Hold::picked(random, not_ready_ms),
            hold.wf(),
    {
        let center = random_sweet_spot_center(random);
        Hold {
            min: center - SWEET_SPOT_TOLERANCE,
            max: center + SWEET_SPOT_TOLERANCE,
            progress: 0,
            not_ready_ms,
        }
    }
}

/// What the task waits for. The comment says what the task wants done.
#[derive(Clone, Copy, Debug, PartialEq, Eq, Structural)]
pub enum LoadcellPhase {
    /// No game: snapshot. The number is the time since the last log line.
    Waiting(u64),
    /// No game: sleep.
    WaitPause(u64),
    /// Is a tare sample ready? Look at the data line.
    TareReady(Tare),
    /// Clock out a conversion.
    TareRead(Tare),
    /// Sleep before the next tare sample.
    TarePause(Tare),
    /// Pick the first sweet spot: random number.
    FirstZone,
    /// Show the first sweet spot: change the shared state.
    ShowZone(Hold),
    /// A poll begins: snapshot.
    Live(Hold),
    /// Is a conversion ready? Look at the data line.
    Ready(Hold),
    /// Clock out a conversion.
    Read(Hold),
    /// Show the reading: change the shared state.
    Show(Hold, i32),
    /// The hold is complete: random number for the next sweet spot.
    NextZone(Hold, i32),
    /// The soup is hit: change the shared state.
    HitSoup(Hold, i32),
    /// Is the soup defeated? Snapshot.
    HitCheck(Hold),
    /// The player won: publish the end screen.
    Won,
    /// A poll ends: sleep.
    LivePause(Hold),
}

/// What the task wants done next.
#[derive(Clone, Copy, Debug, PartialEq, Eq, Structural)]
pub enum LoadcellAction {
    /// Sleep.
    Sleep { ms: u64 },
    /// Take a snapshot of the shared state.
    ReadState,
    /// Look at the data line of the load cell.
    ReadDataLine,
    /// Clock a conversion out of the load cell.
    ReadRaw,
    /// Draw a random number.
    ReadRandom,
    /// Change the shared state atomically.
    Update(Change),
    /// Replace the shared state.
    Publish(AppState),
}

/// What came of an action.
#[derive(Clone, Copy, Debug, PartialEq, Eq, Structural)]
pub enum LoadcellEvent {
    /// The action is done, where it gives no value.
    Done,
    /// The snapshot.
    State(AppState),
    /// Level of the data line.
    DataLine(Level),
    /// The conversion.
    Raw(i32),
    /// The random number.
    Random(u32),
}

/// A line for the log.
#[derive(Clone, Copy, Debug, PartialEq, Eq, Structural)]
pub enum LoadcellNote {
    /// Still no game.
    WaitingForGame,
    /// A game began, and with it the tare.
    EnteredGame,
    /// A tare sample was saturated.
    TareSaturated { reading: i32 },
    /// No tare sample is ready.
    TareNotReady,
    /// A tare sample was taken, and with the last one the tare is complete. The
    /// number of samples so far, the sample, and the offset once complete.
    TareSample { samples: usize, reading: i32, result: Option<i32> },
    /// The tare used only the samples that came in time.
    TarePartial { samples: usize, offset: i32 },
    /// No valid tare sample came in time.
    TareTimedOut { elapsed_ms: u64 },
    /// No conversion is ready.
    NotReady,
    /// A reading.
    Reading { raw: i32, delta: i32, force: i32 },
}

impl LoadcellEvent {
    /// The event is what comes of `action`.
    pub open spec fn answers(self, action: LoadcellAction) -> bool {
        match action {
            LoadcellAction::ReadState => self is State,
            LoadcellAction::ReadDataLine => self is DataLine,
            LoadcellAction::ReadRaw => self is Raw,
            LoadcellAction::ReadRandom => self is Random,
            _ => self is Done,
        }
    }
}

impl LoadcellPhase {
    /// What holds of every value that the task can reach.
    pub open spec fn wf(self) -> bool {
        match self {
            LoadcellPhase::Waiting(ms) | LoadcellPhase::WaitPause(ms) => ms
                < LOADCELL_NOT_READY_LOG_MS,
            LoadcellPhase::TareReady(tare) | LoadcellPhase::TareRead(tare)
            | LoadcellPhase::TarePause(tare) => tare.wf() && tare.goes_on(),
            LoadcellPhase::ShowZone(hold) | LoadcellPhase::Live(hold) | LoadcellPhase::Ready(hold)
            | LoadcellPhase::Read(hold) | LoadcellPhase::Show(hold, _) | LoadcellPhase::NextZone(
                hold,
                _,
            ) | LoadcellPhase::HitSoup(hold, _) | LoadcellPhase::HitCheck(hold)
            | LoadcellPhase::LivePause(hold) => hold.wf(),
            _ => true,
        }
    }

    /// What the task wants done in this phase.
    pub open spec fn action(self) -> LoadcellAction {
        match self {
            LoadcellPhase::Waiting(_) | LoadcellPhase::Live(_) | LoadcellPhase::HitCheck(_) =>
                LoadcellAction::ReadState,
            LoadcellPhase::WaitPause(_) | LoadcellPhase::TarePause(_) | LoadcellPhase::LivePause(
                _,
            ) => LoadcellAction::Sleep { ms: LOADCELL_POLL_MS },
            LoadcellPhase::TareReady(_) | LoadcellPhase::Ready(_) => LoadcellAction::ReadDataLine,
            LoadcellPhase::TareRead(_) | LoadcellPhase::Read(_) => LoadcellAction::ReadRaw,
            LoadcellPhase::FirstZone | LoadcellPhase::NextZone(..) => LoadcellAction::ReadRandom,
            LoadcellPhase::ShowZone(hold) => LoadcellAction::Update(
                Change::ShowZone { min: hold.min, max: hold.max },
            ),
            LoadcellPhase::Show(hold, reading) => LoadcellAction::Update(
                Change::ShowReading {
                    min: hold.min,
                    max: hold.max,
                    progress: hold.progress,
                    reading,
                },
            ),
            LoadcellPhase::HitSoup(hold, reading) => LoadcellAction::Update(
                Change::DamageSoup { min: hold.min, max: hold.max, reading },
            ),
            LoadcellPhase::Won => LoadcellAction::Publish(AppState::EndScreen { player_won: true }),
        }
    }
}

/// Sweet-spot mini-game: the player must hold a target force (read from the
/// load cell) inside a moving zone for `SWEET_SPOT_HOLD_MS` to damage the soup.
/// Each completed hold jumps the zone to a new random position.
#[derive(Clone, Copy, Debug, PartialEq, Eq, Structural)]
pub struct LoadcellTask {
    pub phase: LoadcellPhase,
    pub loadcell: Hx711,
}

impl LoadcellTask {
    /// What holds of every value that the task can reach.
    pub open spec fn wf(self) -> bool {
        self.phase.wf()
    }

    /// The task at power-up.
    pub open spec fn start() -> LoadcellTask {
        LoadcellTask { phase: LoadcellPhase::Waiting(0), loadcell: Hx711 { offset: 0 } }
    }

    /// The same load cell, in another phase.
    pub open spec fn to(self, phase: LoadcellPhase) -> LoadcellTask {
        LoadcellTask { phase, ..self }
    }

    /// Where the tare goes on: to the next sample, or, once it is over, to the
    /// first sweet spot with the offset that it gave.
    pub open spec fn tare_goes_on(self, tare: Tare, next: LoadcellPhase) -> LoadcellTask {
        if tare.goes_on() {
            self.to(next)
        } else {
            LoadcellTask {
                phase: LoadcellPhase::FirstZone,
                loadcell: Hx711 { offset: tare.offset() as i32 },
            }
        }
    }

    /// The task after a step without a value.
    pub open spec fn next_done(self) -> LoadcellTask {
        match self.phase {
            LoadcellPhase::WaitPause(ms) => self.to(LoadcellPhase::Waiting(ms)),
            LoadcellPhase::TarePause(tare) => self.tare_goes_on(
                tare.waited(),
                LoadcellPhase::TareReady(tare.waited()),
            ),
            LoadcellPhase::ShowZone(hold) => self.to(LoadcellPhase::Live(hold)),
            LoadcellPhase::Show(hold, _) => self.to(LoadcellPhase::LivePause(hold)),
            LoadcellPhase::HitSoup(hold, _) => self.to(LoadcellPhase::HitCheck(hold)),
            LoadcellPhase::Won => self.to(LoadcellPhase::Waiting(0)),
            LoadcellPhase::LivePause(hold) => self.to(LoadcellPhase::Live(hold)),
            _ => self,
        }
    }

    /// The task after a snapshot of the shared state.
    pub open spec fn next_state(self, state: AppState) -> LoadcellTask {
        match self.phase {
            LoadcellPhase::Waiting(ms) => if state is Game {
                LoadcellTask {
                    phase: LoadcellPhase::TareReady(Tare::start()),
                    loadcell: Hx711 { offset: 0 },
                }
            } else if ms + LOADCELL_POLL_MS >= LOADCELL_NOT_READY_LOG_MS {
                self.to(LoadcellPhase::WaitPause(0))
            } else {
                self.to(LoadcellPhase::WaitPause((ms + LOADCELL_POLL_MS) as u64))
            },
            LoadcellPhase::Live(hold) => if state is Game {
                self.to(LoadcellPhase::Ready(hold))
            } else {
                self.to(LoadcellPhase::Waiting(0))
            },
            LoadcellPhase::HitCheck(hold) => if state.soup_hp() == Some(0u32) {
                self.to(LoadcellPhase::Won)
            } else {
                self.to(LoadcellPhase::LivePause(hold))
            },
            _ => self,
        }
    }

    /// The task after a look at the data line.
    pub open spec fn next_data_line(self, level: Level) -> LoadcellTask {
        match self.phase {
            LoadcellPhase::TareReady(tare) => if level == Level::Low {
                self.to(LoadcellPhase::TareRead(tare))
            } else {
                self.to(LoadcellPhase::TarePause(tare.missed()))
            },
            LoadcellPhase::Ready(hold) => if level == Level::Low {
                self.to(LoadcellPhase::Read(hold))
            } else {
                self.to(LoadcellPhase::LivePause(hold.not_ready()))
            },
            _ => self,
        }
    }

    /// The task after a conversion.
    pub open spec fn next_raw(self, raw: i32) -> LoadcellTask {
        match self.phase {
            LoadcellPhase::TareRead(tare) => if is_saturated(raw as int) {
                self.to(LoadcellPhase::TarePause(tare.missed()))
            } else {
                self.tare_goes_on(
                    tare.sampled(raw),
                    LoadcellPhase::TarePause(tare.sampled(raw)),
                )
            },
            LoadcellPhase::Read(hold) => {
                let reading = self.loadcell.reading(raw as int) as i32;
                if hold.completed_by(self.loadcell, raw as int) {
                    self.to(
                        LoadcellPhase::NextZone(
                            Hold { progress: 0, not_ready_ms: 0, ..hold },
                            reading,
                        ),
                    )
                } else {
                    self.to(LoadcellPhase::Show(hold.read(self.loadcell, raw as int), reading))
                }
            },
            _ => self,
        }
    }

    /// The task after a random number.
    pub open spec fn next_random(self, random: u32) -> LoadcellTask {
        match self.phase {
            LoadcellPhase::FirstZone => self.to(LoadcellPhase::ShowZone(Hold::picked(random, 0))),
            LoadcellPhase::NextZone(hold, reading) => self.to(
                LoadcellPhase::HitSoup(Hold::picked(random, hold.not_ready_ms), reading),
            ),
            _ => self,
        }
    }

    /// The task once `event` came of its action. An event that answers another
    /// action changes nothing.
    pub open spec fn next(self, event: LoadcellEvent) -> LoadcellTask {
        match event {
            LoadcellEvent::Done => self.next_done(),
            LoadcellEvent::State(state) => self.next_state(state),
            LoadcellEvent::DataLine(level) => self.next_data_line(level),
            LoadcellEvent::Raw(raw) => self.next_raw(raw),
            LoadcellEvent::Random(random) => self.next_random(random),
        }
    }

    /// The line for the log when the tare ran out of time, and none before.
    pub open spec fn timeout_note(tare: Tare) -> Option<LoadcellNote> {
        if tare.goes_on() {
            None
        } else if tare.samples == 0 {
            Some(LoadcellNote::TareTimedOut { elapsed_ms: tare.elapsed_ms })
        } else {
            Some(LoadcellNote::TarePartial { samples: tare.samples, offset: tare.offset() as i32 })
        }
    }

    /// The line for the log that `event` calls for.
    pub open spec fn note(self, event: LoadcellEvent) -> Option<LoadcellNote> {
        match (self.phase, event) {
            (LoadcellPhase::Waiting(ms), LoadcellEvent::State(state)) => if state is Game {
                Some(LoadcellNote::EnteredGame)
            } else if ms + LOADCELL_POLL_MS >= LOADCELL_NOT_READY_LOG_MS {
                Some(LoadcellNote::WaitingForGame)
            } else {
                None
            },
            (LoadcellPhase::TareReady(tare), LoadcellEvent::DataLine(level)) => if level
                == Level::High && tare.is_log_due() {
                Some(LoadcellNote::TareNotReady)
            } else {
                None
            },
            (LoadcellPhase::TareRead(tare), LoadcellEvent::Raw(raw)) => if is_saturated(
                raw as int,
            ) {
                if tare.is_log_due() {
                    Some(LoadcellNote::TareSaturated { reading: raw })
                } else {
                    None
                }
            } else {
                Some(
                    LoadcellNote::TareSample {
                        samples: tare.sampled(raw).samples,
                        reading: raw,
                        result: tare.sampled(raw).result(),
                    },
                )
            },
            (LoadcellPhase::TarePause(tare), LoadcellEvent::Done) => Self::timeout_note(
                tare.waited(),
            ),
            (LoadcellPhase::Ready(hold), LoadcellEvent::DataLine(level)) => if level == Level::High
                && hold.is_log_due() {
                Some(LoadcellNote::NotReady)
            } else {
                None
            },
            (LoadcellPhase::Read(_), LoadcellEvent::Raw(raw)) => Some(
                LoadcellNote::Reading {
                    raw,
                    delta: self.loadcell.delta(raw as int) as i32,
                    force: self.loadcell.force(raw as int) as i32,
                },
            ),
            _ => None,
        }
    }

    /// The task after all of `events`, first to last.
    pub open spec fn after(self, events: Seq<LoadcellEvent>) -> LoadcellTask
        decreases events.len(),
    {
        if events.len() == 0 {
            self
        } else {
            self.after(events.drop_last()).next(events.last())
        }
    }

    /// The task at power-up.
    pub fn new() -> (task: Self)
        ensures
            task == LoadcellTask::start(),
            task.wf(),
    {
        LoadcellTask { phase: LoadcellPhase::Waiting(0), loadcell: Hx711::new() }
    }

    /// What to do next.
    pub fn action(&self) -> (action: LoadcellAction)
        ensures
            action == self.phase.action(),
    {
        match self.phase {
            LoadcellPhase::Waiting(_) => LoadcellAction::ReadState,
            LoadcellPhase::Live(_) => LoadcellAction::ReadState,
            LoadcellPhase::HitCheck(_) => LoadcellAction::ReadState,
            LoadcellPhase::WaitPause(_) => LoadcellAction::Sleep { ms: LOADCELL_POLL_MS },
            LoadcellPhase::TarePause(_) => LoadcellAction::Sleep { ms: LOADCELL_POLL_MS },
            LoadcellPhase::LivePause(_) => LoadcellAction::Sleep { ms: LOADCELL_POLL_MS },
            LoadcellPhase::TareReady(_) => LoadcellAction::ReadDataLine,
            LoadcellPhase::Ready(_) => LoadcellAction::ReadDataLine,
            LoadcellPhase::TareRead(_) => LoadcellAction::ReadRaw,
            LoadcellPhase::Read(_) => LoadcellAction::ReadRaw,
            LoadcellPhase::FirstZone => LoadcellAction::ReadRandom,
            LoadcellPhase::NextZone(_, _) => LoadcellAction::ReadRandom,
            LoadcellPhase::ShowZone(hold) => LoadcellAction::Update(
                Change::ShowZone { min: hold.min, max: hold.max },
            ),
            LoadcellPhase::Show(hold, reading) => LoadcellAction::Update(
                Change::ShowReading {
                    min: hold.min,
                    max: hold.max,
                    progress: hold.progress,
                    reading,
                },
            ),
            LoadcellPhase::HitSoup(hold, reading) => LoadcellAction::Update(
                Change::DamageSoup { min: hold.min, max: hold.max, reading },
            ),
            LoadcellPhase::Won => LoadcellAction::Publish(AppState::EndScreen { player_won: true }),
        }
    }

    /// Takes the next tare sample, or ends the tare once it is over. The result
    /// is the offset, once the tare is over.
    fn continue_tare(&mut self, tare: Tare, next: LoadcellPhase) -> (offset: Option<i32>)
        requires
            tare.wf(),
            tare.goes_on() ==> next.wf(),
        ensures
            *final(self) == old(self).tare_goes_on(tare, next),
            final(self).wf(),
            offset == tare.result(),
    {
        if tare.samples < LOADCELL_TARE_SAMPLES && tare.elapsed_ms < LOADCELL_TARE_TIMEOUT_MS {
            self.phase = next;
            None
        } else {
            let offset = tare.mean();
            self.loadcell.set_offset(offset);
            self.phase = LoadcellPhase::FirstZone;
            Some(offset)
        }
    }

    /// A step without a value is done.
    fn on_done(&mut self) -> (note: Option<LoadcellNote>)
        requires
            old(self).wf(),
        ensures
            *final(self) == old(self).next_done(),
            final(self).wf(),
            note == old(self).note(LoadcellEvent::Done),
    {
        match self.phase {
            LoadcellPhase::WaitPause(ms) => {
                self.phase = LoadcellPhase::Waiting(ms);
                None
            },
            LoadcellPhase::TarePause(tare) => {
                let tare = Tare { elapsed_ms: tare.elapsed_ms + LOADCELL_POLL_MS, ..tare };
                match self.continue_tare(tare, LoadcellPhase::TareReady(tare)) {
                    None => None,
                    Some(offset) => if tare.samples == 0 {
                        Some(LoadcellNote::TareTimedOut { elapsed_ms: tare.elapsed_ms })
                    } else {
                        Some(LoadcellNote::TarePartial { samples: tare.samples, offset })
                    },
                }
            },
            LoadcellPhase::ShowZone(hold) => {
                self.phase = LoadcellPhase::Live(hold);
                None
            },
            LoadcellPhase::Show(hold, _) => {
                self.phase = LoadcellPhase::LivePause(hold);
                None
            },
            LoadcellPhase::HitSoup(hold, _) => {
                self.phase = LoadcellPhase::HitCheck(hold);
                None
            },
            LoadcellPhase::Won => {
                self.phase = LoadcellPhase::Waiting(0);
                None
            },
            LoadcellPhase::LivePause(hold) => {
                self.phase = LoadcellPhase::Live(hold);
                None
            },
            _ => None,
        }
    }

    /// A snapshot of the shared state came.
    fn on_state(&mut self, state: &AppState) -> (note: Option<LoadcellNote>)
        requires
            old(self).wf(),
        ensures
            *final(self) == old(self).next_state(*state),
            final(self).wf(),
            note == old(self).note(LoadcellEvent::State(*state)),
    {
        match self.phase {
            LoadcellPhase::Waiting(ms) => {
                if state.is_game() {
                    self.loadcell.set_offset(0);
                    self.phase = LoadcellPhase::TareReady(
                        Tare { sum: 0, samples: 0, elapsed_ms: 0, next_diagnostic_log_ms: 0 },
                    );
                    Some(LoadcellNote::EnteredGame)
                } else {
                    let waiting_ms: u64 = ms + LOADCELL_POLL_MS;
                    if waiting_ms >= LOADCELL_NOT_READY_LOG_MS {
                        self.phase = LoadcellPhase::WaitPause(0);
                        Some(LoadcellNote::WaitingForGame)
                    } else {
                        self.phase = LoadcellPhase::WaitPause(waiting_ms);
                        None
                    }
                }
            },
            LoadcellPhase::Live(hold) => {
                self.phase = if state.is_game() {
                    LoadcellPhase::Ready(hold)
                } else {
                    LoadcellPhase::Waiting(0)
                };
                None
            },
            LoadcellPhase::HitCheck(hold) => {
                self.phase = if state.is_soup_defeated() {
                    LoadcellPhase::Won
                } else {
                    LoadcellPhase::LivePause(hold)
                };
                None
            },
            _ => None,
        }
    }

    /// A look at the data line came.
    fn on_data_line(&mut self, level: Level) -> (note: Option<LoadcellNote>)
        requires
            old(self).wf(),
        ensures
            *final(self) == old(self).next_data_line(level),
            final(self).wf(),
            note == old(self).note(LoadcellEvent::DataLine(level)),
    {
        let ready = Hx711::is_ready(level);
        match self.phase {
            LoadcellPhase::TareReady(tare) => {
                if ready {
                    self.phase = LoadcellPhase::TareRead(tare);
                    None
                } else {
                    let (tare, note) = tare.miss(LoadcellNote::TareNotReady);
                    self.phase = LoadcellPhase::TarePause(tare);
                    note
                }
            },
            LoadcellPhase::Ready(hold) => {
                if ready {
                    self.phase = LoadcellPhase::Read(hold);
                    None
                } else {
                    let not_ready_ms: u64 = hold.not_ready_ms + LOADCELL_POLL_MS;
                    if not_ready_ms >= LOADCELL_NOT_READY_LOG_MS {
                        self.phase = LoadcellPhase::LivePause(Hold { not_ready_ms: 0, ..hold });
                        Some(LoadcellNote::NotReady)
                    } else {
                        self.phase = LoadcellPhase::LivePause(Hold { not_ready_ms, ..hold });
                        None
                    }
                }
            },
            _ => None,
        }
    }

    /// A conversion came.
    fn on_raw(&mut self, raw: i32) -> (note: Option<LoadcellNote>)
        requires
            old(self).wf(),
        ensures
            *final(self) == old(self).next_raw(raw),
            final(self).wf(),
            note == old(self).note(LoadcellEvent::Raw(raw)),
    {
        match self.phase {
            LoadcellPhase::TareRead(tare) => {
                if is_saturated_hx711_reading(raw) {
                    let (tare, note) = tare.miss(LoadcellNote::TareSaturated { reading: raw });
                    self.phase = LoadcellPhase::TarePause(tare);
                    note
                } else {
                    let tare = Tare {
                        sum: tare.sum + raw as i64,
                        samples: tare.samples + 1,
                        ..tare
                    };
                    let result = self.continue_tare(tare, LoadcellPhase::TarePause(tare));
                    Some(LoadcellNote::TareSample { samples: tare.samples, reading: raw, result })
                }
            },
            LoadcellPhase::Read(hold) => {
                let (raw, delta, force) = match self.loadcell.read_force_debug(Some(raw)) {
                    Some(read) => read,
                    None => {
                        return None;
                    },
                };
                let reading: i32 = self.loadcell.post_tare_reading(raw);
                let in_zone = !is_saturated_hx711_reading(raw) && reading >= hold.min && reading
                    <= hold.max;
                let progress: u32 = if in_zone {
                    hold.progress.saturating_add(LOADCELL_POLL_PROGRESS)
                } else {
                    0
                };
                self.phase = if progress >= SWEET_SPOT_HOLD_MS {
                    LoadcellPhase::NextZone(
                        Hold { progress: 0, not_ready_ms: 0, ..hold },
                        reading,
                    )
                } else {
                    LoadcellPhase::Show(Hold { progress, not_ready_ms: 0, ..hold }, reading)
                };
                Some(LoadcellNote::Reading { raw, delta, force })
            },
            _ => None,
        }
    }

    /// A random number came.
    fn on_random(&mut self, random: u32)
        requires
            old(self).wf(),
        ensures
            *final(self) == old(self).next_random(random),
            final(self).wf(),
    {
        self.phase = match self.phase {
            LoadcellPhase::FirstZone => LoadcellPhase::ShowZone(Hold::pick(random, 0)),
            LoadcellPhase::NextZone(hold, reading) => LoadcellPhase::HitSoup(
                Hold::pick(random, hold.not_ready_ms),
                reading,
            ),
            phase => phase,
        };
    }

    /// Takes in what came of the action, and hands back a line for the log.
    pub fn advance(&mut self, event: LoadcellEvent) -> (note: Option<LoadcellNote>)
        requires
            old(self).wf(),
        ensures
            *final(self) == old(self).next(event),
            final(self).wf(),
            note == old(self).note(event),
    {
        match event {
            LoadcellEvent::Done => self.on_done(),
            LoadcellEvent::State(state) => self.on_state(&state),
            LoadcellEvent::DataLine(level) => self.on_data_line(level),
            LoadcellEvent::Raw(raw) => self.on_raw(raw),
            LoadcellEvent::Random(random) => {
                self.on_random(random);
                None
            },
        }
    }
}

} // verus!
