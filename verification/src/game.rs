//! The top-level game flow.
use vstd::prelude::*;
use crate::state::AppState;

verus! {

/// How long the start, rules and end screens stay up.
pub const SCREEN_HOLD_MS: u64 = 5000;

/// How often a running round is checked for its end.
pub const GAME_POLL_MS: u64 = 100;

/// What the flow waits for.
#[derive(Clone, Copy, Debug, PartialEq, Eq, Structural)]
pub enum LogicPhase {
    /// The start screen is being put up.
    ShowStart,
    /// The start screen is up.
    HoldStart,
    /// The rules screen is being put up.
    ShowRules,
    /// The rules screen is up.
    HoldRules,
    /// A fresh round is being put up.
    StartGame,
    /// A round runs: is it over?
    Watch,
    /// A round runs: wait before the next look.
    WatchPause,
    /// The end screen is up.
    HoldEnd,
}

/// What the flow wants done next.
#[derive(Clone, Copy, Debug, PartialEq, Eq, Structural)]
pub enum LogicAction {
    /// Replace the shared state.
    Publish(AppState),
    /// Sleep.
    Sleep { ms: u64 },
    /// Take a snapshot of the shared state.
    ReadState,
}

/// What came of an action.
#[derive(Clone, Copy, Debug, PartialEq, Eq, Structural)]
pub enum LogicEvent {
    /// The state was published, or the sleep is over.
    Done,
    /// The snapshot.
    State(AppState),
}

/// A line for the log.
#[derive(Clone, Copy, Debug, PartialEq, Eq, Structural)]
pub enum LogicNote {
    RulesScreen,
    GameScreen,
    EndScreen,
}

impl LogicPhase {
    /// What the flow wants done in this phase.
    pub open spec fn action(self) -> LogicAction {
        match self {
            LogicPhase::ShowStart => LogicAction::Publish(AppState::Start),
            LogicPhase::ShowRules => LogicAction::Publish(AppState::Rules),
            LogicPhase::StartGame => LogicAction::Publish(AppState::fresh_game()),
            LogicPhase::HoldStart | LogicPhase::HoldRules | LogicPhase::HoldEnd =>
                LogicAction::Sleep { ms: SCREEN_HOLD_MS },
            LogicPhase::Watch => LogicAction::ReadState,
            LogicPhase::WatchPause => LogicAction::Sleep { ms: GAME_POLL_MS },
        }
    }

    /// The phase that follows once `event` came of this phase's action. An
    /// event that answers another action changes nothing.
    pub open spec fn next(self, event: LogicEvent) -> LogicPhase {
        match (self, event) {
            (LogicPhase::ShowStart, LogicEvent::Done) => LogicPhase::HoldStart,
            (LogicPhase::HoldStart, LogicEvent::Done) => LogicPhase::ShowRules,
            (LogicPhase::ShowRules, LogicEvent::Done) => LogicPhase::HoldRules,
            (LogicPhase::HoldRules, LogicEvent::Done) => LogicPhase::StartGame,
            (LogicPhase::StartGame, LogicEvent::Done) => LogicPhase::Watch,
            (LogicPhase::Watch, LogicEvent::State(state)) => if state is EndScreen {
                LogicPhase::HoldEnd
            } else {
                LogicPhase::WatchPause
            },
            (LogicPhase::WatchPause, LogicEvent::Done) => LogicPhase::Watch,
            (LogicPhase::HoldEnd, LogicEvent::Done) => LogicPhase::ShowRules,
            (phase, _) => phase,
        }
    }

    /// The line for the log on the way from this phase to `next`.
    pub open spec fn note(self, next: LogicPhase) -> Option<LogicNote> {
        if self == next {
            None
        } else {
            match next {
                LogicPhase::ShowRules => Some(LogicNote::RulesScreen),
                LogicPhase::StartGame => Some(LogicNote::GameScreen),
                LogicPhase::HoldEnd => Some(LogicNote::EndScreen),
                _ => None,
            }
        }
    }

    /// The phase after all of `events`, first to last.
    pub open spec fn after(self, events: Seq<LogicEvent>) -> LogicPhase
        decreases events.len(),
    {
        if events.len() == 0 {
            self
        } else {
            self.after(events.drop_last()).next(events.last())
        }
    }
}

/// Drives the top-level game flow: hold the start screen once, then repeat
/// `Rules -> Game -> EndScreen -> Rules`. The button and load-cell tasks enter
/// the end screen; the flow starts each new round after the rules screen.
pub struct LogicTask {
    pub phase: LogicPhase,
}

impl LogicTask {
    /// The flow at power-up.
    pub fn new() -> (task: Self)
        ensures
            task.phase == LogicPhase::ShowStart,
    {
        LogicTask { phase: LogicPhase::ShowStart }
    }

    /// What to do next.
    pub fn action(&self) -> (action: LogicAction)
        ensures
            action == self.phase.action(),
    {
        match self.phase {
            LogicPhase::ShowStart => LogicAction::Publish(AppState::Start),
            LogicPhase::ShowRules => LogicAction::Publish(AppState::Rules),
            LogicPhase::StartGame => LogicAction::Publish(AppState::new_game()),
            LogicPhase::HoldStart => LogicAction::Sleep { ms: SCREEN_HOLD_MS },
            LogicPhase::HoldRules => LogicAction::Sleep { ms: SCREEN_HOLD_MS },
            LogicPhase::HoldEnd => LogicAction::Sleep { ms: SCREEN_HOLD_MS },
            LogicPhase::Watch => LogicAction::ReadState,
            LogicPhase::WatchPause => LogicAction::Sleep { ms: GAME_POLL_MS },
        }
    }

    /// Takes in what came of the action, and hands back a line for the log.
    pub fn advance(&mut self, event: LogicEvent) -> (note: Option<LogicNote>)
        ensures
            final(self).phase == old(self).phase.next(event),
            note == old(self).phase.note(final(self).phase),
    {
        match (self.phase, event) {
            (LogicPhase::ShowStart, LogicEvent::Done) => {
                self.phase = LogicPhase::HoldStart;
                None
            },
            (LogicPhase::HoldStart, LogicEvent::Done) => {
                self.phase = LogicPhase::ShowRules;
                Some(LogicNote::RulesScreen)
            },
            (LogicPhase::ShowRules, LogicEvent::Done) => {
                self.phase = LogicPhase::HoldRules;
                None
            },
            (LogicPhase::HoldRules, LogicEvent::Done) => {
                self.phase = LogicPhase::StartGame;
                Some(LogicNote::GameScreen)
            },
            (LogicPhase::StartGame, LogicEvent::Done) => {
                self.phase = LogicPhase::Watch;
                None
            },
            (LogicPhase::Watch, LogicEvent::State(state)) => {
                if state.is_end_screen() {
                    self.phase = LogicPhase::HoldEnd;
                    Some(LogicNote::EndScreen)
                } else {
                    self.phase = LogicPhase::WatchPause;
                    None
                }
            },
            (LogicPhase::WatchPause, LogicEvent::Done) => {
                self.phase = LogicPhase::Watch;
                None
            },
            (LogicPhase::HoldEnd, LogicEvent::Done) => {
                self.phase = LogicPhase::ShowRules;
                Some(LogicNote::RulesScreen)
            },
            _ => None,
        }
    }
}

/// The screens that the flow puts up on the way through `events`, from power-up.
pub open spec fn screens(events: Seq<LogicEvent>) -> Seq<AppState>
    decreases events.len(),
{
    if events.len() == 0 {
        seq![]
    } else {
        let before = screens(events.drop_last());
        let phase = LogicPhase::ShowStart.after(events.drop_last());
        match (phase.action(), events.last()) {
            (LogicAction::Publish(screen), LogicEvent::Done) => before.push(screen),
            _ => before,
        }
    }
}

/// The `i`-th screen that the flow puts up: the start screen once, then the
/// rules and a fresh round in turn.
pub open spec fn screen(i: int) -> AppState {
    if i == 0 {
        AppState::Start
    } else if i % 2 == 1 {
        AppState::Rules
    } else {
        AppState::fresh_game()
    }
}

/// How many screens were put up tells which phase the flow is in.
proof fn lemma_screens_by_phase(events: Seq<LogicEvent>)
    ensures
        ({
            let phase = LogicPhase::ShowStart.after(events);
            let count = screens(events).len();
            &&& forall|i: int| 0 <= i < count ==> #[trigger] screens(events)[i] == screen(i)
            &&& match phase {
                LogicPhase::ShowStart => count == 0,
                LogicPhase::HoldStart => count == 1,
                LogicPhase::ShowRules => count % 2 == 1,
                LogicPhase::HoldRules | LogicPhase::StartGame => count % 2 == 0 && count > 0,
                LogicPhase::Watch | LogicPhase::WatchPause | LogicPhase::HoldEnd => count % 2 == 1,
            }
        }),
    decreases events.len(),
{
    if events.len() > 0 {
        lemma_screens_by_phase(events.drop_last());
    }
}

/// Whatever happens, the flow puts up the start screen once and after that the
/// rules and a fresh round in turn.
pub proof fn law_screens_alternate(events: Seq<LogicEvent>)
    ensures
        forall|i: int|
            0 <= i < screens(events).len() ==> #[trigger] screens(events)[i] == screen(i),
{
    lemma_screens_by_phase(events);
}

/// A round that was put up is left only after a snapshot that shows the end
/// screen, and then for the rules.
pub proof fn law_round_ends_only_on_end_screen(phase: LogicPhase, event: LogicEvent)
    ensures
        (phase is Watch || phase is WatchPause) ==> {
            ||| phase.next(event) is Watch
            ||| phase.next(event) is WatchPause
            ||| phase.next(event) is HoldEnd
        },
        phase.next(event) is HoldEnd ==> phase is HoldEnd || (phase is Watch && (event matches
            LogicEvent::State(state) && state is EndScreen)),
        phase is HoldEnd ==> phase.next(event) is HoldEnd || phase.next(event) is ShowRules,
{
}

/// Every state that the flow publishes is valid.
pub proof fn law_flow_publishes_valid(phase: LogicPhase)
    ensures
        phase.action() matches LogicAction::Publish(state) ==> state.valid(),
{
}

/// The flow from power-up to the first round: five seconds of start screen, five
/// seconds of rules, then a fresh round, then a look at the shared state.
pub proof fn law_flow_to_the_first_round()
    ensures
        ({
            let show_start = LogicPhase::ShowStart;
            let hold_start = show_start.next(LogicEvent::Done);
            let show_rules = hold_start.next(LogicEvent::Done);
            let hold_rules = show_rules.next(LogicEvent::Done);
            let start_game = hold_rules.next(LogicEvent::Done);
            let watch = start_game.next(LogicEvent::Done);
            &&& show_start.action() == LogicAction::Publish(AppState::Start)
            &&& hold_start.action() == LogicAction::Sleep { ms: 5000 }
            &&& show_rules.action() == LogicAction::Publish(AppState::Rules)
            &&& hold_rules.action() == LogicAction::Sleep { ms: 5000 }
            &&& start_game.action() matches LogicAction::Publish(state) && state.soup_hp() == Some(
                100u32,
            ) && state.player_hp() == Some(100u32)
            &&& watch == LogicPhase::Watch
            &&& watch.action() == LogicAction::ReadState
            &&& show_start.note(hold_start) is None
            &&& hold_start.note(show_rules) == Some(LogicNote::RulesScreen)
            &&& show_rules.note(hold_rules) is None
            &&& hold_rules.note(start_game) == Some(LogicNote::GameScreen)
            &&& start_game.note(watch) is None
        }),
{
}

/// While a round is on, the flow looks for the end screen every 100 ms. It holds
/// the end screen that it finds for five seconds, then shows the rules for five
/// seconds, starts the next round and looks again.
pub proof fn law_flow_from_round_to_round(seen: AppState)
    ensures
        ({
            let after = LogicPhase::Watch.next(LogicEvent::State(seen));
            if seen is EndScreen {
                let show_rules = after.next(LogicEvent::Done);
                let hold_rules = show_rules.next(LogicEvent::Done);
                let start_game = hold_rules.next(LogicEvent::Done);
                &&& after.action() == LogicAction::Sleep { ms: 5000 }
                &&& LogicPhase::Watch.note(after) == Some(LogicNote::EndScreen)
                &&& show_rules.action() == LogicAction::Publish(AppState::Rules)
                &&& after.note(show_rules) == Some(LogicNote::RulesScreen)
                &&& hold_rules.action() == LogicAction::Sleep { ms: 5000 }
                &&& start_game.action() matches LogicAction::Publish(state) && state.soup_hp()
                    == Some(100u32) && state.player_hp() == Some(100u32)
                &&& start_game.next(LogicEvent::Done) == LogicPhase::Watch
            } else {
                &&& after.action() == LogicAction::Sleep { ms: 100 }
                &&& LogicPhase::Watch.note(after) is None
                &&& after.next(LogicEvent::Done) == LogicPhase::Watch
                &&& after.note(LogicPhase::Watch) is None
            }
        }),
{
}

/// An event that answers another action than the one asked for changes nothing.
pub proof fn law_stray_event_changes_nothing(phase: LogicPhase, event: LogicEvent)
    requires
        event is State <==> phase.action() !is ReadState,
    ensures
        phase.next(event) == phase,
        phase.note(phase) is None,
{
}

} // verus!
