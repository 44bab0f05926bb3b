//! What holds however the tasks take turns on the shared state.
use vstd::prelude::*;
use crate::button_task::{ButtonAction, ButtonEvent, ButtonPhase, Hurt};
use crate::buttons::ButtonLeds;
use crate::game::{LogicAction, LogicEvent, LogicPhase, SCREEN_HOLD_MS};
use crate::loadcell_task::{Hold, LoadcellAction, LoadcellEvent, LoadcellPhase, LoadcellTask};
use crate::state::{hp_after, AppState, SoupStatus, SOUP_DAMAGE};
use crate::loadcell_laws::{held_polls, law_only_a_full_hold_completes};
use crate::state_cell::composed;

verus! {

/// The shared state and the tasks that write it.
pub struct System {
    pub state: AppState,
    pub logic: LogicPhase,
    pub buttons: ButtonPhase,
    pub loadcell: LoadcellTask,
}

/// One task finishes the action that it wants done, with this outcome.
pub enum Turn {
    Logic(LogicEvent),
    Buttons(ButtonEvent),
    Loadcell(LoadcellEvent),
}

impl System {
    /// The system at power-up.
    pub open spec fn start() -> System {
        System {
            state: AppState::Start,
            logic: LogicPhase::ShowStart,
            buttons: ButtonPhase::SelfTest(0),
            loadcell: LoadcellTask::start(),
        }
    }

    /// The outcome can come of what the task wants done: snapshots show the
    /// shared state, and everything else is up to the hardware.
    pub open spec fn allows(self, turn: Turn) -> bool {
        match turn {
            Turn::Logic(event) => match self.logic.action() {
                LogicAction::ReadState => event == LogicEvent::State(self.state),
                _ => event == LogicEvent::Done,
            },
            Turn::Buttons(event) => {
                &&& event.answers(self.buttons.action())
                &&& event.in_range()
                &&& event matches ButtonEvent::State(state) ==> state == self.state
            },
            Turn::Loadcell(event) => {
                &&& event.answers(self.loadcell.phase.action())
                &&& event matches LoadcellEvent::State(state) ==> state == self.state
            },
        }
    }

    /// What the turn leaves in the shared state.
    pub open spec fn state_after(self, turn: Turn) -> AppState {
        match turn {
            Turn::Logic(_) => match self.logic.action() {
                LogicAction::Publish(state) => state,
                _ => self.state,
            },
            Turn::Buttons(_) => match self.buttons.action() {
                ButtonAction::Update(change) => change.applied(self.state),
                ButtonAction::Publish(state) => state,
                _ => self.state,
            },
            Turn::Loadcell(_) => match self.loadcell.phase.action() {
                LoadcellAction::Update(change) => change.applied(self.state),
                LoadcellAction::Publish(state) => state,
                _ => self.state,
            },
        }
    }

    /// The system after a turn.
    pub open spec fn next(self, turn: Turn) -> System {
        let state = self.state_after(turn);
        match turn {
            Turn::Logic(event) => System { state, logic: self.logic.next(event), ..self },
            Turn::Buttons(event) => System { state, buttons: self.buttons.next(event), ..self },
            Turn::Loadcell(event) => System { state, loadcell: self.loadcell.next(event), ..self },
        }
    }

    /// The system after all of `turns`, first to last.
    pub open spec fn after(self, turns: Seq<Turn>) -> System
        decreases turns.len(),
    {
        if turns.len() == 0 {
            self
        } else {
            self.after(turns.drop_last()).next(turns.last())
        }
    }

    /// Each of `turns` is allowed when it comes.
    pub open spec fn allows_all(self, turns: Seq<Turn>) -> bool
        decreases turns.len(),
    {
        turns.len() > 0 ==> {
            &&& self.allows_all(turns.drop_last())
            &&& self.after(turns.drop_last()).allows(turns.last())
        }
    }

    /// What the turn writes to the shared state, as a function of its value, if it
    /// writes.
    pub open spec fn write_of(self, turn: Turn) -> Option<spec_fn(AppState) -> AppState> {
        match turn {
            Turn::Logic(_) => match self.logic.action() {
                LogicAction::Publish(state) => Some(|_old: AppState| state),
                _ => None,
            },
            Turn::Buttons(_) => match self.buttons.action() {
                ButtonAction::Update(change) => Some(|old: AppState| change.applied(old)),
                ButtonAction::Publish(state) => Some(|_old: AppState| state),
                _ => None,
            },
            Turn::Loadcell(_) => match self.loadcell.phase.action() {
                LoadcellAction::Update(change) => Some(|old: AppState| change.applied(old)),
                LoadcellAction::Publish(state) => Some(|_old: AppState| state),
                _ => None,
            },
        }
    }

    /// What all of `turns` write to the shared state, first to last.
    pub open spec fn writes_of(self, turns: Seq<Turn>) -> Seq<spec_fn(AppState) -> AppState>
        decreases turns.len(),
    {
        if turns.len() == 0 {
            Seq::empty()
        } else {
            let before = self.writes_of(turns.drop_last());
            match self.after(turns.drop_last()).write_of(turns.last()) {
                Some(write) => before.push(write),
                None => before,
            }
        }
    }

    /// The turn replaces the shared state, whatever it was.
    pub open spec fn publishes(self, turn: Turn) -> bool {
        match turn {
            Turn::Logic(_) => self.logic.action() is Publish,
            Turn::Buttons(_) => self.buttons.action() is Publish,
            Turn::Loadcell(_) => self.loadcell.phase.action() is Publish,
        }
    }

    /// After `turns` the reaction mini-game is about to publish the lost game, and
    /// since the snapshot that decided it another task has replaced the shared
    /// state.
    pub open spec fn loss_is_stale(self, turns: Seq<Turn>) -> bool
        decreases turns.len(),
    {
        turns.len() > 0 && {
            let before = self.after(turns.drop_last());
            &&& before.buttons == ButtonPhase::Lost
            &&& !(turns.last() is Buttons)
            &&& self.loss_is_stale(turns.drop_last()) || before.publishes(turns.last())
        }
    }

    /// After `turns` the sweet-spot mini-game is about to publish the won game, and
    /// since the snapshot that decided it another task has replaced the shared
    /// state.
    pub open spec fn win_is_stale(self, turns: Seq<Turn>) -> bool
        decreases turns.len(),
    {
        turns.len() > 0 && {
            let before = self.after(turns.drop_last());
            &&& before.loadcell.phase is Won
            &&& !(turns.last() is Loadcell)
            &&& self.win_is_stale(turns.drop_last()) || before.publishes(turns.last())
        }
    }

    /// The shared state is valid and every task is well-formed.
    pub open spec fn inv(self) -> bool {
        &&& self.state.valid()
        &&& self.buttons.wf()
        &&& self.loadcell.wf()
    }
}

/// However the tasks take turns, no write of any task is lost: the shared state
/// is what all writes compose to, in the order of the turns.
pub proof fn law_no_task_loses_a_write(system: System, turns: Seq<Turn>)
    ensures
        system.after(turns).state == composed(system.state, system.writes_of(turns)),
    decreases turns.len(),
{
    if turns.len() > 0 {
        let before = turns.drop_last();
        law_no_task_loses_a_write(system, before);
        if let Some(write) = system.after(before).write_of(turns.last()) {
            assert(system.writes_of(turns).drop_last() =~= system.writes_of(before));
        }
    }
}

/// However the tasks take turns and whatever the hardware does, the shared state
/// stays valid: hit points within bounds, no complete hold on show, and a proper
/// sweet spot or none.
pub proof fn law_every_interleaving_keeps_the_state_valid(turns: Seq<Turn>)
    requires
        System::start().allows_all(turns),
    ensures
        System::start().after(turns).inv(),
    decreases turns.len(),
{
    if turns.len() > 0 {
        law_every_interleaving_keeps_the_state_valid(turns.drop_last());
    }
}

/// Hit points rise only when the flow starts a fresh round: a turn that finds and
/// leaves a game either is that start or raises nothing.
pub proof fn law_only_a_fresh_round_heals(system: System, turn: Turn)
    requires
        system.allows(turn),
        system.state is Game,
        system.next(turn).state is Game,
    ensures
        system.next(turn).state == AppState::fresh_game() || {
            &&& system.next(turn).state.soup_hp()->0 <= system.state.soup_hp()->0
            &&& system.next(turn).state.player_hp()->0 <= system.state.player_hp()->0
        },
{
}

/// Who switches screens: the flow puts up the start screen, the rules and each
/// round; only the two mini-games put up the end screen, as lost or as won.
pub proof fn law_who_switches_screens(system: System, turn: Turn)
    requires
        system.allows(turn),
        system.next(turn).state != system.state,
    ensures
        system.next(turn).state is Start || system.next(turn).state is Rules ==> turn is Logic,
        system.next(turn).state is Game && !(system.state is Game) ==> turn is Logic
            && system.next(turn).state == AppState::fresh_game(),
        system.next(turn).state == (AppState::EndScreen { player_won: false }) ==> turn is Buttons
            && system.buttons == ButtonPhase::Lost,
        system.next(turn).state == (AppState::EndScreen { player_won: true }) ==> turn is Loadcell
            && system.loadcell.phase is Won,
{
}

/// When the reaction mini-game is about to publish the lost game, the shared
/// state is a game in which the player has no hit points left, exactly if no
/// other task has replaced it since the snapshot that decided the game. That is
/// so in particular if no other task took a turn since.
pub proof fn law_loss_is_put_over_a_defeated_player(turns: Seq<Turn>)
    requires
        System::start().allows_all(turns),
        System::start().after(turns).buttons == ButtonPhase::Lost,
    ensures
        System::start().after(turns).state.player_hp() == Some(0u32)
            <==> !System::start().loss_is_stale(turns),
        turns.last() is Buttons ==> System::start().after(turns).state.player_hp() == Some(0u32),
    decreases turns.len(),
{
    if turns.len() > 0 {
        let before = System::start().after(turns.drop_last());
        if before.buttons == ButtonPhase::Lost {
            law_loss_is_put_over_a_defeated_player(turns.drop_last());
        }
    }
}

/// When the sweet-spot mini-game is about to publish the won game, the shared
/// state is a game in which the soup has no hit points left, exactly if no other
/// task has replaced it since the snapshot that decided the game. That is so in
/// particular if no other task took a turn since.
pub proof fn law_win_is_put_over_a_defeated_soup(turns: Seq<Turn>)
    requires
        System::start().allows_all(turns),
        System::start().after(turns).loadcell.phase is Won,
    ensures
        System::start().after(turns).state.soup_hp() == Some(0u32)
            <==> !System::start().win_is_stale(turns),
        turns.last() is Loadcell ==> System::start().after(turns).state.soup_hp() == Some(0u32),
    decreases turns.len(),
{
    if turns.len() > 0 {
        let before = System::start().after(turns.drop_last());
        if before.loadcell.phase is Won {
            law_win_is_put_over_a_defeated_soup(turns.drop_last());
        }
    }
}

/// What the reaction mini-game does to the shared state, in every run. It leaves
/// every screen but the game as it is. Of a game it takes at least one of the
/// player's hit points, as far as there are any, and makes the soup angry; or,
/// when the player has none left, it puts up the lost game. Only a stale loss is
/// put over something else, and the won game is never put up.
pub proof fn law_what_the_buttons_write(turns: Seq<Turn>, turn: Turn)
    requires
        System::start().allows_all(turns),
        System::start().after(turns).allows(turn),
        turn is Buttons,
        System::start().after(turns).write_of(turn) is Some,
    ensures
        ({
            let before = System::start().after(turns).state;
            let after = System::start().after(turns).next(turn).state;
            if System::start().loss_is_stale(turns) {
                after == (AppState::EndScreen { player_won: false })
            } else {
                match before {
                    AppState::Game {
                        soup_hp,
                        player_hp,
                        soup_status: _,
                        sweet_spot_min,
                        sweet_spot_max,
                        sweet_spot_progress,
                        loadcell_reading,
                    } => {
                        ||| player_hp == 0 && after == (AppState::EndScreen { player_won: false })
                        ||| exists|damage: u32|
                            {
                                &&& damage >= 1
                                &&& after == (AppState::Game {
                                    soup_hp,
                                    player_hp: #[trigger] hp_after(player_hp, damage),
                                    soup_status: SoupStatus::Angry,
                                    sweet_spot_min,
                                    sweet_spot_max,
                                    sweet_spot_progress,
                                    loadcell_reading,
                                })
                            }
                    },
                    _ => after == before,
                }
            }
        }),
{
    law_every_interleaving_keeps_the_state_valid(turns);
    let system = System::start().after(turns);
    if system.buttons == ButtonPhase::Lost {
        law_loss_is_put_over_a_defeated_player(turns);
    }
    if let ButtonPhase::Hurting(hurt) = system.buttons {
        if let Some(player_hp) = system.state.player_hp() {
            assert(system.next(turn).state.player_hp() == Some(
                hp_after(player_hp, hurt.damage()),
            ));
        }
    }
}

/// What the sweet-spot mini-game does to the shared state, in every run. It leaves
/// every screen but the game as it is. In a game it never touches the player's
/// hit points, and it lowers the soup's and makes the soup sad only with the write
/// that ends a completed hold; or, when the soup has no hit points left, it puts
/// up the won game. Only a stale win is put over something else, and the lost game
/// is never put up.
pub proof fn law_what_the_loadcell_writes(turns: Seq<Turn>, turn: Turn)
    requires
        System::start().allows_all(turns),
        System::start().after(turns).allows(turn),
        turn is Loadcell,
        System::start().after(turns).write_of(turn) is Some,
    ensures
        ({
            let system = System::start().after(turns);
            let before = system.state;
            let after = system.next(turn).state;
            if System::start().win_is_stale(turns) {
                after == (AppState::EndScreen { player_won: true })
            } else {
                match (before, after) {
                    (
                        AppState::Game { soup_hp, player_hp, soup_status, .. },
                        AppState::Game {
                            soup_hp: soup_hp_after,
                            player_hp: player_hp_after,
                            soup_status: soup_status_after,
                            ..
                        },
                    ) => {
                        &&& player_hp_after == player_hp
                        &&& if system.loadcell.phase is HitSoup {
                            &&& soup_hp_after == hp_after(soup_hp, SOUP_DAMAGE)
                            &&& soup_status_after == SoupStatus::Sad
                        } else {
                            &&& soup_hp_after == soup_hp
                            &&& soup_status_after == soup_status
                        }
                    },
                    (AppState::Game { soup_hp, .. }, _) => {
                        &&& soup_hp == 0
                        &&& after == (AppState::EndScreen { player_won: true })
                    },
                    _ => after == before,
                }
            }
        }),
{
    let system = System::start().after(turns);
    if system.loadcell.phase is Won {
        law_win_is_put_over_a_defeated_soup(turns);
    }
}

/// What the sweet-spot mini-game was told during `turns`.
pub open spec fn loadcell_events(turns: Seq<Turn>) -> Seq<LoadcellEvent>
    decreases turns.len(),
{
    if turns.len() == 0 {
        Seq::empty()
    } else {
        match turns.last() {
            Turn::Loadcell(event) => loadcell_events(turns.drop_last()).push(event),
            _ => loadcell_events(turns.drop_last()),
        }
    }
}

/// The sweet-spot mini-game depends only on what it was told.
proof fn lemma_loadcell_follows_its_events(turns: Seq<Turn>)
    ensures
        System::start().after(turns).loadcell == LoadcellTask::start().after(
            loadcell_events(turns),
        ),
    decreases turns.len(),
{
    if turns.len() > 0 {
        lemma_loadcell_follows_its_events(turns.drop_last());
        if let Turn::Loadcell(event) = turns.last() {
            assert(loadcell_events(turns).drop_last() =~= loadcell_events(turns.drop_last()));
        }
    }
}

/// In every run, after a live write the progress on show is 50 ms for each raw value
/// in a row that lay in the zone, so none after one that did not, and the zone and
/// the reading on show are those of the task. After a hit, and after the first zone
/// appeared, no progress is on show.
pub proof fn law_progress_on_show_is_the_hold_time(turns: Seq<Turn>)
    requires
        System::start().allows_all(turns),
        System::start().after(turns).state is Game,
    ensures
        ({
            let system = System::start().after(turns);
            let shown = system.next(Turn::Loadcell(LoadcellEvent::Done)).state;
            match system.loadcell.phase {
                LoadcellPhase::Show(hold, reading) => {
                    &&& shown is Game
                    &&& shown->sweet_spot_progress == 50 * held_polls(loadcell_events(turns))
                    &&& shown->sweet_spot_min == hold.min
                    &&& shown->sweet_spot_max == hold.max
                    &&& shown->loadcell_reading == reading
                },
                LoadcellPhase::ShowZone(hold) | LoadcellPhase::HitSoup(hold, _) => {
                    &&& shown is Game
                    &&& shown->sweet_spot_progress == 0
                    &&& shown->sweet_spot_min == hold.min
                    &&& shown->sweet_spot_max == hold.max
                },
                _ => true,
            }
        }),
{
    lemma_loadcell_follows_its_events(turns);
    law_only_a_full_hold_completes(loadcell_events(turns));
}

/// Damage that takes the player's last hit points ends the game as lost, and the
/// LEDs go off, if no other task takes a turn meanwhile.
pub proof fn law_fatal_damage_loses_the_game(system: System, hurt: Hurt)
    requires
        system.buttons == ButtonPhase::Hurting(hurt),
        system.state.player_hp() matches Some(hp) && hp <= hurt.damage(),
    ensures
        ({
            let hit = system.next(Turn::Buttons(ButtonEvent::Done));
            let seen = hit.next(Turn::Buttons(ButtonEvent::State(hit.state)));
            let over = seen.next(Turn::Buttons(ButtonEvent::Done));
            &&& hit.state.player_hp() == Some(0u32)
            &&& over.state == (AppState::EndScreen { player_won: false })
            &&& over.buttons.action() == ButtonAction::SetLeds(ButtonLeds::off())
        }),
{
}

/// Damage that leaves the player hit points lets the game go on.
pub proof fn law_other_damage_goes_on(system: System, hurt: Hurt)
    requires
        system.buttons == ButtonPhase::Hurting(hurt),
        system.state.player_hp() matches Some(hp) && hp > hurt.damage(),
    ensures
        ({
            let hit = system.next(Turn::Buttons(ButtonEvent::Done));
            let seen = hit.next(Turn::Buttons(ButtonEvent::State(hit.state)));
            &&& hit.state.player_hp() == Some((system.state.player_hp()->0 - hurt.damage()) as u32)
            &&& seen.state == hit.state
            &&& seen.buttons == hurt.survived()
        }),
{
}

/// A hold that takes the soup's last hit points ends the game as won, if no other
/// task takes a turn meanwhile.
pub proof fn law_last_hold_wins_the_game(system: System, hold: Hold, reading: i32)
    requires
        system.loadcell.phase == LoadcellPhase::HitSoup(hold, reading),
        system.state.soup_hp() matches Some(hp) && hp <= SOUP_DAMAGE,
    ensures
        ({
            let hit = system.next(Turn::Loadcell(LoadcellEvent::Done));
            let seen = hit.next(Turn::Loadcell(LoadcellEvent::State(hit.state)));
            let over = seen.next(Turn::Loadcell(LoadcellEvent::Done));
            &&& hit.state.soup_hp() == Some(0u32)
            &&& over.state == (AppState::EndScreen { player_won: true })
        }),
{
}

/// Once the end screen is up, the flow finds it at its next look and puts up the
/// rules after it, if no other task takes a turn meanwhile.
pub proof fn law_end_screen_leads_to_the_rules(system: System)
    requires
        system.logic == LogicPhase::Watch,
        system.state is EndScreen,
    ensures
        ({
            let seen = system.next(Turn::Logic(LogicEvent::State(system.state)));
            let held = seen.next(Turn::Logic(LogicEvent::Done));
            let over = held.next(Turn::Logic(LogicEvent::Done));
            &&& seen.logic.action() == LogicAction::Sleep { ms: SCREEN_HOLD_MS }
            &&& over.state == AppState::Rules
        }),
{
}

} // verus!
