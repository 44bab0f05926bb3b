use soup_game::button_task::{ButtonAction, ButtonEvent, ButtonPhase, ButtonTask};
use soup_game::buttons::{ButtonLeds, Buttons, Level};
use soup_game::game::{LogicAction, LogicEvent, LogicPhase, LogicTask};
use soup_game::loadcell_task::{LoadcellAction, LoadcellEvent, LoadcellPhase, LoadcellTask};
use soup_game::state::{AppState, Change, SoupStatus};
use soup_game::state_cell::StateCell;

/// The tasks on one cell, with a made-up clock and made-up hardware.
struct Rig {
    cell: StateCell<AppState>,
    logic: LogicTask,
    buttons: ButtonTask,
    loadcell: LoadcellTask,
    leds: ButtonLeds,
    elapsed_ms: u64,
    look: Buttons,
    raw: i32,
    seed: u64,
}

impl Rig {
    fn new() -> Rig {
        Rig {
            cell: StateCell::new(AppState::Start),
            logic: LogicTask::new(),
            buttons: ButtonTask::new(),
            loadcell: LoadcellTask::new(),
            leds: ButtonLeds { led0: Level::Low, led1: Level::Low },
            elapsed_ms: 0,
            look: Buttons { btn0: Level::High, btn1: Level::High },
            raw: 0,
            seed: 7,
        }
    }

    fn random(&mut self) -> u32 {
        self.seed = self.seed.wrapping_mul(6364136223846793005).wrapping_add(1442695040888963407);
        (self.seed >> 33) as u32
    }

    fn turn_logic(&mut self) {
        let event = match self.logic.action() {
            LogicAction::Publish(state) => {
                self.cell.set(state);
                LogicEvent::Done
            }
            LogicAction::Sleep { .. } => LogicEvent::Done,
            LogicAction::ReadState => LogicEvent::State(self.cell.get()),
        };
        self.logic.advance(event);
    }

    fn turn_buttons(&mut self) {
        let event = match self.buttons.action() {
            ButtonAction::SetLeds(leds) => {
                self.leds = leds;
                ButtonEvent::Done
            }
            ButtonAction::Sleep { ms } => {
                self.elapsed_ms += ms;
                ButtonEvent::Done
            }
            ButtonAction::ReadState => ButtonEvent::State(self.cell.get()),
            ButtonAction::ReadButtons => ButtonEvent::Buttons(self.look),
            ButtonAction::ReadRandom => ButtonEvent::Random(self.random()),
            ButtonAction::StartTimer => {
                self.elapsed_ms = 0;
                ButtonEvent::Done
            }
            ButtonAction::ReadTimer => ButtonEvent::Elapsed(self.elapsed_ms),
            ButtonAction::Update(change) => {
                self.cell.update(|state| change.apply(state));
                ButtonEvent::Done
            }
            ButtonAction::Publish(state) => {
                self.cell.set(state);
                ButtonEvent::Done
            }
        };
        self.buttons.advance(event);
    }

    fn turn_loadcell(&mut self) {
        let event = match self.loadcell.action() {
            LoadcellAction::Sleep { .. } => LoadcellEvent::Done,
            LoadcellAction::ReadState => LoadcellEvent::State(self.cell.get()),
            LoadcellAction::ReadDataLine => LoadcellEvent::DataLine(Level::Low),
            LoadcellAction::ReadRaw => LoadcellEvent::Raw(self.raw),
            LoadcellAction::ReadRandom => LoadcellEvent::Random(self.random()),
            LoadcellAction::Update(change) => {
                self.cell.update(|state| change.apply(state));
                LoadcellEvent::Done
            }
            LoadcellAction::Publish(state) => {
                self.cell.set(state);
                LoadcellEvent::Done
            }
        };
        self.loadcell.advance(event);
    }
}

fn is_valid(state: &AppState) -> bool {
    match *state {
        AppState::Game {
            soup_hp,
            player_hp,
            sweet_spot_min,
            sweet_spot_max,
            sweet_spot_progress,
            ..
        } => {
            let unset = sweet_spot_min == 0 && sweet_spot_max == 0;
            let zone = (0..600_000).contains(&sweet_spot_min)
                && sweet_spot_max == sweet_spot_min + 200_000;
            soup_hp <= 100 && player_hp <= 100 && sweet_spot_progress < 1500 && (unset || zone)
        }
        _ => true,
    }
}

#[test]
fn random_turns_keep_the_state_valid() {
    let mut rig = Rig::new();
    let mut games = 0;
    let mut ends = 0;
    for _ in 0..400_000 {
        let before = rig.cell.get();
        match rig.random() % 40 {
            0 => rig.turn_logic(),
            1..=20 => rig.turn_buttons(),
            21..=38 => rig.turn_loadcell(),
            _ => {
                let level = |bit: u32| if bit == 0 { Level::Low } else { Level::High };
                let pick = rig.random();
                rig.look = Buttons { btn0: level(pick & 1), btn1: level((pick >> 1) & 1) };
                rig.raw = (rig.random() % 900_000) as i32;
            }
        }
        let after = rig.cell.get();
        assert!(is_valid(&after));
        if after.is_game() && !before.is_game() {
            assert_eq!(after, AppState::new_game());
            games += 1;
        }
        if after.is_end_screen() && !before.is_end_screen() {
            ends += 1;
        }
    }
    assert!(games > 1 && ends > 1);
}

#[test]
fn an_idle_player_loses() {
    let mut rig = Rig::new();
    rig.cell.set(AppState::new_game());
    let mut ticks = 0;
    let mut taken = 0;
    while !rig.cell.get().is_end_screen() {
        if let ButtonAction::Update(Change::DamagePlayer { damage }) = rig.buttons.action() {
            ticks += 1;
            taken += damage;
            assert_eq!(damage, ticks);
        }
        rig.turn_buttons();
    }
    assert_eq!(rig.cell.get(), AppState::EndScreen { player_won: false });
    // 1 + 2 + ... + 14 = 105 takes the last of 100 hit points.
    assert_eq!((ticks, taken), (14, 105));
    rig.turn_buttons();
    assert_eq!(rig.leds, ButtonLeds { led0: Level::Low, led1: Level::Low });
}

#[test]
fn a_steady_hand_wins_after_ten_holds() {
    let mut rig = Rig::new();
    rig.cell.set(AppState::new_game());
    let mut holds = 0;
    let mut polls = 0;
    while !rig.cell.get().is_end_screen() {
        if let LoadcellPhase::Read(hold) = rig.loadcell.phase {
            rig.raw = hold.min + 100_000;
            polls += 1;
        }
        if let LoadcellAction::Update(Change::DamageSoup { .. }) = rig.loadcell.action() {
            holds += 1;
        }
        rig.turn_loadcell();
    }
    assert_eq!(rig.cell.get(), AppState::EndScreen { player_won: true });
    assert_eq!((holds, polls), (10, 300));
}

#[test]
fn the_end_screen_leads_back_to_the_rules() {
    let mut rig = Rig::new();
    rig.logic.phase = LogicPhase::Watch;
    rig.cell.set(AppState::EndScreen { player_won: true });
    rig.turn_logic();
    assert_eq!(rig.logic.action(), LogicAction::Sleep { ms: 5000 });
    rig.turn_logic();
    rig.turn_logic();
    assert_eq!(rig.cell.get(), AppState::Rules);
}

#[test]
fn exactly_the_lit_led_shows_during_a_round() {
    let mut rig = Rig::new();
    rig.cell.set(AppState::new_game());
    for _ in 0..200 {
        if let ButtonPhase::Poll(round) = rig.buttons.phase {
            let mut expected = rig.leds;
            expected.set_only(round.idx);
            assert_eq!(rig.leds, expected);
        }
        rig.turn_buttons();
    }
}

/// What a write of the reaction mini-game may make of a state.
fn is_button_write(before: AppState, after: AppState) -> bool {
    match before {
        AppState::Game { player_hp: 0, .. }
            if after == (AppState::EndScreen { player_won: false }) =>
        {
            true
        }
        AppState::Game { .. } => {
            (1..=200).any(|damage| after == Change::DamagePlayer { damage }.apply(&before))
        }
        _ => after == before,
    }
}

/// What a write of the sweet-spot mini-game may make of a state.
fn is_loadcell_write(before: AppState, after: AppState, hit: bool) -> bool {
    match (before, after) {
        (
            AppState::Game { soup_hp, player_hp, soup_status, .. },
            AppState::Game {
                soup_hp: soup_after,
                player_hp: player_after,
                soup_status: status_after,
                ..
            },
        ) => {
            let damage = if hit { 10 } else { 0 };
            let status = if hit { SoupStatus::Sad } else { soup_status };
            player_after == player_hp
                && soup_after == soup_hp.saturating_sub(damage)
                && status_after == status
        }
        (AppState::Game { soup_hp, .. }, _) => {
            soup_hp == 0 && after == (AppState::EndScreen { player_won: true })
        }
        _ => after == before,
    }
}

#[test]
fn each_mini_game_writes_only_its_share() {
    let mut rig = Rig::new();
    let mut stale_loss = false;
    let mut stale_win = false;
    let mut losses = 0;
    let mut wins = 0;
    for _ in 0..400_000 {
        let before = rig.cell.get();
        let lost = rig.buttons.phase == ButtonPhase::Lost;
        let won = rig.loadcell.phase == LoadcellPhase::Won;
        let hit = matches!(rig.loadcell.phase, LoadcellPhase::HitSoup(_, _));
        match rig.random() % 40 {
            0 => {
                let publishes = matches!(rig.logic.action(), LogicAction::Publish(_));
                rig.turn_logic();
                stale_loss |= lost && publishes;
                stale_win |= won && publishes;
            }
            1..=20 => {
                let writes = matches!(
                    rig.buttons.action(),
                    ButtonAction::Update(_) | ButtonAction::Publish(_)
                );
                rig.turn_buttons();
                if writes && !stale_loss {
                    assert!(is_button_write(before, rig.cell.get()));
                }
                losses += lost as u32;
                stale_win |= won && lost;
                stale_loss = false;
            }
            21..=38 => {
                if let LoadcellPhase::Read(hold) = rig.loadcell.phase {
                    rig.raw = rig.loadcell.loadcell.offset + hold.min + 100_000;
                }
                let writes = matches!(
                    rig.loadcell.action(),
                    LoadcellAction::Update(_) | LoadcellAction::Publish(_)
                );
                rig.turn_loadcell();
                if writes && !stale_win {
                    assert!(is_loadcell_write(before, rig.cell.get(), hit));
                }
                wins += won as u32;
                stale_loss |= lost && won;
                stale_win = false;
            }
            _ => {
                let level = |bit: u32| if bit == 0 { Level::Low } else { Level::High };
                let pick = rig.random();
                rig.look = Buttons { btn0: level(pick & 1), btn1: level((pick >> 1) & 1) };
                rig.raw = (rig.random() % 400_000) as i32;
            }
        }
    }
    assert!(losses + wins > 1);
}

#[test]
fn a_decided_loss_is_put_over_what_was_published_since() {
    let mut rig = Rig::new();
    let beaten = Change::DamagePlayer { damage: 100 }.apply(&AppState::new_game());
    rig.buttons.phase = ButtonPhase::Lost;
    rig.cell.set(beaten);
    rig.turn_buttons();
    assert_eq!(rig.cell.get(), AppState::EndScreen { player_won: false });

    rig.buttons.phase = ButtonPhase::Lost;
    rig.loadcell.phase = LoadcellPhase::Won;
    rig.cell.set(beaten);
    rig.turn_loadcell();
    assert_eq!(rig.cell.get(), AppState::EndScreen { player_won: true });
    rig.turn_buttons();
    assert_eq!(rig.cell.get(), AppState::EndScreen { player_won: false });
}
