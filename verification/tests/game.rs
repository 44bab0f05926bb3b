use soup_game::game::{LogicAction, LogicEvent, LogicNote, LogicTask};
use soup_game::state::AppState;

/// Answers what the flow wants done, with snapshots of `state`.
fn answer(task: &LogicTask, state: AppState) -> LogicEvent {
    match task.action() {
        LogicAction::ReadState => LogicEvent::State(state),
        _ => LogicEvent::Done,
    }
}

#[test]
fn the_flow_shows_start_once_then_rules_and_game_in_turn() {
    let mut task = LogicTask::new();
    let mut published = Vec::new();
    for step in 0..60 {
        if let LogicAction::Publish(state) = task.action() {
            published.push(state);
        }
        let state = if step % 5 == 0 {
            AppState::EndScreen { player_won: false }
        } else {
            AppState::new_game()
        };
        let event = answer(&task, state);
        task.advance(event);
    }
    assert!(published.len() > 4);
    assert_eq!(published[0], AppState::Start);
    for (i, state) in published.iter().enumerate().skip(1) {
        let expected = if i % 2 == 1 { AppState::Rules } else { AppState::new_game() };
        assert_eq!(*state, expected);
    }
}

#[test]
fn screens_are_held_for_five_seconds() {
    let mut task = LogicTask::new();
    assert_eq!(task.action(), LogicAction::Publish(AppState::Start));
    assert_eq!(task.advance(LogicEvent::Done), None);
    assert_eq!(task.action(), LogicAction::Sleep { ms: 5000 });
    assert_eq!(task.advance(LogicEvent::Done), Some(LogicNote::RulesScreen));
    assert_eq!(task.action(), LogicAction::Publish(AppState::Rules));
    task.advance(LogicEvent::Done);
    assert_eq!(task.action(), LogicAction::Sleep { ms: 5000 });
    assert_eq!(task.advance(LogicEvent::Done), Some(LogicNote::GameScreen));
    assert_eq!(task.action(), LogicAction::Publish(AppState::new_game()));
    task.advance(LogicEvent::Done);
    assert_eq!(task.action(), LogicAction::ReadState);
    task.advance(LogicEvent::State(AppState::new_game()));
    assert_eq!(task.action(), LogicAction::Sleep { ms: 100 });
    task.advance(LogicEvent::Done);
    assert_eq!(task.action(), LogicAction::ReadState);
    let over = LogicEvent::State(AppState::EndScreen { player_won: true });
    assert_eq!(task.advance(over), Some(LogicNote::EndScreen));
    assert_eq!(task.action(), LogicAction::Sleep { ms: 5000 });
    assert_eq!(task.advance(LogicEvent::Done), Some(LogicNote::RulesScreen));
    assert_eq!(task.action(), LogicAction::Publish(AppState::Rules));
}

#[test]
fn the_flow_ignores_stray_events() {
    let mut task = LogicTask::new();
    task.advance(LogicEvent::State(AppState::EndScreen { player_won: true }));
    assert_eq!(task.action(), LogicAction::Publish(AppState::Start));
}
