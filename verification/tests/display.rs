use soup_game::display::{draw_bar, draw_force_meter, Area, Color, DrawOp, Message, Place, Sprite};
use soup_game::display_task::{draw_screen, DisplayAction, DisplayEvent, DisplayTask};
use soup_game::state::{AppState, Change, SoupStatus};

fn filled(x: i32, y: i32, w: u32, h: u32, color: Color) -> DrawOp {
    DrawOp::Fill { area: Area { x, y, w, h }, color }
}

fn outlined(x: i32, y: i32, w: u32, h: u32, color: Color) -> DrawOp {
    DrawOp::Outline { area: Area { x, y, w, h }, color, width: 1 }
}

fn soup(sprite: Sprite) -> DrawOp {
    DrawOp::Image { sprite, at: Place { x: 5, y: 45 } }
}

/// Draws a whole frame, and hands back what was drawn.
fn paint(task: &mut DisplayTask) -> Vec<DrawOp> {
    let mut drawn = Vec::new();
    while let DisplayAction::Draw(op) = task.action() {
        drawn.push(op);
        task.advance(DisplayEvent::Drawn { ok: true });
    }
    assert_eq!(task.action(), DisplayAction::AwaitChange);
    drawn
}

#[test]
fn a_half_full_bar_is_filled_to_the_middle() {
    assert_eq!(
        draw_bar(130, 50, 8, 70, 50, 100, Color::Red, Color::White),
        vec![
            filled(130, 50, 8, 70, Color::Black),
            outlined(130, 50, 8, 70, Color::White),
            filled(131, 85, 6, 34, Color::Red),
        ]
    );
}

#[test]
fn bars_are_empty_full_or_in_between() {
    let rows = |value: u32, max: u32| {
        match draw_bar(0, 0, 8, 70, value, max, Color::Red, Color::White).get(2) {
            Some(DrawOp::Fill { area, .. }) => area.h,
            _ => 0,
        }
    };
    assert_eq!(rows(0, 100), 0);
    assert_eq!(rows(1, 100), 0);
    assert_eq!(rows(2, 100), 1);
    assert_eq!(rows(99, 100), 67);
    assert_eq!(rows(100, 100), 68);
    assert_eq!(rows(u32::MAX, 100), 68);
    assert_eq!(rows(5, 0), 0);
    assert_eq!(rows(u32::MAX, u32::MAX), 68);
}

#[test]
fn tiny_bars_have_no_fill() {
    assert_eq!(draw_bar(0, 0, 2, 70, 9, 9, Color::Red, Color::White).len(), 2);
    assert_eq!(draw_bar(0, 0, 8, 2, 9, 9, Color::Red, Color::White).len(), 2);
    assert_eq!(draw_bar(0, 0, 0, 0, 9, 9, Color::Red, Color::White).len(), 2);
    assert_eq!(draw_bar(0, 0, 3, 3, 9, 9, Color::Red, Color::White).len(), 3);
}

#[test]
fn the_meter_shows_zone_and_reading() {
    assert_eq!(
        draw_force_meter(550_000, 300_000, 500_000),
        vec![
            filled(145, 50, 12, 70, Color::Black),
            outlined(145, 50, 12, 70, Color::White),
            // 300000 * 67 / 1100000 = 18 and 500000 * 67 / 1100000 = 30.
            filled(146, 88, 10, 13, Color::Green),
            // 550000 * 67 / 1100000 = 33.
            filled(145, 85, 12, 2, Color::Red),
        ]
    );
}

#[test]
fn the_meter_clamps_what_it_cannot_show() {
    let marker = |reading: i32| draw_force_meter(reading, 0, 0)[3];
    assert_eq!(marker(-5), filled(145, 118, 12, 2, Color::Red));
    assert_eq!(marker(0), filled(145, 118, 12, 2, Color::Red));
    assert_eq!(marker(1_100_000), filled(145, 51, 12, 2, Color::Red));
    assert_eq!(marker(i32::MAX), filled(145, 51, 12, 2, Color::Red));
    assert_eq!(draw_force_meter(0, 0, 0)[2], filled(146, 118, 10, 1, Color::Green));
    // A zone given upside down is the same band.
    assert_eq!(draw_force_meter(0, 500_000, 300_000)[2], filled(146, 88, 10, 13, Color::Green));
}

#[test]
fn messages_have_their_words() {
    assert_eq!(Message::Welcome.text(), "Welcome to\nSoup Game!");
    assert_eq!(Message::YouWin.text(), "You win!");
    assert_eq!(Message::YouLose.text(), "You lose!");
    assert!(Message::Rules.text().starts_with("Rules:\n-Press soup, be in\nthe green zone"));
    assert_eq!(Message::Rules.text().lines().count(), 8);
}

#[test]
fn each_screen_has_its_picture() {
    let text = |message| DrawOp::Text { message, at: Place { x: 70, y: 80 } };
    assert_eq!(
        draw_screen(&AppState::Start, true),
        vec![soup(Sprite::SoupSign), text(Message::Welcome)]
    );
    assert_eq!(
        draw_screen(&AppState::Rules, true),
        vec![DrawOp::Text { message: Message::Rules, at: Place { x: 5, y: 35 } }]
    );
    assert_eq!(
        draw_screen(&AppState::EndScreen { player_won: true }, true),
        vec![soup(Sprite::SoupAngry), text(Message::YouWin)]
    );
    assert_eq!(
        draw_screen(&AppState::EndScreen { player_won: false }, false),
        vec![soup(Sprite::SoupNeutral), text(Message::YouLose)]
    );
}

#[test]
fn the_game_screen_has_three_bars_and_a_meter() {
    let state = AppState::Game {
        soup_hp: 50,
        player_hp: 100,
        soup_status: SoupStatus::Sad,
        sweet_spot_min: 300_000,
        sweet_spot_max: 500_000,
        sweet_spot_progress: 750,
        loadcell_reading: 550_000,
    };
    let mut expected = vec![soup(Sprite::SoupSad)];
    expected.extend(draw_bar(130, 50, 8, 70, 50, 100, Color::Red, Color::White));
    expected.extend(draw_bar(120, 50, 8, 70, 100, 100, Color::Green, Color::White));
    expected.extend(draw_bar(110, 50, 8, 70, 750, 1500, Color::Yellow, Color::White));
    expected.extend(draw_force_meter(550_000, 300_000, 500_000));
    assert_eq!(draw_screen(&state, true), expected);
    assert_eq!(draw_screen(&state, false), expected[1..]);
}

#[test]
fn a_new_screen_is_drawn_from_the_sky_up() {
    let mut task = DisplayTask::new();
    assert_eq!(task.action(), DisplayAction::AwaitChange);
    task.advance(DisplayEvent::Changed(AppState::Start));
    assert_eq!(task.action(), DisplayAction::ReadRandom);
    task.advance(DisplayEvent::Random(132));
    let mut expected =
        vec![DrawOp::Image { sprite: Sprite::SkySeal, at: Place { x: -10, y: 0 } }];
    expected.extend(draw_screen(&AppState::Start, true));
    assert_eq!(paint(&mut task), expected);

    task.advance(DisplayEvent::Changed(AppState::Rules));
    task.advance(DisplayEvent::Random(133));
    let sky = DrawOp::Image { sprite: Sprite::Sky, at: Place { x: -10, y: 0 } };
    assert_eq!(task.action(), DisplayAction::Draw(sky));
    assert_eq!(paint(&mut task).len(), 2);
}

#[test]
fn live_updates_redraw_only_the_widgets() {
    let mut task = DisplayTask::new();
    let first = AppState::new_game();
    task.advance(DisplayEvent::Changed(first));
    task.advance(DisplayEvent::Random(50));
    paint(&mut task);
    let live = Change::ShowReading { min: 0, max: 200_000, progress: 50, reading: 9 }.apply(&first);
    task.advance(DisplayEvent::Changed(live));
    assert_eq!(paint(&mut task), draw_screen(&live, false));
    let angry = Change::DamagePlayer { damage: 1 }.apply(&live);
    task.advance(DisplayEvent::Changed(angry));
    assert_eq!(paint(&mut task), draw_screen(&angry, true));
}

#[test]
fn a_failed_draw_drops_the_rest_of_the_frame() {
    let mut task = DisplayTask::new();
    task.advance(DisplayEvent::Changed(AppState::new_game()));
    task.advance(DisplayEvent::Random(50));
    task.advance(DisplayEvent::Drawn { ok: true });
    task.advance(DisplayEvent::Drawn { ok: true });
    task.advance(DisplayEvent::Drawn { ok: false });
    assert_eq!(task.action(), DisplayAction::AwaitChange);
}

#[test]
fn after_a_failed_sky_the_soup_is_drawn_with_the_next_state() {
    let mut task = DisplayTask::new();
    let game = AppState::new_game();
    task.advance(DisplayEvent::Changed(game));
    task.advance(DisplayEvent::Random(50));
    task.advance(DisplayEvent::Drawn { ok: false });
    assert_eq!(task.action(), DisplayAction::AwaitChange);
    // The screen counts as shown, the soup does not.
    task.advance(DisplayEvent::Changed(game));
    assert_eq!(paint(&mut task), draw_screen(&game, true));
}

#[test]
fn stray_display_events_change_nothing() {
    let mut task = DisplayTask::new();
    task.advance(DisplayEvent::Random(3));
    task.advance(DisplayEvent::Drawn { ok: true });
    assert_eq!(task.action(), DisplayAction::AwaitChange);
    task.advance(DisplayEvent::Changed(AppState::Start));
    task.advance(DisplayEvent::Changed(AppState::Rules));
    task.advance(DisplayEvent::Random(50));
    assert_eq!(paint(&mut task).len(), 3);
}

#[test]
fn more_never_looks_like_less() {
    let rows = |value: u32| match draw_bar(0, 0, 8, 70, value, 1500, Color::Red, Color::White).get(2)
    {
        Some(DrawOp::Fill { area, .. }) => area.h,
        _ => 0,
    };
    let row = |force: i32| match draw_force_meter(force, 0, 0)[3] {
        DrawOp::Fill { area, .. } => area.y,
        _ => panic!("no marker"),
    };
    for value in 0..1600 {
        assert!(rows(value) <= rows(value + 1));
        assert!(row(1000 * value as i32) >= row(1000 * value as i32 + 1000));
    }
}

#[test]
fn a_reading_in_the_zone_is_marked_on_the_band() {
    for reading in (300_000..=500_000).step_by(1000) {
        let ops = draw_force_meter(reading, 300_000, 500_000);
        match (ops[2], ops[3]) {
            (DrawOp::Fill { area: band, .. }, DrawOp::Fill { area: marker, .. }) => {
                assert!(band.y <= marker.y && marker.y < band.y + band.h as i32);
            }
            _ => panic!("no band or no marker"),
        }
    }
}

#[test]
fn widgets_stay_on_the_screen() {
    let state = AppState::Game {
        soup_hp: u32::MAX,
        player_hp: 1,
        soup_status: SoupStatus::Angry,
        sweet_spot_min: i32::MIN,
        sweet_spot_max: i32::MAX,
        sweet_spot_progress: 1499,
        loadcell_reading: i32::MIN,
    };
    for op in draw_screen(&state, true) {
        if let DrawOp::Fill { area, .. } | DrawOp::Outline { area, .. } = op {
            assert!(area.x >= 0 && area.x + area.w as i32 <= 160);
            assert!(area.y >= 0 && area.y + area.h as i32 <= 128);
        }
    }
}
