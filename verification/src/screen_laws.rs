//! What can be seen on the screens, told by what is drawn.
use vstd::prelude::*;
use crate::display::{
    bar_fits, bar_ops, lemma_bar_fill_rows_bound, meter_ops, Area, Color, DrawOp, Message, Place,
    PLAYER_HP_X, PROGRESS_X, SOUP_HP_X,
};
use crate::display_task::{
    hud_bar, screen_number, screen_ops, soup_shown, DisplayAction, DisplayEvent, DisplayModel,
    FrameProgress,
};
use crate::state::{AppState, SoupStatus, MAX_HP, SWEET_SPOT_HOLD_MS};

verus! {

/// The words of the four texts.
pub proof fn law_words()
    ensures
        Message::Welcome.words() == "Welcome to\nSoup Game!"@,
        Message::Rules.words()
            == "Rules:\n-Press soup, be in\nthe green zone to\nattack soup\n-Press the buttons\nwhen the LEDs\nlight up to protect\nyourself"@,
        Message::YouWin.words() == "You win!"@,
        Message::YouLose.words() == "You lose!"@,
{
}

/// `rows` of `of` rows are filled for `value` of `max`: as many whole rows as the
/// share covers, and all of them from `max` on.
pub open spec fn covers(rows: int, of: int, value: int, max: int) -> bool {
    if value >= max {
        rows == of
    } else {
        rows * max <= value * of < (rows + 1) * max
    }
}

/// The rectangles of a bar: black ground, outline one pixel wide, and a fill that
/// stands on the bottom inside the outline, as wide as fits, whose rows cover the
/// share. There is no fill without width, rows or `max`, or for a share below one
/// row.
pub open spec fn is_bar(
    ops: Seq<DrawOp>,
    bounds: Area,
    value: u32,
    max: u32,
    fill: Color,
    outline: Color,
) -> bool {
    &&& 2 <= ops.len() <= 3
    &&& ops[0] == DrawOp::Fill { area: bounds, color: Color::Black }
    &&& ops[1] == DrawOp::Outline { area: bounds, color: outline, width: 1 }
    &&& if ops.len() == 3 {
        &&& bounds.w > 2 && bounds.h > 2 && max > 0
        &&& ops[2] matches DrawOp::Fill { area, color } && {
            &&& color == fill
            &&& area.x == bounds.x + 1
            &&& area.w == bounds.w - 2
            &&& area.h > 0
            &&& covers(area.h as int, bounds.h - 2, value as int, max as int)
            &&& area.y == bounds.y + (bounds.h as i32) - 1 - (area.h as i32)
        }
    } else {
        bounds.w <= 2 || bounds.h <= 2 || max == 0 || (value < max && value * (bounds.h - 2) < max)
    }
}

/// Every bar that can be drawn shows the share of `value` in `max`.
pub proof fn law_bar_shows_its_share(
    x: i32,
    y: i32,
    w: u32,
    h: u32,
    value: u32,
    max: u32,
    fill: Color,
    outline: Color,
)
    requires
        bar_fits(x, y, w, h, value, max),
    ensures
        is_bar(
            bar_ops(x, y, w, h, value, max, fill, outline),
            Area { x, y, w, h },
            value,
            max,
            fill,
            outline,
        ),
{
    lemma_bar_fill_rows_bound(h, value, max);
    if max > 0 && h >= 2 && value < max {
        let a = value * (h - 2);
        let m = max as int;
        let rows = a / m;
        vstd::arithmetic::div_mod::lemma_fundamental_div_mod(a, m);
        vstd::arithmetic::div_mod::lemma_mod_bound(a, m);
        assert(a >= 0) by (nonlinear_arith)
            requires
                a == value * (h - 2),
                value >= 0,
                h >= 2,
        ;
        assert(rows * m == m * rows && (rows + 1) * m == m * rows + m) by (nonlinear_arith);
        if rows == 0 {
            assert(m * rows == 0) by (nonlinear_arith)
                requires
                    rows == 0,
            ;
        }
    }
}

/// The row stands for the force on a meter whose bottom row 118 stands for nothing
/// and whose top row 51 stands for 1100000 and more.
pub open spec fn is_row_of(row: int, force: int) -> bool {
    if force <= 0 {
        row == 118
    } else if force >= 1_100_000 {
        row == 51
    } else {
        (118 - row) * 1_100_000 <= force * 67 < (119 - row) * 1_100_000
    }
}

/// The rectangles of the force meter: a black track with a white outline, a green
/// band inside it from the row of one end of the zone to the row of the other, and
/// a red line, two rows high and as wide as the track, from the row of the reading
/// on.
pub open spec fn is_meter(ops: Seq<DrawOp>, reading: int, zone_min: int, zone_max: int) -> bool {
    let track = Area { x: 145, y: 50, w: 12, h: 70 };
    &&& ops.len() == 4
    &&& ops[0] == DrawOp::Fill { area: track, color: Color::Black }
    &&& ops[1] == DrawOp::Outline { area: track, color: Color::White, width: 1 }
    &&& ops[2] matches DrawOp::Fill { area: band, color } && {
        let last = band.y + band.h - 1;
        &&& color == Color::Green
        &&& band.x == 146 && band.w == 10 && band.h > 0
        &&& is_row_of(band.y as int, zone_max) && is_row_of(last, zone_min) || is_row_of(
            band.y as int,
            zone_min,
        ) && is_row_of(last, zone_max)
    }
    &&& ops[3] matches DrawOp::Fill { area: marker, color } && {
        &&& color == Color::Red
        &&& marker.x == 145 && marker.w == 12 && marker.h == 2
        &&& is_row_of(marker.y as int, reading)
    }
}

/// The force meter shows zone and reading in proportion.
pub proof fn law_meter_shows_zone_and_reading(reading: i32, zone_min: i32, zone_max: i32)
    ensures
        is_meter(
            meter_ops(reading, zone_min, zone_max),
            reading as int,
            zone_min as int,
            zone_max as int,
        ),
{
}

/// What is drawn in front of the sky of a game is three bars and the force meter, in
/// this order: the soup's hit points in red at column 130 and the player's in green
/// at column 120, of a hundred each, and the progress of 1500 in yellow at column
/// 110.
pub open spec fn is_hud(
    ops: Seq<DrawOp>,
    soup: Seq<DrawOp>,
    player: Seq<DrawOp>,
    hold: Seq<DrawOp>,
    meter: Seq<DrawOp>,
    game: AppState,
) -> bool {
    &&& ops == soup + player + hold + meter
    &&& is_bar(
        soup,
        Area { x: 130, y: 50, w: 8, h: 70 },
        game->soup_hp,
        100,
        Color::Red,
        Color::White,
    )
    &&& is_bar(
        player,
        Area { x: 120, y: 50, w: 8, h: 70 },
        game->player_hp,
        100,
        Color::Green,
        Color::White,
    )
    &&& is_bar(
        hold,
        Area { x: 110, y: 50, w: 8, h: 70 },
        game->sweet_spot_progress,
        1500,
        Color::Yellow,
        Color::White,
    )
    &&& is_meter(
        meter,
        game->loadcell_reading as int,
        game->sweet_spot_min as int,
        game->sweet_spot_max as int,
    )
}

/// What is drawn after the soup, if there is one.
pub open spec fn without_soup(ops: Seq<DrawOp>, has_soup: bool) -> Seq<DrawOp> {
    if has_soup {
        ops.skip(1)
    } else {
        ops
    }
}

/// A game that needs its soup drawn begins with the image of the soup's mood at
/// (5, 45): the angry one for an angry soup, the sad one for a sad soup, the neutral
/// one for a neutral soup. The widgets follow, with or without the soup.
pub proof fn law_game_screen(game: AppState, soup_redraw: bool)
    requires
        game is Game,
    ensures
        ({
            let ops = screen_ops(game, soup_redraw);
            &&& soup_redraw ==> ops.len() > 0 && (ops[0] matches DrawOp::Image { sprite, at } && {
                &&& at.x == 5 && at.y == 45
                &&& game->soup_status is Angry <==> sprite is SoupAngry
                &&& game->soup_status is Sad <==> sprite is SoupSad
                &&& game->soup_status is Neutral <==> sprite is SoupNeutral
            })
            &&& exists|
                soup: Seq<DrawOp>,
                player: Seq<DrawOp>,
                hold: Seq<DrawOp>,
                meter: Seq<DrawOp>,
            | #[trigger]
                is_hud(without_soup(ops, soup_redraw), soup, player, hold, meter, game)
        }),
{
    let ops = screen_ops(game, soup_redraw);
    let widgets = without_soup(ops, soup_redraw);
    let soup = hud_bar(SOUP_HP_X, game->soup_hp, MAX_HP, Color::Red);
    let player = hud_bar(PLAYER_HP_X, game->player_hp, MAX_HP, Color::Green);
    let hold = hud_bar(PROGRESS_X, game->sweet_spot_progress, SWEET_SPOT_HOLD_MS, Color::Yellow);
    let meter = meter_ops(game->loadcell_reading, game->sweet_spot_min, game->sweet_spot_max);
    law_bar_shows_its_share(130, 50, 8, 70, game->soup_hp, 100, Color::Red, Color::White);
    law_bar_shows_its_share(120, 50, 8, 70, game->player_hp, 100, Color::Green, Color::White);
    law_bar_shows_its_share(
        110,
        50,
        8,
        70,
        game->sweet_spot_progress,
        1500,
        Color::Yellow,
        Color::White,
    );
    law_meter_shows_zone_and_reading(
        game->loadcell_reading,
        game->sweet_spot_min,
        game->sweet_spot_max,
    );
    assert(widgets =~= soup + player + hold + meter);
    assert(is_hud(widgets, soup, player, hold, meter, game));
}

/// The start screen is the soup with a sign at (5, 45) and the welcome at (70, 80);
/// the rules screen is the rules at (5, 35); the end screen is an angry soup and the
/// won game, or a neutral soup and the lost game.
pub proof fn law_other_screens(state: AppState, soup_redraw: bool)
    requires
        !(state is Game),
    ensures
        ({
            let ops = screen_ops(state, soup_redraw);
            match state {
                AppState::Rules => {
                    &&& ops.len() == 1
                    &&& ops[0] == DrawOp::Text { message: Message::Rules, at: Place { x: 5, y: 35 } }
                },
                _ => {
                    &&& ops.len() == 2
                    &&& ops[0] matches DrawOp::Image { sprite, at } && {
                        &&& at.x == 5 && at.y == 45
                        &&& sprite is SoupSign <==> state is Start
                        &&& sprite is SoupAngry <==> state == (AppState::EndScreen {
                            player_won: true,
                        })
                        &&& sprite is SoupNeutral <==> state == (AppState::EndScreen {
                            player_won: false,
                        })
                    }
                    &&& ops[1] matches DrawOp::Text { message, at } && {
                        &&& at.x == 70 && at.y == 80
                        &&& message is Welcome <==> state is Start
                        &&& message is YouWin <==> state == (AppState::EndScreen {
                            player_won: true,
                        })
                        &&& message is YouLose <==> state == (AppState::EndScreen {
                            player_won: false,
                        })
                    }
                },
            }
        }),
{
}

/// Both states are shown on the same screen.
pub open spec fn share_a_screen(a: AppState, b: AppState) -> bool {
    ||| a is Start && b is Start
    ||| a is Rules && b is Rules
    ||| a is Game && b is Game
    ||| a is EndScreen && b is EndScreen
}

/// The mood of the soup on the screen: that of the game, angry when the player won,
/// neutral when the player lost, and none elsewhere.
pub open spec fn mood(state: AppState) -> Option<SoupStatus> {
    match state {
        AppState::Game { soup_status, .. } => Some(soup_status),
        AppState::EndScreen { player_won: true } => Some(SoupStatus::Angry),
        AppState::EndScreen { player_won: false } => Some(SoupStatus::Neutral),
        _ => None,
    }
}

/// The frame for `state` has begun, and the rest of it in front of the sky is to be
/// drawn, with the soup or without.
pub open spec fn paints(display: DisplayModel, state: AppState, with_soup: bool) -> bool {
    &&& display.frame == (FrameProgress::Paint { remaining: screen_ops(state, with_soup) })
    &&& display.action() == DisplayAction::Draw(screen_ops(state, with_soup)[0])
}

/// The display once the frame for `state` was begun on an idle display, past its
/// sky if it has one.
pub open spec fn begun(display: DisplayModel, state: AppState, random: u32) -> DisplayModel {
    let changed = display.next(DisplayEvent::Changed(state));
    if changed.action() is ReadRandom {
        changed.next(DisplayEvent::Random(random)).next(DisplayEvent::Drawn { ok: true })
    } else {
        changed
    }
}

/// The first state after power-up gets a sky, whatever it is.
pub proof fn law_first_frame_has_a_sky(state: AppState, random: u32)
    ensures
        ({
            let blank = DisplayModel::blank();
            let picked = blank.next(DisplayEvent::Changed(state));
            &&& blank.action() is AwaitChange
            &&& picked.action() is ReadRandom
            &&& paints(begun(blank, state, random), state, true)
        }),
{
}

/// In 33 of 100 cases the sky has a seal. It is drawn at (-10, 0).
pub proof fn law_sky(display: DisplayModel, state: AppState, random: u32)
    requires
        display.frame is Idle,
        display.next(DisplayEvent::Changed(state)).action() is ReadRandom,
    ensures
        ({
            let sky = display.next(DisplayEvent::Changed(state)).next(DisplayEvent::Random(random));
            sky.action() matches DisplayAction::Draw(DrawOp::Image { sprite, at }) && {
                &&& at.x == -10 && at.y == 0
                &&& random % 100 < 33 ==> sprite is SkySeal
                &&& random % 100 >= 33 ==> sprite is Sky
            }
        }),
{
}

/// How two frames in a row relate. A state of another screen gets a new sky and its
/// soup; a state of the same screen gets no sky, and its soup exactly if the mood
/// of the soup changed.
pub proof fn law_next_frame_redraws_what_changed(
    display: DisplayModel,
    a: AppState,
    b: AppState,
    random_a: u32,
    random_b: u32,
)
    requires
        display.frame is Idle,
    ensures
        ({
            let idle = DisplayModel { frame: FrameProgress::Idle, ..begun(display, a, random_a) };
            let changed = idle.next(DisplayEvent::Changed(b));
            &&& changed.action() is ReadRandom <==> !share_a_screen(a, b)
            &&& !share_a_screen(a, b) ==> paints(begun(idle, b, random_b), b, true)
            &&& share_a_screen(a, b) ==> paints(changed, b, mood(a) != mood(b))
        }),
{
}

/// A sky that could not be drawn ends its frame. The screen counts as drawn all the
/// same, and the soup that counts as drawn is still the one from before.
pub proof fn law_failed_sky(
    display: DisplayModel,
    a: AppState,
    b: AppState,
    c: AppState,
    random_a: u32,
    random: u32,
)
    requires
        display.frame is Idle,
        !share_a_screen(a, b),
    ensures
        ({
            let idle = DisplayModel { frame: FrameProgress::Idle, ..begun(display, a, random_a) };
            let failed = idle.next(DisplayEvent::Changed(b)).next(DisplayEvent::Random(random)).next(
                DisplayEvent::Drawn { ok: false },
            );
            let changed = failed.next(DisplayEvent::Changed(c));
            &&& failed.action() is AwaitChange
            &&& changed.action() is ReadRandom <==> !share_a_screen(b, c)
            &&& share_a_screen(b, c) ==> paints(changed, c, mood(c) != mood(a))
        }),
{
}

/// The rest of a frame is drawn one by one: after a success the next thing, after
/// the last success or any failure nothing more until the shared state changes.
pub proof fn law_drawing_goes_on(display: DisplayModel, remaining: Seq<DrawOp>)
    requires
        display.frame == (FrameProgress::Paint { remaining }),
        remaining.len() > 0,
    ensures
        display.action() == DisplayAction::Draw(remaining[0]),
        remaining.len() > 1 ==> display.next(DisplayEvent::Drawn { ok: true }).action()
            == DisplayAction::Draw(remaining[1]),
        remaining.len() == 1 ==> display.next(DisplayEvent::Drawn { ok: true }).action()
            is AwaitChange,
        display.next(DisplayEvent::Drawn { ok: false }).action() is AwaitChange,
{
}

/// An event that answers another action than the one asked for changes nothing.
pub proof fn law_stray_event_changes_nothing(display: DisplayModel, event: DisplayEvent)
    requires
        match display.action() {
            DisplayAction::AwaitChange => !(event is Changed),
            DisplayAction::ReadRandom => !(event is Random),
            DisplayAction::Draw(_) => !(event is Drawn),
        },
    ensures
        display.next(event) == display,
{
}

/// The four screens have numbers of their own, and the soup on show is that of the
/// game, or tells who won.
pub proof fn law_screens_are_told_apart(a: AppState, b: AppState)
    ensures
        screen_number(a) == screen_number(b) <==> share_a_screen(a, b),
        screen_number(a) != DisplayModel::blank().last_variant,
        soup_shown(a) == mood(a),
{
}

} // verus!
