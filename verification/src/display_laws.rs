//! What holds of the screens as a whole.
use vstd::prelude::*;
use crate::display::{
    bar_fill_rows, bar_fits, bar_has_fill, bar_ops, inside, lemma_bar_fill_rows_bound,
    meter_ops, meter_row, Area, Color, DrawOp, Message, FORCE_MAX, FORCE_METER_BOTTOM,
    FORCE_METER_H, FORCE_METER_TOP, FORCE_METER_W, FORCE_METER_X, FORCE_METER_Y, HUD_BAR_H,
    PLAYER_HP_X, PROGRESS_X, SOUP_HP_X,
};
use crate::display_task::{
    hud_bar, screen_number, screen_ops, sky_op, soup_shown, DisplayAction, DisplayEvent, DisplayModel,
    FrameProgress,
};
use crate::state::{AppState, MAX_HP, SWEET_SPOT_HOLD_MS};

verus! {

/// `inner` lies within `outer`.
pub open spec fn within(inner: Area, outer: Area) -> bool {
    &&& outer.x <= inner.x
    &&& outer.y <= inner.y
    &&& inner.x + inner.w <= outer.x + outer.w
    &&& inner.y + inner.h <= outer.y + outer.h
}

/// A larger share never fills fewer rows of a bar.
pub proof fn law_bar_fill_is_monotone(h: u32, less: u32, more: u32, max: u32)
    requires
        less <= more,
    ensures
        bar_fill_rows(h, less, max) <= bar_fill_rows(h, more, max),
{
    lemma_bar_fill_rows_bound(h, less, max);
    if max != 0 && h >= 2 && more < max {
        let a = less as int;
        let b = more as int;
        let rows = h - 2;
        assert(a * rows <= b * rows) by (nonlinear_arith)
            requires
                a <= b,
                0 <= rows,
        ;
        vstd::arithmetic::div_mod::lemma_div_is_ordered(a * rows, b * rows, max as int);
    }
}

/// A bar is empty for nothing, full from `max` on and not before, and never
/// over-full.
pub proof fn law_bar_fill_ends(h: u32, value: u32, max: u32)
    ensures
        0 <= bar_fill_rows(h, value, max) <= inside(h),
        value == 0 || max == 0 ==> bar_fill_rows(h, value, max) == 0,
        value >= max > 0 ==> bar_fill_rows(h, value, max) == inside(h),
        value < max && inside(h) > 0 ==> bar_fill_rows(h, value, max) < inside(h),
{
    lemma_bar_fill_rows_bound(h, value, max);
    if max != 0 && h >= 2 && value < max {
        let v = value as int;
        let rows = h - 2;
        let m = max as int;
        if value == 0 {
            assert(0 * rows == 0);
        }
        if rows > 0 {
            assert(v * rows / m < rows) by (nonlinear_arith)
                requires
                    0 <= v < m,
                    0 < rows,
            ;
        }
    }
}

/// The fill of a bar lies inside its outline and stands on the bottom of it.
pub proof fn law_bar_fill_stands_in_its_outline(
    x: i32,
    y: i32,
    w: u32,
    h: u32,
    value: u32,
    max: u32,
    fill: Color,
    outline: Color,
)
    requires
        bar_fits(x, y, w, h, value, max),
        bar_has_fill(w, h, value, max),
        h <= i32::MAX,
    ensures
        ({
            let ops = bar_ops(x, y, w, h, value, max, fill, outline);
            &&& ops.len() == 3
            &&& ops[2] matches DrawOp::Fill { area, color } && {
                &&& color == fill
                &&& area.x == x + 1
                &&& area.w == w - 2
                &&& area.y >= y + 1
                &&& area.y + area.h == y + h - 1
            }
        }),
{
    lemma_bar_fill_rows_bound(h, value, max);
}

/// Every force has a row inside the outline of the meter, and more force never
/// has a lower row.
pub proof fn law_meter_rows(less: int, more: int)
    requires
        less <= more,
    ensures
        FORCE_METER_TOP <= meter_row(more) <= meter_row(less) <= FORCE_METER_BOTTOM,
        more <= 0 ==> meter_row(more) == FORCE_METER_BOTTOM,
        less >= FORCE_MAX ==> meter_row(less) == FORCE_METER_TOP,
{
}

/// Everything on the force meter stays on its track.
pub proof fn law_meter_stays_on_its_track(reading: i32, zone_min: i32, zone_max: i32)
    ensures
        ({
            let track = Area {
                x: FORCE_METER_X,
                y: FORCE_METER_Y,
                w: FORCE_METER_W,
                h: FORCE_METER_H,
            };
            let ops = meter_ops(reading, zone_min, zone_max);
            forall|i: int|
                0 <= i < ops.len() ==> match #[trigger] ops[i] {
                    DrawOp::Fill { area, .. } => within(area, track),
                    DrawOp::Outline { area, .. } => within(area, track),
                    _ => false,
                }
        }),
{
}

/// A reading in the zone has its marker on the green band.
pub proof fn law_marker_is_on_the_band(reading: i32, zone_min: i32, zone_max: i32)
    requires
        zone_min <= reading <= zone_max,
    ensures
        ({
            let ops = meter_ops(reading, zone_min, zone_max);
            ops[2] matches DrawOp::Fill { area: band, .. } && {
                ops[3] matches DrawOp::Fill { area: marker, .. } && {
                    &&& band.y <= marker.y
                    &&& marker.y < band.y + band.h
                }
            }
        }),
{
    law_meter_rows(zone_min as int, reading as int);
    law_meter_rows(reading as int, zone_max as int);
}

/// The whole screen.
pub open spec fn whole_screen() -> Area {
    Area { x: 0, y: 0, w: 160, h: 128 }
}

/// The rectangle that is drawn, if any, lies on the screen.
pub open spec fn is_on_screen(op: DrawOp) -> bool {
    match op {
        DrawOp::Fill { area, .. } => within(area, whole_screen()),
        DrawOp::Outline { area, .. } => within(area, whole_screen()),
        _ => true,
    }
}

/// Whatever the state holds, no widget of a screen leaves the display.
pub proof fn law_widgets_stay_on_screen(state: AppState, soup_redraw: bool)
    ensures
        forall|i: int|
            0 <= i < screen_ops(state, soup_redraw).len() ==> is_on_screen(
                #[trigger] screen_ops(state, soup_redraw)[i],
            ),
{
    if let AppState::Game {
        soup_hp,
        player_hp,
        sweet_spot_min,
        sweet_spot_max,
        sweet_spot_progress,
        loadcell_reading,
        ..
    } = state {
        lemma_hud_bar_on_screen(SOUP_HP_X, soup_hp, MAX_HP, Color::Red);
        lemma_hud_bar_on_screen(PLAYER_HP_X, player_hp, MAX_HP, Color::Green);
        lemma_hud_bar_on_screen(
            PROGRESS_X,
            sweet_spot_progress,
            SWEET_SPOT_HOLD_MS,
            Color::Yellow,
        );
        law_meter_stays_on_its_track(loadcell_reading, sweet_spot_min, sweet_spot_max);
        let meter = meter_ops(loadcell_reading, sweet_spot_min, sweet_spot_max);
        assert forall|i: int| 0 <= i < meter.len() implies is_on_screen(#[trigger] meter[i]) by {
        }
    }
}

proof fn lemma_hud_bar_on_screen(x: i32, value: u32, max: u32, color: Color)
    requires
        0 <= x <= 150,
    ensures
        forall|i: int|
            0 <= i < hud_bar(x, value, max, color).len() ==> is_on_screen(
                #[trigger] hud_bar(x, value, max, color)[i],
            ),
{
    lemma_bar_fill_rows_bound(HUD_BAR_H, value, max);
}

/// From power-up on, whatever happens, the display stays well-formed.
pub proof fn law_display_stays_well_formed(events: Seq<DisplayEvent>)
    ensures
        DisplayModel::blank().after(events).wf(),
    decreases events.len(),
{
    if events.len() > 0 {
        law_display_stays_well_formed(events.drop_last());
    }
}

/// A state of another screen is drawn from the sky up, and counts as drawn from
/// then on.
pub proof fn law_new_screen_starts_with_the_sky(
    display: DisplayModel,
    state: AppState,
    random: u32,
)
    requires
        display.frame is Idle,
        screen_number(state) != display.last_variant,
    ensures
        ({
            let picked = display.next(DisplayEvent::Changed(state));
            let sky = picked.next(DisplayEvent::Random(random));
            let painted = sky.next(DisplayEvent::Drawn { ok: true });
            &&& picked.action() == DisplayAction::ReadRandom
            &&& sky.action() == DisplayAction::Draw(sky_op(random % 100 < 33))
            &&& painted.frame == FrameProgress::Paint { remaining: screen_ops(state, true) }
            &&& painted.last_variant == screen_number(state)
            &&& painted.last_soup_status == soup_shown(state)
        }),
{
}

/// While the screen and the soup stay the same, a game redraws its widgets and no
/// image, so that live readings do not make the screen flicker.
pub proof fn law_live_updates_draw_no_image(display: DisplayModel, state: AppState)
    requires
        display.frame is Idle,
        state is Game,
        screen_number(state) == display.last_variant,
        soup_shown(state) == display.last_soup_status,
    ensures
        display.next(DisplayEvent::Changed(state)).frame matches FrameProgress::Paint { remaining }
            && forall|i: int| 0 <= i < remaining.len() ==> !(#[trigger] remaining[i] is Image),
{
}

/// What is drawn after `count` successes is exactly the rest of the frame, in order.
pub proof fn law_frame_is_drawn_in_order(
    display: DisplayModel,
    ops: Seq<DrawOp>,
    events: Seq<DisplayEvent>,
)
    requires
        display.frame == (FrameProgress::Paint { remaining: ops }),
        events.len() < ops.len(),
        forall|i: int|
            0 <= i < events.len() ==> #[trigger] events[i] == (DisplayEvent::Drawn { ok: true }),
    ensures
        display.after(events).action() == DisplayAction::Draw(ops[events.len() as int]),
        display.after(events).frame == (FrameProgress::Paint {
            remaining: ops.skip(events.len() as int),
        }),
        events.len() + 1 == ops.len() ==> display.after(events).next(
            DisplayEvent::Drawn { ok: true },
        ).frame is Idle,
    decreases events.len(),
{
    if events.len() == 0 {
        assert(ops.skip(0) =~= ops);
    } else {
        let before = events.drop_last();
        assert forall|i: int| 0 <= i < before.len() implies #[trigger] before[i] == (
        DisplayEvent::Drawn { ok: true }) by {
            assert(before[i] == events[i]);
        }
        law_frame_is_drawn_in_order(display, ops, before);
        assert(events[events.len() - 1] == (DisplayEvent::Drawn { ok: true }));
        assert(ops.skip(before.len() as int).skip(1) =~= ops.skip(events.len() as int));
    }
}

/// A failure to draw ends the frame, and the screen still counts as the one drawn
/// last. After a failed sky the soup of the earlier screen does, too.
pub proof fn law_failed_draw_ends_the_frame(display: DisplayModel)
    requires
        display.action() is Draw,
    ensures
        ({
            let after = display.next(DisplayEvent::Drawn { ok: false });
            &&& after.frame is Idle
            &&& after.last_variant == display.last_variant
            &&& after.last_soup_status == display.last_soup_status
        }),
{
}

/// The end screen says who won.
pub proof fn law_end_screen_says_who_won(player_won: bool, soup_redraw: bool)
    ensures
        ({
            let ops = screen_ops(AppState::EndScreen { player_won }, soup_redraw);
            &&& ops.len() == 2
            &&& ops[1] matches DrawOp::Text { message, .. } && message == if player_won {
                Message::YouWin
            } else {
                Message::YouLose
            }
        }),
{
}

} // verus!
