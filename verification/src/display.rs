//! What the screens look like.
use vstd::prelude::*;

verus! {

// --- UI layout (screen is 160x128 after rotation) ---
pub const HUD_BAR_Y: i32 = 50;

pub const HUD_BAR_W: u32 = 8;

pub const HUD_BAR_H: u32 = 70;

pub const SOUP_HP_X: i32 = 130;

pub const PLAYER_HP_X: i32 = 120;

pub const PROGRESS_X: i32 = 110;

pub const FORCE_METER_X: i32 = 145;

pub const FORCE_METER_Y: i32 = 50;

pub const FORCE_METER_W: u32 = 12;

pub const FORCE_METER_H: u32 = 70;

/// The force at the top of the force meter.
pub const FORCE_MAX: i64 = 1_100_000;

/// Rows inside the outline of the force meter.
pub const FORCE_METER_ROWS: i32 = 68;

/// Lowest row inside the outline of the force meter.
pub const FORCE_METER_BOTTOM: i32 = 118;

/// Highest row inside the outline of the force meter.
pub const FORCE_METER_TOP: i32 = 51;

/// Colours in use.
#[derive(Clone, Copy, Debug, PartialEq, Eq, Structural)]
pub enum Color {
    Black,
    White,
    Red,
    Green,
    Yellow,
}

/// Images in use.
#[derive(Clone, Copy, Debug, PartialEq, Eq, Structural)]
pub enum Sprite {
    SoupSad,
    SoupAngry,
    SoupNeutral,
    SoupSign,
    SkySeal,
    Sky,
}

/// Texts in use.
#[derive(Clone, Copy, Debug, PartialEq, Eq, Structural)]
pub enum Message {
    Welcome,
    Rules,
    YouWin,
    YouLose,
}

/// A place on the screen, in pixels from the top left.
#[derive(Clone, Copy, Debug, PartialEq, Eq, Structural)]
pub struct Place {
    pub x: i32,
    pub y: i32,
}

/// An upright rectangle of pixels: its top left corner, width and height.
#[derive(Clone, Copy, Debug, PartialEq, Eq, Structural)]
pub struct Area {
    pub x: i32,
    pub y: i32,
    pub w: u32,
    pub h: u32,
}

/// One thing to draw.
#[derive(Clone, Copy, Debug, PartialEq, Eq, Structural)]
pub enum DrawOp {
    /// An image with its top left corner at a place.
    Image { sprite: Sprite, at: Place },
    /// A filled rectangle.
    Fill { area: Area, color: Color },
    /// An unfilled rectangle with a line of some width.
    Outline { area: Area, color: Color, width: u32 },
    /// Black text.
    Text { message: Message, at: Place },
}

impl Message {
    /// The words.
    pub open spec fn words(self) -> Seq<char> {
        match self {
            Message::Welcome => "Welcome to\nSoup Game!"@,
            Message::Rules =>
                "Rules:\n-Press soup, be in\nthe green zone to\nattack soup\n-Press the buttons\nwhen the LEDs\nlight up to protect\nyourself"@,
            Message::YouWin => "You win!"@,
            Message::YouLose => "You lose!"@,
        }
    }

    /// The words.
    pub fn text(&self) -> (text: &'static str)
        ensures
            text@ == self.words(),
    {
        match self {
            Message::Welcome => "Welcome to\nSoup Game!",
            Message::Rules =>
                "Rules:\n-Press soup, be in\nthe green zone to\nattack soup\n-Press the buttons\nwhen the LEDs\nlight up to protect\nyourself",
            Message::YouWin => "You win!",
            Message::YouLose => "You lose!",
        }
    }
}

/// What is left of `side` inside an outline of one pixel.
pub open spec fn inside(side: u32) -> u32 {
    if side >= 2 {
        (side - 2) as u32
    } else {
        0
    }
}

/// The smaller of two numbers.
pub open spec fn smaller(a: int, b: int) -> int {
    if a < b {
        a
    } else {
        b
    }
}

/// The larger of two numbers.
pub open spec fn larger(a: int, b: int) -> int {
    if a < b {
        b
    } else {
        a
    }
}

/// How many rows of a bar of height `h` are filled: the share `value / max` of
/// the rows inside its outline, rounded down, and all of them from `max` on.
pub open spec fn bar_fill_rows(h: u32, value: u32, max: u32) -> int {
    if max == 0 || h < 2 {
        0
    } else if value >= max {
        h - 2
    } else {
        value * (h - 2) / max as int
    }
}

/// The bar has a fill to draw.
pub open spec fn bar_has_fill(w: u32, h: u32, value: u32, max: u32) -> bool {
    inside(w) > 0 && bar_fill_rows(h, value, max) > 0
}

/// The row at which the fill of a bar begins.
pub open spec fn bar_fill_top(y: i32, h: u32, value: u32, max: u32) -> int {
    y + (h as i32) - 1 - (bar_fill_rows(h, value, max) as u32 as i32)
}

/// A row or column number that an `i32` can hold.
pub open spec fn fits(number: int) -> bool {
    i32::MIN <= number <= i32::MAX
}

/// The fill of the bar, if it has one, lies at coordinates that can be computed.
/// That is so wherever the bar as a whole does.
pub open spec fn bar_fits(x: i32, y: i32, w: u32, h: u32, value: u32, max: u32) -> bool {
    ||| fits(x + 1) && fits(h as int) && fits(y + h)
    ||| !bar_has_fill(w, h, value, max)
    ||| {
        &&& fits(x + 1)
        &&& fits(y + (h as i32))
        &&& fits(y + (h as i32) - 1)
        &&& fits(bar_fill_top(y, h, value, max))
    }
}

/// A bar: a black rectangle, its outline, and a fill from the bottom up.
pub open spec fn bar_ops(
    x: i32,
    y: i32,
    w: u32,
    h: u32,
    value: u32,
    max: u32,
    fill: Color,
    outline: Color,
) -> Seq<DrawOp> {
    let bounds = Area { x, y, w, h };
    let frame = seq![
        DrawOp::Fill { area: bounds, color: Color::Black },
        DrawOp::Outline { area: bounds, color: outline, width: 1 },
    ];
    if bar_has_fill(w, h, value, max) {
        frame.push(
            DrawOp::Fill {
                area: Area {
                    x: (x + 1) as i32,
                    y: bar_fill_top(y, h, value, max) as i32,
                    w: inside(w),
                    h: bar_fill_rows(h, value, max) as u32,
                },
                color: fill,
            },
        )
    } else {
        frame
    }
}

/// The filled rows of a bar lie between none and all rows inside its outline.
pub proof fn lemma_bar_fill_rows_bound(h: u32, value: u32, max: u32)
    ensures
        0 <= bar_fill_rows(h, value, max) <= inside(h),
{
    if max != 0 && h >= 2 && value < max {
        let v = value as int;
        let rows = h - 2;
        let m = max as int;
        assert(0 <= v * rows / m <= rows) by (nonlinear_arith)
            requires
                0 <= v < m,
                0 <= rows,
        ;
    }
}

/// A share of at most one of the rows is at most all of them, and can be computed
/// without overflow.
proof fn lemma_shown_rows(shown: int, rows: int, max: int)
    requires
        0 <= shown <= max <= u32::MAX,
        0 <= rows <= u32::MAX,
        0 < max,
    ensures
        0 <= shown * rows <= u64::MAX,
        0 <= shown * rows / max <= rows,
        shown == max ==> shown * rows / max == rows,
{
    assert(0 <= shown * rows <= 0xffff_ffff * 0xffff_ffff) by (nonlinear_arith)
        requires
            0 <= shown <= 0xffff_ffff,
            0 <= rows <= 0xffff_ffff,
    ;
    assert(0 <= shown * rows / max <= rows) by (nonlinear_arith)
        requires
            0 <= shown <= max,
            0 <= rows,
            0 < max,
    ;
    if shown == max {
        assert(max * rows / max == rows) by (nonlinear_arith)
            requires
                0 < max,
        ;
    }
}

/// A vertical bar (health bar or progress bar) at `(x, y)` with width `w` and
/// height `h`. `value`/`max` determines the bottom-up fill proportion; `fill`
/// and `outline` set the colors.
pub fn draw_bar(
    x: i32,
    y: i32,
    w: u32,
    h: u32,
    value: u32,
    max: u32,
    fill: Color,
    outline: Color,
) -> (ops: Vec<DrawOp>)
    requires
        bar_fits(x, y, w, h, value, max),
    ensures
        ops@ == bar_ops(x, y, w, h, value, max, fill, outline),
{
    let bounds = Area { x, y, w, h };
    let mut ops: Vec<DrawOp> = Vec::new();
    ops.push(DrawOp::Fill { area: bounds, color: Color::Black });
    ops.push(DrawOp::Outline { area: bounds, color: outline, width: 1 });

    let inner_w: u32 = w.saturating_sub(2);
    let inner_h: u32 = h.saturating_sub(2);
    let fill_h: u32 = if max == 0 {
        0
    } else {
        let shown: u32 = if value < max {
            value
        } else {
            max
        };
        proof {
            lemma_shown_rows(shown as int, inner_h as int, max as int);
        }
        (shown as u64 * inner_h as u64 / max as u64) as u32
    };
    proof {
        lemma_bar_fill_rows_bound(h, value, max);
    }
    if inner_w > 0 && fill_h > 0 {
        let fill_y: i32 = y + h as i32 - 1 - fill_h as i32;
        ops.push(
            DrawOp::Fill { area: Area { x: x + 1, y: fill_y, w: inner_w, h: fill_h }, color: fill },
        );
    }
    ops
}

/// The row of the force meter that stands for a force: the bottom row for none,
/// the top row for `FORCE_MAX`, and in proportion between.
pub open spec fn meter_row(force: int) -> int {
    FORCE_METER_BOTTOM - larger(0, smaller(force, FORCE_MAX as int)) * (FORCE_METER_ROWS - 1)
        / FORCE_MAX as int
}

/// The force meter: a black track with its outline, a green band for the target
/// zone, and a red line for the reading.
pub open spec fn meter_ops(reading: i32, zone_min: i32, zone_max: i32) -> Seq<DrawOp> {
    let track = Area {
        x: FORCE_METER_X,
        y: FORCE_METER_Y,
        w: FORCE_METER_W,
        h: FORCE_METER_H,
    };
    let first = smaller(meter_row(zone_min as int), meter_row(zone_max as int));
    let last = larger(meter_row(zone_min as int), meter_row(zone_max as int));
    seq![
        DrawOp::Fill { area: track, color: Color::Black },
        DrawOp::Outline { area: track, color: Color::White, width: 1 },
        DrawOp::Fill {
            area: Area {
                x: (FORCE_METER_X + 1) as i32,
                y: first as i32,
                w: (FORCE_METER_W - 2) as u32,
                h: (last - first + 1) as u32,
            },
            color: Color::Green,
        },
        DrawOp::Fill {
            area: Area {
                x: FORCE_METER_X,
                y: meter_row(reading as int) as i32,
                w: FORCE_METER_W,
                h: 2,
            },
            color: Color::Red,
        },
    ]
}

/// The row of the force meter that stands for a force.
fn value_to_y(value: i32) -> (row: i32)
    ensures
        row == meter_row(value as int),
        FORCE_METER_TOP <= row <= FORCE_METER_BOTTOM,
{
    let clamped: i64 = if value < 0 {
        0
    } else if value as i64 > FORCE_MAX {
        FORCE_MAX
    } else {
        value as i64
    };
    let offset: i32 = (clamped * (FORCE_METER_ROWS as i64 - 1) / FORCE_MAX) as i32;
    FORCE_METER_BOTTOM - offset
}

/// The sweet-spot force meter: a vertical track with the target zone (green
/// band) and the current force reading (red horizontal marker line).
pub fn draw_force_meter(reading: i32, zone_min: i32, zone_max: i32) -> (ops: Vec<DrawOp>)
    ensures
        ops@ == meter_ops(reading, zone_min, zone_max),
{
    let track = Area {
        x: FORCE_METER_X,
        y: FORCE_METER_Y,
        w: FORCE_METER_W,
        h: FORCE_METER_H,
    };
    let mut ops: Vec<DrawOp> = Vec::new();
    // Filling the track clears the previous marker without redrawing the whole
    // screen.
    ops.push(DrawOp::Fill { area: track, color: Color::Black });
    ops.push(DrawOp::Outline { area: track, color: Color::White, width: 1 });

    let zone_y_low: i32 = value_to_y(zone_min);
    let zone_y_high: i32 = value_to_y(zone_max);
    let (first, last): (i32, i32) = if zone_y_high < zone_y_low {
        (zone_y_high, zone_y_low)
    } else {
        (zone_y_low, zone_y_high)
    };
    ops.push(
        DrawOp::Fill {
            area: Area {
                x: FORCE_METER_X + 1,
                y: first,
                w: FORCE_METER_W - 2,
                h: (last - first + 1) as u32,
            },
            color: Color::Green,
        },
    );

    ops.push(
        DrawOp::Fill {
            area: Area { x: FORCE_METER_X, y: value_to_y(reading), w: FORCE_METER_W, h: 2 },
            color: Color::Red,
        },
    );
    ops
}

} // verus!
