//! The task that keeps the display in step with the shared state.
use vstd::prelude::*;
use crate::display::{
    bar_ops, draw_bar, draw_force_meter, meter_ops, Color, DrawOp, Message, Place, Sprite,
    HUD_BAR_H, HUD_BAR_W, HUD_BAR_Y, PLAYER_HP_X, PROGRESS_X, SOUP_HP_X,
};
use crate::state::{AppState, SoupStatus, MAX_HP, SWEET_SPOT_HOLD_MS};

verus! {

/// Where the soup is drawn.
pub const SOUP_X: i32 = 5;

pub const SOUP_Y: i32 = 45;

/// Where the short texts are drawn.
pub const TEXT_X: i32 = 70;

pub const TEXT_Y: i32 = 80;

/// Where the rules are drawn.
pub const RULES_X: i32 = 5;

pub const RULES_Y: i32 = 35;

/// Where the sky is drawn.
pub const SKY_X: i32 = -10;

pub const SKY_Y: i32 = 0;

/// In this many of a hundred cases there is a seal in the sky.
pub const SEAL_PERCENT: u32 = 33;

/// Stands for no screen at all.
pub const NO_SCREEN: u8 = 255;

/// Number of the screen that shows a state.
pub open spec fn screen_number(state: AppState) -> u8 {
    match state {
        AppState::Start => 0,
        AppState::Rules => 1,
        AppState::Game { .. } => 2,
        AppState::EndScreen { .. } => 3,
    }
}

/// The mood of the soup on the screen that shows a state.
pub open spec fn soup_shown(state: AppState) -> Option<SoupStatus> {
    match state {
        AppState::Game { soup_status, .. } => Some(soup_status),
        AppState::EndScreen { player_won } => Some(
            if player_won {
                SoupStatus::Angry
            } else {
                SoupStatus::Neutral
            },
        ),
        _ => None,
    }
}

/// The image of a mood.
pub open spec fn soup_sprite(status: SoupStatus) -> Sprite {
    match status {
        SoupStatus::Angry => Sprite::SoupAngry,
        SoupStatus::Sad => Sprite::SoupSad,
        SoupStatus::Neutral => Sprite::SoupNeutral,
    }
}

/// An image of the soup in its place.
pub open spec fn soup_op(sprite: Sprite) -> DrawOp {
    DrawOp::Image { sprite, at: Place { x: SOUP_X, y: SOUP_Y } }
}

/// A short text in its place.
pub open spec fn text_op(message: Message) -> DrawOp {
    DrawOp::Text { message, at: Place { x: TEXT_X, y: TEXT_Y } }
}

/// A bar of the game screen: how much of `max` is `value`.
pub open spec fn hud_bar(x: i32, value: u32, max: u32, color: Color) -> Seq<DrawOp> {
    bar_ops(x, HUD_BAR_Y, HUD_BAR_W, HUD_BAR_H, value, max, color, Color::White)
}

/// The widgets of the game screen: the soup's hit points, the player's, the
/// progress of the hold, and the force meter.
pub open spec fn hud_ops(
    soup_hp: u32,
    player_hp: u32,
    progress: u32,
    reading: i32,
    zone_min: i32,
    zone_max: i32,
) -> Seq<DrawOp> {
    hud_bar(SOUP_HP_X, soup_hp, MAX_HP, Color::Red) + hud_bar(
        PLAYER_HP_X,
        player_hp,
        MAX_HP,
        Color::Green,
    ) + hud_bar(PROGRESS_X, progress, SWEET_SPOT_HOLD_MS, Color::Yellow) + meter_ops(
        reading,
        zone_min,
        zone_max,
    )
}

/// Everything in front of the sky on the screen that shows a state. Static game
/// art is drawn only when the soup has changed.
pub open spec fn screen_ops(state: AppState, soup_redraw: bool) -> Seq<DrawOp> {
    match state {
        AppState::Start => seq![soup_op(Sprite::SoupSign), text_op(Message::Welcome)],
        AppState::Rules => seq![
            DrawOp::Text { message: Message::Rules, at: Place { x: RULES_X, y: RULES_Y } },
        ],
        AppState::Game {
            soup_hp,
            player_hp,
            soup_status,
            sweet_spot_min,
            sweet_spot_max,
            sweet_spot_progress,
            loadcell_reading,
        } => {
            let hud = hud_ops(
                soup_hp,
                player_hp,
                sweet_spot_progress,
                loadcell_reading,
                sweet_spot_min,
                sweet_spot_max,
            );
            if soup_redraw {
                seq![soup_op(soup_sprite(soup_status))] + hud
            } else {
                hud
            }
        },
        AppState::EndScreen { player_won } => if player_won {
            seq![soup_op(Sprite::SoupAngry), text_op(Message::YouWin)]
        } else {
            seq![soup_op(Sprite::SoupNeutral), text_op(Message::YouLose)]
        },
    }
}

/// The sky, with or without a seal.
pub open spec fn sky_op(seal: bool) -> DrawOp {
    DrawOp::Image {
        sprite: if seal {
            Sprite::SkySeal
        } else {
            Sprite::Sky
        },
        at: Place { x: SKY_X, y: SKY_Y },
    }
}

/// A random number puts a seal in the sky.
pub open spec fn has_seal(random: u32) -> bool {
    random % 100 < SEAL_PERCENT
}

/// What the task wants done next.
#[derive(Clone, Copy, Debug, PartialEq, Eq, Structural)]
pub enum DisplayAction {
    /// Wait for the shared state to change.
    AwaitChange,
    /// Draw a random number.
    ReadRandom,
    /// Draw something.
    Draw(DrawOp),
}

/// What came of an action.
#[derive(Clone, Copy, Debug, PartialEq, Eq, Structural)]
pub enum DisplayEvent {
    /// The shared state changed to this.
    Changed(AppState),
    /// The random number.
    Random(u32),
    /// It was drawn, or drawing it failed.
    Drawn { ok: bool },
}

/// How far a frame has come.
pub enum FrameProgress {
    /// No frame is being drawn.
    Idle,
    /// A new screen: which sky?
    PickSky { state: AppState, soup_redraw: bool },
    /// A new screen: its sky is being drawn.
    DrawSky { state: AppState, soup_redraw: bool, seal: bool },
    /// What is still to draw, the first of it being drawn.
    Paint { remaining: Seq<DrawOp> },
}

/// The display as a value: what is on it, and the frame being drawn.
pub struct DisplayModel {
    /// Number of the screen drawn last.
    pub last_variant: u8,
    /// The mood of the soup drawn last.
    pub last_soup_status: Option<SoupStatus>,
    /// The frame being drawn.
    pub frame: FrameProgress,
}

impl DisplayModel {
    /// A display on which nothing was drawn yet.
    pub open spec fn blank() -> DisplayModel {
        DisplayModel {
            last_variant: NO_SCREEN,
            last_soup_status: None,
            frame: FrameProgress::Idle,
        }
    }

    /// Something is left to draw while a frame is painted.
    pub open spec fn wf(self) -> bool {
        self.frame matches FrameProgress::Paint { remaining } ==> remaining.len() > 0
    }

    /// What the task wants done.
    pub open spec fn action(self) -> DisplayAction {
        match self.frame {
            FrameProgress::Idle => DisplayAction::AwaitChange,
            FrameProgress::PickSky { .. } => DisplayAction::ReadRandom,
            FrameProgress::DrawSky { seal, .. } => DisplayAction::Draw(sky_op(seal)),
            FrameProgress::Paint { remaining } => DisplayAction::Draw(remaining[0]),
        }
    }

    /// The state needs another screen than the one drawn last.
    pub open spec fn needs_full_redraw(self, state: AppState) -> bool {
        screen_number(state) != self.last_variant
    }

    /// The state shows another soup than the one drawn last, or a new screen.
    pub open spec fn needs_soup_redraw(self, state: AppState) -> bool {
        self.needs_full_redraw(state) || soup_shown(state) != self.last_soup_status
    }

    /// The display when what is in front of the sky begins to be drawn.
    pub open spec fn painting(self, state: AppState, soup_redraw: bool) -> DisplayModel {
        DisplayModel {
            last_soup_status: soup_shown(state),
            frame: FrameProgress::Paint { remaining: screen_ops(state, soup_redraw) },
            ..self
        }
    }

    /// The display without a frame being drawn.
    pub open spec fn idle(self) -> DisplayModel {
        DisplayModel { frame: FrameProgress::Idle, ..self }
    }

    /// The display once `event` came of the task's action. An event that answers
    /// another action changes nothing. A failure to draw ends the frame.
    pub open spec fn next(self, event: DisplayEvent) -> DisplayModel {
        match (self.frame, event) {
            (FrameProgress::Idle, DisplayEvent::Changed(state)) => {
                let soup_redraw = self.needs_soup_redraw(state);
                if self.needs_full_redraw(state) {
                    DisplayModel {
                        last_variant: screen_number(state),
                        frame: FrameProgress::PickSky { state, soup_redraw },
                        ..self
                    }
                } else {
                    self.painting(state, soup_redraw)
                }
            },
            (FrameProgress::PickSky { state, soup_redraw }, DisplayEvent::Random(random)) =>
                DisplayModel {
                    frame: FrameProgress::DrawSky { state, soup_redraw, seal: has_seal(random) },
                    ..self
                },
            (FrameProgress::DrawSky { state, soup_redraw, .. }, DisplayEvent::Drawn { ok }) => if ok {
                self.painting(state, soup_redraw)
            } else {
                self.idle()
            },
            (FrameProgress::Paint { remaining }, DisplayEvent::Drawn { ok }) => if ok
                && remaining.len() > 1 {
                DisplayModel {
                    frame: FrameProgress::Paint { remaining: remaining.skip(1) },
                    ..self
                }
            } else {
                self.idle()
            },
            _ => self,
        }
    }

    /// The display after all of `events`, first to last.
    pub open spec fn after(self, events: Seq<DisplayEvent>) -> DisplayModel
        decreases events.len(),
    {
        if events.len() == 0 {
            self
        } else {
            self.after(events.drop_last()).next(events.last())
        }
    }
}

/// How far a frame has come, without what is left to draw.
#[derive(Clone, Copy, Debug, PartialEq, Eq, Structural)]
enum Stage {
    Idle,
    PickSky { state: AppState, soup_redraw: bool },
    DrawSky { state: AppState, soup_redraw: bool, seal: bool },
    Paint,
}

/// Renders the current `AppState` to the display, and redraws whenever it
/// changes.
pub struct DisplayTask {
    last_variant: u8,
    last_soup_status: Option<SoupStatus>,
    stage: Stage,
    ops: Vec<DrawOp>,
    drawn: usize,
}

impl View for DisplayTask {
    type V = DisplayModel;

    closed spec fn view(&self) -> DisplayModel {
        DisplayModel {
            last_variant: self.last_variant,
            last_soup_status: self.last_soup_status,
            frame: match self.stage {
                Stage::Idle => FrameProgress::Idle,
                Stage::PickSky { state, soup_redraw } => FrameProgress::PickSky {
                    state,
                    soup_redraw,
                },
                Stage::DrawSky { state, soup_redraw, seal } => FrameProgress::DrawSky {
                    state,
                    soup_redraw,
                    seal,
                },
                Stage::Paint => FrameProgress::Paint {
                    remaining: self.ops@.skip(self.drawn as int),
                },
            },
        }
    }
}

/// Number of the screen that shows a state.
fn variant(state: &AppState) -> (number: u8)
    ensures
        number == screen_number(*state),
{
    match state {
        AppState::Start => 0,
        AppState::Rules => 1,
        AppState::Game { .. } => 2,
        AppState::EndScreen { .. } => 3,
    }
}

/// The mood of the soup on the screen that shows a state.
fn soup_status_shown(state: &AppState) -> (status: Option<SoupStatus>)
    ensures
        status == soup_shown(*state),
{
    match *state {
        AppState::Game { soup_status, .. } => Some(soup_status),
        AppState::EndScreen { player_won } => Some(
            if player_won {
                SoupStatus::Angry
            } else {
                SoupStatus::Neutral
            },
        ),
        _ => None,
    }
}

/// An image of the soup in its place.
fn draw_soup(sprite: Sprite) -> (op: DrawOp)
    ensures
        op == soup_op(sprite),
{
    DrawOp::Image { sprite, at: Place { x: SOUP_X, y: SOUP_Y } }
}

/// A short text in its place.
fn draw_text(message: Message) -> (op: DrawOp)
    ensures
        op == text_op(message),
{
    DrawOp::Text { message, at: Place { x: TEXT_X, y: TEXT_Y } }
}

/// A bar of the game screen.
fn draw_hud_bar(x: i32, value: u32, max: u32, color: Color) -> (ops: Vec<DrawOp>)
    requires
        0 <= x <= 200,
    ensures
        ops@ == hud_bar(x, value, max, color),
{
    draw_bar(x, HUD_BAR_Y, HUD_BAR_W, HUD_BAR_H, value, max, color, Color::White)
}

/// Everything in front of the sky on the screen that shows a state.
pub fn draw_screen(state: &AppState, soup_redraw: bool) -> (ops: Vec<DrawOp>)
    ensures
        ops@ == screen_ops(*state, soup_redraw),
        ops@.len() > 0,
{
    let mut ops: Vec<DrawOp> = Vec::new();
    match *state {
        AppState::Start => {
            ops.push(draw_soup(Sprite::SoupSign));
            ops.push(draw_text(Message::Welcome));
        },
        AppState::Rules => {
            ops.push(
                DrawOp::Text { message: Message::Rules, at: Place { x: RULES_X, y: RULES_Y } },
            );
        },
        AppState::Game {
            soup_hp,
            player_hp,
            soup_status,
            sweet_spot_min,
            sweet_spot_max,
            sweet_spot_progress,
            loadcell_reading,
        } => {
            if soup_redraw {
                let sprite = match soup_status {
                    SoupStatus::Angry => Sprite::SoupAngry,
                    SoupStatus::Sad => Sprite::SoupSad,
                    SoupStatus::Neutral => Sprite::SoupNeutral,
                };
                ops.push(draw_soup(sprite));
            }
            let mut soup_bar = draw_hud_bar(SOUP_HP_X, soup_hp, MAX_HP, Color::Red);
            let mut player_bar = draw_hud_bar(PLAYER_HP_X, player_hp, MAX_HP, Color::Green);
            let mut progress_bar = draw_hud_bar(
                PROGRESS_X,
                sweet_spot_progress,
                SWEET_SPOT_HOLD_MS,
                Color::Yellow,
            );
            let mut meter = draw_force_meter(loadcell_reading, sweet_spot_min, sweet_spot_max);
            ops.append(&mut soup_bar);
            ops.append(&mut player_bar);
            ops.append(&mut progress_bar);
            ops.append(&mut meter);
            assert(ops@ =~= screen_ops(*state, soup_redraw));
        },
        AppState::EndScreen { player_won } => {
            if player_won {
                ops.push(draw_soup(Sprite::SoupAngry));
                ops.push(draw_text(Message::YouWin));
            } else {
                ops.push(draw_soup(Sprite::SoupNeutral));
                ops.push(draw_text(Message::YouLose));
            }
        },
    }
    ops
}

impl DisplayTask {
    /// What is drawn next exists.
    pub closed spec fn wf(&self) -> bool {
        self.stage is Paint ==> self.drawn < self.ops@.len()
    }

    /// The task at power-up.
    pub fn new() -> (task: Self)
        ensures
            task@ == DisplayModel::blank(),
            task.wf(),
    {
        DisplayTask {
            last_variant: NO_SCREEN,
            last_soup_status: None,
            stage: Stage::Idle,
            ops: Vec::new(),
            drawn: 0,
        }
    }

    /// What to do next.
    pub fn action(&self) -> (action: DisplayAction)
        requires
            self.wf(),
        ensures
            action == self@.action(),
    {
        match self.stage {
            Stage::Idle => DisplayAction::AwaitChange,
            Stage::PickSky { .. } => DisplayAction::ReadRandom,
            Stage::DrawSky { seal, .. } => DisplayAction::Draw(
                DrawOp::Image {
                    sprite: if seal {
                        Sprite::SkySeal
                    } else {
                        Sprite::Sky
                    },
                    at: Place { x: SKY_X, y: SKY_Y },
                },
            ),
            Stage::Paint => DisplayAction::Draw(self.ops[self.drawn]),
        }
    }

    /// Begins to draw what is in front of the sky.
    fn paint(&mut self, state: &AppState, soup_redraw: bool)
        ensures
            final(self)@ == old(self)@.painting(*state, soup_redraw),
            final(self).wf(),
    {
        self.last_soup_status = soup_status_shown(state);
        self.ops = draw_screen(state, soup_redraw);
        self.drawn = 0;
        self.stage = Stage::Paint;
        assert(self.ops@.skip(0) =~= self.ops@);
    }

    /// Takes in what came of the action.
    pub fn advance(&mut self, event: DisplayEvent)
        requires
            old(self).wf(),
        ensures
            final(self)@ == old(self)@.next(event),
            final(self).wf(),
    {
        match (self.stage, event) {
            (Stage::Idle, DisplayEvent::Changed(state)) => {
                let current_variant = variant(&state);
                let current_soup_status = soup_status_shown(&state);
                let full_redraw = current_variant != self.last_variant;
                let soup_redraw = full_redraw || current_soup_status != self.last_soup_status;
                if full_redraw {
                    self.last_variant = current_variant;
                    self.stage = Stage::PickSky { state, soup_redraw };
                } else {
                    self.paint(&state, soup_redraw);
                }
            },
            (Stage::PickSky { state, soup_redraw }, DisplayEvent::Random(random)) => {
                let seal = random % 100 < SEAL_PERCENT;
                self.stage = Stage::DrawSky { state, soup_redraw, seal };
            },
            (Stage::DrawSky { state, soup_redraw, .. }, DisplayEvent::Drawn { ok }) => {
                if ok {
                    self.paint(&state, soup_redraw);
                } else {
                    self.stage = Stage::Idle;
                }
            },
            (Stage::Paint, DisplayEvent::Drawn { ok }) => {
                let total: usize = self.ops.len();
                if ok && self.drawn + 1 < total {
                    self.drawn = self.drawn + 1;
                    assert(self.ops@.skip(self.drawn as int) =~= self.ops@.skip(
                        self.drawn - 1,
                    ).skip(1));
                } else {
                    self.stage = Stage::Idle;
                }
            },
            _ => {},
        }
    }
}

} // verus!
