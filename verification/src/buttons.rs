//! The reaction mini-game on the two lit buttons.
use vstd::prelude::*;

verus! {

/// Window in which the player must press the lit button to avoid damage.
pub const REACTION_WINDOW_MS: u64 = 1500;

/// Once the window expires, damage is applied every `DAMAGE_TICK_MS` and ramps
/// up slowly while the player keeps missing the matching button.
pub const DAMAGE_TICK_MS: u64 = 750;

/// Small penalty for pressing a button while that button's LED is off.
pub const OFF_LIGHT_DAMAGE: u32 = 1;

/// Number of LEDs, and of buttons.
pub const LED_COUNT: usize = 2;

/// Pause between two looks at the buttons.
pub const BUTTON_POLL_MS: u64 = 10;

/// Time after which a press is looked at again before it counts.
pub const BUTTON_DEBOUNCE_MS: u64 = 30;

/// Time between two log lines while a press is awaited.
pub const BUTTON_WAIT_LOG_MS: u64 = 500;

/// How long each pattern of the LED self-test stays on.
pub const LED_SELF_TEST_MS: u64 = 1000;

/// Dark pause in the middle of the LED self-test.
pub const LED_SELF_TEST_PAUSE_MS: u64 = 200;

/// How long each LED stays on while the LEDs blink before a game.
pub const PRE_GAME_LED_BLINK_MS: u64 = 500;

/// Shortest time between a press and the next LED.
pub const GAP_MIN_MS: u32 = 300;

/// The time between a press and the next LED varies by less than this.
pub const GAP_SPREAD_MS: u32 = 700;

/// Latest time since an LED was lit that the task can take in.
pub const MAX_ELAPSED_MS: u64 = u64::MAX - DAMAGE_TICK_MS;

/// Level of a digital pin.
#[derive(Clone, Copy, Debug, PartialEq, Eq, Structural)]
pub enum Level {
    Low,
    High,
}

/// Two normal active-high LEDs: `High` turns an LED on and `Low` turns it off.
#[derive(Clone, Copy, Debug, PartialEq, Eq, Structural)]
pub struct ButtonLeds {
    pub led0: Level,
    pub led1: Level,
}

impl ButtonLeds {
    /// Both LEDs off.
    pub open spec fn off() -> ButtonLeds {
        ButtonLeds { led0: Level::Low, led1: Level::Low }
    }

    /// Both LEDs on.
    pub open spec fn on() -> ButtonLeds {
        ButtonLeds { led0: Level::High, led1: Level::High }
    }

    /// Just one LED on: the first for index 0, the second for any other.
    pub open spec fn only(idx: usize) -> ButtonLeds {
        if idx == 0 {
            ButtonLeds { led0: Level::High, led1: Level::Low }
        } else {
            ButtonLeds { led0: Level::Low, led1: Level::High }
        }
    }

    /// Turns both LEDs off.
    pub fn all_off(&mut self)
        ensures
            *final(self) == ButtonLeds::off(),
    {
        self.led0 = Level::Low;
        self.led1 = Level::Low;
    }

    /// Turns both LEDs on.
    pub fn all_on(&mut self)
        ensures
            *final(self) == ButtonLeds::on(),
    {
        self.led0 = Level::High;
        self.led1 = Level::High;
    }

    /// Turns one LED on and the other off.
    pub fn set_only(&mut self, idx: usize)
        ensures
            *final(self) == ButtonLeds::only(idx),
    {
        self.all_off();
        match idx {
            0 => {
                self.led0 = Level::High;
            },
            _ => {
                self.led1 = Level::High;
            },
        }
    }
}

/// One look at the two reaction buttons, each mapped to one LED. They are pulled
/// up, so a button reads `Low` when pressed.
#[derive(Clone, Copy, Debug, PartialEq, Eq, Structural)]
pub struct Buttons {
    pub btn0: Level,
    pub btn1: Level,
}

impl Buttons {
    /// The button is down: the first for index 0, the second for any other.
    pub open spec fn pressed(self, idx: int) -> bool {
        if idx == 0 {
            self.btn0 == Level::Low
        } else {
            self.btn1 == Level::Low
        }
    }

    /// The lowest button that is down and is not the one of the LED `lit`.
    pub open spec fn unlit_press(self, lit: Option<usize>) -> Option<usize> {
        if lit != Some(0usize) && self.pressed(0) {
            Some(0)
        } else if lit != Some(1usize) && self.pressed(1) {
            Some(1)
        } else {
            None
        }
    }

    /// Whether the button is down.
    pub fn is_pressed(&self, idx: usize) -> (yes: bool)
        ensures
            yes == self.pressed(idx as int),
    {
        match idx {
            0 => self.btn0 == Level::Low,
            _ => self.btn1 == Level::Low,
        }
    }

    /// The lowest button that is down.
    pub fn pressed_index(&self) -> (found: Option<usize>)
        ensures
            found == self.unlit_press(None),
            found matches Some(idx) ==> {
                &&& idx < LED_COUNT
                &&& self.pressed(idx as int)
                &&& forall|j: int| 0 <= j < idx ==> !self.pressed(j)
            },
            found is None ==> forall|j: int| 0 <= j < LED_COUNT ==> !self.pressed(j),
    {
        self.pressed_unlit_index(None)
    }

    /// The lowest button that is down and whose LED is not the lit one.
    pub fn pressed_unlit_index(&self, lit_idx: Option<usize>) -> (found: Option<usize>)
        ensures
            found == self.unlit_press(lit_idx),
            found matches Some(idx) ==> {
                &&& idx < LED_COUNT
                &&& lit_idx != Some(idx)
                &&& self.pressed(idx as int)
                &&& forall|j: usize| j < idx && lit_idx != Some(j) ==> !self.pressed(j as int)
            },
            found is None ==> forall|j: usize|
                j < LED_COUNT && lit_idx != Some(j) ==> !self.pressed(j as int),
    {
        let mut idx: usize = 0;
        while idx < LED_COUNT
            invariant
                idx <= LED_COUNT,
                forall|j: usize| j < idx && lit_idx != Some(j) ==> !self.pressed(j as int),
            decreases LED_COUNT - idx,
        {
            let is_lit = match lit_idx {
                Some(lit) => lit == idx,
                None => false,
            };
            if !is_lit && self.is_pressed(idx) {
                return Some(idx);
            }
            idx = idx + 1;
        }
        None
    }
}

/// An LED is on exactly while its pin is high, and `set_only` lights the LED of
/// its index and no other.
pub proof fn law_one_led_at_a_time(idx: usize)
    ensures
        ButtonLeds::off().led0 is Low && ButtonLeds::off().led1 is Low,
        ButtonLeds::on().led0 is High && ButtonLeds::on().led1 is High,
        ButtonLeds::only(idx).led0 is High <==> idx == 0,
        ButtonLeds::only(idx).led1 is High <==> idx != 0,
{
}

/// A button is down exactly while its pin is low, and one button does not tell
/// anything of the other.
pub proof fn law_pressed_means_low(look: Buttons)
    ensures
        look.pressed(0) <==> look.btn0 is Low,
        look.pressed(1) <==> look.btn1 is Low,
{
}

/// The button that is found is down and is not the lit one, the first button goes
/// before the second, and none is found only if there is none.
pub proof fn law_unlit_press_is_found(look: Buttons, lit: Option<usize>)
    ensures
        match look.unlit_press(lit) {
            Some(idx) => {
                &&& lit != Some(idx)
                &&& idx == 0 && look.btn0 is Low || idx == 1 && look.btn1 is Low
                &&& idx == 1 && look.btn0 is Low ==> lit == Some(0usize)
            },
            None => {
                &&& look.btn0 is Low ==> lit == Some(0usize)
                &&& look.btn1 is Low ==> lit == Some(1usize)
            },
        },
{
}

} // verus!
