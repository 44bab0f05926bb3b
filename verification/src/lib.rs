//! Game logic of a soup-fighting game for a small board with a display, two
//! lit buttons and a load cell.
//!
//! The library holds every rule of the game as plain data and total functions.
//! The program around it owns the pins, the clock, the random numbers and the
//! display, and hands what it reads to the state machines in here.
pub mod state;
pub mod state_cell;
pub mod game;
pub mod buttons;
pub mod button_task;
pub mod button_laws;
pub mod button_play_laws;
pub mod sweet_spot;
pub mod loadcell_task;
pub mod loadcell_laws;
pub mod loadcell_play_laws;
pub mod display;
pub mod sprites;
pub mod display_task;
pub mod display_laws;
pub mod screen_laws;
pub mod system;
