//! The rules of a small snake game, verified.
//!
//! The game is driven one tick at a time. Each tick takes the key the player
//! pressed, if any, and yields the frame to put on the screen; drawing the
//! frame and reading the keyboard are left to the host.

pub mod cell;
pub mod food;
pub mod player;
pub mod run;
pub mod state;

pub use cell::{Cell, Dir, Spot, SCREEN_HEIGHT, SCREEN_WIDTH};
pub use food::{Food, FOOD_SPAN};
pub use player::{Key, Player, Snake};
pub use state::{Frame, Game, GameMode, Scene, State, MAX_TAIL, MOVE_EVERY};
