//! Gameplay core of a side-scrolling gate-dodging game: the player's
//! lifecycle, the conveyor of recycled gates, scoring and the roof rule.
//!
//! Every coordinate is an integer in a unit that the host picks; the host
//! turns its physics engine's positions into such units before each tick.

pub mod chance;
pub mod config;
pub mod game;
pub mod gate;
pub mod laws;
pub mod player;
pub mod text;

pub use config::{Config, RecycleMode};
pub use game::{BodyCommand, Game, TickInput};
pub use gate::{Gate, Role};
pub use player::Player;
