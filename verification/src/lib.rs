//! A grid-based snake game engine: the snake's movement and growth, food
//! placement, and the collision and bounds rules that end a game.

pub mod game;

pub use crate::game::environment::Environment;
pub use crate::game::game::AppData;
pub use crate::game::snake::Snake;
