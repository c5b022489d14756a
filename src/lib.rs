//! A snake game on a bounded grid: steering with reversal prevention, edge
//! and self collision, growth one tick after eating, and food that respawns
//! on a free cell.

pub mod direction;
pub mod food;
pub mod game;
pub mod piece;
pub mod snake;

pub use direction::Direction;
pub use food::Food;
pub use game::Game;
pub use piece::{PartPosition, SnakePiece};
pub use snake::Snake;
