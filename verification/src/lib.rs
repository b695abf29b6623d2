//! The rules of a falling-blocks game: pieces made of bricks, their rotation
//! states, the board they land on, and the decisions the game makes on each
//! event. Drawing and the window live outside this library.

pub mod orientation;
pub mod geometry;
pub mod brick;
pub mod text;
pub mod brick_group;
pub mod shapes;
pub mod board;
pub mod game;
