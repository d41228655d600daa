//! A verified tic-tac-toe game engine: a 3x3 board with magic-square win
//! detection, turn sequencing, and a wrap-around cursor for spatial move
//! selection.

pub mod cursor;
pub mod display;
pub mod error;
pub mod game;
pub mod laws;

pub use cursor::Cursor;
pub use cursor::Direction;
pub use display::CharMatrix;
pub use display::to_char_matrix;
pub use error::GameError;
pub use game::Coordinate;
pub use game::Game;
pub use game::GameSpace;
pub use game::GameStatus;
pub use game::Player;
