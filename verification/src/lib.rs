//! A chess board for two players at one screen: the position and its FEN
//! notation, the layout of the board's tiles, and the pick, drag and drop
//! protocol that moves a piece and passes the turn.
//!
//! No rule of chess is enforced: a piece of the side to move may be dropped
//! on any square that does not hold another piece of that side.

pub mod board;
pub mod error;
pub mod fen;
pub mod layout;
pub mod piece;
pub mod position;
pub mod systems;
