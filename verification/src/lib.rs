//! Rules of movement for chess pieces: given a board, a proposed move and the
//! player making it, decide whether the move is legal.
//!
//! - [`board`]: squares, pieces, players and moves, as plain data.
//! - [`path`]: the straight line between two squares, and whether it is free.
//! - [`rules`]: one rule of movement per kind of piece.
//! - [`validator`]: bounds, occupancy and ownership, then the piece's rule.
//! - [`laws`]: what holds of the validator on every board, with proof.
//! - [`contract`]: the validator's handle and its settings.
//! - [`session`]: looking up a stored game, short of sending the request.
//!
//! A square is a pair `(file, rank)` with both coordinates in `0..=7`. White
//! moves up the ranks, Black down. The validator judges a single move on a
//! single board: it knows nothing of check, castling, en passant or
//! promotion, and it does not ask whose turn it is.

pub mod board;
pub mod contract;
pub mod laws;
pub mod path;
pub mod rules;
pub mod session;
pub mod validator;

pub use board::{
    Board, ChessCell, ChessMove, Direction, GameState, GameStatus, Piece, Player, PlayersAddresses,
};
pub use contract::{Error, OhMyChess};
pub use session::{MongoDBDocument, SessionRequest};
