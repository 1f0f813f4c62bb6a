//! The board model: squares, pieces, players and moves, as plain data.

use vstd::prelude::*;

verus! {

/// The kind of a piece.
#[derive(Clone, Copy, Debug, PartialEq, Eq, Structural)]
pub enum Piece {
    Pawn,
    Knight,
    Bishop,
    Rook,
    Queen,
    King,
}

/// One of the two sides.
#[derive(Clone, Copy, Debug, PartialEq, Eq, Structural)]
pub enum Player {
    Black,
    White,
}

/// The line along which a sliding piece travels.
#[derive(Clone, Copy, Debug, PartialEq, Eq, Structural)]
pub enum Direction {
    /// Along a rank: the file changes, the rank does not.
    Horizontal,
    /// Along a file: the rank changes, the file does not.
    Vertical,
    /// File and rank change by the same amount.
    Diagonal,
}

/// How a game stands.
#[derive(Clone, Copy, Debug, PartialEq, Eq, Structural)]
pub enum GameStatus {
    Ongoing,
    Checkmate,
    Stalemate,
    Draw,
}

/// The accounts of the two players.
#[derive(Clone, Copy, Debug, PartialEq, Eq)]
pub struct PlayersAddresses {
    pub black: [u8; 32],
    pub white: [u8; 32],
}

/// The occupant of a square: one piece of one player.
#[derive(Clone, Copy, Debug, PartialEq, Eq, Structural)]
pub struct ChessCell {
    pub piece: Piece,
    pub player: Player,
}

/// A proposed move from one square to another. A square is a pair
/// `(file, rank)`; it lies on the board when both are at most 7.
#[derive(Clone, Copy, Debug, PartialEq, Eq)]
pub struct ChessMove {
    pub from: (u8, u8),
    pub to: (u8, u8),
}

/// The 8 by 8 grid of squares, indexed by file, then rank.
pub type Board = [[Option<ChessCell>; 8]; 8];

/// A snapshot of a game.
#[derive(Clone, Copy, Debug)]
pub struct GameState {
    pub board: Board,
    pub turn: Player,
    pub players: PlayersAddresses,
    pub status: GameStatus,
}

/// Whether the square `(file, rank)` lies on the board.
pub open spec fn on_board(file: int, rank: int) -> bool {
    0 <= file <= 7 && 0 <= rank <= 7
}

/// The occupant of the square `(file, rank)`: `None` for an empty square, and
/// for every square off the board.
pub open spec fn occupant(board: Board, file: int, rank: int) -> Option<ChessCell> {
    if on_board(file, rank) {
        board@[file]@[rank]
    } else {
        None
    }
}

/// The absolute value of an integer.
pub open spec fn abs(x: int) -> int {
    if x < 0 {
        -x
    } else {
        x
    }
}

impl ChessMove {
    /// Whether origin and destination both lie on the board.
    pub open spec fn spec_in_bounds(&self) -> bool {
        on_board(self.from.0 as int, self.from.1 as int) && on_board(
            self.to.0 as int,
            self.to.1 as int,
        )
    }

    /// The change of file, destination minus origin.
    pub open spec fn file_delta(&self) -> int {
        self.to.0 - self.from.0
    }

    /// The change of rank, destination minus origin.
    pub open spec fn rank_delta(&self) -> int {
        self.to.1 - self.from.1
    }

    /// Whether all four coordinates lie in `0..=7`.
    #[verifier::when_used_as_spec(spec_in_bounds)]
    pub fn in_bounds(&self) -> (inside: bool)
        ensures
            inside == self.spec_in_bounds(),
    {
        self.from.0 <= 7 && self.from.1 <= 7 && self.to.0 <= 7 && self.to.1 <= 7
    }
}

/// Reads the occupant of a square; `None` where the square is empty or off
/// the board.
pub fn cell_at(board: &Board, file: u8, rank: u8) -> (cell: Option<ChessCell>)
    ensures
        cell == occupant(*board, file as int, rank as int),
{
    if file <= 7 && rank <= 7 {
        board[file as usize][rank as usize]
    } else {
        None
    }
}

} // verus!
