//! The straight line between two squares, and whether it is free of pieces.

use vstd::prelude::*;
use crate::board::{abs, occupant, Board, ChessMove, Direction};
use crate::contract::OhMyChess;

verus! {

/// The offset along one axis after `k` unit steps towards a destination that
/// lies `delta` away: `k` squares in the direction of `delta`, none where
/// `delta` is zero.
pub open spec fn stride(delta: int, k: int) -> int {
    if delta > 0 {
        k
    } else if delta < 0 {
        -k
    } else {
        0
    }
}

impl ChessMove {
    /// The number of unit steps that lead from origin to destination: the
    /// larger of the two absolute deltas.
    pub open spec fn span(&self) -> int {
        if abs(self.file_delta()) >= abs(self.rank_delta()) {
            abs(self.file_delta())
        } else {
            abs(self.rank_delta())
        }
    }

    /// The square `(file, rank)` reached after `k` unit steps from the origin
    /// towards the destination.
    pub open spec fn step(&self, k: int) -> (int, int) {
        (
            self.from.0 + stride(self.file_delta(), k),
            self.from.1 + stride(self.rank_delta(), k),
        )
    }

    /// Whether the move runs along a line of the given direction.
    pub open spec fn follows(&self, direction: Direction) -> bool {
        match direction {
            Direction::Horizontal => self.rank_delta() == 0,
            Direction::Vertical => self.file_delta() == 0,
            Direction::Diagonal => abs(self.file_delta()) == abs(self.rank_delta()),
        }
    }
}

/// Whether the square reached after `k` unit steps of `chess_move` is empty.
pub open spec fn vacant_at(board: Board, chess_move: ChessMove, k: int) -> bool {
    occupant(board, chess_move.step(k).0, chess_move.step(k).1) is None
}

/// Whether `chess_move` stays on the board, runs along `direction`, and every
/// square strictly between its origin and its destination is empty. The two
/// end squares are not looked at.
pub open spec fn path_clear(board: Board, chess_move: ChessMove, direction: Direction) -> bool {
    &&& chess_move.in_bounds()
    &&& chess_move.follows(direction)
    &&& forall|k: int| 0 < k < chess_move.span() ==> #[trigger] vacant_at(board, chess_move, k)
}

/// The unit step towards `delta`: its sign.
fn unit(delta: i8) -> (sign: i8)
    ensures
        sign == stride(delta as int, 1),
{
    if delta > 0 {
        1
    } else if delta < 0 {
        -1
    } else {
        0
    }
}

/// The absolute value of a delta between two squares of the board.
fn magnitude(delta: i8) -> (size: i8)
    requires
        -7 <= delta <= 7,
    ensures
        size == abs(delta as int),
{
    if delta < 0 {
        -delta
    } else {
        delta
    }
}

impl OhMyChess {
    /// Decides whether the line from the origin of `chess_move` to its
    /// destination is free: the move lies on the board, runs along
    /// `direction`, and no square strictly between the two ends is occupied.
    /// A move with a coordinate off the board, or one that does not run along
    /// `direction`, is rejected.
    pub fn is_path_clear(
        &self,
        board: &Board,
        chess_move: &ChessMove,
        direction: &Direction,
    ) -> (clear: bool)
        ensures
            clear == path_clear(*board, *chess_move, *direction),
    {
        if !chess_move.in_bounds() {
            return false;
        }
        let from = chess_move.from;
        let to = chess_move.to;
        let dx: i8 = to.0 as i8 - from.0 as i8;
        let dy: i8 = to.1 as i8 - from.1 as i8;
        let aligned = match direction {
            Direction::Horizontal => dy == 0,
            Direction::Vertical => dx == 0,
            Direction::Diagonal => magnitude(dx) == magnitude(dy),
        };
        if !aligned {
            return false;
        }
        let step_x: i8 = unit(dx);
        let step_y: i8 = unit(dy);
        let mut current_x: i8 = from.0 as i8 + step_x;
        let mut current_y: i8 = from.1 as i8 + step_y;
        let ghost mut k: int = 1;
        while current_x != to.0 as i8 || current_y != to.1 as i8
            invariant
                chess_move.in_bounds(),
                chess_move.follows(*direction),
                from == chess_move.from,
                to == chess_move.to,
                step_x == stride(chess_move.file_delta(), 1),
                step_y == stride(chess_move.rank_delta(), 1),
                0 < k,
                k <= chess_move.span() || chess_move.span() == 0,
                (current_x as int, current_y as int) == chess_move.step(k),
                forall|j: int| 0 < j < k ==> #[trigger] vacant_at(*board, *chess_move, j),
            decreases chess_move.span() - k,
        {
            if board[current_x as usize][current_y as usize].is_some() {
                assert(!vacant_at(*board, *chess_move, k));
                return false;
            }
            current_x = current_x + step_x;
            current_y = current_y + step_y;
            proof {
                k = k + 1;
            }
        }
        true
    }
}

} // verus!
