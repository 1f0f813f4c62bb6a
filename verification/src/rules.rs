//! One rule of movement per kind of piece.
//!
//! Every rule that looks at the board rejects a move with a coordinate off
//! the board before it reads a square. No rule knows of check, castling,
//! en passant, promotion or the pawn's double step.

use vstd::prelude::*;
use crate::board::{abs, cell_at, occupant, Board, ChessCell, ChessMove, Direction, GameState, Player};
use crate::contract::OhMyChess;
use crate::path::path_clear;

verus! {

/// The change of rank that is forward for `player`: up for White, down for
/// Black.
pub open spec fn forward(player: Player) -> int {
    match player {
        Player::White => 1,
        Player::Black => -1,
    }
}

/// The occupant of the destination of `chess_move`.
pub open spec fn target(board: Board, chess_move: ChessMove) -> Option<ChessCell> {
    occupant(board, chess_move.to.0 as int, chess_move.to.1 as int)
}

/// Whether a square holds a piece of `player`.
pub open spec fn held_by(cell: Option<ChessCell>, player: Player) -> bool {
    cell matches Some(c) && c.player == player
}

/// Whether a square holds a piece of the opponent of `player`.
pub open spec fn held_by_opponent(cell: Option<ChessCell>, player: Player) -> bool {
    cell matches Some(c) && c.player != player
}

/// The pawn's rule: one rank forward, and either straight onto an empty
/// square or one file aside onto a piece of the opponent.
pub open spec fn pawn_rule(board: Board, chess_move: ChessMove, player: Player) -> bool {
    &&& chess_move.in_bounds()
    &&& chess_move.rank_delta() == forward(player)
    &&& {
        ||| chess_move.file_delta() == 0 && target(board, chess_move) is None
        ||| abs(chess_move.file_delta()) == 1 && held_by_opponent(
            target(board, chess_move),
            player,
        )
    }
}

/// Whether the move has the knight's shape: two squares along one axis and
/// one along the other.
pub open spec fn knight_shape(chess_move: ChessMove) -> bool {
    ||| abs(chess_move.file_delta()) == 2 && abs(chess_move.rank_delta()) == 1
    ||| abs(chess_move.file_delta()) == 1 && abs(chess_move.rank_delta()) == 2
}

/// The knight's rule: the knight's shape, onto a square that does not hold a
/// piece of the mover.
pub open spec fn knight_rule(board: Board, chess_move: ChessMove, player: Player) -> bool {
    &&& chess_move.in_bounds()
    &&& knight_shape(chess_move)
    &&& !held_by(target(board, chess_move), player)
}

/// The bishop's rule: along a diagonal, over empty squares. What stands on
/// the destination is not looked at.
pub open spec fn bishop_rule(board: Board, chess_move: ChessMove) -> bool {
    &&& abs(chess_move.file_delta()) == abs(chess_move.rank_delta())
    &&& path_clear(board, chess_move, Direction::Diagonal)
}

/// The rook's rule: along a rank or along a file, over empty squares. What
/// stands on the destination is not looked at.
pub open spec fn rook_rule(board: Board, chess_move: ChessMove) -> bool {
    ||| chess_move.rank_delta() == 0 && path_clear(board, chess_move, Direction::Horizontal)
    ||| chess_move.file_delta() == 0 && path_clear(board, chess_move, Direction::Vertical)
}

/// The queen's rule: whatever the rook or the bishop may do.
pub open spec fn queen_rule(board: Board, chess_move: ChessMove) -> bool {
    rook_rule(board, chess_move) || bishop_rule(board, chess_move)
}

/// The king's rule: at most one square along each axis. The board is not
/// looked at.
pub open spec fn king_rule(chess_move: ChessMove) -> bool {
    abs(chess_move.file_delta()) <= 1 && abs(chess_move.rank_delta()) <= 1
}

/// The distance between two coordinates.
fn distance(a: u8, b: u8) -> (d: u8)
    ensures
        d == abs(b - a),
{
    if a <= b {
        b - a
    } else {
        a - b
    }
}

impl OhMyChess {
    /// Decides the pawn's rule for `player`.
    pub fn check_move_validity_pawn(
        &self,
        player: &Player,
        chess_move: &ChessMove,
        game_state: &GameState,
    ) -> (legal: bool)
        ensures
            legal == pawn_rule(game_state.board, *chess_move, *player),
    {
        if !chess_move.in_bounds() {
            return false;
        }
        let fx: u8 = chess_move.from.0;
        let fy: u8 = chess_move.from.1;
        let tx: u8 = chess_move.to.0;
        let ty: u8 = chess_move.to.1;
        let one_forward = match player {
            Player::White => ty == fy + 1,
            Player::Black => ty + 1 == fy,
        };
        if !one_forward {
            return false;
        }
        let destination = cell_at(&game_state.board, tx, ty);
        if fx == tx {
            return destination.is_none();
        }
        if distance(fx, tx) == 1 {
            if let Some(cell) = destination {
                return cell.player != *player;
            }
        }
        false
    }

    /// Decides the knight's rule for `player`.
    pub fn check_move_validity_knight(
        &self,
        player: &Player,
        chess_move: &ChessMove,
        game_state: &GameState,
    ) -> (legal: bool)
        ensures
            legal == knight_rule(game_state.board, *chess_move, *player),
    {
        if !chess_move.in_bounds() {
            return false;
        }
        let dx: u8 = distance(chess_move.from.0, chess_move.to.0);
        let dy: u8 = distance(chess_move.from.1, chess_move.to.1);
        if (dx == 2 && dy == 1) || (dx == 1 && dy == 2) {
            match cell_at(&game_state.board, chess_move.to.0, chess_move.to.1) {
                Some(cell) => cell.player != *player,
                None => true,
            }
        } else {
            false
        }
    }

    /// Decides the bishop's rule.
    pub fn check_bishop_move_validity(&self, chess_move: &ChessMove, game_state: &GameState) -> (legal:
        bool)
        ensures
            legal == bishop_rule(game_state.board, *chess_move),
    {
        let is_diagonal = distance(chess_move.from.0, chess_move.to.0) == distance(
            chess_move.from.1,
            chess_move.to.1,
        );
        if is_diagonal {
            self.is_path_clear(&game_state.board, chess_move, &Direction::Diagonal)
        } else {
            false
        }
    }

    /// Decides the rook's rule.
    pub fn check_move_validity_rook(&self, chess_move: &ChessMove, game_state: &GameState) -> (legal:
        bool)
        ensures
            legal == rook_rule(game_state.board, *chess_move),
    {
        let is_horizontal = chess_move.from.1 == chess_move.to.1;
        let is_vertical = chess_move.from.0 == chess_move.to.0;
        if is_horizontal {
            self.is_path_clear(&game_state.board, chess_move, &Direction::Horizontal)
        } else if is_vertical {
            self.is_path_clear(&game_state.board, chess_move, &Direction::Vertical)
        } else {
            false
        }
    }

    /// Decides the king's rule.
    pub fn check_move_validity_king(&self, chess_move: &ChessMove) -> (legal: bool)
        ensures
            legal == king_rule(*chess_move),
    {
        let delta_file: u8 = distance(chess_move.from.0, chess_move.to.0);
        let delta_rank: u8 = distance(chess_move.from.1, chess_move.to.1);
        delta_file <= 1 && delta_rank <= 1
    }

    /// Decides the queen's rule.
    pub fn check_move_validity_queen(&self, chess_move: &ChessMove, game_state: &GameState) -> (legal:
        bool)
        ensures
            legal == queen_rule(game_state.board, *chess_move),
    {
        let is_horizontal = chess_move.from.1 == chess_move.to.1;
        let is_vertical = chess_move.from.0 == chess_move.to.0;
        let is_diagonal = distance(chess_move.from.0, chess_move.to.0) == distance(
            chess_move.from.1,
            chess_move.to.1,
        );
        if is_horizontal {
            self.is_path_clear(&game_state.board, chess_move, &Direction::Horizontal)
        } else if is_vertical {
            self.is_path_clear(&game_state.board, chess_move, &Direction::Vertical)
        } else if is_diagonal {
            self.is_path_clear(&game_state.board, chess_move, &Direction::Diagonal)
        } else {
            false
        }
    }
}

} // verus!
