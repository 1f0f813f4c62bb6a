//! The move validator: bounds, occupancy and ownership, then the rule of the
//! piece that stands on the origin.

use vstd::prelude::*;
use crate::board::{cell_at, occupant, Board, ChessCell, ChessMove, GameState, Piece, Player};
use crate::contract::OhMyChess;
use crate::rules::{
    bishop_rule, held_by_opponent, king_rule, knight_rule, pawn_rule, queen_rule, rook_rule,
};

verus! {

/// The occupant of the origin of `chess_move`.
pub open spec fn source(board: Board, chess_move: ChessMove) -> Option<ChessCell> {
    occupant(board, chess_move.from.0 as int, chess_move.from.1 as int)
}

/// The rule of movement of `piece`, applied to `chess_move` made by `player`.
pub open spec fn piece_rule(
    piece: Piece,
    board: Board,
    chess_move: ChessMove,
    player: Player,
) -> bool {
    match piece {
        Piece::Pawn => pawn_rule(board, chess_move, player),
        Piece::Knight => knight_rule(board, chess_move, player),
        Piece::Bishop => bishop_rule(board, chess_move),
        Piece::Rook => rook_rule(board, chess_move),
        Piece::Queen => queen_rule(board, chess_move),
        Piece::King => king_rule(chess_move),
    }
}

/// Whether `mover` may make `chess_move` on `board`: all four coordinates lie
/// on the board, the origin holds a piece, the piece is the mover's, and the
/// rule of that piece allows the move.
pub open spec fn legal_move(board: Board, chess_move: ChessMove, mover: Player) -> bool {
    &&& chess_move.in_bounds()
    &&& source(board, chess_move) matches Some(cell)
    &&& cell.player == mover
    &&& piece_rule(cell.piece, board, chess_move, mover)
}

impl OhMyChess {
    /// Decides whether `player_to_move` may make `chess_move` in
    /// `game_state`. Every reason for refusal gives the same `false`: a
    /// coordinate off the board, an empty origin, a piece of the other
    /// player, a shape the piece cannot move in, a blocked line. Whose turn
    /// the game state records is not consulted.
    pub fn check_move_validity(
        &self,
        chess_move: &ChessMove,
        player_to_move: &Player,
        game_state: &GameState,
    ) -> (legal: bool)
        ensures
            legal == legal_move(game_state.board, *chess_move, *player_to_move),
            !chess_move.in_bounds() ==> !legal,
            source(game_state.board, *chess_move) is None ==> !legal,
            held_by_opponent(source(game_state.board, *chess_move), *player_to_move) ==> !legal,
    {
        if !chess_move.in_bounds() {
            return false;
        }
        let cell = match cell_at(&game_state.board, chess_move.from.0, chess_move.from.1) {
            Some(cell) => cell,
            None => {
                return false;
            },
        };
        if cell.player != *player_to_move {
            return false;
        }
        match cell.piece {
            Piece::Pawn => self.check_move_validity_pawn(player_to_move, chess_move, game_state),
            Piece::Knight => self.check_move_validity_knight(
                player_to_move,
                chess_move,
                game_state,
            ),
            Piece::Bishop => self.check_bishop_move_validity(chess_move, game_state),
            Piece::Rook => self.check_move_validity_rook(chess_move, game_state),
            Piece::Queen => self.check_move_validity_queen(chess_move, game_state),
            Piece::King => self.check_move_validity_king(chess_move),
        }
    }
}

} // verus!
