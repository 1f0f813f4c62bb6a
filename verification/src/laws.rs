//! Laws of the move validator, proved from the rules.

use vstd::prelude::*;
use crate::board::{
    abs, occupant, on_board, Board, ChessCell, ChessMove, Direction, Piece, Player,
};
use crate::path::{path_clear, vacant_at};
use crate::rules::{bishop_rule, held_by, king_rule, knight_rule, queen_rule, rook_rule, target};
use crate::validator::{legal_move, source};

verus! {

/// Whether a square holds a piece that moves along a line: a bishop, a rook
/// or a queen.
pub open spec fn holds_slider(cell: Option<ChessCell>) -> bool {
    match cell {
        Some(c) => c.piece == Piece::Bishop || c.piece == Piece::Rook || c.piece == Piece::Queen,
        None => false,
    }
}

/// Whether the destination is one of the eight squares a knight's jump away
/// from the origin.
pub open spec fn knight_jump(chess_move: ChessMove) -> bool {
    let f = chess_move.from.0 as int;
    let r = chess_move.from.1 as int;
    let tf = chess_move.to.0 as int;
    let tr = chess_move.to.1 as int;
    ||| tf == f + 2 && tr == r + 1
    ||| tf == f + 2 && tr == r - 1
    ||| tf == f - 2 && tr == r + 1
    ||| tf == f - 2 && tr == r - 1
    ||| tf == f + 1 && tr == r + 2
    ||| tf == f + 1 && tr == r - 2
    ||| tf == f - 1 && tr == r + 2
    ||| tf == f - 1 && tr == r - 2
}

/// Whether the destination is one of the eight squares that touch the origin.
pub open spec fn king_step(chess_move: ChessMove) -> bool {
    let f = chess_move.from.0 as int;
    let r = chess_move.from.1 as int;
    let tf = chess_move.to.0 as int;
    let tr = chess_move.to.1 as int;
    ||| tf == f + 1 && tr == r
    ||| tf == f - 1 && tr == r
    ||| tf == f && tr == r + 1
    ||| tf == f && tr == r - 1
    ||| tf == f + 1 && tr == r + 1
    ||| tf == f + 1 && tr == r - 1
    ||| tf == f - 1 && tr == r + 1
    ||| tf == f - 1 && tr == r - 1
}

/// Whether `x` lies strictly between `a` and `b`, whichever of the two is
/// the larger.
pub open spec fn strictly_between(a: int, x: int, b: int) -> bool {
    a < x < b || b < x < a
}

/// Whether the square `(file, rank)` lies on the line from the origin of
/// `chess_move` to its destination, strictly between the two: on the same
/// rank for a move along a rank, on the same file for one along a file, and
/// as far from the origin in file as in rank for one along a diagonal. A
/// move along none of these has no squares between its ends.
pub open spec fn lies_between(chess_move: ChessMove, file: int, rank: int) -> bool {
    let from = chess_move.from;
    let to = chess_move.to;
    if chess_move.rank_delta() == 0 {
        rank == from.1 && strictly_between(from.0 as int, file, to.0 as int)
    } else if chess_move.file_delta() == 0 {
        file == from.0 && strictly_between(from.1 as int, rank, to.1 as int)
    } else {
        &&& abs(chess_move.file_delta()) == abs(chess_move.rank_delta())
        &&& strictly_between(from.0 as int, file, to.0 as int)
        &&& strictly_between(from.1 as int, rank, to.1 as int)
        &&& abs(file - from.0) == abs(rank - from.1)
    }
}

/// The move with every file `f` replaced by `7 - f`.
pub open spec fn mirror_files(chess_move: ChessMove) -> ChessMove
    recommends
        chess_move.in_bounds(),
{
    ChessMove {
        from: ((7 - chess_move.from.0) as u8, chess_move.from.1),
        to: ((7 - chess_move.to.0) as u8, chess_move.to.1),
    }
}

/// The move with every rank `r` replaced by `7 - r`.
pub open spec fn mirror_ranks(chess_move: ChessMove) -> ChessMove
    recommends
        chess_move.in_bounds(),
{
    ChessMove {
        from: (chess_move.from.0, (7 - chess_move.from.1) as u8),
        to: (chess_move.to.0, (7 - chess_move.to.1) as u8),
    }
}

/// The move turned by a quarter: the square `(f, r)` goes to `(r, 7 - f)`.
pub open spec fn quarter_turn(chess_move: ChessMove) -> ChessMove
    recommends
        chess_move.in_bounds(),
{
    ChessMove {
        from: (chess_move.from.1, (7 - chess_move.from.0) as u8),
        to: (chess_move.to.1, (7 - chess_move.to.0) as u8),
    }
}

/// From a square of the board, the knight may go to exactly those of the
/// eight squares a jump away that lie on the board and do not hold a piece
/// of the mover.
pub proof fn lemma_knight_destinations(board: Board, chess_move: ChessMove, player: Player)
    requires
        on_board(chess_move.from.0 as int, chess_move.from.1 as int),
    ensures
        knight_rule(board, chess_move, player) == (knight_jump(chess_move) && on_board(
            chess_move.to.0 as int,
            chess_move.to.1 as int,
        ) && !held_by(target(board, chess_move), player)),
{
}

/// The knight's rule does not change when board and move are mirrored left
/// to right.
pub proof fn lemma_knight_mirror_files(
    board: Board,
    mirrored: Board,
    chess_move: ChessMove,
    player: Player,
)
    requires
        chess_move.in_bounds(),
        forall|f: int, r: int|
            on_board(f, r) ==> #[trigger] occupant(mirrored, f, r) == occupant(board, 7 - f, r),
    ensures
        knight_rule(mirrored, mirror_files(chess_move), player) == knight_rule(
            board,
            chess_move,
            player,
        ),
{
}

/// The knight's rule does not change when board and move are mirrored top
/// to bottom.
pub proof fn lemma_knight_mirror_ranks(
    board: Board,
    mirrored: Board,
    chess_move: ChessMove,
    player: Player,
)
    requires
        chess_move.in_bounds(),
        forall|f: int, r: int|
            on_board(f, r) ==> #[trigger] occupant(mirrored, f, r) == occupant(board, f, 7 - r),
    ensures
        knight_rule(mirrored, mirror_ranks(chess_move), player) == knight_rule(
            board,
            chess_move,
            player,
        ),
{
}

/// The knight's rule does not change when board and move are turned by a
/// quarter.
pub proof fn lemma_knight_quarter_turn(
    board: Board,
    turned: Board,
    chess_move: ChessMove,
    player: Player,
)
    requires
        chess_move.in_bounds(),
        forall|f: int, r: int|
            on_board(f, r) ==> #[trigger] occupant(turned, f, r) == occupant(board, 7 - r, f),
    ensures
        knight_rule(turned, quarter_turn(chess_move), player) == knight_rule(
            board,
            chess_move,
            player,
        ),
{
}

/// The number of unit steps from the origin of `chess_move` to the square
/// `(file, rank)`, for a square on the line of the move.
pub open spec fn steps_to(chess_move: ChessMove, file: int, rank: int) -> int {
    if chess_move.file_delta() != 0 {
        abs(file - chess_move.from.0)
    } else {
        abs(rank - chess_move.from.1)
    }
}

/// A square that lies between the ends of a move is reached by a whole
/// number of unit steps, more than none and fewer than lead to the
/// destination.
pub proof fn lemma_between_is_a_step(
    chess_move: ChessMove,
    direction: Direction,
    file: int,
    rank: int,
)
    requires
        chess_move.follows(direction),
        lies_between(chess_move, file, rank),
    ensures
        0 < steps_to(chess_move, file, rank) < chess_move.span(),
        chess_move.step(steps_to(chess_move, file, rank)) == (file, rank),
{
}

/// Every unit step short of the destination ends on a square that lies
/// between the ends of the move.
pub proof fn lemma_step_lies_between(chess_move: ChessMove, direction: Direction, k: int)
    requires
        chess_move.follows(direction),
        0 < k < chess_move.span(),
    ensures
        lies_between(chess_move, chess_move.step(k).0, chess_move.step(k).1),
{
}

/// The line of a move is free exactly when the move stays on the board, runs
/// along the direction, and no square that lies between its ends holds a
/// piece.
pub proof fn lemma_path_clear_by_squares(board: Board, chess_move: ChessMove, direction: Direction)
    ensures
        path_clear(board, chess_move, direction) == (chess_move.in_bounds() && chess_move.follows(
            direction,
        ) && forall|file: int, rank: int| #[trigger]
            lies_between(chess_move, file, rank) ==> occupant(board, file, rank) is None),
{
    if chess_move.in_bounds() && chess_move.follows(direction) {
        if path_clear(board, chess_move, direction) {
            assert forall|file: int, rank: int| #[trigger]
                lies_between(chess_move, file, rank) implies occupant(board, file, rank)
                is None by {
                lemma_between_is_a_step(chess_move, direction, file, rank);
                assert(vacant_at(board, chess_move, steps_to(chess_move, file, rank)));
            }
        }
        if forall|file: int, rank: int| #[trigger]
            lies_between(chess_move, file, rank) ==> occupant(board, file, rank) is None {
            assert forall|k: int| 0 < k < chess_move.span() implies #[trigger] vacant_at(
                board,
                chess_move,
                k,
            ) by {
                lemma_step_lies_between(chess_move, direction, k);
            }
        }
    }
}

/// A piece on a square that lies between origin and destination stops
/// bishop, rook and queen, whatever else the board holds.
pub proof fn lemma_blocked_line_stops_slider(
    board: Board,
    chess_move: ChessMove,
    mover: Player,
    file: int,
    rank: int,
)
    requires
        lies_between(chess_move, file, rank),
        occupant(board, file, rank) is Some,
    ensures
        !path_clear(board, chess_move, Direction::Horizontal),
        !path_clear(board, chess_move, Direction::Vertical),
        !path_clear(board, chess_move, Direction::Diagonal),
        !bishop_rule(board, chess_move),
        !rook_rule(board, chess_move),
        !queen_rule(board, chess_move),
        holds_slider(source(board, chess_move)) ==> !legal_move(board, chess_move, mover),
{
    lemma_path_clear_by_squares(board, chess_move, Direction::Horizontal);
    lemma_path_clear_by_squares(board, chess_move, Direction::Vertical);
    lemma_path_clear_by_squares(board, chess_move, Direction::Diagonal);
}

/// What stands on the destination does not matter to bishop, rook and
/// queen: on two boards that agree on every other square their rules give
/// the same answer, and so does the validator where the same piece stands
/// on the origin of both.
pub proof fn lemma_slider_ignores_destination(
    first: Board,
    second: Board,
    chess_move: ChessMove,
    mover: Player,
)
    requires
        forall|f: int, r: int|
            !(f == chess_move.to.0 && r == chess_move.to.1) ==> #[trigger] occupant(first, f, r)
                == occupant(second, f, r),
    ensures
        path_clear(first, chess_move, Direction::Horizontal) == path_clear(
            second,
            chess_move,
            Direction::Horizontal,
        ),
        path_clear(first, chess_move, Direction::Vertical) == path_clear(
            second,
            chess_move,
            Direction::Vertical,
        ),
        path_clear(first, chess_move, Direction::Diagonal) == path_clear(
            second,
            chess_move,
            Direction::Diagonal,
        ),
        bishop_rule(first, chess_move) == bishop_rule(second, chess_move),
        rook_rule(first, chess_move) == rook_rule(second, chess_move),
        queen_rule(first, chess_move) == queen_rule(second, chess_move),
        source(first, chess_move) == source(second, chess_move) && holds_slider(
            source(first, chess_move),
        ) ==> legal_move(first, chess_move, mover) == legal_move(second, chess_move, mover),
{
    lemma_line_ignores_destination(first, second, chess_move, Direction::Horizontal);
    lemma_line_ignores_destination(first, second, chess_move, Direction::Vertical);
    lemma_line_ignores_destination(first, second, chess_move, Direction::Diagonal);
}

/// Along one direction, the line is free on both of two boards that agree
/// off the destination, or on neither.
proof fn lemma_line_ignores_destination(
    first: Board,
    second: Board,
    chess_move: ChessMove,
    direction: Direction,
)
    requires
        forall|f: int, r: int|
            !(f == chess_move.to.0 && r == chess_move.to.1) ==> #[trigger] occupant(first, f, r)
                == occupant(second, f, r),
    ensures
        path_clear(first, chess_move, direction) == path_clear(second, chess_move, direction),
{
    if chess_move.in_bounds() && chess_move.follows(direction) {
        assert forall|k: int| 0 < k < chess_move.span() implies vacant_at(first, chess_move, k)
            == vacant_at(second, chess_move, k) by {
            let square = chess_move.step(k);
            assert(!(square.0 == chess_move.to.0 && square.1 == chess_move.to.1));
            assert(occupant(first, square.0, square.1) == occupant(second, square.0, square.1));
        }
    }
}

/// The king may go to each of the eight squares that touch its own, and,
/// staying in place apart, to no other. With the king of the mover on the
/// origin and the move on the board, the validator says the same.
pub proof fn lemma_king_destinations(board: Board, chess_move: ChessMove, mover: Player)
    requires
        chess_move.from != chess_move.to,
    ensures
        king_rule(chess_move) == king_step(chess_move),
        chess_move.in_bounds() && source(board, chess_move) == Some(
            ChessCell { piece: Piece::King, player: mover },
        ) ==> legal_move(board, chess_move, mover) == king_step(chess_move),
{
}

/// The line check is a function of board, move and direction: two answers
/// that each meet its contract on the same three are the same answer.
pub proof fn lemma_path_clear_repeatable(
    board: Board,
    chess_move: ChessMove,
    direction: Direction,
    first: bool,
    second: bool,
)
    requires
        first == path_clear(board, chess_move, direction),
        second == path_clear(board, chess_move, direction),
    ensures
        first == second,
{
}

} // verus!
