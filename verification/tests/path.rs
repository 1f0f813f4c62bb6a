use oh_my_chess::board::cell_at;
use oh_my_chess::{Board, ChessCell, ChessMove, Direction, OhMyChess, Piece, Player};

fn checker() -> OhMyChess {
    OhMyChess::new([0u8; 32])
}

fn board_with(pieces: &[(usize, usize)]) -> Board {
    let mut board: Board = [[None; 8]; 8];
    for &(file, rank) in pieces {
        board[file][rank] = Some(ChessCell { piece: Piece::Pawn, player: Player::Black });
    }
    board
}

fn line(from: (u8, u8), to: (u8, u8)) -> ChessMove {
    ChessMove { from, to }
}

#[test]
fn path_clear_on_empty_board() {
    let c = checker();
    let board = board_with(&[]);
    assert!(c.is_path_clear(&board, &line((0, 3), (7, 3)), &Direction::Horizontal));
    assert!(c.is_path_clear(&board, &line((7, 3), (0, 3)), &Direction::Horizontal));
    assert!(c.is_path_clear(&board, &line((3, 0), (3, 7)), &Direction::Vertical));
    assert!(c.is_path_clear(&board, &line((3, 7), (3, 0)), &Direction::Vertical));
    assert!(c.is_path_clear(&board, &line((0, 0), (7, 7)), &Direction::Diagonal));
    assert!(c.is_path_clear(&board, &line((7, 7), (0, 0)), &Direction::Diagonal));
    assert!(c.is_path_clear(&board, &line((0, 7), (7, 0)), &Direction::Diagonal));
    assert!(c.is_path_clear(&board, &line((7, 0), (0, 7)), &Direction::Diagonal));
}

#[test]
fn path_clear_wants_the_declared_direction() {
    let c = checker();
    let board = board_with(&[]);
    assert!(!c.is_path_clear(&board, &line((0, 0), (0, 5)), &Direction::Horizontal));
    assert!(c.is_path_clear(&board, &line((0, 0), (0, 5)), &Direction::Vertical));
    assert!(!c.is_path_clear(&board, &line((0, 0), (0, 5)), &Direction::Diagonal));
    assert!(c.is_path_clear(&board, &line((0, 0), (5, 0)), &Direction::Horizontal));
    assert!(!c.is_path_clear(&board, &line((0, 0), (5, 0)), &Direction::Vertical));
    assert!(!c.is_path_clear(&board, &line((0, 0), (5, 0)), &Direction::Diagonal));
    assert!(!c.is_path_clear(&board, &line((1, 1), (4, 4)), &Direction::Horizontal));
    assert!(!c.is_path_clear(&board, &line((1, 1), (4, 4)), &Direction::Vertical));
    assert!(c.is_path_clear(&board, &line((1, 1), (4, 4)), &Direction::Diagonal));
    assert!(!c.is_path_clear(&board, &line((1, 1), (3, 2)), &Direction::Horizontal));
    assert!(!c.is_path_clear(&board, &line((1, 1), (3, 2)), &Direction::Vertical));
    assert!(!c.is_path_clear(&board, &line((1, 1), (3, 2)), &Direction::Diagonal));
}

#[test]
fn path_clear_sees_only_the_squares_in_between() {
    let c = checker();
    let ends = board_with(&[(1, 1), (5, 5), (1, 5), (5, 1)]);
    assert!(c.is_path_clear(&ends, &line((1, 1), (5, 5)), &Direction::Diagonal));
    assert!(c.is_path_clear(&ends, &line((5, 5), (1, 1)), &Direction::Diagonal));
    assert!(c.is_path_clear(&ends, &line((1, 1), (1, 5)), &Direction::Vertical));
    assert!(c.is_path_clear(&ends, &line((1, 1), (5, 1)), &Direction::Horizontal));
    assert!(c.is_path_clear(&ends, &line((1, 5), (5, 1)), &Direction::Diagonal));
    for between in [(2usize, 2usize), (3, 3), (4, 4)] {
        let blocked = board_with(&[between]);
        assert!(!c.is_path_clear(&blocked, &line((1, 1), (5, 5)), &Direction::Diagonal));
        assert!(!c.is_path_clear(&blocked, &line((5, 5), (1, 1)), &Direction::Diagonal));
    }
    let aside = board_with(&[(2, 3), (3, 2), (0, 0), (6, 6)]);
    assert!(c.is_path_clear(&aside, &line((1, 1), (5, 5)), &Direction::Diagonal));
    let on_rank = board_with(&[(4, 2)]);
    assert!(!c.is_path_clear(&on_rank, &line((7, 2), (0, 2)), &Direction::Horizontal));
    assert!(c.is_path_clear(&on_rank, &line((7, 2), (4, 2)), &Direction::Horizontal));
    assert!(c.is_path_clear(&on_rank, &line((4, 2), (0, 2)), &Direction::Horizontal));
    assert!(c.is_path_clear(&on_rank, &line((5, 2), (4, 2)), &Direction::Horizontal));
}

#[test]
fn path_clear_of_a_move_in_place() {
    let c = checker();
    let board = board_with(&[(3, 3)]);
    for direction in [Direction::Horizontal, Direction::Vertical, Direction::Diagonal] {
        assert!(c.is_path_clear(&board, &line((3, 3), (3, 3)), &direction));
        assert!(c.is_path_clear(&board, &line((0, 0), (0, 0)), &direction));
    }
}

#[test]
fn path_clear_refuses_squares_off_the_board() {
    let c = checker();
    let board = board_with(&[]);
    assert!(!c.is_path_clear(&board, &line((0, 0), (0, 8)), &Direction::Vertical));
    assert!(!c.is_path_clear(&board, &line((0, 0), (8, 0)), &Direction::Horizontal));
    assert!(!c.is_path_clear(&board, &line((0, 0), (8, 8)), &Direction::Diagonal));
    assert!(!c.is_path_clear(&board, &line((8, 0), (0, 0)), &Direction::Horizontal));
    assert!(!c.is_path_clear(&board, &line((0, 255), (0, 0)), &Direction::Vertical));
    assert!(!c.is_path_clear(&board, &line((255, 255), (255, 255)), &Direction::Diagonal));
    assert!(!c.is_path_clear(&board, &line((200, 3), (100, 3)), &Direction::Horizontal));
}

#[test]
fn path_clear_gives_the_same_answer_again() {
    let c = checker();
    let board = board_with(&[(2, 2), (0, 5), (6, 1)]);
    for from_file in 0u8..9 {
        for from_rank in 0u8..9 {
            for to_file in 0u8..9 {
                for to_rank in 0u8..9 {
                    let m = line((from_file, from_rank), (to_file, to_rank));
                    for direction in [Direction::Horizontal, Direction::Vertical, Direction::Diagonal] {
                        let first = c.is_path_clear(&board, &m, &direction);
                        let second = c.is_path_clear(&board, &m, &direction);
                        assert_eq!(first, second);
                    }
                }
            }
        }
    }
}

#[test]
fn cell_at_reads_the_board_and_nothing_beyond() {
    let mut board = board_with(&[(0, 0), (7, 7)]);
    board[2][5] = Some(ChessCell { piece: Piece::Queen, player: Player::White });
    assert_eq!(cell_at(&board, 2, 5), Some(ChessCell { piece: Piece::Queen, player: Player::White }));
    assert_eq!(cell_at(&board, 5, 2), None);
    assert_eq!(cell_at(&board, 0, 0), Some(ChessCell { piece: Piece::Pawn, player: Player::Black }));
    assert_eq!(cell_at(&board, 7, 7), Some(ChessCell { piece: Piece::Pawn, player: Player::Black }));
    assert_eq!(cell_at(&board, 8, 7), None);
    assert_eq!(cell_at(&board, 7, 8), None);
    assert_eq!(cell_at(&board, 255, 255), None);
}

#[test]
fn in_bounds_wants_all_four_coordinates_on_the_board() {
    assert!(line((0, 0), (7, 7)).in_bounds());
    assert!(line((7, 0), (0, 7)).in_bounds());
    assert!(!line((8, 0), (0, 0)).in_bounds());
    assert!(!line((0, 8), (0, 0)).in_bounds());
    assert!(!line((0, 0), (8, 0)).in_bounds());
    assert!(!line((0, 0), (0, 8)).in_bounds());
    assert!(!line((255, 255), (255, 255)).in_bounds());
}
