//! End-to-end tests of the evaluator, the alpha-beta search and the move
//! selector, on positions built through the `chess` crate.

use amano::eval::{calc_board_value, calc_piece_value, square_bonus, MATE_SCORE};
use amano::rules::{Move, PieceColor, Promotion};
use amano::search::{alpha_beta, find_best_move};
use chess::Board;
use std::str::FromStr;

/// Fool's mate: White to move and checkmated.
const WHITE_MATED_FEN: &str = "rnb1kbnr/pppp1ppp/8/4p3/6Pq/5P2/PPPPP2P/RNBQKBNR w KQkq - 1 3";

/// Scholar's mate: Black to move and checkmated.
const BLACK_MATED_FEN: &str = "r1bqkb1r/pppp1Qpp/2n2n2/4p3/2B1P3/8/PPPP1PPP/RNBQK1NR b KQkq - 0 4";

/// Black to move with no legal move and not in check.
const STALEMATE_FEN: &str = "7k/5Q2/6K1/8/8/8/8/8 b - - 0 1";

/// Kings on d1 and d5 with pawns on d2 and e5.
const TWO_PAWNS_FEN: &str = "8/8/8/3kp3/8/8/3P4/3K4 w - - 0 1";

/// White queen on d1 can capture the black queen on d8.
const HANGING_QUEEN_FEN: &str = "3q3k/8/8/8/8/8/8/3QK3 w - - 0 1";

/// A small endgame: White rook f1, queen g1, king h1 against king d5.
const ENDGAME_FEN: &str = "8/8/8/3k4/8/8/8/5RQK w - - 0 1";

/// White to move with exactly one mating move: the rook from f1 to f8.
const MATE_IN_ONE_FEN: &str = "7k/8/6K1/8/8/8/8/5R2 w - - 0 1";

/// An unpruned reference minimax over the same tree, for comparison with
/// the pruned search.
fn minimax_ref(board: &Board, depth: i8, is_max: bool, total: &mut i64) -> i64 {
    if depth == 0 || board.status() != chess::BoardStatus::Ongoing {
        *total += 1;
        return calc_board_value(board);
    }
    let mut best = if is_max { i64::MIN } else { i64::MAX };
    for mv in chess::MoveGen::new_legal(board) {
        let child = board.make_move_new(mv);
        let v = minimax_ref(&child, depth - 1, !is_max, total);
        best = if is_max { best.max(v) } else { best.min(v) };
    }
    best
}

/// The evaluation at the end of the leftmost spine of the tree: the result
/// of a search whose window is already collapsed, which still searches the
/// first move at every level before the cutoff fires.
fn leftmost_leaf_value(board: &Board, depth: i8) -> i64 {
    if depth == 0 || board.status() != chess::BoardStatus::Ongoing {
        return calc_board_value(board);
    }
    let mv = chess::MoveGen::new_legal(board).next().unwrap();
    leftmost_leaf_value(&board.make_move_new(mv), depth - 1)
}

fn is_legal_in(board: &Board, m: &Move) -> bool {
    chess::MoveGen::new_legal(board).any(|cm| {
        cm.get_source().to_index() == m.from as usize
            && cm.get_dest().to_index() == m.to as usize
            && match (cm.get_promotion(), m.promotion) {
                (None, Promotion::NoPromotion) => true,
                (Some(chess::Piece::Knight), Promotion::Knight) => true,
                (Some(chess::Piece::Bishop), Promotion::Bishop) => true,
                (Some(chess::Piece::Rook), Promotion::Rook) => true,
                (Some(chess::Piece::Queen), Promotion::Queen) => true,
                _ => false,
            }
    })
}

#[test]
fn terminal_scoring_white_mated() {
    // White stands mated, so the score takes Black's (positive) direction.
    let board = Board::from_str(WHITE_MATED_FEN).unwrap();
    assert_eq!(board.status(), chess::BoardStatus::Checkmate);
    assert_eq!(calc_board_value(&board), MATE_SCORE);
}

#[test]
fn terminal_scoring_black_mated() {
    // Black stands mated, so the score takes White's (negative) direction.
    let board = Board::from_str(BLACK_MATED_FEN).unwrap();
    assert_eq!(board.status(), chess::BoardStatus::Checkmate);
    assert_eq!(calc_board_value(&board), -MATE_SCORE);
}

#[test]
fn terminal_scoring_stalemate() {
    let board = Board::from_str(STALEMATE_FEN).unwrap();
    assert_eq!(board.status(), chess::BoardStatus::Stalemate);
    assert_eq!(calc_board_value(&board), 0);
}

#[test]
fn evaluate_two_pawn_position_exact() {
    let board = Board::from_str(TWO_PAWNS_FEN).unwrap();
    // White pawn d2: -(100 + 5); Black pawn e5 mirrored to d4: +(100 + 15);
    // White king d1: -(0 - 6); Black king d5 mirrored to e4: +(0 - 6).
    assert_eq!(calc_board_value(&board), -105 + 115 + 6 - 6);
}

#[test]
fn piece_value_exact() {
    // A white pawn on d2 (square 11, rank 1).
    assert_eq!(calc_piece_value(0, 11, Some(PieceColor::White)), -105);
    // A black pawn on e5 (square 36), read from the mirrored square d4.
    assert_eq!(calc_piece_value(0, 36, Some(PieceColor::Black)), 115);
    // An empty square contributes nothing.
    assert_eq!(calc_piece_value(4, 20, None), 0);
}

#[test]
fn square_bonus_exact() {
    // A pawn gains 5 per rank of advancement.
    assert_eq!(square_bonus(0, 11), 5);
    assert_eq!(square_bonus(0, 51), 30);
    // A knight on a corner loses 20, on a centre square gains 28.
    assert_eq!(square_bonus(1, 0), -20);
    assert_eq!(square_bonus(1, 27), 28);
    // The king prefers the wings.
    assert_eq!(square_bonus(5, 4), 12 - 18);
    assert_eq!(square_bonus(5, 7), 12);
}

#[test]
fn depth_zero_returns_evaluation_and_counts_one() {
    let board = Board::default();
    let mut total: i64 = 0;
    let v = alpha_beta(&board, 0, true, i64::MIN, i64::MAX, &mut total);
    assert_eq!(v, calc_board_value(&board));
    assert_eq!(total, 1);
    let mut total2: i64 = 0;
    let v2 = alpha_beta(&board, 0, false, -10, 10, &mut total2);
    assert_eq!(v2, calc_board_value(&board));
    assert_eq!(total2, 1);
}

#[test]
fn depth_zero_on_terminal_positions() {
    for fen in [WHITE_MATED_FEN, BLACK_MATED_FEN, STALEMATE_FEN] {
        let board = Board::from_str(fen).unwrap();
        let mut total: i64 = 0;
        let v = alpha_beta(&board, 3, true, i64::MIN, i64::MAX, &mut total);
        assert_eq!(v, calc_board_value(&board));
        assert_eq!(total, 1);
    }
}

#[test]
fn search_is_deterministic() {
    let board = Board::from_str(ENDGAME_FEN).unwrap();
    let mut t1: i64 = 0;
    let mut t2: i64 = 0;
    let v1 = alpha_beta(&board, 3, false, i64::MIN, i64::MAX, &mut t1);
    let v2 = alpha_beta(&board, 3, false, i64::MIN, i64::MAX, &mut t2);
    assert_eq!(v1, v2);
    assert_eq!(t1, t2);
    let r1 = find_best_move(&board, 2);
    let r2 = find_best_move(&board, 2);
    assert_eq!(r1, r2);
}

#[test]
fn pruned_search_equals_unpruned_minimax() {
    for (fen, is_max) in [
        (ENDGAME_FEN, false),
        (TWO_PAWNS_FEN, false),
        (HANGING_QUEEN_FEN, false),
    ] {
        let board = Board::from_str(fen).unwrap();
        for depth in 0..3i8 {
            let mut total: i64 = 0;
            let pruned = alpha_beta(&board, depth, is_max, i64::MIN, i64::MAX, &mut total);
            let mut ref_total: i64 = 0;
            let unpruned = minimax_ref(&board, depth, is_max, &mut ref_total);
            assert_eq!(pruned, unpruned);
        }
    }
    let board = Board::default();
    let mut total: i64 = 0;
    let pruned = alpha_beta(&board, 2, true, i64::MIN, i64::MAX, &mut total);
    let mut ref_total: i64 = 0;
    let unpruned = minimax_ref(&board, 2, true, &mut ref_total);
    assert_eq!(pruned, unpruned);
    // Pruning may only skip positions, never visit more.
    assert!(total <= ref_total);
}

#[test]
fn selector_counts_one_per_root_move_at_depth_zero() {
    // With no further plies each root move is evaluated exactly once, so the
    // count equals the number of legal moves: 20 in the starting position.
    let board = Board::default();
    let (best, total) = find_best_move(&board, 0);
    assert!(best.is_some());
    assert_eq!(total, 20);
}

#[test]
fn selector_returns_a_legal_move_from_start() {
    let board = Board::default();
    let (best, total) = find_best_move(&board, 1);
    let mv = best.expect("the starting position has legal moves");
    assert!(is_legal_in(&board, &mv));
    assert!(total > 0);
}

#[test]
fn selector_returns_none_with_no_legal_moves() {
    for fen in [STALEMATE_FEN, WHITE_MATED_FEN, BLACK_MATED_FEN] {
        let board = Board::from_str(fen).unwrap();
        let (best, total) = find_best_move(&board, 3);
        assert_eq!(best, None);
        assert_eq!(total, 0);
    }
}

#[test]
fn selector_takes_the_hanging_queen() {
    // White prefers the lowest score; capturing the queen on d8 removes
    // Black's strongest piece, so the depth-zero selector must pick d1 to d8.
    let board = Board::from_str(HANGING_QUEEN_FEN).unwrap();
    let (best, _) = find_best_move(&board, 0);
    let mv = best.expect("White has legal moves");
    assert_eq!(mv.from, 3);
    assert_eq!(mv.to, 59);
    assert_eq!(mv.promotion, Promotion::NoPromotion);
}

#[test]
fn selector_ignores_window_when_counting_root_children() {
    // Each root child of the endgame position is searched with the full
    // window, so repeating the call cannot change the count.
    let board = Board::from_str(ENDGAME_FEN).unwrap();
    let (_, t1) = find_best_move(&board, 1);
    let (_, t2) = find_best_move(&board, 1);
    assert!(t1 > 0);
    assert_eq!(t1, t2);
}

#[test]
fn selector_promotes_to_a_queen() {
    // White pawn on a7, kings on a1 and h7: promoting to a queen removes
    // the most material from White's perspective and must be selected.
    let board = Board::from_str("8/P6k/8/8/8/8/8/K7 w - - 0 1").unwrap();
    let (best, _) = find_best_move(&board, 0);
    let mv = best.expect("White has legal moves");
    assert_eq!(mv.from, 48);
    assert_eq!(mv.to, 56);
    assert_eq!(mv.promotion, Promotion::Queen);
    assert!(is_legal_in(&board, &mv));
}

#[test]
fn selector_plays_the_mating_move() {
    // The mating move leaves Black to move and checkmated, the lowest
    // possible score, so White's selector must choose it at any depth.
    let board = Board::from_str(MATE_IN_ONE_FEN).unwrap();
    for depth in [1i8, 2] {
        let (best, _) = find_best_move(&board, depth);
        let mv = best.expect("White has legal moves");
        assert_eq!(mv.from, 5);
        assert_eq!(mv.to, 61);
        assert_eq!(mv.promotion, Promotion::NoPromotion);
        assert!(is_legal_in(&board, &mv));
    }
}

#[test]
fn mating_child_scores_exactly_minus_mate() {
    // The child of the mating move has Black to move and checkmated, so
    // the score the selector records for it is exactly -MATE_SCORE.
    let board = Board::from_str(MATE_IN_ONE_FEN).unwrap();
    let child = board.make_move_new(chess::ChessMove::new(
        chess::ALL_SQUARES[5],
        chess::ALL_SQUARES[61],
        None,
    ));
    assert_eq!(child.status(), chess::BoardStatus::Checkmate);
    for depth in [1i8, 2, 3] {
        let mut total: i64 = 0;
        let v = alpha_beta(&child, depth, false, i64::MIN, i64::MAX, &mut total);
        assert_eq!(v, -MATE_SCORE);
        assert_eq!(total, 1);
    }
}

#[test]
fn collapsed_window_still_searches_the_first_move() {
    // The cutoff is tested only after a move has been searched, so a call
    // whose window starts collapsed follows the leftmost spine, evaluates
    // exactly one position and returns its value.
    for fen in [None, Some(ENDGAME_FEN)] {
        let board = fen.map_or_else(Board::default, |f| Board::from_str(f).unwrap());
        for (alpha, beta) in [(10i64, -10i64), (0, 0)] {
            for (depth, is_max) in [(1i8, true), (2, false), (3, true)] {
                let mut total: i64 = 0;
                let v = alpha_beta(&board, depth, is_max, alpha, beta, &mut total);
                assert_eq!(v, leftmost_leaf_value(&board, depth));
                assert_eq!(total, 1);
            }
        }
    }
}
