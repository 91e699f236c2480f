//! The static evaluator: a signed score for a position.  White pieces
//! contribute negatively and Black pieces positively, so lower scores
//! favour White and higher scores favour Black.  A checkmate scores the
//! full mate value in the winner's direction: positive when White stands
//! mated, negative when Black does.  Stalemate scores zero; an ongoing
//! position scores the sum of per-piece contributions, a base value per
//! piece type plus a per-square positional bonus, indexed from White's
//! side and mirrored vertically for Black.

use crate::rules::{board_status, black_to_move, color_at, piece_squares};
use crate::rules::{spec_black_to_move, spec_color_at, spec_piece_squares, spec_status};
use crate::rules::{GameStatus, PieceColor};
use vstd::prelude::*;

verus! {

/// The magnitude of the score of a position in which the side to move has
/// been checkmated; the sign follows the winner's direction.
pub const MATE_SCORE: i64 = 20000;

/// A bound on the magnitude of a single piece's contribution.
pub const PIECE_BOUND: i64 = 960;

/// A bound on the magnitude of any evaluation: six piece types, at most 64
/// squares each, each square worth at most `PIECE_BOUND`, and the mate
/// score lies well inside it.
pub const EVAL_BOUND: i64 = 368640;

/// The base value of a piece type: pawn, knight, bishop, rook, queen, king.
pub open spec fn spec_piece_base(pc: int) -> int {
    if pc == 0 {
        100
    } else if pc == 1 {
        320
    } else if pc == 2 {
        330
    } else if pc == 3 {
        500
    } else if pc == 4 {
        900
    } else {
        0
    }
}

/// How near a rank or file coordinate stands to the middle of the board:
/// 0 at the edges, 3 in the centre.
pub open spec fn spec_center_closeness(x: int) -> int {
    if x <= 3 {
        x
    } else {
        7 - x
    }
}

/// The positional bonus of a piece of type `pc` standing on square `sq`,
/// seen from White's side of the board.  Pawns and rooks gain by advancing,
/// knights, bishops and queens by centralisation, the king by keeping to
/// the wings.  Outside the board the bonus is zero.
pub open spec fn spec_square_bonus(pc: int, sq: int) -> int {
    if 0 <= pc < 6 && 0 <= sq < 64 {
        let rank = sq / 8;
        let file = sq % 8;
        let center = spec_center_closeness(rank) + spec_center_closeness(file);
        if pc == 0 {
            5 * rank
        } else if pc == 1 {
            8 * center - 20
        } else if pc == 2 {
            5 * center - 12
        } else if pc == 3 {
            3 * rank
        } else if pc == 4 {
            2 * center
        } else {
            12 - 6 * spec_center_closeness(file)
        }
    } else {
        0
    }
}

/// The signed contribution of one piece: negative for White, positive for
/// Black, zero for an empty square; Black reads the bonus table mirrored.
pub open spec fn spec_piece_value(pc: int, sq: int, color: Option<PieceColor>) -> int {
    match color {
        Option::Some(PieceColor::White) => -(spec_piece_base(pc) + spec_square_bonus(pc, sq)),
        Option::Some(PieceColor::Black) => spec_piece_base(pc) + spec_square_bonus(pc, 63 - sq),
        Option::None => 0,
    }
}

/// The summed contribution of the first `n` listed squares of piece type
/// `pc` on board `b`.
pub open spec fn spec_type_sum(b: chess::Board, pc: int, n: int) -> int
    decreases n,
{
    if n <= 0 {
        0
    } else {
        let sq = spec_piece_squares(b, pc)[n - 1] as int;
        spec_type_sum(b, pc, n - 1) + spec_piece_value(pc, sq, spec_color_at(b, sq))
    }
}

/// How many listed squares of a piece type enter the sum: all of them; a
/// bitboard never lists more than 64.
pub open spec fn spec_type_count(b: chess::Board, pc: int) -> int {
    if spec_piece_squares(b, pc).len() <= 64 {
        spec_piece_squares(b, pc).len() as int
    } else {
        64
    }
}

/// The material-and-position score of the first `k` piece types.
pub open spec fn spec_material_upto(b: chess::Board, k: int) -> int
    decreases k,
{
    if k <= 0 {
        0
    } else {
        spec_material_upto(b, k - 1) + spec_type_sum(b, k - 1, spec_type_count(b, k - 1))
    }
}

/// The material-and-position score of an ongoing position: the sum over
/// every piece of its signed contribution.
pub open spec fn spec_material(b: chess::Board) -> int {
    spec_material_upto(b, 6)
}

/// What the evaluator returns for any position.
pub open spec fn spec_evaluate(b: chess::Board) -> int {
    match spec_status(b) {
        GameStatus::Checkmate => if spec_black_to_move(b) {
            -(MATE_SCORE as int)
        } else {
            MATE_SCORE as int
        },
        GameStatus::Stalemate => 0,
        GameStatus::Ongoing => spec_material(b),
    }
}

/// A single piece contribution never exceeds `PIECE_BOUND` in magnitude.
proof fn lemma_piece_value_bound(pc: int, sq: int, color: Option<PieceColor>)
    ensures
        -PIECE_BOUND <= spec_piece_value(pc, sq, color) <= PIECE_BOUND,
{
}

/// A partial per-type sum is bounded by the number of its terms.
proof fn lemma_type_sum_bound(b: chess::Board, pc: int, n: int)
    requires
        n <= 64,
    ensures
        -61440 <= spec_type_sum(b, pc, n) <= 61440,
    decreases n,
{
    if n <= 0 {
    } else {
        lemma_type_sum_bound_partial(b, pc, n);
    }
}

/// A partial per-type sum of `n` terms is bounded by `n` piece bounds.
proof fn lemma_type_sum_bound_partial(b: chess::Board, pc: int, n: int)
    requires
        0 <= n,
    ensures
        -960 * n <= spec_type_sum(b, pc, n) <= 960 * n,
    decreases n,
{
    if n == 0 {
    } else {
        lemma_type_sum_bound_partial(b, pc, n - 1);
        let sq = spec_piece_squares(b, pc)[n - 1] as int;
        lemma_piece_value_bound(pc, sq, spec_color_at(b, sq));
    }
}

/// The whole material score stays within `EVAL_BOUND`.
proof fn lemma_material_bound(b: chess::Board)
    ensures
        -EVAL_BOUND <= spec_material(b) <= EVAL_BOUND,
{
    lemma_material_upto_bound(b, 6);
}

proof fn lemma_material_upto_bound(b: chess::Board, k: int)
    requires
        0 <= k <= 6,
    ensures
        -61440 * k <= spec_material_upto(b, k) <= 61440 * k,
    decreases k,
{
    if k == 0 {
    } else {
        lemma_material_upto_bound(b, k - 1);
        lemma_type_sum_bound(b, k - 1, spec_type_count(b, k - 1));
    }
}

/// Every evaluation stays within `EVAL_BOUND`.
pub proof fn lemma_evaluate_bound(b: chess::Board)
    ensures
        -EVAL_BOUND <= spec_evaluate(b) <= EVAL_BOUND,
{
    lemma_material_bound(b);
}

/// The base value of a piece type.
pub fn piece_base(pc: usize) -> (r: i64)
    requires
        pc < 6,
    ensures
        r == spec_piece_base(pc as int),
{
    if pc == 0 {
        100
    } else if pc == 1 {
        320
    } else if pc == 2 {
        330
    } else if pc == 3 {
        500
    } else if pc == 4 {
        900
    } else {
        0
    }
}

/// The positional bonus of piece type `pc` on square `sq`, from White's
/// side of the board.
pub fn square_bonus(pc: usize, sq: usize) -> (r: i64)
    requires
        pc < 6,
        sq < 64,
    ensures
        r == spec_square_bonus(pc as int, sq as int),
{
    let rank = (sq / 8) as i64;
    let file = (sq % 8) as i64;
    let rank_c = if rank <= 3 { rank } else { 7 - rank };
    let file_c = if file <= 3 { file } else { 7 - file };
    let center = rank_c + file_c;
    if pc == 0 {
        5 * rank
    } else if pc == 1 {
        8 * center - 20
    } else if pc == 2 {
        5 * center - 12
    } else if pc == 3 {
        3 * rank
    } else if pc == 4 {
        2 * center
    } else {
        12 - 6 * file_c
    }
}

/// The signed contribution of one piece of type `pc` on square `sq` with
/// the given colour.
pub fn calc_piece_value(pc_idx: usize, sq_idx: usize, color: Option<PieceColor>) -> (r: i64)
    requires
        pc_idx < 6,
        sq_idx < 64,
    ensures
        r == spec_piece_value(pc_idx as int, sq_idx as int, color),
        -PIECE_BOUND <= r <= PIECE_BOUND,
{
    match color {
        Option::Some(PieceColor::White) => {
            -(piece_base(pc_idx) + square_bonus(pc_idx, sq_idx))
        },
        Option::Some(PieceColor::Black) => {
            piece_base(pc_idx) + square_bonus(pc_idx, 63 - sq_idx)
        },
        Option::None => 0,
    }
}

/// The material-and-position score of a position: the sum, over every piece
/// type and every square holding such a piece, of the piece's signed
/// contribution.
pub fn calc_pieces_value(b: &chess::Board) -> (r: i64)
    ensures
        r == spec_material(*b),
        -EVAL_BOUND <= r <= EVAL_BOUND,
{
    let mut result: i64 = 0;
    let mut pc: usize = 0;
    while pc < 6
        invariant
            pc <= 6,
            result == spec_material_upto(*b, pc as int),
            -61440 * pc <= result <= 61440 * pc,
        decreases 6 - pc,
    {
        let squares = piece_squares(b, pc);
        let count = squares.len();
        let mut tsum: i64 = 0;
        let mut i: usize = 0;
        while i < count
            invariant
                i <= count,
                pc < 6,
                count == squares@.len() <= 64,
                squares@ == spec_piece_squares(*b, pc as int),
                forall|j: int| 0 <= j < squares@.len() ==> squares@[j] < 64,
                tsum == spec_type_sum(*b, pc as int, i as int),
                -960 * i <= tsum <= 960 * i,
            decreases count - i,
        {
            let sq = squares[i];
            let color = color_at(b, sq);
            let contribution = calc_piece_value(pc, sq, color);
            tsum = tsum + contribution;
            i = i + 1;
        }
        proof {
            assert(spec_type_count(*b, pc as int) == count as int);
            lemma_material_upto_bound(*b, pc as int);
            lemma_type_sum_bound(*b, pc as int, count as int);
        }
        result = result + tsum;
        pc = pc + 1;
    }
    result
}

/// The evaluator: on checkmate the mate score in the winner's direction
/// (positive when White is the mated side to move, negative when Black
/// is), zero for stalemate, and the material-and-position sum for an
/// ongoing position.
pub fn calc_board_value(b: &chess::Board) -> (r: i64)
    ensures
        r == spec_evaluate(*b),
        -EVAL_BOUND <= r <= EVAL_BOUND,
{
    match board_status(b) {
        GameStatus::Checkmate => {
            if black_to_move(b) {
                -MATE_SCORE
            } else {
                MATE_SCORE
            }
        },
        GameStatus::Stalemate => 0,
        GameStatus::Ongoing => calc_pieces_value(b),
    }
}

} // verus!
