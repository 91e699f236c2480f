//! The interface to the rules engine: the `chess` crate owns the board
//! representation, move legality and terminal detection.  A position is an
//! opaque `chess::Board` value; everything the engine reads of it goes
//! through the trusted wrappers below, whose contracts name what the crate's
//! pure functions return.

use vstd::prelude::*;

verus! {

/// Terminal classification of a position, as the rules engine reports it.
#[derive(Clone, Copy, PartialEq, Eq, Structural, Debug)]
pub enum GameStatus {
    Ongoing,
    Checkmate,
    Stalemate,
}

/// The colour of a piece standing on a square.
#[derive(Clone, Copy, PartialEq, Eq, Structural, Debug)]
pub enum PieceColor {
    White,
    Black,
}

/// The promotion a move carries, if it promotes a pawn.
#[derive(Clone, Copy, PartialEq, Eq, Structural, Debug)]
pub enum Promotion {
    NoPromotion,
    Knight,
    Bishop,
    Rook,
    Queen,
}

/// A legal move: source and destination square indices (0 = a1, 63 = h8)
/// and the promotion piece, if any.  A move is meaningful only relative to
/// the position it was enumerated from.
#[derive(Clone, Copy, PartialEq, Eq, Structural, Debug)]
pub struct Move {
    pub from: u8,
    pub to: u8,
    pub promotion: Promotion,
}

#[verifier::external_type_specification]
#[verifier::external_body]
pub struct ExBoard(chess::Board);

/// The terminal status that `chess::Board::status` reports for a position.
pub uninterp spec fn spec_status(b: chess::Board) -> GameStatus;

/// Whether `chess::Board::side_to_move` reports Black for a position.
pub uninterp spec fn spec_black_to_move(b: chess::Board) -> bool;

/// The square indices, in bitboard order, on which `chess::Board::pieces`
/// reports a piece of the given type (0 pawn, 1 knight, 2 bishop, 3 rook,
/// 4 queen, 5 king).
pub uninterp spec fn spec_piece_squares(b: chess::Board, pc_idx: int) -> Seq<usize>;

/// The colour that `chess::Board::color_on` reports for a square.
pub uninterp spec fn spec_color_at(b: chess::Board, sq_idx: int) -> Option<PieceColor>;

/// The legal moves of a position, in `chess::MoveGen`'s enumeration order.
pub uninterp spec fn spec_legal_moves(b: chess::Board) -> Seq<Move>;

/// The successor position that `chess::Board::make_move_new` produces.
pub uninterp spec fn spec_apply(b: chess::Board, m: Move) -> chess::Board;

/// Relies on `chess::Board::status`: ongoing, stalemate or checkmate,
/// computed from the position value alone.
#[verifier::external_body]
pub fn board_status(b: &chess::Board) -> (r: GameStatus)
    ensures
        r == spec_status(*b),
{
    match b.status() {
        chess::BoardStatus::Ongoing => GameStatus::Ongoing,
        chess::BoardStatus::Checkmate => GameStatus::Checkmate,
        chess::BoardStatus::Stalemate => GameStatus::Stalemate,
    }
}

/// Relies on `chess::Board::side_to_move`, a function of the position alone.
#[verifier::external_body]
pub fn black_to_move(b: &chess::Board) -> (r: bool)
    ensures
        r == spec_black_to_move(*b),
{
    b.side_to_move() == chess::Color::Black
}

/// Relies on `chess::Board::pieces` and `chess::Square::to_index`: the
/// squares holding a piece of the given type.  A square index is below 64,
/// and a 64-bit bitboard holds at most 64 squares.
#[verifier::external_body]
pub fn piece_squares(b: &chess::Board, pc_idx: usize) -> (r: Vec<usize>)
    requires
        pc_idx < 6,
    ensures
        r@ == spec_piece_squares(*b, pc_idx as int),
        r@.len() <= 64,
        forall|i: int| 0 <= i < r@.len() ==> r@[i] < 64,
{
    b.pieces(chess::ALL_PIECES[pc_idx])
        .into_iter()
        .map(|sq: chess::Square| sq.to_index())
        .collect()
}

/// Relies on `chess::Board::color_on`, a function of the position alone.
#[verifier::external_body]
pub fn color_at(b: &chess::Board, sq_idx: usize) -> (r: Option<PieceColor>)
    requires
        sq_idx < 64,
    ensures
        r == spec_color_at(*b, sq_idx as int),
{
    match b.color_on(chess::ALL_SQUARES[sq_idx]) {
        Option::None => Option::None,
        Option::Some(chess::Color::White) => Option::Some(PieceColor::White),
        Option::Some(chess::Color::Black) => Option::Some(PieceColor::Black),
    }
}

/// Relies on `chess::MoveGen::new_legal` and the `chess::ChessMove`
/// accessors: the legal moves of the position, in the generator's own
/// order, each given by its source square, destination square and
/// promotion piece.  Square indices are below 64, and the status of a
/// position is ongoing exactly when it has a legal move, since
/// `chess::Board::status` classifies by the generator's move count.
#[verifier::external_body]
pub fn legal_moves(b: &chess::Board) -> (r: Vec<Move>)
    ensures
        r@ == spec_legal_moves(*b),
        forall|i: int| 0 <= i < r@.len() ==> r@[i].from < 64 && r@[i].to < 64,
        r@.len() > 0 <==> spec_status(*b) == GameStatus::Ongoing,
{
    chess::MoveGen::new_legal(b)
        .map(|m: chess::ChessMove| Move {
            from: m.get_source().to_index() as u8,
            to: m.get_dest().to_index() as u8,
            promotion: match m.get_promotion() {
                Option::Some(chess::Piece::Knight) => Promotion::Knight,
                Option::Some(chess::Piece::Bishop) => Promotion::Bishop,
                Option::Some(chess::Piece::Rook) => Promotion::Rook,
                Option::Some(chess::Piece::Queen) => Promotion::Queen,
                _ => Promotion::NoPromotion,
            },
        })
        .collect()
}

/// Relies on `chess::Board::make_move_new`, a function of the position and
/// the move alone; on a move the generator listed it applies the move and
/// does not panic.
#[verifier::external_body]
pub fn apply_move(b: &chess::Board, m: Move) -> (r: chess::Board)
    requires
        spec_legal_moves(*b).contains(m),
        m.from < 64,
        m.to < 64,
    ensures
        r == spec_apply(*b, m),
{
    let promotion = match m.promotion {
        Promotion::NoPromotion => Option::None,
        Promotion::Knight => Option::Some(chess::Piece::Knight),
        Promotion::Bishop => Option::Some(chess::Piece::Bishop),
        Promotion::Rook => Option::Some(chess::Piece::Rook),
        Promotion::Queen => Option::Some(chess::Piece::Queen),
    };
    let from = chess::ALL_SQUARES[m.from as usize];
    let to = chess::ALL_SQUARES[m.to as usize];
    b.make_move_new(chess::ChessMove::new(from, to, promotion))
}

} // verus!
