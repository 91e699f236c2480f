//! The laws of the search engine.  `spec_minimax` is the unpruned
//! depth-limited minimax search; the central result proves that the pruned
//! search of `search` returns exactly the same score when started on the
//! full window, so pruning changes which subtrees are visited but never the
//! returned score.

use crate::eval::{lemma_evaluate_bound, spec_evaluate, MATE_SCORE};
use crate::rules::{spec_black_to_move, spec_legal_moves, spec_status, GameStatus};
use crate::search::{max_i, min_i, spec_ab, spec_ab_count, spec_ab_count_from, spec_ab_from, spec_child};
use vstd::prelude::*;

verus! {

/// The unpruned minimax value of `b` with `depth` plies left: the
/// evaluation at the base case, and otherwise the plain maximum or minimum
/// over all children, each searched one ply shallower with the flag
/// flipped.
pub open spec fn spec_minimax(b: chess::Board, depth: int, is_max: bool) -> int
    decreases depth, spec_legal_moves(b).len() + 1,
{
    if depth <= 0 || spec_status(b) != GameStatus::Ongoing {
        spec_evaluate(b)
    } else if is_max {
        spec_mm_from(b, depth, true, i64::MIN as int, 0)
    } else {
        spec_mm_from(b, depth, false, i64::MAX as int, 0)
    }
}

/// The unpruned fold over the legal moves of `b` from index `i` on, with
/// running best score `best`: every child is visited.
pub open spec fn spec_mm_from(b: chess::Board, depth: int, is_max: bool, best: int, i: int) -> int
    decreases depth, spec_legal_moves(b).len() - i,
{
    if depth <= 0 || i < 0 || i >= spec_legal_moves(b).len() {
        best
    } else {
        let w = spec_minimax(spec_child(b, i), depth - 1, !is_max);
        if is_max {
            spec_mm_from(b, depth, true, max_i(best, w), i + 1)
        } else {
            spec_mm_from(b, depth, false, min_i(best, w), i + 1)
        }
    }
}

/// Every minimax value lies between the two search sentinels.
proof fn lemma_mm_range(b: chess::Board, depth: int, is_max: bool)
    ensures
        i64::MIN as int <= spec_minimax(b, depth, is_max) <= i64::MAX as int,
    decreases depth, spec_legal_moves(b).len() + 1,
{
    if depth <= 0 || spec_status(b) != GameStatus::Ongoing {
        lemma_evaluate_bound(b);
    } else if is_max {
        lemma_mm_from_range(b, depth, true, i64::MIN as int, 0);
    } else {
        lemma_mm_from_range(b, depth, false, i64::MAX as int, 0);
    }
}

proof fn lemma_mm_from_range(b: chess::Board, depth: int, is_max: bool, best: int, i: int)
    requires
        i64::MIN as int <= best <= i64::MAX as int,
    ensures
        i64::MIN as int <= spec_mm_from(b, depth, is_max, best, i) <= i64::MAX as int,
    decreases depth, spec_legal_moves(b).len() - i,
{
    if depth <= 0 || i < 0 || i >= spec_legal_moves(b).len() {
    } else {
        let w = spec_minimax(spec_child(b, i), depth - 1, !is_max);
        lemma_mm_range(spec_child(b, i), depth - 1, !is_max);
        if is_max {
            lemma_mm_from_range(b, depth, true, max_i(best, w), i + 1);
        } else {
            lemma_mm_from_range(b, depth, false, min_i(best, w), i + 1);
        }
    }
}

/// Every pruned search value lies between the two search sentinels.
proof fn lemma_ab_range(b: chess::Board, depth: int, is_max: bool, alpha: int, beta: int)
    ensures
        i64::MIN as int <= spec_ab(b, depth, is_max, alpha, beta) <= i64::MAX as int,
    decreases depth, spec_legal_moves(b).len() + 1,
{
    if depth <= 0 || spec_status(b) != GameStatus::Ongoing {
        lemma_evaluate_bound(b);
    } else if is_max {
        lemma_ab_from_range(b, depth, true, alpha, beta, i64::MIN as int, 0);
    } else {
        lemma_ab_from_range(b, depth, false, alpha, beta, i64::MAX as int, 0);
    }
}

proof fn lemma_ab_from_range(
    b: chess::Board,
    depth: int,
    is_max: bool,
    alpha: int,
    beta: int,
    best: int,
    i: int,
)
    requires
        i64::MIN as int <= best <= i64::MAX as int,
    ensures
        i64::MIN as int <= spec_ab_from(b, depth, is_max, alpha, beta, best, i) <= i64::MAX as int,
    decreases depth, spec_legal_moves(b).len() - i,
{
    if depth <= 0 || (i > 0 && beta <= alpha) || i < 0 || i >= spec_legal_moves(b).len() {
    } else {
        let v = spec_ab(spec_child(b, i), depth - 1, !is_max, alpha, beta);
        lemma_ab_range(spec_child(b, i), depth - 1, !is_max, alpha, beta);
        if is_max {
            lemma_ab_from_range(b, depth, true, max_i(alpha, max_i(best, v)), beta,
                max_i(best, v), i + 1);
        } else {
            lemma_ab_from_range(b, depth, false, alpha, min_i(beta, min_i(best, v)),
                min_i(best, v), i + 1);
        }
    }
}

/// The pruned fold never loses against its accumulator: maximising it
/// returns at least `best`, minimising at most `best`.
proof fn lemma_ab_from_bound(
    b: chess::Board,
    depth: int,
    is_max: bool,
    alpha: int,
    beta: int,
    best: int,
    i: int,
)
    ensures
        is_max ==> spec_ab_from(b, depth, is_max, alpha, beta, best, i) >= best,
        !is_max ==> spec_ab_from(b, depth, is_max, alpha, beta, best, i) <= best,
    decreases spec_legal_moves(b).len() - i,
{
    if depth <= 0 || (i > 0 && beta <= alpha) || i < 0 || i >= spec_legal_moves(b).len() {
    } else {
        let v = spec_ab(spec_child(b, i), depth - 1, !is_max, alpha, beta);
        if is_max {
            lemma_ab_from_bound(b, depth, true, max_i(alpha, max_i(best, v)), beta,
                max_i(best, v), i + 1);
        } else {
            lemma_ab_from_bound(b, depth, false, alpha, min_i(beta, min_i(best, v)),
                min_i(best, v), i + 1);
        }
    }
}

/// Folding with accumulator `best` is folding with the sentinel and taking
/// `best` into the result afterwards.
proof fn lemma_mm_decomp(b: chess::Board, depth: int, is_max: bool, best: int, i: int)
    requires
        i64::MIN as int <= best <= i64::MAX as int,
    ensures
        is_max ==> spec_mm_from(b, depth, true, best, i) == max_i(
            best,
            spec_mm_from(b, depth, true, i64::MIN as int, i),
        ),
        !is_max ==> spec_mm_from(b, depth, false, best, i) == min_i(
            best,
            spec_mm_from(b, depth, false, i64::MAX as int, i),
        ),
    decreases depth, spec_legal_moves(b).len() - i,
{
    if depth <= 0 || i < 0 || i >= spec_legal_moves(b).len() {
    } else {
        let w = spec_minimax(spec_child(b, i), depth - 1, !is_max);
        lemma_mm_range(spec_child(b, i), depth - 1, !is_max);
        if is_max {
            lemma_mm_decomp(b, depth, true, max_i(best, w), i + 1);
            lemma_mm_decomp(b, depth, true, max_i(i64::MIN as int, w), i + 1);
        } else {
            lemma_mm_decomp(b, depth, false, min_i(best, w), i + 1);
            lemma_mm_decomp(b, depth, false, min_i(i64::MAX as int, w), i + 1);
        }
    }
}

/// The window soundness of the pruned search against the unpruned one: a
/// result inside the window is exact, a result at or under `alpha` bounds
/// the true value from above, a result at or over `beta` bounds it from
/// below.
proof fn lemma_ab_mm(b: chess::Board, depth: int, is_max: bool, alpha: int, beta: int)
    requires
        i64::MIN as int <= alpha < beta <= i64::MAX as int,
    ensures
        ({
            let f = spec_ab(b, depth, is_max, alpha, beta);
            let g = spec_minimax(b, depth, is_max);
            &&& (f <= alpha ==> g <= f)
            &&& (alpha < f < beta ==> g == f)
            &&& (beta <= f ==> f <= g)
        }),
    decreases depth, spec_legal_moves(b).len() + 1,
{
    if depth <= 0 || spec_status(b) != GameStatus::Ongoing {
    } else if is_max {
        lemma_ab_mm_from(b, depth, true, alpha, beta, i64::MIN as int, 0);
    } else {
        lemma_ab_mm_from(b, depth, false, alpha, beta, i64::MAX as int, 0);
    }
}

proof fn lemma_ab_mm_from(
    b: chess::Board,
    depth: int,
    is_max: bool,
    alpha: int,
    beta: int,
    best: int,
    i: int,
)
    requires
        i64::MIN as int <= alpha < beta <= i64::MAX as int,
        is_max ==> i64::MIN as int <= best <= alpha,
        !is_max ==> beta <= best <= i64::MAX as int,
    ensures
        ({
            let f = spec_ab_from(b, depth, is_max, alpha, beta, best, i);
            let g = spec_mm_from(b, depth, is_max, best, i);
            &&& (f <= alpha ==> g <= f)
            &&& (alpha < f < beta ==> g == f)
            &&& (beta <= f ==> f <= g)
        }),
    decreases depth, spec_legal_moves(b).len() - i,
{
    if depth <= 0 || i < 0 || i >= spec_legal_moves(b).len() {
    } else {
        let c = spec_child(b, i);
        let v = spec_ab(c, depth - 1, !is_max, alpha, beta);
        let w = spec_minimax(c, depth - 1, !is_max);
        lemma_ab_mm(c, depth - 1, !is_max, alpha, beta);
        lemma_mm_range(c, depth - 1, !is_max);
        if is_max {
            let best2 = max_i(best, v);
            let alpha2 = max_i(alpha, best2);
            let f = spec_ab_from(b, depth, true, alpha, beta, best, i);
            let g = spec_mm_from(b, depth, true, best, i);
            assert(f == spec_ab_from(b, depth, true, alpha2, beta, best2, i + 1));
            assert(g == spec_mm_from(b, depth, true, max_i(best, w), i + 1));
            lemma_mm_decomp(b, depth, true, max_i(best, w), i + 1);
            let m1 = spec_mm_from(b, depth, true, i64::MIN as int, i + 1);
            if beta <= v {
                assert(f == best2);
                assert(v <= w);
            } else {
                lemma_ab_mm_from(b, depth, true, alpha2, beta, best2, i + 1);
                lemma_ab_from_bound(b, depth, true, alpha2, beta, best2, i + 1);
                lemma_mm_decomp(b, depth, true, best2, i + 1);
                if v <= alpha {
                    assert(w <= v);
                } else {
                    assert(w == v);
                }
            }
        } else {
            let best2 = min_i(best, v);
            let beta2 = min_i(beta, best2);
            let f = spec_ab_from(b, depth, false, alpha, beta, best, i);
            let g = spec_mm_from(b, depth, false, best, i);
            assert(f == spec_ab_from(b, depth, false, alpha, beta2, best2, i + 1));
            assert(g == spec_mm_from(b, depth, false, min_i(best, w), i + 1));
            lemma_mm_decomp(b, depth, false, min_i(best, w), i + 1);
            let m1 = spec_mm_from(b, depth, false, i64::MAX as int, i + 1);
            if v <= alpha {
                assert(f == best2);
                assert(w <= v);
            } else {
                lemma_ab_mm_from(b, depth, false, alpha, beta2, best2, i + 1);
                lemma_ab_from_bound(b, depth, false, alpha, beta2, best2, i + 1);
                lemma_mm_decomp(b, depth, false, best2, i + 1);
                if beta <= v {
                    assert(v <= w);
                } else {
                    assert(w == v);
                }
            }
        }
    }
}

/// Alpha-beta correctness: started on the full window, the pruned search
/// returns exactly the unpruned minimax value of the same tree.
pub proof fn lemma_alpha_beta_equals_minimax(b: chess::Board, depth: int, is_max: bool)
    ensures
        spec_ab(b, depth, is_max, i64::MIN as int, i64::MAX as int) == spec_minimax(
            b,
            depth,
            is_max,
        ),
{
    lemma_ab_mm(b, depth, is_max, i64::MIN as int, i64::MAX as int);
    lemma_ab_range(b, depth, is_max, i64::MIN as int, i64::MAX as int);
    lemma_mm_range(b, depth, is_max);
}

/// A completed search always evaluates at least one position, whatever the
/// window: the cutoff is tested only after a move has been searched.  The
/// hypothesis is the rules engine's own shape, which `legal_moves`' contract
/// states of every position it is asked about: a position is ongoing
/// exactly when it has a legal move.
pub proof fn lemma_search_counts_at_least_one(
    b: chess::Board,
    depth: int,
    is_max: bool,
    alpha: int,
    beta: int,
)
    requires
        forall|p: chess::Board| spec_status(p) == GameStatus::Ongoing ==> spec_legal_moves(
            p,
        ).len() > 0,
    ensures
        spec_ab_count(b, depth, is_max, alpha, beta) >= 1,
    decreases depth,
{
    if depth <= 0 || spec_status(b) != GameStatus::Ongoing {
    } else {
        assert(spec_legal_moves(b).len() > 0);
        lemma_search_counts_at_least_one(spec_child(b, 0), depth - 1, !is_max, alpha, beta);
        let sentinel: int = if is_max {
            i64::MIN as int
        } else {
            i64::MAX as int
        };
        assert(spec_ab_count_from(b, depth, is_max, alpha, beta, sentinel, 0) >= spec_ab_count(
            spec_child(b, 0),
            depth - 1,
            !is_max,
            alpha,
            beta,
        ));
    }
}

/// Depth-zero base case: with no plies left the search returns the bare
/// evaluation of the position and counts exactly one position, whatever
/// the window and the flag.
pub proof fn lemma_depth_zero(b: chess::Board, is_max: bool, alpha: int, beta: int)
    ensures
        spec_ab(b, 0, is_max, alpha, beta) == spec_evaluate(b),
        spec_ab_count(b, 0, is_max, alpha, beta) == 1,
{
}

/// Terminal scoring: a checkmate scores the full mate value in the
/// winner's direction -- positive (Black's direction) when White is the
/// mated side to move, negative (White's direction) when Black is -- and a
/// stalemate scores zero, whatever material stands on the board.
pub proof fn lemma_terminal_scoring(b: chess::Board)
    ensures
        spec_status(b) == GameStatus::Checkmate && !spec_black_to_move(b) ==> spec_evaluate(b)
            == MATE_SCORE as int,
        spec_status(b) == GameStatus::Checkmate && spec_black_to_move(b) ==> spec_evaluate(b)
            == -(MATE_SCORE as int),
        spec_status(b) == GameStatus::Stalemate ==> spec_evaluate(b) == 0,
{
}

} // verus!
