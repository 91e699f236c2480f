//! The search engine: a depth-limited minimax tree search with alpha-beta
//! pruning, and the move selector built on it.  The exec functions return
//! exactly the value of the spec-level search below, so for a fixed
//! position, depth and flag the result is the same on every call.

use crate::eval::{calc_board_value, spec_evaluate};
use crate::rules::{apply_move, black_to_move, board_status, legal_moves};
use crate::rules::{spec_apply, spec_black_to_move, spec_legal_moves, spec_status};
use crate::rules::{GameStatus, Move};
use vstd::prelude::*;

verus! {

/// The larger of two scores.
pub open spec fn max_i(a: int, b: int) -> int {
    if a >= b {
        a
    } else {
        b
    }
}

/// The smaller of two scores.
pub open spec fn min_i(a: int, b: int) -> int {
    if a <= b {
        a
    } else {
        b
    }
}

/// The successor of `b` under its `i`-th legal move.
pub open spec fn spec_child(b: chess::Board, i: int) -> chess::Board {
    spec_apply(b, spec_legal_moves(b)[i])
}

/// The score of the alpha-beta search from position `b` with `depth` plies
/// left: the evaluation at depth zero or at a terminal position, and
/// otherwise the pruned fold over the legal moves, maximising or minimising
/// as `is_max` says.
pub open spec fn spec_ab(b: chess::Board, depth: int, is_max: bool, alpha: int, beta: int) -> int
    decreases depth, spec_legal_moves(b).len() + 1,
{
    if depth <= 0 || spec_status(b) != GameStatus::Ongoing {
        spec_evaluate(b)
    } else if is_max {
        spec_ab_from(b, depth, true, alpha, beta, i64::MIN as int, 0)
    } else {
        spec_ab_from(b, depth, false, alpha, beta, i64::MAX as int, 0)
    }
}

/// The pruned fold over the legal moves of `b` from index `i` on, with the
/// running best score `best` and the current window: each child is searched
/// one ply shallower with the flag flipped, the best score and the window
/// tighten, and the fold stops before each further move once the window has
/// collapsed: the cutoff is tested only after a move has been searched, so
/// the first move is always searched.
pub open spec fn spec_ab_from(
    b: chess::Board,
    depth: int,
    is_max: bool,
    alpha: int,
    beta: int,
    best: int,
    i: int,
) -> int
    decreases depth, spec_legal_moves(b).len() - i,
{
    if depth <= 0 || (i > 0 && beta <= alpha) || i < 0 || i >= spec_legal_moves(b).len() {
        best
    } else {
        let v = spec_ab(spec_child(b, i), depth - 1, !is_max, alpha, beta);
        if is_max {
            spec_ab_from(b, depth, true, max_i(alpha, max_i(best, v)), beta, max_i(best, v), i + 1)
        } else {
            spec_ab_from(b, depth, false, alpha, min_i(beta, min_i(best, v)), min_i(best, v), i + 1)
        }
    }
}

/// How many positions the search from `b` evaluates: one at the base case,
/// and otherwise the sum over the children the pruned fold visits.
pub open spec fn spec_ab_count(
    b: chess::Board,
    depth: int,
    is_max: bool,
    alpha: int,
    beta: int,
) -> nat
    decreases depth, spec_legal_moves(b).len() + 1,
{
    if depth <= 0 || spec_status(b) != GameStatus::Ongoing {
        1
    } else if is_max {
        spec_ab_count_from(b, depth, true, alpha, beta, i64::MIN as int, 0)
    } else {
        spec_ab_count_from(b, depth, false, alpha, beta, i64::MAX as int, 0)
    }
}

/// The positions evaluated by the pruned fold from index `i` on: the count
/// of each visited child's subtree, following exactly the windows of
/// `spec_ab_from`.
pub open spec fn spec_ab_count_from(
    b: chess::Board,
    depth: int,
    is_max: bool,
    alpha: int,
    beta: int,
    best: int,
    i: int,
) -> nat
    decreases depth, spec_legal_moves(b).len() - i,
{
    if depth <= 0 || (i > 0 && beta <= alpha) || i < 0 || i >= spec_legal_moves(b).len() {
        0
    } else {
        let v = spec_ab(spec_child(b, i), depth - 1, !is_max, alpha, beta);
        let sub = spec_ab_count(spec_child(b, i), depth - 1, !is_max, alpha, beta);
        if is_max {
            sub + spec_ab_count_from(
                b,
                depth,
                true,
                max_i(alpha, max_i(best, v)),
                beta,
                max_i(best, v),
                i + 1,
            )
        } else {
            sub + spec_ab_count_from(
                b,
                depth,
                false,
                alpha,
                min_i(beta, min_i(best, v)),
                min_i(best, v),
                i + 1,
            )
        }
    }
}

/// The depth-limited alpha-beta search.  At depth zero or on a terminal
/// position it evaluates the position and counts it in `total`; otherwise
/// it folds over the legal moves in the rules engine's order, searching
/// each child one ply shallower with the flag flipped, tightening the
/// window, and stopping once `beta <= alpha` -- tested after each searched
/// move, so the first legal move is always searched.  It returns exactly the
/// spec-level search value, and adds to `total` exactly the number of
/// positions the spec-level search evaluates.
#[verifier::loop_isolation(false)]
pub fn alpha_beta(
    b: &chess::Board,
    depth: i8,
    is_max: bool,
    alpha: i64,
    beta: i64,
    total: &mut i64,
) -> (r: i64)
    requires
        0 <= depth,
        *old(total) + spec_ab_count(*b, depth as int, is_max, alpha as int, beta as int)
            <= i64::MAX,
    ensures
        r == spec_ab(*b, depth as int, is_max, alpha as int, beta as int),
        *final(total) == *old(total) + spec_ab_count(
            *b,
            depth as int,
            is_max,
            alpha as int,
            beta as int,
        ),
    decreases depth,
{
    let ghost d = depth as int;
    let ghost a0 = alpha as int;
    let ghost b0 = beta as int;
    let status = board_status(b);
    if depth == 0 || status != GameStatus::Ongoing {
        *total = *total + 1;
        return calc_board_value(b);
    }
    let moves = legal_moves(b);
    let n = moves.len();
    let ghost sentinel: int = if is_max {
        i64::MIN as int
    } else {
        i64::MAX as int
    };
    let mut alpha = alpha;
    let mut beta = beta;
    let mut best: i64 = if is_max {
        i64::MIN
    } else {
        i64::MAX
    };
    let mut i: usize = 0;
    while i < n && (i == 0 || alpha < beta)
        invariant
            i <= n,
            spec_ab_from(*b, d, is_max, a0, b0, sentinel, 0) == spec_ab_from(
                *b,
                d,
                is_max,
                alpha as int,
                beta as int,
                best as int,
                i as int,
            ),
            spec_ab_count_from(*b, d, is_max, a0, b0, sentinel, 0) == (*total - *old(total))
                + spec_ab_count_from(
                *b,
                d,
                is_max,
                alpha as int,
                beta as int,
                best as int,
                i as int,
            ),
            *total >= *old(total),
            is_max ==> beta == b0,
            !is_max ==> alpha == a0,
        decreases n - i,
    {
        let mv = moves[i];
        proof {
            assert(spec_legal_moves(*b)[i as int] == mv);
        }
        let child = apply_move(b, mv);
        proof {
            assert(child == spec_child(*b, i as int));
            assert(spec_ab_count_from(*b, d, is_max, alpha as int, beta as int, best as int,
                i as int) >= spec_ab_count(spec_child(*b, i as int), d - 1, !is_max, alpha as int,
                beta as int));
        }
        let v = alpha_beta(&child, depth - 1, !is_max, alpha, beta, total);
        if is_max {
            if v > best {
                best = v;
            }
            if best > alpha {
                alpha = best;
            }
        } else {
            if v < best {
                best = v;
            }
            if best < beta {
                beta = best;
            }
        }
        i = i + 1;
    }
    best
}

/// The score the move selector sees for the root's `i`-th move: the child
/// searched with the full window, `depth` further plies, and the maximising
/// flag fixed once at the root to "Black is to move" -- a deliberate
/// convention of the selector, not re-derived from the child position.
pub open spec fn spec_root_val(b: chess::Board, depth: int, i: int) -> int {
    spec_ab(spec_child(b, i), depth, spec_black_to_move(b), i64::MIN as int, i64::MAX as int)
}

/// Whether a new score beats the running one: Black prefers higher scores,
/// White lower ones, matching the evaluator's sign convention.
pub open spec fn spec_better(black: bool, new: int, current: int) -> bool {
    if black {
        new > current
    } else {
        new < current
    }
}

/// The index of the best of the root's first `n` moves, ties broken in
/// favour of the earliest move in enumeration order.
pub open spec fn spec_best_index(b: chess::Board, depth: int, n: int) -> int
    decreases n,
{
    if n <= 1 {
        0
    } else {
        let prev = spec_best_index(b, depth, n - 1);
        if spec_better(
            spec_black_to_move(b),
            spec_root_val(b, depth, n - 1),
            spec_root_val(b, depth, prev),
        ) {
            n - 1
        } else {
            prev
        }
    }
}

/// The positions evaluated across the root's first `n` moves.
pub open spec fn spec_root_count(b: chess::Board, depth: int, n: int) -> nat
    decreases n,
{
    if n <= 0 {
        0
    } else {
        spec_root_count(b, depth, n - 1) + spec_ab_count(
            spec_child(b, n - 1),
            depth,
            spec_black_to_move(b),
            i64::MIN as int,
            i64::MAX as int,
        )
    }
}

/// The count over a prefix of the root moves never exceeds the count over
/// all of them.
proof fn lemma_root_count_mono(b: chess::Board, depth: int, i: int, j: int)
    requires
        0 <= i <= j,
    ensures
        spec_root_count(b, depth, i) <= spec_root_count(b, depth, j),
    decreases j,
{
    if j > i {
        lemma_root_count_mono(b, depth, i, j - 1);
    }
}

/// The move selector.  With no legal move -- exactly when the position is
/// checkmate or stalemate -- it returns no move and a zero count.
/// Otherwise it returns the legal move whose child scores best for
/// the side to move -- highest for Black, lowest for White, the earliest
/// such move on ties -- together with how many positions the searches
/// evaluated.
#[verifier::loop_isolation(false)]
pub fn find_best_move(b: &chess::Board, depth: i8) -> (r: (Option<Move>, i64))
    requires
        0 <= depth,
        spec_root_count(*b, depth as int, spec_legal_moves(*b).len() as int) <= i64::MAX,
    ensures
        spec_legal_moves(*b).len() == 0 ==> r.0 is None && r.1 == 0,
        r.0 is None <==> spec_status(*b) != GameStatus::Ongoing,
        spec_legal_moves(*b).len() > 0 ==> r.0 == Some(
            spec_legal_moves(*b)[spec_best_index(
                *b,
                depth as int,
                spec_legal_moves(*b).len() as int,
            )],
        ),
        r.1 == spec_root_count(*b, depth as int, spec_legal_moves(*b).len() as int),
{
    let ghost d = depth as int;
    let moves = legal_moves(b);
    let n = moves.len();
    if n == 0 {
        return (Option::None, 0);
    }
    let black = black_to_move(b);
    let mut best_val: i64 = if black {
        i64::MIN
    } else {
        i64::MAX
    };
    let mut best_move: Move = moves[0];
    let mut total: i64 = 0;
    let mut i: usize = 0;
    while i < n
        invariant
            i <= n,
            total == spec_root_count(*b, d, i as int),
            i == 0 ==> best_move == spec_legal_moves(*b)[0] && best_val as int == (if black {
                i64::MIN as int
            } else {
                i64::MAX as int
            }),
            i > 0 ==> best_move == spec_legal_moves(*b)[spec_best_index(*b, d, i as int)]
                && best_val as int == spec_root_val(*b, d, spec_best_index(*b, d, i as int)),
        decreases n - i,
    {
        let mv = moves[i];
        proof {
            assert(spec_legal_moves(*b)[i as int] == mv);
        }
        let child = apply_move(b, mv);
        proof {
            assert(child == spec_child(*b, i as int));
            lemma_root_count_mono(*b, d, i as int + 1, n as int);
        }
        let v = alpha_beta(&child, depth, black, i64::MIN, i64::MAX, &mut total);
        let improved = if black {
            v > best_val
        } else {
            v < best_val
        };
        if improved {
            best_val = v;
            best_move = mv;
        }
        i = i + 1;
    }
    (Option::Some(best_move), total)
}

} // verus!
