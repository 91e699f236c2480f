//! A depth-limited minimax chess engine with alpha-beta pruning.
//!
//! Move legality, move application and terminal detection come from the
//! `chess` crate, consumed through a small trusted interface in `rules`.
//! This crate owns the static evaluator (`eval`), the pruned tree search and
//! the move selector (`search`), and the proofs that relate the pruned
//! search to a full minimax search (`laws`).

pub mod eval;
pub mod laws;
pub mod rules;
pub mod search;

