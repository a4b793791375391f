//! Burn policy evaluator: decides, for one incoming transaction, whether a
//! one-percent burn applies, how much to burn, and which accept disposition to
//! hand back to the host ledger.
pub mod policy;
