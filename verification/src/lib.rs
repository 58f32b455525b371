//! Logarithmic market scoring rule (LMSR) pricing.
//!
//! A market over `n` outcomes is described by a quantity vector `q` (the
//! cumulative shares bought of each outcome) and a liquidity parameter
//! `b`.  Its cost is `b * ln(sum_i exp(q_i / b))` and the price of
//! outcome `i` is `exp(q_i / b) / sum_j exp(q_j / b)`, both evaluated
//! directly in IEEE 754 binary64 arithmetic with no rescaling, so that
//! every rounding, overflow, infinity and NaN behaves exactly as the
//! hardware's arithmetic does.
//!
//! Verified code cannot hold a binary64 value, so the evaluation is split
//! in two.  This crate holds the decisions: [`cost::CostEvaluation`] and
//! [`price::PriceEvaluation`] are machines that say, one step at a time,
//! which arithmetic operation to perform next and on which operands,
//! values being carried as bit patterns (`u64`).  The caller is the
//! arithmetic unit: it performs each requested [`ops::FloatOp`] in
//! binary64 and hands the resulting bit pattern back.  The machines'
//! contracts pin the whole exchange: the request at every step is a
//! function of the quantities, the liquidity and the responses received
//! so far, and the final result is the response to the last request.

pub mod cost;
pub mod ops;
pub mod price;
