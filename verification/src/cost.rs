//! The cost of a market: `b * ln(sum_i exp(q_i / b))`, evaluated one
//! arithmetic request at a time.

use vstd::prelude::*;
use crate::ops::FloatOp;
use crate::ops::POS_ZERO_BITS;

verus! {

/// The running sum of exponentials after `terms` complete terms: positive
/// zero before the first term, afterwards the response to the addition
/// that closed term `terms - 1` (response number `3 * terms - 1`).
pub open spec fn sum_after_terms(responses: Seq<u64>, terms: int) -> u64 {
    if terms == 0 {
        POS_ZERO_BITS
    } else {
        responses[3 * terms - 1]
    }
}

/// The request a cost evaluation over quantities `q` and liquidity `b`
/// makes once it holds the responses `rs`: three requests per term — the
/// quotient `q[i] / b`, its exponential, and adding that term to the
/// running sum — then the logarithm of the sum, then scaling the
/// logarithm by `b`; no request once the scaled value is in hand.
pub open spec fn cost_request(q: Seq<u64>, b: u64, rs: Seq<u64>) -> Option<FloatOp> {
    let n = q.len() as int;
    let k = rs.len() as int;
    if k < 3 * n {
        if k % 3 == 0 {
            Some(FloatOp::Div { dividend: q[k / 3], divisor: b })
        } else if k % 3 == 1 {
            Some(FloatOp::Exp { operand: rs[k - 1] })
        } else {
            Some(FloatOp::Add { augend: sum_after_terms(rs, k / 3), addend: rs[k - 1] })
        }
    } else if k == 3 * n {
        Some(FloatOp::Ln { operand: sum_after_terms(rs, n) })
    } else if k == 3 * n + 1 {
        Some(FloatOp::Mul { multiplicand: b, multiplier: rs[k - 1] })
    } else {
        None
    }
}

/// Where a cost evaluation stands between two responses, together with
/// the operand bits the next request needs.
#[derive(Clone, Copy)]
enum CostPhase {
    /// At the start of a term, or — once every term is summed — ready to
    /// ask for the logarithm of the sum.
    Ready,
    /// Holding the quotient `q[i] / b`, ready to ask for its exponential.
    Divided { quotient: u64 },
    /// Holding the term `exp(q[i] / b)`, ready to ask for the new sum.
    Exponentiated { term: u64 },
    /// Holding the logarithm of the sum, ready to ask for the scaling.
    Logged { log_sum: u64 },
    /// Holding the scaled logarithm: the cost.
    Finished { scaled: u64 },
}

/// A step-by-step evaluation of the market cost.
///
/// The caller repeatedly takes the operation that `next_request` asks
/// for, performs it in binary64 arithmetic, and hands the resulting bit
/// pattern to `respond`; once `next_request` returns `None`, the cost's
/// bit pattern is `result_bits`.
pub struct CostEvaluation {
    qs: Vec<u64>,
    liq: u64,
    terms_done: usize,
    sum_reg: u64,
    phase: CostPhase,
    trace: Ghost<Seq<u64>>,
}

impl CostEvaluation {
    /// The quantity vector, as bit patterns.
    pub closed spec fn quantities(&self) -> Seq<u64> {
        self.qs@
    }

    /// The liquidity parameter, as a bit pattern.
    pub closed spec fn liquidity(&self) -> u64 {
        self.liq
    }

    /// Every response received so far, oldest first.
    pub closed spec fn responses(&self) -> Seq<u64> {
        self.trace@
    }

    /// The evaluation takes exactly `3 * n + 2` responses: three per
    /// term, one for the logarithm, one for the scaling.
    pub open spec fn finished(&self) -> bool {
        self.responses().len() == 3 * self.quantities().len() + 2
    }

    /// The machine's fields agree with the recorded responses.
    pub closed spec fn wf(&self) -> bool {
        let n = self.qs@.len() as int;
        let rs = self.trace@;
        let i = self.terms_done as int;
        &&& self.sum_reg == sum_after_terms(rs, i)
        &&& match self.phase {
            CostPhase::Ready => i <= n && rs.len() == 3 * i,
            CostPhase::Divided { quotient } => i < n && rs.len() == 3 * i + 1 && quotient
                == rs.last(),
            CostPhase::Exponentiated { term } => i < n && rs.len() == 3 * i + 2 && term
                == rs.last(),
            CostPhase::Logged { log_sum } => i == n && rs.len() == 3 * n + 1 && log_sum
                == rs.last(),
            CostPhase::Finished { scaled } => i == n && rs.len() == 3 * n + 2 && scaled
                == rs.last(),
        }
    }

    /// Begins a cost evaluation over the given quantity bits and
    /// liquidity bits.  Any bit patterns are accepted, NaNs and
    /// infinities included: degenerate values propagate through the
    /// driver's arithmetic exactly as binary64 prescribes.
    pub fn new(quantities: Vec<u64>, liquidity: u64) -> (m: Self)
        ensures
            m.wf(),
            m.quantities() == quantities@,
            m.liquidity() == liquidity,
            m.responses() == Seq::<u64>::empty(),
    {
        CostEvaluation {
            qs: quantities,
            liq: liquidity,
            terms_done: 0,
            sum_reg: POS_ZERO_BITS,
            phase: CostPhase::Ready,
            trace: Ghost(Seq::empty()),
        }
    }

    /// The next operation to perform, determined by the quantities, the
    /// liquidity and the responses so far; `None` exactly when the
    /// evaluation is finished.
    pub fn next_request(&self) -> (r: Option<FloatOp>)
        requires
            self.wf(),
        ensures
            r == cost_request(self.quantities(), self.liquidity(), self.responses()),
            r is Some <==> !self.finished(),
    {
        match self.phase {
            CostPhase::Ready => {
                if self.terms_done < self.qs.len() {
                    Some(FloatOp::Div { dividend: self.qs[self.terms_done], divisor: self.liq })
                } else {
                    Some(FloatOp::Ln { operand: self.sum_reg })
                }
            },
            CostPhase::Divided { quotient } => Some(FloatOp::Exp { operand: quotient }),
            CostPhase::Exponentiated { term } => Some(
                FloatOp::Add { augend: self.sum_reg, addend: term },
            ),
            CostPhase::Logged { log_sum } => Some(
                FloatOp::Mul { multiplicand: self.liq, multiplier: log_sum },
            ),
            CostPhase::Finished { .. } => None,
        }
    }

    /// Records the bit pattern the driver computed for the pending
    /// request.  Only the response is recorded: the quantities and the
    /// liquidity never change.
    pub fn respond(&mut self, response: u64)
        requires
            old(self).wf(),
            !old(self).finished(),
        ensures
            final(self).wf(),
            final(self).quantities() == old(self).quantities(),
            final(self).liquidity() == old(self).liquidity(),
            final(self).responses() == old(self).responses().push(response),
    {
        self.trace = Ghost(self.trace@.push(response));
        match self.phase {
            CostPhase::Ready => {
                if self.terms_done < self.qs.len() {
                    self.phase = CostPhase::Divided { quotient: response };
                } else {
                    self.phase = CostPhase::Logged { log_sum: response };
                }
            },
            CostPhase::Divided { .. } => {
                self.phase = CostPhase::Exponentiated { term: response };
            },
            CostPhase::Exponentiated { .. } => {
                let bound: usize = self.qs.len();
                proof {
                    assert(self.terms_done < bound);
                }
                self.sum_reg = response;
                self.terms_done = self.terms_done + 1;
                self.phase = CostPhase::Ready;
            },
            CostPhase::Logged { .. } => {
                self.phase = CostPhase::Finished { scaled: response };
            },
            CostPhase::Finished { .. } => {
                proof {
                    assert(false);
                }
            },
        }
    }

    /// The cost's bit pattern: the response to the final request, the
    /// scaling of the logarithm of the sum by the liquidity.
    pub fn result_bits(&self) -> (r: u64)
        requires
            self.wf(),
            self.finished(),
        ensures
            r == self.responses().last(),
    {
        match self.phase {
            CostPhase::Finished { scaled } => scaled,
            _ => {
                proof {
                    assert(false);
                }
                0
            },
        }
    }
}

} // verus!
