//! The price of one outcome: `exp(q_i / b) / sum_j exp(q_j / b)`,
//! evaluated one arithmetic request at a time.

use vstd::prelude::*;
use crate::cost::cost_request;
use crate::cost::sum_after_terms;
use crate::ops::FloatOp;
use crate::ops::POS_ZERO_BITS;

verus! {

/// The request a price evaluation over quantities `q`, liquidity `b` and
/// outcome `outcome_index` makes once it holds the responses `rs`: while
/// the denominator sum is unfinished, exactly what the cost evaluation
/// asks; then the numerator's quotient `q[outcome_index] / b` and its
/// exponential; then the ratio of the numerator to the sum; no request
/// once the ratio is in hand.
pub open spec fn price_request(q: Seq<u64>, b: u64, outcome_index: int, rs: Seq<u64>) -> Option<
    FloatOp,
> {
    let n = q.len() as int;
    let k = rs.len() as int;
    if k < 3 * n {
        cost_request(q, b, rs)
    } else if k == 3 * n {
        Some(FloatOp::Div { dividend: q[outcome_index], divisor: b })
    } else if k == 3 * n + 1 {
        Some(FloatOp::Exp { operand: rs[k - 1] })
    } else if k == 3 * n + 2 {
        Some(FloatOp::Div { dividend: rs[k - 1], divisor: sum_after_terms(rs, n) })
    } else {
        None
    }
}

/// The requests that build the denominator sum do not depend on the
/// outcome index: two price evaluations over the same quantities and
/// liquidity ask for exactly the same arithmetic until the sum is done,
/// whatever outcomes they price.
pub proof fn lemma_sum_requests_index_independent(
    q: Seq<u64>,
    b: u64,
    i: int,
    j: int,
    rs: Seq<u64>,
)
    requires
        rs.len() < 3 * q.len(),
    ensures
        price_request(q, b, i, rs) == price_request(q, b, j, rs),
{
}

/// Where a price evaluation stands between two responses, together with
/// the operand bits the next request needs.
#[derive(Clone, Copy)]
enum PricePhase {
    /// At the start of a denominator term, or — once every term is
    /// summed — ready to ask for the numerator's quotient.
    Ready,
    /// Holding the quotient `q[i] / b`, ready to ask for its exponential.
    Divided { quotient: u64 },
    /// Holding the term `exp(q[i] / b)`, ready to ask for the new sum.
    Exponentiated { term: u64 },
    /// Holding the numerator's quotient `q[outcome_index] / b`, ready to
    /// ask for its exponential.
    NumeratorDivided { quotient: u64 },
    /// Holding the numerator `exp(q[outcome_index] / b)`, ready to ask
    /// for the ratio.
    NumeratorExponentiated { numerator: u64 },
    /// Holding the ratio: the price.
    Finished { ratio: u64 },
}

/// A step-by-step evaluation of one outcome's price.
///
/// The caller repeatedly takes the operation that `next_request` asks
/// for, performs it in binary64 arithmetic, and hands the resulting bit
/// pattern to `respond`; once `next_request` returns `None`, the price's
/// bit pattern is `result_bits`.
pub struct PriceEvaluation {
    qs: Vec<u64>,
    liq: u64,
    outcome: usize,
    terms_done: usize,
    sum_reg: u64,
    phase: PricePhase,
    trace: Ghost<Seq<u64>>,
}

impl PriceEvaluation {
    /// The quantity vector, as bit patterns.
    pub closed spec fn quantities(&self) -> Seq<u64> {
        self.qs@
    }

    /// The liquidity parameter, as a bit pattern.
    pub closed spec fn liquidity(&self) -> u64 {
        self.liq
    }

    /// The outcome being priced.
    pub closed spec fn outcome_index(&self) -> usize {
        self.outcome
    }

    /// Every response received so far, oldest first.
    pub closed spec fn responses(&self) -> Seq<u64> {
        self.trace@
    }

    /// The evaluation takes exactly `3 * n + 3` responses: three per
    /// denominator term, two for the numerator, one for the ratio.
    pub open spec fn finished(&self) -> bool {
        self.responses().len() == 3 * self.quantities().len() + 3
    }

    /// The machine's fields agree with the recorded responses, and the
    /// outcome index lies within the quantity vector.
    pub closed spec fn wf(&self) -> bool {
        let n = self.qs@.len() as int;
        let rs = self.trace@;
        let i = self.terms_done as int;
        &&& (self.outcome as int) < n
        &&& self.sum_reg == sum_after_terms(rs, i)
        &&& match self.phase {
            PricePhase::Ready => i <= n && rs.len() == 3 * i,
            PricePhase::Divided { quotient } => i < n && rs.len() == 3 * i + 1 && quotient
                == rs.last(),
            PricePhase::Exponentiated { term } => i < n && rs.len() == 3 * i + 2 && term
                == rs.last(),
            PricePhase::NumeratorDivided { quotient } => i == n && rs.len() == 3 * n + 1
                && quotient == rs.last(),
            PricePhase::NumeratorExponentiated { numerator } => i == n && rs.len() == 3 * n + 2
                && numerator == rs.last(),
            PricePhase::Finished { ratio } => i == n && rs.len() == 3 * n + 3 && ratio
                == rs.last(),
        }
    }

    /// Begins a price evaluation for the given outcome.  Index validity
    /// is the caller's to guarantee; `try_new` checks it instead.  Any
    /// bit patterns are accepted, NaNs and infinities included.
    pub fn new(quantities: Vec<u64>, liquidity: u64, outcome_index: usize) -> (m: Self)
        requires
            outcome_index < quantities@.len(),
        ensures
            m.wf(),
            m.quantities() == quantities@,
            m.liquidity() == liquidity,
            m.outcome_index() == outcome_index,
            m.responses() == Seq::<u64>::empty(),
    {
        PriceEvaluation {
            qs: quantities,
            liq: liquidity,
            outcome: outcome_index,
            terms_done: 0,
            sum_reg: POS_ZERO_BITS,
            phase: PricePhase::Ready,
            trace: Ghost(Seq::empty()),
        }
    }

    /// Begins a price evaluation after checking the outcome index:
    /// `None` exactly when the index is out of range — at or past the
    /// length of the quantity vector — and a fresh evaluation otherwise.
    pub fn try_new(quantities: Vec<u64>, liquidity: u64, outcome_index: usize) -> (r: Option<Self>)
        ensures
            (r is Some) == (outcome_index < quantities@.len()),
            r matches Some(m) ==> m.wf() && m.quantities() == quantities@ && m.liquidity()
                == liquidity && m.outcome_index() == outcome_index && m.responses()
                == Seq::<u64>::empty(),
    {
        if outcome_index < quantities.len() {
            Some(Self::new(quantities, liquidity, outcome_index))
        } else {
            None
        }
    }

    /// The next operation to perform, determined by the quantities, the
    /// liquidity, the outcome index and the responses so far; `None`
    /// exactly when the evaluation is finished.
    pub fn next_request(&self) -> (r: Option<FloatOp>)
        requires
            self.wf(),
        ensures
            r == price_request(
                self.quantities(),
                self.liquidity(),
                self.outcome_index() as int,
                self.responses(),
            ),
            r is Some <==> !self.finished(),
    {
        match self.phase {
            PricePhase::Ready => {
                if self.terms_done < self.qs.len() {
                    Some(FloatOp::Div { dividend: self.qs[self.terms_done], divisor: self.liq })
                } else {
                    Some(FloatOp::Div { dividend: self.qs[self.outcome], divisor: self.liq })
                }
            },
            PricePhase::Divided { quotient } => Some(FloatOp::Exp { operand: quotient }),
            PricePhase::Exponentiated { term } => Some(
                FloatOp::Add { augend: self.sum_reg, addend: term },
            ),
            PricePhase::NumeratorDivided { quotient } => Some(FloatOp::Exp { operand: quotient }),
            PricePhase::NumeratorExponentiated { numerator } => Some(
                FloatOp::Div { dividend: numerator, divisor: self.sum_reg },
            ),
            PricePhase::Finished { .. } => None,
        }
    }

    /// Records the bit pattern the driver computed for the pending
    /// request.  Only the response is recorded: the quantities, the
    /// liquidity and the outcome index never change.
    pub fn respond(&mut self, response: u64)
        requires
            old(self).wf(),
            !old(self).finished(),
        ensures
            final(self).wf(),
            final(self).quantities() == old(self).quantities(),
            final(self).liquidity() == old(self).liquidity(),
            final(self).outcome_index() == old(self).outcome_index(),
            final(self).responses() == old(self).responses().push(response),
    {
        self.trace = Ghost(self.trace@.push(response));
        match self.phase {
            PricePhase::Ready => {
                if self.terms_done < self.qs.len() {
                    self.phase = PricePhase::Divided { quotient: response };
                } else {
                    self.phase = PricePhase::NumeratorDivided { quotient: response };
                }
            },
            PricePhase::Divided { .. } => {
                self.phase = PricePhase::Exponentiated { term: response };
            },
            PricePhase::Exponentiated { .. } => {
                let bound: usize = self.qs.len();
                proof {
                    assert(self.terms_done < bound);
                }
                self.sum_reg = response;
                self.terms_done = self.terms_done + 1;
                self.phase = PricePhase::Ready;
            },
            PricePhase::NumeratorDivided { .. } => {
                self.phase = PricePhase::NumeratorExponentiated { numerator: response };
            },
            PricePhase::NumeratorExponentiated { .. } => {
                self.phase = PricePhase::Finished { ratio: response };
            },
            PricePhase::Finished { .. } => {
                proof {
                    assert(false);
                }
            },
        }
    }

    /// The price's bit pattern: the response to the final request, the
    /// ratio of the numerator to the denominator sum.
    pub fn result_bits(&self) -> (r: u64)
        requires
            self.wf(),
            self.finished(),
        ensures
            r == self.responses().last(),
    {
        match self.phase {
            PricePhase::Finished { ratio } => ratio,
            _ => {
                proof {
                    assert(false);
                }
                0
            },
        }
    }
}

} // verus!
