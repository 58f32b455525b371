//! The arithmetic requests an evaluation hands to its driver.

use vstd::prelude::*;

verus! {

/// The bit pattern of binary64 positive zero, the value of the empty sum.
pub const POS_ZERO_BITS: u64 = 0;

/// One binary64 operation, requested by an evaluation machine and carried
/// out by the caller, who hands the resulting bit pattern back through
/// `respond`.  Every operand is the bit pattern of a binary64 value.
#[derive(Clone, Copy, PartialEq, Eq, Structural, Debug)]
pub enum FloatOp {
    /// IEEE 754 addition `augend + addend`.
    Add { augend: u64, addend: u64 },
    /// IEEE 754 division `dividend / divisor`.
    Div { dividend: u64, divisor: u64 },
    /// IEEE 754 multiplication `multiplicand * multiplier`.
    Mul { multiplicand: u64, multiplier: u64 },
    /// The natural exponential of the operand.
    Exp { operand: u64 },
    /// The natural logarithm of the operand.
    Ln { operand: u64 },
}

} // verus!
