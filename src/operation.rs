use vstd::prelude::*;

verus! {

/// Mask of every bit of a binary64 value but the sign.
pub const MAGNITUDE_MASK: u64 = 0x7fff_ffff_ffff_ffff;

/// Mask of the eleven exponent bits of a binary64 value.
pub const EXPONENT_MASK: u64 = 0x7ff0_0000_0000_0000;

/// The binary64 value with these bits compares equal to zero (`+0.0` or `-0.0`).
pub open spec fn value_is_zero(bits: u64) -> bool {
    bits & MAGNITUDE_MASK == 0
}

/// The binary64 value with these bits is neither infinite nor NaN: its
/// exponent is not all ones.
pub open spec fn value_is_finite(bits: u64) -> bool {
    bits & EXPONENT_MASK != EXPONENT_MASK
}

/// Tests whether a binary64 value, given by its bits, equals zero.
pub fn is_zero_bits(bits: u64) -> (r: bool)
    ensures
        r == value_is_zero(bits),
{
    bits & MAGNITUDE_MASK == 0
}

/// Tests whether a binary64 value, given by its bits, is finite.
pub fn is_finite_bits(bits: u64) -> (r: bool)
    ensures
        r == value_is_finite(bits),
{
    bits & EXPONENT_MASK != EXPONENT_MASK
}

/// The four binary operations of the calculator.
#[derive(Clone, Copy, Debug, PartialEq, Eq, Structural)]
pub enum Operation {
    Add,
    Subtract,
    Multiply,
    Divide,
}

/// The ways a calculation can fail.
#[derive(Clone, Copy, Debug, PartialEq, Eq, Structural)]
pub enum CalcError {
    /// The right operand of a division is zero.
    DivisionByZero,
    /// A result is infinite or not a number.
    Overflow,
}

impl CalcError {
    /// The text shown in place of the display while this error is set.
    pub open spec fn text(self) -> Seq<char> {
        match self {
            CalcError::DivisionByZero => "Error: Division by zero"@,
            CalcError::Overflow => "Error: Overflow"@,
        }
    }

    pub fn message(&self) -> (r: String)
        ensures
            r@ == self.text(),
    {
        match self {
            CalcError::DivisionByZero => String::from_str("Error: Division by zero"),
            CalcError::Overflow => String::from_str("Error: Overflow"),
        }
    }
}

/// A binary64 value produced by IEEE-754 arithmetic, with the shortest decimal
/// text that reads back as it.
#[derive(Clone, Debug)]
pub struct Computed {
    pub bits: u64,
    pub text: String,
}

/// What `op.apply(right, raw)` gives.
pub open spec fn apply_outcome(op: Operation, right: u64, raw: Computed) -> Result<Computed, CalcError> {
    if op == Operation::Divide && value_is_zero(right) {
        Err(CalcError::DivisionByZero)
    } else {
        Ok(raw)
    }
}

impl Operation {
    /// Applies this operation to a left operand and the right operand `right`
    /// (given by its bits), where `raw` is what IEEE-754 arithmetic gives for
    /// the two. Division by a zero right operand, of either sign, fails;
    /// everything else gives `raw`.
    pub fn apply(&self, right: u64, raw: Computed) -> (r: Result<Computed, CalcError>)
        ensures
            r == apply_outcome(*self, right, raw),
    {
        match self {
            Operation::Divide => {
                if is_zero_bits(right) {
                    Err(CalcError::DivisionByZero)
                } else {
                    Ok(raw)
                }
            },
            _ => Ok(raw),
        }
    }
}

} // verus!
