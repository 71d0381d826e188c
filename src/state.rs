use vstd::prelude::*;
use crate::operation::{CalcError, Operation};

verus! {

/// The session as a mathematical value: what a `CalculatorState` holds, with
/// the display as a sequence of characters.
pub struct Session {
    pub display: Seq<char>,
    /// Bits of the binary64 operand kept across a chain of operations.
    pub stored_value: Option<u64>,
    pub current_operation: Option<Operation>,
    /// The next digit or decimal point starts a new number.
    pub waiting_for_operand: bool,
    pub error: Option<CalcError>,
    /// Set at the start of a session and by a clear; reset by the first input.
    pub fresh_start: bool,
}

/// The session as it is when created and after a clear.
pub open spec fn initial_session() -> Session {
    Session {
        display: seq!['0'],
        stored_value: None,
        current_operation: None,
        waiting_for_operand: false,
        error: None,
        fresh_start: true,
    }
}

/// The mutable record of one calculator session.
#[derive(Clone, Debug)]
pub struct CalculatorState {
    pub display: String,
    /// Bits of the binary64 operand kept across a chain of operations.
    pub stored_value: Option<u64>,
    pub current_operation: Option<Operation>,
    pub waiting_for_operand: bool,
    pub error: Option<CalcError>,
    pub fresh_start: bool,
}

impl View for CalculatorState {
    type V = Session;

    open spec fn view(&self) -> Session {
        Session {
            display: self.display@,
            stored_value: self.stored_value,
            current_operation: self.current_operation,
            waiting_for_operand: self.waiting_for_operand,
            error: self.error,
            fresh_start: self.fresh_start,
        }
    }
}

impl CalculatorState {
    pub fn new() -> (r: Self)
        ensures
            r@ == initial_session(),
    {
        let display = String::from_str("0");
        proof {
            reveal_strlit("0");
        }
        let r = CalculatorState {
            display,
            stored_value: None,
            current_operation: None,
            waiting_for_operand: false,
            error: None,
            fresh_start: true,
        };
        assert(r@.display =~= seq!['0']);
        r
    }
}

} // verus!
