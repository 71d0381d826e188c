use vstd::prelude::*;
use crate::operation::{
    apply_outcome, is_finite_bits, value_is_finite, CalcError, Computed, Operation,
};
use crate::state::{initial_session, CalculatorState, Session};

verus! {

/// The numeric facts about a session that only floating-point code can give:
/// the display read as a binary64 value, and the pending operation applied
/// to the stored value and that operand by IEEE-754 arithmetic.
#[derive(Clone, Debug)]
pub struct Evaluation {
    /// Bits of the display read as a number; `None` where it does not read as one.
    pub operand: Option<u64>,
    /// The pending operation on the stored value and `operand`; `None` where
    /// there is nothing to apply.
    pub result: Option<Computed>,
}

/// The character of a decimal digit.
pub open spec fn digit_char(d: u8) -> char {
    if d == 0 {
        '0'
    } else if d == 1 {
        '1'
    } else if d == 2 {
        '2'
    } else if d == 3 {
        '3'
    } else if d == 4 {
        '4'
    } else if d == 5 {
        '5'
    } else if d == 6 {
        '6'
    } else if d == 7 {
        '7'
    } else if d == 8 {
        '8'
    } else {
        '9'
    }
}

/// The next digit or decimal point replaces the display instead of extending it.
pub open spec fn starts_new_number(s: Session) -> bool {
    s.waiting_for_operand || s.fresh_start
}

/// The session after the digit `d` is entered.
pub open spec fn after_digit(s: Session, d: u8) -> Session {
    if s.error is Some || d > 9 {
        s
    } else if starts_new_number(s) {
        Session {
            display: seq![digit_char(d)],
            waiting_for_operand: false,
            fresh_start: false,
            ..s
        }
    } else {
        Session { display: s.display.push(digit_char(d)), ..s }
    }
}

/// The session after a decimal point is entered.
pub open spec fn after_decimal_point(s: Session) -> Session {
    if s.error is Some {
        s
    } else if starts_new_number(s) {
        Session {
            display: seq!['0', '.'],
            waiting_for_operand: false,
            fresh_start: false,
            ..s
        }
    } else if !s.display.contains('.') {
        Session { display: s.display.push('.'), ..s }
    } else {
        s
    }
}

/// The display may be read as an operand: it is neither empty nor a lone point.
pub open spec fn operand_shape(display: Seq<char>) -> bool {
    display.len() > 0 && display != seq!['.']
}

/// The session after the operator `op` is pressed, with `ev` evaluated on
/// the session before the press. With a stored value and a pending operation,
/// an operand typed since the last press is first combined with the stored
/// value (chaining); a press with no operand typed only replaces the pending
/// operation. Otherwise the operand read from the display becomes the stored
/// value.
pub open spec fn after_operator(s: Session, op: Operation, ev: Evaluation) -> Session {
    if s.error is Some || !operand_shape(s.display) || ev.operand is None {
        s
    } else if s.stored_value is Some && s.current_operation is Some {
        if s.waiting_for_operand {
            Session { current_operation: Some(op), ..s }
        } else if ev.result is None {
            s
        } else {
            match apply_outcome(s.current_operation->0, ev.operand->0, ev.result->0) {
                Ok(c) => Session {
                    display: c.text@,
                    stored_value: Some(c.bits),
                    current_operation: Some(op),
                    waiting_for_operand: true,
                    ..s
                },
                Err(e) => Session { error: Some(e), ..s },
            }
        }
    } else {
        Session {
            stored_value: Some(ev.operand->0),
            current_operation: Some(op),
            waiting_for_operand: true,
            ..s
        }
    }
}

/// The session after equals is pressed, with `ev` evaluated on the session
/// before the press.
pub open spec fn after_equals(s: Session, ev: Evaluation) -> Session {
    if s.error is Some || s.stored_value is None || s.current_operation is None
        || ev.operand is None || ev.result is None {
        s
    } else {
        match apply_outcome(s.current_operation->0, ev.operand->0, ev.result->0) {
            Ok(c) => if value_is_finite(c.bits) {
                Session {
                    display: c.text@,
                    stored_value: Some(c.bits),
                    current_operation: None,
                    waiting_for_operand: true,
                    ..s
                }
            } else {
                Session { error: Some(CalcError::Overflow), ..s }
            },
            Err(e) => Session { error: Some(e), ..s },
        }
    }
}

/// The text shown to the user: the error's message while one is set, else
/// the display.
pub open spec fn shown(s: Session) -> Seq<char> {
    match s.error {
        Some(e) => e.text(),
        None => s.display,
    }
}

/// One input of a session, with the evaluation that the operator and equals
/// presses receive.
pub enum Event {
    Digit(u8),
    DecimalPoint,
    Operator(Operation, Evaluation),
    Equals(Evaluation),
    Clear,
}

/// The session after one event.
pub open spec fn step(s: Session, e: Event) -> Session {
    match e {
        Event::Digit(d) => after_digit(s, d),
        Event::DecimalPoint => after_decimal_point(s),
        Event::Operator(op, ev) => after_operator(s, op, ev),
        Event::Equals(ev) => after_equals(s, ev),
        Event::Clear => initial_session(),
    }
}

/// The session after a sequence of events, taken in order.
pub open spec fn run(s: Session, events: Seq<Event>) -> Session
    decreases events.len(),
{
    if events.len() == 0 {
        s
    } else {
        step(run(s, events.drop_last()), events.last())
    }
}

/// The text of a single decimal digit.
fn digit_str(d: u8) -> (r: &'static str)
    requires
        d <= 9,
    ensures
        r@ == seq![digit_char(d)],
{
    proof {
        reveal_strlit("0");
        reveal_strlit("1");
        reveal_strlit("2");
        reveal_strlit("3");
        reveal_strlit("4");
        reveal_strlit("5");
        reveal_strlit("6");
        reveal_strlit("7");
        reveal_strlit("8");
        reveal_strlit("9");
    }
    let r = if d == 0 {
        "0"
    } else if d == 1 {
        "1"
    } else if d == 2 {
        "2"
    } else if d == 3 {
        "3"
    } else if d == 4 {
        "4"
    } else if d == 5 {
        "5"
    } else if d == 6 {
        "6"
    } else if d == 7 {
        "7"
    } else if d == 8 {
        "8"
    } else {
        "9"
    };
    assert(r@ =~= seq![digit_char(d)]);
    r
}

/// Tests whether a text holds a decimal point.
fn has_point(s: &String) -> (r: bool)
    ensures
        r == s@.contains('.'),
{
    let t = s.as_str();
    let n = t.unicode_len();
    let mut i: usize = 0;
    while i < n
        invariant
            n == s@.len(),
            t@ == s@,
            i <= n,
            forall|j: int| 0 <= j < i ==> s@[j] != '.',
        decreases n - i,
    {
        if t.get_char(i) == '.' {
            return true;
        }
        i = i + 1;
    }
    false
}

/// Tests whether a text can be read as an operand: it is neither empty nor
/// a lone decimal point.
fn has_operand_shape(s: &String) -> (r: bool)
    ensures
        r == operand_shape(s@),
{
    let t = s.as_str();
    let n = t.unicode_len();
    if n == 0 {
        false
    } else if n == 1 && t.get_char(0) == '.' {
        assert(s@ =~= seq!['.']);
        false
    } else {
        assert(s@ != seq!['.']) by {
            if n == 1 {
                assert(seq!['.'][0] == '.');
            }
        }
        true
    }
}

/// The calculator engine: one session, driven by button events.
#[derive(Clone, Debug)]
pub struct Calculator {
    state: CalculatorState,
}

impl View for Calculator {
    type V = Session;

    closed spec fn view(&self) -> Session {
        self.state@
    }
}

impl Calculator {
    pub fn new() -> (r: Self)
        ensures
            r@ == initial_session(),
    {
        Calculator { state: CalculatorState::new() }
    }

    /// The session record, for reading.
    pub fn state(&self) -> (r: &CalculatorState)
        ensures
            r@ == self@,
    {
        &self.state
    }

    /// Enters a digit: it starts a new number or extends the display.
    /// Values above nine are ignored.
    pub fn input_digit(&mut self, digit: u8)
        ensures
            final(self)@ == after_digit(old(self)@, digit),
    {
        if self.state.error.is_some() {
            return;
        }
        if digit > 9 {
            return;
        }
        if self.state.waiting_for_operand || self.state.fresh_start {
            self.state.display = String::from_str(digit_str(digit));
            self.state.waiting_for_operand = false;
            self.state.fresh_start = false;
        } else {
            self.state.display.append(digit_str(digit));
            assert(self.state.display@ =~= old(self)@.display.push(digit_char(digit)));
        }
    }

    /// Enters a decimal point: it starts `0.`, extends the display, or is
    /// dropped where the display already holds one.
    pub fn input_decimal_point(&mut self)
        ensures
            final(self)@ == after_decimal_point(old(self)@),
    {
        if self.state.error.is_some() {
            return;
        }
        if self.state.waiting_for_operand || self.state.fresh_start {
            proof {
                reveal_strlit("0.");
            }
            self.state.display = String::from_str("0.");
            self.state.waiting_for_operand = false;
            self.state.fresh_start = false;
            assert(self.state.display@ =~= seq!['0', '.']);
            return;
        }
        if !has_point(&self.state.display) {
            proof {
                reveal_strlit(".");
            }
            self.state.display.append(".");
            assert(self.state.display@ =~= old(self)@.display.push('.'));
        }
    }

    /// Presses an operator. Where an operand was typed since the last
    /// operator, the pending operation is applied first (chaining). `eval`
    /// is evaluated on the session before the press.
    pub fn input_operation(&mut self, op: Operation, eval: Evaluation)
        ensures
            final(self)@ == after_operator(old(self)@, op, eval),
    {
        if self.state.error.is_some() {
            return;
        }
        if !has_operand_shape(&self.state.display) {
            return;
        }
        let current = match eval.operand {
            Some(v) => v,
            None => return,
        };
        match (self.state.stored_value, self.state.current_operation) {
            (Some(_), Some(prev)) => {
                if !self.state.waiting_for_operand {
                    let raw = match eval.result {
                        Some(c) => c,
                        None => return,
                    };
                    match prev.apply(current, raw) {
                        Ok(c) => {
                            self.state.display = c.text;
                            self.state.stored_value = Some(c.bits);
                        },
                        Err(e) => {
                            self.state.error = Some(e);
                            return;
                        },
                    }
                }
            },
            _ => {
                self.state.stored_value = Some(current);
            },
        }
        self.state.current_operation = Some(op);
        self.state.waiting_for_operand = true;
    }

    /// Presses equals: applies the pending operation to the stored value and
    /// the display. `eval` is evaluated on the session before the press.
    pub fn calculate(&mut self, eval: Evaluation)
        ensures
            final(self)@ == after_equals(old(self)@, eval),
    {
        if self.state.error.is_some() || self.state.stored_value.is_none() {
            return;
        }
        let operation = match self.state.current_operation {
            Some(op) => op,
            None => return,
        };
        let current = match eval.operand {
            Some(v) => v,
            None => return,
        };
        let raw = match eval.result {
            Some(c) => c,
            None => return,
        };
        match operation.apply(current, raw) {
            Ok(c) => {
                if !is_finite_bits(c.bits) {
                    self.state.error = Some(CalcError::Overflow);
                } else {
                    self.state.display = c.text;
                    self.state.stored_value = Some(c.bits);
                    self.state.current_operation = None;
                    self.state.waiting_for_operand = true;
                }
            },
            Err(e) => {
                self.state.error = Some(e);
            },
        }
    }

    /// Resets the session to its initial values, error included.
    pub fn clear(&mut self)
        ensures
            final(self)@ == initial_session(),
    {
        self.state = CalculatorState::new();
    }

    /// The text to show: the error's message while one is set, else the display.
    pub fn get_display_text(&self) -> (r: String)
        ensures
            r@ == shown(self@),
    {
        match &self.state.error {
            Some(e) => e.message(),
            None => self.state.display.clone(),
        }
    }
}

} // verus!
