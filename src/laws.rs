use vstd::prelude::*;
use crate::calculator::{
    after_digit, after_equals, after_operator, digit_char, operand_shape, run, shown, starts_new_number, step,
    Evaluation, Event,
};
use crate::operation::{CalcError, Operation};
use crate::state::{initial_session, Session};

verus! {

/// The events that enter the digits `ds` one after another.
pub open spec fn digit_events(ds: Seq<u8>) -> Seq<Event> {
    Seq::new(ds.len(), |i: int| Event::Digit(ds[i]))
}

/// The characters of the digits `ds`, in order.
pub open spec fn digit_text(ds: Seq<u8>) -> Seq<char> {
    Seq::new(ds.len(), |i: int| digit_char(ds[i]))
}

/// Every entry of `ds` is a decimal digit.
pub open spec fn all_digits(ds: Seq<u8>) -> bool {
    forall|i: int| 0 <= i < ds.len() ==> ds[i] <= 9
}

/// A decimal point occurs at most once in `t`.
pub open spec fn point_at_most_once(t: Seq<char>) -> bool {
    forall|i: int, j: int|
        0 <= i < t.len() && 0 <= j < t.len() && t[i] == '.' && t[j] == '.' ==> i == j
}

/// The result text that an event carries, if any, holds at most one point.
pub open spec fn result_text_ok(e: Event) -> bool {
    match e {
        Event::Operator(_, ev) => ev.result is Some ==> point_at_most_once(ev.result->0.text@),
        Event::Equals(ev) => ev.result is Some ==> point_at_most_once(ev.result->0.text@),
        _ => true,
    }
}

/// Running a sequence extended by one event is one more step.
proof fn lemma_run_push(s: Session, events: Seq<Event>, e: Event)
    ensures
        run(s, events.push(e)) == step(run(s, events), e),
{
    assert(events.push(e).drop_last() =~= events);
}

proof fn lemma_digits_run(ds: Seq<u8>)
    requires
        ds.len() >= 1,
        all_digits(ds),
    ensures
        run(initial_session(), digit_events(ds)) == (Session {
            display: digit_text(ds),
            waiting_for_operand: false,
            fresh_start: false,
            ..initial_session()
        }),
    decreases ds.len(),
{
    let events = digit_events(ds);
    assert(events.drop_last() =~= digit_events(ds.drop_last()));
    if ds.len() == 1 {
        assert(run(initial_session(), events.drop_last()) == initial_session());
        assert(digit_text(ds) =~= seq![digit_char(ds[0])]);
    } else {
        lemma_digits_run(ds.drop_last());
        assert(digit_text(ds) =~= digit_text(ds.drop_last()).push(digit_char(ds.last())));
    }
}

/// From a fresh session, entering one or more digits shows exactly those
/// digits, in order.
pub proof fn lemma_digits_concatenate(ds: Seq<u8>)
    requires
        ds.len() >= 1,
        all_digits(ds),
    ensures
        shown(run(initial_session(), digit_events(ds))) == digit_text(ds),
{
    lemma_digits_run(ds);
}

proof fn lemma_messages_have_no_point(e: CalcError)
    ensures
        !e.text().contains('.'),
{
    reveal_strlit("Error: Division by zero");
    reveal_strlit("Error: Overflow");
    assert(forall|i: int| 0 <= i < e.text().len() ==> e.text()[i] != '.');
}

proof fn lemma_step_keeps_single_point(s: Session, e: Event)
    requires
        point_at_most_once(s.display),
        result_text_ok(e),
    ensures
        point_at_most_once(step(s, e).display),
{
    if e is DecimalPoint && s.error is None && !starts_new_number(s) && !s.display.contains('.') {
        let t = s.display.push('.');
        assert forall|i: int, j: int|
            0 <= i < t.len() && 0 <= j < t.len() && t[i] == '.' && t[j] == '.' implies i == j by {
            if i < s.display.len() {
                assert(s.display[i] == '.');
            }
            if j < s.display.len() {
                assert(s.display[j] == '.');
            }
        }
    }
}

proof fn lemma_run_keeps_single_point(events: Seq<Event>)
    requires
        forall|i: int| 0 <= i < events.len() ==> result_text_ok(#[trigger] events[i]),
    ensures
        point_at_most_once(run(initial_session(), events).display),
    decreases events.len(),
{
    if events.len() > 0 {
        lemma_run_keeps_single_point(events.drop_last());
        lemma_step_keeps_single_point(run(initial_session(), events.drop_last()), events.last());
    }
}

/// Whatever is entered, the shown text holds at most one decimal point,
/// provided each result text that the evaluations supply holds at most one.
pub proof fn lemma_single_point(events: Seq<Event>)
    requires
        forall|i: int| 0 <= i < events.len() ==> result_text_ok(#[trigger] events[i]),
    ensures
        point_at_most_once(shown(run(initial_session(), events))),
{
    lemma_run_keeps_single_point(events);
    let s = run(initial_session(), events);
    if let Some(e) = s.error {
        lemma_messages_have_no_point(e);
    }
}

/// Digits entered from a fresh session and then an operator: the operand
/// read from the display is stored, the operator is pending, and the next
/// digit starts a new number.
pub proof fn lemma_operand_then_operator(ds: Seq<u8>, op: Operation, ev: Evaluation)
    requires
        ds.len() >= 1,
        all_digits(ds),
        ev.operand is Some,
    ensures
        run(initial_session(), digit_events(ds).push(Event::Operator(op, ev))).stored_value
            == ev.operand,
        run(initial_session(), digit_events(ds).push(Event::Operator(op, ev))).current_operation
            == Some(op),
        run(initial_session(), digit_events(ds).push(Event::Operator(op, ev))).waiting_for_operand,
{
    lemma_digits_run(ds);
    lemma_run_push(initial_session(), digit_events(ds), Event::Operator(op, ev));
    let t = digit_text(ds);
    assert(t[0] != '.');
    assert(t != seq!['.']) by {
        if t == seq!['.'] {
            assert(seq!['.'][0] == '.');
        }
    }
    assert(operand_shape(t));
}

/// After a calculation that succeeds with result R: a digit starts a new
/// number holding that digit alone, and an operator, with the display read
/// back as R, keeps R as the stored value.
pub proof fn lemma_continue_after_result(
    s: Session,
    ev: Evaluation,
    d: u8,
    op: Operation,
    next: Evaluation,
)
    requires
        s.error is None,
        s.stored_value is Some,
        s.current_operation is Some,
        ev.operand is Some,
        ev.result is Some,
        after_equals(s, ev).error is None,
        d <= 9,
        next.operand == Some(ev.result->0.bits),
    ensures
        after_equals(s, ev).stored_value == Some(ev.result->0.bits),
        after_digit(after_equals(s, ev), d).display == seq![digit_char(d)],
        after_operator(after_equals(s, ev), op, next).stored_value == Some(ev.result->0.bits),
        operand_shape(ev.result->0.text@) ==> after_operator(
            after_equals(s, ev),
            op,
            next,
        ).current_operation == Some(op),
{
}

/// A clear, after any sequence of events, gives the fresh session back.
pub proof fn lemma_clear_resets(events: Seq<Event>)
    ensures
        run(initial_session(), events.push(Event::Clear)) == initial_session(),
        shown(initial_session()) == seq!['0'],
{
    lemma_run_push(initial_session(), events, Event::Clear);
}

/// While an error is set, no event but a clear changes the session, and so
/// neither the shown text.
pub proof fn lemma_error_blocks(s: Session, events: Seq<Event>)
    requires
        s.error is Some,
        forall|i: int| 0 <= i < events.len() ==> !(#[trigger] events[i] is Clear),
    ensures
        run(s, events) == s,
        shown(run(s, events)) == shown(s),
    decreases events.len(),
{
    if events.len() > 0 {
        lemma_error_blocks(s, events.drop_last());
        assert(!(events.last() is Clear));
    }
}

/// Operators pressed one after another, with no digit between, once an
/// operator is pending: the stored value and display stay, no error is set,
/// and an operator stays pending.
pub proof fn lemma_repeated_operator(s: Session, events: Seq<Event>)
    requires
        s.error is None,
        s.waiting_for_operand,
        s.stored_value is Some,
        s.current_operation is Some,
        forall|i: int| 0 <= i < events.len() ==> #[trigger] events[i] is Operator,
    ensures
        run(s, events) == (Session { current_operation: run(s, events).current_operation, ..s }),
        run(s, events).current_operation is Some,
    decreases events.len(),
{
    if events.len() > 0 {
        lemma_repeated_operator(s, events.drop_last());
        assert(events.last() is Operator);
    }
}

} // verus!
