//! A four-function calculator engine: the state machine behind a button grid.
//!
//! Numbers are IEEE-754 binary64 values held as their bit patterns. Reading the
//! display as a number, the arithmetic itself and the decimal text of a result
//! are supplied by the caller; every decision made on those values is verified
//! here.
pub mod calculator;
pub mod laws;
pub mod operation;
pub mod state;

pub use calculator::{Calculator, Evaluation, Event};
pub use operation::{is_finite_bits, is_zero_bits, CalcError, Computed, Operation};
pub use state::{CalculatorState, Session};
