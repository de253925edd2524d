//! The Mascarpone dialect: character symbols, a heterogeneous stack, and a
//! first-class, reflectively manipulable interpreter.

pub mod interpreter;
pub mod model;
pub mod operation;
pub mod stack;
pub mod state;

use vstd::prelude::*;

use crate::mascarpone::model::{execute_s, initial_v, ElemV, StateV};
use crate::mascarpone::state::{State, FUEL_BUDGET};

verus! {

/// A Mascarpone symbol is a character.
pub type Symbol = char;

/// The opening delimiter of a quoted string.
pub const STRING_LEFT_DELIM: Symbol = '[';

/// The closing delimiter of a quoted string.
pub const STRING_RIGHT_DELIM: Symbol = ']';

/// The character the string-backed channel hands out once its input is
/// exhausted (the end-of-transmission character).
pub const EOT: Symbol = '\u{4}';

/// Everything that can go wrong while a Mascarpone program runs.
#[derive(Debug, Clone, Copy, PartialEq, Eq, Structural)]
pub enum Error {
    /// `GetParent` found no parent interpreter.
    NoParent,
    /// A null interpreter was used as if it were defined.
    NullInterpreter,
    /// A pop or peek found the stack empty.
    EmptyStack,
    /// A typed pop found an element of another kind.
    WrongElementType,
    /// Extract or install was tried on a quote-mode interpreter.
    WrongInterpreterVariant,
    /// A string was popped off a stack that does not hold one.
    MalformedString,
    /// The symbol channel failed.
    IOError,
    /// The step budget ran out before the program finished.
    StepLimit,
}

/// The state a run starts from: empty stack, the initial interpreter, the
/// given input still to be read, nothing written, and a full step budget.
pub open spec fn start_state(input: Seq<Symbol>) -> StateV {
    StateV {
        stack: Seq::<ElemV>::empty(),
        interp: initial_v(),
        input,
        output: Seq::<Symbol>::empty(),
        fuel: FUEL_BUDGET as nat,
    }
}

/// Runs a program over a string channel that will read the given input, and
/// hands the written output back.
pub fn compute(program: &[Symbol], input: Vec<Symbol>) -> (r: Result<Vec<Symbol>, Error>)
    ensures
        ({
            let (stv, res) = execute_s(start_state(input@), program@);
            match r {
                Ok(out) => res is None && out@ == stv.output,
                Err(e) => res == Some(e),
            }
        }),
{
    let mut state = State::new(input);
    match state.execute(program) {
        Ok(()) => Ok(state.into_output()),
        Err(e) => Err(e),
    }
}

} // verus!
