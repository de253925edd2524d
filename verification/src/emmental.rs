//! The Emmental dialect: 8-bit symbols, a byte stack, a byte queue, and a
//! single mutable interpreter mapping each symbol to an operation.

pub mod interpreter;
pub mod io;
pub mod queue;
pub mod stack;
pub mod state;

use vstd::prelude::*;

use crate::emmental::interpreter::{default_table, Interpreter};
use crate::emmental::io::{StringIO, SymbolIO};
use crate::emmental::state::{run_s, State, StateV, FUEL_BUDGET};

verus! {

/// An Emmental symbol is an unsigned 8-bit byte.
pub type Symbol = u8;

/// Everything that can go wrong while an Emmental program runs.
#[derive(Debug, Clone, Copy, PartialEq, Eq, Structural)]
pub enum Error {
    /// A pop or peek found the stack empty.
    EmptyStack,
    /// A dequeue found the queue empty.
    QueueEmpty,
    /// A string was popped off the stack but the terminator never came.
    PrematurelyTerminatedString,
    /// The symbol channel failed.
    IOError,
    /// The step budget ran out before the program finished.
    StepLimit,
}

/// The state a run starts from: empty stack and queue, the default
/// interpreter, the given channel contents, and a full step budget.
pub open spec fn boot_state(input: Seq<Symbol>, output: Seq<Symbol>) -> StateV {
    StateV {
        stack: Seq::<Symbol>::empty(),
        queue: Seq::<Symbol>::empty(),
        table: default_table(),
        input,
        output,
        fuel: FUEL_BUDGET as nat,
    }
}

/// The state a run over a string channel starts from: as `boot_state`, with
/// nothing written yet.
pub open spec fn start_state(input: Seq<Symbol>) -> StateV {
    boot_state(input, Seq::<Symbol>::empty())
}

/// Runs a program over the given channel under the default interpreter and
/// hands the finished state back.
pub fn run_with_io<IO: SymbolIO>(io: IO, program: &[Symbol]) -> (r: Result<State<IO>, Error>)
    ensures
        ({
            let (stv, res) = run_s(boot_state(io.sio_input(), io.sio_output()), program@);
            match r {
                Ok(st) => res is None && st@ == stv && st.io_infallible() == io.sio_infallible(),
                Err(e) => (e == Error::IOError && !io.sio_infallible()) || res == Some(e),
            }
        }),
{
    let mut state = State::new(Interpreter::default(), io);
    match state.run(program) {
        Ok(()) => Ok(state),
        Err(e) => Err(e),
    }
}

/// Runs a program over a string channel that will read the given input, and
/// hands the written output back.
pub fn run_with_input(program: &[Symbol], input: &[Symbol]) -> (r: Result<Vec<Symbol>, Error>)
    ensures
        ({
            let (stv, res) = run_s(start_state(input@), program@);
            match r {
                Ok(out) => res is None && out@ == stv.output,
                Err(e) => res == Some(e),
            }
        }),
{
    match run_with_io(StringIO::new(input), program) {
        Ok(st) => Ok(st.into_io().into_output()),
        Err(e) => Err(e),
    }
}

} // verus!
