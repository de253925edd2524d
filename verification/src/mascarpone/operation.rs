//! Operations: the intrinsics and recorded programs a symbol can be bound to.

use vstd::prelude::*;

use crate::mascarpone::interpreter::{clone_interpreter, Interpreter};
use crate::mascarpone::model::{intrinsic_of, intrinsic_s, m_agrees, op_execute_s, symbol_of, OpV};
use crate::mascarpone::state::State;
use crate::mascarpone::{Error, Symbol};

verus! {

/// The built-in operations of the initial interpreter, and the explicit
/// no-operation every unknown symbol stands for.
#[derive(Debug, Clone, Copy, PartialEq, Eq, Structural)]
pub enum Intrinsic {
    /// `v`: push a copy of the current interpreter.
    Reify,
    /// `^`: pop an interpreter and make it current.
    Deify,
    /// `>`: pop a symbol and an interpreter; push what the symbol is bound to.
    Extract,
    /// `<`: pop a symbol, an operation and an interpreter; push the
    /// interpreter with the binding added.
    Install,
    /// `{`: pop an interpreter; push its parent.
    GetParent,
    /// `}`: pop an interpreter and a parent; push the interpreter reparented.
    SetParent,
    /// `*`: pop an interpreter and a quoted string; push them as a program.
    Create,
    /// `@`: pop an operation; push its body as a quoted string and its
    /// interpreter.
    Expand,
    /// `!`: pop an operation and perform it.
    Perform,
    /// `0`: push the null interpreter.
    Null,
    /// `1`: pop an operation; push a uniform interpreter defaulting to it.
    Uniform,
    /// `[`: start capturing a quoted string.
    QuoteString,
    /// `'`: start capturing one symbol.
    QuoteSymbol,
    /// `.`: pop a symbol and write it to the channel.
    Output,
    /// `,`: read a symbol from the channel and push it.
    Input,
    /// `:`: push a copy of the top element.
    Dup,
    /// `$`: pop the top element and throw it away.
    Discard,
    /// `/`: swap the top two elements.
    Swap,
    /// Do nothing.
    NoOp,
}

/// What a symbol is bound to: a built-in, or a recorded program paired with
/// a snapshot of the interpreter it runs under.
#[derive(Debug)]
pub enum Operation {
    Intrinsic(Intrinsic),
    Program(Vec<Symbol>, Box<Interpreter>),
}

/// The shape of an operation.
pub open spec fn op_v(op: Operation) -> OpV
    decreases op,
{
    match op {
        Operation::Intrinsic(x) => OpV::Intrinsic(x),
        Operation::Program(body, env) => OpV::Program(
            body@,
            Box::new(crate::mascarpone::interpreter::interp_v(*env)),
        ),
    }
}

impl View for Operation {
    type V = OpV;

    open spec fn view(&self) -> OpV {
        op_v(*self)
    }
}

/// A clone of an operation, semantically equal to it.
pub fn clone_operation(op: &Operation) -> (r: Operation)
    ensures
        r@ == op@,
    decreases op,
{
    match op {
        Operation::Intrinsic(x) => Operation::Intrinsic(*x),
        Operation::Program(body, env) => {
            let b = body.clone();
            proof {
                assert(b@ =~= body@);
            }
            Operation::Program(b, Box::new(clone_interpreter(&**env)))
        }
    }
}

impl Clone for Operation {
    /// A clone is a semantically equal operation.
    fn clone(&self) -> (r: Self)
        ensures
            r@ == self@,
    {
        clone_operation(self)
    }
}

impl Operation {
    /// Performs the operation against the state.  An intrinsic runs its
    /// effect; a program runs its body under its captured interpreter, and
    /// the previous current interpreter is restored once the body is
    /// exhausted.
    pub fn execute(&self, state: &mut State) -> (r: Result<(), Error>)
        ensures
            m_agrees(old(state)@, final(state)@, r, op_execute_s(self@, old(state)@)),
        decreases state@.fuel, 1nat,
    {
        proof {
            reveal_with_fuel(op_v, 2);
        }
        match self {
            Operation::Intrinsic(x) => x.execute(state),
            Operation::Program(body, env) => {
                if !state.try_spend() {
                    return Err(Error::StepLimit);
                }
                let saved = state.current_interpreter();
                state.set_interpreter(clone_interpreter(&**env));
                match state.execute(body.as_slice()) {
                    Ok(()) => {
                        state.set_interpreter(saved);
                        Ok(())
                    }
                    Err(e) => Err(e),
                }
            }
        }
    }
}

impl Intrinsic {
    /// The intrinsic a symbol canonically stands for, or `None` when it
    /// stands for none.
    pub fn from_symbol(sym: Symbol) -> (r: Option<Self>)
        ensures
            match r {
                Some(i) => i == intrinsic_of(sym) && i != Intrinsic::NoOp,
                None => intrinsic_of(sym) == Intrinsic::NoOp,
            },
    {
        if sym == 'v' {
            Some(Intrinsic::Reify)
        } else if sym == '^' {
            Some(Intrinsic::Deify)
        } else if sym == '>' {
            Some(Intrinsic::Extract)
        } else if sym == '<' {
            Some(Intrinsic::Install)
        } else if sym == '{' {
            Some(Intrinsic::GetParent)
        } else if sym == '}' {
            Some(Intrinsic::SetParent)
        } else if sym == '*' {
            Some(Intrinsic::Create)
        } else if sym == '@' {
            Some(Intrinsic::Expand)
        } else if sym == '!' {
            Some(Intrinsic::Perform)
        } else if sym == '0' {
            Some(Intrinsic::Null)
        } else if sym == '1' {
            Some(Intrinsic::Uniform)
        } else if sym == '[' {
            Some(Intrinsic::QuoteString)
        } else if sym == '\'' {
            Some(Intrinsic::QuoteSymbol)
        } else if sym == '.' {
            Some(Intrinsic::Output)
        } else if sym == ',' {
            Some(Intrinsic::Input)
        } else if sym == ':' {
            Some(Intrinsic::Dup)
        } else if sym == '$' {
            Some(Intrinsic::Discard)
        } else if sym == '/' {
            Some(Intrinsic::Swap)
        } else {
            None
        }
    }

    /// The canonical symbol of an intrinsic.  `NoOp` has no canonical
    /// symbol: a blank stands in for it, which the initial interpreter maps
    /// back to a no-op.
    pub fn to_symbol(&self) -> (r: Symbol)
        ensures
            r == symbol_of(*self),
    {
        match self {
            Intrinsic::Reify => 'v',
            Intrinsic::Deify => '^',
            Intrinsic::Extract => '>',
            Intrinsic::Install => '<',
            Intrinsic::GetParent => '{',
            Intrinsic::SetParent => '}',
            Intrinsic::Create => '*',
            Intrinsic::Expand => '@',
            Intrinsic::Perform => '!',
            Intrinsic::Null => '0',
            Intrinsic::Uniform => '1',
            Intrinsic::QuoteString => '[',
            Intrinsic::QuoteSymbol => '\'',
            Intrinsic::Output => '.',
            Intrinsic::Input => ',',
            Intrinsic::Dup => ':',
            Intrinsic::Discard => '$',
            Intrinsic::Swap => '/',
            Intrinsic::NoOp => ' ',
        }
    }

    /// Runs the intrinsic's effect against the state.
    pub fn execute(&self, state: &mut State) -> (r: Result<(), Error>)
        ensures
            m_agrees(old(state)@, final(state)@, r, intrinsic_s(*self, old(state)@)),
        decreases state@.fuel, 0nat,
    {
        match self {
            Intrinsic::Reify => state.intr_reify(),
            Intrinsic::Deify => state.intr_deify(),
            Intrinsic::Extract => state.intr_extract(),
            Intrinsic::Install => state.intr_install(),
            Intrinsic::GetParent => state.intr_get_parent(),
            Intrinsic::SetParent => state.intr_set_parent(),
            Intrinsic::Create => state.intr_create(),
            Intrinsic::Expand => state.intr_expand(),
            Intrinsic::Perform => {
                let op = match state.pop_operation() {
                    Ok(o) => o,
                    Err(e) => return Err(e),
                };
                if !state.try_spend() {
                    return Err(Error::StepLimit);
                }
                op.execute(state)
            }
            Intrinsic::Null => state.intr_null(),
            Intrinsic::Uniform => state.intr_uniform(),
            Intrinsic::QuoteString => state.intr_quote_string(),
            Intrinsic::QuoteSymbol => state.intr_quote_symbol(),
            Intrinsic::Output => state.intr_output(),
            Intrinsic::Input => state.intr_input(),
            Intrinsic::Dup => state.intr_dup(),
            Intrinsic::Discard => state.intr_discard(),
            Intrinsic::Swap => state.intr_swap(),
            Intrinsic::NoOp => Ok(()),
        }
    }
}

} // verus!
