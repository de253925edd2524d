//! The Emmental interpreter: a mapping from every 8-bit symbol to an
//! operation, mutable one binding at a time.

use vstd::prelude::*;

use crate::emmental::Symbol;

verus! {

/// The built-in operations of the default interpreter.
#[derive(Debug, Clone, Copy, PartialEq, Eq, Structural)]
pub enum PrimOp {
    /// `#`: push 0.
    Nul,
    /// `0`..`9`: pop s, push `s*10 + d`, wrapping.
    Digit(u8),
    /// `+`: pop b, pop a, push `a + b`, wrapping.
    Add,
    /// `-`: pop b, pop a, push `a - b`, wrapping.
    Sub,
    /// `~`: pop n, push the floor of log2(n), or 8 for n = 0.
    Log2,
    /// `.`: pop a symbol and write it to the channel.
    Output,
    /// `,`: read a symbol from the channel and push it.
    Input,
    /// `^`: peek the top symbol and append it to the queue.
    Enqueue,
    /// `v`: pop the front of the queue and push it on the stack.
    Dequeue,
    /// `:`: peek the top symbol and push a copy.
    Duplicate,
    /// `!`: pop a symbol s and a `;`-terminated string, bind s to the string.
    Supplant,
    /// `?`: pop a symbol and interpret it under the current interpreter.
    Eval,
    /// `;`: push the byte value of `;` itself.
    Semicolon,
}

/// What a symbol is bound to: a built-in, a recorded program, or nothing.
#[derive(Debug)]
pub enum Operation {
    /// A built-in operation.
    Primitive(PrimOp),
    /// A recorded symbol sequence, re-interpreted under the interpreter as it
    /// stands when the program runs.
    Program(Vec<Symbol>),
    /// Do nothing.
    NoOp,
}

/// The mathematical shape of an operation.
pub enum OpV {
    Primitive(PrimOp),
    Program(Seq<Symbol>),
    NoOp,
}

impl View for Operation {
    type V = OpV;

    open spec fn view(&self) -> OpV {
        match self {
            Operation::Primitive(p) => OpV::Primitive(*p),
            Operation::Program(body) => OpV::Program(body@),
            Operation::NoOp => OpV::NoOp,
        }
    }
}

impl Clone for Operation {
    /// A clone is a semantically equal operation.
    fn clone(&self) -> (r: Self)
        ensures
            r@ == self@,
    {
        match self {
            Operation::Primitive(p) => Operation::Primitive(*p),
            Operation::Program(body) => {
                let b = body.clone();
                proof {
                    assert(b@ =~= body@);
                }
                Operation::Program(b)
            }
            Operation::NoOp => Operation::NoOp,
        }
    }
}

/// The operation the default interpreter binds to a symbol.
pub open spec fn default_op(sym: Symbol) -> OpV {
    if 48 <= sym && sym <= 57 {
        OpV::Primitive(PrimOp::Digit((sym - 48) as u8))
    } else if sym == 35 {  // '#'
        OpV::Primitive(PrimOp::Nul)
    } else if sym == 43 {  // '+'
        OpV::Primitive(PrimOp::Add)
    } else if sym == 45 {  // '-'
        OpV::Primitive(PrimOp::Sub)
    } else if sym == 126 {  // '~'
        OpV::Primitive(PrimOp::Log2)
    } else if sym == 46 {  // '.'
        OpV::Primitive(PrimOp::Output)
    } else if sym == 44 {  // ','
        OpV::Primitive(PrimOp::Input)
    } else if sym == 94 {  // '^'
        OpV::Primitive(PrimOp::Enqueue)
    } else if sym == 118 {  // 'v'
        OpV::Primitive(PrimOp::Dequeue)
    } else if sym == 58 {  // ':'
        OpV::Primitive(PrimOp::Duplicate)
    } else if sym == 33 {  // '!'
        OpV::Primitive(PrimOp::Supplant)
    } else if sym == 63 {  // '?'
        OpV::Primitive(PrimOp::Eval)
    } else if sym == 59 {  // ';'
        OpV::Primitive(PrimOp::Semicolon)
    } else {
        OpV::NoOp
    }
}

/// The default interpreter's whole table, one operation per symbol.
pub open spec fn default_table() -> Seq<OpV> {
    Seq::new(256, |i: int| default_op(i as u8))
}

/// A mapping from every 8-bit symbol to an operation.  The view is the
/// 256-entry table, indexed by symbol.
pub struct Interpreter {
    table: Vec<Operation>,
}

impl View for Interpreter {
    type V = Seq<OpV>;

    closed spec fn view(&self) -> Seq<OpV> {
        self.table@.map_values(|op: Operation| op@)
    }
}

impl Interpreter {
    #[verifier::type_invariant]
    closed spec fn wf(&self) -> bool {
        self.table@.len() == 256
    }

    /// The operation the given symbol is bound to.
    pub fn lookup(&self, sym: Symbol) -> (r: &Operation)
        ensures
            r@ == self@[sym as int],
    {
        proof {
            use_type_invariant(&*self);
        }
        &self.table[sym as usize]
    }

    /// Binds the symbol to the operation, replacing what was there.
    pub fn supplant(&mut self, sym: Symbol, op: Operation)
        ensures
            final(self)@ == old(self)@.update(sym as int, op@),
    {
        proof {
            use_type_invariant(&*self);
        }
        let ghost pre = self@;
        self.table[sym as usize] = op;
        proof {
            assert(self@ =~= pre.update(sym as int, self.table@[sym as int]@));
        }
    }
}

/// Builds the operation the default interpreter binds to a symbol.
fn build_default_op(sym: Symbol) -> (r: Operation)
    ensures
        r@ == default_op(sym),
{
    if 48 <= sym && sym <= 57 {
        Operation::Primitive(PrimOp::Digit(sym - 48))
    } else if sym == 35 {
        Operation::Primitive(PrimOp::Nul)
    } else if sym == 43 {
        Operation::Primitive(PrimOp::Add)
    } else if sym == 45 {
        Operation::Primitive(PrimOp::Sub)
    } else if sym == 126 {
        Operation::Primitive(PrimOp::Log2)
    } else if sym == 46 {
        Operation::Primitive(PrimOp::Output)
    } else if sym == 44 {
        Operation::Primitive(PrimOp::Input)
    } else if sym == 94 {
        Operation::Primitive(PrimOp::Enqueue)
    } else if sym == 118 {
        Operation::Primitive(PrimOp::Dequeue)
    } else if sym == 58 {
        Operation::Primitive(PrimOp::Duplicate)
    } else if sym == 33 {
        Operation::Primitive(PrimOp::Supplant)
    } else if sym == 63 {
        Operation::Primitive(PrimOp::Eval)
    } else if sym == 59 {
        Operation::Primitive(PrimOp::Semicolon)
    } else {
        Operation::NoOp
    }
}

impl Default for Interpreter {
    /// The default interpreter binds the digits and the twelve punctuation
    /// symbols to their built-ins and everything else to no-ops.
    fn default() -> (r: Self)
        ensures
            r@ == default_table(),
    {
        let mut table: Vec<Operation> = Vec::new();
        let mut i: usize = 0;
        while i < 256
            invariant
                i <= 256,
                table@.len() == i,
                forall|k: int| 0 <= k < i ==> table@[k]@ == default_op(k as u8),
            decreases 256 - i,
        {
            table.push(build_default_op(i as u8));
            i += 1;
        }
        let r = Interpreter { table };
        proof {
            assert(r@ =~= default_table());
        }
        r
    }
}

} // verus!
