//! The running state of an Emmental program and the dispatch loop, together
//! with the mathematical model both are proved against.

use vstd::arithmetic::div_mod::lemma_add_mod_noop;
use vstd::prelude::*;
use vstd::slice::slice_index_get;

use crate::emmental::interpreter::{Interpreter, OpV, Operation, PrimOp};
use crate::emmental::io::{SymbolIO, EOT};
use crate::emmental::queue::Queue;
use crate::emmental::stack::{pop_string_s, Stack};
use crate::emmental::{Error, Symbol};

verus! {

/// How many recursive program expansions a run may make before it is cut off
/// with `Error::StepLimit`.
pub const FUEL_BUDGET: u64 = 0xffff_ffff_ffff_ffff;

/// The byte value of `;`, the string terminator `Supplant` looks for.
pub const TERMINATOR: Symbol = 59;

/// The mathematical shape of a running state: the stack and queue contents,
/// the interpreter's table indexed by symbol, the symbols still to be read
/// and those written so far, and the remaining step budget.
#[verifier::ext_equal]
pub struct StateV {
    pub stack: Seq<Symbol>,
    pub queue: Seq<Symbol>,
    pub table: Seq<OpV>,
    pub input: Seq<Symbol>,
    pub output: Seq<Symbol>,
    pub fuel: nat,
}

/// Reduction of an integer to an 8-bit symbol; all Emmental arithmetic wraps.
pub open spec fn em_wrap(n: int) -> Symbol {
    (n % 256) as u8
}

/// The floor of the base-2 logarithm (0 for inputs below 2).
pub open spec fn log2_floor(n: nat) -> nat
    decreases n,
{
    if n < 2 {
        0
    } else {
        1 + log2_floor(n / 2)
    }
}

/// The state with one unit of fuel spent.
pub open spec fn spend(st: StateV) -> StateV {
    StateV { fuel: (st.fuel - 1) as nat, ..st }
}

/// The state with its fuel capped; the interpreter never raises fuel, so in
/// every reachable use this is the identity.
pub open spec fn cap_fuel(st: StateV, f: nat) -> StateV {
    if st.fuel <= f {
        st
    } else {
        StateV { fuel: f, ..st }
    }
}

/// What one built-in operation does to the state.  The returned state is the
/// state as left behind even when the operation fails: nothing rolls back.
pub open spec fn prim_s(st: StateV, p: PrimOp) -> (StateV, Option<Error>)
    decreases st.fuel, 0nat, 0nat,
{
    match p {
        PrimOp::Nul => (StateV { stack: st.stack.push(0), ..st }, None),
        PrimOp::Semicolon => (StateV { stack: st.stack.push(TERMINATOR), ..st }, None),
        PrimOp::Digit(d) => {
            if st.stack.len() == 0 {
                (st, Some(Error::EmptyStack))
            } else {
                let s = st.stack.last();
                (
                    StateV {
                        stack: st.stack.drop_last().push(em_wrap(s as int * 10 + d as int)),
                        ..st
                    },
                    None,
                )
            }
        }
        PrimOp::Add => {
            if st.stack.len() == 0 {
                (st, Some(Error::EmptyStack))
            } else if st.stack.len() == 1 {
                (StateV { stack: st.stack.drop_last(), ..st }, Some(Error::EmptyStack))
            } else {
                let b = st.stack.last();
                let a = st.stack.drop_last().last();
                (
                    StateV {
                        stack: st.stack.drop_last().drop_last().push(em_wrap(a as int + b as int)),
                        ..st
                    },
                    None,
                )
            }
        }
        PrimOp::Sub => {
            if st.stack.len() == 0 {
                (st, Some(Error::EmptyStack))
            } else if st.stack.len() == 1 {
                (StateV { stack: st.stack.drop_last(), ..st }, Some(Error::EmptyStack))
            } else {
                let b = st.stack.last();
                let a = st.stack.drop_last().last();
                (
                    StateV {
                        stack: st.stack.drop_last().drop_last().push(em_wrap(a as int - b as int)),
                        ..st
                    },
                    None,
                )
            }
        }
        PrimOp::Log2 => {
            if st.stack.len() == 0 {
                (st, Some(Error::EmptyStack))
            } else {
                let n = st.stack.last();
                let r: Symbol = if n == 0 {
                    8
                } else {
                    log2_floor(n as nat) as u8
                };
                (StateV { stack: st.stack.drop_last().push(r), ..st }, None)
            }
        }
        PrimOp::Output => {
            if st.stack.len() == 0 {
                (st, Some(Error::EmptyStack))
            } else {
                (
                    StateV {
                        stack: st.stack.drop_last(),
                        output: st.output.push(st.stack.last()),
                        ..st
                    },
                    None,
                )
            }
        }
        PrimOp::Input => {
            if st.input.len() > 0 {
                (
                    StateV {
                        stack: st.stack.push(st.input.first()),
                        input: st.input.drop_first(),
                        ..st
                    },
                    None,
                )
            } else {
                (StateV { stack: st.stack.push(EOT), ..st }, None)
            }
        }
        PrimOp::Enqueue => {
            if st.stack.len() == 0 {
                (st, Some(Error::EmptyStack))
            } else {
                (StateV { queue: st.queue.push(st.stack.last()), ..st }, None)
            }
        }
        PrimOp::Dequeue => {
            if st.queue.len() == 0 {
                (st, Some(Error::QueueEmpty))
            } else {
                (
                    StateV {
                        stack: st.stack.push(st.queue.first()),
                        queue: st.queue.drop_first(),
                        ..st
                    },
                    None,
                )
            }
        }
        PrimOp::Duplicate => {
            if st.stack.len() == 0 {
                (st, Some(Error::EmptyStack))
            } else {
                (StateV { stack: st.stack.push(st.stack.last()), ..st }, None)
            }
        }
        PrimOp::Supplant => {
            if st.stack.len() == 0 {
                (st, Some(Error::EmptyStack))
            } else {
                let s = st.stack.last();
                let (rest, r) = pop_string_s(st.stack.drop_last(), TERMINATOR);
                match r {
                    Ok(body) => (
                        StateV {
                            stack: rest,
                            table: st.table.update(s as int, OpV::Program(body)),
                            ..st
                        },
                        None,
                    ),
                    Err(e) => (StateV { stack: rest, ..st }, Some(e)),
                }
            }
        }
        PrimOp::Eval => {
            if st.stack.len() == 0 {
                (st, Some(Error::EmptyStack))
            } else {
                let s = st.stack.last();
                let st1 = StateV { stack: st.stack.drop_last(), ..st };
                if st1.fuel == 0 {
                    (st1, Some(Error::StepLimit))
                } else {
                    interpret_s(spend(st1), s)
                }
            }
        }
    }
}

/// What interpreting one symbol under the current interpreter does.
pub open spec fn interpret_s(st: StateV, sym: Symbol) -> (StateV, Option<Error>)
    decreases st.fuel, 1nat, 0nat,
{
    match st.table[sym as int] {
        OpV::NoOp => (st, None),
        OpV::Primitive(p) => prim_s(st, p),
        OpV::Program(body) => {
            if st.fuel == 0 {
                (st, Some(Error::StepLimit))
            } else {
                run_s(spend(st), body)
            }
        }
    }
}

/// What running a whole program does: the symbols are interpreted in order
/// until one fails or the program is exhausted.
pub open spec fn run_s(st: StateV, program: Seq<Symbol>) -> (StateV, Option<Error>)
    decreases st.fuel, 2nat, program.len(),
{
    if program.len() == 0 {
        (st, None)
    } else {
        let (st1, r) = interpret_s(st, program.first());
        match r {
            Some(e) => (st1, Some(e)),
            None => run_s(cap_fuel(st1, st.fuel), program.drop_first()),
        }
    }
}

/// The running state: a byte stack, a byte queue, the mutable interpreter,
/// the symbol channel, and the remaining step budget.
pub struct State<IO> {
    stack: Stack<Symbol>,
    queue: Queue<Symbol>,
    interpreter: Interpreter,
    pub io: IO,
    fuel: u64,
}

impl<IO: SymbolIO> View for State<IO> {
    type V = StateV;

    closed spec fn view(&self) -> StateV {
        StateV {
            stack: self.stack@,
            queue: self.queue@,
            table: self.interpreter@,
            input: self.io.sio_input(),
            output: self.io.sio_output(),
            fuel: self.fuel as nat,
        }
    }
}

/// How an executable step relates to what the model says of it: fuel never
/// grows, the channel's reliability is untouched, a success or a typed
/// failure lands exactly where the model lands, and an `IOError` can only
/// come out of a channel that may fail.
pub open spec fn agrees(
    pre: StateV,
    pre_inf: bool,
    post: StateV,
    post_inf: bool,
    r: Result<(), Error>,
    step: (StateV, Option<Error>),
) -> bool {
    &&& post.fuel <= pre.fuel
    &&& post_inf == pre_inf
    &&& match r {
        Ok(()) => step.1 is None && post == step.0,
        Err(e) => (e == Error::IOError && !pre_inf) || (step.1 == Some(e) && post == step.0),
    }
}

impl<IO: SymbolIO> State<IO> {
    /// Whether the channel is known never to fail.
    pub closed spec fn io_infallible(&self) -> bool {
        self.io.sio_infallible()
    }

    /// A fresh state: empty stack and queue, the given interpreter and
    /// channel, and a full step budget.
    pub fn new(interpreter: Interpreter, io: IO) -> (r: Self)
        ensures
            r@ == (StateV {
                stack: Seq::<Symbol>::empty(),
                queue: Seq::<Symbol>::empty(),
                table: interpreter@,
                input: io.sio_input(),
                output: io.sio_output(),
                fuel: FUEL_BUDGET as nat,
            }),
            r.io_infallible() == io.sio_infallible(),
    {
        State { stack: Stack::new(), queue: Queue::new(), interpreter, io, fuel: FUEL_BUDGET }
    }

    /// Takes the channel out of a finished state.
    pub fn into_io(self) -> (r: IO)
        ensures
            r.sio_input() == self@.input,
            r.sio_output() == self@.output,
            r.sio_infallible() == self.io_infallible(),
    {
        self.io
    }

    /// Runs a whole program, one symbol at a time.
    pub fn run(&mut self, program: &[Symbol]) -> (r: Result<(), Error>)
        ensures
            agrees(
                old(self)@,
                old(self).io_infallible(),
                final(self)@,
                final(self).io_infallible(),
                r,
                run_s(old(self)@, program@),
            ),
        decreases self@.fuel, 2nat, 0nat,
    {
        proof {
            assert(program@.skip(0) =~= program@);
        }
        let mut i: usize = 0;
        while i < program.len()
            invariant
                i <= program@.len(),
                self.io_infallible() == old(self).io_infallible(),
                self@.fuel <= old(self)@.fuel,
                run_s(old(self)@, program@) == run_s(self@, program@.skip(i as int)),
            decreases program@.len() - i,
        {
            let ghost pre = self@;
            let ghost rem = program@.skip(i as int);
            proof {
                assert(rem.first() == program@[i as int]);
            }
            let sym = *slice_index_get(program, i);
            match self.interpret_symbol(sym) {
                Ok(()) => {}
                Err(e) => {
                    return Err(e);
                }
            }
            i += 1;
            proof {
                assert(rem.drop_first() =~= program@.skip(i as int));
                assert(cap_fuel(self@, pre.fuel) == self@);
            }
        }
        proof {
            assert(program@.skip(i as int) =~= Seq::<Symbol>::empty());
        }
        Ok(())
    }

    /// Looks the symbol up in the current interpreter and performs what it is
    /// bound to.
    pub fn interpret_symbol(&mut self, sym: Symbol) -> (r: Result<(), Error>)
        ensures
            agrees(
                old(self)@,
                old(self).io_infallible(),
                final(self)@,
                final(self).io_infallible(),
                r,
                interpret_s(old(self)@, sym),
            ),
        decreases self@.fuel, 1nat, 0nat,
    {
        let operation = self.interpreter.lookup(sym).clone();
        match operation {
            Operation::Primitive(primop) => self.step_primop(primop),
            Operation::Program(body) => {
                if self.fuel == 0 {
                    return Err(Error::StepLimit);
                }
                self.fuel = self.fuel - 1;
                proof {
                    assert(self@ =~= spend(old(self)@));
                }
                self.run(body.as_slice())
            }
            Operation::NoOp => Ok(()),
        }
    }

    /// Performs one built-in operation.
    pub fn step_primop(&mut self, primop: PrimOp) -> (r: Result<(), Error>)
        ensures
            agrees(
                old(self)@,
                old(self).io_infallible(),
                final(self)@,
                final(self).io_infallible(),
                r,
                prim_s(old(self)@, primop),
            ),
        decreases self@.fuel, 0nat, 0nat,
    {
        match primop {
            PrimOp::Nul => {
                self.stack.push(0);
                Ok(())
            }
            PrimOp::Semicolon => {
                self.stack.push(TERMINATOR);
                Ok(())
            }
            PrimOp::Digit(d) => self.prim_digit(d),
            PrimOp::Add => self.prim_add(),
            PrimOp::Sub => self.prim_sub(),
            PrimOp::Log2 => self.prim_log2(),
            PrimOp::Output => self.prim_output(),
            PrimOp::Input => self.prim_input(),
            PrimOp::Enqueue => self.prim_enqueue(),
            PrimOp::Dequeue => self.prim_dequeue(),
            PrimOp::Duplicate => self.prim_duplicate(),
            PrimOp::Supplant => self.prim_supplant(),
            PrimOp::Eval => {
                let sym = match self.stack.pop() {
                    Ok(s) => s,
                    Err(e) => return Err(e),
                };
                if self.fuel == 0 {
                    return Err(Error::StepLimit);
                }
                self.fuel = self.fuel - 1;
                proof {
                    assert(self@ =~= spend(StateV { stack: old(self)@.stack.drop_last(), ..old(
                        self,
                    )@ }));
                }
                self.interpret_symbol(sym)
            }
        }
    }

    /// `0`..`9`: pop s, push `s*10 + d`, wrapping.
    fn prim_digit(&mut self, d: u8) -> (r: Result<(), Error>)
        ensures
            agrees(
                old(self)@,
                old(self).io_infallible(),
                final(self)@,
                final(self).io_infallible(),
                r,
                prim_s(old(self)@, PrimOp::Digit(d)),
            ),
    {
        let sym = match self.stack.pop() {
            Ok(s) => s,
            Err(e) => return Err(e),
        };
        let r = sym.wrapping_mul(10).wrapping_add(d);
        proof {
            lemma_add_mod_noop(sym as int * 10, d as int, 256);
        }
        self.stack.push(r);
        Ok(())
    }

    /// `+`: pop b, pop a, push `a + b`, wrapping.
    fn prim_add(&mut self) -> (r: Result<(), Error>)
        ensures
            agrees(
                old(self)@,
                old(self).io_infallible(),
                final(self)@,
                final(self).io_infallible(),
                r,
                prim_s(old(self)@, PrimOp::Add),
            ),
    {
        let rhs = match self.stack.pop() {
            Ok(s) => s,
            Err(e) => return Err(e),
        };
        let lhs = match self.stack.pop() {
            Ok(s) => s,
            Err(e) => return Err(e),
        };
        self.stack.push(lhs.wrapping_add(rhs));
        Ok(())
    }

    /// `-`: pop b, pop a, push `a - b`, wrapping.
    fn prim_sub(&mut self) -> (r: Result<(), Error>)
        ensures
            agrees(
                old(self)@,
                old(self).io_infallible(),
                final(self)@,
                final(self).io_infallible(),
                r,
                prim_s(old(self)@, PrimOp::Sub),
            ),
    {
        let rhs = match self.stack.pop() {
            Ok(s) => s,
            Err(e) => return Err(e),
        };
        let lhs = match self.stack.pop() {
            Ok(s) => s,
            Err(e) => return Err(e),
        };
        self.stack.push(lhs.wrapping_sub(rhs));
        Ok(())
    }

    /// `~`: pop n, push the floor of log2(n), or 8 for n = 0.
    fn prim_log2(&mut self) -> (r: Result<(), Error>)
        ensures
            agrees(
                old(self)@,
                old(self).io_infallible(),
                final(self)@,
                final(self).io_infallible(),
                r,
                prim_s(old(self)@, PrimOp::Log2),
            ),
    {
        let sym = match self.stack.pop() {
            Ok(s) => s,
            Err(e) => return Err(e),
        };
        self.stack.push(if sym == 0 {
            8
        } else {
            log2_floor_exec(sym)
        });
        Ok(())
    }

    /// `.`: pop a symbol and write it to the channel.
    fn prim_output(&mut self) -> (r: Result<(), Error>)
        ensures
            agrees(
                old(self)@,
                old(self).io_infallible(),
                final(self)@,
                final(self).io_infallible(),
                r,
                prim_s(old(self)@, PrimOp::Output),
            ),
    {
        let sym = match self.stack.pop() {
            Ok(s) => s,
            Err(e) => return Err(e),
        };
        match self.io.write_symbol(sym) {
            Ok(()) => Ok(()),
            Err(e) => Err(e),
        }
    }

    /// `,`: read a symbol from the channel and push it.
    fn prim_input(&mut self) -> (r: Result<(), Error>)
        ensures
            agrees(
                old(self)@,
                old(self).io_infallible(),
                final(self)@,
                final(self).io_infallible(),
                r,
                prim_s(old(self)@, PrimOp::Input),
            ),
    {
        let sym = match self.io.read_symbol() {
            Ok(s) => s,
            Err(e) => return Err(e),
        };
        self.stack.push(sym);
        Ok(())
    }

    /// `^`: peek the top symbol and append it to the queue.
    fn prim_enqueue(&mut self) -> (r: Result<(), Error>)
        ensures
            agrees(
                old(self)@,
                old(self).io_infallible(),
                final(self)@,
                final(self).io_infallible(),
                r,
                prim_s(old(self)@, PrimOp::Enqueue),
            ),
    {
        let sym = match self.stack.peek() {
            Ok(s) => *s,
            Err(e) => return Err(e),
        };
        self.queue.push_back(sym);
        Ok(())
    }

    /// `v`: pop the front of the queue and push it on the stack.
    fn prim_dequeue(&mut self) -> (r: Result<(), Error>)
        ensures
            agrees(
                old(self)@,
                old(self).io_infallible(),
                final(self)@,
                final(self).io_infallible(),
                r,
                prim_s(old(self)@, PrimOp::Dequeue),
            ),
    {
        let sym = match self.queue.pop_front() {
            Some(s) => s,
            None => return Err(Error::QueueEmpty),
        };
        self.stack.push(sym);
        Ok(())
    }

    /// `:`: peek the top symbol and push a copy.
    fn prim_duplicate(&mut self) -> (r: Result<(), Error>)
        ensures
            agrees(
                old(self)@,
                old(self).io_infallible(),
                final(self)@,
                final(self).io_infallible(),
                r,
                prim_s(old(self)@, PrimOp::Duplicate),
            ),
    {
        let sym = match self.stack.peek() {
            Ok(s) => *s,
            Err(e) => return Err(e),
        };
        self.stack.push(sym);
        Ok(())
    }

    /// `!`: pop a symbol s and a `;`-terminated string, bind s to the string.
    fn prim_supplant(&mut self) -> (r: Result<(), Error>)
        ensures
            agrees(
                old(self)@,
                old(self).io_infallible(),
                final(self)@,
                final(self).io_infallible(),
                r,
                prim_s(old(self)@, PrimOp::Supplant),
            ),
    {
        let sym = match self.stack.pop() {
            Ok(s) => s,
            Err(e) => return Err(e),
        };
        let program = match self.stack.pop_string(TERMINATOR) {
            Ok(p) => p,
            Err(e) => return Err(e),
        };
        self.interpreter.supplant(sym, Operation::Program(program));
        Ok(())
    }
}

/// Inputs below `pow2(k)` have a base-2 logarithm below `k`.
proof fn lemma_log2_floor_lt(n: nat, k: nat)
    requires
        k >= 1,
        n < vstd::arithmetic::power2::pow2(k),
    ensures
        log2_floor(n) < k,
    decreases n,
{
    vstd::arithmetic::power2::lemma_pow2_unfold(k);
    if n >= 2 {
        vstd::arithmetic::power2::lemma2_to64();
        lemma_log2_floor_lt(n / 2, (k - 1) as nat);
    }
}

/// The floor of the base-2 logarithm of a nonzero byte.
fn log2_floor_exec(n: Symbol) -> (r: Symbol)
    requires
        n > 0,
    ensures
        r == log2_floor(n as nat),
{
    proof {
        vstd::arithmetic::power2::lemma2_to64();
        lemma_log2_floor_lt(n as nat, 8);
    }
    let mut v: Symbol = n;
    let mut r: Symbol = 0;
    while v >= 2
        invariant
            v >= 1,
            r + log2_floor(v as nat) == log2_floor(n as nat),
            log2_floor(n as nat) <= 7,
        decreases v,
    {
        v = v / 2;
        r = r + 1;
    }
    r
}

} // verus!
