//! The running state of a Mascarpone program: the heterogeneous stack, the
//! current interpreter, the symbol channel, and the step budget.

use vstd::prelude::*;
use vstd::slice::slice_index_get;

use crate::mascarpone::interpreter::{
    clone_interpreter, interp_v, variant_v, Interpreter, Variant,
};
use crate::mascarpone::model::{
    cap_fuel, defined_v, execute_s, intrinsic_s, m_agrees, pop_e, pop_interp_nullable_s,
    pop_interp_s, pop_op_s, pop_string_rec, pop_string_s, pop_sym_s, push_string_s, spend, sym_elem, syms_elems,
    ElemV,
    InterpV, StateV, VarV,
};
use crate::mascarpone::operation::{clone_operation, op_v, Intrinsic, Operation};
use crate::mascarpone::stack::Stack;
use crate::mascarpone::{Error, Symbol, EOT, STRING_LEFT_DELIM, STRING_RIGHT_DELIM};

verus! {

/// How many recursive program expansions a run may make before it is cut off
/// with `Error::StepLimit`.
pub const FUEL_BUDGET: u64 = 0xffff_ffff_ffff_ffff;

/// One element of the stack: a symbol, an operation, or an interpreter
/// (possibly the null one).
#[derive(Debug)]
pub enum Element {
    Symbol(Symbol),
    Operation(Operation),
    Interpreter(Interpreter),
}

/// The shape of an element.
pub open spec fn element_v(e: Element) -> ElemV {
    match e {
        Element::Symbol(c) => ElemV::Symbol(c),
        Element::Operation(op) => ElemV::Operation(op@),
        Element::Interpreter(i) => ElemV::Interpreter(i@),
    }
}

impl View for Element {
    type V = ElemV;

    open spec fn view(&self) -> ElemV {
        element_v(*self)
    }
}

/// A clone of an element, semantically equal to it.
pub fn clone_element(e: &Element) -> (r: Element)
    ensures
        r@ == e@,
{
    match e {
        Element::Symbol(c) => Element::Symbol(*c),
        Element::Operation(op) => Element::Operation(clone_operation(op)),
        Element::Interpreter(i) => Element::Interpreter(clone_interpreter(i)),
    }
}

impl Clone for Element {
    /// A clone is a semantically equal element.
    fn clone(&self) -> (r: Self)
        ensures
            r@ == self@,
    {
        clone_element(self)
    }
}

/// The running state.  The channel is a string channel: reads walk a fixed
/// input and yield `EOT` once it is spent; writes append to an output
/// buffer.
#[derive(Debug)]
pub struct State {
    stack: Stack<Element>,
    interpreter: Interpreter,
    input: Vec<Symbol>,
    pos: usize,
    output: Vec<Symbol>,
    fuel: u64,
}

impl View for State {
    type V = StateV;

    closed spec fn view(&self) -> StateV {
        StateV {
            stack: self.stack@.map_values(|e: Element| element_v(e)),
            interp: self.interpreter@,
            input: self.input@.skip(self.read_from()),
            output: self.output@,
            fuel: self.fuel as nat,
        }
    }
}

impl State {
    /// The position clamped to the input's length, so that the view is
    /// well-formed whatever the fields hold.
    closed spec fn read_from(&self) -> int {
        if self.pos <= self.input@.len() {
            self.pos as int
        } else {
            self.input@.len() as int
        }
    }

    /// A fresh state: empty stack, the initial interpreter, the given input
    /// still to be read, nothing written, and a full step budget.
    pub fn new(input: Vec<Symbol>) -> (r: Self)
        ensures
            r@ == (StateV {
                stack: Seq::<ElemV>::empty(),
                interp: crate::mascarpone::model::initial_v(),
                input: input@,
                output: Seq::<Symbol>::empty(),
                fuel: FUEL_BUDGET as nat,
            }),
    {
        let r = State {
            stack: Stack::new(),
            interpreter: Interpreter::initial(),
            input,
            pos: 0,
            output: Vec::new(),
            fuel: FUEL_BUDGET,
        };
        proof {
            assert(r@.stack =~= Seq::<ElemV>::empty());
            assert(r@.input =~= r.input@);
        }
        r
    }

    /// Takes the written output out of a finished state.
    pub fn into_output(self) -> (r: Vec<Symbol>)
        ensures
            r@ == self@.output,
    {
        self.output
    }

    /// A copy of the current interpreter.
    pub fn current_interpreter(&self) -> (r: Interpreter)
        ensures
            r@ == self@.interp,
    {
        clone_interpreter(&self.interpreter)
    }

    /// Replaces the current interpreter.
    pub fn set_interpreter(&mut self, i: Interpreter)
        ensures
            final(self)@ == (StateV { interp: i@, ..old(self)@ }),
    {
        self.interpreter = i;
    }

    /// Spends one unit of fuel; `false` when none is left.
    pub fn try_spend(&mut self) -> (r: bool)
        ensures
            old(self)@.fuel == 0 ==> !r && final(self)@ == old(self)@,
            old(self)@.fuel > 0 ==> r && final(self)@ == spend(old(self)@),
    {
        if self.fuel == 0 {
            false
        } else {
            self.fuel = self.fuel - 1;
            true
        }
    }

    /// Pushes one element.  Always succeeds.
    pub fn push_element(&mut self, elem: Element)
        ensures
            final(self)@ == (StateV { stack: old(self)@.stack.push(elem@), ..old(self)@ }),
    {
        let ghost pre = self@.stack;
        self.stack.push(elem);
        proof {
            assert(self@.stack =~= pre.push(elem@));
        }
    }

    /// Pops the top element; fails on an empty stack.
    pub fn pop_element(&mut self) -> (r: Result<Element, Error>)
        ensures
            ({
                let (st1, rs) = pop_e(old(self)@);
                final(self)@ == st1 && match (r, rs) {
                    (Ok(e), Ok(ev)) => e@ == ev,
                    (Err(e1), Err(e2)) => e1 == e2,
                    _ => false,
                }
            }),
    {
        let ghost pre = self@.stack;
        match self.stack.pop() {
            Some(e) => {
                proof {
                    assert(self@.stack =~= pre.drop_last());
                }
                Ok(e)
            }
            None => Err(Error::EmptyStack),
        }
    }

    /// Returns a reference to the top element; fails on an empty stack.
    pub fn peek_element(&self) -> (r: Result<&Element, Error>)
        ensures
            self@.stack.len() > 0 ==> (r matches Ok(e) && e@ == self@.stack.last()),
            self@.stack.len() == 0 ==> r == Err::<&Element, Error>(Error::EmptyStack),
    {
        match self.stack.peek() {
            Some(e) => Ok(e),
            None => Err(Error::EmptyStack),
        }
    }

    /// Pops an element that must be a symbol; an element of another kind is
    /// consumed all the same.
    pub fn pop_symbol(&mut self) -> (r: Result<Symbol, Error>)
        ensures
            ({
                let (st1, rs) = pop_sym_s(old(self)@);
                final(self)@ == st1 && match (r, rs) {
                    (Ok(c), Ok(cv)) => c == cv,
                    (Err(e1), Err(e2)) => e1 == e2,
                    _ => false,
                }
            }),
    {
        match self.pop_element() {
            Ok(Element::Symbol(c)) => Ok(c),
            Ok(_) => Err(Error::WrongElementType),
            Err(e) => Err(e),
        }
    }

    /// Pops an element that must be an operation.
    pub fn pop_operation(&mut self) -> (r: Result<Operation, Error>)
        ensures
            ({
                let (st1, rs) = pop_op_s(old(self)@);
                final(self)@ == st1 && match (r, rs) {
                    (Ok(o), Ok(ov)) => o@ == ov,
                    (Err(e1), Err(e2)) => e1 == e2,
                    _ => false,
                }
            }),
    {
        match self.pop_element() {
            Ok(Element::Operation(o)) => Ok(o),
            Ok(_) => Err(Error::WrongElementType),
            Err(e) => Err(e),
        }
    }

    /// Pops an element that must be an interpreter; the null interpreter is
    /// allowed through.
    pub fn pop_interpreter_nullable(&mut self) -> (r: Result<Interpreter, Error>)
        ensures
            ({
                let (st1, rs) = pop_interp_nullable_s(old(self)@);
                final(self)@ == st1 && match (r, rs) {
                    (Ok(i), Ok(iv)) => i@ == iv,
                    (Err(e1), Err(e2)) => e1 == e2,
                    _ => false,
                }
            }),
    {
        match self.pop_element() {
            Ok(Element::Interpreter(i)) => Ok(i),
            Ok(_) => Err(Error::WrongElementType),
            Err(e) => Err(e),
        }
    }

    /// Pops an interpreter that must be defined.
    pub fn pop_interpreter(&mut self) -> (r: Result<Interpreter, Error>)
        ensures
            ({
                let (st1, rs) = pop_interp_s(old(self)@);
                final(self)@ == st1 && match (r, rs) {
                    (Ok(i), Ok(iv)) => i@ == iv && !(i@ is Null),
                    (Err(e1), Err(e2)) => e1 == e2,
                    _ => false,
                }
            }),
    {
        match self.pop_interpreter_nullable() {
            Ok(i) => match i {
                Interpreter::Null => Err(Error::NullInterpreter),
                _ => Ok(i),
            },
            Err(e) => Err(e),
        }
    }

    /// Lays a quoted string down on the stack: a `[` marker, the symbols in
    /// order, and a `]` marker on top.
    #[verifier::spinoff_prover]
    #[verifier::rlimit(50)]
    pub fn push_string(&mut self, symbols: &Vec<Symbol>)
        ensures
            final(self)@ == (StateV {
                stack: push_string_s(old(self)@.stack, symbols@),
                ..old(self)@
            }),
    {
        self.push_element(Element::Symbol(STRING_LEFT_DELIM));
        let ghost base = self@.stack;
        proof {
            assert(base + syms_elems(symbols@.take(0)) =~= base);
        }
        let n = symbols.len();
        let mut i: usize = 0;
        while i < n
            invariant
                i <= n,
                n == symbols@.len(),
                self@ == (StateV {
                    stack: base + syms_elems(symbols@.take(i as int)),
                    ..old(self)@
                }),
            decreases n - i,
        {
            let ghost pre = self@.stack;
            self.push_element(Element::Symbol(symbols[i]));
            i = i + 1;
            proof {
                assert(pre.push(sym_elem(symbols@[i - 1])) =~= base + syms_elems(
                    symbols@.take(i as int),
                ));
            }
        }
        self.push_element(Element::Symbol(STRING_RIGHT_DELIM));
        proof {
            assert(symbols@.take(n as int) =~= symbols@);
            assert(self@.stack =~= push_string_s(old(self)@.stack, symbols@));
        }
    }

    /// Pops a quoted string: the top must be the `]` marker; symbols then
    /// come off, `]` deepening and `[` closing a nesting level, until the
    /// matching `[`.  The captured symbols come back in their original
    /// order.
    #[verifier::spinoff_prover]
    #[verifier::rlimit(50)]
    pub fn pop_string(&mut self) -> (r: Result<Vec<Symbol>, Error>)
        ensures
            ({
                let (stack2, rs) = pop_string_s(old(self)@.stack);
                final(self)@ == (StateV { stack: stack2, ..old(self)@ }) && match (r, rs) {
                    (Ok(v), Ok(s)) => v@ == s,
                    (Err(e1), Err(e2)) => e1 == e2,
                    _ => false,
                }
            }),
    {
        match self.pop_symbol() {
            Ok(c) => {
                if c != STRING_RIGHT_DELIM {
                    return Err(Error::MalformedString);
                }
            }
            Err(e) => {
                return Err(e);
            }
        }
        let ghost base = self@.stack;
        proof {
            self.stack.lemma_len_bound();
        }
        let mut nesting: usize = 0;
        let mut string: Vec<Symbol> = Vec::new();
        loop
            invariant
                base.len() <= usize::MAX,
                nesting as int <= base.len() - self@.stack.len(),
                self@.stack.len() <= base.len(),
                self@ == (StateV { stack: self@.stack, ..old(self)@ }),
                pop_string_s(old(self)@.stack) == ({
                    let (s2, rs) = pop_string_rec(self@.stack, nesting as nat);
                    (
                        s2,
                        match rs {
                            Ok(v) => Ok::<Seq<Symbol>, Error>(v + string@),
                            Err(e) => Err(e),
                        },
                    )
                }),
            decreases self@.stack.len(),
        {
            match self.pop_symbol() {
                Ok(sym) => {
                    if sym == STRING_LEFT_DELIM && nesting == 0 {
                        proof {
                            assert(Seq::<Symbol>::empty() + string@ =~= string@);
                        }
                        return Ok(string);
                    }
                    let ghost pre_string = string@;
                    string.insert(0, sym);
                    if sym == STRING_RIGHT_DELIM {
                        nesting = nesting + 1;
                    } else if sym == STRING_LEFT_DELIM {
                        nesting = nesting - 1;
                    }
                    proof {
                        assert(string@ =~= seq![sym] + pre_string);
                        let (s2c, rc) = pop_string_rec(self@.stack, nesting as nat);
                        if let Ok(v) = rc {
                            assert(v.push(sym) + pre_string =~= v + string@);
                        }
                    }
                }
                Err(e) => {
                    return Err(e);
                }
            }
        }
    }

    /// Reads one symbol off the input, or `EOT` once the input is spent.
    #[verifier::spinoff_prover]
    #[verifier::rlimit(50)]
    pub fn read_symbol(&mut self) -> (r: Symbol)
        ensures
            old(self)@.input.len() > 0 ==> r == old(self)@.input.first() && final(self)@
                == (StateV { input: old(self)@.input.drop_first(), ..old(self)@ }),
            old(self)@.input.len() == 0 ==> r == EOT && final(self)@ == old(self)@,
    {
        if self.pos < self.input.len() {
            let s = self.input[self.pos];
            self.pos = self.pos + 1;
            proof {
                assert(old(self)@.input.first() == s);
                assert(self@.input =~= old(self)@.input.drop_first());
            }
            s
        } else {
            proof {
                assert(self@.input =~= old(self)@.input);
                assert(self@ =~= old(self)@);
            }
            EOT
        }
    }

    /// Writes one symbol to the output.  Always succeeds.
    pub fn write_symbol(&mut self, sym: Symbol)
        ensures
            final(self)@ == (StateV { output: old(self)@.output.push(sym), ..old(self)@ }),
    {
        self.output.push(sym);
    }

    /// Makes a fresh string-capturing interpreter current, with the old
    /// current interpreter as its parent.
    pub fn start_quote_string(&mut self)
        ensures
            final(self)@ == (StateV {
                interp: defined_v(old(self)@.interp, VarV::QuoteString),
                ..old(self)@
            }),
    {
        let old_interp = clone_interpreter(&self.interpreter);
        self.interpreter = Interpreter::Defined {
            parent: Box::new(old_interp),
            variant: Variant::QuoteString,
        };
        proof {
            reveal_with_fuel(interp_v, 2);
            reveal_with_fuel(variant_v, 2);
        }
    }

    /// Makes a fresh symbol-capturing interpreter current, with the old
    /// current interpreter as its parent.
    pub fn start_quote_symbol(&mut self)
        ensures
            final(self)@ == (StateV {
                interp: defined_v(old(self)@.interp, VarV::QuoteSymbol),
                ..old(self)@
            }),
    {
        let old_interp = clone_interpreter(&self.interpreter);
        self.interpreter = Interpreter::Defined {
            parent: Box::new(old_interp),
            variant: Variant::QuoteSymbol,
        };
        proof {
            reveal_with_fuel(interp_v, 2);
            reveal_with_fuel(variant_v, 2);
        }
    }

    /// Runs a whole program: each symbol is dispatched through the
    /// interpreter current at that moment, until one fails or the program
    /// ends.
    pub fn execute(&mut self, program: &[Symbol]) -> (r: Result<(), Error>)
        ensures
            m_agrees(old(self)@, final(self)@, r, execute_s(old(self)@, program@)),
        decreases self@.fuel, 3nat,
    {
        proof {
            assert(program@.skip(0) =~= program@);
        }
        let mut i: usize = 0;
        while i < program.len()
            invariant
                i <= program@.len(),
                self@.fuel <= old(self)@.fuel,
                execute_s(old(self)@, program@) == execute_s(self@, program@.skip(i as int)),
            decreases program@.len() - i,
        {
            let ghost pre = self@;
            let ghost rem = program@.skip(i as int);
            proof {
                assert(rem.first() == program@[i as int]);
            }
            let sym = *slice_index_get(program, i);
            let interp = self.current_interpreter();
            match interp.interpret(sym, self) {
                Ok(()) => {}
                Err(e) => {
                    return Err(e);
                }
            }
            i = i + 1;
            proof {
                assert(rem.drop_first() =~= program@.skip(i as int));
                assert(cap_fuel(self@, pre.fuel) == self@);
            }
        }
        proof {
            assert(program@.skip(i as int) =~= Seq::<Symbol>::empty());
        }
        Ok(())
    }

    /// `v`: push a copy of the current interpreter.
    pub(crate) fn intr_reify(&mut self) -> (r: Result<(), Error>)
        ensures
            m_agrees(old(self)@, final(self)@, r, intrinsic_s(Intrinsic::Reify, old(self)@)),
    {
        let i = self.current_interpreter();
        self.push_element(Element::Interpreter(i));
        Ok(())
    }

    /// `^`: pop an interpreter and make it current.
    pub(crate) fn intr_deify(&mut self) -> (r: Result<(), Error>)
        ensures
            m_agrees(old(self)@, final(self)@, r, intrinsic_s(Intrinsic::Deify, old(self)@)),
    {
        match self.pop_interpreter() {
            Ok(i) => {
                self.set_interpreter(i);
                Ok(())
            }
            Err(e) => Err(e),
        }
    }

    /// `>`: pop a symbol and an interpreter; push what the symbol is bound
    /// to under it.
    pub(crate) fn intr_extract(&mut self) -> (r: Result<(), Error>)
        ensures
            m_agrees(old(self)@, final(self)@, r, intrinsic_s(Intrinsic::Extract, old(self)@)),
    {
        let sym = match self.pop_symbol() {
            Ok(c) => c,
            Err(e) => return Err(e),
        };
        let interp = match self.pop_interpreter() {
            Ok(i) => i,
            Err(e) => return Err(e),
        };
        match interp.extract(sym) {
            Ok(op) => {
                self.push_element(Element::Operation(op));
                Ok(())
            }
            Err(e) => Err(e),
        }
    }

    /// `<`: pop a symbol, an operation and an interpreter; push the
    /// interpreter with the binding added.
    pub(crate) fn intr_install(&mut self) -> (r: Result<(), Error>)
        ensures
            m_agrees(old(self)@, final(self)@, r, intrinsic_s(Intrinsic::Install, old(self)@)),
    {
        let sym = match self.pop_symbol() {
            Ok(c) => c,
            Err(e) => return Err(e),
        };
        let op = match self.pop_operation() {
            Ok(o) => o,
            Err(e) => return Err(e),
        };
        let mut interp = match self.pop_interpreter() {
            Ok(i) => i,
            Err(e) => return Err(e),
        };
        match interp.install(sym, op) {
            Ok(()) => {
                self.push_element(Element::Interpreter(interp));
                Ok(())
            }
            Err(e) => Err(e),
        }
    }

    /// `{`: pop an interpreter; push its parent, which must not be absent.
    pub(crate) fn intr_get_parent(&mut self) -> (r: Result<(), Error>)
        ensures
            m_agrees(old(self)@, final(self)@, r, intrinsic_s(Intrinsic::GetParent, old(self)@)),
    {
        proof {
            reveal_with_fuel(interp_v, 3);
        }
        let interp = match self.pop_interpreter() {
            Ok(i) => i,
            Err(e) => return Err(e),
        };
        match interp {
            Interpreter::Null => Err(Error::NullInterpreter),
            Interpreter::Defined { parent, .. } => {
                let p = *parent;
                match &p {
                    Interpreter::Null => Err(Error::NoParent),
                    _ => {
                        self.push_element(Element::Interpreter(p));
                        Ok(())
                    }
                }
            }
        }
    }

    /// `}`: pop an interpreter and a parent; push the interpreter
    /// reparented.
    pub(crate) fn intr_set_parent(&mut self) -> (r: Result<(), Error>)
        ensures
            m_agrees(old(self)@, final(self)@, r, intrinsic_s(Intrinsic::SetParent, old(self)@)),
    {
        proof {
            reveal_with_fuel(interp_v, 2);
        }
        let interp = match self.pop_interpreter() {
            Ok(i) => i,
            Err(e) => return Err(e),
        };
        let new_parent = match self.pop_interpreter() {
            Ok(p) => p,
            Err(e) => return Err(e),
        };
        match interp {
            Interpreter::Null => Err(Error::NullInterpreter),
            Interpreter::Defined { variant, .. } => {
                self.push_element(
                    Element::Interpreter(
                        Interpreter::Defined { parent: Box::new(new_parent), variant },
                    ),
                );
                Ok(())
            }
        }
    }

    /// `*`: pop an interpreter and a quoted string; push the string as a
    /// program carrying that interpreter.
    pub(crate) fn intr_create(&mut self) -> (r: Result<(), Error>)
        ensures
            m_agrees(old(self)@, final(self)@, r, intrinsic_s(Intrinsic::Create, old(self)@)),
    {
        proof {
            reveal_with_fuel(op_v, 2);
        }
        let interp = match self.pop_interpreter() {
            Ok(i) => i,
            Err(e) => return Err(e),
        };
        match self.pop_string() {
            Ok(body) => {
                self.push_element(Element::Operation(Operation::Program(body, Box::new(interp))));
                Ok(())
            }
            Err(e) => Err(e),
        }
    }

    /// `@`: pop an operation; push its body as a quoted string and then its
    /// interpreter.
    pub(crate) fn intr_expand(&mut self) -> (r: Result<(), Error>)
        ensures
            m_agrees(old(self)@, final(self)@, r, intrinsic_s(Intrinsic::Expand, old(self)@)),
    {
        proof {
            reveal_with_fuel(op_v, 2);
        }
        let op = match self.pop_operation() {
            Ok(o) => o,
            Err(e) => return Err(e),
        };
        match op {
            Operation::Intrinsic(x) => {
                let syms = vec![x.to_symbol()];
                proof {
                    assert(syms@ =~= seq![crate::mascarpone::model::symbol_of(x)]);
                }
                self.push_string(&syms);
                self.push_element(Element::Interpreter(Interpreter::initial()));
                Ok(())
            }
            Operation::Program(body, env) => {
                self.push_string(&body);
                self.push_element(Element::Interpreter(*env));
                Ok(())
            }
        }
    }

    /// `0`: push the null interpreter.
    pub(crate) fn intr_null(&mut self) -> (r: Result<(), Error>)
        ensures
            m_agrees(old(self)@, final(self)@, r, intrinsic_s(Intrinsic::Null, old(self)@)),
    {
        proof {
            reveal_with_fuel(interp_v, 2);
        }
        self.push_element(Element::Interpreter(Interpreter::Null));
        Ok(())
    }

    /// `1`: pop an operation; push a uniform interpreter defaulting to it.
    pub(crate) fn intr_uniform(&mut self) -> (r: Result<(), Error>)
        ensures
            m_agrees(old(self)@, final(self)@, r, intrinsic_s(Intrinsic::Uniform, old(self)@)),
    {
        match self.pop_operation() {
            Ok(op) => {
                self.push_element(Element::Interpreter(Interpreter::uniform(op)));
                Ok(())
            }
            Err(e) => Err(e),
        }
    }

    /// `[`: push the opening marker and enter string-capture mode.
    pub(crate) fn intr_quote_string(&mut self) -> (r: Result<(), Error>)
        ensures
            m_agrees(old(self)@, final(self)@, r, intrinsic_s(Intrinsic::QuoteString, old(self)@)),
    {
        self.push_element(Element::Symbol(STRING_LEFT_DELIM));
        self.start_quote_string();
        Ok(())
    }

    /// `'`: enter one-symbol capture mode.
    pub(crate) fn intr_quote_symbol(&mut self) -> (r: Result<(), Error>)
        ensures
            m_agrees(old(self)@, final(self)@, r, intrinsic_s(Intrinsic::QuoteSymbol, old(self)@)),
    {
        self.start_quote_symbol();
        Ok(())
    }

    /// `.`: pop a symbol and write it to the channel.
    pub(crate) fn intr_output(&mut self) -> (r: Result<(), Error>)
        ensures
            m_agrees(old(self)@, final(self)@, r, intrinsic_s(Intrinsic::Output, old(self)@)),
    {
        match self.pop_symbol() {
            Ok(c) => {
                self.write_symbol(c);
                Ok(())
            }
            Err(e) => Err(e),
        }
    }

    /// `,`: read a symbol from the channel and push it.
    pub(crate) fn intr_input(&mut self) -> (r: Result<(), Error>)
        ensures
            m_agrees(old(self)@, final(self)@, r, intrinsic_s(Intrinsic::Input, old(self)@)),
    {
        let s = self.read_symbol();
        self.push_element(Element::Symbol(s));
        Ok(())
    }

    /// `:`: push a copy of the top element.
    pub(crate) fn intr_dup(&mut self) -> (r: Result<(), Error>)
        ensures
            m_agrees(old(self)@, final(self)@, r, intrinsic_s(Intrinsic::Dup, old(self)@)),
    {
        let e = match self.peek_element() {
            Ok(e) => clone_element(e),
            Err(e) => return Err(e),
        };
        self.push_element(e);
        Ok(())
    }

    /// `$`: pop the top element and throw it away.
    pub(crate) fn intr_discard(&mut self) -> (r: Result<(), Error>)
        ensures
            m_agrees(old(self)@, final(self)@, r, intrinsic_s(Intrinsic::Discard, old(self)@)),
    {
        match self.pop_element() {
            Ok(_) => Ok(()),
            Err(e) => Err(e),
        }
    }

    /// `/`: swap the top two elements.
    pub(crate) fn intr_swap(&mut self) -> (r: Result<(), Error>)
        ensures
            m_agrees(old(self)@, final(self)@, r, intrinsic_s(Intrinsic::Swap, old(self)@)),
    {
        let a = match self.pop_element() {
            Ok(e) => e,
            Err(e) => return Err(e),
        };
        let b = match self.pop_element() {
            Ok(e) => e,
            Err(e) => return Err(e),
        };
        self.push_element(a);
        self.push_element(b);
        Ok(())
    }
}

} // verus!
