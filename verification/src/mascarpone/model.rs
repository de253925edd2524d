//! The mathematical model of Mascarpone: ghost shapes of operations,
//! interpreters, stack elements and running states, and the transition
//! functions every executable step is proved against.

use vstd::prelude::*;

use crate::mascarpone::operation::Intrinsic;
use crate::mascarpone::{Error, Symbol, EOT, STRING_LEFT_DELIM, STRING_RIGHT_DELIM};

verus! {

/// The shape of an operation: a built-in, or a recorded program paired with
/// the interpreter it runs under.
pub enum OpV {
    Intrinsic(Intrinsic),
    Program(Seq<Symbol>, Box<InterpV>),
}

/// The shape of an interpreter variant.
pub enum VarV {
    Initial,
    QuoteString,
    QuoteSymbol,
    Mapping { table: Map<Symbol, OpV>, default: OpV },
}

/// The shape of an interpreter: the null value, or a variant with a parent.
pub enum InterpV {
    Null,
    Defined { parent: Box<InterpV>, variant: VarV },
}

/// The shape of a stack element.
pub enum ElemV {
    Symbol(Symbol),
    Operation(OpV),
    Interpreter(InterpV),
}

/// The shape of a running state: the stack, the current interpreter, the
/// symbols still to be read and those written so far, and the remaining step
/// budget.
#[verifier::ext_equal]
pub struct StateV {
    pub stack: Seq<ElemV>,
    pub interp: InterpV,
    pub input: Seq<Symbol>,
    pub output: Seq<Symbol>,
    pub fuel: nat,
}

/// An interpreter with the given parent and variant.
pub open spec fn defined_v(parent: InterpV, variant: VarV) -> InterpV {
    InterpV::Defined { parent: Box::new(parent), variant }
}

/// The initial interpreter: the built-in dispatch table, no parent.
pub open spec fn initial_v() -> InterpV {
    defined_v(InterpV::Null, VarV::Initial)
}

/// The intrinsic a symbol stands for under the initial interpreter; symbols
/// outside the canonical table stand for `NoOp`.
pub open spec fn intrinsic_of(sym: Symbol) -> Intrinsic {
    if sym == 'v' {
        Intrinsic::Reify
    } else if sym == '^' {
        Intrinsic::Deify
    } else if sym == '>' {
        Intrinsic::Extract
    } else if sym == '<' {
        Intrinsic::Install
    } else if sym == '{' {
        Intrinsic::GetParent
    } else if sym == '}' {
        Intrinsic::SetParent
    } else if sym == '*' {
        Intrinsic::Create
    } else if sym == '@' {
        Intrinsic::Expand
    } else if sym == '!' {
        Intrinsic::Perform
    } else if sym == '0' {
        Intrinsic::Null
    } else if sym == '1' {
        Intrinsic::Uniform
    } else if sym == '[' {
        Intrinsic::QuoteString
    } else if sym == '\'' {
        Intrinsic::QuoteSymbol
    } else if sym == '.' {
        Intrinsic::Output
    } else if sym == ',' {
        Intrinsic::Input
    } else if sym == ':' {
        Intrinsic::Dup
    } else if sym == '$' {
        Intrinsic::Discard
    } else if sym == '/' {
        Intrinsic::Swap
    } else {
        Intrinsic::NoOp
    }
}

/// The canonical symbol of an intrinsic.  `NoOp` has none: a blank stands in
/// for it, which the initial interpreter maps back to a no-op.
pub open spec fn symbol_of(i: Intrinsic) -> Symbol {
    match i {
        Intrinsic::Reify => 'v',
        Intrinsic::Deify => '^',
        Intrinsic::Extract => '>',
        Intrinsic::Install => '<',
        Intrinsic::GetParent => '{',
        Intrinsic::SetParent => '}',
        Intrinsic::Create => '*',
        Intrinsic::Expand => '@',
        Intrinsic::Perform => '!',
        Intrinsic::Null => '0',
        Intrinsic::Uniform => '1',
        Intrinsic::QuoteString => '[',
        Intrinsic::QuoteSymbol => '\'',
        Intrinsic::Output => '.',
        Intrinsic::Input => ',',
        Intrinsic::Dup => ':',
        Intrinsic::Discard => '$',
        Intrinsic::Swap => '/',
        Intrinsic::NoOp => ' ',
    }
}

/// The canonical table: each of the eighteen intrinsic symbols bound to its
/// intrinsic.  This is what seeds a `Mapping` upgraded from `Initial`.
pub open spec fn initial_map() -> Map<Symbol, OpV> {
    Map::new(
        |s: Symbol| intrinsic_of(s) != Intrinsic::NoOp,
        |s: Symbol| OpV::Intrinsic(intrinsic_of(s)),
    )
}

/// What extraction returns: the table entry, the default for unknown symbols,
/// an intrinsic under `Initial`, and an error on null or quote-mode
/// interpreters.
pub open spec fn extract_s(i: InterpV, sym: Symbol) -> Result<OpV, Error> {
    match i {
        InterpV::Null => Err(Error::NullInterpreter),
        InterpV::Defined { parent, variant } => match variant {
            VarV::QuoteString => Err(Error::WrongInterpreterVariant),
            VarV::QuoteSymbol => Err(Error::WrongInterpreterVariant),
            VarV::Initial => Ok(OpV::Intrinsic(intrinsic_of(sym))),
            VarV::Mapping { table, default } => Ok(
                if table.dom().contains(sym) {
                    table[sym]
                } else {
                    default
                },
            ),
        },
    }
}

/// What installation returns: a `Mapping` with the binding added; an
/// `Initial` interpreter is first upgraded to a `Mapping` seeded with the
/// canonical table.
pub open spec fn install_s(i: InterpV, sym: Symbol, op: OpV) -> Result<InterpV, Error> {
    match i {
        InterpV::Null => Err(Error::NullInterpreter),
        InterpV::Defined { parent, variant } => match variant {
            VarV::QuoteString => Err(Error::WrongInterpreterVariant),
            VarV::QuoteSymbol => Err(Error::WrongInterpreterVariant),
            VarV::Initial => Ok(
                InterpV::Defined {
                    parent,
                    variant: VarV::Mapping {
                        table: initial_map().insert(sym, op),
                        default: OpV::Intrinsic(Intrinsic::NoOp),
                    },
                },
            ),
            VarV::Mapping { table, default } => Ok(
                InterpV::Defined {
                    parent,
                    variant: VarV::Mapping { table: table.insert(sym, op), default },
                },
            ),
        },
    }
}

/// The state with one element pushed.
pub open spec fn push_e(st: StateV, e: ElemV) -> StateV {
    StateV { stack: st.stack.push(e), ..st }
}

/// The state with the top element popped; popping an empty stack fails and
/// leaves the state alone.
pub open spec fn pop_e(st: StateV) -> (StateV, Result<ElemV, Error>) {
    if st.stack.len() == 0 {
        (st, Err(Error::EmptyStack))
    } else {
        (StateV { stack: st.stack.drop_last(), ..st }, Ok(st.stack.last()))
    }
}

/// Popping an element that must be a symbol; an element of another kind is
/// consumed all the same.
pub open spec fn pop_sym_s(st: StateV) -> (StateV, Result<Symbol, Error>) {
    let (st1, r) = pop_e(st);
    match r {
        Ok(ElemV::Symbol(c)) => (st1, Ok(c)),
        Ok(_) => (st1, Err(Error::WrongElementType)),
        Err(e) => (st1, Err(e)),
    }
}

/// Popping an element that must be an operation.
pub open spec fn pop_op_s(st: StateV) -> (StateV, Result<OpV, Error>) {
    let (st1, r) = pop_e(st);
    match r {
        Ok(ElemV::Operation(o)) => (st1, Ok(o)),
        Ok(_) => (st1, Err(Error::WrongElementType)),
        Err(e) => (st1, Err(e)),
    }
}

/// Popping an element that must be an interpreter; the null interpreter is
/// allowed through.
pub open spec fn pop_interp_nullable_s(st: StateV) -> (StateV, Result<InterpV, Error>) {
    let (st1, r) = pop_e(st);
    match r {
        Ok(ElemV::Interpreter(i)) => (st1, Ok(i)),
        Ok(_) => (st1, Err(Error::WrongElementType)),
        Err(e) => (st1, Err(e)),
    }
}

/// Popping an interpreter that must be defined.
pub open spec fn pop_interp_s(st: StateV) -> (StateV, Result<InterpV, Error>) {
    let (st1, r) = pop_interp_nullable_s(st);
    match r {
        Ok(InterpV::Null) => (st1, Err(Error::NullInterpreter)),
        Ok(i) => (st1, Ok(i)),
        Err(e) => (st1, Err(e)),
    }
}

/// A symbol as a stack element.
pub open spec fn sym_elem(c: Symbol) -> ElemV {
    ElemV::Symbol(c)
}

/// Symbols as stack elements, one for one.
pub open spec fn syms_elems(s: Seq<Symbol>) -> Seq<ElemV> {
    s.map_values(|c: Symbol| sym_elem(c))
}

/// The stack with a quoted string laid down: a `[` marker, the symbols in
/// order, and a `]` marker on top.
pub open spec fn push_string_s(stack: Seq<ElemV>, s: Seq<Symbol>) -> Seq<ElemV> {
    stack + seq![ElemV::Symbol(STRING_LEFT_DELIM)] + syms_elems(s)
        + seq![ElemV::Symbol(STRING_RIGHT_DELIM)]
}

/// A successful result with one more symbol at its end.
pub open spec fn ok_push(r: Result<Seq<Symbol>, Error>, c: Symbol) -> Result<Seq<Symbol>, Error> {
    match r {
        Ok(v) => Ok(v.push(c)),
        Err(e) => Err(e),
    }
}

/// The scan under the top `]` marker: symbols come off the stack with `]`
/// deepening and `[` closing a nesting level, until a `[` at depth zero ends
/// the string.  Returns the remaining stack and the captured symbols in
/// their original order.
pub open spec fn pop_string_rec(stack: Seq<ElemV>, nesting: nat) -> (
    Seq<ElemV>,
    Result<Seq<Symbol>, Error>,
)
    decreases stack.len(),
{
    if stack.len() == 0 {
        (stack, Err(Error::EmptyStack))
    } else {
        let rest = stack.drop_last();
        match stack.last() {
            ElemV::Symbol(c) => {
                if c == STRING_RIGHT_DELIM {
                    let (s2, r) = pop_string_rec(rest, nesting + 1);
                    (s2, ok_push(r, c))
                } else if c == STRING_LEFT_DELIM {
                    if nesting == 0 {
                        (rest, Ok(Seq::<Symbol>::empty()))
                    } else {
                        let (s2, r) = pop_string_rec(rest, (nesting - 1) as nat);
                        (s2, ok_push(r, c))
                    }
                } else {
                    let (s2, r) = pop_string_rec(rest, nesting);
                    (s2, ok_push(r, c))
                }
            }
            _ => (rest, Err(Error::WrongElementType)),
        }
    }
}

/// What popping a quoted string does: the top must be the `]` marker, then
/// the scan runs down to the matching `[`.
pub open spec fn pop_string_s(stack: Seq<ElemV>) -> (Seq<ElemV>, Result<Seq<Symbol>, Error>) {
    if stack.len() == 0 {
        (stack, Err(Error::EmptyStack))
    } else {
        let rest = stack.drop_last();
        match stack.last() {
            ElemV::Symbol(c) => {
                if c == STRING_RIGHT_DELIM {
                    pop_string_rec(rest, 0)
                } else {
                    (rest, Err(Error::MalformedString))
                }
            }
            _ => (rest, Err(Error::WrongElementType)),
        }
    }
}

/// How an executable step relates to what the model says of it: fuel never
/// grows, and a success or a failure lands exactly where the model lands.
pub open spec fn m_agrees(
    pre: StateV,
    post: StateV,
    r: Result<(), Error>,
    step: (StateV, Option<Error>),
) -> bool {
    &&& post.fuel <= pre.fuel
    &&& match r {
        Ok(()) => step.1 is None && post == step.0,
        Err(e) => step.1 == Some(e) && post == step.0,
    }
}

/// The state with one unit of fuel spent.
pub open spec fn spend(st: StateV) -> StateV {
    StateV { fuel: (st.fuel - 1) as nat, ..st }
}

/// The state with its fuel capped; the interpreter never raises fuel, so in
/// every reachable use this is the identity.
pub open spec fn cap_fuel(st: StateV, f: nat) -> StateV {
    if st.fuel <= f {
        st
    } else {
        StateV { fuel: f, ..st }
    }
}

/// What running a whole program does: each symbol is dispatched through the
/// interpreter current at that moment, until one fails or the program ends.
pub open spec fn execute_s(st: StateV, program: Seq<Symbol>) -> (StateV, Option<Error>)
    decreases st.fuel, 3nat, program.len(),
{
    if program.len() == 0 {
        (st, None)
    } else {
        let (st1, r) = interpret_s(st.interp, program.first(), st);
        match r {
            Some(e) => (st1, Some(e)),
            None => execute_s(cap_fuel(st1, st.fuel), program.drop_first()),
        }
    }
}

/// What dispatching one symbol through an interpreter value does.  The quote
/// modes capture the symbol; `Initial` runs the canonical intrinsic; a
/// `Mapping` runs the bound operation or its default.
pub open spec fn interpret_s(i: InterpV, sym: Symbol, st: StateV) -> (StateV, Option<Error>)
    decreases st.fuel, 2nat, 0nat,
{
    match i {
        InterpV::Null => (st, Some(Error::NullInterpreter)),
        InterpV::Defined { parent, variant } => match variant {
            VarV::QuoteString => {
                let st1 = push_e(st, ElemV::Symbol(sym));
                if sym == STRING_RIGHT_DELIM {
                    (StateV { interp: *parent, ..st1 }, None)
                } else if sym == STRING_LEFT_DELIM {
                    (StateV { interp: defined_v(st1.interp, VarV::QuoteString), ..st1 }, None)
                } else {
                    (st1, None)
                }
            }
            VarV::QuoteSymbol => (
                StateV { interp: *parent, ..push_e(st, ElemV::Symbol(sym)) },
                None,
            ),
            VarV::Initial => intrinsic_s(intrinsic_of(sym), st),
            VarV::Mapping { table, default } => {
                let op = if table.dom().contains(sym) {
                    table[sym]
                } else {
                    default
                };
                op_execute_s(op, st)
            }
        },
    }
}

/// What performing an operation does: an intrinsic runs its effect; a
/// program runs its body under its captured interpreter, and the previous
/// current interpreter is restored once the body is exhausted.
pub open spec fn op_execute_s(op: OpV, st: StateV) -> (StateV, Option<Error>)
    decreases st.fuel, 1nat, 0nat,
{
    match op {
        OpV::Intrinsic(x) => intrinsic_s(x, st),
        OpV::Program(body, env) => {
            if st.fuel == 0 {
                (st, Some(Error::StepLimit))
            } else {
                let (st2, r) = execute_s(StateV { interp: *env, ..spend(st) }, body);
                match r {
                    Some(e) => (st2, Some(e)),
                    None => (StateV { interp: st.interp, ..st2 }, None),
                }
            }
        }
    }
}

/// What one intrinsic does to the state.  The returned state is the state as
/// left behind even when the intrinsic fails: nothing rolls back.
pub open spec fn intrinsic_s(x: Intrinsic, st: StateV) -> (StateV, Option<Error>)
    decreases st.fuel, 0nat, 0nat,
{
    match x {
        Intrinsic::Reify => (push_e(st, ElemV::Interpreter(st.interp)), None),
        Intrinsic::Deify => {
            let (st1, r) = pop_interp_s(st);
            match r {
                Ok(i) => (StateV { interp: i, ..st1 }, None),
                Err(e) => (st1, Some(e)),
            }
        }
        Intrinsic::Extract => {
            let (st1, r1) = pop_sym_s(st);
            match r1 {
                Ok(sym) => {
                    let (st2, r2) = pop_interp_s(st1);
                    match r2 {
                        Ok(i) => match extract_s(i, sym) {
                            Ok(op) => (push_e(st2, ElemV::Operation(op)), None),
                            Err(e) => (st2, Some(e)),
                        },
                        Err(e) => (st2, Some(e)),
                    }
                }
                Err(e) => (st1, Some(e)),
            }
        }
        Intrinsic::Install => {
            let (st1, r1) = pop_sym_s(st);
            match r1 {
                Ok(sym) => {
                    let (st2, r2) = pop_op_s(st1);
                    match r2 {
                        Ok(op) => {
                            let (st3, r3) = pop_interp_s(st2);
                            match r3 {
                                Ok(i) => match install_s(i, sym, op) {
                                    Ok(i2) => (push_e(st3, ElemV::Interpreter(i2)), None),
                                    Err(e) => (st3, Some(e)),
                                },
                                Err(e) => (st3, Some(e)),
                            }
                        }
                        Err(e) => (st2, Some(e)),
                    }
                }
                Err(e) => (st1, Some(e)),
            }
        }
        Intrinsic::GetParent => {
            let (st1, r) = pop_interp_s(st);
            match r {
                Ok(i) => match i {
                    InterpV::Defined { parent, variant } => {
                        if *parent == InterpV::Null {
                            (st1, Some(Error::NoParent))
                        } else {
                            (push_e(st1, ElemV::Interpreter(*parent)), None)
                        }
                    }
                    InterpV::Null => (st1, Some(Error::NullInterpreter)),
                },
                Err(e) => (st1, Some(e)),
            }
        }
        Intrinsic::SetParent => {
            let (st1, r1) = pop_interp_s(st);
            match r1 {
                Ok(i) => {
                    let (st2, r2) = pop_interp_s(st1);
                    match r2 {
                        Ok(p) => match i {
                            InterpV::Defined { parent, variant } => (
                                push_e(
                                    st2,
                                    ElemV::Interpreter(defined_v(p, variant)),
                                ),
                                None,
                            ),
                            InterpV::Null => (st2, Some(Error::NullInterpreter)),
                        },
                        Err(e) => (st2, Some(e)),
                    }
                }
                Err(e) => (st1, Some(e)),
            }
        }
        Intrinsic::Create => {
            let (st1, r1) = pop_interp_s(st);
            match r1 {
                Ok(i) => {
                    let (stack2, r2) = pop_string_s(st1.stack);
                    let st2 = StateV { stack: stack2, ..st1 };
                    match r2 {
                        Ok(body) => (
                            push_e(st2, ElemV::Operation(OpV::Program(body, Box::new(i)))),
                            None,
                        ),
                        Err(e) => (st2, Some(e)),
                    }
                }
                Err(e) => (st1, Some(e)),
            }
        }
        Intrinsic::Expand => {
            let (st1, r) = pop_op_s(st);
            match r {
                Ok(op) => match op {
                    OpV::Intrinsic(x2) => (
                        push_e(
                            StateV {
                                stack: push_string_s(st1.stack, seq![symbol_of(x2)]),
                                ..st1
                            },
                            ElemV::Interpreter(initial_v()),
                        ),
                        None,
                    ),
                    OpV::Program(body, env) => (
                        push_e(
                            StateV { stack: push_string_s(st1.stack, body), ..st1 },
                            ElemV::Interpreter(*env),
                        ),
                        None,
                    ),
                },
                Err(e) => (st1, Some(e)),
            }
        }
        Intrinsic::Perform => {
            let (st1, r) = pop_op_s(st);
            match r {
                Ok(op) => {
                    if st1.fuel == 0 {
                        (st1, Some(Error::StepLimit))
                    } else {
                        op_execute_s(op, spend(st1))
                    }
                }
                Err(e) => (st1, Some(e)),
            }
        }
        Intrinsic::Null => (push_e(st, ElemV::Interpreter(InterpV::Null)), None),
        Intrinsic::Uniform => {
            let (st1, r) = pop_op_s(st);
            match r {
                Ok(op) => (
                    push_e(
                        st1,
                        ElemV::Interpreter(
                            defined_v(
                                InterpV::Null,
                                VarV::Mapping { table: Map::empty(), default: op },
                            ),
                        ),
                    ),
                    None,
                ),
                Err(e) => (st1, Some(e)),
            }
        }
        Intrinsic::QuoteString => (
            StateV {
                stack: st.stack.push(ElemV::Symbol(STRING_LEFT_DELIM)),
                interp: defined_v(st.interp, VarV::QuoteString),
                ..st
            },
            None,
        ),
        Intrinsic::QuoteSymbol => (
            StateV { interp: defined_v(st.interp, VarV::QuoteSymbol), ..st },
            None,
        ),
        Intrinsic::Output => {
            let (st1, r) = pop_sym_s(st);
            match r {
                Ok(c) => (StateV { output: st1.output.push(c), ..st1 }, None),
                Err(e) => (st1, Some(e)),
            }
        }
        Intrinsic::Input => {
            if st.input.len() > 0 {
                (
                    StateV {
                        stack: st.stack.push(ElemV::Symbol(st.input.first())),
                        input: st.input.drop_first(),
                        ..st
                    },
                    None,
                )
            } else {
                (StateV { stack: st.stack.push(ElemV::Symbol(EOT)), ..st }, None)
            }
        }
        Intrinsic::Dup => {
            if st.stack.len() == 0 {
                (st, Some(Error::EmptyStack))
            } else {
                (push_e(st, st.stack.last()), None)
            }
        }
        Intrinsic::Discard => {
            let (st1, r) = pop_e(st);
            match r {
                Ok(_) => (st1, None),
                Err(e) => (st1, Some(e)),
            }
        }
        Intrinsic::Swap => {
            let (st1, r1) = pop_e(st);
            match r1 {
                Ok(a) => {
                    let (st2, r2) = pop_e(st1);
                    match r2 {
                        Ok(b) => (push_e(push_e(st2, a), b), None),
                        Err(e) => (st2, Some(e)),
                    }
                }
                Err(e) => (st1, Some(e)),
            }
        }
        Intrinsic::NoOp => (st, None),
    }
}

/// Law: extraction under the initial interpreter returns the canonical
/// intrinsic for every pair of the canonical table.
pub proof fn lemma_initial_extract(i: Intrinsic)
    requires
        i != Intrinsic::NoOp,
    ensures
        extract_s(initial_v(), symbol_of(i)) == Ok::<OpV, Error>(OpV::Intrinsic(i)),
{
}

/// Law: extraction from a mapping returns its default for every symbol
/// outside its table.
pub proof fn lemma_mapping_extract_default(
    parent: InterpV,
    table: Map<Symbol, OpV>,
    default: OpV,
    sym: Symbol,
)
    requires
        !table.dom().contains(sym),
    ensures
        extract_s(defined_v(parent, VarV::Mapping { table, default }), sym) == Ok::<OpV, Error>(
            default,
        ),
{
}

/// Law: installing into an initial interpreter upgrades it to a mapping
/// whose table is the canonical table overlaid with the new binding, the
/// parent kept and unknown symbols bound to a no-op.
pub proof fn lemma_install_upgrades_initial(parent: InterpV, sym: Symbol, op: OpV)
    ensures
        install_s(defined_v(parent, VarV::Initial), sym, op) == Ok::<InterpV, Error>(
            defined_v(
                parent,
                VarV::Mapping {
                    table: initial_map().insert(sym, op),
                    default: OpV::Intrinsic(Intrinsic::NoOp),
                },
            ),
        ),
{
}

/// Law: under the initial interpreter, running the two-symbol program that
/// quotes one symbol pushes exactly that symbol on the stack and changes
/// nothing else, whatever the symbol is.
pub proof fn lemma_quote_one_symbol(st: StateV, x: Symbol)
    requires
        st.interp == initial_v(),
    ensures
        execute_s(st, seq!['\'', x]) == (
            (StateV { stack: st.stack.push(ElemV::Symbol(x)), ..st }, None::<Error>)
        ),
{
    reveal_with_fuel(execute_s, 3);
    reveal_with_fuel(interpret_s, 2);
    reveal_with_fuel(intrinsic_s, 2);
    let program = seq!['\'', x];
    let st1 = StateV { interp: defined_v(st.interp, VarV::QuoteSymbol), ..st };
    assert(program.first() == '\'');
    assert(program.drop_first() =~= seq![x]);
    assert(interpret_s(st.interp, '\'', st) == (st1, None::<Error>));
    assert(cap_fuel(st1, st.fuel) == st1);
    let st2 = StateV { stack: st.stack.push(ElemV::Symbol(x)), ..st };
    assert(interpret_s(st1.interp, x, st1) == (st2, None::<Error>));
    assert(seq![x].drop_first() =~= Seq::<Symbol>::empty());
    assert(cap_fuel(st2, st1.fuel) == st2);
    assert(execute_s(st2, seq![x].drop_first()) == (st2, None::<Error>));
}

/// Law: popping a quoted string undoes laying one down, for every symbol
/// sequence free of the two delimiters and whatever else is on the stack.
pub proof fn lemma_string_round_trip(stack: Seq<ElemV>, s: Seq<Symbol>)
    requires
        forall|i: int|
            0 <= i < s.len() ==> s[i] != STRING_LEFT_DELIM && s[i] != STRING_RIGHT_DELIM,
    ensures
        pop_string_s(push_string_s(stack, s)) == ((stack, Ok::<Seq<Symbol>, Error>(s))),
{
    let laid = push_string_s(stack, s);
    assert(laid.last() == ElemV::Symbol(STRING_RIGHT_DELIM));
    assert(laid.drop_last() =~= stack + seq![sym_elem(STRING_LEFT_DELIM)] + syms_elems(s));
    lemma_scan_back(stack, s);
    assert(Seq::<Symbol>::empty() + s =~= s);
}

/// The scan under the closing marker walks a delimiter-free capture back to
/// its opening marker and returns it unchanged.
proof fn lemma_scan_back(stack: Seq<ElemV>, s: Seq<Symbol>)
    requires
        forall|i: int|
            0 <= i < s.len() ==> s[i] != STRING_LEFT_DELIM && s[i] != STRING_RIGHT_DELIM,
    ensures
        pop_string_rec(stack + seq![sym_elem(STRING_LEFT_DELIM)] + syms_elems(s), 0) == (
            (stack, Ok::<Seq<Symbol>, Error>(s))
        ),
    decreases s.len(),
{
    let whole = stack + seq![sym_elem(STRING_LEFT_DELIM)] + syms_elems(s);
    if s.len() == 0 {
        assert(whole.last() == sym_elem(STRING_LEFT_DELIM));
        assert(whole.drop_last() =~= stack);
        assert(s =~= Seq::<Symbol>::empty());
    } else {
        assert(whole.last() == sym_elem(s.last()));
        assert(whole.drop_last() =~= stack + seq![sym_elem(STRING_LEFT_DELIM)] + syms_elems(
            s.drop_last(),
        ));
        lemma_scan_back(stack, s.drop_last());
        assert(s.drop_last().push(s.last()) =~= s);
    }
}

/// While a string is being captured, every delimiter-free symbol lands on
/// the stack as it comes, and the capture mode stays in charge.
proof fn lemma_capture_plain(st: StateV, s: Seq<Symbol>, rest: Seq<Symbol>)
    requires
        st.interp matches InterpV::Defined { parent, variant: VarV::QuoteString },
        forall|i: int|
            0 <= i < s.len() ==> s[i] != STRING_LEFT_DELIM && s[i] != STRING_RIGHT_DELIM,
    ensures
        execute_s(st, s + rest) == execute_s(
            StateV { stack: st.stack + syms_elems(s), ..st },
            rest,
        ),
    decreases s.len(),
{
    reveal_with_fuel(execute_s, 2);
    reveal_with_fuel(interpret_s, 2);
    if s.len() == 0 {
        assert(s + rest =~= rest);
        assert(st.stack + syms_elems(s) =~= st.stack);
        assert((StateV { stack: st.stack + syms_elems(s), ..st }) =~= st);
    } else {
        let c = s.first();
        assert((s + rest).first() == c);
        let st1 = push_e(st, ElemV::Symbol(c));
        assert(interpret_s(st.interp, c, st) == (st1, None::<Error>));
        assert(cap_fuel(st1, st.fuel) == st1);
        assert((s + rest).drop_first() =~= s.drop_first() + rest);
        lemma_capture_plain(st1, s.drop_first(), rest);
        assert(syms_elems(s) =~= seq![sym_elem(c)] + syms_elems(s.drop_first()));
        assert(st1.stack + syms_elems(s.drop_first()) =~= st.stack + syms_elems(s));
    }
}

/// Law: under the initial interpreter, running a balanced quoted string of
/// delimiter-free symbols lays exactly that string down on the stack, the
/// markers included, and hands control back to the initial interpreter.
pub proof fn lemma_balanced_quote_string(st: StateV, s: Seq<Symbol>)
    requires
        st.interp == initial_v(),
        forall|i: int|
            0 <= i < s.len() ==> s[i] != STRING_LEFT_DELIM && s[i] != STRING_RIGHT_DELIM,
    ensures
        execute_s(st, seq![STRING_LEFT_DELIM] + s + seq![STRING_RIGHT_DELIM]) == (
            (StateV { stack: push_string_s(st.stack, s), ..st }, None::<Error>)
        ),
{
    reveal_with_fuel(execute_s, 3);
    reveal_with_fuel(interpret_s, 2);
    reveal_with_fuel(intrinsic_s, 2);
    let program = seq![STRING_LEFT_DELIM] + s + seq![STRING_RIGHT_DELIM];
    assert(program.first() == STRING_LEFT_DELIM);
    let st1 = StateV {
        stack: st.stack.push(ElemV::Symbol(STRING_LEFT_DELIM)),
        interp: defined_v(st.interp, VarV::QuoteString),
        ..st
    };
    assert(interpret_s(st.interp, STRING_LEFT_DELIM, st) == (st1, None::<Error>));
    assert(cap_fuel(st1, st.fuel) == st1);
    assert(program.drop_first() =~= s + seq![STRING_RIGHT_DELIM]);
    lemma_capture_plain(st1, s, seq![STRING_RIGHT_DELIM]);
    let st2 = StateV { stack: st1.stack + syms_elems(s), ..st1 };
    let st3 = push_e(st2, ElemV::Symbol(STRING_RIGHT_DELIM));
    assert(interpret_s(st2.interp, STRING_RIGHT_DELIM, st2) == (
        (StateV { interp: st.interp, ..st3 }, None::<Error>),
    ).0);
    assert(cap_fuel(StateV { interp: st.interp, ..st3 }, st2.fuel) == (StateV {
        interp: st.interp,
        ..st3
    }));
    assert(seq![STRING_RIGHT_DELIM].drop_first() =~= Seq::<Symbol>::empty());
    assert(st3.stack =~= push_string_s(st.stack, s));
    assert((StateV { interp: st.interp, ..st3 }) =~= (StateV {
        stack: push_string_s(st.stack, s),
        ..st
    }));
}

/// Law: running a balanced quoted string and then popping it hands the
/// captured symbols back unchanged, with the stack as it was.
pub proof fn lemma_quote_then_pop(st: StateV, s: Seq<Symbol>)
    requires
        st.interp == initial_v(),
        forall|i: int|
            0 <= i < s.len() ==> s[i] != STRING_LEFT_DELIM && s[i] != STRING_RIGHT_DELIM,
    ensures
        ({
            let (st1, res) = execute_s(st, seq![STRING_LEFT_DELIM] + s + seq![STRING_RIGHT_DELIM]);
            res is None && pop_string_s(st1.stack) == ((st.stack, Ok::<Seq<Symbol>, Error>(s)))
        }),
{
    lemma_balanced_quote_string(st, s);
    lemma_string_round_trip(st.stack, s);
}

} // verus!
