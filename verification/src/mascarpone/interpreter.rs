//! The first-class interpreter value: a variant, a parent, and for mappings
//! a table from symbols to operations.

use vstd::prelude::*;

use crate::mascarpone::model::{
    extract_s, initial_map, install_s, interpret_s, m_agrees, InterpV, OpV, VarV,
};
use crate::mascarpone::state::{Element, State};
use crate::mascarpone::operation::{clone_operation, op_v, Intrinsic, Operation};
use crate::mascarpone::{Error, Symbol};

verus! {

/// The table of a `Mapping` interpreter, viewed as a map from symbols to
/// operation shapes.  A later binding for a symbol shadows an earlier one.
#[derive(Debug)]
pub struct SymbolMap {
    entries: Vec<(Symbol, Operation)>,
}

/// The map a run of bindings stands for, later bindings winning.
pub open spec fn entries_map(s: Seq<(Symbol, Operation)>) -> Map<Symbol, OpV>
    decreases s,
{
    if s.len() == 0 {
        Map::empty()
    } else {
        entries_map(s.drop_last()).insert(s.last().0, op_v(s.last().1))
    }
}

impl View for SymbolMap {
    type V = Map<Symbol, OpV>;

    closed spec fn view(&self) -> Map<Symbol, OpV>
        decreases self,
    {
        entries_map(self.entries@)
    }
}

impl SymbolMap {
    /// The empty table.
    pub fn new() -> (r: Self)
        ensures
            r@ == Map::<Symbol, OpV>::empty(),
    {
        SymbolMap { entries: Vec::new() }
    }

    /// Adds a binding, shadowing any earlier one for the same symbol.
    pub fn insert(&mut self, sym: Symbol, op: Operation)
        ensures
            final(self)@ == old(self)@.insert(sym, op@),
    {
        self.entries.push((sym, op));
        proof {
            assert(self.entries@.drop_last() =~= old(self).entries@);
        }
    }

    /// Looks a symbol up; `None` when it is not bound.
    pub fn get(&self, sym: Symbol) -> (r: Option<&Operation>)
        ensures
            match r {
                Some(op) => self@.dom().contains(sym) && op@ == self@[sym],
                None => !self@.dom().contains(sym),
            },
    {
        let n = self.entries.len();
        proof {
            reveal_with_fuel(entries_map, 2);
            assert(self.entries@.take(n as int) =~= self.entries@);
        }
        let mut j: usize = n;
        while j > 0
            invariant
                j <= n,
                n == self.entries@.len(),
                entries_map(self.entries@).dom().contains(sym) == entries_map(
                    self.entries@.take(j as int),
                ).dom().contains(sym),
                entries_map(self.entries@).dom().contains(sym) ==> entries_map(self.entries@)[sym]
                    == entries_map(self.entries@.take(j as int))[sym],
            decreases j,
        {
            proof {
                reveal_with_fuel(entries_map, 2);
                assert(self.entries@.take(j as int).drop_last() =~= self.entries@.take(
                    j as int - 1,
                ));
                assert(self.entries@.take(j as int).last() == self.entries@[j - 1]);
            }
            if self.entries[j - 1].0 == sym {
                return Some(&self.entries[j - 1].1);
            }
            j = j - 1;
        }
        proof {
            assert(self.entries@.take(0) =~= Seq::<(Symbol, Operation)>::empty());
        }
        None
    }
}

/// A clone of a table, semantically equal to it.
pub fn clone_symbol_map(m: &SymbolMap) -> (r: SymbolMap)
    ensures
        r@ == m@,
    decreases m,
{
    let n = m.entries.len();
    let mut entries: Vec<(Symbol, Operation)> = Vec::new();
    let mut i: usize = 0;
    while i < n
        invariant
            i <= n,
            n == m.entries@.len(),
            entries@.len() == i,
            forall|k: int|
                0 <= k < i ==> entries@[k].0 == m.entries@[k].0 && entries@[k].1@
                    == m.entries@[k].1@,
        decreases n - i,
    {
        let sym = m.entries[i].0;
        let op = clone_operation(&m.entries[i].1);
        entries.push((sym, op));
        i = i + 1;
    }
    proof {
        lemma_entries_map_congruent(entries@, m.entries@);
    }
    SymbolMap { entries }
}

/// Runs of bindings that agree symbol by symbol and shape by shape stand for
/// the same map.
proof fn lemma_entries_map_congruent(s1: Seq<(Symbol, Operation)>, s2: Seq<(Symbol, Operation)>)
    requires
        s1.len() == s2.len(),
        forall|k: int| 0 <= k < s1.len() ==> s1[k].0 == s2[k].0 && s1[k].1@ == s2[k].1@,
    ensures
        entries_map(s1) == entries_map(s2),
    decreases s1.len(),
{
    if s1.len() > 0 {
        lemma_entries_map_congruent(s1.drop_last(), s2.drop_last());
    }
}

impl Clone for SymbolMap {
    /// A clone is a semantically equal table.
    fn clone(&self) -> (r: Self)
        ensures
            r@ == self@,
    {
        clone_symbol_map(self)
    }
}

impl Variant {
    /// Adds a binding to a table variant; an `Initial` variant is first
    /// upgraded to a `Mapping` seeded with the canonical table; the quote
    /// modes refuse and are left alone.
    fn install_binding(&mut self, sym: Symbol, op: Operation) -> (r: Result<(), Error>)
        ensures
            match variant_v(*old(self)) {
                VarV::QuoteString => r == Err::<(), Error>(Error::WrongInterpreterVariant)
                    && *final(self) == *old(self),
                VarV::QuoteSymbol => r == Err::<(), Error>(Error::WrongInterpreterVariant)
                    && *final(self) == *old(self),
                VarV::Initial => r is Ok && variant_v(*final(self)) == (VarV::Mapping {
                    table: initial_map().insert(sym, op@),
                    default: OpV::Intrinsic(Intrinsic::NoOp),
                }),
                VarV::Mapping { table, default } => r is Ok && variant_v(*final(self))
                    == (VarV::Mapping { table: table.insert(sym, op@), default }),
            },
    {
        proof {
            reveal_with_fuel(variant_v, 2);
            reveal_with_fuel(op_v, 2);
        }
        match self {
            Variant::QuoteString => Err(Error::WrongInterpreterVariant),
            Variant::QuoteSymbol => Err(Error::WrongInterpreterVariant),
            Variant::Initial => {
                let mut mapping = Operation::intrinsic_mapping();
                mapping.insert(sym, op);
                *self = Variant::Mapping {
                    mapping,
                    default: Operation::Intrinsic(Intrinsic::NoOp),
                };
                Ok(())
            }
            Variant::Mapping { mapping, .. } => {
                mapping.insert(sym, op);
                Ok(())
            }
        }
    }
}

/// What kind of interpreter a defined interpreter is.
#[derive(Debug)]
pub enum Variant {
    /// The built-in dispatch table.
    Initial,
    /// Capturing a quoted string.
    QuoteString,
    /// Capturing one symbol.
    QuoteSymbol,
    /// A user-defined table with a default for unknown symbols.
    Mapping { mapping: SymbolMap, default: Operation },
}

/// The shape of a variant.
pub open spec fn variant_v(v: Variant) -> VarV
    decreases v,
{
    match v {
        Variant::Initial => VarV::Initial,
        Variant::QuoteString => VarV::QuoteString,
        Variant::QuoteSymbol => VarV::QuoteSymbol,
        Variant::Mapping { mapping, default } => VarV::Mapping {
            table: mapping@,
            default: op_v(default),
        },
    }
}

impl View for Variant {
    type V = VarV;

    open spec fn view(&self) -> VarV {
        variant_v(*self)
    }
}

/// A first-class interpreter: the null value, or a variant with a parent.
/// The null interpreter may sit on the stack or stand as a parent, but
/// dispatching through it is an error.
#[derive(Debug)]
pub enum Interpreter {
    Null,
    Defined { parent: Box<Interpreter>, variant: Variant },
}

/// The shape of an interpreter.
pub open spec fn interp_v(i: Interpreter) -> InterpV
    decreases i,
{
    match i {
        Interpreter::Null => InterpV::Null,
        Interpreter::Defined { parent, variant } => InterpV::Defined {
            parent: Box::new(interp_v(*parent)),
            variant: variant_v(variant),
        },
    }
}

impl View for Interpreter {
    type V = InterpV;

    open spec fn view(&self) -> InterpV {
        interp_v(*self)
    }
}

/// A clone of an interpreter, semantically equal to it.
pub fn clone_interpreter(i: &Interpreter) -> (r: Interpreter)
    ensures
        r@ == i@,
    decreases i,
{
    proof {
        reveal_with_fuel(interp_v, 3);
        reveal_with_fuel(variant_v, 2);
        reveal_with_fuel(op_v, 2);
    }
    match i {
        Interpreter::Null => Interpreter::Null,
        Interpreter::Defined { parent, variant } => Interpreter::Defined {
            parent: Box::new(clone_interpreter(&**parent)),
            variant: match variant {
                Variant::Initial => Variant::Initial,
                Variant::QuoteString => Variant::QuoteString,
                Variant::QuoteSymbol => Variant::QuoteSymbol,
                Variant::Mapping { mapping, default } => Variant::Mapping {
                    mapping: clone_symbol_map(mapping),
                    default: clone_operation(default),
                },
            },
        },
    }
}

impl Clone for Interpreter {
    /// A clone is a semantically equal interpreter.
    fn clone(&self) -> (r: Self)
        ensures
            r@ == self@,
    {
        clone_interpreter(self)
    }
}

impl Interpreter {
    /// A defined interpreter with no parent.
    fn from_variant(variant: Variant) -> (r: Self)
        ensures
            r@ == (InterpV::Defined { parent: Box::new(InterpV::Null), variant: variant@ }),
    {
        proof {
            reveal_with_fuel(interp_v, 2);
        }
        Interpreter::Defined { parent: Box::new(Interpreter::Null), variant }
    }

    /// The initial interpreter.
    pub fn initial() -> (r: Self)
        ensures
            r@ == crate::mascarpone::model::initial_v(),
    {
        Self::from_variant(Variant::Initial)
    }

    /// A fresh string-capturing interpreter with no parent yet.
    pub fn quote_string() -> (r: Self)
        ensures
            r@ == (InterpV::Defined { parent: Box::new(InterpV::Null), variant: VarV::QuoteString }),
    {
        Self::from_variant(Variant::QuoteString)
    }

    /// A fresh symbol-capturing interpreter with no parent yet.
    pub fn quote_symbol() -> (r: Self)
        ensures
            r@ == (InterpV::Defined { parent: Box::new(InterpV::Null), variant: VarV::QuoteSymbol }),
    {
        Self::from_variant(Variant::QuoteSymbol)
    }

    /// A uniform interpreter: an empty table whose default is the given
    /// operation, so every symbol is bound to it.
    pub fn uniform(op: Operation) -> (r: Self)
        ensures
            r@ == (InterpV::Defined {
                parent: Box::new(InterpV::Null),
                variant: VarV::Mapping { table: Map::empty(), default: op@ },
            }),
    {
        Self::from_variant(Variant::Mapping { mapping: SymbolMap::new(), default: op })
    }

    /// A mapping interpreter over the given table, unknown symbols bound to
    /// a no-op.
    pub fn mapping(mapping: SymbolMap) -> (r: Self)
        ensures
            r@ == (InterpV::Defined {
                parent: Box::new(InterpV::Null),
                variant: VarV::Mapping {
                    table: mapping@,
                    default: OpV::Intrinsic(Intrinsic::NoOp),
                },
            }),
    {
        Self::from_variant(
            Variant::Mapping { mapping, default: Operation::Intrinsic(Intrinsic::NoOp) },
        )
    }

    /// The parent of a defined interpreter; `None` for the null interpreter.
    /// The parent handed back may itself be the null interpreter.
    pub fn parent(&self) -> (r: Option<&Self>)
        ensures
            match r {
                Some(p) => self@ matches InterpV::Defined { parent, variant } && p@ == *parent,
                None => self@ is Null,
            },
    {
        match self {
            Interpreter::Null => None,
            Interpreter::Defined { parent, .. } => Some(&**parent),
        }
    }

    /// Replaces the parent of a defined interpreter; the null interpreter is
    /// left alone.
    pub fn set_parent(&mut self, new_parent: Interpreter)
        ensures
            old(self)@ is Null ==> final(self)@ == old(self)@,
            old(self)@ matches InterpV::Defined { parent, variant } ==> final(self)@
                == (InterpV::Defined { parent: Box::new(new_parent@), variant }),
    {
        match self {
            Interpreter::Null => {}
            Interpreter::Defined { parent, .. } => {
                *parent = Box::new(new_parent);
            }
        }
    }

    /// The variant of a defined interpreter; `None` for the null interpreter.
    pub fn variant(&self) -> (r: Option<&Variant>)
        ensures
            match r {
                Some(v) => self@ matches InterpV::Defined { parent, variant } && v@ == variant,
                None => self@ is Null,
            },
    {
        match self {
            Interpreter::Null => None,
            Interpreter::Defined { variant, .. } => Some(variant),
        }
    }

    /// The variant of a defined interpreter, open for mutation; `None` for
    /// the null interpreter.
    pub fn variant_mut(&mut self) -> (r: Option<&mut Variant>)
        ensures
            match r {
                Some(v) => old(self)@ matches InterpV::Defined { parent, variant } && (*v)@
                    == variant && final(self)@ == (InterpV::Defined {
                    parent,
                    variant: (*final(v))@,
                }),
                None => old(self)@ is Null && final(self)@ == old(self)@,
            },
    {
        match self {
            Interpreter::Null => None,
            Interpreter::Defined { variant, .. } => Some(variant),
        }
    }

    /// What the interpreter binds a symbol to: the table entry or the
    /// default under a `Mapping`, the canonical intrinsic under `Initial`;
    /// quote-mode and null interpreters refuse.
    pub fn extract(&self, sym: Symbol) -> (r: Result<Operation, Error>)
        ensures
            match extract_s(self@, sym) {
                Ok(op) => r matches Ok(o) && o@ == op,
                Err(e) => r matches Err(e2) && e2 == e,
            },
    {
        proof {
            reveal_with_fuel(interp_v, 2);
            reveal_with_fuel(variant_v, 2);
            reveal_with_fuel(op_v, 2);
        }
        match self {
            Interpreter::Null => Err(Error::NullInterpreter),
            Interpreter::Defined { variant, .. } => match variant {
                Variant::QuoteString => Err(Error::WrongInterpreterVariant),
                Variant::QuoteSymbol => Err(Error::WrongInterpreterVariant),
                Variant::Initial => Ok(
                    Operation::Intrinsic(
                        match Intrinsic::from_symbol(sym) {
                            Some(i) => i,
                            None => Intrinsic::NoOp,
                        },
                    ),
                ),
                Variant::Mapping { mapping, default } => match mapping.get(sym) {
                    Some(op) => Ok(clone_operation(op)),
                    None => Ok(clone_operation(default)),
                },
            },
        }
    }

    /// Binds a symbol to an operation.  An `Initial` interpreter is upgraded
    /// in place to a `Mapping` seeded with the canonical table; quote-mode
    /// and null interpreters refuse and are left alone.
    pub fn install(&mut self, sym: Symbol, op: Operation) -> (r: Result<(), Error>)
        ensures
            match install_s(old(self)@, sym, op@) {
                Ok(i2) => r is Ok && final(self)@ == i2,
                Err(e) => (r matches Err(e2) && e2 == e) && final(self)@ == old(self)@,
            },
    {
        proof {
            reveal_with_fuel(interp_v, 2);
            reveal_with_fuel(variant_v, 2);
            reveal_with_fuel(op_v, 2);
        }
        match self {
            Interpreter::Null => Err(Error::NullInterpreter),
            Interpreter::Defined { variant, .. } => variant.install_binding(sym, op),
        }
    }

    /// Dispatches one symbol through this interpreter value against the
    /// given state.  The quote modes capture the symbol; `Initial` runs the
    /// canonical intrinsic; a `Mapping` runs the bound operation or its
    /// default; the null interpreter refuses.
    pub fn interpret(&self, sym: Symbol, state: &mut State) -> (r: Result<(), Error>)
        ensures
            m_agrees(old(state)@, final(state)@, r, interpret_s(self@, sym, old(state)@)),
        decreases state@.fuel, 2nat,
    {
        proof {
            reveal_with_fuel(interp_v, 2);
            reveal_with_fuel(variant_v, 2);
        }
        match self {
            Interpreter::Null => Err(Error::NullInterpreter),
            Interpreter::Defined { parent, variant } => match variant {
                Variant::QuoteString => {
                    state.push_element(Element::Symbol(sym));
                    if sym == crate::mascarpone::STRING_RIGHT_DELIM {
                        state.set_interpreter(clone_interpreter(&**parent));
                    } else if sym == crate::mascarpone::STRING_LEFT_DELIM {
                        state.start_quote_string();
                    }
                    Ok(())
                }
                Variant::QuoteSymbol => {
                    state.push_element(Element::Symbol(sym));
                    state.set_interpreter(clone_interpreter(&**parent));
                    Ok(())
                }
                Variant::Initial => {
                    let x = match Intrinsic::from_symbol(sym) {
                        Some(i) => i,
                        None => Intrinsic::NoOp,
                    };
                    x.execute(state)
                }
                Variant::Mapping { mapping, default } => match mapping.get(sym) {
                    Some(op) => op.execute(state),
                    None => default.execute(state),
                },
            },
        }
    }
}

impl Default for Interpreter {
    /// The default interpreter is the initial one.
    fn default() -> (r: Self)
        ensures
            r@ == crate::mascarpone::model::initial_v(),
    {
        Self::initial()
    }
}

impl Operation {
    /// The canonical table as a concrete value: each of the eighteen
    /// intrinsic symbols bound to its intrinsic.
    #[verifier::rlimit(100)]
    pub fn intrinsic_mapping() -> (r: SymbolMap)
        ensures
            r@ == initial_map(),
    {
        let mut m = SymbolMap::new();
        m.insert('v', Operation::Intrinsic(Intrinsic::Reify));
        m.insert('^', Operation::Intrinsic(Intrinsic::Deify));
        m.insert('>', Operation::Intrinsic(Intrinsic::Extract));
        m.insert('<', Operation::Intrinsic(Intrinsic::Install));
        m.insert('{', Operation::Intrinsic(Intrinsic::GetParent));
        m.insert('}', Operation::Intrinsic(Intrinsic::SetParent));
        m.insert('*', Operation::Intrinsic(Intrinsic::Create));
        m.insert('@', Operation::Intrinsic(Intrinsic::Expand));
        m.insert('!', Operation::Intrinsic(Intrinsic::Perform));
        m.insert('0', Operation::Intrinsic(Intrinsic::Null));
        m.insert('1', Operation::Intrinsic(Intrinsic::Uniform));
        m.insert('[', Operation::Intrinsic(Intrinsic::QuoteString));
        m.insert('\'', Operation::Intrinsic(Intrinsic::QuoteSymbol));
        m.insert('.', Operation::Intrinsic(Intrinsic::Output));
        m.insert(',', Operation::Intrinsic(Intrinsic::Input));
        m.insert(':', Operation::Intrinsic(Intrinsic::Dup));
        m.insert('$', Operation::Intrinsic(Intrinsic::Discard));
        m.insert('/', Operation::Intrinsic(Intrinsic::Swap));
        proof {
            assert(m@ =~= initial_map());
        }
        m
    }
}

} // verus!
