use cheese::mascarpone::compute;
use cheese::mascarpone::interpreter::{Interpreter, Variant};
use cheese::mascarpone::operation::{Intrinsic, Operation};
use cheese::mascarpone::stack::Stack;
use cheese::mascarpone::state::{Element, State};
use cheese::mascarpone::Error;

fn run(program: &str, input: &str) -> Result<String, Error> {
    let program: Vec<char> = program.chars().collect();
    let input: Vec<char> = input.chars().collect();
    compute(&program, input).map(|out| out.into_iter().collect())
}

#[test]
fn compute_simple_output() {
    let program = "[o[ll]eh].........";
    assert_eq!(run(program, "").unwrap(), "]he]ll[o[");
}

#[test]
fn quote_one_symbol_leaves_it_on_the_stack() {
    // `[A]` leaves a quoted string, `'B` quotes the single symbol B on top,
    // and `.` pops and prints exactly that B.
    assert_eq!(run("[A]'B.", "").unwrap(), "B");
}

#[test]
fn balanced_quote_string_lies_in_order() {
    // Running `[abc]` leaves `[`, `a`, `b`, `c`, `]` on the stack.
    let mut state = State::new(Vec::new());
    let program: Vec<char> = "[abc]".chars().collect();
    state.execute(&program).unwrap();
    assert!(matches!(state.pop_element(), Ok(Element::Symbol(']'))));
    assert!(matches!(state.pop_element(), Ok(Element::Symbol('c'))));
    assert!(matches!(state.pop_element(), Ok(Element::Symbol('b'))));
    assert!(matches!(state.pop_element(), Ok(Element::Symbol('a'))));
    assert!(matches!(state.pop_element(), Ok(Element::Symbol('['))));
    assert!(matches!(state.pop_element(), Err(Error::EmptyStack)));
}

#[test]
fn balanced_quote_string_pops_back() {
    // Applying pop_string to what `[abc]` left yields `abc`.
    let mut state = State::new(Vec::new());
    let program: Vec<char> = "[abc]".chars().collect();
    state.execute(&program).unwrap();
    assert_eq!(state.pop_string(), Ok(vec!['a', 'b', 'c']));
    assert!(matches!(state.pop_element(), Err(Error::EmptyStack)));
}

#[test]
fn nested_quote_string_counts_depth() {
    let mut state = State::new(Vec::new());
    let program: Vec<char> = "[a[b]c]".chars().collect();
    state.execute(&program).unwrap();
    assert_eq!(state.pop_string(), Ok(vec!['a', '[', 'b', ']', 'c']));
}

#[test]
fn push_string_pop_string_roundtrips() {
    let mut state = State::new(Vec::new());
    state.push_string(&vec!['h', 'i', ' ', 't', 'h', 'e', 'r', 'e']);
    assert_eq!(
        state.pop_string(),
        Ok(vec!['h', 'i', ' ', 't', 'h', 'e', 'r', 'e'])
    );
}

#[test]
fn pop_string_fails_on_empty_stack() {
    let mut state = State::new(Vec::new());
    assert!(state.pop_string().is_err());
}

#[test]
fn pop_string_fails_on_delimiterless() {
    let mut state = State::new(Vec::new());
    state.push_element(Element::Symbol('a'));
    assert!(state.pop_string().is_err());
}

#[test]
fn create_and_perform_run_a_program() {
    // `['Q]` quotes the program `'Q`, `v*` pairs it with a copy of the
    // current interpreter, `!` performs it, and `.` prints the Q it pushed.
    assert_eq!(run("['Q]v*!.", "").unwrap(), "Q");
}

#[test]
fn uniform_interpreter_runs_its_default() {
    // Quote a Q; build the one-symbol program `.` into an operation; wrap it
    // in a uniform interpreter; make that current.  The next symbol, whatever
    // it is, then pops and prints the Q.
    assert_eq!(run("'Q[.]v*1^Z", "").unwrap(), "Q");
}

#[test]
fn input_symbols_are_read_in_order() {
    assert_eq!(run(",.,.", "ab").unwrap(), "ab");
}

#[test]
fn reading_past_the_end_yields_eot() {
    assert_eq!(run(",.", "").unwrap(), "\u{4}");
}

#[test]
fn dup_and_swap_shuffle_the_top() {
    // `'a'b` pushes a then b; `/` swaps them so a is printed first.
    assert_eq!(run("'a'b/..", "").unwrap(), "ab");
    // `:` duplicates the top.
    assert_eq!(run("'a:..", "").unwrap(), "aa");
}

#[test]
fn discard_drops_the_top() {
    assert_eq!(run("'a'b$.", "").unwrap(), "a");
    assert_eq!(run("$", ""), Err(Error::EmptyStack));
}

#[test]
fn deify_refuses_the_null_interpreter() {
    assert_eq!(run("0^", ""), Err(Error::NullInterpreter));
}

#[test]
fn get_parent_of_the_initial_interpreter_fails() {
    assert_eq!(run("v{", ""), Err(Error::NoParent));
}

#[test]
fn set_parent_then_get_parent_round_trips() {
    // Reify twice, reparent one copy with the other, take the parent back
    // out, make it current, and print a symbol with it.
    assert_eq!(run("vv}{^'x.", "").unwrap(), "x");
}

#[test]
fn output_refuses_a_non_symbol() {
    assert_eq!(run("0.", ""), Err(Error::WrongElementType));
}

#[test]
fn create_without_a_string_fails() {
    assert_eq!(run("'av*", ""), Err(Error::MalformedString));
}

#[test]
fn extract_and_install_through_a_program() {
    // Install: reify, quote `.` as an operation via extract, install it on
    // the symbol `Z`, deify the mutated interpreter, then run `Z`.
    assert_eq!(run("vv'.>'Z<^'qZ", "").unwrap(), "q");
}

#[test]
fn expand_undoes_create() {
    let mut state = State::new(Vec::new());
    state.push_string(&vec!['h', 'i']);
    state.push_element(Element::Interpreter(Interpreter::initial()));
    Intrinsic::Create.execute(&mut state).unwrap();
    Intrinsic::Expand.execute(&mut state).unwrap();
    assert!(matches!(
        state.pop_interpreter(),
        Ok(Interpreter::Defined { .. })
    ));
    assert_eq!(state.pop_string(), Ok(vec!['h', 'i']));
}

#[test]
fn extract_on_initial_names_the_intrinsics() {
    let interp = Interpreter::initial();
    assert!(matches!(
        interp.extract('v'),
        Ok(Operation::Intrinsic(Intrinsic::Reify))
    ));
    assert!(matches!(
        interp.extract('/'),
        Ok(Operation::Intrinsic(Intrinsic::Swap))
    ));
    assert!(matches!(
        interp.extract('q'),
        Ok(Operation::Intrinsic(Intrinsic::NoOp))
    ));
}

#[test]
fn install_upgrades_initial_to_a_mapping() {
    let mut interp = Interpreter::initial();
    interp
        .install('Z', Operation::Intrinsic(Intrinsic::Swap))
        .unwrap();
    assert!(matches!(
        interp.variant(),
        Some(Variant::Mapping { .. })
    ));
    // The new binding is there, and the canonical seed survived.
    assert!(matches!(
        interp.extract('Z'),
        Ok(Operation::Intrinsic(Intrinsic::Swap))
    ));
    assert!(matches!(
        interp.extract('v'),
        Ok(Operation::Intrinsic(Intrinsic::Reify))
    ));
}

#[test]
fn mapping_extracts_its_default_for_unknown_symbols() {
    let interp = Interpreter::uniform(Operation::Intrinsic(Intrinsic::Dup));
    assert!(matches!(
        interp.extract('a'),
        Ok(Operation::Intrinsic(Intrinsic::Dup))
    ));
    assert!(matches!(
        interp.extract('!'),
        Ok(Operation::Intrinsic(Intrinsic::Dup))
    ));
}

#[test]
fn quote_mode_interpreters_refuse_extract_and_install() {
    let interp = Interpreter::quote_string();
    assert!(matches!(
        interp.extract('a'),
        Err(Error::WrongInterpreterVariant)
    ));
    let mut interp = Interpreter::quote_symbol();
    assert!(matches!(
        interp.install('a', Operation::Intrinsic(Intrinsic::NoOp)),
        Err(Error::WrongInterpreterVariant)
    ));
}

#[test]
fn null_interpreter_has_no_parent_or_variant() {
    let mut interp = Interpreter::Null;
    assert!(interp.parent().is_none());
    assert!(interp.variant().is_none());
    assert!(interp.variant_mut().is_none());
    assert!(matches!(
        interp.extract('a'),
        Err(Error::NullInterpreter)
    ));
    assert!(matches!(
        interp.install('a', Operation::Intrinsic(Intrinsic::NoOp)),
        Err(Error::NullInterpreter)
    ));
}

#[test]
fn set_parent_reaches_through_the_accessor() {
    let mut child = Interpreter::quote_string();
    child.set_parent(Interpreter::initial());
    assert!(matches!(
        child.parent(),
        Some(Interpreter::Defined { .. })
    ));
}

#[test]
fn symbols_and_intrinsics_round_trip() {
    let all = [
        Intrinsic::Reify,
        Intrinsic::Deify,
        Intrinsic::Extract,
        Intrinsic::Install,
        Intrinsic::GetParent,
        Intrinsic::SetParent,
        Intrinsic::Create,
        Intrinsic::Expand,
        Intrinsic::Perform,
        Intrinsic::Null,
        Intrinsic::Uniform,
        Intrinsic::QuoteString,
        Intrinsic::QuoteSymbol,
        Intrinsic::Output,
        Intrinsic::Input,
        Intrinsic::Dup,
        Intrinsic::Discard,
        Intrinsic::Swap,
    ];
    for i in all {
        assert_eq!(Intrinsic::from_symbol(i.to_symbol()), Some(i));
    }
    assert_eq!(Intrinsic::from_symbol('q'), None);
}

#[test]
fn pop_while_empty() {
    let mut stack = Stack::<u32>::new();
    let r = stack.pop_while(|_| true);
    assert_eq!(r, Vec::<u32>::new());
}

#[test]
fn pop_while_const_false() {
    let mut stack: Stack<u32> = Stack::new();
    stack.push(1);
    stack.push(2);
    stack.push(3);
    let r = stack.pop_while(|_| false);
    assert_eq!(r, Vec::<u32>::new());
}

#[test]
fn pop_while() {
    let mut stack: Stack<u32> = Stack::new();
    stack.push(1);
    stack.push(2);
    stack.push(3);
    let r = stack.pop_while(|&n| n > 1u32);
    assert_eq!(r, vec![3, 2]);
}
