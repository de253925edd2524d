use cheese::emmental::interpreter::{Interpreter, Operation, PrimOp};
use cheese::emmental::io::{StringIO, SymbolIO};
use cheese::emmental::queue::Queue;
use cheese::emmental::run_with_input;
use cheese::emmental::stack::Stack;
use cheese::emmental::Error;

#[test]
fn run_with_input_hello_world() {
    let program = b"#0#10#33#100#108#114#111#119#32#44#111#108#108#101#72...............";
    let output = run_with_input(program, b"").unwrap();
    assert_eq!(output, b"Hello, world!\n\0".to_vec());
}

#[test]
fn run_with_input_hello_world_fancy() {
    // The printing loop bound to `$` stops once the bottom 0 is reached:
    // log2 maps it to the unbound symbol 8, so the 0 itself stays unprinted,
    // and no newline is ever pushed.
    let program = b";#58#126#63#36!;#46#36#!;#0#1!;#0#2!;#0#3!;#0#4!;#0#5!;#0#6!;#0#7!#0#33#100#108#114#111#119#32#44#111#108#108#101#72$";
    let output = run_with_input(program, b"").unwrap();
    assert_eq!(output, b"Hello, world!".to_vec());
}

#[test]
fn arithmetic_wraps_around() {
    // Adding 1 to 255 wraps to 0.
    let output = run_with_input(b"#255#1+.", b"").unwrap();
    assert_eq!(output, vec![0]);
}

#[test]
fn digits_accumulate() {
    // After `#123` the top of the stack is 123; `.` pops and shows it.
    let output = run_with_input(b"#123.", b"").unwrap();
    assert_eq!(output, vec![123]);
}

#[test]
fn output_single_letter() {
    let output = run_with_input(b"#65.", b"").unwrap();
    assert_eq!(output, b"A".to_vec());
}

#[test]
fn input_is_echoed() {
    let output = run_with_input(b"#0,.", b"Q").unwrap();
    assert_eq!(output, vec![b'Q']);
}

#[test]
fn input_past_the_end_yields_eot() {
    let output = run_with_input(b",.", b"").unwrap();
    assert_eq!(output, vec![4]);
}

#[test]
fn subtraction_wraps_around() {
    // 3 - 5 wraps to 254.
    let output = run_with_input(b"#3#5-.", b"").unwrap();
    assert_eq!(output, vec![254]);
}

#[test]
fn log2_of_powers_and_zero() {
    assert_eq!(run_with_input(b"#8~.", b"").unwrap(), vec![3]);
    assert_eq!(run_with_input(b"#255~.", b"").unwrap(), vec![7]);
    assert_eq!(run_with_input(b"#1~.", b"").unwrap(), vec![0]);
    // Zero has no logarithm; 8 stands in.
    assert_eq!(run_with_input(b"#0~.", b"").unwrap(), vec![8]);
}

#[test]
fn enqueue_and_dequeue_round_trip() {
    // `^` copies the top to the queue, `v` brings it back; 65 + 65 = 130.
    let output = run_with_input(b"#65^v+.", b"").unwrap();
    assert_eq!(output, vec![130]);
}

#[test]
fn duplicate_doubles_the_top() {
    let output = run_with_input(b"#21:+.", b"").unwrap();
    assert_eq!(output, vec![42]);
}

#[test]
fn semicolon_pushes_itself() {
    let output = run_with_input(b";.", b"").unwrap();
    assert_eq!(output, vec![b';']);
}

#[test]
fn supplant_binds_a_program() {
    // Bind `a` to the program `.` (pop and print), then run `a`.
    let output = run_with_input(b";#46#97!#66a", b"").unwrap();
    assert_eq!(output, b"B".to_vec());
}

#[test]
fn eval_dispatches_a_symbol() {
    // `?` pops 46 (the code of `.`) and interprets it: 65 is printed.
    let output = run_with_input(b"#65#46?", b"").unwrap();
    assert_eq!(output, b"A".to_vec());
}

#[test]
fn pop_on_empty_stack_fails() {
    assert_eq!(run_with_input(b"+", b""), Err(Error::EmptyStack));
    assert_eq!(run_with_input(b".", b""), Err(Error::EmptyStack));
}

#[test]
fn dequeue_on_empty_queue_fails() {
    assert_eq!(run_with_input(b"v", b""), Err(Error::QueueEmpty));
}

#[test]
fn supplant_without_terminator_fails() {
    assert_eq!(
        run_with_input(b"#0!", b""),
        Err(Error::PrematurelyTerminatedString)
    );
}

#[test]
fn unknown_symbols_do_nothing() {
    let output = run_with_input(b"xyz #65.", b"").unwrap();
    assert_eq!(output, b"A".to_vec());
}

#[test]
fn stack_pops_in_reverse_push_order() {
    let mut stack: Stack<u8> = Stack::new();
    stack.push(1);
    stack.push(2);
    assert_eq!(stack.peek(), Ok(&2));
    assert_eq!(stack.pop(), Ok(2));
    assert_eq!(stack.pop(), Ok(1));
    assert_eq!(stack.pop(), Err(Error::EmptyStack));
    assert_eq!(stack.peek(), Err(Error::EmptyStack));
}

#[test]
fn stack_pop_string_keeps_push_order() {
    let mut stack: Stack<u8> = Stack::new();
    stack.push(9);
    stack.push(b';');
    stack.push(b'a');
    stack.push(b'b');
    stack.push(b'c');
    assert_eq!(stack.pop_string(b';'), Ok(b"abc".to_vec()));
    // The terminator is consumed; what sat below it stays.
    assert_eq!(stack.pop(), Ok(9));
}

#[test]
fn stack_pop_string_without_terminator_fails() {
    let mut stack: Stack<u8> = Stack::new();
    stack.push(b'a');
    assert_eq!(
        stack.pop_string(b';'),
        Err(Error::PrematurelyTerminatedString)
    );
}

#[test]
fn queue_is_first_in_first_out() {
    let mut queue: Queue<u8> = Queue::new();
    queue.push_back(1);
    queue.push_back(2);
    assert_eq!(queue.pop_front(), Some(1));
    assert_eq!(queue.pop_front(), Some(2));
    assert_eq!(queue.pop_front(), None);
}

#[test]
fn string_io_reads_then_yields_eot() {
    let input = vec![7u8];
    let mut io = StringIO::new(&input);
    assert_eq!(io.read_symbol(), Ok(7));
    assert_eq!(io.read_symbol(), Ok(4));
    assert_eq!(io.read_symbol(), Ok(4));
    io.write_symbol(9).unwrap();
    assert_eq!(io.into_output(), vec![9]);
}

#[test]
fn lookup_and_supplant_rebind_a_symbol() {
    let mut interp = Interpreter::default();
    assert!(matches!(
        interp.lookup(b'+'),
        Operation::Primitive(PrimOp::Add)
    ));
    assert!(matches!(interp.lookup(b'x'), Operation::NoOp));
    interp.supplant(b'x', Operation::Program(b"##".to_vec()));
    assert!(matches!(interp.lookup(b'x'), Operation::Program(_)));
    assert!(matches!(
        interp.lookup(b'5'),
        Operation::Primitive(PrimOp::Digit(5))
    ));
}
