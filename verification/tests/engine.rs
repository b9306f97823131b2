use std::rc::Rc;

use yappinglang::ast;
use yappinglang::builtins::{base, math_and_logic};
use yappinglang::data::{Block, Builtin, Data, Defs, Kind};
use yappinglang::effect::{Action, Awaiting, Event, Fragment, Outcome, Scalar, Work};
use yappinglang::data::NumberOp;
use yappinglang::error::{Error, Expected};
use yappinglang::interpreter::{BlockExec, Interpreter};
use yappinglang::parser::Parser;
use yappinglang::run_tree;
use yappinglang::scanner::Scanner;
use yappinglang::token::TokenData;

/// What the host of these tests has written.
struct Host {
    printed: Vec<String>,
    files: Vec<(String, String)>,
    timers: usize,
    reports: usize,
}

impl Host {
    fn new() -> Host {
        Host { printed: vec![], files: vec![], timers: 0, reports: 0 }
    }
}

fn text(fragments: &Vec<Fragment>) -> String {
    let mut out = String::new();
    for fragment in fragments {
        match fragment {
            Fragment::Text(s) => out.push_str(s),
            Fragment::Decimal(bits) => out.push_str(&format!("{}", f64::from_bits(*bits))),
            Fragment::Code(_) => out.push_str("#"),
        }
    }
    out
}

fn parse(source: &str) -> ast::Block {
    let mut tokens = Scanner::new(source).scan_tokens().unwrap();
    for token in tokens.iter_mut() {
        let bits = match &token.typ {
            TokenData::DecimalText(text) => Some(text.parse::<f64>().unwrap().to_bits()),
            _ => None,
        };
        if let Some(bits) = bits {
            token.typ = TokenData::Decimal(bits);
        }
    }
    Parser::new(tokens).build_tree().unwrap()
}

fn number(scalar: Scalar) -> f64 {
    match scalar {
        Scalar::Integer(n) => n as f64,
        Scalar::Decimal(bits) => f64::from_bits(bits),
    }
}

fn perform(host: &mut Host, action: Action) -> Event {
    match action {
        Action::Print(fragments) => {
            host.printed.push(text(&fragments));
            Event::Done
        }
        Action::Debug(lines) => {
            for line in &lines {
                host.printed.push(text(line));
            }
            Event::Done
        }
        Action::StartTimer => {
            host.timers += 1;
            Event::Done
        }
        Action::StopTimer => {
            host.reports += 1;
            Event::Done
        }
        Action::ReadSource { path, .. } => {
            match host.files.iter().find(|(name, _)| *name == path) {
                Some((_, source)) => Event::Source(parse(source)),
                None => Event::Failed(format!("no file {}", path)),
            }
        }
        Action::Stringify(fragments) => Event::Value(Data::String(text(&fragments))),
        Action::Arithmetic { op, first, second } => {
            let (a, b) = (number(first), number(second));
            let result = match op {
                NumberOp::Add => a + b,
                NumberOp::Sub => a - b,
                NumberOp::Mul => a * b,
                NumberOp::Div => a / b,
                NumberOp::Rem => a % b,
            };
            Event::Value(Data::Decimal(result.to_bits()))
        }
        Action::Negate(bits) => Event::Value(Data::Decimal((-f64::from_bits(bits)).to_bits())),
        Action::ParseDecimal(text) => match text.parse::<f64>() {
            Ok(value) => Event::Value(Data::Decimal(value.to_bits())),
            Err(error) => Event::Failed(error.to_string()),
        },
        Action::ToDecimal(n) => Event::Value(Data::Decimal((n as f64).to_bits())),
        Action::ToInteger(bits) => Event::Value(Data::Integer(f64::from_bits(bits) as i64)),
        Action::NewExternal(name) => Event::Failed(format!("no capability {}", name)),
        Action::ApplyExternal { .. } => Event::Failed("no capability".to_string()),
    }
}

fn drive(engine: &mut Interpreter, host: &mut Host, first: Outcome) -> Result<(), Error> {
    let mut outcome = first;
    loop {
        match outcome {
            Outcome::Finished => return Ok(()),
            Outcome::Failed(error) => return Err(error),
            Outcome::Paused => outcome = engine.proceed(1000),
            Outcome::Needs(action) => {
                let event = perform(host, action);
                outcome = engine.resume(event, 1000);
            }
        }
    }
}

fn std_defs() -> Defs {
    math_and_logic(base(Defs::new(), ""), "")
}

/// Runs a source text in a fresh engine with all operations.
fn run(source: &str) -> (Interpreter, Host, Result<(), Error>) {
    let mut engine = Interpreter::new(std_defs());
    let mut host = Host::new();
    let tree = parse(source);
    let first = engine.load_and_run(&tree, 1000);
    let result = drive(&mut engine, &mut host, first);
    (engine, host, result)
}

fn name(s: &str) -> String {
    s.to_string()
}

#[test]
fn single_statement_runs_backwards() {
    let (engine, _, result) = run("1 2 3");
    assert_eq!(result, Ok(()));
    assert_eq!(engine.stack, vec![Data::Integer(3), Data::Integer(2), Data::Integer(1)]);
}

#[test]
fn statements_run_in_the_order_written() {
    let (engine, _, result) = run("1 2; 3 4");
    assert_eq!(result, Ok(()));
    assert_eq!(
        engine.stack,
        vec![Data::Integer(2), Data::Integer(1), Data::Integer(4), Data::Integer(3)]
    );
}

#[test]
fn first_statement_prints_before_second() {
    let (_, host, result) = run("Print 1 Print 2; Print 3");
    assert_eq!(result, Ok(()));
    assert_eq!(host.printed, vec![name("2"), name("1"), name("3")]);
}

#[test]
fn print_written_first_prints_the_value_pushed_last() {
    let (engine, host, result) = run("Print 2 1");
    assert_eq!(result, Ok(()));
    assert_eq!(host.printed, vec![name("2")]);
    assert_eq!(engine.stack, vec![Data::Integer(1)]);
}

#[test]
fn print_written_last_runs_first_and_finds_nothing() {
    let (engine, host, result) = run("2 1 Print");
    assert_eq!(result, Err(Error::StackUnderflow(Builtin::Print)));
    assert!(host.printed.is_empty());
    assert!(engine.stack.is_empty());
}

#[test]
fn do_written_behind_its_block_runs_first_and_finds_nothing() {
    let (_, host, result) = run("( 1 2 Print ) Do");
    assert_eq!(result, Err(Error::StackUnderflow(Builtin::Do)));
    assert!(host.printed.is_empty());
}

#[test]
fn nested_block_runs_its_own_statement_backwards() {
    let (engine, host, result) = run("Do ( Print 2 1 )");
    assert_eq!(result, Ok(()));
    assert_eq!(host.printed, vec![name("2")]);
    assert_eq!(engine.stack, vec![Data::Integer(1)]);
}

#[test]
fn block_literal_is_one_unit_of_its_statement() {
    let (engine, _, result) = run("1 ( 2 3 ) 4");
    assert_eq!(result, Ok(()));
    assert_eq!(engine.stack.len(), 3);
    assert_eq!(engine.stack[0], Data::Integer(4));
    assert!(matches!(engine.stack[1], Data::Block(_)));
    assert_eq!(engine.stack[2], Data::Integer(1));
}

#[test]
fn closure_freezes_captured_value() {
    let (_, host, result) = run(
        "Def \"X 1; Def \"Show ( Print @X ); Def \"X 2; Do Show; Print X",
    );
    assert_eq!(result, Ok(()));
    assert_eq!(host.printed, vec![name("1"), name("2")]);
}

#[test]
fn uncaptured_name_is_read_when_the_block_runs() {
    let (_, host, result) = run("Def \"X 1; Def \"Show ( Print X ); Def \"X 2; Do Show");
    assert_eq!(result, Ok(()));
    assert_eq!(host.printed, vec![name("2")]);
}

#[test]
fn snapshot_holds_only_the_marked_names() {
    let (engine, _, result) = run("Def \"X 1; Def \"Y 2; ( X @Y )");
    assert_eq!(result, Ok(()));
    match &engine.stack[0] {
        Data::Block(closure) => {
            assert_eq!(closure.captured_vars.len(), 1);
            assert_eq!(closure.captured_vars.get(&name("Y")), Some(&Data::Integer(2)));
            assert_eq!(closure.captured_vars.get(&name("X")), None);
        }
        other => panic!("expected a block, found {:?}", other),
    }
}

#[test]
fn nested_marks_stay_with_the_inner_block() {
    let tree = parse("( ( @Inner ) @Outer )");
    let block = run_tree::load(&tree);
    assert!(block.capture_vars.is_empty());
    match &block.exps[0].data {
        run_tree::ExpData::Block(outer) => {
            assert_eq!(outer.capture_vars, vec![name("Outer")]);
            match &outer.exps[0].data {
                run_tree::ExpData::Block(inner) => {
                    assert_eq!(inner.capture_vars, vec![name("Inner")]);
                }
                other => panic!("expected a block, found {:?}", other),
            }
        }
        other => panic!("expected a block, found {:?}", other),
    }
}

#[test]
fn marked_name_is_captured_once() {
    let tree = parse("@A @B @A B");
    let block = run_tree::load(&tree);
    assert_eq!(block.capture_vars, vec![name("A"), name("B")]);
    assert_eq!(block.exps.len(), 4);
    assert_eq!(block.exps[0].data, run_tree::ExpData::Var(name("A")));
    assert_eq!(block.exps[3].data, run_tree::ExpData::Var(name("B")));
}

#[test]
fn callee_sees_what_the_caller_sees() {
    let (_, host, result) = run(
        "Def \"A 1; Def-fn \"Inner ( Print A Print B ); Def-fn \"Outer ( Def \"B 2; Inner ); Outer",
    );
    assert_eq!(result, Ok(()));
    assert_eq!(host.printed, vec![name("2"), name("1")]);
}

#[test]
fn capture_shadows_the_caller() {
    let (_, host, result) = run(
        "Def \"X 1; Def \"F ( Print @X ); Def-fn \"Call ( Do F; Def \"X 5 ); Call",
    );
    assert_eq!(result, Ok(()));
    assert_eq!(host.printed, vec![name("1")]);
}

#[test]
fn name_defined_after_the_call_is_not_visible() {
    let (_, host, result) = run("Def-fn \"F ( Print Later ); F; Def \"Later 1");
    assert_eq!(result, Err(Error::NameNotFound(name("Later"))));
    assert!(host.printed.is_empty());
}

#[test]
fn definition_inside_a_call_ends_with_the_call() {
    let (engine, _, result) = run("Def-fn \"F ( Def \"Inside 1 ); F; Inside");
    assert_eq!(result, Err(Error::NameNotFound(name("Inside"))));
    assert!(!engine.root.defs.contains_key(&name("Inside")));
}

#[test]
fn function_does_not_see_itself_without_lookup_by_name() {
    let (_, _, result) = run("Def-fn \"F ( Get-fn \"F ); F");
    assert_eq!(result, Ok(()));
    let (_, _, result) = run("Def \"G ( Do @G ); Do G");
    assert_eq!(result, Err(Error::CaptureResolutionFailure(name("G"))));
}

#[test]
fn undefined_name_fails_and_leaves_the_stack() {
    let (engine, _, result) = run("1 2; Missing");
    assert_eq!(result, Err(Error::NameNotFound(name("Missing"))));
    assert_eq!(engine.stack, vec![Data::Integer(2), Data::Integer(1)]);
}

#[test]
fn capture_of_undefined_name_fails_when_the_literal_runs() {
    let (engine, host, result) = run("Print 1; ( Print 2 @Missing )");
    assert_eq!(result, Err(Error::CaptureResolutionFailure(name("Missing"))));
    assert_eq!(host.printed, vec![name("1")]);
    assert!(engine.stack.is_empty());
}

#[test]
fn capture_names_the_first_missing_name() {
    let (_, _, result) = run("Def \"A 1; ( @A @B @C )");
    assert_eq!(result, Err(Error::CaptureResolutionFailure(name("B"))));
}

#[test]
fn literals_come_back_as_they_went() {
    let (engine, _, result) = run("7 2.5 \"word \"\"two words\"\"");
    assert_eq!(result, Ok(()));
    assert_eq!(
        engine.stack,
        vec![
            Data::String(name("two words")),
            Data::String(name("word")),
            Data::Decimal(2.5f64.to_bits()),
            Data::Integer(7),
        ]
    );
}

#[test]
fn value_under_a_name_comes_back() {
    let (engine, _, result) = run("Def \"N 7; Def \"B ( 1 ); N B");
    assert_eq!(result, Ok(()));
    assert!(matches!(engine.stack[0], Data::Block(_)));
    assert_eq!(engine.stack[1], Data::Integer(7));
}

#[test]
fn naming_a_function_runs_it() {
    let (engine, _, result) = run("Def-fn \"Seven ( 7 ); Seven Seven");
    assert_eq!(result, Ok(()));
    assert_eq!(engine.stack, vec![Data::Integer(7), Data::Integer(7)]);
}

#[test]
fn later_definition_shadows_the_earlier_one() {
    let (engine, _, result) = run("Def \"X 1; Def \"X 2; X");
    assert_eq!(result, Ok(()));
    assert_eq!(engine.stack, vec![Data::Integer(2)]);
    assert_eq!(engine.root.defs.get(&name("X")), Some(&Data::Integer(2)));
}

#[test]
fn root_definitions_outlive_a_run() {
    let mut engine = Interpreter::new(std_defs());
    let mut host = Host::new();
    let first = engine.load_and_run(&parse("Def \"Kept 3"), 1000);
    assert_eq!(drive(&mut engine, &mut host, first), Ok(()));
    let second = engine.load_and_run(&parse("Kept"), 1000);
    assert_eq!(drive(&mut engine, &mut host, second), Ok(()));
    assert_eq!(engine.stack, vec![Data::Integer(3)]);
}

#[test]
fn failure_keeps_what_was_done_before_it() {
    let mut engine = Interpreter::new(std_defs());
    let mut host = Host::new();
    let first = engine.load_and_run(&parse("Def \"Kept 3; 1; Do 5"), 1000);
    assert_eq!(
        drive(&mut engine, &mut host, first),
        Err(Error::TypeMismatch {
            operation: Builtin::Do,
            expected: Expected::Kind(Kind::Block),
            found: Data::Integer(5),
        })
    );
    assert_eq!(engine.stack, vec![Data::Integer(1)]);
    assert_eq!(engine.root.defs.get(&name("Kept")), Some(&Data::Integer(3)));
    assert!(engine.calls.is_empty());
    assert!(engine.root.work.is_empty());
}

#[test]
fn empty_program_finishes() {
    let (engine, _, result) = run("");
    assert_eq!(result, Ok(()));
    assert!(engine.stack.is_empty());
}

#[test]
fn budget_pauses_and_proceed_goes_on() {
    let mut engine = Interpreter::new(std_defs());
    let tree = parse("1 2 3");
    assert_eq!(engine.load_and_run(&tree, 2), Outcome::Paused);
    assert_eq!(engine.stack, vec![Data::Integer(3), Data::Integer(2)]);
    assert_eq!(engine.proceed(0), Outcome::Paused);
    assert_eq!(engine.proceed(100), Outcome::Finished);
    assert_eq!(engine.stack, vec![Data::Integer(3), Data::Integer(2), Data::Integer(1)]);
}

#[test]
fn run_gives_up_what_was_under_way() {
    let mut engine = Interpreter::new(std_defs());
    assert_eq!(engine.load_and_run(&parse("1 2 3"), 1), Outcome::Paused);
    assert_eq!(engine.load_and_run(&parse("9"), 100), Outcome::Finished);
    assert_eq!(engine.stack, vec![Data::Integer(3), Data::Integer(9)]);
}

#[test]
fn engine_that_waits_takes_no_other_answer() {
    let mut engine = Interpreter::new(std_defs());
    let outcome = engine.load_and_run(&parse("Print 1"), 100);
    assert!(matches!(outcome, Outcome::Needs(Action::Print(_))));
    assert_eq!(engine.awaiting, Some(Awaiting::Done));
    assert_eq!(
        engine.resume(Event::Value(Data::Integer(1)), 100),
        Outcome::Failed(Error::UnexpectedEvent)
    );
    assert_eq!(engine.awaiting, None);
}

#[test]
fn answer_without_question_fails() {
    let mut engine = Interpreter::new(std_defs());
    assert_eq!(engine.resume(Event::Done, 100), Outcome::Failed(Error::UnexpectedEvent));
}

#[test]
fn proceed_while_waiting_fails() {
    let mut engine = Interpreter::new(std_defs());
    let outcome = engine.load_and_run(&parse("Print 1"), 100);
    assert!(matches!(outcome, Outcome::Needs(_)));
    assert_eq!(engine.proceed(100), Outcome::Failed(Error::UnexpectedEvent));
}

#[test]
fn answer_of_the_wrong_kind_fails() {
    let mut engine = Interpreter::new(std_defs());
    let outcome = engine.load_and_run(&parse("To-integer 2.5"), 100);
    assert_eq!(outcome, Outcome::Needs(Action::ToInteger(2.5f64.to_bits())));
    assert_eq!(engine.awaiting, Some(Awaiting::Value(Kind::Integer)));
    assert_eq!(
        engine.resume(Event::Value(Data::String(name("2"))), 100),
        Outcome::Failed(Error::UnexpectedEvent)
    );
}

#[test]
fn host_failure_fails_the_program() {
    let mut engine = Interpreter::new(std_defs());
    let outcome = engine.load_and_run(&parse("New-ext \"thing"), 100);
    assert_eq!(outcome, Outcome::Needs(Action::NewExternal(name("thing"))));
    assert_eq!(
        engine.resume(Event::Failed(name("gone")), 100),
        Outcome::Failed(Error::External(name("gone")))
    );
}

#[test]
fn new_and_run_builds_the_callee_frame() {
    let mut caller_defs = Defs::new();
    caller_defs.insert(name("own"), Data::Integer(1));
    caller_defs.insert(name("both"), Data::Integer(2));
    let caller = BlockExec::new(caller_defs);
    let mut prev_defs = Defs::new();
    prev_defs.insert(name("both"), Data::Integer(3));
    prev_defs.insert(name("handed"), Data::Integer(4));
    let mut captured = Defs::new();
    captured.insert(name("frozen"), Data::Integer(5));
    let code = run_tree::load(&parse("1 2"));
    let closure = Block { block: code.clone(), captured_vars: captured };
    let frame = caller.new_and_run(&prev_defs, &closure);
    assert_eq!(frame.local.defs.len(), 1);
    assert_eq!(frame.local.defs.get(&name("frozen")), Some(&Data::Integer(5)));
    assert_eq!(frame.prev_defs.get(&name("own")), Some(&Data::Integer(1)));
    assert_eq!(frame.prev_defs.get(&name("both")), Some(&Data::Integer(2)));
    assert_eq!(frame.prev_defs.get(&name("handed")), Some(&Data::Integer(4)));
    assert_eq!(frame.prev_defs.get(&name("frozen")), None);
    assert_eq!(frame.local.work.len(), 1);
    match &frame.local.work[0] {
        Work::Code { block, pc } => {
            assert!(Rc::ptr_eq(block, &code));
            assert_eq!(*pc, 2);
        }
        other => panic!("expected code, found {:?}", other),
    }
}

#[test]
fn if_with_a_block_condition_calls_it_first() {
    let (engine, _, result) = run("If ( 1 ) \"yes \"no ; If ( 0 ) \"yes \"no");
    assert_eq!(result, Ok(()));
    assert_eq!(engine.stack, vec![Data::String(name("yes")), Data::String(name("no"))]);
}

#[test]
fn if_block_condition_must_leave_an_integer() {
    let (engine, _, result) = run("If ( \"word ) 1 2");
    assert_eq!(
        result,
        Err(Error::TypeMismatch {
            operation: Builtin::If,
            expected: Expected::Kind(Kind::Integer),
            found: Data::String(name("word")),
        })
    );
    assert!(engine.stack.is_empty());
    let (_, _, result) = run("If ( ) 1 2");
    assert_eq!(result, Err(Error::StackUnderflow(Builtin::If)));
}

#[test]
fn if_with_blocks_as_branches_gives_the_block() {
    let (_, host, result) = run("Do If 1 ( Print \"yes ) ( Print \"no )");
    assert_eq!(result, Ok(()));
    assert_eq!(host.printed, vec![name("'yes'")]);
}

#[test]
fn list_collects_what_the_block_leaves() {
    let (engine, _, result) = run("9; List ( 1 2 3 )");
    assert_eq!(result, Ok(()));
    assert_eq!(
        engine.stack,
        vec![
            Data::Integer(9),
            Data::List(vec![Data::Integer(3), Data::Integer(2), Data::Integer(1)]),
        ]
    );
}

#[test]
fn list_block_does_not_see_the_outer_stack() {
    let (engine, _, result) = run("9; List ( Drop )");
    assert_eq!(result, Err(Error::StackUnderflow(Builtin::Drop)));
    assert_eq!(engine.stack, vec![Data::Integer(9)]);
}

#[test]
fn failure_inside_nested_lists_brings_the_outer_stack_back() {
    let (engine, _, result) = run("8; List ( 7; List ( 6; Missing ) )");
    assert_eq!(result, Err(Error::NameNotFound(name("Missing"))));
    assert_eq!(engine.stack, vec![Data::Integer(8)]);
}

#[test]
fn do_local_defines_in_the_running_frame() {
    let (engine, _, result) = run("Do-local ( Def \"Here 1 ); Here; Do ( Def \"There 2 )");
    assert_eq!(result, Ok(()));
    assert_eq!(engine.stack, vec![Data::Integer(1)]);
    assert!(engine.root.defs.contains_key(&name("Here")));
    assert!(!engine.root.defs.contains_key(&name("There")));
}

#[test]
fn do_local_runs_without_the_snapshot() {
    let (_, _, result) = run("Def \"X 1; Def \"B ( @X ); Def-fn \"F ( Do-local B ); F");
    assert_eq!(result, Ok(()));
    let (_, host, result) = run(
        "Def \"X 1; Def \"B ( Print @X ); Def \"X 2; Do-local B; Do B",
    );
    assert_eq!(result, Ok(()));
    assert_eq!(host.printed, vec![name("2"), name("1")]);
}

#[test]
fn timer_starts_calls_and_stops() {
    let (engine, host, result) = run("Timer ( Print 1 ); Print 2");
    assert_eq!(result, Ok(()));
    assert_eq!(host.timers, 1);
    assert_eq!(host.reports, 1);
    assert_eq!(host.printed, vec![name("1"), name("2")]);
    assert!(engine.stack.is_empty());
}

#[test]
fn timer_asks_in_order() {
    let mut engine = Interpreter::new(std_defs());
    assert_eq!(engine.load_and_run(&parse("Timer ( 5 )"), 100), Outcome::Needs(Action::StartTimer));
    assert_eq!(engine.stack, vec![]);
    assert_eq!(engine.resume(Event::Done, 100), Outcome::Needs(Action::StopTimer));
    assert_eq!(engine.stack, vec![Data::Integer(5)]);
    assert_eq!(engine.resume(Event::Done, 100), Outcome::Finished);
}

#[test]
fn use_file_puts_the_source_on_the_stack_as_a_closure() {
    let mut engine = Interpreter::new(std_defs());
    let mut host = Host::new();
    host.files.push((name("lib.yp"), name("Print @Greeting")));
    let first = engine.load_and_run(&parse("Def \"Greeting \"hello ; Do Use-file \"lib.yp"), 1000);
    assert_eq!(drive(&mut engine, &mut host, first), Ok(()));
    assert_eq!(host.printed, vec![name("'hello'")]);
}

#[test]
fn use_file_fails_where_the_file_does() {
    let (_, _, result) = run("Use-file \"nowhere.yp");
    assert_eq!(result, Err(Error::External(name("no file nowhere.yp"))));
}

#[test]
fn use_file_fails_where_a_capture_does() {
    let mut engine = Interpreter::new(std_defs());
    let mut host = Host::new();
    host.files.push((name("lib.yp"), name("@Missing")));
    let first = engine.load_and_run(&parse("Use-file \"lib.yp"), 1000);
    assert_eq!(
        drive(&mut engine, &mut host, first),
        Err(Error::CaptureResolutionFailure(name("Missing")))
    );
}

#[test]
fn try_use_file_says_whether_it_worked() {
    let mut engine = Interpreter::new(std_defs());
    let mut host = Host::new();
    host.files.push((name("good.yp"), name("1")));
    host.files.push((name("bad.yp"), name("@Missing")));
    let first = engine.load_and_run(&parse("Try-use-file \"good.yp"), 1000);
    assert_eq!(drive(&mut engine, &mut host, first), Ok(()));
    assert_eq!(engine.stack.len(), 2);
    assert!(matches!(engine.stack[0], Data::Block(_)));
    assert_eq!(engine.stack[1], Data::Integer(1));
    let second = engine.load_and_run(&parse("Drop Drop; Try-use-file \"bad.yp"), 1000);
    assert_eq!(drive(&mut engine, &mut host, second), Ok(()));
    assert_eq!(engine.stack, vec![Data::Integer(0)]);
    let third = engine.load_and_run(&parse("Drop; Try-use-file \"nowhere.yp"), 1000);
    assert_eq!(drive(&mut engine, &mut host, third), Ok(()));
    assert_eq!(engine.stack, vec![Data::Integer(0)]);
}

#[test]
fn file_captures_are_taken_in_the_frame_that_asked() {
    let mut engine = Interpreter::new(std_defs());
    let mut host = Host::new();
    host.files.push((name("lib.yp"), name("Print @Local")));
    let first = engine.load_and_run(
        &parse("Def-fn \"Load ( Def \"Local 5; Use-file \"lib.yp ); Do Load"),
        1000,
    );
    assert_eq!(drive(&mut engine, &mut host, first), Ok(()));
    assert_eq!(host.printed, vec![name("5")]);
}

#[test]
fn decimal_arithmetic_goes_through_the_host() {
    let (engine, _, result) = run("+ 1.5 2; - 1 0.5; Neg 2.0");
    assert_eq!(result, Ok(()));
    assert_eq!(
        engine.stack,
        vec![
            Data::Decimal(3.5f64.to_bits()),
            Data::Decimal(0.5f64.to_bits()),
            Data::Decimal((-2.0f64).to_bits()),
        ]
    );
}

#[test]
fn conversions_go_through_the_host() {
    let (engine, _, result) = run("To-integer 2.75; To-decimal 3; To-decimal \"0.25 ; To-string 12");
    assert_eq!(result, Ok(()));
    assert_eq!(
        engine.stack,
        vec![
            Data::Integer(2),
            Data::Decimal(3.0f64.to_bits()),
            Data::Decimal(0.25f64.to_bits()),
            Data::String(name("12")),
        ]
    );
    let (_, _, result) = run("To-decimal \"abc");
    assert!(matches!(result, Err(Error::External(_))));
}

#[test]
fn to_string_renders_as_print_does() {
    let (engine, host, result) = run("Print To-string List ( 1 \"a 2.5 )");
    assert_eq!(result, Ok(()));
    assert_eq!(host.printed, vec![name("'[ 1 'a' 2.5f ]'")]);
    assert!(engine.stack.is_empty());
}

#[test]
fn debug_prints_the_stack_top_first() {
    let (engine, host, result) = run("Debug 1 2");
    assert_eq!(result, Ok(()));
    assert_eq!(host.printed, vec![name("1"), name("2")]);
    assert_eq!(engine.stack, vec![Data::Integer(2), Data::Integer(1)]);
}

#[test]
fn integer_arithmetic_in_a_program() {
    let (engine, _, result) = run("- 10 4; * 6 7; / 7 2; % 7 2; == 3 3; < 1 2; Not 0; And 6 3");
    assert_eq!(result, Ok(()));
    assert_eq!(
        engine.stack,
        vec![
            Data::Integer(6),
            Data::Integer(42),
            Data::Integer(3),
            Data::Integer(1),
            Data::Integer(1),
            Data::Integer(1),
            Data::Integer(1),
            Data::Integer(2),
        ]
    );
}

#[test]
fn recursion_by_lookup() {
    let (engine, _, result) = run(
        "Def-fn \"Count ( Def \"N ; Do If N ( Count - N 1 ) ( ) ); Count 50; \"done",
    );
    assert_eq!(result, Ok(()));
    assert_eq!(engine.stack, vec![Data::String(name("done"))]);
    assert!(engine.calls.is_empty());
}

#[test]
fn external_operation_works_on_the_stack_through_the_host() {
    let mut engine = Interpreter::new(std_defs());
    engine.root.defs.insert(name("Clock"), Data::External(7));
    let outcome = engine.load_and_run(&parse("Use-ext \"tick Clock 1"), 100);
    assert_eq!(
        outcome,
        Outcome::Needs(Action::ApplyExternal { handle: 7, operation: name("tick") })
    );
    assert_eq!(engine.stack, vec![Data::Integer(1)]);
    engine.stack.push(Data::Integer(2));
    assert_eq!(engine.resume(Event::Done, 100), Outcome::Finished);
    assert_eq!(engine.stack, vec![Data::Integer(1), Data::Integer(2)]);
}

#[test]
fn new_external_takes_a_handle_from_the_host() {
    let mut engine = Interpreter::new(std_defs());
    let outcome = engine.load_and_run(&parse("New-ext \"clock"), 100);
    assert_eq!(outcome, Outcome::Needs(Action::NewExternal(name("clock"))));
    assert_eq!(engine.resume(Event::Value(Data::External(3)), 100), Outcome::Finished);
    assert_eq!(engine.stack, vec![Data::External(3)]);
}

#[test]
fn interpreter_load_shares_nothing_with_the_engine() {
    let mut engine = Interpreter::new(Defs::new());
    let block = engine.load(&parse("1 ( 2 )"));
    assert_eq!(block.exps.len(), 2);
    assert!(engine.stack.is_empty());
    assert_eq!(engine.run(block.clone(), 100), Outcome::Finished);
    assert_eq!(engine.stack.len(), 2);
    match (&engine.stack[0], &block.exps[1].data) {
        (Data::Block(closure), run_tree::ExpData::Block(code)) => {
            assert!(Rc::ptr_eq(&closure.block, code));
        }
        other => panic!("expected two blocks, found {:?}", other),
    }
}

#[test]
fn block_exec_steps_one_expression_at_a_time() {
    let mut frame = BlockExec::new(std_defs());
    frame.run_block(run_tree::load(&parse("1 2")));
    let mut stack = vec![];
    let prev = Defs::new();
    assert_eq!(frame.advance(&mut stack, &prev), Ok(yappinglang::effect::Effect::Done));
    assert_eq!(stack, vec![Data::Integer(2)]);
    assert_eq!(frame.advance(&mut stack, &prev), Ok(yappinglang::effect::Effect::Done));
    assert_eq!(stack, vec![Data::Integer(2), Data::Integer(1)]);
    assert_eq!(frame.advance(&mut stack, &prev), Ok(yappinglang::effect::Effect::Done));
    assert!(frame.work.is_empty());
    assert_eq!(frame.advance(&mut stack, &prev), Ok(yappinglang::effect::Effect::Leave));
}

#[test]
fn get_data_looks_in_the_frame_first() {
    let mut defs = Defs::new();
    defs.insert(name("Both"), Data::Integer(1));
    let frame = BlockExec::new(defs);
    let mut prev = Defs::new();
    prev.insert(name("Both"), Data::Integer(2));
    prev.insert(name("Prev"), Data::Integer(3));
    assert_eq!(frame.get_data(&name("Both"), &prev), Some(Data::Integer(1)));
    assert_eq!(frame.get_data(&name("Prev"), &prev), Some(Data::Integer(3)));
    assert_eq!(frame.get_data(&name("None"), &prev), None);
}

#[test]
fn capture_takes_the_values_as_they_resolve() {
    let mut defs = Defs::new();
    defs.insert(name("Both"), Data::Integer(1));
    let frame = BlockExec::new(defs);
    let mut prev = Defs::new();
    prev.insert(name("Both"), Data::Integer(2));
    prev.insert(name("Prev"), Data::Integer(3));
    let captured = frame.capture(&vec![name("Prev"), name("Both")], &prev).unwrap();
    assert_eq!(captured.len(), 2);
    assert_eq!(captured.get(&name("Both")), Some(&Data::Integer(1)));
    assert_eq!(captured.get(&name("Prev")), Some(&Data::Integer(3)));
    assert_eq!(
        frame.capture(&vec![name("Prev"), name("No"), name("Neither")], &prev),
        Err(Error::CaptureResolutionFailure(name("No")))
    );
    assert_eq!(frame.capture(&vec![], &prev).unwrap().len(), 0);
}

#[test]
fn calls_deeper_than_the_limit_fail() {
    let mut engine = Interpreter::new(std_defs());
    assert_eq!(engine.call_limit, yappinglang::interpreter::CALL_LIMIT);
    engine.call_limit = 3;
    let mut host = Host::new();
    let first = engine.load_and_run(&parse("Def-fn \"Loop ( 1; Loop ); Loop"), 1000);
    assert_eq!(drive(&mut engine, &mut host, first), Err(Error::CallDepthExceeded));
    assert_eq!(engine.stack, vec![Data::Integer(1), Data::Integer(1), Data::Integer(1)]);
    assert!(engine.calls.is_empty());
    let second = engine.load_and_run(&parse("Do ( Do ( Do ( 7 ) ) )"), 1000);
    assert_eq!(drive(&mut engine, &mut host, second), Ok(()));
    let third = engine.load_and_run(&parse("Do ( Do ( Do ( Do ( 7 ) ) ) )"), 1000);
    assert_eq!(drive(&mut engine, &mut host, third), Err(Error::CallDepthExceeded));
}

#[test]
fn endless_recursion_ends_at_the_limit() {
    let (engine, _, result) = run("Def-fn \"Loop ( Loop ); Loop");
    assert_eq!(result, Err(Error::CallDepthExceeded));
    assert!(engine.calls.is_empty());
}
