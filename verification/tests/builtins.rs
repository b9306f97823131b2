use std::rc::Rc;

use yappinglang::builtins::{
    _assert, _do, _do_local, _if, any_assert, any_check, base, debug, def, def_fn, dispatch, drop,
    get_def, get_fn, has_def, integer_arithmetic, integer_binary_op, integer_operation,
    integer_unary_op, list, list_reverse, list_stack, list_swap_stack, list_to_stack,
    math_and_logic, new_external, number_binary_op, number_unary_op, print, string_chars,
    string_join, timer, to_decimal, to_integer, to_list, to_string, try_use_file, type_assert,
    type_check, use_external, use_file,
};
use yappinglang::data::{Block, Builtin, Data, Defs, IntegerOp, Kind, NumberOp};
use yappinglang::effect::{Action, Effect, Fragment, Scalar, Work};
use yappinglang::error::{Error, Expected};
use yappinglang::interpreter::BlockExec;
use yappinglang::run_tree;

fn s(text: &str) -> Data {
    Data::String(text.to_string())
}

fn i(n: i64) -> Data {
    Data::Integer(n)
}

fn empty_code() -> Rc<run_tree::Block> {
    Rc::new(run_tree::Block { exps: vec![], capture_vars: vec![] })
}

fn closure() -> Block {
    Block { block: empty_code(), captured_vars: Defs::new() }
}

fn frame() -> BlockExec {
    BlockExec::new(Defs::new())
}

fn t(text: &str) -> Fragment {
    Fragment::Text(text.to_string())
}

fn wrong(operation: Builtin, expected: Expected, found: Data) -> Result<Effect, Error> {
    Err(Error::TypeMismatch { operation, expected, found })
}

#[test]
fn def_binds_a_value() {
    let mut stack = vec![i(9), i(5), s("N")];
    let mut local = frame();
    assert_eq!(def(&mut stack, &Defs::new(), &mut local), Ok(Effect::Done));
    assert_eq!(stack, vec![i(9)]);
    assert_eq!(local.defs.get(&"N".to_string()), Some(&i(5)));
}

#[test]
fn def_wants_a_name_on_top() {
    let mut stack = vec![s("N"), i(5)];
    let mut local = frame();
    assert_eq!(
        def(&mut stack, &Defs::new(), &mut local),
        wrong(Builtin::Def, Expected::Kind(Kind::String), i(5))
    );
    assert_eq!(stack, vec![s("N")]);
    assert_eq!(local.defs.len(), 0);
}

#[test]
fn def_underflows_after_taking_the_name() {
    let mut stack = vec![s("N")];
    let mut local = frame();
    assert_eq!(
        def(&mut stack, &Defs::new(), &mut local),
        Err(Error::StackUnderflow(Builtin::Def))
    );
    assert!(stack.is_empty());
    let mut stack: Vec<Data> = vec![];
    assert_eq!(
        def(&mut stack, &Defs::new(), &mut local),
        Err(Error::StackUnderflow(Builtin::Def))
    );
}

#[test]
fn def_fn_binds_a_block_as_function() {
    let mut stack = vec![Data::Block(closure()), s("F")];
    let mut local = frame();
    assert_eq!(def_fn(&mut stack, &Defs::new(), &mut local), Ok(Effect::Done));
    assert!(stack.is_empty());
    assert_eq!(local.defs.get(&"F".to_string()), Some(&Data::Fn(closure())));
}

#[test]
fn def_fn_wants_a_block() {
    let mut stack = vec![i(1), s("F")];
    let mut local = frame();
    assert_eq!(
        def_fn(&mut stack, &Defs::new(), &mut local),
        wrong(Builtin::DefFn, Expected::Kind(Kind::Block), i(1))
    );
    assert!(stack.is_empty());
    let mut stack = vec![i(1)];
    assert_eq!(
        def_fn(&mut stack, &Defs::new(), &mut local),
        wrong(Builtin::DefFn, Expected::Kind(Kind::String), i(1))
    );
}

#[test]
fn if_chooses_by_an_integer() {
    let mut stack = vec![s("no"), s("yes"), i(7)];
    let mut local = frame();
    assert_eq!(_if(&mut stack, &Defs::new(), &mut local), Ok(Effect::Done));
    assert_eq!(stack, vec![s("yes")]);
    let mut stack = vec![s("no"), s("yes"), i(0)];
    assert_eq!(_if(&mut stack, &Defs::new(), &mut local), Ok(Effect::Done));
    assert_eq!(stack, vec![s("no")]);
}

#[test]
fn if_calls_a_block_condition_first() {
    let mut stack = vec![i(3), s("no"), s("yes"), Data::Block(closure())];
    let mut local = frame();
    assert_eq!(
        _if(&mut stack, &Defs::new(), &mut local),
        Ok(Effect::CallThen(closure(), Work::Select { on_true: s("yes"), on_false: s("no") }))
    );
    assert_eq!(stack, vec![i(3)]);
}

#[test]
fn if_takes_three_values_before_it_looks() {
    let mut stack = vec![s("no"), s("yes"), s("maybe")];
    let mut local = frame();
    assert_eq!(
        _if(&mut stack, &Defs::new(), &mut local),
        wrong(Builtin::If, Expected::IntegerOrBlock, s("maybe"))
    );
    assert!(stack.is_empty());
    let mut stack = vec![s("yes"), i(1)];
    assert_eq!(
        _if(&mut stack, &Defs::new(), &mut local),
        Err(Error::StackUnderflow(Builtin::If))
    );
    assert!(stack.is_empty());
}

#[test]
fn do_calls_a_block() {
    let mut stack = vec![i(1), Data::Block(closure())];
    let mut local = frame();
    assert_eq!(_do(&mut stack, &Defs::new(), &mut local), Ok(Effect::Call(closure())));
    assert_eq!(stack, vec![i(1)]);
    let mut stack = vec![Data::Fn(closure())];
    assert_eq!(
        _do(&mut stack, &Defs::new(), &mut local),
        wrong(Builtin::Do, Expected::Kind(Kind::Block), Data::Fn(closure()))
    );
}

#[test]
fn do_local_runs_the_code_in_the_same_frame() {
    let code = empty_code();
    let mut stack = vec![Data::Block(Block { block: code.clone(), captured_vars: Defs::new() })];
    let mut local = frame();
    match _do_local(&mut stack, &Defs::new(), &mut local) {
        Ok(Effect::Local(block)) => assert!(Rc::ptr_eq(&block, &code)),
        other => panic!("expected local code, found {:?}", other),
    }
    assert!(stack.is_empty());
}

#[test]
fn get_fn_gives_the_function_as_block() {
    let mut prev = Defs::new();
    prev.insert("F".to_string(), Data::Fn(closure()));
    prev.insert("N".to_string(), i(1));
    let mut local = frame();
    let mut stack = vec![s("F")];
    assert_eq!(get_fn(&mut stack, &prev, &mut local), Ok(Effect::Done));
    assert_eq!(stack, vec![Data::Block(closure())]);
    let mut stack = vec![s("N")];
    assert_eq!(
        get_fn(&mut stack, &prev, &mut local),
        wrong(Builtin::GetFn, Expected::Kind(Kind::Fn), i(1))
    );
    let mut stack = vec![s("Nothing")];
    assert_eq!(
        get_fn(&mut stack, &prev, &mut local),
        Err(Error::NameNotFound("Nothing".to_string()))
    );
    assert!(stack.is_empty());
}

#[test]
fn get_def_gives_what_a_name_is_bound_to() {
    let mut prev = Defs::new();
    prev.insert("F".to_string(), Data::Fn(closure()));
    let mut defs = Defs::new();
    defs.insert("N".to_string(), i(1));
    let mut local = BlockExec::new(defs);
    let mut stack = vec![s("F"), s("N")];
    assert_eq!(get_def(&mut stack, &prev, &mut local), Ok(Effect::Done));
    assert_eq!(get_def_top(&stack), i(1));
    stack.pop();
    assert_eq!(get_def(&mut stack, &prev, &mut local), Ok(Effect::Done));
    assert_eq!(stack, vec![Data::Fn(closure())]);
    let mut stack = vec![s("Nothing")];
    assert_eq!(
        get_def(&mut stack, &prev, &mut local),
        Err(Error::NameNotFound("Nothing".to_string()))
    );
}

fn get_def_top(stack: &Vec<Data>) -> Data {
    stack[stack.len() - 1].clone()
}

#[test]
fn has_def_says_one_or_zero() {
    let mut prev = Defs::new();
    prev.insert("N".to_string(), i(1));
    let mut local = frame();
    let mut stack = vec![s("N")];
    assert_eq!(has_def(&mut stack, &prev, &mut local), Ok(Effect::Done));
    assert_eq!(stack, vec![i(1)]);
    let mut stack = vec![s("M")];
    assert_eq!(has_def(&mut stack, &prev, &mut local), Ok(Effect::Done));
    assert_eq!(stack, vec![i(0)]);
    let mut stack = vec![i(3)];
    assert_eq!(
        has_def(&mut stack, &prev, &mut local),
        wrong(Builtin::HasDef, Expected::Kind(Kind::String), i(3))
    );
}

#[test]
fn timer_asks_for_a_timed_call() {
    let mut stack = vec![Data::Block(closure())];
    let mut local = frame();
    assert_eq!(timer(&mut stack, &Defs::new(), &mut local), Ok(Effect::Timed(closure())));
    let mut stack = vec![i(1)];
    assert_eq!(
        timer(&mut stack, &Defs::new(), &mut local),
        wrong(Builtin::Timer, Expected::Kind(Kind::Block), i(1))
    );
}

#[test]
fn print_asks_for_the_rendering() {
    let mut stack = vec![i(1), s("hi")];
    let mut local = frame();
    assert_eq!(
        print(&mut stack, &Defs::new(), &mut local),
        Ok(Effect::Ask(Action::Print(vec![t("'"), t("hi"), t("'")])))
    );
    assert_eq!(stack, vec![i(1)]);
}

#[test]
fn debug_shows_the_stack_top_first() {
    let mut stack = vec![i(1), i(2)];
    let mut local = frame();
    assert_eq!(
        debug(&mut stack, &Defs::new(), &mut local),
        Ok(Effect::Ask(Action::Debug(vec![vec![t("2")], vec![t("1")]])))
    );
    assert_eq!(stack, vec![i(1), i(2)]);
}

#[test]
fn assert_fails_on_zero() {
    let mut local = frame();
    let mut stack = vec![i(0)];
    assert_eq!(_assert(&mut stack, &Defs::new(), &mut local), Err(Error::UserAssertionFailure));
    assert!(stack.is_empty());
    let mut stack = vec![i(-1)];
    assert_eq!(_assert(&mut stack, &Defs::new(), &mut local), Ok(Effect::Done));
    let mut stack = vec![s("x")];
    assert_eq!(
        _assert(&mut stack, &Defs::new(), &mut local),
        wrong(Builtin::Assert, Expected::Kind(Kind::Integer), s("x"))
    );
}

#[test]
fn use_file_asks_for_the_source() {
    let mut local = frame();
    let mut stack = vec![s("lib.yp")];
    assert_eq!(
        use_file(&mut stack, &Defs::new(), &mut local),
        Ok(Effect::Ask(Action::ReadSource { path: "lib.yp".to_string(), lenient: false }))
    );
    let mut stack = vec![s("lib.yp")];
    assert_eq!(
        try_use_file(&mut stack, &Defs::new(), &mut local),
        Ok(Effect::Ask(Action::ReadSource { path: "lib.yp".to_string(), lenient: true }))
    );
    let mut stack = vec![i(1)];
    assert_eq!(
        try_use_file(&mut stack, &Defs::new(), &mut local),
        wrong(Builtin::TryUseFile, Expected::Kind(Kind::String), i(1))
    );
}

#[test]
fn any_operations_look_at_the_stack() {
    let mut local = frame();
    let mut stack: Vec<Data> = vec![];
    assert_eq!(
        any_assert(&mut stack, &Defs::new(), &mut local),
        Err(Error::StackUnderflow(Builtin::AnyAssert))
    );
    assert_eq!(any_check(&mut stack, &Defs::new(), &mut local), Ok(Effect::Done));
    assert_eq!(stack, vec![i(0)]);
    assert_eq!(any_assert(&mut stack, &Defs::new(), &mut local), Ok(Effect::Done));
    assert_eq!(any_check(&mut stack, &Defs::new(), &mut local), Ok(Effect::Done));
    assert_eq!(stack, vec![i(0), i(1)]);
}

#[test]
fn drop_takes_the_top() {
    let mut local = frame();
    let mut stack = vec![i(1), i(2)];
    assert_eq!(drop(&mut stack, &Defs::new(), &mut local), Ok(Effect::Done));
    assert_eq!(stack, vec![i(1)]);
    let mut stack: Vec<Data> = vec![];
    assert_eq!(
        drop(&mut stack, &Defs::new(), &mut local),
        Err(Error::StackUnderflow(Builtin::Drop))
    );
}

#[test]
fn type_assert_leaves_the_value() {
    let mut local = frame();
    let mut stack = vec![i(1)];
    assert_eq!(
        type_assert(Kind::Integer, &mut stack, &Defs::new(), &mut local),
        Ok(Effect::Done)
    );
    assert_eq!(stack, vec![i(1)]);
    assert_eq!(
        type_assert(Kind::String, &mut stack, &Defs::new(), &mut local),
        wrong(Builtin::TypeAssert(Kind::String), Expected::Kind(Kind::String), i(1))
    );
    assert_eq!(stack, vec![i(1)]);
    let mut stack: Vec<Data> = vec![];
    assert_eq!(
        type_assert(Kind::String, &mut stack, &Defs::new(), &mut local),
        Err(Error::StackUnderflow(Builtin::TypeAssert(Kind::String)))
    );
}

#[test]
fn type_check_says_one_or_zero_for_each_kind() {
    let mut local = frame();
    let values = vec![
        (Kind::String, s("x")),
        (Kind::Integer, i(1)),
        (Kind::Decimal, Data::Decimal(0)),
        (Kind::List, Data::List(vec![])),
        (Kind::Dict, Data::Dict(vec![])),
        (Kind::Box, Data::Box(0)),
        (Kind::Block, Data::Block(closure())),
        (Kind::Fn, Data::Fn(closure())),
        (Kind::External, Data::External(0)),
    ];
    for (kind, value) in &values {
        for (other, _) in &values {
            let mut stack = vec![value.clone()];
            assert_eq!(
                type_check(*other, &mut stack, &Defs::new(), &mut local),
                Ok(Effect::Done)
            );
            assert_eq!(stack, vec![i(if kind == other { 1 } else { 0 })]);
        }
    }
    let mut stack = vec![Data::BuiltinFunc(Builtin::Def)];
    assert_eq!(type_check(Kind::Fn, &mut stack, &Defs::new(), &mut local), Ok(Effect::Done));
    assert_eq!(stack, vec![i(0)]);
}

#[test]
fn to_integer_reads_text_and_keeps_integers() {
    let mut local = frame();
    let mut stack = vec![s("-42")];
    assert_eq!(to_integer(&mut stack, &Defs::new(), &mut local), Ok(Effect::Done));
    assert_eq!(stack, vec![i(-42)]);
    assert_eq!(to_integer(&mut stack, &Defs::new(), &mut local), Ok(Effect::Done));
    assert_eq!(stack, vec![i(-42)]);
    let mut stack = vec![s("4x")];
    assert_eq!(
        to_integer(&mut stack, &Defs::new(), &mut local),
        Err(Error::NotAnInteger("4x".to_string()))
    );
    let mut stack = vec![Data::Decimal(7)];
    assert_eq!(
        to_integer(&mut stack, &Defs::new(), &mut local),
        Ok(Effect::Ask(Action::ToInteger(7)))
    );
    let mut stack = vec![Data::List(vec![])];
    assert_eq!(
        to_integer(&mut stack, &Defs::new(), &mut local),
        wrong(Builtin::ToInteger, Expected::StringOrNumber, Data::List(vec![]))
    );
}

#[test]
fn to_decimal_leaves_the_reading_to_the_host() {
    let mut local = frame();
    let mut stack = vec![s("1.5")];
    assert_eq!(
        to_decimal(&mut stack, &Defs::new(), &mut local),
        Ok(Effect::Ask(Action::ParseDecimal("1.5".to_string())))
    );
    let mut stack = vec![i(3)];
    assert_eq!(
        to_decimal(&mut stack, &Defs::new(), &mut local),
        Ok(Effect::Ask(Action::ToDecimal(3)))
    );
    let mut stack = vec![Data::Decimal(9)];
    assert_eq!(to_decimal(&mut stack, &Defs::new(), &mut local), Ok(Effect::Done));
    assert_eq!(stack, vec![Data::Decimal(9)]);
    let mut stack = vec![Data::Box(1)];
    assert_eq!(
        to_decimal(&mut stack, &Defs::new(), &mut local),
        wrong(Builtin::ToDecimal, Expected::StringOrNumber, Data::Box(1))
    );
}

#[test]
fn to_string_asks_for_the_text() {
    let mut local = frame();
    let mut stack = vec![i(-5)];
    assert_eq!(
        to_string(&mut stack, &Defs::new(), &mut local),
        Ok(Effect::Ask(Action::Stringify(vec![t("-5")])))
    );
}

#[test]
fn to_list_wraps_one_value() {
    let mut local = frame();
    let mut stack = vec![i(1), i(2)];
    assert_eq!(to_list(&mut stack, &Defs::new(), &mut local), Ok(Effect::Done));
    assert_eq!(stack, vec![i(1), Data::List(vec![i(2)])]);
}

#[test]
fn externals_go_through_the_host() {
    let mut local = frame();
    let mut stack = vec![s("clock")];
    assert_eq!(
        new_external(&mut stack, &Defs::new(), &mut local),
        Ok(Effect::Ask(Action::NewExternal("clock".to_string())))
    );
    let mut stack = vec![i(1), Data::External(4), s("tick")];
    assert_eq!(
        use_external(&mut stack, &Defs::new(), &mut local),
        Ok(Effect::Ask(Action::ApplyExternal { handle: 4, operation: "tick".to_string() }))
    );
    assert_eq!(stack, vec![i(1)]);
    let mut stack = vec![i(4), s("tick")];
    assert_eq!(
        use_external(&mut stack, &Defs::new(), &mut local),
        wrong(Builtin::UseExt, Expected::Kind(Kind::External), i(4))
    );
    let mut stack = vec![i(4)];
    assert_eq!(
        use_external(&mut stack, &Defs::new(), &mut local),
        wrong(Builtin::UseExt, Expected::Kind(Kind::String), i(4))
    );
}

#[test]
fn string_join_puts_the_top_first() {
    let mut local = frame();
    let mut stack = vec![s("world"), s("hello ")];
    assert_eq!(string_join(&mut stack, &Defs::new(), &mut local), Ok(Effect::Done));
    assert_eq!(stack, vec![s("hello world")]);
    let mut stack = vec![i(1), s("a")];
    assert_eq!(
        string_join(&mut stack, &Defs::new(), &mut local),
        wrong(Builtin::StringJoin, Expected::Kind(Kind::String), i(1))
    );
}

#[test]
fn string_chars_puts_the_first_character_on_top() {
    let mut local = frame();
    let mut stack = vec![s("aé₂")];
    assert_eq!(string_chars(&mut stack, &Defs::new(), &mut local), Ok(Effect::Done));
    assert_eq!(stack, vec![Data::List(vec![s("₂"), s("é"), s("a")])]);
    let mut stack = vec![s("")];
    assert_eq!(string_chars(&mut stack, &Defs::new(), &mut local), Ok(Effect::Done));
    assert_eq!(stack, vec![Data::List(vec![])]);
}

#[test]
fn list_calls_the_block_on_an_empty_stack() {
    let mut local = frame();
    let mut stack = vec![i(1), i(2), Data::Block(closure())];
    assert_eq!(
        list(&mut stack, &Defs::new(), &mut local),
        Ok(Effect::CallThen(closure(), Work::Collect { saved: vec![i(1), i(2)] }))
    );
    assert!(stack.is_empty());
}

#[test]
fn list_operations_move_items() {
    let mut local = frame();
    let mut stack = vec![i(0), Data::List(vec![i(1), i(2), i(3)])];
    assert_eq!(list_reverse(&mut stack, &Defs::new(), &mut local), Ok(Effect::Done));
    assert_eq!(stack, vec![i(0), Data::List(vec![i(3), i(2), i(1)])]);
    assert_eq!(list_to_stack(&mut stack, &Defs::new(), &mut local), Ok(Effect::Done));
    assert_eq!(stack, vec![i(0), i(1), i(2), i(3)]);
    assert_eq!(list_stack(&mut stack, &Defs::new(), &mut local), Ok(Effect::Done));
    assert_eq!(stack, vec![Data::List(vec![i(0), i(1), i(2), i(3)])]);
    stack.insert(0, i(9));
    assert_eq!(list_swap_stack(&mut stack, &Defs::new(), &mut local), Ok(Effect::Done));
    assert_eq!(stack, vec![i(0), i(1), i(2), i(3), Data::List(vec![i(9)])]);
    let mut stack = vec![i(1)];
    assert_eq!(
        list_to_stack(&mut stack, &Defs::new(), &mut local),
        wrong(Builtin::ListToStack, Expected::Kind(Kind::List), i(1))
    );
}

#[test]
fn integer_arithmetic_is_exact_or_fails() {
    assert_eq!(integer_arithmetic(NumberOp::Add, 2, 3), Ok(5));
    assert_eq!(integer_arithmetic(NumberOp::Sub, 2, 3), Ok(-1));
    assert_eq!(integer_arithmetic(NumberOp::Mul, -4, 3), Ok(-12));
    assert_eq!(integer_arithmetic(NumberOp::Div, 7, 2), Ok(3));
    assert_eq!(integer_arithmetic(NumberOp::Div, -7, 2), Ok(-3));
    assert_eq!(integer_arithmetic(NumberOp::Div, 7, -2), Ok(-3));
    assert_eq!(integer_arithmetic(NumberOp::Rem, 7, 2), Ok(1));
    assert_eq!(integer_arithmetic(NumberOp::Rem, -7, 2), Ok(-1));
    assert_eq!(integer_arithmetic(NumberOp::Rem, 7, -2), Ok(1));
    assert_eq!(integer_arithmetic(NumberOp::Div, 1, 0), Err(Error::DivisionByZero));
    assert_eq!(integer_arithmetic(NumberOp::Rem, 1, 0), Err(Error::DivisionByZero));
    assert_eq!(integer_arithmetic(NumberOp::Add, i64::MAX, 1), Err(Error::Overflow));
    assert_eq!(integer_arithmetic(NumberOp::Sub, i64::MIN, 1), Err(Error::Overflow));
    assert_eq!(integer_arithmetic(NumberOp::Mul, i64::MAX, 2), Err(Error::Overflow));
    assert_eq!(integer_arithmetic(NumberOp::Div, i64::MIN, -1), Err(Error::Overflow));
    assert_eq!(integer_arithmetic(NumberOp::Rem, i64::MIN, -1), Err(Error::Overflow));
}

#[test]
fn number_operation_takes_the_top_as_first_operand() {
    let mut local = frame();
    let mut stack = vec![i(3), i(5)];
    assert_eq!(
        number_binary_op(NumberOp::Sub, &mut stack, &Defs::new(), &mut local),
        Ok(Effect::Done)
    );
    assert_eq!(stack, vec![i(2)]);
}

#[test]
fn number_operation_with_a_decimal_goes_to_the_host() {
    let mut local = frame();
    let mut stack = vec![i(3), Data::Decimal(8)];
    assert_eq!(
        number_binary_op(NumberOp::Mul, &mut stack, &Defs::new(), &mut local),
        Ok(Effect::Ask(Action::Arithmetic {
            op: NumberOp::Mul,
            first: Scalar::Decimal(8),
            second: Scalar::Integer(3),
        }))
    );
    assert!(stack.is_empty());
}

#[test]
fn number_operation_names_both_operands_when_one_is_wrong() {
    let mut local = frame();
    let mut stack = vec![s("a"), i(1)];
    assert_eq!(
        number_binary_op(NumberOp::Add, &mut stack, &Defs::new(), &mut local),
        Err(Error::OperandMismatch {
            operation: Builtin::Number(NumberOp::Add),
            first: i(1),
            second: s("a"),
        })
    );
    let mut stack = vec![i(1)];
    assert_eq!(
        number_binary_op(NumberOp::Add, &mut stack, &Defs::new(), &mut local),
        Err(Error::StackUnderflow(Builtin::Number(NumberOp::Add)))
    );
    assert!(stack.is_empty());
    let mut stack = vec![i(0), i(1)];
    assert_eq!(
        number_binary_op(NumberOp::Div, &mut stack, &Defs::new(), &mut local),
        Err(Error::DivisionByZero)
    );
}

#[test]
fn integer_operations_compute() {
    assert_eq!(integer_operation(IntegerOp::And, 12, 10), 8);
    assert_eq!(integer_operation(IntegerOp::Xor, 12, 10), 6);
    assert_eq!(integer_operation(IntegerOp::Or, 12, 10), 14);
    assert_eq!(integer_operation(IntegerOp::And, -1, 10), 10);
    assert_eq!(integer_operation(IntegerOp::Eq, 2, 2), 1);
    assert_eq!(integer_operation(IntegerOp::Ne, 2, 2), 0);
    assert_eq!(integer_operation(IntegerOp::Lt, 1, 2), 1);
    assert_eq!(integer_operation(IntegerOp::Le, 2, 2), 1);
    assert_eq!(integer_operation(IntegerOp::Gt, 1, 2), 0);
    assert_eq!(integer_operation(IntegerOp::Ge, 1, 2), 0);
}

#[test]
fn comparison_takes_the_top_as_first_operand() {
    let mut local = frame();
    let mut stack = vec![i(2), i(1)];
    assert_eq!(
        integer_binary_op(IntegerOp::Lt, &mut stack, &Defs::new(), &mut local),
        Ok(Effect::Done)
    );
    assert_eq!(stack, vec![i(1)]);
    let mut stack = vec![Data::Decimal(1), i(1)];
    assert_eq!(
        integer_binary_op(IntegerOp::Lt, &mut stack, &Defs::new(), &mut local),
        Err(Error::OperandMismatch {
            operation: Builtin::Integer(IntegerOp::Lt),
            first: i(1),
            second: Data::Decimal(1),
        })
    );
}

#[test]
fn neg_negates_integers_itself() {
    let mut local = frame();
    let mut stack = vec![i(5)];
    assert_eq!(number_unary_op(&mut stack, &Defs::new(), &mut local), Ok(Effect::Done));
    assert_eq!(stack, vec![i(-5)]);
    let mut stack = vec![i(i64::MIN)];
    assert_eq!(number_unary_op(&mut stack, &Defs::new(), &mut local), Err(Error::Overflow));
    let mut stack = vec![Data::Decimal(3)];
    assert_eq!(
        number_unary_op(&mut stack, &Defs::new(), &mut local),
        Ok(Effect::Ask(Action::Negate(3)))
    );
    let mut stack = vec![s("x")];
    assert_eq!(
        number_unary_op(&mut stack, &Defs::new(), &mut local),
        wrong(Builtin::Neg, Expected::Number, s("x"))
    );
}

#[test]
fn to_bool_and_not() {
    let mut local = frame();
    for (n, truth) in [(0, 0), (1, 1), (-7, 1)] {
        let mut stack = vec![i(n)];
        assert_eq!(
            integer_unary_op(false, &mut stack, &Defs::new(), &mut local),
            Ok(Effect::Done)
        );
        assert_eq!(stack, vec![i(truth)]);
        let mut stack = vec![i(n)];
        assert_eq!(
            integer_unary_op(true, &mut stack, &Defs::new(), &mut local),
            Ok(Effect::Done)
        );
        assert_eq!(stack, vec![i(1 - truth)]);
    }
    let mut stack = vec![s("x")];
    assert_eq!(
        integer_unary_op(true, &mut stack, &Defs::new(), &mut local),
        wrong(Builtin::Not, Expected::Kind(Kind::Integer), s("x"))
    );
}

#[test]
fn dispatch_performs_the_named_operation() {
    let mut local = frame();
    let mut stack = vec![i(1), i(2)];
    assert_eq!(
        dispatch(Builtin::Number(NumberOp::Add), &mut stack, &Defs::new(), &mut local),
        Ok(Effect::Done)
    );
    assert_eq!(stack, vec![i(3)]);
    assert_eq!(
        dispatch(Builtin::ToList, &mut stack, &Defs::new(), &mut local),
        Ok(Effect::Done)
    );
    assert_eq!(stack, vec![Data::List(vec![i(3)])]);
    assert_eq!(
        dispatch(Builtin::TypeCheck(Kind::List), &mut stack, &Defs::new(), &mut local),
        Ok(Effect::Done)
    );
    assert_eq!(stack, vec![i(1)]);
}

#[test]
fn base_registers_under_the_prefix() {
    let defs = base(Defs::new(), "std.");
    assert_eq!(defs.get(&"std.Def".to_string()), Some(&Data::BuiltinFunc(Builtin::Def)));
    assert_eq!(defs.get(&"std.Def-fn".to_string()), Some(&Data::BuiltinFunc(Builtin::DefFn)));
    assert_eq!(defs.get(&"std.Do-local".to_string()), Some(&Data::BuiltinFunc(Builtin::DoLocal)));
    assert_eq!(defs.get(&"std.Any?".to_string()), Some(&Data::BuiltinFunc(Builtin::AnyCheck)));
    assert_eq!(
        defs.get(&"std.List-stack".to_string()),
        Some(&Data::BuiltinFunc(Builtin::ListStack))
    );
    assert_eq!(defs.get(&"Def".to_string()), None);
    assert_eq!(defs.get(&"std.List-to-stack".to_string()), None);
    assert_eq!(defs.get(&"std.+".to_string()), None);
}

#[test]
fn check_of_a_kind_takes_the_name_of_its_assertion() {
    let defs = base(Defs::new(), "");
    assert_eq!(
        defs.get(&"String!".to_string()),
        Some(&Data::BuiltinFunc(Builtin::TypeCheck(Kind::String)))
    );
    assert_eq!(
        defs.get(&"External!".to_string()),
        Some(&Data::BuiltinFunc(Builtin::TypeCheck(Kind::External)))
    );
    assert_eq!(defs.get(&"String?".to_string()), None);
    assert_eq!(defs.get(&"Any!".to_string()), Some(&Data::BuiltinFunc(Builtin::AnyAssert)));
}

#[test]
fn base_keeps_what_was_there() {
    let mut defs = Defs::new();
    defs.insert("Mine".to_string(), i(1));
    defs.insert("Def".to_string(), i(2));
    let defs = base(defs, "");
    assert_eq!(defs.get(&"Mine".to_string()), Some(&i(1)));
    assert_eq!(defs.get(&"Def".to_string()), Some(&Data::BuiltinFunc(Builtin::Def)));
}

#[test]
fn math_and_logic_registers_operators_and_truth_values() {
    let defs = math_and_logic(Defs::new(), "");
    assert_eq!(defs.get(&"+".to_string()), Some(&Data::BuiltinFunc(Builtin::Number(NumberOp::Add))));
    assert_eq!(defs.get(&"%".to_string()), Some(&Data::BuiltinFunc(Builtin::Number(NumberOp::Rem))));
    assert_eq!(
        defs.get(&"And".to_string()),
        Some(&Data::BuiltinFunc(Builtin::Integer(IntegerOp::And)))
    );
    assert_eq!(
        defs.get(&">=".to_string()),
        Some(&Data::BuiltinFunc(Builtin::Integer(IntegerOp::Ge)))
    );
    assert_eq!(defs.get(&"Neg".to_string()), Some(&Data::BuiltinFunc(Builtin::Neg)));
    assert_eq!(defs.get(&"To-bool".to_string()), Some(&Data::BuiltinFunc(Builtin::ToBool)));
    assert_eq!(defs.get(&"Not".to_string()), Some(&Data::BuiltinFunc(Builtin::Not)));
    assert_eq!(defs.get(&"True".to_string()), Some(&i(1)));
    assert_eq!(defs.get(&"False".to_string()), Some(&i(0)));
    assert_eq!(defs.len(), 19);
}

#[test]
fn every_operation_has_its_name() {
    assert_eq!(Builtin::DefFn.name(), "Def-fn");
    assert_eq!(Builtin::TryUseFile.name(), "Try-use-file");
    assert_eq!(Builtin::TypeAssert(Kind::Dict).name(), "Dict!");
    assert_eq!(Builtin::TypeCheck(Kind::Dict).name(), "Dict!");
    assert_eq!(Builtin::Number(NumberOp::Div).name(), "/");
    assert_eq!(Builtin::Integer(IntegerOp::Ne).name(), "!=");
    assert_eq!(Builtin::ListSwapStack.name(), "List-swap-stack");
}
