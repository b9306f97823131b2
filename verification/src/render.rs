//! How values are written out. A rendering is a list of fragments: the text
//! is the engine's, and what only the host can write (a decimal, the identity
//! of shared code) is left to it. A closure shows as a mark of its code and
//! never shows what it captured.

use vstd::prelude::*;
use crate::data::{Data, DataModel, data_view, list_view, pairs_view, share};
use crate::effect::{Fragment, FragmentModel, fragments_view, lines_view};
use crate::error::{Error, ErrorModel, Expected, SyntaxError, SyntaxErrorKind};
use crate::names::{builtin_name, kind_word};

verus! {

/// The character for a digit.
pub open spec fn digit(d: nat) -> char
    recommends
        d < 10,
{
    if d == 0 {
        '0'
    } else if d == 1 {
        '1'
    } else if d == 2 {
        '2'
    } else if d == 3 {
        '3'
    } else if d == 4 {
        '4'
    } else if d == 5 {
        '5'
    } else if d == 6 {
        '6'
    } else if d == 7 {
        '7'
    } else if d == 8 {
        '8'
    } else {
        '9'
    }
}

/// The decimal digits of a natural number, without leading zeros.
pub open spec fn digits(n: nat) -> Seq<char>
    decreases n,
{
    if n < 10 {
        seq![digit(n)]
    } else {
        digits(n / 10).push(digit(n % 10))
    }
}

/// An integer as it is written in a program.
pub open spec fn integer_text(n: int) -> Seq<char> {
    if n < 0 {
        seq!['-'] + digits((-n) as nat)
    } else {
        digits(n as nat)
    }
}

fn digit_str(d: u64) -> (res: &'static str)
    requires
        d < 10,
    ensures
        res@ == seq![digit(d as nat)],
{
    proof {
        reveal_strlit("0");
        reveal_strlit("1");
        reveal_strlit("2");
        reveal_strlit("3");
        reveal_strlit("4");
        reveal_strlit("5");
        reveal_strlit("6");
        reveal_strlit("7");
        reveal_strlit("8");
        reveal_strlit("9");
    }
    let res = if d == 0 {
        "0"
    } else if d == 1 {
        "1"
    } else if d == 2 {
        "2"
    } else if d == 3 {
        "3"
    } else if d == 4 {
        "4"
    } else if d == 5 {
        "5"
    } else if d == 6 {
        "6"
    } else if d == 7 {
        "7"
    } else if d == 8 {
        "8"
    } else {
        "9"
    };
    assert(res@ =~= seq![digit(d as nat)]);
    res
}

fn push_digits(n: u64, out: &mut String)
    ensures
        final(out)@ == old(out)@ + digits(n as nat),
    decreases n,
{
    if n >= 10 {
        push_digits(n / 10, out);
    }
    out.append(digit_str(n % 10));
    assert(out@ =~= old(out)@ + digits(n as nat));
}

/// The text of a natural number.
pub fn natural_string(n: u64) -> (res: String)
    ensures
        res@ == digits(n as nat),
{
    let mut out = String::new();
    push_digits(n, &mut out);
    assert(out@ =~= digits(n as nat));
    out
}

/// The text of an integer.
pub fn integer_string(n: i64) -> (res: String)
    ensures
        res@ == integer_text(n as int),
{
    let mut out = String::new();
    if n < 0 {
        proof {
            reveal_strlit("-");
        }
        out.append("-");
        let magnitude: u64 = if n == i64::MIN {
            0x8000_0000_0000_0000u64
        } else {
            (-n) as u64
        };
        push_digits(magnitude, &mut out);
        assert(out@ =~= integer_text(n as int));
    } else {
        push_digits(n as u64, &mut out);
        assert(out@ =~= integer_text(n as int));
    }
    out
}


/// The rendering that is one piece of text.
pub open spec fn text(s: Seq<char>) -> Seq<FragmentModel> {
    seq![FragmentModel::Text(s)]
}

/// The items of a list, the top one first, each followed by a space.
pub open spec fn render_items(items: Seq<DataModel>) -> Seq<FragmentModel>
    decreases items, 0nat,
{
    if items.len() == 0 {
        Seq::empty()
    } else {
        render(items.last()) + text(" "@) + render_items(items.drop_last())
    }
}

/// The entries of a dictionary in their order, each as `(key):(value)` and
/// followed by a space.
pub open spec fn render_pairs(pairs: Seq<(DataModel, DataModel)>) -> Seq<FragmentModel>
    decreases pairs, 0nat,
{
    if pairs.len() == 0 {
        Seq::empty()
    } else {
        text("("@) + render(pairs[0].0) + text("):("@) + render(pairs[0].1) + text(") "@)
            + render_pairs(pairs.drop_first())
    }
}

/// The rendering of a value: a string in single quotes, an integer in
/// decimal digits, a decimal followed by `f`, a list and a dictionary with
/// all they hold, and everything else as a word and a mark of its identity.
pub open spec fn render(data: DataModel) -> Seq<FragmentModel>
    decreases data, 1nat,
{
    match data {
        DataModel::String(s) => text("'"@) + text(s) + text("'"@),
        DataModel::Integer(n) => text(integer_text(n as int)),
        DataModel::Decimal(bits) => seq![FragmentModel::Decimal(bits)] + text("f"@),
        DataModel::List(items) => text("[ "@) + render_items(items) + text("]"@),
        DataModel::Dict(pairs) => text("{ "@) + render_pairs(pairs) + text("}"@),
        DataModel::Box(cell) => text("box "@) + text(digits(cell as nat)),
        DataModel::Block(closure) => text("block "@) + seq![FragmentModel::Code(closure.block)],
        DataModel::Fn(closure) => text("fn "@) + seq![FragmentModel::Code(closure.block)],
        DataModel::External(handle) => text("external "@) + text(digits(handle as nat)),
        DataModel::BuiltinFunc(func) => text("built-in "@) + text(builtin_name(func)),
    }
}

/// The renderings of the values of a stack, the top one first.
pub open spec fn render_stack(stack: Seq<DataModel>) -> Seq<Seq<FragmentModel>> {
    Seq::new(stack.len(), |i: int| render(stack[stack.len() - 1 - i]))
}

/// Adds a fragment to a rendering.
pub(crate) fn put(out: &mut Vec<Fragment>, fragment: Fragment)
    ensures
        fragments_view(final(out)@) == fragments_view(old(out)@) + seq![fragment@],
{
    out.push(fragment);
    assert(fragments_view(out@) =~= fragments_view(old(out)@) + seq![fragment@]);
}

/// Adds a piece of text to a rendering.
pub(crate) fn put_str(out: &mut Vec<Fragment>, s: &str)
    ensures
        fragments_view(final(out)@) == fragments_view(old(out)@) + text(s@),
{
    put(out, Fragment::Text(s.to_string()));
}

fn render_items_into(items: &Vec<Data>, out: &mut Vec<Fragment>)
    ensures
        fragments_view(final(out)@) == fragments_view(old(out)@) + render_items(
            list_view(items@),
        ),
    decreases items, 0nat,
{
    let ghost all = list_view(items@);
    let ghost start = fragments_view(out@);
    let mut i: usize = items.len();
    assert(all.take(i as int) =~= all);
    while i > 0
        invariant
            i <= items.len(),
            all == list_view(items@),
            fragments_view(out@) + render_items(all.take(i as int)) == start + render_items(all),
        decreases i,
    {
        proof {
            assert(decreases_to!(*items => items@));
            assert(decreases_to!(items@ => items@[i - 1]));
            assert(all.take(i as int).last() == data_view(items@[i - 1]));
            assert(all.take(i as int).drop_last() =~= all.take(i - 1));
        }
        let ghost before = fragments_view(out@);
        render_into(&items[i - 1], out);
        put_str(out, " ");
        i -= 1;
        assert(fragments_view(out@) + render_items(all.take(i as int)) =~= before + render_items(
            all.take(i + 1),
        ));
    }
    assert(fragments_view(out@) =~= start + render_items(all));
}

fn render_pairs_into(pairs: &Vec<(Data, Data)>, out: &mut Vec<Fragment>)
    ensures
        fragments_view(final(out)@) == fragments_view(old(out)@) + render_pairs(
            pairs_view(pairs@),
        ),
    decreases pairs, 0nat,
{
    let ghost all = pairs_view(pairs@);
    let ghost start = fragments_view(out@);
    let mut i: usize = 0;
    assert(all.skip(0) =~= all);
    while i < pairs.len()
        invariant
            i <= pairs.len(),
            all == pairs_view(pairs@),
            fragments_view(out@) + render_pairs(all.skip(i as int)) == start + render_pairs(all),
        decreases pairs.len() - i,
    {
        proof {
            assert(decreases_to!(*pairs => pairs@));
            assert(decreases_to!(pairs@ => pairs@[i as int]));
            assert(all.skip(i as int)[0] == (
                data_view(pairs@[i as int].0),
                data_view(pairs@[i as int].1),
            ));
            assert(all.skip(i as int).drop_first() =~= all.skip(i + 1));
        }
        let ghost before = fragments_view(out@);
        put_str(out, "(");
        render_into(&pairs[i].0, out);
        put_str(out, "):(");
        render_into(&pairs[i].1, out);
        put_str(out, ") ");
        i += 1;
        assert(fragments_view(out@) + render_pairs(all.skip(i as int)) =~= before + render_pairs(
            all.skip(i - 1),
        ));
    }
    assert(fragments_view(out@) =~= start + render_pairs(all));
}

fn render_into(data: &Data, out: &mut Vec<Fragment>)
    ensures
        fragments_view(final(out)@) == fragments_view(old(out)@) + render(data@),
    decreases data, 1nat,
{
    let ghost start = fragments_view(out@);
    match data {
        Data::String(s) => {
            put_str(out, "'");
            put(out, Fragment::Text(s.clone()));
            put_str(out, "'");
        },
        Data::Integer(n) => {
            put(out, Fragment::Text(integer_string(*n)));
        },
        Data::Decimal(bits) => {
            put(out, Fragment::Decimal(*bits));
            put_str(out, "f");
        },
        Data::List(items) => {
            put_str(out, "[ ");
            render_items_into(items, out);
            put_str(out, "]");
        },
        Data::Dict(pairs) => {
            put_str(out, "{ ");
            render_pairs_into(pairs, out);
            put_str(out, "}");
        },
        Data::Box(cell) => {
            put_str(out, "box ");
            put(out, Fragment::Text(natural_string(*cell as u64)));
        },
        Data::Block(closure) => {
            put_str(out, "block ");
            put(out, Fragment::Code(share(&closure.block)));
        },
        Data::Fn(closure) => {
            put_str(out, "fn ");
            put(out, Fragment::Code(share(&closure.block)));
        },
        Data::External(handle) => {
            put_str(out, "external ");
            put(out, Fragment::Text(natural_string(*handle as u64)));
        },
        Data::BuiltinFunc(func) => {
            put_str(out, "built-in ");
            put_str(out, func.name());
        },
    }
    assert(fragments_view(out@) =~= start + render(data@));
}

/// Renders a value.
pub fn render_data(data: &Data) -> (res: Vec<Fragment>)
    ensures
        fragments_view(res@) == render(data@),
{
    let mut out: Vec<Fragment> = Vec::new();
    assert(fragments_view(out@) =~= Seq::empty());
    render_into(data, &mut out);
    assert(fragments_view(out@) =~= render(data@));
    out
}


/// Renders the values of a stack, the top one first.
pub fn render_all(stack: &Vec<Data>) -> (res: Vec<Vec<Fragment>>)
    ensures
        lines_view(res@) == render_stack(list_view(stack@)),
{
    let ghost all = render_stack(list_view(stack@));
    let mut lines: Vec<Vec<Fragment>> = Vec::new();
    let mut i: usize = stack.len();
    while i > 0
        invariant
            i <= stack@.len(),
            all == render_stack(list_view(stack@)),
            lines@.len() == stack@.len() - i,
            lines_view(lines@) == all.take(stack@.len() - i),
        decreases i,
    {
        i -= 1;
        let line = render_data(&stack[i]);
        lines.push(line);
        assert(lines_view(lines@) =~= all.take(stack@.len() - i));
    }
    assert(all.take(stack@.len() as int) =~= all);
    lines
}


/// What an operation wanted, in words.
pub open spec fn expected_text(expected: Expected) -> Seq<char> {
    match expected {
        Expected::Kind(kind) => kind_word(kind),
        Expected::IntegerOrBlock => "Integer or Block"@,
        Expected::Number => "Integer or Decimal"@,
        Expected::StringOrNumber => "String or Integer or Decimal"@,
    }
}

/// The start of the message of an operation that failed.
pub open spec fn failed_in(operation: crate::data::Builtin) -> Seq<FragmentModel> {
    text("builtin error func '"@) + text(builtin_name(operation)) + text("': "@)
}

/// The message of a failure, for people to read.
pub open spec fn message(error: ErrorModel) -> Seq<FragmentModel> {
    match error {
        ErrorModel::NameNotFound(name) => text("error: variable '"@) + text(name) + text(
            "' not found"@,
        ),
        ErrorModel::CaptureResolutionFailure(name) => text("error: variable '"@) + text(name)
            + text("' not found for capture"@),
        ErrorModel::TypeMismatch { operation, expected, found } => failed_in(operation) + text(
            "expect "@,
        ) + text(expected_text(expected)) + text(", found "@) + render(found),
        ErrorModel::OperandMismatch { operation, first, second } => failed_in(operation) + text(
            "expected 2 Integer or Decimal, found "@,
        ) + render(first) + text(" "@) + render(second),
        ErrorModel::StackUnderflow(operation) => failed_in(operation) + text(
            "empty stack when pop"@,
        ),
        ErrorModel::UserAssertionFailure => text("builtin error func 'Assert': assert"@),
        ErrorModel::DivisionByZero => text("builtin error: division by zero"@),
        ErrorModel::Overflow => text("builtin error: integer overflow"@),
        ErrorModel::NotAnInteger(source) => text("builtin error func 'To-integer': no integer: '"@)
            + text(source) + text("'"@),
        ErrorModel::CallDepthExceeded => text("error: too many calls under way"@),
        ErrorModel::External(report) => text(report),
        ErrorModel::UnexpectedEvent => text("error: unexpected answer from the host"@),
    }
}

fn expected_str(expected: Expected) -> (res: &'static str)
    ensures
        res@ == expected_text(expected),
{
    match expected {
        Expected::Kind(kind) => kind.word(),
        Expected::IntegerOrBlock => "Integer or Block",
        Expected::Number => "Integer or Decimal",
        Expected::StringOrNumber => "String or Integer or Decimal",
    }
}

fn put_failed_in(out: &mut Vec<Fragment>, operation: crate::data::Builtin)
    ensures
        fragments_view(final(out)@) == fragments_view(old(out)@) + failed_in(operation),
{
    put_str(out, "builtin error func '");
    put_str(out, operation.name());
    put_str(out, "': ");
    assert(fragments_view(out@) =~= fragments_view(old(out)@) + failed_in(operation));
}

/// Renders the message of a failure.
pub fn describe(error: &Error) -> (res: Vec<Fragment>)
    ensures
        fragments_view(res@) == message(error@),
{
    let mut out: Vec<Fragment> = Vec::new();
    assert(fragments_view(out@) =~= Seq::empty());
    match error {
        Error::NameNotFound(name) => {
            put_str(&mut out, "error: variable '");
            put(&mut out, Fragment::Text(name.clone()));
            put_str(&mut out, "' not found");
        },
        Error::CaptureResolutionFailure(name) => {
            put_str(&mut out, "error: variable '");
            put(&mut out, Fragment::Text(name.clone()));
            put_str(&mut out, "' not found for capture");
        },
        Error::TypeMismatch { operation, expected, found } => {
            put_failed_in(&mut out, *operation);
            put_str(&mut out, "expect ");
            put_str(&mut out, expected_str(*expected));
            put_str(&mut out, ", found ");
            render_into(found, &mut out);
        },
        Error::OperandMismatch { operation, first, second } => {
            put_failed_in(&mut out, *operation);
            put_str(&mut out, "expected 2 Integer or Decimal, found ");
            render_into(first, &mut out);
            put_str(&mut out, " ");
            render_into(second, &mut out);
        },
        Error::StackUnderflow(operation) => {
            put_failed_in(&mut out, *operation);
            put_str(&mut out, "empty stack when pop");
        },
        Error::UserAssertionFailure => {
            put_str(&mut out, "builtin error func 'Assert': assert");
        },
        Error::DivisionByZero => {
            put_str(&mut out, "builtin error: division by zero");
        },
        Error::Overflow => {
            put_str(&mut out, "builtin error: integer overflow");
        },
        Error::NotAnInteger(source) => {
            put_str(&mut out, "builtin error func 'To-integer': no integer: '");
            put(&mut out, Fragment::Text(source.clone()));
            put_str(&mut out, "'");
        },
        Error::CallDepthExceeded => {
            put_str(&mut out, "error: too many calls under way");
        },
        Error::External(report) => {
            put(&mut out, Fragment::Text(report.clone()));
        },
        Error::UnexpectedEvent => {
            put_str(&mut out, "error: unexpected answer from the host");
        },
    }
    assert(fragments_view(out@) =~= message(error@));
    out
}

/// What is wrong with a text, in words.
pub open spec fn fault_text(kind: SyntaxErrorKind) -> Seq<char> {
    match kind {
        SyntaxErrorKind::UnterminatedString => "Unterminated string"@,
        SyntaxErrorKind::NumberTooLarge => "number too large to fit in target type"@,
        SyntaxErrorKind::TooManyClosers => "to many )"@,
        SyntaxErrorKind::ExpectIdentifierForCapture => "expect identifier for capture"@,
        SyntaxErrorKind::BlockNotEnded => "block not ended by )"@,
        SyntaxErrorKind::DecimalNotRead => "decimal not read"@,
    }
}

/// The message of a fault in a text: the line, then what is wrong.
pub open spec fn fault_message(error: SyntaxError) -> Seq<char> {
    "[line "@ + digits(error.line as nat) + "] Error: "@ + fault_text(error.kind)
}

impl SyntaxError {
    /// The message of this fault.
    pub fn message(&self) -> (res: String)
        ensures
            res@ == fault_message(*self),
    {
        let mut out = "[line ".to_string();
        out.append(natural_string(self.line).as_str());
        out.append("] Error: ");
        out.append(
            match self.kind {
                SyntaxErrorKind::UnterminatedString => "Unterminated string",
                SyntaxErrorKind::NumberTooLarge => "number too large to fit in target type",
                SyntaxErrorKind::TooManyClosers => "to many )",
                SyntaxErrorKind::ExpectIdentifierForCapture => "expect identifier for capture",
                SyntaxErrorKind::BlockNotEnded => "block not ended by )",
                SyntaxErrorKind::DecimalNotRead => "decimal not read",
            },
        );
        out
    }
}

} // verus!
