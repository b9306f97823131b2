//! The ways in which running a program fails. A failure ends the run; what
//! the failing operation had already done to the stack or to a frame's
//! definitions stays done.

use vstd::prelude::*;
use crate::data::{Builtin, Data, DataModel, Kind};

verus! {

/// What an operation wanted to find in place of the value it found.
#[derive(Clone, Copy, Debug, PartialEq, Eq, Structural)]
pub enum Expected {
    /// A value of this kind.
    Kind(Kind),
    /// An integer, or a block that will give one.
    IntegerOrBlock,
    /// An integer or a decimal.
    Number,
    /// A string, an integer or a decimal.
    StringOrNumber,
}

/// Why a program failed.
#[derive(Debug, PartialEq)]
pub enum Error {
    /// Neither the running frame nor the map handed down by its caller
    /// defines the name.
    NameNotFound(String),
    /// A block literal marks the name for capture, and nothing defines it
    /// where the closure is made.
    CaptureResolutionFailure(String),
    /// An operation got a value of a kind that it cannot act on.
    TypeMismatch { operation: Builtin, expected: Expected, found: Data },
    /// An operation on two numbers got the two values `first` (the top of the
    /// stack) and `second`, of which at least one is of the wrong kind.
    OperandMismatch { operation: Builtin, first: Data, second: Data },
    /// An operation needed a value and the stack was empty.
    StackUnderflow(Builtin),
    /// `Assert` found 0.
    UserAssertionFailure,
    /// A division or a remainder by the integer 0.
    DivisionByZero,
    /// The result of an operation on integers does not fit in 64 bits.
    Overflow,
    /// `To-integer` got a text that does not spell an integer.
    NotAnInteger(String),
    /// A call would put more frames under way than the engine allows.
    CallDepthExceeded,
    /// The host reports that what it was asked to do failed.
    External(String),
    /// The host answered with an event that the engine was not waiting for.
    UnexpectedEvent,
}

/// The mathematical content of a failure.
pub enum ErrorModel {
    NameNotFound(Seq<char>),
    CaptureResolutionFailure(Seq<char>),
    TypeMismatch { operation: Builtin, expected: Expected, found: DataModel },
    OperandMismatch { operation: Builtin, first: DataModel, second: DataModel },
    StackUnderflow(Builtin),
    UserAssertionFailure,
    DivisionByZero,
    Overflow,
    NotAnInteger(Seq<char>),
    CallDepthExceeded,
    External(Seq<char>),
    UnexpectedEvent,
}

impl View for Error {
    type V = ErrorModel;

    open spec fn view(&self) -> ErrorModel {
        match *self {
            Error::NameNotFound(name) => ErrorModel::NameNotFound(name@),
            Error::CaptureResolutionFailure(name) => ErrorModel::CaptureResolutionFailure(name@),
            Error::TypeMismatch { operation, expected, found } => ErrorModel::TypeMismatch {
                operation,
                expected,
                found: found@,
            },
            Error::OperandMismatch { operation, first, second } => ErrorModel::OperandMismatch {
                operation,
                first: first@,
                second: second@,
            },
            Error::StackUnderflow(operation) => ErrorModel::StackUnderflow(operation),
            Error::UserAssertionFailure => ErrorModel::UserAssertionFailure,
            Error::DivisionByZero => ErrorModel::DivisionByZero,
            Error::Overflow => ErrorModel::Overflow,
            Error::NotAnInteger(text) => ErrorModel::NotAnInteger(text@),
            Error::CallDepthExceeded => ErrorModel::CallDepthExceeded,
            Error::External(message) => ErrorModel::External(message@),
            Error::UnexpectedEvent => ErrorModel::UnexpectedEvent,
        }
    }
}


/// Why a source text is no program.
#[derive(Clone, Copy, Debug, PartialEq, Eq, Structural)]
pub enum SyntaxErrorKind {
    /// A string that opens with two quotes has no two quotes to close it.
    UnterminatedString,
    /// The digits spell an integer that does not fit in 64 bits.
    NumberTooLarge,
    /// A `)` closes what no `(` opened.
    TooManyClosers,
    /// A capture mark is not followed by a name.
    ExpectIdentifierForCapture,
    /// A `(` is never closed.
    BlockNotEnded,
    /// A decimal was handed to the parser as text.
    DecimalNotRead,
}

/// A fault in a source text, with the line on which it was found.
#[derive(Clone, Copy, Debug, PartialEq, Eq, Structural)]
pub struct SyntaxError {
    pub line: u64,
    pub kind: SyntaxErrorKind,
}

} // verus!
