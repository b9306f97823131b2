//! The names under which programs reach the native operations.

use vstd::prelude::*;
use crate::data::{Builtin, IntegerOp, Kind, NumberOp};

verus! {

/// The name of the operations that look at the kind of a value. The check
/// of a kind goes by the name of the assertion of that kind.
pub open spec fn kind_name(kind: Kind) -> Seq<char> {
    match kind {
        Kind::String => "String!"@,
        Kind::Integer => "Integer!"@,
        Kind::Decimal => "Decimal!"@,
        Kind::List => "List!"@,
        Kind::Dict => "Dict!"@,
        Kind::Box => "Box!"@,
        Kind::Block => "Block!"@,
        Kind::Fn => "Fn!"@,
        Kind::External => "External!"@,
    }
}

/// The name of a native operation.
pub open spec fn builtin_name(func: Builtin) -> Seq<char> {
    match func {
        Builtin::DefFn => "Def-fn"@,
        Builtin::Def => "Def"@,
        Builtin::If => "If"@,
        Builtin::Do => "Do"@,
        Builtin::DoLocal => "Do-local"@,
        Builtin::GetFn => "Get-fn"@,
        Builtin::GetDef => "Get-def"@,
        Builtin::HasDef => "Has-def"@,
        Builtin::Print => "Print"@,
        Builtin::Debug => "Debug"@,
        Builtin::Timer => "Timer"@,
        Builtin::Assert => "Assert"@,
        Builtin::UseFile => "Use-file"@,
        Builtin::TryUseFile => "Try-use-file"@,
        Builtin::AnyAssert => "Any!"@,
        Builtin::AnyCheck => "Any?"@,
        Builtin::Drop => "Drop"@,
        Builtin::NewExt => "New-ext"@,
        Builtin::UseExt => "Use-ext"@,
        Builtin::ToInteger => "To-integer"@,
        Builtin::ToDecimal => "To-decimal"@,
        Builtin::ToString => "To-string"@,
        Builtin::ToList => "To-list"@,
        Builtin::StringJoin => "String-join"@,
        Builtin::StringChars => "String-chars"@,
        Builtin::List => "List"@,
        Builtin::ListReverse => "List-reverse"@,
        Builtin::ListStack => "List-stack"@,
        Builtin::ListSwapStack => "List-swap-stack"@,
        Builtin::ListToStack => "List-to-stack"@,
        Builtin::Number(NumberOp::Add) => "+"@,
        Builtin::Number(NumberOp::Sub) => "-"@,
        Builtin::Number(NumberOp::Mul) => "*"@,
        Builtin::Number(NumberOp::Div) => "/"@,
        Builtin::Number(NumberOp::Rem) => "%"@,
        Builtin::Integer(IntegerOp::And) => "And"@,
        Builtin::Integer(IntegerOp::Xor) => "Xor"@,
        Builtin::Integer(IntegerOp::Or) => "Or"@,
        Builtin::Integer(IntegerOp::Eq) => "=="@,
        Builtin::Integer(IntegerOp::Ne) => "!="@,
        Builtin::Integer(IntegerOp::Lt) => "<"@,
        Builtin::Integer(IntegerOp::Le) => "<="@,
        Builtin::Integer(IntegerOp::Gt) => ">"@,
        Builtin::Integer(IntegerOp::Ge) => ">="@,
        Builtin::Neg => "Neg"@,
        Builtin::ToBool => "To-bool"@,
        Builtin::Not => "Not"@,
        Builtin::TypeAssert(kind) => kind_name(kind),
        Builtin::TypeCheck(kind) => kind_name(kind),
    }
}

/// The word for a kind of value.
pub open spec fn kind_word(kind: Kind) -> Seq<char> {
    match kind {
        Kind::String => "String"@,
        Kind::Integer => "Integer"@,
        Kind::Decimal => "Decimal"@,
        Kind::List => "List"@,
        Kind::Dict => "Dict"@,
        Kind::Box => "Box"@,
        Kind::Block => "Block"@,
        Kind::Fn => "Fn"@,
        Kind::External => "External"@,
    }
}

impl Kind {
    /// The word for this kind.
    pub fn word(self) -> (res: &'static str)
        ensures
            res@ == kind_word(self),
    {
        match self {
            Kind::String => "String",
            Kind::Integer => "Integer",
            Kind::Decimal => "Decimal",
            Kind::List => "List",
            Kind::Dict => "Dict",
            Kind::Box => "Box",
            Kind::Block => "Block",
            Kind::Fn => "Fn",
            Kind::External => "External",
        }
    }
}

fn kind_str(kind: Kind) -> (res: &'static str)
    ensures
        res@ == kind_name(kind),
{
    match kind {
        Kind::String => "String!",
        Kind::Integer => "Integer!",
        Kind::Decimal => "Decimal!",
        Kind::List => "List!",
        Kind::Dict => "Dict!",
        Kind::Box => "Box!",
        Kind::Block => "Block!",
        Kind::Fn => "Fn!",
        Kind::External => "External!",
    }
}

impl Builtin {
    /// The name of this operation.
    pub fn name(self) -> (res: &'static str)
        ensures
            res@ == builtin_name(self),
    {
        match self {
            Builtin::DefFn => "Def-fn",
            Builtin::Def => "Def",
            Builtin::If => "If",
            Builtin::Do => "Do",
            Builtin::DoLocal => "Do-local",
            Builtin::GetFn => "Get-fn",
            Builtin::GetDef => "Get-def",
            Builtin::HasDef => "Has-def",
            Builtin::Print => "Print",
            Builtin::Debug => "Debug",
            Builtin::Timer => "Timer",
            Builtin::Assert => "Assert",
            Builtin::UseFile => "Use-file",
            Builtin::TryUseFile => "Try-use-file",
            Builtin::AnyAssert => "Any!",
            Builtin::AnyCheck => "Any?",
            Builtin::Drop => "Drop",
            Builtin::NewExt => "New-ext",
            Builtin::UseExt => "Use-ext",
            Builtin::ToInteger => "To-integer",
            Builtin::ToDecimal => "To-decimal",
            Builtin::ToString => "To-string",
            Builtin::ToList => "To-list",
            Builtin::StringJoin => "String-join",
            Builtin::StringChars => "String-chars",
            Builtin::List => "List",
            Builtin::ListReverse => "List-reverse",
            Builtin::ListStack => "List-stack",
            Builtin::ListSwapStack => "List-swap-stack",
            Builtin::ListToStack => "List-to-stack",
            Builtin::Number(NumberOp::Add) => "+",
            Builtin::Number(NumberOp::Sub) => "-",
            Builtin::Number(NumberOp::Mul) => "*",
            Builtin::Number(NumberOp::Div) => "/",
            Builtin::Number(NumberOp::Rem) => "%",
            Builtin::Integer(IntegerOp::And) => "And",
            Builtin::Integer(IntegerOp::Xor) => "Xor",
            Builtin::Integer(IntegerOp::Or) => "Or",
            Builtin::Integer(IntegerOp::Eq) => "==",
            Builtin::Integer(IntegerOp::Ne) => "!=",
            Builtin::Integer(IntegerOp::Lt) => "<",
            Builtin::Integer(IntegerOp::Le) => "<=",
            Builtin::Integer(IntegerOp::Gt) => ">",
            Builtin::Integer(IntegerOp::Ge) => ">=",
            Builtin::Neg => "Neg",
            Builtin::ToBool => "To-bool",
            Builtin::Not => "Not",
            Builtin::TypeAssert(kind) => kind_str(kind),
            Builtin::TypeCheck(kind) => kind_str(kind),
        }
    }
}

} // verus!
