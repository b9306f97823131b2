//! The tokens that the scanner hands to the parser.

use vstd::prelude::*;

verus! {

/// A token and the line on which it ends.
#[derive(Debug, PartialEq)]
pub struct Token {
    pub typ: TokenData,
    pub line: u64,
}

/// What a token says.
#[derive(Debug, PartialEq)]
pub enum TokenData {
    Identifier(String),
    String(String),
    Integer(i64),
    /// A decimal, as the bit pattern of its 64-bit value.
    Decimal(u64),
    /// A decimal as the scanner found it: its text. The host reads it and
    /// puts the `Decimal` in its place before the tokens are parsed.
    DecimalText(String),
    Semicolon,
    LeftParen,
    RightParen,
    /// The mark in front of a name that is to be captured.
    Capture,
}

/// The mathematical content of what a token says.
pub enum TokenDataModel {
    Identifier(Seq<char>),
    String(Seq<char>),
    Integer(i64),
    Decimal(u64),
    DecimalText(Seq<char>),
    Semicolon,
    LeftParen,
    RightParen,
    Capture,
}

/// The mathematical content of a token.
pub struct TokenModel {
    pub typ: TokenDataModel,
    pub line: u64,
}

impl View for TokenData {
    type V = TokenDataModel;

    open spec fn view(&self) -> TokenDataModel {
        match *self {
            TokenData::Identifier(name) => TokenDataModel::Identifier(name@),
            TokenData::String(text) => TokenDataModel::String(text@),
            TokenData::Integer(n) => TokenDataModel::Integer(n),
            TokenData::Decimal(bits) => TokenDataModel::Decimal(bits),
            TokenData::DecimalText(text) => TokenDataModel::DecimalText(text@),
            TokenData::Semicolon => TokenDataModel::Semicolon,
            TokenData::LeftParen => TokenDataModel::LeftParen,
            TokenData::RightParen => TokenDataModel::RightParen,
            TokenData::Capture => TokenDataModel::Capture,
        }
    }
}

impl View for Token {
    type V = TokenModel;

    open spec fn view(&self) -> TokenModel {
        TokenModel { typ: self.typ@, line: self.line }
    }
}

/// The content of a list of tokens, token for token.
pub open spec fn tokens_view(tokens: Seq<Token>) -> Seq<TokenModel> {
    Seq::new(tokens.len(), |i: int| tokens[i]@)
}

} // verus!
