use vstd::prelude::*;

use crate::token::{Token, TokenModel};

verus! {

/// What a parser was looking for when it failed.
#[derive(Debug)]
pub enum Expected {
    Name,
    Token(Token),
    TypeRef,
    Field,
    Value,
    ClosingBracket,
}

/// Every failure of a parse pass. All of them are fatal to that pass.
#[derive(Debug)]
pub enum ParseError {
    /// A token was found where something else was required.
    UnexpectedToken { expected: Expected, found: Token },
    /// The tokens ran out where something was required.
    UnexpectedEof { expected: Expected },
    /// A string literal reached the end of the input before its closing quote.
    UnterminatedString,
    /// A character that starts no token; `None` when the input ended instead.
    UnexpectedChar { found: Option<char> },
    /// A numeric literal that is neither an `i64` nor a float literal.
    InvalidNumberLiteral,
}

pub enum ExpectedModel {
    Name,
    Token(TokenModel),
    TypeRef,
    Field,
    Value,
    ClosingBracket,
}

pub enum ErrorModel {
    UnexpectedToken { expected: ExpectedModel, found: TokenModel },
    UnexpectedEof { expected: ExpectedModel },
    UnterminatedString,
    UnexpectedChar { found: Option<char> },
    InvalidNumberLiteral,
}

impl View for Expected {
    type V = ExpectedModel;

    open spec fn view(&self) -> ExpectedModel {
        match self {
            Expected::Name => ExpectedModel::Name,
            Expected::Token(t) => ExpectedModel::Token(t@),
            Expected::TypeRef => ExpectedModel::TypeRef,
            Expected::Field => ExpectedModel::Field,
            Expected::Value => ExpectedModel::Value,
            Expected::ClosingBracket => ExpectedModel::ClosingBracket,
        }
    }
}

impl View for ParseError {
    type V = ErrorModel;

    open spec fn view(&self) -> ErrorModel {
        match self {
            ParseError::UnexpectedToken { expected, found } => ErrorModel::UnexpectedToken {
                expected: expected@,
                found: found@,
            },
            ParseError::UnexpectedEof { expected } => ErrorModel::UnexpectedEof {
                expected: expected@,
            },
            ParseError::UnterminatedString => ErrorModel::UnterminatedString,
            ParseError::UnexpectedChar { found } => ErrorModel::UnexpectedChar { found: *found },
            ParseError::InvalidNumberLiteral => ErrorModel::InvalidNumberLiteral,
        }
    }
}

} // verus!
