//! Human-readable text of tokens and errors.
use vstd::prelude::*;

use crate::chars::{concat, text_of};
use crate::error::{ErrorModel, Expected, ExpectedModel, ParseError};
use crate::token::{Token, TokenModel};

verus! {

/// What `<str as Debug>` writes for `s`: the text in double quotes, with
/// escapes.
pub uninterp spec fn debug_quoted(s: Seq<char>) -> Seq<char>;

/// The character of decimal digit `d`.
pub open spec fn digit_char(d: nat) -> char {
    if d == 0 {
        '0'
    } else if d == 1 {
        '1'
    } else if d == 2 {
        '2'
    } else if d == 3 {
        '3'
    } else if d == 4 {
        '4'
    } else if d == 5 {
        '5'
    } else if d == 6 {
        '6'
    } else if d == 7 {
        '7'
    } else if d == 8 {
        '8'
    } else {
        '9'
    }
}

/// The decimal digits of `n`, most significant first.
pub open spec fn digits_text(n: nat) -> Seq<char>
    decreases n,
{
    if n < 10 {
        seq![digit_char(n)]
    } else {
        digits_text(n / 10).push(digit_char(n % 10))
    }
}

/// The decimal text of `n`, with a leading `-` when it is negative.
pub open spec fn decimal_text(n: int) -> Seq<char> {
    if n < 0 {
        seq!['-'] + digits_text((-n) as nat)
    } else {
        digits_text(n as nat)
    }
}

/// Relies on `<str as Debug>::fmt`: the quoted, escaped form of `s`.
#[verifier::external_body]
fn quoted(s: &String) -> (r: String)
    ensures
        r@ == debug_quoted(s@),
{
    format!("{:?}", s)
}

fn digit_of(d: u64) -> (r: char)
    requires
        d < 10,
    ensures
        r == digit_char(d as nat),
{
    if d == 0 {
        '0'
    } else if d == 1 {
        '1'
    } else if d == 2 {
        '2'
    } else if d == 3 {
        '3'
    } else if d == 4 {
        '4'
    } else if d == 5 {
        '5'
    } else if d == 6 {
        '6'
    } else if d == 7 {
        '7'
    } else if d == 8 {
        '8'
    } else {
        '9'
    }
}

/// Appends the decimal digits of `n`.
fn push_digits(n: u64, out: &mut Vec<char>)
    ensures
        final(out)@ == old(out)@ + digits_text(n as nat),
    decreases n,
{
    if n >= 10 {
        push_digits(n / 10, out);
    }
    let ghost before = out@;
    out.push(digit_of(n % 10));
    proof {
        if n >= 10 {
            assert(out@ =~= old(out)@ + digits_text(n as nat));
        } else {
            assert(out@ =~= old(out)@ + digits_text(n as nat));
        }
    }
}

/// The decimal text of `n`.
fn int_text(n: i64) -> (r: String)
    ensures
        r@ == decimal_text(n as int),
{
    let mut cs: Vec<char> = Vec::new();
    if n < 0 {
        cs.push('-');
        let m: u64 = (-(n as i128)) as u64;
        push_digits(m, &mut cs);
    } else {
        push_digits(n as u64, &mut cs);
    }
    proof {
        if n < 0 {
            assert(cs@ =~= seq!['-'] + digits_text((-n) as nat));
        } else {
            assert(cs@ =~= digits_text(n as nat));
        }
        assert(cs@.subrange(0, cs@.len() as int) =~= cs@);
    }
    text_of(&cs, 0, cs.len())
}

/// Relies on `String: From<char>`: the one-character text of `c`.
#[verifier::external_body]
fn char_text(c: char) -> (r: String)
    ensures
        r@ == seq![c],
{
    String::from(c)
}

/// How a token is shown: its variant, with its payload in parentheses.
pub open spec fn token_text(t: TokenModel) -> Seq<char> {
    match t {
        TokenModel::BraceOpen => "BraceOpen"@,
        TokenModel::BraceClose => "BraceClose"@,
        TokenModel::ParenOpen => "ParenOpen"@,
        TokenModel::ParenClose => "ParenClose"@,
        TokenModel::BracketOpen => "BracketOpen"@,
        TokenModel::BracketClose => "BracketClose"@,
        TokenModel::Colon => "Colon"@,
        TokenModel::Equals => "Equals"@,
        TokenModel::At => "At"@,
        TokenModel::Dollar => "Dollar"@,
        TokenModel::Bang => "Bang"@,
        TokenModel::Pipe => "Pipe"@,
        TokenModel::Ampersand => "Ampersand"@,
        TokenModel::Comma => "Comma"@,
        TokenModel::Ellipsis => "Ellipsis"@,
        TokenModel::Name(s) => "Name("@ + debug_quoted(s) + ")"@,
        TokenModel::Str(s) => "String("@ + debug_quoted(s) + ")"@,
        TokenModel::Int(n) => "Int("@ + decimal_text(n as int) + ")"@,
        TokenModel::Float(s) => "Float("@ + debug_quoted(s) + ")"@,
        TokenModel::Boolean(b) => if b {
            "Boolean(true)"@
        } else {
            "Boolean(false)"@
        },
        TokenModel::Null => "Null"@,
        TokenModel::Description(s) => "Description("@ + debug_quoted(s) + ")"@,
        TokenModel::Eof => "EOF"@,
    }
}

/// `Some(token)`, or `None` at the end of the tokens.
pub open spec fn found_text(found: Option<TokenModel>) -> Seq<char> {
    match found {
        Some(t) => "Some("@ + token_text(t) + ")"@,
        None => "None"@,
    }
}

/// The text of a parse failure at `found`.
pub open spec fn failure_text(expected: ExpectedModel, found: Option<TokenModel>) -> Seq<char> {
    match expected {
        ExpectedModel::Name => "Expected name, got "@ + found_text(found),
        ExpectedModel::Token(t) => "Expected "@ + token_text(t) + ", got "@ + found_text(found),
        ExpectedModel::TypeRef => "Unexpected token in type reference: "@ + found_text(found),
        ExpectedModel::Field => match found {
            Some(t) => "Unexpected token in fields: "@ + token_text(t),
            None => "Unexpected end of input in fields"@,
        },
        ExpectedModel::Value => "Unexpected token as value: "@ + found_text(found),
        ExpectedModel::ClosingBracket => "Expected closing bracket for list type"@,
    }
}

/// The text of an error.
pub open spec fn message_text(e: ErrorModel) -> Seq<char> {
    match e {
        ErrorModel::UnexpectedToken { expected, found } => failure_text(expected, Some(found)),
        ErrorModel::UnexpectedEof { expected } => failure_text(expected, None),
        ErrorModel::UnterminatedString => "Unterminated string"@,
        ErrorModel::UnexpectedChar { found } => match found {
            Some(c) => "Unexpected character: '"@ + seq![c] + "'"@,
            None => "Unexpected end of input"@,
        },
        ErrorModel::InvalidNumberLiteral => "Invalid number literal"@,
    }
}

fn literal(s: &str) -> (r: String)
    ensures
        r@ == s@,
{
    concat(String::new(), s)
}

/// `a` followed by `b`.
fn join(a: String, b: String) -> (r: String)
    ensures
        r@ == a@ + b@,
{
    concat(a, b.as_str())
}

fn wrapped(head: &str, body: String) -> (r: String)
    ensures
        r@ == head@ + body@ + ")"@,
{
    concat(join(literal(head), body), ")")
}

impl Token {
    /// The text that shows this token.
    pub fn text(&self) -> (r: String)
        ensures
            r@ == token_text(self@),
    {
        match self {
            Token::BraceOpen => literal("BraceOpen"),
            Token::BraceClose => literal("BraceClose"),
            Token::ParenOpen => literal("ParenOpen"),
            Token::ParenClose => literal("ParenClose"),
            Token::BracketOpen => literal("BracketOpen"),
            Token::BracketClose => literal("BracketClose"),
            Token::Colon => literal("Colon"),
            Token::Equals => literal("Equals"),
            Token::At => literal("At"),
            Token::Dollar => literal("Dollar"),
            Token::Bang => literal("Bang"),
            Token::Pipe => literal("Pipe"),
            Token::Ampersand => literal("Ampersand"),
            Token::Comma => literal("Comma"),
            Token::Ellipsis => literal("Ellipsis"),
            Token::Name(s) => wrapped("Name(", quoted(s)),
            Token::String(s) => wrapped("String(", quoted(s)),
            Token::Int(n) => wrapped("Int(", int_text(*n)),
            Token::Float(s) => wrapped("Float(", quoted(s)),
            Token::Boolean(b) => if *b {
                literal("Boolean(true)")
            } else {
                literal("Boolean(false)")
            },
            Token::Null => literal("Null"),
            Token::Description(s) => wrapped("Description(", quoted(s)),
            Token::EOF => literal("EOF"),
        }
    }
}

fn found_message(found: Option<&Token>) -> (r: String)
    ensures
        r@ == found_text(
            match found {
                Some(t) => Some(t@),
                None => None,
            },
        ),
{
    match found {
        Some(t) => wrapped("Some(", t.text()),
        None => literal("None"),
    }
}

fn failure_message(expected: &Expected, found: Option<&Token>) -> (r: String)
    ensures
        r@ == failure_text(
            expected@,
            match found {
                Some(t) => Some(t@),
                None => None,
            },
        ),
{
    match expected {
        Expected::Name => join(literal("Expected name, got "), found_message(found)),
        Expected::Token(t) => join(
            concat(join(literal("Expected "), t.text()), ", got "),
            found_message(found),
        ),
        Expected::TypeRef => join(literal("Unexpected token in type reference: "), found_message(found)),
        Expected::Field => match found {
            Some(t) => join(literal("Unexpected token in fields: "), t.text()),
            None => literal("Unexpected end of input in fields"),
        },
        Expected::Value => join(literal("Unexpected token as value: "), found_message(found)),
        Expected::ClosingBracket => literal("Expected closing bracket for list type"),
    }
}

impl ParseError {
    /// The text that describes this error.
    pub fn message(&self) -> (r: String)
        ensures
            r@ == message_text(self@),
    {
        match self {
            ParseError::UnexpectedToken { expected, found } => failure_message(expected, Some(found)),
            ParseError::UnexpectedEof { expected } => failure_message(expected, None),
            ParseError::UnterminatedString => literal("Unterminated string"),
            ParseError::UnexpectedChar { found } => match found {
                Some(c) => concat(join(literal("Unexpected character: '"), char_text(*c)), "'"),
                None => literal("Unexpected end of input"),
            },
            ParseError::InvalidNumberLiteral => literal("Invalid number literal"),
        }
    }
}

} // verus!
