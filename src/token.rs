use vstd::prelude::*;

verus! {

/// A lexical token of the schema language.
///
/// A floating-point literal is kept as the text that was read; its numeric
/// value is left to whoever consumes the token.
#[derive(Debug, Clone)]
pub enum Token {
    BraceOpen,
    BraceClose,
    ParenOpen,
    ParenClose,
    BracketOpen,
    BracketClose,
    Colon,
    Equals,
    At,
    Dollar,
    Bang,
    Pipe,
    Ampersand,
    Comma,
    Ellipsis,
    Name(String),
    String(String),
    Int(i64),
    Float(String),
    Boolean(bool),
    Null,
    Description(String),
    EOF,
}

/// The mathematical value of a [`Token`]: text payloads become character
/// sequences.
pub enum TokenModel {
    BraceOpen,
    BraceClose,
    ParenOpen,
    ParenClose,
    BracketOpen,
    BracketClose,
    Colon,
    Equals,
    At,
    Dollar,
    Bang,
    Pipe,
    Ampersand,
    Comma,
    Ellipsis,
    Name(Seq<char>),
    Str(Seq<char>),
    Int(i64),
    Float(Seq<char>),
    Boolean(bool),
    Null,
    Description(Seq<char>),
    Eof,
}

impl View for Token {
    type V = TokenModel;

    open spec fn view(&self) -> TokenModel {
        match self {
            Token::BraceOpen => TokenModel::BraceOpen,
            Token::BraceClose => TokenModel::BraceClose,
            Token::ParenOpen => TokenModel::ParenOpen,
            Token::ParenClose => TokenModel::ParenClose,
            Token::BracketOpen => TokenModel::BracketOpen,
            Token::BracketClose => TokenModel::BracketClose,
            Token::Colon => TokenModel::Colon,
            Token::Equals => TokenModel::Equals,
            Token::At => TokenModel::At,
            Token::Dollar => TokenModel::Dollar,
            Token::Bang => TokenModel::Bang,
            Token::Pipe => TokenModel::Pipe,
            Token::Ampersand => TokenModel::Ampersand,
            Token::Comma => TokenModel::Comma,
            Token::Ellipsis => TokenModel::Ellipsis,
            Token::Name(s) => TokenModel::Name(s@),
            Token::String(s) => TokenModel::Str(s@),
            Token::Int(n) => TokenModel::Int(*n),
            Token::Float(s) => TokenModel::Float(s@),
            Token::Boolean(b) => TokenModel::Boolean(*b),
            Token::Null => TokenModel::Null,
            Token::Description(s) => TokenModel::Description(s@),
            Token::EOF => TokenModel::Eof,
        }
    }
}

/// The models of a token sequence, position by position.
pub open spec fn token_models(tokens: Seq<Token>) -> Seq<TokenModel> {
    tokens.map_values(|t: Token| t@)
}

impl Token {
    /// A copy of this token with the same model.
    pub fn copy(&self) -> (r: Token)
        ensures
            r@ == self@,
    {
        match self {
            Token::BraceOpen => Token::BraceOpen,
            Token::BraceClose => Token::BraceClose,
            Token::ParenOpen => Token::ParenOpen,
            Token::ParenClose => Token::ParenClose,
            Token::BracketOpen => Token::BracketOpen,
            Token::BracketClose => Token::BracketClose,
            Token::Colon => Token::Colon,
            Token::Equals => Token::Equals,
            Token::At => Token::At,
            Token::Dollar => Token::Dollar,
            Token::Bang => Token::Bang,
            Token::Pipe => Token::Pipe,
            Token::Ampersand => Token::Ampersand,
            Token::Comma => Token::Comma,
            Token::Ellipsis => Token::Ellipsis,
            Token::Name(s) => Token::Name(s.clone()),
            Token::String(s) => Token::String(s.clone()),
            Token::Int(n) => Token::Int(*n),
            Token::Float(s) => Token::Float(s.clone()),
            Token::Boolean(b) => Token::Boolean(*b),
            Token::Null => Token::Null,
            Token::Description(s) => Token::Description(s.clone()),
            Token::EOF => Token::EOF,
        }
    }

    /// Whether two tokens are the same variant with the same payload.
    pub fn same_as(&self, o: &Token) -> (r: bool)
        ensures
            r == (self@ == o@),
    {
        match (self, o) {
            (Token::BraceOpen, Token::BraceOpen) => true,
            (Token::BraceClose, Token::BraceClose) => true,
            (Token::ParenOpen, Token::ParenOpen) => true,
            (Token::ParenClose, Token::ParenClose) => true,
            (Token::BracketOpen, Token::BracketOpen) => true,
            (Token::BracketClose, Token::BracketClose) => true,
            (Token::Colon, Token::Colon) => true,
            (Token::Equals, Token::Equals) => true,
            (Token::At, Token::At) => true,
            (Token::Dollar, Token::Dollar) => true,
            (Token::Bang, Token::Bang) => true,
            (Token::Pipe, Token::Pipe) => true,
            (Token::Ampersand, Token::Ampersand) => true,
            (Token::Comma, Token::Comma) => true,
            (Token::Ellipsis, Token::Ellipsis) => true,
            (Token::Name(a), Token::Name(b)) => *a == *b,
            (Token::String(a), Token::String(b)) => *a == *b,
            (Token::Int(a), Token::Int(b)) => *a == *b,
            (Token::Float(a), Token::Float(b)) => *a == *b,
            (Token::Boolean(a), Token::Boolean(b)) => *a == *b,
            (Token::Null, Token::Null) => true,
            (Token::Description(a), Token::Description(b)) => *a == *b,
            (Token::EOF, Token::EOF) => true,
            _ => false,
        }
    }
}

impl PartialEq for Token {
    fn eq(&self, o: &Token) -> (r: bool) {
        self.same_as(o)
    }
}

impl vstd::std_specs::cmp::PartialEqSpecImpl for Token {
    open spec fn obeys_eq_spec() -> bool {
        true
    }

    open spec fn eq_spec(&self, o: &Token) -> bool {
        self@ == o@
    }
}

impl Eq for Token {}

} // verus!
