use vstd::prelude::*;

use crate::chars::{
    chars_of, is_alphabetic, is_alphanumeric, is_digit, is_white_space, letter, letter_or_digit,
    text_of, white_space,
};
use crate::error::{ErrorModel, ParseError};
use crate::expect::text_is;
use crate::grammar::prepend_all;
use crate::number::{float_literal, int_literal, int_literal_of, is_float_literal};
use crate::token::{token_models, Token, TokenModel};

verus! {

// ---- the token grammar ----

/// Characters that separate tokens and mean nothing: white space and commas.
pub open spec fn insignificant(c: char) -> bool {
    white_space(c) || c == ','
}

/// The position of the first significant character at or after `p`.
pub open spec fn skip_insignificant(s: Seq<char>, p: int) -> int
    decreases s.len() - p,
{
    if 0 <= p < s.len() && insignificant(s[p]) {
        skip_insignificant(s, p + 1)
    } else {
        p
    }
}

/// The token that a single punctuation character stands for.
pub open spec fn punctuation(c: char) -> Option<TokenModel> {
    if c == '{' {
        Some(TokenModel::BraceOpen)
    } else if c == '}' {
        Some(TokenModel::BraceClose)
    } else if c == '(' {
        Some(TokenModel::ParenOpen)
    } else if c == ')' {
        Some(TokenModel::ParenClose)
    } else if c == '[' {
        Some(TokenModel::BracketOpen)
    } else if c == ']' {
        Some(TokenModel::BracketClose)
    } else if c == ':' {
        Some(TokenModel::Colon)
    } else if c == '=' {
        Some(TokenModel::Equals)
    } else if c == '@' {
        Some(TokenModel::At)
    } else if c == '$' {
        Some(TokenModel::Dollar)
    } else if c == '!' {
        Some(TokenModel::Bang)
    } else if c == '|' {
        Some(TokenModel::Pipe)
    } else if c == '&' {
        Some(TokenModel::Ampersand)
    } else if c == ',' {
        Some(TokenModel::Comma)
    } else {
        None
    }
}

/// The position after a line comment whose text starts at `p`: past the end
/// of the line, or the end of the input.
pub open spec fn comment_end(s: Seq<char>, p: int) -> int
    decreases s.len() - p,
{
    if p < 0 || p >= s.len() {
        p
    } else if s[p] == '\n' {
        p + 1
    } else {
        comment_end(s, p + 1)
    }
}

/// The position after a block string whose content starts at `p`: past the
/// closing `"""`, or the end of the input.
pub open spec fn block_string_end(s: Seq<char>, p: int) -> int
    decreases s.len() - p,
{
    if p < 0 || p >= s.len() {
        p
    } else if s[p] == '"' && p + 1 < s.len() && s[p + 1] == '"' {
        if p + 2 < s.len() && s[p + 2] == '"' {
            p + 3
        } else {
            block_string_end(s, p + 2)
        }
    } else {
        block_string_end(s, p + 1)
    }
}

/// The position of the first `"` at or after `p`, or the end of the input.
pub open spec fn quote_at_or_after(s: Seq<char>, p: int) -> int
    decreases s.len() - p,
{
    if p < 0 || p >= s.len() {
        p
    } else if s[p] == '"' {
        p
    } else {
        quote_at_or_after(s, p + 1)
    }
}

pub open spec fn name_char(c: char) -> bool {
    letter_or_digit(c) || c == '_'
}

pub open spec fn number_char(c: char) -> bool {
    is_digit(c) || c == '.' || c == 'e' || c == 'E' || c == '-' || c == '+'
}

/// The end of the run of name characters that starts at `p`.
pub open spec fn name_end(s: Seq<char>, p: int) -> int
    decreases s.len() - p,
{
    if 0 <= p < s.len() && name_char(s[p]) {
        name_end(s, p + 1)
    } else {
        p
    }
}

/// The end of the run of number characters that starts at `p`.
pub open spec fn number_end(s: Seq<char>, p: int) -> int
    decreases s.len() - p,
{
    if 0 <= p < s.len() && number_char(s[p]) {
        number_end(s, p + 1)
    } else {
        p
    }
}

/// A word is a name, except the literals `true`, `false` and `null`.
pub open spec fn word_token(w: Seq<char>) -> TokenModel {
    if w == "true"@ {
        TokenModel::Boolean(true)
    } else if w == "false"@ {
        TokenModel::Boolean(false)
    } else if w == "null"@ {
        TokenModel::Null
    } else {
        TokenModel::Name(w)
    }
}

/// A number with a `.` is a float literal, any other an `i64`.
pub open spec fn number_token(t: Seq<char>) -> Result<TokenModel, ErrorModel> {
    if t.contains('.') {
        if float_literal(t) {
            Ok(TokenModel::Float(t))
        } else {
            Err(ErrorModel::InvalidNumberLiteral)
        }
    } else {
        match int_literal(t) {
            Some(n) => Ok(TokenModel::Int(n)),
            None => Err(ErrorModel::InvalidNumberLiteral),
        }
    }
}

/// The character at `p`, if the input goes that far.
pub open spec fn char_at(s: Seq<char>, p: int) -> Option<char> {
    if 0 <= p < s.len() {
        Some(s[p])
    } else {
        None
    }
}

/// The next token of `s` from position `p`, and the position after it.
/// Comments and block strings are passed over; the end of the input gives
/// `Eof`.
pub open spec fn next_token_spec(s: Seq<char>, p: int) -> (Result<TokenModel, ErrorModel>, int)
    decreases s.len() - p,
{
    let q = skip_insignificant(s, p);
    if q < 0 || q >= s.len() {
        (Ok(TokenModel::Eof), q)
    } else {
        let c = s[q];
        if punctuation(c) is Some {
            (Ok(punctuation(c)->Some_0), q + 1)
        } else if c == '.' {
            if char_at(s, q + 1) == Some('.') {
                if char_at(s, q + 2) == Some('.') {
                    (Ok(TokenModel::Ellipsis), q + 3)
                } else if q + 2 < s.len() {
                    (Err(ErrorModel::UnexpectedChar { found: Some(s[q + 2]) }), q + 3)
                } else {
                    (Err(ErrorModel::UnexpectedChar { found: None }), q + 2)
                }
            } else {
                (Err(ErrorModel::UnexpectedChar { found: Some('.') }), q + 1)
            }
        } else if c == '"' {
            if char_at(s, q + 1) == Some('"') {
                if char_at(s, q + 2) == Some('"') {
                    let e = block_string_end(s, q + 3);
                    if e <= p || e > s.len() {
                        (Err(ErrorModel::UnexpectedChar { found: None }), e)
                    } else {
                        next_token_spec(s, e)
                    }
                } else {
                    (Ok(TokenModel::Str(Seq::empty())), q + 2)
                }
            } else {
                let e = quote_at_or_after(s, q + 1);
                if e < s.len() {
                    (Ok(TokenModel::Str(s.subrange(q + 1, e))), e + 1)
                } else {
                    (Err(ErrorModel::UnterminatedString), s.len() as int)
                }
            }
        } else if letter(c) || c == '_' {
            let e = name_end(s, q + 1);
            (Ok(word_token(s.subrange(q, e))), e)
        } else if is_digit(c) || c == '-' {
            let e = number_end(s, q + 1);
            (number_token(s.subrange(q, e)), e)
        } else if c == '#' {
            let e = comment_end(s, q + 1);
            if e <= p || e > s.len() {
                (Err(ErrorModel::UnexpectedChar { found: None }), e)
            } else {
                next_token_spec(s, e)
            }
        } else {
            (Err(ErrorModel::UnexpectedChar { found: Some(c) }), q + 1)
        }
    }
}

/// All tokens of `s` from `p` up to its end (without `Eof`), or the first
/// lexical error.
pub open spec fn tokens_from(s: Seq<char>, p: int) -> Result<Seq<TokenModel>, ErrorModel>
    decreases s.len() - p,
{
    let (r, q) = next_token_spec(s, p);
    match r {
        Err(e) => Err(e),
        Ok(TokenModel::Eof) => Ok(Seq::empty()),
        Ok(t) => if q <= p || q > s.len() {
            Err(ErrorModel::UnexpectedChar { found: None })
        } else {
            prepend_all(seq![t], tokens_from(s, q))
        },
    }
}

/// The token sequence of a whole source text.
pub open spec fn tokens_spec(s: Seq<char>) -> Result<Seq<TokenModel>, ErrorModel> {
    tokens_from(s, 0)
}

/// The model of a lexing result.
pub open spec fn token_result(r: Result<Token, ParseError>) -> Result<TokenModel, ErrorModel> {
    match r {
        Ok(t) => Ok(t@),
        Err(e) => Err(e@),
    }
}

// ---- the lexer ----

fn is_number_char(c: char) -> (r: bool)
    ensures
        r == number_char(c),
{
    ('0' <= c && c <= '9') || c == '.' || c == 'e' || c == 'E' || c == '-' || c == '+'
}

/// A single forward pass over a source text, one token at a time.
pub struct Lexer {
    chars: Vec<char>,
    pos: usize,
}

impl Lexer {
    /// The text being read.
    pub closed spec fn source(&self) -> Seq<char> {
        self.chars@
    }

    /// How many characters have been read.
    pub closed spec fn position(&self) -> int {
        self.pos as int
    }

    pub open spec fn wf(&self) -> bool {
        0 <= self.position() <= self.source().len()
    }

    pub fn new(src: &str) -> (r: Lexer)
        ensures
            r.wf(),
            r.source() == src@,
            r.position() == 0,
    {
        Lexer { chars: chars_of(src), pos: 0 }
    }

    fn bump(&mut self) -> (r: Option<char>)
        requires
            old(self).wf(),
        ensures
            final(self).wf(),
            final(self).source() == old(self).source(),
            r == char_at(old(self).source(), old(self).position()),
            final(self).position() == if r is Some {
                old(self).position() + 1
            } else {
                old(self).position()
            },
    {
        if self.pos < self.chars.len() {
            let c = self.chars[self.pos];
            self.pos += 1;
            Some(c)
        } else {
            None
        }
    }

    fn peek(&self) -> (r: Option<char>)
        requires
            self.wf(),
        ensures
            r == char_at(self.source(), self.position()),
    {
        if self.pos < self.chars.len() {
            Some(self.chars[self.pos])
        } else {
            None
        }
    }

    fn skip_whitespace(&mut self)
        requires
            old(self).wf(),
        ensures
            final(self).wf(),
            final(self).source() == old(self).source(),
            final(self).position() == skip_insignificant(old(self).source(), old(self).position()),
            old(self).position() <= final(self).position(),
    {
        while self.pos < self.chars.len() && (is_white_space(self.chars[self.pos]) || self.chars[self.pos] == ',')
            invariant
                self.wf(),
                self.source() == old(self).source(),
                old(self).position() <= self.position(),
                skip_insignificant(self.source(), self.position()) == skip_insignificant(
                    old(self).source(),
                    old(self).position(),
                ),
            decreases self.chars@.len() - self.pos,
        {
            self.pos += 1;
        }
    }

    /// Reads a string literal whose opening quote is just behind.
    fn read_string(&mut self) -> (r: Result<Token, ParseError>)
        requires
            old(self).wf(),
        ensures
            final(self).wf(),
            final(self).source() == old(self).source(),
            old(self).position() <= final(self).position(),
            ({
                let s = old(self).source();
                let e = quote_at_or_after(s, old(self).position());
                if e < s.len() {
                    token_result(r) == Ok::<_, ErrorModel>(
                        TokenModel::Str(s.subrange(old(self).position(), e)),
                    ) && final(self).position() == e + 1
                } else {
                    token_result(r) == Err::<TokenModel, _>(ErrorModel::UnterminatedString)
                        && final(self).position() == s.len()
                }
            }),
    {
        let start = self.pos;
        while self.pos < self.chars.len() && self.chars[self.pos] != '"'
            invariant
                self.wf(),
                self.source() == old(self).source(),
                start == old(self).position(),
                start <= self.pos,
                quote_at_or_after(self.source(), self.position()) == quote_at_or_after(
                    self.source(),
                    start as int,
                ),
            decreases self.chars@.len() - self.pos,
        {
            self.pos += 1;
        }
        if self.pos < self.chars.len() {
            let text = text_of(&self.chars, start, self.pos);
            self.pos += 1;
            Ok(Token::String(text))
        } else {
            Err(ParseError::UnterminatedString)
        }
    }

    /// Reads a name or a keyword literal whose first character is just behind.
    fn read_name_or_keyword(&mut self) -> (r: Token)
        requires
            old(self).wf(),
            old(self).position() >= 1,
        ensures
            final(self).wf(),
            final(self).source() == old(self).source(),
            final(self).position() == name_end(old(self).source(), old(self).position()),
            old(self).position() <= final(self).position(),
            r@ == word_token(
                old(self).source().subrange(old(self).position() - 1, final(self).position()),
            ),
    {
        let start = self.pos - 1;
        while self.pos < self.chars.len() && (is_alphanumeric(self.chars[self.pos]) || self.chars[self.pos] == '_')
            invariant
                self.wf(),
                self.source() == old(self).source(),
                old(self).position() <= self.position(),
                name_end(self.source(), self.position()) == name_end(
                    self.source(),
                    old(self).position(),
                ),
            decreases self.chars@.len() - self.pos,
        {
            self.pos += 1;
        }
        let word = text_of(&self.chars, start, self.pos);
        if text_is(&word, "true") {
            Token::Boolean(true)
        } else if text_is(&word, "false") {
            Token::Boolean(false)
        } else if text_is(&word, "null") {
            Token::Null
        } else {
            Token::Name(word)
        }
    }

    /// Reads a number whose first character is just behind.
    fn read_number(&mut self) -> (r: Result<Token, ParseError>)
        requires
            old(self).wf(),
            old(self).position() >= 1,
        ensures
            final(self).wf(),
            final(self).source() == old(self).source(),
            final(self).position() == number_end(old(self).source(), old(self).position()),
            old(self).position() <= final(self).position(),
            token_result(r) == number_token(
                old(self).source().subrange(old(self).position() - 1, final(self).position()),
            ),
    {
        let start = self.pos - 1;
        let mut has_point = false;
        while self.pos < self.chars.len() && is_number_char(self.chars[self.pos])
            invariant
                self.wf(),
                self.source() == old(self).source(),
                old(self).position() <= self.position(),
                number_end(self.source(), self.position()) == number_end(
                    self.source(),
                    old(self).position(),
                ),
            decreases self.chars@.len() - self.pos,
        {
            self.pos += 1;
        }
        let ghost text = self.chars@.subrange(start as int, self.pos as int);
        let mut i = start;
        while i < self.pos
            invariant
                start <= i <= self.pos <= self.chars@.len(),
                has_point == self.chars@.subrange(start as int, i as int).contains('.'),
            decreases self.pos - i,
        {
            let ghost prev = self.chars@.subrange(start as int, i as int);
            if self.chars[i] == '.' {
                has_point = true;
            }
            i += 1;
            proof {
                let now = self.chars@.subrange(start as int, i as int);
                assert(now =~= prev.push(self.chars@[i - 1]));
                if self.chars@[i - 1] == '.' {
                    assert(now[now.len() - 1] == '.');
                } else {
                    if prev.contains('.') {
                        let k = choose|k: int| 0 <= k < prev.len() && prev[k] == '.';
                        assert(now[k] == '.');
                    }
                    if now.contains('.') {
                        let k = choose|k: int| 0 <= k < now.len() && now[k] == '.';
                        assert(k < prev.len());
                        assert(prev[k] == '.');
                    }
                }
            }
        }
        if has_point {
            if is_float_literal(&self.chars, start, self.pos) {
                Ok(Token::Float(text_of(&self.chars, start, self.pos)))
            } else {
                Err(ParseError::InvalidNumberLiteral)
            }
        } else {
            match int_literal_of(&self.chars, start, self.pos) {
                Some(n) => Ok(Token::Int(n)),
                None => Err(ParseError::InvalidNumberLiteral),
            }
        }
    }
    fn peek_is(&self, c: char) -> (r: bool)
        requires
            self.wf(),
        ensures
            r == (char_at(self.source(), self.position()) == Some(c)),
    {
        self.pos < self.chars.len() && self.chars[self.pos] == c
    }

    /// Passes over the rest of a line comment.
    fn skip_comment(&mut self)
        requires
            old(self).wf(),
        ensures
            final(self).wf(),
            final(self).source() == old(self).source(),
            final(self).position() == comment_end(old(self).source(), old(self).position()),
            old(self).position() <= final(self).position(),
    {
        while self.pos < self.chars.len() && self.chars[self.pos] != '\n'
            invariant
                self.wf(),
                self.source() == old(self).source(),
                old(self).position() <= self.position(),
                comment_end(self.source(), self.position()) == comment_end(
                    old(self).source(),
                    old(self).position(),
                ),
            decreases self.chars@.len() - self.pos,
        {
            self.pos += 1;
        }
        if self.pos < self.chars.len() {
            self.pos += 1;
        }
    }

    /// Passes over the rest of a block string, up to and including its
    /// closing `"""`.
    fn skip_block_string(&mut self)
        requires
            old(self).wf(),
        ensures
            final(self).wf(),
            final(self).source() == old(self).source(),
            final(self).position() == block_string_end(old(self).source(), old(self).position()),
            old(self).position() <= final(self).position(),
    {
        loop
            invariant
                self.wf(),
                self.source() == old(self).source(),
                old(self).position() <= self.position(),
                block_string_end(self.source(), self.position()) == block_string_end(
                    old(self).source(),
                    old(self).position(),
                ),
            decreases self.chars@.len() - self.pos,
        {
            match self.bump() {
                None => return ,
                Some(c) => {
                    if c == '"' && self.peek_is('"') {
                        self.bump();
                        if self.peek_is('"') {
                            self.bump();
                            return ;
                        }
                    }
                },
            }
        }
    }

    /// Reads the next token. At the end of the input this is `EOF`, and stays
    /// so.
    pub fn next_token(&mut self) -> (r: Result<Token, ParseError>)
        requires
            old(self).wf(),
        ensures
            final(self).wf(),
            final(self).source() == old(self).source(),
            next_token_spec(old(self).source(), old(self).position()) == (
                token_result(r),
                final(self).position(),
            ),
            r is Ok && !(r->Ok_0 is EOF) ==> old(self).position() < final(self).position(),
    {
        let ghost s = self.source();
        let ghost p0 = self.position();
        loop
            invariant
                self.wf(),
                self.source() == s,
                s == old(self).source(),
                p0 == old(self).position(),
                p0 <= self.position(),
                next_token_spec(s, p0) == next_token_spec(s, self.position()),
            decreases self.chars@.len() - self.pos,
        {
            let ghost p = self.position();
            self.skip_whitespace();
            let ghost q = self.position();
            let c = match self.bump() {
                None => return Ok(Token::EOF),
                Some(c) => c,
            };
            assert(s[q] == c);
            match punctuation_token(c) {
                Some(t) => return Ok(t),
                None => {},
            }
            if c == '.' {
                if self.peek_is('.') {
                    self.bump();
                    return match self.bump() {
                        Some(d) => if d == '.' {
                            Ok(Token::Ellipsis)
                        } else {
                            Err(ParseError::UnexpectedChar { found: Some(d) })
                        },
                        None => Err(ParseError::UnexpectedChar { found: None }),
                    };
                }
                return Err(ParseError::UnexpectedChar { found: Some('.') });
            } else if c == '"' {
                if self.peek_is('"') {
                    self.bump();
                    if self.peek_is('"') {
                        self.bump();
                        self.skip_block_string();
                        continue ;
                    }
                    return Ok(Token::String(String::new()));
                }
                return self.read_string();
            } else if is_alphabetic(c) || c == '_' {
                return Ok(self.read_name_or_keyword());
            } else if ('0' <= c && c <= '9') || c == '-' {
                return self.read_number();
            } else if c == '#' {
                self.skip_comment();
                continue ;
            } else {
                return Err(ParseError::UnexpectedChar { found: Some(c) });
            }
        }
    }

    /// The next token as an item of a sequence: `None` at the end of the
    /// input.
    pub fn next(&mut self) -> (r: Option<Result<Token, ParseError>>)
        requires
            old(self).wf(),
        ensures
            final(self).wf(),
            final(self).source() == old(self).source(),
            match r {
                None => next_token_spec(old(self).source(), old(self).position()) == (
                    Ok::<_, ErrorModel>(TokenModel::Eof),
                    final(self).position(),
                ),
                Some(t) => next_token_spec(old(self).source(), old(self).position()) == (
                    token_result(t),
                    final(self).position(),
                ) && token_result(t) != Ok::<_, ErrorModel>(TokenModel::Eof),
            },
    {
        match self.next_token() {
            Ok(Token::EOF) => None,
            other => Some(other),
        }
    }
}

fn punctuation_token(c: char) -> (r: Option<Token>)
    ensures
        match r {
            Some(t) => punctuation(c) == Some(t@),
            None => punctuation(c) is None,
        },
{
    if c == '{' {
        Some(Token::BraceOpen)
    } else if c == '}' {
        Some(Token::BraceClose)
    } else if c == '(' {
        Some(Token::ParenOpen)
    } else if c == ')' {
        Some(Token::ParenClose)
    } else if c == '[' {
        Some(Token::BracketOpen)
    } else if c == ']' {
        Some(Token::BracketClose)
    } else if c == ':' {
        Some(Token::Colon)
    } else if c == '=' {
        Some(Token::Equals)
    } else if c == '@' {
        Some(Token::At)
    } else if c == '$' {
        Some(Token::Dollar)
    } else if c == '!' {
        Some(Token::Bang)
    } else if c == '|' {
        Some(Token::Pipe)
    } else if c == '&' {
        Some(Token::Ampersand)
    } else if c == ',' {
        Some(Token::Comma)
    } else {
        None
    }
}

/// Reads all tokens of `schema_content`, without the final `EOF`; the first
/// lexical error ends the pass.
pub fn generate_tokens(schema_content: &str) -> (r: Result<Vec<Token>, ParseError>)
    ensures
        match r {
            Ok(ts) => tokens_spec(schema_content@) == Ok::<_, ErrorModel>(token_models(ts@)),
            Err(e) => tokens_spec(schema_content@) == Err::<Seq<TokenModel>, _>(e@),
        },
{
    let ghost s = schema_content@;
    let mut lexer = Lexer::new(schema_content);
    let mut tokens: Vec<Token> = Vec::new();
    loop
        invariant
            lexer.wf(),
            lexer.source() == s,
            s == schema_content@,
            tokens_spec(s) == prepend_all(token_models(tokens@), tokens_from(s, lexer.position())),
        decreases s.len() - lexer.position(),
    {
        let ghost p = lexer.position();
        match lexer.next_token() {
            Err(e) => return Err(e),
            Ok(Token::EOF) => {
                assert(token_models(tokens@) + Seq::<TokenModel>::empty() =~= token_models(tokens@));
                return Ok(tokens);
            },
            Ok(t) => {
                let ghost before = tokens@;
                let ghost rest = tokens_from(s, lexer.position());
                let ghost tm = t@;
                tokens.push(t);
                proof {
                    assert(token_models(tokens@) =~= token_models(before).push(tm));
                    match rest {
                        Ok(r) => {
                            assert(token_models(before) + (seq![tm] + r) =~= token_models(tokens@) + r);
                        },
                        Err(_) => {},
                    }
                }
            },
        }
    }
}

} // verus!
