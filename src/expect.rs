use vstd::prelude::*;

use crate::error::{ErrorModel, Expected, ParseError};
use crate::grammar::{expect_name_spec, expect_token_spec, take_description_spec};
use crate::token::{token_models, Token};

verus! {

/// Whether the text of `s` is `w`.
pub fn text_is(s: &String, w: &str) -> (r: bool)
    ensures
        r == (s@ == w@),
{
    let a = s.as_str();
    let n = a.unicode_len();
    if n != w.unicode_len() {
        return false;
    }
    let mut i: usize = 0;
    while i < n
        invariant
            n == a@.len(),
            n == w@.len(),
            a@ == s@,
            i <= n,
            forall|k: int| 0 <= k < i ==> a@[k] == w@[k],
        decreases n - i,
    {
        if a.get_char(i) != w.get_char(i) {
            return false;
        }
        i += 1;
    }
    assert(a@ =~= w@);
    true
}

/// Takes the name at `index` and moves past it; on failure `index` stays.
pub fn expect_name(tokens: &[Token], index: &mut usize) -> (r: Result<String, ParseError>)
    ensures
        match r {
            Ok(n) => expect_name_spec(token_models(tokens@), *old(index) as int) == Ok::<
                (Seq<char>, int),
                ErrorModel,
            >((n@, *final(index) as int)),
            Err(e) => expect_name_spec(token_models(tokens@), *old(index) as int) == Err::<
                (Seq<char>, int),
                ErrorModel,
            >(e@) && *final(index) == *old(index),
        },
{
    if *index < tokens.len() {
        if let Token::Name(n) = &tokens[*index] {
            let r = n.clone();
            *index += 1;
            return Ok(r);
        }
        return Err(ParseError::UnexpectedToken { expected: Expected::Name, found: tokens[*index].copy() });
    }
    Err(ParseError::UnexpectedEof { expected: Expected::Name })
}

/// Moves past the token at `index` if it equals `expected`; on failure
/// `index` stays.
pub fn expect_token(tokens: &[Token], index: &mut usize, expected: Token) -> (r: Result<(), ParseError>)
    ensures
        match r {
            Ok(_) => expect_token_spec(token_models(tokens@), *old(index) as int, expected@) == Ok::<
                int,
                ErrorModel,
            >(*final(index) as int),
            Err(e) => expect_token_spec(token_models(tokens@), *old(index) as int, expected@)
                == Err::<int, ErrorModel>(e@) && *final(index) == *old(index),
        },
{
    if *index < tokens.len() {
        if tokens[*index].same_as(&expected) {
            *index += 1;
            return Ok(());
        }
        return Err(ParseError::UnexpectedToken { expected: Expected::Token(expected), found: tokens[*index].copy() });
    }
    Err(ParseError::UnexpectedEof { expected: Expected::Token(expected) })
}

/// Takes the description at `index`, if one stands there, and moves past it.
pub fn take_description(tokens: &[Token], index: &mut usize) -> (r: Option<String>)
    ensures
        take_description_spec(token_models(tokens@), *old(index) as int) == (
            match r {
                Some(d) => Some(d@),
                None => None::<Seq<char>>,
            },
            *final(index) as int,
        ),
{
    if *index < tokens.len() {
        if let Token::Description(d) = &tokens[*index] {
            let r = d.clone();
            *index += 1;
            return Some(r);
        }
    }
    None
}

} // verus!
