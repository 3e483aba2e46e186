use vstd::prelude::*;

use crate::ast::TypeRef;
use crate::error::{ErrorModel, Expected, ParseError};
use crate::grammar::{type_ref_base_spec, type_ref_spec};
use crate::token::{token_models, Token};

verus! {

/// Parses a type reference at the start of `tokens` and says how many tokens
/// it took.
pub fn parse_type_ref(tokens: &[Token]) -> (r: Result<(TypeRef, usize), ParseError>)
    ensures
        match r {
            Ok((t, n)) => type_ref_spec(token_models(tokens@), 0) == Ok::<_, ErrorModel>(
                (t@, n as int),
            ),
            Err(e) => type_ref_spec(token_models(tokens@), 0) == Err::<
                (crate::ast::TypeRefModel, int),
                ErrorModel,
            >(e@),
        },
{
    type_ref_at(tokens, 0)
}

/// Parses a type reference at `start` and gives the position after it.
pub fn type_ref_at(tokens: &[Token], start: usize) -> (r: Result<(TypeRef, usize), ParseError>)
    ensures
        match r {
            Ok((t, end)) => type_ref_spec(token_models(tokens@), start as int) == Ok::<
                _,
                ErrorModel,
            >((t@, end as int)) && start < end <= tokens@.len(),
            Err(e) => type_ref_spec(token_models(tokens@), start as int) == Err::<
                (crate::ast::TypeRefModel, int),
                ErrorModel,
            >(e@),
        },
    decreases tokens@.len() - start,
{
    let ghost toks = token_models(tokens@);
    if start >= tokens.len() {
        return Err(ParseError::UnexpectedEof { expected: Expected::TypeRef });
    }
    assert(toks[start as int] == tokens@[start as int]@);
    let mut end: usize;
    let base = match &tokens[start] {
        Token::Name(n) => {
            end = start + 1;
            TypeRef::Named(n.clone())
        },
        Token::BracketOpen => {
            match type_ref_at(tokens, start + 1) {
                Ok((inner, j)) => {
                    assert(j < tokens@.len() ==> toks[j as int] == tokens@[j as int]@);
                    if j < tokens.len() && tokens[j].same_as(&Token::BracketClose) {
                        end = j + 1;
                        TypeRef::List(Box::new(inner))
                    } else if j < tokens.len() {
                        return Err(ParseError::UnexpectedToken { expected: Expected::ClosingBracket, found: tokens[j].copy() });
                    } else {
                        return Err(ParseError::UnexpectedEof { expected: Expected::ClosingBracket });
                    }
                },
                Err(e) => return Err(e),
            }
        },
        _ => {
            return Err(ParseError::UnexpectedToken { expected: Expected::TypeRef, found: tokens[start].copy() });
        },
    };
    assert(end < tokens@.len() ==> toks[end as int] == tokens@[end as int]@);
    assert(type_ref_base_spec(toks, start as int) == Ok::<_, ErrorModel>((base@, end as int)));
    if end < tokens.len() && tokens[end].same_as(&Token::Bang) {
        Ok((TypeRef::NonNull(Box::new(base)), end + 1))
    } else {
        Ok((base, end))
    }
}

} // verus!
