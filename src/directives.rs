use vstd::prelude::*;

use crate::ast::{Directive, DirectiveModel, InputValue, InputValueModel, TypeRef};
use crate::error::{ErrorModel, ParseError};
use crate::expect::{expect_name, expect_token};
use crate::grammar::{
    cons, directive_args_spec, directives_spec, lemma_prepend_cons, lemma_prepend_done, prepend,
};
use crate::token::{token_models, Token};
use crate::value::parse_value;

verus! {

/// Parses the `name: value` arguments of a directive after its `(`, up to and
/// including the `)`. A comma may stand between arguments only.
fn parse_directive_args(tokens: &[Token], index: &mut usize) -> (r: Result<Vec<InputValue>, ParseError>)
    ensures
        match r {
            Ok(args) => directive_args_spec(token_models(tokens@), *old(index) as int, false) == Ok::<
                _,
                ErrorModel,
            >((args@.map_values(|a: InputValue| a@), *final(index) as int)) && *old(index)
                < *final(index) <= tokens@.len(),
            Err(e) => directive_args_spec(token_models(tokens@), *old(index) as int, false) == Err::<
                (Seq<InputValueModel>, int),
                ErrorModel,
            >(e@),
        },
{
    let ghost toks = token_models(tokens@);
    let ghost a0 = *index as int;
    let mut args: Vec<InputValue> = Vec::new();
    let mut after_comma = false;
    while *index < tokens.len() && (after_comma || !tokens[*index].same_as(&Token::ParenClose))
        invariant
            toks == token_models(tokens@),
            a0 == *old(index),
            a0 <= *index,
            a0 < *index ==> *index <= tokens@.len(),
            directive_args_spec(toks, a0, false) == prepend(
                args@.map_values(|a: InputValue| a@),
                directive_args_spec(toks, *index as int, after_comma),
            ),
        decreases tokens@.len() - *index,
    {
        let ghost cur = *index as int;
        assert(toks[cur] == tokens@[cur]@);
        let name = match expect_name(tokens, index) {
            Ok(n) => n,
            Err(e) => {
                assert(directive_args_spec(toks, cur, after_comma) == Err::<(Seq<InputValueModel>, int), ErrorModel>(e@));
                return Err(e);
            },
        };
        match expect_token(tokens, index, Token::Colon) {
            Ok(_) => {},
            Err(e) => {
                assert(directive_args_spec(toks, cur, after_comma) == Err::<(Seq<InputValueModel>, int), ErrorModel>(e@));
                return Err(e);
            },
        }
        let value = match parse_value(tokens, index) {
            Ok(v) => v,
            Err(e) => {
                assert(directive_args_spec(toks, cur, after_comma) == Err::<(Seq<InputValueModel>, int), ErrorModel>(e@));
                return Err(e);
            },
        };
        let arg = InputValue {
            name,
            value_type: TypeRef::Named(String::new()),
            default_value: Some(value),
            description: None,
        };
        let ghost ac = after_comma;
        after_comma = *index < tokens.len() && tokens[*index].same_as(&Token::Comma);
        if after_comma {
            *index += 1;
        }
        proof {
            let j = *index as int;
            assert(j - 1 < toks.len() ==> toks[j - 1] == tokens@[j - 1]@);
            assert(directive_args_spec(toks, cur, ac) == cons(arg@, directive_args_spec(toks, j, after_comma)));
            lemma_prepend_cons(
                args@.map_values(|a: InputValue| a@),
                arg@,
                directive_args_spec(toks, j, after_comma),
            );
        }
        let ghost before = args@;
        args.push(arg);
        assert(args@.map_values(|a: InputValue| a@) =~= before.map_values(|a: InputValue| a@).push(
            args@.last()@,
        ));
    }
    match expect_token(tokens, index, Token::ParenClose) {
        Ok(_) => {},
        Err(e) => return Err(e),
    }
    proof {
        lemma_prepend_done(args@.map_values(|a: InputValue| a@), *index as int);
    }
    Ok(args)
}

/// Parses zero or more directives at `index`, in the order written.
pub fn parse_directives(tokens: &[Token], index: &mut usize) -> (r: Result<Vec<Directive>, ParseError>)
    ensures
        match r {
            Ok(ds) => directives_spec(token_models(tokens@), *old(index) as int) == Ok::<
                _,
                ErrorModel,
            >((ds@.map_values(|d: Directive| d@), *final(index) as int)) && *old(index)
                <= *final(index) && (*old(index) < *final(index) ==> *final(index)
                <= tokens@.len()),
            Err(e) => directives_spec(token_models(tokens@), *old(index) as int) == Err::<
                (Seq<DirectiveModel>, int),
                ErrorModel,
            >(e@),
        },
{
    let ghost toks = token_models(tokens@);
    let ghost d0 = *index as int;
    let mut directives: Vec<Directive> = Vec::new();
    while *index < tokens.len() && tokens[*index].same_as(&Token::At)
        invariant
            toks == token_models(tokens@),
            d0 == *old(index),
            d0 <= *index,
            d0 < *index ==> *index <= tokens@.len(),
            directives_spec(toks, d0) == prepend(
                directives@.map_values(|d: Directive| d@),
                directives_spec(toks, *index as int),
            ),
        decreases tokens@.len() - *index,
    {
        let ghost cur = *index as int;
        assert(toks[cur] == tokens@[cur]@);
        *index += 1;
        let name = match expect_name(tokens, index) {
            Ok(n) => n,
            Err(e) => {
                assert(directives_spec(toks, cur) == Err::<(Seq<DirectiveModel>, int), ErrorModel>(e@));
                return Err(e);
            },
        };
        let args = if *index < tokens.len() && tokens[*index].same_as(&Token::ParenOpen) {
            assert(toks[cur + 2] == tokens@[cur + 2]@);
            *index += 1;
            match parse_directive_args(tokens, index) {
                Ok(a) => a,
                Err(e) => {
                    assert(directives_spec(toks, cur) == Err::<(Seq<DirectiveModel>, int), ErrorModel>(e@));
                    return Err(e);
                },
            }
        } else {
            assert(cur + 2 < toks.len() ==> toks[cur + 2] == tokens@[cur + 2]@);
            proof {
                lemma_prepend_done(Seq::<InputValueModel>::empty(), cur + 2);
            }
            Vec::new()
        };
        let d = Directive { name, arguments: if args.len() == 0 { None } else { Some(args) } };
        proof {
            let j = *index as int;
            if d.arguments is None {
                assert(args@.map_values(|a: InputValue| a@) =~= Seq::<InputValueModel>::empty());
            }
            assert(directives_spec(toks, cur) == cons(d@, directives_spec(toks, j)));
            lemma_prepend_cons(directives@.map_values(|d: Directive| d@), d@, directives_spec(toks, j));
        }
        let ghost before = directives@;
        directives.push(d);
        assert(directives@.map_values(|d: Directive| d@) =~= before.map_values(|d: Directive| d@).push(
            directives@.last()@,
        ));
    }
    proof {
        assert(*index < tokens@.len() ==> toks[*index as int] == tokens@[*index as int]@);
        lemma_prepend_done(directives@.map_values(|d: Directive| d@), *index as int);
    }
    Ok(directives)
}

} // verus!
