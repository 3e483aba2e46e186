use vstd::prelude::*;

use crate::ast::{Field, FieldModel, InputValue, InputValueModel};
use crate::directives::parse_directives;
use crate::error::{ErrorModel, Expected, ParseError};
use crate::expect::{expect_name, expect_token};
use crate::grammar::{
    at, cons, field_args_spec, field_as_argument, field_rest_spec, fields_spec,
    lemma_prepend_cons, lemma_prepend_done, prepend,
};
use crate::token::{token_models, Token};
use crate::type_ref::type_ref_at;

verus! {

/// Parses the arguments of a field: `index` is at its `(`; the list ends
/// with the `)`. Each argument comes back as a field with only a name and a
/// type.
pub fn parse_field_arguments(tokens: &[Token], index: &mut usize) -> (r: Result<Vec<Field>, ParseError>)
    ensures
        match r {
            Ok(args) => field_args_spec(token_models(tokens@), *old(index) + 1) == Ok::<
                _,
                ErrorModel,
            >((args@.map_values(|f: Field| field_as_argument(f@)), *final(index) as int))
                && *old(index) < *final(index) <= tokens@.len(),
            Err(e) => field_args_spec(token_models(tokens@), *old(index) + 1) == Err::<
                (Seq<InputValueModel>, int),
                ErrorModel,
            >(e@),
        },
{
    let ghost toks = token_models(tokens@);
    let ghost a0 = *index + 1;
    if *index >= tokens.len() {
        return Err(ParseError::UnexpectedEof { expected: Expected::Token(Token::ParenClose) });
    }
    *index += 1;
    let mut args: Vec<Field> = Vec::new();
    while *index < tokens.len() && !tokens[*index].same_as(&Token::ParenClose)
        invariant
            toks == token_models(tokens@),
            a0 == *old(index) + 1,
            a0 <= *index <= tokens@.len(),
            field_args_spec(toks, a0) == prepend(
                args@.map_values(|f: Field| field_as_argument(f@)),
                field_args_spec(toks, *index as int),
            ),
        decreases tokens@.len() - *index,
    {
        let ghost cur = *index as int;
        assert(toks[cur] == tokens@[cur]@);
        let name = match expect_name(tokens, index) {
            Ok(n) => n,
            Err(e) => {
                assert(field_args_spec(toks, cur) == Err::<(Seq<InputValueModel>, int), ErrorModel>(e@));
                return Err(e);
            },
        };
        match expect_token(tokens, index, Token::Colon) {
            Ok(_) => {},
            Err(e) => {
                assert(field_args_spec(toks, cur) == Err::<(Seq<InputValueModel>, int), ErrorModel>(e@));
                return Err(e);
            },
        }
        let field_type = match type_ref_at(tokens, *index) {
            Ok((t, end)) => {
                *index = end;
                t
            },
            Err(e) => {
                assert(field_args_spec(toks, cur) == Err::<(Seq<InputValueModel>, int), ErrorModel>(e@));
                return Err(e);
            },
        };
        let arg = Field { name, field_type, arguments: None, directives: None, description: None };
        if *index < tokens.len() && tokens[*index].same_as(&Token::Comma) {
            *index += 1;
        }
        proof {
            let j = *index as int;
            assert(j - 1 < toks.len() ==> toks[j - 1] == tokens@[j - 1]@);
            assert(field_args_spec(toks, cur) == cons(field_as_argument(arg@), field_args_spec(toks, j)));
            lemma_prepend_cons(
                args@.map_values(|f: Field| field_as_argument(f@)),
                field_as_argument(arg@),
                field_args_spec(toks, j),
            );
        }
        let ghost before = args@;
        args.push(arg);
        assert(args@.map_values(|f: Field| field_as_argument(f@)) =~= before.map_values(
            |f: Field| field_as_argument(f@),
        ).push(field_as_argument(args@.last()@)));
    }
    match expect_token(tokens, index, Token::ParenClose) {
        Ok(_) => {},
        Err(e) => return Err(e),
    }
    proof {
        lemma_prepend_done(args@.map_values(|f: Field| field_as_argument(f@)), *index as int);
    }
    Ok(args)
}

/// The arguments that parsed field-argument entries stand for.
fn arguments_of(args: &Vec<Field>) -> (r: Vec<InputValue>)
    ensures
        r@.map_values(|a: InputValue| a@) == args@.map_values(|f: Field| field_as_argument(f@)),
{
    let mut out: Vec<InputValue> = Vec::new();
    let mut i: usize = 0;
    while i < args.len()
        invariant
            i <= args@.len(),
            out@.map_values(|a: InputValue| a@) =~= args@.subrange(0, i as int).map_values(
                |f: Field| field_as_argument(f@),
            ),
        decreases args@.len() - i,
    {
        let a = InputValue {
            name: args[i].name.clone(),
            value_type: args[i].field_type.deep_copy(),
            default_value: None,
            description: None,
        };
        assert(a@ == field_as_argument(args@[i as int]@));
        let ghost prev = out@;
        out.push(a);
        assert(out@.map_values(|a: InputValue| a@) =~= prev.map_values(|a: InputValue| a@).push(
            field_as_argument(args@[i as int]@),
        ));
        assert(args@.subrange(0, i + 1) =~= args@.subrange(0, i as int).push(args@[i as int]));
        i += 1;
        assert(out@.map_values(|a: InputValue| a@) =~= args@.subrange(0, i as int).map_values(
            |f: Field| field_as_argument(f@),
        ));
    }
    assert(args@.subrange(0, args@.len() as int) =~= args@);
    out
}

/// Parses one field whose name stands at `index`.
fn parse_field(tokens: &[Token], index: &mut usize) -> (r: Result<Field, ParseError>)
    requires
        *old(index) < tokens@.len(),
        tokens@[*old(index) as int] is Name,
    ensures
        match r {
            Ok(f) => field_rest_spec(
                token_models(tokens@),
                tokens@[*old(index) as int]->Name_0@,
                *old(index) + 1,
            ) == Ok::<_, ErrorModel>((f@, *final(index) as int)) && *old(index) < *final(index)
                <= tokens@.len(),
            Err(e) => field_rest_spec(
                token_models(tokens@),
                tokens@[*old(index) as int]->Name_0@,
                *old(index) + 1,
            ) == Err::<(FieldModel, int), ErrorModel>(e@),
        },
{
    let ghost toks = token_models(tokens@);
    let ghost start = *index as int;
    let name = match &tokens[*index] {
        Token::Name(n) => n.clone(),
        _ => String::new(),
    };
    *index += 1;
    let arguments = if *index < tokens.len() && tokens[*index].same_as(&Token::ParenOpen) {
        assert(toks[start + 1] == tokens@[start + 1]@);
        match parse_field_arguments(tokens, index) {
            Ok(args) => Some(arguments_of(&args)),
            Err(e) => return Err(e),
        }
    } else {
        assert(start + 1 < toks.len() ==> toks[start + 1] == tokens@[start + 1]@);
        None
    };
    match expect_token(tokens, index, Token::Colon) {
        Ok(_) => {},
        Err(e) => return Err(e),
    }
    let field_type = match type_ref_at(tokens, *index) {
        Ok((t, end)) => {
            *index = end;
            t
        },
        Err(e) => return Err(e),
    };
    let directives = match parse_directives(tokens, index) {
        Ok(ds) => ds,
        Err(e) => return Err(e),
    };
    let directives = if directives.len() == 0 {
        assert(directives@.map_values(|d: crate::ast::Directive| d@) =~= Seq::<crate::ast::DirectiveModel>::empty());
        None
    } else {
        Some(directives)
    };
    Ok(Field { name, field_type, arguments, directives, description: None })
}

/// Parses the fields of a body up to and including its `}`; running out of
/// tokens first is an error.
pub fn parse_fields(tokens: &[Token], index: &mut usize) -> (r: Result<Vec<Field>, ParseError>)
    ensures
        match r {
            Ok(fs) => fields_spec(token_models(tokens@), *old(index) as int) == Ok::<_, ErrorModel>(
                (fs@.map_values(|f: Field| f@), *final(index) as int),
            ) && *old(index) <= *final(index) && (*old(index) <= tokens@.len() ==> *final(index)
                <= tokens@.len()),
            Err(e) => fields_spec(token_models(tokens@), *old(index) as int) == Err::<
                (Seq<FieldModel>, int),
                ErrorModel,
            >(e@),
        },
{
    let ghost toks = token_models(tokens@);
    let ghost f0 = *index as int;
    let mut fields: Vec<Field> = Vec::new();
    while *index < tokens.len()
        invariant
            toks == token_models(tokens@),
            f0 == *old(index),
            f0 <= *index,
            f0 <= tokens@.len() ==> *index <= tokens@.len(),
            fields_spec(toks, f0) == prepend(
                fields@.map_values(|f: Field| f@),
                fields_spec(toks, *index as int),
            ),
        decreases tokens@.len() - *index,
    {
        let ghost cur = *index as int;
        assert(toks[cur] == tokens@[cur]@);
        match &tokens[*index] {
            Token::BraceClose => {
                *index += 1;
                proof {
                    lemma_prepend_done(fields@.map_values(|f: Field| f@), *index as int);
                }
                return Ok(fields);
            },
            Token::Name(_) => {
                let f = match parse_field(tokens, index) {
                    Ok(f) => f,
                    Err(e) => {
                        assert(fields_spec(toks, cur) == Err::<(Seq<FieldModel>, int), ErrorModel>(e@));
                        return Err(e);
                    },
                };
                proof {
                    let j = *index as int;
                    assert(fields_spec(toks, cur) == cons(f@, fields_spec(toks, j)));
                    lemma_prepend_cons(fields@.map_values(|f: Field| f@), f@, fields_spec(toks, j));
                }
                let ghost before = fields@;
                fields.push(f);
                assert(fields@.map_values(|f: Field| f@) =~= before.map_values(|f: Field| f@).push(
                    fields@.last()@,
                ));
            },
            _ => {
                return Err(ParseError::UnexpectedToken { expected: Expected::Field, found: tokens[*index].copy() });
            },
        }
    }
    Err(ParseError::UnexpectedEof { expected: Expected::Token(Token::BraceClose) })
}

} // verus!
