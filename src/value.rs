use vstd::prelude::*;

use crate::ast::{entries_model, values_model, Value, ValueModel};
use crate::error::{ErrorModel, Expected, ParseError};
use crate::expect::{expect_name, expect_token, text_is};
use crate::grammar::{list_items_spec, object_entries_spec, prepend, value_spec};
use crate::token::{token_models, Token, TokenModel};

verus! {

/// Parses the literal value at `index` and moves past it.
pub fn parse_value(tokens: &[Token], index: &mut usize) -> (r: Result<Value, ParseError>)
    ensures
        match r {
            Ok(v) => value_spec(token_models(tokens@), *old(index) as int) == Ok::<_, ErrorModel>(
                (v@, *final(index) as int),
            ) && *old(index) < *final(index) <= tokens@.len(),
            Err(e) => value_spec(token_models(tokens@), *old(index) as int) == Err::<
                (ValueModel, int),
                ErrorModel,
            >(e@),
        },
    decreases tokens@.len() - *old(index),
{
    let ghost toks = token_models(tokens@);
    let ghost i0 = *index as int;
    if *index >= tokens.len() {
        return Err(ParseError::UnexpectedEof { expected: Expected::Value });
    }
    assert(toks[i0] == tokens@[i0]@);
    match &tokens[*index] {
        Token::String(s) => {
            *index += 1;
            Ok(Value::String(s.clone()))
        },
        Token::Int(n) => {
            *index += 1;
            Ok(Value::Int(*n))
        },
        Token::Boolean(b) => {
            *index += 1;
            Ok(Value::Bool(*b))
        },
        Token::Name(n) => {
            *index += 1;
            if text_is(n, "true") {
                Ok(Value::Bool(true))
            } else if text_is(n, "false") {
                Ok(Value::Bool(false))
            } else {
                Ok(Value::Enum(n.clone()))
            }
        },
        Token::BraceOpen => {
            *index += 1;
            let mut fields: Vec<(String, Value)> = Vec::new();
            let mut after_comma = false;
            while *index < tokens.len() && (after_comma || !tokens[*index].same_as(&Token::BraceClose))
                invariant
                    toks == token_models(tokens@),
                    i0 == *old(index),
                    toks[i0] == TokenModel::BraceOpen,
                    i0 + 1 <= *index <= tokens@.len(),
                    object_entries_spec(toks, i0 + 1, false) == prepend(
                        entries_model(fields@),
                        object_entries_spec(toks, *index as int, after_comma),
                    ),
                decreases tokens@.len() - *index,
            {
                let ghost cur = *index as int;
                assert(toks[cur] == tokens@[cur]@);
                let key = match expect_name(tokens, index) {
                    Ok(k) => k,
                    Err(e) => {
                        assert(object_entries_spec(toks, cur, after_comma) == Err::<(Seq<(Seq<char>, ValueModel)>, int), ErrorModel>(e@));
                        return Err(e);
                    },
                };
                match expect_token(tokens, index, Token::Colon) {
                    Ok(_) => {},
                    Err(e) => {
                        assert(object_entries_spec(toks, cur, after_comma) == Err::<(Seq<(Seq<char>, ValueModel)>, int), ErrorModel>(e@));
                        return Err(e);
                    },
                }
                let val = match parse_value(tokens, index) {
                    Ok(v) => v,
                    Err(e) => {
                        assert(object_entries_spec(toks, cur, after_comma) == Err::<(Seq<(Seq<char>, ValueModel)>, int), ErrorModel>(e@));
                        return Err(e);
                    },
                };
                let ghost kv = (key@, val@);
                let ghost ac = after_comma;
                after_comma = *index < tokens.len() && tokens[*index].same_as(&Token::Comma);
                if after_comma {
                    *index += 1;
                }
                proof {
                    let j = *index as int;
                    assert(*index as int - 1 < toks.len() ==> toks[*index as int - 1] == tokens@[*index as int - 1]@);
                    assert(object_entries_spec(toks, cur, ac) == crate::grammar::cons(kv, object_entries_spec(toks, j, after_comma)));
                }
                let ghost before = fields@;
                fields.push((key, val));
                proof {
                    assert(fields@.drop_last() =~= before);
                    assert(entries_model(fields@) == entries_model(before).push(kv));
                    match object_entries_spec(toks, *index as int, after_comma) {
                        Ok((rest, e)) => {
                            assert(entries_model(before) + (seq![kv] + rest) =~= entries_model(fields@) + rest);
                        },
                        Err(_) => {},
                    }
                }
            }
            match expect_token(tokens, index, Token::BraceClose) {
                Ok(_) => {},
                Err(e) => return Err(e),
            }
            assert(entries_model(fields@) + Seq::<(Seq<char>, ValueModel)>::empty() =~= entries_model(fields@));
            Ok(Value::Object(fields))
        },
        Token::BracketOpen => {
            *index += 1;
            let mut items: Vec<Value> = Vec::new();
            let mut after_comma = false;
            while *index < tokens.len() && (after_comma || !tokens[*index].same_as(&Token::BracketClose))
                invariant
                    toks == token_models(tokens@),
                    i0 == *old(index),
                    toks[i0] == TokenModel::BracketOpen,
                    i0 + 1 <= *index <= tokens@.len(),
                    list_items_spec(toks, i0 + 1, false) == prepend(
                        values_model(items@),
                        list_items_spec(toks, *index as int, after_comma),
                    ),
                decreases tokens@.len() - *index,
            {
                let ghost cur = *index as int;
                assert(toks[cur] == tokens@[cur]@);
                let val = match parse_value(tokens, index) {
                    Ok(v) => v,
                    Err(e) => {
                        assert(list_items_spec(toks, cur, after_comma) == Err::<(Seq<ValueModel>, int), ErrorModel>(e@));
                        return Err(e);
                    },
                };
                let ghost v = val@;
                let ghost ac = after_comma;
                after_comma = *index < tokens.len() && tokens[*index].same_as(&Token::Comma);
                if after_comma {
                    *index += 1;
                }
                proof {
                    let j = *index as int;
                    assert(*index as int - 1 < toks.len() ==> toks[*index as int - 1] == tokens@[*index as int - 1]@);
                    assert(list_items_spec(toks, cur, ac) == crate::grammar::cons(v, list_items_spec(toks, j, after_comma)));
                }
                let ghost before = items@;
                items.push(val);
                proof {
                    assert(items@.drop_last() =~= before);
                    assert(values_model(items@) == values_model(before).push(v));
                    match list_items_spec(toks, *index as int, after_comma) {
                        Ok((rest, e)) => {
                            assert(values_model(before) + (seq![v] + rest) =~= values_model(items@) + rest);
                        },
                        Err(_) => {},
                    }
                }
            }
            match expect_token(tokens, index, Token::BracketClose) {
                Ok(_) => {},
                Err(e) => return Err(e),
            }
            assert(values_model(items@) + Seq::<ValueModel>::empty() =~= values_model(items@));
            Ok(Value::List(items))
        },
        _ => Err(ParseError::UnexpectedToken { expected: Expected::Value, found: tokens[*index].copy() }),
    }
}

} // verus!
