use vstd::prelude::*;

use crate::ast::{
    text_model, Definition, DefinitionModel, Directive, EnumDef, EnumValue, EnumValueModel,
    ScalarDef, TypeDef, TypeRef, UnionDef,
};
use crate::directives::parse_directives;
use crate::error::{ErrorModel, Expected, ParseError};
use crate::expect::{expect_name, expect_token, take_description};
use crate::fields::parse_fields;
use crate::grammar::{
    cons, definition_start, enum_spec, enum_values_spec, lemma_prepend_cons, lemma_prepend_done,
    prepend, scalar_spec, type_def_spec, union_members_spec, union_spec,
};
use crate::token::{token_models, Token};

verus! {

/// Takes a description standing at `index` when none is handed in, then
/// passes over the keyword.
fn start_definition(tokens: &[Token], index: &mut usize, description: Option<String>) -> (r: Result<
    Option<String>,
    ParseError,
>)
    ensures
        match r {
            Ok(d) => definition_start(token_models(tokens@), *old(index) as int, text_model(description))
                == (text_model(d), *final(index) as int) && *final(index) <= tokens@.len()
                && *old(index) < *final(index),
            Err(e) => e@ == ErrorModel::UnexpectedEof { expected: crate::error::ExpectedModel::Name }
                && definition_start(token_models(tokens@), *old(index) as int, text_model(description)).1
                > tokens@.len(),
        },
{
    let lead = take_description(tokens, index);
    if *index >= tokens.len() {
        return Err(ParseError::UnexpectedEof { expected: Expected::Name });
    }
    *index += 1;
    match description {
        Some(d) => Ok(Some(d)),
        None => Ok(lead),
    }
}

/// `None` for no directives.
fn optional(ds: Vec<Directive>) -> (r: Option<Vec<Directive>>)
    ensures
        crate::ast::directives_model(r) == crate::grammar::nonempty(ds@.map_values(|d: Directive| d@)),
{
    if ds.len() == 0 {
        assert(ds@.map_values(|d: Directive| d@) =~= Seq::<crate::ast::DirectiveModel>::empty());
        None
    } else {
        Some(ds)
    }
}

/// The body shared by `type`, `input` and `interface`.
fn parse_type_def(tokens: &[Token], index: &mut usize, description: Option<String>) -> (r: Result<
    TypeDef,
    ParseError,
>)
    ensures
        match r {
            Ok(t) => type_def_spec(token_models(tokens@), *old(index) as int, text_model(description))
                == Ok::<_, ErrorModel>((t@, *final(index) as int)) && *old(index) < *final(index)
                <= tokens@.len(),
            Err(e) => type_def_spec(token_models(tokens@), *old(index) as int, text_model(description))
                == Err::<(crate::ast::TypeDefModel, int), ErrorModel>(e@),
        },
{
    let description = match start_definition(tokens, index, description) {
        Ok(d) => d,
        Err(e) => return Err(e),
    };
    let name = match expect_name(tokens, index) {
        Ok(n) => n,
        Err(e) => return Err(e),
    };
    let directives = match parse_directives(tokens, index) {
        Ok(ds) => ds,
        Err(e) => return Err(e),
    };
    match expect_token(tokens, index, Token::BraceOpen) {
        Ok(_) => {},
        Err(e) => return Err(e),
    }
    let fields = match parse_fields(tokens, index) {
        Ok(fs) => fs,
        Err(e) => return Err(e),
    };
    Ok(TypeDef { name, fields, directives: optional(directives), description })
}

/// Parses an object type; `index` is at its keyword (or at a description
/// before it).
pub fn parse_type(tokens: &[Token], index: &mut usize, description: Option<String>) -> (r: Result<
    Definition,
    ParseError,
>)
    ensures
        match r {
            Ok(d) => match type_def_spec(token_models(tokens@), *old(index) as int, text_model(description)) {
                Ok((t, e)) => d@ == DefinitionModel::Type(t) && e == *final(index) && *old(index)
                    < *final(index) <= tokens@.len(),
                Err(_) => false,
            },
            Err(e) => type_def_spec(token_models(tokens@), *old(index) as int, text_model(description))
                == Err::<(crate::ast::TypeDefModel, int), ErrorModel>(e@),
        },
{
    match parse_type_def(tokens, index, description) {
        Ok(t) => Ok(Definition::Type(t)),
        Err(e) => Err(e),
    }
}

/// Parses an input type; `index` is at its keyword (or at a description
/// before it).
pub fn parse_input(tokens: &[Token], index: &mut usize, description: Option<String>) -> (r: Result<
    Definition,
    ParseError,
>)
    ensures
        match r {
            Ok(d) => match type_def_spec(token_models(tokens@), *old(index) as int, text_model(description)) {
                Ok((t, e)) => d@ == DefinitionModel::Input(t) && e == *final(index) && *old(index)
                    < *final(index) <= tokens@.len(),
                Err(_) => false,
            },
            Err(e) => type_def_spec(token_models(tokens@), *old(index) as int, text_model(description))
                == Err::<(crate::ast::TypeDefModel, int), ErrorModel>(e@),
        },
{
    match parse_type_def(tokens, index, description) {
        Ok(t) => Ok(Definition::Input(t)),
        Err(e) => Err(e),
    }
}

/// Parses an interface; `index` is at its keyword (or at a description
/// before it).
pub fn parse_interface(tokens: &[Token], index: &mut usize, description: Option<String>) -> (r: Result<
    Definition,
    ParseError,
>)
    ensures
        match r {
            Ok(d) => match type_def_spec(token_models(tokens@), *old(index) as int, text_model(description)) {
                Ok((t, e)) => d@ == DefinitionModel::Interface(t) && e == *final(index) && *old(index)
                    < *final(index) <= tokens@.len(),
                Err(_) => false,
            },
            Err(e) => type_def_spec(token_models(tokens@), *old(index) as int, text_model(description))
                == Err::<(crate::ast::TypeDefModel, int), ErrorModel>(e@),
        },
{
    match parse_type_def(tokens, index, description) {
        Ok(t) => Ok(Definition::Interface(t)),
        Err(e) => Err(e),
    }
}

/// Parses a scalar: a name and optional directives, no body.
pub fn parse_scalar(tokens: &[Token], index: &mut usize, description: Option<String>) -> (r: Result<
    Definition,
    ParseError,
>)
    ensures
        match r {
            Ok(d) => match scalar_spec(token_models(tokens@), *old(index) as int, text_model(description)) {
                Ok((s, e)) => d@ == DefinitionModel::Scalar(s) && e == *final(index) && *old(index)
                    < *final(index) <= tokens@.len(),
                Err(_) => false,
            },
            Err(e) => scalar_spec(token_models(tokens@), *old(index) as int, text_model(description))
                == Err::<(crate::ast::ScalarDefModel, int), ErrorModel>(e@),
        },
{
    let description = match start_definition(tokens, index, description) {
        Ok(d) => d,
        Err(e) => return Err(e),
    };
    let name = match expect_name(tokens, index) {
        Ok(n) => n,
        Err(e) => return Err(e),
    };
    let directives = match parse_directives(tokens, index) {
        Ok(ds) => ds,
        Err(e) => return Err(e),
    };
    Ok(Definition::Scalar(ScalarDef { name, directives: optional(directives), description }))
}

/// Parses a union: a name, `=`, then member names; a `|` may stand before,
/// between or after them, and any other token ends the list.
pub fn parse_union(tokens: &[Token], index: &mut usize, description: Option<String>) -> (r: Result<
    Definition,
    ParseError,
>)
    ensures
        match r {
            Ok(d) => match union_spec(token_models(tokens@), *old(index) as int, text_model(description)) {
                Ok((u, e)) => d@ == DefinitionModel::Union(u) && e == *final(index) && *old(index)
                    < *final(index) <= tokens@.len(),
                Err(_) => false,
            },
            Err(e) => union_spec(token_models(tokens@), *old(index) as int, text_model(description))
                == Err::<(crate::ast::UnionDefModel, int), ErrorModel>(e@),
        },
{
    let ghost toks = token_models(tokens@);
    let description = match start_definition(tokens, index, description) {
        Ok(d) => d,
        Err(e) => return Err(e),
    };
    let name = match expect_name(tokens, index) {
        Ok(n) => n,
        Err(e) => return Err(e),
    };
    match expect_token(tokens, index, Token::Equals) {
        Ok(_) => {},
        Err(e) => return Err(e),
    }
    let ghost m0 = *index as int;
    let mut members: Vec<TypeRef> = Vec::new();
    while *index < tokens.len() && continues_union(&tokens[*index])
        invariant
            toks == token_models(tokens@),
            m0 <= *index <= tokens@.len(),
            union_members_spec(toks, m0) == (
                members@.map_values(|t: TypeRef| t@) + union_members_spec(toks, *index as int).0,
                union_members_spec(toks, *index as int).1,
            ),
        decreases tokens@.len() - *index,
    {
        let ghost cur = *index as int;
        assert(toks[cur] == tokens@[cur]@);
        match &tokens[*index] {
            Token::Name(n) => {
                let t = TypeRef::Named(n.clone());
                *index += 1;
                let ghost before = members@;
                let ghost rest = union_members_spec(toks, *index as int);
                members.push(t);
                assert(members@.map_values(|t: TypeRef| t@) =~= before.map_values(|t: TypeRef| t@).push(
                    members@.last()@,
                ));
                assert(before.map_values(|t: TypeRef| t@) + (seq![members@.last()@] + rest.0)
                    =~= members@.map_values(|t: TypeRef| t@) + rest.0);
            },
            _ => {
                *index += 1;
            },
        }
    }
    assert(*index < tokens@.len() ==> toks[*index as int] == tokens@[*index as int]@);
    assert(members@.map_values(|t: TypeRef| t@) + Seq::empty() =~= members@.map_values(
        |t: TypeRef| t@,
    ));
    Ok(Definition::Union(UnionDef { name, members, directives: None, description }))
}

/// Whether a union's member list goes on at `t`.
fn continues_union(t: &Token) -> (r: bool)
    ensures
        r == (t is Name || t is Pipe),
{
    match t {
        Token::Name(_) | Token::Pipe => true,
        _ => false,
    }
}

/// Parses the values of an enum body after its `{`.
fn parse_enum_values(tokens: &[Token], index: &mut usize) -> (r: Result<Vec<EnumValue>, ParseError>)
    ensures
        match r {
            Ok(vs) => enum_values_spec(token_models(tokens@), *old(index) as int, None) == Ok::<
                _,
                ErrorModel,
            >((vs@.map_values(|v: EnumValue| v@), *final(index) as int)) && *old(index)
                <= *final(index) && (*old(index) <= tokens@.len() ==> *final(index)
                <= tokens@.len()),
            Err(e) => enum_values_spec(token_models(tokens@), *old(index) as int, None) == Err::<
                (Seq<EnumValueModel>, int),
                ErrorModel,
            >(e@),
        },
{
    let ghost toks = token_models(tokens@);
    let ghost v0 = *index as int;
    let mut values: Vec<EnumValue> = Vec::new();
    let mut pending: Option<String> = None;
    while *index < tokens.len()
        invariant
            toks == token_models(tokens@),
            v0 == *old(index),
            v0 <= *index,
            v0 <= tokens@.len() ==> *index <= tokens@.len(),
            enum_values_spec(toks, v0, None) == prepend(
                values@.map_values(|v: EnumValue| v@),
                enum_values_spec(toks, *index as int, text_model(pending)),
            ),
        decreases tokens@.len() - *index,
    {
        let ghost cur = *index as int;
        assert(toks[cur] == tokens@[cur]@);
        match &tokens[*index] {
            Token::BraceClose => {
                *index += 1;
                proof {
                    lemma_prepend_done(values@.map_values(|v: EnumValue| v@), *index as int);
                }
                return Ok(values);
            },
            Token::Description(d) => {
                pending = Some(d.clone());
                *index += 1;
            },
            Token::Name(n) => {
                let name = n.clone();
                *index += 1;
                let directives = match parse_directives(tokens, index) {
                    Ok(ds) => ds,
                    Err(e) => {
                        assert(enum_values_spec(toks, cur, text_model(pending)) == Err::<
                            (Seq<EnumValueModel>, int),
                            ErrorModel,
                        >(e@));
                        return Err(e);
                    },
                };
                let v = EnumValue { name, directives: optional(directives), description: pending };
                pending = None;
                proof {
                    let j = *index as int;
                    assert(enum_values_spec(toks, cur, v@.description) == cons(
                        v@,
                        enum_values_spec(toks, j, None),
                    ));
                    lemma_prepend_cons(
                        values@.map_values(|v: EnumValue| v@),
                        v@,
                        enum_values_spec(toks, j, None),
                    );
                }
                let ghost before = values@;
                values.push(v);
                assert(values@.map_values(|v: EnumValue| v@) =~= before.map_values(
                    |v: EnumValue| v@,
                ).push(values@.last()@));
            },
            _ => {
                proof {
                    lemma_prepend_done(values@.map_values(|v: EnumValue| v@), *index as int);
                }
                return Ok(values);
            },
        }
    }
    Err(ParseError::UnexpectedEof { expected: Expected::Token(Token::BraceClose) })
}

/// Parses an enum: a name, optional directives, then `{` and its values. A
/// description inside the body belongs to the value after it.
pub fn parse_enum(tokens: &[Token], index: &mut usize, description: Option<String>) -> (r: Result<
    Definition,
    ParseError,
>)
    ensures
        match r {
            Ok(d) => match enum_spec(token_models(tokens@), *old(index) as int, text_model(description)) {
                Ok((en, e)) => d@ == DefinitionModel::Enum(en) && e == *final(index) && *old(index)
                    < *final(index) <= tokens@.len(),
                Err(_) => false,
            },
            Err(e) => enum_spec(token_models(tokens@), *old(index) as int, text_model(description))
                == Err::<(crate::ast::EnumDefModel, int), ErrorModel>(e@),
        },
{
    let description = match start_definition(tokens, index, description) {
        Ok(d) => d,
        Err(e) => return Err(e),
    };
    let name = match expect_name(tokens, index) {
        Ok(n) => n,
        Err(e) => return Err(e),
    };
    let directives = match parse_directives(tokens, index) {
        Ok(ds) => ds,
        Err(e) => return Err(e),
    };
    match expect_token(tokens, index, Token::BraceOpen) {
        Ok(_) => {},
        Err(e) => return Err(e),
    }
    let values = match parse_enum_values(tokens, index) {
        Ok(vs) => vs,
        Err(e) => return Err(e),
    };
    Ok(Definition::Enum(EnumDef { name, values, directives: optional(directives), description }))
}

} // verus!
