use vstd::prelude::*;

use crate::ast::{text_model, Definition, DefinitionModel, Document};
use crate::definitions::{parse_enum, parse_input, parse_interface, parse_scalar, parse_type, parse_union};
use crate::error::{ErrorModel, ParseError};
use crate::expect::text_is;
use crate::lexer::{generate_tokens, tokens_spec};
use crate::grammar::{
    definition_spec, document_spec, is_keyword, lemma_document_definition, lemma_document_pass,
    lemma_prepend_all_push, prepend_all,
};
use crate::token::{token_models, Token};

verus! {

/// Parses the definition that keyword `kw` starts at `index`.
fn parse_definition(tokens: &[Token], index: &mut usize, kw: &String, description: Option<String>) -> (r: Result<
    Definition,
    ParseError,
>)
    requires
        is_keyword(kw@),
    ensures
        match r {
            Ok(d) => definition_spec(
                token_models(tokens@),
                *old(index) as int,
                kw@,
                text_model(description),
            ) == Ok::<_, ErrorModel>((d@, *final(index) as int)) && *old(index) < *final(index)
                <= tokens@.len(),
            Err(e) => definition_spec(
                token_models(tokens@),
                *old(index) as int,
                kw@,
                text_model(description),
            ) == Err::<(DefinitionModel, int), ErrorModel>(e@),
        },
{
    reveal(definition_spec);
    if text_is(kw, "type") {
        parse_type(tokens, index, description)
    } else if text_is(kw, "input") {
        parse_input(tokens, index, description)
    } else if text_is(kw, "interface") {
        parse_interface(tokens, index, description)
    } else if text_is(kw, "union") {
        parse_union(tokens, index, description)
    } else if text_is(kw, "enum") {
        parse_enum(tokens, index, description)
    } else {
        parse_scalar(tokens, index, description)
    }
}

/// Whether `n` is a word that starts a definition.
fn is_definition_keyword(n: &String) -> (r: bool)
    ensures
        r == is_keyword(n@),
{
    text_is(n, "type") || text_is(n, "input") || text_is(n, "interface") || text_is(n, "union")
        || text_is(n, "enum") || text_is(n, "scalar")
}

/// Parses a whole token sequence into a document. Tokens that start no
/// definition are passed over; a description token is held for the next
/// definition keyword and dropped at any other token.
pub fn parse_document(tokens: Vec<Token>) -> (r: Result<Document, ParseError>)
    ensures
        match r {
            Ok(d) => document_spec(token_models(tokens@), 0, None) == Ok::<_, ErrorModel>(d@),
            Err(e) => document_spec(token_models(tokens@), 0, None) == Err::<
                Seq<DefinitionModel>,
                ErrorModel,
            >(e@),
        },
{
    let ghost toks = token_models(tokens@);
    let all = tokens.as_slice();
    let mut definitions: Vec<Definition> = Vec::new();
    let mut index: usize = 0;
    let mut pending: Option<String> = None;
    while index < all.len()
        invariant
            all@ == tokens@,
            toks == token_models(tokens@),
            index <= tokens@.len(),
            document_spec(toks, 0, None) == prepend_all(
                definitions@.map_values(|d: Definition| d@),
                document_spec(toks, index as int, text_model(pending)),
            ),
        decreases tokens@.len() - index,
    {
        let ghost cur = index as int;
        assert(toks[cur] == tokens@[cur]@);
        match &all[index] {
            Token::Description(d) => {
                proof {
                    lemma_document_pass(toks, cur, text_model(pending));
                }
                pending = Some(d.clone());
                index += 1;
            },
            Token::Name(n) => {
                if is_definition_keyword(n) {
                    proof {
                        lemma_document_definition(toks, cur, text_model(pending));
                    }
                    let description = pending;
                    pending = None;
                    let def = match parse_definition(all, &mut index, n, description) {
                        Ok(def) => def,
                        Err(e) => return Err(e),
                    };
                    let ghost before = definitions@;
                    let ghost rest = document_spec(toks, index as int, None);
                    definitions.push(def);
                    proof {
                        assert(definitions@.map_values(|d: Definition| d@) =~= before.map_values(
                            |d: Definition| d@,
                        ).push(definitions@.last()@));
                        lemma_prepend_all_push(before.map_values(|d: Definition| d@), definitions@.last()@, rest);
                    }
                } else {
                    proof {
                        lemma_document_pass(toks, cur, text_model(pending));
                    }
                    index += 1;
                    pending = None;
                }
            },
            _ => {
                proof {
                    lemma_document_pass(toks, cur, text_model(pending));
                }
                index += 1;
                pending = None;
            },
        }
    }
    assert(definitions@.map_values(|d: Definition| d@) + Seq::<DefinitionModel>::empty()
        =~= definitions@.map_values(|d: Definition| d@));
    Ok(Document { definitions })
}

/// The document that a source text describes, or the first error met.
pub open spec fn schema_spec(s: Seq<char>) -> Result<Seq<DefinitionModel>, ErrorModel> {
    match tokens_spec(s) {
        Ok(toks) => document_spec(toks, 0, None),
        Err(e) => Err(e),
    }
}

/// Reads a schema from its source text: tokens first, then definitions.
pub fn parse_schema(src: &str) -> (r: Result<Document, ParseError>)
    ensures
        match r {
            Ok(d) => schema_spec(src@) == Ok::<_, ErrorModel>(d@),
            Err(e) => schema_spec(src@) == Err::<Seq<DefinitionModel>, ErrorModel>(e@),
        },
{
    match generate_tokens(src) {
        Ok(tokens) => parse_document(tokens),
        Err(e) => Err(e),
    }
}

} // verus!
