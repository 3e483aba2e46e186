//! The schema grammar as spec functions over token models.
//!
//! Each function reads the token sequence `toks` from position `i` and gives
//! what it parsed together with the position after it, or the error.
use vstd::prelude::*;

use crate::ast::{
    DefinitionModel, DirectiveModel, EnumDefModel, EnumValueModel, FieldModel, InputValueModel,
    ScalarDefModel, TypeDefModel, TypeRefModel, UnionDefModel, ValueModel,
};
use crate::error::{ErrorModel, ExpectedModel};
use crate::token::TokenModel;

verus! {

/// The token at `i`, if there is one.
pub open spec fn at(toks: Seq<TokenModel>, i: int) -> Option<TokenModel> {
    if 0 <= i < toks.len() {
        Some(toks[i])
    } else {
        None
    }
}

/// The error for finding, at `i`, something other than `expected`.
pub open spec fn unexpected(expected: ExpectedModel, toks: Seq<TokenModel>, i: int) -> ErrorModel {
    if 0 <= i < toks.len() {
        ErrorModel::UnexpectedToken { expected, found: toks[i] }
    } else {
        ErrorModel::UnexpectedEof { expected }
    }
}

/// The error reported where a sub-parser would have gone backwards, which
/// never happens.
pub open spec fn stalled() -> ErrorModel {
    ErrorModel::UnexpectedEof { expected: ExpectedModel::Value }
}

/// `None` for an empty list, the list otherwise.
pub open spec fn nonempty<T>(s: Seq<T>) -> Option<Seq<T>> {
    if s.len() == 0 {
        None
    } else {
        Some(s)
    }
}

/// Puts `first` in front of a successfully parsed list.
pub open spec fn cons<T>(first: T, r: Result<(Seq<T>, int), ErrorModel>) -> Result<
    (Seq<T>, int),
    ErrorModel,
> {
    match r {
        Ok((rest, j)) => Ok((seq![first] + rest, j)),
        Err(e) => Err(e),
    }
}

/// Puts `front` before a successfully parsed list.
pub open spec fn prepend<T>(front: Seq<T>, r: Result<(Seq<T>, int), ErrorModel>) -> Result<
    (Seq<T>, int),
    ErrorModel,
> {
    match r {
        Ok((rest, j)) => Ok((front + rest, j)),
        Err(e) => Err(e),
    }
}

/// Appending one parsed item to the front part is the same as putting it
/// before the rest.
pub proof fn lemma_prepend_cons<T>(front: Seq<T>, x: T, r: Result<(Seq<T>, int), ErrorModel>)
    ensures
        prepend(front, cons(x, r)) == prepend(front.push(x), r),
{
    match r {
        Ok((rest, j)) => {
            assert(front + (seq![x] + rest) =~= front.push(x) + rest);
        },
        Err(_) => {},
    }
}

/// Puts `front` before a successfully parsed sequence.
pub open spec fn prepend_all<T>(front: Seq<T>, r: Result<Seq<T>, ErrorModel>) -> Result<Seq<T>, ErrorModel> {
    match r {
        Ok(rest) => Ok(front + rest),
        Err(e) => Err(e),
    }
}

/// Ending the list after `front`.
pub proof fn lemma_prepend_done<T>(front: Seq<T>, j: int)
    ensures
        prepend(front, Ok((Seq::<T>::empty(), j))) == Ok::<_, ErrorModel>((front, j)),
{
    assert(front + Seq::<T>::empty() =~= front);
}

/// The position after an optional comma at `i`.
pub open spec fn skip_comma(toks: Seq<TokenModel>, i: int) -> int {
    if at(toks, i) == Some(TokenModel::Comma) {
        i + 1
    } else {
        i
    }
}

pub open spec fn expect_name_spec(toks: Seq<TokenModel>, i: int) -> Result<(Seq<char>, int), ErrorModel> {
    match at(toks, i) {
        Some(TokenModel::Name(n)) => Ok((n, i + 1)),
        _ => Err(unexpected(ExpectedModel::Name, toks, i)),
    }
}

pub open spec fn expect_token_spec(toks: Seq<TokenModel>, i: int, t: TokenModel) -> Result<int, ErrorModel> {
    if at(toks, i) == Some(t) {
        Ok(i + 1)
    } else {
        Err(unexpected(ExpectedModel::Token(t), toks, i))
    }
}

pub open spec fn take_description_spec(toks: Seq<TokenModel>, i: int) -> (Option<Seq<char>>, int) {
    match at(toks, i) {
        Some(TokenModel::Description(d)) => (Some(d), i + 1),
        _ => (None, i),
    }
}

/// `Name`, `[` type `]`, either one optionally followed by `!`.
pub open spec fn type_ref_spec(toks: Seq<TokenModel>, i: int) -> Result<(TypeRefModel, int), ErrorModel>
    decreases toks.len() - i, 1nat,
{
    match type_ref_base_spec(toks, i) {
        Ok((t, j)) => if at(toks, j) == Some(TokenModel::Bang) {
            Ok((TypeRefModel::NonNull(Box::new(t)), j + 1))
        } else {
            Ok((t, j))
        },
        Err(e) => Err(e),
    }
}

/// `Name` or `[` type `]`.
pub open spec fn type_ref_base_spec(toks: Seq<TokenModel>, i: int) -> Result<
    (TypeRefModel, int),
    ErrorModel,
>
    decreases toks.len() - i, 0nat,
{
    match at(toks, i) {
        Some(TokenModel::Name(n)) => Ok((TypeRefModel::Named(n), i + 1)),
        Some(TokenModel::BracketOpen) => match type_ref_spec(toks, i + 1) {
            Ok((inner, j)) => if at(toks, j) == Some(TokenModel::BracketClose) {
                Ok((TypeRefModel::List(Box::new(inner)), j + 1))
            } else {
                Err(unexpected(ExpectedModel::ClosingBracket, toks, j))
            },
            Err(e) => Err(e),
        },
        _ => Err(unexpected(ExpectedModel::TypeRef, toks, i)),
    }
}

/// A literal value: string, integer, boolean, enum name, object or list.
pub open spec fn value_spec(toks: Seq<TokenModel>, i: int) -> Result<(ValueModel, int), ErrorModel>
    decreases toks.len() - i, 0nat,
{
    match at(toks, i) {
        Some(TokenModel::Str(s)) => Ok((ValueModel::Str(s), i + 1)),
        Some(TokenModel::Int(n)) => Ok((ValueModel::Int(n), i + 1)),
        Some(TokenModel::Boolean(b)) => Ok((ValueModel::Bool(b), i + 1)),
        Some(TokenModel::Name(n)) => if n == "true"@ {
            Ok((ValueModel::Bool(true), i + 1))
        } else if n == "false"@ {
            Ok((ValueModel::Bool(false), i + 1))
        } else {
            Ok((ValueModel::Enum(n), i + 1))
        },
        Some(TokenModel::BraceOpen) => match object_entries_spec(toks, i + 1, false) {
            Ok((es, j)) => Ok((ValueModel::Object(es), j)),
            Err(e) => Err(e),
        },
        Some(TokenModel::BracketOpen) => match list_items_spec(toks, i + 1, false) {
            Ok((vs, j)) => Ok((ValueModel::List(vs), j)),
            Err(e) => Err(e),
        },
        _ => Err(unexpected(ExpectedModel::Value, toks, i)),
    }
}

/// The entries of an object value up to and including its `}`. After a
/// comma another entry must follow.
pub open spec fn object_entries_spec(toks: Seq<TokenModel>, i: int, after_comma: bool) -> Result<
    (Seq<(Seq<char>, ValueModel)>, int),
    ErrorModel,
>
    decreases toks.len() - i, 1nat,
{
    if i < 0 || i >= toks.len() {
        Err(ErrorModel::UnexpectedEof { expected: ExpectedModel::Token(TokenModel::BraceClose) })
    } else if toks[i] == TokenModel::BraceClose && !after_comma {
        Ok((Seq::empty(), i + 1))
    } else {
        match toks[i] {
            TokenModel::Name(k) => if at(toks, i + 1) != Some(TokenModel::Colon) {
                Err(unexpected(ExpectedModel::Token(TokenModel::Colon), toks, i + 1))
            } else {
                match value_spec(toks, i + 2) {
                    Ok((v, j)) => {
                        let n = skip_comma(toks, j);
                        if n <= i || n > toks.len() {
                            Err(stalled())
                        } else {
                            cons((k, v), object_entries_spec(toks, n, n == j + 1))
                        }
                    },
                    Err(e) => Err(e),
                }
            },
            _ => Err(unexpected(ExpectedModel::Name, toks, i)),
        }
    }
}

/// The items of a list value up to and including its `]`. After a comma
/// another item must follow.
pub open spec fn list_items_spec(toks: Seq<TokenModel>, i: int, after_comma: bool) -> Result<
    (Seq<ValueModel>, int),
    ErrorModel,
>
    decreases toks.len() - i, 1nat,
{
    if i < 0 || i >= toks.len() {
        Err(ErrorModel::UnexpectedEof { expected: ExpectedModel::Token(TokenModel::BracketClose) })
    } else if toks[i] == TokenModel::BracketClose && !after_comma {
        Ok((Seq::empty(), i + 1))
    } else {
        match value_spec(toks, i) {
            Ok((v, j)) => {
                let n = skip_comma(toks, j);
                if n <= i || n > toks.len() {
                    Err(stalled())
                } else {
                    cons(v, list_items_spec(toks, n, n == j + 1))
                }
            },
            Err(e) => Err(e),
        }
    }
}

/// The `name: value` arguments of a directive up to and including its `)`.
/// After a comma another argument must follow.
pub open spec fn directive_args_spec(toks: Seq<TokenModel>, i: int, after_comma: bool) -> Result<
    (Seq<InputValueModel>, int),
    ErrorModel,
>
    decreases toks.len() - i,
{
    if i < 0 || i >= toks.len() {
        Err(ErrorModel::UnexpectedEof { expected: ExpectedModel::Token(TokenModel::ParenClose) })
    } else if toks[i] == TokenModel::ParenClose && !after_comma {
        Ok((Seq::empty(), i + 1))
    } else {
        match toks[i] {
            TokenModel::Name(k) => if at(toks, i + 1) != Some(TokenModel::Colon) {
                Err(unexpected(ExpectedModel::Token(TokenModel::Colon), toks, i + 1))
            } else {
                match value_spec(toks, i + 2) {
                    Ok((v, j)) => {
                        let n = skip_comma(toks, j);
                        let arg = InputValueModel {
                            name: k,
                            value_type: TypeRefModel::Named(Seq::empty()),
                            default_value: Some(v),
                            description: None,
                        };
                        if n <= i || n > toks.len() {
                            Err(stalled())
                        } else {
                            cons(arg, directive_args_spec(toks, n, n == j + 1))
                        }
                    },
                    Err(e) => Err(e),
                }
            },
            _ => Err(unexpected(ExpectedModel::Name, toks, i)),
        }
    }
}

/// Zero or more `@name` or `@name(args)` groups.
pub open spec fn directives_spec(toks: Seq<TokenModel>, i: int) -> Result<
    (Seq<DirectiveModel>, int),
    ErrorModel,
>
    decreases toks.len() - i,
{
    if at(toks, i) != Some(TokenModel::At) {
        Ok((Seq::empty(), i))
    } else {
        match at(toks, i + 1) {
            Some(TokenModel::Name(n)) => {
                let args = if at(toks, i + 2) == Some(TokenModel::ParenOpen) {
                    directive_args_spec(toks, i + 3, false)
                } else {
                    Ok((Seq::empty(), i + 2))
                };
                match args {
                    Ok((a, j)) => {
                        let d = DirectiveModel { name: n, arguments: nonempty(a) };
                        if j <= i || j > toks.len() {
                            Err(stalled())
                        } else {
                            cons(d, directives_spec(toks, j))
                        }
                    },
                    Err(e) => Err(e),
                }
            },
            _ => Err(unexpected(ExpectedModel::Name, toks, i + 1)),
        }
    }
}

/// The `name: Type` arguments of a field up to and including its `)`.
pub open spec fn field_args_spec(toks: Seq<TokenModel>, i: int) -> Result<
    (Seq<InputValueModel>, int),
    ErrorModel,
>
    decreases toks.len() - i,
{
    if i < 0 || i >= toks.len() {
        Err(ErrorModel::UnexpectedEof { expected: ExpectedModel::Token(TokenModel::ParenClose) })
    } else if toks[i] == TokenModel::ParenClose {
        Ok((Seq::empty(), i + 1))
    } else {
        match toks[i] {
            TokenModel::Name(k) => if at(toks, i + 1) != Some(TokenModel::Colon) {
                Err(unexpected(ExpectedModel::Token(TokenModel::Colon), toks, i + 1))
            } else {
                match type_ref_spec(toks, i + 2) {
                    Ok((t, j)) => {
                        let n = skip_comma(toks, j);
                        let arg = InputValueModel {
                            name: k,
                            value_type: t,
                            default_value: None,
                            description: None,
                        };
                        if n <= i || n > toks.len() {
                            Err(stalled())
                        } else {
                            cons(arg, field_args_spec(toks, n))
                        }
                    },
                    Err(e) => Err(e),
                }
            },
            _ => Err(unexpected(ExpectedModel::Name, toks, i)),
        }
    }
}

/// The argument that a parsed field-argument entry stands for.
pub open spec fn field_as_argument(f: FieldModel) -> InputValueModel {
    InputValueModel { name: f.name, value_type: f.field_type, default_value: None, description: None }
}

/// One field after its name: optional arguments, `:`, type, directives.
pub open spec fn field_rest_spec(toks: Seq<TokenModel>, n: Seq<char>, i: int) -> Result<
    (FieldModel, int),
    ErrorModel,
> {
    let args: Result<(Option<Seq<InputValueModel>>, int), ErrorModel> = if at(toks, i)
        == Some(TokenModel::ParenOpen) {
        match field_args_spec(toks, i + 1) {
            Ok((a, j)) => Ok((Some(a), j)),
            Err(e) => Err(e),
        }
    } else {
        Ok((None, i))
    };
    match args {
        Ok((a, j)) => match expect_token_spec(toks, j, TokenModel::Colon) {
            Ok(k) => match type_ref_spec(toks, k) {
                Ok((t, m)) => match directives_spec(toks, m) {
                    Ok((ds, e)) => Ok(
                        (
                            FieldModel {
                                name: n,
                                field_type: t,
                                arguments: a,
                                directives: nonempty(ds),
                                description: None,
                            },
                            e,
                        ),
                    ),
                    Err(err) => Err(err),
                },
                Err(err) => Err(err),
            },
            Err(err) => Err(err),
        },
        Err(err) => Err(err),
    }
}

/// The fields of a body up to and including its `}`. Reaching the end of
/// the tokens first is an error.
pub open spec fn fields_spec(toks: Seq<TokenModel>, i: int) -> Result<(Seq<FieldModel>, int), ErrorModel>
    decreases toks.len() - i,
{
    if i < 0 || i >= toks.len() {
        Err(ErrorModel::UnexpectedEof { expected: ExpectedModel::Token(TokenModel::BraceClose) })
    } else {
        match toks[i] {
            TokenModel::BraceClose => Ok((Seq::empty(), i + 1)),
            TokenModel::Name(n) => match field_rest_spec(toks, n, i + 1) {
                Ok((f, j)) => if j <= i || j > toks.len() {
                    Err(stalled())
                } else {
                    cons(f, fields_spec(toks, j))
                },
                Err(e) => Err(e),
            },
            _ => Err(ErrorModel::UnexpectedToken { expected: ExpectedModel::Field, found: toks[i] }),
        }
    }
}

/// The members of a union: names, with `|` anywhere between them.
pub open spec fn union_members_spec(toks: Seq<TokenModel>, i: int) -> (Seq<TypeRefModel>, int)
    decreases toks.len() - i,
{
    match at(toks, i) {
        Some(TokenModel::Name(n)) => {
            let (rest, j) = union_members_spec(toks, i + 1);
            (seq![TypeRefModel::Named(n)] + rest, j)
        },
        Some(TokenModel::Pipe) => union_members_spec(toks, i + 1),
        _ => (Seq::empty(), i),
    }
}

/// The values of an enum body up to and including its `}`. A description
/// goes to the next value; any other token ends the list where it stands,
/// and reaching the end of the tokens first is an error.
pub open spec fn enum_values_spec(
    toks: Seq<TokenModel>,
    i: int,
    pending: Option<Seq<char>>,
) -> Result<(Seq<EnumValueModel>, int), ErrorModel>
    decreases toks.len() - i,
{
    if i < 0 || i >= toks.len() {
        Err(ErrorModel::UnexpectedEof { expected: ExpectedModel::Token(TokenModel::BraceClose) })
    } else {
        match toks[i] {
            TokenModel::BraceClose => Ok((Seq::empty(), i + 1)),
            TokenModel::Description(d) => enum_values_spec(toks, i + 1, Some(d)),
            TokenModel::Name(n) => match directives_spec(toks, i + 1) {
                Ok((ds, j)) => {
                    let v = EnumValueModel { name: n, directives: nonempty(ds), description: pending };
                    if j <= i || j > toks.len() {
                        Err(stalled())
                    } else {
                        cons(v, enum_values_spec(toks, j, None))
                    }
                },
                Err(e) => Err(e),
            },
            _ => Ok((Seq::empty(), i)),
        }
    }
}

/// The start of a definition at `i`: a description token there is taken when
/// none was handed in, then the keyword is passed over.
pub open spec fn definition_start(
    toks: Seq<TokenModel>,
    i: int,
    description: Option<Seq<char>>,
) -> (Option<Seq<char>>, int) {
    let (lead, j) = take_description_spec(toks, i);
    (
        match description {
            Some(d) => Some(d),
            None => lead,
        },
        j + 1,
    )
}

/// `type`, `input` and `interface`: name, directives, `{`, fields.
pub open spec fn type_def_spec(
    toks: Seq<TokenModel>,
    i: int,
    description: Option<Seq<char>>,
) -> Result<(TypeDefModel, int), ErrorModel> {
    let (desc, j) = definition_start(toks, i, description);
    match expect_name_spec(toks, j) {
        Ok((name, k)) => match directives_spec(toks, k) {
            Ok((ds, m)) => match expect_token_spec(toks, m, TokenModel::BraceOpen) {
                Ok(b) => match fields_spec(toks, b) {
                    Ok((fs, e)) => Ok(
                        (
                            TypeDefModel {
                                name,
                                fields: fs,
                                directives: nonempty(ds),
                                description: desc,
                            },
                            e,
                        ),
                    ),
                    Err(err) => Err(err),
                },
                Err(err) => Err(err),
            },
            Err(err) => Err(err),
        },
        Err(err) => Err(err),
    }
}

/// `scalar`: name and directives.
pub open spec fn scalar_spec(
    toks: Seq<TokenModel>,
    i: int,
    description: Option<Seq<char>>,
) -> Result<(ScalarDefModel, int), ErrorModel> {
    let (desc, j) = definition_start(toks, i, description);
    match expect_name_spec(toks, j) {
        Ok((name, k)) => match directives_spec(toks, k) {
            Ok((ds, m)) => Ok(
                (ScalarDefModel { name, directives: nonempty(ds), description: desc }, m),
            ),
            Err(err) => Err(err),
        },
        Err(err) => Err(err),
    }
}

/// `union`: name, `=`, members.
pub open spec fn union_spec(
    toks: Seq<TokenModel>,
    i: int,
    description: Option<Seq<char>>,
) -> Result<(UnionDefModel, int), ErrorModel> {
    let (desc, j) = definition_start(toks, i, description);
    match expect_name_spec(toks, j) {
        Ok((name, k)) => match expect_token_spec(toks, k, TokenModel::Equals) {
            Ok(m) => {
                let (members, e) = union_members_spec(toks, m);
                Ok((UnionDefModel { name, members, directives: None, description: desc }, e))
            },
            Err(err) => Err(err),
        },
        Err(err) => Err(err),
    }
}

/// `enum`: name, directives, `{`, values.
pub open spec fn enum_spec(
    toks: Seq<TokenModel>,
    i: int,
    description: Option<Seq<char>>,
) -> Result<(EnumDefModel, int), ErrorModel> {
    let (desc, j) = definition_start(toks, i, description);
    match expect_name_spec(toks, j) {
        Ok((name, k)) => match directives_spec(toks, k) {
            Ok((ds, m)) => match expect_token_spec(toks, m, TokenModel::BraceOpen) {
                Ok(b) => match enum_values_spec(toks, b, None) {
                    Ok((vs, e)) => Ok(
                        (
                            EnumDefModel {
                                name,
                                values: vs,
                                directives: nonempty(ds),
                                description: desc,
                            },
                            e,
                        ),
                    ),
                    Err(err) => Err(err),
                },
                Err(err) => Err(err),
            },
            Err(err) => Err(err),
        },
        Err(err) => Err(err),
    }
}

/// Wraps a parsed definition body in its variant.
pub open spec fn wrap<T>(r: Result<(T, int), ErrorModel>, f: spec_fn(T) -> DefinitionModel) -> Result<
    (DefinitionModel, int),
    ErrorModel,
> {
    match r {
        Ok((t, j)) => Ok((f(t), j)),
        Err(e) => Err(e),
    }
}

/// The words that start a definition.
pub open spec fn is_keyword(n: Seq<char>) -> bool {
    n == "type"@ || n == "input"@ || n == "interface"@ || n == "union"@ || n == "enum"@ || n
        == "scalar"@
}

/// The definition that keyword `kw` starts at `i`.
#[verifier::opaque]
pub open spec fn definition_spec(
    toks: Seq<TokenModel>,
    i: int,
    kw: Seq<char>,
    description: Option<Seq<char>>,
) -> Result<(DefinitionModel, int), ErrorModel> {
    if kw == "type"@ {
        wrap(type_def_spec(toks, i, description), |t| DefinitionModel::Type(t))
    } else if kw == "input"@ {
        wrap(type_def_spec(toks, i, description), |t| DefinitionModel::Input(t))
    } else if kw == "interface"@ {
        wrap(type_def_spec(toks, i, description), |t| DefinitionModel::Interface(t))
    } else if kw == "union"@ {
        wrap(union_spec(toks, i, description), |u| DefinitionModel::Union(u))
    } else if kw == "enum"@ {
        wrap(enum_spec(toks, i, description), |e| DefinitionModel::Enum(e))
    } else {
        wrap(scalar_spec(toks, i, description), |s| DefinitionModel::Scalar(s))
    }
}

/// The definitions of a document from `i` on. A description is held for the
/// next keyword; every token that starts no definition is passed over.
pub open spec fn document_spec(
    toks: Seq<TokenModel>,
    i: int,
    pending: Option<Seq<char>>,
) -> Result<Seq<DefinitionModel>, ErrorModel>
    decreases toks.len() - i,
{
    if i < 0 || i >= toks.len() {
        Ok(Seq::empty())
    } else {
        match toks[i] {
            TokenModel::Description(d) => document_spec(toks, i + 1, Some(d)),
            TokenModel::Name(n) => if is_keyword(n) {
                match definition_spec(toks, i, n, pending) {
                    Ok((def, j)) => if j <= i || j > toks.len() {
                        Err(stalled())
                    } else {
                        match document_spec(toks, j, None) {
                            Ok(rest) => Ok(seq![def] + rest),
                            Err(e) => Err(e),
                        }
                    },
                    Err(e) => Err(e),
                }
            } else {
                document_spec(toks, i + 1, None)
            },
            _ => document_spec(toks, i + 1, None),
        }
    }
}

/// One step of the document scan at a definition keyword.
pub proof fn lemma_document_definition(toks: Seq<TokenModel>, i: int, pending: Option<Seq<char>>)
    requires
        0 <= i < toks.len(),
        toks[i] is Name,
        is_keyword(toks[i]->Name_0),
    ensures
        document_spec(toks, i, pending) == match definition_spec(toks, i, toks[i]->Name_0, pending) {
            Ok((def, j)) => if j <= i || j > toks.len() {
                Err(stalled())
            } else {
                prepend_all(seq![def], document_spec(toks, j, None))
            },
            Err(e) => Err(e),
        },
{
    match definition_spec(toks, i, toks[i]->Name_0, pending) {
        Ok((def, j)) => {
            if !(j <= i || j > toks.len()) {
                match document_spec(toks, j, None) {
                    Ok(rest) => {},
                    Err(_) => {},
                }
            }
        },
        Err(_) => {},
    }
}

/// One step of the document scan at any token that starts no definition.
pub proof fn lemma_document_pass(toks: Seq<TokenModel>, i: int, pending: Option<Seq<char>>)
    requires
        0 <= i < toks.len(),
        !(toks[i] is Name && is_keyword(toks[i]->Name_0)),
    ensures
        document_spec(toks, i, pending) == match toks[i] {
            TokenModel::Description(d) => document_spec(toks, i + 1, Some(d)),
            _ => document_spec(toks, i + 1, None),
        },
{
}

/// Appending one definition to the front part.
pub proof fn lemma_prepend_all_push<T>(front: Seq<T>, x: T, r: Result<Seq<T>, ErrorModel>)
    ensures
        prepend_all(front, prepend_all(seq![x], r)) == prepend_all(front.push(x), r),
{
    match r {
        Ok(rest) => {
            assert(front + (seq![x] + rest) =~= front.push(x) + rest);
        },
        Err(_) => {},
    }
}

} // verus!
