//! Parsing does not depend on what stands before the cursor: every grammar
//! function gives, after a prefix `pre`, what it gives without it, with its
//! positions moved by the length of `pre`.
use vstd::prelude::*;

use crate::error::{ErrorModel, ExpectedModel};
use crate::grammar::{
    at, definition_spec, definition_start, directive_args_spec, directives_spec, document_spec,
    enum_spec, enum_values_spec, expect_name_spec, expect_token_spec, field_args_spec,
    field_rest_spec, fields_spec, list_items_spec, object_entries_spec, scalar_spec, skip_comma,
    take_description_spec, type_def_spec, type_ref_base_spec, type_ref_spec, unexpected,
    union_members_spec, union_spec, value_spec,
};
use crate::token::TokenModel;

verus! {

/// A parse result with its end position moved by `k`.
pub open spec fn shifted<T>(r: Result<(T, int), ErrorModel>, k: int) -> Result<(T, int), ErrorModel> {
    match r {
        Ok((t, j)) => Ok((t, j + k)),
        Err(e) => Err(e),
    }
}

/// A successful result ends at or after `i`.
pub open spec fn ends_after<T>(r: Result<(T, int), ErrorModel>, i: int) -> bool {
    match r {
        Ok((_, j)) => j >= i,
        Err(_) => true,
    }
}

pub proof fn lemma_shift_at(pre: Seq<TokenModel>, rest: Seq<TokenModel>, i: int)
    requires
        0 <= i,
    ensures
        at(pre + rest, i + pre.len()) == at(rest, i),
        skip_comma(pre + rest, i + pre.len()) == skip_comma(rest, i) + pre.len(),
        forall|e: ExpectedModel| #[trigger]
            unexpected(e, pre + rest, i + pre.len()) == unexpected(e, rest, i),
        expect_name_spec(pre + rest, i + pre.len()) == shifted(expect_name_spec(rest, i), pre.len() as int),
        take_description_spec(pre + rest, i + pre.len()) == (
            take_description_spec(rest, i).0,
            take_description_spec(rest, i).1 + pre.len(),
        ),
        forall|t: TokenModel| #[trigger]
            expect_token_spec(pre + rest, i + pre.len(), t) == match expect_token_spec(rest, i, t) {
                Ok(j) => Ok::<int, ErrorModel>(j + pre.len()),
                Err(e) => Err(e),
            },
{
    if i < rest.len() {
        assert((pre + rest)[i + pre.len()] == rest[i]);
    }
}

pub proof fn lemma_shift_type_ref(pre: Seq<TokenModel>, rest: Seq<TokenModel>, i: int)
    requires
        0 <= i,
    ensures
        type_ref_spec(pre + rest, i + pre.len()) == shifted(type_ref_spec(rest, i), pre.len() as int),
        type_ref_base_spec(pre + rest, i + pre.len()) == shifted(
            type_ref_base_spec(rest, i),
            pre.len() as int,
        ),
        ends_after(type_ref_spec(rest, i), i),
        ends_after(type_ref_base_spec(rest, i), i),
    decreases rest.len() - i,
{
    lemma_shift_at(pre, rest, i);
    if at(rest, i) == Some(TokenModel::BracketOpen) {
        lemma_shift_type_ref(pre, rest, i + 1);
        if let Ok((_, j)) = type_ref_spec(rest, i + 1) {
            lemma_shift_at(pre, rest, j);
        }
    }
    if let Ok((_, j)) = type_ref_base_spec(rest, i) {
        lemma_shift_at(pre, rest, j);
    }
}

pub proof fn lemma_shift_value(pre: Seq<TokenModel>, rest: Seq<TokenModel>, i: int)
    requires
        0 <= i,
    ensures
        value_spec(pre + rest, i + pre.len()) == shifted(value_spec(rest, i), pre.len() as int),
        ends_after(value_spec(rest, i), i),
    decreases rest.len() - i, 0nat,
{
    lemma_shift_at(pre, rest, i);
    if i < rest.len() {
        lemma_shift_object(pre, rest, i + 1, false);
        lemma_shift_list(pre, rest, i + 1, false);
    }
}

pub proof fn lemma_shift_object(pre: Seq<TokenModel>, rest: Seq<TokenModel>, i: int, after_comma: bool)
    requires
        0 <= i,
    ensures
        object_entries_spec(pre + rest, i + pre.len(), after_comma) == shifted(
            object_entries_spec(rest, i, after_comma),
            pre.len() as int,
        ),
        ends_after(object_entries_spec(rest, i, after_comma), i),
    decreases rest.len() - i, 1nat,
{
    lemma_shift_at(pre, rest, i);
    lemma_shift_at(pre, rest, i + 1);
    if i < rest.len() && rest[i] is Name && at(rest, i + 1) == Some(TokenModel::Colon) {
        lemma_shift_value(pre, rest, i + 2);
        if let Ok((_, j)) = value_spec(rest, i + 2) {
            lemma_shift_at(pre, rest, j);
            let n = skip_comma(rest, j);
            if !(n <= i || n > rest.len()) {
                lemma_shift_object(pre, rest, n, n == j + 1);
            }
        }
    }
}

pub proof fn lemma_shift_list(pre: Seq<TokenModel>, rest: Seq<TokenModel>, i: int, after_comma: bool)
    requires
        0 <= i,
    ensures
        list_items_spec(pre + rest, i + pre.len(), after_comma) == shifted(
            list_items_spec(rest, i, after_comma),
            pre.len() as int,
        ),
        ends_after(list_items_spec(rest, i, after_comma), i),
    decreases rest.len() - i, 1nat,
{
    lemma_shift_at(pre, rest, i);
    if i < rest.len() {
        lemma_shift_value(pre, rest, i);
        if let Ok((_, j)) = value_spec(rest, i) {
            lemma_shift_at(pre, rest, j);
            let n = skip_comma(rest, j);
            if !(n <= i || n > rest.len()) {
                lemma_shift_list(pre, rest, n, n == j + 1);
            }
        }
    }
}

pub proof fn lemma_shift_directive_args(
    pre: Seq<TokenModel>,
    rest: Seq<TokenModel>,
    i: int,
    after_comma: bool,
)
    requires
        0 <= i,
    ensures
        directive_args_spec(pre + rest, i + pre.len(), after_comma) == shifted(
            directive_args_spec(rest, i, after_comma),
            pre.len() as int,
        ),
        ends_after(directive_args_spec(rest, i, after_comma), i),
    decreases rest.len() - i,
{
    lemma_shift_at(pre, rest, i);
    lemma_shift_at(pre, rest, i + 1);
    if i < rest.len() && rest[i] is Name && at(rest, i + 1) == Some(TokenModel::Colon) {
        lemma_shift_value(pre, rest, i + 2);
        if let Ok((_, j)) = value_spec(rest, i + 2) {
            lemma_shift_at(pre, rest, j);
            let n = skip_comma(rest, j);
            if !(n <= i || n > rest.len()) {
                lemma_shift_directive_args(pre, rest, n, n == j + 1);
            }
        }
    }
}

pub proof fn lemma_shift_directives(pre: Seq<TokenModel>, rest: Seq<TokenModel>, i: int)
    requires
        0 <= i,
    ensures
        directives_spec(pre + rest, i + pre.len()) == shifted(directives_spec(rest, i), pre.len() as int),
        ends_after(directives_spec(rest, i), i),
    decreases rest.len() - i,
{
    lemma_shift_at(pre, rest, i);
    lemma_shift_at(pre, rest, i + 1);
    lemma_shift_at(pre, rest, i + 2);
    lemma_shift_directive_args(pre, rest, i + 3, false);
    if at(rest, i) == Some(TokenModel::At) && at(rest, i + 1) is Some && at(rest, i + 1)->Some_0 is Name {
        let args = if at(rest, i + 2) == Some(TokenModel::ParenOpen) {
            directive_args_spec(rest, i + 3, false)
        } else {
            Ok((Seq::empty(), i + 2))
        };
        if let Ok((_, j)) = args {
            if !(j <= i || j > rest.len()) {
                lemma_shift_directives(pre, rest, j);
            }
        }
    }
}

pub proof fn lemma_shift_field_args(pre: Seq<TokenModel>, rest: Seq<TokenModel>, i: int)
    requires
        0 <= i,
    ensures
        field_args_spec(pre + rest, i + pre.len()) == shifted(field_args_spec(rest, i), pre.len() as int),
        ends_after(field_args_spec(rest, i), i),
    decreases rest.len() - i,
{
    lemma_shift_at(pre, rest, i);
    lemma_shift_at(pre, rest, i + 1);
    if i < rest.len() && rest[i] is Name && at(rest, i + 1) == Some(TokenModel::Colon) {
        lemma_shift_type_ref(pre, rest, i + 2);
        if let Ok((_, j)) = type_ref_spec(rest, i + 2) {
            lemma_shift_at(pre, rest, j);
            let n = skip_comma(rest, j);
            if !(n <= i || n > rest.len()) {
                lemma_shift_field_args(pre, rest, n);
            }
        }
    }
}

pub proof fn lemma_shift_field_rest(pre: Seq<TokenModel>, rest: Seq<TokenModel>, n: Seq<char>, i: int)
    requires
        0 <= i,
    ensures
        field_rest_spec(pre + rest, n, i + pre.len()) == shifted(
            field_rest_spec(rest, n, i),
            pre.len() as int,
        ),
        ends_after(field_rest_spec(rest, n, i), i),
{
    lemma_shift_at(pre, rest, i);
    lemma_shift_field_args(pre, rest, i + 1);
    let args: Result<(Option<Seq<crate::ast::InputValueModel>>, int), ErrorModel> = if at(rest, i)
        == Some(TokenModel::ParenOpen) {
        match field_args_spec(rest, i + 1) {
            Ok((a, j)) => Ok((Some(a), j)),
            Err(e) => Err(e),
        }
    } else {
        Ok((None, i))
    };
    if let Ok((_, j)) = args {
        lemma_shift_at(pre, rest, j);
        lemma_shift_type_ref(pre, rest, j + 1);
        if let Ok((_, m)) = type_ref_spec(rest, j + 1) {
            lemma_shift_directives(pre, rest, m);
        }
    }
}

pub proof fn lemma_shift_fields(pre: Seq<TokenModel>, rest: Seq<TokenModel>, i: int)
    requires
        0 <= i,
    ensures
        fields_spec(pre + rest, i + pre.len()) == shifted(fields_spec(rest, i), pre.len() as int),
        ends_after(fields_spec(rest, i), i),
    decreases rest.len() - i,
{
    lemma_shift_at(pre, rest, i);
    if i < rest.len() && rest[i] is Name {
        let n = rest[i]->Name_0;
        lemma_shift_field_rest(pre, rest, n, i + 1);
        if let Ok((_, j)) = field_rest_spec(rest, n, i + 1) {
            if !(j <= i || j > rest.len()) {
                lemma_shift_fields(pre, rest, j);
            }
        }
    }
}

pub proof fn lemma_shift_union_members(pre: Seq<TokenModel>, rest: Seq<TokenModel>, i: int)
    requires
        0 <= i,
    ensures
        union_members_spec(pre + rest, i + pre.len()) == (
            union_members_spec(rest, i).0,
            union_members_spec(rest, i).1 + pre.len(),
        ),
        union_members_spec(rest, i).1 >= i,
    decreases rest.len() - i,
{
    lemma_shift_at(pre, rest, i);
    if at(rest, i) is Some && (at(rest, i)->Some_0 is Name || at(rest, i)->Some_0 is Pipe) {
        lemma_shift_union_members(pre, rest, i + 1);
    }
}

pub proof fn lemma_shift_enum_values(
    pre: Seq<TokenModel>,
    rest: Seq<TokenModel>,
    i: int,
    pending: Option<Seq<char>>,
)
    requires
        0 <= i,
    ensures
        enum_values_spec(pre + rest, i + pre.len(), pending) == shifted(
            enum_values_spec(rest, i, pending),
            pre.len() as int,
        ),
        ends_after(enum_values_spec(rest, i, pending), i),
    decreases rest.len() - i,
{
    lemma_shift_at(pre, rest, i);
    if i < rest.len() {
        if let TokenModel::Description(d) = rest[i] {
            lemma_shift_enum_values(pre, rest, i + 1, Some(d));
        } else if rest[i] is Name {
            lemma_shift_directives(pre, rest, i + 1);
            if let Ok((_, j)) = directives_spec(rest, i + 1) {
                if !(j <= i || j > rest.len()) {
                    lemma_shift_enum_values(pre, rest, j, None);
                }
            }
        }
    }
}

/// Each kind of definition, after a prefix.
pub proof fn lemma_shift_definitions(
    pre: Seq<TokenModel>,
    rest: Seq<TokenModel>,
    i: int,
    description: Option<Seq<char>>,
)
    requires
        0 <= i,
    ensures
        type_def_spec(pre + rest, i + pre.len(), description) == shifted(
            type_def_spec(rest, i, description),
            pre.len() as int,
        ),
        scalar_spec(pre + rest, i + pre.len(), description) == shifted(
            scalar_spec(rest, i, description),
            pre.len() as int,
        ),
        union_spec(pre + rest, i + pre.len(), description) == shifted(
            union_spec(rest, i, description),
            pre.len() as int,
        ),
        enum_spec(pre + rest, i + pre.len(), description) == shifted(
            enum_spec(rest, i, description),
            pre.len() as int,
        ),
        forall|kw: Seq<char>| #[trigger]
            definition_spec(pre + rest, i + pre.len(), kw, description) == shifted(
                definition_spec(rest, i, kw, description),
                pre.len() as int,
            ),
{
    lemma_shift_at(pre, rest, i);
    let (desc, j) = definition_start(rest, i, description);
    lemma_shift_at(pre, rest, j);
    if let Ok((_, k)) = expect_name_spec(rest, j) {
        lemma_shift_at(pre, rest, k);
        lemma_shift_directives(pre, rest, k);
        lemma_shift_union_members(pre, rest, k + 1);
        if let Ok((_, m)) = directives_spec(rest, k) {
            lemma_shift_at(pre, rest, m);
            lemma_shift_fields(pre, rest, m + 1);
            lemma_shift_enum_values(pre, rest, m + 1, None);
        }
    }
    reveal(definition_spec);
}

/// The document scan after a prefix gives the same definitions.
pub proof fn lemma_shift_document(
    pre: Seq<TokenModel>,
    rest: Seq<TokenModel>,
    i: int,
    pending: Option<Seq<char>>,
)
    requires
        0 <= i,
    ensures
        document_spec(pre + rest, i + pre.len(), pending) == document_spec(rest, i, pending),
    decreases rest.len() - i,
{
    lemma_shift_at(pre, rest, i);
    if i < rest.len() {
        match rest[i] {
            TokenModel::Description(d) => {
                lemma_shift_document(pre, rest, i + 1, Some(d));
            },
            TokenModel::Name(n) => {
                if crate::grammar::is_keyword(n) {
                    lemma_shift_definitions(pre, rest, i, pending);
                    if let Ok((_, j)) = definition_spec(rest, i, n, pending) {
                        if !(j <= i || j > rest.len()) {
                            lemma_shift_document(pre, rest, j, None);
                        }
                    }
                } else {
                    lemma_shift_document(pre, rest, i + 1, None);
                }
            },
            _ => {
                lemma_shift_document(pre, rest, i + 1, None);
            },
        }
    }
}

} // verus!
