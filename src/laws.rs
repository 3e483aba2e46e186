//! Properties that hold of the lexer and the parser on every input.
use vstd::prelude::*;

use crate::ast::DefinitionModel;
use crate::document::schema_spec;
use crate::grammar::{document_spec, is_keyword};
use crate::shift::lemma_shift_document;
use crate::error::ErrorModel;
use crate::lexer::{next_token_spec, skip_insignificant, tokens_spec};
use crate::token::TokenModel;

verus! {

/// An unterminated string literal consumes the rest of the input: the lexer
/// stands at the end afterwards and has no further token to give.
pub proof fn lemma_unterminated_string_ends_input(s: Seq<char>, p: int)
    requires
        0 <= p <= s.len(),
        next_token_spec(s, p).0 == Err::<TokenModel, ErrorModel>(ErrorModel::UnterminatedString),
    ensures
        next_token_spec(s, p).1 == s.len(),
        next_token_spec(s, s.len() as int) == (Ok::<_, ErrorModel>(TokenModel::Eof), s.len() as int),
{
    lemma_unterminated_string_position(s, p);
}

proof fn lemma_unterminated_string_position(s: Seq<char>, p: int)
    requires
        0 <= p <= s.len(),
        next_token_spec(s, p).0 == Err::<TokenModel, ErrorModel>(ErrorModel::UnterminatedString),
    ensures
        next_token_spec(s, p).1 == s.len(),
    decreases s.len() - p,
{
    lemma_skip_bounds(s, p);
    let q = skip_insignificant(s, p);
    if 0 <= q < s.len() {
        let c = s[q];
        if c == '"' && next_token_spec(s, p).1 != s.len() {
            let e = crate::lexer::block_string_end(s, q + 3);
            lemma_unterminated_string_position(s, e);
        } else if c == '#' && next_token_spec(s, p).1 != s.len() {
            let e = crate::lexer::comment_end(s, q + 1);
            lemma_unterminated_string_position(s, e);
        }
    }
}

proof fn lemma_skip_bounds(s: Seq<char>, p: int)
    requires
        0 <= p <= s.len(),
    ensures
        p <= skip_insignificant(s, p) <= s.len(),
    decreases s.len() - p,
{
    if 0 <= p < s.len() && crate::lexer::insignificant(s[p]) {
        lemma_skip_bounds(s, p + 1);
    }
}

/// When lexing fails, the whole parse fails with that error: no document is
/// produced from the tokens read before it.
pub proof fn lemma_lexical_error_aborts(s: Seq<char>, e: ErrorModel)
    requires
        tokens_spec(s) == Err::<Seq<TokenModel>, ErrorModel>(e),
    ensures
        schema_spec(s) == Err::<Seq<DefinitionModel>, ErrorModel>(e),
{
}

/// Parsing is a function of the source text: two parses of the same text
/// (each standing for what `parse_schema` returned, by its contract) give
/// structurally identical documents, or the same error.
pub proof fn lemma_parse_deterministic(
    s: Seq<char>,
    first: Result<Seq<DefinitionModel>, ErrorModel>,
    second: Result<Seq<DefinitionModel>, ErrorModel>,
)
    requires
        first == schema_spec(s),
        second == schema_spec(s),
    ensures
        first == second,
{
}

/// Tokens that start no definition: neither a description nor a definition
/// keyword.
pub open spec fn starts_no_definition(t: TokenModel) -> bool {
    !(t is Description) && !(t is Name && is_keyword(t->Name_0))
}

/// Top-level tokens that start no definition are dropped without a trace:
/// a document parses, after them, exactly as it parses alone.
pub proof fn lemma_skipped_prefix_leaves_no_trace(pre: Seq<TokenModel>, rest: Seq<TokenModel>)
    requires
        forall|j: int| 0 <= j < pre.len() ==> starts_no_definition(#[trigger] pre[j]),
    ensures
        document_spec(pre + rest, 0, None) == document_spec(rest, 0, None),
{
    lemma_skip_from(pre, rest, 0);
}

proof fn lemma_skip_from(pre: Seq<TokenModel>, rest: Seq<TokenModel>, j: int)
    requires
        0 <= j <= pre.len(),
        forall|k: int| 0 <= k < pre.len() ==> starts_no_definition(#[trigger] pre[k]),
    ensures
        document_spec(pre + rest, j, None) == document_spec(rest, 0, None),
    decreases pre.len() - j,
{
    if j == pre.len() {
        lemma_shift_document(pre, rest, 0, None);
    } else {
        assert((pre + rest)[j] == pre[j]);
        assert(starts_no_definition(pre[j]));
        lemma_skip_from(pre, rest, j + 1);
    }
}

/// The tokens of `directive @foo on FIELD`.
pub open spec fn directive_definition_tokens() -> Seq<TokenModel> {
    seq![
        TokenModel::Name("directive"@),
        TokenModel::At,
        TokenModel::Name("foo"@),
        TokenModel::Name("on"@),
        TokenModel::Name("FIELD"@),
    ]
}

/// A top-level `directive @foo on FIELD` is skipped: whatever follows it
/// parses to the same document, or fails the same way, as it does alone.
pub proof fn lemma_directive_definition_skipped(rest: Seq<TokenModel>)
    ensures
        document_spec(directive_definition_tokens() + rest, 0, None) == document_spec(rest, 0, None),
{
    reveal_strlit("directive");
    reveal_strlit("foo");
    reveal_strlit("on");
    reveal_strlit("FIELD");
    reveal_strlit("type");
    reveal_strlit("input");
    reveal_strlit("interface");
    reveal_strlit("union");
    reveal_strlit("enum");
    reveal_strlit("scalar");
    let pre = directive_definition_tokens();
    assert(!is_keyword("directive"@)) by {
        assert("directive"@[0] != "interface"@[0]);
    }
    assert(!is_keyword("foo"@)) by {
        assert("foo"@.len() == 3);
        assert("type"@.len() == 4);
        assert("input"@.len() == 5);
        assert("interface"@.len() == 9);
        assert("union"@.len() == 5);
        assert("enum"@.len() == 4);
        assert("scalar"@.len() == 6);
    }
    assert(!is_keyword("on"@)) by {
        assert("on"@.len() == 2);
        assert("type"@.len() == 4);
        assert("input"@.len() == 5);
        assert("interface"@.len() == 9);
        assert("union"@.len() == 5);
        assert("enum"@.len() == 4);
        assert("scalar"@.len() == 6);
    }
    assert(!is_keyword("FIELD"@)) by {
        assert("FIELD"@[0] != "input"@[0]);
        assert("FIELD"@[0] != "union"@[0]);
    }
    assert forall|j: int| 0 <= j < pre.len() implies starts_no_definition(#[trigger] pre[j]) by {
        if j == 0 {
            assert(pre[0] == TokenModel::Name("directive"@));
        } else if j == 2 {
            assert(pre[2] == TokenModel::Name("foo"@));
        } else if j == 3 {
            assert(pre[3] == TokenModel::Name("on"@));
        } else if j == 4 {
            assert(pre[4] == TokenModel::Name("FIELD"@));
        }
    }
    lemma_skipped_prefix_leaves_no_trace(pre, rest);
}

} // verus!
