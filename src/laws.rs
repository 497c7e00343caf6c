use vstd::prelude::*;

use crate::lexer::{token_start, tokens_of};
use crate::node::RootNode;
use crate::parser::Error;
use crate::rules::parses_to;
use crate::token::Token;
use crate::tree::views;

verus! {

/// Two tokens agree on everything but their rows and columns.
pub open spec fn same_token(x: Token, y: Token) -> bool {
    &&& x.kind == y.kind
    &&& x.span.text@ == y.span.text@
    &&& x.span.start.index == y.span.start.index
    &&& x.span.end.index == y.span.end.index
}

proof fn lemma_tokens_agree(cs: Seq<char>, a: Seq<Token>, b: Seq<Token>, j: int)
    requires
        tokens_of(cs, a),
        tokens_of(cs, b),
        0 <= j < a.len(),
        j < b.len(),
    ensures
        forall|k: int| 0 <= k <= j ==> same_token(#[trigger] a[k], b[k]),
        (j == a.len() - 1) == (j == b.len() - 1),
    decreases j,
{
    if j > 0 {
        lemma_tokens_agree(cs, a, b, j - 1);
        assert(same_token(a[j - 1], b[j - 1]));
    }
    assert(token_start(cs, a, j) == token_start(cs, b, j));
    if j == a.len() - 1 || j == b.len() - 1 {
        assert(j == a.len() - 1 && j == b.len() - 1);
        assert(a[j].span.text@ =~= b[j].span.text@);
    }
    assert(same_token(a[j], b[j]));
}

/// Lexing is deterministic: two token sequences of one text agree token by
/// token on kind, text and where each starts and ends.
pub proof fn lemma_lexing_is_deterministic(cs: Seq<char>, a: Seq<Token>, b: Seq<Token>)
    requires
        tokens_of(cs, a),
        tokens_of(cs, b),
    ensures
        a.len() == b.len(),
        forall|k: int| 0 <= k < a.len() ==> same_token(#[trigger] a[k], b[k]),
{
    if a.len() <= b.len() {
        lemma_tokens_agree(cs, a, b, a.len() - 1);
    } else {
        lemma_tokens_agree(cs, a, b, b.len() - 1);
    }
}

/// Parsing is deterministic: two parses of one token sequence both succeed
/// with trees of the same structure and tokens, or both fail with the same
/// error.
pub proof fn lemma_parsing_is_deterministic(
    toks: Seq<Token>,
    first: Result<RootNode, Error>,
    second: Result<RootNode, Error>,
)
    requires
        parses_to(toks, first),
        parses_to(toks, second),
    ensures
        first is Ok <==> second is Ok,
        first matches Ok(a) ==> (second matches Ok(b) && views(a.nodes) == views(b.nodes)),
        first is Err ==> first == second,
{
}

} // verus!
