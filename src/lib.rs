//! The front end of a small expression-oriented language: a lexer that turns
//! source text into tokens, and a precedence-climbing parser that turns
//! tokens into a parse tree.
pub mod ast;
pub mod grammar;
pub mod infer;
pub mod laws;
pub mod lexer;
pub mod naming;
pub mod node;
pub mod parser;
pub mod precedence;
pub mod rules;
mod text;
pub mod token;
pub mod tree;
pub mod types;

use vstd::prelude::*;

use crate::lexer::{
    in_class, lemma_run_end_covers, lex, run_end, scan, spec_is_whitespace, tokens_of, CharClass,
};
use crate::node::RootNode;
use crate::rules::parses_to;
use crate::token::TokenKind;

verus! {

#[derive(Debug, PartialEq)]
pub enum Error {
    Lexer(lexer::Error),
    Parser(parser::Error),
}

/// A text of whitespace alone lexes to the `EOF` token alone.
proof fn lemma_blank_text_has_no_tokens(cs: Seq<char>, toks: Seq<token::Token>)
    requires
        tokens_of(cs, toks),
        run_end(cs, 0, CharClass::Whitespace) == cs.len(),
    ensures
        toks.len() == 1,
        toks[0].kind == TokenKind::EOF,
{
    if toks.len() > 1 {
        assert(crate::lexer::token_start(cs, toks, 0) < cs.len());
    }
}

/// Reads the source text `str` into its parse tree.
pub fn parse_str(str: &str) -> (r: Result<RootNode, Error>)
    requires
        str@.len() < usize::MAX,
    ensures
        r matches Err(Error::Lexer(e)) ==> exists|i: int|
            0 <= i < str@.len() && !spec_is_whitespace(str@[i]) && #[trigger] scan(str@, i)
                == Err::<(TokenKind, Seq<char>, int), lexer::Error>(e),
        run_end(str@, 0, CharClass::Whitespace) == str@.len() ==> (r matches Ok(root)
            && root.nodes@.len() == 0),
        r matches Ok(root) ==> exists|toks: Seq<token::Token>|
            tokens_of(str@, toks) && #[trigger] parses_to(toks, Ok::<RootNode, parser::Error>(root)),
        r matches Err(Error::Parser(e)) ==> exists|toks: Seq<token::Token>|
            tokens_of(str@, toks) && #[trigger] parses_to(toks, Err::<RootNode, parser::Error>(e)),
{
    let tokens = match lex(str) {
        Ok(t) => t,
        Err(e) => {
            proof {
                if run_end(str@, 0, CharClass::Whitespace) == str@.len() {
                    lemma_run_end_covers(str@, 0, CharClass::Whitespace);
                    let i = choose|i: int|
                        0 <= i < str@.len() && !spec_is_whitespace(str@[i]) && #[trigger] scan(
                            str@,
                            i,
                        ) == Err::<(TokenKind, Seq<char>, int), lexer::Error>(e);
                    assert(in_class(CharClass::Whitespace, str@[i]));
                }
            }
            return Err(Error::Lexer(e));
        },
    };
    proof {
        if run_end(str@, 0, CharClass::Whitespace) == str@.len() {
            lemma_blank_text_has_no_tokens(str@, tokens@);
        }
    }
    let ghost toks = tokens@;
    let parsed = parser::parse(tokens);
    match parsed {
        Ok(root) => {
            assert(tokens_of(str@, toks) && parses_to(toks, Ok::<RootNode, parser::Error>(root)));
            let r: Result<RootNode, Error> = Ok(root);
            assert(r->Ok_0 == root);
            r
        },
        Err(e) => {
            assert(tokens_of(str@, toks) && parses_to(toks, Err::<RootNode, parser::Error>(e)));
            Err(Error::Parser(e))
        },
    }
}

} // verus!
