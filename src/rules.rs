use vstd::prelude::*;

use crate::grammar::{is_fun, type_leaf, value_follows};
use crate::naming::{spec_pascal_snake_case, spec_snake_case};
use crate::node::{InfixOperator, PrefixOperator};
use crate::parser::{at_end, infix_operator, prefix_operator, skip_new_lines, skip_separators, Error};
use crate::precedence::{spec_operand_precedence, spec_precedence_of, Precedence};
use crate::token::{KeywordToken, LiteralToken, OperatorToken, SeparatorToken, Token, TokenKind};
use crate::node::RootNode;
use crate::tree::{absent, leaf, tree, type_view, views, Tag, Tree};

verus! {

// The grammar as functions from a token sequence and a position to the tree
// read there and the position after it, or the error that stops the parse.
// Each parser method reads exactly what its function here says. The tests
// that a position has moved on (`q <= p`) never fail for what a sub-rule
// returns; they only make each recursion visibly terminate.

pub open spec fn expect_kind(toks: Seq<Token>, p: int, kind: TokenKind) -> Result<(), Error> {
    if at_end(toks, p) {
        Err(Error::UnexpectedEndOfFile)
    } else if toks[p].kind == kind {
        Ok(())
    } else {
        Err(Error::UnexpectedToken { expected: kind, got: toks[p] })
    }
}

pub open spec fn kind_is(toks: Seq<Token>, p: int, kind: TokenKind) -> bool {
    !at_end(toks, p) && toks[p].kind == kind
}

pub open spec fn precedence_at(toks: Seq<Token>, p: int) -> Precedence {
    if at_end(toks, p) {
        Precedence::Lowest
    } else {
        spec_precedence_of(toks[p].kind)
    }
}

/// A `snake_case` identifier at `p`: its token.
pub open spec fn identifier_at(toks: Seq<Token>, p: int) -> Result<Token, Error> {
    match expect_kind(toks, p, TokenKind::Identifier) {
        Err(e) => Err(e),
        Ok(_) => if spec_snake_case(toks[p].span.text@) {
            Ok(toks[p])
        } else {
            Err(Error::InvalidIdentifier(toks[p]))
        },
    }
}

/// A `PascalCase` identifier at `p`: its token.
pub open spec fn type_identifier_at(toks: Seq<Token>, p: int) -> Result<Token, Error> {
    match expect_kind(toks, p, TokenKind::Identifier) {
        Err(e) => Err(e),
        Ok(_) => if spec_pascal_snake_case(toks[p].span.text@) {
            Ok(toks[p])
        } else {
            Err(Error::InvalidIdentifier(toks[p]))
        },
    }
}

pub open spec fn rule_type(toks: Seq<Token>, p: int) -> Result<(Tree, int), Error>
    decreases toks.len() - p, 3int,
{
    if at_end(toks, p) {
        Err(Error::UnexpectedEndOfFile)
    } else if type_leaf(toks[p]) is Some {
        Ok((type_view(type_leaf(toks[p])->0), p + 1))
    } else if is_fun(toks[p]) {
        match expect_kind(toks, p + 1, TokenKind::Operator(OperatorToken::OpenParen)) {
            Err(e) => Err(e),
            Ok(_) => rule_type_arguments(toks, p + 2, seq![]),
        }
    } else {
        Err(Error::UnknownType(toks[p]))
    }
}

/// The parameters of a function type from `p` on, after those in `acc`, up to
/// its `)`, then its optional return type.
pub open spec fn rule_type_arguments(toks: Seq<Token>, p: int, acc: Seq<Tree>) -> Result<
    (Tree, int),
    Error,
>
    decreases toks.len() - p, 5int,
{
    if at_end(toks, p) {
        Err(Error::UnexpectedEndOfFile)
    } else if toks[p].kind == TokenKind::Operator(OperatorToken::CloseParen) {
        let arguments = tree(Tag::Tuple, seq![], acc);
        if kind_is(toks, p + 1, TokenKind::Operator(OperatorToken::Arrow)) {
            match rule_type(toks, p + 2) {
                Err(e) => Err(e),
                Ok((rt, q)) => Ok((tree(Tag::TypeFunction, seq![], seq![arguments, rt]), q)),
            }
        } else {
            Ok((tree(Tag::TypeFunction, seq![], seq![arguments, absent()]), p + 1))
        }
    } else {
        match rule_type_argument(toks, p) {
            Err(e) => Err(e),
            Ok((a, q)) => if q <= p || q > toks.len() {
                Err(Error::UnexpectedEndOfFile)
            } else {
                let next = if kind_is(toks, q, TokenKind::Separator(SeparatorToken::Comma)) {
                    q + 1
                } else {
                    q
                };
                rule_type_arguments(toks, next, acc.push(a))
            },
        }
    }
}

pub open spec fn rule_type_argument(toks: Seq<Token>, p: int) -> Result<(Tree, int), Error>
    decreases toks.len() - p, 4int,
{
    let named = !at_end(toks, p) && !at_end(toks, p + 1) && toks[p + 1].kind
        == TokenKind::Operator(OperatorToken::Colon);
    if named {
        match identifier_at(toks, p) {
            Err(e) => Err(e),
            Ok(id) => match rule_type(toks, p + 2) {
                Err(e) => Err(e),
                Ok((t, q)) => Ok((tree(Tag::TypeArgument, seq![id], seq![t]), q)),
            },
        }
    } else {
        match rule_type(toks, p) {
            Err(e) => Err(e),
            Ok((t, q)) => Ok((tree(Tag::TypeArgument, seq![], seq![t]), q)),
        }
    }
}

/// The elements of a tuple from `p` on, after those in `acc`, up to and with
/// its `)`; `token` is its `(`.
pub open spec fn rule_tuple_elements(toks: Seq<Token>, p: int, token: Token, acc: Seq<Tree>) -> Result<
    (Tree, int),
    Error,
>
    decreases toks.len() - p, 9int,
{
    let q = skip_new_lines(toks, p);
    if q < p {
        Err(Error::UnexpectedEndOfFile)
    } else if at_end(toks, q) {
        Err(Error::UnexpectedEndOfFile)
    } else if toks[q].kind == TokenKind::Operator(OperatorToken::CloseParen) {
        Ok((tree(Tag::Tuple, seq![token], acc), q + 1))
    } else {
        match rule_node(toks, q, Precedence::Lowest) {
            Err(e) => Err(e),
            Ok((n, r)) => if r <= q || r > toks.len() {
                Err(Error::UnexpectedEndOfFile)
            } else {
                let next = if kind_is(toks, r, TokenKind::Separator(SeparatorToken::Comma)) {
                    r + 1
                } else {
                    r
                };
                rule_tuple_elements(toks, next, token, acc.push(n))
            },
        }
    }
}

pub open spec fn rule_tuple(toks: Seq<Token>, p: int) -> Result<(Tree, int), Error>
    decreases toks.len() - p, 3int,
{
    match expect_kind(toks, p, TokenKind::Operator(OperatorToken::OpenParen)) {
        Err(e) => Err(e),
        Ok(_) => rule_tuple_elements(toks, p + 1, toks[p], seq![]),
    }
}

/// The statements of a block from `p` on, after those in `acc`, up to and
/// with its `}`; `token` is its `{`.
pub open spec fn rule_block_elements(toks: Seq<Token>, p: int, token: Token, acc: Seq<Tree>) -> Result<
    (Tree, int),
    Error,
>
    decreases toks.len() - p, 9int,
{
    let q = skip_separators(toks, p);
    if q < p {
        Err(Error::UnexpectedEndOfFile)
    } else if at_end(toks, q) {
        Err(Error::UnexpectedEndOfFile)
    } else if toks[q].kind == TokenKind::Operator(OperatorToken::CloseCurly) {
        Ok((tree(Tag::Block, seq![token], acc), q + 1))
    } else {
        match rule_node(toks, q, Precedence::Lowest) {
            Err(e) => Err(e),
            Ok((n, r)) => if r <= q || r > toks.len() {
                Err(Error::UnexpectedEndOfFile)
            } else {
                rule_block_elements(toks, r, token, acc.push(n))
            },
        }
    }
}

pub open spec fn rule_block(toks: Seq<Token>, p: int) -> Result<(Tree, int), Error>
    decreases toks.len() - p, 3int,
{
    match expect_kind(toks, p, TokenKind::Operator(OperatorToken::OpenCurly)) {
        Err(e) => Err(e),
        Ok(_) => rule_block_elements(toks, p + 1, toks[p], seq![]),
    }
}

/// An optional value at `p`, after `break` or `return`.
pub open spec fn rule_optional_value(toks: Seq<Token>, p: int) -> Result<(Tree, int), Error>
    decreases toks.len() - p, 9int,
{
    if value_follows(toks, p) {
        rule_node(toks, p, Precedence::Lowest)
    } else {
        Ok((absent(), p))
    }
}

pub open spec fn rule_let(toks: Seq<Token>, p: int) -> Result<(Tree, int), Error>
    decreases toks.len() - p, 3int,
{
    if at_end(toks, p) {
        Err(Error::UnexpectedEndOfFile)
    } else {
    match identifier_at(toks, p + 1) {
        Err(e) => Err(e),
        Ok(id) => {
            let typed = if kind_is(toks, p + 2, TokenKind::Operator(OperatorToken::Colon)) {
                rule_type(toks, p + 3)
            } else {
                Ok((absent(), p + 2))
            };
            match typed {
                Err(e) => Err(e),
                Ok((ty, q)) => if q <= p || q > toks.len() {
                    Err(Error::UnexpectedEndOfFile)
                } else {
                    match expect_kind(toks, q, TokenKind::Operator(OperatorToken::Equals)) {
                        Err(e) => Err(e),
                        Ok(_) => match rule_node(toks, q + 1, Precedence::Lowest) {
                            Err(e) => Err(e),
                            Ok((n, r)) => Ok((tree(Tag::Let, seq![toks[p], id], seq![ty, n]), r)),
                        },
                    }
                },
            }
        },
    }
    }
}

pub open spec fn rule_if(toks: Seq<Token>, p: int) -> Result<(Tree, int), Error>
    decreases toks.len() - p, 3int,
{
    if at_end(toks, p) {
        Err(Error::UnexpectedEndOfFile)
    } else {
    match rule_node(toks, p + 1, Precedence::Lowest) {
        Err(e) => Err(e),
        Ok((condition, q)) => if q <= p || q > toks.len() {
            Err(Error::UnexpectedEndOfFile)
        } else {
            match rule_block(toks, q) {
                Err(e) => Err(e),
                Ok((then_block, r)) => if r <= p || r > toks.len() {
                    Err(Error::UnexpectedEndOfFile)
                } else if kind_is(toks, r, TokenKind::Keyword(KeywordToken::Else)) {
                    match rule_block(toks, r + 1) {
                        Err(e) => Err(e),
                        Ok((otherwise, s)) => Ok(
                            (tree(Tag::If, seq![toks[p]], seq![condition, then_block, otherwise]), s),
                        ),
                    }
                } else {
                    Ok((tree(Tag::If, seq![toks[p]], seq![condition, then_block, absent()]), r))
                },
            }
        },
    }
    }
}

pub open spec fn rule_function(toks: Seq<Token>, p: int, export: bool) -> Result<(Tree, int), Error>
    decreases toks.len() - p, 3int,
{
    if at_end(toks, p) {
        Err(Error::UnexpectedEndOfFile)
    } else {
    match identifier_at(toks, p + 1) {
        Err(e) => Err(e),
        Ok(id) => match rule_tuple(toks, p + 2) {
            Err(e) => Err(e),
            Ok((arguments, q)) => if q <= p || q > toks.len() {
                Err(Error::UnexpectedEndOfFile)
            } else {
                let return_type = if kind_is(toks, q, TokenKind::Operator(OperatorToken::Arrow)) {
                    rule_type(toks, q + 1)
                } else {
                    Ok((absent(), q))
                };
                match return_type {
                    Err(e) => Err(e),
                    Ok((rt, r)) => if r <= p || r > toks.len() {
                        Err(Error::UnexpectedEndOfFile)
                    } else {
                        match rule_block(toks, r) {
                            Err(e) => Err(e),
                            Ok((b, s)) => Ok(
                                (
                                    tree(Tag::Function(export), seq![toks[p], id], seq![arguments, rt, b]),
                                    s,
                                ),
                            ),
                        }
                    },
                }
            },
        },
    }
    }
}

pub open spec fn rule_package(toks: Seq<Token>, p: int, export: bool) -> Result<(Tree, int), Error>
    decreases toks.len() - p, 3int,
{
    if at_end(toks, p) {
        Err(Error::UnexpectedEndOfFile)
    } else {
        match identifier_at(toks, p + 1) {
            Err(e) => Err(e),
            Ok(id) => match rule_block(toks, p + 2) {
                Err(e) => Err(e),
                Ok((b, q)) => Ok((tree(Tag::Package(export), seq![toks[p], id], seq![b]), q)),
            },
        }
    }
}

pub open spec fn rule_type_declaration(toks: Seq<Token>, p: int, export: bool) -> Result<
    (Tree, int),
    Error,
>
    decreases toks.len() - p, 3int,
{
    if at_end(toks, p) {
        Err(Error::UnexpectedEndOfFile)
    } else {
        match type_identifier_at(toks, p + 1) {
            Err(e) => Err(e),
            Ok(id) => match rule_block(toks, p + 2) {
                Err(e) => Err(e),
                Ok((b, q)) => Ok(
                    (tree(Tag::TypeDeclaration(export), seq![toks[p], id], seq![b]), q),
                ),
            },
        }
    }
}

pub open spec fn rule_export(toks: Seq<Token>, p: int) -> Result<(Tree, int), Error>
    decreases toks.len() - p, 4int,
{
    let q = p + 1;
    if at_end(toks, p) || at_end(toks, q) {
        Err(Error::UnexpectedEndOfFile)
    } else if toks[q].kind == TokenKind::Keyword(KeywordToken::Function) {
        rule_function(toks, q, true)
    } else if toks[q].kind == TokenKind::Keyword(KeywordToken::Package) {
        rule_package(toks, q, true)
    } else if toks[q].kind == TokenKind::Keyword(KeywordToken::Type) {
        rule_type_declaration(toks, q, true)
    } else {
        Err(Error::UnsupportedToken(toks[q]))
    }
}

pub open spec fn rule_from(toks: Seq<Token>, p: int) -> Result<(Tree, int), Error>
    decreases toks.len() - p, 3int,
{
    if at_end(toks, p) {
        Err(Error::UnexpectedEndOfFile)
    } else {
    match rule_node(toks, p + 1, Precedence::Lowest) {
        Err(e) => Err(e),
        Ok((from_node, q)) => if at_end(toks, q) {
            Err(Error::UnexpectedEndOfFile)
        } else if toks[q].kind != TokenKind::Keyword(KeywordToken::Export) {
            Err(Error::UnsupportedToken(toks[q]))
        } else {
            match identifier_at(toks, q + 1) {
                Err(e) => Err(e),
                Ok(id) => Ok(
                    (tree(Tag::From, seq![toks[p]], seq![from_node, leaf(Tag::Identifier, id)]), q + 2),
                ),
            }
        },
    }
    }
}

/// The node that the token at `p` starts.
pub open spec fn rule_prefix(toks: Seq<Token>, p: int) -> Result<(Tree, int), Error>
    decreases toks.len() - p, 6int,
{
    if at_end(toks, p) {
        Err(Error::UnexpectedEndOfFile)
    } else {
        let t = toks[p];
        match t.kind {
            TokenKind::Literal(LiteralToken::Number) => Ok((leaf(Tag::Number, t), p + 1)),
            TokenKind::Literal(LiteralToken::String) => Ok((leaf(Tag::Str, t), p + 1)),
            TokenKind::Literal(_) => Ok((leaf(Tag::Boolean, t), p + 1)),
            TokenKind::Identifier => if spec_snake_case(t.span.text@) {
                Ok((leaf(Tag::Identifier, t), p + 1))
            } else if spec_pascal_snake_case(t.span.text@) {
                rule_type(toks, p)
            } else {
                Err(Error::InvalidIdentifier(t))
            },
            TokenKind::Operator(op) => match op {
                OperatorToken::Plus | OperatorToken::Minus | OperatorToken::Bang => match rule_node(
                    toks,
                    p + 1,
                    Precedence::Lowest,
                ) {
                    Err(e) => Err(e),
                    Ok((n, q)) => Ok(
                        (tree(Tag::Prefix(prefix_operator(t)->0), seq![], seq![n]), q),
                    ),
                },
                OperatorToken::OpenParen => rule_tuple(toks, p),
                OperatorToken::OpenCurly => rule_block(toks, p),
                _ => Err(Error::UnsupportedToken(t)),
            },
            TokenKind::Keyword(k) => match k {
                KeywordToken::Break => match rule_optional_value(toks, p + 1) {
                    Err(e) => Err(e),
                    Ok((v, q)) => Ok((tree(Tag::Break, seq![t], seq![v]), q)),
                },
                KeywordToken::Continue => Ok((leaf(Tag::Continue, t), p + 1)),
                KeywordToken::Export => rule_export(toks, p),
                KeywordToken::From => rule_from(toks, p),
                KeywordToken::Function => rule_function(toks, p, false),
                KeywordToken::If => rule_if(toks, p),
                KeywordToken::Itself => Ok((leaf(Tag::Itself, t), p + 1)),
                KeywordToken::Let => rule_let(toks, p),
                KeywordToken::Loop => match rule_block(toks, p + 1) {
                    Err(e) => Err(e),
                    Ok((b, q)) => Ok((tree(Tag::Loop, seq![t], seq![b]), q)),
                },
                KeywordToken::Package => rule_package(toks, p, false),
                KeywordToken::Return => match rule_optional_value(toks, p + 1) {
                    Err(e) => Err(e),
                    Ok((v, q)) => Ok((tree(Tag::Return, seq![t], seq![v]), q)),
                },
                KeywordToken::Type => rule_type_declaration(toks, p, false),
                KeywordToken::Else => Err(Error::UnsupportedToken(t)),
            },
            TokenKind::Separator(_) => Err(Error::UnsupportedToken(t)),
            TokenKind::EOF => Err(Error::UnexpectedEndOfFile),
        }
    }
}

/// The operator at `p` with its right-hand side, joined to `left`.
pub open spec fn rule_infix(toks: Seq<Token>, p: int, left: Tree) -> Result<(Tree, int), Error>
    decreases toks.len() - p, 6int,
{
    if at_end(toks, p) {
        Err(Error::UnexpectedEndOfFile)
    } else {
        let t = toks[p];
        match infix_operator(t) {
            None => Err(Error::UnsupportedToken(t)),
            Some(op) => {
                let right = match op {
                    InfixOperator::Call(_) => rule_tuple_elements(toks, p + 1, t, seq![]),
                    InfixOperator::Arrow(_) => rule_block(toks, p + 1),
                    _ => rule_node(toks, p + 1, spec_operand_precedence(t.kind)),
                };
                match right {
                    Err(e) => Err(e),
                    Ok((r, q)) => Ok((tree(Tag::Infix(op), seq![], seq![left, r]), q)),
                }
            },
        }
    }
}

/// Infix continuations of `left` from `p` on, while the operator there binds
/// more tightly than `precedence`.
pub open spec fn rule_infix_loop(toks: Seq<Token>, p: int, precedence: Precedence, left: Tree) -> Result<
    (Tree, int),
    Error,
>
    decreases toks.len() - p, 7int,
{
    if !(precedence.level() < precedence_at(toks, p).level()) {
        Ok((left, p))
    } else {
        match rule_infix(toks, p, left) {
            Err(e) => Err(e),
            Ok((n, q)) => if q <= p || q > toks.len() {
                Err(Error::UnexpectedEndOfFile)
            } else {
                rule_infix_loop(toks, q, precedence, n)
            },
        }
    }
}

pub open spec fn rule_node(toks: Seq<Token>, p: int, precedence: Precedence) -> Result<
    (Tree, int),
    Error,
>
    decreases toks.len() - p, 8int,
{
    let q = skip_separators(toks, p);
    if q < p || q > toks.len() {
        Err(Error::UnexpectedEndOfFile)
    } else {
        match rule_prefix(toks, q) {
            Err(e) => Err(e),
            Ok((left, r)) => if r <= q || r > toks.len() {
                Err(Error::UnexpectedEndOfFile)
            } else {
                rule_infix_loop(toks, r, precedence, left)
            },
        }
    }
}

pub open spec fn rule_statement(toks: Seq<Token>, p: int) -> Result<(Tree, int), Error>
    decreases toks.len() - p, 10int,
{
    let q = skip_separators(toks, p);
    if q < p {
        Err(Error::UnexpectedEndOfFile)
    } else if at_end(toks, q) {
        Ok((tree(Tag::Nop, seq![], seq![]), q))
    } else {
        rule_node(toks, q, Precedence::Lowest)
    }
}

/// The statements from `p` to the end, after those in `acc`.
pub open spec fn rule_statements(toks: Seq<Token>, p: int, acc: Seq<Tree>) -> Result<Seq<Tree>, Error>
    decreases toks.len() - p, 11int,
{
    if at_end(toks, p) {
        Ok(acc)
    } else {
        match rule_statement(toks, p) {
            Err(e) => Err(e),
            Ok((n, q)) => if q <= p || q > toks.len() {
                Err(Error::UnexpectedEndOfFile)
            } else {
                rule_statements(toks, q, acc.push(n))
            },
        }
    }
}

/// `r` is what parsing `toks` gives: the trees of its statements, or the
/// error that stops it.
pub open spec fn parses_to(toks: Seq<Token>, r: Result<RootNode, Error>) -> bool {
    match rule_statements(toks, 0, seq![]) {
        Ok(s) => r matches Ok(root) && views(root.nodes) == s,
        Err(e) => r == Err::<RootNode, Error>(e),
    }
}

} // verus!
