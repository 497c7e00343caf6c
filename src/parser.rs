use vstd::prelude::*;

use crate::naming::{is_pascal_snake_case, is_snake_case, spec_pascal_snake_case, spec_snake_case};
use crate::node::{
    BlockNode, IdentifierNode, InfixNode, InfixOperator, ItselfNode, LiteralBooleanNode,
    LiteralNode, LiteralNumberNode, LiteralStringNode, Node, PrefixNode, PrefixOperator, RootNode,
    TupleNode,
};
use crate::precedence::{
    operand_precedence, precedence_of, spec_operand_precedence, spec_precedence_of, Precedence,
};
use crate::rules::{parses_to, rule_infix, rule_infix_loop, rule_node, rule_prefix, rule_statement, rule_statements};
use crate::text::chars_of;
use crate::tree::{view, views, Tree};
use crate::token::{
    copy_token, KeywordToken, LiteralToken, OperatorToken, SeparatorToken, Token, TokenKind,
};

verus! {

#[derive(Debug, PartialEq)]
pub enum Error {
    UnexpectedEndOfFile,
    UnexpectedToken { expected: TokenKind, got: Token },
    /// A number literal whose text is no number; kept for stages that read
    /// the text of number literals.
    UnsupportedNumber(String),
    UnsupportedToken(Token),
    UnknownType(Token),
    InvalidIdentifier(Token),
}

impl Error {
    pub fn eof() -> (r: Error)
        ensures
            r == Error::UnexpectedEndOfFile,
    {
        Error::UnexpectedEndOfFile
    }

    pub fn unexpected(expected: TokenKind, got: Token) -> (r: Error)
        ensures
            r == (Error::UnexpectedToken { expected, got }),
    {
        Error::UnexpectedToken { expected, got }
    }

    pub fn unsupported(token: Token) -> (r: Error)
        ensures
            r == Error::UnsupportedToken(token),
    {
        Error::UnsupportedToken(token)
    }
}

/// Whether the cursor at `p` has run out of tokens: past the last one or at
/// an `EOF` token.
pub open spec fn at_end(toks: Seq<Token>, p: int) -> bool {
    p < 0 || p >= toks.len() || toks[p].kind == TokenKind::EOF
}

/// The first position at or after `p` that holds no separator.
pub open spec fn skip_separators(toks: Seq<Token>, p: int) -> int
    decreases toks.len() - p,
{
    if 0 <= p < toks.len() && toks[p].kind is Separator {
        skip_separators(toks, p + 1)
    } else {
        p
    }
}

/// The first position at or after `p` that holds no line break.
pub open spec fn skip_new_lines(toks: Seq<Token>, p: int) -> int
    decreases toks.len() - p,
{
    if 0 <= p < toks.len() && toks[p].kind == TokenKind::Separator(SeparatorToken::NewLine) {
        skip_new_lines(toks, p + 1)
    } else {
        p
    }
}

/// The infix operator that a token stands for, if any.
pub open spec fn infix_operator(t: Token) -> Option<InfixOperator> {
    match t.kind {
        TokenKind::Operator(op) => match op {
            OperatorToken::OpenParen => Some(InfixOperator::Call(t)),
            OperatorToken::Plus => Some(InfixOperator::Add(t)),
            OperatorToken::Minus => Some(InfixOperator::Subtract(t)),
            OperatorToken::Asterisk => Some(InfixOperator::Multiply(t)),
            OperatorToken::Slash => Some(InfixOperator::Divide(t)),
            OperatorToken::Percent => Some(InfixOperator::Modulo(t)),
            OperatorToken::Equals => Some(InfixOperator::Assign(t)),
            OperatorToken::DoubleEquals => Some(InfixOperator::Equal(t)),
            OperatorToken::BangEquals => Some(InfixOperator::NotEqual(t)),
            OperatorToken::LeftAngle => Some(InfixOperator::LessThan(t)),
            OperatorToken::LeftAngleEquals => Some(InfixOperator::LessThanOrEqual(t)),
            OperatorToken::RightAngle => Some(InfixOperator::GreaterThan(t)),
            OperatorToken::RightAngleEquals => Some(InfixOperator::GreaterThanOrEqual(t)),
            OperatorToken::Colon => Some(InfixOperator::TypeAscription(t)),
            OperatorToken::Arrow => Some(InfixOperator::Arrow(t)),
            OperatorToken::Dot => Some(InfixOperator::AccessProperty(t)),
            OperatorToken::DoubleColon => Some(InfixOperator::AccessPackage(t)),
            _ => None,
        },
        _ => None,
    }
}

/// The prefix operator that a token stands for, if any.
pub open spec fn prefix_operator(t: Token) -> Option<PrefixOperator> {
    match t.kind {
        TokenKind::Operator(OperatorToken::Plus) => Some(PrefixOperator::Plus(t)),
        TokenKind::Operator(OperatorToken::Minus) => Some(PrefixOperator::Negate(t)),
        TokenKind::Operator(OperatorToken::Bang) => Some(PrefixOperator::Not(t)),
        _ => None,
    }
}

/// The node that a token makes on its own where a node starts: a literal, a
/// `snake_case` identifier, `self` or `continue`.
pub open spec fn leaf_node(t: Token) -> Option<Node> {
    match t.kind {
        TokenKind::Literal(LiteralToken::Number) => Some(
            Node::Literal(LiteralNode::Number(LiteralNumberNode(t))),
        ),
        TokenKind::Literal(LiteralToken::String) => Some(
            Node::Literal(LiteralNode::String(LiteralStringNode(t))),
        ),
        TokenKind::Literal(LiteralToken::True) => Some(
            Node::Literal(LiteralNode::Boolean(LiteralBooleanNode(t))),
        ),
        TokenKind::Literal(LiteralToken::False) => Some(
            Node::Literal(LiteralNode::Boolean(LiteralBooleanNode(t))),
        ),
        TokenKind::Keyword(KeywordToken::Itself) => Some(Node::Itself(ItselfNode(t))),
        TokenKind::Keyword(KeywordToken::Continue) => Some(
            Node::Continue(crate::node::ContinueNode { token: t }),
        ),
        TokenKind::Identifier => if spec_snake_case(t.span.text@) {
            Some(Node::Identifier(IdentifierNode(t)))
        } else {
            None
        },
        _ => None,
    }
}

/// The error that a token gives where a node starts, if it can start none.
pub open spec fn prefix_error(t: Token) -> Option<Error> {
    match t.kind {
        TokenKind::Identifier => if !spec_snake_case(t.span.text@) && !spec_pascal_snake_case(
            t.span.text@,
        ) {
            Some(Error::InvalidIdentifier(t))
        } else {
            None
        },
        TokenKind::Operator(op) => match op {
            OperatorToken::Plus | OperatorToken::Minus | OperatorToken::Bang
            | OperatorToken::OpenParen | OperatorToken::OpenCurly => None,
            _ => Some(Error::UnsupportedToken(t)),
        },
        TokenKind::Keyword(KeywordToken::Else) => Some(Error::UnsupportedToken(t)),
        TokenKind::Separator(_) => Some(Error::UnsupportedToken(t)),
        TokenKind::EOF => Some(Error::UnexpectedEndOfFile),
        _ => None,
    }
}

/// What a node read from the leading token `t` is like, for the tokens that
/// start a compound node.
pub open spec fn prefix_shape(t: Token, n: Node) -> bool {
    match t.kind {
        TokenKind::Operator(OperatorToken::Plus) | TokenKind::Operator(OperatorToken::Minus)
        | TokenKind::Operator(OperatorToken::Bang) => n matches Node::Prefix(p) && Some(
            p.operator,
        ) == prefix_operator(t),
        TokenKind::Operator(OperatorToken::OpenParen) => n matches Node::Tuple(tn) && tn.token
            == t,
        TokenKind::Operator(OperatorToken::OpenCurly) => n matches Node::Block(b) && b.token == t,
        TokenKind::Keyword(k) => match k {
            KeywordToken::Break => n matches Node::Break(b) && b.token == t,
            KeywordToken::From => n matches Node::From(crate::node::FromNode::Export(e))
                && e.token == t,
            KeywordToken::Function => n matches Node::FunctionDeclaration(f) && f.token == t
                && !f.modifiers.export,
            KeywordToken::If => n matches Node::If(i) && i.token == t,
            KeywordToken::Let => n matches Node::Let(d) && d.token == t,
            KeywordToken::Loop => n matches Node::Loop(l) && l.token == t,
            KeywordToken::Package => n matches Node::PackageDeclaration(p) && p.token == t
                && !p.modifiers.export,
            KeywordToken::Return => n matches Node::Return(r) && r.token == t,
            KeywordToken::Type => n matches Node::TypeDeclaration(d) && d.token == t
                && !d.modifiers.export,
            KeywordToken::Export => {
                ||| n matches Node::FunctionDeclaration(f) && f.modifiers.export
                ||| n matches Node::PackageDeclaration(p) && p.modifiers.export
                ||| n matches Node::TypeDeclaration(d) && d.modifiers.export
            },
            _ => Some(n) == leaf_node(t),
        },
        TokenKind::Identifier => if spec_snake_case(t.span.text@) {
            Some(n) == leaf_node(t)
        } else {
            n is Type
        },
        _ => Some(n) == leaf_node(t),
    }
}

/// A cursor over a token sequence, and the parser that reads it.
pub struct Parser {
    pub tokens: Vec<Token>,
    pub pos: usize,
}

pub fn parse(tokens: Vec<Token>) -> (r: Result<RootNode, Error>)
    ensures
        parses_to(tokens@, r),
        at_end(tokens@, 0) ==> (r matches Ok(root) && root.nodes@.len() == 0),
{
    let mut parser = Parser::new(tokens);
    parser.parse()
}

impl Parser {
    pub open spec fn wf(&self) -> bool {
        self.pos <= self.tokens@.len()
    }

    /// The parser's state is `old`'s, with the cursor moved on to `p`.
    pub open spec fn moved(&self, old: &Parser) -> bool {
        &&& self.wf()
        &&& self.tokens == old.tokens
        &&& old.pos <= self.pos
    }

    pub fn new(tokens: Vec<Token>) -> (r: Parser)
        ensures
            r.tokens == tokens,
            r.pos == 0,
            r.wf(),
    {
        Parser { tokens, pos: 0 }
    }

    pub fn is_eof(&self) -> (r: bool)
        requires
            self.wf(),
        ensures
            r == at_end(self.tokens@, self.pos as int),
            self.tokens@.len() <= usize::MAX,
    {
        self.pos >= self.tokens.len() || self.tokens[self.pos].kind == TokenKind::EOF
    }

    pub fn current(&self) -> (r: Result<&Token, Error>)
        requires
            self.wf(),
        ensures
            at_end(self.tokens@, self.pos as int) ==> r == Err::<&Token, Error>(
                Error::UnexpectedEndOfFile,
            ),
            !at_end(self.tokens@, self.pos as int) ==> (r matches Ok(t) && *t
                == self.tokens@[self.pos as int]),
    {
        if self.is_eof() {
            Err(Error::UnexpectedEndOfFile)
        } else {
            Ok(&self.tokens[self.pos])
        }
    }

    /// The token after the current one.
    pub fn peek(&self) -> (r: Result<&Token, Error>)
        requires
            self.wf(),
        ensures
            at_end(self.tokens@, self.pos as int) || at_end(self.tokens@, self.pos + 1) ==> r
                == Err::<&Token, Error>(Error::UnexpectedEndOfFile),
            !at_end(self.tokens@, self.pos as int) && !at_end(self.tokens@, self.pos + 1) ==> (r
                matches Ok(t) && *t == self.tokens@[self.pos + 1]),
    {
        if self.is_eof() || self.pos + 1 >= self.tokens.len() || self.tokens[self.pos + 1].kind
            == TokenKind::EOF {
            Err(Error::UnexpectedEndOfFile)
        } else {
            Ok(&self.tokens[self.pos + 1])
        }
    }

    pub fn advance(&mut self) -> (r: Result<Token, Error>)
        requires
            old(self).wf(),
        ensures
            final(self).wf(),
            final(self).tokens == old(self).tokens,
            at_end(old(self).tokens@, old(self).pos as int) ==> r == Err::<Token, Error>(
                Error::UnexpectedEndOfFile,
            ) && final(self).pos == old(self).pos,
            !at_end(old(self).tokens@, old(self).pos as int) ==> r == Ok::<Token, Error>(
                old(self).tokens@[old(self).pos as int],
            ) && final(self).pos == old(self).pos + 1,
    {
        if self.is_eof() {
            return Err(Error::UnexpectedEndOfFile);
        }
        let t = copy_token(&self.tokens[self.pos]);
        self.pos = self.pos + 1;
        Ok(t)
    }

    pub fn current_expect(&self, expected: TokenKind) -> (r: Result<(), Error>)
        requires
            self.wf(),
        ensures
            r == self.expect_at(self.pos as int, expected),
    {
        let got = match self.current() {
            Ok(t) => t,
            Err(e) => {
                return Err(e);
            },
        };
        if got.kind == expected {
            Ok(())
        } else {
            Err(Error::unexpected(expected, copy_token(got)))
        }
    }

    /// What checking for a token of kind `expected` at `p` gives.
    pub open spec fn expect_at(&self, p: int, expected: TokenKind) -> Result<(), Error> {
        if at_end(self.tokens@, p) {
            Err(Error::UnexpectedEndOfFile)
        } else if self.tokens@[p].kind == expected {
            Ok(())
        } else {
            Err(Error::UnexpectedToken { expected, got: self.tokens@[p] })
        }
    }

    pub fn current_expect_literal(&self, literal: LiteralToken) -> (r: Result<(), Error>)
        requires
            self.wf(),
        ensures
            r == self.expect_at(self.pos as int, TokenKind::Literal(literal)),
    {
        self.current_expect(TokenKind::Literal(literal))
    }

    pub fn peek_expect(&self, expected: TokenKind) -> (r: Result<(), Error>)
        requires
            self.wf(),
        ensures
            at_end(self.tokens@, self.pos as int) ==> r == Err::<(), Error>(
                Error::UnexpectedEndOfFile,
            ),
            !at_end(self.tokens@, self.pos as int) ==> r == self.expect_at(self.pos + 1, expected),
    {
        let got = match self.peek() {
            Ok(t) => t,
            Err(e) => {
                return Err(e);
            },
        };
        if got.kind == expected {
            Ok(())
        } else {
            Err(Error::unexpected(expected, copy_token(got)))
        }
    }

    /// Moves past the current token if it is of kind `expected`, and hands it
    /// back; otherwise fails as `current_expect` does and stays.
    pub fn consume(&mut self, expected: TokenKind) -> (r: Result<Token, Error>)
        requires
            old(self).wf(),
        ensures
            final(self).wf(),
            final(self).tokens == old(self).tokens,
            match old(self).expect_at(old(self).pos as int, expected) {
                Ok(_) => r == Ok::<Token, Error>(old(self).tokens@[old(self).pos as int])
                    && final(self).pos == old(self).pos + 1,
                Err(e) => r == Err::<Token, Error>(e) && final(self).pos == old(self).pos,
            },
    {
        match self.current_expect(expected) {
            Ok(_) => {},
            Err(e) => {
                return Err(e);
            },
        }
        self.advance()
    }

    pub fn consume_literal(&mut self, expected: LiteralToken) -> (r: Result<Token, Error>)
        requires
            old(self).wf(),
        ensures
            final(self).wf(),
            final(self).tokens == old(self).tokens,
            match old(self).expect_at(old(self).pos as int, TokenKind::Literal(expected)) {
                Ok(_) => r == Ok::<Token, Error>(old(self).tokens@[old(self).pos as int])
                    && final(self).pos == old(self).pos + 1,
                Err(e) => r == Err::<Token, Error>(e) && final(self).pos == old(self).pos,
            },
    {
        self.consume(TokenKind::Literal(expected))
    }

    /// Moves past the current token if it is of kind `expected`; says whether
    /// it did.
    pub fn consume_if(&mut self, expected: TokenKind) -> (r: bool)
        requires
            old(self).wf(),
        ensures
            final(self).wf(),
            final(self).tokens == old(self).tokens,
            r == (old(self).expect_at(old(self).pos as int, expected) is Ok),
            final(self).pos == if r {
                old(self).pos + 1
            } else {
                old(self).pos as int
            },
    {
        if self.is_eof() || self.tokens[self.pos].kind != expected {
            false
        } else {
            self.pos = self.pos + 1;
            true
        }
    }

    /// The binding power of the current token; `Lowest` at the end.
    pub fn current_precedence(&self) -> (r: Result<Precedence, Error>)
        requires
            self.wf(),
        ensures
            r == Ok::<Precedence, Error>(self.precedence_at(self.pos as int)),
    {
        if self.is_eof() {
            return Ok(Precedence::Lowest);
        }
        Ok(precedence_of(self.tokens[self.pos].kind))
    }

    pub open spec fn precedence_at(&self, p: int) -> Precedence {
        if at_end(self.tokens@, p) {
            Precedence::Lowest
        } else {
            spec_precedence_of(self.tokens@[p].kind)
        }
    }

    pub fn skip_separators(&mut self)
        requires
            old(self).wf(),
        ensures
            final(self).moved(old(self)),
            final(self).pos == skip_separators(old(self).tokens@, old(self).pos as int),
    {
        while self.pos < self.tokens.len() && matches!(self.tokens[self.pos].kind, TokenKind::Separator(_))
            invariant
                self.moved(old(self)),
                skip_separators(self.tokens@, self.pos as int) == skip_separators(
                    old(self).tokens@,
                    old(self).pos as int,
                ),
            decreases self.tokens@.len() - self.pos,
        {
            self.pos = self.pos + 1;
        }
    }

    pub fn skip_new_lines(&mut self)
        requires
            old(self).wf(),
        ensures
            final(self).moved(old(self)),
            final(self).pos == skip_new_lines(old(self).tokens@, old(self).pos as int),
    {
        while self.pos < self.tokens.len() && self.tokens[self.pos].kind == TokenKind::Separator(
            SeparatorToken::NewLine,
        )
            invariant
                self.moved(old(self)),
                skip_new_lines(self.tokens@, self.pos as int) == skip_new_lines(
                    old(self).tokens@,
                    old(self).pos as int,
                ),
            decreases self.tokens@.len() - self.pos,
        {
            self.pos = self.pos + 1;
        }
    }

    /// Reads every statement up to the end of the tokens.
    pub fn parse(&mut self) -> (r: Result<RootNode, Error>)
        requires
            old(self).wf(),
        ensures
            final(self).moved(old(self)),
            match rule_statements(old(self).tokens@, old(self).pos as int, seq![]) {
                Ok(s) => r matches Ok(root) && views(root.nodes) == s,
                Err(e) => r == Err::<RootNode, Error>(e),
            },
            at_end(old(self).tokens@, old(self).pos as int) ==> (r matches Ok(root)
                && root.nodes@.len() == 0),
            r is Ok ==> at_end(final(self).tokens@, final(self).pos as int),
    {
        let mut nodes: Vec<Node> = Vec::new();
        proof {
            assert(views(nodes) =~= seq![]);
        }
        while !self.is_eof()
            invariant
                self.moved(old(self)),
                rule_statements(self.tokens@, self.pos as int, views(nodes)) == rule_statements(
                    old(self).tokens@,
                    old(self).pos as int,
                    seq![],
                ),
                at_end(old(self).tokens@, old(self).pos as int) ==> nodes@.len() == 0
                    && self.pos == old(self).pos,
            decreases self.tokens@.len() - self.pos,
        {
            let node = match self.parse_statement() {
                Ok(n) => n,
                Err(e) => {
                    return Err(e);
                },
            };
            let ghost node_view = view(node);
            let ghost before = views(nodes);
            nodes.push(node);
            proof {
                assert(views(nodes) =~= before.push(node_view));
            }
        }
        Ok(RootNode { nodes })
    }

    /// Reads one statement after any separators; at the end of the tokens that
    /// is the empty statement `Nop`.
    pub fn parse_statement(&mut self) -> (r: Result<Node, Error>)
        requires
            old(self).wf(),
        ensures
            final(self).moved(old(self)),
            match rule_statement(old(self).tokens@, old(self).pos as int) {
                Ok((t, q)) => r matches Ok(n) && view(n) == t && final(self).pos == q,
                Err(e) => r == Err::<Node, Error>(e),
            },
            at_end(old(self).tokens@, skip_separators(old(self).tokens@, old(self).pos as int))
                ==> r == Ok::<Node, Error>(Node::Nop),
            !at_end(old(self).tokens@, old(self).pos as int) && r is Ok ==> old(self).pos
                < final(self).pos,
        decreases old(self).tokens@.len() - old(self).pos, 6int,
    {
        self.skip_separators();
        if self.is_eof() {
            return Ok(Node::Nop);
        }
        self.parse_node(Precedence::Lowest)
    }

    /// Reads a node whose operators all bind more tightly than `precedence`
    /// (precedence climbing): a prefix node, then infix continuations while
    /// the next operator binds more tightly.
    pub fn parse_node(&mut self, precedence: Precedence) -> (r: Result<Node, Error>)
        requires
            old(self).wf(),
        ensures
            final(self).moved(old(self)),
            match rule_node(old(self).tokens@, old(self).pos as int, precedence) {
                Ok((t, q)) => r matches Ok(n) && view(n) == t && final(self).pos == q,
                Err(e) => r == Err::<Node, Error>(e),
            },
            at_end(old(self).tokens@, skip_separators(old(self).tokens@, old(self).pos as int))
                ==> r == Err::<Node, Error>(Error::UnexpectedEndOfFile),
            r is Ok ==> old(self).pos < final(self).pos,
            r is Ok ==> final(self).precedence_at(final(self).pos as int).level()
                <= precedence.level(),
            r matches Ok(Node::Infix(i)) ==> spec_precedence_of(i.operator.token().kind).level()
                > precedence.level(),
        decreases old(self).tokens@.len() - old(self).pos, 5int,
    {
        self.skip_separators();
        let mut left = match self.parse_prefix() {
            Ok(n) => n,
            Err(e) => {
                return Err(e);
            },
        };
        loop
            invariant
                self.moved(old(self)),
                old(self).pos < self.pos,
                !at_end(old(self).tokens@, skip_separators(old(self).tokens@, old(self).pos as int)),
                left matches Node::Infix(i) ==> spec_precedence_of(i.operator.token().kind).level()
                    > precedence.level(),
                rule_node(old(self).tokens@, old(self).pos as int, precedence) == rule_infix_loop(
                    self.tokens@,
                    self.pos as int,
                    precedence,
                    view(left),
                ),
            ensures
                rule_node(old(self).tokens@, old(self).pos as int, precedence) == Ok::<
                    (Tree, int),
                    Error,
                >((view(left), self.pos as int)),
                self.moved(old(self)),
                old(self).pos < self.pos,
                self.precedence_at(self.pos as int).level() <= precedence.level(),
                left matches Node::Infix(i) ==> spec_precedence_of(i.operator.token().kind).level()
                    > precedence.level(),
            decreases self.tokens@.len() - self.pos,
        {
            let next = self.next_precedence();
            if !precedence.is_below(&next) {
                break;
            }
            left = match self.parse_infix(left) {
                Ok(n) => n,
                Err(e) => {
                    return Err(e);
                },
            };
        }
        Ok(left)
    }

    fn next_precedence(&self) -> (r: Precedence)
        requires
            self.wf(),
        ensures
            r == self.precedence_at(self.pos as int),
    {
        if self.is_eof() {
            Precedence::Lowest
        } else {
            precedence_of(self.tokens[self.pos].kind)
        }
    }

    /// Reads the node that the current token starts.
    #[verifier::rlimit(100)]
    #[verifier::spinoff_prover]
    pub fn parse_prefix(&mut self) -> (r: Result<Node, Error>)
        requires
            old(self).wf(),
        ensures
            final(self).moved(old(self)),
            match rule_prefix(old(self).tokens@, old(self).pos as int) {
                Ok((t, q)) => r matches Ok(n) && view(n) == t && final(self).pos == q,
                Err(e) => r == Err::<Node, Error>(e),
            },
            at_end(old(self).tokens@, old(self).pos as int) ==> r == Err::<Node, Error>(
                Error::UnexpectedEndOfFile,
            ),
            !at_end(old(self).tokens@, old(self).pos as int) ==> ({
                let t = old(self).tokens@[old(self).pos as int];
                &&& leaf_node(t) matches Some(n) ==> r == Ok::<Node, Error>(n) && final(self).pos
                    == old(self).pos + 1
                &&& prefix_error(t) matches Some(e) ==> r == Err::<Node, Error>(e)
                &&& r matches Ok(n) ==> prefix_shape(t, n)
            }),
            r matches Ok(n) ==> !(n is Infix),
            r is Ok ==> old(self).pos < final(self).pos,
        decreases old(self).tokens@.len() - old(self).pos, 4int,
    {
        if self.is_eof() {
            return Err(Error::UnexpectedEndOfFile);
        }
        let kind = self.tokens[self.pos].kind;
        match kind {
            TokenKind::Literal(LiteralToken::Number) => {
                let t = copy_token(&self.tokens[self.pos]);
                self.pos = self.pos + 1;
                Ok(Node::Literal(LiteralNode::Number(LiteralNumberNode(t))))
            },
            TokenKind::Literal(LiteralToken::String) => {
                let t = copy_token(&self.tokens[self.pos]);
                self.pos = self.pos + 1;
                Ok(Node::Literal(LiteralNode::String(LiteralStringNode(t))))
            },
            TokenKind::Literal(_) => {
                let t = copy_token(&self.tokens[self.pos]);
                self.pos = self.pos + 1;
                Ok(Node::Literal(LiteralNode::Boolean(LiteralBooleanNode(t))))
            },
            TokenKind::Identifier => {
                let text = chars_of(self.tokens[self.pos].span.text.as_str());
                if is_snake_case(&text) {
                    let t = copy_token(&self.tokens[self.pos]);
                    self.pos = self.pos + 1;
                    Ok(Node::Identifier(IdentifierNode(t)))
                } else if is_pascal_snake_case(&text) {
                    match self.parse_type() {
                        Ok(ty) => Ok(Node::Type(ty)),
                        Err(e) => Err(e),
                    }
                } else {
                    Err(Error::InvalidIdentifier(copy_token(&self.tokens[self.pos])))
                }
            },
            TokenKind::Operator(op) => match op {
                OperatorToken::Plus | OperatorToken::Minus | OperatorToken::Bang => {
                    let operator = match self.parse_prefix_operator() {
                        Ok(o) => o,
                        Err(e) => {
                            return Err(e);
                        },
                    };
                    match self.parse_node(Precedence::Lowest) {
                        Ok(n) => Ok(Node::Prefix(PrefixNode { operator, node: Box::new(n) })),
                        Err(e) => Err(e),
                    }
                },
                OperatorToken::OpenParen => match self.parse_tuple() {
                    Ok(n) => Ok(Node::Tuple(n)),
                    Err(e) => Err(e),
                },
                OperatorToken::OpenCurly => match self.parse_block() {
                    Ok(n) => Ok(Node::Block(n)),
                    Err(e) => Err(e),
                },
                _ => Err(Error::UnsupportedToken(copy_token(&self.tokens[self.pos]))),
            },
            TokenKind::Keyword(k) => match k {
                KeywordToken::Break => match self.parse_break() {
                    Ok(n) => Ok(Node::Break(n)),
                    Err(e) => Err(e),
                },
                KeywordToken::Continue => {
                    let t = copy_token(&self.tokens[self.pos]);
                    self.pos = self.pos + 1;
                    Ok(Node::Continue(crate::node::ContinueNode { token: t }))
                },
                KeywordToken::Export => self.parse_export(),
                KeywordToken::From => match self.parse_from() {
                    Ok(n) => Ok(Node::From(n)),
                    Err(e) => Err(e),
                },
                KeywordToken::Function => match self.parse_function_declaration(false) {
                    Ok(n) => Ok(Node::FunctionDeclaration(n)),
                    Err(e) => Err(e),
                },
                KeywordToken::If => match self.parse_if() {
                    Ok(n) => Ok(Node::If(n)),
                    Err(e) => Err(e),
                },
                KeywordToken::Itself => {
                    let t = copy_token(&self.tokens[self.pos]);
                    self.pos = self.pos + 1;
                    Ok(Node::Itself(ItselfNode(t)))
                },
                KeywordToken::Let => match self.parse_let() {
                    Ok(n) => Ok(Node::Let(n)),
                    Err(e) => Err(e),
                },
                KeywordToken::Loop => match self.parse_loop() {
                    Ok(n) => Ok(Node::Loop(n)),
                    Err(e) => Err(e),
                },
                KeywordToken::Package => match self.parse_package_declaration(false) {
                    Ok(n) => Ok(Node::PackageDeclaration(n)),
                    Err(e) => Err(e),
                },
                KeywordToken::Return => match self.parse_return() {
                    Ok(n) => Ok(Node::Return(n)),
                    Err(e) => Err(e),
                },
                KeywordToken::Type => match self.parse_type_declaration(false) {
                    Ok(n) => Ok(Node::TypeDeclaration(n)),
                    Err(e) => Err(e),
                },
                KeywordToken::Else => Err(Error::UnsupportedToken(copy_token(&self.tokens[self.pos]))),
            },
            TokenKind::Separator(_) => Err(Error::UnsupportedToken(copy_token(&self.tokens[self.pos]))),
            TokenKind::EOF => Err(Error::UnexpectedEndOfFile),
        }
    }

    pub fn parse_prefix_operator(&mut self) -> (r: Result<PrefixOperator, Error>)
        requires
            old(self).wf(),
        ensures
            final(self).moved(old(self)),
            at_end(old(self).tokens@, old(self).pos as int) ==> r == Err::<PrefixOperator, Error>(
                Error::UnexpectedEndOfFile,
            ),
            !at_end(old(self).tokens@, old(self).pos as int) ==> final(self).pos == old(self).pos
                + 1 && match prefix_operator(old(self).tokens@[old(self).pos as int]) {
                Some(o) => r == Ok::<PrefixOperator, Error>(o),
                None => r == Err::<PrefixOperator, Error>(
                    Error::UnsupportedToken(old(self).tokens@[old(self).pos as int]),
                ),
            },
    {
        let token = match self.advance() {
            Ok(t) => t,
            Err(e) => {
                return Err(e);
            },
        };
        match token.kind {
            TokenKind::Operator(OperatorToken::Plus) => Ok(PrefixOperator::Plus(token)),
            TokenKind::Operator(OperatorToken::Minus) => Ok(PrefixOperator::Negate(token)),
            TokenKind::Operator(OperatorToken::Bang) => Ok(PrefixOperator::Not(token)),
            _ => Err(Error::UnsupportedToken(token)),
        }
    }

    pub fn parse_infix_operator(&mut self) -> (r: Result<InfixOperator, Error>)
        requires
            old(self).wf(),
        ensures
            final(self).moved(old(self)),
            at_end(old(self).tokens@, old(self).pos as int) ==> r == Err::<InfixOperator, Error>(
                Error::UnexpectedEndOfFile,
            ),
            !at_end(old(self).tokens@, old(self).pos as int) ==> final(self).pos == old(self).pos
                + 1 && match infix_operator(old(self).tokens@[old(self).pos as int]) {
                Some(o) => r == Ok::<InfixOperator, Error>(o),
                None => r == Err::<InfixOperator, Error>(
                    Error::UnsupportedToken(old(self).tokens@[old(self).pos as int]),
                ),
            },
    {
        let token = match self.advance() {
            Ok(t) => t,
            Err(e) => {
                return Err(e);
            },
        };
        match token.kind {
            TokenKind::Operator(op) => match op {
                OperatorToken::OpenParen => Ok(InfixOperator::Call(token)),
                OperatorToken::Plus => Ok(InfixOperator::Add(token)),
                OperatorToken::Minus => Ok(InfixOperator::Subtract(token)),
                OperatorToken::Asterisk => Ok(InfixOperator::Multiply(token)),
                OperatorToken::Slash => Ok(InfixOperator::Divide(token)),
                OperatorToken::Percent => Ok(InfixOperator::Modulo(token)),
                OperatorToken::Equals => Ok(InfixOperator::Assign(token)),
                OperatorToken::DoubleEquals => Ok(InfixOperator::Equal(token)),
                OperatorToken::BangEquals => Ok(InfixOperator::NotEqual(token)),
                OperatorToken::LeftAngle => Ok(InfixOperator::LessThan(token)),
                OperatorToken::LeftAngleEquals => Ok(InfixOperator::LessThanOrEqual(token)),
                OperatorToken::RightAngle => Ok(InfixOperator::GreaterThan(token)),
                OperatorToken::RightAngleEquals => Ok(InfixOperator::GreaterThanOrEqual(token)),
                OperatorToken::Colon => Ok(InfixOperator::TypeAscription(token)),
                OperatorToken::Arrow => Ok(InfixOperator::Arrow(token)),
                OperatorToken::Dot => Ok(InfixOperator::AccessProperty(token)),
                OperatorToken::DoubleColon => Ok(InfixOperator::AccessPackage(token)),
                _ => Err(Error::UnsupportedToken(token)),
            },
            _ => Err(Error::UnsupportedToken(token)),
        }
    }

    /// Reads the operator at the cursor and its right-hand side, and joins
    /// them to `left`. A call reads an argument tuple, an arrow a block; any
    /// other operator an operand at its operand precedence.
    pub fn parse_infix(&mut self, left: Node) -> (r: Result<Node, Error>)
        requires
            old(self).wf(),
        ensures
            final(self).moved(old(self)),
            match rule_infix(old(self).tokens@, old(self).pos as int, view(left)) {
                Ok((t, q)) => r matches Ok(n) && view(n) == t && final(self).pos == q,
                Err(e) => r == Err::<Node, Error>(e),
            },
            at_end(old(self).tokens@, old(self).pos as int) ==> r == Err::<Node, Error>(
                Error::UnexpectedEndOfFile,
            ),
            !at_end(old(self).tokens@, old(self).pos as int) ==> ({
                let t = old(self).tokens@[old(self).pos as int];
                &&& infix_operator(t) is None ==> r == Err::<Node, Error>(
                    Error::UnsupportedToken(t),
                )
                &&& r matches Ok(n) ==> infix_operator(t) matches Some(op) && n matches Node::Infix(
                    i,
                ) && *i.left == left && i.operator == op && (op is Call ==> (*i.right matches Node::Tuple(tn) && tn.token == t)) && (
                op is Arrow ==> *i.right is Block) && i.operator.token() == t && (!(op is Call) && !(
                op is Arrow) ==> (*i.right matches Node::Infix(j) ==> spec_precedence_of(
                    j.operator.token().kind,
                ).level() > spec_operand_precedence(t.kind).level()))
                &&& (infix_operator(t) matches Some(op) && !(op is Call) && !(op is Arrow)
                    && at_end(
                    old(self).tokens@,
                    skip_separators(old(self).tokens@, old(self).pos + 1),
                )) ==> r == Err::<Node, Error>(Error::UnexpectedEndOfFile)
            }),
            r is Ok ==> old(self).pos < final(self).pos,
        decreases old(self).tokens@.len() - old(self).pos, 4int,
    {
        let kind = if self.is_eof() {
            TokenKind::EOF
        } else {
            self.tokens[self.pos].kind
        };
        let operator = match self.parse_infix_operator() {
            Ok(o) => o,
            Err(e) => {
                return Err(e);
            },
        };
        let right = match &operator {
            InfixOperator::Call(token) => match self.parse_tuple_call(copy_token(token)) {
                Ok(n) => Node::Tuple(n),
                Err(e) => {
                    return Err(e);
                },
            },
            InfixOperator::Arrow(_) => match self.parse_block() {
                Ok(n) => Node::Block(n),
                Err(e) => {
                    return Err(e);
                },
            },
            _ => match self.parse_node(operand_precedence(kind)) {
                Ok(n) => n,
                Err(e) => {
                    return Err(e);
                },
            },
        };
        let ghost left_tree = view(left);
        let ghost right_tree = view(right);
        let n = Node::Infix(InfixNode { left: Box::new(left), operator, right: Box::new(right) });
        proof {
            assert(view(n).children =~= seq![left_tree, right_tree]);
        }
        Ok(n)
    }
}

} // verus!
