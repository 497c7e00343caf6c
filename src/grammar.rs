use vstd::prelude::*;

use crate::naming::{is_pascal_snake_case, is_snake_case, spec_pascal_snake_case, spec_snake_case};
use crate::node::{
    BlockNode, BreakNode, DeclareVariableNode, FromExportNode, FromNode, FunctionDeclarationNode,
    IdentifierNode, IfNode, LoopNode, Modifiers, Node, PackageDeclarationNode, ReturnNode,
    TupleNode, TypeDeclarationNode, TypeFunctionArgumentNode, TypeFunctionNode,
    TypeFundamentalNode, TypeNode,
};
use crate::parser::{at_end, prefix_shape, skip_new_lines, skip_separators, Error, Parser};
use crate::rules::{
    expect_kind, identifier_at, rule_block, rule_block_elements, rule_export, rule_from,
    rule_function, rule_if, rule_let, rule_optional_value, rule_package, rule_tuple,
    rule_tuple_elements, rule_type, rule_type_argument, rule_type_arguments,
    rule_type_declaration, type_identifier_at,
};
use crate::tree::{
    optional_boxed_type_view, optional_block_view, optional_type_view, Tree, absent, block_view, function_type_view, optional_view, tree, tuple_view, type_argument_view,
    type_arguments_view, type_view, view, views, Tag,
};
use crate::precedence::Precedence;
use crate::text::{chars_of, text_is};
use crate::token::{copy_token, KeywordToken, OperatorToken, SeparatorToken, Token, TokenKind};

verus! {

/// The type that a token names on its own: `Bool`, `Number`, `String`, or
/// any other `PascalCase` name as a custom type.
pub open spec fn type_leaf(t: Token) -> Option<TypeNode> {
    if t.kind != TokenKind::Identifier {
        None
    } else if t.span.text@ == "Bool"@ {
        Some(TypeNode::Fundamental(TypeFundamentalNode::Boolean(t)))
    } else if t.span.text@ == "Number"@ {
        Some(TypeNode::Fundamental(TypeFundamentalNode::Number(t)))
    } else if t.span.text@ == "String"@ {
        Some(TypeNode::Fundamental(TypeFundamentalNode::String(t)))
    } else if t.span.text@ == "fun"@ {
        None
    } else if spec_pascal_snake_case(t.span.text@) {
        Some(TypeNode::Custom(t))
    } else {
        None
    }
}

/// Whether a token starts a function type.
pub open spec fn is_fun(t: Token) -> bool {
    t.kind == TokenKind::Identifier && t.span.text@ == "fun"@
}

/// Whether a value follows a `break` or `return` at `p`: the statement goes
/// on there, with no separator, `}` or end in between.
pub open spec fn value_follows(toks: Seq<Token>, p: int) -> bool {
    !at_end(toks, p) && !(toks[p].kind is Separator) && toks[p].kind != TokenKind::Operator(
        OperatorToken::CloseCurly,
    )
}

proof fn lemma_type_names_differ()
    ensures
        "Bool"@ != "Number"@,
        "Bool"@ != "String"@,
        "Bool"@ != "fun"@,
        "Number"@ != "String"@,
        "Number"@ != "fun"@,
        "String"@ != "fun"@,
{
    reveal_strlit("Bool");
    reveal_strlit("Number");
    reveal_strlit("String");
    reveal_strlit("fun");
    assert("Bool"@.len() == 4);
    assert("fun"@.len() == 3);
    assert("Number"@[0] != "String"@[0]);
}

impl Parser {
    /// Whether the token at `p` is of kind `kind`.
    pub open spec fn kind_at(&self, p: int, kind: TokenKind) -> bool {
        !at_end(self.tokens@, p) && self.tokens@[p].kind == kind
    }

    /// Reads a `snake_case` identifier.
    pub fn parse_identifier(&mut self) -> (r: Result<IdentifierNode, Error>)
        requires
            old(self).wf(),
        ensures
            final(self).moved(old(self)),
            match identifier_at(old(self).tokens@, old(self).pos as int) {
                Ok(t) => r == Ok::<IdentifierNode, Error>(IdentifierNode(t)) && final(self).pos
                    == old(self).pos + 1,
                Err(e) => r == Err::<IdentifierNode, Error>(e),
            },
            match old(self).expect_at(old(self).pos as int, TokenKind::Identifier) {
                Err(e) => r == Err::<IdentifierNode, Error>(e),
                Ok(_) => {
                    let t = old(self).tokens@[old(self).pos as int];
                    &&& final(self).pos == old(self).pos + 1
                    &&& spec_snake_case(t.span.text@) ==> r == Ok::<IdentifierNode, Error>(
                        IdentifierNode(t),
                    )
                    &&& !spec_snake_case(t.span.text@) ==> r == Err::<IdentifierNode, Error>(
                        Error::InvalidIdentifier(t),
                    )
                },
            },
    {
        let token = match self.consume(TokenKind::Identifier) {
            Ok(t) => t,
            Err(e) => {
                return Err(e);
            },
        };
        if is_snake_case(&chars_of(token.span.text.as_str())) {
            Ok(IdentifierNode(token))
        } else {
            Err(Error::InvalidIdentifier(token))
        }
    }

    /// Reads a `PascalCase` (or `Pascal_Snake_Case`) identifier.
    pub fn parse_type_identifier(&mut self) -> (r: Result<IdentifierNode, Error>)
        requires
            old(self).wf(),
        ensures
            final(self).moved(old(self)),
            match type_identifier_at(old(self).tokens@, old(self).pos as int) {
                Ok(t) => r == Ok::<IdentifierNode, Error>(IdentifierNode(t)) && final(self).pos
                    == old(self).pos + 1,
                Err(e) => r == Err::<IdentifierNode, Error>(e),
            },
            match old(self).expect_at(old(self).pos as int, TokenKind::Identifier) {
                Err(e) => r == Err::<IdentifierNode, Error>(e),
                Ok(_) => {
                    let t = old(self).tokens@[old(self).pos as int];
                    &&& final(self).pos == old(self).pos + 1
                    &&& spec_pascal_snake_case(t.span.text@) ==> r == Ok::<IdentifierNode, Error>(
                        IdentifierNode(t),
                    )
                    &&& !spec_pascal_snake_case(t.span.text@) ==> r == Err::<IdentifierNode, Error>(
                        Error::InvalidIdentifier(t),
                    )
                },
            },
    {
        let token = match self.consume(TokenKind::Identifier) {
            Ok(t) => t,
            Err(e) => {
                return Err(e);
            },
        };
        if is_pascal_snake_case(&chars_of(token.span.text.as_str())) {
            Ok(IdentifierNode(token))
        } else {
            Err(Error::InvalidIdentifier(token))
        }
    }

    /// Reads a parenthesised tuple.
    pub fn parse_tuple(&mut self) -> (r: Result<TupleNode, Error>)
        requires
            old(self).wf(),
        ensures
            final(self).moved(old(self)),
            match rule_tuple(old(self).tokens@, old(self).pos as int) {
                Ok((t, q)) => r matches Ok(n) && tuple_view(n) == t && final(self).pos == q,
                Err(e) => r == Err::<TupleNode, Error>(e),
            },
            old(self).expect_at(old(self).pos as int, TokenKind::Operator(OperatorToken::OpenParen))
                matches Err(e) ==> r == Err::<TupleNode, Error>(e),
            r matches Ok(n) ==> n.token == old(self).tokens@[old(self).pos as int],
            r is Ok ==> old(self).pos < final(self).pos && final(self).kind_at(
                final(self).pos - 1,
                TokenKind::Operator(OperatorToken::CloseParen),
            ),
        decreases old(self).tokens@.len() - old(self).pos, 2int,
    {
        let token = match self.consume(TokenKind::Operator(OperatorToken::OpenParen)) {
            Ok(t) => t,
            Err(e) => {
                return Err(e);
            },
        };
        self.parse_tuple_call(token)
    }

    /// Reads the elements of a tuple whose `(`, `token`, has been read, up to
    /// and with its `)`. Elements are separated by commas, a trailing comma
    /// is allowed, and line breaks before an element are skipped.
    pub fn parse_tuple_call(&mut self, token: Token) -> (r: Result<TupleNode, Error>)
        requires
            old(self).wf(),
        ensures
            final(self).moved(old(self)),
            match rule_tuple_elements(old(self).tokens@, old(self).pos as int, token, seq![]) {
                Ok((t, q)) => r matches Ok(n) && tuple_view(n) == t && final(self).pos == q,
                Err(e) => r == Err::<TupleNode, Error>(e),
            },
            r matches Ok(n) ==> n.token == token && (n.nodes@.len() == 0 <==> old(self).kind_at(
                skip_new_lines(old(self).tokens@, old(self).pos as int),
                TokenKind::Operator(OperatorToken::CloseParen),
            )),
            r is Ok ==> old(self).pos < final(self).pos && final(self).kind_at(
                final(self).pos - 1,
                TokenKind::Operator(OperatorToken::CloseParen),
            ),
        decreases old(self).tokens@.len() - old(self).pos, 7int,
    {
        let mut nodes: Vec<Node> = Vec::new();
        proof {
            assert(views(nodes) =~= seq![]);
        }
        loop
            invariant_except_break
                nodes@.len() == 0 ==> self.pos == old(self).pos,
                nodes@.len() > 0 ==> !old(self).kind_at(
                    skip_new_lines(old(self).tokens@, old(self).pos as int),
                    TokenKind::Operator(OperatorToken::CloseParen),
                ),
                rule_tuple_elements(self.tokens@, self.pos as int, token, views(nodes))
                    == rule_tuple_elements(old(self).tokens@, old(self).pos as int, token, seq![]),
            invariant
                self.moved(old(self)),
            ensures
                nodes@.len() == 0 <==> old(self).kind_at(
                    skip_new_lines(old(self).tokens@, old(self).pos as int),
                    TokenKind::Operator(OperatorToken::CloseParen),
                ),
                self.kind_at(self.pos as int, TokenKind::Operator(OperatorToken::CloseParen)),
                rule_tuple_elements(old(self).tokens@, old(self).pos as int, token, seq![]) == Ok::<
                    (Tree, int),
                    Error,
                >((tree(Tag::Tuple, seq![token], views(nodes)), self.pos + 1)),
            decreases self.tokens@.len() - self.pos,
        {
            self.skip_new_lines();
            let closes = match self.current() {
                Ok(t) => t.is_operator(OperatorToken::CloseParen),
                Err(e) => {
                    return Err(e);
                },
            };
            if closes {
                break;
            }
            let ghost before = views(nodes);
            let node = match self.parse_node(Precedence::Lowest) {
                Ok(n) => n,
                Err(e) => {
                    return Err(e);
                },
            };
            let ghost node_view = view(node);
            nodes.push(node);
            proof {
                assert(views(nodes) =~= before.push(node_view));
            }
            self.consume_if(TokenKind::Separator(SeparatorToken::Comma));
        }
        match self.consume(TokenKind::Operator(OperatorToken::CloseParen)) {
            Ok(_) => {},
            Err(e) => {
                return Err(e);
            },
        }
        Ok(TupleNode { token, nodes })
    }

    /// Reads a braced block of statements; separators between them are
    /// skipped.
    pub fn parse_block(&mut self) -> (r: Result<BlockNode, Error>)
        requires
            old(self).wf(),
        ensures
            final(self).moved(old(self)),
            match rule_block(old(self).tokens@, old(self).pos as int) {
                Ok((t, q)) => r matches Ok(n) && block_view(n) == t && final(self).pos == q,
                Err(e) => r == Err::<BlockNode, Error>(e),
            },
            old(self).expect_at(old(self).pos as int, TokenKind::Operator(OperatorToken::OpenCurly))
                matches Err(e) ==> r == Err::<BlockNode, Error>(e),
            r matches Ok(n) ==> n.token == old(self).tokens@[old(self).pos as int] && (
            n.nodes@.len() == 0 <==> old(self).kind_at(
                skip_separators(old(self).tokens@, old(self).pos + 1),
                TokenKind::Operator(OperatorToken::CloseCurly),
            )),
            r is Ok ==> old(self).pos < final(self).pos && final(self).kind_at(
                final(self).pos - 1,
                TokenKind::Operator(OperatorToken::CloseCurly),
            ),
        decreases old(self).tokens@.len() - old(self).pos, 2int,
    {
        let token = match self.consume(TokenKind::Operator(OperatorToken::OpenCurly)) {
            Ok(t) => t,
            Err(e) => {
                return Err(e);
            },
        };
        let mut nodes: Vec<Node> = Vec::new();
        proof {
            assert(views(nodes) =~= seq![]);
        }
        loop
            invariant_except_break
                nodes@.len() == 0 ==> self.pos == old(self).pos + 1,
                nodes@.len() > 0 ==> !old(self).kind_at(
                    skip_separators(old(self).tokens@, old(self).pos + 1),
                    TokenKind::Operator(OperatorToken::CloseCurly),
                ),
                rule_block_elements(self.tokens@, self.pos as int, token, views(nodes))
                    == rule_block_elements(old(self).tokens@, old(self).pos + 1, token, seq![]),
                token == old(self).tokens@[old(self).pos as int],
            invariant
                self.moved(old(self)),
                old(self).pos < self.pos,
                old(self).expect_at(
                    old(self).pos as int,
                    TokenKind::Operator(OperatorToken::OpenCurly),
                ) is Ok,
            ensures
                nodes@.len() == 0 <==> old(self).kind_at(
                    skip_separators(old(self).tokens@, old(self).pos + 1),
                    TokenKind::Operator(OperatorToken::CloseCurly),
                ),
                self.kind_at(self.pos as int, TokenKind::Operator(OperatorToken::CloseCurly)),
                rule_block_elements(old(self).tokens@, old(self).pos + 1, token, seq![]) == Ok::<
                    (Tree, int),
                    Error,
                >((tree(Tag::Block, seq![token], views(nodes)), self.pos + 1)),
            decreases self.tokens@.len() - self.pos,
        {
            self.skip_separators();
            let closes = match self.current() {
                Ok(t) => t.is_operator(OperatorToken::CloseCurly),
                Err(e) => {
                    return Err(e);
                },
            };
            if closes {
                break;
            }
            let node = match self.parse_node(Precedence::Lowest) {
                Ok(n) => n,
                Err(e) => {
                    return Err(e);
                },
            };
            let ghost node_view = view(node);
            let ghost before = views(nodes);
            nodes.push(node);
            proof {
                assert(views(nodes) =~= before.push(node_view));
            }
        }
        match self.consume(TokenKind::Operator(OperatorToken::CloseCurly)) {
            Ok(_) => {},
            Err(e) => {
                return Err(e);
            },
        }
        Ok(BlockNode { token, nodes })
    }

    /// Reads a type: `Bool`, `Number`, `String`, a function type
    /// `fun(...) (-> Type)?`, or a custom `PascalCase` type.
    pub fn parse_type(&mut self) -> (r: Result<TypeNode, Error>)
        requires
            old(self).wf(),
        ensures
            final(self).moved(old(self)),
            match rule_type(old(self).tokens@, old(self).pos as int) {
                Ok((t, q)) => r matches Ok(n) && type_view(n) == t && final(self).pos == q,
                Err(e) => r == Err::<TypeNode, Error>(e),
            },
            at_end(old(self).tokens@, old(self).pos as int) ==> r == Err::<TypeNode, Error>(
                Error::UnexpectedEndOfFile,
            ),
            !at_end(old(self).tokens@, old(self).pos as int) ==> ({
                let t = old(self).tokens@[old(self).pos as int];
                &&& type_leaf(t) matches Some(ty) ==> r == Ok::<TypeNode, Error>(ty)
                    && final(self).pos == old(self).pos + 1
                &&& is_fun(t) ==> (r matches Ok(ty) ==> ty is Function)
                &&& type_leaf(t) is None && !is_fun(t) ==> r == Err::<TypeNode, Error>(
                    Error::UnknownType(t),
                )
            }),
            r is Ok ==> old(self).pos < final(self).pos,
        decreases old(self).tokens@.len() - old(self).pos, 2int,
    {
        let token = match self.advance() {
            Ok(t) => t,
            Err(e) => {
                return Err(e);
            },
        };
        proof {
            lemma_type_names_differ();
        }
        if token.kind == TokenKind::Identifier {
            if text_is(&token.span.text, "Bool") {
                return Ok(TypeNode::Fundamental(TypeFundamentalNode::Boolean(token)));
            } else if text_is(&token.span.text, "Number") {
                return Ok(TypeNode::Fundamental(TypeFundamentalNode::Number(token)));
            } else if text_is(&token.span.text, "String") {
                return Ok(TypeNode::Fundamental(TypeFundamentalNode::String(token)));
            } else if text_is(&token.span.text, "fun") {
                return match self.parse_function_type() {
                    Ok(f) => Ok(TypeNode::Function(f)),
                    Err(e) => Err(e),
                };
            } else if is_pascal_snake_case(&chars_of(token.span.text.as_str())) {
                return Ok(TypeNode::Custom(token));
            }
        }
        Err(Error::UnknownType(token))
    }

    /// Reads the parameter list and the optional return type of a function
    /// type, after its `fun`.
    pub fn parse_function_type(&mut self) -> (r: Result<TypeFunctionNode, Error>)
        requires
            old(self).wf(),
        ensures
            final(self).moved(old(self)),
            match expect_kind(
                old(self).tokens@,
                old(self).pos as int,
                TokenKind::Operator(OperatorToken::OpenParen),
            ) {
                Err(e) => r == Err::<TypeFunctionNode, Error>(e),
                Ok(_) => match rule_type_arguments(old(self).tokens@, old(self).pos + 1, seq![]) {
                    Ok((t, q)) => r matches Ok(f) && function_type_view(f) == t && final(self).pos
                        == q,
                    Err(e) => r == Err::<TypeFunctionNode, Error>(e),
                },
            },
            old(self).expect_at(old(self).pos as int, TokenKind::Operator(OperatorToken::OpenParen))
                matches Err(e) ==> r == Err::<TypeFunctionNode, Error>(e),
            r is Ok ==> old(self).pos < final(self).pos,
        decreases old(self).tokens@.len() - old(self).pos, 1int,
    {
        match self.consume(TokenKind::Operator(OperatorToken::OpenParen)) {
            Ok(_) => {},
            Err(e) => {
                return Err(e);
            },
        }
        let mut arguments: Vec<TypeFunctionArgumentNode> = Vec::new();
        proof {
            assert(type_arguments_view(arguments) =~= seq![]);
        }
        loop
            invariant_except_break
                rule_type_arguments(self.tokens@, self.pos as int, type_arguments_view(arguments))
                    == rule_type_arguments(old(self).tokens@, old(self).pos + 1, seq![]),
            invariant
                self.moved(old(self)),
                old(self).pos < self.pos,
                old(self).expect_at(
                    old(self).pos as int,
                    TokenKind::Operator(OperatorToken::OpenParen),
                ) is Ok,
            ensures
                old(self).pos + 1 < self.pos,
                self.kind_at(self.pos - 1, TokenKind::Operator(OperatorToken::CloseParen)),
                rule_type_arguments(self.tokens@, self.pos - 1, type_arguments_view(arguments))
                    == rule_type_arguments(old(self).tokens@, old(self).pos + 1, seq![]),
            decreases self.tokens@.len() - self.pos,
        {
            let closes = match self.current() {
                Ok(t) => t.is_operator(OperatorToken::CloseParen),
                Err(e) => {
                    return Err(e);
                },
            };
            if closes {
                self.advance();
                break;
            }
            let ghost before = type_arguments_view(arguments);
            let argument = match self.parse_function_type_argument() {
                Ok(a) => a,
                Err(e) => {
                    return Err(e);
                },
            };
            let ghost argument_view = type_argument_view(argument);
            arguments.push(argument);
            proof {
                assert(type_arguments_view(arguments) =~= before.push(argument_view));
            }
            self.consume_if(TokenKind::Separator(SeparatorToken::Comma));
        }
        let return_type = if self.consume_if(TokenKind::Operator(OperatorToken::Arrow)) {
            match self.parse_type() {
                Ok(t) => Some(Box::new(t)),
                Err(e) => {
                    return Err(e);
                },
            }
        } else {
            None
        };
        let f = TypeFunctionNode { arguments, return_type };
        proof {
            let acc = type_arguments_view(f.arguments);
            let return_tree = optional_boxed_type_view(f.return_type);
            assert(function_type_view(f).children =~= seq![
                tree(Tag::Tuple, seq![], acc),
                return_tree,
            ]);
        }
        Ok(f)
    }

    /// Reads one parameter of a function type: `name: Type` or `Type`.
    pub fn parse_function_type_argument(&mut self) -> (r: Result<TypeFunctionArgumentNode, Error>)
        requires
            old(self).wf(),
        ensures
            final(self).moved(old(self)),
            match rule_type_argument(old(self).tokens@, old(self).pos as int) {
                Ok((t, q)) => r matches Ok(a) && type_argument_view(a) == t && final(self).pos == q,
                Err(e) => r == Err::<TypeFunctionArgumentNode, Error>(e),
            },
            r matches Ok(a) ==> (a.identifier is Some <==> old(self).kind_at(
                old(self).pos + 1,
                TokenKind::Operator(OperatorToken::Colon),
            )),
            r is Ok ==> old(self).pos < final(self).pos,
        decreases old(self).tokens@.len() - old(self).pos, 3int,
    {
        let named = match self.peek() {
            Ok(t) => t.is_operator(OperatorToken::Colon),
            Err(_) => false,
        };
        let identifier = if named {
            let identifier = match self.parse_identifier() {
                Ok(i) => i,
                Err(e) => {
                    return Err(e);
                },
            };
            self.advance();
            Some(identifier)
        } else {
            None
        };
        match self.parse_type() {
            Ok(t) => Ok(TypeFunctionArgumentNode { identifier, argument_type: Box::new(t) }),
            Err(e) => Err(e),
        }
    }

    /// Reads an optional value after `break` or `return`.
    fn parse_optional_value(&mut self) -> (r: Result<Option<Box<Node>>, Error>)
        requires
            old(self).wf(),
        ensures
            final(self).moved(old(self)),
            match rule_optional_value(old(self).tokens@, old(self).pos as int) {
                Ok((t, q)) => r matches Ok(n) && optional_view(n) == t && final(self).pos == q,
                Err(e) => r == Err::<Option<Box<Node>>, Error>(e),
            },
            !value_follows(old(self).tokens@, old(self).pos as int) ==> r == Ok::<
                Option<Box<Node>>,
                Error,
            >(None) && final(self).pos == old(self).pos,
            value_follows(old(self).tokens@, old(self).pos as int) ==> (r matches Ok(v) ==> v is Some),
        decreases old(self).tokens@.len() - old(self).pos, 7int,
    {
        let follows = match self.current() {
            Ok(t) => !matches!(t.kind, TokenKind::Separator(_)) && !t.is_operator(OperatorToken::CloseCurly),
            Err(_) => false,
        };
        if !follows {
            return Ok(None);
        }
        match self.parse_node(Precedence::Lowest) {
            Ok(n) => Ok(Some(Box::new(n))),
            Err(e) => Err(e),
        }
    }

    /// `break` with an optional value.
    pub fn parse_break(&mut self) -> (r: Result<BreakNode, Error>)
        requires
            old(self).wf(),
            old(self).kind_at(old(self).pos as int, TokenKind::Keyword(KeywordToken::Break)),
        ensures
            final(self).moved(old(self)),
            match rule_optional_value(old(self).tokens@, old(self).pos + 1) {
                Ok((v, q)) => r matches Ok(n) && view(Node::Break(n)) == tree(
                    Tag::Break,
                    seq![old(self).tokens@[old(self).pos as int]],
                    seq![v],
                ) && final(self).pos == q,
                Err(e) => r == Err::<BreakNode, Error>(e),
            },
            r matches Ok(n) ==> n.token == old(self).tokens@[old(self).pos as int] && (n.result
                is Some <==> value_follows(old(self).tokens@, old(self).pos + 1)),
            r is Ok ==> old(self).pos < final(self).pos,
        decreases old(self).tokens@.len() - old(self).pos, 2int,
    {
        let token = match self.advance() {
            Ok(t) => t,
            Err(e) => {
                return Err(e);
            },
        };
        match self.parse_optional_value() {
            Ok(result) => Ok(BreakNode { token, result }),
            Err(e) => Err(e),
        }
    }

    /// `return` with an optional value.
    pub fn parse_return(&mut self) -> (r: Result<ReturnNode, Error>)
        requires
            old(self).wf(),
            old(self).kind_at(old(self).pos as int, TokenKind::Keyword(KeywordToken::Return)),
        ensures
            final(self).moved(old(self)),
            match rule_optional_value(old(self).tokens@, old(self).pos + 1) {
                Ok((v, q)) => r matches Ok(n) && view(Node::Return(n)) == tree(
                    Tag::Return,
                    seq![old(self).tokens@[old(self).pos as int]],
                    seq![v],
                ) && final(self).pos == q,
                Err(e) => r == Err::<ReturnNode, Error>(e),
            },
            r matches Ok(n) ==> n.token == old(self).tokens@[old(self).pos as int] && (n.result
                is Some <==> value_follows(old(self).tokens@, old(self).pos + 1)),
            r is Ok ==> old(self).pos < final(self).pos,
        decreases old(self).tokens@.len() - old(self).pos, 2int,
    {
        let token = match self.advance() {
            Ok(t) => t,
            Err(e) => {
                return Err(e);
            },
        };
        match self.parse_optional_value() {
            Ok(result) => Ok(ReturnNode { token, result }),
            Err(e) => Err(e),
        }
    }

    /// `let identifier (: Type)? = value`.
    pub fn parse_let(&mut self) -> (r: Result<DeclareVariableNode, Error>)
        requires
            old(self).wf(),
            old(self).kind_at(old(self).pos as int, TokenKind::Keyword(KeywordToken::Let)),
        ensures
            final(self).moved(old(self)),
            match rule_let(old(self).tokens@, old(self).pos as int) {
                Ok((t, q)) => r matches Ok(n) && view(Node::Let(n)) == t && final(self).pos == q,
                Err(e) => r == Err::<DeclareVariableNode, Error>(e),
            },
            r matches Ok(n) ==> n.token == old(self).tokens@[old(self).pos as int] && n.identifier
                == IdentifierNode(old(self).tokens@[old(self).pos + 1]) && (
            n.value_type is Some <==> old(self).kind_at(
                old(self).pos + 2,
                TokenKind::Operator(OperatorToken::Colon),
            )),
            r is Ok ==> old(self).pos < final(self).pos,
        decreases old(self).tokens@.len() - old(self).pos, 2int,
    {
        let token = match self.advance() {
            Ok(t) => t,
            Err(e) => {
                return Err(e);
            },
        };
        let identifier = match self.parse_identifier() {
            Ok(i) => i,
            Err(e) => {
                return Err(e);
            },
        };
        let value_type = if self.consume_if(TokenKind::Operator(OperatorToken::Colon)) {
            match self.parse_type() {
                Ok(t) => Some(t),
                Err(e) => {
                    return Err(e);
                },
            }
        } else {
            None
        };
        match self.consume(TokenKind::Operator(OperatorToken::Equals)) {
            Ok(_) => {},
            Err(e) => {
                return Err(e);
            },
        }
        let ghost type_tree = optional_type_view(value_type);
        match self.parse_node(Precedence::Lowest) {
            Ok(n) => {
                let ghost node_tree = view(n);
                let d = DeclareVariableNode { token, identifier, value_type, node: Box::new(n) };
                proof {
                    assert(view(Node::Let(d)).children =~= seq![type_tree, node_tree]);
                    assert(view(Node::Let(d)).tokens =~= seq![d.token, d.identifier.0]);
                }
                Ok(d)
            },
            Err(e) => Err(e),
        }
    }

    /// `if condition { ... } (else { ... })?`.
    pub fn parse_if(&mut self) -> (r: Result<IfNode, Error>)
        requires
            old(self).wf(),
            old(self).kind_at(old(self).pos as int, TokenKind::Keyword(KeywordToken::If)),
        ensures
            final(self).moved(old(self)),
            match rule_if(old(self).tokens@, old(self).pos as int) {
                Ok((t, q)) => r matches Ok(n) && view(Node::If(n)) == t && final(self).pos == q,
                Err(e) => r == Err::<IfNode, Error>(e),
            },
            r matches Ok(n) ==> n.token == old(self).tokens@[old(self).pos as int],
            r is Ok ==> old(self).pos < final(self).pos,
        decreases old(self).tokens@.len() - old(self).pos, 2int,
    {
        let token = match self.advance() {
            Ok(t) => t,
            Err(e) => {
                return Err(e);
            },
        };
        let condition = match self.parse_node(Precedence::Lowest) {
            Ok(n) => n,
            Err(e) => {
                return Err(e);
            },
        };
        let then_block = match self.parse_block() {
            Ok(b) => b,
            Err(e) => {
                return Err(e);
            },
        };
        let otherwise = if self.consume_if(TokenKind::Keyword(KeywordToken::Else)) {
            match self.parse_block() {
                Ok(b) => Some(b),
                Err(e) => {
                    return Err(e);
                },
            }
        } else {
            None
        };
        let ghost otherwise_tree = optional_block_view(otherwise);
        let ghost condition_tree = view(condition);
        let i = IfNode { token, condition: Box::new(condition), then_block, otherwise };
        proof {
            assert(view(Node::If(i)).children =~= seq![
                condition_tree,
                block_view(i.then_block),
                otherwise_tree,
            ]);
        }
        Ok(i)
    }

    /// `loop { ... }`.
    pub fn parse_loop(&mut self) -> (r: Result<LoopNode, Error>)
        requires
            old(self).wf(),
            old(self).kind_at(old(self).pos as int, TokenKind::Keyword(KeywordToken::Loop)),
        ensures
            final(self).moved(old(self)),
            match rule_block(old(self).tokens@, old(self).pos + 1) {
                Ok((b, q)) => r matches Ok(n) && view(Node::Loop(n)) == tree(
                    Tag::Loop,
                    seq![old(self).tokens@[old(self).pos as int]],
                    seq![b],
                ) && final(self).pos == q,
                Err(e) => r == Err::<LoopNode, Error>(e),
            },
            r matches Ok(n) ==> n.token == old(self).tokens@[old(self).pos as int],
            r is Ok ==> old(self).pos < final(self).pos,
        decreases old(self).tokens@.len() - old(self).pos, 2int,
    {
        let token = match self.advance() {
            Ok(t) => t,
            Err(e) => {
                return Err(e);
            },
        };
        match self.parse_block() {
            Ok(block) => Ok(LoopNode { token, block }),
            Err(e) => Err(e),
        }
    }

    /// `function name(parameters) (-> Type)? { ... }`.
    pub fn parse_function_declaration(&mut self, export: bool) -> (r: Result<
        FunctionDeclarationNode,
        Error,
    >)
        requires
            old(self).wf(),
            old(self).kind_at(old(self).pos as int, TokenKind::Keyword(KeywordToken::Function)),
        ensures
            final(self).moved(old(self)),
            match rule_function(old(self).tokens@, old(self).pos as int, export) {
                Ok((t, q)) => r matches Ok(n) && view(Node::FunctionDeclaration(n)) == t && final(self).pos == q,
                Err(e) => r == Err::<FunctionDeclarationNode, Error>(e),
            },
            r matches Ok(n) ==> n.token == old(self).tokens@[old(self).pos as int]
                && n.modifiers.export == export && n.identifier == IdentifierNode(
                old(self).tokens@[old(self).pos + 1],
            ),
            r is Ok ==> old(self).pos < final(self).pos,
        decreases old(self).tokens@.len() - old(self).pos, 2int,
    {
        let token = match self.advance() {
            Ok(t) => t,
            Err(e) => {
                return Err(e);
            },
        };
        let identifier = match self.parse_identifier() {
            Ok(i) => i,
            Err(e) => {
                return Err(e);
            },
        };
        let arguments = match self.parse_tuple() {
            Ok(t) => t,
            Err(e) => {
                return Err(e);
            },
        };
        let return_type = if self.consume_if(TokenKind::Operator(OperatorToken::Arrow)) {
            match self.parse_type() {
                Ok(t) => Some(t),
                Err(e) => {
                    return Err(e);
                },
            }
        } else {
            None
        };
        let ghost return_tree = optional_type_view(return_type);
        match self.parse_block() {
            Ok(block) => {
                let f = FunctionDeclarationNode {
                    token,
                    modifiers: Modifiers { export },
                    identifier,
                    arguments,
                    return_type,
                    block,
                };
                proof {
                    assert(view(Node::FunctionDeclaration(f)).children =~= seq![
                        tuple_view(f.arguments),
                        return_tree,
                        block_view(f.block),
                    ]);
                    assert(view(Node::FunctionDeclaration(f)).tokens =~= seq![
                        f.token,
                        f.identifier.0,
                    ]);
                }
                Ok(f)
            },
            Err(e) => Err(e),
        }
    }

    /// `package name { ... }`.
    pub fn parse_package_declaration(&mut self, export: bool) -> (r: Result<
        PackageDeclarationNode,
        Error,
    >)
        requires
            old(self).wf(),
            old(self).kind_at(old(self).pos as int, TokenKind::Keyword(KeywordToken::Package)),
        ensures
            final(self).moved(old(self)),
            match rule_package(old(self).tokens@, old(self).pos as int, export) {
                Ok((t, q)) => r matches Ok(n) && view(Node::PackageDeclaration(n)) == t && final(self).pos == q,
                Err(e) => r == Err::<PackageDeclarationNode, Error>(e),
            },
            r matches Ok(n) ==> n.token == old(self).tokens@[old(self).pos as int]
                && n.modifiers.export == export && n.identifier == IdentifierNode(
                old(self).tokens@[old(self).pos + 1],
            ),
            r is Ok ==> old(self).pos < final(self).pos,
        decreases old(self).tokens@.len() - old(self).pos, 2int,
    {
        let token = match self.advance() {
            Ok(t) => t,
            Err(e) => {
                return Err(e);
            },
        };
        let identifier = match self.parse_identifier() {
            Ok(i) => i,
            Err(e) => {
                return Err(e);
            },
        };
        match self.parse_block() {
            Ok(block) => Ok(
                PackageDeclarationNode { token, modifiers: Modifiers { export }, identifier, block },
            ),
            Err(e) => Err(e),
        }
    }

    /// `type Name { ... }`.
    pub fn parse_type_declaration(&mut self, export: bool) -> (r: Result<
        TypeDeclarationNode,
        Error,
    >)
        requires
            old(self).wf(),
            old(self).kind_at(old(self).pos as int, TokenKind::Keyword(KeywordToken::Type)),
        ensures
            final(self).moved(old(self)),
            match rule_type_declaration(old(self).tokens@, old(self).pos as int, export) {
                Ok((t, q)) => r matches Ok(n) && view(Node::TypeDeclaration(n)) == t && final(self).pos == q,
                Err(e) => r == Err::<TypeDeclarationNode, Error>(e),
            },
            r matches Ok(n) ==> n.token == old(self).tokens@[old(self).pos as int]
                && n.modifiers.export == export && n.identifier == IdentifierNode(
                old(self).tokens@[old(self).pos + 1],
            ),
            r is Ok ==> old(self).pos < final(self).pos,
        decreases old(self).tokens@.len() - old(self).pos, 2int,
    {
        let token = match self.advance() {
            Ok(t) => t,
            Err(e) => {
                return Err(e);
            },
        };
        let identifier = match self.parse_type_identifier() {
            Ok(i) => i,
            Err(e) => {
                return Err(e);
            },
        };
        match self.parse_block() {
            Ok(block) => Ok(
                TypeDeclarationNode { token, modifiers: Modifiers { export }, identifier, block },
            ),
            Err(e) => Err(e),
        }
    }

    /// `export` before a function, package or type declaration, which it
    /// marks as exported.
    pub fn parse_export(&mut self) -> (r: Result<Node, Error>)
        requires
            old(self).wf(),
            old(self).kind_at(old(self).pos as int, TokenKind::Keyword(KeywordToken::Export)),
        ensures
            final(self).moved(old(self)),
            match rule_export(old(self).tokens@, old(self).pos as int) {
                Ok((t, q)) => r matches Ok(n) && view(n) == t && final(self).pos == q,
                Err(e) => r == Err::<Node, Error>(e),
            },
            r matches Ok(n) ==> prefix_shape(old(self).tokens@[old(self).pos as int], n),
            at_end(old(self).tokens@, old(self).pos + 1) ==> r == Err::<Node, Error>(
                Error::UnexpectedEndOfFile,
            ),
            !at_end(old(self).tokens@, old(self).pos + 1) && !old(self).kind_at(
                old(self).pos + 1,
                TokenKind::Keyword(KeywordToken::Function),
            ) && !old(self).kind_at(old(self).pos + 1, TokenKind::Keyword(KeywordToken::Package))
                && !old(self).kind_at(old(self).pos + 1, TokenKind::Keyword(KeywordToken::Type))
                ==> r == Err::<Node, Error>(
                Error::UnsupportedToken(old(self).tokens@[old(self).pos + 1]),
            ),
            r is Ok ==> old(self).pos < final(self).pos,
        decreases old(self).tokens@.len() - old(self).pos, 3int,
    {
        match self.advance() {
            Ok(_) => {},
            Err(e) => {
                return Err(e);
            },
        }
        let kind = match self.current() {
            Ok(t) => t.kind,
            Err(e) => {
                return Err(e);
            },
        };
        match kind {
            TokenKind::Keyword(KeywordToken::Function) => match self.parse_function_declaration(
                true,
            ) {
                Ok(n) => Ok(Node::FunctionDeclaration(n)),
                Err(e) => Err(e),
            },
            TokenKind::Keyword(KeywordToken::Package) => match self.parse_package_declaration(
                true,
            ) {
                Ok(n) => Ok(Node::PackageDeclaration(n)),
                Err(e) => Err(e),
            },
            TokenKind::Keyword(KeywordToken::Type) => match self.parse_type_declaration(true) {
                Ok(n) => Ok(Node::TypeDeclaration(n)),
                Err(e) => Err(e),
            },
            _ => Err(Error::UnsupportedToken(copy_token(&self.tokens[self.pos]))),
        }
    }

    /// `from <where> export <identifier>`. A `from` clause without `export`
    /// is not supported: the token where `export` should stand is the error.
    pub fn parse_from(&mut self) -> (r: Result<FromNode, Error>)
        requires
            old(self).wf(),
            old(self).kind_at(old(self).pos as int, TokenKind::Keyword(KeywordToken::From)),
        ensures
            final(self).moved(old(self)),
            match rule_from(old(self).tokens@, old(self).pos as int) {
                Ok((t, q)) => r matches Ok(n) && view(Node::From(n)) == t && final(self).pos == q,
                Err(e) => r == Err::<FromNode, Error>(e),
            },
            r matches Ok(FromNode::Export(n)) ==> n.token == old(self).tokens@[old(self).pos as int]
                && *n.what_node is Identifier,
            r is Ok ==> old(self).pos < final(self).pos,
        decreases old(self).tokens@.len() - old(self).pos, 2int,
    {
        let token = match self.advance() {
            Ok(t) => t,
            Err(e) => {
                return Err(e);
            },
        };
        let where_node = match self.parse_node(Precedence::Lowest) {
            Ok(n) => n,
            Err(e) => {
                return Err(e);
            },
        };
        let is_export = match self.current() {
            Ok(t) => t.is_keyword(KeywordToken::Export),
            Err(e) => {
                return Err(e);
            },
        };
        if !is_export {
            return Err(Error::UnsupportedToken(copy_token(&self.tokens[self.pos])));
        }
        self.advance();
        let ghost where_tree = view(where_node);
        match self.parse_identifier() {
            Ok(what) => {
                let n = FromNode::Export(
                    FromExportNode {
                        token,
                        from_node: Box::new(where_node),
                        what_node: Box::new(Node::Identifier(what)),
                    },
                );
                proof {
                    assert(view(Node::From(n)).children =~= seq![
                        where_tree,
                        view(Node::Identifier(what)),
                    ]);
                }
                Ok(n)
            },
            Err(e) => Err(e),
        }
    }
}

} // verus!
