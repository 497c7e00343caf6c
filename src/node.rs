use vstd::prelude::*;

use crate::token::Token;

verus! {

#[derive(Clone, Debug, PartialEq)]
pub struct IdentifierNode(pub Token);

#[derive(Clone, Debug, PartialEq)]
pub struct ItselfNode(pub Token);

#[derive(Clone, Debug, PartialEq)]
pub struct LiteralNumberNode(pub Token);

#[derive(Clone, Debug, PartialEq)]
pub struct LiteralStringNode(pub Token);

#[derive(Clone, Debug, PartialEq)]
pub struct LiteralBooleanNode(pub Token);

#[derive(Clone, Debug, PartialEq)]
pub enum LiteralNode {
    Number(LiteralNumberNode),
    String(LiteralStringNode),
    Boolean(LiteralBooleanNode),
}

/// A binary or postfix operator, with the token it was read from.
#[derive(Clone, Debug, PartialEq)]
pub enum InfixOperator {
    Add(Token),
    Subtract(Token),
    Multiply(Token),
    Divide(Token),
    Modulo(Token),
    Assign(Token),
    Equal(Token),
    NotEqual(Token),
    LessThan(Token),
    LessThanOrEqual(Token),
    GreaterThan(Token),
    GreaterThanOrEqual(Token),
    TypeAscription(Token),
    Arrow(Token),
    AccessProperty(Token),
    AccessPackage(Token),
    Call(Token),
}

#[derive(Clone, Debug, PartialEq)]
pub enum PrefixOperator {
    Plus(Token),
    Negate(Token),
    Not(Token),
}

#[derive(Debug, PartialEq)]
pub struct InfixNode {
    pub left: Box<Node>,
    pub operator: InfixOperator,
    pub right: Box<Node>,
}

#[derive(Debug, PartialEq)]
pub struct PrefixNode {
    pub operator: PrefixOperator,
    pub node: Box<Node>,
}

/// A parenthesised, comma-separated sequence; `token` is its `(`.
#[derive(Debug, PartialEq)]
pub struct TupleNode {
    pub token: Token,
    pub nodes: Vec<Node>,
}

/// A braced sequence of statements; `token` is its `{`.
#[derive(Debug, PartialEq)]
pub struct BlockNode {
    pub token: Token,
    pub nodes: Vec<Node>,
}

#[derive(Debug, PartialEq)]
pub struct IfNode {
    pub token: Token,
    pub condition: Box<Node>,
    pub then_block: BlockNode,
    pub otherwise: Option<BlockNode>,
}

#[derive(Debug, PartialEq)]
pub struct LoopNode {
    pub token: Token,
    pub block: BlockNode,
}

#[derive(Debug, PartialEq)]
pub struct BreakNode {
    pub token: Token,
    pub result: Option<Box<Node>>,
}

#[derive(Debug, PartialEq)]
pub struct ContinueNode {
    pub token: Token,
}

#[derive(Debug, PartialEq)]
pub struct ReturnNode {
    pub token: Token,
    pub result: Option<Box<Node>>,
}

/// `let identifier (: Type)? = node`.
#[derive(Debug, PartialEq)]
pub struct DeclareVariableNode {
    pub token: Token,
    pub identifier: IdentifierNode,
    pub value_type: Option<TypeNode>,
    pub node: Box<Node>,
}

#[derive(Clone, Debug, PartialEq)]
pub struct Modifiers {
    pub export: bool,
}

#[derive(Debug, PartialEq)]
pub struct FunctionDeclarationNode {
    pub token: Token,
    pub modifiers: Modifiers,
    pub identifier: IdentifierNode,
    pub arguments: TupleNode,
    pub return_type: Option<TypeNode>,
    pub block: BlockNode,
}

#[derive(Debug, PartialEq)]
pub struct PackageDeclarationNode {
    pub token: Token,
    pub modifiers: Modifiers,
    pub identifier: IdentifierNode,
    pub block: BlockNode,
}

#[derive(Debug, PartialEq)]
pub struct TypeDeclarationNode {
    pub token: Token,
    pub modifiers: Modifiers,
    pub identifier: IdentifierNode,
    pub block: BlockNode,
}

/// `from <where> export <what>`.
#[derive(Debug, PartialEq)]
pub struct FromExportNode {
    pub token: Token,
    pub from_node: Box<Node>,
    pub what_node: Box<Node>,
}

#[derive(Debug, PartialEq)]
pub enum FromNode {
    Export(FromExportNode),
}

#[derive(Clone, Debug, PartialEq)]
pub enum TypeFundamentalNode {
    Boolean(Token),
    Number(Token),
    String(Token),
}

/// One parameter of a function type: an optional name and its type.
#[derive(Debug, PartialEq)]
pub struct TypeFunctionArgumentNode {
    pub identifier: Option<IdentifierNode>,
    pub argument_type: Box<TypeNode>,
}

#[derive(Debug, PartialEq)]
pub struct TypeFunctionNode {
    pub arguments: Vec<TypeFunctionArgumentNode>,
    pub return_type: Option<Box<TypeNode>>,
}

#[derive(Debug, PartialEq)]
pub enum TypeNode {
    Fundamental(TypeFundamentalNode),
    Function(TypeFunctionNode),
    Custom(Token),
}

#[derive(Debug, PartialEq)]
pub enum Node {
    Nop,
    Block(BlockNode),
    Break(BreakNode),
    Continue(ContinueNode),
    From(FromNode),
    FunctionDeclaration(FunctionDeclarationNode),
    Identifier(IdentifierNode),
    If(IfNode),
    Infix(InfixNode),
    Itself(ItselfNode),
    Let(DeclareVariableNode),
    Literal(LiteralNode),
    Loop(LoopNode),
    PackageDeclaration(PackageDeclarationNode),
    Prefix(PrefixNode),
    Return(ReturnNode),
    Tuple(TupleNode),
    Type(TypeNode),
    TypeDeclaration(TypeDeclarationNode),
}

/// The top-level statements of one source unit, in order.
#[derive(Debug, PartialEq)]
pub struct RootNode {
    pub nodes: Vec<Node>,
}

impl RootNode {
    pub fn len(&self) -> (r: usize)
        ensures
            r == self.nodes@.len(),
    {
        self.nodes.len()
    }
}

impl IdentifierNode {
    pub fn value(&self) -> (r: &str)
        ensures
            r@ == self.0.span.text@,
    {
        self.0.value()
    }

    pub fn identifier(&self) -> (r: &str)
        ensures
            r@ == self.0.span.text@,
    {
        self.0.value()
    }
}

impl ItselfNode {
    pub fn value(&self) -> (r: &str)
        ensures
            r@ == self.0.span.text@,
    {
        self.0.value()
    }
}

impl LiteralNumberNode {
    pub fn value(&self) -> (r: &str)
        ensures
            r@ == self.0.span.text@,
    {
        self.0.value()
    }
}

impl LiteralStringNode {
    pub fn value(&self) -> (r: &str)
        ensures
            r@ == self.0.span.text@,
    {
        self.0.value()
    }
}

impl LiteralBooleanNode {
    /// Whether the literal is `true`.
    pub fn value(&self) -> (r: bool)
        ensures
            r == (self.0.kind == crate::token::TokenKind::Literal(crate::token::LiteralToken::True)),
    {
        self.0.is_literal(crate::token::LiteralToken::True)
    }
}

impl InfixOperator {
    /// The token the operator was read from.
    pub open spec fn token(self) -> Token {
        match self {
            InfixOperator::Add(t) => t,
            InfixOperator::Subtract(t) => t,
            InfixOperator::Multiply(t) => t,
            InfixOperator::Divide(t) => t,
            InfixOperator::Modulo(t) => t,
            InfixOperator::Assign(t) => t,
            InfixOperator::Equal(t) => t,
            InfixOperator::NotEqual(t) => t,
            InfixOperator::LessThan(t) => t,
            InfixOperator::LessThanOrEqual(t) => t,
            InfixOperator::GreaterThan(t) => t,
            InfixOperator::GreaterThanOrEqual(t) => t,
            InfixOperator::TypeAscription(t) => t,
            InfixOperator::Arrow(t) => t,
            InfixOperator::AccessProperty(t) => t,
            InfixOperator::AccessPackage(t) => t,
            InfixOperator::Call(t) => t,
        }
    }
}

impl Node {
    pub fn as_identifier(&self) -> (r: &IdentifierNode)
        requires
            self is Identifier,
        ensures
            *self == Node::Identifier(*r),
    {
        match self {
            Node::Identifier(n) => n,
            _ => { proof { assert(false); } unreached() },
        }
    }

    pub fn as_itself(&self) -> (r: &ItselfNode)
        requires
            self is Itself,
        ensures
            *self == Node::Itself(*r),
    {
        match self {
            Node::Itself(n) => n,
            _ => { proof { assert(false); } unreached() },
        }
    }

    pub fn as_infix(&self) -> (r: &InfixNode)
        requires
            self is Infix,
        ensures
            *self == Node::Infix(*r),
    {
        match self {
            Node::Infix(n) => n,
            _ => { proof { assert(false); } unreached() },
        }
    }

    pub fn as_tuple(&self) -> (r: &TupleNode)
        requires
            self is Tuple,
        ensures
            *self == Node::Tuple(*r),
    {
        match self {
            Node::Tuple(n) => n,
            _ => { proof { assert(false); } unreached() },
        }
    }

    pub fn as_block(&self) -> (r: &BlockNode)
        requires
            self is Block,
        ensures
            *self == Node::Block(*r),
    {
        match self {
            Node::Block(n) => n,
            _ => { proof { assert(false); } unreached() },
        }
    }

    pub fn as_literal(&self) -> (r: &LiteralNode)
        requires
            self is Literal,
        ensures
            *self == Node::Literal(*r),
    {
        match self {
            Node::Literal(n) => n,
            _ => { proof { assert(false); } unreached() },
        }
    }

    pub fn as_from(&self) -> (r: &FromNode)
        requires
            self is From,
        ensures
            *self == Node::From(*r),
    {
        match self {
            Node::From(n) => n,
            _ => { proof { assert(false); } unreached() },
        }
    }

    pub fn as_type(&self) -> (r: &TypeNode)
        requires
            self is Type,
        ensures
            *self == Node::Type(*r),
    {
        match self {
            Node::Type(n) => n,
            _ => { proof { assert(false); } unreached() },
        }
    }
}

} // verus!
