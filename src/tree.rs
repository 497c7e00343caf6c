use vstd::prelude::*;
use vstd::std_specs::vec::axiom_vec_index_decreases;

use crate::node::{
    FromNode, InfixOperator, LiteralNode, Node, PrefixOperator, TypeFunctionArgumentNode,
    TypeFundamentalNode, TypeNode,
};
use crate::token::Token;

verus! {

/// What a parse tree node is, apart from its tokens and children.
pub enum Tag {
    Absent,
    Nop,
    Number,
    Str,
    Boolean,
    Identifier,
    Itself,
    Continue,
    TypeBoolean,
    TypeNumber,
    TypeString,
    TypeCustom,
    TypeFunction,
    TypeArgument,
    Prefix(PrefixOperator),
    Infix(InfixOperator),
    Tuple,
    Block,
    If,
    Loop,
    Break,
    Return,
    Let,
    Function(bool),
    Package(bool),
    TypeDeclaration(bool),
    From,
}

/// The mathematical view of a parse tree: each node is a tag, the tokens
/// it keeps and its children in order; an absent optional part is a node
/// tagged `Absent`.
pub struct Tree {
    pub tag: Tag,
    pub tokens: Seq<Token>,
    pub children: Seq<Tree>,
}

pub open spec fn tree(tag: Tag, tokens: Seq<Token>, children: Seq<Tree>) -> Tree {
    Tree { tag, tokens, children }
}

pub open spec fn absent() -> Tree {
    tree(Tag::Absent, seq![], seq![])
}

pub open spec fn leaf(tag: Tag, t: Token) -> Tree {
    tree(tag, seq![t], seq![])
}

pub open spec fn type_view(t: TypeNode) -> Tree
    decreases t, 1int,
{
    match t {
        TypeNode::Fundamental(TypeFundamentalNode::Boolean(tok)) => leaf(Tag::TypeBoolean, tok),
        TypeNode::Fundamental(TypeFundamentalNode::Number(tok)) => leaf(Tag::TypeNumber, tok),
        TypeNode::Fundamental(TypeFundamentalNode::String(tok)) => leaf(Tag::TypeString, tok),
        TypeNode::Custom(tok) => leaf(Tag::TypeCustom, tok),
        TypeNode::Function(f) => tree(
            Tag::TypeFunction,
            seq![],
            seq![
                tree(Tag::Tuple, seq![], type_arguments_view(f.arguments)),
                match f.return_type {
                    Some(rt) => type_view(*rt),
                    None => absent(),
                },
            ],
        ),
    }
}

pub open spec fn type_argument_view(a: TypeFunctionArgumentNode) -> Tree
    decreases a, 1int,
{
    tree(
        Tag::TypeArgument,
        match a.identifier {
            Some(i) => seq![i.0],
            None => seq![],
        },
        seq![type_view(*a.argument_type)],
    )
}

pub open spec fn type_arguments_view(v: Vec<TypeFunctionArgumentNode>) -> Seq<Tree>
    decreases v, 0int,
    via type_arguments_view_decreases
{
    Seq::new(
        v@.len(),
        |i: int|
            if 0 <= i < v@.len() {
                type_argument_view(v[i])
            } else {
                absent()
            },
    )
}

#[via_fn]
proof fn type_arguments_view_decreases(v: Vec<TypeFunctionArgumentNode>) {
    assert forall|i: int| 0 <= i < v@.len() implies decreases_to!(v => #[trigger] v[i]) by {
        axiom_vec_index_decreases(v, i);
    }
}

pub open spec fn view(n: Node) -> Tree
    decreases n, 1int,
{
    match n {
        Node::Nop => tree(Tag::Nop, seq![], seq![]),
        Node::Literal(LiteralNode::Number(l)) => leaf(Tag::Number, l.0),
        Node::Literal(LiteralNode::String(l)) => leaf(Tag::Str, l.0),
        Node::Literal(LiteralNode::Boolean(l)) => leaf(Tag::Boolean, l.0),
        Node::Identifier(i) => leaf(Tag::Identifier, i.0),
        Node::Itself(i) => leaf(Tag::Itself, i.0),
        Node::Continue(c) => leaf(Tag::Continue, c.token),
        Node::Type(t) => type_view(t),
        Node::Prefix(p) => tree(Tag::Prefix(p.operator), seq![], seq![view(*p.node)]),
        Node::Infix(i) => tree(Tag::Infix(i.operator), seq![], seq![view(*i.left), view(*i.right)]),
        Node::Tuple(t) => tree(Tag::Tuple, seq![t.token], views(t.nodes)),
        Node::Block(b) => tree(Tag::Block, seq![b.token], views(b.nodes)),
        Node::If(i) => tree(
            Tag::If,
            seq![i.token],
            seq![
                view(*i.condition),
                tree(Tag::Block, seq![i.then_block.token], views(i.then_block.nodes)),
                match i.otherwise {
                    Some(b) => tree(Tag::Block, seq![b.token], views(b.nodes)),
                    None => absent(),
                },
            ],
        ),
        Node::Loop(l) => tree(
            Tag::Loop,
            seq![l.token],
            seq![tree(Tag::Block, seq![l.block.token], views(l.block.nodes))],
        ),
        Node::Break(b) => tree(
            Tag::Break,
            seq![b.token],
            seq![
                match b.result {
                    Some(r) => view(*r),
                    None => absent(),
                },
            ],
        ),
        Node::Return(r) => tree(
            Tag::Return,
            seq![r.token],
            seq![
                match r.result {
                    Some(v) => view(*v),
                    None => absent(),
                },
            ],
        ),
        Node::Let(d) => tree(
            Tag::Let,
            seq![d.token, d.identifier.0],
            seq![
                match d.value_type {
                    Some(t) => type_view(t),
                    None => absent(),
                },
                view(*d.node),
            ],
        ),
        Node::FunctionDeclaration(f) => tree(
            Tag::Function(f.modifiers.export),
            seq![f.token, f.identifier.0],
            seq![
                tree(Tag::Tuple, seq![f.arguments.token], views(f.arguments.nodes)),
                match f.return_type {
                    Some(t) => type_view(t),
                    None => absent(),
                },
                tree(Tag::Block, seq![f.block.token], views(f.block.nodes)),
            ],
        ),
        Node::PackageDeclaration(p) => tree(
            Tag::Package(p.modifiers.export),
            seq![p.token, p.identifier.0],
            seq![tree(Tag::Block, seq![p.block.token], views(p.block.nodes))],
        ),
        Node::TypeDeclaration(t) => tree(
            Tag::TypeDeclaration(t.modifiers.export),
            seq![t.token, t.identifier.0],
            seq![tree(Tag::Block, seq![t.block.token], views(t.block.nodes))],
        ),
        Node::From(FromNode::Export(e)) => tree(
            Tag::From,
            seq![e.token],
            seq![view(*e.from_node), view(*e.what_node)],
        ),
    }
}

pub open spec fn views(v: Vec<Node>) -> Seq<Tree>
    decreases v, 0int,
    via views_decreases
{
    Seq::new(
        v@.len(),
        |i: int|
            if 0 <= i < v@.len() {
                view(v[i])
            } else {
                absent()
            },
    )
}

#[via_fn]
proof fn views_decreases(v: Vec<Node>) {
    assert forall|i: int| 0 <= i < v@.len() implies decreases_to!(v => #[trigger] v[i]) by {
        axiom_vec_index_decreases(v, i);
    }
}

} // verus!

verus! {

pub open spec fn tuple_view(t: crate::node::TupleNode) -> Tree {
    tree(Tag::Tuple, seq![t.token], views(t.nodes))
}

pub open spec fn block_view(b: crate::node::BlockNode) -> Tree {
    tree(Tag::Block, seq![b.token], views(b.nodes))
}

pub open spec fn function_type_view(f: crate::node::TypeFunctionNode) -> Tree {
    type_view(TypeNode::Function(f))
}

pub open spec fn optional_view(v: Option<Box<Node>>) -> Tree {
    match v {
        Some(n) => view(*n),
        None => absent(),
    }
}

} // verus!

verus! {

pub open spec fn optional_type_view(o: Option<TypeNode>) -> Tree {
    match o {
        Some(t) => type_view(t),
        None => absent(),
    }
}

pub open spec fn optional_block_view(o: Option<crate::node::BlockNode>) -> Tree {
    match o {
        Some(b) => block_view(b),
        None => absent(),
    }
}

pub open spec fn optional_boxed_type_view(o: Option<Box<TypeNode>>) -> Tree {
    match o {
        Some(t) => type_view(*t),
        None => absent(),
    }
}

} // verus!
