use vstd::prelude::*;

use crate::node;
use crate::node::{RootNode, TypeFundamentalNode, TypeNode};
use crate::token::{copy_token, Token};

verus! {

#[derive(Clone, Copy, Debug, PartialEq, Eq, Structural)]
pub enum InferredType {
    Boolean,
    Number,
    String,
}

#[derive(Debug, PartialEq)]
pub enum Error {
    /// A node whose type cannot be inferred yet.
    Unsupported,
}

#[derive(Debug, PartialEq)]
pub struct LiteralBooleanNode {
    pub token: Token,
    pub inferred_type: InferredType,
}

#[derive(Debug, PartialEq)]
pub struct LiteralNumberNode {
    pub token: Token,
    pub inferred_type: InferredType,
}

#[derive(Debug, PartialEq)]
pub struct LiteralStringNode {
    pub token: Token,
    pub inferred_type: InferredType,
}

#[derive(Debug, PartialEq)]
pub enum LiteralNode {
    Boolean(LiteralBooleanNode),
    Number(LiteralNumberNode),
    String(LiteralStringNode),
}

/// A `let`, with the type of the variable it declares.
#[derive(Debug, PartialEq)]
pub struct DeclareVariableNode {
    pub token: Token,
    pub node: Box<Node>,
    pub inferred_type: InferredType,
}

/// A statement with its inferred type.
#[derive(Debug, PartialEq)]
pub enum Node {
    DeclareVariable(DeclareVariableNode),
    Literal(LiteralNode),
}

/// The typed statements of one source unit.
#[derive(Debug, PartialEq)]
pub struct Inferred {
    pub nodes: Vec<Node>,
}

impl Node {
    pub open spec fn spec_inferred_type(&self) -> InferredType {
        match self {
            Node::DeclareVariable(n) => n.inferred_type,
            Node::Literal(LiteralNode::Boolean(n)) => n.inferred_type,
            Node::Literal(LiteralNode::Number(n)) => n.inferred_type,
            Node::Literal(LiteralNode::String(n)) => n.inferred_type,
        }
    }

    pub fn inferred_type(&self) -> (r: InferredType)
        ensures
            r == self.spec_inferred_type(),
    {
        match self {
            Node::DeclareVariable(n) => n.inferred_type,
            Node::Literal(LiteralNode::Boolean(n)) => n.inferred_type,
            Node::Literal(LiteralNode::Number(n)) => n.inferred_type,
            Node::Literal(LiteralNode::String(n)) => n.inferred_type,
        }
    }
}

/// The type that a type annotation names, for the types inference knows.
pub open spec fn annotated_type(t: TypeNode) -> Option<InferredType> {
    match t {
        TypeNode::Fundamental(TypeFundamentalNode::Boolean(_)) => Some(InferredType::Boolean),
        TypeNode::Fundamental(TypeFundamentalNode::Number(_)) => Some(InferredType::Number),
        TypeNode::Fundamental(TypeFundamentalNode::String(_)) => Some(InferredType::String),
        _ => None,
    }
}

/// The type of a parsed statement: a literal has the type of its kind; a
/// `let` has its annotated type, or else the type of its value, and needs a
/// value whose type is known. Other statements have none yet.
pub open spec fn type_of(n: node::Node) -> Option<InferredType>
    decreases n,
{
    match n {
        node::Node::Literal(node::LiteralNode::Boolean(_)) => Some(InferredType::Boolean),
        node::Node::Literal(node::LiteralNode::Number(_)) => Some(InferredType::Number),
        node::Node::Literal(node::LiteralNode::String(_)) => Some(InferredType::String),
        node::Node::Let(d) => match type_of(*d.node) {
            None => None,
            Some(value_type) => match d.value_type {
                Some(t) => annotated_type(t),
                None => Some(value_type),
            },
        },
        _ => None,
    }
}

pub fn type_from_type_node(t: &TypeNode) -> (r: Result<InferredType, Error>)
    ensures
        match annotated_type(*t) {
            Some(ty) => r == Ok::<InferredType, Error>(ty),
            None => r == Err::<InferredType, Error>(Error::Unsupported),
        },
{
    match t {
        TypeNode::Fundamental(TypeFundamentalNode::Boolean(_)) => Ok(InferredType::Boolean),
        TypeNode::Fundamental(TypeFundamentalNode::Number(_)) => Ok(InferredType::Number),
        TypeNode::Fundamental(TypeFundamentalNode::String(_)) => Ok(InferredType::String),
        _ => Err(Error::Unsupported),
    }
}

pub fn infer_literal(l: &node::LiteralNode) -> (r: Node)
    ensures
        Some(r.spec_inferred_type()) == type_of(node::Node::Literal(*l)),
{
    match l {
        node::LiteralNode::Boolean(b) => Node::Literal(
            LiteralNode::Boolean(
                LiteralBooleanNode { token: copy_token(&b.0), inferred_type: InferredType::Boolean },
            ),
        ),
        node::LiteralNode::Number(n) => Node::Literal(
            LiteralNode::Number(
                LiteralNumberNode { token: copy_token(&n.0), inferred_type: InferredType::Number },
            ),
        ),
        node::LiteralNode::String(s) => Node::Literal(
            LiteralNode::String(
                LiteralStringNode { token: copy_token(&s.0), inferred_type: InferredType::String },
            ),
        ),
    }
}

pub fn infer_declare_variable(d: &node::DeclareVariableNode) -> (r: Result<Node, Error>)
    ensures
        match type_of(node::Node::Let(*d)) {
            Some(ty) => r matches Ok(n) && n.spec_inferred_type() == ty,
            None => r == Err::<Node, Error>(Error::Unsupported),
        },
    decreases *d, 0int,
{
    let node = match infer_node(&d.node) {
        Ok(n) => n,
        Err(e) => {
            return Err(e);
        },
    };
    let inferred_type = match &d.value_type {
        Some(t) => match type_from_type_node(t) {
            Ok(ty) => ty,
            Err(e) => {
                return Err(e);
            },
        },
        None => node.inferred_type(),
    };
    Ok(
        Node::DeclareVariable(
            DeclareVariableNode { token: copy_token(&d.token), node: Box::new(node), inferred_type },
        ),
    )
}

pub fn infer_node(n: &node::Node) -> (r: Result<Node, Error>)
    ensures
        match type_of(*n) {
            Some(ty) => r matches Ok(m) && m.spec_inferred_type() == ty,
            None => r == Err::<Node, Error>(Error::Unsupported),
        },
    decreases *n, 1int,
{
    match n {
        node::Node::Literal(l) => Ok(infer_literal(l)),
        node::Node::Let(d) => infer_declare_variable(d),
        _ => Err(Error::Unsupported),
    }
}

/// Infers the type of every statement but the empty ones.
pub fn infer(root: &RootNode) -> (r: Result<Inferred, Error>)
    ensures
        (forall|i: int| 0 <= i < root.nodes@.len() ==> !(#[trigger] root.nodes@[i] is Nop)) ==> {
            &&& r is Ok <==> forall|i: int|
                0 <= i < root.nodes@.len() ==> #[trigger] type_of(root.nodes@[i]) is Some
            &&& r matches Ok(v) ==> v.nodes@.len() == root.nodes@.len() && forall|i: int|
                0 <= i < v.nodes@.len() ==> Some(#[trigger] v.nodes@[i].spec_inferred_type())
                    == type_of(root.nodes@[i])
        },
{
    let mut nodes: Vec<Node> = Vec::new();
    let mut i: usize = 0;
    while i < root.nodes.len()
        invariant
            0 <= i <= root.nodes@.len(),
            nodes@.len() <= i,
            (forall|j: int| 0 <= j < root.nodes@.len() ==> !(#[trigger] root.nodes@[j] is Nop))
                ==> {
                &&& nodes@.len() == i
                &&& forall|j: int| 0 <= j < i ==> #[trigger] type_of(root.nodes@[j]) is Some
                &&& forall|j: int|
                    0 <= j < i ==> Some(#[trigger] nodes@[j].spec_inferred_type()) == type_of(
                        root.nodes@[j],
                    )
            },
        decreases root.nodes@.len() - i,
    {
        let statement = &root.nodes[i];
        if !matches!(statement, node::Node::Nop) {
            let n = match infer_node(statement) {
                Ok(n) => n,
                Err(e) => {
                    return Err(e);
                },
            };
            nodes.push(n);
        }
        i = i + 1;
    }
    Ok(Inferred { nodes })
}

} // verus!
