use vstd::prelude::*;
use vstd::std_specs::vec::axiom_vec_index_decreases;

use crate::node::{IdentifierNode, InfixOperator, LiteralNode, Node, TypeFundamentalNode, TypeNode};
use crate::token::{copy_token, Token};
use crate::types::{DefaultTypeIds, TypeId};

verus! {

/// The name of a variable, function or type, as written.
#[derive(Clone, Debug, PartialEq)]
pub struct AstIdentifier(pub String);

#[derive(Clone, Debug, PartialEq)]
pub struct AstLiteralBooleanNode(pub Token);

#[derive(Clone, Debug, PartialEq)]
pub struct AstLiteralNumberNode(pub Token);

#[derive(Clone, Debug, PartialEq)]
pub struct AstLiteralStringNode(pub Token);

#[derive(Clone, Debug, PartialEq)]
pub enum AstLiteralNode {
    Boolean(AstLiteralBooleanNode),
    Number(AstLiteralNumberNode),
    String(AstLiteralStringNode),
}

/// A read of a variable.
#[derive(Clone, Debug, PartialEq)]
pub struct AstAccessVariableNode {
    pub variable: AstIdentifier,
}

/// A type as later stages see it; every custom type is an `Object`.
#[derive(Debug, PartialEq)]
pub enum AstType {
    Boolean,
    Object,
    Number,
    String,
    Function { arguments: Vec<Box<AstType>>, return_type: Option<Box<AstType>> },
}

/// A parameter of a declared function: its name and, if annotated, its type.
#[derive(Debug, PartialEq)]
pub struct AstFunctionArgument {
    pub argument: AstIdentifier,
    pub argument_type: Option<AstType>,
}

#[derive(Debug, PartialEq)]
pub enum Error {
    /// A parameter that is neither `name` nor `name: Type`.
    InvalidArgument,
}

pub fn identifier_of(node: &IdentifierNode) -> (r: AstIdentifier)
    ensures
        r.0@ == node.0.span.text@,
{
    AstIdentifier(node.0.span.text.clone())
}

pub fn compile_identifier(node: &IdentifierNode) -> (r: AstAccessVariableNode)
    ensures
        r.variable.0@ == node.0.span.text@,
{
    AstAccessVariableNode { variable: identifier_of(node) }
}

pub fn compile_literal(node: &LiteralNode) -> (r: AstLiteralNode)
    ensures
        r == match *node {
            LiteralNode::Boolean(b) => AstLiteralNode::Boolean(AstLiteralBooleanNode(b.0)),
            LiteralNode::Number(n) => AstLiteralNode::Number(AstLiteralNumberNode(n.0)),
            LiteralNode::String(s) => AstLiteralNode::String(AstLiteralStringNode(s.0)),
        },
{
    match node {
        LiteralNode::Boolean(b) => AstLiteralNode::Boolean(AstLiteralBooleanNode(copy_token(&b.0))),
        LiteralNode::Number(n) => AstLiteralNode::Number(AstLiteralNumberNode(copy_token(&n.0))),
        LiteralNode::String(s) => AstLiteralNode::String(AstLiteralStringNode(copy_token(&s.0))),
    }
}

/// The id of the type that a type node names: one of the fundamental types,
/// or `never` for function and custom types, which have no id yet.
pub open spec fn spec_type_id_of(t: TypeNode) -> TypeId {
    match t {
        TypeNode::Fundamental(TypeFundamentalNode::Boolean(_)) => TypeId(5),
        TypeNode::Fundamental(TypeFundamentalNode::Number(_)) => TypeId(4),
        TypeNode::Fundamental(TypeFundamentalNode::String(_)) => TypeId(3),
        _ => TypeId(0),
    }
}

pub fn get_type_id(t: &TypeNode) -> (r: TypeId)
    ensures
        r == spec_type_id_of(*t),
{
    match t {
        TypeNode::Fundamental(TypeFundamentalNode::Boolean(_)) => DefaultTypeIds::boolean(),
        TypeNode::Fundamental(TypeFundamentalNode::Number(_)) => DefaultTypeIds::number(),
        TypeNode::Fundamental(TypeFundamentalNode::String(_)) => DefaultTypeIds::string(),
        _ => DefaultTypeIds::never(),
    }
}

/// The outermost form of the type that a type node stands for.
pub open spec fn same_form(t: TypeNode, a: AstType) -> bool {
    match t {
        TypeNode::Fundamental(TypeFundamentalNode::Boolean(_)) => a == AstType::Boolean,
        TypeNode::Fundamental(TypeFundamentalNode::Number(_)) => a == AstType::Number,
        TypeNode::Fundamental(TypeFundamentalNode::String(_)) => a == AstType::String,
        TypeNode::Custom(_) => a == AstType::Object,
        TypeNode::Function(f) => match a {
            AstType::Function { arguments, return_type } => arguments@.len()
                == f.arguments@.len() && (return_type is Some <==> f.return_type is Some),
            _ => false,
        },
    }
}

pub fn compile_type(t: &TypeNode) -> (r: AstType)
    ensures
        same_form(*t, r),
    decreases *t,
{
    match t {
        TypeNode::Fundamental(TypeFundamentalNode::Boolean(_)) => AstType::Boolean,
        TypeNode::Fundamental(TypeFundamentalNode::Number(_)) => AstType::Number,
        TypeNode::Fundamental(TypeFundamentalNode::String(_)) => AstType::String,
        TypeNode::Custom(_) => AstType::Object,
        TypeNode::Function(f) => {
            let mut arguments: Vec<Box<AstType>> = Vec::new();
            let mut i: usize = 0;
            while i < f.arguments.len()
                invariant
                    0 <= i <= f.arguments@.len(),
                    arguments@.len() == i,
                    *t == TypeNode::Function(*f),
                decreases f.arguments@.len() - i,
            {
                proof {
                    axiom_vec_index_decreases(f.arguments, i as int);
                    let ft = t->Function_0;
                    let arg = ft.arguments[i as int];
                    assert(decreases_to!(*t => t->Function_0));
                    assert(decreases_to!(ft => ft.arguments));
                    assert(decreases_to!(arg => arg.argument_type));
                    assert(decreases_to!(*t => *arg.argument_type));
                }
                arguments.push(Box::new(compile_type(&f.arguments[i].argument_type)));
                i = i + 1;
            }
            let return_type = match &f.return_type {
                Some(rt) => Some(Box::new(compile_type(rt))),
                None => None,
            };
            AstType::Function { arguments, return_type }
        },
    }
}

/// A parameter of a function declaration, read from its node in the
/// parameter tuple: `name` or `name: Type`.
pub fn compile_declare_function_argument(node: &Node) -> (r: Result<AstFunctionArgument, Error>)
    ensures
        r is Ok <==> (node is Identifier || (node matches Node::Infix(i) && i.operator is TypeAscription
            && *i.left is Identifier && *i.right is Type)),
        r matches Ok(a) ==> (a.argument_type is Some <==> node is Infix),
{
    match node {
        Node::Identifier(id) => Ok(AstFunctionArgument { argument: identifier_of(id), argument_type: None }),
        Node::Infix(infix) => {
            let is_ascription = matches!(infix.operator, InfixOperator::TypeAscription(_));
            match (&*infix.left, &*infix.right) {
                (Node::Identifier(id), Node::Type(t)) => if is_ascription {
                    Ok(
                        AstFunctionArgument {
                            argument: identifier_of(id),
                            argument_type: Some(compile_type(t)),
                        },
                    )
                } else {
                    Err(Error::InvalidArgument)
                },
                _ => Err(Error::InvalidArgument),
            }
        },
        _ => Err(Error::InvalidArgument),
    }
}

} // verus!
