use std::ops::Deref;

use bootstrap::lexer::lex;
use bootstrap::node::{
    FromNode, InfixNode, InfixOperator, LiteralNode, Node, PrefixNode, PrefixOperator, TupleNode,
    TypeFundamentalNode, TypeNode,
};
use bootstrap::parser::parse;

#[test]
fn export_single_package_from_local_file() {
    let tokens = lex("from './io' export io").unwrap();
    let result = parse(tokens).unwrap();
    assert_eq!(result.len(), 1);

    let FromNode::Export(node) = result.nodes[0].as_from();

    let LiteralNode::String(literal) = &node.from_node.as_literal() else { panic!("not string literal") };
    assert_eq!(literal.value(), "./io");

    let identifier = node.what_node.as_identifier();
    assert_eq!(identifier.value(), "io");
}

#[test]
fn identifier() {
    let tokens = lex("x").unwrap();
    let result = parse(tokens).unwrap();
    assert_eq!(result.len(), 1);

    let node = result.nodes[0].as_identifier();
    assert_eq!(node.value(), "x")
}

#[test]
fn identifier_with_underscore() {
    let tokens = lex("some_identifier").unwrap();
    let result = parse(tokens).unwrap();
    assert_eq!(result.len(), 1);

    let node = result.nodes[0].as_identifier();
    assert_eq!(node.value(), "some_identifier")
}

#[test]
fn itself() {
    let tokens = lex("self").unwrap();
    let result = parse(tokens).unwrap();
    assert_eq!(result.len(), 1);

    let node = result.nodes[0].as_itself();
    assert_eq!(node.value(), "self")
}

#[test]
fn identifier_with_type() {
    let tokens = lex("u: Bool").unwrap();
    let result = parse(tokens).unwrap();
    assert_eq!(result.len(), 1);

    let Node::Infix(InfixNode { left, operator, right }) = &result.nodes[0] else { panic!() };
    let InfixOperator::TypeAscription(_) = operator else { panic!() };

    let Node::Identifier(identifier) = left.as_ref() else { panic!() };
    assert_eq!(identifier.value(), "u");

    let Node::Type(type_node) = right.as_ref() else { panic!() };
    let TypeNode::Fundamental(TypeFundamentalNode::Boolean(_)) = type_node else { panic!() };
}

// A member access binds more tightly than the call after it:
// `console.log()` is a call of `console.log`.
#[test]
fn call_function_of_object() {
    let tokens = lex("console.log()").unwrap();
    let result = parse(tokens).unwrap();
    assert_eq!(result.len(), 1);

    let InfixNode { left, operator, right } = result.nodes[0].as_infix();
    let InfixOperator::Call(_) = operator else { panic!() };

    let TupleNode { nodes, .. } = right.as_tuple();
    assert_eq!(*nodes, vec![]);

    let InfixNode { left, operator, right } = left.as_infix();
    let Node::Identifier(node) = left.deref() else { panic!() };
    assert_eq!(node.value(), "console");

    let InfixOperator::AccessProperty(_) = operator else { panic!() };

    let Node::Identifier(node) = right.deref() else { panic!() };
    assert_eq!(node.value(), "log");
}

#[test]
fn call_without_arguments() {
    let tokens = lex("test()").unwrap();
    let result = parse(tokens).unwrap();
    assert_eq!(result.len(), 1);

    let InfixNode { left, operator, right } = &result.nodes[0].as_infix();
    let identifier = left.as_identifier();
    assert_eq!(identifier.value(), "test");

    let InfixOperator::Call(_) = operator else { panic!() };

    let TupleNode { nodes, .. } = right.as_tuple();
    assert_eq!(*nodes, vec![]);
}

#[test]
fn call_with_argument() {
    let tokens = lex("test('elodie')").unwrap();
    let result = parse(tokens).unwrap();
    assert_eq!(result.len(), 1);

    let InfixNode { left, operator, right } = &result.nodes[0].as_infix();
    let identifier = left.as_identifier();
    assert_eq!(identifier.value(), "test");

    let InfixOperator::Call(_) = operator else { panic!() };

    let TupleNode { nodes, .. } = right.as_tuple();
    assert_eq!(nodes.len(), 1);

    let Some(Node::Literal(LiteralNode::String(arg_1))) = &nodes.first() else { panic!() };
    assert_eq!(arg_1.value(), "elodie");
}

// Package access binds more tightly than the call after it:
// `some_package::some_function()` is a call of `some_package::some_function`.
#[test]
fn call_package_function() {
    let tokens = lex("some_package::some_function()").unwrap();
    let result = parse(tokens).unwrap();
    assert_eq!(result.len(), 1);

    let InfixNode { left, operator, right } = &result.nodes[0].as_infix();
    let InfixOperator::Call(_) = operator else { panic!() };

    let TupleNode { nodes, .. } = right.as_tuple();
    assert_eq!(*nodes, vec![]);

    let InfixNode { left, operator, right } = left.as_infix();
    let identifier = left.as_identifier();
    assert_eq!(identifier.value(), "some_package");

    let InfixOperator::AccessPackage(_) = operator else { panic!() };

    let identifier = right.as_identifier();
    assert_eq!(identifier.value(), "some_function");
}

#[test]
fn instantiate_type_without_properties() {
    let tokens = lex("Point()").unwrap();
    let result = parse(tokens).unwrap();
    assert_eq!(result.len(), 1);

    let _block = result.nodes[0].as_infix();
}

#[test]
fn prefix_plus() {
    let tokens = lex("+2").unwrap();
    let result = parse(tokens).unwrap();
    assert_eq!(result.len(), 1);

    let Node::Prefix(PrefixNode { ref operator, ref node }) = result.nodes[0] else { panic!() };
    assert!(matches!(*operator, PrefixOperator::Plus(_)));

    let Node::Literal(LiteralNode::Number(node)) = node.deref() else { panic!() };
    assert_eq!(node.value(), "2");
}

#[test]
fn negate() {
    let tokens = lex("-2").unwrap();
    let result = parse(tokens).unwrap();
    assert_eq!(result.len(), 1);

    let Node::Prefix(PrefixNode { ref operator, ref node }) = result.nodes[0] else { panic!() };
    assert!(matches!(*operator, PrefixOperator::Negate(_)));

    let Node::Literal(LiteralNode::Number(node)) = node.deref() else { panic!() };
    assert_eq!(node.value(), "2");
}

#[test]
fn not() {
    let tokens = lex("!false").unwrap();
    let result = parse(tokens).unwrap();
    assert_eq!(result.len(), 1);

    let Node::Prefix(PrefixNode { ref operator, ref node }) = result.nodes[0] else { panic!() };
    assert!(matches!(*operator, PrefixOperator::Not(_)));

    let Node::Literal(LiteralNode::Boolean(node)) = node.deref() else { panic!() };
    assert_eq!(node.value(), false);
}

#[test]
fn empty_tuple() {
    let tokens = lex("()").unwrap();
    let result = parse(tokens).unwrap();
    assert_eq!(result.len(), 1);

    let node = result.nodes[0].as_tuple();
    assert_eq!(node.nodes, vec![]);
}

#[test]
fn tuple_with_number() {
    let tokens = lex("(9924)").unwrap();
    let result = parse(tokens).unwrap();
    assert_eq!(result.len(), 1);

    let node = result.nodes[0].as_tuple();
    let Some(node) = node.nodes.first() else { panic!() };
    let Node::Literal(LiteralNode::Number(number)) = &node else { panic!() };
    assert_eq!(number.value(), "9924");
}

#[test]
fn nested_tuple() {
    let tokens = lex("(1 * ( 2 + 3 ))").unwrap();
    let result = parse(tokens).unwrap();
    assert_eq!(result.len(), 1);

    let node = result.nodes[0].as_tuple();
    let Some(node) = node.nodes.first() else { panic!() };
    let Node::Infix(InfixNode { left, operator: _, right }) = &node else { panic!() };

    let Node::Literal(LiteralNode::Number(left)) = &left.as_ref() else { panic!() };
    assert_eq!(left.value(), "1");

    let node = right.as_tuple();
    let Some(node) = node.nodes.first() else { panic!() };
    let InfixNode { left, operator: _, right } = &node.as_infix();

    let Node::Literal(LiteralNode::Number(left)) = &left.as_ref() else { panic!() };
    assert_eq!(left.value(), "2");

    let Node::Literal(LiteralNode::Number(right)) = &right.as_ref() else { panic!() };
    assert_eq!(right.value(), "3");
}

#[test]
fn tuple_with_identifier() {
    let tokens = lex("(u)").unwrap();
    let result = parse(tokens).unwrap();
    assert_eq!(result.len(), 1);

    let node = &result.nodes[0].as_tuple();
    let Some(node) = node.nodes.first() else { panic!() };
    let Node::Identifier(node) = node else { panic!() };
    assert_eq!(node.value(), "u");
}

#[test]
fn tuple_with_identifier_and_type() {
    let tokens = lex("(u: Bool)").unwrap();
    let result = parse(tokens).unwrap();
    assert_eq!(result.len(), 1);

    let node = result.nodes[0].as_tuple();
    let Some(node) = node.nodes.first() else { panic!() };
    let Node::Infix(InfixNode { left, operator: _, right }) = &node else { panic!() };

    let identifier = &left.as_identifier();
    assert_eq!(identifier.value(), "u");

    let Node::Type(TypeNode::Fundamental(TypeFundamentalNode::Boolean(_))) = right.as_ref() else { panic!() };
}

#[test]
fn tuple_with_multiple_identifiers() {
    let tokens = lex("(u,v)").unwrap();
    let result = parse(tokens).unwrap();
    assert_eq!(result.len(), 1);

    let node = result.nodes[0].as_tuple();

    let Some(Node::Identifier(u_node)) = &node.nodes.first() else { panic!() };
    assert_eq!(u_node.value(), "u");

    let Some(Node::Identifier(v_node)) = &node.nodes.last() else { panic!() };
    assert_eq!(v_node.value(), "v");
}

#[test]
fn tuple_with_identifiers_and_types() {
    let tokens = lex("(u: Bool, v: String)").unwrap();
    let result = parse(tokens).unwrap();
    assert_eq!(result.len(), 1);

    let node = result.nodes[0].as_tuple();

    let Some(u_node) = node.nodes.first() else { panic!() };
    let Node::Infix(InfixNode { left, operator: _, right }) = &u_node else { panic!() };
    let Node::Identifier(identifier) = &left.as_ref() else { panic!() };
    assert_eq!(identifier.value(), "u");
    let Node::Type(TypeNode::Fundamental(TypeFundamentalNode::Boolean(_))) = right.as_ref() else { panic!() };

    let Some(v_node) = node.nodes.last() else { panic!() };
    let Node::Infix(InfixNode { left, operator: _, right }) = &v_node else { panic!() };
    let Node::Identifier(identifier) = &left.as_ref() else { panic!() };
    assert_eq!(identifier.value(), "v");
    let Node::Type(TypeNode::Fundamental(TypeFundamentalNode::String(_))) = right.as_ref() else { panic!() };
}

#[test]
fn tuple_with_identifiers_and_declaration() {
    let tokens = lex("(u = 1, v = 2)").unwrap();
    let result = parse(tokens).unwrap();
    assert_eq!(result.len(), 1);

    let node = result.nodes[0].as_tuple();

    let Some(u_node) = node.nodes.first() else { panic!() };
    let Node::Infix(InfixNode { left, operator, right }) = &u_node else { panic!() };
    let Node::Identifier(identifier) = &left.as_ref() else { panic!() };
    assert_eq!(identifier.value(), "u");
    assert!(matches!(operator, InfixOperator::Assign(_)));
    let Node::Literal(LiteralNode::Number(number)) = right.as_ref() else { panic!() };
    assert_eq!(number.value(), "1");

    let Some(v_node) = node.nodes.last() else { panic!() };
    let Node::Infix(InfixNode { left, operator, right }) = &v_node else { panic!() };
    let Node::Identifier(identifier) = &left.as_ref() else { panic!() };
    assert_eq!(identifier.value(), "v");
    assert!(matches!(operator, InfixOperator::Assign(_)));
    let Node::Literal(LiteralNode::Number(number)) = right.as_ref() else { panic!() };
    assert_eq!(number.value(), "2");
}

#[test]
fn multiline_tuple() {
    let tokens = lex(r#"(
        u: Bool,
        v: String
        )"#).unwrap();
    let result = parse(tokens).unwrap();
    assert_eq!(result.len(), 1);

    let node = result.nodes[0].as_tuple();

    let Some(u_node) = node.nodes.first() else { panic!() };
    let Node::Infix(InfixNode { left, operator: _, right }) = &u_node else { panic!() };
    let Node::Identifier(identifier) = &left.as_ref() else { panic!() };
    assert_eq!(identifier.value(), "u");
    let Node::Type(TypeNode::Fundamental(TypeFundamentalNode::Boolean(_))) = right.as_ref() else { panic!() };

    let Some(v_node) = node.nodes.last() else { panic!() };
    let Node::Infix(InfixNode { left, operator: _, right }) = &v_node else { panic!() };
    let Node::Identifier(identifier) = &left.as_ref() else { panic!() };
    assert_eq!(identifier.value(), "v");
    let Node::Type(TypeNode::Fundamental(TypeFundamentalNode::String(_))) = right.as_ref() else { panic!() };
}
