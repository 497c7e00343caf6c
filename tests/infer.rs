use bootstrap::infer::{infer, InferredType, LiteralNode, Node};
use bootstrap::parse_str;

#[test]
fn declare_number_variable() {
    let parsed = parse_str("let value = 23").unwrap();
    let inferred = infer(&parsed).unwrap();
    assert_eq!(inferred.nodes.len(), 1);

    let Node::DeclareVariable(node) = &inferred.nodes[0] else { panic!() };
    assert_eq!(node.inferred_type, InferredType::Number)
}

#[test]
fn declare_number_variable_with_explicit_type() {
    let parsed = parse_str("let value: Number = 23").unwrap();
    let inferred = infer(&parsed).unwrap();
    assert_eq!(inferred.nodes.len(), 1);

    let Node::DeclareVariable(node) = &inferred.nodes[0] else { panic!() };
    assert_eq!(node.inferred_type, InferredType::Number)
}

#[test]
fn declare_string_variable_with_explicit_type() {
    let parsed = parse_str("let value: String = 'Elo'").unwrap();
    let inferred = infer(&parsed).unwrap();
    assert_eq!(inferred.nodes.len(), 1);

    let Node::DeclareVariable(node) = &inferred.nodes[0] else { panic!() };
    assert_eq!(node.inferred_type, InferredType::String)
}

#[test]
fn declare_boolean_variable_with_explicit_type() {
    let parsed = parse_str("let value = true").unwrap();
    let inferred = infer(&parsed).unwrap();
    assert_eq!(inferred.nodes.len(), 1);

    let Node::DeclareVariable(node) = &inferred.nodes[0] else { panic!() };
    assert_eq!(node.inferred_type, InferredType::Boolean)
}

#[test]
fn number_literal() {
    let ast = parse_str("9924").unwrap();
    let inferred = infer(&ast).unwrap();
    assert_eq!(inferred.nodes.len(), 1);

    let Node::Literal(LiteralNode::Number(node)) = &inferred.nodes[0] else { panic!() };
    assert_eq!(node.inferred_type, InferredType::Number)
}

#[test]
fn string_literal() {
    let ast = parse_str("'Elodie'").unwrap();
    let inferred = infer(&ast).unwrap();
    assert_eq!(inferred.nodes.len(), 1);

    let Node::Literal(LiteralNode::String(node)) = &inferred.nodes[0] else { panic!() };
    assert_eq!(node.inferred_type, InferredType::String)
}

#[test]
fn true_literal() {
    let ast = parse_str("true").unwrap();
    let inferred = infer(&ast).unwrap();
    assert_eq!(inferred.nodes.len(), 1);

    let Node::Literal(LiteralNode::Boolean(node)) = &inferred.nodes[0] else { panic!() };
    assert_eq!(node.inferred_type, InferredType::Boolean)
}

#[test]
fn false_literal() {
    let ast = parse_str("false").unwrap();
    let inferred = infer(&ast).unwrap();
    assert_eq!(inferred.nodes.len(), 1);

    let Node::Literal(LiteralNode::Boolean(node)) = &inferred.nodes[0] else { panic!() };
    assert_eq!(node.inferred_type, InferredType::Boolean)
}

#[test]
fn statement_without_known_type() {
    let parsed = parse_str("x").unwrap();
    assert_eq!(infer(&parsed), Err(bootstrap::infer::Error::Unsupported));

    let parsed = parse_str("let x: Point = 1").unwrap();
    assert_eq!(infer(&parsed), Err(bootstrap::infer::Error::Unsupported));
}

#[test]
fn empty_statements_are_skipped() {
    let parsed = parse_str("1\n\n").unwrap();
    let inferred = infer(&parsed).unwrap();
    assert_eq!(inferred.nodes.len(), 1);
    assert_eq!(inferred.nodes[0].inferred_type(), InferredType::Number);
}
