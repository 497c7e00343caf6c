use bootstrap::lexer::lex;
use bootstrap::node::{TypeFunctionArgumentNode, TypeFundamentalNode, TypeNode};
use bootstrap::parser::{Error, Parser};

#[test]
fn not_a_type() {
    let tokens = lex("something_different").unwrap();
    let mut parser = Parser::new(tokens);
    let result = parser.parse_type();
    let Err(Error::UnknownType(_)) = result else { panic!() };
}

#[test]
fn type_boolean() {
    let tokens = lex("Bool").unwrap();
    let mut parser = Parser::new(tokens);
    let result = parser.parse_type().unwrap();
    let TypeNode::Fundamental(TypeFundamentalNode::Boolean(_)) = result else { panic!() };
}

#[test]
fn type_number() {
    let tokens = lex("Number").unwrap();
    let mut parser = Parser::new(tokens);
    let result = parser.parse_type().unwrap();
    let TypeNode::Fundamental(TypeFundamentalNode::Number(_)) = result else { panic!() };
}

#[test]
fn type_string() {
    let tokens = lex("String").unwrap();
    let mut parser = Parser::new(tokens);
    let result = parser.parse_type().unwrap();
    let TypeNode::Fundamental(TypeFundamentalNode::String(_)) = result else { panic!() };
}

#[test]
fn type_function_without_args_and_without_result() {
    let tokens = lex("fun()").unwrap();
    let mut parser = Parser::new(tokens);
    let result = parser.parse_type().unwrap();

    let TypeNode::Function(node) = result else { panic!() };
    assert_eq!(node.arguments, vec![]);
    assert_eq!(node.return_type, None);
}

#[test]
fn type_function_without_args_and_with_result() {
    let tokens = lex("fun() -> Number").unwrap();
    let mut parser = Parser::new(tokens);
    let result = parser.parse_type().unwrap();

    let TypeNode::Function(node) = result else { panic!() };
    assert_eq!(node.arguments, vec![]);

    let Some(result_node) = node.return_type.as_deref() else { panic!() };
    let TypeNode::Fundamental(TypeFundamentalNode::Number(_)) = result_node else { panic!() };
}

#[test]
fn type_function_single_named_arg_and_with_result() {
    let tokens = lex("fun(arg_1: Bool) -> Number").unwrap();
    let mut parser = Parser::new(tokens);
    let result = parser.parse_type().unwrap();

    let TypeNode::Function(node) = result else { panic!() };
    assert_eq!(node.arguments.len(), 1);

    let Some(TypeFunctionArgumentNode { identifier, argument_type }) = &node.arguments.first() else { panic!() };
    let Some(identifier) = identifier else { panic!() };
    assert_eq!(identifier.identifier(), "arg_1");

    let arg_type = argument_type.as_ref();
    let TypeNode::Fundamental(TypeFundamentalNode::Boolean(_)) = arg_type else { panic!() };

    let Some(result_node) = node.return_type.as_deref() else { panic!() };
    let TypeNode::Fundamental(TypeFundamentalNode::Number(_)) = result_node else { panic!() };
}

#[test]
fn type_function_single_arg_and_with_result() {
    let tokens = lex("fun(Bool) -> Number").unwrap();
    let mut parser = Parser::new(tokens);
    let result = parser.parse_type().unwrap();

    let TypeNode::Function(node) = result else { panic!() };
    assert_eq!(node.arguments.len(), 1);

    let Some(TypeFunctionArgumentNode { identifier, argument_type }) = &node.arguments.first() else { panic!() };
    assert_eq!(*identifier, None);

    let arg_type = argument_type.as_ref();
    let TypeNode::Fundamental(TypeFundamentalNode::Boolean(_)) = arg_type else { panic!() };

    let Some(result_node) = node.return_type.as_deref() else { panic!() };
    let TypeNode::Fundamental(TypeFundamentalNode::Number(_)) = result_node else { panic!() };
}
