use bootstrap::lexer::Lexer;
use bootstrap::token::{LiteralToken, OperatorToken, Position, SeparatorToken, TokenKind};

#[test]
fn some_var() {
    let text = "some_var";
    let mut lexer = Lexer::new(text);
    let result = lexer.advance().unwrap();
    assert_eq!(result.kind, TokenKind::Identifier);
    assert_eq!(result.span.start, Position::at(1, 1, 0));
    assert_eq!(result.span.end, Position::at(1, 9, 8));
    assert_eq!(result.span.text, "some_var");
}

#[test]
fn var() {
    let text = "var";
    let mut lexer = Lexer::new(text);
    let result = lexer.advance().unwrap();
    assert_eq!(result.kind, TokenKind::Identifier);
    assert_eq!(result.span.start, Position::at(1, 1, 0));
    assert_eq!(result.span.end, Position::at(1, 4, 3));
    assert_eq!(result.span.text, "var");
}

#[test]
fn console_log() {
    let text = "console.log('test')";
    let mut lexer = Lexer::new(text);

    let result = lexer.advance().unwrap();
    assert_eq!(result.kind, TokenKind::Identifier);
    assert_eq!(result.span.start, Position::at(1, 1, 0));
    assert_eq!(result.span.end, Position::at(1, 8, 7));
    assert_eq!(result.span.text, "console");

    let result = lexer.advance().unwrap();
    assert_eq!(result.kind, TokenKind::Operator(OperatorToken::Dot));
    assert_eq!(result.span.start, Position::at(1, 8, 7));
    assert_eq!(result.span.end, Position::at(1, 9, 8));
    assert_eq!(result.span.text, ".");

    let result = lexer.advance().unwrap();
    assert_eq!(result.kind, TokenKind::Identifier);
    assert_eq!(result.span.start, Position::at(1, 9, 8));
    assert_eq!(result.span.end, Position::at(1, 12, 11));
    assert_eq!(result.span.text, "log");

    let result = lexer.advance().unwrap();
    assert_eq!(result.kind, TokenKind::Operator(OperatorToken::OpenParen));
    assert_eq!(result.span.start, Position::at(1, 12, 11));
    assert_eq!(result.span.end, Position::at(1, 13, 12));
    assert_eq!(result.span.text, "(");

    let result = lexer.advance().unwrap();
    assert_eq!(result.kind, TokenKind::Literal(LiteralToken::String));
    assert_eq!(result.span.start, Position::at(1, 13, 12));
    assert_eq!(result.span.end, Position::at(1, 19, 18));
    assert_eq!(result.span.text, "test");

    let result = lexer.advance().unwrap();
    assert_eq!(result.kind, TokenKind::Operator(OperatorToken::CloseParen));
    assert_eq!(result.span.start, Position::at(1, 19, 18));
    assert_eq!(result.span.end, Position::at(1, 20, 19));
    assert_eq!(result.span.text, ")");

    let result = lexer.advance().unwrap();
    assert_eq!(result.kind, TokenKind::EOF);
    assert_eq!(result.span.start, Position::at(1, 20, 19));
    assert_eq!(result.span.end, Position::at(1, 20, 19));
    assert_eq!(result.span.text, "");
}

#[test]
fn empty_string() {
    let text = "''";
    let mut lexer = Lexer::new(text);
    let result = lexer.advance().unwrap();
    assert_eq!(result.kind, TokenKind::Literal(LiteralToken::String));
    assert_eq!(result.span.start, Position::at(1, 1, 0));
    assert_eq!(result.span.end, Position::at(1, 3, 2));
    assert_eq!(result.span.text, "");
}

#[test]
fn hello_elodie() {
    let text = "'Hello Elodie'";
    let mut lexer = Lexer::new(text);
    let result = lexer.advance().unwrap();
    assert_eq!(result.kind, TokenKind::Literal(LiteralToken::String));
    assert_eq!(result.span.start, Position::at(1, 1, 0));
    assert_eq!(result.span.end, Position::at(1, 15, 14));
    assert_eq!(result.span.text, "Hello Elodie");
}

#[test]
fn escaped_string() {
    let text = "'{\\'hello\\':\\'world\\'}'";
    let mut lexer = Lexer::new(text);
    let result = lexer.advance().unwrap();
    assert_eq!(result.kind, TokenKind::Literal(LiteralToken::String));
    assert_eq!(result.span.start, Position::at(1, 1, 0));
    assert_eq!(result.span.end, Position::at(1, 24, 23));
    assert_eq!(result.span.text, "{'hello':'world'}");
}

#[test]
fn natural() {
    let text = "42";
    let mut lexer = Lexer::new(text);
    let result = lexer.advance().unwrap();
    assert_eq!(result.kind, TokenKind::Literal(LiteralToken::Number));
    assert_eq!(result.span.start, Position::at(1, 1, 0));
    assert_eq!(result.span.end, Position::at(1, 3, 2));
    assert_eq!(result.span.text, "42");
}

#[test]
fn float() {
    let text = "42.24";
    let mut lexer = Lexer::new(text);
    let result = lexer.advance().unwrap();
    assert_eq!(result.kind, TokenKind::Literal(LiteralToken::Number));
    assert_eq!(result.span.start, Position::at(1, 1, 0));
    assert_eq!(result.span.end, Position::at(1, 6, 5));
    assert_eq!(result.span.text, "42.24");
}

#[test]
fn hex() {
    let text = "0xDEADBEEF";
    let mut lexer = Lexer::new(text);
    let result = lexer.advance().unwrap();
    assert_eq!(result.kind, TokenKind::Literal(LiteralToken::Number));
    assert_eq!(result.span.start, Position::at(1, 1, 0));
    assert_eq!(result.span.end, Position::at(1, 11, 10));
    assert_eq!(result.span.text, "0xDEADBEEF");
}

#[test]
fn octal() {
    let text = "0o10";
    let mut lexer = Lexer::new(text);
    let result = lexer.advance().unwrap();
    assert_eq!(result.kind, TokenKind::Literal(LiteralToken::Number));
    assert_eq!(result.span.start, Position::at(1, 1, 0));
    assert_eq!(result.span.end, Position::at(1, 5, 4));
    assert_eq!(result.span.text, "0o10");
}

#[test]
fn binary() {
    let text = "0b10101";
    let mut lexer = Lexer::new(text);
    let result = lexer.advance().unwrap();
    assert_eq!(result.kind, TokenKind::Literal(LiteralToken::Number));
    assert_eq!(result.span.start, Position::at(1, 1, 0));
    assert_eq!(result.span.end, Position::at(1, 8, 7));
    assert_eq!(result.span.text, "0b10101");
}

#[test]
fn literal_true() {
    let text = "true";
    let mut lexer = Lexer::new(text);
    let result = lexer.advance().unwrap();
    assert_eq!(result.kind, TokenKind::Literal(LiteralToken::True));
    assert_eq!(result.span.start, Position::at(1, 1, 0));
    assert_eq!(result.span.end, Position::at(1, 5, 4));
    assert_eq!(result.span.text, "true");
}

#[test]
fn not_true() {
    let text = "true_";
    let mut lexer = Lexer::new(text);
    let result = lexer.advance().unwrap();
    assert_eq!(result.kind, TokenKind::Identifier);
    assert_eq!(result.span.start, Position::at(1, 1, 0));
    assert_eq!(result.span.end, Position::at(1, 6, 5));
    assert_eq!(result.span.text, "true_");
}

#[test]
fn literal_false() {
    let text = "false";
    let mut lexer = Lexer::new(text);
    let result = lexer.advance().unwrap();
    assert_eq!(result.kind, TokenKind::Literal(LiteralToken::False));
    assert_eq!(result.span.start, Position::at(1, 1, 0));
    assert_eq!(result.span.end, Position::at(1, 6, 5));
    assert_eq!(result.span.text, "false");
}

#[test]
fn not_false() {
    let text = "false_";
    let mut lexer = Lexer::new(text);
    let result = lexer.advance().unwrap();
    assert_eq!(result.kind, TokenKind::Identifier);
    assert_eq!(result.span.start, Position::at(1, 1, 0));
    assert_eq!(result.span.end, Position::at(1, 7, 6));
    assert_eq!(result.span.text, "false_");
}

#[test]
fn open_paren() {
    let text = "(";
    let mut lexer = Lexer::new(text);
    let result = lexer.advance().unwrap();
    assert_eq!(result.kind, TokenKind::Operator(OperatorToken::OpenParen));
    assert_eq!(result.span.start, Position::at(1, 1, 0));
    assert_eq!(result.span.end, Position::at(1, 2, 1));
    assert_eq!(result.span.text, "(");
}

#[test]
fn close_paren() {
    let text = ")";
    let mut lexer = Lexer::new(text);
    let result = lexer.advance().unwrap();
    assert_eq!(result.kind, TokenKind::Operator(OperatorToken::CloseParen));
    assert_eq!(result.span.start, Position::at(1, 1, 0));
    assert_eq!(result.span.end, Position::at(1, 2, 1));
    assert_eq!(result.span.text, ")");
}

#[test]
fn open_curly() {
    let text = "{";
    let mut lexer = Lexer::new(text);
    let result = lexer.advance().unwrap();
    assert_eq!(result.kind, TokenKind::Operator(OperatorToken::OpenCurly));
    assert_eq!(result.span.start, Position::at(1, 1, 0));
    assert_eq!(result.span.end, Position::at(1, 2, 1));
    assert_eq!(result.span.text, "{");
}

#[test]
fn close_curly() {
    let text = "}";
    let mut lexer = Lexer::new(text);
    let result = lexer.advance().unwrap();
    assert_eq!(result.kind, TokenKind::Operator(OperatorToken::CloseCurly));
    assert_eq!(result.span.start, Position::at(1, 1, 0));
    assert_eq!(result.span.end, Position::at(1, 2, 1));
    assert_eq!(result.span.text, "}");
}

#[test]
fn open_bracket() {
    let text = "[";
    let mut lexer = Lexer::new(text);
    let result = lexer.advance().unwrap();
    assert_eq!(result.kind, TokenKind::Operator(OperatorToken::OpenBracket));
    assert_eq!(result.span.start, Position::at(1, 1, 0));
    assert_eq!(result.span.end, Position::at(1, 2, 1));
    assert_eq!(result.span.text, "[");
}

#[test]
fn close_bracket() {
    let text = "]";
    let mut lexer = Lexer::new(text);
    let result = lexer.advance().unwrap();
    assert_eq!(result.kind, TokenKind::Operator(OperatorToken::CloseBracket));
    assert_eq!(result.span.start, Position::at(1, 1, 0));
    assert_eq!(result.span.end, Position::at(1, 2, 1));
    assert_eq!(result.span.text, "]");
}

#[test]
fn left_angle() {
    let text = "<";
    let mut lexer = Lexer::new(text);
    let result = lexer.advance().unwrap();
    assert_eq!(result.kind, TokenKind::Operator(OperatorToken::LeftAngle));
    assert_eq!(result.span.start, Position::at(1, 1, 0));
    assert_eq!(result.span.end, Position::at(1, 2, 1));
    assert_eq!(result.span.text, "<");
}

#[test]
fn double_left_angle() {
    let text = "<<";
    let mut lexer = Lexer::new(text);
    let result = lexer.advance().unwrap();
    assert_eq!(result.kind, TokenKind::Operator(OperatorToken::DoubleLeftAngle));
    assert_eq!(result.span.start, Position::at(1, 1, 0));
    assert_eq!(result.span.end, Position::at(1, 3, 2));
    assert_eq!(result.span.text, "<<");
}

#[test]
fn left_angle_equals() {
    let text = "<=";
    let mut lexer = Lexer::new(text);
    let result = lexer.advance().unwrap();
    assert_eq!(result.kind, TokenKind::Operator(OperatorToken::LeftAngleEquals));
    assert_eq!(result.span.start, Position::at(1, 1, 0));
    assert_eq!(result.span.end, Position::at(1, 3, 2));
    assert_eq!(result.span.text, "<=");
}

#[test]
fn right_angle() {
    let text = ">";
    let mut lexer = Lexer::new(text);
    let result = lexer.advance().unwrap();
    assert_eq!(result.kind, TokenKind::Operator(OperatorToken::RightAngle));
    assert_eq!(result.span.start, Position::at(1, 1, 0));
    assert_eq!(result.span.end, Position::at(1, 2, 1));
    assert_eq!(result.span.text, ">");
}

#[test]
fn double_right_angle() {
    let text = ">>";
    let mut lexer = Lexer::new(text);
    let result = lexer.advance().unwrap();
    assert_eq!(result.kind, TokenKind::Operator(OperatorToken::DoubleRightAngle));
    assert_eq!(result.span.start, Position::at(1, 1, 0));
    assert_eq!(result.span.end, Position::at(1, 3, 2));
    assert_eq!(result.span.text, ">>");
}

#[test]
fn right_angle_equals() {
    let text = ">=";
    let mut lexer = Lexer::new(text);
    let result = lexer.advance().unwrap();
    assert_eq!(result.kind, TokenKind::Operator(OperatorToken::RightAngleEquals));
    assert_eq!(result.span.start, Position::at(1, 1, 0));
    assert_eq!(result.span.end, Position::at(1, 3, 2));
    assert_eq!(result.span.text, ">=");
}

#[test]
fn dot() {
    let text = ".";
    let mut lexer = Lexer::new(text);
    let result = lexer.advance().unwrap();
    assert_eq!(result.kind, TokenKind::Operator(OperatorToken::Dot));
    assert_eq!(result.span.start, Position::at(1, 1, 0));
    assert_eq!(result.span.end, Position::at(1, 2, 1));
    assert_eq!(result.span.text, ".");
}

#[test]
fn double_dot() {
    let text = "..";
    let mut lexer = Lexer::new(text);
    let result = lexer.advance().unwrap();
    assert_eq!(result.kind, TokenKind::Operator(OperatorToken::DoubleDot));
    assert_eq!(result.span.start, Position::at(1, 1, 0));
    assert_eq!(result.span.end, Position::at(1, 3, 2));
    assert_eq!(result.span.text, "..");
}

#[test]
fn colon() {
    let text = ":";
    let mut lexer = Lexer::new(text);
    let result = lexer.advance().unwrap();
    assert_eq!(result.kind, TokenKind::Operator(OperatorToken::Colon));
    assert_eq!(result.span.start, Position::at(1, 1, 0));
    assert_eq!(result.span.end, Position::at(1, 2, 1));
    assert_eq!(result.span.text, ":");
}

#[test]
fn double_colon() {
    let text = "::";
    let mut lexer = Lexer::new(text);
    let result = lexer.advance().unwrap();
    assert_eq!(result.kind, TokenKind::Operator(OperatorToken::DoubleColon));
    assert_eq!(result.span.start, Position::at(1, 1, 0));
    assert_eq!(result.span.end, Position::at(1, 3, 2));
    assert_eq!(result.span.text, "::");
}

#[test]
fn minus() {
    let text = "-";
    let mut lexer = Lexer::new(text);
    let result = lexer.advance().unwrap();
    assert_eq!(result.kind, TokenKind::Operator(OperatorToken::Minus));
    assert_eq!(result.span.start, Position::at(1, 1, 0));
    assert_eq!(result.span.end, Position::at(1, 2, 1));
    assert_eq!(result.span.text, "-");
}

#[test]
fn arrow() {
    let text = "->";
    let mut lexer = Lexer::new(text);
    let result = lexer.advance().unwrap();
    assert_eq!(result.kind, TokenKind::Operator(OperatorToken::Arrow));
    assert_eq!(result.span.start, Position::at(1, 1, 0));
    assert_eq!(result.span.end, Position::at(1, 3, 2));
    assert_eq!(result.span.text, "->");
}

#[test]
fn operator_plus() {
    let text = "+";
    let mut lexer = Lexer::new(text);
    let result = lexer.advance().unwrap();
    assert_eq!(result.kind, TokenKind::Operator(OperatorToken::Plus));
    assert_eq!(result.span.start, Position::at(1, 1, 0));
    assert_eq!(result.span.end, Position::at(1, 2, 1));
    assert_eq!(result.span.text, "+");
}

#[test]
fn asterisk() {
    let text = "*";
    let mut lexer = Lexer::new(text);
    let result = lexer.advance().unwrap();
    assert_eq!(result.kind, TokenKind::Operator(OperatorToken::Asterisk));
    assert_eq!(result.span.start, Position::at(1, 1, 0));
    assert_eq!(result.span.end, Position::at(1, 2, 1));
    assert_eq!(result.span.text, "*");
}

#[test]
fn slash() {
    let text = "/";
    let mut lexer = Lexer::new(text);
    let result = lexer.advance().unwrap();
    assert_eq!(result.kind, TokenKind::Operator(OperatorToken::Slash));
    assert_eq!(result.span.start, Position::at(1, 1, 0));
    assert_eq!(result.span.end, Position::at(1, 2, 1));
    assert_eq!(result.span.text, "/");
}

#[test]
fn ampersand() {
    let text = "&";
    let mut lexer = Lexer::new(text);
    let result = lexer.advance().unwrap();
    assert_eq!(result.kind, TokenKind::Operator(OperatorToken::Ampersand));
    assert_eq!(result.span.start, Position::at(1, 1, 0));
    assert_eq!(result.span.end, Position::at(1, 2, 1));
    assert_eq!(result.span.text, "&");
}

#[test]
fn double_ampersand() {
    let text = "&&";
    let mut lexer = Lexer::new(text);
    let result = lexer.advance().unwrap();
    assert_eq!(result.kind, TokenKind::Operator(OperatorToken::DoubleAmpersand));
    assert_eq!(result.span.start, Position::at(1, 1, 0));
    assert_eq!(result.span.end, Position::at(1, 3, 2));
    assert_eq!(result.span.text, "&&");
}

#[test]
fn pipe() {
    let text = "|";
    let mut lexer = Lexer::new(text);
    let result = lexer.advance().unwrap();
    assert_eq!(result.kind, TokenKind::Operator(OperatorToken::Pipe));
    assert_eq!(result.span.start, Position::at(1, 1, 0));
    assert_eq!(result.span.end, Position::at(1, 2, 1));
    assert_eq!(result.span.text, "|");
}

#[test]
fn double_pipe() {
    let text = "||";
    let mut lexer = Lexer::new(text);
    let result = lexer.advance().unwrap();
    assert_eq!(result.kind, TokenKind::Operator(OperatorToken::DoublePipe));
    assert_eq!(result.span.start, Position::at(1, 1, 0));
    assert_eq!(result.span.end, Position::at(1, 3, 2));
    assert_eq!(result.span.text, "||");
}

#[test]
fn caret() {
    let text = "^";
    let mut lexer = Lexer::new(text);
    let result = lexer.advance().unwrap();
    assert_eq!(result.kind, TokenKind::Operator(OperatorToken::Caret));
    assert_eq!(result.span.start, Position::at(1, 1, 0));
    assert_eq!(result.span.end, Position::at(1, 2, 1));
    assert_eq!(result.span.text, "^");
}

#[test]
fn percent() {
    let text = "%";
    let mut lexer = Lexer::new(text);
    let result = lexer.advance().unwrap();
    assert_eq!(result.kind, TokenKind::Operator(OperatorToken::Percent));
    assert_eq!(result.span.start, Position::at(1, 1, 0));
    assert_eq!(result.span.end, Position::at(1, 2, 1));
    assert_eq!(result.span.text, "%");
}

#[test]
fn equals() {
    let text = "=";
    let mut lexer = Lexer::new(text);
    let result = lexer.advance().unwrap();
    assert_eq!(result.kind, TokenKind::Operator(OperatorToken::Equals));
    assert_eq!(result.span.start, Position::at(1, 1, 0));
    assert_eq!(result.span.end, Position::at(1, 2, 1));
    assert_eq!(result.span.text, "=");
}

#[test]
fn equals_equals() {
    let text = "==";
    let mut lexer = Lexer::new(text);
    let result = lexer.advance().unwrap();
    assert_eq!(result.kind, TokenKind::Operator(OperatorToken::DoubleEquals));
    assert_eq!(result.span.start, Position::at(1, 1, 0));
    assert_eq!(result.span.end, Position::at(1, 3, 2));
    assert_eq!(result.span.text, "==");
}

#[test]
fn bang() {
    let text = "!";
    let mut lexer = Lexer::new(text);
    let result = lexer.advance().unwrap();
    assert_eq!(result.kind, TokenKind::Operator(OperatorToken::Bang));
    assert_eq!(result.span.start, Position::at(1, 1, 0));
    assert_eq!(result.span.end, Position::at(1, 2, 1));
    assert_eq!(result.span.text, "!");
}

#[test]
fn bang_equals() {
    let text = "!=";
    let mut lexer = Lexer::new(text);
    let result = lexer.advance().unwrap();
    assert_eq!(result.kind, TokenKind::Operator(OperatorToken::BangEquals));
    assert_eq!(result.span.start, Position::at(1, 1, 0));
    assert_eq!(result.span.end, Position::at(1, 3, 2));
    assert_eq!(result.span.text, "!=");
}

#[test]
fn separator_tab() {
    let text = "\t";
    let mut lexer = Lexer::new(text);
    let result = lexer.advance().unwrap();
    assert_eq!(result.kind, TokenKind::EOF);
    assert_eq!(result.span.start, Position::at(1, 2, 1));
    assert_eq!(result.span.end, Position::at(1, 2, 1));
    assert_eq!(result.span.text, "")
}

#[test]
fn separator_whitespace() {
    let text = "     ";
    let mut lexer = Lexer::new(text);
    let result = lexer.advance().unwrap();
    assert_eq!(result.kind, TokenKind::EOF);
    assert_eq!(result.span.start, Position::at(1, 6, 5));
    assert_eq!(result.span.end, Position::at(1, 6, 5));
    assert_eq!(result.span.text, "")
}

#[test]
fn separator_comma() {
    let text = ",";
    let mut lexer = Lexer::new(text);
    let result = lexer.advance().unwrap();
    assert_eq!(result.kind, TokenKind::Separator(SeparatorToken::Comma));
    assert_eq!(result.span.start, Position::at(1, 1, 0));
    assert_eq!(result.span.end, Position::at(1, 2, 1));
    assert_eq!(result.span.text, ",");
}

#[test]
fn separator_semicolon() {
    let text = ";";
    let mut lexer = Lexer::new(text);
    let result = lexer.advance().unwrap();
    assert_eq!(result.kind, TokenKind::Separator(SeparatorToken::Semicolon));
    assert_eq!(result.span.start, Position::at(1, 1, 0));
    assert_eq!(result.span.end, Position::at(1, 2, 1));
    assert_eq!(result.span.text, ";");
}

#[test]
fn separator_new_line() {
    let text = "\n\n\n";
    let mut lexer = Lexer::new(text);
    let result = lexer.advance().unwrap();
    assert_eq!(result.kind, TokenKind::Separator(SeparatorToken::NewLine));
    assert_eq!(result.span.start, Position::at(1, 1, 0));
    assert_eq!(result.span.end, Position::at(3, 1, 3));
    assert_eq!(result.span.text, "\n\n\n");
}
