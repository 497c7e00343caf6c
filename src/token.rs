use vstd::prelude::*;

verus! {

/// Where a character stands in the source text: its row and column, both
/// counted from 1, and its index in the sequence of characters, counted from 0.
#[derive(Clone, Copy, Debug, PartialEq, Eq, Structural)]
pub struct Position {
    pub row: usize,
    pub column: usize,
    pub index: usize,
}

impl Position {
    pub fn at(row: usize, column: usize, index: usize) -> (r: Position)
        ensures
            r == (Position { row, column, index }),
    {
        Position { row, column, index }
    }
}

#[derive(Clone, Copy, Debug, PartialEq, Eq, Structural, Hash)]
pub enum LiteralToken {
    Number,
    String,
    True,
    False,
}

#[derive(Clone, Copy, Debug, PartialEq, Eq, Structural, Hash)]
pub enum OperatorToken {
    OpenParen,
    CloseParen,
    OpenCurly,
    CloseCurly,
    OpenBracket,
    CloseBracket,
    LeftAngle,
    DoubleLeftAngle,
    LeftAngleEquals,
    RightAngle,
    DoubleRightAngle,
    RightAngleEquals,
    Dot,
    DoubleDot,
    Colon,
    DoubleColon,
    Minus,
    Arrow,
    Plus,
    Asterisk,
    Slash,
    Ampersand,
    DoubleAmpersand,
    Pipe,
    DoublePipe,
    Caret,
    Percent,
    Equals,
    DoubleEquals,
    Bang,
    BangEquals,
}

#[derive(Clone, Copy, Debug, PartialEq, Eq, Structural, Hash)]
pub enum KeywordToken {
    Break,
    Continue,
    Else,
    Export,
    From,
    Function,
    If,
    Itself,
    Let,
    Loop,
    Package,
    Return,
    Type,
}

#[derive(Clone, Copy, Debug, PartialEq, Eq, Structural, Hash)]
pub enum SeparatorToken {
    Comma,
    Semicolon,
    NewLine,
}

#[derive(Clone, Copy, Debug, PartialEq, Eq, Structural, Hash)]
pub enum TokenKind {
    Identifier,
    Literal(LiteralToken),
    Operator(OperatorToken),
    Keyword(KeywordToken),
    Separator(SeparatorToken),
    EOF,
}

/// The stretch of source text a token was read from, and the text it carries.
#[derive(Clone, Debug, PartialEq)]
pub struct TextSpan {
    pub start: Position,
    pub end: Position,
    pub text: String,
}

#[derive(Clone, Debug, PartialEq)]
pub struct Token {
    pub kind: TokenKind,
    pub span: TextSpan,
}

pub fn literal(l: LiteralToken) -> (r: TokenKind)
    ensures
        r == TokenKind::Literal(l),
{
    TokenKind::Literal(l)
}

pub fn operator(o: OperatorToken) -> (r: TokenKind)
    ensures
        r == TokenKind::Operator(o),
{
    TokenKind::Operator(o)
}

pub fn keyword(k: KeywordToken) -> (r: TokenKind)
    ensures
        r == TokenKind::Keyword(k),
{
    TokenKind::Keyword(k)
}

pub fn separator(s: SeparatorToken) -> (r: TokenKind)
    ensures
        r == TokenKind::Separator(s),
{
    TokenKind::Separator(s)
}

/// A copy of a token, equal to it.
pub fn copy_token(t: &Token) -> (r: Token)
    ensures
        r == *t,
{
    Token {
        kind: t.kind,
        span: TextSpan { start: t.span.start, end: t.span.end, text: t.span.text.clone() },
    }
}

impl Token {
    /// The text the token carries.
    pub fn value(&self) -> (r: &str)
        ensures
            r@ == self.span.text@,
    {
        self.span.text.as_str()
    }

    pub fn is_literal(&self, l: LiteralToken) -> (r: bool)
        ensures
            r == (self.kind == TokenKind::Literal(l)),
    {
        self.kind == TokenKind::Literal(l)
    }

    pub fn is_operator(&self, o: OperatorToken) -> (r: bool)
        ensures
            r == (self.kind == TokenKind::Operator(o)),
    {
        self.kind == TokenKind::Operator(o)
    }

    pub fn is_keyword(&self, k: KeywordToken) -> (r: bool)
        ensures
            r == (self.kind == TokenKind::Keyword(k)),
    {
        self.kind == TokenKind::Keyword(k)
    }

    pub fn is_separator(&self, s: SeparatorToken) -> (r: bool)
        ensures
            r == (self.kind == TokenKind::Separator(s)),
    {
        self.kind == TokenKind::Separator(s)
    }

    pub fn is_identifier(&self) -> (r: bool)
        ensures
            r == (self.kind == TokenKind::Identifier),
    {
        self.kind == TokenKind::Identifier
    }
}

} // verus!
