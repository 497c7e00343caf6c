use vstd::prelude::*;

use crate::token::{OperatorToken, TokenKind};

verus! {

/// Binding power of an operator, weakest first.
#[derive(Clone, Copy, Debug, PartialEq, Eq, Structural)]
pub enum Precedence {
    Lowest,
    Assignment,
    Equality,
    Comparison,
    Term,
    Factor,
    Call,
    Primary,
}

impl Precedence {
    /// The place of the precedence in the order, from 0 for `Lowest`.
    pub open spec fn level(self) -> nat {
        match self {
            Precedence::Lowest => 0,
            Precedence::Assignment => 1,
            Precedence::Equality => 2,
            Precedence::Comparison => 3,
            Precedence::Term => 4,
            Precedence::Factor => 5,
            Precedence::Call => 6,
            Precedence::Primary => 7,
        }
    }

    pub fn rank(&self) -> (r: u8)
        ensures
            r as nat == self.level(),
    {
        match self {
            Precedence::Lowest => 0,
            Precedence::Assignment => 1,
            Precedence::Equality => 2,
            Precedence::Comparison => 3,
            Precedence::Term => 4,
            Precedence::Factor => 5,
            Precedence::Call => 6,
            Precedence::Primary => 7,
        }
    }

    /// Whether `self` binds less tightly than `other`.
    pub fn is_below(&self, other: &Precedence) -> (r: bool)
        ensures
            r == (self.level() < other.level()),
    {
        self.rank() < other.rank()
    }
}

/// The binding power of a token kind; `Lowest` for every kind that continues
/// no expression.
pub open spec fn spec_precedence_of(kind: TokenKind) -> Precedence {
    match kind {
        TokenKind::Operator(op) => match op {
            OperatorToken::Equals => Precedence::Assignment,
            OperatorToken::Arrow => Precedence::Assignment,
            OperatorToken::DoubleEquals => Precedence::Equality,
            OperatorToken::BangEquals => Precedence::Equality,
            OperatorToken::LeftAngle => Precedence::Comparison,
            OperatorToken::LeftAngleEquals => Precedence::Comparison,
            OperatorToken::RightAngle => Precedence::Comparison,
            OperatorToken::RightAngleEquals => Precedence::Comparison,
            OperatorToken::Plus => Precedence::Term,
            OperatorToken::Minus => Precedence::Term,
            OperatorToken::Asterisk => Precedence::Factor,
            OperatorToken::Slash => Precedence::Factor,
            OperatorToken::Percent => Precedence::Factor,
            OperatorToken::OpenParen => Precedence::Call,
            OperatorToken::Dot => Precedence::Primary,
            OperatorToken::DoubleColon => Precedence::Primary,
            OperatorToken::Colon => Precedence::Primary,
            _ => Precedence::Lowest,
        },
        _ => Precedence::Lowest,
    }
}

pub fn precedence_of(kind: TokenKind) -> (r: Precedence)
    ensures
        r == spec_precedence_of(kind),
{
    match kind {
        TokenKind::Operator(op) => match op {
            OperatorToken::Equals => Precedence::Assignment,
            OperatorToken::Arrow => Precedence::Assignment,
            OperatorToken::DoubleEquals => Precedence::Equality,
            OperatorToken::BangEquals => Precedence::Equality,
            OperatorToken::LeftAngle => Precedence::Comparison,
            OperatorToken::LeftAngleEquals => Precedence::Comparison,
            OperatorToken::RightAngle => Precedence::Comparison,
            OperatorToken::RightAngleEquals => Precedence::Comparison,
            OperatorToken::Plus => Precedence::Term,
            OperatorToken::Minus => Precedence::Term,
            OperatorToken::Asterisk => Precedence::Factor,
            OperatorToken::Slash => Precedence::Factor,
            OperatorToken::Percent => Precedence::Factor,
            OperatorToken::OpenParen => Precedence::Call,
            OperatorToken::Dot => Precedence::Primary,
            OperatorToken::DoubleColon => Precedence::Primary,
            OperatorToken::Colon => Precedence::Primary,
            _ => Precedence::Lowest,
        },
        _ => Precedence::Lowest,
    }
}

/// Whether operators of this kind group to the right: `a = b = c` is
/// `a = (b = c)`. All others group to the left: `a - b - c` is `(a - b) - c`.
pub open spec fn spec_is_right_associative(kind: TokenKind) -> bool {
    kind == TokenKind::Operator(OperatorToken::Equals)
}

pub fn is_right_associative(kind: TokenKind) -> (r: bool)
    ensures
        r == spec_is_right_associative(kind),
{
    kind == TokenKind::Operator(OperatorToken::Equals)
}

/// The precedence at which the right-hand side of an operator of this kind
/// is read: its own for a left-associative operator, so that an equal one
/// after it ends the operand; the lowest for a right-associative one.
pub open spec fn spec_operand_precedence(kind: TokenKind) -> Precedence {
    if spec_is_right_associative(kind) {
        Precedence::Lowest
    } else {
        spec_precedence_of(kind)
    }
}

pub fn operand_precedence(kind: TokenKind) -> (r: Precedence)
    ensures
        r == spec_operand_precedence(kind),
{
    if is_right_associative(kind) {
        Precedence::Lowest
    } else {
        precedence_of(kind)
    }
}

} // verus!
