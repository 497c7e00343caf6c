use vstd::prelude::*;

use crate::naming::{is_digit, is_lower, is_upper, spec_is_digit, spec_is_lower, spec_is_upper};
use crate::text::{chars_of, copy_range, string_of, text_is};
use crate::token::{
    KeywordToken, LiteralToken, OperatorToken, Position, SeparatorToken, TextSpan, Token,
    TokenKind,
};

verus! {

#[derive(Clone, Debug, PartialEq)]
pub enum Error {
    /// The text ended inside a token (a string literal without its closing quote).
    UnexpectedEndOfFile,
    /// An operator character that starts no operator of the language.
    UnknownOperator(char),
    /// A character that starts no token.
    UnsupportedCharacter(char),
}

pub open spec fn spec_is_whitespace(c: char) -> bool {
    c == '\t' || c == '\u{0B}' || c == '\u{0C}' || c == '\r' || c == ' '
}

pub open spec fn spec_is_separator(c: char) -> bool {
    c == ',' || c == ';' || c == '\n'
}

pub open spec fn spec_is_operator(c: char) -> bool {
    c == '(' || c == ')' || c == '{' || c == '}' || c == '[' || c == ']' || c == '<' || c == '>'
        || c == '.' || c == ':' || c == '+' || c == '-' || c == '*' || c == '/' || c == '&' || c
        == '|' || c == '^' || c == '%' || c == '~' || c == '=' || c == '!' || c == '?'
}

pub open spec fn spec_is_identifier_start(c: char) -> bool {
    spec_is_lower(c) || spec_is_upper(c) || c == '_'
}

pub open spec fn spec_is_identifier_char(c: char) -> bool {
    spec_is_identifier_start(c) || spec_is_digit(c)
}

pub open spec fn spec_is_hex_digit(c: char) -> bool {
    spec_is_digit(c) || ('a' <= c && c <= 'f') || ('A' <= c && c <= 'F')
}

pub open spec fn spec_is_octal_digit(c: char) -> bool {
    '0' <= c && c <= '7'
}

pub open spec fn spec_is_binary_digit(c: char) -> bool {
    c == '0' || c == '1'
}

/// The classes of characters that a token reads as a run.
#[derive(Clone, Copy, Debug, PartialEq, Eq, Structural)]
pub enum CharClass {
    Whitespace,
    NewLine,
    Identifier,
    Decimal,
    Hex,
    Octal,
    Binary,
}

pub open spec fn in_class(class: CharClass, c: char) -> bool {
    match class {
        CharClass::Whitespace => spec_is_whitespace(c),
        CharClass::NewLine => c == '\n',
        CharClass::Identifier => spec_is_identifier_char(c),
        CharClass::Decimal => spec_is_digit(c),
        CharClass::Hex => spec_is_hex_digit(c),
        CharClass::Octal => spec_is_octal_digit(c),
        CharClass::Binary => spec_is_binary_digit(c),
    }
}

/// The first index at or after `i` whose character is not of `class`.
pub open spec fn run_end(cs: Seq<char>, i: int, class: CharClass) -> int
    decreases cs.len() - i,
{
    if 0 <= i < cs.len() && in_class(class, cs[i]) {
        run_end(cs, i + 1, class)
    } else {
        i
    }
}

/// The end of the number literal that starts at `i`: `0x`, `0o` or `0b`
/// followed by digits of that radix, or decimal digits with an optional
/// fraction after a `.`.
pub open spec fn number_end(cs: Seq<char>, i: int) -> int {
    if cs[i] == '0' && i + 1 < cs.len() && (cs[i + 1] == 'x' || cs[i + 1] == 'X') {
        run_end(cs, i + 2, CharClass::Hex)
    } else if cs[i] == '0' && i + 1 < cs.len() && (cs[i + 1] == 'o' || cs[i + 1] == 'O') {
        run_end(cs, i + 2, CharClass::Octal)
    } else if cs[i] == '0' && i + 1 < cs.len() && (cs[i + 1] == 'b' || cs[i + 1] == 'B') {
        run_end(cs, i + 2, CharClass::Binary)
    } else {
        let j = run_end(cs, i, CharClass::Decimal);
        if j < cs.len() && cs[j] == '.' {
            run_end(cs, j + 1, CharClass::Decimal)
        } else {
            j
        }
    }
}

/// The body of a string literal read from `i` on, after `acc`: `\'` stands
/// for a quote, a lone quote ends it. Gives the body and the index after the
/// closing quote, or nothing where the text ends first.
pub open spec fn string_scan(cs: Seq<char>, i: int, acc: Seq<char>) -> Option<(Seq<char>, int)>
    decreases cs.len() - i,
{
    if i < 0 || i >= cs.len() {
        None
    } else if cs[i] == '\\' && i + 1 < cs.len() && cs[i + 1] == '\'' {
        string_scan(cs, i + 2, acc.push('\''))
    } else if cs[i] == '\'' {
        Some((acc, i + 1))
    } else {
        string_scan(cs, i + 1, acc.push(cs[i]))
    }
}

/// The operator at `i` and how many characters it takes.
pub open spec fn operator_at(cs: Seq<char>, i: int) -> Option<(OperatorToken, int)> {
    let c = cs[i];
    let next = if i + 1 < cs.len() {
        cs[i + 1]
    } else {
        ' '
    };
    if c == '(' {
        Some((OperatorToken::OpenParen, 1))
    } else if c == ')' {
        Some((OperatorToken::CloseParen, 1))
    } else if c == '{' {
        Some((OperatorToken::OpenCurly, 1))
    } else if c == '}' {
        Some((OperatorToken::CloseCurly, 1))
    } else if c == '[' {
        Some((OperatorToken::OpenBracket, 1))
    } else if c == ']' {
        Some((OperatorToken::CloseBracket, 1))
    } else if c == '<' {
        if next == '<' {
            Some((OperatorToken::DoubleLeftAngle, 2))
        } else if next == '=' {
            Some((OperatorToken::LeftAngleEquals, 2))
        } else {
            Some((OperatorToken::LeftAngle, 1))
        }
    } else if c == '>' {
        if next == '>' {
            Some((OperatorToken::DoubleRightAngle, 2))
        } else if next == '=' {
            Some((OperatorToken::RightAngleEquals, 2))
        } else {
            Some((OperatorToken::RightAngle, 1))
        }
    } else if c == '.' {
        if next == '.' {
            Some((OperatorToken::DoubleDot, 2))
        } else {
            Some((OperatorToken::Dot, 1))
        }
    } else if c == ':' {
        if next == ':' {
            Some((OperatorToken::DoubleColon, 2))
        } else {
            Some((OperatorToken::Colon, 1))
        }
    } else if c == '-' {
        if next == '>' {
            Some((OperatorToken::Arrow, 2))
        } else {
            Some((OperatorToken::Minus, 1))
        }
    } else if c == '+' {
        Some((OperatorToken::Plus, 1))
    } else if c == '*' {
        Some((OperatorToken::Asterisk, 1))
    } else if c == '/' {
        Some((OperatorToken::Slash, 1))
    } else if c == '&' {
        if next == '&' {
            Some((OperatorToken::DoubleAmpersand, 2))
        } else {
            Some((OperatorToken::Ampersand, 1))
        }
    } else if c == '|' {
        if next == '|' {
            Some((OperatorToken::DoublePipe, 2))
        } else {
            Some((OperatorToken::Pipe, 1))
        }
    } else if c == '^' {
        Some((OperatorToken::Caret, 1))
    } else if c == '%' {
        Some((OperatorToken::Percent, 1))
    } else if c == '=' {
        if next == '=' {
            Some((OperatorToken::DoubleEquals, 2))
        } else {
            Some((OperatorToken::Equals, 1))
        }
    } else if c == '!' {
        if next == '=' {
            Some((OperatorToken::BangEquals, 2))
        } else {
            Some((OperatorToken::Bang, 1))
        }
    } else {
        None
    }
}

/// What a word read as an identifier stands for: a boolean literal, a
/// keyword or an identifier.
pub open spec fn word_kind(w: Seq<char>) -> TokenKind {
    if w == "true"@ {
        TokenKind::Literal(LiteralToken::True)
    } else if w == "false"@ {
        TokenKind::Literal(LiteralToken::False)
    } else if w == "break"@ {
        TokenKind::Keyword(KeywordToken::Break)
    } else if w == "continue"@ {
        TokenKind::Keyword(KeywordToken::Continue)
    } else if w == "else"@ {
        TokenKind::Keyword(KeywordToken::Else)
    } else if w == "export"@ {
        TokenKind::Keyword(KeywordToken::Export)
    } else if w == "from"@ {
        TokenKind::Keyword(KeywordToken::From)
    } else if w == "function"@ {
        TokenKind::Keyword(KeywordToken::Function)
    } else if w == "if"@ {
        TokenKind::Keyword(KeywordToken::If)
    } else if w == "self"@ {
        TokenKind::Keyword(KeywordToken::Itself)
    } else if w == "let"@ {
        TokenKind::Keyword(KeywordToken::Let)
    } else if w == "loop"@ {
        TokenKind::Keyword(KeywordToken::Loop)
    } else if w == "package"@ {
        TokenKind::Keyword(KeywordToken::Package)
    } else if w == "return"@ {
        TokenKind::Keyword(KeywordToken::Return)
    } else if w == "type"@ {
        TokenKind::Keyword(KeywordToken::Type)
    } else {
        TokenKind::Identifier
    }
}

/// The token that starts at `i`: its kind, the text it carries and the index
/// after it; or the error that stops the lexer there.
pub closed spec fn scan(cs: Seq<char>, i: int) -> Result<(TokenKind, Seq<char>, int), Error> {
    let c = cs[i];
    if c == ',' {
        Ok((TokenKind::Separator(SeparatorToken::Comma), cs.subrange(i, i + 1), i + 1))
    } else if c == ';' {
        Ok((TokenKind::Separator(SeparatorToken::Semicolon), cs.subrange(i, i + 1), i + 1))
    } else if c == '\n' {
        let e = run_end(cs, i, CharClass::NewLine);
        Ok((TokenKind::Separator(SeparatorToken::NewLine), cs.subrange(i, e), e))
    } else if c == '\'' {
        match string_scan(cs, i + 1, Seq::empty()) {
            Some((body, e)) => Ok((TokenKind::Literal(LiteralToken::String), body, e)),
            None => Err(Error::UnexpectedEndOfFile),
        }
    } else if spec_is_digit(c) {
        let e = number_end(cs, i);
        Ok((TokenKind::Literal(LiteralToken::Number), cs.subrange(i, e), e))
    } else if spec_is_identifier_start(c) {
        let e = run_end(cs, i, CharClass::Identifier);
        Ok((word_kind(cs.subrange(i, e)), cs.subrange(i, e), e))
    } else if operator_at(cs, i) is Some {
        let (op, n) = operator_at(cs, i)->0;
        Ok((TokenKind::Operator(op), cs.subrange(i, i + n), i + n))
    } else if spec_is_operator(c) {
        Err(Error::UnknownOperator(c))
    } else {
        Err(Error::UnsupportedCharacter(c))
    }
}

/// Reads tokens from a text, one at a time.
pub struct Lexer {
    pub chars: Vec<char>,
    pub index: usize,
    pub row: usize,
    pub column: usize,
}

impl Lexer {
    pub open spec fn wf(&self) -> bool {
        &&& self.chars@.len() < usize::MAX
        &&& self.index <= self.chars@.len()
        &&& 1 <= self.row <= self.index + 1
        &&& 1 <= self.column <= self.index + 1
    }

    pub fn new(text: &str) -> (r: Lexer)
        ensures
            r.chars@ == text@,
            r.index == 0,
            r.row == 1,
            r.column == 1,
            text@.len() < usize::MAX ==> r.wf(),
    {
        Lexer { chars: chars_of(text), index: 0, row: 1, column: 1 }
    }

    pub fn position(&self) -> (r: Position)
        ensures
            r == (Position { row: self.row, column: self.column, index: self.index }),
    {
        Position { row: self.row, column: self.column, index: self.index }
    }

    pub fn is_whitespace(&self, c: char) -> (r: bool)
        ensures
            r == spec_is_whitespace(c),
    {
        c == '\t' || c == '\u{0B}' || c == '\u{0C}' || c == '\r' || c == ' '
    }

    pub fn is_separator(&self, c: char) -> (r: bool)
        ensures
            r == spec_is_separator(c),
    {
        c == ',' || c == ';' || c == '\n'
    }

    pub fn is_string(&self, c: char) -> (r: bool)
        ensures
            r == (c == '\''),
    {
        c == '\''
    }

    pub fn is_number(&self, c: char) -> (r: bool)
        ensures
            r == spec_is_digit(c),
    {
        is_digit(c)
    }

    pub fn is_operator(&self, c: char) -> (r: bool)
        ensures
            r == spec_is_operator(c),
    {
        c == '(' || c == ')' || c == '{' || c == '}' || c == '[' || c == ']' || c == '<' || c
            == '>' || c == '.' || c == ':' || c == '+' || c == '-' || c == '*' || c == '/' || c
            == '&' || c == '|' || c == '^' || c == '%' || c == '~' || c == '=' || c == '!' || c
            == '?'
    }

    pub fn is_identifier_start(&self, c: char) -> (r: bool)
        ensures
            r == spec_is_identifier_start(c),
    {
        is_lower(c) || is_upper(c) || c == '_'
    }

    fn in_class(&self, class: CharClass, c: char) -> (r: bool)
        ensures
            r == in_class(class, c),
    {
        match class {
            CharClass::Whitespace => self.is_whitespace(c),
            CharClass::NewLine => c == '\n',
            CharClass::Identifier => self.is_identifier_start(c) || is_digit(c),
            CharClass::Decimal => is_digit(c),
            CharClass::Hex => is_digit(c) || ('a' <= c && c <= 'f') || ('A' <= c && c <= 'F'),
            CharClass::Octal => '0' <= c && c <= '7',
            CharClass::Binary => c == '0' || c == '1',
        }
    }

    /// The character after the current one, if there is one.
    fn peek_next(&self) -> (r: Option<char>)
        requires
            self.wf(),
        ensures
            self.index + 1 < self.chars@.len() ==> r == Some(self.chars@[self.index + 1]),
            self.index + 1 >= self.chars@.len() ==> r is None,
    {
        if self.index + 1 < self.chars.len() {
            Some(self.chars[self.index + 1])
        } else {
            None
        }
    }

    /// Moves past the current character, on the same row.
    fn consume_next(&mut self) -> (r: char)
        requires
            old(self).wf(),
            old(self).index < old(self).chars@.len(),
        ensures
            final(self).wf(),
            final(self).chars == old(self).chars,
            final(self).index == old(self).index + 1,
            final(self).row == old(self).row,
            r == old(self).chars@[old(self).index as int],
    {
        let c = self.chars[self.index];
        self.index = self.index + 1;
        self.column = self.column + 1;
        c
    }

    /// Moves past the run of characters of `class` that starts here.
    fn consume_while(&mut self, class: CharClass)
        requires
            old(self).wf(),
        ensures
            final(self).wf(),
            final(self).chars == old(self).chars,
            final(self).index == run_end(old(self).chars@, old(self).index as int, class),
            old(self).index <= final(self).index <= final(self).chars@.len(),
            final(self).row == old(self).row,
    {
        while self.index < self.chars.len() && self.in_class(class, self.chars[self.index])
            invariant
                self.wf(),
                self.chars == old(self).chars,
                old(self).index <= self.index,
                self.row == old(self).row,
                run_end(self.chars@, self.index as int, class) == run_end(
                    old(self).chars@,
                    old(self).index as int,
                    class,
                ),
            decreases self.chars@.len() - self.index,
        {
            self.consume_next();
        }
    }

    pub fn consume_whitespace(&mut self)
        requires
            old(self).wf(),
        ensures
            final(self).wf(),
            final(self).chars == old(self).chars,
            final(self).index == run_end(
                old(self).chars@,
                old(self).index as int,
                CharClass::Whitespace,
            ),
    {
        self.consume_while(CharClass::Whitespace)
    }

    /// Reads a `,`, a `;` or a run of line breaks. A run of `n` line breaks
    /// moves the row on by `n - 1` and the column back to 1.
    pub fn consume_separator(&mut self) -> (r: Token)
        requires
            old(self).wf(),
            old(self).index < old(self).chars@.len(),
            spec_is_separator(old(self).chars@[old(self).index as int]),
        ensures
            final(self).wf(),
            final(self).chars == old(self).chars,
            scan(old(self).chars@, old(self).index as int) == Ok::<_, Error>(
                (r.kind, r.span.text@, final(self).index as int),
            ),
            r.span.start.index == old(self).index,
            r.span.end.index == final(self).index,
    {
        let start = self.position();
        let from = self.index;
        let c = self.consume_next();
        let kind = if c == ',' {
            TokenKind::Separator(SeparatorToken::Comma)
        } else if c == ';' {
            TokenKind::Separator(SeparatorToken::Semicolon)
        } else {
            let before = self.index;
            self.consume_while(CharClass::NewLine);
            assert(run_end(self.chars@, from as int, CharClass::NewLine) == run_end(
                self.chars@,
                before as int,
                CharClass::NewLine,
            ));
            self.row = self.row + (self.index - before);
            self.column = 1;
            TokenKind::Separator(SeparatorToken::NewLine)
        };
        let text = copy_range(&self.chars, from, self.index);
        Token {
            kind,
            span: TextSpan { start, end: self.position(), text: string_of(text.as_slice()) },
        }
    }

    /// Reads a string literal; the token carries its body, with each `\'`
    /// read as a quote.
    pub fn consume_string(&mut self) -> (r: Result<Token, Error>)
        requires
            old(self).wf(),
            old(self).index < old(self).chars@.len(),
            old(self).chars@[old(self).index as int] == '\'',
        ensures
            final(self).wf(),
            final(self).chars == old(self).chars,
            match scan(old(self).chars@, old(self).index as int) {
                Ok((kind, text, end)) => r matches Ok(t) && t.kind == kind && t.span.text@ == text
                    && final(self).index == end && t.span.start.index == old(self).index
                    && t.span.end.index == end,
                Err(e) => r == Err::<Token, Error>(e),
            },
    {
        let start = self.position();
        self.consume_next();
        let mut text: Vec<char> = Vec::new();
        loop
            invariant_except_break
                string_scan(self.chars@, self.index as int, text@) == string_scan(
                    self.chars@,
                    old(self).index + 1,
                    Seq::empty(),
                ),
            invariant
                self.wf(),
                self.chars == old(self).chars,
                old(self).index < self.index,
                old(self).chars@[old(self).index as int] == '\'',
            ensures
                string_scan(self.chars@, old(self).index + 1, Seq::empty()) == Some(
                    (text@, self.index as int),
                ),
            decreases self.chars@.len() - self.index,
        {
            if self.index >= self.chars.len() {
                assert(string_scan(self.chars@, self.index as int, text@) is None);
                return Err(Error::UnexpectedEndOfFile);
            }
            let ghost at = self.index as int;
            let c = self.consume_next();
            if c == '\\' {
                if let Some(next) = self.peek_next_here() {
                    if next == '\'' {
                        self.consume_next();
                        text.push('\'');
                        continue;
                    }
                }
            }
            if c == '\'' {
                assert(string_scan(self.chars@, at, text@) == Some((text@, at + 1)));
                break;
            }
            text.push(c);
        }
        Ok(
            Token {
                kind: TokenKind::Literal(LiteralToken::String),
                span: TextSpan { start, end: self.position(), text: string_of(text.as_slice()) },
            },
        )
    }

    /// The current character, if there is one.
    fn peek_next_here(&self) -> (r: Option<char>)
        requires
            self.wf(),
        ensures
            self.index < self.chars@.len() ==> r == Some(self.chars@[self.index as int]),
            self.index >= self.chars@.len() ==> r is None,
    {
        if self.index < self.chars.len() {
            Some(self.chars[self.index])
        } else {
            None
        }
    }

    /// Reads a number literal; the token carries its text as written.
    pub fn consume_number(&mut self) -> (r: Token)
        requires
            old(self).wf(),
            old(self).index < old(self).chars@.len(),
            spec_is_digit(old(self).chars@[old(self).index as int]),
        ensures
            final(self).wf(),
            final(self).chars == old(self).chars,
            scan(old(self).chars@, old(self).index as int) == Ok::<_, Error>(
                (r.kind, r.span.text@, final(self).index as int),
            ),
            r.span.start.index == old(self).index,
            r.span.end.index == final(self).index,
    {
        let start = self.position();
        let from = self.index;
        let first = self.consume_next();
        let radix = if first == '0' {
            match self.peek_next_here() {
                Some(c) => if c == 'x' || c == 'X' {
                    Some(CharClass::Hex)
                } else if c == 'o' || c == 'O' {
                    Some(CharClass::Octal)
                } else if c == 'b' || c == 'B' {
                    Some(CharClass::Binary)
                } else {
                    None
                },
                None => None,
            }
        } else {
            None
        };
        match radix {
            Some(class) => {
                self.consume_next();
                self.consume_while(class);
            },
            None => {
                self.index = from;
                self.column = start.column;
                self.consume_while(CharClass::Decimal);
                if self.index < self.chars.len() && self.chars[self.index] == '.' {
                    self.consume_next();
                    self.consume_while(CharClass::Decimal);
                }
            },
        }
        let text = copy_range(&self.chars, from, self.index);
        Token {
            kind: TokenKind::Literal(LiteralToken::Number),
            span: TextSpan { start, end: self.position(), text: string_of(text.as_slice()) },
        }
    }

    /// Reads a word: a boolean literal, a keyword or an identifier.
    pub fn consume_identifier(&mut self) -> (r: Token)
        requires
            old(self).wf(),
            old(self).index < old(self).chars@.len(),
            spec_is_identifier_start(old(self).chars@[old(self).index as int]),
        ensures
            final(self).wf(),
            final(self).chars == old(self).chars,
            scan(old(self).chars@, old(self).index as int) == Ok::<_, Error>(
                (r.kind, r.span.text@, final(self).index as int),
            ),
            r.span.start.index == old(self).index,
            r.span.end.index == final(self).index,
    {
        let start = self.position();
        let from = self.index;
        self.consume_while(CharClass::Identifier);
        let text = copy_range(&self.chars, from, self.index);
        let word = string_of(text.as_slice());
        let kind = word_kind_of(&word);
        Token { kind, span: TextSpan { start, end: self.position(), text: word } }
    }

    /// Reads an operator of one or two characters.
    pub fn consume_operator(&mut self) -> (r: Result<Token, Error>)
        requires
            old(self).wf(),
            old(self).index < old(self).chars@.len(),
            spec_is_operator(old(self).chars@[old(self).index as int]),
        ensures
            final(self).wf(),
            final(self).chars == old(self).chars,
            match scan(old(self).chars@, old(self).index as int) {
                Ok((kind, text, end)) => r matches Ok(t) && t.kind == kind && t.span.text@ == text
                    && final(self).index == end && t.span.start.index == old(self).index
                    && t.span.end.index == end,
                Err(e) => r == Err::<Token, Error>(e),
            },
    {
        let start = self.position();
        let from = self.index;
        let c = self.consume_next();
        let next = match self.peek_next_here() {
            Some(n) => n,
            None => ' ',
        };
        let (kind, two) = if c == '(' {
            (OperatorToken::OpenParen, false)
        } else if c == ')' {
            (OperatorToken::CloseParen, false)
        } else if c == '{' {
            (OperatorToken::OpenCurly, false)
        } else if c == '}' {
            (OperatorToken::CloseCurly, false)
        } else if c == '[' {
            (OperatorToken::OpenBracket, false)
        } else if c == ']' {
            (OperatorToken::CloseBracket, false)
        } else if c == '<' {
            if next == '<' {
                (OperatorToken::DoubleLeftAngle, true)
            } else if next == '=' {
                (OperatorToken::LeftAngleEquals, true)
            } else {
                (OperatorToken::LeftAngle, false)
            }
        } else if c == '>' {
            if next == '>' {
                (OperatorToken::DoubleRightAngle, true)
            } else if next == '=' {
                (OperatorToken::RightAngleEquals, true)
            } else {
                (OperatorToken::RightAngle, false)
            }
        } else if c == '.' {
            if next == '.' {
                (OperatorToken::DoubleDot, true)
            } else {
                (OperatorToken::Dot, false)
            }
        } else if c == ':' {
            if next == ':' {
                (OperatorToken::DoubleColon, true)
            } else {
                (OperatorToken::Colon, false)
            }
        } else if c == '-' {
            if next == '>' {
                (OperatorToken::Arrow, true)
            } else {
                (OperatorToken::Minus, false)
            }
        } else if c == '+' {
            (OperatorToken::Plus, false)
        } else if c == '*' {
            (OperatorToken::Asterisk, false)
        } else if c == '/' {
            (OperatorToken::Slash, false)
        } else if c == '&' {
            if next == '&' {
                (OperatorToken::DoubleAmpersand, true)
            } else {
                (OperatorToken::Ampersand, false)
            }
        } else if c == '|' {
            if next == '|' {
                (OperatorToken::DoublePipe, true)
            } else {
                (OperatorToken::Pipe, false)
            }
        } else if c == '^' {
            (OperatorToken::Caret, false)
        } else if c == '%' {
            (OperatorToken::Percent, false)
        } else if c == '=' {
            if next == '=' {
                (OperatorToken::DoubleEquals, true)
            } else {
                (OperatorToken::Equals, false)
            }
        } else if c == '!' {
            if next == '=' {
                (OperatorToken::BangEquals, true)
            } else {
                (OperatorToken::Bang, false)
            }
        } else {
            return Err(Error::UnknownOperator(c));
        };
        if two {
            self.consume_next();
        }
        let text = copy_range(&self.chars, from, self.index);
        Ok(
            Token {
                kind: TokenKind::Operator(kind),
                span: TextSpan { start, end: self.position(), text: string_of(text.as_slice()) },
            },
        )
    }

    /// Reads the next token, after any whitespace. At the end of the text
    /// that is an `EOF` token with no text.
    pub fn advance(&mut self) -> (r: Result<Token, Error>)
        requires
            old(self).wf(),
        ensures
            final(self).wf(),
            final(self).chars == old(self).chars,
            ({
                let cs = old(self).chars@;
                let s = run_end(cs, old(self).index as int, CharClass::Whitespace);
                &&& s >= cs.len() ==> (r matches Ok(t) && t.kind == TokenKind::EOF
                    && t.span.text@.len() == 0 && t.span.start.index == s && t.span.end.index == s
                    && final(self).index == s)
                &&& s < cs.len() ==> match scan(cs, s) {
                    Ok((kind, text, end)) => r matches Ok(t) && t.kind == kind && t.span.text@
                        == text && t.span.start.index == s && t.span.end.index == end
                        && final(self).index == end,
                    Err(e) => r == Err::<Token, Error>(e),
                }
            }),
    {
        self.consume_whitespace();
        if self.index >= self.chars.len() {
            let here = self.position();
            let empty: Vec<char> = Vec::new();
            return Ok(
                Token {
                    kind: TokenKind::EOF,
                    span: TextSpan { start: here, end: here, text: string_of(empty.as_slice()) },
                },
            );
        }
        let c = self.chars[self.index];
        if self.is_separator(c) {
            Ok(self.consume_separator())
        } else if self.is_string(c) {
            self.consume_string()
        } else if self.is_number(c) {
            Ok(self.consume_number())
        } else if self.is_identifier_start(c) {
            Ok(self.consume_identifier())
        } else if self.is_operator(c) {
            self.consume_operator()
        } else {
            Err(Error::UnsupportedCharacter(c))
        }
    }
}

/// The kind of a word read as an identifier.
pub fn word_kind_of(w: &String) -> (r: TokenKind)
    ensures
        r == word_kind(w@),
{
    if text_is(w, "true") {
        TokenKind::Literal(LiteralToken::True)
    } else if text_is(w, "false") {
        TokenKind::Literal(LiteralToken::False)
    } else if text_is(w, "break") {
        TokenKind::Keyword(KeywordToken::Break)
    } else if text_is(w, "continue") {
        TokenKind::Keyword(KeywordToken::Continue)
    } else if text_is(w, "else") {
        TokenKind::Keyword(KeywordToken::Else)
    } else if text_is(w, "export") {
        TokenKind::Keyword(KeywordToken::Export)
    } else if text_is(w, "from") {
        TokenKind::Keyword(KeywordToken::From)
    } else if text_is(w, "function") {
        TokenKind::Keyword(KeywordToken::Function)
    } else if text_is(w, "if") {
        TokenKind::Keyword(KeywordToken::If)
    } else if text_is(w, "self") {
        TokenKind::Keyword(KeywordToken::Itself)
    } else if text_is(w, "let") {
        TokenKind::Keyword(KeywordToken::Let)
    } else if text_is(w, "loop") {
        TokenKind::Keyword(KeywordToken::Loop)
    } else if text_is(w, "package") {
        TokenKind::Keyword(KeywordToken::Package)
    } else if text_is(w, "return") {
        TokenKind::Keyword(KeywordToken::Return)
    } else if text_is(w, "type") {
        TokenKind::Keyword(KeywordToken::Type)
    } else {
        TokenKind::Identifier
    }
}

} // verus!

verus! {

proof fn lemma_run_end_bounds(cs: Seq<char>, i: int, class: CharClass)
    requires
        0 <= i <= cs.len(),
    ensures
        i <= run_end(cs, i, class) <= cs.len(),
    decreases cs.len() - i,
{
    if 0 <= i < cs.len() && in_class(class, cs[i]) {
        lemma_run_end_bounds(cs, i + 1, class);
    }
}

proof fn lemma_run_end_stops(cs: Seq<char>, i: int, class: CharClass)
    requires
        0 <= i <= cs.len(),
    ensures
        run_end(cs, i, class) < cs.len() ==> !in_class(class, cs[run_end(cs, i, class)]),
    decreases cs.len() - i,
{
    if 0 <= i < cs.len() && in_class(class, cs[i]) {
        lemma_run_end_stops(cs, i + 1, class);
    }
}

/// Every character that a run passes over is of its class.
pub proof fn lemma_run_end_covers(cs: Seq<char>, i: int, class: CharClass)
    requires
        0 <= i <= cs.len(),
    ensures
        forall|k: int| i <= k < run_end(cs, i, class) ==> in_class(class, #[trigger] cs[k]),
    decreases cs.len() - i,
{
    if 0 <= i < cs.len() && in_class(class, cs[i]) {
        lemma_run_end_covers(cs, i + 1, class);
    }
}

proof fn lemma_string_scan_moves_on(cs: Seq<char>, i: int, acc: Seq<char>)
    requires
        0 <= i,
    ensures
        string_scan(cs, i, acc) matches Some((_, e)) ==> i < e <= cs.len(),
    decreases cs.len() - i,
{
    if i < 0 || i >= cs.len() {
    } else if cs[i] == '\\' && i + 1 < cs.len() && cs[i + 1] == '\'' {
        lemma_string_scan_moves_on(cs, i + 2, acc.push('\''));
    } else if cs[i] == '\'' {
    } else {
        lemma_string_scan_moves_on(cs, i + 1, acc.push(cs[i]));
    }
}

/// A token read by `scan` takes at least one character.
pub proof fn lemma_scan_moves_on(cs: Seq<char>, i: int)
    requires
        0 <= i < cs.len(),
    ensures
        scan(cs, i) matches Ok((_, _, e)) ==> i < e <= cs.len(),
{
    lemma_run_end_bounds(cs, i + 1, CharClass::NewLine);
    lemma_run_end_bounds(cs, i + 1, CharClass::Identifier);
    lemma_run_end_bounds(cs, i + 1, CharClass::Decimal);
    lemma_run_end_bounds(cs, i, CharClass::Decimal);
    lemma_string_scan_moves_on(cs, i + 1, Seq::empty());
    if i + 2 <= cs.len() {
        lemma_run_end_bounds(cs, i + 2, CharClass::Hex);
        lemma_run_end_bounds(cs, i + 2, CharClass::Octal);
        lemma_run_end_bounds(cs, i + 2, CharClass::Binary);
    }
    let j = run_end(cs, i, CharClass::Decimal);
    if j < cs.len() {
        lemma_run_end_bounds(cs, j + 1, CharClass::Decimal);
    }
}

/// Where the `j`-th token of `toks` starts: after the whitespace that
/// follows the token before it.
pub open spec fn token_start(cs: Seq<char>, toks: Seq<Token>, j: int) -> int {
    run_end(
        cs,
        if j == 0 {
            0
        } else {
            toks[j - 1].span.end.index as int
        },
        CharClass::Whitespace,
    )
}

/// `toks` is the token sequence of `cs`: each token is what `scan` reads
/// where the one before it ended, after whitespace, and the last one is the
/// `EOF` at the end of the text.
pub open spec fn tokens_of(cs: Seq<char>, toks: Seq<Token>) -> bool {
    &&& toks.len() >= 1
    &&& toks.last().kind == TokenKind::EOF
    &&& toks.last().span.text@.len() == 0
    &&& token_start(cs, toks, toks.len() - 1) == cs.len()
    &&& toks.last().span.start.index == cs.len()
    &&& toks.last().span.end.index == cs.len()
    &&& forall|j: int|
        #![trigger token_start(cs, toks, j)]
        0 <= j < toks.len() - 1 ==> {
            &&& token_start(cs, toks, j) < cs.len()
            &&& toks[j].span.start.index == token_start(cs, toks, j)
            &&& scan(cs, token_start(cs, toks, j)) == Ok::<_, Error>(
                (toks[j].kind, toks[j].span.text@, toks[j].span.end.index as int),
            )
        }
}

/// Splits `text` into its tokens, ending with an `EOF` token; or stops at
/// the first token that cannot be read, with its error.
pub fn lex(text: &str) -> (r: Result<Vec<Token>, Error>)
    requires
        text@.len() < usize::MAX,
    ensures
        r matches Ok(toks) ==> tokens_of(text@, toks@),
        r matches Err(e) ==> exists|i: int|
            0 <= i < text@.len() && !spec_is_whitespace(text@[i]) && #[trigger] scan(text@, i)
                == Err::<(TokenKind, Seq<char>, int), Error>(e),
{
    let mut lexer = Lexer::new(text);
    let mut toks: Vec<Token> = Vec::new();
    loop
        invariant
            lexer.wf(),
            lexer.chars@ == text@,
            lexer.index as int == if toks@.len() == 0 {
                0
            } else {
                toks@.last().span.end.index as int
            },
            forall|j: int|
                #![trigger toks@[j]]
                0 <= j < toks@.len() ==> {
                    &&& token_start(text@, toks@, j) < text@.len()
                    &&& toks@[j].span.start.index == token_start(text@, toks@, j)
                    &&& scan(text@, token_start(text@, toks@, j)) == Ok::<_, Error>(
                        (toks@[j].kind, toks@[j].span.text@, toks@[j].span.end.index as int),
                    )
                },
        decreases text@.len() - lexer.index,
    {
        let ghost before = lexer.index as int;
        let ghost s = run_end(text@, before, CharClass::Whitespace);
        proof {
            lemma_run_end_bounds(text@, before, CharClass::Whitespace);
            lemma_run_end_stops(text@, before, CharClass::Whitespace);
            if s < text@.len() {
                lemma_scan_moves_on(text@, s);
            }
        }
        let t = match lexer.advance() {
            Ok(t) => t,
            Err(e) => {
                return Err(e);
            },
        };
        let ghost prev = toks@;
        if t.kind == TokenKind::EOF {
            toks.push(t);
            proof {
                assert(token_start(text@, toks@, toks@.len() - 1) == s);
                assert forall|j: int| 0 <= j < toks@.len() - 1 implies #[trigger] toks@[j]
                    == prev[j] && token_start(text@, toks@, j) == token_start(text@, prev, j) by {}
            }
            return Ok(toks);
        }
        toks.push(t);
        proof {
            assert forall|j: int| 0 <= j < toks@.len() - 1 implies #[trigger] toks@[j]
                == prev[j] && token_start(text@, toks@, j) == token_start(text@, prev, j) by {}
        }
        proof {
            assert(token_start(text@, toks@, toks@.len() - 1) == s);
        }
    }
}

} // verus!

