//! What the scanner makes of a source text, as mathematical functions on its
//! characters.
//!
//! The text is read once, left to right. Numbers are recognised here and
//! turned into their value by the host: scanning stops at each number with
//! its text pending, and goes on when the value is supplied.
use vstd::prelude::*;
use crate::types::{ErrorView, TokenKind, TokenView};

verus! {

/// What `char::is_alphabetic` returns for `c`: whether Unicode gives the
/// character the property Alphabetic. Nothing else is known of it here.
pub uninterp spec fn char_is_alphabetic(c: char) -> bool;

/// What `char::is_alphanumeric` returns for `c`: whether the character is
/// alphabetic or numeric in Unicode. Nothing else is known of it here.
pub uninterp spec fn char_is_alphanumeric(c: char) -> bool;

/// Trusted: `char::is_alphabetic` of the standard library returns
/// [`char_is_alphabetic`] of its argument, that is, its result depends on
/// the character alone.
pub assume_specification[ char::is_alphabetic ](c: char) -> (b: bool)
    ensures
        b == char_is_alphabetic(c),
;

/// Trusted: `char::is_alphanumeric` of the standard library returns
/// [`char_is_alphanumeric`] of its argument, that is, its result depends on
/// the character alone.
pub assume_specification[ char::is_alphanumeric ](c: char) -> (b: bool)
    ensures
        b == char_is_alphanumeric(c),
;

/// The kinds of character that a run is made of.
#[derive(Debug, Clone, Copy, PartialEq, Eq, Structural)]
pub enum CharClass {
    /// `0` to `9`.
    Digit,
    /// Alphabetic, numeric or `_`.
    Word,
    /// Anything but `"`.
    NotQuote,
    /// Anything but a newline.
    NotNewline,
}

/// Whether `c` is of `class`.
pub open spec fn in_class(c: char, class: CharClass) -> bool {
    match class {
        CharClass::Digit => '0' <= c && c <= '9',
        CharClass::Word => char_is_alphanumeric(c) || c == '_',
        CharClass::NotQuote => c != '"',
        CharClass::NotNewline => c != '\n',
    }
}

/// The end of the longest run of characters of `class` that starts at `pos`.
pub open spec fn run_end(chars: Seq<char>, pos: nat, class: CharClass) -> nat
    decreases chars.len() - pos,
{
    if pos < chars.len() && in_class(chars[pos as int], class) {
        run_end(chars, pos + 1, class)
    } else {
        pos
    }
}

/// The number of newlines from `from` up to `to`.
pub open spec fn newlines(chars: Seq<char>, from: nat, to: nat) -> nat
    decreases to,
{
    if to <= from || to > chars.len() {
        0
    } else {
        newlines(chars, from, (to - 1) as nat) + if chars[to - 1] == '\n' {
            1nat
        } else {
            0nat
        }
    }
}

/// The type of a word: a keyword's own, or that of an identifier.
#[verifier::opaque]
pub open spec fn keyword(text: Seq<char>) -> TokenKind {
    if text == "and"@ {
        TokenKind::And
    } else if text == "class"@ {
        TokenKind::Class
    } else if text == "else"@ {
        TokenKind::Else
    } else if text == "false"@ {
        TokenKind::False
    } else if text == "for"@ {
        TokenKind::For
    } else if text == "fun"@ {
        TokenKind::Fun
    } else if text == "if"@ {
        TokenKind::If
    } else if text == "nil"@ {
        TokenKind::Nil
    } else if text == "or"@ {
        TokenKind::Or
    } else if text == "print"@ {
        TokenKind::Print
    } else if text == "return"@ {
        TokenKind::Return
    } else if text == "super"@ {
        TokenKind::Super
    } else if text == "this"@ {
        TokenKind::This
    } else if text == "true"@ {
        TokenKind::True
    } else if text == "var"@ {
        TokenKind::Var
    } else if text == "while"@ {
        TokenKind::While
    } else {
        TokenKind::Identifier
    }
}

/// The token that a character is by itself.
pub open spec fn single(c: char) -> Option<TokenKind> {
    if c == '(' {
        Some(TokenKind::OpenParen)
    } else if c == ')' {
        Some(TokenKind::CloseParen)
    } else if c == '{' {
        Some(TokenKind::OpenBrace)
    } else if c == '}' {
        Some(TokenKind::CloseBrace)
    } else if c == ',' {
        Some(TokenKind::Comma)
    } else if c == '.' {
        Some(TokenKind::Dot)
    } else if c == '-' {
        Some(TokenKind::Minus)
    } else if c == '+' {
        Some(TokenKind::Plus)
    } else if c == ';' {
        Some(TokenKind::Semicolon)
    } else if c == '*' {
        Some(TokenKind::Star)
    } else {
        None
    }
}

/// The token that a character is alone or, `with_equal`, followed by `=`.
pub open spec fn pair(c: char, with_equal: bool) -> Option<TokenKind> {
    if c == '!' {
        Some(
            if with_equal {
                TokenKind::ExclamationEqual
            } else {
                TokenKind::Exclamation
            },
        )
    } else if c == '=' {
        Some(
            if with_equal {
                TokenKind::EqualEqual
            } else {
                TokenKind::Equal
            },
        )
    } else if c == '<' {
        Some(
            if with_equal {
                TokenKind::LessEqual
            } else {
                TokenKind::Less
            },
        )
    } else if c == '>' {
        Some(
            if with_equal {
                TokenKind::GreaterEqual
            } else {
                TokenKind::Greater
            },
        )
    } else {
        None
    }
}

/// The state of a scan.
pub struct ScanView {
    pub tokens: Seq<TokenView>,
    pub errors: Seq<ErrorView>,
    /// Index of the next character to read.
    pub current: nat,
    /// Line of the next character, counted from 1.
    pub line: nat,
    /// The text of a number whose value the host has yet to supply.
    pub pending: Option<Seq<char>>,
    /// The end of the text was reached and marked.
    pub finished: bool,
}

impl ScanView {
    /// Adds the token of `kind` whose text runs from `from` up to `to`.
    pub open spec fn emit(self, kind: TokenKind, chars: Seq<char>, from: nat, to: nat) -> ScanView {
        ScanView {
            tokens: self.tokens.push(
                TokenView { typ: kind, lexeme: chars.subrange(from as int, to as int), line: self.line },
            ),
            current: to,
            ..self
        }
    }

    /// Goes on at `to` without a token.
    pub open spec fn skip_to(self, to: nat) -> ScanView {
        ScanView { current: to, ..self }
    }

    /// Records an error at the current line and goes on at `to`.
    pub open spec fn report(self, message: Seq<char>, to: nat) -> ScanView {
        ScanView {
            errors: self.errors.push(ErrorView::Lexer(message, self.line)),
            current: to,
            ..self
        }
    }

    /// Counts `n` more lines.
    pub open spec fn lines(self, n: nat) -> ScanView {
        ScanView { line: self.line + n, ..self }
    }
}

/// The state before anything is read.
pub open spec fn initial() -> ScanView {
    ScanView {
        tokens: Seq::empty(),
        errors: Seq::empty(),
        current: 0,
        line: 1,
        pending: None,
        finished: false,
    }
}

/// A string: up to the closing quote, over any newlines. Without a closing
/// quote the rest of the text is dropped with an error.
#[verifier::opaque]
pub open spec fn scan_string(chars: Seq<char>, s: ScanView) -> ScanView {
    let at = s.current;
    let close = run_end(chars, at + 1, CharClass::NotQuote);
    let counted = s.lines(newlines(chars, at + 1, close));
    if close >= chars.len() {
        counted.report("Unterminated string"@, close)
    } else {
        counted.emit(
            TokenKind::String(chars.subrange(at as int + 1, close as int)),
            chars,
            at,
            close + 1,
        )
    }
}

/// The end of a number that starts at `at`: digits, then a point and digits
/// if at least one digit follows the point.
#[verifier::opaque]
pub open spec fn number_end(chars: Seq<char>, at: nat) -> nat {
    let whole = run_end(chars, at, CharClass::Digit);
    if whole + 1 < chars.len() && chars[whole as int] == '.' && in_class(
        chars[whole as int + 1],
        CharClass::Digit,
    ) {
        run_end(chars, whole + 1, CharClass::Digit)
    } else {
        whole
    }
}

/// A number: its text is left pending until its value is supplied.
#[verifier::opaque]
pub open spec fn scan_number(chars: Seq<char>, s: ScanView) -> ScanView {
    let end = number_end(chars, s.current);
    ScanView { pending: Some(chars.subrange(s.current as int, end as int)), current: end, ..s }
}

/// A word: a keyword or an identifier.
#[verifier::opaque]
pub open spec fn scan_word(chars: Seq<char>, s: ScanView) -> ScanView {
    let end = run_end(chars, s.current + 1, CharClass::Word);
    s.emit(keyword(chars.subrange(s.current as int, end as int)), chars, s.current, end)
}

/// `/`, or a comment up to the end of the line.
#[verifier::opaque]
pub open spec fn scan_slash(chars: Seq<char>, s: ScanView) -> ScanView {
    let at = s.current;
    if at + 1 < chars.len() && chars[at as int + 1] == '/' {
        s.skip_to(run_end(chars, at + 2, CharClass::NotNewline))
    } else {
        s.emit(TokenKind::Slash, chars, at, at + 1)
    }
}

/// One or two characters of punctuation.
#[verifier::opaque]
pub open spec fn scan_pair(chars: Seq<char>, s: ScanView) -> ScanView {
    let at = s.current;
    let with_equal = at + 1 < chars.len() && chars[at as int + 1] == '=';
    s.emit(
        pair(chars[at as int], with_equal)->0,
        chars,
        at,
        at + if with_equal {
            2nat
        } else {
            1nat
        },
    )
}

/// Reads what starts at the current character.
#[verifier::opaque]
pub open spec fn scan_token(chars: Seq<char>, s: ScanView) -> ScanView {
    let at = s.current;
    let c = chars[at as int];
    if single(c) is Some {
        s.emit(single(c)->0, chars, at, at + 1)
    } else if pair(c, false) is Some {
        scan_pair(chars, s)
    } else if c == '/' {
        scan_slash(chars, s)
    } else if c == ' ' || c == '\r' || c == '\t' {
        s.skip_to(at + 1)
    } else if c == '\n' {
        s.lines(1).skip_to(at + 1)
    } else if c == '"' {
        scan_string(chars, s)
    } else if in_class(c, CharClass::Digit) {
        scan_number(chars, s)
    } else if char_is_alphabetic(c) {
        scan_word(chars, s)
    } else {
        s.report("Unexpected character"@, at + 1)
    }
}

/// The state with the end of the text marked by its token.
pub open spec fn finish(s: ScanView) -> ScanView {
    ScanView {
        tokens: s.tokens.push(TokenView { typ: TokenKind::EOF, lexeme: Seq::empty(), line: s.line }),
        finished: true,
        ..s
    }
}

/// Reads on from `s` until a number is pending or the text ends.
pub open spec fn scan_all(chars: Seq<char>, s: ScanView) -> ScanView
    decreases chars.len() - s.current,
{
    if s.pending is Some || s.finished {
        s
    } else if s.current >= chars.len() {
        finish(s)
    } else {
        let next = scan_token(chars, s);
        if s.current < next.current <= chars.len() {
            scan_all(chars, next)
        } else {
            s
        }
    }
}

/// The state with the pending number added as a token of value `bits`.
pub open spec fn supply(s: ScanView, bits: u64) -> ScanView {
    match s.pending {
        Some(text) => ScanView {
            tokens: s.tokens.push(
                TokenView { typ: TokenKind::Number(bits), lexeme: text, line: s.line },
            ),
            pending: None,
            ..s
        },
        None => s,
    }
}

/// A run ends between its start and the end of the text.
pub proof fn lemma_run_end(chars: Seq<char>, pos: nat, class: CharClass)
    requires
        pos <= chars.len(),
    ensures
        pos <= run_end(chars, pos, class) <= chars.len(),
    decreases chars.len() - pos,
{
    if pos < chars.len() && in_class(chars[pos as int], class) {
        lemma_run_end(chars, pos + 1, class);
    }
}

/// There are no more newlines in a range than characters.
pub proof fn lemma_newlines(chars: Seq<char>, from: nat, to: nat)
    requires
        from <= to <= chars.len(),
    ensures
        newlines(chars, from, to) <= to - from,
    decreases to,
{
    if to > from {
        lemma_newlines(chars, from, (to - 1) as nat);
    }
}

} // verus!
