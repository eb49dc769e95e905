//! The scanner: from source text to tokens.
//!
//!     var language = "lox";   becomes   var | language | = | "lox" | ;
use vstd::prelude::*;
use vstd::string::StringExecFns;
use crate::cursor::terminated;
use crate::scanning;
use crate::scanning::{CharClass, ScanView};
use crate::types::{
    duplicate_errors, errors_view, lemma_tokens_index, no_errors, no_tokens, push_error, push_token,
    tokens_view, Error, Token, TokenType,
};

verus! {

/// The characters of `source`, in order.
pub fn chars_of(source: &str) -> (v: Vec<char>)
    ensures
        v@ == source@,
{
    broadcast use vstd::string::group_string_axioms;

    let mut v: Vec<char> = Vec::new();
    for c in it: source.chars()
        invariant
            it.seq() == source@,
            v@ == source@.subrange(0, it.index() as int),
    {
        v.push(c);
        assert(v@ =~= source@.subrange(0, it.index() + 1));
    }
    assert(v@ =~= source@);
    v
}

/// The text of `chars` from `from` up to `to`.
pub fn text_of(chars: &Vec<char>, from: usize, to: usize) -> (s: String)
    requires
        from <= to <= chars.len(),
    ensures
        s@ == chars@.subrange(from as int, to as int),
{
    let mut s = String::new();
    let mut i: usize = from;
    while i < to
        invariant
            from <= i <= to <= chars.len(),
            s@ == chars@.subrange(from as int, i as int),
        decreases to - i,
    {
        s.push(chars[i]);
        i += 1;
        assert(s@ =~= chars@.subrange(from as int, i as int));
    }
    s
}

fn in_class(c: char, class: CharClass) -> (b: bool)
    ensures
        b == scanning::in_class(c, class),
{
    match class {
        CharClass::Digit => '0' <= c && c <= '9',
        CharClass::Word => c.is_alphanumeric() || c == '_',
        CharClass::NotQuote => c != '"',
        CharClass::NotNewline => c != '\n',
    }
}

/// The end of the run of characters of `class` that starts at `from`.
pub fn skip(chars: &Vec<char>, from: usize, class: CharClass) -> (end: usize)
    requires
        from <= chars.len(),
    ensures
        end == scanning::run_end(chars@, from as nat, class),
        from <= end <= chars.len(),
{
    let mut i: usize = from;
    while i < chars.len() && in_class(chars[i], class)
        invariant
            from <= i <= chars.len(),
            scanning::run_end(chars@, i as nat, class) == scanning::run_end(
                chars@,
                from as nat,
                class,
            ),
        decreases chars.len() - i,
    {
        i += 1;
    }
    i
}

/// The number of newlines of `chars` from `from` up to `to`.
pub fn count_newlines(chars: &Vec<char>, from: usize, to: usize) -> (n: usize)
    requires
        from <= to <= chars.len(),
    ensures
        n == scanning::newlines(chars@, from as nat, to as nat),
        n <= to - from,
{
    let mut n: usize = 0;
    let mut i: usize = from;
    while i < to
        invariant
            from <= i <= to <= chars.len(),
            n == scanning::newlines(chars@, from as nat, i as nat),
            n <= i - from,
        decreases to - i,
    {
        if chars[i] == '\n' {
            n += 1;
        }
        i += 1;
    }
    n
}

fn is(text: &String, word: &str) -> (b: bool)
    ensures
        b == (text@ == word@),
{
    let other = String::from_str(word);
    *text == other
}

/// The type of a word: a keyword's own, or that of an identifier.
pub fn keyword(text: &String) -> (t: TokenType)
    ensures
        t@ == scanning::keyword(text@),
{
    reveal(scanning::keyword);
    if is(text, "and") {
        TokenType::And
    } else if is(text, "class") {
        TokenType::Class
    } else if is(text, "else") {
        TokenType::Else
    } else if is(text, "false") {
        TokenType::False
    } else if is(text, "for") {
        TokenType::For
    } else if is(text, "fun") {
        TokenType::Fun
    } else if is(text, "if") {
        TokenType::If
    } else if is(text, "nil") {
        TokenType::Nil
    } else if is(text, "or") {
        TokenType::Or
    } else if is(text, "print") {
        TokenType::Print
    } else if is(text, "return") {
        TokenType::Return
    } else if is(text, "super") {
        TokenType::Super
    } else if is(text, "this") {
        TokenType::This
    } else if is(text, "true") {
        TokenType::True
    } else if is(text, "var") {
        TokenType::Var
    } else if is(text, "while") {
        TokenType::While
    } else {
        TokenType::Identifier
    }
}

fn single(c: char) -> (r: Option<TokenType>)
    ensures
        match r {
            Some(t) => scanning::single(c) == Some(t@),
            None => scanning::single(c) is None,
        },
{
    if c == '(' {
        Some(TokenType::OpenParen)
    } else if c == ')' {
        Some(TokenType::CloseParen)
    } else if c == '{' {
        Some(TokenType::OpenBrace)
    } else if c == '}' {
        Some(TokenType::CloseBrace)
    } else if c == ',' {
        Some(TokenType::Comma)
    } else if c == '.' {
        Some(TokenType::Dot)
    } else if c == '-' {
        Some(TokenType::Minus)
    } else if c == '+' {
        Some(TokenType::Plus)
    } else if c == ';' {
        Some(TokenType::Semicolon)
    } else if c == '*' {
        Some(TokenType::Star)
    } else {
        None
    }
}

fn pair(c: char, with_equal: bool) -> (r: Option<TokenType>)
    ensures
        match r {
            Some(t) => scanning::pair(c, with_equal) == Some(t@),
            None => scanning::pair(c, with_equal) is None,
        },
{
    if c == '!' {
        Some(
            if with_equal {
                TokenType::ExclamationEqual
            } else {
                TokenType::Exclamation
            },
        )
    } else if c == '=' {
        Some(
            if with_equal {
                TokenType::EqualEqual
            } else {
                TokenType::Equal
            },
        )
    } else if c == '<' {
        Some(
            if with_equal {
                TokenType::LessEqual
            } else {
                TokenType::Less
            },
        )
    } else if c == '>' {
        Some(
            if with_equal {
                TokenType::GreaterEqual
            } else {
                TokenType::Greater
            },
        )
    } else {
        None
    }
}

/// A scan of a source text, at rest: either at the end of the text or at a
/// number whose value it waits for.
#[derive(Debug)]
pub struct Scanner {
    source: Vec<char>,
    tokens: Vec<Token>,
    errors: Vec<Error>,
    /// Index of the next character to read.
    current: usize,
    line: usize,
    pending: Option<String>,
    finished: bool,
}

impl View for Scanner {
    type V = ScanView;

    closed spec fn view(&self) -> ScanView {
        ScanView {
            tokens: tokens_view(self.tokens@),
            errors: errors_view(self.errors@),
            current: self.current as nat,
            line: self.line as nat,
            pending: match self.pending {
                Some(s) => Some(s@),
                None => None,
            },
            finished: self.finished,
        }
    }
}

/// Scans `source` up to its first number or its end.
pub fn new_scanner(source: &str) -> (s: Scanner)
    requires
        source@.len() < usize::MAX,
    ensures
        s.wf(),
        s.chars() == source@,
        s@ == scanning::scan_all(source@, scanning::initial()),
{
    let mut s = Scanner {
        source: chars_of(source),
        tokens: no_tokens(),
        errors: no_errors(),
        current: 0,
        line: 1,
        pending: None,
        finished: false,
    };
    s.scan_all_tokens();
    s
}

impl Scanner {
    /// The characters being scanned.
    pub closed spec fn chars(&self) -> Seq<char> {
        self.source@
    }

    /// The scanner's own bookkeeping is sound.
    pub closed spec fn wf(&self) -> bool {
        &&& self.source.len() < usize::MAX
        &&& self.current <= self.source.len()
        &&& 1 <= self.line <= self.current + 1
        &&& self.finished ==> terminated(self.tokens@) && self.pending is None
        &&& self.finished || self.pending is Some
    }

    /// A scan at rest has finished or waits for a number.
    pub proof fn lemma_at_rest(&self)
        requires
            self.wf(),
        ensures
            self@.finished != (self@.pending is Some),
    {
    }

    /// The tokens read so far and the errors met. Once the scan has
    /// finished the tokens end with the end-of-input token.
    pub fn results(&self) -> (r: (&Vec<Token>, Vec<Error>))
        requires
            self.wf(),
        ensures
            tokens_view(r.0@) == self@.tokens,
            errors_view(r.1@) == self@.errors,
            self@.finished ==> terminated(r.0@),
    {
        (&self.tokens, duplicate_errors(&self.errors))
    }

    /// Whether the end of the text was reached.
    pub fn is_finished(&self) -> (b: bool)
        ensures
            b == self@.finished,
    {
        self.finished
    }

    /// The text of the number whose value the scan waits for, if it does.
    pub fn pending_number(&self) -> (r: Option<String>)
        ensures
            match r {
                Some(s) => self@.pending == Some(s@),
                None => self@.pending is None,
            },
    {
        match &self.pending {
            Some(s) => Some(s.clone()),
            None => None,
        }
    }

    /// Gives the value of the pending number and scans on to the next
    /// number or the end. Without a pending number nothing is added.
    pub fn supply_number(&mut self, bits: u64)
        requires
            old(self).wf(),
        ensures
            final(self).wf(),
            final(self).chars() == old(self).chars(),
            final(self)@ == scanning::scan_all(old(self).chars(), scanning::supply(old(self)@, bits)),
    {
        match self.pending.take() {
            Some(text) => {
                push_token(
                    &mut self.tokens,
                    Token { typ: TokenType::Number(bits), lexeme: text, line: self.line },
                );
            },
            None => {},
        }
        self.scan_all_tokens();
    }

    fn is_at_end(&self) -> (b: bool)
        ensures
            b == (self.current >= self.source.len()),
    {
        self.current >= self.source.len()
    }

    /// Scans until a number is pending or the text ends.
    fn scan_all_tokens(&mut self)
        requires
            old(self).source.len() < usize::MAX,
            old(self).current <= old(self).source.len(),
            1 <= old(self).line <= old(self).current + 1,
            old(self).finished ==> terminated(old(self).tokens@) && old(self).pending is None,
        ensures
            final(self).wf(),
            final(self).source == old(self).source,
            final(self)@ == scanning::scan_all(old(self).source@, old(self)@),
    {
        while !self.finished && self.pending.is_none()
            invariant
                self.source == old(self).source,
                self.source.len() < usize::MAX,
                self.current <= self.source.len(),
                1 <= self.line <= self.current + 1,
                self.finished ==> terminated(self.tokens@) && self.pending is None,
                scanning::scan_all(self.source@, self@) == scanning::scan_all(
                    old(self).source@,
                    old(self)@,
                ),
            decreases
                    self.source.len() - self.current + if self.finished {
                        0int
                    } else {
                        1int
                    },
        {
            if self.is_at_end() {
                push_token(
                    &mut self.tokens,
                    Token { typ: TokenType::EOF, lexeme: String::new(), line: self.line },
                );
                self.finished = true;
                proof {
                    lemma_tokens_index(self.tokens@, self.tokens@.len() - 1);
                }
            } else {
                self.scan_token();
            }
        }
    }

    /// Adds the token of `typ` whose text runs from `from` up to `to`, and
    /// goes on at `to`.
    fn add_token(&mut self, typ: TokenType, from: usize, to: usize)
        requires
            from <= to <= old(self).source.len(),
            !old(self).finished,
        ensures
            final(self)@ == old(self)@.emit(typ@, old(self).source@, from as nat, to as nat),
            final(self).source == old(self).source,
            final(self).line == old(self).line,
            final(self).current == to,
            !final(self).finished,
    {
        let lexeme = text_of(&self.source, from, to);
        push_token(&mut self.tokens, Token { typ, lexeme, line: self.line });
        self.current = to;
    }

    /// Records an error at the current line and goes on at `to`.
    fn report(&mut self, message: &str, to: usize)
        requires
            !old(self).finished,
        ensures
            final(self)@ == old(self)@.report(message@, to as nat),
            final(self).source == old(self).source,
            final(self).line == old(self).line,
            final(self).current == to,
            !final(self).finished,
    {
        push_error(&mut self.errors, Error::Lexer(String::from_str(message), self.line));
        self.current = to;
    }

    /// Whether the character after the current one is `expected`.
    fn check_for(&self, expected: char) -> (b: bool)
        requires
            self.current < self.source.len(),
            self.source.len() < usize::MAX,
        ensures
            b == (self.current + 1 < self.source.len() && self.source@[self.current + 1]
                == expected),
    {
        self.current + 1 < self.source.len() && self.source[self.current + 1] == expected
    }

    fn string_literal(&mut self)
        requires
            old(self).current < old(self).source.len(),
            old(self).source.len() < usize::MAX,
            1 <= old(self).line <= old(self).current + 1,
            !old(self).finished,
            old(self).pending is None,
        ensures
            final(self)@ == scanning::scan_string(old(self).source@, old(self)@),
            final(self).source == old(self).source,
            old(self).current < final(self).current <= final(self).source.len(),
            1 <= final(self).line <= final(self).current + 1,
            !final(self).finished,
    {
        reveal(scanning::scan_string);
        let at = self.current;
        let close = skip(&self.source, at + 1, CharClass::NotQuote);
        let more = count_newlines(&self.source, at + 1, close);
        self.line = self.line + more;
        if close >= self.source.len() {
            self.report("Unterminated string", close);
        } else {
            let value = text_of(&self.source, at + 1, close);
            self.add_token(TokenType::String(value), at, close + 1);
        }
    }

    /// The end of the number that starts at the current character.
    fn number_end(&self) -> (end: usize)
        requires
            self.current < self.source.len(),
            self.source.len() < usize::MAX,
            scanning::in_class(self.source@[self.current as int], CharClass::Digit),
        ensures
            end == scanning::number_end(self.source@, self.current as nat),
            self.current < end <= self.source.len(),
    {
        reveal(scanning::number_end);
        proof {
            scanning::lemma_run_end(self.source@, (self.current + 1) as nat, CharClass::Digit);
            assert(scanning::run_end(self.source@, self.current as nat, CharClass::Digit)
                == scanning::run_end(self.source@, (self.current + 1) as nat, CharClass::Digit));
        }
        let whole = skip(&self.source, self.current, CharClass::Digit);
        if whole + 1 < self.source.len() && self.source[whole] == '.' && in_class(
            self.source[whole + 1],
            CharClass::Digit,
        ) {
            skip(&self.source, whole + 1, CharClass::Digit)
        } else {
            whole
        }
    }

    fn number_literal(&mut self)
        requires
            old(self).current < old(self).source.len(),
            old(self).source.len() < usize::MAX,
            scanning::in_class(old(self).source@[old(self).current as int], CharClass::Digit),
            1 <= old(self).line <= old(self).current + 1,
            !old(self).finished,
        ensures
            final(self)@ == scanning::scan_number(old(self).source@, old(self)@),
            final(self).source == old(self).source,
            old(self).current < final(self).current <= final(self).source.len(),
            1 <= final(self).line <= final(self).current + 1,
            !final(self).finished,
    {
        reveal(scanning::scan_number);
        let end = self.number_end();
        self.pending = Some(text_of(&self.source, self.current, end));
        self.current = end;
    }

    fn identifier_literal(&mut self)
        requires
            old(self).current < old(self).source.len(),
            old(self).source.len() < usize::MAX,
            1 <= old(self).line <= old(self).current + 1,
            !old(self).finished,
        ensures
            final(self)@ == scanning::scan_word(old(self).source@, old(self)@),
            final(self).source == old(self).source,
            old(self).current < final(self).current <= final(self).source.len(),
            1 <= final(self).line <= final(self).current + 1,
            !final(self).finished,
    {
        reveal(scanning::scan_word);
        let at = self.current;
        let end = skip(&self.source, at + 1, CharClass::Word);
        let text = text_of(&self.source, at, end);
        self.add_token(keyword(&text), at, end);
    }

    fn slash(&mut self)
        requires
            old(self).current < old(self).source.len(),
            old(self).source.len() < usize::MAX,
            1 <= old(self).line <= old(self).current + 1,
            !old(self).finished,
        ensures
            final(self)@ == scanning::scan_slash(old(self).source@, old(self)@),
            final(self).source == old(self).source,
            old(self).current < final(self).current <= final(self).source.len(),
            1 <= final(self).line <= final(self).current + 1,
            !final(self).finished,
    {
        reveal(scanning::scan_slash);
        let at = self.current;
        if self.check_for('/') {
            self.current = skip(&self.source, at + 2, CharClass::NotNewline);
        } else {
            self.add_token(TokenType::Slash, at, at + 1);
        }
    }

    fn punctuation(&mut self, c: char)
        requires
            old(self).current < old(self).source.len(),
            old(self).source.len() < usize::MAX,
            c == old(self).source@[old(self).current as int],
            scanning::pair(c, false) is Some,
            1 <= old(self).line <= old(self).current + 1,
            !old(self).finished,
        ensures
            final(self)@ == scanning::scan_pair(old(self).source@, old(self)@),
            final(self).source == old(self).source,
            old(self).current < final(self).current <= final(self).source.len(),
            1 <= final(self).line <= final(self).current + 1,
            !final(self).finished,
    {
        reveal(scanning::scan_pair);
        let at = self.current;
        let with_equal = self.check_for('=');
        let end = if with_equal {
            at + 2
        } else {
            at + 1
        };
        match pair(c, with_equal) {
            Some(typ) => {
                self.add_token(typ, at, end);
            },
            None => {
                self.current = end;
            },
        }
    }

    /// Reads what starts at the current character.
    fn scan_token(&mut self)
        requires
            old(self).current < old(self).source.len(),
            old(self).source.len() < usize::MAX,
            1 <= old(self).line <= old(self).current + 1,
            !old(self).finished,
            old(self).pending is None,
        ensures
            final(self)@ == scanning::scan_token(old(self).source@, old(self)@),
            final(self).source == old(self).source,
            old(self).current < final(self).current <= final(self).source.len(),
            1 <= final(self).line <= final(self).current + 1,
            !final(self).finished,
    {
        reveal(scanning::scan_token);
        let at = self.current;
        let c = self.source[at];
        match single(c) {
            Some(typ) => {
                self.add_token(typ, at, at + 1);
                return ;
            },
            None => {},
        }
        match pair(c, false) {
            Some(_) => {
                self.punctuation(c);
                return ;
            },
            None => {},
        }
        if c == '/' {
            self.slash();
        } else if c == ' ' || c == '\r' || c == '\t' {
            self.current = at + 1;
        } else if c == '\n' {
            self.line = self.line + 1;
            self.current = at + 1;
        } else if c == '"' {
            self.string_literal();
        } else if in_class(c, CharClass::Digit) {
            self.number_literal();
        } else if c.is_alphabetic() {
            self.identifier_literal();
        } else {
            self.report("Unexpected character", at + 1);
        }
    }
}

} // verus!
