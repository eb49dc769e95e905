//! Values shared by every stage: errors, tokens and the text helpers they need.
use vstd::prelude::*;
use vstd::string::StringExecFns;

verus! {

/// Line reported by runtime errors. The syntax tree carries no positions, so
/// a runtime error has no line to name; lines of the source count from 1,
/// and 0 stands for "no line".
pub const RUNTIME_LINE: usize = 0;

/// Trusted: `String::push` of the standard library appends the character to
/// the end of the string and changes nothing else of it.
pub assume_specification[ std::string::String::push ](s: &mut std::string::String, c: char)
    ensures
        final(s)@ == old(s)@.push(c),
;

/// An error of one of the three stages, with its message and source line.
#[derive(Debug, PartialEq)]
pub enum Error {
    Parser(String, usize),
    Lexer(String, usize),
    Interpreter(String, usize),
}

/// Mathematical model of [`Error`].
pub enum ErrorView {
    Parser(Seq<char>, nat),
    Lexer(Seq<char>, nat),
    Interpreter(Seq<char>, nat),
}

impl View for Error {
    type V = ErrorView;

    open spec fn view(&self) -> ErrorView {
        match self {
            Error::Parser(m, l) => ErrorView::Parser(m@, *l as nat),
            Error::Lexer(m, l) => ErrorView::Lexer(m@, *l as nat),
            Error::Interpreter(m, l) => ErrorView::Interpreter(m@, *l as nat),
        }
    }
}

/// The decimal digits of `n`, most significant first.
pub open spec fn decimal(n: nat) -> Seq<char>
    decreases n,
{
    if n < 10 {
        seq![digit_char(n)]
    } else {
        decimal(n / 10).push(digit_char(n % 10))
    }
}

/// The character of a single decimal digit.
pub open spec fn digit_char(d: nat) -> char {
    if d == 0 {
        '0'
    } else if d == 1 {
        '1'
    } else if d == 2 {
        '2'
    } else if d == 3 {
        '3'
    } else if d == 4 {
        '4'
    } else if d == 5 {
        '5'
    } else if d == 6 {
        '6'
    } else if d == 7 {
        '7'
    } else if d == 8 {
        '8'
    } else {
        '9'
    }
}

fn digit(d: usize) -> (c: char)
    requires
        d < 10,
    ensures
        c == digit_char(d as nat),
{
    if d == 0 {
        '0'
    } else if d == 1 {
        '1'
    } else if d == 2 {
        '2'
    } else if d == 3 {
        '3'
    } else if d == 4 {
        '4'
    } else if d == 5 {
        '5'
    } else if d == 6 {
        '6'
    } else if d == 7 {
        '7'
    } else if d == 8 {
        '8'
    } else {
        '9'
    }
}

/// Appends the decimal digits of `n` to `out`.
pub fn push_decimal(out: &mut String, n: usize)
    ensures
        final(out)@ == old(out)@ + decimal(n as nat),
    decreases n,
{
    if n < 10 {
        out.push(digit(n));
        assert(final(out)@ =~= old(out)@ + decimal(n as nat));
    } else {
        push_decimal(out, n / 10);
        out.push(digit(n % 10));
        assert(out@ =~= old(out)@ + decimal(n as nat));
    }
}

/// The headline that introduces an error of each stage.
pub open spec fn err_prefix(e: ErrorView) -> Seq<char> {
    match e {
        ErrorView::Lexer(..) => "Lexer-ERROR in line: "@,
        ErrorView::Parser(..) => "ParserERROR in line: "@,
        ErrorView::Interpreter(..) => "Interpreter-ERROR in line: "@,
    }
}

/// The text an error is reported with: headline, line, message.
pub open spec fn err_text(e: ErrorView) -> Seq<char> {
    let (m, l) = match e {
        ErrorView::Lexer(m, l) => (m, l),
        ErrorView::Parser(m, l) => (m, l),
        ErrorView::Interpreter(m, l) => (m, l),
    };
    err_prefix(e) + decimal(l) + " : "@ + m + "!"@
}

impl Error {
    /// A copy equal in every part.
    pub fn duplicate(&self) -> (r: Error)
        ensures
            r@ == self@,
    {
        match self {
            Error::Parser(m, l) => Error::Parser(m.clone(), *l),
            Error::Lexer(m, l) => Error::Lexer(m.clone(), *l),
            Error::Interpreter(m, l) => Error::Interpreter(m.clone(), *l),
        }
    }

    /// Renders the error the way it is reported to the user.
    pub fn to_string(&self) -> (r: String)
        ensures
            r@ == err_text(self@),
    {
        let (mut out, m, l) = match self {
            Error::Lexer(m, l) => (String::from_str("Lexer-ERROR in line: "), m, *l),
            Error::Parser(m, l) => (String::from_str("ParserERROR in line: "), m, *l),
            Error::Interpreter(m, l) => (String::from_str("Interpreter-ERROR in line: "), m, *l),
        };
        push_decimal(&mut out, l);
        out.append(" : ");
        out.append(m.as_str());
        out.append("!");
        out
    }
}

impl Clone for Error {
    fn clone(&self) -> (r: Error)
        ensures
            r@ == self@,
    {
        self.duplicate()
    }
}

/// The operation whose operands had the wrong type.
#[derive(Debug, Clone, Copy, PartialEq, Eq, Structural)]
pub enum Operation {
    Unary,
    Subtraction,
    Multiplication,
    Division,
    Addition,
    Comparison,
    Equality,
}

/// What went wrong while a program ran.
#[derive(Debug, Clone, Copy, PartialEq, Eq, Structural)]
pub enum RuntimeErrorKind {
    /// A name is read or assigned that no scope in reach binds.
    UndefinedVariable,
    /// An assignment to what is no variable. The parser rejects such
    /// targets, so no run of a parsed program ends with it.
    UndefinedAssignmentTarget,
    NotCallable,
    ArityMismatch,
    WrongOperandType(Operation),
    DivisionByZero,
    /// A binary expression holds a token that is no binary operator.
    UnknownOperator,
    /// Execution reached a statement that had failed to parse.
    Malformed,
    /// The host answered a request with the wrong kind of reply.
    Protocol,
    /// The machine was given a state that no program leads to.
    Internal,
}

/// A fatal error of a run: its kind and the error that is reported.
#[derive(Debug, PartialEq)]
pub struct RuntimeError {
    pub kind: RuntimeErrorKind,
    pub error: Error,
}

/// Mathematical model of [`RuntimeError`].
pub struct RuntimeErrorView {
    pub kind: RuntimeErrorKind,
    pub error: ErrorView,
}

impl View for RuntimeError {
    type V = RuntimeErrorView;

    open spec fn view(&self) -> RuntimeErrorView {
        RuntimeErrorView { kind: self.kind, error: self.error@ }
    }
}

/// The runtime error of `kind` with message `message`.
pub open spec fn runtime_error(kind: RuntimeErrorKind, message: Seq<char>) -> RuntimeErrorView {
    RuntimeErrorView { kind, error: ErrorView::Interpreter(message, RUNTIME_LINE as nat) }
}

impl RuntimeError {
    /// The runtime error of `kind` with `message`.
    pub fn new(kind: RuntimeErrorKind, message: String) -> (r: RuntimeError)
        ensures
            r@ == runtime_error(kind, message@),
    {
        RuntimeError { kind, error: Error::Interpreter(message, RUNTIME_LINE) }
    }

    /// A copy equal in every part.
    pub fn duplicate(&self) -> (r: RuntimeError)
        ensures
            r@ == self@,
    {
        RuntimeError { kind: self.kind, error: self.error.duplicate() }
    }
}

impl Clone for RuntimeError {
    fn clone(&self) -> (r: RuntimeError)
        ensures
            r@ == self@,
    {
        self.duplicate()
    }
}

/// Every shape a token can take. `Number` holds the bits of an IEEE 754
/// double.
#[derive(Debug, PartialEq)]
pub enum TokenType {
    OpenParen,
    CloseParen,
    OpenBrace,
    CloseBrace,
    Comma,
    Dot,
    Minus,
    Plus,
    Semicolon,
    Slash,
    Star,
    Exclamation,
    ExclamationEqual,
    Equal,
    EqualEqual,
    Greater,
    GreaterEqual,
    Less,
    LessEqual,
    Identifier,
    String(String),
    Number(u64),
    And,
    Class,
    Else,
    False,
    Fun,
    For,
    If,
    Nil,
    Or,
    Print,
    Return,
    Super,
    This,
    True,
    Var,
    While,
    EOF,
}

/// Mathematical model of [`TokenType`].
pub enum TokenKind {
    OpenParen,
    CloseParen,
    OpenBrace,
    CloseBrace,
    Comma,
    Dot,
    Minus,
    Plus,
    Semicolon,
    Slash,
    Star,
    Exclamation,
    ExclamationEqual,
    Equal,
    EqualEqual,
    Greater,
    GreaterEqual,
    Less,
    LessEqual,
    Identifier,
    String(Seq<char>),
    Number(u64),
    And,
    Class,
    Else,
    False,
    Fun,
    For,
    If,
    Nil,
    Or,
    Print,
    Return,
    Super,
    This,
    True,
    Var,
    While,
    EOF,
}

impl View for TokenType {
    type V = TokenKind;

    open spec fn view(&self) -> TokenKind {
        match self {
            TokenType::OpenParen => TokenKind::OpenParen,
            TokenType::CloseParen => TokenKind::CloseParen,
            TokenType::OpenBrace => TokenKind::OpenBrace,
            TokenType::CloseBrace => TokenKind::CloseBrace,
            TokenType::Comma => TokenKind::Comma,
            TokenType::Dot => TokenKind::Dot,
            TokenType::Minus => TokenKind::Minus,
            TokenType::Plus => TokenKind::Plus,
            TokenType::Semicolon => TokenKind::Semicolon,
            TokenType::Slash => TokenKind::Slash,
            TokenType::Star => TokenKind::Star,
            TokenType::Exclamation => TokenKind::Exclamation,
            TokenType::ExclamationEqual => TokenKind::ExclamationEqual,
            TokenType::Equal => TokenKind::Equal,
            TokenType::EqualEqual => TokenKind::EqualEqual,
            TokenType::Greater => TokenKind::Greater,
            TokenType::GreaterEqual => TokenKind::GreaterEqual,
            TokenType::Less => TokenKind::Less,
            TokenType::LessEqual => TokenKind::LessEqual,
            TokenType::Identifier => TokenKind::Identifier,
            TokenType::String(s) => TokenKind::String(s@),
            TokenType::Number(n) => TokenKind::Number(*n),
            TokenType::And => TokenKind::And,
            TokenType::Class => TokenKind::Class,
            TokenType::Else => TokenKind::Else,
            TokenType::False => TokenKind::False,
            TokenType::Fun => TokenKind::Fun,
            TokenType::For => TokenKind::For,
            TokenType::If => TokenKind::If,
            TokenType::Nil => TokenKind::Nil,
            TokenType::Or => TokenKind::Or,
            TokenType::Print => TokenKind::Print,
            TokenType::Return => TokenKind::Return,
            TokenType::Super => TokenKind::Super,
            TokenType::This => TokenKind::This,
            TokenType::True => TokenKind::True,
            TokenType::Var => TokenKind::Var,
            TokenType::While => TokenKind::While,
            TokenType::EOF => TokenKind::EOF,
        }
    }
}

impl TokenType {
    /// A copy equal in every part.
    pub fn duplicate(&self) -> (r: TokenType)
        ensures
            r@ == self@,
    {
        match self {
            TokenType::OpenParen => TokenType::OpenParen,
            TokenType::CloseParen => TokenType::CloseParen,
            TokenType::OpenBrace => TokenType::OpenBrace,
            TokenType::CloseBrace => TokenType::CloseBrace,
            TokenType::Comma => TokenType::Comma,
            TokenType::Dot => TokenType::Dot,
            TokenType::Minus => TokenType::Minus,
            TokenType::Plus => TokenType::Plus,
            TokenType::Semicolon => TokenType::Semicolon,
            TokenType::Slash => TokenType::Slash,
            TokenType::Star => TokenType::Star,
            TokenType::Exclamation => TokenType::Exclamation,
            TokenType::ExclamationEqual => TokenType::ExclamationEqual,
            TokenType::Equal => TokenType::Equal,
            TokenType::EqualEqual => TokenType::EqualEqual,
            TokenType::Greater => TokenType::Greater,
            TokenType::GreaterEqual => TokenType::GreaterEqual,
            TokenType::Less => TokenType::Less,
            TokenType::LessEqual => TokenType::LessEqual,
            TokenType::Identifier => TokenType::Identifier,
            TokenType::String(s) => TokenType::String(s.clone()),
            TokenType::Number(n) => TokenType::Number(*n),
            TokenType::And => TokenType::And,
            TokenType::Class => TokenType::Class,
            TokenType::Else => TokenType::Else,
            TokenType::False => TokenType::False,
            TokenType::Fun => TokenType::Fun,
            TokenType::For => TokenType::For,
            TokenType::If => TokenType::If,
            TokenType::Nil => TokenType::Nil,
            TokenType::Or => TokenType::Or,
            TokenType::Print => TokenType::Print,
            TokenType::Return => TokenType::Return,
            TokenType::Super => TokenType::Super,
            TokenType::This => TokenType::This,
            TokenType::True => TokenType::True,
            TokenType::Var => TokenType::Var,
            TokenType::While => TokenType::While,
            TokenType::EOF => TokenType::EOF,
        }
    }
}

impl Clone for TokenType {
    fn clone(&self) -> (r: TokenType)
        ensures
            r@ == self@,
    {
        self.duplicate()
    }
}

/// A lexeme of the source with its type and the line it stands on.
#[derive(Debug, PartialEq)]
pub struct Token {
    pub typ: TokenType,
    pub lexeme: String,
    pub line: usize,
}

/// Mathematical model of [`Token`].
pub struct TokenView {
    pub typ: TokenKind,
    pub lexeme: Seq<char>,
    pub line: nat,
}

impl View for Token {
    type V = TokenView;

    open spec fn view(&self) -> TokenView {
        TokenView { typ: self.typ@, lexeme: self.lexeme@, line: self.line as nat }
    }
}

impl Token {
    /// A copy equal in every part.
    pub fn duplicate(&self) -> (r: Token)
        ensures
            r@ == self@,
    {
        Token { typ: self.typ.duplicate(), lexeme: self.lexeme.clone(), line: self.line }
    }
}

impl Clone for Token {
    fn clone(&self) -> (r: Token)
        ensures
            r@ == self@,
    {
        self.duplicate()
    }
}

/// The models of the errors of `errors`, in order.
#[verifier::opaque]
pub open spec fn errors_view(errors: Seq<Error>) -> Seq<ErrorView> {
    Seq::new(errors.len(), |i: int| errors[i]@)
}

/// The model of a list of errors has the length of the list and holds the
/// models of its items.
pub proof fn lemma_errors_index(errors: Seq<Error>, i: int)
    ensures
        errors_view(errors).len() == errors.len(),
        0 <= i < errors.len() ==> errors_view(errors)[i] == errors[i]@,
{
    reveal(errors_view);
}

/// The model of a list of tokens has the length of the list and holds the
/// models of its items.
pub proof fn lemma_tokens_index(tokens: Seq<Token>, i: int)
    ensures
        tokens_view(tokens).len() == tokens.len(),
        0 <= i < tokens.len() ==> tokens_view(tokens)[i] == tokens[i]@,
{
    reveal(tokens_view);
}

/// Appends an error to a list.
pub fn push_error(list: &mut Vec<Error>, e: Error)
    ensures
        errors_view(final(list)@) == errors_view(old(list)@).push(e@),
{
    reveal(errors_view);
    list.push(e);
    assert(errors_view(list@) =~= errors_view(old(list)@).push(e@));
}

/// Appends a token to a list.
pub fn push_token(list: &mut Vec<Token>, t: Token)
    ensures
        tokens_view(final(list)@) == tokens_view(old(list)@).push(t@),
{
    reveal(tokens_view);
    list.push(t);
    assert(tokens_view(list@) =~= tokens_view(old(list)@).push(t@));
}

/// Appends copies of the errors of `more` to `list`.
pub fn append_errors(list: Vec<Error>, more: &Vec<Error>) -> (r: Vec<Error>)
    ensures
        errors_view(r@) == errors_view(list@) + errors_view(more@),
{
    reveal(errors_view);
    let mut out = list;
    let mut i: usize = 0;
    while i < more.len()
        invariant
            i <= more.len(),
            out@.len() == list@.len() + i,
            forall|j: int| 0 <= j < list@.len() ==> out@[j] == list@[j],
            forall|j: int| 0 <= j < i ==> out@[list@.len() + j]@ == more@[j]@,
        decreases more.len() - i,
    {
        out.push(more[i].duplicate());
        i += 1;
    }
    assert(errors_view(out@) =~= errors_view(list@) + errors_view(more@));
    out
}

/// A list without errors.
pub fn no_errors() -> (list: Vec<Error>)
    ensures
        errors_view(list@) == Seq::<ErrorView>::empty(),
{
    reveal(errors_view);
    let list: Vec<Error> = Vec::new();
    assert(errors_view(list@) =~= Seq::<ErrorView>::empty());
    list
}

/// A list without tokens.
pub fn no_tokens() -> (list: Vec<Token>)
    ensures
        tokens_view(list@) == Seq::<TokenView>::empty(),
{
    reveal(tokens_view);
    let list: Vec<Token> = Vec::new();
    assert(tokens_view(list@) =~= Seq::<TokenView>::empty());
    list
}

/// Copies a list of errors.
pub fn duplicate_errors(errors: &Vec<Error>) -> (r: Vec<Error>)
    ensures
        errors_view(r@) == errors_view(errors@),
{
    reveal(errors_view);
    let mut out: Vec<Error> = Vec::new();
    let mut i: usize = 0;
    while i < errors.len()
        invariant
            i <= errors.len(),
            out.len() == i,
            forall|j: int| 0 <= j < i ==> out@[j]@ == errors@[j]@,
        decreases errors.len() - i,
    {
        out.push(errors[i].duplicate());
        i += 1;
    }
    assert(errors_view(out@) =~= errors_view(errors@));
    out
}

/// The models of the tokens of `tokens`, in order.
#[verifier::opaque]
pub open spec fn tokens_view(tokens: Seq<Token>) -> Seq<TokenView> {
    Seq::new(tokens.len(), |i: int| tokens[i]@)
}

} // verus!
