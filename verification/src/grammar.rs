//! The grammar as mathematical functions on a token sequence.
//!
//! Every function takes the tokens, the position it starts at and the errors
//! recorded so far, and says what is parsed there: the value, how many tokens
//! are used and the errors recorded afterwards. Precedence, lowest first:
//! assignment, `or`, `and`, equality, comparison, term, factor, unary, call,
//! primary.
use vstd::prelude::*;
use crate::expressions::{ExprView, ValueView};
use crate::statements::{FunctionStatementView, StatementView};
use crate::types::{ErrorView, TokenKind, TokenView};

verus! {

/// An expression, or the error that stopped its parse.
pub type ExprResult = Result<ExprView, ErrorView>;

/// A statement, or the error that stopped its parse.
pub type StatementResult = Result<StatementView, ErrorView>;

/// Outcome of parsing at some position.
pub struct Parsed<T> {
    pub value: T,
    /// Number of tokens consumed.
    pub used: nat,
    /// All errors recorded so far, oldest first.
    pub errors: Seq<ErrorView>,
}

impl<T> Parsed<T> {
    /// The same outcome, seen from `by` tokens earlier.
    pub open spec fn shift(self, by: nat) -> Parsed<T> {
        Parsed { value: self.value, used: self.used + by, errors: self.errors }
    }
}

/// The most arguments a call, and parameters a function, may have.
pub const MAX_ARITY: usize = 255;

/// A number that tells token types apart whatever they carry.
#[verifier::opaque]
pub open spec fn kind_tag(k: TokenKind) -> int {
    match k {
        TokenKind::OpenParen => 0,
        TokenKind::CloseParen => 1,
        TokenKind::OpenBrace => 2,
        TokenKind::CloseBrace => 3,
        TokenKind::Comma => 4,
        TokenKind::Dot => 5,
        TokenKind::Minus => 6,
        TokenKind::Plus => 7,
        TokenKind::Semicolon => 8,
        TokenKind::Slash => 9,
        TokenKind::Star => 10,
        TokenKind::Exclamation => 11,
        TokenKind::ExclamationEqual => 12,
        TokenKind::Equal => 13,
        TokenKind::EqualEqual => 14,
        TokenKind::Greater => 15,
        TokenKind::GreaterEqual => 16,
        TokenKind::Less => 17,
        TokenKind::LessEqual => 18,
        TokenKind::Identifier => 19,
        TokenKind::String(_) => 20,
        TokenKind::Number(_) => 21,
        TokenKind::And => 22,
        TokenKind::Class => 23,
        TokenKind::Else => 24,
        TokenKind::False => 25,
        TokenKind::Fun => 26,
        TokenKind::For => 27,
        TokenKind::If => 28,
        TokenKind::Nil => 29,
        TokenKind::Or => 30,
        TokenKind::Print => 31,
        TokenKind::Return => 32,
        TokenKind::Super => 33,
        TokenKind::This => 34,
        TokenKind::True => 35,
        TokenKind::Var => 36,
        TokenKind::While => 37,
        TokenKind::EOF => 38,
    }
}

/// Tokens left from `pos` on.
pub open spec fn remaining(t: Seq<TokenView>, pos: nat) -> nat {
    if pos < t.len() {
        (t.len() - pos) as nat
    } else {
        0
    }
}

/// Nothing is left to parse at `pos`.
pub closed spec fn at_end(t: Seq<TokenView>, pos: nat) -> bool {
    pos >= t.len() || t[pos as int].typ is EOF
}

/// The token at `pos` has the type of `k`.
pub closed spec fn check(t: Seq<TokenView>, pos: nat, k: TokenKind) -> bool {
    !at_end(t, pos) && kind_tag(t[pos as int].typ) == kind_tag(k)
}

/// The line of the token at `pos`; 0 past the last token.
pub closed spec fn line_at(t: Seq<TokenView>, pos: nat) -> nat {
    if pos < t.len() {
        t[pos as int].line
    } else {
        0
    }
}

/// The text of the token at `pos`; empty past the last token.
pub closed spec fn lexeme_at(t: Seq<TokenView>, pos: nat) -> Seq<char> {
    if pos < t.len() {
        t[pos as int].lexeme
    } else {
        Seq::empty()
    }
}

/// Takes the token at `pos` if it has the type of `k`; else records an error
/// with `message` at the line of that token.
pub closed spec fn consume(
    t: Seq<TokenView>,
    pos: nat,
    errors: Seq<ErrorView>,
    k: TokenKind,
    message: Seq<char>,
) -> Parsed<Result<TokenView, ErrorView>> {
    if check(t, pos, k) {
        Parsed { value: Ok(t[pos as int]), used: 1, errors }
    } else {
        let e = ErrorView::Parser(message, line_at(t, pos));
        Parsed { value: Err(e), used: 0, errors: errors.push(e) }
    }
}

/// What [`at_end`], [`check`], [`line_at`] and [`lexeme_at`] say of the token
/// at `pos`.
pub proof fn lemma_token(t: Seq<TokenView>, pos: nat, k: TokenKind)
    ensures
        at_end(t, pos) == (pos >= t.len() || t[pos as int].typ is EOF),
        check(t, pos, k) == (!at_end(t, pos) && kind_tag(t[pos as int].typ) == kind_tag(k)),
        pos < t.len() ==> line_at(t, pos) == t[pos as int].line,
        pos < t.len() ==> lexeme_at(t, pos) == t[pos as int].lexeme,
        pos >= t.len() ==> line_at(t, pos) == 0 && lexeme_at(t, pos) == Seq::<char>::empty(),
{
}

/// What [`consume`] yields: the token and one step, or the error recorded
/// and no step.
pub proof fn lemma_consume(
    t: Seq<TokenView>,
    pos: nat,
    errors: Seq<ErrorView>,
    k: TokenKind,
    message: Seq<char>,
)
    ensures
        check(t, pos, k) ==> consume(t, pos, errors, k, message) == (Parsed {
            value: Ok::<TokenView, ErrorView>(t[pos as int]),
            used: 1,
            errors,
        }),
        !check(t, pos, k) ==> consume(t, pos, errors, k, message) == (Parsed {
            value: Err::<TokenView, ErrorView>(ErrorView::Parser(message, line_at(t, pos))),
            used: 0,
            errors: errors.push(ErrorView::Parser(message, line_at(t, pos))),
        }),
{
}

/// Fails at `pos` with `message`, recording the error.
pub open spec fn fail<T>(t: Seq<TokenView>, pos: nat, errors: Seq<ErrorView>, message: Seq<char>)
    -> Parsed<Result<T, ErrorView>> {
    let e = ErrorView::Parser(message, line_at(t, pos));
    Parsed { value: Err(e), used: 0, errors: errors.push(e) }
}

/// The message for a token that cannot start an expression.
#[verifier::opaque]
pub open spec fn unexpected_message(lexeme: Seq<char>) -> Seq<char> {
    "Unexpected token <"@ + lexeme + ">."@
}

/// The expression that is the value `v`.
pub open spec fn literal(v: ValueView) -> ExprResult {
    Ok(ExprView::Literal(v))
}

/// An expression: an assignment, the level that binds least.
#[verifier::opaque]
pub open spec fn expression(t: Seq<TokenView>, pos: nat, errors: Seq<ErrorView>) -> Parsed<
    ExprResult,
>
    decreases remaining(t, pos), 26nat,
{
    assignment(t, pos, errors)
}

/// `target = value`, right associative; the target must be a variable.
#[verifier::opaque]
pub open spec fn assignment(t: Seq<TokenView>, pos: nat, errors: Seq<ErrorView>) -> Parsed<
    ExprResult,
>
    decreases remaining(t, pos), 25nat,
{
    let l = logical(t, pos, errors, 0);
    let p1 = pos + l.used;
    if check(t, p1, TokenKind::Equal) {
        let v = assignment(t, p1 + 1, l.errors);
        let used = l.used + 1 + v.used;
        match l.value {
            Err(e) => Parsed { value: Err(e), used, errors: v.errors },
            Ok(ExprView::VarRead { name }) => Parsed {
                value: match v.value {
                    Ok(value) => Ok(ExprView::VarAssign { name, value: Box::new(value) }),
                    Err(e) => Err(e),
                },
                used,
                errors: v.errors,
            },
            Ok(_) => fail(t, pos + used, v.errors, "Invalid assignment target."@).shift(used),
        }
    } else {
        l
    }
}

/// Order of the logical levels among the grammar's functions.
pub open spec fn logical_rank(level: nat) -> nat {
    if level == 0 {
        24
    } else {
        22
    }
}

/// Order of the binary levels among the grammar's functions.
pub open spec fn binary_rank(level: nat) -> nat {
    if level == 0 {
        20
    } else if level == 1 {
        18
    } else if level == 2 {
        16
    } else {
        14
    }
}

/// The operator of the logical level: `or` at 0, `and` at 1.
pub open spec fn logical_operator(level: nat) -> TokenKind {
    if level == 0 {
        TokenKind::Or
    } else {
        TokenKind::And
    }
}

/// An operand of the logical `level`: the next tighter level.
#[verifier::opaque]
pub open spec fn logical_operand(t: Seq<TokenView>, pos: nat, errors: Seq<ErrorView>, level: nat)
    -> Parsed<ExprResult>
    decreases remaining(t, pos), logical_rank(level) - 1,
{
    if level == 0 {
        logical(t, pos, errors, 1)
    } else {
        binary(t, pos, errors, 0)
    }
}

/// A left-associative chain of `or` (level 0) or `and` (level 1).
#[verifier::opaque]
pub open spec fn logical(t: Seq<TokenView>, pos: nat, errors: Seq<ErrorView>, level: nat) -> Parsed<
    ExprResult,
>
    decreases remaining(t, pos), logical_rank(level),
{
    let l = logical_operand(t, pos, errors, level);
    logical_rest(t, pos + l.used, l.errors, level, l.value).shift(l.used)
}

/// Continues a chain of logical operators after its left operand `left`.
#[verifier::opaque]
pub open spec fn logical_rest(
    t: Seq<TokenView>,
    pos: nat,
    errors: Seq<ErrorView>,
    level: nat,
    left: ExprResult,
) -> Parsed<ExprResult>
    decreases remaining(t, pos), logical_rank(level) - 1,
{
    if check(t, pos, logical_operator(level)) {
        let r = logical_operand(t, pos + 1, errors, level);
        match (left, r.value) {
            (Err(e), _) => Parsed { value: Err(e), used: 1 + r.used, errors: r.errors },
            (Ok(_), Err(e)) => Parsed { value: Err(e), used: 1 + r.used, errors: r.errors },
            (Ok(l), Ok(rv)) => logical_rest(
                t,
                pos + 1 + r.used,
                r.errors,
                level,
                Ok(
                    ExprView::Logical {
                        left: Box::new(l),
                        token: t[pos as int].typ,
                        right: Box::new(rv),
                    },
                ),
            ).shift(1 + r.used),
        }
    } else {
        Parsed { value: left, used: 0, errors }
    }
}

/// The operators of each binary level: equality at 0, comparison at 1, term
/// at 2, factor at 3.
pub open spec fn binary_operator(level: nat, k: TokenKind) -> bool {
    if level == 0 {
        k is ExclamationEqual || k is EqualEqual
    } else if level == 1 {
        k is Greater || k is GreaterEqual || k is Less || k is LessEqual
    } else if level == 2 {
        k is Minus || k is Plus
    } else {
        k is Slash || k is Star
    }
}

/// An operand of the binary `level`: the next tighter level.
#[verifier::opaque]
pub open spec fn binary_operand(t: Seq<TokenView>, pos: nat, errors: Seq<ErrorView>, level: nat)
    -> Parsed<ExprResult>
    decreases remaining(t, pos), binary_rank(level) - 1,
{
    if level < 3 {
        binary(t, pos, errors, level + 1)
    } else {
        unary(t, pos, errors)
    }
}

/// A left-associative chain of the binary operators of `level`.
#[verifier::opaque]
pub open spec fn binary(t: Seq<TokenView>, pos: nat, errors: Seq<ErrorView>, level: nat) -> Parsed<
    ExprResult,
>
    decreases remaining(t, pos), binary_rank(level),
{
    let l = binary_operand(t, pos, errors, level);
    binary_rest(t, pos + l.used, l.errors, level, l.value).shift(l.used)
}

/// Continues a chain of binary operators after its left operand `left`.
#[verifier::opaque]
pub open spec fn binary_rest(
    t: Seq<TokenView>,
    pos: nat,
    errors: Seq<ErrorView>,
    level: nat,
    left: ExprResult,
) -> Parsed<ExprResult>
    decreases remaining(t, pos), binary_rank(level) - 1,
{
    if !at_end(t, pos) && binary_operator(level, t[pos as int].typ) {
        match left {
            Err(e) => Parsed { value: Err(e), used: 1, errors },
            Ok(l) => {
                let r = binary_operand(t, pos + 1, errors, level);
                match r.value {
                    Err(e) => Parsed { value: Err(e), used: 1 + r.used, errors: r.errors },
                    Ok(rv) => binary_rest(
                        t,
                        pos + 1 + r.used,
                        r.errors,
                        level,
                        Ok(
                            ExprView::Binary {
                                left: Box::new(l),
                                token: t[pos as int].typ,
                                right: Box::new(rv),
                            },
                        ),
                    ).shift(1 + r.used),
                }
            },
        }
    } else {
        Parsed { value: left, used: 0, errors }
    }
}

/// Prefix `!` and `-`, right recursive.
#[verifier::opaque]
pub open spec fn unary(t: Seq<TokenView>, pos: nat, errors: Seq<ErrorView>) -> Parsed<ExprResult>
    decreases remaining(t, pos), 12nat,
{
    if check(t, pos, TokenKind::Exclamation) || check(t, pos, TokenKind::Minus) {
        let r = unary(t, pos + 1, errors);
        Parsed {
            value: match r.value {
                Ok(v) => Ok(ExprView::Unary { token: t[pos as int].typ, right: Box::new(v) }),
                Err(e) => Err(e),
            },
            used: 1 + r.used,
            errors: r.errors,
        }
    } else {
        call(t, pos, errors)
    }
}

/// A primary followed by any number of argument lists.
#[verifier::opaque]
pub open spec fn call(t: Seq<TokenView>, pos: nat, errors: Seq<ErrorView>) -> Parsed<ExprResult>
    decreases remaining(t, pos), 11nat,
{
    let p = primary(t, pos, errors);
    call_rest(t, pos + p.used, p.errors, p.value).shift(p.used)
}

/// Every argument list that follows `callee`, applied in turn.
#[verifier::opaque]
pub open spec fn call_rest(t: Seq<TokenView>, pos: nat, errors: Seq<ErrorView>, callee: ExprResult)
    -> Parsed<ExprResult>
    decreases remaining(t, pos), 10nat,
{
    if check(t, pos, TokenKind::OpenParen) {
        match callee {
            Err(e) => Parsed { value: Err(e), used: 1, errors },
            Ok(c) => {
                let f = finish_call(t, pos + 1, errors, c);
                call_rest(t, pos + 1 + f.used, f.errors, f.value).shift(1 + f.used)
            },
        }
    } else {
        Parsed { value: callee, used: 0, errors }
    }
}

/// The argument list of a call whose `(` has been taken.
#[verifier::opaque]
pub open spec fn finish_call(t: Seq<TokenView>, pos: nat, errors: Seq<ErrorView>, callee: ExprView)
    -> Parsed<ExprResult>
    decreases remaining(t, pos), 41nat,
{
    if check(t, pos, TokenKind::CloseParen) {
        close_call(t, pos, errors, callee, Seq::empty())
    } else {
        arguments(t, pos, errors, callee, Seq::empty())
    }
}

/// Arguments separated by commas, after the arguments `done`.
#[verifier::opaque]
pub open spec fn arguments(
    t: Seq<TokenView>,
    pos: nat,
    errors: Seq<ErrorView>,
    callee: ExprView,
    done: Seq<ExprView>,
) -> Parsed<ExprResult>
    decreases remaining(t, pos), 40nat,
{
    if done.len() >= MAX_ARITY {
        fail(t, pos, errors, "Can't have more than 255 arguments."@)
    } else {
        let a = expression(t, pos, errors);
        match a.value {
            Err(e) => Parsed { value: Err(e), used: a.used, errors: a.errors },
            Ok(v) => {
                let p1 = pos + a.used;
                if check(t, p1, TokenKind::Comma) {
                    arguments(t, p1 + 1, a.errors, callee, done.push(v)).shift(a.used + 1)
                } else {
                    close_call(t, p1, a.errors, callee, done.push(v)).shift(a.used)
                }
            },
        }
    }
}

/// The `)` of a call and the call it completes.
pub open spec fn close_call(
    t: Seq<TokenView>,
    pos: nat,
    errors: Seq<ErrorView>,
    callee: ExprView,
    arguments: Seq<ExprView>,
) -> Parsed<ExprResult> {
    let c = consume(t, pos, errors, TokenKind::CloseParen, "Expect ')' after arguments."@);
    Parsed {
        value: match c.value {
            Ok(paren) => Ok(
                ExprView::FnCall { callee: Box::new(callee), paren: paren.typ, arguments },
            ),
            Err(e) => Err(e),
        },
        used: c.used,
        errors: c.errors,
    }
}

/// The expression that a single token is: a literal or a variable.
#[verifier::opaque]
pub open spec fn atom(token: TokenView) -> Option<ExprView> {
    match token.typ {
        TokenKind::True => Some(ExprView::Literal(ValueView::Boolean(true))),
        TokenKind::False => Some(ExprView::Literal(ValueView::Boolean(false))),
        TokenKind::Nil => Some(ExprView::Literal(ValueView::Nil)),
        TokenKind::Number(n) => Some(ExprView::Literal(ValueView::Number(n))),
        TokenKind::String(s) => Some(ExprView::Literal(ValueView::String(s))),
        TokenKind::Identifier => Some(ExprView::VarRead { name: token.lexeme }),
        _ => None,
    }
}

/// One token: a literal, a variable, or `(` with the expression it opens.
/// A group whose `)` is missing records the error and is still a group.
#[verifier::opaque]
pub open spec fn primary(t: Seq<TokenView>, pos: nat, errors: Seq<ErrorView>) -> Parsed<ExprResult>
    decreases remaining(t, pos), 9nat,
{
    if at_end(t, pos) {
        fail(t, pos, errors, unexpected_message(lexeme_at(t, pos)))
    } else if atom(t[pos as int]) is Some {
        Parsed { value: Ok(atom(t[pos as int])->0), used: 1, errors }
    } else if t[pos as int].typ is OpenParen {
        let inner = expression(t, pos + 1, errors);
        let c = consume(
            t,
            pos + 1 + inner.used,
            inner.errors,
            TokenKind::CloseParen,
            "Expect closing: ')' after expression."@,
        );
        Parsed {
            value: match inner.value {
                Ok(v) => Ok(ExprView::Grouping { expr: Box::new(v) }),
                Err(e) => Err(e),
            },
            used: 1 + inner.used + c.used,
            errors: c.errors,
        }
    } else {
        fail(t, pos + 1, errors, unexpected_message(t[pos as int].lexeme)).shift(1)
    }
}

/// A `for` loop written with `while`: the increment follows the body inside
/// a block, and the initializer precedes the loop inside an enclosing block.
/// A missing condition is `true`.
#[verifier::opaque]
pub open spec fn desugar_for(
    initializer: Option<StatementView>,
    condition: Option<ExprView>,
    increment: Option<ExprView>,
    body: StatementResult,
) -> StatementResult {
    let inner: StatementResult = match increment {
        Some(i) => Ok(StatementView::BlockSt(seq![body, Ok(StatementView::ExprSt(i))])),
        None => body,
    };
    let condition = match condition {
        Some(c) => c,
        None => ExprView::Literal(ValueView::Boolean(true)),
    };
    match inner {
        Err(e) => Err(e),
        Ok(b) => {
            let looped = StatementView::While { condition, body: Box::new(b) };
            match initializer {
                Some(i) => Ok(StatementView::BlockSt(seq![Ok(i), Ok(looped)])),
                None => Ok(looped),
            }
        },
    }
}

/// A function, a variable, or a statement.
#[verifier::opaque]
pub open spec fn declaration(t: Seq<TokenView>, pos: nat, errors: Seq<ErrorView>) -> Parsed<
    StatementResult,
>
    decreases remaining(t, pos), 33nat,
{
    if check(t, pos, TokenKind::Fun) {
        function(t, pos + 1, errors).shift(1)
    } else if check(t, pos, TokenKind::Var) {
        var_declaration(t, pos + 1, errors).shift(1)
    } else {
        statement(t, pos, errors)
    }
}

/// `var name;` or `var name = initializer;`, after `var`.
#[verifier::opaque]
pub open spec fn var_declaration(t: Seq<TokenView>, pos: nat, errors: Seq<ErrorView>) -> Parsed<
    StatementResult,
>
    decreases remaining(t, pos), 31nat,
{
    let n = consume(t, pos, errors, TokenKind::Identifier, "Expected variable name after var"@);
    match n.value {
        Err(e) => Parsed { value: Err(e), used: 0, errors: n.errors },
        Ok(name) => {
            let init: Parsed<ExprResult> = if check(t, pos + 1, TokenKind::Equal) {
                expression(t, pos + 2, errors).shift(2)
            } else {
                Parsed { value: literal(ValueView::Nil), used: 1, errors }
            };
            match init.value {
                Err(e) => Parsed { value: Err(e), used: init.used, errors: init.errors },
                Ok(initializer) => {
                    let c = consume(
                        t,
                        pos + init.used,
                        init.errors,
                        TokenKind::Semicolon,
                        "Expect ';' after variable declaration"@,
                    );
                    Parsed {
                        value: match c.value {
                            Ok(_) => Ok(StatementView::VariableSt(name.lexeme, initializer)),
                            Err(e) => Err(e),
                        },
                        used: init.used + c.used,
                        errors: c.errors,
                    }
                },
            }
        },
    }
}

/// A statement, told by its first token; an expression statement otherwise.
#[verifier::opaque]
pub open spec fn statement(t: Seq<TokenView>, pos: nat, errors: Seq<ErrorView>) -> Parsed<
    StatementResult,
>
    decreases remaining(t, pos), 32nat,
{
    if check(t, pos, TokenKind::For) {
        for_statement(t, pos + 1, errors).shift(1)
    } else if check(t, pos, TokenKind::If) {
        if_statement(t, pos + 1, errors).shift(1)
    } else if check(t, pos, TokenKind::Print) {
        print_statement(t, pos + 1, errors).shift(1)
    } else if check(t, pos, TokenKind::Return) {
        return_statement(t, pos + 1, errors).shift(1)
    } else if check(t, pos, TokenKind::While) {
        while_statement(t, pos + 1, errors).shift(1)
    } else if check(t, pos, TokenKind::OpenBrace) {
        let b = block(t, pos + 1, errors, Seq::empty());
        Parsed { value: Ok(StatementView::BlockSt(b.value)), used: b.used + 1, errors: b.errors }
    } else {
        expression_statement(t, pos, errors)
    }
}

/// An expression and the `;` that ends it: a print statement if `print`,
/// else an expression statement.
#[verifier::opaque]
pub open spec fn ended_by_semicolon(
    t: Seq<TokenView>,
    pos: nat,
    errors: Seq<ErrorView>,
    print: bool,
) -> Parsed<StatementResult>
    decreases remaining(t, pos), 29nat,
{
    let e = expression(t, pos, errors);
    match e.value {
        Err(x) => Parsed { value: Err(x), used: e.used, errors: e.errors },
        Ok(v) => {
            let c = consume(
                t,
                pos + e.used,
                e.errors,
                TokenKind::Semicolon,
                "Expected ; after value."@,
            );
            Parsed {
                value: match c.value {
                    Ok(_) => Ok(
                        if print {
                            StatementView::PrintSt(v)
                        } else {
                            StatementView::ExprSt(v)
                        },
                    ),
                    Err(x) => Err(x),
                },
                used: e.used + c.used,
                errors: c.errors,
            }
        },
    }
}

/// An expression and its `;`.
#[verifier::opaque]
pub open spec fn expression_statement(t: Seq<TokenView>, pos: nat, errors: Seq<ErrorView>)
    -> Parsed<StatementResult>
    decreases remaining(t, pos), 30nat,
{
    ended_by_semicolon(t, pos, errors, false)
}

/// The expression to print and its `;`, after `print`.
#[verifier::opaque]
pub open spec fn print_statement(t: Seq<TokenView>, pos: nat, errors: Seq<ErrorView>) -> Parsed<
    StatementResult,
>
    decreases remaining(t, pos), 30nat,
{
    ended_by_semicolon(t, pos, errors, true)
}

/// `return;` or `return value;`, after `return`. A missing `;` is recorded
/// and the statement stands.
#[verifier::opaque]
pub open spec fn return_statement(t: Seq<TokenView>, pos: nat, errors: Seq<ErrorView>) -> Parsed<
    StatementResult,
>
    decreases remaining(t, pos), 31nat,
{
    let keyword = if pos >= 1 {
        lexeme_at(t, (pos - 1) as nat)
    } else {
        Seq::empty()
    };
    let v: Parsed<ExprResult> = if !check(t, pos, TokenKind::Semicolon) {
        expression(t, pos, errors)
    } else {
        Parsed { value: literal(ValueView::Nil), used: 0, errors }
    };
    match v.value {
        Err(e) => Parsed { value: Err(e), used: v.used, errors: v.errors },
        Ok(value) => {
            let c = consume(
                t,
                pos + v.used,
                v.errors,
                TokenKind::Semicolon,
                "Expect ';' after return value."@,
            );
            Parsed {
                value: Ok(StatementView::ReturnSt { keyword, value }),
                used: v.used + c.used,
                errors: c.errors,
            }
        },
    }
}

/// `( condition ) body`, after `while`.
#[verifier::opaque]
pub open spec fn while_statement(t: Seq<TokenView>, pos: nat, errors: Seq<ErrorView>) -> Parsed<
    StatementResult,
>
    decreases remaining(t, pos), 36nat,
{
    let h = condition(t, pos, errors, "Expect '(' after 'while'."@, "Expect ')' after while-condition."@);
    match h.value {
        Err(e) => Parsed { value: Err(e), used: h.used, errors: h.errors },
        Ok(condition) => {
            let b = statement(t, pos + h.used, h.errors);
            Parsed {
                value: match b.value {
                    Ok(body) => Ok(StatementView::While { condition, body: Box::new(body) }),
                    Err(e) => Err(e),
                },
                used: h.used + b.used,
                errors: b.errors,
            }
        },
    }
}

/// An expression between `(` and `)`, with the message for each if missing.
#[verifier::opaque]
pub open spec fn condition(
    t: Seq<TokenView>,
    pos: nat,
    errors: Seq<ErrorView>,
    open: Seq<char>,
    close: Seq<char>,
) -> Parsed<ExprResult>
    decreases remaining(t, pos), 30nat,
{
    let o = consume(t, pos, errors, TokenKind::OpenParen, open);
    match o.value {
        Err(e) => Parsed { value: Err(e), used: 0, errors: o.errors },
        Ok(_) => {
            let e = expression(t, pos + 1, errors);
            match e.value {
                Err(x) => Parsed { value: Err(x), used: 1 + e.used, errors: e.errors },
                Ok(v) => {
                    let c = consume(t, pos + 1 + e.used, e.errors, TokenKind::CloseParen, close);
                    Parsed {
                        value: match c.value {
                            Ok(_) => Ok(v),
                            Err(x) => Err(x),
                        },
                        used: 1 + e.used + c.used,
                        errors: c.errors,
                    }
                },
            }
        },
    }
}

/// `( condition ) then` with an optional `else other`, after `if`.
#[verifier::opaque]
pub open spec fn if_statement(t: Seq<TokenView>, pos: nat, errors: Seq<ErrorView>) -> Parsed<
    StatementResult,
>
    decreases remaining(t, pos), 36nat,
{
    let h = condition(t, pos, errors, "Expect '(' after 'if'."@, "Expect ')' after 'if' condition."@);
    match h.value {
        Err(e) => Parsed { value: Err(e), used: h.used, errors: h.errors },
        Ok(condition) => {
            let b = statement(t, pos + h.used, h.errors);
            match b.value {
                Err(e) => Parsed { value: Err(e), used: h.used + b.used, errors: b.errors },
                Ok(then_) => {
                    let p = pos + h.used + b.used;
                    if check(t, p, TokenKind::Else) {
                        let o = statement(t, p + 1, b.errors);
                        Parsed {
                            value: match o.value {
                                Ok(other) => Ok(
                                    StatementView::IfSt {
                                        condition,
                                        then_: Box::new(then_),
                                        else_: Some(Box::new(other)),
                                    },
                                ),
                                Err(e) => Err(e),
                            },
                            used: h.used + b.used + 1 + o.used,
                            errors: o.errors,
                        }
                    } else {
                        Parsed {
                            value: Ok(
                                StatementView::IfSt {
                                    condition,
                                    then_: Box::new(then_),
                                    else_: None,
                                },
                            ),
                            used: h.used + b.used,
                            errors: b.errors,
                        }
                    }
                },
            }
        },
    }
}

/// The first clause of a `for`: `;`, a `var` declaration or an expression
/// statement.
#[verifier::opaque]
pub open spec fn for_initializer(t: Seq<TokenView>, pos: nat, errors: Seq<ErrorView>) -> Parsed<
    Result<Option<StatementView>, ErrorView>,
>
    decreases remaining(t, pos), 31nat,
{
    if check(t, pos, TokenKind::Semicolon) {
        Parsed { value: Ok(None), used: 1, errors }
    } else {
        let s = if check(t, pos, TokenKind::Var) {
            var_declaration(t, pos + 1, errors).shift(1)
        } else {
            expression_statement(t, pos, errors)
        };
        Parsed {
            value: match s.value {
                Ok(v) => Ok(Some(v)),
                Err(e) => Err(e),
            },
            used: s.used,
            errors: s.errors,
        }
    }
}

/// An optional expression that the token `closing` ends, then that token.
#[verifier::opaque]
pub open spec fn for_clause(
    t: Seq<TokenView>,
    pos: nat,
    errors: Seq<ErrorView>,
    closing: TokenKind,
    message: Seq<char>,
) -> Parsed<Result<Option<ExprView>, ErrorView>>
    decreases remaining(t, pos), 30nat,
{
    if check(t, pos, closing) {
        Parsed { value: Ok(None), used: 1, errors }
    } else {
        let e = expression(t, pos, errors);
        match e.value {
            Err(x) => Parsed { value: Err(x), used: e.used, errors: e.errors },
            Ok(v) => {
                let c = consume(t, pos + e.used, e.errors, closing, message);
                Parsed {
                    value: match c.value {
                        Ok(_) => Ok(Some(v)),
                        Err(x) => Err(x),
                    },
                    used: e.used + c.used,
                    errors: c.errors,
                }
            },
        }
    }
}

/// `( initializer condition ; increment ) body`, after `for`; see
/// [`desugar_for`].
#[verifier::opaque]
pub open spec fn for_statement(t: Seq<TokenView>, pos: nat, errors: Seq<ErrorView>) -> Parsed<
    StatementResult,
>
    decreases remaining(t, pos), 32nat,
{
    let o = consume(t, pos, errors, TokenKind::OpenParen, "Expect '(' after 'for'."@);
    match o.value {
        Err(e) => Parsed { value: Err(e), used: 0, errors: o.errors },
        Ok(_) => {
            let i = for_initializer(t, pos + 1, errors);
            match i.value {
                Err(e) => Parsed { value: Err(e), used: 1 + i.used, errors: i.errors },
                Ok(initializer) => {
                    let p2 = pos + 1 + i.used;
                    let c = for_clause(
                        t,
                        p2,
                        i.errors,
                        TokenKind::Semicolon,
                        "Expect ';' after for-loop condition."@,
                    );
                    match c.value {
                        Err(e) => Parsed { value: Err(e), used: 1 + i.used + c.used, errors: c.errors },
                        Ok(condition) => {
                            let p3 = p2 + c.used;
                            let n = for_clause(
                                t,
                                p3,
                                c.errors,
                                TokenKind::CloseParen,
                                "Expect ')' after for-loop clauses."@,
                            );
                            match n.value {
                                Err(e) => Parsed {
                                    value: Err(e),
                                    used: 1 + i.used + c.used + n.used,
                                    errors: n.errors,
                                },
                                Ok(increment) => {
                                    let b = statement(t, p3 + n.used, n.errors);
                                    Parsed {
                                        value: desugar_for(
                                            initializer,
                                            condition,
                                            increment,
                                            b.value,
                                        ),
                                        used: 1 + i.used + c.used + n.used + b.used,
                                        errors: b.errors,
                                    }
                                },
                            }
                        },
                    }
                },
            }
        },
    }
}

/// `name ( parameters ) { body }`, after `fun`. A missing `(`, `)` or `{` is
/// recorded and parsing goes on.
#[verifier::opaque]
pub open spec fn function(t: Seq<TokenView>, pos: nat, errors: Seq<ErrorView>) -> Parsed<
    StatementResult,
>
    decreases remaining(t, pos), 31nat,
{
    let n = consume(t, pos, errors, TokenKind::Identifier, "Expect function/method name."@);
    match n.value {
        Err(e) => Parsed { value: Err(e), used: 0, errors: n.errors },
        Ok(name) => {
            let o = consume(
                t,
                pos + 1,
                errors,
                TokenKind::OpenParen,
                "Expect '(' after function/method name."@,
            );
            let p1 = pos + 1 + o.used;
            let ps: Parsed<Result<Seq<Seq<char>>, ErrorView>> = if check(
                t,
                p1,
                TokenKind::CloseParen,
            ) {
                Parsed { value: Ok(Seq::empty()), used: 0, errors: o.errors }
            } else {
                parameters(t, p1, o.errors, Seq::empty())
            };
            match ps.value {
                Err(e) => Parsed { value: Err(e), used: 1 + o.used + ps.used, errors: ps.errors },
                Ok(params) => {
                    let p2 = p1 + ps.used;
                    let c = consume(
                        t,
                        p2,
                        ps.errors,
                        TokenKind::CloseParen,
                        "Expect ')' after parameters."@,
                    );
                    let b = consume(
                        t,
                        p2 + c.used,
                        c.errors,
                        TokenKind::OpenBrace,
                        "Expect '{' before function/method body."@,
                    );
                    let body = block(t, p2 + c.used + b.used, b.errors, Seq::empty());
                    Parsed {
                        value: Ok(
                            StatementView::FunctionSt(
                                FunctionStatementView {
                                    name: name.lexeme,
                                    params,
                                    body: body.value,
                                },
                            ),
                        ),
                        used: 1 + o.used + ps.used + c.used + b.used + body.used,
                        errors: body.errors,
                    }
                },
            }
        },
    }
}

/// Parameter names separated by commas, after the names `done`.
#[verifier::opaque]
pub open spec fn parameters(
    t: Seq<TokenView>,
    pos: nat,
    errors: Seq<ErrorView>,
    done: Seq<Seq<char>>,
) -> Parsed<Result<Seq<Seq<char>>, ErrorView>>
    decreases remaining(t, pos),
{
    if done.len() >= MAX_ARITY {
        fail(t, pos, errors, "Can't have more than 255 parameters."@)
    } else {
        let n = consume(t, pos, errors, TokenKind::Identifier, "Expect parameter name."@);
        match n.value {
            Err(e) => Parsed { value: Err(e), used: 0, errors: n.errors },
            Ok(name) => {
                if check(t, pos + 1, TokenKind::Comma) {
                    parameters(t, pos + 2, errors, done.push(name.lexeme)).shift(2)
                } else {
                    Parsed { value: Ok(done.push(name.lexeme)), used: 1, errors }
                }
            },
        }
    }
}

/// Declarations up to `}`, after the items `done`. A missing `}` is recorded
/// and stands as the last item.
#[verifier::opaque]
pub open spec fn block(
    t: Seq<TokenView>,
    pos: nat,
    errors: Seq<ErrorView>,
    done: Seq<StatementResult>,
) -> Parsed<Seq<StatementResult>>
    decreases remaining(t, pos), 34nat,
{
    if !check(t, pos, TokenKind::CloseBrace) && !at_end(t, pos) {
        let d = declaration(t, pos, errors);
        let step = if d.used == 0 {
            1
        } else {
            d.used
        };
        block(t, pos + step, d.errors, done.push(d.value)).shift(step)
    } else {
        let c = consume(t, pos, errors, TokenKind::CloseBrace, "Expect '}' after block."@);
        Parsed {
            value: match c.value {
                Ok(_) => done,
                Err(e) => done.push(Err(e)),
            },
            used: c.used,
            errors: c.errors,
        }
    }
}

/// Declarations up to the end of input, after the items `done`.
#[verifier::opaque]
pub open spec fn program(
    t: Seq<TokenView>,
    pos: nat,
    errors: Seq<ErrorView>,
    done: Seq<StatementResult>,
) -> Parsed<Seq<StatementResult>>
    decreases remaining(t, pos), 35nat,
{
    if !at_end(t, pos) {
        let d = declaration(t, pos, errors);
        let step = if d.used == 0 {
            1
        } else {
            d.used
        };
        program(t, pos + step, d.errors, done.push(d.value)).shift(step)
    } else {
        Parsed { value: done, used: 0, errors }
    }
}

} // verus!
