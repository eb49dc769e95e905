//! The parser's position in the token sequence and its list of errors.
//!
//! The rules of the grammar are written against this interface alone: what
//! they know of the tokens is what these functions state.
use vstd::prelude::*;
use vstd::string::StringExecFns;
use crate::expressions::Expr;
use crate::grammar;
use crate::grammar::{ExprResult, Parsed};
use crate::statements::names_view;
use crate::types::{
    errors_view, lemma_tokens_index, no_errors, push_error, tokens_view, Error, ErrorView, Token,
    TokenKind, TokenType, TokenView,
};

verus! {

/// A token sequence the parser accepts: it ends with the end-of-input token.
pub open spec fn terminated(tokens: Seq<Token>) -> bool {
    tokens.len() > 0 && tokens.last().typ@ is EOF
}

/// The model of an expression that was parsed, or of the error in its place.
pub open spec fn expr_result(r: Result<Expr, Error>) -> ExprResult {
    match r {
        Ok(e) => Ok(e@),
        Err(e) => Err(e@),
    }
}

/// The model of a token that was taken, or of the error in its place.
pub open spec fn token_result(r: Result<Token, Error>) -> Result<TokenView, ErrorView> {
    match r {
        Ok(t) => Ok(t@),
        Err(e) => Err(e@),
    }
}

/// The model of the names that were parsed, or of the error in their place.
pub open spec fn names_result(r: Result<Vec<String>, Error>) -> Result<Seq<Seq<char>>, ErrorView> {
    match r {
        Ok(n) => Ok(names_view(n@)),
        Err(e) => Err(e@),
    }
}

/// The model of an optional statement that was parsed, or of the error in its
/// place.
pub open spec fn option_statement(r: Result<Option<crate::statements::Statement>, Error>) -> Result<
    Option<crate::statements::StatementView>,
    ErrorView,
> {
    match r {
        Ok(Some(s)) => Ok(Some(s@)),
        Ok(None) => Ok(None),
        Err(e) => Err(e@),
    }
}

/// The model of an optional expression that was parsed, or of the error in its
/// place.
pub open spec fn option_expr(r: Result<Option<Expr>, Error>) -> Result<
    Option<crate::expressions::ExprView>,
    ErrorView,
> {
    match r {
        Ok(Some(s)) => Ok(Some(s@)),
        Ok(None) => Ok(None),
        Err(e) => Err(e@),
    }
}

/// The number that tells token types apart, computed.
pub fn tag(t: &TokenType) -> (r: u8)
    ensures
        r as int == grammar::kind_tag(t@),
{
    reveal(grammar::kind_tag);
    match t {
        TokenType::OpenParen => 0,
        TokenType::CloseParen => 1,
        TokenType::OpenBrace => 2,
        TokenType::CloseBrace => 3,
        TokenType::Comma => 4,
        TokenType::Dot => 5,
        TokenType::Minus => 6,
        TokenType::Plus => 7,
        TokenType::Semicolon => 8,
        TokenType::Slash => 9,
        TokenType::Star => 10,
        TokenType::Exclamation => 11,
        TokenType::ExclamationEqual => 12,
        TokenType::Equal => 13,
        TokenType::EqualEqual => 14,
        TokenType::Greater => 15,
        TokenType::GreaterEqual => 16,
        TokenType::Less => 17,
        TokenType::LessEqual => 18,
        TokenType::Identifier => 19,
        TokenType::String(_) => 20,
        TokenType::Number(_) => 21,
        TokenType::And => 22,
        TokenType::Class => 23,
        TokenType::Else => 24,
        TokenType::False => 25,
        TokenType::Fun => 26,
        TokenType::For => 27,
        TokenType::If => 28,
        TokenType::Nil => 29,
        TokenType::Or => 30,
        TokenType::Print => 31,
        TokenType::Return => 32,
        TokenType::Super => 33,
        TokenType::This => 34,
        TokenType::True => 35,
        TokenType::Var => 36,
        TokenType::While => 37,
        TokenType::EOF => 38,
    }
}

pub(crate) struct Parser<'a> {
    /// All tokens of the program.
    tokens: &'a Vec<Token>,
    /// Index of the token that is parsed next.
    current: usize,
    errors: Vec<Error>,
}

impl<'a> Parser<'a> {
    /// The tokens being parsed.
    pub closed spec fn toks(&self) -> Seq<TokenView> {
        tokens_view(self.tokens@)
    }

    /// The errors recorded so far, oldest first.
    pub closed spec fn errs(&self) -> Seq<ErrorView> {
        errors_view(self.errors@)
    }

    /// Index of the token that is parsed next.
    pub closed spec fn pos(&self) -> nat {
        self.current as nat
    }

    /// The tokens end with the end of input.
    pub closed spec fn valid(&self) -> bool {
        terminated(self.tokens@)
    }

    /// The parser stands on a token of a valid sequence.
    pub open spec fn ready(&self) -> bool {
        self.valid() && self.pos() < self.toks().len()
    }

    /// Tokens from the current one on.
    pub open spec fn left(&self) -> nat {
        (self.toks().len() - self.pos()) as nat
    }

    /// `self` is the state after parsing `p` from the state `before`, and
    /// `value` is what was parsed.
    pub open spec fn done<T>(&self, before: &Self, value: T, p: Parsed<T>) -> bool {
        &&& self.moved(before, p.used)
        &&& self.errs() == p.errors
        &&& value == p.value
    }

    /// `self` is `before` moved on by `used` tokens, whatever the errors.
    pub open spec fn moved(&self, before: &Self, used: nat) -> bool {
        &&& self.ready()
        &&& self.toks() == before.toks()
        &&& self.pos() == before.pos() + used
    }

    /// A parser at the first of `tokens`, with no errors yet.
    pub fn new(tokens: &'a Vec<Token>) -> (p: Self)
        requires
            terminated(tokens@),
        ensures
            p.ready(),
            p.toks() == tokens_view(tokens@),
            p.pos() == 0,
            p.errs() == Seq::<ErrorView>::empty(),
    {
        proof {
            lemma_tokens_index(tokens@, 0);
        }
        Parser { tokens, current: 0, errors: no_errors() }
    }

    /// The errors recorded while parsing.
    pub fn into_errors(self) -> (errors: Vec<Error>)
        ensures
            errors_view(errors@) == self.errs(),
    {
        self.errors
    }

    /// The current token.
    pub fn peek(&self) -> (t: &'a Token)
        requires
            self.ready(),
        ensures
            t@ == self.toks()[self.pos() as int],
            t.lexeme@ == grammar::lexeme_at(self.toks(), self.pos()),
    {
        proof {
            grammar::lemma_token(self.toks(), self.pos(), TokenKind::EOF);
            lemma_tokens_index(self.tokens@, self.pos() as int);
        }
        &self.tokens[self.current]
    }

    /// The lexeme of the token before the current one, if there is one.
    pub fn previous_lexeme(&self) -> (s: String)
        requires
            self.ready(),
        ensures
            s@ == if self.pos() >= 1 {
                grammar::lexeme_at(self.toks(), (self.pos() - 1) as nat)
            } else {
                Seq::empty()
            },
    {
        if self.current >= 1 {
            proof {
                grammar::lemma_token(self.toks(), (self.pos() - 1) as nat, TokenKind::EOF);
                lemma_tokens_index(self.tokens@, self.pos() - 1);
            }
            self.tokens[self.current - 1].lexeme.clone()
        } else {
            String::new()
        }
    }

    /// Whether the current token is the end of input.
    pub fn is_at_end(&self) -> (b: bool)
        requires
            self.ready(),
        ensures
            b == grammar::at_end(self.toks(), self.pos()),
            !b ==> self.pos() + 1 < self.toks().len(),
    {
        proof {
            grammar::lemma_token(self.toks(), self.pos(), TokenKind::EOF);
            lemma_tokens_index(self.tokens@, self.pos() as int);
        }
        match &self.tokens[self.current].typ {
            TokenType::EOF => true,
            _ => false,
        }
    }

    /// Moves past the current token unless it is the end of input.
    pub fn advance(&mut self)
        requires
            old(self).ready(),
        ensures
            final(self).moved(
                old(self),
                if grammar::at_end(old(self).toks(), old(self).pos()) {
                    0
                } else {
                    1
                },
            ),
            final(self).errs() == old(self).errs(),
    {
        let n = self.tokens.len();
        proof {
            lemma_tokens_index(self.tokens@, self.pos() as int);
        }
        if !self.is_at_end() {
            assert(self.current < n);
            self.current += 1;
        }
    }

    /// Whether the current token has the type of `typ`; consumes nothing.
    pub fn check(&self, typ: &TokenType) -> (b: bool)
        requires
            self.ready(),
        ensures
            b == grammar::check(self.toks(), self.pos(), typ@),
            b ==> !grammar::at_end(self.toks(), self.pos()),
    {
        proof {
            grammar::lemma_token(self.toks(), self.pos(), typ@);
            lemma_tokens_index(self.tokens@, self.pos() as int);
        }
        if self.is_at_end() {
            return false;
        }
        tag(&self.tokens[self.current].typ) == tag(typ)
    }

    /// Consumes the current token if it has the type of `typ`.
    pub fn expect(&mut self, typ: &TokenType) -> (b: bool)
        requires
            old(self).ready(),
        ensures
            b == grammar::check(old(self).toks(), old(self).pos(), typ@),
            b ==> !grammar::at_end(old(self).toks(), old(self).pos()),
            final(self).moved(
                old(self),
                if b {
                    1
                } else {
                    0
                },
            ),
            final(self).errs() == old(self).errs(),
    {
        if self.check(typ) {
            self.advance();
            true
        } else {
            false
        }
    }

    /// Records an error with `message` at the line of the current token.
    pub fn error_expr(&mut self, message: String) -> (e: Error)
        requires
            old(self).ready(),
        ensures
            final(self).moved(old(self), 0),
            e@ == ErrorView::Parser(message@, grammar::line_at(old(self).toks(), old(self).pos())),
            final(self).errs() == old(self).errs().push(e@),
    {
        proof {
            grammar::lemma_token(self.toks(), self.pos(), TokenKind::EOF);
            lemma_tokens_index(self.tokens@, self.pos() as int);
        }
        let line = self.tokens[self.current].line;
        let e = Error::Parser(message.clone(), line);
        push_error(&mut self.errors, Error::Parser(message, line));
        e
    }

    /// Takes the current token if it has the type of `typ`; else records an
    /// error with `message`.
    pub fn consume(&mut self, typ: &TokenType, message: &str) -> (r: Result<Token, Error>)
        requires
            old(self).ready(),
        ensures
            final(self).done(
                old(self),
                token_result(r),
                grammar::consume(old(self).toks(), old(self).pos(), old(self).errs(), typ@, message@),
            ),
            r is Ok ==> final(self).pos() == old(self).pos() + 1 && final(self).errs() == old(
                self,
            ).errs(),
            r is Err ==> final(self).pos() == old(self).pos(),
    {
        proof {
            grammar::lemma_consume(
                self.toks(),
                self.pos(),
                self.errs(),
                typ@,
                message@,
            );
        }
        proof {
            lemma_tokens_index(self.tokens@, self.pos() as int);
        }
        if self.check(typ) {
            let token = self.tokens[self.current].duplicate();
            self.advance();
            Ok(token)
        } else {
            Err(self.error_expr(String::from_str(message)))
        }
    }
}

} // verus!
