//! The rules for expressions, from assignment down to primary.
use vstd::prelude::*;
use vstd::string::StringExecFns;
use crate::cursor::{expr_result, Parser};
use crate::expressions::{
    call_expr, exprs_view, lemma_exprs_len, no_exprs, push_expr, BinaryExpr, Expr, GroupingExpr,
    LogicalExpr, UnaryExpr, Value, VarAssignExpr, VarReadExpr,
};
use crate::grammar;
use crate::types::{Error, Token, TokenType};

verus! {

fn unexpected(lexeme: &str) -> (m: String)
    ensures
        m@ == grammar::unexpected_message(lexeme@),
{
    reveal(grammar::unexpected_message);
    let mut m = String::from_str("Unexpected token <");
    m.append(lexeme);
    m.append(">.");
    m
}

/// The expression that a single token is, if it is a literal or a variable.
pub fn atom(token: &Token) -> (r: Option<Expr>)
    ensures
        match r {
            Some(e) => grammar::atom(token@) == Some(e@),
            None => grammar::atom(token@) is None,
        },
{
    reveal(grammar::atom);
    match &token.typ {
        TokenType::True => Some(Expr::Literal(Value::Boolean(true))),
        TokenType::False => Some(Expr::Literal(Value::Boolean(false))),
        TokenType::Nil => Some(Expr::Literal(Value::Nil)),
        TokenType::Number(n) => Some(Expr::Literal(Value::Number(*n))),
        TokenType::String(s) => Some(Expr::Literal(Value::String(s.clone()))),
        TokenType::Identifier => Some(Expr::VarRead(VarReadExpr { name: token.lexeme.clone() })),
        _ => None,
    }
}

impl<'a> Parser<'a> {
    pub(crate) fn expression(&mut self) -> (r: Result<Expr, Error>)
        requires
            old(self).ready(),
        ensures
            final(self).done(
                old(self),
                expr_result(r),
                grammar::expression(old(self).toks(), old(self).pos(), old(self).errs()),
            ),
            !grammar::at_end(old(self).toks(), old(self).pos()) ==> final(self).pos() > old(
                self,
            ).pos(),
        decreases old(self).left(), 26nat,
    {
        reveal(grammar::expression);
        reveal(grammar::assignment);
        self.assignment()
    }

    pub(crate) fn assignment(&mut self) -> (r: Result<Expr, Error>)
        requires
            old(self).ready(),
        ensures
            final(self).done(
                old(self),
                expr_result(r),
                grammar::assignment(old(self).toks(), old(self).pos(), old(self).errs()),
            ),
            !grammar::at_end(old(self).toks(), old(self).pos()) ==> final(self).pos() > old(
                self,
            ).pos(),
        decreases old(self).left(), 25nat,
    {
        reveal(grammar::assignment);
        reveal(grammar::logical);
        let expr = self.logical_or();
        if self.expect(&TokenType::Equal) {
            let value = self.assignment();
            return match expr {
                Err(e) => Err(e),
                Ok(Expr::VarRead(var)) => match value {
                    Ok(v) => Ok(Expr::VarAssign(VarAssignExpr::new(var.name, v))),
                    Err(e) => Err(e),
                },
                Ok(_) => Err(self.error_expr(String::from_str("Invalid assignment target."))),
            };
        }
        expr
    }

    pub(crate) fn logical_or(&mut self) -> (r: Result<Expr, Error>)
        requires
            old(self).ready(),
        ensures
            final(self).done(
                old(self),
                expr_result(r),
                grammar::logical(old(self).toks(), old(self).pos(), old(self).errs(), 0),
            ),
            !grammar::at_end(old(self).toks(), old(self).pos()) ==> final(self).pos() > old(
                self,
            ).pos(),
        decreases old(self).left(), 24nat,
    {
        reveal(grammar::logical);
        reveal(grammar::logical_operand);
        reveal(grammar::logical_rest);
        let left = self.logical_operand(0);
        self.logical_rest(0, left)
    }

    pub(crate) fn logical_and(&mut self) -> (r: Result<Expr, Error>)
        requires
            old(self).ready(),
        ensures
            final(self).done(
                old(self),
                expr_result(r),
                grammar::logical(old(self).toks(), old(self).pos(), old(self).errs(), 1),
            ),
            !grammar::at_end(old(self).toks(), old(self).pos()) ==> final(self).pos() > old(
                self,
            ).pos(),
        decreases old(self).left(), 22nat,
    {
        reveal(grammar::logical);
        reveal(grammar::logical_operand);
        reveal(grammar::logical_rest);
        let left = self.logical_operand(1);
        self.logical_rest(1, left)
    }

    /// Parses an operand of the logical `level`: the next tighter level.
    pub(crate) fn logical_operand(&mut self, level: u8) -> (r: Result<Expr, Error>)
        requires
            old(self).ready(),
            level <= 1,
        ensures
            final(self).done(
                old(self),
                expr_result(r),
                grammar::logical_operand(
                    old(self).toks(),
                    old(self).pos(),
                    old(self).errs(),
                    level as nat,
                ),
            ),
            !grammar::at_end(old(self).toks(), old(self).pos()) ==> final(self).pos() > old(
                self,
            ).pos(),
        decreases old(self).left(), grammar::logical_rank(level as nat) - 1,
    {
        reveal(grammar::logical_operand);
        reveal(grammar::logical);
        reveal(grammar::binary);
        if level == 0 {
            self.logical_and()
        } else {
            self.equality()
        }
    }

    /// Continues a chain of `or` (level 0) or `and` (level 1) after `left`.
    pub(crate) fn logical_rest(&mut self, level: u8, left: Result<Expr, Error>) -> (r: Result<Expr, Error>)
        requires
            old(self).ready(),
            level <= 1,
        ensures
            final(self).done(
                old(self),
                expr_result(r),
                grammar::logical_rest(
                    old(self).toks(),
                    old(self).pos(),
                    old(self).errs(),
                    level as nat,
                    expr_result(left),
                ),
            ),
        decreases old(self).left(), grammar::logical_rank(level as nat) - 1,
    {
        reveal(grammar::logical_rest);
        reveal(grammar::logical_operand);
        let operator = if level == 0 {
            TokenType::Or
        } else {
            TokenType::And
        };
        let token = self.peek().typ.duplicate();
        if !self.expect(&operator) {
            return left;
        }
        
        let right = self.logical_operand(level);
        match left {
            Err(e) => Err(e),
            Ok(l) => match right {
                Err(e) => Err(e),
                Ok(r) => self.logical_rest(
                    level,
                    Ok(
                        Expr::Logical(
                            LogicalExpr { left: Box::new(l), token: token, right: Box::new(r) },
                        ),
                    ),
                ),
            },
        }
    }

    pub(crate) fn equality(&mut self) -> (r: Result<Expr, Error>)
        requires
            old(self).ready(),
        ensures
            final(self).done(
                old(self),
                expr_result(r),
                grammar::binary(old(self).toks(), old(self).pos(), old(self).errs(), 0),
            ),
            !grammar::at_end(old(self).toks(), old(self).pos()) ==> final(self).pos() > old(
                self,
            ).pos(),
        decreases old(self).left(), 20nat,
    {
        reveal(grammar::binary);
        reveal(grammar::binary_operand);
        reveal(grammar::binary_rest);
        let left = self.binary_operand(0);
        self.binary_rest(0, left)
    }

    pub(crate) fn comparison(&mut self) -> (r: Result<Expr, Error>)
        requires
            old(self).ready(),
        ensures
            final(self).done(
                old(self),
                expr_result(r),
                grammar::binary(old(self).toks(), old(self).pos(), old(self).errs(), 1),
            ),
            !grammar::at_end(old(self).toks(), old(self).pos()) ==> final(self).pos() > old(
                self,
            ).pos(),
        decreases old(self).left(), 18nat,
    {
        reveal(grammar::binary);
        reveal(grammar::binary_operand);
        reveal(grammar::binary_rest);
        let left = self.binary_operand(1);
        self.binary_rest(1, left)
    }

    pub(crate) fn term(&mut self) -> (r: Result<Expr, Error>)
        requires
            old(self).ready(),
        ensures
            final(self).done(
                old(self),
                expr_result(r),
                grammar::binary(old(self).toks(), old(self).pos(), old(self).errs(), 2),
            ),
            !grammar::at_end(old(self).toks(), old(self).pos()) ==> final(self).pos() > old(
                self,
            ).pos(),
        decreases old(self).left(), 16nat,
    {
        reveal(grammar::binary);
        reveal(grammar::binary_operand);
        reveal(grammar::binary_rest);
        let left = self.binary_operand(2);
        self.binary_rest(2, left)
    }

    pub(crate) fn factor(&mut self) -> (r: Result<Expr, Error>)
        requires
            old(self).ready(),
        ensures
            final(self).done(
                old(self),
                expr_result(r),
                grammar::binary(old(self).toks(), old(self).pos(), old(self).errs(), 3),
            ),
            !grammar::at_end(old(self).toks(), old(self).pos()) ==> final(self).pos() > old(
                self,
            ).pos(),
        decreases old(self).left(), 14nat,
    {
        reveal(grammar::binary);
        reveal(grammar::binary_operand);
        reveal(grammar::binary_rest);
        let left = self.binary_operand(3);
        self.binary_rest(3, left)
    }

    /// Whether the current token is an operator of the binary `level`.
    pub(crate) fn at_operator(&self, level: u8) -> (b: bool)
        requires
            self.ready(),
        ensures
            b == (!grammar::at_end(self.toks(), self.pos()) && grammar::binary_operator(
                level as nat,
                self.toks()[self.pos() as int].typ,
            )),
    {
        if self.is_at_end() {
            return false;
        }
        match &self.peek().typ {
            TokenType::ExclamationEqual | TokenType::EqualEqual => level == 0,
            TokenType::Greater
            | TokenType::GreaterEqual
            | TokenType::Less
            | TokenType::LessEqual => level == 1,
            TokenType::Minus | TokenType::Plus => level == 2,
            TokenType::Slash | TokenType::Star => level >= 3,
            _ => false,
        }
    }

    /// Parses an operand of the binary `level`: the next tighter level.
    pub(crate) fn binary_operand(&mut self, level: u8) -> (r: Result<Expr, Error>)
        requires
            old(self).ready(),
            level <= 3,
        ensures
            final(self).done(
                old(self),
                expr_result(r),
                grammar::binary_operand(
                    old(self).toks(),
                    old(self).pos(),
                    old(self).errs(),
                    level as nat,
                ),
            ),
            !grammar::at_end(old(self).toks(), old(self).pos()) ==> final(self).pos() > old(
                self,
            ).pos(),
        decreases old(self).left(), grammar::binary_rank(level as nat) - 1,
    {
        reveal(grammar::binary_operand);
        reveal(grammar::binary);
        reveal(grammar::unary);
        if level == 0 {
            self.comparison()
        } else if level == 1 {
            self.term()
        } else if level == 2 {
            self.factor()
        } else {
            self.unary()
        }
    }

    /// Continues a chain of binary operators of `level` after `left`.
    pub(crate) fn binary_rest(&mut self, level: u8, left: Result<Expr, Error>) -> (r: Result<Expr, Error>)
        requires
            old(self).ready(),
            level <= 3,
        ensures
            final(self).done(
                old(self),
                expr_result(r),
                grammar::binary_rest(
                    old(self).toks(),
                    old(self).pos(),
                    old(self).errs(),
                    level as nat,
                    expr_result(left),
                ),
            ),
        decreases old(self).left(), grammar::binary_rank(level as nat) - 1,
    {
        reveal(grammar::binary_rest);
        reveal(grammar::binary_operand);
        if !self.at_operator(level) {
            return left;
        }
        let token = self.peek().typ.duplicate();
        self.advance();
        let l = match left {
            Ok(l) => l,
            Err(e) => {
                return Err(e);
            },
        };
        match self.binary_operand(level) {
            Err(e) => Err(e),
            Ok(r) => self.binary_rest(
                level,
                Ok(Expr::Binary(BinaryExpr { left: Box::new(l), token: token, right: Box::new(r) })),
            ),
        }
    }

    pub(crate) fn unary(&mut self) -> (r: Result<Expr, Error>)
        requires
            old(self).ready(),
        ensures
            final(self).done(
                old(self),
                expr_result(r),
                grammar::unary(old(self).toks(), old(self).pos(), old(self).errs()),
            ),
            !grammar::at_end(old(self).toks(), old(self).pos()) ==> final(self).pos() > old(
                self,
            ).pos(),
        decreases old(self).left(), 12nat,
    {
        reveal(grammar::unary);
        reveal(grammar::call);
        if self.check(&TokenType::Exclamation) || self.check(&TokenType::Minus) {
            let token = self.peek().typ.duplicate();
            self.advance();
            return match self.unary() {
                Ok(right) => Ok(Expr::Unary(UnaryExpr { token: token, right: Box::new(right) })),
                Err(e) => Err(e),
            };
        }
        self.call()
    }

    /// The arguments of a call whose `(` has been taken, then its `)`.
    pub(crate) fn finish_call(&mut self, callee: Expr) -> (r: Result<Expr, Error>)
        requires
            old(self).ready(),
        ensures
            final(self).done(
                old(self),
                expr_result(r),
                grammar::finish_call(old(self).toks(), old(self).pos(), old(self).errs(), callee@),
            ),
        decreases old(self).left(), 41nat,
    {
        reveal(grammar::finish_call);
        reveal(grammar::arguments);
        let arguments = no_exprs();
        if self.check(&TokenType::CloseParen) {
            self.close_call(callee, arguments)
        } else {
            self.arguments(callee, arguments)
        }
    }

    pub(crate) fn arguments(&mut self, callee: Expr, done: Vec<Expr>) -> (r: Result<Expr, Error>)
        requires
            old(self).ready(),
        ensures
            final(self).done(
                old(self),
                expr_result(r),
                grammar::arguments(
                    old(self).toks(),
                    old(self).pos(),
                    old(self).errs(),
                    callee@,
                    exprs_view(done@),
                ),
            ),
        decreases old(self).left(), 40nat,
    {
        reveal(grammar::arguments);
        reveal(grammar::expression);
        let mut done = done;
        proof {
            lemma_exprs_len(done@);
        }
        if done.len() >= grammar::MAX_ARITY {
            return Err(self.error_expr(String::from_str("Can't have more than 255 arguments.")));
        }
        let argument = match self.expression() {
            Ok(e) => e,
            Err(e) => {
                return Err(e);
            },
        };
        push_expr(&mut done, argument);
        if self.expect(&TokenType::Comma) {
            self.arguments(callee, done)
        } else {
            self.close_call(callee, done)
        }
    }

    pub(crate) fn close_call(&mut self, callee: Expr, arguments: Vec<Expr>) -> (r: Result<Expr, Error>)
        requires
            old(self).ready(),
        ensures
            final(self).done(
                old(self),
                expr_result(r),
                grammar::close_call(
                    old(self).toks(),
                    old(self).pos(),
                    old(self).errs(),
                    callee@,
                    exprs_view(arguments@),
                ),
            ),
    {
        match self.consume(&TokenType::CloseParen, "Expect ')' after arguments.") {
            Ok(paren) => Ok(call_expr(callee, paren.typ, arguments)),
            Err(e) => Err(e),
        }
    }

    pub(crate) fn call(&mut self) -> (r: Result<Expr, Error>)
        requires
            old(self).ready(),
        ensures
            final(self).done(
                old(self),
                expr_result(r),
                grammar::call(old(self).toks(), old(self).pos(), old(self).errs()),
            ),
            !grammar::at_end(old(self).toks(), old(self).pos()) ==> final(self).pos() > old(
                self,
            ).pos(),
        decreases old(self).left(), 11nat,
    {
        reveal(grammar::call);
        reveal(grammar::call_rest);
        reveal(grammar::primary);
        let expr = self.primary();
        self.call_rest(expr)
    }

    /// Applies every argument list that follows to `callee`.
    pub(crate) fn call_rest(&mut self, callee: Result<Expr, Error>) -> (r: Result<Expr, Error>)
        requires
            old(self).ready(),
        ensures
            final(self).done(
                old(self),
                expr_result(r),
                grammar::call_rest(
                    old(self).toks(),
                    old(self).pos(),
                    old(self).errs(),
                    expr_result(callee),
                ),
            ),
        decreases old(self).left(), 10nat,
    {
        reveal(grammar::call_rest);
        reveal(grammar::finish_call);
        if !self.expect(&TokenType::OpenParen) {
            return callee;
        }
        match callee {
            Err(e) => Err(e),
            Ok(c) => {
                let called = self.finish_call(c);
                self.call_rest(called)
            },
        }
    }

    pub(crate) fn primary(&mut self) -> (r: Result<Expr, Error>)
        requires
            old(self).ready(),
        ensures
            final(self).done(
                old(self),
                expr_result(r),
                grammar::primary(old(self).toks(), old(self).pos(), old(self).errs()),
            ),
            !grammar::at_end(old(self).toks(), old(self).pos()) ==> final(self).pos() > old(
                self,
            ).pos(),
        decreases old(self).left(), 9nat,
    {
        reveal(grammar::primary);
        reveal(grammar::expression);
        let token = self.peek();
        if self.is_at_end() {
            let message = unexpected(token.lexeme.as_str());
            return Err(self.error_expr(message));
        }
        self.advance();
        match atom(token) {
            Some(e) => {
                return Ok(e);
            },
            None => {},
        }
        match &token.typ {
            TokenType::OpenParen => {
                let inner = self.expression();
                let _ = self.consume(&TokenType::CloseParen, "Expect closing: ')' after expression.");
                match inner {
                    Ok(e) => Ok(Expr::Grouping(GroupingExpr { expr: Box::new(e) })),
                    Err(e) => Err(e),
                }
            },
            _ => {
                let message = unexpected(token.lexeme.as_str());
                Err(self.error_expr(message))
            },
        }
    }
}

} // verus!
