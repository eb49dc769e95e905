//! The rules for statements and declarations.
use vstd::prelude::*;
use vstd::string::StringExecFns;
use crate::cursor::{expr_result, names_result, option_expr, option_statement, Parser};
use crate::desugar::desugar_for;
use crate::expressions::{Expr, Value};
use crate::grammar;
use crate::statements::{
    block_statement, body_model, empty_body, function_statement, lemma_names_len, names_view,
    no_names, push_name, push_result, result_model, Statement,
};
use crate::types::{Error, TokenType};

verus! {

impl<'a> Parser<'a> {
    pub(crate) fn declaration(&mut self) -> (r: Result<Statement, Error>)
        requires
            old(self).ready(),
        ensures
            final(self).done(
                old(self),
                result_model(r),
                grammar::declaration(old(self).toks(), old(self).pos(), old(self).errs()),
            ),
            !grammar::at_end(old(self).toks(), old(self).pos()) ==> final(self).pos() > old(
                self,
            ).pos(),
        decreases old(self).left(), 33nat,
    {
        reveal(grammar::declaration);
        reveal(grammar::var_declaration);
        reveal(grammar::statement);
        reveal(grammar::function);
        if self.expect(&TokenType::Fun) {
            return self.function();
        }
        if self.expect(&TokenType::Var) {
            return self.var_declaration();
        }
        self.statement()
    }

    pub(crate) fn var_declaration(&mut self) -> (r: Result<Statement, Error>)
        requires
            old(self).ready(),
        ensures
            final(self).done(
                old(self),
                result_model(r),
                grammar::var_declaration(old(self).toks(), old(self).pos(), old(self).errs()),
            ),
        decreases old(self).left(), 31nat,
    {
        reveal(grammar::var_declaration);
        reveal(grammar::expression);
        let name = match self.consume(&TokenType::Identifier, "Expected variable name after var") {
            Ok(token) => token.lexeme,
            Err(e) => {
                return Err(e);
            },
        };
        let mut initializer = Expr::Literal(Value::Nil);
        if self.expect(&TokenType::Equal) {
            match self.expression() {
                Ok(e) => {
                    initializer = e;
                },
                Err(e) => {
                    return Err(e);
                },
            }
        }
        match self.consume(&TokenType::Semicolon, "Expect ';' after variable declaration") {
            Ok(_) => Ok(Statement::VariableSt(name, initializer)),
            Err(e) => Err(e),
        }
    }

    /// Parses `( expression )` with the given messages for a missing
    /// parenthesis.
    pub(crate) fn condition(&mut self, open: &str, close: &str) -> (r: Result<Expr, Error>)
        requires
            old(self).ready(),
        ensures
            final(self).done(
                old(self),
                expr_result(r),
                grammar::condition(
                    old(self).toks(),
                    old(self).pos(),
                    old(self).errs(),
                    open@,
                    close@,
                ),
            ),
        decreases old(self).left(), 30nat,
    {
        reveal(grammar::condition);
        reveal(grammar::expression);
        match self.consume(&TokenType::OpenParen, open) {
            Ok(_) => {},
            Err(e) => {
                return Err(e);
            },
        }
        let condition = match self.expression() {
            Ok(e) => e,
            Err(e) => {
                return Err(e);
            },
        };
        match self.consume(&TokenType::CloseParen, close) {
            Ok(_) => Ok(condition),
            Err(e) => Err(e),
        }
    }

    pub(crate) fn while_statement(&mut self) -> (r: Result<Statement, Error>)
        requires
            old(self).ready(),
        ensures
            final(self).done(
                old(self),
                result_model(r),
                grammar::while_statement(old(self).toks(), old(self).pos(), old(self).errs()),
            ),
        decreases old(self).left(), 36nat,
    {
        reveal(grammar::while_statement);
        reveal(grammar::statement);
        reveal(grammar::condition);
        let condition = match self.condition(
            "Expect '(' after 'while'.",
            "Expect ')' after while-condition.",
        ) {
            Ok(e) => e,
            Err(e) => {
                return Err(e);
            },
        };
        match self.statement() {
            Ok(body) => Ok(Statement::While { condition: condition, body: Box::new(body) }),
            Err(e) => Err(e),
        }
    }

    pub(crate) fn for_initializer(&mut self) -> (r: Result<Option<Statement>, Error>)
        requires
            old(self).ready(),
        ensures
            final(self).done(
                old(self),
                option_statement(r),
                grammar::for_initializer(old(self).toks(), old(self).pos(), old(self).errs()),
            ),
        decreases old(self).left(), 31nat,
    {
        reveal(grammar::for_initializer);
        reveal(grammar::var_declaration);
        reveal(grammar::expression_statement);
        if self.expect(&TokenType::Semicolon) {
            return Ok(None);
        }
        let s = if self.expect(&TokenType::Var) {
            self.var_declaration()
        } else {
            self.expression_statement()
        };
        match s {
            Ok(v) => Ok(Some(v)),
            Err(e) => Err(e),
        }
    }

    pub(crate) fn for_clause(&mut self, closing: &TokenType, message: &str) -> (r: Result<
        Option<Expr>,
        Error,
    >)
        requires
            old(self).ready(),
        ensures
            final(self).done(
                old(self),
                option_expr(r),
                grammar::for_clause(
                    old(self).toks(),
                    old(self).pos(),
                    old(self).errs(),
                    closing@,
                    message@,
                ),
            ),
        decreases old(self).left(), 30nat,
    {
        reveal(grammar::for_clause);
        reveal(grammar::expression);
        if self.expect(closing) {
            return Ok(None);
        }
        let e = match self.expression() {
            Ok(e) => e,
            Err(e) => {
                return Err(e);
            },
        };
        match self.consume(closing, message) {
            Ok(_) => Ok(Some(e)),
            Err(e) => Err(e),
        }
    }

    pub(crate) fn for_statement(&mut self) -> (r: Result<Statement, Error>)
        requires
            old(self).ready(),
        ensures
            final(self).done(
                old(self),
                result_model(r),
                grammar::for_statement(old(self).toks(), old(self).pos(), old(self).errs()),
            ),
        decreases old(self).left(), 32nat,
    {
        reveal(grammar::for_statement);
        reveal(grammar::statement);
        reveal(grammar::for_initializer);
        reveal(grammar::for_clause);
        match self.consume(&TokenType::OpenParen, "Expect '(' after 'for'.") {
            Ok(_) => {},
            Err(e) => {
                return Err(e);
            },
        }
        let initializer = match self.for_initializer() {
            Ok(i) => i,
            Err(e) => {
                return Err(e);
            },
        };
        let condition = match self.for_clause(
            &TokenType::Semicolon,
            "Expect ';' after for-loop condition.",
        ) {
            Ok(c) => c,
            Err(e) => {
                return Err(e);
            },
        };
        let increment = match self.for_clause(
            &TokenType::CloseParen,
            "Expect ')' after for-loop clauses.",
        ) {
            Ok(c) => c,
            Err(e) => {
                return Err(e);
            },
        };
        let body = self.statement();
        desugar_for(initializer, condition, increment, body)
    }

    pub(crate) fn statement(&mut self) -> (r: Result<Statement, Error>)
        requires
            old(self).ready(),
        ensures
            final(self).done(
                old(self),
                result_model(r),
                grammar::statement(old(self).toks(), old(self).pos(), old(self).errs()),
            ),
            !grammar::at_end(old(self).toks(), old(self).pos()) ==> final(self).pos() > old(
                self,
            ).pos(),
        decreases old(self).left(), 32nat,
    {
        reveal(grammar::statement);
        reveal(grammar::expression_statement);
        reveal(grammar::print_statement);
        reveal(grammar::return_statement);
        reveal(grammar::while_statement);
        reveal(grammar::if_statement);
        reveal(grammar::for_statement);
        reveal(grammar::block);
        if self.expect(&TokenType::For) {
            return self.for_statement();
        }
        if self.expect(&TokenType::If) {
            return self.if_statement();
        }
        if self.expect(&TokenType::Print) {
            return self.print_statement();
        }
        if self.expect(&TokenType::Return) {
            return self.return_statement();
        }
        if self.expect(&TokenType::While) {
            return self.while_statement();
        }
        if self.expect(&TokenType::OpenBrace) {
            return Ok(block_statement(self.block()));
        }
        self.expression_statement()
    }

    pub(crate) fn if_statement(&mut self) -> (r: Result<Statement, Error>)
        requires
            old(self).ready(),
        ensures
            final(self).done(
                old(self),
                result_model(r),
                grammar::if_statement(old(self).toks(), old(self).pos(), old(self).errs()),
            ),
        decreases old(self).left(), 36nat,
    {
        reveal(grammar::if_statement);
        reveal(grammar::statement);
        reveal(grammar::condition);
        let condition = match self.condition(
            "Expect '(' after 'if'.",
            "Expect ')' after 'if' condition.",
        ) {
            Ok(e) => e,
            Err(e) => {
                return Err(e);
            },
        };
        let then_ = match self.statement() {
            Ok(s) => s,
            Err(e) => {
                return Err(e);
            },
        };
        if self.expect(&TokenType::Else) {
            return match self.statement() {
                Ok(other) => Ok(
                    Statement::IfSt {
                        condition: condition,
                        then_: Box::new(then_),
                        else_: Some(Box::new(other)),
                    },
                ),
                Err(e) => Err(e),
            };
        }
        Ok(Statement::IfSt { condition: condition, then_: Box::new(then_), else_: None })
    }

    /// An expression and its `;`, as a print or an expression statement.
    pub(crate) fn ended_by_semicolon(&mut self, print: bool) -> (r: Result<Statement, Error>)
        requires
            old(self).ready(),
        ensures
            final(self).done(
                old(self),
                result_model(r),
                grammar::ended_by_semicolon(old(self).toks(), old(self).pos(), old(self).errs(), print),
            ),
            !grammar::at_end(old(self).toks(), old(self).pos()) ==> final(self).pos() > old(
                self,
            ).pos(),
        decreases old(self).left(), 29nat,
    {
        reveal(grammar::ended_by_semicolon);
        reveal(grammar::expression);
        let value = match self.expression() {
            Ok(e) => e,
            Err(e) => {
                return Err(e);
            },
        };
        match self.consume(&TokenType::Semicolon, "Expected ; after value.") {
            Ok(_) => if print {
                Ok(Statement::PrintSt(value))
            } else {
                Ok(Statement::ExprSt(value))
            },
            Err(e) => Err(e),
        }
    }

    pub(crate) fn print_statement(&mut self) -> (r: Result<Statement, Error>)
        requires
            old(self).ready(),
        ensures
            final(self).done(
                old(self),
                result_model(r),
                grammar::print_statement(old(self).toks(), old(self).pos(), old(self).errs()),
            ),
        decreases old(self).left(), 30nat,
    {
        reveal(grammar::print_statement);
        reveal(grammar::ended_by_semicolon);
        self.ended_by_semicolon(true)
    }

    pub(crate) fn return_statement(&mut self) -> (r: Result<Statement, Error>)
        requires
            old(self).ready(),
        ensures
            final(self).done(
                old(self),
                result_model(r),
                grammar::return_statement(old(self).toks(), old(self).pos(), old(self).errs()),
            ),
        decreases old(self).left(), 31nat,
    {
        reveal(grammar::return_statement);
        reveal(grammar::expression);
        let keyword = self.previous_lexeme();
        let mut value = Expr::Literal(Value::Nil);
        if !self.check(&TokenType::Semicolon) {
            match self.expression() {
                Ok(e) => {
                    value = e;
                },
                Err(e) => {
                    return Err(e);
                },
            }
        }
        let _ = self.consume(&TokenType::Semicolon, "Expect ';' after return value.");
        Ok(Statement::ReturnSt { keyword, value })
    }

    pub(crate) fn expression_statement(&mut self) -> (r: Result<Statement, Error>)
        requires
            old(self).ready(),
        ensures
            final(self).done(
                old(self),
                result_model(r),
                grammar::expression_statement(old(self).toks(), old(self).pos(), old(self).errs()),
            ),
            !grammar::at_end(old(self).toks(), old(self).pos()) ==> final(self).pos() > old(
                self,
            ).pos(),
        decreases old(self).left(), 30nat,
    {
        reveal(grammar::expression_statement);
        reveal(grammar::ended_by_semicolon);
        self.ended_by_semicolon(false)
    }

    pub(crate) fn function(&mut self) -> (r: Result<Statement, Error>)
        requires
            old(self).ready(),
        ensures
            final(self).done(
                old(self),
                result_model(r),
                grammar::function(old(self).toks(), old(self).pos(), old(self).errs()),
            ),
        decreases old(self).left(), 31nat,
    {
        reveal(grammar::function);
        reveal(grammar::parameters);
        reveal(grammar::block);
        let name = match self.consume(&TokenType::Identifier, "Expect function/method name.") {
            Ok(token) => token.lexeme,
            Err(e) => {
                return Err(e);
            },
        };
        let _ = self.consume(&TokenType::OpenParen, "Expect '(' after function/method name.");
        let params = if self.check(&TokenType::CloseParen) {
            no_names()
        } else {
            match self.parameters(no_names()) {
                Ok(p) => p,
                Err(e) => {
                    return Err(e);
                },
            }
        };
        let _ = self.consume(&TokenType::CloseParen, "Expect ')' after parameters.");
        let _ = self.consume(&TokenType::OpenBrace, "Expect '{' before function/method body.");
        let body = self.block();
        Ok(function_statement(name, params, body))
    }

    pub(crate) fn parameters(&mut self, done: Vec<String>) -> (r: Result<Vec<String>, Error>)
        requires
            old(self).ready(),
        ensures
            final(self).done(
                old(self),
                names_result(r),
                grammar::parameters(
                    old(self).toks(),
                    old(self).pos(),
                    old(self).errs(),
                    names_view(done@),
                ),
            ),
        decreases old(self).left(),
    {
        reveal(grammar::parameters);
        let mut done = done;
        proof {
            lemma_names_len(done@);
        }
        if done.len() >= grammar::MAX_ARITY {
            return Err(self.error_expr(String::from_str("Can't have more than 255 parameters.")));
        }
        let name = match self.consume(&TokenType::Identifier, "Expect parameter name.") {
            Ok(token) => token.lexeme,
            Err(e) => {
                return Err(e);
            },
        };
        push_name(&mut done, name);
        if self.expect(&TokenType::Comma) {
            self.parameters(done)
        } else {
            Ok(done)
        }
    }

    /// The declarations of a block whose `{` has been taken.
    pub(crate) fn block(&mut self) -> (r: Vec<Result<Statement, Error>>)
        requires
            old(self).ready(),
        ensures
            final(self).done(
                old(self),
                body_model(r@),
                grammar::block(old(self).toks(), old(self).pos(), old(self).errs(), Seq::empty()),
            ),
        decreases old(self).left(), 34nat,
    {
        reveal(grammar::block);
        reveal(grammar::declaration);
        let mut statements = empty_body();
        let ghost goal = grammar::block(
            old(self).toks(),
            old(self).pos(),
            old(self).errs(),
            Seq::empty(),
        );
        while !self.check(&TokenType::CloseBrace) && !self.is_at_end()
            invariant
                self.ready(),
                self.toks() == old(self).toks(),
                self.pos() >= old(self).pos(),
                goal == grammar::block(
                    self.toks(),
                    self.pos(),
                    self.errs(),
                    body_model(statements@),
                ).shift((self.pos() - old(self).pos()) as nat),
            decreases self.left(),
        {
            reveal(grammar::block);
            reveal(grammar::program);
            reveal(grammar::declaration);
            let d = self.declaration();
            push_result(&mut statements, d);
        }
        match self.consume(&TokenType::CloseBrace, "Expect '}' after block.") {
            Ok(_) => {},
            Err(e) => {
                push_result(&mut statements, Err(e));
            },
        }
        statements
    }

    pub(crate) fn parse(&mut self) -> (r: Vec<Result<Statement, Error>>)
        requires
            old(self).ready(),
        ensures
            final(self).done(
                old(self),
                body_model(r@),
                grammar::program(old(self).toks(), old(self).pos(), old(self).errs(), Seq::empty()),
            ),
    {
        reveal(grammar::program);
        reveal(grammar::declaration);
        let mut statements = empty_body();
        let ghost goal = grammar::program(
            old(self).toks(),
            old(self).pos(),
            old(self).errs(),
            Seq::empty(),
        );
        while !self.is_at_end()
            invariant
                self.ready(),
                self.toks() == old(self).toks(),
                self.pos() >= old(self).pos(),
                goal == grammar::program(
                    self.toks(),
                    self.pos(),
                    self.errs(),
                    body_model(statements@),
                ).shift((self.pos() - old(self).pos()) as nat),
            decreases self.left(),
        {
            reveal(grammar::block);
            reveal(grammar::program);
            reveal(grammar::declaration);
            let d = self.declaration();
            push_result(&mut statements, d);
        }
        statements
    }
}

} // verus!
