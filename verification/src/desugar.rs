//! Rewriting of `for` loops into `while` loops.
use vstd::prelude::*;
use crate::expressions::{Expr, Value};
use crate::grammar;
use crate::statements::{block_statement, body_model, result_model, Statement};
use crate::types::Error;

verus! {

/// A block body of exactly two items.
fn pair(first: Result<Statement, Error>, second: Result<Statement, Error>) -> (v: Vec<
    Result<Statement, Error>,
>)
    ensures
        body_model(v@) == seq![result_model(first), result_model(second)],
{
    reveal(body_model);
    let mut items: Vec<Result<Statement, Error>> = Vec::new();
    items.push(first);
    items.push(second);
    assert(body_model(items@).len() == 2);
    assert(body_model(items@)[0] == result_model(first));
    assert(body_model(items@)[1] == result_model(second));
    assert(body_model(items@) =~= seq![result_model(first), result_model(second)]);
    items
}

/// Builds the `while` form of a `for` loop from its parts.
pub fn desugar_for(
    initializer: Option<Statement>,
    condition: Option<Expr>,
    increment: Option<Expr>,
    body: Result<Statement, Error>,
) -> (r: Result<Statement, Error>)
    ensures
        result_model(r) == grammar::desugar_for(
            match initializer {
                Some(s) => Some(s@),
                None => None,
            },
            match condition {
                Some(s) => Some(s@),
                None => None,
            },
            match increment {
                Some(s) => Some(s@),
                None => None,
            },
            result_model(body),
        ),
{
    reveal(grammar::desugar_for);
    let inner: Result<Statement, Error> = match increment {
        Some(i) => Ok(block_statement(pair(body, Ok(Statement::ExprSt(i))))),
        None => body,
    };
    let condition = match condition {
        Some(c) => c,
        None => Expr::Literal(Value::Boolean(true)),
    };
    match inner {
        Err(e) => Err(e),
        Ok(b) => {
            let looped = Statement::While { condition, body: Box::new(b) };
            match initializer {
                Some(i) => Ok(block_statement(pair(Ok(i), Ok(looped)))),
                None => Ok(looped),
            }
        },
    }
}

} // verus!
