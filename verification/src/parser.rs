//! The parser's entry point: from tokens to the syntax tree.
use vstd::prelude::*;
use crate::cursor::{terminated, Parser};
use crate::grammar;
use crate::statements::{body_model, duplicate_body, Statement, StatementView};
use crate::types::{duplicate_errors, errors_view, tokens_view, Error, ErrorView, Token, TokenView};

verus! {

/// The syntax tree of a program: its top-level statements in source order,
/// each parsed or replaced by the error that stopped it, and every error
/// the parse recorded.
#[derive(Debug)]
pub struct AST {
    pub errors: Vec<Error>,
    pub root: Vec<Result<Statement, Error>>,
}

/// Mathematical model of [`AST`].
pub struct TreeView {
    pub errors: Seq<ErrorView>,
    pub root: Seq<Result<StatementView, ErrorView>>,
}

impl View for AST {
    type V = TreeView;

    open spec fn view(&self) -> TreeView {
        TreeView { errors: errors_view(self.errors@), root: body_model(self.root@) }
    }
}

/// The tree that the tokens `t` parse to.
pub open spec fn parsed(t: Seq<TokenView>) -> TreeView {
    let p = grammar::program(t, 0, Seq::empty(), Seq::empty());
    TreeView { errors: p.errors, root: p.value }
}

impl AST {
    /// A copy equal in every part.
    pub fn duplicate(&self) -> (r: AST)
        ensures
            r@ == self@,
    {
        AST { errors: duplicate_errors(&self.errors), root: duplicate_body(&self.root) }
    }

    /// Parses the tokens: the statements and errors are those of
    /// [`grammar::program`] from the first token on.
    pub fn new(tokens: &Vec<Token>) -> (ast: AST)
        requires
            terminated(tokens@),
        ensures
            ast@ == parsed(tokens_view(tokens@)),
    {
        let mut parser = Parser::new(tokens);
        let root = parser.parse();
        AST { errors: parser.into_errors(), root }
    }
}

} // verus!
