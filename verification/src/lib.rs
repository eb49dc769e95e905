//! A tree-walking interpreter for a small dynamically typed scripting
//! language: variables, arithmetic, logic and comparison, blocks,
//! conditionals, loops, and first-class functions that capture the scope
//! they are declared in.
//!
//! A program goes from text to tokens ([`lexer`]), from tokens to a syntax
//! tree ([`parser`], after the [`grammar`]), and is then run step by step
//! ([`interpreter`], after the [`semantics`]).
use vstd::prelude::*;

pub mod cursor;
pub mod desugar;
pub mod environment;
pub mod expression_rules;
pub mod expressions;
pub mod grammar;
pub mod interpreter;
pub mod invariants;
pub mod laws;
pub mod lexer;
pub mod machine;
pub mod meaning;
pub mod numbers;
pub mod operators;
pub mod parser;
pub mod scanning;
pub mod semantics;
pub mod session;
pub mod statement_rules;
pub mod statements;
pub mod types;

verus! {

/// Starts a run of the program `input`: its text is scanned up to its first
/// number or its end, and the session returned carries the run on. With
/// `print_ast` the syntax tree is shown before the program runs.
pub fn run_file(input: String, print_ast: bool) -> (s: session::Session)
    requires
        input@.len() < usize::MAX,
    ensures
        s.wf(),
        s@ == (session::SessionView {
            stage: session::StageView::Scanning(
                input@,
                scanning::scan_all(input@, scanning::initial()),
            ),
            print_ast,
        }),
{
    let scanner = lexer::new_scanner(input.as_str());
    session::Session::new(scanner, print_ast)
}

} // verus!
