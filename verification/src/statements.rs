//! Statements: the nodes of the syntax tree that act instead of producing a
//! value. They bind names, print, branch, loop and open scopes.
use vstd::prelude::*;
use crate::expressions::{Expr, ExprView};
use crate::types::{Error, ErrorView};

verus! {

/// A statement: a node of the syntax tree that acts.
#[derive(Debug, PartialEq)]
pub enum Statement {
    ExprSt(Expr),
    PrintSt(Expr),
    VariableSt(String, Expr),
    BlockSt(Vec<Result<Statement, Error>>),
    IfSt { condition: Expr, then_: Box<Statement>, else_: Option<Box<Statement>> },
    While { condition: Expr, body: Box<Statement> },
    FunctionSt(FunctionStatement),
    ReturnSt { keyword: String, value: Expr },
}

/// The declaration of a function: its name, its parameters and its body.
#[derive(Debug, PartialEq)]
pub struct FunctionStatement {
    pub name: String,
    pub params: Vec<String>,
    pub body: Vec<Result<Statement, Error>>,
}

/// Mathematical model of [`Statement`].
pub enum StatementView {
    ExprSt(ExprView),
    PrintSt(ExprView),
    VariableSt(Seq<char>, ExprView),
    BlockSt(Seq<Result<StatementView, ErrorView>>),
    IfSt { condition: ExprView, then_: Box<StatementView>, else_: Option<Box<StatementView>> },
    While { condition: ExprView, body: Box<StatementView> },
    FunctionSt(FunctionStatementView),
    ReturnSt { keyword: Seq<char>, value: ExprView },
}

/// Mathematical model of [`FunctionStatement`].
pub struct FunctionStatementView {
    pub name: Seq<char>,
    pub params: Seq<Seq<char>>,
    pub body: Seq<Result<StatementView, ErrorView>>,
}

/// The model of a statement that was parsed, or of the error in its place.
pub open spec fn result_model(r: Result<Statement, Error>) -> Result<StatementView, ErrorView> {
    match r {
        Ok(s) => Ok(s.model()),
        Err(e) => Err(e@),
    }
}

/// The models of a sequence of statement results, in order.
#[verifier::opaque]
pub open spec fn body_model(body: Seq<Result<Statement, Error>>) -> Seq<
    Result<StatementView, ErrorView>,
> {
    Seq::new(body.len(), |i: int| result_model(body[i]))
}

/// The models of a list of names, in order.
#[verifier::opaque]
pub open spec fn names_view(names: Seq<String>) -> Seq<Seq<char>> {
    Seq::new(names.len(), |i: int| names[i]@)
}

impl Statement {
    /// The model of the statement, by structural recursion.
    pub open spec fn model(&self) -> StatementView
        decreases self,
    {
        match self {
            Statement::ExprSt(e) => StatementView::ExprSt(e@),
            Statement::PrintSt(e) => StatementView::PrintSt(e@),
            Statement::VariableSt(name, e) => StatementView::VariableSt(name@, e@),
            Statement::BlockSt(body) => StatementView::BlockSt(
                Seq::new(
                    body@.len(),
                    |i: int|
                        if 0 <= i < body@.len() {
                            match body@[i] {
                                Ok(s) => Ok(s.model()),
                                Err(e) => Err(e@),
                            }
                        } else {
                            Err(ErrorView::Parser(Seq::empty(), 0))
                        },
                ),
            ),
            Statement::IfSt { condition, then_, else_ } => StatementView::IfSt {
                condition: condition@,
                then_: Box::new(then_.model()),
                else_: match else_ {
                    Some(s) => Some(Box::new(s.model())),
                    None => None,
                },
            },
            Statement::While { condition, body } => StatementView::While {
                condition: condition@,
                body: Box::new(body.model()),
            },
            Statement::FunctionSt(f) => StatementView::FunctionSt(
                FunctionStatementView {
                    name: f.name@,
                    params: names_view(f.params@),
                    body: Seq::new(
                        f.body@.len(),
                        |i: int|
                            if 0 <= i < f.body@.len() {
                                match f.body@[i] {
                                    Ok(s) => Ok(s.model()),
                                    Err(e) => Err(e@),
                                }
                            } else {
                                Err(ErrorView::Parser(Seq::empty(), 0))
                            },
                    ),
                },
            ),
            Statement::ReturnSt { keyword, value } => StatementView::ReturnSt {
                keyword: keyword@,
                value: value@,
            },
        }
    }
}

impl FunctionStatement {
    /// The model of the declaration.
    pub open spec fn model(&self) -> FunctionStatementView {
        FunctionStatementView {
            name: self.name@,
            params: names_view(self.params@),
            body: body_model(self.body@),
        }
    }
}

/// The model of a block is the model of its body.
pub proof fn lemma_block_model(body: Vec<Result<Statement, Error>>)
    ensures
        Statement::BlockSt(body)@ == StatementView::BlockSt(body_model(body@)),
{
    reveal(body_model);
    assert(Statement::BlockSt(body)@->BlockSt_0 =~= body_model(body@));
}

/// The model of a function statement is the model of its declaration.
pub proof fn lemma_function_model(f: FunctionStatement)
    ensures
        Statement::FunctionSt(f)@ == StatementView::FunctionSt(f@),
{
    reveal(body_model);
    assert(Statement::FunctionSt(f)@->FunctionSt_0.body =~= body_model(f.body@));
}

/// A block statement of `body`.
pub fn block_statement(body: Vec<Result<Statement, Error>>) -> (s: Statement)
    ensures
        s@ == StatementView::BlockSt(body_model(body@)),
{
    proof {
        lemma_block_model(body);
    }
    Statement::BlockSt(body)
}

/// The statement that declares a function.
pub fn function_statement(name: String, params: Vec<String>, body: Vec<Result<Statement, Error>>)
    -> (s: Statement)
    ensures
        s@ == StatementView::FunctionSt(
            FunctionStatementView {
                name: name@,
                params: names_view(params@),
                body: body_model(body@),
            },
        ),
{
    let f = FunctionStatement { name, params, body };
    proof {
        lemma_function_model(f);
    }
    Statement::FunctionSt(f)
}

impl View for Statement {
    type V = StatementView;

    open spec fn view(&self) -> StatementView {
        self.model()
    }
}

impl View for FunctionStatement {
    type V = FunctionStatementView;

    open spec fn view(&self) -> FunctionStatementView {
        self.model()
    }
}

/// A list of names and its model have the same length.
pub proof fn lemma_names_len(names: Seq<String>)
    ensures
        names_view(names).len() == names.len(),
{
    reveal(names_view);
}

/// The model of a list of names holds the models of its items.
pub proof fn lemma_names_index(names: Seq<String>, i: int)
    requires
        0 <= i < names.len(),
    ensures
        names_view(names)[i] == names[i]@,
{
    reveal(names_view);
}

/// The model of a body has the length of the body and holds the models of
/// its items.
pub proof fn lemma_body_index(body: Seq<Result<Statement, Error>>, i: int)
    ensures
        body_model(body).len() == body.len(),
        0 <= i < body.len() ==> body_model(body)[i] == result_model(body[i]),
{
    reveal(body_model);
}

/// Appends a name to a list.
pub fn push_name(list: &mut Vec<String>, name: String)
    ensures
        names_view(final(list)@) == names_view(old(list)@).push(name@),
{
    reveal(names_view);
    list.push(name);
    assert(names_view(list@) =~= names_view(old(list)@).push(name@));
}

/// A list without names.
pub fn no_names() -> (list: Vec<String>)
    ensures
        names_view(list@) == Seq::<Seq<char>>::empty(),
{
    reveal(names_view);
    let list: Vec<String> = Vec::new();
    assert(names_view(list@) =~= Seq::<Seq<char>>::empty());
    list
}

/// Appends a statement result to a body.
pub fn push_result(body: &mut Vec<Result<Statement, Error>>, item: Result<Statement, Error>)
    ensures
        body_model(final(body)@) == body_model(old(body)@).push(result_model(item)),
{
    reveal(body_model);
    body.push(item);
    assert(body_model(body@) =~= body_model(old(body)@).push(result_model(item)));
}

/// A body without items.
pub fn empty_body() -> (body: Vec<Result<Statement, Error>>)
    ensures
        body_model(body@) == Seq::<Result<StatementView, ErrorView>>::empty(),
{
    reveal(body_model);
    let body: Vec<Result<Statement, Error>> = Vec::new();
    assert(body_model(body@) =~= Seq::<Result<StatementView, ErrorView>>::empty());
    body
}

/// Copies a list of names.
pub fn duplicate_names(names: &Vec<String>) -> (r: Vec<String>)
    ensures
        names_view(r@) == names_view(names@),
{
    reveal(names_view);
    let mut out: Vec<String> = Vec::new();
    let mut i: usize = 0;
    while i < names.len()
        invariant
            i <= names.len(),
            out.len() == i,
            forall|j: int| 0 <= j < i ==> out@[j]@ == names@[j]@,
        decreases names.len() - i,
    {
        out.push(names[i].clone());
        i += 1;
    }
    assert(names_view(out@) =~= names_view(names@));
    out
}

/// Copies a sequence of statement results.
pub fn duplicate_body(body: &Vec<Result<Statement, Error>>) -> (r: Vec<Result<Statement, Error>>)
    ensures
        body_model(r@) == body_model(body@),
    decreases body,
{
    reveal(body_model);
    let mut out: Vec<Result<Statement, Error>> = Vec::new();
    let mut i: usize = 0;
    while i < body.len()
        invariant
            i <= body.len(),
            out.len() == i,
            forall|j: int| 0 <= j < i ==> result_model(out@[j]) == result_model(body@[j]),
        decreases body.len() - i,
    {
        let item = match &body[i] {
            Ok(s) => {
                proof {
                    broadcast use vstd::std_specs::vec::group_vec_axioms;

                    assert(decreases_to!(body => body@[i as int]));
                    assert(decreases_to!(body@[i as int] => body@[i as int]->Ok_0));
                }
                Ok(s.duplicate())
            },
            Err(e) => Err(e.duplicate()),
        };
        out.push(item);
        i += 1;
    }
    assert(body_model(out@) =~= body_model(body@));
    out
}

impl Statement {
    /// A copy equal in every part.
    pub fn duplicate(&self) -> (r: Statement)
        ensures
            r@ == self@,
        decreases self,
    {
        match self {
            Statement::ExprSt(e) => Statement::ExprSt(e.duplicate()),
            Statement::PrintSt(e) => Statement::PrintSt(e.duplicate()),
            Statement::VariableSt(name, e) => Statement::VariableSt(name.clone(), e.duplicate()),
            Statement::BlockSt(body) => {
                proof {
                    lemma_block_model(*body);
                }
                block_statement(duplicate_body(body))
            },
            Statement::IfSt { condition, then_, else_ } => Statement::IfSt {
                condition: condition.duplicate(),
                then_: Box::new(then_.duplicate()),
                else_: match else_ {
                    Some(s) => Some(Box::new(s.duplicate())),
                    None => None,
                },
            },
            Statement::While { condition, body } => Statement::While {
                condition: condition.duplicate(),
                body: Box::new(body.duplicate()),
            },
            Statement::FunctionSt(f) => {
                proof {
                    lemma_function_model(*f);
                }
                function_statement(
                    f.name.clone(),
                    duplicate_names(&f.params),
                    duplicate_body(&f.body),
                )
            },
            Statement::ReturnSt { keyword, value } => Statement::ReturnSt {
                keyword: keyword.clone(),
                value: value.duplicate(),
            },
        }
    }
}

impl FunctionStatement {
    /// A copy equal in every part.
    pub fn duplicate(&self) -> (r: FunctionStatement)
        ensures
            r@ == self@,
        decreases self,
    {
        FunctionStatement {
            name: self.name.clone(),
            params: duplicate_names(&self.params),
            body: duplicate_body(&self.body),
        }
    }
}

impl Clone for Statement {
    fn clone(&self) -> (r: Statement)
        ensures
            r@ == self@,
    {
        self.duplicate()
    }
}

impl Clone for FunctionStatement {
    fn clone(&self) -> (r: FunctionStatement)
        ensures
            r@ == self@,
    {
        self.duplicate()
    }
}

} // verus!
