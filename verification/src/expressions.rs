//! Expressions: the value-producing nodes of the syntax tree.
use vstd::prelude::*;
use crate::types::{TokenKind, TokenType};

verus! {

/// A value a program can hold. `Number` holds the bits of an IEEE 754
/// double; `Callable` is the handle of a function of the running program.
#[derive(Debug, PartialEq)]
pub enum Value {
    Boolean(bool),
    Nil,
    String(String),
    Number(u64),
    Callable(usize),
}

/// Mathematical model of [`Value`].
pub enum ValueView {
    Boolean(bool),
    Nil,
    String(Seq<char>),
    Number(u64),
    Callable(nat),
}

impl View for Value {
    type V = ValueView;

    open spec fn view(&self) -> ValueView {
        match self {
            Value::Boolean(b) => ValueView::Boolean(*b),
            Value::Nil => ValueView::Nil,
            Value::String(s) => ValueView::String(s@),
            Value::Number(n) => ValueView::Number(*n),
            Value::Callable(f) => ValueView::Callable(*f as nat),
        }
    }
}

impl Value {
    /// A copy equal in every part.
    pub fn duplicate(&self) -> (r: Value)
        ensures
            r@ == self@,
    {
        match self {
            Value::Boolean(b) => Value::Boolean(*b),
            Value::Nil => Value::Nil,
            Value::String(s) => Value::String(s.clone()),
            Value::Number(n) => Value::Number(*n),
            Value::Callable(f) => Value::Callable(*f),
        }
    }
}

impl Clone for Value {
    fn clone(&self) -> (r: Value)
        ensures
            r@ == self@,
    {
        self.duplicate()
    }
}

/// An expression: a node of the syntax tree that has a value.
#[derive(Debug, PartialEq)]
pub enum Expr {
    Literal(Value),
    Unary(UnaryExpr),
    Binary(BinaryExpr),
    Grouping(GroupingExpr),
    VarRead(VarReadExpr),
    VarAssign(VarAssignExpr),
    Logical(LogicalExpr),
    FnCall(FnCallExpr),
}

/// Two operands and the operator between them.
#[derive(Debug, PartialEq)]
pub struct BinaryExpr {
    pub left: Box<Expr>,
    pub token: TokenType,
    pub right: Box<Expr>,
}

/// A prefix operator and its operand.
#[derive(Debug, PartialEq)]
pub struct UnaryExpr {
    pub token: TokenType,
    pub right: Box<Expr>,
}

/// An expression in parentheses.
#[derive(Debug, PartialEq)]
pub struct GroupingExpr {
    pub expr: Box<Expr>,
}

/// Reads a variable, as `x` in `x + 1`.
#[derive(Debug, PartialEq)]
pub struct VarReadExpr {
    pub name: String,
}

/// `and` and `or`: the right operand is only evaluated when it is needed.
#[derive(Debug, PartialEq)]
pub struct LogicalExpr {
    pub left: Box<Expr>,
    pub token: TokenType,
    pub right: Box<Expr>,
}

/// Writes to a variable that already exists, as in `x = 123`.
#[derive(Debug, PartialEq)]
pub struct VarAssignExpr {
    pub name: String,
    pub value: Box<Expr>,
}

/// A call: what is called, the `)` that closes it, and the arguments in order.
#[derive(Debug, PartialEq)]
pub struct FnCallExpr {
    pub callee: Box<Expr>,
    pub paren: TokenType,
    pub arguments: Vec<Expr>,
}

/// Mathematical model of [`Expr`].
pub enum ExprView {
    Literal(ValueView),
    Unary { token: TokenKind, right: Box<ExprView> },
    Binary { left: Box<ExprView>, token: TokenKind, right: Box<ExprView> },
    Grouping { expr: Box<ExprView> },
    VarRead { name: Seq<char> },
    VarAssign { name: Seq<char>, value: Box<ExprView> },
    Logical { left: Box<ExprView>, token: TokenKind, right: Box<ExprView> },
    FnCall { callee: Box<ExprView>, paren: TokenKind, arguments: Seq<ExprView> },
}

impl Expr {
    /// The model of the expression, by structural recursion.
    pub open spec fn model(&self) -> ExprView
        decreases self,
    {
        match self {
            Expr::Literal(v) => ExprView::Literal(v@),
            Expr::Unary(e) => ExprView::Unary { token: e.token@, right: Box::new(e.right.model()) },
            Expr::Binary(e) => ExprView::Binary {
                left: Box::new(e.left.model()),
                token: e.token@,
                right: Box::new(e.right.model()),
            },
            Expr::Grouping(e) => ExprView::Grouping { expr: Box::new(e.expr.model()) },
            Expr::VarRead(e) => ExprView::VarRead { name: e.name@ },
            Expr::VarAssign(e) => ExprView::VarAssign {
                name: e.name@,
                value: Box::new(e.value.model()),
            },
            Expr::Logical(e) => ExprView::Logical {
                left: Box::new(e.left.model()),
                token: e.token@,
                right: Box::new(e.right.model()),
            },
            Expr::FnCall(e) => ExprView::FnCall {
                callee: Box::new(e.callee.model()),
                paren: e.paren@,
                arguments: Seq::new(
                    e.arguments@.len(),
                    |i: int|
                        if 0 <= i < e.arguments@.len() {
                            e.arguments@[i].model()
                        } else {
                            ExprView::Literal(ValueView::Nil)
                        },
                ),
            },
        }
    }
}

impl View for Expr {
    type V = ExprView;

    open spec fn view(&self) -> ExprView {
        self.model()
    }
}

/// The models of the expressions of `exprs`, in order.
#[verifier::opaque]
pub open spec fn exprs_view(exprs: Seq<Expr>) -> Seq<ExprView> {
    Seq::new(exprs.len(), |i: int| exprs[i]@)
}

/// A list and its model have the same length.
pub proof fn lemma_exprs_len(exprs: Seq<Expr>)
    ensures
        exprs_view(exprs).len() == exprs.len(),
{
    reveal(exprs_view);
}

/// The model of a list holds the models of its items.
pub proof fn lemma_exprs_index(exprs: Seq<Expr>, i: int)
    requires
        0 <= i < exprs.len(),
    ensures
        exprs_view(exprs)[i] == exprs[i]@,
{
    reveal(exprs_view);
}

/// The model of a call holds the models of its parts.
pub proof fn lemma_call_model(c: FnCallExpr)
    ensures
        Expr::FnCall(c)@ == (ExprView::FnCall {
            callee: Box::new(c.callee@),
            paren: c.paren@,
            arguments: exprs_view(c.arguments@),
        }),
{
    reveal(exprs_view);
    assert(Expr::FnCall(c)@->FnCall_arguments =~= exprs_view(c.arguments@));
}

/// Appends an expression to a list.
pub fn push_expr(list: &mut Vec<Expr>, e: Expr)
    ensures
        exprs_view(final(list)@) == exprs_view(old(list)@).push(e@),
{
    reveal(exprs_view);
    list.push(e);
    assert(exprs_view(list@) =~= exprs_view(old(list)@).push(e@));
}

/// A list without expressions.
pub fn no_exprs() -> (list: Vec<Expr>)
    ensures
        exprs_view(list@) == Seq::<ExprView>::empty(),
{
    reveal(exprs_view);
    let list: Vec<Expr> = Vec::new();
    assert(exprs_view(list@) =~= Seq::<ExprView>::empty());
    list
}

/// A call of `callee` with `arguments`.
pub fn call_expr(callee: Expr, paren: TokenType, arguments: Vec<Expr>) -> (e: Expr)
    ensures
        e@ == (ExprView::FnCall {
            callee: Box::new(callee@),
            paren: paren@,
            arguments: exprs_view(arguments@),
        }),
{
    reveal(exprs_view);
    let e = Expr::FnCall(FnCallExpr { callee: Box::new(callee), paren, arguments });
    assert(e@->FnCall_arguments =~= exprs_view(arguments@));
    e
}

impl VarAssignExpr {
    /// The assignment of `value` to the variable `name`.
    pub fn new(name: String, value: Expr) -> (r: Self)
        ensures
            r.name == name,
            *r.value == value,
    {
        VarAssignExpr { name: name, value: Box::new(value) }
    }
}

impl Expr {
    /// A copy equal in every part.
    pub fn duplicate(&self) -> (r: Expr)
        ensures
            r@ == self@,
        decreases self,
    {
        match self {
            Expr::Literal(v) => Expr::Literal(v.duplicate()),
            Expr::Unary(e) => Expr::Unary(
                UnaryExpr { token: e.token.duplicate(), right: Box::new(e.right.duplicate()) },
            ),
            Expr::Binary(e) => Expr::Binary(
                BinaryExpr {
                    left: Box::new(e.left.duplicate()),
                    token: e.token.duplicate(),
                    right: Box::new(e.right.duplicate()),
                },
            ),
            Expr::Grouping(e) => Expr::Grouping(GroupingExpr { expr: Box::new(e.expr.duplicate()) }),
            Expr::VarRead(e) => Expr::VarRead(VarReadExpr { name: e.name.clone() }),
            Expr::VarAssign(e) => Expr::VarAssign(
                VarAssignExpr { name: e.name.clone(), value: Box::new(e.value.duplicate()) },
            ),
            Expr::Logical(e) => Expr::Logical(
                LogicalExpr {
                    left: Box::new(e.left.duplicate()),
                    token: e.token.duplicate(),
                    right: Box::new(e.right.duplicate()),
                },
            ),
            Expr::FnCall(e) => {
                let mut arguments: Vec<Expr> = Vec::new();
                let mut i: usize = 0;
                while i < e.arguments.len()
                    invariant
                        i <= e.arguments.len(),
                        arguments.len() == i,
                        forall|j: int| 0 <= j < i ==> arguments@[j]@ == e.arguments@[j]@,
                        self == Expr::FnCall(*e),
                    decreases e.arguments.len() - i,
                {
                    proof {
                        broadcast use vstd::std_specs::vec::group_vec_axioms;

                        assert(decreases_to!(*self => self->FnCall_0.arguments));
                        assert(decreases_to!(e.arguments => e.arguments@[i as int]));
                    }
                    arguments.push(e.arguments[i].duplicate());
                    i += 1;
                }
                let r = Expr::FnCall(
                    FnCallExpr {
                        callee: Box::new(e.callee.duplicate()),
                        paren: e.paren.duplicate(),
                        arguments,
                    },
                );
                assert(r@->FnCall_arguments =~= self@->FnCall_arguments);
                r
            },
        }
    }
}

impl Clone for Expr {
    fn clone(&self) -> (r: Expr)
        ensures
            r@ == self@,
    {
        self.duplicate()
    }
}

} // verus!
