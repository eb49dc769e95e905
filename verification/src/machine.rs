//! The state of a running program: its scopes, its functions, the work that
//! waits on a stack, and what is being done now.
//!
//! Running is a sequence of small steps. What only the host can do (round
//! arithmetic, write a number as text, read the clock, print) is handed out
//! as an [`Action`]; the host answers with a [`Reply`].
use vstd::prelude::*;
use crate::environment::{
    assigned, defined, lookup, scopes_view, undefined_target, undefined_variable, Environment,
    EnvironmentView,
};
use crate::expressions::{exprs_view, Expr, ExprView, Value, ValueView};
use crate::numbers::ArithmeticOp;
use crate::statements::{
    body_model, FunctionStatement, FunctionStatementView, Statement, StatementView,
};
use crate::types::{Error, ErrorView, RuntimeError, RuntimeErrorView, TokenKind, TokenType};

verus! {

/// The functions that the host provides.
#[derive(Debug, Clone, Copy, PartialEq, Eq, Structural)]
pub enum NativeFunction {
    /// Milliseconds since the Unix epoch, as a number.
    Clock,
}

/// A function value: provided by the host, or declared by the program with
/// the scope it was declared in.
#[derive(Debug, PartialEq)]
pub enum Function {
    Native { arity: usize, func: NativeFunction },
    Declared { function_st: FunctionStatement, closure: usize },
}

/// Mathematical model of [`Function`].
pub enum FunctionView {
    Native { arity: nat, func: NativeFunction },
    Declared { function_st: FunctionStatementView, closure: nat },
}

impl View for Function {
    type V = FunctionView;

    open spec fn view(&self) -> FunctionView {
        match self {
            Function::Native { arity, func } => FunctionView::Native {
                arity: *arity as nat,
                func: *func,
            },
            Function::Declared { function_st, closure } => FunctionView::Declared {
                function_st: function_st@,
                closure: *closure as nat,
            },
        }
    }
}

/// Work that waits for the value or the end of what runs above it.
#[derive(Debug, PartialEq)]
pub enum Frame {
    /// Applies a unary operator to the value.
    Unary { token: TokenType },
    /// Has the left operand; evaluates the right one next.
    BinaryRight { token: TokenType, right: Expr, env: usize },
    /// Has both operands once the value arrives.
    BinaryApply { token: TokenType, left: Value },
    /// Has the left operand of `and` or `or`; may skip the right one.
    LogicalRight { token: TokenType, right: Expr, env: usize },
    /// Turns the right operand of `and` or `or` into the result.
    LogicalResult { token: TokenType },
    /// Assigns the value to a variable.
    Assign { name: String, env: usize },
    /// Has the callee once the value arrives; evaluates the arguments next.
    Callee { arguments: Vec<Expr>, env: usize },
    /// Collects the values of the arguments in order.
    Arguments { callee: Value, done: Vec<Value>, arguments: Vec<Expr>, env: usize },
    /// The boundary of a call: a `return` stops here.
    Call,
    /// Drops the value of an expression statement.
    Discard,
    /// Prints the value.
    Print,
    /// Prints the text of a number.
    PrintText,
    /// Appends the text of a number to a string.
    Concat { left: String },
    /// Binds the value to a new variable.
    Define { name: String, env: usize },
    /// Chooses a branch by the value.
    Branch { then_: Statement, else_: Option<Statement>, env: usize },
    /// Runs the body of a loop if the value is true.
    LoopTest { condition: Expr, body: Statement, env: usize },
    /// Tests the condition of a loop again after its body.
    LoopBody { condition: Expr, body: Statement, env: usize },
    /// Returns the value from the function.
    ReturnValue,
    /// Runs the statements from `next` on, one after the other.
    Sequence { statements: Vec<Result<Statement, Error>>, next: usize, env: usize },
}

/// Mathematical model of [`Frame`].
pub enum FrameView {
    Unary { token: TokenKind },
    BinaryRight { token: TokenKind, right: ExprView, env: nat },
    BinaryApply { token: TokenKind, left: ValueView },
    LogicalRight { token: TokenKind, right: ExprView, env: nat },
    LogicalResult { token: TokenKind },
    Assign { name: Seq<char>, env: nat },
    Callee { arguments: Seq<ExprView>, env: nat },
    Arguments { callee: ValueView, done: Seq<ValueView>, arguments: Seq<ExprView>, env: nat },
    Call,
    Discard,
    Print,
    PrintText,
    Concat { left: Seq<char> },
    Define { name: Seq<char>, env: nat },
    Branch { then_: StatementView, else_: Option<StatementView>, env: nat },
    LoopTest { condition: ExprView, body: StatementView, env: nat },
    LoopBody { condition: ExprView, body: StatementView, env: nat },
    ReturnValue,
    Sequence { statements: Seq<Result<StatementView, ErrorView>>, next: nat, env: nat },
}

/// How a run ends: with a value, or with the error that stopped it.
pub type Outcome = Result<Value, RuntimeError>;

/// Mathematical model of [`Outcome`].
pub type OutcomeView = Result<ValueView, RuntimeErrorView>;

/// The model of an outcome.
pub open spec fn outcome_view(o: Outcome) -> OutcomeView {
    match o {
        Ok(v) => Ok(v@),
        Err(e) => Err(e@),
    }
}

/// The models of the values of `values`, in order.
#[verifier::opaque]
pub open spec fn values_view(values: Seq<Value>) -> Seq<ValueView> {
    Seq::new(values.len(), |i: int| values[i]@)
}

/// The model of a list of values has the length of the list and holds the
/// models of its items.
pub proof fn lemma_values_index(values: Seq<Value>, i: int)
    ensures
        values_view(values).len() == values.len(),
        0 <= i < values.len() ==> values_view(values)[i] == values[i]@,
{
    reveal(values_view);
}

/// Appends a value to a list.
pub fn push_value(list: &mut Vec<Value>, v: Value)
    ensures
        values_view(final(list)@) == values_view(old(list)@).push(v@),
{
    reveal(values_view);
    list.push(v);
    assert(values_view(list@) =~= values_view(old(list)@).push(v@));
}

/// A list without values.
pub fn no_values() -> (list: Vec<Value>)
    ensures
        values_view(list@) == Seq::<ValueView>::empty(),
{
    reveal(values_view);
    let list: Vec<Value> = Vec::new();
    assert(values_view(list@) =~= Seq::<ValueView>::empty());
    list
}

/// A copy of an outcome.
pub fn duplicate_outcome(o: &Outcome) -> (r: Outcome)
    ensures
        outcome_view(r) == outcome_view(*o),
{
    match o {
        Ok(v) => Ok(v.duplicate()),
        Err(e) => Err(e.duplicate()),
    }
}

impl View for Frame {
    type V = FrameView;

    open spec fn view(&self) -> FrameView {
        match self {
            Frame::Unary { token } => FrameView::Unary { token: token@ },
            Frame::BinaryRight { token, right, env } => FrameView::BinaryRight {
                token: token@,
                right: right@,
                env: *env as nat,
            },
            Frame::BinaryApply { token, left } => FrameView::BinaryApply {
                token: token@,
                left: left@,
            },
            Frame::LogicalRight { token, right, env } => FrameView::LogicalRight {
                token: token@,
                right: right@,
                env: *env as nat,
            },
            Frame::LogicalResult { token } => FrameView::LogicalResult { token: token@ },
            Frame::Assign { name, env } => FrameView::Assign { name: name@, env: *env as nat },
            Frame::Callee { arguments, env } => FrameView::Callee {
                arguments: exprs_view(arguments@),
                env: *env as nat,
            },
            Frame::Arguments { callee, done, arguments, env } => FrameView::Arguments {
                callee: callee@,
                done: values_view(done@),
                arguments: exprs_view(arguments@),
                env: *env as nat,
            },
            Frame::Call => FrameView::Call,
            Frame::Discard => FrameView::Discard,
            Frame::Print => FrameView::Print,
            Frame::PrintText => FrameView::PrintText,
            Frame::Concat { left } => FrameView::Concat { left: left@ },
            Frame::Define { name, env } => FrameView::Define { name: name@, env: *env as nat },
            Frame::Branch { then_, else_, env } => FrameView::Branch {
                then_: then_@,
                else_: match else_ {
                    Some(s) => Some(s@),
                    None => None,
                },
                env: *env as nat,
            },
            Frame::LoopTest { condition, body, env } => FrameView::LoopTest {
                condition: condition@,
                body: body@,
                env: *env as nat,
            },
            Frame::LoopBody { condition, body, env } => FrameView::LoopBody {
                condition: condition@,
                body: body@,
                env: *env as nat,
            },
            Frame::ReturnValue => FrameView::ReturnValue,
            Frame::Sequence { statements, next, env } => FrameView::Sequence {
                statements: body_model(statements@),
                next: *next as nat,
                env: *env as nat,
            },
        }
    }
}


/// What the machine is doing now.
#[derive(Debug, PartialEq)]
pub enum Control {
    /// Evaluating an expression in a scope.
    Evaluate(Expr, usize),
    /// Executing a statement in a scope.
    Execute(Statement, usize),
    /// Handing a value to the frame on top of the stack.
    Deliver(Value),
    /// Telling the frame on top that a statement has ended.
    Complete,
    /// Unwinding to the nearest call with the value returned.
    Returning(Value),
    /// Stopping with a fatal error.
    Failing(RuntimeError),
    /// Waiting for a number from the host.
    AwaitNumber,
    /// Waiting for a text from the host.
    AwaitText,
    /// At rest: the run has ended.
    Finished(Outcome),
}

/// Mathematical model of [`Control`].
pub enum ControlView {
    Evaluate(ExprView, nat),
    Execute(StatementView, nat),
    Deliver(ValueView),
    Complete,
    Returning(ValueView),
    Failing(RuntimeErrorView),
    AwaitNumber,
    AwaitText,
    Finished(OutcomeView),
}

impl View for Control {
    type V = ControlView;

    open spec fn view(&self) -> ControlView {
        match self {
            Control::Evaluate(e, env) => ControlView::Evaluate(e@, *env as nat),
            Control::Execute(s, env) => ControlView::Execute(s@, *env as nat),
            Control::Deliver(v) => ControlView::Deliver(v@),
            Control::Complete => ControlView::Complete,
            Control::Returning(v) => ControlView::Returning(v@),
            Control::Failing(e) => ControlView::Failing(e@),
            Control::AwaitNumber => ControlView::AwaitNumber,
            Control::AwaitText => ControlView::AwaitText,
            Control::Finished(o) => ControlView::Finished(outcome_view(*o)),
        }
    }
}

/// What a step asks of the host.
#[derive(Debug, PartialEq)]
pub enum Action {
    /// Nothing: step again.
    Continue,
    /// Compute `left op right` and reply with the number.
    Arithmetic { op: ArithmeticOp, left: u64, right: u64 },
    /// Write the number as text and reply with the text.
    Render { number: u64 },
    /// Read the clock and reply with the milliseconds as a number.
    Clock,
    /// Print the text and a newline, then step again.
    Print { text: String },
    /// The run has ended with this outcome.
    Finished { outcome: Outcome },
}

/// Mathematical model of [`Action`].
pub enum ActionView {
    Continue,
    Arithmetic { op: ArithmeticOp, left: u64, right: u64 },
    Render { number: u64 },
    Clock,
    Print { text: Seq<char> },
    Finished { outcome: OutcomeView },
}

impl View for Action {
    type V = ActionView;

    open spec fn view(&self) -> ActionView {
        match self {
            Action::Continue => ActionView::Continue,
            Action::Arithmetic { op, left, right } => ActionView::Arithmetic {
                op: *op,
                left: *left,
                right: *right,
            },
            Action::Render { number } => ActionView::Render { number: *number },
            Action::Clock => ActionView::Clock,
            Action::Print { text } => ActionView::Print { text: text@ },
            Action::Finished { outcome } => ActionView::Finished { outcome: outcome_view(*outcome) },
        }
    }
}

/// What the host answers.
#[derive(Debug, PartialEq)]
pub enum Reply {
    /// Nothing was asked.
    Nothing,
    Number(u64),
    Text(String),
}

/// Mathematical model of [`Reply`].
pub enum ReplyView {
    Nothing,
    Number(u64),
    Text(Seq<char>),
}

impl View for Reply {
    type V = ReplyView;

    open spec fn view(&self) -> ReplyView {
        match self {
            Reply::Nothing => ReplyView::Nothing,
            Reply::Number(n) => ReplyView::Number(*n),
            Reply::Text(s) => ReplyView::Text(s@),
        }
    }
}

/// Mathematical model of [`Interpreter`].
pub struct MachineView {
    pub scopes: Seq<EnvironmentView>,
    pub functions: Seq<FunctionView>,
    pub stack: Seq<FrameView>,
    pub control: ControlView,
}

impl MachineView {
    /// The machine doing `c` next.
    pub open spec fn go(self, c: ControlView) -> MachineView {
        MachineView { control: c, ..self }
    }

    /// The machine with `f` on top of the stack.
    pub open spec fn push(self, f: FrameView) -> MachineView {
        MachineView { stack: self.stack.push(f), ..self }
    }

    /// The machine without the frame on top of the stack.
    pub open spec fn pop(self) -> MachineView {
        MachineView { stack: self.stack.drop_last(), ..self }
    }

    /// The machine with `name` bound to `value` in scope `env`.
    pub open spec fn define(self, env: nat, name: Seq<char>, value: ValueView) -> MachineView {
        MachineView { scopes: defined(self.scopes, env, name, value), ..self }
    }

    /// The machine with a new empty scope inside `enclosing`; the new scope
    /// is the last one.
    pub open spec fn open_scope(self, enclosing: nat) -> MachineView {
        MachineView {
            scopes: self.scopes.push(
                EnvironmentView { enclosing: Some(enclosing), values: Map::empty() },
            ),
            ..self
        }
    }

    /// The machine with one more function; the new function is the last one.
    pub open spec fn declare(self, f: FunctionView) -> MachineView {
        MachineView { functions: self.functions.push(f), ..self }
    }
}

/// The models of the functions of `functions`, in order.
#[verifier::opaque]
pub open spec fn functions_view(functions: Seq<Function>) -> Seq<FunctionView> {
    Seq::new(functions.len(), |i: int| functions[i]@)
}

/// The models of the frames of `frames`, in order.
#[verifier::opaque]
pub open spec fn frames_view(frames: Seq<Frame>) -> Seq<FrameView> {
    Seq::new(frames.len(), |i: int| frames[i]@)
}

/// A running program.
///
/// Scopes and functions live in two lists and are known by their index
/// there. Both lists only grow: a scope stays in its list after the block or
/// the call that opened it has ended, whether or not a function has captured
/// it, and is given back only when the `Interpreter` itself is dropped. What
/// a program computes does not depend on this, since a scope that nothing
/// refers to is never read again; what it costs is memory, which grows with
/// every block entered and every call made, so a long loop with a block for
/// its body keeps one empty scope for each turn.
#[derive(Debug)]
pub struct Interpreter {
    scopes: Vec<Environment>,
    functions: Vec<Function>,
    stack: Vec<Frame>,
    control: Control,
}

impl View for Interpreter {
    type V = MachineView;

    closed spec fn view(&self) -> MachineView {
        MachineView {
            scopes: scopes_view(self.scopes@),
            functions: functions_view(self.functions@),
            stack: frames_view(self.stack@),
            control: self.control@,
        }
    }
}

impl Interpreter {
    /// A machine with nothing in it that does `control` next.
    pub fn empty(control: Control) -> (m: Self)
        ensures
            m@ == (MachineView {
                scopes: Seq::empty(),
                functions: Seq::empty(),
                stack: Seq::empty(),
                control: control@,
            }),
    {
        reveal(scopes_view);
        reveal(functions_view);
        reveal(frames_view);
        let m = Interpreter {
            scopes: Vec::new(),
            functions: Vec::new(),
            stack: Vec::new(),
            control,
        };
        assert(m@.scopes =~= Seq::empty());
        assert(m@.functions =~= Seq::empty());
        assert(m@.stack =~= Seq::empty());
        m
    }

    /// Takes what the machine is doing, leaving it at `Complete`.
    pub fn take(self) -> (r: (Self, Control))
        ensures
            r.1@ == self@.control,
            r.0@ == self@.go(ControlView::Complete),
    {
        let Interpreter { scopes, functions, stack, control } = self;
        (Interpreter { scopes, functions, stack, control: Control::Complete }, control)
    }

    /// The machine doing `control` next.
    pub fn go(self, control: Control) -> (m: Self)
        ensures
            m@ == self@.go(control@),
    {
        let Interpreter { scopes, functions, stack, control: _ } = self;
        Interpreter { scopes, functions, stack, control }
    }

    /// The machine with `frame` on top of the stack.
    pub fn push(self, frame: Frame) -> (m: Self)
        ensures
            m@ == self@.push(frame@),
    {
        reveal(frames_view);
        let mut m = self;
        m.stack.push(frame);
        assert(m@.stack =~= self@.stack.push(frame@));
        m
    }

    /// Takes the frame on top of the stack, if there is one.
    pub fn pop(self) -> (r: (Self, Option<Frame>))
        ensures
            match r.1 {
                Some(f) => self@.stack.len() > 0 && f@ == self@.stack.last() && r.0@
                    == self@.pop(),
                None => self@.stack.len() == 0 && r.0@ == self@,
            },
    {
        reveal(frames_view);
        let mut m = self;
        let top = m.stack.pop();
        proof {
            if top is Some {
                assert(m@.stack =~= self@.stack.drop_last());
            }
        }
        (m, top)
    }

    /// The value of `name` seen from scope `env`.
    pub fn read(&self, env: usize, name: &String) -> (r: Result<Value, RuntimeError>)
        ensures
            match lookup(self@.scopes, env as nat, name@) {
                Some(v) => r matches Ok(found) && found@ == v,
                None => r matches Err(e) && e@ == undefined_variable(),
            },
    {
        Environment::get_value(&self.scopes, env, name)
    }

    /// Assigns to the binding that `name` resolves to from scope `env`.
    pub fn write(self, env: usize, name: String, value: Value) -> (r: (
        Self,
        Result<(), RuntimeError>,
    ))
        ensures
            match assigned(self@.scopes, env as nat, name@, value@) {
                Some(after) => r.1 is Ok && r.0@ == (MachineView { scopes: after, ..self@ }),
                None => r.1 matches Err(e) && e@ == undefined_target() && r.0@ == self@,
            },
    {
        let mut m = self;
        let r = Environment::assign(&mut m.scopes, env, name, value);
        (m, r)
    }

    /// Binds `name` in scope `env`; nothing happens if there is no such scope.
    pub fn define(self, env: usize, name: String, value: Value) -> (m: Self)
        ensures
            m@ == self@.define(env as nat, name@, value@),
    {
        reveal(scopes_view);
        let mut m = self;
        if env < m.scopes.len() {
            m.scopes[env].define(name, value);
            assert(m@.scopes =~= defined(self@.scopes, env as nat, name@, value@));
        }
        m
    }

    /// Opens an empty scope inside `enclosing` and returns its index.
    pub fn open_scope(self, enclosing: usize) -> (r: (Self, usize))
        ensures
            r.1 == self@.scopes.len(),
            r.0@ == self@.open_scope(enclosing as nat),
    {
        reveal(scopes_view);
        let mut m = self;
        let id = m.scopes.len();
        let scope = Environment::new(Some(enclosing));
        m.scopes.push(scope);
        assert(m@.scopes =~= self@.open_scope(enclosing as nat).scopes);
        (m, id)
    }

    /// Opens the global scope: an empty scope inside no other.
    pub fn open_global(self) -> (r: (Self, usize))
        ensures
            r.1 == self@.scopes.len(),
            r.0@ == (MachineView {
                scopes: self@.scopes.push(
                    EnvironmentView { enclosing: None, values: Map::empty() },
                ),
                ..self@
            }),
    {
        reveal(scopes_view);
        let mut m = self;
        let id = m.scopes.len();
        let scope = Environment::new(None);
        m.scopes.push(scope);
        assert(m@.scopes =~= self@.scopes.push(
            EnvironmentView { enclosing: None, values: Map::empty() },
        ));
        (m, id)
    }

    /// Adds a function and returns its handle.
    pub fn declare(self, f: Function) -> (r: (Self, usize))
        ensures
            r.1 == self@.functions.len(),
            r.0@ == self@.declare(f@),
    {
        reveal(functions_view);
        let mut m = self;
        let id = m.functions.len();
        m.functions.push(f);
        assert(m@.functions =~= self@.functions.push(f@));
        (m, id)
    }

    /// A copy of the function with handle `id`, if there is one.
    pub fn function(&self, id: usize) -> (r: Option<Function>)
        ensures
            match r {
                Some(f) => id < self@.functions.len() && f@ == self@.functions[id as int],
                None => id >= self@.functions.len(),
            },
    {
        reveal(functions_view);
        if id < self.functions.len() {
            Some(
                match &self.functions[id] {
                    Function::Native { arity, func } => Function::Native {
                        arity: *arity,
                        func: *func,
                    },
                    Function::Declared { function_st, closure } => Function::Declared {
                        function_st: function_st.duplicate(),
                        closure: *closure,
                    },
                },
            )
        } else {
            None
        }
    }

    /// Whether the run has ended.
    pub fn is_finished(&self) -> (b: bool)
        ensures
            b == (self@.control is Finished),
    {
        match &self.control {
            Control::Finished(_) => true,
            _ => false,
        }
    }
}

} // verus!
