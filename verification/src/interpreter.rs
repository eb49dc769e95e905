//! The evaluator: the steps of [`crate::semantics`], computed.
use vstd::prelude::*;
use vstd::string::StringExecFns;
use crate::environment::EnvironmentView;
use crate::expressions::{
    exprs_view, lemma_call_model, lemma_exprs_index, lemma_exprs_len, BinaryExpr, Expr, FnCallExpr,
    GroupingExpr, LogicalExpr, UnaryExpr, Value, ValueView, VarAssignExpr,
};
use crate::machine::{
    duplicate_outcome, lemma_values_index, no_values, outcome_view, push_value, values_view, Action,
    Control, ControlView, Frame, FrameView, Function, FunctionView, Interpreter, MachineView,
    NativeFunction, Outcome, Reply,
};
use crate::operators;
use crate::operators::Computed;
use crate::semantics;
use crate::semantics::StepView;
use crate::statements::{
    body_model, lemma_block_model, lemma_body_index, lemma_function_model, lemma_names_index,
    lemma_names_len, names_view, FunctionStatement, Statement,
};
use crate::types::{push_decimal, Error, RuntimeError, RuntimeErrorKind, TokenType};

verus! {

/// The model of what a step returned.
pub open spec fn step_view(r: (Interpreter, Action)) -> StepView {
    StepView { machine: r.0@, action: r.1@ }
}

fn stuck() -> (e: RuntimeError)
    ensures
        e@ == semantics::stuck(),
{
    RuntimeError::new(RuntimeErrorKind::Internal, String::from_str("Unexpected machine state."))
}

fn protocol() -> (e: RuntimeError)
    ensures
        e@ == semantics::protocol(),
{
    RuntimeError::new(RuntimeErrorKind::Protocol, String::from_str("Unexpected reply from the host."))
}

fn not_callable() -> (e: RuntimeError)
    ensures
        e@ == semantics::not_callable(),
{
    RuntimeError::new(
        RuntimeErrorKind::NotCallable,
        String::from_str("can only call functions"),
    )
}

fn arity_mismatch(expected: usize, actual: usize) -> (e: RuntimeError)
    ensures
        e@ == semantics::arity_mismatch(expected as nat, actual as nat),
{
    let mut message = String::from_str("Expected ");
    push_decimal(&mut message, expected);
    message.append(" arguments but got ");
    push_decimal(&mut message, actual);
    message.append(".");
    RuntimeError::new(RuntimeErrorKind::ArityMismatch, message)
}

/// A step that ends in the error `e`.
fn fail(machine: Interpreter, e: RuntimeError) -> (r: (Interpreter, Action))
    ensures
        step_view(r) == semantics::fail(machine@, e@),
{
    (machine.go(Control::Failing(e)), Action::Continue)
}

impl Expr {
    /// Starts the evaluation of the expression in scope `env`: the machine
    /// turns to its first operand and remembers what to do with the value.
    pub fn evaluated(self, machine: Interpreter, env: usize) -> (m: Interpreter)
        ensures
            m@ == semantics::evaluate(machine@, self@, env as nat),
    {
        reveal(semantics::evaluate);
        match self {
            Expr::Literal(v) => machine.go(Control::Deliver(v)),
            Expr::Grouping(g) => {
                let GroupingExpr { expr } = g;
                machine.go(Control::Evaluate(*expr, env))
            },
            Expr::Unary(u) => {
                let UnaryExpr { token, right } = u;
                machine.push(Frame::Unary { token }).go(Control::Evaluate(*right, env))
            },
            Expr::Binary(b) => {
                let BinaryExpr { left, token, right } = b;
                machine.push(Frame::BinaryRight { token, right: *right, env }).go(
                    Control::Evaluate(*left, env),
                )
            },
            Expr::Logical(l) => {
                let LogicalExpr { left, token, right } = l;
                machine.push(Frame::LogicalRight { token, right: *right, env }).go(
                    Control::Evaluate(*left, env),
                )
            },
            Expr::VarRead(r) => match machine.read(env, &r.name) {
                Ok(v) => machine.go(Control::Deliver(v)),
                Err(e) => machine.go(Control::Failing(e)),
            },
            Expr::VarAssign(a) => {
                let VarAssignExpr { name, value } = a;
                machine.push(Frame::Assign { name, env }).go(Control::Evaluate(*value, env))
            },
            Expr::FnCall(c) => {
                proof {
                    lemma_call_model(c);
                }
                let FnCallExpr { callee, paren: _, arguments } = c;
                machine.push(Frame::Callee { arguments, env }).go(Control::Evaluate(*callee, env))
            },
        }
    }
}

/// Enters a block: opens a scope inside `parent_scope` and lines up the
/// statements to run in it.
pub fn execute_block(
    machine: Interpreter,
    parent_scope: usize,
    statements: Vec<Result<Statement, Error>>,
) -> (m: Interpreter)
    ensures
        m@ == semantics::execute_block(machine@, parent_scope as nat, body_model(statements@)),
{
    reveal(semantics::execute_block);
    let (machine, scope) = machine.open_scope(parent_scope);
    machine.push(Frame::Sequence { statements, next: 0, env: scope }).go(Control::Complete)
}

/// Declares a function in scope `env`, which it captures.
pub fn execute_function_statement(machine: Interpreter, fn_st: FunctionStatement, env: usize) -> (m:
    Interpreter)
    ensures
        m@ == semantics::execute_function(machine@, fn_st@, env as nat),
{
    reveal(semantics::execute_function);
    let name = fn_st.name.clone();
    let (machine, id) = machine.declare(Function::Declared { function_st: fn_st, closure: env });
    machine.define(env, name, Value::Callable(id)).go(Control::Complete)
}

impl Statement {
    /// Starts the execution of the statement in scope `env`.
    pub fn execute(self, machine: Interpreter, env: usize) -> (m: Interpreter)
        ensures
            m@ == semantics::execute(machine@, self@, env as nat),
    {
        reveal(semantics::execute);
        match self {
            Statement::ExprSt(e) => machine.push(Frame::Discard).go(Control::Evaluate(e, env)),
            Statement::PrintSt(e) => machine.push(Frame::Print).go(Control::Evaluate(e, env)),
            Statement::VariableSt(name, e) => machine.push(Frame::Define { name, env }).go(
                Control::Evaluate(e, env),
            ),
            Statement::BlockSt(statements) => {
                proof {
                    lemma_block_model(statements);
                }
                execute_block(machine, env, statements)
            },
            Statement::IfSt { condition, then_, else_ } => {
                let other = match else_ {
                    Some(s) => Some(*s),
                    None => None,
                };
                machine.push(Frame::Branch { then_: *then_, else_: other, env }).go(
                    Control::Evaluate(condition, env),
                )
            },
            Statement::While { condition, body } => {
                let test = condition.duplicate();
                machine.push(Frame::LoopTest { condition, body: *body, env }).go(
                    Control::Evaluate(test, env),
                )
            },
            Statement::FunctionSt(f) => {
                proof {
                    lemma_function_model(f);
                }
                execute_function_statement(machine, f, env)
            },
            Statement::ReturnSt { keyword: _, value } => machine.push(Frame::ReturnValue).go(
                Control::Evaluate(value, env),
            ),
        }
    }
}

impl Function {
    /// The number of arguments the function takes.
    pub fn arity(&self) -> (n: usize)
        ensures
            n == semantics::arity(self@),
    {
        match self {
            Function::Native { arity, func: _ } => *arity,
            Function::Declared { function_st, closure: _ } => {
                proof {
                    lemma_names_len(function_st.params@);
                }
                function_st.params.len()
            },
        }
    }

    /// Enters the function with `arguments`, which must be as many as it
    /// takes. A native function is asked of the host; a declared one gets a
    /// scope inside the scope it was declared in, with its parameters bound,
    /// and its body lined up behind a call boundary.
    pub fn call(self, machine: Interpreter, arguments: Vec<Value>) -> (r: (Interpreter, Action))
        ensures
            step_view(r) == semantics::enter(machine@, self@, values_view(arguments@)),
    {
        reveal(semantics::enter);
        proof {
            lemma_values_index(arguments@, 0);
        }
        if arguments.len() != self.arity() {
            return fail(machine, arity_mismatch(self.arity(), arguments.len()));
        }
        match self {
            Function::Native { arity: _, func } => match func {
                NativeFunction::Clock => (machine.go(Control::AwaitNumber), Action::Clock),
            },
            Function::Declared { function_st, closure } => {
                let FunctionStatement { name: _, params, body } = function_st;
                let ghost base = machine@;
                proof {
                    lemma_names_len(params@);
                }
                let (opened, scope) = machine.open_scope(closure);
                let m = bind_parameters(opened, scope, &params, &arguments);
                assert(m@.scopes =~= base.scopes.push(
                    EnvironmentView {
                        enclosing: Some(closure as nat),
                        values: semantics::bound(
                            names_view(params@),
                            values_view(arguments@),
                            names_view(params@).len(),
                        ),
                    },
                ));
                (
                    m.push(Frame::Call).push(Frame::Sequence { statements: body, next: 0, env: scope }).go(
                        Control::Complete,
                    ),
                    Action::Continue,
                )
            },
        }
    }
}

/// Binds each parameter to its argument in the empty scope `scope`.
fn bind_parameters(machine: Interpreter, scope: usize, params: &Vec<String>, arguments: &Vec<Value>)
    -> (m: Interpreter)
    requires
        arguments.len() == params.len(),
        scope < machine@.scopes.len(),
        machine@.scopes[scope as int].values == Map::<Seq<char>, ValueView>::empty(),
    ensures
        m@ == (MachineView {
            scopes: machine@.scopes.update(
                scope as int,
                EnvironmentView {
                    enclosing: machine@.scopes[scope as int].enclosing,
                    values: semantics::bound(
                        names_view(params@),
                        values_view(arguments@),
                        names_view(params@).len(),
                    ),
                },
            ),
            ..machine@
        }),
{
    let ghost base = machine@;
    let ghost names = names_view(params@);
    let ghost values = values_view(arguments@);
    proof {
        lemma_names_len(params@);
        assert(base.scopes =~= base.scopes.update(
            scope as int,
            EnvironmentView {
                enclosing: base.scopes[scope as int].enclosing,
                values: semantics::bound(names, values, 0),
            },
        ));
    }
    let mut m = machine;
    let mut i: usize = 0;
    while i < params.len()
        invariant
            i <= params.len(),
            arguments.len() == params.len(),
            scope < base.scopes.len(),
            names == names_view(params@),
            values == values_view(arguments@),
            m@ == (MachineView {
                scopes: base.scopes.update(
                    scope as int,
                    EnvironmentView {
                        enclosing: base.scopes[scope as int].enclosing,
                        values: semantics::bound(names, values, i as nat),
                    },
                ),
                ..base
            }),
        decreases params.len() - i,
    {
        proof {
            lemma_names_index(params@, i as int);
            lemma_values_index(arguments@, i as int);
        }
        m = m.define(scope, params[i].clone(), arguments[i].duplicate());
        i += 1;
        assert(m@.scopes =~= base.scopes.update(
            scope as int,
            EnvironmentView {
                enclosing: base.scopes[scope as int].enclosing,
                values: semantics::bound(names, values, i as nat),
            },
        ));
    }
    m
}

/// Calls `callee` with `args` if it is a function.
pub fn invoke(machine: Interpreter, callee: Value, args: Vec<Value>) -> (r: (Interpreter, Action))
    ensures
        step_view(r) == semantics::invoke(machine@, callee@, values_view(args@)),
{
    reveal(semantics::invoke);
    match callee {
        Value::Callable(id) => match machine.function(id) {
            Some(f) => f.call(machine, args),
            None => fail(machine, not_callable()),
        },
        _ => fail(machine, not_callable()),
    }
}

fn apply_binary(machine: Interpreter, token: TokenType, left: Value, value: Value) -> (r: (
    Interpreter,
    Action,
))
    ensures
        step_view(r) == semantics::apply_binary(machine@, token@, left@, value@),
{
    reveal(semantics::apply_binary);
    match operators::binary(&left, &token, &value) {
        Ok(Computed::Value(v)) => (machine.go(Control::Deliver(v)), Action::Continue),
        Ok(Computed::Arithmetic { op, left, right }) => (
            machine.go(Control::AwaitNumber),
            Action::Arithmetic { op, left, right },
        ),
        Ok(Computed::Concat { left, number }) => (
            machine.push(Frame::Concat { left }).go(Control::AwaitText),
            Action::Render { number },
        ),
        Err(e) => fail(machine, e),
    }
}

fn logical_right(machine: Interpreter, token: TokenType, right: Expr, env: usize, value: Value) -> (m:
    Interpreter)
    ensures
        m@ == semantics::logical_right(machine@, token@, right@, env as nat, value@),
{
    reveal(semantics::logical_right);
    let is_or = match &token {
        TokenType::Or => true,
        _ => false,
    };
    let truth = operators::is_truthy(&value);
    if is_or && truth {
        machine.go(Control::Deliver(Value::Boolean(true)))
    } else if !is_or && !truth {
        machine.go(Control::Deliver(Value::Boolean(false)))
    } else {
        machine.push(Frame::LogicalResult { token }).go(Control::Evaluate(right, env))
    }
}

fn logical_result(token: &TokenType, value: &Value) -> (v: Value)
    ensures
        v@ == ValueView::Boolean(
            operators::truthy(value@) && (token@ is Or || token@ is And),
        ),
{
    let known = match token {
        TokenType::Or => true,
        TokenType::And => true,
        _ => false,
    };
    Value::Boolean(operators::is_truthy(value) && known)
}

fn assign(machine: Interpreter, name: String, env: usize, value: Value) -> (m: Interpreter)
    ensures
        m@ == semantics::assign(machine@, name@, env as nat, value@),
{
    reveal(semantics::assign);
    let result = value.duplicate();
    let (machine, written) = machine.write(env, name, value);
    match written {
        Ok(_) => machine.go(Control::Deliver(result)),
        Err(e) => machine.go(Control::Failing(e)),
    }
}

fn callee(machine: Interpreter, arguments: Vec<Expr>, env: usize, value: Value) -> (r: (
    Interpreter,
    Action,
))
    ensures
        step_view(r) == semantics::callee(machine@, exprs_view(arguments@), env as nat, value@),
{
    reveal(semantics::callee);
    proof {
        lemma_exprs_len(arguments@);
    }
    if arguments.len() == 0 {
        invoke(machine, value, no_values())
    } else {
        proof {
            lemma_exprs_index(arguments@, 0);
        }
        let first = arguments[0].duplicate();
        (
            machine.push(Frame::Arguments { callee: value, done: no_values(), arguments, env }).go(
                Control::Evaluate(first, env),
            ),
            Action::Continue,
        )
    }
}

fn argument(
    machine: Interpreter,
    callee: Value,
    done: Vec<Value>,
    arguments: Vec<Expr>,
    env: usize,
    value: Value,
) -> (r: (Interpreter, Action))
    ensures
        step_view(r) == semantics::argument(
            machine@,
            callee@,
            values_view(done@),
            exprs_view(arguments@),
            env as nat,
            value@,
        ),
{
    reveal(semantics::argument);
    let mut done = done;
    push_value(&mut done, value);
    proof {
        lemma_exprs_len(arguments@);
        lemma_values_index(done@, 0);
    }
    if done.len() < arguments.len() {
        proof {
            lemma_exprs_index(arguments@, done.len() as int);
        }
        let next = arguments[done.len()].duplicate();
        (
            machine.push(Frame::Arguments { callee, done, arguments, env }).go(
                Control::Evaluate(next, env),
            ),
            Action::Continue,
        )
    } else {
        invoke(machine, callee, done)
    }
}

fn print(machine: Interpreter, value: Value) -> (r: (Interpreter, Action))
    ensures
        step_view(r) == semantics::print(machine@, value@),
{
    reveal(semantics::print);
    match operators::printed(&value) {
        Some(text) => (machine.go(Control::Complete), Action::Print { text }),
        None => match value {
            Value::Number(number) => (
                machine.push(Frame::PrintText).go(Control::AwaitText),
                Action::Render { number },
            ),
            _ => fail(machine, stuck()),
        },
    }
}

fn branch(machine: Interpreter, then_: Statement, else_: Option<Statement>, env: usize, value: Value)
    -> (m: Interpreter)
    ensures
        m@ == semantics::branch(
            machine@,
            then_@,
            match else_ {
                Some(s) => Some(s@),
                None => None,
            },
            env as nat,
            value@,
        ),
{
    reveal(semantics::branch);
    if operators::is_truthy(&value) {
        machine.go(Control::Execute(then_, env))
    } else {
        match else_ {
            Some(s) => machine.go(Control::Execute(s, env)),
            None => machine.go(Control::Complete),
        }
    }
}

fn loop_test(machine: Interpreter, condition: Expr, body: Statement, env: usize, value: Value) -> (m:
    Interpreter)
    ensures
        m@ == semantics::loop_test(machine@, condition@, body@, env as nat, value@),
{
    reveal(semantics::loop_test);
    if operators::is_truthy(&value) {
        let run = body.duplicate();
        machine.push(Frame::LoopBody { condition, body, env }).go(Control::Execute(run, env))
    } else {
        machine.go(Control::Complete)
    }
}

/// Hands `value` to `frame`, which was taken from the top of the stack.
pub fn deliver(machine: Interpreter, frame: Frame, value: Value) -> (r: (Interpreter, Action))
    ensures
        step_view(r) == semantics::deliver(machine@, frame@, value@),
{
    reveal(semantics::deliver);
    match frame {
        Frame::Unary { token } => match operators::unary(&token, &value) {
            Ok(v) => (machine.go(Control::Deliver(v)), Action::Continue),
            Err(e) => fail(machine, e),
        },
        Frame::BinaryRight { token, right, env } => (
            machine.push(Frame::BinaryApply { token, left: value }).go(
                Control::Evaluate(right, env),
            ),
            Action::Continue,
        ),
        Frame::BinaryApply { token, left } => apply_binary(machine, token, left, value),
        Frame::LogicalRight { token, right, env } => (
            logical_right(machine, token, right, env, value),
            Action::Continue,
        ),
        Frame::LogicalResult { token } => (
            machine.go(Control::Deliver(logical_result(&token, &value))),
            Action::Continue,
        ),
        Frame::Assign { name, env } => (assign(machine, name, env, value), Action::Continue),
        Frame::Callee { arguments, env } => callee(machine, arguments, env, value),
        Frame::Arguments { callee, done, arguments, env } => argument(
            machine,
            callee,
            done,
            arguments,
            env,
            value,
        ),
        Frame::Discard => (machine.go(Control::Complete), Action::Continue),
        Frame::Print => print(machine, value),
        Frame::Define { name, env } => (
            machine.define(env, name, value).go(Control::Complete),
            Action::Continue,
        ),
        Frame::Branch { then_, else_, env } => (
            branch(machine, then_, else_, env, value),
            Action::Continue,
        ),
        Frame::LoopTest { condition, body, env } => (
            loop_test(machine, condition, body, env, value),
            Action::Continue,
        ),
        Frame::ReturnValue => (machine.go(Control::Returning(value)), Action::Continue),
        _ => fail(machine, stuck()),
    }
}

fn sequence(
    machine: Interpreter,
    statements: Vec<Result<Statement, Error>>,
    next: usize,
    env: usize,
) -> (m: Interpreter)
    ensures
        m@ == semantics::sequence(machine@, body_model(statements@), next as nat, env as nat),
{
    reveal(semantics::sequence);
    proof {
        lemma_body_index(statements@, next as int);
    }
    if next < statements.len() {
        match &statements[next] {
            Ok(s) => {
                let run = s.duplicate();
                machine.push(Frame::Sequence { statements, next: next + 1, env }).go(
                    Control::Execute(run, env),
                )
            },
            Err(e) => {
                let error = RuntimeError { kind: RuntimeErrorKind::Malformed, error: e.duplicate() };
                machine.go(Control::Failing(error))
            },
        }
    } else {
        machine.go(Control::Complete)
    }
}

/// Tells `frame` that the statement above it has ended.
pub fn complete(machine: Interpreter, frame: Frame) -> (m: Interpreter)
    ensures
        m@ == semantics::complete(machine@, frame@),
{
    reveal(semantics::complete);
    match frame {
        Frame::Sequence { statements, next, env } => sequence(machine, statements, next, env),
        Frame::LoopBody { condition, body, env } => {
            let test = condition.duplicate();
            machine.push(Frame::LoopTest { condition, body, env }).go(Control::Evaluate(test, env))
        },
        Frame::Call => machine.go(Control::Deliver(Value::Nil)),
        _ => machine.go(Control::Failing(stuck())),
    }
}

/// Passes a `return` of `value` by `frame`.
pub fn unwind(machine: Interpreter, frame: Frame, value: Value) -> (m: Interpreter)
    ensures
        m@ == semantics::unwind(machine@, frame@, value@),
{
    reveal(semantics::unwind);
    match frame {
        Frame::Call => machine.go(Control::Deliver(value)),
        _ => machine.go(Control::Returning(value)),
    }
}

/// Hands the text of a number to `frame`.
pub fn text(machine: Interpreter, frame: Frame, s: String) -> (r: (Interpreter, Action))
    ensures
        step_view(r) == semantics::text(machine@, frame@, s@),
{
    reveal(semantics::text);
    match frame {
        Frame::Concat { left } => {
            let mut joined = left;
            joined.append(s.as_str());
            (machine.go(Control::Deliver(Value::String(joined))), Action::Continue)
        },
        Frame::PrintText => (machine.go(Control::Complete), Action::Print { text: s }),
        _ => fail(machine, stuck()),
    }
}

fn finish(machine: Interpreter, outcome: Outcome) -> (r: (Interpreter, Action))
    ensures
        step_view(r) == semantics::finish(machine@, outcome_view(outcome)),
{
    let copy = duplicate_outcome(&outcome);
    (machine.go(Control::Finished(outcome)), Action::Finished { outcome: copy })
}

impl Interpreter {
    /// Takes one step, given the host's reply to the action of the step
    /// before (`Reply::Nothing` where none was asked).
    pub fn step(self, reply: Reply) -> (r: (Interpreter, Action))
        ensures
            step_view(r) == semantics::step(self@, reply@),
    {
        reveal(semantics::step);
        let (machine, control) = self.take();
        match control {
            Control::Evaluate(e, env) => (e.evaluated(machine, env), Action::Continue),
            Control::Execute(s, env) => (s.execute(machine, env), Action::Continue),
            Control::Deliver(v) => {
                let (machine, top) = machine.pop();
                match top {
                    Some(frame) => deliver(machine, frame, v),
                    None => finish(machine, Ok(v)),
                }
            },
            Control::Complete => {
                let (machine, top) = machine.pop();
                match top {
                    Some(frame) => (complete(machine, frame), Action::Continue),
                    None => finish(machine, Ok(Value::Nil)),
                }
            },
            Control::Returning(v) => {
                let (machine, top) = machine.pop();
                match top {
                    Some(frame) => (unwind(machine, frame, v), Action::Continue),
                    None => finish(machine, Ok(v)),
                }
            },
            Control::Failing(e) => finish(machine, Err(e)),
            Control::AwaitNumber => match reply {
                Reply::Number(n) => (
                    machine.go(Control::Deliver(Value::Number(n))),
                    Action::Continue,
                ),
                _ => fail(machine, protocol()),
            },
            Control::AwaitText => match reply {
                Reply::Text(s) => {
                    let (machine, top) = machine.pop();
                    match top {
                        Some(frame) => text(machine, frame, s),
                        None => fail(machine, stuck()),
                    }
                },
                _ => fail(machine, protocol()),
            },
            Control::Finished(outcome) => {
                let copy = duplicate_outcome(&outcome);
                (machine.go(Control::Finished(outcome)), Action::Finished { outcome: copy })
            },
        }
    }
}

/// The machine before a program runs: the global scope, in which `clock`
/// names the native clock, no frames, nothing to do.
pub open spec fn fresh() -> MachineView {
    MachineView {
        scopes: seq![
            EnvironmentView {
                enclosing: None,
                values: Map::<Seq<char>, ValueView>::empty().insert(
                    "clock"@,
                    ValueView::Callable(0),
                ),
            },
        ],
        functions: seq![FunctionView::Native { arity: 0, func: NativeFunction::Clock }],
        stack: Seq::empty(),
        control: ControlView::Complete,
    }
}

/// A machine with the global scope and the native functions in it.
pub fn build_global_scope() -> (m: Interpreter)
    ensures
        m@ == fresh(),
{
    let m = Interpreter::empty(Control::Complete);
    let (m, scope) = m.open_global();
    let (m, clock) = m.declare(Function::Native { arity: 0, func: NativeFunction::Clock });
    let m = m.define(scope, String::from_str("clock"), Value::Callable(clock));
    assert(m@.scopes =~= fresh().scopes);
    assert(m@.functions =~= fresh().functions);
    m
}

/// A machine about to run the statements of a program in the global scope,
/// first to last.
pub fn interpret(inputs: Vec<Result<Statement, Error>>) -> (m: Interpreter)
    ensures
        m@ == fresh().push(
            FrameView::Sequence { statements: body_model(inputs@), next: 0, env: 0 },
        ),
{
    build_global_scope().push(Frame::Sequence { statements: inputs, next: 0, env: 0 })
}

} // verus!
