//! What one step of a running program does, as mathematical functions on the
//! model of the machine.
//!
//! An expression is evaluated by pushing the work that waits for its value
//! and turning to its first operand; a value is delivered to the frame on
//! top of the stack; a statement that ends tells the frame on top. `return`
//! unwinds the stack to the nearest call. An error ends the run.
use vstd::prelude::*;
use crate::environment::{assigned, lookup, undefined_target, undefined_variable, EnvironmentView};
use crate::expressions::{ExprView, ValueView};
use crate::machine::{
    ActionView, ControlView, FrameView, FunctionView, MachineView, OutcomeView, ReplyView,
};
use crate::operators::{binary_spec, printed_text, truthy, unary_spec, ComputedView};
use crate::statements::StatementView;
use crate::types::{
    decimal, runtime_error, ErrorView, RuntimeErrorKind, RuntimeErrorView, TokenKind,
};

verus! {

/// The machine after a step and what the step asks of the host.
pub struct StepView {
    pub machine: MachineView,
    pub action: ActionView,
}

/// A step that asks nothing of the host.
pub open spec fn proceed(machine: MachineView) -> StepView {
    StepView { machine, action: ActionView::Continue }
}

/// A step that ends in the error `e`.
pub open spec fn fail(m: MachineView, e: RuntimeErrorView) -> StepView {
    proceed(m.go(ControlView::Failing(e)))
}

/// The error of calling a value that is no function.
pub open spec fn not_callable() -> RuntimeErrorView {
    runtime_error(RuntimeErrorKind::NotCallable, "can only call functions"@)
}

/// The message that names the number of arguments expected and the number
/// given.
pub open spec fn arity_message(expected: nat, actual: nat) -> Seq<char> {
    "Expected "@ + decimal(expected) + " arguments but got "@ + decimal(actual) + "."@
}

/// The error of calling a function with another number of arguments than it
/// takes.
pub open spec fn arity_mismatch(expected: nat, actual: nat) -> RuntimeErrorView {
    runtime_error(RuntimeErrorKind::ArityMismatch, arity_message(expected, actual))
}

/// The error of reaching a statement that had failed to parse.
pub open spec fn malformed(e: ErrorView) -> RuntimeErrorView {
    RuntimeErrorView { kind: RuntimeErrorKind::Malformed, error: e }
}

/// The error of a reply that answers nothing that was asked.
pub open spec fn protocol() -> RuntimeErrorView {
    runtime_error(RuntimeErrorKind::Protocol, "Unexpected reply from the host."@)
}

/// The error of a frame that cannot take what arrives at it.
pub open spec fn stuck() -> RuntimeErrorView {
    runtime_error(RuntimeErrorKind::Internal, "Unexpected machine state."@)
}

/// Starts evaluating `e` in scope `env`.
#[verifier::opaque]
pub open spec fn evaluate(m: MachineView, e: ExprView, env: nat) -> MachineView {
    match e {
        ExprView::Literal(v) => m.go(ControlView::Deliver(v)),
        ExprView::Grouping { expr } => m.go(ControlView::Evaluate(*expr, env)),
        ExprView::Unary { token, right } => m.push(FrameView::Unary { token }).go(
            ControlView::Evaluate(*right, env),
        ),
        ExprView::Binary { left, token, right } => m.push(
            FrameView::BinaryRight { token, right: *right, env },
        ).go(ControlView::Evaluate(*left, env)),
        ExprView::Logical { left, token, right } => m.push(
            FrameView::LogicalRight { token, right: *right, env },
        ).go(ControlView::Evaluate(*left, env)),
        ExprView::VarRead { name } => match lookup(m.scopes, env, name) {
            Some(v) => m.go(ControlView::Deliver(v)),
            None => m.go(ControlView::Failing(undefined_variable())),
        },
        ExprView::VarAssign { name, value } => m.push(FrameView::Assign { name, env }).go(
            ControlView::Evaluate(*value, env),
        ),
        ExprView::FnCall { callee, paren, arguments } => m.push(
            FrameView::Callee { arguments, env },
        ).go(ControlView::Evaluate(*callee, env)),
    }
}

/// Enters a block: a new scope inside `env` in which `statements` run.
#[verifier::opaque]
pub open spec fn execute_block(
    m: MachineView,
    env: nat,
    statements: Seq<Result<StatementView, ErrorView>>,
) -> MachineView {
    m.open_scope(env).push(
        FrameView::Sequence { statements, next: 0, env: m.scopes.len() },
    ).go(ControlView::Complete)
}

/// Declares a function: it captures scope `env` and is bound there to its
/// name.
#[verifier::opaque]
pub open spec fn execute_function(
    m: MachineView,
    f: crate::statements::FunctionStatementView,
    env: nat,
) -> MachineView {
    m.declare(FunctionView::Declared { function_st: f, closure: env }).define(
        env,
        f.name,
        ValueView::Callable(m.functions.len()),
    ).go(ControlView::Complete)
}

/// Starts executing `s` in scope `env`.
#[verifier::opaque]
pub open spec fn execute(m: MachineView, s: StatementView, env: nat) -> MachineView {
    match s {
        StatementView::ExprSt(e) => m.push(FrameView::Discard).go(ControlView::Evaluate(e, env)),
        StatementView::PrintSt(e) => m.push(FrameView::Print).go(ControlView::Evaluate(e, env)),
        StatementView::VariableSt(name, e) => m.push(FrameView::Define { name, env }).go(
            ControlView::Evaluate(e, env),
        ),
        StatementView::BlockSt(statements) => execute_block(m, env, statements),
        StatementView::IfSt { condition, then_, else_ } => m.push(
            FrameView::Branch {
                then_: *then_,
                else_: match else_ {
                    Some(s) => Some(*s),
                    None => None,
                },
                env,
            },
        ).go(ControlView::Evaluate(condition, env)),
        StatementView::While { condition, body } => m.push(
            FrameView::LoopTest { condition, body: *body, env },
        ).go(ControlView::Evaluate(condition, env)),
        StatementView::FunctionSt(f) => execute_function(m, f, env),
        StatementView::ReturnSt { keyword, value } => m.push(FrameView::ReturnValue).go(
            ControlView::Evaluate(value, env),
        ),
    }
}

/// The bindings of the first `n` parameters to their arguments; of two
/// parameters with one name the later counts.
pub open spec fn bound(params: Seq<Seq<char>>, args: Seq<ValueView>, n: nat) -> Map<
    Seq<char>,
    ValueView,
>
    decreases n,
{
    if n == 0 {
        Map::empty()
    } else {
        bound(params, args, (n - 1) as nat).insert(params[n - 1], args[n - 1])
    }
}

/// The number of arguments a function takes.
pub open spec fn arity(f: FunctionView) -> nat {
    match f {
        FunctionView::Native { arity, func } => arity,
        FunctionView::Declared { function_st, closure } => function_st.params.len(),
    }
}

/// Enters a function with as many arguments as it takes: a new scope inside
/// the scope it was declared in, with the parameters bound, in which the
/// body runs behind a call boundary. A native function is asked of the host.
#[verifier::opaque]
pub open spec fn enter(m: MachineView, f: FunctionView, args: Seq<ValueView>) -> StepView {
    if args.len() != arity(f) {
        fail(m, arity_mismatch(arity(f), args.len()))
    } else {
        match f {
            FunctionView::Native { arity, func } => StepView {
                machine: m.go(ControlView::AwaitNumber),
                action: ActionView::Clock,
            },
            FunctionView::Declared { function_st, closure } => proceed(
                (MachineView {
                    scopes: m.scopes.push(
                        EnvironmentView {
                            enclosing: Some(closure),
                            values: bound(function_st.params, args, function_st.params.len()),
                        },
                    ),
                    ..m
                }).push(FrameView::Call).push(
                    FrameView::Sequence {
                        statements: function_st.body,
                        next: 0,
                        env: m.scopes.len(),
                    },
                ).go(ControlView::Complete),
            ),
        }
    }
}

/// Calls `callee` with `args`: it must be a function.
#[verifier::opaque]
pub open spec fn invoke(m: MachineView, callee: ValueView, args: Seq<ValueView>) -> StepView {
    match callee {
        ValueView::Callable(id) => if id < m.functions.len() {
            enter(m, m.functions[id as int], args)
        } else {
            fail(m, not_callable())
        },
        _ => fail(m, not_callable()),
    }
}

/// Both operands of a binary operator are known.
#[verifier::opaque]
pub open spec fn apply_binary(m: MachineView, token: TokenKind, left: ValueView, v: ValueView)
    -> StepView {
    match binary_spec(left, token, v) {
        Ok(ComputedView::Value(r)) => proceed(m.go(ControlView::Deliver(r))),
        Ok(ComputedView::Arithmetic { op, left, right }) => StepView {
            machine: m.go(ControlView::AwaitNumber),
            action: ActionView::Arithmetic { op, left, right },
        },
        Ok(ComputedView::Concat { left, number }) => StepView {
            machine: m.push(FrameView::Concat { left }).go(ControlView::AwaitText),
            action: ActionView::Render { number },
        },
        Err(e) => fail(m, e),
    }
}

/// The left operand of `or` or `and` is known: `or` is true if it is true,
/// `and` false if it is not; else the right operand decides.
#[verifier::opaque]
pub open spec fn logical_right(
    m: MachineView,
    token: TokenKind,
    right: ExprView,
    env: nat,
    v: ValueView,
) -> MachineView {
    if token is Or && truthy(v) {
        m.go(ControlView::Deliver(ValueView::Boolean(true)))
    } else if !(token is Or) && !truthy(v) {
        m.go(ControlView::Deliver(ValueView::Boolean(false)))
    } else {
        m.push(FrameView::LogicalResult { token }).go(ControlView::Evaluate(right, env))
    }
}

/// The value to assign is known.
#[verifier::opaque]
pub open spec fn assign(m: MachineView, name: Seq<char>, env: nat, v: ValueView) -> MachineView {
    match assigned(m.scopes, env, name, v) {
        Some(after) => (MachineView { scopes: after, ..m }).go(ControlView::Deliver(v)),
        None => m.go(ControlView::Failing(undefined_target())),
    }
}

/// The callee is known: its arguments are evaluated from the first on.
#[verifier::opaque]
pub open spec fn callee(m: MachineView, arguments: Seq<ExprView>, env: nat, v: ValueView)
    -> StepView {
    if arguments.len() == 0 {
        invoke(m, v, Seq::empty())
    } else {
        proceed(
            m.push(FrameView::Arguments { callee: v, done: Seq::empty(), arguments, env }).go(
                ControlView::Evaluate(arguments[0], env),
            ),
        )
    }
}

/// One more argument is known: the next is evaluated, or the call is made.
#[verifier::opaque]
pub open spec fn argument(
    m: MachineView,
    callee: ValueView,
    done: Seq<ValueView>,
    arguments: Seq<ExprView>,
    env: nat,
    v: ValueView,
) -> StepView {
    let done = done.push(v);
    if done.len() < arguments.len() {
        proceed(
            m.push(FrameView::Arguments { callee, done, arguments, env }).go(
                ControlView::Evaluate(arguments[done.len() as int], env),
            ),
        )
    } else {
        invoke(m, callee, done)
    }
}

/// The value to print is known: a number is first written as text by the
/// host.
#[verifier::opaque]
pub open spec fn print(m: MachineView, v: ValueView) -> StepView {
    match printed_text(v) {
        Some(text) => StepView {
            machine: m.go(ControlView::Complete),
            action: ActionView::Print { text },
        },
        None => StepView {
            machine: m.push(FrameView::PrintText).go(ControlView::AwaitText),
            action: ActionView::Render { number: v->Number_0 },
        },
    }
}

/// The condition of an `if` is known.
#[verifier::opaque]
pub open spec fn branch(
    m: MachineView,
    then_: StatementView,
    else_: Option<StatementView>,
    env: nat,
    v: ValueView,
) -> MachineView {
    if truthy(v) {
        m.go(ControlView::Execute(then_, env))
    } else {
        match else_ {
            Some(s) => m.go(ControlView::Execute(s, env)),
            None => m.go(ControlView::Complete),
        }
    }
}

/// The condition of a loop is known.
#[verifier::opaque]
pub open spec fn loop_test(
    m: MachineView,
    condition: ExprView,
    body: StatementView,
    env: nat,
    v: ValueView,
) -> MachineView {
    if truthy(v) {
        m.push(FrameView::LoopBody { condition, body, env }).go(ControlView::Execute(body, env))
    } else {
        m.go(ControlView::Complete)
    }
}

/// Hands the value `v` to `frame`, which was on top of the stack of `m`.
#[verifier::opaque]
pub open spec fn deliver(m: MachineView, frame: FrameView, v: ValueView) -> StepView {
    match frame {
        FrameView::Unary { token } => match unary_spec(token, v) {
            Ok(r) => proceed(m.go(ControlView::Deliver(r))),
            Err(e) => fail(m, e),
        },
        FrameView::BinaryRight { token, right, env } => proceed(
            m.push(FrameView::BinaryApply { token, left: v }).go(ControlView::Evaluate(right, env)),
        ),
        FrameView::BinaryApply { token, left } => apply_binary(m, token, left, v),
        FrameView::LogicalRight { token, right, env } => proceed(
            logical_right(m, token, right, env, v),
        ),
        FrameView::LogicalResult { token } => proceed(
            m.go(
                ControlView::Deliver(
                    ValueView::Boolean(truthy(v) && (token is Or || token is And)),
                ),
            ),
        ),
        FrameView::Assign { name, env } => proceed(assign(m, name, env, v)),
        FrameView::Callee { arguments, env } => callee(m, arguments, env, v),
        FrameView::Arguments { callee, done, arguments, env } => argument(
            m,
            callee,
            done,
            arguments,
            env,
            v,
        ),
        FrameView::Discard => proceed(m.go(ControlView::Complete)),
        FrameView::Print => print(m, v),
        FrameView::Define { name, env } => proceed(m.define(env, name, v).go(ControlView::Complete)),
        FrameView::Branch { then_, else_, env } => proceed(branch(m, then_, else_, env, v)),
        FrameView::LoopTest { condition, body, env } => proceed(
            loop_test(m, condition, body, env, v),
        ),
        FrameView::ReturnValue => proceed(m.go(ControlView::Returning(v))),
        _ => fail(m, stuck()),
    }
}

/// Runs the next statement of a sequence, or ends the sequence. A statement
/// that had failed to parse ends the run with its error.
#[verifier::opaque]
pub open spec fn sequence(
    m: MachineView,
    statements: Seq<Result<StatementView, ErrorView>>,
    next: nat,
    env: nat,
) -> MachineView {
    if next < statements.len() {
        match statements[next as int] {
            Ok(s) => m.push(FrameView::Sequence { statements, next: next + 1, env }).go(
                ControlView::Execute(s, env),
            ),
            Err(e) => m.go(ControlView::Failing(malformed(e))),
        }
    } else {
        m.go(ControlView::Complete)
    }
}

/// Tells `frame`, which was on top of the stack of `m`, that the statement
/// above it has ended.
#[verifier::opaque]
pub open spec fn complete(m: MachineView, frame: FrameView) -> MachineView {
    match frame {
        FrameView::Sequence { statements, next, env } => sequence(m, statements, next, env),
        FrameView::LoopBody { condition, body, env } => m.push(
            FrameView::LoopTest { condition, body, env },
        ).go(ControlView::Evaluate(condition, env)),
        FrameView::Call => m.go(ControlView::Deliver(ValueView::Nil)),
        _ => m.go(ControlView::Failing(stuck())),
    }
}

/// Passes a `return` of `v` by `frame`: the call boundary takes the value,
/// every other frame is dropped.
#[verifier::opaque]
pub open spec fn unwind(m: MachineView, frame: FrameView, v: ValueView) -> MachineView {
    match frame {
        FrameView::Call => m.go(ControlView::Deliver(v)),
        _ => m.go(ControlView::Returning(v)),
    }
}

/// Hands the text of a number to `frame`.
#[verifier::opaque]
pub open spec fn text(m: MachineView, frame: FrameView, s: Seq<char>) -> StepView {
    match frame {
        FrameView::Concat { left } => proceed(
            m.go(ControlView::Deliver(ValueView::String(left + s))),
        ),
        FrameView::PrintText => StepView {
            machine: m.go(ControlView::Complete),
            action: ActionView::Print { text: s },
        },
        _ => fail(m, stuck()),
    }
}

/// Ends the run with `outcome`.
pub open spec fn finish(m: MachineView, outcome: OutcomeView) -> StepView {
    StepView {
        machine: m.go(ControlView::Finished(outcome)),
        action: ActionView::Finished { outcome },
    }
}

/// One step of the machine `m`, given the host's reply to the step before.
///
/// A value or the end of a statement that finds the stack empty ends the
/// run, as does a `return` outside every function. An error ends the run at
/// once, whatever waits on the stack.
#[verifier::opaque]
pub open spec fn step(m: MachineView, reply: ReplyView) -> StepView {
    let base = m.go(ControlView::Complete);
    match m.control {
        ControlView::Evaluate(e, env) => proceed(evaluate(base, e, env)),
        ControlView::Execute(s, env) => proceed(execute(base, s, env)),
        ControlView::Deliver(v) => if m.stack.len() == 0 {
            finish(base, Ok(v))
        } else {
            deliver(base.pop(), m.stack.last(), v)
        },
        ControlView::Complete => if m.stack.len() == 0 {
            finish(base, Ok(ValueView::Nil))
        } else {
            proceed(complete(base.pop(), m.stack.last()))
        },
        ControlView::Returning(v) => if m.stack.len() == 0 {
            finish(base, Ok(v))
        } else {
            proceed(unwind(base.pop(), m.stack.last(), v))
        },
        ControlView::Failing(e) => finish(base, Err(e)),
        ControlView::AwaitNumber => match reply {
            ReplyView::Number(n) => proceed(base.go(ControlView::Deliver(ValueView::Number(n)))),
            _ => fail(base, protocol()),
        },
        ControlView::AwaitText => match reply {
            ReplyView::Text(s) => if m.stack.len() == 0 {
                fail(base, stuck())
            } else {
                text(base.pop(), m.stack.last(), s)
            },
            _ => fail(base, protocol()),
        },
        ControlView::Finished(outcome) => StepView {
            machine: m,
            action: ActionView::Finished { outcome },
        },
    }
}

} // verus!
