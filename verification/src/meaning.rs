//! What a program means, said at once rather than step by step, and the
//! proof that the machine computes it.
//!
//! The meaning of an expression is its value or the error it ends in; that
//! of a statement is to end, to return a value, or to end in an error. Both
//! change the world: the scopes, the functions, what has been printed. The
//! host enters as three functions: the arithmetic it computes, the text it
//! writes for a number, and what its clock shows each time it is read.
//! Programs need not end, so a meaning is defined with a bound on the depth
//! of calls and the turns of loops, and is `None` where the bound is
//! reached.
//!
//! Run with a host that answers as these functions say, the machine started
//! on an expression or a statement arrives, after the number of steps that
//! the meaning names, where the meaning says: at the value handed to what
//! waited for it, at the end of the statement, at the `return` unwound to
//! where the statement started, or at the error.
use vstd::prelude::*;
use crate::environment::{
    assigned, defined, lookup, undefined_target, undefined_variable, EnvironmentView,
};
use crate::expressions::{ExprView, ValueView};
use crate::machine::{ActionView, ControlView, FrameView, FunctionView, MachineView, ReplyView};
use crate::numbers::ArithmeticOp;
use crate::operators::{binary_spec, printed_text, truthy, unary_spec, ComputedView};
use crate::semantics;
use crate::semantics::{arity, arity_mismatch, bound, malformed, not_callable};
use crate::statements::StatementView;
use crate::types::{ErrorView, RuntimeErrorView, TokenKind};

verus! {

/// What the host computes.
pub struct Host {
    /// The result of an arithmetic operation on two numbers.
    pub arithmetic: spec_fn(ArithmeticOp, u64, u64) -> u64,
    /// The text of a number.
    pub render: spec_fn(u64) -> Seq<char>,
    /// What the clock shows when it is read for the `n`th time, from 0.
    pub clock: spec_fn(nat) -> u64,
}

/// What a program can change.
pub struct World {
    pub scopes: Seq<EnvironmentView>,
    pub functions: Seq<FunctionView>,
    /// The lines printed so far.
    pub output: Seq<Seq<char>>,
    /// How often the clock has been read.
    pub ticks: nat,
}

/// A machine, the reply that its next step receives, and what the host has
/// printed and read so far.
pub struct Run {
    pub machine: MachineView,
    pub reply: ReplyView,
    pub output: Seq<Seq<char>>,
    pub ticks: nat,
}

/// The world of a run.
pub open spec fn world(r: Run) -> World {
    World {
        scopes: r.machine.scopes,
        functions: r.machine.functions,
        output: r.output,
        ticks: r.ticks,
    }
}

/// The run in which the host `h` has done the action `a` of a step that led
/// to the machine `m`.
pub open spec fn answered(h: Host, r: Run, m: MachineView, a: ActionView) -> Run {
    match a {
        ActionView::Arithmetic { op, left, right } => Run {
            machine: m,
            reply: ReplyView::Number((h.arithmetic)(op, left, right)),
            ..r
        },
        ActionView::Render { number } => Run {
            machine: m,
            reply: ReplyView::Text((h.render)(number)),
            ..r
        },
        ActionView::Clock => Run {
            machine: m,
            reply: ReplyView::Number((h.clock)(r.ticks)),
            ticks: r.ticks + 1,
            ..r
        },
        ActionView::Print { text } => Run {
            machine: m,
            reply: ReplyView::Nothing,
            output: r.output.push(text),
            ..r
        },
        _ => Run { machine: m, reply: ReplyView::Nothing, ..r },
    }
}

/// The run after one step.
pub open spec fn advance(h: Host, r: Run) -> Run {
    let s = semantics::step(r.machine, r.reply);
    answered(h, r, s.machine, s.action)
}

/// The run after `n` steps.
pub open spec fn drive(h: Host, r: Run, n: nat) -> Run
    decreases n,
{
    if n == 0 {
        r
    } else {
        drive(h, advance(h, r), (n - 1) as nat)
    }
}

/// How a statement ends.
pub enum Ending {
    /// It is done.
    Normal,
    /// It returns a value from the function it stands in.
    Return(ValueView),
    /// It ends the run in an error.
    Error(RuntimeErrorView),
}

/// The outcome of an expression: its value, or the error it ends in.
pub type Valued = Result<ValueView, RuntimeErrorView>;

/// A meaning: an outcome, the world afterwards, and the number of steps
/// that the machine takes to get there.
pub struct Meaning<T> {
    pub outcome: T,
    pub world: World,
    pub steps: nat,
}

impl<T> Meaning<T> {
    /// The meaning with `n` more steps.
    pub open spec fn after(self, n: nat) -> Meaning<T> {
        Meaning { steps: self.steps + n, ..self }
    }
}

/// An expression that ends in the error of a part of it.
pub open spec fn failed<T>(e: RuntimeErrorView, m: Meaning<T>, n: nat) -> Option<Meaning<Valued>> {
    Some(Meaning { outcome: Err(e), world: m.world, steps: m.steps + n })
}

/// A statement that ends in the error of a part of it.
pub open spec fn broken<T>(e: RuntimeErrorView, m: Meaning<T>, n: nat) -> Option<Meaning<Ending>> {
    Some(Meaning { outcome: Ending::Error(e), world: m.world, steps: m.steps + n })
}

/// What a binary operator makes of two values with the host `h`.
pub open spec fn applied(h: Host, l: ValueView, token: TokenKind, r: ValueView) -> Valued {
    match binary_spec(l, token, r) {
        Ok(ComputedView::Value(v)) => Ok(v),
        Ok(ComputedView::Arithmetic { op, left, right }) => Ok(
            ValueView::Number((h.arithmetic)(op, left, right)),
        ),
        Ok(ComputedView::Concat { left, number }) => Ok(
            ValueView::String(left + (h.render)(number)),
        ),
        Err(e) => Err(e),
    }
}

/// The steps that applying a binary operator takes: one, and one more where
/// the host is asked.
pub open spec fn applying(l: ValueView, token: TokenKind, r: ValueView) -> nat {
    match binary_spec(l, token, r) {
        Ok(ComputedView::Arithmetic { .. }) | Ok(ComputedView::Concat { .. }) => 2,
        _ => 1,
    }
}

/// The world with a new scope.
pub open spec fn opened(w: World, scope: EnvironmentView) -> World {
    World { scopes: w.scopes.push(scope), ..w }
}

/// The meaning of the expression `e` in scope `env` of the world `w`.
///
/// Operands are evaluated left to right, and the first error is the
/// outcome. `or` and `and` leave their right operand alone where the left
/// one decides. An assignment is worth the value assigned.
pub open spec fn value_of(h: Host, e: ExprView, env: nat, w: World, fuel: nat) -> Option<
    Meaning<Valued>,
>
    decreases fuel, 0nat, e, 0nat,
{
    match e {
        ExprView::Literal(v) => Some(Meaning { outcome: Ok(v), world: w, steps: 1 }),
        ExprView::Grouping { expr } => match value_of(h, *expr, env, w, fuel) {
            Some(m) => Some(m.after(1)),
            None => None,
        },
        ExprView::Unary { token, right } => match value_of(h, *right, env, w, fuel) {
            Some(r) => match r.outcome {
                Ok(v) => Some(
                    Meaning { outcome: unary_spec(token, v), world: r.world, steps: r.steps + 2 },
                ),
                Err(x) => failed(x, r, 1),
            },
            None => None,
        },
        ExprView::Binary { left, token, right } => match value_of(h, *left, env, w, fuel) {
            Some(l) => match l.outcome {
                Ok(lv) => match value_of(h, *right, env, l.world, fuel) {
                    Some(r) => match r.outcome {
                        Ok(rv) => Some(
                            Meaning {
                                outcome: applied(h, lv, token, rv),
                                world: r.world,
                                steps: l.steps + r.steps + 2 + applying(lv, token, rv),
                            },
                        ),
                        Err(x) => failed(x, r, l.steps + 2),
                    },
                    None => None,
                },
                Err(x) => failed(x, l, 1),
            },
            None => None,
        },
        ExprView::Logical { left, token, right } => match value_of(h, *left, env, w, fuel) {
            Some(l) => match l.outcome {
                Ok(lv) => if token is Or && truthy(lv) {
                    Some(
                        Meaning {
                            outcome: Ok(ValueView::Boolean(true)),
                            world: l.world,
                            steps: l.steps + 2,
                        },
                    )
                } else if !(token is Or) && !truthy(lv) {
                    Some(
                        Meaning {
                            outcome: Ok(ValueView::Boolean(false)),
                            world: l.world,
                            steps: l.steps + 2,
                        },
                    )
                } else {
                    match value_of(h, *right, env, l.world, fuel) {
                        Some(r) => match r.outcome {
                            Ok(rv) => Some(
                                Meaning {
                                    outcome: Ok(
                                        ValueView::Boolean(
                                            truthy(rv) && (token is Or || token is And),
                                        ),
                                    ),
                                    world: r.world,
                                    steps: l.steps + r.steps + 3,
                                },
                            ),
                            Err(x) => failed(x, r, l.steps + 2),
                        },
                        None => None,
                    }
                },
                Err(x) => failed(x, l, 1),
            },
            None => None,
        },
        ExprView::VarRead { name } => Some(
            Meaning {
                outcome: match lookup(w.scopes, env, name) {
                    Some(v) => Ok(v),
                    None => Err(undefined_variable()),
                },
                world: w,
                steps: 1,
            },
        ),
        ExprView::VarAssign { name, value } => match value_of(h, *value, env, w, fuel) {
            Some(v) => match v.outcome {
                Ok(x) => match assigned(v.world.scopes, env, name, x) {
                    Some(written) => Some(
                        Meaning {
                            outcome: Ok(x),
                            world: World { scopes: written, ..v.world },
                            steps: v.steps + 2,
                        },
                    ),
                    None => failed(undefined_target(), v, 2),
                },
                Err(x) => failed(x, v, 1),
            },
            None => None,
        },
        ExprView::FnCall { callee, paren, arguments } => match value_of(h, *callee, env, w, fuel) {
            Some(c) => match c.outcome {
                Ok(f) => match arguments_of(h, f, Seq::empty(), arguments, env, c.world, fuel) {
                    Some(r) => Some(r.after(c.steps + 1)),
                    None => None,
                },
                Err(x) => failed(x, c, 1),
            },
            None => None,
        },
    }
}

/// The meaning of the rest of a call of `callee` once the arguments `done`
/// are known: the arguments that are left are evaluated in order, then the
/// call is made.
///
/// A value that is no function, or a function given another number of
/// arguments than it takes, is an error. The clock is read from the host. A
/// declared function runs its body in a new scope inside the scope it was
/// declared in, with its parameters bound; the call is worth what the body
/// returns, or `nil`.
pub open spec fn arguments_of(
    h: Host,
    callee: ValueView,
    done: Seq<ValueView>,
    arguments: Seq<ExprView>,
    env: nat,
    w: World,
    fuel: nat,
) -> Option<Meaning<Valued>>
    decreases fuel, 0nat, arguments, arguments.len() - done.len(),
{
    if done.len() < arguments.len() {
        match value_of(h, arguments[done.len() as int], env, w, fuel) {
            Some(a) => match a.outcome {
                Ok(v) => match arguments_of(h, callee, done.push(v), arguments, env, a.world, fuel) {
                    Some(r) => Some(r.after(a.steps + 1)),
                    None => None,
                },
                Err(x) => failed(x, a, 1),
            },
            None => None,
        }
    } else {
        match target(w, callee, done) {
            Err(x) => Some(Meaning { outcome: Err(x), world: w, steps: 1 }),
            Ok(FunctionView::Native { .. }) => Some(
                Meaning {
                    outcome: Ok(ValueView::Number((h.clock)(w.ticks))),
                    world: World { ticks: w.ticks + 1, ..w },
                    steps: 2,
                },
            ),
            Ok(FunctionView::Declared { function_st, closure }) => if fuel == 0 {
                None
            } else {
                match sequence_of(
                    h,
                    function_st.body,
                    0,
                    w.scopes.len(),
                    opened(
                        w,
                        EnvironmentView {
                            enclosing: Some(closure),
                            values: bound(function_st.params, done, function_st.params.len()),
                        },
                    ),
                    (fuel - 1) as nat,
                ) {
                    Some(b) => match b.outcome {
                        Ending::Normal => Some(
                            Meaning { outcome: Ok(ValueView::Nil), world: b.world, steps: b.steps + 2 },
                        ),
                        Ending::Return(v) => Some(
                            Meaning { outcome: Ok(v), world: b.world, steps: b.steps + 2 },
                        ),
                        Ending::Error(x) => failed(x, b, 1),
                    },
                    None => None,
                }
            },
        }
    }
}

/// The function that a call of `callee` with `args` enters, or the error of
/// the call.
pub open spec fn target(w: World, callee: ValueView, args: Seq<ValueView>) -> Result<
    FunctionView,
    RuntimeErrorView,
> {
    match callee {
        ValueView::Callable(id) => if id < w.functions.len() {
            let f = w.functions[id as int];
            if args.len() != arity(f) {
                Err(arity_mismatch(arity(f), args.len()))
            } else {
                Ok(f)
            }
        } else {
            Err(not_callable())
        },
        _ => Err(not_callable()),
    }
}

/// The meaning of the statements of `statements` from `next` on, run in
/// order in scope `env`: the first that returns or fails ends them all, and
/// a statement that had failed to parse is an error when it is reached.
pub open spec fn sequence_of(
    h: Host,
    statements: Seq<Result<StatementView, ErrorView>>,
    next: nat,
    env: nat,
    w: World,
    fuel: nat,
) -> Option<Meaning<Ending>>
    decreases fuel, 1nat, statements, statements.len() - next,
{
    if next >= statements.len() {
        Some(Meaning { outcome: Ending::Normal, world: w, steps: 1 })
    } else {
        match statements[next as int] {
            Ok(s) => match effect_of(h, s, env, w, fuel) {
                Some(r) => match r.outcome {
                    Ending::Normal => match sequence_of(h, statements, next + 1, env, r.world, fuel) {
                        Some(rest) => Some(rest.after(r.steps + 1)),
                        None => None,
                    },
                    Ending::Return(v) => Some(r.after(2)),
                    Ending::Error(x) => Some(r.after(1)),
                },
                None => None,
            },
            Err(e) => Some(Meaning { outcome: Ending::Error(malformed(e)), world: w, steps: 1 }),
        }
    }
}

/// The meaning of the loop `s` from the test of its condition on: the body
/// runs as long as the condition is true.
pub open spec fn loop_of(h: Host, s: StatementView, env: nat, w: World, fuel: nat) -> Option<
    Meaning<Ending>,
>
    decreases fuel, 1nat, s, 0nat,
{
    match s {
        StatementView::While { condition, body } => match value_of(h, condition, env, w, fuel) {
            Some(c) => match c.outcome {
                Ok(v) => if truthy(v) {
                    match effect_of(h, *body, env, c.world, fuel) {
                        Some(b) => match b.outcome {
                            Ending::Normal => if fuel == 0 {
                                None
                            } else {
                                match loop_of(h, s, env, b.world, (fuel - 1) as nat) {
                                    Some(rest) => Some(rest.after(c.steps + b.steps + 2)),
                                    None => None,
                                }
                            },
                            Ending::Return(v) => Some(b.after(c.steps + 2)),
                            Ending::Error(x) => Some(b.after(c.steps + 1)),
                        },
                        None => None,
                    }
                } else {
                    Some(Meaning { outcome: Ending::Normal, world: c.world, steps: c.steps + 1 })
                },
                Err(x) => broken(x, c, 0),
            },
            None => None,
        },
        _ => None,
    }
}

/// The meaning of the statement `s` in scope `env` of the world `w`.
pub open spec fn effect_of(h: Host, s: StatementView, env: nat, w: World, fuel: nat) -> Option<
    Meaning<Ending>,
>
    decreases fuel, 1nat, s, 1nat,
{
    match s {
        StatementView::ExprSt(e) => match value_of(h, e, env, w, fuel) {
            Some(v) => match v.outcome {
                Ok(_) => Some(
                    Meaning { outcome: Ending::Normal, world: v.world, steps: v.steps + 2 },
                ),
                Err(x) => broken(x, v, 1),
            },
            None => None,
        },
        StatementView::PrintSt(e) => match value_of(h, e, env, w, fuel) {
            Some(v) => match v.outcome {
                Ok(x) => match printed_text(x) {
                    Some(text) => Some(
                        Meaning {
                            outcome: Ending::Normal,
                            world: World { output: v.world.output.push(text), ..v.world },
                            steps: v.steps + 2,
                        },
                    ),
                    None => Some(
                        Meaning {
                            outcome: Ending::Normal,
                            world: World {
                                output: v.world.output.push((h.render)(x->Number_0)),
                                ..v.world
                            },
                            steps: v.steps + 3,
                        },
                    ),
                },
                Err(x) => broken(x, v, 1),
            },
            None => None,
        },
        StatementView::VariableSt(name, e) => match value_of(h, e, env, w, fuel) {
            Some(v) => match v.outcome {
                Ok(x) => Some(
                    Meaning {
                        outcome: Ending::Normal,
                        world: World { scopes: defined(v.world.scopes, env, name, x), ..v.world },
                        steps: v.steps + 2,
                    },
                ),
                Err(x) => broken(x, v, 1),
            },
            None => None,
        },
        StatementView::BlockSt(statements) => match sequence_of(
            h,
            statements,
            0,
            w.scopes.len(),
            opened(w, EnvironmentView { enclosing: Some(env), values: Map::empty() }),
            fuel,
        ) {
            Some(r) => Some(r.after(1)),
            None => None,
        },
        StatementView::IfSt { condition, then_, else_ } => match value_of(
            h,
            condition,
            env,
            w,
            fuel,
        ) {
            Some(c) => match c.outcome {
                Ok(v) => if truthy(v) {
                    match effect_of(h, *then_, env, c.world, fuel) {
                        Some(r) => Some(r.after(c.steps + 2)),
                        None => None,
                    }
                } else {
                    match else_ {
                        Some(other) => match effect_of(h, *other, env, c.world, fuel) {
                            Some(r) => Some(r.after(c.steps + 2)),
                            None => None,
                        },
                        None => Some(
                            Meaning { outcome: Ending::Normal, world: c.world, steps: c.steps + 2 },
                        ),
                    }
                },
                Err(x) => broken(x, c, 1),
            },
            None => None,
        },
        StatementView::While { condition, body } => match loop_of(h, s, env, w, fuel) {
            Some(r) => Some(r.after(1)),
            None => None,
        },
        StatementView::FunctionSt(f) => Some(
            Meaning {
                outcome: Ending::Normal,
                world: World {
                    scopes: defined(w.scopes, env, f.name, ValueView::Callable(w.functions.len())),
                    functions: w.functions.push(
                        FunctionView::Declared { function_st: f, closure: env },
                    ),
                    ..w
                },
                steps: 1,
            },
        ),
        StatementView::ReturnSt { keyword, value } => match value_of(h, value, env, w, fuel) {
            Some(v) => match v.outcome {
                Ok(x) => Some(
                    Meaning { outcome: Ending::Return(x), world: v.world, steps: v.steps + 2 },
                ),
                Err(x) => broken(x, v, 1),
            },
            None => None,
        },
    }
}

/// The run `end` is where the meaning `r` of an expression leaves a run
/// that started with the stack `stack`: at the value, handed to the stack as
/// it was, or at the error; in the world of the meaning.
pub open spec fn valued(stack: Seq<FrameView>, r: Meaning<Valued>, end: Run) -> bool {
    &&& world(end) == r.world
    &&& match r.outcome {
        Ok(v) => end.machine.stack == stack && end.machine.control == ControlView::Deliver(v),
        Err(e) => end.machine.control == ControlView::Failing(e),
    }
}

/// The run `end` is where the meaning `r` of a statement leaves a run that
/// started with the stack `stack`: at the end of the statement or at its
/// `return`, with the stack as it was, or at the error; in the world of the
/// meaning.
pub open spec fn ended(stack: Seq<FrameView>, r: Meaning<Ending>, end: Run) -> bool {
    &&& world(end) == r.world
    &&& match r.outcome {
        Ending::Normal => end.machine.stack == stack && end.machine.control
            == ControlView::Complete,
        Ending::Return(v) => end.machine.stack == stack && end.machine.control
            == ControlView::Returning(v),
        Ending::Error(e) => end.machine.control == ControlView::Failing(e),
    }
}

/// Steps add up.
pub proof fn lemma_drive_add(h: Host, r: Run, a: nat, b: nat)
    ensures
        drive(h, r, a + b) == drive(h, drive(h, r, a), b),
    decreases a,
{
    if a > 0 {
        lemma_drive_add(h, advance(h, r), (a - 1) as nat, b);
        assert(drive(h, r, a + b) == drive(h, advance(h, r), (a + b - 1) as nat));
    }
}

/// One step of a run.
pub proof fn lemma_drive_one(h: Host, r: Run)
    ensures
        drive(h, r, 1) == advance(h, r),
{
    reveal_with_fuel(drive, 2);
}

/// The machine computes the meaning of every expression: started on the
/// expression, with whatever stack and whatever reply, and run with the
/// host, it arrives in the steps that the meaning names at the value, with
/// the stack as it was, or at the error, in the world of the meaning.
pub proof fn law_value(h: Host, e: ExprView, env: nat, start: Run, fuel: nat)
    requires
        start.machine.control == ControlView::Evaluate(e, env),
        value_of(h, e, env, world(start), fuel) is Some,
    ensures
        ({
            let r = value_of(h, e, env, world(start), fuel)->0;
            valued(start.machine.stack, r, drive(h, start, r.steps))
        }),
    decreases fuel, 0nat, e, 1nat,
{
    match e {
        ExprView::Literal(_) | ExprView::VarRead { .. } => {
            reveal(semantics::step);
            reveal(semantics::evaluate);
            lemma_drive_one(h, start);
        },
        ExprView::Grouping { .. } => {
            lemma_grouping(h, e, env, start, fuel);
        },
        ExprView::Unary { .. } => {
            lemma_unary(h, e, env, start, fuel);
        },
        ExprView::Binary { .. } => {
            lemma_binary(h, e, env, start, fuel);
        },
        ExprView::Logical { .. } => {
            lemma_logical(h, e, env, start, fuel);
        },
        ExprView::VarAssign { .. } => {
            lemma_assign(h, e, env, start, fuel);
        },
        ExprView::FnCall { .. } => {
            lemma_call(h, e, env, start, fuel);
        },
    }
}

/// Applying a binary operator to two values: from the step that takes the
/// right operand, the machine arrives at what the operator makes of the two
/// with the host.
#[verifier::rlimit(50)]
proof fn lemma_applied(
    h: Host,
    start: Run,
    token: TokenKind,
    l: ValueView,
    r: ValueView,
    stack: Seq<FrameView>,
)
    requires
        start.machine.control == ControlView::Deliver(r),
        start.machine.stack == stack.push(FrameView::BinaryApply { token, left: l }),
    ensures
        ({
            let end = drive(h, start, applying(l, token, r));
            &&& world(end) == world(start)
            &&& match applied(h, l, token, r) {
                Ok(v) => end.machine.stack == stack && end.machine.control
                    == ControlView::Deliver(v),
                Err(e) => end.machine.control == ControlView::Failing(e),
            }
        }),
{
    reveal(semantics::step);
    reveal(semantics::deliver);
    reveal(semantics::apply_binary);
    reveal(semantics::text);
    lemma_drive_one(h, start);
    let first = advance(h, start);
    assert(start.machine.stack.drop_last() =~= stack);
    if applying(l, token, r) == 2 {
        lemma_drive_one(h, first);
        lemma_drive_add(h, start, 1, 1);
        assert(first.machine.stack.drop_last() =~= stack || first.machine.stack =~= stack);
    }
}

/// [`law_value`] for an expression in parentheses.
#[verifier::rlimit(50)]
proof fn lemma_grouping(h: Host, e: ExprView, env: nat, start: Run, fuel: nat)
    requires
        e is Grouping,
        start.machine.control == ControlView::Evaluate(e, env),
        value_of(h, e, env, world(start), fuel) is Some,
    ensures
        ({
            let r = value_of(h, e, env, world(start), fuel)->0;
            valued(start.machine.stack, r, drive(h, start, r.steps))
        }),
    decreases fuel, 0nat, e, 0nat,
{
    reveal(semantics::step);
    reveal(semantics::evaluate);
    reveal(semantics::deliver);
    let m = start.machine;
    let first = advance(h, start);
    lemma_drive_one(h, start);
    match e {
        ExprView::Grouping { expr } => {
            let r = value_of(h, *expr, env, world(start), fuel)->0;
            law_value(h, *expr, env, first, fuel);
            lemma_drive_add(h, start, 1, r.steps);
        },
        _ => {},
    }
}

/// [`law_value`] for a unary operator.
#[verifier::rlimit(50)]
proof fn lemma_unary(h: Host, e: ExprView, env: nat, start: Run, fuel: nat)
    requires
        e is Unary,
        start.machine.control == ControlView::Evaluate(e, env),
        value_of(h, e, env, world(start), fuel) is Some,
    ensures
        ({
            let r = value_of(h, e, env, world(start), fuel)->0;
            valued(start.machine.stack, r, drive(h, start, r.steps))
        }),
    decreases fuel, 0nat, e, 0nat,
{
    reveal(semantics::step);
    reveal(semantics::evaluate);
    reveal(semantics::deliver);
    let m = start.machine;
    let first = advance(h, start);
    lemma_drive_one(h, start);
    match e {
        ExprView::Unary { token, right } => {
            let r = value_of(h, *right, env, world(start), fuel)->0;
            law_value(h, *right, env, first, fuel);
            lemma_drive_add(h, start, 1, r.steps);
            let second = drive(h, first, r.steps);
            if r.outcome is Ok {
                lemma_drive_one(h, second);
                lemma_drive_add(h, start, 1 + r.steps, 1);
                assert(first.machine.stack.drop_last() =~= m.stack);
            }
        },
        _ => {},
    }
}

/// [`law_value`] for a binary operator.
#[verifier::rlimit(50)]
proof fn lemma_binary(h: Host, e: ExprView, env: nat, start: Run, fuel: nat)
    requires
        e is Binary,
        start.machine.control == ControlView::Evaluate(e, env),
        value_of(h, e, env, world(start), fuel) is Some,
    ensures
        ({
            let r = value_of(h, e, env, world(start), fuel)->0;
            valued(start.machine.stack, r, drive(h, start, r.steps))
        }),
    decreases fuel, 0nat, e, 0nat,
{
    reveal(semantics::step);
    reveal(semantics::evaluate);
    reveal(semantics::deliver);
    let m = start.machine;
    let first = advance(h, start);
    lemma_drive_one(h, start);
    match e {
        ExprView::Binary { left, token, right } => {
            let l = value_of(h, *left, env, world(start), fuel)->0;
            law_value(h, *left, env, first, fuel);
            lemma_drive_add(h, start, 1, l.steps);
            let second = drive(h, first, l.steps);
            if l.outcome is Ok {
                let lv = l.outcome->Ok_0;
                lemma_drive_one(h, second);
                lemma_drive_add(h, start, 1 + l.steps, 1);
                let third = drive(h, second, 1);
                assert(first.machine.stack.drop_last() =~= m.stack);
                let r = value_of(h, *right, env, l.world, fuel)->0;
                law_value(h, *right, env, third, fuel);
                lemma_drive_add(h, start, 2 + l.steps, r.steps);
                let fourth = drive(h, third, r.steps);
                if r.outcome is Ok {
                    let rv = r.outcome->Ok_0;
                    assert(third.machine.stack.drop_last() =~= m.stack);
                    lemma_applied(h, fourth, token, lv, rv, m.stack);
                    lemma_drive_add(h, start, 2 + l.steps + r.steps, applying(lv, token, rv));
                }
            }
        },
        _ => {},
    }
}

/// [`law_value`] for `or` and `and`.
#[verifier::rlimit(50)]
proof fn lemma_logical(h: Host, e: ExprView, env: nat, start: Run, fuel: nat)
    requires
        e is Logical,
        start.machine.control == ControlView::Evaluate(e, env),
        value_of(h, e, env, world(start), fuel) is Some,
    ensures
        ({
            let r = value_of(h, e, env, world(start), fuel)->0;
            valued(start.machine.stack, r, drive(h, start, r.steps))
        }),
    decreases fuel, 0nat, e, 0nat,
{
    reveal(semantics::step);
    reveal(semantics::evaluate);
    reveal(semantics::deliver);
    reveal(semantics::logical_right);
    let m = start.machine;
    let first = advance(h, start);
    lemma_drive_one(h, start);
    match e {
        ExprView::Logical { left, token, right } => {
            let l = value_of(h, *left, env, world(start), fuel)->0;
            law_value(h, *left, env, first, fuel);
            lemma_drive_add(h, start, 1, l.steps);
            let second = drive(h, first, l.steps);
            if l.outcome is Ok {
                let lv = l.outcome->Ok_0;
                lemma_drive_one(h, second);
                lemma_drive_add(h, start, 1 + l.steps, 1);
                let third = drive(h, second, 1);
                assert(first.machine.stack.drop_last() =~= m.stack);
                if !(token is Or && truthy(lv)) && !(!(token is Or) && !truthy(lv)) {
                    let r = value_of(h, *right, env, l.world, fuel)->0;
                    law_value(h, *right, env, third, fuel);
                    lemma_drive_add(h, start, 2 + l.steps, r.steps);
                    let fourth = drive(h, third, r.steps);
                    if r.outcome is Ok {
                        lemma_drive_one(h, fourth);
                        lemma_drive_add(h, start, 2 + l.steps + r.steps, 1);
                        assert(third.machine.stack.drop_last() =~= m.stack);
                    }
                }
            }
        },
        _ => {},
    }
}

/// [`law_value`] for an assignment.
#[verifier::rlimit(50)]
proof fn lemma_assign(h: Host, e: ExprView, env: nat, start: Run, fuel: nat)
    requires
        e is VarAssign,
        start.machine.control == ControlView::Evaluate(e, env),
        value_of(h, e, env, world(start), fuel) is Some,
    ensures
        ({
            let r = value_of(h, e, env, world(start), fuel)->0;
            valued(start.machine.stack, r, drive(h, start, r.steps))
        }),
    decreases fuel, 0nat, e, 0nat,
{
    reveal(semantics::step);
    reveal(semantics::evaluate);
    reveal(semantics::deliver);
    reveal(semantics::assign);
    let m = start.machine;
    let first = advance(h, start);
    lemma_drive_one(h, start);
    match e {
        ExprView::VarAssign { name, value } => {
            let v = value_of(h, *value, env, world(start), fuel)->0;
            law_value(h, *value, env, first, fuel);
            lemma_drive_add(h, start, 1, v.steps);
            let second = drive(h, first, v.steps);
            if v.outcome is Ok {
                lemma_drive_one(h, second);
                lemma_drive_add(h, start, 1 + v.steps, 1);
                assert(first.machine.stack.drop_last() =~= m.stack);
            }
        },
        _ => {},
    }
}

/// [`law_value`] for a call.
#[verifier::rlimit(50)]
proof fn lemma_call(h: Host, e: ExprView, env: nat, start: Run, fuel: nat)
    requires
        e is FnCall,
        start.machine.control == ControlView::Evaluate(e, env),
        value_of(h, e, env, world(start), fuel) is Some,
    ensures
        ({
            let r = value_of(h, e, env, world(start), fuel)->0;
            valued(start.machine.stack, r, drive(h, start, r.steps))
        }),
    decreases fuel, 0nat, e, 0nat,
{
    reveal(semantics::step);
    reveal(semantics::evaluate);
    reveal(semantics::deliver);
    reveal(semantics::callee);
    let m = start.machine;
    let first = advance(h, start);
    lemma_drive_one(h, start);
    match e {
        ExprView::FnCall { callee, paren, arguments } => {
            let c = value_of(h, *callee, env, world(start), fuel)->0;
            law_value(h, *callee, env, first, fuel);
            lemma_drive_add(h, start, 1, c.steps);
            let second = drive(h, first, c.steps);
            if c.outcome is Ok {
                let f = c.outcome->Ok_0;
                assert(first.machine.stack.drop_last() =~= m.stack);
                let k = second.machine.go(ControlView::Complete).pop();
                let r = arguments_of(h, f, Seq::empty(), arguments, env, c.world, fuel)->0;
                law_arguments(h, f, Seq::empty(), arguments, env, second, k, fuel);
                lemma_drive_add(h, start, 1 + c.steps, r.steps);
            }
        },
        _ => {},
    }
}

/// The machine computes the meaning of the rest of a call: from the step
/// that takes the last value known, it evaluates the arguments that are
/// left and makes the call.
#[verifier::rlimit(50)]
pub proof fn law_arguments(
    h: Host,
    callee: ValueView,
    done: Seq<ValueView>,
    arguments: Seq<ExprView>,
    env: nat,
    start: Run,
    k: MachineView,
    fuel: nat,
)
    requires
        k.control == ControlView::Complete,
        k.scopes == start.machine.scopes,
        k.functions == start.machine.functions,
        semantics::step(start.machine, start.reply) == if done.len() < arguments.len() {
            semantics::proceed(
                k.push(FrameView::Arguments { callee, done, arguments, env }).go(
                    ControlView::Evaluate(arguments[done.len() as int], env),
                ),
            )
        } else {
            semantics::invoke(k, callee, done)
        },
        arguments_of(h, callee, done, arguments, env, world(start), fuel) is Some,
    ensures
        ({
            let r = arguments_of(h, callee, done, arguments, env, world(start), fuel)->0;
            valued(k.stack, r, drive(h, start, r.steps))
        }),
    decreases fuel, 0nat, arguments, arguments.len() - done.len(),
{
    let first = advance(h, start);
    lemma_drive_one(h, start);
    if done.len() < arguments.len() {
        let a = value_of(h, arguments[done.len() as int], env, world(start), fuel)->0;
        law_value(h, arguments[done.len() as int], env, first, fuel);
        lemma_drive_add(h, start, 1, a.steps);
        let second = drive(h, first, a.steps);
        if a.outcome is Ok {
            let v = a.outcome->Ok_0;
            reveal(semantics::step);
            reveal(semantics::deliver);
            reveal(semantics::argument);
            let below = MachineView { scopes: second.machine.scopes, functions: second.machine.functions, ..k };
            assert(second.machine.go(ControlView::Complete).pop() == below) by {
                assert(first.machine.stack.drop_last() =~= k.stack);
            }
            let r = arguments_of(h, callee, done.push(v), arguments, env, a.world, fuel)->0;
            law_arguments(h, callee, done.push(v), arguments, env, second, below, fuel);
            lemma_drive_add(h, start, 1 + a.steps, r.steps);
        }
    } else {
        reveal(semantics::invoke);
        reveal(semantics::enter);
        match target(world(start), callee, done) {
            Err(x) => {},
            Ok(FunctionView::Native { .. }) => {
                reveal(semantics::step);
                lemma_drive_one(h, first);
                lemma_drive_add(h, start, 1, 1);
            },
            Ok(FunctionView::Declared { function_st, closure }) => {
                let scope = EnvironmentView {
                    enclosing: Some(closure),
                    values: bound(function_st.params, done, function_st.params.len()),
                };
                let b = sequence_of(
                    h,
                    function_st.body,
                    0,
                    k.scopes.len(),
                    opened(world(start), scope),
                    (fuel - 1) as nat,
                )->0;
                let inside = (MachineView { scopes: k.scopes.push(scope), ..k }).push(
                    FrameView::Call,
                );
                assert(first.machine.stack.drop_last() =~= inside.stack);
                law_sequence(h, function_st.body, 0, k.scopes.len(), first, (fuel - 1) as nat);
                lemma_drive_add(h, start, 1, b.steps);
                let second = drive(h, first, b.steps);
                if !(b.outcome is Error) {
                    reveal(semantics::step);
                    reveal(semantics::complete);
                    reveal(semantics::unwind);
                    lemma_drive_one(h, second);
                    lemma_drive_add(h, start, 1 + b.steps, 1);
                    assert(inside.stack.drop_last() =~= k.stack);
                }
            },
        }
    }
}

/// The machine computes the meaning of a sequence of statements: from the
/// end of the statement before, it runs the statements that are left.
#[verifier::rlimit(50)]
pub proof fn law_sequence(
    h: Host,
    statements: Seq<Result<StatementView, ErrorView>>,
    next: nat,
    env: nat,
    start: Run,
    fuel: nat,
)
    requires
        start.machine.control == ControlView::Complete,
        start.machine.stack.len() > 0,
        start.machine.stack.last() == (FrameView::Sequence { statements, next, env }),
        sequence_of(h, statements, next, env, world(start), fuel) is Some,
    ensures
        ({
            let r = sequence_of(h, statements, next, env, world(start), fuel)->0;
            ended(start.machine.stack.drop_last(), r, drive(h, start, r.steps))
        }),
    decreases fuel, 1nat, statements, statements.len() - next,
{
    reveal(semantics::step);
    reveal(semantics::complete);
    reveal(semantics::sequence);
    reveal(semantics::unwind);
    let k = start.machine.stack.drop_last();
    let first = advance(h, start);
    lemma_drive_one(h, start);
    if next < statements.len() {
        match statements[next as int] {
            Ok(s) => {
                let r = effect_of(h, s, env, world(start), fuel)->0;
                law_effect(h, s, env, first, fuel);
                lemma_drive_add(h, start, 1, r.steps);
                let second = drive(h, first, r.steps);
                assert(first.machine.stack.drop_last() =~= k);
                match r.outcome {
                    Ending::Normal => {
                        let rest = sequence_of(h, statements, next + 1, env, r.world, fuel)->0;
                        law_sequence(h, statements, next + 1, env, second, fuel);
                        lemma_drive_add(h, start, 1 + r.steps, rest.steps);
                    },
                    Ending::Return(v) => {
                        lemma_drive_one(h, second);
                        lemma_drive_add(h, start, 1 + r.steps, 1);
                    },
                    Ending::Error(x) => {},
                }
            },
            Err(e) => {},
        }
    }
}

/// The machine computes the meaning of a loop: from the test of the
/// condition, it runs the body as long as the condition is true.
#[verifier::rlimit(50)]
pub proof fn law_loop(h: Host, s: StatementView, env: nat, start: Run, fuel: nat)
    requires
        s is While,
        start.machine.control == ControlView::Evaluate(s->While_condition, env),
        start.machine.stack.len() > 0,
        start.machine.stack.last() == (FrameView::LoopTest {
            condition: s->While_condition,
            body: *s->While_body,
            env,
        }),
        loop_of(h, s, env, world(start), fuel) is Some,
    ensures
        ({
            let r = loop_of(h, s, env, world(start), fuel)->0;
            ended(start.machine.stack.drop_last(), r, drive(h, start, r.steps))
        }),
    decreases fuel, 1nat, s, 0nat,
{
    reveal(semantics::step);
    reveal(semantics::deliver);
    reveal(semantics::loop_test);
    reveal(semantics::complete);
    reveal(semantics::unwind);
    reveal(semantics::evaluate);
    let k = start.machine.stack.drop_last();
    match s {
        StatementView::While { condition, body } => {
            let c = value_of(h, condition, env, world(start), fuel)->0;
            law_value(h, condition, env, start, fuel);
            let first = drive(h, start, c.steps);
            if c.outcome is Ok {
                lemma_drive_one(h, first);
                lemma_drive_add(h, start, c.steps, 1);
                let second = drive(h, first, 1);
                if truthy(c.outcome->Ok_0) {
                    let b = effect_of(h, *body, env, c.world, fuel)->0;
                    law_effect(h, *body, env, second, fuel);
                    lemma_drive_add(h, start, c.steps + 1, b.steps);
                    let third = drive(h, second, b.steps);
                    assert(second.machine.stack.drop_last() =~= k);
                    if !(b.outcome is Error) {
                        lemma_drive_one(h, third);
                        lemma_drive_add(h, start, c.steps + 1 + b.steps, 1);
                        let fourth = drive(h, third, 1);
                        if b.outcome is Normal {
                            let rest = loop_of(h, s, env, b.world, (fuel - 1) as nat)->0;
                            assert(fourth.machine.stack.drop_last() =~= k);
                            law_loop(h, s, env, fourth, (fuel - 1) as nat);
                            lemma_drive_add(h, start, c.steps + b.steps + 2, rest.steps);
                        }
                    }
                }
            }
        },
        _ => {},
    }
}

/// The machine computes the meaning of every statement: started on the
/// statement, with whatever stack and whatever reply, and run with the
/// host, it arrives in the steps that the meaning names at the end of the
/// statement or at its `return`, with the stack as it was, or at the error,
/// in the world of the meaning.
pub proof fn law_effect(h: Host, s: StatementView, env: nat, start: Run, fuel: nat)
    requires
        start.machine.control == ControlView::Execute(s, env),
        effect_of(h, s, env, world(start), fuel) is Some,
    ensures
        ({
            let r = effect_of(h, s, env, world(start), fuel)->0;
            ended(start.machine.stack, r, drive(h, start, r.steps))
        }),
    decreases fuel, 1nat, s, 2nat,
{
    match s {
        StatementView::ExprSt(_) | StatementView::VariableSt(..) | StatementView::ReturnSt { .. } => {
            lemma_simple(h, s, env, start, fuel);
        },
        StatementView::PrintSt(_) => {
            lemma_print(h, s, env, start, fuel);
        },
        StatementView::BlockSt(_) | StatementView::While { .. } | StatementView::FunctionSt(_) => {
            lemma_nested(h, s, env, start, fuel);
        },
        StatementView::IfSt { .. } => {
            lemma_if(h, s, env, start, fuel);
        },
    }
}

/// [`law_effect`] for an expression statement, a declaration of a variable and a
/// `return`.
#[verifier::rlimit(50)]
proof fn lemma_simple(h: Host, s: StatementView, env: nat, start: Run, fuel: nat)
    requires
        s is ExprSt || s is VariableSt || s is ReturnSt,
        start.machine.control == ControlView::Execute(s, env),
        effect_of(h, s, env, world(start), fuel) is Some,
    ensures
        ({
            let r = effect_of(h, s, env, world(start), fuel)->0;
            ended(start.machine.stack, r, drive(h, start, r.steps))
        }),
    decreases fuel, 1nat, s, 1nat,
{
    reveal(semantics::step);
    reveal(semantics::execute);
    reveal(semantics::deliver);
    let m = start.machine;
    let first = advance(h, start);
    lemma_drive_one(h, start);
    match s {
        StatementView::ExprSt(e) => {
            let v = value_of(h, e, env, world(start), fuel)->0;
            law_value(h, e, env, first, fuel);
            lemma_drive_add(h, start, 1, v.steps);
            let second = drive(h, first, v.steps);
            if v.outcome is Ok {
                lemma_drive_one(h, second);
                lemma_drive_add(h, start, 1 + v.steps, 1);
                assert(first.machine.stack.drop_last() =~= m.stack);
            }
        },
        StatementView::VariableSt(name, e) => {
            let v = value_of(h, e, env, world(start), fuel)->0;
            law_value(h, e, env, first, fuel);
            lemma_drive_add(h, start, 1, v.steps);
            let second = drive(h, first, v.steps);
            if v.outcome is Ok {
                lemma_drive_one(h, second);
                lemma_drive_add(h, start, 1 + v.steps, 1);
                assert(first.machine.stack.drop_last() =~= m.stack);
            }
        },
        StatementView::ReturnSt { keyword, value } => {
            let v = value_of(h, value, env, world(start), fuel)->0;
            law_value(h, value, env, first, fuel);
            lemma_drive_add(h, start, 1, v.steps);
            let second = drive(h, first, v.steps);
            if v.outcome is Ok {
                lemma_drive_one(h, second);
                lemma_drive_add(h, start, 1 + v.steps, 1);
                assert(first.machine.stack.drop_last() =~= m.stack);
            }
        },
        _ => {},
    }
}

/// [`law_effect`] for `print`.
#[verifier::rlimit(50)]
proof fn lemma_print(h: Host, s: StatementView, env: nat, start: Run, fuel: nat)
    requires
        s is PrintSt,
        start.machine.control == ControlView::Execute(s, env),
        effect_of(h, s, env, world(start), fuel) is Some,
    ensures
        ({
            let r = effect_of(h, s, env, world(start), fuel)->0;
            ended(start.machine.stack, r, drive(h, start, r.steps))
        }),
    decreases fuel, 1nat, s, 1nat,
{
    reveal(semantics::step);
    reveal(semantics::execute);
    reveal(semantics::deliver);
    reveal(semantics::print);
    reveal(semantics::text);
    let m = start.machine;
    let first = advance(h, start);
    lemma_drive_one(h, start);
    match s {
        StatementView::PrintSt(e) => {
            let v = value_of(h, e, env, world(start), fuel)->0;
            law_value(h, e, env, first, fuel);
            lemma_drive_add(h, start, 1, v.steps);
            let second = drive(h, first, v.steps);
            if v.outcome is Ok {
                lemma_drive_one(h, second);
                lemma_drive_add(h, start, 1 + v.steps, 1);
                let third = drive(h, second, 1);
                assert(first.machine.stack.drop_last() =~= m.stack);
                if printed_text(v.outcome->Ok_0) is None {
                    lemma_drive_one(h, third);
                    lemma_drive_add(h, start, 2 + v.steps, 1);
                    assert(third.machine.stack.drop_last() =~= m.stack);
                }
            }
        },
        _ => {},
    }
}

/// [`law_effect`] for a block, a loop and the declaration of a function.
#[verifier::rlimit(50)]
proof fn lemma_nested(h: Host, s: StatementView, env: nat, start: Run, fuel: nat)
    requires
        s is BlockSt || s is While || s is FunctionSt,
        start.machine.control == ControlView::Execute(s, env),
        effect_of(h, s, env, world(start), fuel) is Some,
    ensures
        ({
            let r = effect_of(h, s, env, world(start), fuel)->0;
            ended(start.machine.stack, r, drive(h, start, r.steps))
        }),
    decreases fuel, 1nat, s, 1nat,
{
    reveal(semantics::step);
    reveal(semantics::execute);
    reveal(semantics::deliver);
    reveal(semantics::execute_block);
    reveal(semantics::execute_function);
    let m = start.machine;
    let first = advance(h, start);
    lemma_drive_one(h, start);
    match s {
        StatementView::BlockSt(statements) => {
            let r = sequence_of(
                h,
                statements,
                0,
                m.scopes.len(),
                opened(
                    world(start),
                    EnvironmentView { enclosing: Some(env), values: Map::empty() },
                ),
                fuel,
            )->0;
            law_sequence(h, statements, 0, m.scopes.len(), first, fuel);
            lemma_drive_add(h, start, 1, r.steps);
            assert(first.machine.stack.drop_last() =~= m.stack);
        },
        StatementView::While { condition, body } => {
            let r = loop_of(h, s, env, world(start), fuel)->0;
            law_loop(h, s, env, first, fuel);
            lemma_drive_add(h, start, 1, r.steps);
            assert(first.machine.stack.drop_last() =~= m.stack);
        },
        _ => {},
    }
}

/// [`law_effect`] for `if`.
#[verifier::rlimit(50)]
proof fn lemma_if(h: Host, s: StatementView, env: nat, start: Run, fuel: nat)
    requires
        s is IfSt,
        start.machine.control == ControlView::Execute(s, env),
        effect_of(h, s, env, world(start), fuel) is Some,
    ensures
        ({
            let r = effect_of(h, s, env, world(start), fuel)->0;
            ended(start.machine.stack, r, drive(h, start, r.steps))
        }),
    decreases fuel, 1nat, s, 1nat,
{
    reveal(semantics::step);
    reveal(semantics::execute);
    reveal(semantics::deliver);
    reveal(semantics::branch);
    let m = start.machine;
    let first = advance(h, start);
    lemma_drive_one(h, start);
    match s {
        StatementView::IfSt { condition, then_, else_ } => {
            let c = value_of(h, condition, env, world(start), fuel)->0;
            law_value(h, condition, env, first, fuel);
            lemma_drive_add(h, start, 1, c.steps);
            let second = drive(h, first, c.steps);
            if c.outcome is Ok {
                lemma_drive_one(h, second);
                lemma_drive_add(h, start, 1 + c.steps, 1);
                let third = drive(h, second, 1);
                assert(first.machine.stack.drop_last() =~= m.stack);
                if truthy(c.outcome->Ok_0) {
                    let r = effect_of(h, *then_, env, c.world, fuel)->0;
                    law_effect(h, *then_, env, third, fuel);
                    lemma_drive_add(h, start, 2 + c.steps, r.steps);
                } else {
                    match else_ {
                        Some(other) => {
                            let r = effect_of(h, *other, env, c.world, fuel)->0;
                            law_effect(h, *other, env, third, fuel);
                            lemma_drive_add(h, start, 2 + c.steps, r.steps);
                        },
                        None => {},
                    }
                }
            }
        },
        _ => {},
    }
}

/// How a run ends whose statements end as `e` says.
pub open spec fn outcome_of(e: Ending) -> Valued {
    match e {
        Ending::Normal => Ok(ValueView::Nil),
        Ending::Return(v) => Ok(v),
        Ending::Error(x) => Err(x),
    }
}

/// The run of a program from its start: the machine about to run
/// `statements`, nothing printed, the clock not yet read.
pub open spec fn start_of(statements: Seq<Result<StatementView, ErrorView>>, reply: ReplyView)
    -> Run {
    Run {
        machine: crate::interpreter::fresh().push(
            FrameView::Sequence { statements, next: 0, env: 0 },
        ),
        reply,
        output: Seq::empty(),
        ticks: 0,
    }
}

/// A program that has a meaning runs to its end: after the steps of the
/// meaning and one more the machine has finished, with the outcome of the
/// meaning and having printed what the meaning prints.
pub proof fn law_program(
    h: Host,
    statements: Seq<Result<StatementView, ErrorView>>,
    reply: ReplyView,
    fuel: nat,
)
    requires
        sequence_of(h, statements, 0, 0, world(start_of(statements, reply)), fuel) is Some,
    ensures
        ({
            let start = start_of(statements, reply);
            let r = sequence_of(h, statements, 0, 0, world(start), fuel)->0;
            let end = drive(h, start, r.steps + 1);
            &&& end.machine.control == ControlView::Finished(outcome_of(r.outcome))
            &&& end.output == r.world.output
            &&& end.ticks == r.world.ticks
        }),
{
    reveal(semantics::step);
    let start = start_of(statements, reply);
    let r = sequence_of(h, statements, 0, 0, world(start), fuel)->0;
    law_sequence(h, statements, 0, 0, start, fuel);
    let last = drive(h, start, r.steps);
    lemma_drive_one(h, last);
    lemma_drive_add(h, start, r.steps, 1);
    assert(start.machine.stack.drop_last() =~= Seq::<FrameView>::empty());
}

} // verus!
