//! What holds of the machine at every step of every program.
//!
//! A machine is *valid* when every scope lies inside an earlier one, every
//! scope that a frame, a function or the work at hand names exists, and each
//! frame on the stack waits for what the frame above it yields. A machine
//! that is about to run a program is valid, every step keeps it so, and a
//! valid machine never reaches the error of a state that no program leads
//! to.
use vstd::prelude::*;
use crate::environment::{assigned, defined, holder, EnvironmentView};
use crate::expressions::{ExprView, ValueView};
use crate::interpreter::fresh;
use crate::machine::{ControlView, FrameView, FunctionView, MachineView, ReplyView};
use crate::semantics;
use crate::statements::StatementView;
use crate::types::ErrorView;

verus! {

/// What a frame waits for, and what it yields in turn.
pub enum Flow {
    /// The value of an expression.
    Value,
    /// The end of a statement.
    End,
    /// The text of a number.
    Text,
}

/// What `f` waits for.
pub open spec fn expects(f: FrameView) -> Flow {
    match f {
        FrameView::Sequence { .. } | FrameView::LoopBody { .. } | FrameView::Call => Flow::End,
        FrameView::Concat { .. } | FrameView::PrintText => Flow::Text,
        _ => Flow::Value,
    }
}

/// What `f` yields to the frame below it once it is done.
pub open spec fn yields(f: FrameView) -> Flow {
    match f {
        FrameView::Discard
        | FrameView::Print
        | FrameView::PrintText
        | FrameView::Define { .. }
        | FrameView::Branch { .. }
        | FrameView::LoopTest { .. }
        | FrameView::LoopBody { .. }
        | FrameView::ReturnValue
        | FrameView::Sequence { .. } => Flow::End,
        _ => Flow::Value,
    }
}

/// The scope that `f` names, if it names one.
pub open spec fn scope_of(f: FrameView) -> Option<nat> {
    match f {
        FrameView::BinaryRight { env, .. }
        | FrameView::LogicalRight { env, .. }
        | FrameView::Assign { env, .. }
        | FrameView::Callee { env, .. }
        | FrameView::Arguments { env, .. }
        | FrameView::Define { env, .. }
        | FrameView::Branch { env, .. }
        | FrameView::LoopTest { env, .. }
        | FrameView::LoopBody { env, .. }
        | FrameView::Sequence { env, .. } => Some(env),
        _ => None,
    }
}

/// What the work at hand will hand to the top of the stack, if anything.
pub open spec fn hands(c: ControlView) -> Option<Flow> {
    match c {
        ControlView::Evaluate(..) | ControlView::Deliver(_) | ControlView::AwaitNumber => Some(
            Flow::Value,
        ),
        ControlView::Execute(..) | ControlView::Complete => Some(Flow::End),
        ControlView::AwaitText => Some(Flow::Text),
        _ => None,
    }
}

/// Every scope lies inside an earlier scope or inside none.
#[verifier::opaque]
pub open spec fn nested(scopes: Seq<EnvironmentView>) -> bool {
    forall|i: int|
        0 <= i < scopes.len() ==> match (#[trigger] scopes[i]).enclosing {
            Some(p) => p < i,
            None => true,
        }
}

/// Every function was declared in a scope that exists.
#[verifier::opaque]
pub open spec fn rooted(functions: Seq<FunctionView>, scopes: nat) -> bool {
    forall|i: int|
        0 <= i < functions.len() ==> match #[trigger] functions[i] {
            FunctionView::Declared { closure, .. } => closure < scopes,
            _ => true,
        }
}

/// Every frame names a scope that exists, if it names one.
#[verifier::opaque]
pub open spec fn anchored(stack: Seq<FrameView>, scopes: nat) -> bool {
    forall|i: int|
        0 <= i < stack.len() ==> match scope_of(#[trigger] stack[i]) {
            Some(env) => env < scopes,
            None => true,
        }
}

/// Each frame waits for what the frame above it yields.
#[verifier::opaque]
pub open spec fn chained(stack: Seq<FrameView>) -> bool {
    forall|i: int, j: int|
        #![trigger stack[i], stack[j]]
        0 <= i && j == i + 1 && j < stack.len() ==> expects(stack[i]) == yields(stack[j])
}

/// The top of the stack waits for `flow`; an empty stack takes a value or
/// the end of a statement.
pub open spec fn takes(stack: Seq<FrameView>, flow: Flow) -> bool {
    if stack.len() == 0 {
        !(flow is Text)
    } else {
        expects(stack.last()) == flow
    }
}

/// The parts of a valid machine that do not depend on the work at hand.
pub open spec fn sound(m: MachineView) -> bool {
    &&& nested(m.scopes)
    &&& rooted(m.functions, m.scopes.len())
    &&& anchored(m.stack, m.scopes.len())
    &&& chained(m.stack)
}

/// The machine is valid.
pub open spec fn valid(m: MachineView) -> bool {
    &&& sound(m)
    &&& match m.control {
        ControlView::Evaluate(_, env) => env < m.scopes.len(),
        ControlView::Execute(_, env) => env < m.scopes.len(),
        _ => true,
    }
    &&& match hands(m.control) {
        Some(flow) => takes(m.stack, flow),
        None => true,
    }
}

/// No step has run into a state that no program leads to.
pub open spec fn unbroken(m: MachineView) -> bool {
    match m.control {
        ControlView::Failing(e) => !(e.kind is Internal),
        ControlView::Finished(Err(e)) => !(e.kind is Internal),
        _ => true,
    }
}

/// Pushing a frame that fits keeps the stack sound.
pub proof fn lemma_push(m: MachineView, f: FrameView)
    requires
        sound(m),
        takes(m.stack, yields(f)) || m.stack.len() == 0,
        scope_of(f) matches Some(env) ==> env < m.scopes.len(),
    ensures
        sound(m.push(f)),
        takes(m.push(f).stack, expects(f)),
{
    reveal(anchored);
    reveal(chained);
    let s = m.stack.push(f);
    assert forall|i: int| 0 <= i < s.len() implies match scope_of(#[trigger] s[i]) {
        Some(env) => env < m.scopes.len(),
        None => true,
    } by {
        if i < m.stack.len() {
            assert(s[i] == m.stack[i]);
        }
    }
    assert forall|i: int, j: int|
        #![trigger s[i], s[j]]
        0 <= i && j == i + 1 && j < s.len() implies expects(s[i]) == yields(s[j]) by {
        if j < m.stack.len() {
            assert(s[i] == m.stack[i]);
            assert(s[j] == m.stack[j]);
        } else {
            assert(s[i] == m.stack.last());
        }
    }
}

/// Taking the top frame off keeps the stack sound, and what is left waits
/// for what the frame yields.
pub proof fn lemma_pop(m: MachineView)
    requires
        sound(m),
        m.stack.len() > 0,
    ensures
        sound(m.pop()),
        takes(m.pop().stack, yields(m.stack.last())) || m.pop().stack.len() == 0,
        scope_of(m.stack.last()) matches Some(env) ==> env < m.scopes.len(),
{
    reveal(anchored);
    reveal(chained);
    let s = m.stack.drop_last();
    assert forall|i: int| 0 <= i < s.len() implies match scope_of(#[trigger] s[i]) {
        Some(env) => env < m.scopes.len(),
        None => true,
    } by {
        assert(s[i] == m.stack[i]);
    }
    assert forall|i: int, j: int|
        #![trigger s[i], s[j]]
        0 <= i && j == i + 1 && j < s.len() implies expects(s[i]) == yields(s[j]) by {
        assert(s[i] == m.stack[i]);
        assert(s[j] == m.stack[j]);
    }
    if s.len() > 0 {
        let i = s.len() - 1;
        assert(s[i] == m.stack[i]);
        assert(m.stack[i + 1] == m.stack.last());
    }
    assert(m.stack[m.stack.len() - 1] == m.stack.last());
}

/// A new scope inside a scope that exists keeps the machine sound.
pub proof fn lemma_open(m: MachineView, scope: EnvironmentView)
    requires
        sound(m),
        scope.enclosing matches Some(p) ==> p < m.scopes.len(),
    ensures
        sound(MachineView { scopes: m.scopes.push(scope), ..m }),
{
    reveal(nested);
    reveal(rooted);
    reveal(anchored);
    let scopes = m.scopes.push(scope);
    assert forall|i: int| 0 <= i < scopes.len() implies match (#[trigger] scopes[i]).enclosing {
        Some(p) => p < i,
        None => true,
    } by {
        if i < m.scopes.len() {
            assert(scopes[i] == m.scopes[i]);
        }
    }
}

/// Binding a name keeps the machine sound.
pub proof fn lemma_define(m: MachineView, env: nat, name: Seq<char>, v: ValueView)
    requires
        sound(m),
    ensures
        sound(m.define(env, name, v)),
        m.define(env, name, v).scopes.len() == m.scopes.len(),
{
    reveal(nested);
    let scopes = defined(m.scopes, env, name, v);
    assert forall|i: int| 0 <= i < scopes.len() implies match (#[trigger] scopes[i]).enclosing {
        Some(p) => p < i,
        None => true,
    } by {
        assert(scopes[i].enclosing == m.scopes[i].enclosing);
    }
}

/// Declaring a function in a scope that exists keeps the machine sound.
pub proof fn lemma_declare(m: MachineView, f: FunctionView)
    requires
        sound(m),
        f matches FunctionView::Declared { closure, .. } ==> closure < m.scopes.len(),
    ensures
        sound(m.declare(f)),
{
    reveal(rooted);
    let functions = m.functions.push(f);
    assert forall|i: int| 0 <= i < functions.len() implies match #[trigger] functions[i] {
        FunctionView::Declared { closure, .. } => closure < m.scopes.len(),
        _ => true,
    } by {
        if i < m.functions.len() {
            assert(functions[i] == m.functions[i]);
        }
    }
}

/// The function of a handle was declared in a scope that exists.
pub proof fn lemma_function(m: MachineView, id: int)
    requires
        sound(m),
        0 <= id < m.functions.len(),
    ensures
        m.functions[id] matches FunctionView::Declared { closure, .. } ==> closure < m.scopes.len(),
{
    reveal(rooted);
}

/// Starting to evaluate an expression keeps the machine valid.
pub proof fn lemma_evaluate(m: MachineView, e: ExprView, env: nat)
    requires
        sound(m),
        takes(m.stack, Flow::Value),
        env < m.scopes.len(),
    ensures
        valid(semantics::evaluate(m, e, env)),
        unbroken(semantics::evaluate(m, e, env)),
{
    reveal(semantics::evaluate);
    match e {
        ExprView::Unary { token, right } => {
            lemma_push(m, FrameView::Unary { token });
        },
        ExprView::Binary { left, token, right } => {
            lemma_push(m, FrameView::BinaryRight { token, right: *right, env });
        },
        ExprView::Logical { left, token, right } => {
            lemma_push(m, FrameView::LogicalRight { token, right: *right, env });
        },
        ExprView::VarAssign { name, value } => {
            lemma_push(m, FrameView::Assign { name, env });
        },
        ExprView::FnCall { callee, paren, arguments } => {
            lemma_push(m, FrameView::Callee { arguments, env });
        },
        _ => {},
    }
}

/// Starting to execute a statement keeps the machine valid.
pub proof fn lemma_execute(m: MachineView, s: StatementView, env: nat)
    requires
        sound(m),
        takes(m.stack, Flow::End),
        env < m.scopes.len(),
    ensures
        valid(semantics::execute(m, s, env)),
        unbroken(semantics::execute(m, s, env)),
{
    reveal(semantics::execute);
    reveal(semantics::execute_block);
    reveal(semantics::execute_function);
    match s {
        StatementView::ExprSt(e) => {
            lemma_push(m, FrameView::Discard);
        },
        StatementView::PrintSt(e) => {
            lemma_push(m, FrameView::Print);
        },
        StatementView::VariableSt(name, e) => {
            lemma_push(m, FrameView::Define { name, env });
        },
        StatementView::BlockSt(statements) => {
            let opened = m.open_scope(env);
            lemma_open(m, EnvironmentView { enclosing: Some(env), values: Map::empty() });
            lemma_push(opened, FrameView::Sequence { statements, next: 0, env: m.scopes.len() });
        },
        StatementView::IfSt { condition, then_, else_ } => {
            lemma_push(
                m,
                FrameView::Branch {
                    then_: *then_,
                    else_: match else_ {
                        Some(s) => Some(*s),
                        None => None,
                    },
                    env,
                },
            );
        },
        StatementView::While { condition, body } => {
            lemma_push(m, FrameView::LoopTest { condition, body: *body, env });
        },
        StatementView::FunctionSt(f) => {
            let declared = m.declare(FunctionView::Declared { function_st: f, closure: env });
            lemma_declare(m, FunctionView::Declared { function_st: f, closure: env });
            lemma_define(declared, env, f.name, ValueView::Callable(m.functions.len()));
        },
        StatementView::ReturnSt { keyword, value } => {
            lemma_push(m, FrameView::ReturnValue);
        },
    }
}

/// Entering a function keeps the machine valid.
pub proof fn lemma_invoke(m: MachineView, callee: ValueView, args: Seq<ValueView>)
    requires
        sound(m),
        takes(m.stack, Flow::Value),
    ensures
        valid(semantics::invoke(m, callee, args).machine),
        unbroken(semantics::invoke(m, callee, args).machine),
{
    reveal(semantics::invoke);
    reveal(semantics::enter);
    match callee {
        ValueView::Callable(id) => {
            if id < m.functions.len() {
                lemma_function(m, id as int);
                match m.functions[id as int] {
                    FunctionView::Declared { function_st, closure } => {
                        if args.len() == function_st.params.len() {
                            let scope = EnvironmentView {
                                enclosing: Some(closure),
                                values: semantics::bound(
                                    function_st.params,
                                    args,
                                    function_st.params.len(),
                                ),
                            };
                            let opened = MachineView { scopes: m.scopes.push(scope), ..m };
                            lemma_open(m, scope);
                            lemma_push(opened, FrameView::Call);
                            lemma_push(
                                opened.push(FrameView::Call),
                                FrameView::Sequence {
                                    statements: function_st.body,
                                    next: 0,
                                    env: m.scopes.len(),
                                },
                            );
                        }
                    },
                    _ => {},
                }
            }
        },
        _ => {},
    }
}

/// Assigning keeps the machine sound.
pub proof fn lemma_assigned(m: MachineView, env: nat, name: Seq<char>, v: ValueView)
    requires
        sound(m),
    ensures
        assigned(m.scopes, env, name, v) matches Some(after) ==> sound(
            MachineView { scopes: after, ..m },
        ) && after.len() == m.scopes.len(),
{
    match holder(m.scopes, env, name) {
        Some(h) => {
            lemma_define(m, h, name, v);
        },
        None => {},
    }
}

/// Handing a value to the frame that waited for it keeps the machine valid.
pub proof fn lemma_deliver(m: MachineView, frame: FrameView, v: ValueView)
    requires
        sound(m),
        expects(frame) is Value,
        takes(m.stack, yields(frame)) || m.stack.len() == 0,
        scope_of(frame) matches Some(env) ==> env < m.scopes.len(),
    ensures
        valid(semantics::deliver(m, frame, v).machine),
        unbroken(semantics::deliver(m, frame, v).machine),
{
    reveal(semantics::deliver);
    reveal(semantics::apply_binary);
    reveal(semantics::logical_right);
    reveal(semantics::assign);
    reveal(semantics::callee);
    reveal(semantics::argument);
    reveal(semantics::print);
    reveal(semantics::branch);
    reveal(semantics::loop_test);
    match frame {
        FrameView::BinaryRight { token, right, env } => {
            lemma_push(m, FrameView::BinaryApply { token, left: v });
        },
        FrameView::BinaryApply { token, left } => {
            match crate::operators::binary_spec(left, token, v) {
                Ok(crate::operators::ComputedView::Concat { left, number }) => {
                    lemma_push(m, FrameView::Concat { left });
                },
                _ => {},
            }
        },
        FrameView::LogicalRight { token, right, env } => {
            lemma_push(m, FrameView::LogicalResult { token });
        },
        FrameView::Assign { name, env } => {
            lemma_assigned(m, env, name, v);
        },
        FrameView::Callee { arguments, env } => {
            if arguments.len() == 0 {
                lemma_invoke(m, v, Seq::empty());
            } else {
                lemma_push(
                    m,
                    FrameView::Arguments { callee: v, done: Seq::empty(), arguments, env },
                );
            }
        },
        FrameView::Arguments { callee, done, arguments, env } => {
            let done = done.push(v);
            if done.len() < arguments.len() {
                lemma_push(m, FrameView::Arguments { callee, done, arguments, env });
            } else {
                lemma_invoke(m, callee, done);
            }
        },
        FrameView::Print => {
            lemma_push(m, FrameView::PrintText);
        },
        FrameView::Define { name, env } => {
            lemma_define(m, env, name, v);
        },
        FrameView::LoopTest { condition, body, env } => {
            lemma_push(m, FrameView::LoopBody { condition, body, env });
        },
        _ => {},
    }
}

/// Telling a frame that the statement above it has ended keeps the machine
/// valid.
pub proof fn lemma_complete(m: MachineView, frame: FrameView)
    requires
        sound(m),
        expects(frame) is End,
        takes(m.stack, yields(frame)) || m.stack.len() == 0,
        scope_of(frame) matches Some(env) ==> env < m.scopes.len(),
    ensures
        valid(semantics::complete(m, frame)),
        unbroken(semantics::complete(m, frame)),
{
    reveal(semantics::complete);
    reveal(semantics::sequence);
    match frame {
        FrameView::Sequence { statements, next, env } => {
            lemma_push(m, FrameView::Sequence { statements, next: next + 1, env });
        },
        FrameView::LoopBody { condition, body, env } => {
            lemma_push(m, FrameView::LoopTest { condition, body, env });
        },
        _ => {},
    }
}

/// Every step keeps a valid machine valid and never runs into a state that
/// no program leads to.
pub proof fn law_step_valid(m: MachineView, reply: ReplyView)
    requires
        valid(m),
        unbroken(m),
    ensures
        valid(semantics::step(m, reply).machine),
        unbroken(semantics::step(m, reply).machine),
{
    reveal(semantics::step);
    reveal(semantics::unwind);
    reveal(semantics::text);
    let base = m.go(ControlView::Complete);
    match m.control {
        ControlView::Evaluate(e, env) => {
            lemma_evaluate(base, e, env);
        },
        ControlView::Execute(s, env) => {
            lemma_execute(base, s, env);
        },
        ControlView::Deliver(v) => {
            if m.stack.len() > 0 {
                lemma_pop(base);
                lemma_deliver(base.pop(), m.stack.last(), v);
            }
        },
        ControlView::Complete => {
            if m.stack.len() > 0 {
                lemma_pop(base);
                lemma_complete(base.pop(), m.stack.last());
            }
        },
        ControlView::Returning(v) => {
            if m.stack.len() > 0 {
                lemma_pop(base);
            }
        },
        ControlView::AwaitText => {
            if m.stack.len() > 0 {
                lemma_pop(base);
            }
        },
        _ => {},
    }
}

/// The machine after the steps that the replies `replies` answer.
pub open spec fn run(m: MachineView, replies: Seq<ReplyView>) -> MachineView
    decreases replies.len(),
{
    if replies.len() == 0 {
        m
    } else {
        semantics::step(run(m, replies.drop_last()), replies.last()).machine
    }
}

/// A machine about to run a program is valid.
pub proof fn law_start_valid(statements: Seq<Result<StatementView, ErrorView>>)
    ensures
        valid(fresh().push(FrameView::Sequence { statements, next: 0, env: 0 })),
        unbroken(fresh().push(FrameView::Sequence { statements, next: 0, env: 0 })),
        valid(fresh()),
{
    let m = fresh();
    assert(sound(m)) by {
        reveal(nested);
        reveal(rooted);
        reveal(anchored);
        reveal(chained);
    }
    lemma_push(m, FrameView::Sequence { statements, next: 0, env: 0 });
}

/// However long a program runs and whatever the host replies, the machine
/// stays valid: no run of a program ends in the error of a state that no
/// program leads to.
pub proof fn law_run_valid(
    statements: Seq<Result<StatementView, ErrorView>>,
    replies: Seq<ReplyView>,
)
    ensures
        valid(run(fresh().push(FrameView::Sequence { statements, next: 0, env: 0 }), replies)),
        unbroken(run(fresh().push(FrameView::Sequence { statements, next: 0, env: 0 }), replies)),
    decreases replies.len(),
{
    let start = fresh().push(FrameView::Sequence { statements, next: 0, env: 0 });
    if replies.len() == 0 {
        law_start_valid(statements);
    } else {
        law_run_valid(statements, replies.drop_last());
        law_step_valid(run(start, replies.drop_last()), replies.last());
    }
}

} // verus!
