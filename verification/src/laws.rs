//! Laws of the language that hold of every program, proved from the
//! definitions of [`crate::semantics`], [`crate::environment`] and
//! [`crate::grammar`].
use vstd::prelude::*;
use crate::environment::{assigned, defined, holder, lookup, undefined_target, EnvironmentView};
use crate::expressions::{ExprView, ValueView};
use crate::grammar;
use crate::machine::{ActionView, ControlView, FrameView, FunctionView, MachineView, ReplyView};
use crate::numbers::ArithmeticOp;
use crate::numbers;
use crate::operators::{division_by_zero, joined_text, values_equal, wrong_operands};
use crate::semantics;
use crate::semantics::{bound, fail, proceed, StepView};
use crate::statements::{FunctionStatementView, StatementView};
use crate::scanning;
use crate::scanning::{CharClass, ScanView};
use crate::types::{ErrorView, Operation, RuntimeErrorKind, TokenKind, TokenView};

verus! {

/// A name resolves to a value exactly when some scope in reach holds it, and
/// then to the value that this scope binds it to.
pub proof fn law_lookup_holder(scopes: Seq<EnvironmentView>, env: nat, name: Seq<char>)
    ensures
        lookup(scopes, env, name) is Some <==> holder(scopes, env, name) is Some,
        holder(scopes, env, name) matches Some(h) ==> h <= env && h < scopes.len()
            && scopes[h as int].values.contains_key(name) && lookup(scopes, env, name) == Some(
            scopes[h as int].values[name],
        ),
    decreases env,
{
    if env < scopes.len() && !scopes[env as int].values.contains_key(name) {
        match scopes[env as int].enclosing {
            Some(p) => {
                if p < env {
                    law_lookup_holder(scopes, p, name);
                }
            },
            None => {},
        }
    }
}

/// Assigning to a name that no scope in reach binds fails with
/// `UndefinedVariable` and changes nothing.
pub proof fn law_assign_undeclared(m: MachineView, env: nat, name: Seq<char>, v: ValueView)
    requires
        lookup(m.scopes, env, name) is None,
    ensures
        assigned(m.scopes, env, name, v) is None,
        semantics::assign(m, name, env, v) == m.go(ControlView::Failing(undefined_target())),
        undefined_target().kind == RuntimeErrorKind::UndefinedVariable,
        semantics::deliver(m, FrameView::Assign { name, env }, v) == fail(m, undefined_target()),
{
    reveal(semantics::assign);
    reveal(semantics::deliver);
    law_lookup_holder(m.scopes, env, name);
}

/// Assigning to a name that is bound writes the value where the name
/// resolves, so that it is read back from the same scope, and is itself the
/// value of the assignment.
pub proof fn law_assign_declared(m: MachineView, env: nat, name: Seq<char>, v: ValueView)
    requires
        lookup(m.scopes, env, name) is Some,
    ensures
        assigned(m.scopes, env, name, v) matches Some(after) && lookup(after, env, name) == Some(v)
            && semantics::deliver(m, FrameView::Assign { name, env }, v) == proceed(
            (MachineView { scopes: after, ..m }).go(ControlView::Deliver(v)),
        ),
{
    reveal(semantics::assign);
    reveal(semantics::deliver);
    law_lookup_holder(m.scopes, env, name);
    let h = holder(m.scopes, env, name)->0;
    law_written(m.scopes, env, h, name, v);
}

/// Writing `name` in the scope that holds it, seen from `env`, is read back
/// from `env`.
proof fn law_written(scopes: Seq<EnvironmentView>, env: nat, h: nat, name: Seq<char>, v: ValueView)
    requires
        holder(scopes, env, name) == Some(h),
    ensures
        lookup(defined(scopes, h, name, v), env, name) == Some(v),
    decreases env,
{
    law_lookup_holder(scopes, env, name);
    let after = defined(scopes, h, name, v);
    if scopes[env as int].values.contains_key(name) {
    } else {
        match scopes[env as int].enclosing {
            Some(p) => {
                if p < env {
                    law_written(scopes, p, h, name, v);
                    law_lookup_holder(scopes, p, name);
                    assert(after[env as int] == scopes[env as int]);
                }
            },
            None => {},
        }
    }
}

/// Declaring a variable binds it in the current scope, whether or not it was
/// bound there: the last declaration counts, and every other name and scope
/// is untouched.
pub proof fn law_redeclare(
    scopes: Seq<EnvironmentView>,
    env: nat,
    name: Seq<char>,
    first: ValueView,
    second: ValueView,
)
    requires
        env < scopes.len(),
    ensures
        lookup(defined(scopes, env, name, second), env, name) == Some(second),
        defined(defined(scopes, env, name, first), env, name, second) == defined(
            scopes,
            env,
            name,
            second,
        ),
        forall|other: int|
            0 <= other < scopes.len() && other != env ==> defined(scopes, env, name, second)[other]
                == scopes[other],
{
    let once = defined(scopes, env, name, first);
    assert(once[env as int].values.insert(name, second) =~= scopes[env as int].values.insert(
        name,
        second,
    ));
    assert(defined(once, env, name, second) =~= defined(scopes, env, name, second));
}

/// A statement `var name = e` whose value is `v` binds `name` to `v` in the
/// scope of the statement and ends.
pub proof fn law_var_statement(m: MachineView, env: nat, name: Seq<char>, v: ValueView)
    ensures
        semantics::deliver(m, FrameView::Define { name, env }, v) == proceed(
            m.define(env, name, v).go(ControlView::Complete),
        ),
{
    reveal(semantics::deliver);
}

/// The parameters bound are the first `n` parameters.
pub proof fn law_bound_names(
    params: Seq<Seq<char>>,
    args: Seq<ValueView>,
    n: nat,
    name: Seq<char>,
)
    requires
        n <= params.len(),
    ensures
        bound(params, args, n).contains_key(name) <==> exists|i: int|
            0 <= i < n && params[i] == name,
    decreases n,
{
    if n > 0 {
        law_bound_names(params, args, (n - 1) as nat, name);
        if bound(params, args, n).contains_key(name) {
            if params[n - 1] == name {
                assert(0 <= n - 1 < n && params[n - 1] == name);
            } else {
                let i = choose|i: int| 0 <= i < n - 1 && params[i] == name;
                assert(0 <= i < n && params[i] == name);
            }
        }
    }
}

/// A call of a declared function runs its body in a new scope inside the
/// scope the function was declared in, whatever scope it is called from:
/// the call takes no scope of the caller. A name that is no parameter
/// resolves in the body as it resolves where the function was declared.
pub proof fn law_closure(
    m: MachineView,
    function_st: FunctionStatementView,
    closure: nat,
    args: Seq<ValueView>,
    name: Seq<char>,
)
    requires
        args.len() == function_st.params.len(),
        closure < m.scopes.len(),
    ensures
        ({
            let f = FunctionView::Declared { function_st, closure };
            let entered = semantics::enter(m, f, args);
            let scope = m.scopes.len();
            &&& entered.action == ActionView::Continue
            &&& entered.machine.scopes.len() == scope + 1
            &&& entered.machine.scopes[scope as int].enclosing == Some(closure)
            &&& entered.machine.stack == m.stack.push(FrameView::Call).push(
                FrameView::Sequence { statements: function_st.body, next: 0, env: scope },
            )
            &&& forall|i: int| 0 <= i < scope ==> entered.machine.scopes[i] == m.scopes[i]
            &&& !function_st.params.contains(name) ==> lookup(entered.machine.scopes, scope, name)
                == lookup(m.scopes, closure, name)
        }),
{
    reveal(semantics::enter);
    let f = FunctionView::Declared { function_st, closure };
    let entered = semantics::enter(m, f, args);
    let scope = m.scopes.len();
    if !function_st.params.contains(name) {
        law_bound_names(function_st.params, args, function_st.params.len(), name);
        assert(!entered.machine.scopes[scope as int].values.contains_key(name)) by {
            if entered.machine.scopes[scope as int].values.contains_key(name) {
                let i = choose|i: int| 0 <= i < function_st.params.len() && function_st.params[i] == name;
                assert(function_st.params.contains(name));
            }
        }
        law_extended(m.scopes, entered.machine.scopes[scope as int], closure, name);
    }
}

/// A scope added at the end changes nothing that is seen from an earlier
/// scope.
pub proof fn law_extended(
    scopes: Seq<EnvironmentView>,
    added: EnvironmentView,
    env: nat,
    name: Seq<char>,
)
    requires
        env < scopes.len(),
    ensures
        lookup(scopes.push(added), env, name) == lookup(scopes, env, name),
    decreases env,
{
    let more = scopes.push(added);
    assert(more[env as int] == scopes[env as int]);
    if !scopes[env as int].values.contains_key(name) {
        match scopes[env as int].enclosing {
            Some(p) => {
                if p < env {
                    law_extended(scopes, added, p, name);
                }
            },
            None => {},
        }
    }
}

/// Each parameter is bound to its argument; of two parameters with one name
/// the later counts.
pub proof fn law_parameters(params: Seq<Seq<char>>, args: Seq<ValueView>, i: int)
    requires
        0 <= i < params.len(),
        forall|j: int| i < j < params.len() ==> params[j] != params[i],
    ensures
        bound(params, args, params.len()).contains_key(params[i]),
        bound(params, args, params.len())[params[i]] == args[i],
{
    law_bound_upto(params, args, i, params.len());
}

proof fn law_bound_upto(params: Seq<Seq<char>>, args: Seq<ValueView>, i: int, n: nat)
    requires
        0 <= i < n <= params.len(),
        forall|j: int| i < j < params.len() ==> params[j] != params[i],
    ensures
        bound(params, args, n).contains_key(params[i]),
        bound(params, args, n)[params[i]] == args[i],
    decreases n,
{
    if n - 1 > i {
        law_bound_upto(params, args, i, (n - 1) as nat);
    }
}

/// Calling a value that is no function fails with `NotCallable` and the
/// message "can only call functions", whatever the arguments: nothing is
/// entered, and the scopes, the functions and the stack stay as they were.
pub proof fn law_not_callable(m: MachineView, callee: ValueView, args: Seq<ValueView>)
    requires
        !(callee is Callable) || callee->Callable_0 >= m.functions.len(),
    ensures
        semantics::invoke(m, callee, args) == fail(m, semantics::not_callable()),
        semantics::not_callable() == crate::types::runtime_error(
            RuntimeErrorKind::NotCallable,
            "can only call functions"@,
        ),
        semantics::invoke(m, callee, args).action == ActionView::Continue,
        semantics::invoke(m, callee, args).machine.scopes == m.scopes,
        semantics::invoke(m, callee, args).machine.functions == m.functions,
        semantics::invoke(m, callee, args).machine.stack == m.stack,
{
    reveal(semantics::invoke);
}

/// Calling a function with another number of arguments than it takes fails
/// with `ArityMismatch`, and the message names both numbers.
pub proof fn law_arity(m: MachineView, id: nat, args: Seq<ValueView>)
    requires
        id < m.functions.len(),
        args.len() != semantics::arity(m.functions[id as int]),
    ensures
        ({
            let expected = semantics::arity(m.functions[id as int]);
            let e = semantics::arity_mismatch(expected, args.len());
            &&& semantics::invoke(m, ValueView::Callable(id), args) == fail(m, e)
            &&& e.kind == RuntimeErrorKind::ArityMismatch
            &&& e.error == ErrorView::Interpreter(
                "Expected "@ + crate::types::decimal(expected) + " arguments but got "@
                    + crate::types::decimal(args.len()) + "."@,
                crate::types::RUNTIME_LINE as nat,
            )
        }),
{
    reveal(semantics::invoke);
    reveal(semantics::enter);
}

/// Dividing by either zero ends in `DivisionByZero`, whatever is divided: no
/// division by zero is ever asked of the host.
pub proof fn law_division_by_zero(m: MachineView, left: ValueView, divisor: u64)
    requires
        numbers::is_zero(divisor),
    ensures
        semantics::deliver(
            m,
            FrameView::BinaryApply { token: TokenKind::Slash, left },
            ValueView::Number(divisor),
        ) == fail(m, division_by_zero()),
        division_by_zero().kind == RuntimeErrorKind::DivisionByZero,
{
    reveal(semantics::deliver);
    reveal(semantics::apply_binary);
}

/// `+` with a string on the left and a boolean, nil or a string on the right
/// yields the string followed by the text of the right operand; with a
/// number on the right the host is asked for the text of the number, which
/// is then appended.
pub proof fn law_concatenation(m: MachineView, s: Seq<char>, right: ValueView, text: Seq<char>)
    ensures
        joined_text(right) matches Some(t) ==> semantics::deliver(
            m,
            FrameView::BinaryApply { token: TokenKind::Plus, left: ValueView::String(s) },
            right,
        ) == proceed(m.go(ControlView::Deliver(ValueView::String(s + t)))),
        joined_text(ValueView::Nil) == Some("Nil"@),
        joined_text(ValueView::Boolean(true)) == Some("true"@),
        joined_text(ValueView::Boolean(false)) == Some("false"@),
        right matches ValueView::Number(n) ==> semantics::deliver(
            m,
            FrameView::BinaryApply { token: TokenKind::Plus, left: ValueView::String(s) },
            right,
        ) == (StepView {
            machine: m.push(FrameView::Concat { left: s }).go(ControlView::AwaitText),
            action: ActionView::Render { number: n },
        }),
        semantics::text(m, FrameView::Concat { left: s }, text) == proceed(
            m.go(ControlView::Deliver(ValueView::String(s + text))),
        ),
{
    reveal(semantics::deliver);
    reveal(semantics::apply_binary);
    reveal(semantics::text);
}

/// `==` and `!=` yield a boolean for every pair of values and never fail.
pub proof fn law_equality_total(m: MachineView, left: ValueView, right: ValueView)
    ensures
        semantics::deliver(
            m,
            FrameView::BinaryApply { token: TokenKind::EqualEqual, left },
            right,
        ) == proceed(m.go(ControlView::Deliver(ValueView::Boolean(values_equal(left, right))))),
        semantics::deliver(
            m,
            FrameView::BinaryApply { token: TokenKind::ExclamationEqual, left },
            right,
        ) == proceed(m.go(ControlView::Deliver(ValueView::Boolean(!values_equal(left, right))))),
{
    reveal(semantics::deliver);
    reveal(semantics::apply_binary);
}

/// `<`, `<=`, `>` and `>=` fail unless both operands are numbers.
pub proof fn law_comparison_needs_numbers(
    m: MachineView,
    token: TokenKind,
    left: ValueView,
    right: ValueView,
)
    requires
        token is Less || token is LessEqual || token is Greater || token is GreaterEqual,
        !(left is Number) || !(right is Number),
    ensures
        semantics::deliver(m, FrameView::BinaryApply { token, left }, right) == fail(
            m,
            wrong_operands(Operation::Comparison),
        ),
        wrong_operands(Operation::Comparison).kind == RuntimeErrorKind::WrongOperandType(
            Operation::Comparison,
        ),
{
    reveal(semantics::deliver);
    reveal(semantics::apply_binary);
}

/// A `for` loop with all its parts is the block of its initializer and a
/// `while` loop whose body is the block of the loop's body and its
/// increment.
pub proof fn law_for_is_while(
    initializer: StatementView,
    condition: ExprView,
    increment: ExprView,
    body: StatementView,
)
    ensures
        grammar::desugar_for(Some(initializer), Some(condition), Some(increment), Ok(body)) == Ok::<
            StatementView,
            ErrorView,
        >(
            StatementView::BlockSt(
                seq![
                    Ok(initializer),
                    Ok(
                        StatementView::While {
                            condition,
                            body: Box::new(
                                StatementView::BlockSt(
                                    seq![Ok(body), Ok(StatementView::ExprSt(increment))],
                                ),
                            ),
                        },
                    ),
                ],
            ),
        ),
{
    reveal(grammar::desugar_for);
}

/// The arithmetic that each operator asks of the host.
pub open spec fn arithmetic_of(token: TokenKind) -> ArithmeticOp {
    match token {
        TokenKind::Plus => ArithmeticOp::Add,
        TokenKind::Minus => ArithmeticOp::Subtract,
        TokenKind::Star => ArithmeticOp::Multiply,
        _ => ArithmeticOp::Divide,
    }
}

/// The machine after the step that `reply` answers.
pub open spec fn next(m: MachineView, reply: ReplyView) -> MachineView {
    semantics::step(m, reply).machine
}

/// A binary operator applied to two literals yields, in its fifth step, what
/// the operator makes of the two values, handed to what waited for the
/// expression: the laws of the operators hold of whole expressions.
pub proof fn law_binary_of_literals(
    m: MachineView,
    token: TokenKind,
    l: ValueView,
    r: ValueView,
    env: nat,
    replies: Seq<ReplyView>,
)
    requires
        m.control == ControlView::Evaluate(
            ExprView::Binary {
                left: Box::new(ExprView::Literal(l)),
                token,
                right: Box::new(ExprView::Literal(r)),
            },
            env,
        ),
        replies.len() == 5,
    ensures
        ({
            let m4 = next(next(next(next(m, replies[0]), replies[1]), replies[2]), replies[3]);
            semantics::step(m4, replies[4]) == semantics::apply_binary(
                m.go(ControlView::Complete),
                token,
                l,
                r,
            )
        }),
{
    reveal(semantics::step);
    reveal(semantics::evaluate);
    reveal(semantics::deliver);
    let right = ExprView::Literal(r);
    let waits = FrameView::BinaryRight { token, right, env };
    let m1 = next(m, replies[0]);
    assert(m1 == m.push(waits).go(ControlView::Evaluate(ExprView::Literal(l), env)));
    let m2 = next(m1, replies[1]);
    assert(m2 == m.push(waits).go(ControlView::Deliver(l)));
    let m3 = next(m2, replies[2]);
    let applies = FrameView::BinaryApply { token, left: l };
    assert(m.push(waits).stack.drop_last() =~= m.stack);
    assert(m3 == m.push(applies).go(ControlView::Evaluate(right, env)));
    let m4 = next(m3, replies[3]);
    assert(m4 == m.push(applies).go(ControlView::Deliver(r)));
    assert(m.push(applies).stack.drop_last() =~= m.stack);
    assert(m4.go(ControlView::Complete).pop() == m.go(ControlView::Complete));
}

/// Arithmetic on two numbers is the host's: evaluating `a + b`, `a - b`,
/// `a * b` or `a / b` (with `b` no zero) asks the host, in its fifth step,
/// for exactly that operation on exactly those numbers, and the value of
/// the expression is the number that the host replies, delivered to what
/// waited for the expression.
pub proof fn law_arithmetic(
    m: MachineView,
    token: TokenKind,
    a: u64,
    b: u64,
    env: nat,
    replies: Seq<ReplyView>,
    result: u64,
)
    requires
        m.control == ControlView::Evaluate(
            ExprView::Binary {
                left: Box::new(ExprView::Literal(ValueView::Number(a))),
                token,
                right: Box::new(ExprView::Literal(ValueView::Number(b))),
            },
            env,
        ),
        token is Plus || token is Minus || token is Star || token is Slash,
        token is Slash ==> !numbers::is_zero(b),
        replies.len() == 5,
    ensures
        ({
            let m4 = next(next(next(next(m, replies[0]), replies[1]), replies[2]), replies[3]);
            let asked = semantics::step(m4, replies[4]);
            &&& asked.action == ActionView::Arithmetic { op: arithmetic_of(token), left: a, right: b }
            &&& next(asked.machine, ReplyView::Number(result)) == m.go(
                ControlView::Deliver(ValueView::Number(result)),
            )
        }),
{
    reveal(semantics::step);
    reveal(semantics::evaluate);
    reveal(semantics::deliver);
    reveal(semantics::apply_binary);
    let right = ExprView::Literal(ValueView::Number(b));
    let waits = FrameView::BinaryRight { token, right, env };
    let m1 = next(m, replies[0]);
    assert(m1 == m.push(waits).go(
        ControlView::Evaluate(ExprView::Literal(ValueView::Number(a)), env),
    ));
    let m2 = next(m1, replies[1]);
    assert(m2 == m.push(waits).go(ControlView::Deliver(ValueView::Number(a))));
    let m3 = next(m2, replies[2]);
    let applies = FrameView::BinaryApply { token, left: ValueView::Number(a) };
    assert(m.push(waits).stack.drop_last() =~= m.stack);
    assert(m3 == m.push(applies).go(ControlView::Evaluate(right, env)));
    let m4 = next(m3, replies[3]);
    assert(m4 == m.push(applies).go(ControlView::Deliver(ValueView::Number(b))));
    assert(m.push(applies).stack.drop_last() =~= m.stack);
    let asked = semantics::step(m4, replies[4]);
    assert(asked.machine == m.go(ControlView::AwaitNumber));
}

/// A primary expression that starts before the end of input uses a token.
proof fn lemma_primary_progress(t: Seq<TokenView>, pos: nat, errors: Seq<ErrorView>)
    requires
        !grammar::at_end(t, pos),
    ensures
        grammar::primary(t, pos, errors).used >= 1,
{
    reveal(grammar::primary);
}

proof fn lemma_unary_progress(t: Seq<TokenView>, pos: nat, errors: Seq<ErrorView>)
    requires
        !grammar::at_end(t, pos),
    ensures
        grammar::unary(t, pos, errors).used >= 1,
{
    reveal(grammar::unary);
    reveal(grammar::call);
    reveal(grammar::primary);
    lemma_primary_progress(t, pos, errors);
    assert(grammar::call(t, pos, errors).used >= 1);
}

proof fn lemma_binary_progress(t: Seq<TokenView>, pos: nat, errors: Seq<ErrorView>, level: nat)
    requires
        !grammar::at_end(t, pos),
    ensures
        grammar::binary(t, pos, errors, level).used >= 1,
    decreases 3 - level,
{
    reveal(grammar::binary);
    reveal(grammar::binary_operand);
    reveal(grammar::unary);
    if level < 3 {
        lemma_binary_progress(t, pos, errors, level + 1);
    } else {
        lemma_unary_progress(t, pos, errors);
    }
    assert(grammar::binary_operand(t, pos, errors, level).used >= 1);
}

proof fn lemma_logical_progress(t: Seq<TokenView>, pos: nat, errors: Seq<ErrorView>, level: nat)
    requires
        !grammar::at_end(t, pos),
    ensures
        grammar::logical(t, pos, errors, level).used >= 1,
    decreases 1 - level,
{
    reveal(grammar::logical);
    reveal(grammar::logical_operand);
    reveal(grammar::binary);
    if level == 0 {
        lemma_logical_progress(t, pos, errors, 1);
    } else {
        lemma_binary_progress(t, pos, errors, 0);
    }
    assert(grammar::logical_operand(t, pos, errors, level).used >= 1);
}

/// An expression that starts before the end of input uses at least one
/// token.
pub proof fn law_expression_progress(t: Seq<TokenView>, pos: nat, errors: Seq<ErrorView>)
    requires
        !grammar::at_end(t, pos),
    ensures
        grammar::expression(t, pos, errors).used >= 1,
{
    reveal(grammar::expression);
    reveal(grammar::assignment);
    reveal(grammar::logical);
    lemma_logical_progress(t, pos, errors, 0);
    assert(grammar::assignment(t, pos, errors).used >= 1);
}

/// A declaration that starts before the end of input uses at least one
/// token: parsing a program or a block always moves on, and ends.
pub proof fn law_declaration_progress(t: Seq<TokenView>, pos: nat, errors: Seq<ErrorView>)
    requires
        !grammar::at_end(t, pos),
    ensures
        grammar::declaration(t, pos, errors).used >= 1,
        grammar::statement(t, pos, errors).used >= 1,
{
    reveal(grammar::declaration);
    reveal(grammar::statement);
    reveal(grammar::expression_statement);
    reveal(grammar::ended_by_semicolon);
    reveal(grammar::expression);
    law_expression_progress(t, pos, errors);
    assert(grammar::ended_by_semicolon(t, pos, errors, false).used >= 1);
    assert(grammar::expression_statement(t, pos, errors).used >= 1);
    assert(grammar::statement(t, pos, errors).used >= 1);
}

/// Reading a token moves on by at least one character and stays within the
/// text: scanning always ends.
pub proof fn law_scan_progress(chars: Seq<char>, s: ScanView)
    requires
        s.current < chars.len(),
    ensures
        s.current < scanning::scan_token(chars, s).current <= chars.len(),
{
    reveal(scanning::scan_token);
    reveal(scanning::scan_pair);
    reveal(scanning::scan_slash);
    reveal(scanning::scan_string);
    reveal(scanning::scan_number);
    reveal(scanning::number_end);
    reveal(scanning::scan_word);
    let at = s.current;
    scanning::lemma_run_end(chars, at + 1, CharClass::NotQuote);
    scanning::lemma_run_end(chars, at + 1, CharClass::Word);
    scanning::lemma_run_end(chars, at + 1, CharClass::Digit);
    if at + 2 <= chars.len() {
        scanning::lemma_run_end(chars, at + 2, CharClass::NotNewline);
    }
    let whole = scanning::run_end(chars, at, CharClass::Digit);
    if scanning::in_class(chars[at as int], CharClass::Digit) {
        assert(whole == scanning::run_end(chars, at + 1, CharClass::Digit));
        if whole + 1 < chars.len() {
            scanning::lemma_run_end(chars, whole + 1, CharClass::Digit);
        }
    }
}

} // verus!
