//! What the operators do to values. Each function decides here whatever the
//! types of its operands decide; where two numbers must be added, subtracted,
//! multiplied or divided, or a number written as text, it says what to ask
//! of the host.
use vstd::prelude::*;
use vstd::string::StringExecFns;
use crate::expressions::{Value, ValueView};
use crate::numbers;
use crate::numbers::ArithmeticOp;
use crate::types::{
    runtime_error, Operation, RuntimeError, RuntimeErrorKind, RuntimeErrorView, TokenKind,
    TokenType,
};

verus! {

/// The outcome of applying an operator to its operands.
#[derive(Debug, PartialEq)]
pub enum Computed {
    /// The result is known.
    Value(Value),
    /// The result is what the host computes from the two numbers.
    Arithmetic { op: ArithmeticOp, left: u64, right: u64 },
    /// The result is `left` followed by the text of `number`.
    Concat { left: String, number: u64 },
}

/// Mathematical model of [`Computed`].
pub enum ComputedView {
    Value(ValueView),
    Arithmetic { op: ArithmeticOp, left: u64, right: u64 },
    Concat { left: Seq<char>, number: u64 },
}

impl View for Computed {
    type V = ComputedView;

    open spec fn view(&self) -> ComputedView {
        match self {
            Computed::Value(v) => ComputedView::Value(v@),
            Computed::Arithmetic { op, left, right } => ComputedView::Arithmetic {
                op: *op,
                left: *left,
                right: *right,
            },
            Computed::Concat { left, number } => ComputedView::Concat {
                left: left@,
                number: *number,
            },
        }
    }
}

/// What an operator makes of its operands, or the error of applying it.
pub type ComputedResult = Result<ComputedView, RuntimeErrorView>;

/// The model of what an operator returned.
pub open spec fn computed_result(r: Result<Computed, RuntimeError>) -> ComputedResult {
    match r {
        Ok(c) => Ok(c@),
        Err(e) => Err(e@),
    }
}

/// The model of a value that was computed, or of the error in its place.
pub open spec fn value_result(r: Result<Value, RuntimeError>) -> Result<ValueView, RuntimeErrorView> {
    match r {
        Ok(c) => Ok(c@),
        Err(e) => Err(e@),
    }
}

/// Only `true` counts as true; every other value counts as false.
pub open spec fn truthy(v: ValueView) -> bool {
    v == ValueView::Boolean(true)
}

/// Equality of values: values of different shapes are unequal, numbers are
/// equal as numbers, functions when they are the same function.
pub open spec fn values_equal(a: ValueView, b: ValueView) -> bool {
    match (a, b) {
        (ValueView::Boolean(x), ValueView::Boolean(y)) => x == y,
        (ValueView::Nil, ValueView::Nil) => true,
        (ValueView::String(x), ValueView::String(y)) => x == y,
        (ValueView::Number(x), ValueView::Number(y)) => numbers::number_eq(x, y),
        (ValueView::Callable(x), ValueView::Callable(y)) => x == y,
        _ => false,
    }
}

/// The message of each operation whose operands have the wrong type.
pub open spec fn failure_message(op: Operation) -> Seq<char> {
    match op {
        Operation::Unary => "NotImplementedUnaryExpr."@,
        Operation::Subtraction => "FailedSubtraction."@,
        Operation::Multiplication => "FailedMultiplication."@,
        Operation::Division => "FailedDivision."@,
        Operation::Addition => "FailedAddition."@,
        Operation::Comparison => "FailedComparison."@,
        Operation::Equality => "FailedEqualityCheck."@,
    }
}

/// The error of an operation whose operands have the wrong type.
pub open spec fn wrong_operands(op: Operation) -> RuntimeErrorView {
    runtime_error(RuntimeErrorKind::WrongOperandType(op), failure_message(op))
}

/// The error of dividing by zero.
pub open spec fn division_by_zero() -> RuntimeErrorView {
    runtime_error(RuntimeErrorKind::DivisionByZero, "FailedDivision: division by zero."@)
}

/// The error of a binary expression whose token is no binary operator.
pub open spec fn unknown_operator() -> RuntimeErrorView {
    runtime_error(RuntimeErrorKind::UnknownOperator, "NotImplementedBinaryExpr."@)
}

/// `-` on a number, `!` on a boolean; `!nil` is `true`.
pub open spec fn unary_spec(token: TokenKind, v: ValueView) -> Result<ValueView, RuntimeErrorView> {
    match (token, v) {
        (TokenKind::Minus, ValueView::Number(n)) => Ok(ValueView::Number(numbers::negated(n))),
        (TokenKind::Exclamation, ValueView::Boolean(b)) => Ok(ValueView::Boolean(!b)),
        (TokenKind::Exclamation, ValueView::Nil) => Ok(ValueView::Boolean(true)),
        _ => Err(wrong_operands(Operation::Unary)),
    }
}

/// `-` on two numbers.
pub open spec fn subtraction_spec(l: ValueView, token: TokenKind, r: ValueView) -> ComputedResult {
    match (l, token, r) {
        (ValueView::Number(a), TokenKind::Minus, ValueView::Number(b)) => Ok(
            ComputedView::Arithmetic { op: ArithmeticOp::Subtract, left: a, right: b },
        ),
        _ => Err(wrong_operands(Operation::Subtraction)),
    }
}

/// `*` on two numbers.
pub open spec fn multiplication_spec(l: ValueView, token: TokenKind, r: ValueView)
    -> ComputedResult {
    match (l, token, r) {
        (ValueView::Number(a), TokenKind::Star, ValueView::Number(b)) => Ok(
            ComputedView::Arithmetic { op: ArithmeticOp::Multiply, left: a, right: b },
        ),
        _ => Err(wrong_operands(Operation::Multiplication)),
    }
}

/// Division by either zero is an error before anything else is looked at.
pub open spec fn division_spec(l: ValueView, token: TokenKind, r: ValueView) -> ComputedResult {
    if r matches ValueView::Number(b) && numbers::is_zero(b) {
        Err(division_by_zero())
    } else {
        match (l, token, r) {
            (ValueView::Number(a), TokenKind::Slash, ValueView::Number(b)) => Ok(
                ComputedView::Arithmetic { op: ArithmeticOp::Divide, left: a, right: b },
            ),
            _ => Err(wrong_operands(Operation::Division)),
        }
    }
}

/// The text that a value other than a number adds to a string.
pub open spec fn joined_text(v: ValueView) -> Option<Seq<char>> {
    match v {
        ValueView::Boolean(b) => Some(
            if b {
                "true"@
            } else {
                "false"@
            },
        ),
        ValueView::Nil => Some("Nil"@),
        ValueView::String(s) => Some(s),
        _ => None,
    }
}

/// Numbers add; a string on the left takes the text of what stands on the
/// right.
pub open spec fn addition_spec(l: ValueView, token: TokenKind, r: ValueView) -> ComputedResult {
    match (l, token, r) {
        (ValueView::Number(a), TokenKind::Plus, ValueView::Number(b)) => Ok(
            ComputedView::Arithmetic { op: ArithmeticOp::Add, left: a, right: b },
        ),
        (ValueView::String(s), TokenKind::Plus, ValueView::Number(n)) => Ok(
            ComputedView::Concat { left: s, number: n },
        ),
        (ValueView::String(s), TokenKind::Plus, other) => match joined_text(other) {
            Some(text) => Ok(ComputedView::Value(ValueView::String(s + text))),
            None => Err(wrong_operands(Operation::Addition)),
        },
        _ => Err(wrong_operands(Operation::Addition)),
    }
}

/// `<`, `<=`, `>` and `>=` on two numbers.
pub open spec fn comparison_spec(l: ValueView, token: TokenKind, r: ValueView) -> ComputedResult {
    match (l, token, r) {
        (ValueView::Number(a), TokenKind::Less, ValueView::Number(b)) => Ok(
            ComputedView::Value(ValueView::Boolean(numbers::number_lt(a, b))),
        ),
        (ValueView::Number(a), TokenKind::LessEqual, ValueView::Number(b)) => Ok(
            ComputedView::Value(
                ValueView::Boolean(numbers::number_lt(a, b) || numbers::number_eq(a, b)),
            ),
        ),
        (ValueView::Number(a), TokenKind::Greater, ValueView::Number(b)) => Ok(
            ComputedView::Value(ValueView::Boolean(numbers::number_lt(b, a))),
        ),
        (ValueView::Number(a), TokenKind::GreaterEqual, ValueView::Number(b)) => Ok(
            ComputedView::Value(
                ValueView::Boolean(numbers::number_lt(b, a) || numbers::number_eq(a, b)),
            ),
        ),
        _ => Err(wrong_operands(Operation::Comparison)),
    }
}

/// `==` and `!=` on any two values.
pub open spec fn equality_spec(l: ValueView, token: TokenKind, r: ValueView) -> ComputedResult {
    match token {
        TokenKind::EqualEqual => Ok(ComputedView::Value(ValueView::Boolean(values_equal(l, r)))),
        TokenKind::ExclamationEqual => Ok(
            ComputedView::Value(ValueView::Boolean(!values_equal(l, r))),
        ),
        _ => Err(wrong_operands(Operation::Equality)),
    }
}

/// The binary operator of `token` applied to `l` and `r`.
pub open spec fn binary_spec(l: ValueView, token: TokenKind, r: ValueView) -> ComputedResult {
    match token {
        TokenKind::Minus => subtraction_spec(l, token, r),
        TokenKind::Slash => division_spec(l, token, r),
        TokenKind::Star => multiplication_spec(l, token, r),
        TokenKind::Plus => addition_spec(l, token, r),
        TokenKind::Greater | TokenKind::GreaterEqual | TokenKind::Less | TokenKind::LessEqual =>
            comparison_spec(l, token, r),
        TokenKind::ExclamationEqual | TokenKind::EqualEqual => equality_spec(l, token, r),
        _ => Err(unknown_operator()),
    }
}

/// The text that `print` writes for a value other than a number.
pub open spec fn printed_text(v: ValueView) -> Option<Seq<char>> {
    match v {
        ValueView::Boolean(b) => Some(
            if b {
                "true"@
            } else {
                "false"@
            },
        ),
        ValueView::Nil => Some("nil"@),
        ValueView::String(s) => Some(s),
        ValueView::Callable(_) => Some("<fn>"@),
        ValueView::Number(_) => None,
    }
}

fn failure(op: Operation) -> (e: RuntimeError)
    ensures
        e@ == wrong_operands(op),
{
    let message = match op {
        Operation::Unary => String::from_str("NotImplementedUnaryExpr."),
        Operation::Subtraction => String::from_str("FailedSubtraction."),
        Operation::Multiplication => String::from_str("FailedMultiplication."),
        Operation::Division => String::from_str("FailedDivision."),
        Operation::Addition => String::from_str("FailedAddition."),
        Operation::Comparison => String::from_str("FailedComparison."),
        Operation::Equality => String::from_str("FailedEqualityCheck."),
    };
    RuntimeError::new(RuntimeErrorKind::WrongOperandType(op), message)
}

/// Whether the value counts as true: only `true` does.
pub fn is_truthy(value: &Value) -> (b: bool)
    ensures
        b == truthy(value@),
{
    match value {
        Value::Boolean(b) => *b,
        _ => false,
    }
}

/// Whether two values are equal.
pub fn equal_values(a: &Value, b: &Value) -> (r: bool)
    ensures
        r == values_equal(a@, b@),
{
    match (a, b) {
        (Value::Boolean(x), Value::Boolean(y)) => *x == *y,
        (Value::Nil, Value::Nil) => true,
        (Value::String(x), Value::String(y)) => *x == *y,
        (Value::Number(x), Value::Number(y)) => numbers::equal(*x, *y),
        (Value::Callable(x), Value::Callable(y)) => *x == *y,
        _ => false,
    }
}

/// Applies the unary operator of `token`.
pub fn unary(token: &TokenType, value: &Value) -> (r: Result<Value, RuntimeError>)
    ensures
        value_result(r) == unary_spec(token@, value@),
{
    match (token, value) {
        (TokenType::Minus, Value::Number(n)) => Ok(Value::Number(numbers::negate(*n))),
        (TokenType::Exclamation, Value::Boolean(b)) => Ok(Value::Boolean(!*b)),
        (TokenType::Exclamation, Value::Nil) => Ok(Value::Boolean(true)),
        _ => Err(failure(Operation::Unary)),
    }
}

/// `left - right`: asks the host to subtract two numbers.
pub fn subtraction(left: &Value, token: &TokenType, right: &Value) -> (r: Result<
    Computed,
    RuntimeError,
>)
    ensures
        computed_result(r) == subtraction_spec(left@, token@, right@),
{
    match (left, token, right) {
        (Value::Number(l), TokenType::Minus, Value::Number(r)) => Ok(
            Computed::Arithmetic { op: ArithmeticOp::Subtract, left: *l, right: *r },
        ),
        _ => Err(failure(Operation::Subtraction)),
    }
}

/// `left * right`: asks the host to multiply two numbers.
pub fn multiplication(left: &Value, token: &TokenType, right: &Value) -> (r: Result<
    Computed,
    RuntimeError,
>)
    ensures
        computed_result(r) == multiplication_spec(left@, token@, right@),
{
    match (left, token, right) {
        (Value::Number(l), TokenType::Star, Value::Number(r)) => Ok(
            Computed::Arithmetic { op: ArithmeticOp::Multiply, left: *l, right: *r },
        ),
        _ => Err(failure(Operation::Multiplication)),
    }
}

/// `left / right`: fails on a zero divisor, else asks the host to divide two
/// numbers.
pub fn division(left: &Value, token: &TokenType, right: &Value) -> (r: Result<
    Computed,
    RuntimeError,
>)
    ensures
        computed_result(r) == division_spec(left@, token@, right@),
{
    match right {
        Value::Number(n) => {
            if numbers::zero(*n) {
                return Err(
                    RuntimeError::new(
                        RuntimeErrorKind::DivisionByZero,
                        String::from_str("FailedDivision: division by zero."),
                    ),
                );
            }
        },
        _ => {},
    }
    match (left, token, right) {
        (Value::Number(l), TokenType::Slash, Value::Number(r)) => Ok(
            Computed::Arithmetic { op: ArithmeticOp::Divide, left: *l, right: *r },
        ),
        _ => Err(failure(Operation::Division)),
    }
}

fn joined(value: &Value) -> (r: Option<String>)
    ensures
        match r {
            Some(s) => joined_text(value@) == Some(s@),
            None => joined_text(value@) is None,
        },
{
    match value {
        Value::Boolean(b) => Some(
            if *b {
                String::from_str("true")
            } else {
                String::from_str("false")
            },
        ),
        Value::Nil => Some(String::from_str("Nil")),
        Value::String(s) => Some(s.clone()),
        _ => None,
    }
}

/// `left + right`: asks the host to add two numbers, or joins a string with the
/// text of what follows it.
pub fn addition(left: &Value, token: &TokenType, right: &Value) -> (r: Result<
    Computed,
    RuntimeError,
>)
    ensures
        computed_result(r) == addition_spec(left@, token@, right@),
{
    match (left, token, right) {
        (Value::Number(l), TokenType::Plus, Value::Number(r)) => Ok(
            Computed::Arithmetic { op: ArithmeticOp::Add, left: *l, right: *r },
        ),
        (Value::String(l), TokenType::Plus, Value::Number(n)) => Ok(
            Computed::Concat { left: l.clone(), number: *n },
        ),
        (Value::String(l), TokenType::Plus, other) => match joined(other) {
            Some(text) => {
                let mut s = l.clone();
                s.append(text.as_str());
                Ok(Computed::Value(Value::String(s)))
            },
            None => Err(failure(Operation::Addition)),
        },
        _ => Err(failure(Operation::Addition)),
    }
}

/// `<`, `<=`, `>` or `>=` on two numbers.
pub fn comparison(left: &Value, token: &TokenType, right: &Value) -> (r: Result<
    Computed,
    RuntimeError,
>)
    ensures
        computed_result(r) == comparison_spec(left@, token@, right@),
{
    match (left, token, right) {
        (Value::Number(l), TokenType::Less, Value::Number(r)) => Ok(
            Computed::Value(Value::Boolean(numbers::less(*l, *r))),
        ),
        (Value::Number(l), TokenType::LessEqual, Value::Number(r)) => Ok(
            Computed::Value(Value::Boolean(numbers::less(*l, *r) || numbers::equal(*l, *r))),
        ),
        (Value::Number(l), TokenType::Greater, Value::Number(r)) => Ok(
            Computed::Value(Value::Boolean(numbers::less(*r, *l))),
        ),
        (Value::Number(l), TokenType::GreaterEqual, Value::Number(r)) => Ok(
            Computed::Value(Value::Boolean(numbers::less(*r, *l) || numbers::equal(*l, *r))),
        ),
        _ => Err(failure(Operation::Comparison)),
    }
}

/// `==` or `!=` on any two values.
pub fn is_equal(left: &Value, token: &TokenType, right: &Value) -> (r: Result<
    Computed,
    RuntimeError,
>)
    ensures
        computed_result(r) == equality_spec(left@, token@, right@),
{
    match token {
        TokenType::EqualEqual => Ok(Computed::Value(Value::Boolean(equal_values(left, right)))),
        TokenType::ExclamationEqual => Ok(
            Computed::Value(Value::Boolean(!equal_values(left, right))),
        ),
        _ => Err(failure(Operation::Equality)),
    }
}

/// Applies the binary operator of `token`.
pub fn binary(left: &Value, token: &TokenType, right: &Value) -> (r: Result<
    Computed,
    RuntimeError,
>)
    ensures
        computed_result(r) == binary_spec(left@, token@, right@),
{
    match token {
        TokenType::Minus => subtraction(left, token, right),
        TokenType::Slash => division(left, token, right),
        TokenType::Star => multiplication(left, token, right),
        TokenType::Plus => addition(left, token, right),
        TokenType::Greater
        | TokenType::GreaterEqual
        | TokenType::Less
        | TokenType::LessEqual => comparison(left, token, right),
        TokenType::ExclamationEqual | TokenType::EqualEqual => is_equal(left, token, right),
        _ => Err(
            RuntimeError::new(
                RuntimeErrorKind::UnknownOperator,
                String::from_str("NotImplementedBinaryExpr."),
            ),
        ),
    }
}

/// The text `print` writes for `value`, unless it is a number.
pub fn printed(value: &Value) -> (r: Option<String>)
    ensures
        match r {
            Some(s) => printed_text(value@) == Some(s@),
            None => printed_text(value@) is None,
        },
{
    match value {
        Value::Boolean(b) => Some(
            if *b {
                String::from_str("true")
            } else {
                String::from_str("false")
            },
        ),
        Value::Nil => Some(String::from_str("nil")),
        Value::String(s) => Some(s.clone()),
        Value::Callable(_) => Some(String::from_str("<fn>")),
        Value::Number(_) => None,
    }
}

/// Dividing by either zero fails with `DivisionByZero`, whatever is divided.
pub proof fn law_division_by_zero(l: ValueView, token: TokenKind, divisor: u64)
    requires
        numbers::is_zero(divisor),
    ensures
        division_spec(l, token, ValueView::Number(divisor)) == Err::<
            ComputedView,
            RuntimeErrorView,
        >(division_by_zero()),
        binary_spec(l, TokenKind::Slash, ValueView::Number(divisor)) == Err::<
            ComputedView,
            RuntimeErrorView,
        >(division_by_zero()),
{
}

/// `+` with a string on the left appends the text of a boolean, of nil and
/// of a string on the right; a number is appended as the host writes it.
pub proof fn law_concatenation(s: Seq<char>, r: ValueView)
    ensures
        r matches ValueView::Boolean(b) ==> binary_spec(ValueView::String(s), TokenKind::Plus, r)
            == Ok::<ComputedView, RuntimeErrorView>(
            ComputedView::Value(
                ValueView::String(
                    s + if b {
                        "true"@
                    } else {
                        "false"@
                    },
                ),
            ),
        ),
        r is Nil ==> binary_spec(ValueView::String(s), TokenKind::Plus, r) == Ok::<
            ComputedView,
            RuntimeErrorView,
        >(ComputedView::Value(ValueView::String(s + "Nil"@))),
        r matches ValueView::String(t) ==> binary_spec(ValueView::String(s), TokenKind::Plus, r)
            == Ok::<ComputedView, RuntimeErrorView>(ComputedView::Value(ValueView::String(s + t))),
        r matches ValueView::Number(n) ==> binary_spec(ValueView::String(s), TokenKind::Plus, r)
            == Ok::<ComputedView, RuntimeErrorView>(ComputedView::Concat { left: s, number: n }),
{
}

/// `==` and `!=` succeed on every pair of values; values of different
/// shapes are unequal, and `!=` is the negation of `==`.
pub proof fn law_equality_total(l: ValueView, r: ValueView)
    ensures
        binary_spec(l, TokenKind::EqualEqual, r) == Ok::<ComputedView, RuntimeErrorView>(
            ComputedView::Value(ValueView::Boolean(values_equal(l, r))),
        ),
        binary_spec(l, TokenKind::ExclamationEqual, r) == Ok::<ComputedView, RuntimeErrorView>(
            ComputedView::Value(ValueView::Boolean(!values_equal(l, r))),
        ),
        values_equal(l, r) == values_equal(r, l),
        !(l is Number) ==> values_equal(l, l),
        (l is Boolean) != (r is Boolean) ==> !values_equal(l, r),
        (l is Nil) != (r is Nil) ==> !values_equal(l, r),
        (l is String) != (r is String) ==> !values_equal(l, r),
        (l is Number) != (r is Number) ==> !values_equal(l, r),
        (l is Callable) != (r is Callable) ==> !values_equal(l, r),
{
}

/// `<`, `<=`, `>` and `>=` fail unless both operands are numbers.
pub proof fn law_comparison_needs_numbers(l: ValueView, token: TokenKind, r: ValueView)
    requires
        token is Less || token is LessEqual || token is Greater || token is GreaterEqual,
        !(l is Number) || !(r is Number),
    ensures
        binary_spec(l, token, r) == Err::<ComputedView, RuntimeErrorView>(
            wrong_operands(Operation::Comparison),
        ),
{
}

} // verus!
