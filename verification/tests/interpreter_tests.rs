use rs_interpreter::environment::Environment;
use rs_interpreter::expressions::{Expr, Value};
use rs_interpreter::interpreter::build_global_scope;
use rs_interpreter::lexer::new_scanner;
use rs_interpreter::machine::{Action, Interpreter, Reply};
use rs_interpreter::numbers::ArithmeticOp;
use rs_interpreter::operators;
use rs_interpreter::operators::Computed;
use rs_interpreter::parser::AST;
use rs_interpreter::statements::Statement;
use rs_interpreter::types::{
    Error, Operation, RuntimeError, RuntimeErrorKind, Token, TokenType, RUNTIME_LINE,
};

fn tokens_of(input: &str) -> (Vec<Token>, Vec<Error>) {
    let mut s = new_scanner(input);
    while let Some(text) = s.pending_number() {
        let value: f64 = text.parse().unwrap();
        s.supply_number(value.to_bits());
    }
    let (tokens, errors) = s.results();
    (tokens.clone(), errors)
}

fn answer(action: Action) -> Result<Reply, Result<Value, RuntimeError>> {
    match action {
        Action::Continue => Ok(Reply::Nothing),
        Action::Arithmetic { op, left, right } => {
            let (l, r) = (f64::from_bits(left), f64::from_bits(right));
            let result = match op {
                ArithmeticOp::Add => l + r,
                ArithmeticOp::Subtract => l - r,
                ArithmeticOp::Multiply => l * r,
                ArithmeticOp::Divide => l / r,
            };
            Ok(Reply::Number(result.to_bits()))
        }
        Action::Render { number } => Ok(Reply::Text(f64::from_bits(number).to_string())),
        Action::Clock => Ok(Reply::Number(1234.0f64.to_bits())),
        Action::Print { text: _ } => Ok(Reply::Nothing),
        Action::Finished { outcome } => Err(outcome),
    }
}

fn run(machine: Interpreter) -> Result<Value, RuntimeError> {
    let mut machine = machine;
    let mut reply = Reply::Nothing;
    loop {
        let (next, action) = machine.step(reply);
        machine = next;
        match answer(action) {
            Ok(r) => reply = r,
            Err(outcome) => return outcome,
        }
    }
}

fn evaluate(input: &str) -> Result<Value, RuntimeError> {
    let (tokens, lexer_errs) = tokens_of(input);
    assert!(lexer_errs.len() == 0);
    let ast = AST::new(&tokens);
    assert!(ast.errors.len() == 0);
    let mut result = Ok(Value::Nil);
    for s in ast.root {
        if let Ok(Statement::ExprSt(expr)) = s {
            result = run(expr.evaluated(build_global_scope(), 0));
        } else {
            panic!("expected a Expression that evaluates!")
        }
    }
    result
}

fn test(input: &str, expected: Value) {
    assert_eq!(evaluate(input), Ok(expected));
}

fn number(value: f64) -> Value {
    Value::Number(value.to_bits())
}

fn string(text: &str) -> Value {
    Value::String(text.to_string())
}

fn kind_of(input: &str) -> RuntimeErrorKind {
    match evaluate(input) {
        Err(e) => e.kind,
        Ok(v) => panic!("expected an error, got {:?}", v),
    }
}

#[test]
fn equal() {
    test("true == false;", Value::Boolean(false));
    test("true != true;", Value::Boolean(false));
    test("10 == 10;", Value::Boolean(true));
    test("\"hello\" != \"hello\";", Value::Boolean(false));
    test("nil == nil;", Value::Boolean(true));
}

#[test]
fn comparison() {
    test("1 < 2;", Value::Boolean(true));
    test("10<=10;", Value::Boolean(true));
    test("10>10;", Value::Boolean(false));
    test("10>=10;", Value::Boolean(true));
}

#[test]
fn addition_subtraction() {
    test("1.1+2;", number(3.1));
    test("1.2-2;", number(-0.8));
    test("\"hello\" + \" bye\";", string("hello bye"));
    test("\"hello_\" + nil;", string("hello_Nil"));
    test("\"hello_\" + 3;", string("hello_3"));
    test("\"hello_\" + true;", string("hello_true"));
    test("\"hello_\" + false;", string("hello_false"));
}

#[test]
fn division() {
    test("1/2;", number(0.5));
    test("-2/0.5;", number(-4.0));
}

#[test]
fn multiplication() {
    test("1.1*2;", number(2.2));
    test("-1.2*0.2;", number(-0.24));
}

#[test]
fn division_by_zero_is_an_error() {
    assert_eq!(kind_of("1/0;"), RuntimeErrorKind::DivisionByZero);
    assert_eq!(kind_of("1/-0;"), RuntimeErrorKind::DivisionByZero);
    assert_eq!(kind_of("nil/0;"), RuntimeErrorKind::DivisionByZero);
    assert_eq!(
        evaluate("1/0;"),
        Err(RuntimeError {
            kind: RuntimeErrorKind::DivisionByZero,
            error: Error::Interpreter("FailedDivision: division by zero.".to_string(), RUNTIME_LINE),
        })
    );
}

#[test]
fn operands_of_the_wrong_type_are_errors() {
    assert_eq!(kind_of("true+false;"), RuntimeErrorKind::WrongOperandType(Operation::Addition));
    assert_eq!(kind_of("1+\"a\";"), RuntimeErrorKind::WrongOperandType(Operation::Addition));
    assert_eq!(kind_of("10 / nil;"), RuntimeErrorKind::WrongOperandType(Operation::Division));
    assert_eq!(kind_of("true / 2;"), RuntimeErrorKind::WrongOperandType(Operation::Division));
    assert_eq!(kind_of("-1.2*nil;"), RuntimeErrorKind::WrongOperandType(Operation::Multiplication));
    assert_eq!(kind_of("nil-1;"), RuntimeErrorKind::WrongOperandType(Operation::Subtraction));
    assert_eq!(kind_of("true > false;"), RuntimeErrorKind::WrongOperandType(Operation::Comparison));
    assert_eq!(
        kind_of("\"hello\" <= \"hello\";"),
        RuntimeErrorKind::WrongOperandType(Operation::Comparison)
    );
    assert_eq!(kind_of("-true;"), RuntimeErrorKind::WrongOperandType(Operation::Unary));
    assert_eq!(kind_of("!1;"), RuntimeErrorKind::WrongOperandType(Operation::Unary));
    assert_eq!(kind_of("!\"a\";"), RuntimeErrorKind::WrongOperandType(Operation::Unary));
}

#[test]
fn equality_never_fails() {
    test("1 == \"1\";", Value::Boolean(false));
    test("1 != \"1\";", Value::Boolean(true));
    test("nil == false;", Value::Boolean(false));
    test("clock == clock;", Value::Boolean(true));
    test("clock == nil;", Value::Boolean(false));
    test("0 == -0;", Value::Boolean(true));
    test("\"a\" == \"a\";", Value::Boolean(true));
}

#[test]
fn numbers_compare_as_doubles() {
    let values = [
        0.0f64,
        -0.0,
        1.0,
        -1.0,
        0.5,
        -2.5,
        1e300,
        -1e300,
        f64::MIN_POSITIVE,
        5e-324,
        f64::INFINITY,
        f64::NEG_INFINITY,
        f64::NAN,
    ];
    let token = |t: TokenType| t;
    for &a in values.iter() {
        for &b in values.iter() {
            let (l, r) = (number(a), number(b));
            let boolean = |v: bool| Ok(Computed::Value(Value::Boolean(v)));
            assert_eq!(operators::comparison(&l, &token(TokenType::Less), &r), boolean(a < b));
            assert_eq!(operators::comparison(&l, &token(TokenType::LessEqual), &r), boolean(a <= b));
            assert_eq!(operators::comparison(&l, &token(TokenType::Greater), &r), boolean(a > b));
            assert_eq!(
                operators::comparison(&l, &token(TokenType::GreaterEqual), &r),
                boolean(a >= b)
            );
            assert_eq!(operators::is_equal(&l, &token(TokenType::EqualEqual), &r), boolean(a == b));
            assert_eq!(
                operators::is_equal(&l, &token(TokenType::ExclamationEqual), &r),
                boolean(a != b)
            );
        }
        assert_eq!(operators::unary(&TokenType::Minus, &number(a)).map(|v| match v {
            Value::Number(bits) => bits,
            _ => 0,
        }), Ok((-a).to_bits()));
    }
}

#[test]
fn unary_operators() {
    test("-(3);", number(-3.0));
    test("--3;", number(3.0));
    test("!true;", Value::Boolean(false));
    test("!false;", Value::Boolean(true));
    test("!nil;", Value::Boolean(true));
}

#[test]
fn only_true_is_truthy() {
    assert!(operators::is_truthy(&Value::Boolean(true)));
    assert!(!operators::is_truthy(&Value::Boolean(false)));
    assert!(!operators::is_truthy(&Value::Nil));
    assert!(!operators::is_truthy(&number(1.0)));
    assert!(!operators::is_truthy(&number(0.0)));
    assert!(!operators::is_truthy(&string("")));
    assert!(!operators::is_truthy(&string("true")));
    assert!(!operators::is_truthy(&Value::Callable(0)));
}

#[test]
fn logical_operators_short_circuit() {
    test("true or missing;", Value::Boolean(true));
    test("false and missing;", Value::Boolean(false));
    test("false or true;", Value::Boolean(true));
    test("false or 1;", Value::Boolean(false));
    test("true and true;", Value::Boolean(true));
    test("true and nil;", Value::Boolean(false));
    test("1 or true;", Value::Boolean(true));
    test("1 and true;", Value::Boolean(false));
    assert_eq!(kind_of("false or missing;"), RuntimeErrorKind::UndefinedVariable);
    assert_eq!(kind_of("true and missing;"), RuntimeErrorKind::UndefinedVariable);
}

#[test]
fn operators_say_what_to_ask_of_the_host() {
    let (one, two) = (number(1.0), number(2.0));
    assert_eq!(
        operators::addition(&one, &TokenType::Plus, &two),
        Ok(Computed::Arithmetic {
            op: ArithmeticOp::Add,
            left: 1.0f64.to_bits(),
            right: 2.0f64.to_bits()
        })
    );
    assert_eq!(
        operators::subtraction(&one, &TokenType::Minus, &two),
        Ok(Computed::Arithmetic {
            op: ArithmeticOp::Subtract,
            left: 1.0f64.to_bits(),
            right: 2.0f64.to_bits()
        })
    );
    assert_eq!(
        operators::multiplication(&one, &TokenType::Star, &two),
        Ok(Computed::Arithmetic {
            op: ArithmeticOp::Multiply,
            left: 1.0f64.to_bits(),
            right: 2.0f64.to_bits()
        })
    );
    assert_eq!(
        operators::division(&one, &TokenType::Slash, &two),
        Ok(Computed::Arithmetic {
            op: ArithmeticOp::Divide,
            left: 1.0f64.to_bits(),
            right: 2.0f64.to_bits()
        })
    );
    assert_eq!(
        operators::addition(&string("n"), &TokenType::Plus, &two),
        Ok(Computed::Concat { left: "n".to_string(), number: 2.0f64.to_bits() })
    );
    assert_eq!(
        operators::binary(&one, &TokenType::Comma, &two).map_err(|e| e.kind),
        Err(RuntimeErrorKind::UnknownOperator)
    );
    assert_eq!(
        operators::is_equal(&one, &TokenType::Plus, &two).map_err(|e| e.kind),
        Err(RuntimeErrorKind::WrongOperandType(Operation::Equality))
    );
}

#[test]
fn calling_what_is_no_function_fails() {
    assert_eq!(kind_of("true();"), RuntimeErrorKind::NotCallable);
    assert_eq!(kind_of("\"text\"(1);"), RuntimeErrorKind::NotCallable);
    assert_eq!(
        evaluate("nil();"),
        Err(RuntimeError {
            kind: RuntimeErrorKind::NotCallable,
            error: Error::Interpreter(
                "can only call functions".to_string(),
                RUNTIME_LINE
            ),
        })
    );
}

#[test]
fn calling_with_the_wrong_number_of_arguments_fails() {
    assert_eq!(
        evaluate("clock(1, 2);"),
        Err(RuntimeError {
            kind: RuntimeErrorKind::ArityMismatch,
            error: Error::Interpreter("Expected 0 arguments but got 2.".to_string(), RUNTIME_LINE),
        })
    );
}

#[test]
fn the_clock_is_read_from_the_host() {
    test("clock();", number(1234.0));
    test("clock() + 1;", number(1235.0));
}

#[test]
fn variables_are_read_from_the_innermost_scope_outwards() {
    let mut scopes = vec![Environment::new(None), Environment::new(Some(0)), Environment::new(Some(0))];
    scopes[0].define("a".to_string(), number(1.0));
    scopes[0].define("b".to_string(), number(2.0));
    scopes[1].define("a".to_string(), number(3.0));
    let name = |n: &str| n.to_string();
    assert_eq!(Environment::get_value(&scopes, 1, &name("a")), Ok(number(3.0)));
    assert_eq!(Environment::get_value(&scopes, 1, &name("b")), Ok(number(2.0)));
    assert_eq!(Environment::get_value(&scopes, 2, &name("a")), Ok(number(1.0)));
    assert_eq!(Environment::get_value(&scopes, 0, &name("a")), Ok(number(1.0)));
    assert_eq!(
        Environment::get_value(&scopes, 1, &name("c")).map_err(|e| e.kind),
        Err(RuntimeErrorKind::UndefinedVariable)
    );
    assert_eq!(
        Environment::get_value(&scopes, 7, &name("a")).map_err(|e| e.kind),
        Err(RuntimeErrorKind::UndefinedVariable)
    );
}

#[test]
fn defining_again_overwrites() {
    let mut scope = Environment::new(None);
    scope.define("a".to_string(), number(1.0));
    scope.define("a".to_string(), string("second"));
    assert_eq!(scope.get_local(&"a".to_string()), Some(string("second")));
    assert_eq!(scope.values.len(), 1);
    assert_eq!(scope.get_local(&"b".to_string()), None);
}

#[test]
fn assignment_writes_where_the_name_is_bound() {
    let mut scopes = vec![Environment::new(None), Environment::new(Some(0))];
    scopes[0].define("a".to_string(), number(1.0));
    assert_eq!(Environment::assign(&mut scopes, 1, "a".to_string(), number(5.0)), Ok(()));
    assert_eq!(scopes[0].get_local(&"a".to_string()), Some(number(5.0)));
    assert_eq!(scopes[1].get_local(&"a".to_string()), None);

    let before = format!("{:?}", scopes);
    assert_eq!(
        Environment::assign(&mut scopes, 1, "missing".to_string(), number(5.0)),
        Err(RuntimeError {
            kind: RuntimeErrorKind::UndefinedVariable,
            error: Error::Interpreter(
                "Can't write to Undefined Variable.".to_string(),
                RUNTIME_LINE
            ),
        })
    );
    assert_eq!(format!("{:?}", scopes), before);
}

#[test]
fn variables_that_are_not_declared_cannot_be_read_or_assigned() {
    assert_eq!(kind_of("missing;"), RuntimeErrorKind::UndefinedVariable);
    assert_eq!(kind_of("missing = 1;"), RuntimeErrorKind::UndefinedVariable);
    assert_eq!(
        evaluate("missing;"),
        Err(RuntimeError {
            kind: RuntimeErrorKind::UndefinedVariable,
            error: Error::Interpreter("Undefined Variable.".to_string(), RUNTIME_LINE),
        })
    );
    assert_ne!(RuntimeErrorKind::UndefinedAssignmentTarget, RuntimeErrorKind::UndefinedVariable);
}

#[test]
fn the_values_of_operands_are_used_in_order() {
    test("1 - 2 - 3;", number(-4.0));
    test("2 * 3 + 4 * 5;", number(26.0));
    test("(1 + 2) * (3 + 4);", number(21.0));
    test("\"a\" + 1 + 2;", string("a12"));
    test("1 + 2 == 3;", Value::Boolean(true));
    test("!(1 > 2) == true;", Value::Boolean(true));
}

#[test]
fn a_literal_evaluates_to_itself() {
    let machine = Expr::Literal(string("s")).evaluated(build_global_scope(), 0);
    assert_eq!(run(machine), Ok(string("s")));
}

#[test]
fn a_finished_machine_stays_finished() {
    let machine = Expr::Literal(Value::Nil).evaluated(build_global_scope(), 0);
    assert!(!machine.is_finished());
    let (machine, action) = machine.step(Reply::Nothing);
    assert_eq!(action, Action::Finished { outcome: Ok(Value::Nil) });
    assert!(machine.is_finished());
    let (machine, action) = machine.step(Reply::Number(3));
    assert_eq!(action, Action::Finished { outcome: Ok(Value::Nil) });
    assert!(machine.is_finished());
}

#[test]
fn a_reply_of_the_wrong_kind_is_an_error() {
    let (tokens, _) = tokens_of("1+2;");
    let ast = AST::new(&tokens);
    let mut machine = match ast.root.into_iter().next() {
        Some(Ok(Statement::ExprSt(expr))) => expr.evaluated(build_global_scope(), 0),
        _ => panic!("expected an expression"),
    };
    loop {
        let (next, action) = machine.step(Reply::Nothing);
        machine = next;
        if let Action::Arithmetic { .. } = action {
            break;
        }
    }
    let (machine, action) = machine.step(Reply::Text("3".to_string()));
    assert_eq!(action, Action::Continue);
    let (_, action) = machine.step(Reply::Nothing);
    match action {
        Action::Finished { outcome: Err(e) } => assert_eq!(e.kind, RuntimeErrorKind::Protocol),
        other => panic!("unexpected {:?}", other),
    }
}
