use rs_interpreter::expressions::{
    BinaryExpr, Expr, FnCallExpr, GroupingExpr, LogicalExpr, UnaryExpr, Value, VarAssignExpr,
    VarReadExpr,
};
use rs_interpreter::lexer::new_scanner;
use rs_interpreter::parser::AST;
use rs_interpreter::statements::{FunctionStatement, Statement};
use rs_interpreter::types::{Error, Token, TokenType};

fn tokens_of(input: &str) -> (Vec<Token>, Vec<Error>) {
    let mut s = new_scanner(input);
    while let Some(text) = s.pending_number() {
        let value: f64 = text.parse().unwrap();
        s.supply_number(value.to_bits());
    }
    let (tokens, errors) = s.results();
    (tokens.clone(), errors)
}

fn parse(input: &str) -> AST {
    let (tokens, lexer_errs) = tokens_of(input);
    assert!(lexer_errs.len() == 0);
    AST::new(&tokens)
}

fn num(value: f64) -> Expr {
    Expr::Literal(Value::Number(value.to_bits()))
}

fn var(name: &str) -> Expr {
    Expr::VarRead(VarReadExpr { name: name.to_string() })
}

fn binary(left: Expr, token: TokenType, right: Expr) -> Expr {
    Expr::Binary(BinaryExpr { left: Box::new(left), token, right: Box::new(right) })
}

fn parser_error(message: &str, line: usize) -> Error {
    Error::Parser(message.to_string(), line)
}

#[test]
fn testing() {}

#[test]
fn integration_test_with_lexer() {
    let (tokens, lexer_errs) = tokens_of("true == false;");
    assert!(lexer_errs.len() == 0);
    let ast = AST::new(&tokens);

    let expected = Expr::Binary(BinaryExpr {
        left: Box::new(Expr::Literal(Value::Boolean(true))),
        token: TokenType::EqualEqual,
        right: Box::new(Expr::Literal(Value::Boolean(false))),
    });

    let expected = vec![Ok(Statement::ExprSt(expected))];
    assert_eq!(ast.root, expected);
    assert!(ast.errors.len() == 0);
}

#[test]
fn integration_test_mult_before_add() {
    let (tokens, lexer_errs) = tokens_of("1+2*3;");
    assert!(lexer_errs.len() == 0);
    let ast = AST::new(&tokens);

    let expected = Expr::Binary(BinaryExpr {
        left: Box::new(Expr::Literal(Value::Number(1.0f64.to_bits()))),
        token: TokenType::Plus,
        right: Box::new(Expr::Binary(BinaryExpr {
            left: Box::new(Expr::Literal(Value::Number(2.0f64.to_bits()))),
            token: TokenType::Star,
            right: Box::new(Expr::Literal(Value::Number(3.0f64.to_bits()))),
        })),
    });

    let expected = vec![Ok(Statement::ExprSt(expected))];
    assert_eq!(ast.root, expected);
    assert!(ast.errors.len() == 0);
}

#[test]
fn integration_test_parenthesis() {
    let (tokens, lexer_errs) = tokens_of("(1-2)/3;");
    assert!(lexer_errs.len() == 0);
    let ast = AST::new(&tokens);

    let expected = Expr::Binary(BinaryExpr {
        left: Box::new(Expr::Grouping(GroupingExpr {
            expr: Box::new(Expr::Binary(BinaryExpr {
                left: Box::new(Expr::Literal(Value::Number(1.0f64.to_bits()))),
                token: TokenType::Minus,
                right: Box::new(Expr::Literal(Value::Number(2.0f64.to_bits()))),
            })),
        })),
        token: TokenType::Slash,
        right: Box::new(Expr::Literal(Value::Number(3.0f64.to_bits()))),
    });

    let expected = vec![Ok(Statement::ExprSt(expected))];
    assert_eq!(ast.root, expected);
    assert!(ast.errors.len() == 0);
}

#[test]
fn binary_operators_associate_to_the_left() {
    let ast = parse("1-2-3;");
    let expected = binary(binary(num(1.0), TokenType::Minus, num(2.0)), TokenType::Minus, num(3.0));
    assert_eq!(ast.root, vec![Ok(Statement::ExprSt(expected))]);
}

#[test]
fn precedence_runs_from_or_down_to_unary() {
    let ast = parse("a or b and c == d < e + f * -g;");
    let unary = Expr::Unary(UnaryExpr { token: TokenType::Minus, right: Box::new(var("g")) });
    let factor = binary(var("f"), TokenType::Star, unary);
    let term = binary(var("e"), TokenType::Plus, factor);
    let comparison = binary(var("d"), TokenType::Less, term);
    let equality = binary(var("c"), TokenType::EqualEqual, comparison);
    let and = Expr::Logical(LogicalExpr {
        left: Box::new(var("b")),
        token: TokenType::And,
        right: Box::new(equality),
    });
    let or = Expr::Logical(LogicalExpr {
        left: Box::new(var("a")),
        token: TokenType::Or,
        right: Box::new(and),
    });
    assert_eq!(ast.root, vec![Ok(Statement::ExprSt(or))]);
    assert_eq!(ast.errors, vec![]);
}

#[test]
fn assignment_is_right_associative_and_needs_a_variable() {
    let ast = parse("a = b = 1;");
    let inner = Expr::VarAssign(VarAssignExpr::new("b".to_string(), num(1.0)));
    let outer = Expr::VarAssign(VarAssignExpr::new("a".to_string(), inner));
    assert_eq!(ast.root, vec![Ok(Statement::ExprSt(outer))]);

    let ast = parse("1 = 2;");
    let error = parser_error("Invalid assignment target.", 1);
    assert_eq!(ast.errors[0], error);
    assert_eq!(ast.root[0], Err(error));
}

#[test]
fn calls_chain_and_take_arguments() {
    let ast = parse("f(1, x)();");
    let first = Expr::FnCall(FnCallExpr {
        callee: Box::new(var("f")),
        paren: TokenType::CloseParen,
        arguments: vec![num(1.0), var("x")],
    });
    let second = Expr::FnCall(FnCallExpr {
        callee: Box::new(first),
        paren: TokenType::CloseParen,
        arguments: vec![],
    });
    assert_eq!(ast.root, vec![Ok(Statement::ExprSt(second))]);
}

#[test]
fn a_call_takes_at_most_255_arguments() {
    let args = |n: usize| vec!["1"; n].join(",");
    let ast = parse(&format!("f({});", args(255)));
    assert_eq!(ast.errors, vec![]);
    match &ast.root[0] {
        Ok(Statement::ExprSt(Expr::FnCall(call))) => assert_eq!(call.arguments.len(), 255),
        other => panic!("unexpected {:?}", other),
    }
    let ast = parse(&format!("f({});", args(256)));
    let error = parser_error("Can't have more than 255 arguments.", 1);
    assert_eq!(ast.errors[0], error);
    assert_eq!(ast.root[0], Err(error));
}

#[test]
fn a_function_takes_at_most_255_parameters() {
    let params = |n: usize| (0..n).map(|i| format!("p{}", i)).collect::<Vec<String>>().join(",");
    let ast = parse(&format!("fun f({}) {{}}", params(255)));
    assert_eq!(ast.errors, vec![]);
    let ast = parse(&format!("fun f({}) {{}}", params(256)));
    assert_eq!(ast.errors[0], parser_error("Can't have more than 255 parameters.", 1));
}

#[test]
fn a_group_without_its_closing_parenthesis_is_still_a_group() {
    let ast = parse("(1;");
    let error = parser_error("Expect closing: ')' after expression.", 1);
    assert_eq!(ast.errors, vec![error]);
    let group = Expr::Grouping(GroupingExpr { expr: Box::new(num(1.0)) });
    assert_eq!(ast.root, vec![Ok(Statement::ExprSt(group))]);
}

#[test]
fn an_open_parenthesis_at_the_end_is_an_error() {
    let ast = parse("(");
    assert_eq!(ast.root.len(), 1);
    assert!(ast.root[0].is_err());
    assert_eq!(ast.errors[0], parser_error("Unexpected token <>.", 1));
}

#[test]
fn an_unexpected_token_is_named() {
    let ast = parse("+;");
    let error = parser_error("Unexpected token <+>.", 1);
    assert_eq!(ast.errors[0], error);
    assert_eq!(ast.root[0], Err(error));
}

#[test]
fn a_missing_semicolon_is_an_error_of_its_statement() {
    let ast = parse("print 1");
    let error = parser_error("Expected ; after value.", 1);
    assert_eq!(ast.root, vec![Err(error.clone())]);
    assert_eq!(ast.errors, vec![error]);

    let ast = parse("var x = 1");
    let error = parser_error("Expect ';' after variable declaration", 1);
    assert_eq!(ast.root, vec![Err(error.clone())]);

    let ast = parse("var 1;");
    assert_eq!(ast.errors[0], parser_error("Expected variable name after var", 1));
}

#[test]
fn errors_of_separate_statements_accumulate() {
    let ast = parse("print 1\nprint 2;\n+ 3;");
    assert_eq!(ast.errors.len(), 2);
    assert_eq!(ast.errors[0], parser_error("Expected ; after value.", 2));
    assert_eq!(ast.errors[1], parser_error("Unexpected token <+>.", 3));
    assert_eq!(ast.root.len(), 4);
    assert_eq!(ast.root[0], Err(parser_error("Expected ; after value.", 2)));
    assert_eq!(ast.root[1], Ok(Statement::PrintSt(num(2.0))));
    assert_eq!(ast.root[2], Err(parser_error("Unexpected token <+>.", 3)));
    assert_eq!(ast.root[3], Ok(Statement::ExprSt(num(3.0))));
}

#[test]
fn parsing_goes_on_right_after_an_error() {
    let ast = parse("1 = 2;");
    assert_eq!(ast.errors.len(), 2);
    assert_eq!(ast.errors[1], parser_error("Unexpected token <;>.", 1));
    assert_eq!(ast.root.len(), 2);
}

#[test]
fn declarations_and_statements() {
    let ast = parse("var x; var y = 2; print x; { x = 1; } if (x) print 1; else print 2; return;");
    assert_eq!(ast.errors, vec![]);
    let expected = vec![
        Ok(Statement::VariableSt("x".to_string(), Expr::Literal(Value::Nil))),
        Ok(Statement::VariableSt("y".to_string(), num(2.0))),
        Ok(Statement::PrintSt(var("x"))),
        Ok(Statement::BlockSt(vec![Ok(Statement::ExprSt(Expr::VarAssign(VarAssignExpr::new(
            "x".to_string(),
            num(1.0),
        ))))])),
        Ok(Statement::IfSt {
            condition: var("x"),
            then_: Box::new(Statement::PrintSt(num(1.0))),
            else_: Some(Box::new(Statement::PrintSt(num(2.0)))),
        }),
        Ok(Statement::ReturnSt { keyword: "return".to_string(), value: Expr::Literal(Value::Nil) }),
    ];
    assert_eq!(ast.root, expected);
}

#[test]
fn a_block_without_its_closing_brace_ends_with_the_error() {
    let ast = parse("{ print 1;");
    let error = parser_error("Expect '}' after block.", 1);
    assert_eq!(
        ast.root,
        vec![Ok(Statement::BlockSt(vec![Ok(Statement::PrintSt(num(1.0))), Err(error.clone())]))]
    );
    assert_eq!(ast.errors, vec![error]);
}

#[test]
fn function_declarations() {
    let ast = parse("fun add(a, b) { return a + b; }");
    assert_eq!(ast.errors, vec![]);
    let body = vec![Ok(Statement::ReturnSt {
        keyword: "return".to_string(),
        value: binary(var("a"), TokenType::Plus, var("b")),
    })];
    let expected = Statement::FunctionSt(FunctionStatement {
        name: "add".to_string(),
        params: vec!["a".to_string(), "b".to_string()],
        body,
    });
    assert_eq!(ast.root, vec![Ok(expected)]);
}

#[test]
fn for_is_written_with_while() {
    let sugared = parse("for (var i=0; i<3; i=i+1) print i;");
    let by_hand = parse("{ var i=0; while (i<3) { print i; i=i+1; } }");
    assert_eq!(sugared.errors, vec![]);
    assert_eq!(sugared.root, by_hand.root);
}

#[test]
fn for_without_clauses_loops_on_true() {
    let ast = parse("for (;;) print 1;");
    assert_eq!(ast.errors, vec![]);
    let expected = Statement::While {
        condition: Expr::Literal(Value::Boolean(true)),
        body: Box::new(Statement::PrintSt(num(1.0))),
    };
    assert_eq!(ast.root, vec![Ok(expected)]);
}

#[test]
fn for_with_an_expression_as_initializer() {
    let ast = parse("for (i = 0; i < 1;) print i;");
    assert_eq!(ast.errors, vec![]);
    let init = Statement::ExprSt(Expr::VarAssign(VarAssignExpr::new("i".to_string(), num(0.0))));
    let looped = Statement::While {
        condition: binary(var("i"), TokenType::Less, num(1.0)),
        body: Box::new(Statement::PrintSt(var("i"))),
    };
    assert_eq!(ast.root, vec![Ok(Statement::BlockSt(vec![Ok(init), Ok(looped)]))]);
}

#[test]
fn an_empty_program_has_no_statements() {
    let ast = parse("");
    assert_eq!(ast.root, vec![]);
    assert_eq!(ast.errors, vec![]);
}
