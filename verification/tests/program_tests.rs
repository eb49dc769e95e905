use rs_interpreter::machine::{Action, Reply};
use rs_interpreter::numbers::ArithmeticOp;
use rs_interpreter::run_file;
use rs_interpreter::session::Request;

/// What a run printed, reported, and how it ended.
#[derive(Debug, PartialEq)]
struct Run {
    printed: Vec<String>,
    reported: Vec<String>,
    fatal: Option<String>,
    tree_shown: bool,
}

fn run(source: &str, print_ast: bool) -> Run {
    let mut session = run_file(source.to_string(), print_ast);
    let mut reply = Reply::Nothing;
    let mut out = Run { printed: vec![], reported: vec![], fatal: None, tree_shown: false };
    let mut steps = 0;
    loop {
        steps += 1;
        assert!(steps < 1_000_000, "the run does not end");
        let (next, request) = session.step(reply);
        session = next;
        reply = Reply::Nothing;
        match request {
            Request::Convert { text } => {
                let value: f64 = text.parse().unwrap();
                reply = Reply::Number(value.to_bits());
            }
            Request::Tree { tree: _ } => out.tree_shown = true,
            Request::Run { action } => match action {
                Action::Continue => {}
                Action::Arithmetic { op, left, right } => {
                    let (l, r) = (f64::from_bits(left), f64::from_bits(right));
                    let result = match op {
                        ArithmeticOp::Add => l + r,
                        ArithmeticOp::Subtract => l - r,
                        ArithmeticOp::Multiply => l * r,
                        ArithmeticOp::Divide => l / r,
                    };
                    reply = Reply::Number(result.to_bits());
                }
                Action::Render { number } => reply = Reply::Text(f64::from_bits(number).to_string()),
                Action::Clock => reply = Reply::Number(42.0f64.to_bits()),
                Action::Print { text } => out.printed.push(text),
                Action::Finished { .. } => panic!("the session hides the end of the machine"),
            },
            Request::Fatal { message } => {
                out.fatal = Some(message);
                return out;
            }
            Request::Report { message } => out.reported.push(message),
            Request::Finished => return out,
        }
    }
}

fn prints(source: &str) -> Vec<String> {
    let out = run(source, false);
    assert_eq!(out.fatal, None);
    assert_eq!(out.reported, Vec::<String>::new());
    out.printed
}

fn fails(source: &str) -> String {
    match run(source, false).fatal {
        Some(message) => message,
        None => panic!("the run did not fail"),
    }
}

#[test]
fn print_writes_each_kind_of_value() {
    assert_eq!(
        prints("print 1; print 2.5; print \"text\"; print true; print false; print nil; print clock;"),
        vec!["1", "2.5", "text", "true", "false", "nil", "<fn>"]
    );
}

#[test]
fn arithmetic_follows_precedence() {
    assert_eq!(prints("print 1+2*3; print (1+2)*3; print 1-2-3; print 8/4/2;"), vec!["7", "9", "-4", "1"]);
}

#[test]
fn for_prints_zero_one_two() {
    assert_eq!(prints("for (var i=0; i<3; i=i+1) print i;"), vec!["0", "1", "2"]);
    assert_eq!(prints("{ var i=0; while (i<3) { print i; i=i+1; } }"), vec!["0", "1", "2"]);
}

#[test]
fn the_initializer_of_a_for_is_local_to_it() {
    let message = fails("for (var i=0; i<1; i=i+1) print i; print i;");
    assert_eq!(message, "Interpreter-ERROR in line: 0 : Undefined Variable.!");
}

#[test]
fn while_runs_as_long_as_its_condition_is_true() {
    assert_eq!(prints("var n = 3; while (n > 0) { print n; n = n - 1; } print \"done\";"), vec![
        "3", "2", "1", "done"
    ]);
    assert_eq!(prints("while (false) print 1; while (1) print 2; while (nil) print 3;"), Vec::<String>::new());
}

#[test]
fn if_chooses_by_truth() {
    assert_eq!(
        prints("if (true) print 1; else print 2; if (false) print 3; else print 4; if (1) print 5; if (nil) print 6; else print 7;"),
        vec!["1", "4", "7"]
    );
}

#[test]
fn redeclaring_a_variable_overwrites_it() {
    assert_eq!(prints("var a = 1; var a = 2; print a; var b; print b;"), vec!["2", "nil"]);
}

#[test]
fn assigning_to_an_undeclared_name_fails() {
    assert_eq!(
        fails("a = 1;"),
        "Interpreter-ERROR in line: 0 : Can't write to Undefined Variable.!"
    );
    assert_eq!(fails("{ var a = 1; } a = 2;"), "Interpreter-ERROR in line: 0 : Can't write to Undefined Variable.!");
}

#[test]
fn assignment_is_an_expression() {
    assert_eq!(prints("var a; var b; print a = b = 3; print a; print b;"), vec!["3", "3", "3"]);
}

#[test]
fn blocks_shadow_and_restore() {
    assert_eq!(
        prints("var a = 1; { var a = 2; print a; { a = 3; print a; } print a; } print a;"),
        vec!["2", "3", "3", "1"]
    );
    assert_eq!(prints("var a = 1; { a = 2; } print a;"), vec!["2"]);
}

#[test]
fn functions_return_values() {
    assert_eq!(
        prints("fun add(a, b) { return a + b; } print add(1, 2); fun nothing() {} print nothing(); fun bare() { return; } print bare();"),
        vec!["3", "nil", "nil"]
    );
}

#[test]
fn return_leaves_loops_and_blocks() {
    assert_eq!(
        prints("fun first() { var i = 0; while (true) { { if (i == 2) return i; } i = i + 1; } print \"never\"; } print first(); print \"after\";"),
        vec!["2", "after"]
    );
}

#[test]
fn functions_recurse() {
    assert_eq!(
        prints("fun fib(n) { if (n < 2) return n; return fib(n - 1) + fib(n - 2); } print fib(10);"),
        vec!["55"]
    );
}

#[test]
fn a_function_sees_the_scope_it_was_declared_in() {
    let source = "
        var x = \"global\";
        fun show() { print x; }
        { var x = \"local\"; show(); }
        fun caller() { var x = \"caller\"; show(); }
        caller();";
    assert_eq!(prints(source), vec!["global", "global"]);
}

#[test]
fn a_counter_keeps_its_state_between_calls() {
    let source = "
        fun make() {
            var count = 0;
            fun inc() { count = count + 1; return count; }
            return inc;
        }
        var a = make();
        var b = make();
        var count = 100;
        print a(); print a(); print b(); print a();
        print count;";
    assert_eq!(prints(source), vec!["1", "2", "1", "3", "100"]);
}

#[test]
fn closures_share_the_scope_they_capture() {
    let source = "
        var get; var set;
        {
            var v = 1;
            fun g() { return v; }
            fun s(n) { v = n; }
            get = g; set = s;
        }
        print get(); set(7); print get();";
    assert_eq!(source.len() > 0, true);
    assert_eq!(prints(source), vec!["1", "7"]);
}

#[test]
fn parameters_shadow_outer_names() {
    assert_eq!(prints("var a = 1; fun f(a) { a = a + 1; return a; } print f(5); print a;"), vec!["6", "1"]);
}

#[test]
fn arguments_are_evaluated_left_to_right() {
    let source = "
        var log = \"\";
        fun note(x) { log = log + x; return x; }
        fun three(a, b, c) { return a + b + c; }
        print three(note(\"a\"), note(\"b\"), note(\"c\"));
        print log;";
    assert_eq!(prints(source), vec!["abc", "abc"]);
}

#[test]
fn calls_check_what_is_called_and_how() {
    assert_eq!(
        fails("true();"),
        "Interpreter-ERROR in line: 0 : can only call functions!"
    );
    assert_eq!(
        fails("fun f(a, b) {} f(1);"),
        "Interpreter-ERROR in line: 0 : Expected 2 arguments but got 1.!"
    );
    assert_eq!(
        fails("fun f() {} f(1, 2, 3);"),
        "Interpreter-ERROR in line: 0 : Expected 0 arguments but got 3.!"
    );
}

#[test]
fn the_first_error_ends_the_run() {
    let out = run("print 1; print 1/0; print 2;", false);
    assert_eq!(out.printed, vec!["1"]);
    assert_eq!(
        out.fatal,
        Some("Interpreter-ERROR in line: 0 : FailedDivision: division by zero.!".to_string())
    );
}

#[test]
fn a_statement_that_failed_to_parse_ends_the_run_when_reached() {
    let out = run("print 1;\nprint 2\nprint 3;", false);
    assert_eq!(out.printed, vec!["1"]);
    assert_eq!(out.fatal, Some("ParserERROR in line: 3 : Expected ; after value.!".to_string()));

    let out = run("if (false) { print 1 } print 2;", false);
    assert_eq!(out.printed, vec!["2"]);
    assert_eq!(out.fatal, None);
    assert_eq!(out.reported, vec!["ParserERROR in line: 1 : Expected ; after value.!"]);
}

#[test]
fn errors_of_the_scan_are_reported_after_the_run() {
    let out = run("print 1; # print 2;", false);
    assert_eq!(out.printed, vec!["1", "2"]);
    assert_eq!(out.reported, vec!["Lexer-ERROR in line: 1 : Unexpected character!"]);
    assert_eq!(out.fatal, None);
}

#[test]
fn a_return_outside_every_function_ends_the_run() {
    let out = run("print 1; return; print 2;", false);
    assert_eq!(out.printed, vec!["1"]);
    assert_eq!(out.fatal, None);
}

#[test]
fn the_tree_is_shown_on_request_only() {
    assert!(run("print 1;", true).tree_shown);
    assert!(!run("print 1;", false).tree_shown);
    assert_eq!(run("print 1;", true).printed, vec!["1"]);
}

#[test]
fn strings_take_the_text_of_what_they_are_joined_with() {
    assert_eq!(
        prints("print \"a\" + 1.5; print \"a\" + \"b\" + nil + true; print \"n\" + 1 + 2;"),
        vec!["a1.5", "abNiltrue", "n12"]
    );
}

#[test]
fn an_empty_program_does_nothing() {
    assert_eq!(run("", false), Run { printed: vec![], reported: vec![], fatal: None, tree_shown: false });
}

#[test]
fn the_clock_is_a_native_function_of_no_arguments() {
    assert_eq!(prints("print clock();"), vec!["42"]);
    assert_eq!(fails("clock(1);"), "Interpreter-ERROR in line: 0 : Expected 0 arguments but got 1.!");
}
