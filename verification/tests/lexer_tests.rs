use rs_interpreter::lexer::{new_scanner, Scanner};
use rs_interpreter::types::TokenType::{
    CloseBrace, CloseParen, Dot, Equal, EqualEqual, Exclamation, ExclamationEqual, False,
    Identifier, Minus, Number, OpenBrace, OpenParen, Plus, Return, Semicolon, Slash, This, True,
    Var, EOF,
};
use rs_interpreter::types::{Error, Token, TokenType};

fn scan(input: &str) -> Scanner {
    let mut s = new_scanner(input);
    while let Some(text) = s.pending_number() {
        let value: f64 = text.parse().unwrap();
        s.supply_number(value.to_bits());
    }
    s
}

fn number(value: f64) -> TokenType {
    Number(value.to_bits())
}

fn fake_token(lexeme: &str, token: TokenType) -> Token {
    Token { typ: token, lexeme: lexeme.to_string(), line: 1 }
}

fn fake_data(data: Vec<(&str, TokenType)>) -> Vec<Token> {
    let mut tokens: Vec<Token> = data.iter().map(|(lex, tok)| fake_token(lex, tok.clone())).collect();
    tokens.push(fake_token("", EOF));
    tokens
}

fn is_expected(input: &str, expected: Vec<(&str, TokenType)>) {
    let s = scan(input);
    let (tokens, errs) = s.results();
    let expected = fake_data(expected);
    assert!(errs.len() == 0);
    assert_eq!(tokens, &expected);
}

#[test]
fn one_chars_longs() {
    is_expected("", vec![]);
    is_expected(";", vec![(";", Semicolon)]);
    is_expected("-", vec![("-", Minus)]);
}

#[test]
fn braces() {
    is_expected(
        "{)(}",
        vec![("{", OpenBrace), (")", CloseParen), ("(", OpenParen), ("}", CloseBrace)],
    );
}

#[test]
fn two_char_longs() {
    is_expected("1=2", vec![("1", number(1.0)), ("=", Equal), ("2", number(2.0))]);
    is_expected("true== false", vec![("true", True), ("==", EqualEqual), ("false", False)]);
    is_expected(
        "-05 !=00232.5",
        vec![
            ("-", Minus),
            ("05", number(5.0)),
            ("!=", ExclamationEqual),
            ("00232.5", number(232.5)),
        ],
    );
    is_expected(
        "true==!false",
        vec![("true", True), ("==", EqualEqual), ("!", Exclamation), ("false", False)],
    );
    is_expected(
        "return 1 / 2 // somecomment is NOT token/ // all ignored",
        vec![("return", Return), ("1", number(1.0)), ("/", Slash), ("2", number(2.0))],
    );
}

#[test]
fn literals() {
    is_expected(
        "var name_varname = 5.5; this.thisname++",
        vec![
            ("var", Var),
            ("name_varname", Identifier),
            ("=", Equal),
            ("5.5", number(5.5)),
            (";", Semicolon),
            ("this", This),
            (".", Dot),
            ("thisname", Identifier),
            ("+", Plus),
            ("+", Plus),
        ],
    );
}

#[test]
fn newlines_and_whitespace() {
    let s = scan("var \n return \t \n //ignored +-+ \n ;");
    let (tokens, errs) = s.results();
    let expected = vec![
        Token { typ: Var, lexeme: "var".to_string(), line: 1 },
        Token { typ: Return, lexeme: "return".to_string(), line: 2 },
        Token { typ: Semicolon, lexeme: ";".to_string(), line: 4 },
        Token { typ: EOF, lexeme: "".to_string(), line: 4 },
    ];
    assert!(errs.len() == 0);
    assert_eq!(tokens, &expected);
}

#[test]
fn unterminated_string_error() {
    is_expected(
        " var parser = \"working\" ;",
        vec![
            ("var", Var),
            ("parser", Identifier),
            ("=", Equal),
            ("\"working\"", TokenType::String("working".to_string())),
            (";", Semicolon),
        ],
    );
    let s = scan(" var parser = \"notworking ; nothing after unterminated quotes should get reached");
    let (tokens, errs) = s.results();
    let expected = fake_data(vec![("var", Var), ("parser", Identifier), ("=", Equal)]);

    assert_eq!(1, errs.len());
    assert_eq!(tokens, &expected);
}

#[test]
fn unexpected_character_error() {
    let s = scan("#? v_a_r_ok _varNotOk");
    let (_tokens, errs) = s.results();
    assert_eq!(3, errs.len());
}

#[test]
fn scanning_stops_at_each_number() {
    let mut s = new_scanner("1 + 22.5;");
    assert!(!s.is_finished());
    assert_eq!(s.pending_number(), Some("1".to_string()));
    assert_eq!(s.results().0.len(), 0);
    s.supply_number(1.0f64.to_bits());
    assert_eq!(s.pending_number(), Some("22.5".to_string()));
    assert_eq!(s.results().0.len(), 2);
    s.supply_number(22.5f64.to_bits());
    assert!(s.is_finished());
    assert_eq!(s.pending_number(), None);
    let (tokens, _) = s.results();
    assert_eq!(
        tokens,
        &fake_data(vec![("1", number(1.0)), ("+", Plus), ("22.5", number(22.5)), (";", Semicolon)])
    );
}

#[test]
fn supplying_without_a_pending_number_changes_nothing() {
    let mut s = new_scanner("a;");
    assert!(s.is_finished());
    s.supply_number(7);
    assert_eq!(s.results().0, &fake_data(vec![("a", Identifier), (";", Semicolon)]));
}

#[test]
fn a_point_needs_a_digit_after_it() {
    is_expected("1.", vec![("1", number(1.0)), (".", Dot)]);
    is_expected("1.x", vec![("1", number(1.0)), (".", Dot), ("x", Identifier)]);
    is_expected("1.5.2", vec![("1.5", number(1.5)), (".", Dot), ("2", number(2.0))]);
}

#[test]
fn every_keyword_has_its_type() {
    let words = vec![
        ("and", TokenType::And),
        ("class", TokenType::Class),
        ("else", TokenType::Else),
        ("false", TokenType::False),
        ("for", TokenType::For),
        ("fun", TokenType::Fun),
        ("if", TokenType::If),
        ("nil", TokenType::Nil),
        ("or", TokenType::Or),
        ("print", TokenType::Print),
        ("return", TokenType::Return),
        ("super", TokenType::Super),
        ("this", TokenType::This),
        ("true", TokenType::True),
        ("var", TokenType::Var),
        ("while", TokenType::While),
    ];
    for (word, typ) in words {
        is_expected(word, vec![(word, typ)]);
    }
    is_expected("android", vec![("android", Identifier)]);
    is_expected("x1_y", vec![("x1_y", Identifier)]);
}

#[test]
fn strings_count_their_lines() {
    let s = scan("\"a\nb\" x");
    let (tokens, errs) = s.results();
    assert_eq!(errs.len(), 0);
    assert_eq!(
        tokens,
        &vec![
            Token { typ: TokenType::String("a\nb".to_string()), lexeme: "\"a\nb\"".to_string(), line: 2 },
            Token { typ: Identifier, lexeme: "x".to_string(), line: 2 },
            Token { typ: EOF, lexeme: "".to_string(), line: 2 },
        ]
    );
}

#[test]
fn lexer_errors_carry_message_and_line() {
    let s = scan("\n#");
    let (_, errs) = s.results();
    assert_eq!(errs, vec![Error::Lexer("Unexpected character".to_string(), 2)]);
    let s = scan("\"open");
    let (_, errs) = s.results();
    assert_eq!(errs, vec![Error::Lexer("Unterminated string".to_string(), 1)]);
}

#[test]
fn errors_are_written_with_stage_line_and_message() {
    assert_eq!(
        Error::Lexer("Unexpected character".to_string(), 12).to_string(),
        "Lexer-ERROR in line: 12 : Unexpected character!"
    );
    assert_eq!(Error::Parser("m".to_string(), 0).to_string(), "ParserERROR in line: 0 : m!");
    assert_eq!(
        Error::Interpreter("x".to_string(), 1000).to_string(),
        "Interpreter-ERROR in line: 1000 : x!"
    );
}
