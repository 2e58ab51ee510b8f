use lox::scanner::{scan_source, Scanner, ScannerError, Token};

fn kinds(src: &str) -> Vec<Token> {
    scan_source(src.to_string()).0
}

fn errors(src: &str) -> Vec<ScannerError> {
    scan_source(src.to_string()).1
}

#[test]
fn number_literal_is_parseable() {
    let tokens = kinds("var foo = 2");
    match &tokens[3] {
        Token::Number(digits) => assert_eq!(digits.parse::<f32>().unwrap(), 2.0),
        other => panic!("expected a number, got {:?}", other),
    }
}

#[test]
fn operators_with_and_without_equal() {
    assert_eq!(
        kinds("! != = == < <= > >="),
        vec![
            Token::Bang,
            Token::BangEqual,
            Token::Equal,
            Token::EqualEqual,
            Token::Less,
            Token::LessEqual,
            Token::Greater,
            Token::GreaterEqual,
            Token::Eof,
        ]
    );
    assert_eq!(kinds("a==b"), vec![
        Token::Identifier("a".into()),
        Token::EqualEqual,
        Token::Identifier("b".into()),
        Token::Eof,
    ]);
    assert_eq!(kinds("==="), vec![Token::EqualEqual, Token::Equal, Token::Eof]);
}

#[test]
fn punctuation_tokens() {
    assert_eq!(
        kinds("(){},.-+;*/"),
        vec![
            Token::LeftParen,
            Token::RightParen,
            Token::LeftBrace,
            Token::RightBrace,
            Token::Comma,
            Token::Dot,
            Token::Minus,
            Token::Plus,
            Token::SemiColon,
            Token::Star,
            Token::Slash,
            Token::Eof,
        ]
    );
}

#[test]
fn number_with_fraction() {
    assert_eq!(kinds("12.50"), vec![Token::Number("12.50".into()), Token::Eof]);
    assert!(errors("12.50").is_empty());
}

#[test]
fn number_then_dot() {
    let (tokens, errs) = scan_source("1234.".to_string());
    assert_eq!(tokens, vec![Token::Number("1234".into()), Token::Dot, Token::Eof]);
    assert_eq!(errs, vec![ScannerError::InvalidNumber(1)]);
    assert_eq!(
        kinds("7.foo"),
        vec![Token::Number("7".into()), Token::Dot, Token::Identifier("foo".into()), Token::Eof]
    );
}

#[test]
fn unterminated_string_reports_start_line() {
    let mut scanner = Scanner::new("\n\"abc\ndef".to_string());
    let tokens = scanner.scan();
    assert_eq!(tokens, vec![Token::Eof]);
    assert_eq!(scanner.errors(), &vec![ScannerError::UnterminatedString(2)]);
    assert_eq!(scanner.lines(), &vec![3]);
}

#[test]
fn multi_line_string_counts_lines() {
    let mut scanner = Scanner::new("\"a\nb\" x".to_string());
    let tokens = scanner.scan();
    assert_eq!(
        tokens,
        vec![Token::String("a\nb".into()), Token::Identifier("x".into()), Token::Eof]
    );
    assert_eq!(scanner.lines(), &vec![1, 2, 2]);
    assert!(scanner.errors().is_empty());
}

#[test]
fn string_keeps_backslashes_and_unicode() {
    assert_eq!(kinds("\"a\\n é\""), vec![Token::String("a\\n é".into()), Token::Eof]);
}

#[test]
fn comment_stops_before_newline() {
    let mut scanner = Scanner::new("// note\nvar".to_string());
    let tokens = scanner.scan();
    assert_eq!(tokens, vec![Token::Var, Token::Eof]);
    assert_eq!(scanner.lines(), &vec![2, 2]);
}

#[test]
fn only_comments_and_blanks() {
    let (tokens, errs) = scan_source("  // one\n\t// two\r\n".to_string());
    assert_eq!(tokens, vec![Token::Eof]);
    assert!(errs.is_empty());
}

#[test]
fn keywords_and_identifiers() {
    assert_eq!(
        kinds("and class else false fun for if nil or print return super this true var while"),
        vec![
            Token::And,
            Token::Class,
            Token::Else,
            Token::False,
            Token::Fun,
            Token::For,
            Token::If,
            Token::Nil,
            Token::Or,
            Token::Print,
            Token::Return,
            Token::Super,
            Token::This,
            Token::True,
            Token::Var,
            Token::While,
            Token::Eof,
        ]
    );
    assert_eq!(
        kinds("orchid Var x1"),
        vec![
            Token::Identifier("orchid".into()),
            Token::Identifier("Var".into()),
            Token::Identifier("x1".into()),
            Token::Eof,
        ]
    );
}

#[test]
fn unknown_characters_are_reported() {
    let (tokens, errs) = scan_source("a_b\n@ é".to_string());
    assert_eq!(
        tokens,
        vec![Token::Identifier("a".into()), Token::Identifier("b".into()), Token::Eof]
    );
    assert_eq!(
        errs,
        vec![
            ScannerError::UnknownToken(1),
            ScannerError::UnknownToken(2),
            ScannerError::UnknownToken(2),
        ]
    );
}

#[test]
fn errors_keep_source_order() {
    let errs = errors("#\n1.\n\"x");
    assert_eq!(
        errs,
        vec![
            ScannerError::UnknownToken(1),
            ScannerError::InvalidNumber(2),
            ScannerError::UnterminatedString(3),
        ]
    );
}

#[test]
fn eof_is_last_and_only_once() {
    for src in ["", "x", "\"open", "1.", "@@", "var a = \"s\"; // c"] {
        let tokens = kinds(src);
        assert!(matches!(tokens.last(), Some(Token::Eof)));
        assert_eq!(tokens.iter().filter(|t| matches!(t, Token::Eof)).count(), 1);
    }
}

#[test]
fn fixed_tokens_round_trip() {
    let fixed = vec![
        Token::LeftParen, Token::RightParen, Token::LeftBrace, Token::RightBrace, Token::Comma,
        Token::Dot, Token::Minus, Token::Plus, Token::SemiColon, Token::Star, Token::Slash,
        Token::Bang, Token::BangEqual, Token::Equal, Token::EqualEqual, Token::Greater,
        Token::GreaterEqual, Token::Less, Token::LessEqual, Token::And, Token::Class, Token::Else,
        Token::False, Token::Fun, Token::For, Token::If, Token::Nil, Token::Or, Token::Print,
        Token::Return, Token::Super, Token::This, Token::True, Token::Var, Token::While,
    ];
    for t in fixed {
        let text = t.to_string();
        assert!(!text.is_empty());
        let (tokens, errs) = scan_source(text);
        assert!(errs.is_empty());
        assert_eq!(tokens, vec![t, Token::Eof]);
    }
    assert_eq!(Token::Eof.to_string(), "");
}

#[test]
fn literal_rendering() {
    assert_eq!(Token::String("hi there".into()).to_string(), "\"hi there\"");
    assert_eq!(Token::Identifier("foo".into()).to_string(), "foo");
    assert_eq!(Token::Number("3.25".into()).to_string(), "3.25");
    assert_eq!(Token::While.spelling(), "while");
}

#[test]
fn token_lines_follow_newlines() {
    let mut scanner = Scanner::new("a\n\nb // c\n  (".to_string());
    let tokens = scanner.scan();
    assert_eq!(tokens.len(), 4);
    assert_eq!(scanner.lines(), &vec![1, 3, 4, 4]);
}
