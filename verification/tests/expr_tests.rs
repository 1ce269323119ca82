use clin::lex::{lex, LexError, Tok};
use clin::parse::{parse, BinOp, Expr, Literal, ParseError};

fn num(s: &str) -> Box<Expr> {
    Box::new(Expr::Lit(Literal::Num(s.to_string())))
}

fn path(parts: &[&str]) -> Expr {
    Expr::Path(parts.iter().map(|p| p.to_string()).collect())
}

#[test]
fn lexes_operators_numbers_strings_and_names() {
    assert_eq!(
        lex("a >= 1.5 && !b").unwrap(),
        vec![
            Tok::Ident("a".to_string()),
            Tok::GtEq,
            Tok::Num("1.5".to_string()),
            Tok::AndAnd,
            Tok::Bang,
            Tok::Ident("b".to_string()),
        ]
    );
    assert_eq!(lex("'it\\'s\\n'").unwrap(), vec![Tok::Str("it's\n".to_string())]);
    assert_eq!(
        lex("3.x").unwrap(),
        vec![Tok::Num("3".to_string()), Tok::Dot, Tok::Ident("x".to_string())]
    );
    assert_eq!(lex("   ").unwrap(), Vec::<Tok>::new());
    assert_eq!(lex("café_2").unwrap(), vec![Tok::Ident("café_2".to_string())]);
}

#[test]
fn lex_errors_name_the_fault() {
    assert_eq!(lex("a = b"), Err(LexError::LoneEquals));
    assert_eq!(lex("a & b"), Err(LexError::LoneAmpersand));
    assert_eq!(lex("a | b"), Err(LexError::LonePipe));
    assert_eq!(lex("\"open"), Err(LexError::UnterminatedString));
    assert_eq!(lex("a # b"), Err(LexError::UnexpectedChar('#')));
}

#[test]
fn precedence_and_associativity() {
    assert_eq!(
        parse("1 + 2 * 3").unwrap(),
        Expr::Binary(BinOp::Add, num("1"), Box::new(Expr::Binary(BinOp::Mul, num("2"), num("3"))))
    );
    assert_eq!(
        parse("1 - 2 - 3").unwrap(),
        Expr::Binary(BinOp::Sub, Box::new(Expr::Binary(BinOp::Sub, num("1"), num("2"))), num("3"))
    );
    assert_eq!(
        parse("-x * 2").unwrap(),
        Expr::Binary(BinOp::Mul, Box::new(Expr::Neg(Box::new(path(&["x"])))), num("2"))
    );
    assert_eq!(
        parse("a || b && c").unwrap(),
        Expr::Binary(
            BinOp::Or,
            Box::new(path(&["a"])),
            Box::new(Expr::Binary(BinOp::And, Box::new(path(&["b"])), Box::new(path(&["c"]))))
        )
    );
}

#[test]
fn paths_calls_and_methods() {
    assert_eq!(parse("file.name").unwrap(), path(&["file", "name"]));
    assert_eq!(
        parse("f(1, x)").unwrap(),
        Expr::Call("f".to_string(), vec![Expr::Lit(Literal::Num("1".to_string())), path(&["x"])])
    );
    assert_eq!(
        parse("tags.contains('a')").unwrap(),
        Expr::Method(
            Box::new(path(&["tags"])),
            "contains".to_string(),
            vec![Expr::Lit(Literal::Str("a".to_string()))]
        )
    );
    assert_eq!(parse("(1).length").unwrap(), Expr::Method(num("1"), "length".to_string(), vec![]));
    assert_eq!(parse("true").unwrap(), Expr::Lit(Literal::Bool(true)));
    assert_eq!(parse("null").unwrap(), Expr::Lit(Literal::Null));
}

#[test]
fn parse_errors_name_the_fault() {
    assert_eq!(parse("1 +"), Err(ParseError::UnexpectedEof));
    assert_eq!(parse("(1"), Err(ParseError::ExpectedRParen(None)));
    assert_eq!(parse(")"), Err(ParseError::UnexpectedToken(Tok::RParen)));
    assert_eq!(parse("a.("), Err(ParseError::ExpectedIdentAfterDot(Some(Tok::LParen))));
    assert_eq!(
        parse("f(1 2)"),
        Err(ParseError::ExpectedCommaOrRParen(Some(Tok::Num("2".to_string()))))
    );
    assert_eq!(parse("a = b"), Err(ParseError::Lex(LexError::LoneEquals)));
}
