use emstudio::expr_program::{compile, tokenize, valid_number_text, ExprToken, Instr, ParseFailure, ProgramEnd};
use emstudio::expression::ExprError;

fn shape(ins: &[Instr]) -> Vec<String> {
    ins.iter()
        .map(|i| match i {
            Instr::Number { text, unit } => format!("{text}{unit}"),
            Instr::Var(n) => format!("${n}"),
            Instr::Neg => "neg".to_string(),
            Instr::Add => "+".to_string(),
            Instr::Sub => "-".to_string(),
            Instr::Mul => "*".to_string(),
            Instr::Div => "/".to_string(),
            Instr::Call { name, argc } => format!("{name}/{argc}"),
        })
        .collect()
}

#[test]
fn number_texts_follow_the_float_grammar() {
    for ok in ["1", "2.", ".5", "1.5e-3", "3E+2", "10e9", "0.0"] {
        assert!(valid_number_text(ok), "{ok}");
    }
    for bad in [".", "1.2.3", "1e", "1e+", "e5", "1e5e3", "1e2.5", ""] {
        assert!(!valid_number_text(bad), "{bad}");
    }
}

#[test]
fn tokens_of_an_expression() {
    let ts = tokenize("2.4GHz*($w + l_1)").unwrap();
    assert_eq!(ts.len(), 8);
    match &ts[0] {
        ExprToken::Number { text, unit } => {
            assert_eq!(text, "2.4");
            assert_eq!(unit, "GHz");
        }
        other => panic!("{other:?}"),
    }
    assert!(matches!(ts[1], ExprToken::Star));
    assert!(matches!(ts[2], ExprToken::LParen));
    assert!(matches!(&ts[3], ExprToken::Ident(n) if n == "$w"));
    assert!(matches!(ts[4], ExprToken::Plus));
    assert!(matches!(&ts[5], ExprToken::Ident(n) if n == "l_1"));
    assert!(matches!(ts[6], ExprToken::RParen));
    assert!(matches!(ts[7], ExprToken::Eof));
}

#[test]
fn token_errors() {
    match tokenize("1 + #") {
        Err(ExprError::UnexpectedChar(c, p)) => {
            assert_eq!(c, '#');
            assert_eq!(p, 4);
        }
        other => panic!("{other:?}"),
    }
    match tokenize("1.2.3") {
        Err(ExprError::ParseError(m)) => assert_eq!(m, "invalid number: 1.2.3"),
        other => panic!("{other:?}"),
    }
}

#[test]
fn programs_follow_precedence() {
    let p = compile("2 + 3 * 4").unwrap();
    assert_eq!(shape(&p.instrs), vec!["2", "3", "4", "*", "+"]);
    assert_eq!(p.end, ProgramEnd::Complete);

    let p = compile("(2 + 3) * 4 - 1 / 2").unwrap();
    assert_eq!(shape(&p.instrs), vec!["2", "3", "+", "4", "*", "1", "2", "/", "-"]);

    let p = compile("--x").unwrap();
    assert_eq!(shape(&p.instrs), vec!["$x", "neg", "neg"]);

    let p = compile("max(a, 2mm, sqrt(b))").unwrap();
    assert_eq!(shape(&p.instrs), vec!["$a", "2mm", "$b", "sqrt/1", "max/3"]);
    assert_eq!(p.end, ProgramEnd::Complete);
}

#[test]
fn reading_stops_where_the_expression_breaks() {
    let p = compile("x + )").unwrap();
    assert_eq!(shape(&p.instrs), vec!["$x"]);
    assert_eq!(p.end, ProgramEnd::Failed(ParseFailure::UnexpectedToken(2)));

    let p = compile("(1 + 2").unwrap();
    assert_eq!(shape(&p.instrs), vec!["1", "2", "+"]);
    assert_eq!(p.end, ProgramEnd::Failed(ParseFailure::ExpectedRParen(4)));

    let p = compile("f(1 2)").unwrap();
    assert_eq!(shape(&p.instrs), vec!["1"]);
    assert_eq!(p.end, ProgramEnd::Failed(ParseFailure::ExpectedRParen(3)));

    let p = compile("1 2").unwrap();
    assert_eq!(shape(&p.instrs), vec!["1"]);
    assert_eq!(p.end, ProgramEnd::TrailingTokens);

    let p = compile("").unwrap();
    assert!(p.instrs.is_empty());
    assert_eq!(p.end, ProgramEnd::Failed(ParseFailure::UnexpectedToken(0)));
}
