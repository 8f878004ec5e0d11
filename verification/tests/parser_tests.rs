use matrix_frontend::lexer::lex;
use matrix_frontend::parser::ast::BinaryOpKind;
use matrix_frontend::parser::ast::ExpressionKind::{self, Binary, Grouping, Literal, Unary};
use matrix_frontend::parser::ast::LiteralKind;
use matrix_frontend::parser::ast::UnaryOpKind;
use matrix_frontend::parser::parse;

fn parse_source(source: &str) -> Vec<ExpressionKind> {
    parse(lex(source).unwrap()).unwrap()
}

fn int_lit() -> ExpressionKind {
    Literal(LiteralKind::Integer)
}

fn binary(lhs: ExpressionKind, operator: BinaryOpKind, rhs: ExpressionKind) -> ExpressionKind {
    Binary { lhs: Box::new(lhs), operator, rhs: Box::new(rhs) }
}

#[test]
fn test_parse_literal_kinds() {
    assert_eq!(parse_source("1"), [int_lit()]);
    assert_eq!(parse_source("10.5"), [Literal(LiteralKind::Float)]);
    assert_eq!(parse_source("true"), [Literal(LiteralKind::Boolean)]);
    assert_eq!(parse_source("'a'"), [Literal(LiteralKind::Character)]);
    assert_eq!(parse_source("\"hi\""), [Literal(LiteralKind::String)]);
}

#[test]
fn test_parse_precedence_mul_over_add() {
    // 1 + 2 * 3 groups as 1 + (2 * 3).
    assert_eq!(
        parse_source("1 + 2 * 3"),
        [binary(int_lit(), BinaryOpKind::Plus, binary(int_lit(), BinaryOpKind::Mul, int_lit()))]
    );
}

#[test]
fn test_parse_grouping_overrides_precedence() {
    // (1 + 2) * 3 groups as ((1 + 2)) * 3.
    assert_eq!(
        parse_source("(1 + 2) * 3"),
        [binary(
            Grouping(Box::new(binary(int_lit(), BinaryOpKind::Plus, int_lit()))),
            BinaryOpKind::Mul,
            int_lit(),
        )]
    );
}

#[test]
fn test_parse_left_associativity() {
    // 1 - 2 - 3 groups as (1 - 2) - 3, not right-nested.
    assert_eq!(
        parse_source("1 - 2 - 3"),
        [binary(binary(int_lit(), BinaryOpKind::Minus, int_lit()), BinaryOpKind::Minus, int_lit())]
    );
}

#[test]
fn test_parse_unary_right_recursion() {
    // --1 groups as -(-1).
    assert_eq!(
        parse_source("--1"),
        [Unary {
            operator: UnaryOpKind::Neg,
            operand: Box::new(Unary { operator: UnaryOpKind::Neg, operand: Box::new(int_lit()) }),
        }]
    );
}

#[test]
fn test_parse_comparison_and_equality_levels() {
    // 1 + 2 < 3 == true groups as ((1 + 2) < 3) == true.
    assert_eq!(
        parse_source("1 + 2 < 3 == true"),
        [binary(
            binary(binary(int_lit(), BinaryOpKind::Plus, int_lit()), BinaryOpKind::Lt, int_lit()),
            BinaryOpKind::EqualEqual,
            Literal(LiteralKind::Boolean),
        )]
    );
}

#[test]
fn test_parse_multiple_top_level_expressions() {
    assert_eq!(parse_source("1 2 3"), [int_lit(), int_lit(), int_lit()]);
}

#[test]
fn test_parse_empty_stream() {
    assert!(parse_source("").is_empty());
}

#[test]
fn test_parse_malformed_expression_yields_diagnostic() {
    // A bare operator with no operand is reported, and the parser terminates
    // without swallowing the rest of the stream silently.
    let sink = parse(lex("*").unwrap()).unwrap_err();
    assert!(sink.has_diagnostics());
    assert!(sink.diagnostics().len() >= 1);

    let sink = parse(lex("1 + * 2").unwrap()).unwrap_err();
    assert!(sink.has_diagnostics());
}

#[test]
fn test_parse_recovers_after_failure() {
    // After a failed expression the parser advances one token and goes on:
    // both bare operators are reported.
    let sink = parse(lex("* ~").unwrap()).unwrap_err();
    assert_eq!(sink.diagnostics().len(), 2);
}

#[test]
fn test_operator_symbols() {
    assert_eq!(UnaryOpKind::Neg.symbol(), "-");
    assert_eq!(UnaryOpKind::LogNot.symbol(), "!");
    assert_eq!(UnaryOpKind::BwNot.symbol(), "~");
    assert_eq!(BinaryOpKind::Mul.symbol(), "*");
    assert_eq!(BinaryOpKind::ShlEqual.symbol(), "<<=");
    assert_eq!(BinaryOpKind::EqualEqual.symbol(), "==");
    assert_eq!(LiteralKind::Integer.symbol(), "[int]");
    assert_eq!(LiteralKind::Boolean.symbol(), "[bool]");
}
