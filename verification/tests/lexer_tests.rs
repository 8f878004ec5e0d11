use matrix_frontend::lexer::diagnostics::LexDiagnostic;
use matrix_frontend::lexer::lex;
use matrix_frontend::lexer::token::IdentKind::{Keyword, NonReserved};
use matrix_frontend::lexer::token::IntegerBase::{self, Binary, Decimal, Hexadecimal, Octal};
use matrix_frontend::lexer::token::Keyword::{
    Bool, Do, Elif, Else, Float, For, If, Int, Let, Proc, Ret, Str, Void, While,
};
use matrix_frontend::lexer::token::LiteralKind::{Boolean, Character, Float as FloatLit, Integer};
use matrix_frontend::lexer::token::LiteralKind::String as StringLit;
use matrix_frontend::lexer::token::Token;
use matrix_frontend::lexer::token::TokenKind::{
    self, Ampersand, Bang, BangEqual, Bar, ClosingCurly, ClosingParen, ClosingSquare, Colon,
    Comma, EoF, Equal, EqualEqual, Gt, Ident, Literal, Lt, Minus, MinusEqual, OpenCurly,
    OpenParen, OpenSquare, Percent, PercentEqual, Period, Plus, PlusEqual, Semicolon, Slash,
    SlashEqual, Star, StarEqual, Tilde,
};
use matrix_frontend::span::Span;

fn tok(kind: TokenKind, start: usize, end: usize) -> Token {
    Token { kind, span: Span { start, end } }
}

#[test]
fn test_lex_delimiters() {
    let source = "(){}[]:;.,";
    let tokens = lex(source).unwrap();

    assert_eq!(
        tokens,
        [
            tok(OpenParen, 1, 2),
            tok(ClosingParen, 2, 3),
            tok(OpenCurly, 3, 4),
            tok(ClosingCurly, 4, 5),
            tok(OpenSquare, 5, 6),
            tok(ClosingSquare, 6, 7),
            tok(Colon, 7, 8),
            tok(Semicolon, 8, 9),
            tok(Period, 9, 10),
            tok(Comma, 10, 11),
            tok(EoF, 12, 12),
        ]
    );
}

#[test]
fn test_lex_operators() {
    let source = "= == + += - -= * *= / /= % %= & | ~ ! != < >";
    let tokens = lex(source).unwrap();

    assert_eq!(
        tokens,
        [
            tok(Equal, 1, 2),
            tok(EqualEqual, 3, 5),
            tok(Plus, 6, 7),
            tok(PlusEqual, 8, 10),
            tok(Minus, 11, 12),
            tok(MinusEqual, 13, 15),
            tok(Star, 16, 17),
            tok(StarEqual, 18, 20),
            tok(Slash, 21, 22),
            tok(SlashEqual, 23, 25),
            tok(Percent, 26, 27),
            tok(PercentEqual, 28, 30),
            tok(Ampersand, 31, 32),
            tok(Bar, 33, 34),
            tok(Tilde, 35, 36),
            tok(Bang, 37, 38),
            tok(BangEqual, 39, 41),
            tok(Lt, 42, 43),
            tok(Gt, 44, 45),
            tok(EoF, 46, 46),
        ]
    );
}

#[test]
fn test_lex_keywords() {
    let source = "proc let void int ret float if elif else for while do";
    let tokens = lex(source).unwrap();

    assert_eq!(
        tokens,
        [
            tok(Ident(Keyword(Proc)), 1, 5),
            tok(Ident(Keyword(Let)), 6, 9),
            tok(Ident(Keyword(Void)), 10, 14),
            tok(Ident(Keyword(Int)), 15, 18),
            tok(Ident(Keyword(Ret)), 19, 22),
            tok(Ident(Keyword(Float)), 23, 28),
            tok(Ident(Keyword(If)), 29, 31),
            tok(Ident(Keyword(Elif)), 32, 36),
            tok(Ident(Keyword(Else)), 37, 41),
            tok(Ident(Keyword(For)), 42, 45),
            tok(Ident(Keyword(While)), 46, 51),
            tok(Ident(Keyword(Do)), 52, 54),
            tok(EoF, 55, 55),
        ]
    );
}

#[test]
fn test_lex_identifiers() {
    let source = "_x y z _foo bar baz";
    let tokens = lex(source).unwrap();

    assert_eq!(
        tokens,
        [
            tok(Ident(NonReserved), 1, 3),
            tok(Ident(NonReserved), 4, 5),
            tok(Ident(NonReserved), 6, 7),
            tok(Ident(NonReserved), 8, 12),
            tok(Ident(NonReserved), 13, 16),
            tok(Ident(NonReserved), 17, 20),
            tok(EoF, 21, 21),
        ]
    );
}

#[test]
fn test_lex_literals() {
    let source = "1 100 0b10000001 0b1000_0001 0xFF 0xAB_CD 0xAB2 0o25 20.0 15.2587 'a' \"hi\"";
    let tokens = lex(source).unwrap();

    assert_eq!(
        tokens,
        [
            tok(Literal(Integer { base: Decimal }), 1, 2),
            tok(Literal(Integer { base: Decimal }), 3, 6),
            tok(Literal(Integer { base: Binary }), 7, 17),
            tok(Literal(Integer { base: Binary }), 18, 29),
            tok(Literal(Integer { base: Hexadecimal }), 30, 34),
            tok(Literal(Integer { base: Hexadecimal }), 35, 42),
            tok(Literal(Integer { base: Hexadecimal }), 43, 48),
            tok(Literal(Integer { base: Octal }), 49, 53),
            tok(Literal(FloatLit), 54, 58),
            tok(Literal(FloatLit), 59, 66),
            tok(Literal(Character), 67, 70),
            tok(Literal(StringLit), 71, 75),
            tok(EoF, 76, 76),
        ]
    );
}

#[test]
fn test_lex_bool_str_keywords_and_boolean_words() {
    let source = "bool str true false";
    let tokens = lex(source).unwrap();

    assert_eq!(
        tokens,
        [
            tok(Ident(Keyword(Bool)), 1, 5),
            tok(Ident(Keyword(Str)), 6, 9),
            tok(Literal(Boolean), 10, 14),
            tok(Literal(Boolean), 15, 20),
            tok(EoF, 21, 21),
        ]
    );
}

#[test]
fn test_lex_empty_input_yields_only_eof() {
    let tokens = lex("").unwrap();
    assert_eq!(tokens, [tok(EoF, 2, 2)]);
    let kinds: Vec<TokenKind> = tokens.iter().map(|t| t.kind).collect();
    assert_eq!(kinds.iter().filter(|k| **k == EoF).count(), 1);
}

#[test]
fn test_lex_maximal_munch() {
    let tokens = lex("==").unwrap();
    assert_eq!(tokens, [tok(EqualEqual, 1, 3), tok(EoF, 4, 4)]);

    let tokens = lex("= =").unwrap();
    assert_eq!(tokens, [tok(Equal, 1, 2), tok(Equal, 3, 4), tok(EoF, 5, 5)]);

    let tokens = lex("=1").unwrap();
    assert_eq!(
        tokens,
        [tok(Equal, 1, 2), tok(Literal(Integer { base: Decimal }), 2, 3), tok(EoF, 4, 4)]
    );
}

#[test]
fn test_lex_numeric_base_detection() {
    let kinds: Vec<TokenKind> = lex("0b1010").unwrap().iter().map(|t| t.kind).collect();
    assert_eq!(kinds, [Literal(Integer { base: Binary }), EoF]);

    let kinds: Vec<TokenKind> = lex("0xFF").unwrap().iter().map(|t| t.kind).collect();
    assert_eq!(kinds, [Literal(Integer { base: Hexadecimal }), EoF]);

    let kinds: Vec<TokenKind> = lex("0o17").unwrap().iter().map(|t| t.kind).collect();
    assert_eq!(kinds, [Literal(Integer { base: Octal }), EoF]);

    let kinds: Vec<TokenKind> = lex("10.5").unwrap().iter().map(|t| t.kind).collect();
    assert_eq!(kinds, [Literal(FloatLit), EoF]);

    let kinds: Vec<TokenKind> = lex("10").unwrap().iter().map(|t| t.kind).collect();
    assert_eq!(kinds, [Literal(Integer { base: Decimal }), EoF]);

    // Underscores inside a digit run do not terminate the literal.
    let tokens = lex("0b10_01").unwrap();
    assert_eq!(tokens, [tok(Literal(Integer { base: Binary }), 1, 8), tok(EoF, 9, 9)]);
}

#[test]
fn test_lex_trailing_dot_is_not_a_float() {
    // The dot is consumed into a float only if a further digit follows it.
    let tokens = lex("10.").unwrap();
    assert_eq!(
        tokens,
        [tok(Literal(Integer { base: Decimal }), 1, 3), tok(Period, 3, 4), tok(EoF, 5, 5)]
    );
}

#[test]
fn test_lex_empty_character_literal() {
    let sink = lex("''").unwrap_err();
    assert!(sink.has_diagnostics());
    assert_eq!(
        *sink.diagnostics(),
        vec![LexDiagnostic::EmptyCharacterLiteral(Span { start: 1, end: 3 })]
    );
}

#[test]
fn test_lex_character_literal_too_long() {
    let sink = lex("'ab'").unwrap_err();
    assert_eq!(
        *sink.diagnostics(),
        vec![LexDiagnostic::CharacterLiteralTooLong(Span { start: 1, end: 5 })]
    );
}

#[test]
fn test_lex_unterminated_character_literal() {
    let sink = lex("'a").unwrap_err();
    assert_eq!(
        *sink.diagnostics(),
        vec![LexDiagnostic::UnterminatedCharacterLiteral(Span { start: 1, end: 3 })]
    );
}

#[test]
fn test_lex_unterminated_string_literal() {
    let sink = lex("\"abc").unwrap_err();
    assert_eq!(
        *sink.diagnostics(),
        vec![LexDiagnostic::UnterminatedStringLiteral(Span { start: 1, end: 5 })]
    );
}

#[test]
fn test_lex_unexpected_character() {
    let sink = lex("#").unwrap_err();
    assert_eq!(
        *sink.diagnostics(),
        vec![LexDiagnostic::UnexpectedCharacter('#', Span { start: 0, end: 1 })]
    );
}

#[test]
fn test_lex_recovers_and_reports_every_error() {
    // Scanning goes on after each error and reports all of them in order.
    let sink = lex("# 1 $").unwrap_err();
    assert_eq!(sink.diagnostics().len(), 2);
    assert!(matches!(sink.diagnostics()[0], LexDiagnostic::UnexpectedCharacter('#', _)));
    assert!(matches!(sink.diagnostics()[1], LexDiagnostic::UnexpectedCharacter('$', _)));
}

#[test]
fn test_lex_unicode_identifiers_and_whitespace() {
    // Identifier starts come from the Unicode identifier-start class; spans
    // count characters, not bytes; tabs and newlines are skipped like spaces.
    let tokens = lex("λx\t αβγ\nδ").unwrap();
    assert_eq!(
        tokens,
        [
            tok(Ident(NonReserved), 1, 3),
            tok(Ident(NonReserved), 5, 8),
            tok(Ident(NonReserved), 9, 10),
            tok(EoF, 11, 11),
        ]
    );
}

#[test]
fn test_diagnostic_codes_messages_and_help() {
    let span = Span { start: 1, end: 3 };
    let d = LexDiagnostic::EmptyCharacterLiteral(span);
    assert_eq!(d.code(), "lexer::empty_character_literal");
    assert_eq!(d.message(), "Empty character literal");
    assert_eq!(d.help(), Some("add a singular codepoint within the single quotes"));
    assert_eq!(d.span(), span);

    let u = LexDiagnostic::UnexpectedCharacter('#', Span { start: 0, end: 1 });
    assert_eq!(u.code(), "lexer::unexpected_character");
    assert_eq!(u.help(), None);
    assert_eq!(u.span(), Span { start: 0, end: 1 });
}

#[test]
fn test_integer_base_radix() {
    assert_eq!(IntegerBase::Binary.radix(), 2);
    assert_eq!(IntegerBase::Octal.radix(), 8);
    assert_eq!(IntegerBase::Decimal.radix(), 10);
    assert_eq!(IntegerBase::Hexadecimal.radix(), 16);
}

#[test]
fn test_token_kind_operator_classes() {
    assert!(Bang.is_unary_op());
    assert!(Minus.is_unary_op());
    assert!(Tilde.is_unary_op());
    assert!(!Plus.is_unary_op());

    assert!(Plus.is_binary_op());
    assert!(EqualEqual.is_binary_op());
    assert!(!Equal.is_binary_op());
    assert!(!Bang.is_binary_op());

    assert!(Lt.is_comparison_op());
    assert!(Gt.is_comparison_op());
    assert!(!EqualEqual.is_comparison_op());

    assert!(EqualEqual.is_equality_op());
    assert!(BangEqual.is_equality_op());
    assert!(!Lt.is_equality_op());
}
