//! The lexer: a single-pass scanner over the source character sequence that
//! produces a token stream, recovering from per-character errors by recording
//! a diagnostic and continuing.
//!
//! The scanner is specified by a recursive model over the character sequence
//! (`scan_token` for one token, `lex_from` for the whole stream); `lex` is
//! proved to return exactly what the model says.

pub mod diagnostics;
pub mod token;
pub mod unicode;

use crate::lexer::diagnostics::{DiagnosticSink, LexDiagnostic};
use crate::lexer::token::{IdentKind, IntegerBase, Keyword, LiteralKind, Token, TokenKind};
use crate::lexer::unicode::{
    is_numeric, is_whitespace, is_xid_continue, is_xid_start, numeric, whitespace, xid_continue,
    xid_start,
};
use crate::span::Span;
use vstd::prelude::*;
use vstd::std_specs::iter::IteratorSpec;

verus! {

/// One step of the scanner: a token or a diagnostic, together with the index
/// of the next unconsumed character.
pub enum ScanStep {
    Lexed { token: Token, next: nat },
    Failed { diag: LexDiagnostic, next: nat },
}

/// The span of a token covering the character index range `[start, end)`.
/// Spans are one-based: the character at index `k` is at position `k + 1`.
pub open spec fn token_span(start: nat, end: nat) -> Span {
    Span { start: (start + 1) as usize, end: (end + 1) as usize }
}

/// The end-of-file token produced once the whole input (of length `n`) is
/// consumed: a zero-length span just past the last position.
pub open spec fn eof_token_at(n: nat) -> Token {
    Token {
        kind: TokenKind::EoF,
        span: Span { start: (n + 2) as usize, end: (n + 2) as usize },
    }
}

/// Whether `c` continues a digit run of the given base; `_` is accepted in
/// prefixed (binary, octal, hexadecimal) runs as a visual separator, while a
/// decimal run accepts any Unicode-numeric character.
pub open spec fn spec_is_base_digit(base: IntegerBase, c: char) -> bool {
    match base {
        IntegerBase::Binary => c == '0' || c == '1' || c == '_',
        IntegerBase::Octal => (48 <= c as u32 && c as u32 <= 55) || c == '_',
        IntegerBase::Decimal => numeric(c),
        IntegerBase::Hexadecimal => (48 <= c as u32 && c as u32 <= 57) || (97 <= c as u32 && c
            as u32 <= 102) || (65 <= c as u32 && c as u32 <= 70) || c == '_',
    }
}

/// Whether `c` continues a digit run of the given base.
#[verifier::when_used_as_spec(spec_is_base_digit)]
pub fn is_base_digit(base: IntegerBase, c: char) -> (r: bool)
    ensures
        r == spec_is_base_digit(base, c),
{
    let u = c as u32;
    match base {
        IntegerBase::Binary => c == '0' || c == '1' || c == '_',
        IntegerBase::Octal => (48 <= u && u <= 55) || c == '_',
        IntegerBase::Decimal => is_numeric(c),
        IntegerBase::Hexadecimal => {
            (48 <= u && u <= 57) || (97 <= u && u <= 102) || (65 <= u && u <= 70) || c == '_'
        },
    }
}

/// The first index at or after `j` that does not continue an identifier
/// (or the end of the input).
pub open spec fn ident_end(s: Seq<char>, j: nat) -> nat
    decreases s.len() - j,
{
    if j < s.len() && xid_continue(s[j as int]) {
        ident_end(s, (j + 1) as nat)
    } else {
        j
    }
}

/// The first index at or after `j` that does not continue a digit run of the
/// given base (or the end of the input).
pub open spec fn digits_end(s: Seq<char>, j: nat, base: IntegerBase) -> nat
    decreases s.len() - j,
{
    if j < s.len() && spec_is_base_digit(base, s[j as int]) {
        digits_end(s, (j + 1) as nat, base)
    } else {
        j
    }
}

/// The first index at or after `j` holding the quote character `q`, if any.
pub open spec fn find_quote(s: Seq<char>, j: nat, q: char) -> Option<nat>
    decreases s.len() - j,
{
    if j >= s.len() {
        None
    } else if s[j as int] == q {
        Some(j)
    } else {
        find_quote(s, (j + 1) as nat, q)
    }
}

/// Whether `s` is exactly the two given characters.
pub open spec fn kw2(s: Seq<char>, c0: char, c1: char) -> bool {
    s.len() == 2 && s[0] == c0 && s[1] == c1
}

/// Whether `s` is exactly the three given characters.
pub open spec fn kw3(s: Seq<char>, c0: char, c1: char, c2: char) -> bool {
    s.len() == 3 && s[0] == c0 && s[1] == c1 && s[2] == c2
}

/// Whether `s` is exactly the four given characters.
pub open spec fn kw4(s: Seq<char>, c0: char, c1: char, c2: char, c3: char) -> bool {
    s.len() == 4 && s[0] == c0 && s[1] == c1 && s[2] == c2 && s[3] == c3
}

/// Whether `s` is exactly the five given characters.
pub open spec fn kw5(s: Seq<char>, c0: char, c1: char, c2: char, c3: char, c4: char) -> bool {
    s.len() == 5 && s[0] == c0 && s[1] == c1 && s[2] == c2 && s[3] == c3 && s[4] == c4
}

/// The fixed, case-sensitive keyword table: the token kind of an identifier
/// with text `s`. A reserved word maps to its keyword, the boolean words map
/// to boolean literals, and everything else is a non-reserved identifier.
pub open spec fn keyword_kind(s: Seq<char>) -> TokenKind {
    if kw4(s, 'p', 'r', 'o', 'c') {
        TokenKind::Ident(IdentKind::Keyword(Keyword::Proc))
    } else if kw3(s, 'l', 'e', 't') {
        TokenKind::Ident(IdentKind::Keyword(Keyword::Let))
    } else if kw4(s, 'v', 'o', 'i', 'd') {
        TokenKind::Ident(IdentKind::Keyword(Keyword::Void))
    } else if kw3(s, 'i', 'n', 't') {
        TokenKind::Ident(IdentKind::Keyword(Keyword::Int))
    } else if kw3(s, 'r', 'e', 't') {
        TokenKind::Ident(IdentKind::Keyword(Keyword::Ret))
    } else if kw5(s, 'f', 'l', 'o', 'a', 't') {
        TokenKind::Ident(IdentKind::Keyword(Keyword::Float))
    } else if kw2(s, 'i', 'f') {
        TokenKind::Ident(IdentKind::Keyword(Keyword::If))
    } else if kw4(s, 'e', 'l', 'i', 'f') {
        TokenKind::Ident(IdentKind::Keyword(Keyword::Elif))
    } else if kw4(s, 'e', 'l', 's', 'e') {
        TokenKind::Ident(IdentKind::Keyword(Keyword::Else))
    } else if kw3(s, 'f', 'o', 'r') {
        TokenKind::Ident(IdentKind::Keyword(Keyword::For))
    } else if kw5(s, 'w', 'h', 'i', 'l', 'e') {
        TokenKind::Ident(IdentKind::Keyword(Keyword::While))
    } else if kw2(s, 'd', 'o') {
        TokenKind::Ident(IdentKind::Keyword(Keyword::Do))
    } else if kw4(s, 'b', 'o', 'o', 'l') {
        TokenKind::Ident(IdentKind::Keyword(Keyword::Bool))
    } else if kw3(s, 's', 't', 'r') {
        TokenKind::Ident(IdentKind::Keyword(Keyword::Str))
    } else if kw4(s, 't', 'r', 'u', 'e') {
        TokenKind::Literal(LiteralKind::Boolean)
    } else if kw5(s, 'f', 'a', 'l', 's', 'e') {
        TokenKind::Literal(LiteralKind::Boolean)
    } else {
        TokenKind::Ident(IdentKind::NonReserved)
    }
}

/// A token of a single character at index `i`.
pub open spec fn single_token(kind: TokenKind, i: nat) -> ScanStep {
    ScanStep::Lexed { token: Token { kind, span: token_span(i, i + 1) }, next: i + 1 }
}

/// Maximal munch for a potentially longer operator beginning at index `i`:
/// if the character after it is `c`, the two-character kind is taken,
/// otherwise the one-character fallback.
pub open spec fn scan_compound(
    s: Seq<char>,
    i: nat,
    c: char,
    if_next: TokenKind,
    fallback: TokenKind,
) -> ScanStep {
    if i + 1 < s.len() && s[i as int + 1] == c {
        ScanStep::Lexed { token: Token { kind: if_next, span: token_span(i, i + 2) }, next: i + 2 }
    } else {
        single_token(fallback, i)
    }
}

/// An identifier beginning at index `i`: all identifier-continue characters
/// after it are taken, and the accumulated text is looked up in the keyword
/// table.
pub open spec fn scan_ident(s: Seq<char>, i: nat) -> ScanStep
    recommends
        i < s.len(),
{
    let e = ident_end(s, i + 1);
    ScanStep::Lexed {
        token: Token { kind: keyword_kind(s.subrange(i as int, e as int)), span: token_span(i, e) },
        next: e,
    }
}

/// A string literal whose opening quote stands at index `i`: the characters
/// up to but excluding the next `"` are the contents. With no closing quote
/// before end of input the consumed region is reported instead.
pub open spec fn scan_string(s: Seq<char>, i: nat) -> ScanStep
    recommends
        i < s.len(),
{
    match find_quote(s, i + 1, '"') {
        Some(j) => ScanStep::Lexed {
            token: Token {
                kind: TokenKind::Literal(LiteralKind::String),
                span: token_span(i, j + 1),
            },
            next: j + 1,
        },
        None => ScanStep::Failed {
            diag: LexDiagnostic::UnterminatedStringLiteral(token_span(i, s.len())),
            next: s.len(),
        },
    }
}

/// A character literal whose opening quote stands at index `i`: zero
/// codepoints between the quotes is empty, more than one is too long, and a
/// missing closing quote before end of input is unterminated; otherwise the
/// token spans exactly the three characters of the literal.
pub open spec fn scan_char_lit(s: Seq<char>, i: nat) -> ScanStep
    recommends
        i < s.len(),
{
    match find_quote(s, i + 1, '\'') {
        Some(j) => {
            if j == i + 1 {
                ScanStep::Failed {
                    diag: LexDiagnostic::EmptyCharacterLiteral(token_span(i, j + 1)),
                    next: j + 1,
                }
            } else if j == i + 2 {
                ScanStep::Lexed {
                    token: Token {
                        kind: TokenKind::Literal(LiteralKind::Character),
                        span: token_span(i, j + 1),
                    },
                    next: j + 1,
                }
            } else {
                ScanStep::Failed {
                    diag: LexDiagnostic::CharacterLiteralTooLong(token_span(i, j + 1)),
                    next: j + 1,
                }
            }
        },
        None => ScanStep::Failed {
            diag: LexDiagnostic::UnterminatedCharacterLiteral(token_span(i, s.len())),
            next: s.len(),
        },
    }
}

/// A numeric literal whose first digit stands at index `i`. A leading `0`
/// followed by `b`, `o` or `x` selects the base and takes the digits valid
/// for it (plus `_`); otherwise decimal digits are taken, and a `.` that is
/// itself followed by a further decimal digit turns the literal into a float.
pub open spec fn scan_number(s: Seq<char>, i: nat) -> ScanStep
    recommends
        i < s.len(),
{
    if s[i as int] == '0' && i + 1 < s.len() && (s[i as int + 1] == 'b' || s[i as int + 1] == 'o'
        || s[i as int + 1] == 'x') {
        let base = if s[i as int + 1] == 'b' {
            IntegerBase::Binary
        } else if s[i as int + 1] == 'o' {
            IntegerBase::Octal
        } else {
            IntegerBase::Hexadecimal
        };
        let e = digits_end(s, i + 2, base);
        ScanStep::Lexed {
            token: Token {
                kind: TokenKind::Literal(LiteralKind::Integer { base }),
                span: token_span(i, e),
            },
            next: e,
        }
    } else {
        let d = digits_end(s, i + 1, IntegerBase::Decimal);
        if d < s.len() && s[d as int] == '.' && d + 1 < s.len() && numeric(s[d as int + 1]) {
            let f = digits_end(s, d + 1, IntegerBase::Decimal);
            ScanStep::Lexed {
                token: Token {
                    kind: TokenKind::Literal(LiteralKind::Float),
                    span: token_span(i, f),
                },
                next: f,
            }
        } else {
            ScanStep::Lexed {
                token: Token {
                    kind: TokenKind::Literal(LiteralKind::Integer { base: IntegerBase::Decimal }),
                    span: token_span(i, d),
                },
                next: d,
            }
        }
    }
}

/// One step of the scanner at index `i`: the token or diagnostic the lexer
/// produces there, skipping whitespace, with end of input yielding the
/// end-of-file token.
pub open spec fn scan_token(s: Seq<char>, i: nat) -> ScanStep
    decreases s.len() - i,
{
    if i >= s.len() {
        ScanStep::Lexed { token: eof_token_at(i), next: i }
    } else {
        let c = s[i as int];
        if c == '(' {
            single_token(TokenKind::OpenParen, i)
        } else if c == ')' {
            single_token(TokenKind::ClosingParen, i)
        } else if c == '{' {
            single_token(TokenKind::OpenCurly, i)
        } else if c == '}' {
            single_token(TokenKind::ClosingCurly, i)
        } else if c == '[' {
            single_token(TokenKind::OpenSquare, i)
        } else if c == ']' {
            single_token(TokenKind::ClosingSquare, i)
        } else if c == ':' {
            single_token(TokenKind::Colon, i)
        } else if c == ';' {
            single_token(TokenKind::Semicolon, i)
        } else if c == '.' {
            single_token(TokenKind::Period, i)
        } else if c == ',' {
            single_token(TokenKind::Comma, i)
        } else if c == '=' {
            scan_compound(s, i, '=', TokenKind::EqualEqual, TokenKind::Equal)
        } else if c == '+' {
            scan_compound(s, i, '=', TokenKind::PlusEqual, TokenKind::Plus)
        } else if c == '-' {
            scan_compound(s, i, '=', TokenKind::MinusEqual, TokenKind::Minus)
        } else if c == '*' {
            scan_compound(s, i, '=', TokenKind::StarEqual, TokenKind::Star)
        } else if c == '/' {
            scan_compound(s, i, '=', TokenKind::SlashEqual, TokenKind::Slash)
        } else if c == '%' {
            scan_compound(s, i, '=', TokenKind::PercentEqual, TokenKind::Percent)
        } else if c == '&' {
            single_token(TokenKind::Ampersand, i)
        } else if c == '|' {
            single_token(TokenKind::Bar, i)
        } else if c == '~' {
            single_token(TokenKind::Tilde, i)
        } else if c == '!' {
            scan_compound(s, i, '=', TokenKind::BangEqual, TokenKind::Bang)
        } else if c == '<' {
            single_token(TokenKind::Lt, i)
        } else if c == '>' {
            single_token(TokenKind::Gt, i)
        } else if c == '"' {
            scan_string(s, i)
        } else if c == '\'' {
            scan_char_lit(s, i)
        } else if xid_start(c) || c == '_' {
            scan_ident(s, i)
        } else if numeric(c) {
            scan_number(s, i)
        } else if whitespace(c) {
            scan_token(s, (i + 1) as nat)
        } else {
            ScanStep::Failed {
                diag: LexDiagnostic::UnexpectedCharacter(
                    c,
                    Span { start: i as usize, end: (i + 1) as usize },
                ),
                next: i + 1,
            }
        }
    }
}

/// The index the stream continues at after a step at index `i` reported
/// `next`: a scan of one token always consumes at least one character and
/// never runs past the end of the input.
pub open spec fn next_scan_pos(i: nat, next: nat, len: nat) -> nat {
    if next <= i {
        i + 1
    } else if next > len {
        len
    } else {
        next
    }
}

/// The complete lex of `s` from index `i` on: the token stream (always ending
/// in exactly one end-of-file token) and the diagnostics recorded along the
/// way, in source order.
pub open spec fn lex_from(s: Seq<char>, i: nat) -> (Seq<Token>, Seq<LexDiagnostic>)
    decreases s.len() - i,
{
    if i >= s.len() {
        (seq![eof_token_at(i)], Seq::<LexDiagnostic>::empty())
    } else {
        match scan_token(s, i) {
            ScanStep::Lexed { token, next } => {
                if token.kind is EoF {
                    (seq![token], Seq::<LexDiagnostic>::empty())
                } else {
                    let rest = lex_from(s, next_scan_pos(i, next, s.len()));
                    (seq![token] + rest.0, rest.1)
                }
            },
            ScanStep::Failed { diag, next } => {
                let rest = lex_from(s, next_scan_pos(i, next, s.len()));
                (rest.0, seq![diag] + rest.1)
            },
        }
    }
}

/// Whether `s` is one of the reserved words of the fixed keyword table.
pub open spec fn reserved_word(s: Seq<char>) -> bool {
    ||| kw4(s, 'p', 'r', 'o', 'c')
    ||| kw3(s, 'l', 'e', 't')
    ||| kw4(s, 'v', 'o', 'i', 'd')
    ||| kw3(s, 'i', 'n', 't')
    ||| kw3(s, 'r', 'e', 't')
    ||| kw5(s, 'f', 'l', 'o', 'a', 't')
    ||| kw2(s, 'i', 'f')
    ||| kw4(s, 'e', 'l', 'i', 'f')
    ||| kw4(s, 'e', 'l', 's', 'e')
    ||| kw3(s, 'f', 'o', 'r')
    ||| kw5(s, 'w', 'h', 'i', 'l', 'e')
    ||| kw2(s, 'd', 'o')
    ||| kw4(s, 'b', 'o', 'o', 'l')
    ||| kw3(s, 's', 't', 'r')
}

/// Whether `s` is one of the two boolean words.
pub open spec fn boolean_word(s: Seq<char>) -> bool {
    kw4(s, 't', 'r', 'u', 'e') || kw5(s, 'f', 'a', 'l', 's', 'e')
}

/// Keyword/identifier partition: the keyword table sends exactly the reserved
/// words to keyword identifiers and the boolean words to boolean literals;
/// every other identifier text is a non-reserved identifier.
pub proof fn lemma_keyword_identifier_partition(s: Seq<char>)
    ensures
        reserved_word(s) <==> keyword_kind(s) matches TokenKind::Ident(IdentKind::Keyword(_)),
        boolean_word(s) <==> keyword_kind(s) == TokenKind::Literal(LiteralKind::Boolean),
        !reserved_word(s) && !boolean_word(s) <==> keyword_kind(s) == TokenKind::Ident(
            IdentKind::NonReserved,
        ),
{
}

/// Maximal munch: at a `=` that is followed by another `=` the scanner takes
/// the single two-character `EqualEqual` token, never `Equal` twice; at a `=`
/// followed by anything else (or by the end of input) it takes `Equal`.
pub proof fn lemma_maximal_munch_equal(s: Seq<char>, i: nat)
    requires
        i < s.len(),
        s[i as int] == '=',
    ensures
        i + 1 < s.len() && s[i as int + 1] == '=' ==> scan_token(s, i) == (ScanStep::Lexed {
            token: Token { kind: TokenKind::EqualEqual, span: token_span(i, i + 2) },
            next: i + 2,
        }),
        !(i + 1 < s.len() && s[i as int + 1] == '=') ==> scan_token(s, i) == (ScanStep::Lexed {
            token: Token { kind: TokenKind::Equal, span: token_span(i, i + 1) },
            next: i + 1,
        }),
{
}

/// An underscore inside a prefixed digit run does not terminate the literal:
/// the run continues past it.
pub proof fn lemma_underscore_continues_run(s: Seq<char>, j: nat, base: IntegerBase)
    requires
        j < s.len(),
        s[j as int] == '_',
        !(base is Decimal),
    ensures
        digits_end(s, j, base) == digits_end(s, j + 1, base),
{
}

/// The only end-of-file token a scan can yield is the canonical one at the
/// end of the input, reached after skipping trailing whitespace.
proof fn lemma_scan_eof(s: Seq<char>, i: nat)
    requires
        i <= s.len(),
    ensures
        match scan_token(s, i) {
            ScanStep::Lexed { token, next } => token.kind is EoF ==> token == eof_token_at(s.len())
                && next == s.len(),
            ScanStep::Failed { .. } => true,
        },
    decreases s.len() - i,
{
    if i < s.len() {
        lemma_scan_eof(s, i + 1);
    }
}

/// Every lex ends in exactly one end-of-file token: the token stream from any
/// index is non-empty, its last token is `EoF` with a zero-length span, and no
/// earlier token is `EoF`.
pub proof fn lemma_lex_ends_in_eof(s: Seq<char>, i: nat)
    ensures
        ({
            let (toks, _diags) = lex_from(s, i);
            &&& toks.len() >= 1
            &&& toks.last().kind is EoF
            &&& toks.last().span.start == toks.last().span.end
            &&& forall|j: int| 0 <= j < toks.len() - 1 ==> !((#[trigger] toks[j]).kind is EoF)
        }),
    decreases s.len() - i,
{
    if i >= s.len() {
    } else {
        let (toks, _diags) = lex_from(s, i);
        match scan_token(s, i) {
            ScanStep::Lexed { token, next } => {
                if token.kind is EoF {
                    lemma_scan_eof(s, i);
                } else {
                    let rest = lex_from(s, next_scan_pos(i, next, s.len()));
                    lemma_lex_ends_in_eof(s, next_scan_pos(i, next, s.len()));
                    assert(toks == seq![token] + rest.0);
                    assert(toks.last() == rest.0.last());
                    assert forall|j: int| 0 <= j < toks.len() - 1 implies !(
                    (#[trigger] toks[j]).kind is EoF) by {
                        if j > 0 {
                            assert(toks[j] == rest.0[j - 1]);
                        }
                    }
                }
            },
            ScanStep::Failed { diag: _, next } => {
                lemma_lex_ends_in_eof(s, next_scan_pos(i, next, s.len()));
            },
        }
    }
}

/// The characters of `source`, in order, as a vector.
fn chars_of(source: &str) -> (v: Vec<char>)
    ensures
        v@ == source@,
{
    let mut it = source.chars();
    let mut v: Vec<char> = Vec::new();
    loop
        invariant_except_break
            v@ + it.remaining() == source@,
        ensures
            v@ == source@,
        decreases source@.len() - v@.len(),
    {
        match it.next() {
            Some(c) => v.push(c),
            None => {
                proof {
                    assert(v@ =~= v@ + it.remaining());
                }
                break ;
            },
        }
        proof {
            assert(v@ + it.remaining() =~= source@);
        }
    }
    v
}

/// Look up the identifier `src[start..end]` in the fixed keyword table.
fn keyword_kind_at(src: &Vec<char>, start: usize, end: usize) -> (k: TokenKind)
    requires
        start <= end && end <= src@.len(),
    ensures
        k == keyword_kind(src@.subrange(start as int, end as int)),
{
    let n = end - start;
    if n == 4 && src[start] == 'p' && src[start + 1] == 'r' && src[start + 2] == 'o' && src[start
        + 3] == 'c' {
        TokenKind::Ident(IdentKind::Keyword(Keyword::Proc))
    } else if n == 3 && src[start] == 'l' && src[start + 1] == 'e' && src[start + 2] == 't' {
        TokenKind::Ident(IdentKind::Keyword(Keyword::Let))
    } else if n == 4 && src[start] == 'v' && src[start + 1] == 'o' && src[start + 2] == 'i'
        && src[start + 3] == 'd' {
        TokenKind::Ident(IdentKind::Keyword(Keyword::Void))
    } else if n == 3 && src[start] == 'i' && src[start + 1] == 'n' && src[start + 2] == 't' {
        TokenKind::Ident(IdentKind::Keyword(Keyword::Int))
    } else if n == 3 && src[start] == 'r' && src[start + 1] == 'e' && src[start + 2] == 't' {
        TokenKind::Ident(IdentKind::Keyword(Keyword::Ret))
    } else if n == 5 && src[start] == 'f' && src[start + 1] == 'l' && src[start + 2] == 'o'
        && src[start + 3] == 'a' && src[start + 4] == 't' {
        TokenKind::Ident(IdentKind::Keyword(Keyword::Float))
    } else if n == 2 && src[start] == 'i' && src[start + 1] == 'f' {
        TokenKind::Ident(IdentKind::Keyword(Keyword::If))
    } else if n == 4 && src[start] == 'e' && src[start + 1] == 'l' && src[start + 2] == 'i'
        && src[start + 3] == 'f' {
        TokenKind::Ident(IdentKind::Keyword(Keyword::Elif))
    } else if n == 4 && src[start] == 'e' && src[start + 1] == 'l' && src[start + 2] == 's'
        && src[start + 3] == 'e' {
        TokenKind::Ident(IdentKind::Keyword(Keyword::Else))
    } else if n == 3 && src[start] == 'f' && src[start + 1] == 'o' && src[start + 2] == 'r' {
        TokenKind::Ident(IdentKind::Keyword(Keyword::For))
    } else if n == 5 && src[start] == 'w' && src[start + 1] == 'h' && src[start + 2] == 'i'
        && src[start + 3] == 'l' && src[start + 4] == 'e' {
        TokenKind::Ident(IdentKind::Keyword(Keyword::While))
    } else if n == 2 && src[start] == 'd' && src[start + 1] == 'o' {
        TokenKind::Ident(IdentKind::Keyword(Keyword::Do))
    } else if n == 4 && src[start] == 'b' && src[start + 1] == 'o' && src[start + 2] == 'o'
        && src[start + 3] == 'l' {
        TokenKind::Ident(IdentKind::Keyword(Keyword::Bool))
    } else if n == 3 && src[start] == 's' && src[start + 1] == 't' && src[start + 2] == 'r' {
        TokenKind::Ident(IdentKind::Keyword(Keyword::Str))
    } else if n == 4 && src[start] == 't' && src[start + 1] == 'r' && src[start + 2] == 'u'
        && src[start + 3] == 'e' {
        TokenKind::Literal(LiteralKind::Boolean)
    } else if n == 5 && src[start] == 'f' && src[start + 1] == 'a' && src[start + 2] == 'l'
        && src[start + 3] == 's' && src[start + 4] == 'e' {
        TokenKind::Literal(LiteralKind::Boolean)
    } else {
        TokenKind::Ident(IdentKind::NonReserved)
    }
}

/// The scanner state: the source characters and a forward-only cursor.
struct Lexer {
    /// The characters of the source code.
    src: Vec<char>,
    /// The index of the next unconsumed character.
    pos: usize,
}

impl Lexer {
    /// The cursor is inside the input, and every span position fits in usize.
    spec fn wf(self) -> bool {
        self.pos <= self.src@.len() && self.src@.len() + 2 <= usize::MAX
    }

    fn new(source: &str) -> (l: Lexer)
        requires
            source@.len() + 2 <= usize::MAX,
        ensures
            l.wf(),
            l.src@ == source@,
            l.pos == 0,
    {
        Lexer { src: chars_of(source), pos: 0 }
    }

    /// Create a new token of the given length ending at the cursor.
    fn create_token(&self, token_kind: TokenKind, token_len: usize) -> (t: Token)
        requires
            self.wf(),
            token_len <= self.pos,
        ensures
            t == (Token {
                kind: token_kind,
                span: Span { start: (self.pos + 1 - token_len) as usize, end: (self.pos + 1) as usize },
            }),
    {
        Token::new(token_kind, Span::new(token_len, self.pos + 1))
    }

    /// Peek the next character in the source.
    fn peek(&self) -> (r: Option<char>)
        requires
            self.wf(),
        ensures
            r == (if self.pos < self.src@.len() {
                Some(self.src@[self.pos as int])
            } else {
                None::<char>
            }),
    {
        if self.pos < self.src.len() {
            Some(self.src[self.pos])
        } else {
            None
        }
    }

    /// Advance to the next character in the source.
    fn advance(&mut self) -> (r: Option<char>)
        requires
            old(self).wf(),
        ensures
            final(self).src@ == old(self).src@,
            final(self).wf(),
            r == (if old(self).pos < old(self).src@.len() {
                Some(old(self).src@[old(self).pos as int])
            } else {
                None::<char>
            }),
            final(self).pos as int == (if old(self).pos < old(self).src@.len() {
                old(self).pos + 1
            } else {
                old(self).pos as int
            }),
    {
        if self.pos < self.src.len() {
            let c = self.src[self.pos];
            self.pos = self.pos + 1;
            Some(c)
        } else {
            None
        }
    }

    /// Check if the next character is a specified character, returning whether
    /// it was consumed or not.
    fn next_is(&mut self, next: char) -> (r: bool)
        requires
            old(self).wf(),
        ensures
            final(self).src@ == old(self).src@,
            final(self).wf(),
            r == (old(self).pos < old(self).src@.len() && old(self).src@[old(self).pos as int]
                == next),
            final(self).pos as int == (if r {
                old(self).pos + 1
            } else {
                old(self).pos as int
            }),
    {
        if self.pos < self.src.len() && self.src[self.pos] == next {
            self.pos = self.pos + 1;
            true
        } else {
            false
        }
    }

    /// Check if the end of the source has been reached.
    fn at_end(&self) -> (r: bool)
        requires
            self.wf(),
        ensures
            r == (self.pos == self.src@.len()),
    {
        self.pos == self.src.len()
    }

    /// Lex a potentially longer operator: the character just consumed begins
    /// it, and one character of lookahead decides between the two kinds.
    fn lex_potentially_longer_operator(
        &mut self,
        check_next: char,
        if_next: TokenKind,
        fallback: TokenKind,
    ) -> (t: Token)
        requires
            old(self).wf(),
            1 <= old(self).pos,
        ensures
            final(self).src@ == old(self).src@,
            final(self).wf(),
            old(self).pos <= final(self).pos,
            scan_compound(
                old(self).src@,
                (old(self).pos - 1) as nat,
                check_next,
                if_next,
                fallback,
            ) == (ScanStep::Lexed { token: t, next: final(self).pos as nat }),
    {
        if self.next_is(check_next) {
            self.create_token(if_next, 2)
        } else {
            self.create_token(fallback, 1)
        }
    }

    /// Consume the run of digits of `base` (with `_`) from the cursor on.
    fn consume_digits(&mut self, base: IntegerBase)
        requires
            old(self).wf(),
        ensures
            final(self).src@ == old(self).src@,
            final(self).wf(),
            old(self).pos <= final(self).pos,
            final(self).pos as nat == digits_end(old(self).src@, old(self).pos as nat, base),
    {
        let ghost s = self.src@;
        let ghost j0 = self.pos as nat;
        loop
            invariant_except_break
                self.wf(),
                self.src@ == s,
                j0 <= self.pos <= s.len(),
                digits_end(s, self.pos as nat, base) == digits_end(s, j0, base),
            ensures
                self.wf(),
                self.src@ == s,
                j0 <= self.pos,
                self.pos as nat == digits_end(s, j0, base),
            decreases s.len() - self.pos,
        {
            if self.at_end() {
                break ;
            }
            let c = self.peek().unwrap();
            if !is_base_digit(base, c) {
                break ;
            }
            self.pos = self.pos + 1;
        }
    }

    /// Lex an identifier whose first character stands at `start`.
    fn lex_ident(&mut self, start: usize) -> (t: Token)
        requires
            old(self).wf(),
            start + 1 == old(self).pos,
        ensures
            final(self).src@ == old(self).src@,
            final(self).wf(),
            start < final(self).pos,
            scan_ident(old(self).src@, start as nat) == (ScanStep::Lexed {
                token: t,
                next: final(self).pos as nat,
            }),
    {
        let ghost s = self.src@;
        loop
            invariant_except_break
                self.wf(),
                self.src@ == s,
                start + 1 <= self.pos <= s.len(),
                ident_end(s, self.pos as nat) == ident_end(s, (start + 1) as nat),
            ensures
                self.wf(),
                self.src@ == s,
                start + 1 <= self.pos <= s.len(),
                self.pos as nat == ident_end(s, (start + 1) as nat),
            decreases s.len() - self.pos,
        {
            if self.at_end() {
                break ;
            }
            let c = self.peek().unwrap();
            if !is_xid_continue(c) {
                break ;
            }
            self.pos = self.pos + 1;
        }
        let kind = keyword_kind_at(&self.src, start, self.pos);
        self.create_token(kind, self.pos - start)
    }

    /// Lex a character literal; the opening quote stands at `start`. Escaped
    /// quotes are explicitly unhandled: a `\'` inside the literal is treated
    /// as the closing quote.
    fn lex_char_literal(&mut self, start: usize) -> (r: Result<Token, LexDiagnostic>)
        requires
            old(self).wf(),
            start + 1 == old(self).pos,
        ensures
            final(self).src@ == old(self).src@,
            final(self).wf(),
            start < final(self).pos,
            scan_char_lit(old(self).src@, start as nat) == (match r {
                Ok(t) => ScanStep::Lexed { token: t, next: final(self).pos as nat },
                Err(d) => ScanStep::Failed { diag: d, next: final(self).pos as nat },
            }),
    {
        let ghost s = self.src@;
        self.seek_quote('\'');
        if self.at_end() {
            return Err(
                LexDiagnostic::UnterminatedCharacterLiteral(
                    Span { start: start + 1, end: self.pos + 1 },
                ),
            );
        }
        let j = self.pos;
        self.pos = self.pos + 1;
        let span = Span { start: start + 1, end: j + 2 };
        if j == start + 1 {
            Err(LexDiagnostic::EmptyCharacterLiteral(span))
        } else if j == start + 2 {
            Ok(Token::new(TokenKind::Literal(LiteralKind::Character), span))
        } else {
            Err(LexDiagnostic::CharacterLiteralTooLong(span))
        }
    }

    /// Lex a string literal; the opening quote stands at `start`. Escaped
    /// quotes are explicitly unhandled: a `\"` inside the literal is treated
    /// as the closing quote.
    fn lex_string_literal(&mut self, start: usize) -> (r: Result<Token, LexDiagnostic>)
        requires
            old(self).wf(),
            start + 1 == old(self).pos,
        ensures
            final(self).src@ == old(self).src@,
            final(self).wf(),
            start < final(self).pos,
            scan_string(old(self).src@, start as nat) == (match r {
                Ok(t) => ScanStep::Lexed { token: t, next: final(self).pos as nat },
                Err(d) => ScanStep::Failed { diag: d, next: final(self).pos as nat },
            }),
    {
        let ghost s = self.src@;
        self.seek_quote('"');
        if !self.next_is('"') {
            return Err(
                LexDiagnostic::UnterminatedStringLiteral(
                    Span { start: start + 1, end: self.pos + 1 },
                ),
            );
        }
        Ok(Token::new(TokenKind::Literal(LiteralKind::String), Span { start: start + 1, end: self.pos + 1 }))
    }

    /// Move the cursor to the next occurrence of the quote `q`, or to the end
    /// of the input if there is none.
    fn seek_quote(&mut self, q: char)
        requires
            old(self).wf(),
        ensures
            final(self).src@ == old(self).src@,
            final(self).wf(),
            old(self).pos <= final(self).pos,
            final(self).pos < final(self).src@.len() ==> find_quote(
                old(self).src@,
                old(self).pos as nat,
                q,
            ) == Some(final(self).pos as nat) && old(self).src@[final(self).pos as int] == q,
            final(self).pos == final(self).src@.len() ==> find_quote(
                old(self).src@,
                old(self).pos as nat,
                q,
            ) is None,
    {
        let ghost s = self.src@;
        let ghost j0 = self.pos as nat;
        loop
            invariant_except_break
                self.wf(),
                self.src@ == s,
                j0 <= self.pos <= s.len(),
                find_quote(s, self.pos as nat, q) == find_quote(s, j0, q),
            ensures
                self.wf(),
                self.src@ == s,
                j0 <= self.pos <= s.len(),
                self.pos < s.len() ==> find_quote(s, j0, q) == Some(self.pos as nat) && s[self.pos as int] == q,
                self.pos == s.len() ==> find_quote(s, j0, q) is None,
            decreases s.len() - self.pos,
        {
            if self.at_end() {
                break ;
            }
            let c = self.peek().unwrap();
            if c == q {
                break ;
            }
            self.pos = self.pos + 1;
        }
    }

    /// Lex a numerical literal whose first digit stands at `start`.
    fn lex_numerical_literal(&mut self, start: usize) -> (t: Token)
        requires
            old(self).wf(),
            start + 1 == old(self).pos,
        ensures
            final(self).src@ == old(self).src@,
            final(self).wf(),
            start < final(self).pos,
            scan_number(old(self).src@, start as nat) == (ScanStep::Lexed {
                token: t,
                next: final(self).pos as nat,
            }),
    {
        let ghost s = self.src@;
        let first = self.src[start];
        if first == '0' && self.pos < self.src.len() && (self.src[self.pos] == 'b'
            || self.src[self.pos] == 'o' || self.src[self.pos] == 'x') {
            let b = self.src[self.pos];
            let base = if b == 'b' {
                IntegerBase::Binary
            } else if b == 'o' {
                IntegerBase::Octal
            } else {
                IntegerBase::Hexadecimal
            };
            self.pos = self.pos + 1;
            self.consume_digits(base);
            self.create_token(TokenKind::Literal(LiteralKind::Integer { base }), self.pos - start)
        } else {
            self.consume_digits(IntegerBase::Decimal);
            let ghost d = self.pos as nat;
            if self.pos < self.src.len() && self.src[self.pos] == '.' && self.pos + 1
                < self.src.len() && is_numeric(self.src[self.pos + 1]) {
                self.pos = self.pos + 1;
                self.consume_digits(IntegerBase::Decimal);
                return self.create_token(TokenKind::Literal(LiteralKind::Float), self.pos - start);
            }
            self.create_token(
                TokenKind::Literal(LiteralKind::Integer { base: IntegerBase::Decimal }),
                self.pos - start,
            )
        }
    }

    /// Lex a token: punctuation and operators directly, literals and
    /// identifiers through their own scanners, skipping whitespace, with end
    /// of input yielding the end-of-file token.
    fn lex_token(&mut self) -> (r: Result<Token, LexDiagnostic>)
        requires
            old(self).wf(),
        ensures
            final(self).src@ == old(self).src@,
            final(self).wf(),
            old(self).pos < old(self).src@.len() ==> final(self).pos > old(self).pos,
            old(self).pos <= final(self).pos,
            scan_token(old(self).src@, old(self).pos as nat) == (match r {
                Ok(t) => ScanStep::Lexed { token: t, next: final(self).pos as nat },
                Err(d) => ScanStep::Failed { diag: d, next: final(self).pos as nat },
            }),
        decreases old(self).src@.len() - old(self).pos,
    {
        let start = self.pos;
        let next = self.advance();
        if next.is_none() {
            return Ok(
                Token::new(TokenKind::EoF, Span { start: start + 2, end: start + 2 }),
            );
        }
        let ch = next.unwrap();
        if ch == '(' {
            Ok(self.create_token(TokenKind::OpenParen, 1))
        } else if ch == ')' {
            Ok(self.create_token(TokenKind::ClosingParen, 1))
        } else if ch == '{' {
            Ok(self.create_token(TokenKind::OpenCurly, 1))
        } else if ch == '}' {
            Ok(self.create_token(TokenKind::ClosingCurly, 1))
        } else if ch == '[' {
            Ok(self.create_token(TokenKind::OpenSquare, 1))
        } else if ch == ']' {
            Ok(self.create_token(TokenKind::ClosingSquare, 1))
        } else if ch == ':' {
            Ok(self.create_token(TokenKind::Colon, 1))
        } else if ch == ';' {
            Ok(self.create_token(TokenKind::Semicolon, 1))
        } else if ch == '.' {
            Ok(self.create_token(TokenKind::Period, 1))
        } else if ch == ',' {
            Ok(self.create_token(TokenKind::Comma, 1))
        } else if ch == '=' {
            Ok(self.lex_potentially_longer_operator('=', TokenKind::EqualEqual, TokenKind::Equal))
        } else if ch == '+' {
            Ok(self.lex_potentially_longer_operator('=', TokenKind::PlusEqual, TokenKind::Plus))
        } else if ch == '-' {
            Ok(self.lex_potentially_longer_operator('=', TokenKind::MinusEqual, TokenKind::Minus))
        } else if ch == '*' {
            Ok(self.lex_potentially_longer_operator('=', TokenKind::StarEqual, TokenKind::Star))
        } else if ch == '/' {
            Ok(self.lex_potentially_longer_operator('=', TokenKind::SlashEqual, TokenKind::Slash))
        } else if ch == '%' {
            Ok(self.lex_potentially_longer_operator('=', TokenKind::PercentEqual, TokenKind::Percent))
        } else if ch == '&' {
            Ok(self.create_token(TokenKind::Ampersand, 1))
        } else if ch == '|' {
            Ok(self.create_token(TokenKind::Bar, 1))
        } else if ch == '~' {
            Ok(self.create_token(TokenKind::Tilde, 1))
        } else if ch == '!' {
            Ok(self.lex_potentially_longer_operator('=', TokenKind::BangEqual, TokenKind::Bang))
        } else if ch == '<' {
            Ok(self.create_token(TokenKind::Lt, 1))
        } else if ch == '>' {
            Ok(self.create_token(TokenKind::Gt, 1))
        } else if ch == '"' {
            self.lex_string_literal(start)
        } else if ch == '\'' {
            self.lex_char_literal(start)
        } else if is_xid_start(ch) || ch == '_' {
            Ok(self.lex_ident(start))
        } else if is_numeric(ch) {
            Ok(self.lex_numerical_literal(start))
        } else if is_whitespace(ch) {
            self.lex_token()
        } else {
            Err(LexDiagnostic::UnexpectedCharacter(ch, Span { start, end: start + 1 }))
        }
    }
}

/// Tokenize the whole source text: on success the complete token sequence,
/// which always ends in exactly one end-of-file token; on failure the
/// non-empty sink of every lexical diagnostic found, in source order.
pub fn lex(code: &str) -> (r: Result<Vec<Token>, DiagnosticSink>)
    requires
        code@.len() + 2 <= usize::MAX,
    ensures
        ({
            let (toks, diags) = lex_from(code@, 0);
            match r {
                Ok(tokens) => diags.len() == 0 && tokens@ == toks,
                Err(sink) => diags.len() > 0 && sink@ == diags,
            }
        }),
{
    let mut lexer = Lexer::new(code);
    let mut tokens: Vec<Token> = Vec::new();
    let mut diagnostics = DiagnosticSink::new();
    loop
        invariant_except_break
            lexer.wf(),
            lexer.src@ == code@,
            tokens@ + lex_from(code@, lexer.pos as nat).0 == lex_from(code@, 0nat).0,
            diagnostics@ + lex_from(code@, lexer.pos as nat).1 == lex_from(code@, 0nat).1,
        ensures
            tokens@ == lex_from(code@, 0nat).0,
            diagnostics@ == lex_from(code@, 0nat).1,
        decreases code@.len() - lexer.pos,
    {
        let ghost p = lexer.pos as nat;
        match lexer.lex_token() {
            Ok(token) => {
                proof {
                    assert(tokens@.push(token) =~= tokens@ + seq![token]);
                }
                tokens.push(token);
                if token.kind == TokenKind::EoF {
                    proof {
                        assert(lex_from(code@, p).0 =~= seq![token]);
                        assert(tokens@ =~= lex_from(code@, 0nat).0);
                        assert(diagnostics@ =~= diagnostics@ + lex_from(code@, p).1);
                    }
                    break ;
                }
                proof {
                    let rest = lex_from(code@, lexer.pos as nat);
                    assert(lex_from(code@, p).0 =~= seq![token] + rest.0);
                    assert(tokens@ + rest.0 =~= lex_from(code@, 0nat).0);
                }
            },
            Err(d) => {
                proof {
                    assert(diagnostics@.push(d) =~= diagnostics@ + seq![d]);
                }
                diagnostics.push_diagnostic(d);
                proof {
                    let rest = lex_from(code@, lexer.pos as nat);
                    assert(lex_from(code@, p).1 =~= seq![d] + rest.1);
                    assert(diagnostics@ + rest.1 =~= lex_from(code@, 0nat).1);
                }
            },
        }
    }
    if diagnostics.has_diagnostics() {
        return Err(diagnostics);
    }
    Ok(tokens)
}

} // verus!
