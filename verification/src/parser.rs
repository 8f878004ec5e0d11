//! The parser: a precedence-climbing recursive-descent consumer of the token
//! stream that produces a sequence of expression trees, with one-token
//! lookahead and no backtracking.
//!
//! The grammar, lowest to highest binding strength, each level folding
//! left-associatively:
//!
//! ```text
//! expr        := equality
//! equality    := comparison ( ("==" | "!=") comparison )*
//! comparison  := term ( ("<" | "<=" | ">" | ">=") term )*
//! term        := factor ( ("+" | "-") factor )*
//! factor      := unary ( ("*" | "/") unary )*
//! unary       := ("-" | "!" | "~") unary | primary
//! primary     := literal | "(" expr ")"
//! ```
//!
//! The parser is specified by a recursive model over the token sequence
//! (`parse_expr_at` for one expression, `parse_all_from` for the whole
//! stream); `parse` is proved to return exactly what the model says.
//!
//! Recovery rule: after a failed expression the driver advances one token
//! past the failure point before trying again, so it always terminates and
//! never re-attempts the same token.

pub mod ast;
pub mod diagnostics;

use crate::lexer::token::{Token, TokenKind};
use crate::parser::ast::{
    spec_binary_op_of_token, spec_literal_kind_of_token, spec_unary_op_of_token,
    binary_op_of_token, literal_kind_of_token, unary_op_of_token, ExpressionKind,
};
use crate::parser::diagnostics::{DiagnosticSink, ParseDiagnostic};
use vstd::prelude::*;

verus! {

/// The remaining distance from position `p` to the end of the token stream.
pub open spec fn pos_measure(toks: Seq<Token>, p: nat) -> int {
    if p <= toks.len() {
        toks.len() - p
    } else {
        0
    }
}

/// Clamp a continuation position into `[lo, len]`: a parse of one expression
/// part never moves backwards past `lo` and never runs past the end.
pub open spec fn clamp_pos(lo: nat, q: nat, len: nat) -> nat {
    if q < lo {
        lo
    } else if q > len {
        len
    } else {
        q
    }
}

/// The operator set of each binding level: 1 is factor (`*`, `/`), 2 is term
/// (`+`, `-`), 3 is comparison, 4 is equality.
pub open spec fn level_op(k: nat, kind: TokenKind) -> bool {
    if k == 1 {
        kind is Star || kind is Slash
    } else if k == 2 {
        kind is Minus || kind is Plus
    } else if k == 3 {
        kind.spec_is_comparison_op()
    } else if k == 4 {
        kind.spec_is_equality_op()
    } else {
        false
    }
}

/// One primary at position `p`: a literal token, or a parenthesized
/// sub-expression (the opening parenthesis, a recursive expression, and one
/// more consumed token for the closing parenthesis); any other token here is
/// a parse failure that consumes nothing.
pub open spec fn parse_primary_at(toks: Seq<Token>, p: nat) -> (Result<
    ExpressionKind,
    ParseDiagnostic,
>, nat)
    decreases pos_measure(toks, p), 0int,
{
    if p < toks.len() {
        match toks[p as int].kind {
            TokenKind::Literal(lit) => (
                Ok(ExpressionKind::Literal(spec_literal_kind_of_token(lit))),
                p + 1,
            ),
            TokenKind::OpenParen => {
                let (r, q) = parse_expr_at(toks, p + 1);
                match r {
                    Ok(e) => {
                        let q2: nat = if q < toks.len() {
                            q + 1
                        } else {
                            q
                        };
                        (Ok(ExpressionKind::Grouping(Box::new(e))), q2)
                    },
                    Err(d) => (Err(d), q),
                }
            },
            _ => (Err(ParseDiagnostic::O), p),
        }
    } else {
        (Err(ParseDiagnostic::O), p)
    }
}

/// One unary at position `p`: right-recursive, so a prefix operator wraps a
/// recursively parsed unary, and anything else is a primary.
pub open spec fn parse_unary_at(toks: Seq<Token>, p: nat) -> (Result<
    ExpressionKind,
    ParseDiagnostic,
>, nat)
    decreases pos_measure(toks, p), 1int,
{
    if p < toks.len() && toks[p as int].kind.spec_is_unary_op() {
        let op = spec_unary_op_of_token(toks[p as int].kind);
        let (r, q) = parse_unary_at(toks, p + 1);
        match r {
            Ok(e) => (Ok(ExpressionKind::Unary { operator: op, operand: Box::new(e) }), q),
            Err(d) => (Err(d), q),
        }
    } else {
        parse_primary_at(toks, p)
    }
}

/// One expression of binding level `k` at position `p`: one operand of the
/// next-higher level, then the level's operators folded left-associatively by
/// `parse_binary_loop_at`. Level 0 is a unary.
pub open spec fn parse_binary_at(toks: Seq<Token>, p: nat, k: nat) -> (Result<
    ExpressionKind,
    ParseDiagnostic,
>, nat)
    decreases pos_measure(toks, p), 2 * k + 3,
{
    if k == 0 {
        parse_unary_at(toks, p)
    } else if p >= toks.len() {
        (Err(ParseDiagnostic::O), p)
    } else {
        let (r, q) = parse_binary_at(toks, p, (k - 1) as nat);
        match r {
            Ok(e) => parse_binary_loop_at(toks, clamp_pos(p, q, toks.len()), e, k),
            Err(d) => (Err(d), q),
        }
    }
}

/// The left-associative fold of level `k` from position `q` on, with `acc`
/// the expression parsed so far: as long as the next token is one of the
/// level's operators, consume it, parse one more operand of the next-higher
/// level, and fold the running result into a binary node.
pub open spec fn parse_binary_loop_at(toks: Seq<Token>, q: nat, acc: ExpressionKind, k: nat) -> (
    Result<ExpressionKind, ParseDiagnostic>,
    nat,
)
    decreases pos_measure(toks, q), 2 * k + 2,
{
    if q < toks.len() && level_op(k, toks[q as int].kind) {
        let op = spec_binary_op_of_token(toks[q as int].kind);
        let (r, q2) = parse_binary_at(toks, q + 1, (k - 1) as nat);
        match r {
            Ok(rhs) => parse_binary_loop_at(
                toks,
                clamp_pos(q + 1, q2, toks.len()),
                ExpressionKind::Binary { lhs: Box::new(acc), operator: op, rhs: Box::new(rhs) },
                k,
            ),
            Err(d) => (Err(d), q2),
        }
    } else {
        (Ok(acc), q)
    }
}

/// One whole expression at position `p`: the lowest binding level, equality.
pub open spec fn parse_expr_at(toks: Seq<Token>, p: nat) -> (Result<
    ExpressionKind,
    ParseDiagnostic,
>, nat)
    decreases pos_measure(toks, p), 12int,
{
    parse_binary_at(toks, p, 4)
}

/// Whether the driver is done at position `p`: the end-of-file token is
/// reached, or the stream is exhausted without one.
pub open spec fn spec_at_end(toks: Seq<Token>, p: nat) -> bool {
    p >= toks.len() || toks[p as int].kind is EoF
}

/// The complete parse of the token stream from position `p` on: one
/// expression per top-level expression, in source order, and the diagnostics
/// recorded along the way. After a failed expression the driver advances one
/// token past the failure point (the recovery rule) and tries again.
pub open spec fn parse_all_from(toks: Seq<Token>, p: nat) -> (Seq<ExpressionKind>, Seq<
    ParseDiagnostic,
>)
    decreases pos_measure(toks, p),
{
    if spec_at_end(toks, p) {
        (Seq::<ExpressionKind>::empty(), Seq::<ParseDiagnostic>::empty())
    } else {
        let (r, q) = parse_expr_at(toks, p);
        match r {
            Ok(e) => {
                let rest = parse_all_from(toks, clamp_pos(p + 1, q, toks.len()));
                (seq![e] + rest.0, rest.1)
            },
            Err(d) => {
                let rest = parse_all_from(toks, clamp_pos(p + 1, q + 1, toks.len()));
                (rest.0, seq![d] + rest.1)
            },
        }
    }
}

/// A malformed expression is reported, not swallowed: where an expression is
/// owed and its parse fails, the driver records at least one diagnostic.
pub proof fn lemma_parse_failure_reported(toks: Seq<Token>, p: nat)
    requires
        !spec_at_end(toks, p),
        parse_expr_at(toks, p).0 is Err,
    ensures
        parse_all_from(toks, p).1.len() > 0,
{
}

/// The cursor over the token stream.
struct Parser {
    /// The tokens outputted by the lexer.
    tokens: Vec<Token>,
    /// The index of the next unconsumed token.
    pos: usize,
}

impl Parser {
    /// The cursor is inside the token stream.
    spec fn wf(self) -> bool {
        self.pos <= self.tokens@.len()
    }

    fn new(tokens: Vec<Token>) -> (p: Parser)
        ensures
            p.wf(),
            p.tokens@ == tokens@,
            p.pos == 0,
    {
        Parser { tokens, pos: 0 }
    }

    /// Peek the next token.
    fn peek(&self) -> (r: Option<Token>)
        requires
            self.wf(),
        ensures
            r == (if self.pos < self.tokens@.len() {
                Some(self.tokens@[self.pos as int])
            } else {
                None::<Token>
            }),
    {
        if self.pos < self.tokens.len() {
            Some(self.tokens[self.pos])
        } else {
            None
        }
    }

    /// Advance to the next token.
    fn advance(&mut self) -> (r: Option<Token>)
        requires
            old(self).wf(),
        ensures
            final(self).tokens@ == old(self).tokens@,
            final(self).wf(),
            r == (if old(self).pos < old(self).tokens@.len() {
                Some(old(self).tokens@[old(self).pos as int])
            } else {
                None::<Token>
            }),
            final(self).pos as int == (if old(self).pos < old(self).tokens@.len() {
                old(self).pos + 1
            } else {
                old(self).pos as int
            }),
    {
        if self.pos < self.tokens.len() {
            let t = self.tokens[self.pos];
            self.pos = self.pos + 1;
            Some(t)
        } else {
            None
        }
    }

    /// Check if the parser has reached the end of file (or exhausted the
    /// stream, which a well-formed lex never produces).
    fn at_end(&self) -> (r: bool)
        requires
            self.wf(),
        ensures
            r == spec_at_end(self.tokens@, self.pos as nat),
    {
        self.pos >= self.tokens.len() || self.tokens[self.pos].kind == TokenKind::EoF
    }

    fn parse_primary(&mut self) -> (r: Result<ExpressionKind, ParseDiagnostic>)
        requires
            old(self).wf(),
        ensures
            final(self).tokens@ == old(self).tokens@,
            final(self).wf(),
            old(self).pos <= final(self).pos,
            r is Ok ==> old(self).pos < final(self).pos,
            (r, final(self).pos as nat) == parse_primary_at(
                old(self).tokens@,
                old(self).pos as nat,
            ),
        decreases old(self).tokens@.len() - old(self).pos, 0int,
    {
        match self.peek() {
            Some(t) => {
                match t.kind {
                    TokenKind::Literal(lit) => {
                        let _ = self.advance();
                        Ok(ExpressionKind::Literal(literal_kind_of_token(lit)))
                    },
                    TokenKind::OpenParen => {
                        let _ = self.advance();
                        let e = match self.parse_expr() {
                            Ok(e) => e,
                            Err(d) => {
                                return Err(d);
                            },
                        };
                        let _ = self.advance();
                        Ok(ExpressionKind::Grouping(Box::new(e)))
                    },
                    _ => Err(ParseDiagnostic::O),
                }
            },
            None => Err(ParseDiagnostic::O),
        }
    }

    fn parse_unary(&mut self) -> (r: Result<ExpressionKind, ParseDiagnostic>)
        requires
            old(self).wf(),
        ensures
            final(self).tokens@ == old(self).tokens@,
            final(self).wf(),
            old(self).pos <= final(self).pos,
            r is Ok ==> old(self).pos < final(self).pos,
            (r, final(self).pos as nat) == parse_unary_at(old(self).tokens@, old(self).pos as nat),
        decreases old(self).tokens@.len() - old(self).pos, 1int,
    {
        let go = match self.peek() {
            Some(t) => t.kind.is_unary_op(),
            None => false,
        };
        if go {
            let t = self.advance().unwrap();
            let operator = unary_op_of_token(t.kind);
            let operand = match self.parse_unary() {
                Ok(e) => e,
                Err(d) => {
                    return Err(d);
                },
            };
            Ok(ExpressionKind::Unary { operator, operand: Box::new(operand) })
        } else {
            self.parse_primary()
        }
    }

    fn parse_factor(&mut self) -> (r: Result<ExpressionKind, ParseDiagnostic>)
        requires
            old(self).wf(),
        ensures
            final(self).tokens@ == old(self).tokens@,
            final(self).wf(),
            old(self).pos <= final(self).pos,
            r is Ok ==> old(self).pos < final(self).pos,
            (r, final(self).pos as nat) == parse_binary_at(
                old(self).tokens@,
                old(self).pos as nat,
                1,
            ),
        decreases old(self).tokens@.len() - old(self).pos, 2int,
    {
        let ghost toks = self.tokens@;
        let ghost p0 = self.pos as nat;
        proof {
            assert(parse_binary_at(toks, p0, 0) == parse_unary_at(toks, p0));
        }
        let mut expr = match self.parse_unary() {
            Ok(e) => e,
            Err(d) => {
                return Err(d);
            },
        };
        loop
            invariant_except_break
                self.wf(),
                self.tokens@ == toks,
                old(self).tokens@ == toks,
                old(self).pos == p0,
                p0 < self.pos,
                parse_binary_at(toks, p0, 1) == parse_binary_loop_at(
                    toks,
                    self.pos as nat,
                    expr,
                    1,
                ),
            ensures
                self.wf(),
                self.tokens@ == toks,
                p0 < self.pos,
                parse_binary_at(toks, p0, 1) == (Ok::<ExpressionKind, ParseDiagnostic>(expr), self.pos as nat),
            decreases toks.len() - self.pos,
        {
            let cont = match self.peek() {
                Some(t) => t.kind == TokenKind::Star || t.kind == TokenKind::Slash,
                None => false,
            };
            if !cont {
                break ;
            }
            let t = self.advance().unwrap();
            let operator = binary_op_of_token(t.kind);
            proof {
                assert(parse_binary_at(toks, self.pos as nat, 0) == parse_unary_at(
                    toks,
                    self.pos as nat,
                ));
            }
            let rhs = match self.parse_unary() {
                Ok(e) => e,
                Err(d) => {
                    return Err(d);
                },
            };
            expr = ExpressionKind::Binary { lhs: Box::new(expr), operator, rhs: Box::new(rhs) };
        }
        Ok(expr)
    }

    fn parse_term(&mut self) -> (r: Result<ExpressionKind, ParseDiagnostic>)
        requires
            old(self).wf(),
        ensures
            final(self).tokens@ == old(self).tokens@,
            final(self).wf(),
            old(self).pos <= final(self).pos,
            r is Ok ==> old(self).pos < final(self).pos,
            (r, final(self).pos as nat) == parse_binary_at(
                old(self).tokens@,
                old(self).pos as nat,
                2,
            ),
        decreases old(self).tokens@.len() - old(self).pos, 3int,
    {
        let ghost toks = self.tokens@;
        let ghost p0 = self.pos as nat;
        let mut expr = match self.parse_factor() {
            Ok(e) => e,
            Err(d) => {
                return Err(d);
            },
        };
        loop
            invariant_except_break
                self.wf(),
                self.tokens@ == toks,
                old(self).tokens@ == toks,
                old(self).pos == p0,
                p0 < self.pos,
                parse_binary_at(toks, p0, 2) == parse_binary_loop_at(
                    toks,
                    self.pos as nat,
                    expr,
                    2,
                ),
            ensures
                self.wf(),
                self.tokens@ == toks,
                p0 < self.pos,
                parse_binary_at(toks, p0, 2) == (Ok::<ExpressionKind, ParseDiagnostic>(expr), self.pos as nat),
            decreases toks.len() - self.pos,
        {
            let cont = match self.peek() {
                Some(t) => t.kind == TokenKind::Minus || t.kind == TokenKind::Plus,
                None => false,
            };
            if !cont {
                break ;
            }
            let t = self.advance().unwrap();
            let operator = binary_op_of_token(t.kind);
            let rhs = match self.parse_factor() {
                Ok(e) => e,
                Err(d) => {
                    return Err(d);
                },
            };
            expr = ExpressionKind::Binary { lhs: Box::new(expr), operator, rhs: Box::new(rhs) };
        }
        Ok(expr)
    }

    fn parse_comparison(&mut self) -> (r: Result<ExpressionKind, ParseDiagnostic>)
        requires
            old(self).wf(),
        ensures
            final(self).tokens@ == old(self).tokens@,
            final(self).wf(),
            old(self).pos <= final(self).pos,
            r is Ok ==> old(self).pos < final(self).pos,
            (r, final(self).pos as nat) == parse_binary_at(
                old(self).tokens@,
                old(self).pos as nat,
                3,
            ),
        decreases old(self).tokens@.len() - old(self).pos, 4int,
    {
        let ghost toks = self.tokens@;
        let ghost p0 = self.pos as nat;
        let mut expr = match self.parse_term() {
            Ok(e) => e,
            Err(d) => {
                return Err(d);
            },
        };
        loop
            invariant_except_break
                self.wf(),
                self.tokens@ == toks,
                old(self).tokens@ == toks,
                old(self).pos == p0,
                p0 < self.pos,
                parse_binary_at(toks, p0, 3) == parse_binary_loop_at(
                    toks,
                    self.pos as nat,
                    expr,
                    3,
                ),
            ensures
                self.wf(),
                self.tokens@ == toks,
                p0 < self.pos,
                parse_binary_at(toks, p0, 3) == (Ok::<ExpressionKind, ParseDiagnostic>(expr), self.pos as nat),
            decreases toks.len() - self.pos,
        {
            let cont = match self.peek() {
                Some(t) => t.kind.is_comparison_op(),
                None => false,
            };
            if !cont {
                break ;
            }
            let t = self.advance().unwrap();
            let operator = binary_op_of_token(t.kind);
            let rhs = match self.parse_term() {
                Ok(e) => e,
                Err(d) => {
                    return Err(d);
                },
            };
            expr = ExpressionKind::Binary { lhs: Box::new(expr), operator, rhs: Box::new(rhs) };
        }
        Ok(expr)
    }

    fn parse_equality(&mut self) -> (r: Result<ExpressionKind, ParseDiagnostic>)
        requires
            old(self).wf(),
        ensures
            final(self).tokens@ == old(self).tokens@,
            final(self).wf(),
            old(self).pos <= final(self).pos,
            r is Ok ==> old(self).pos < final(self).pos,
            (r, final(self).pos as nat) == parse_binary_at(
                old(self).tokens@,
                old(self).pos as nat,
                4,
            ),
        decreases old(self).tokens@.len() - old(self).pos, 5int,
    {
        let ghost toks = self.tokens@;
        let ghost p0 = self.pos as nat;
        let mut expr = match self.parse_comparison() {
            Ok(e) => e,
            Err(d) => {
                return Err(d);
            },
        };
        loop
            invariant_except_break
                self.wf(),
                self.tokens@ == toks,
                old(self).tokens@ == toks,
                old(self).pos == p0,
                p0 < self.pos,
                parse_binary_at(toks, p0, 4) == parse_binary_loop_at(
                    toks,
                    self.pos as nat,
                    expr,
                    4,
                ),
            ensures
                self.wf(),
                self.tokens@ == toks,
                p0 < self.pos,
                parse_binary_at(toks, p0, 4) == (Ok::<ExpressionKind, ParseDiagnostic>(expr), self.pos as nat),
            decreases toks.len() - self.pos,
        {
            let cont = match self.peek() {
                Some(t) => t.kind.is_equality_op(),
                None => false,
            };
            if !cont {
                break ;
            }
            let t = self.advance().unwrap();
            let operator = binary_op_of_token(t.kind);
            let rhs = match self.parse_comparison() {
                Ok(e) => e,
                Err(d) => {
                    return Err(d);
                },
            };
            expr = ExpressionKind::Binary { lhs: Box::new(expr), operator, rhs: Box::new(rhs) };
        }
        Ok(expr)
    }

    /// Parse an expression.
    fn parse_expr(&mut self) -> (r: Result<ExpressionKind, ParseDiagnostic>)
        requires
            old(self).wf(),
        ensures
            final(self).tokens@ == old(self).tokens@,
            final(self).wf(),
            old(self).pos <= final(self).pos,
            r is Ok ==> old(self).pos < final(self).pos,
            (r, final(self).pos as nat) == parse_expr_at(old(self).tokens@, old(self).pos as nat),
        decreases old(self).tokens@.len() - old(self).pos, 6int,
    {
        self.parse_equality()
    }
}

/// Parse the whole token stream: on success the expression trees of the
/// top-level expressions in source order; on failure the non-empty sink of
/// every parse diagnostic found. After a failed expression the parser
/// advances one token past the failure point and tries again.
pub fn parse(tokens: Vec<Token>) -> (r: Result<Vec<ExpressionKind>, DiagnosticSink>)
    ensures
        ({
            let (es, ds) = parse_all_from(tokens@, 0);
            match r {
                Ok(nodes) => ds.len() == 0 && nodes@ == es,
                Err(sink) => ds.len() > 0 && sink@ == ds,
            }
        }),
{
    let ghost toks = tokens@;
    let mut parser = Parser::new(tokens);
    let mut nodes: Vec<ExpressionKind> = Vec::new();
    let mut diagnostics = DiagnosticSink::new();
    while !parser.at_end()
        invariant
            parser.wf(),
            parser.tokens@ == toks,
            nodes@ + parse_all_from(toks, parser.pos as nat).0 == parse_all_from(toks, 0nat).0,
            diagnostics@ + parse_all_from(toks, parser.pos as nat).1 == parse_all_from(
                toks,
                0nat,
            ).1,
        decreases toks.len() - parser.pos,
    {
        let ghost p = parser.pos as nat;
        match parser.parse_expr() {
            Ok(expr) => {
                proof {
                    let rest = parse_all_from(toks, parser.pos as nat);
                    assert(parse_all_from(toks, p).0 =~= seq![expr] + rest.0);
                    assert(nodes@.push(expr) + rest.0 =~= nodes@ + parse_all_from(toks, p).0);
                }
                nodes.push(expr);
            },
            Err(e) => {
                diagnostics.push_diagnostic(e);
                let _ = parser.advance();
                proof {
                    let rest = parse_all_from(toks, parser.pos as nat);
                    assert(parse_all_from(toks, p).1 =~= seq![e] + rest.1);
                    assert(diagnostics@ + rest.1 =~= (diagnostics@.drop_last()) + parse_all_from(
                        toks,
                        p,
                    ).1);
                }
            },
        }
    }
    proof {
        assert(nodes@ =~= nodes@ + parse_all_from(toks, parser.pos as nat).0);
        assert(diagnostics@ =~= diagnostics@ + parse_all_from(toks, parser.pos as nat).1);
    }
    if diagnostics.has_diagnostics() {
        return Err(diagnostics);
    }
    Ok(nodes)
}

} // verus!
