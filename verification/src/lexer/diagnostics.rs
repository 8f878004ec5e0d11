//! The lexical diagnostic model: a closed set of lexical error kinds, each
//! carrying the offending span, and an ordered sink accumulating the
//! diagnostics of one lexing pass.

use crate::span::Span;
use vstd::prelude::*;

verus! {

/// Diagnostics that can happen within the lexer.
#[derive(Debug, Clone, Copy, PartialEq, Eq, Structural)]
pub enum LexDiagnostic {
    /// A character with no corresponding token, carrying that character.
    UnexpectedCharacter(char, Span),
    /// A character literal with no codepoint between the quotes.
    EmptyCharacterLiteral(Span),
    /// A character literal with no closing quote before end of input.
    UnterminatedCharacterLiteral(Span),
    /// A character literal with more than one codepoint between the quotes.
    CharacterLiteralTooLong(Span),
    /// A string literal with no closing quote before end of input.
    UnterminatedStringLiteral(Span),
}

impl LexDiagnostic {
    /// The stable identifier of this diagnostic.
    pub fn code(&self) -> (r: &'static str)
        ensures
            match self {
                LexDiagnostic::UnexpectedCharacter(..) => r@ == "lexer::unexpected_character"@,
                LexDiagnostic::EmptyCharacterLiteral(..) => r@ == "lexer::empty_character_literal"@,
                LexDiagnostic::UnterminatedCharacterLiteral(..) => r@
                    == "lexer::unterminated_character_literal"@,
                LexDiagnostic::CharacterLiteralTooLong(..) => r@
                    == "lexer::character_lit_one_codepoint"@,
                LexDiagnostic::UnterminatedStringLiteral(..) => r@
                    == "lexer::unterminated_string_literal"@,
            },
    {
        match self {
            LexDiagnostic::UnexpectedCharacter(..) => "lexer::unexpected_character",
            LexDiagnostic::EmptyCharacterLiteral(..) => "lexer::empty_character_literal",
            LexDiagnostic::UnterminatedCharacterLiteral(..) => "lexer::unterminated_character_literal",
            LexDiagnostic::CharacterLiteralTooLong(..) => "lexer::character_lit_one_codepoint",
            LexDiagnostic::UnterminatedStringLiteral(..) => "lexer::unterminated_string_literal",
        }
    }

    /// The human-readable message of this diagnostic.
    pub fn message(&self) -> (r: &'static str)
        ensures
            match self {
                LexDiagnostic::UnexpectedCharacter(..) => r@
                    == "Encountered unexpected character with no corresponding token."@,
                LexDiagnostic::EmptyCharacterLiteral(..) => r@ == "Empty character literal"@,
                LexDiagnostic::UnterminatedCharacterLiteral(..) => r@
                    == "Unterminated character literal. Expected closing quote"@,
                LexDiagnostic::CharacterLiteralTooLong(..) => r@
                    == "Encountered character literal with more than one codepoint"@,
                LexDiagnostic::UnterminatedStringLiteral(..) => r@
                    == "Unterminated string literal. Expected closing quote"@,
            },
    {
        match self {
            LexDiagnostic::UnexpectedCharacter(..) => {
                "Encountered unexpected character with no corresponding token."
            },
            LexDiagnostic::EmptyCharacterLiteral(..) => "Empty character literal",
            LexDiagnostic::UnterminatedCharacterLiteral(..) => {
                "Unterminated character literal. Expected closing quote"
            },
            LexDiagnostic::CharacterLiteralTooLong(..) => {
                "Encountered character literal with more than one codepoint"
            },
            LexDiagnostic::UnterminatedStringLiteral(..) => {
                "Unterminated string literal. Expected closing quote"
            },
        }
    }

    /// The optional remediation hint of this diagnostic.
    pub fn help(&self) -> (r: Option<&'static str>)
        ensures
            match self {
                LexDiagnostic::UnexpectedCharacter(..) => r is None,
                LexDiagnostic::EmptyCharacterLiteral(..) => r is Some && r->0@
                    == "add a singular codepoint within the single quotes"@,
                LexDiagnostic::UnterminatedCharacterLiteral(..) => r is Some && r->0@
                    == "add a closing single quote"@,
                LexDiagnostic::CharacterLiteralTooLong(..) => r is Some && r->0@
                    == "use double quotes if you meant to write a string literal"@,
                LexDiagnostic::UnterminatedStringLiteral(..) => r is Some && r->0@
                    == "add a closing double quote"@,
            },
    {
        match self {
            LexDiagnostic::UnexpectedCharacter(..) => None,
            LexDiagnostic::EmptyCharacterLiteral(..) => {
                Some("add a singular codepoint within the single quotes")
            },
            LexDiagnostic::UnterminatedCharacterLiteral(..) => Some("add a closing single quote"),
            LexDiagnostic::CharacterLiteralTooLong(..) => {
                Some("use double quotes if you meant to write a string literal")
            },
            LexDiagnostic::UnterminatedStringLiteral(..) => Some("add a closing double quote"),
        }
    }

    /// The span the diagnostic points at.
    pub fn span(&self) -> (r: Span)
        ensures
            match self {
                LexDiagnostic::UnexpectedCharacter(_, s) => r == s,
                LexDiagnostic::EmptyCharacterLiteral(s) => r == s,
                LexDiagnostic::UnterminatedCharacterLiteral(s) => r == s,
                LexDiagnostic::CharacterLiteralTooLong(s) => r == s,
                LexDiagnostic::UnterminatedStringLiteral(s) => r == s,
            },
    {
        match self {
            LexDiagnostic::UnexpectedCharacter(_, s) => *s,
            LexDiagnostic::EmptyCharacterLiteral(s) => *s,
            LexDiagnostic::UnterminatedCharacterLiteral(s) => *s,
            LexDiagnostic::CharacterLiteralTooLong(s) => *s,
            LexDiagnostic::UnterminatedStringLiteral(s) => *s,
        }
    }
}

/// An ordered sequence of the diagnostics of one lexing pass; semantically a
/// "one-of(success, one-or-more-errors)" result container, produced fresh per
/// lexing call and never reused across calls.
#[derive(Debug)]
pub struct DiagnosticSink {
    diagnostics: Vec<LexDiagnostic>,
}

impl View for DiagnosticSink {
    type V = Seq<LexDiagnostic>;

    closed spec fn view(&self) -> Seq<LexDiagnostic> {
        self.diagnostics@
    }
}

impl DiagnosticSink {
    /// A sink holding no diagnostics.
    pub fn new() -> (s: Self)
        ensures
            s@ == Seq::<LexDiagnostic>::empty(),
    {
        DiagnosticSink { diagnostics: Vec::new() }
    }

    /// Append one diagnostic at the end of the sink.
    pub fn push_diagnostic(&mut self, diagnostic: LexDiagnostic)
        ensures
            final(self)@ == old(self)@.push(diagnostic),
    {
        self.diagnostics.push(diagnostic);
    }

    /// The recorded diagnostics, in the order they were pushed.
    pub fn diagnostics(&self) -> (r: &Vec<LexDiagnostic>)
        ensures
            r@ == self@,
    {
        &self.diagnostics
    }

    /// Whether any diagnostic has been recorded.
    pub fn has_diagnostics(&self) -> (r: bool)
        ensures
            r == (self@.len() != 0),
    {
        self.diagnostics.len() != 0
    }
}

} // verus!
