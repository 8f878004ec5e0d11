//! The token model: token kinds (punctuation, operators, identifiers with a
//! sub-kind, literals with a sub-kind, end of file) paired with spans.

use crate::span::Span;
use vstd::prelude::*;

verus! {

/// The reserved words of the fixed, case-sensitive keyword table.
#[derive(Debug, Clone, Copy, PartialEq, Eq, Structural)]
pub enum Keyword {
    Proc,
    Let,
    Void,
    Int,
    Ret,
    Float,
    If,
    Elif,
    Else,
    For,
    While,
    Do,
    Bool,
    Str,
}

#[derive(Debug, Clone, Copy, PartialEq, Eq, Structural)]
pub enum IdentKind {
    /// A non-reserved identifier.
    NonReserved,
    /// A keyword or reserved identifier.
    Keyword(Keyword),
}

#[derive(Debug, Clone, Copy, PartialEq, Eq, Structural)]
pub enum IntegerBase {
    /// Integer literals starting with "0b".
    Binary,
    /// Integer literals starting with "0o".
    Octal,
    /// Integer literals with no prefix.
    Decimal,
    /// Integer literals starting with "0x".
    Hexadecimal,
}

impl IntegerBase {
    /// The radix each base stands for.
    pub fn radix(self) -> (r: u32)
        ensures
            r == match self {
                IntegerBase::Binary => 2u32,
                IntegerBase::Octal => 8u32,
                IntegerBase::Decimal => 10u32,
                IntegerBase::Hexadecimal => 16u32,
            },
    {
        match self {
            IntegerBase::Binary => 2,
            IntegerBase::Octal => 8,
            IntegerBase::Decimal => 10,
            IntegerBase::Hexadecimal => 16,
        }
    }
}

#[derive(Debug, Clone, Copy, PartialEq, Eq, Structural)]
pub enum LiteralKind {
    /// Character literals.
    Character,
    /// String literals.
    String,
    /// Integer literals.
    Integer { base: IntegerBase },
    /// Float literals.
    Float,
    /// Boolean literals.
    Boolean,
}

#[derive(Debug, Clone, Copy, PartialEq, Eq, Structural)]
pub enum TokenKind {
    /// (
    OpenParen,
    /// )
    ClosingParen,
    /// {
    OpenCurly,
    /// }
    ClosingCurly,
    /// [
    OpenSquare,
    /// ]
    ClosingSquare,
    /// :
    Colon,
    /// ;
    Semicolon,
    /// .
    Period,
    /// ,
    Comma,
    /// =
    Equal,
    /// ==
    EqualEqual,
    /// +
    Plus,
    /// +=
    PlusEqual,
    /// -
    Minus,
    /// -=
    MinusEqual,
    /// *
    Star,
    /// *=
    StarEqual,
    /// /
    Slash,
    /// /=
    SlashEqual,
    /// %
    Percent,
    /// %=
    PercentEqual,
    /// &
    Ampersand,
    /// &=
    AmpersandEqual,
    /// &&
    AmpAmp,
    /// |
    Bar,
    /// |=
    BarEqual,
    /// ||
    BarBar,
    /// ~
    Tilde,
    /// !
    Bang,
    /// !=
    BangEqual,
    /// <
    Lt,
    /// <=
    LtEqual,
    /// >
    Gt,
    /// >=
    GtEqual,
    /// <<
    Shl,
    /// <<=
    ShlEqual,
    /// >>
    Shr,
    /// >>=
    ShrEqual,
    /// Any identifiers, including keywords.
    Ident(IdentKind),
    /// Literals.
    Literal(LiteralKind),
    /// End of file.
    EoF,
}

impl TokenKind {
    /// Whether this token kind is a unary (prefix) operator.
    pub open spec fn spec_is_unary_op(self) -> bool {
        self is Bang || self is Minus || self is Tilde
    }

    /// Return if this token kind is a unary operator or not.
    #[verifier::when_used_as_spec(spec_is_unary_op)]
    pub fn is_unary_op(self) -> (r: bool)
        ensures
            r == self.spec_is_unary_op(),
    {
        match self {
            TokenKind::Bang | TokenKind::Minus | TokenKind::Tilde => true,
            _ => false,
        }
    }

    /// Whether this token kind is a binary (infix) operator.
    pub open spec fn spec_is_binary_op(self) -> bool {
        ||| self is EqualEqual
        ||| self is Plus
        ||| self is PlusEqual
        ||| self is Minus
        ||| self is MinusEqual
        ||| self is Star
        ||| self is StarEqual
        ||| self is Slash
        ||| self is SlashEqual
        ||| self is Percent
        ||| self is PercentEqual
        ||| self is Ampersand
        ||| self is AmpersandEqual
        ||| self is AmpAmp
        ||| self is Bar
        ||| self is BarEqual
        ||| self is BarBar
        ||| self is BangEqual
        ||| self is Lt
        ||| self is LtEqual
        ||| self is Gt
        ||| self is GtEqual
        ||| self is Shl
        ||| self is ShlEqual
        ||| self is Shr
        ||| self is ShrEqual
    }

    /// Return if this token kind is a binary operator or not.
    #[verifier::when_used_as_spec(spec_is_binary_op)]
    pub fn is_binary_op(self) -> (r: bool)
        ensures
            r == self.spec_is_binary_op(),
    {
        match self {
            TokenKind::EqualEqual
            | TokenKind::Plus
            | TokenKind::PlusEqual
            | TokenKind::Minus
            | TokenKind::MinusEqual
            | TokenKind::Star
            | TokenKind::StarEqual
            | TokenKind::Slash
            | TokenKind::SlashEqual
            | TokenKind::Percent
            | TokenKind::PercentEqual
            | TokenKind::Ampersand
            | TokenKind::AmpersandEqual
            | TokenKind::AmpAmp
            | TokenKind::Bar
            | TokenKind::BarEqual
            | TokenKind::BarBar
            | TokenKind::BangEqual
            | TokenKind::Lt
            | TokenKind::LtEqual
            | TokenKind::Gt
            | TokenKind::GtEqual
            | TokenKind::Shl
            | TokenKind::ShlEqual
            | TokenKind::Shr
            | TokenKind::ShrEqual => true,
            _ => false,
        }
    }

    /// Whether this token kind is a comparison operator.
    pub open spec fn spec_is_comparison_op(self) -> bool {
        self is Lt || self is LtEqual || self is Gt || self is GtEqual
    }

    /// Returns if this token kind is a comparison operator or not.
    #[verifier::when_used_as_spec(spec_is_comparison_op)]
    pub fn is_comparison_op(self) -> (r: bool)
        ensures
            r == self.spec_is_comparison_op(),
    {
        match self {
            TokenKind::Lt | TokenKind::LtEqual | TokenKind::Gt | TokenKind::GtEqual => true,
            _ => false,
        }
    }

    /// Whether this token kind is an equality operator.
    pub open spec fn spec_is_equality_op(self) -> bool {
        self is BangEqual || self is EqualEqual
    }

    /// Returns if this token kind is an equality operator or not.
    #[verifier::when_used_as_spec(spec_is_equality_op)]
    pub fn is_equality_op(self) -> (r: bool)
        ensures
            r == self.spec_is_equality_op(),
    {
        match self {
            TokenKind::BangEqual | TokenKind::EqualEqual => true,
            _ => false,
        }
    }
}

/// The smallest classified unit of source text plus its span.
#[derive(Debug, Clone, Copy, PartialEq, Eq, Structural)]
pub struct Token {
    pub kind: TokenKind,
    pub span: Span,
}

impl Token {
    pub(crate) fn new(kind: TokenKind, span: Span) -> (t: Self)
        ensures
            t == (Token { kind, span }),
    {
        Token { kind, span }
    }
}

} // verus!
