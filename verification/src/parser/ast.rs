//! The AST model: literal, unary, binary and grouping expression nodes, and
//! the one-to-one derivation of AST operators from token kinds.

use crate::lexer::token;
use crate::lexer::token::TokenKind;
use vstd::prelude::*;

verus! {

/// The sub-kind of a literal expression; the integer base is dropped.
#[derive(Debug, Clone, Copy, PartialEq, Eq, Hash, Structural)]
pub enum LiteralKind {
    /// Character literals.
    Character,
    /// String literals.
    String,
    /// Integer literals.
    Integer,
    /// Float literals.
    Float,
    /// Boolean literals.
    Boolean,
}

/// The AST literal kind standing for a token literal kind.
pub open spec fn spec_literal_kind_of_token(lit: token::LiteralKind) -> LiteralKind {
    match lit {
        token::LiteralKind::Character => LiteralKind::Character,
        token::LiteralKind::String => LiteralKind::String,
        token::LiteralKind::Integer { .. } => LiteralKind::Integer,
        token::LiteralKind::Float => LiteralKind::Float,
        token::LiteralKind::Boolean => LiteralKind::Boolean,
    }
}

/// Convert a token literal kind into the AST literal kind.
#[verifier::when_used_as_spec(spec_literal_kind_of_token)]
pub fn literal_kind_of_token(lit: token::LiteralKind) -> (r: LiteralKind)
    ensures
        r == spec_literal_kind_of_token(lit),
{
    match lit {
        token::LiteralKind::Character => LiteralKind::Character,
        token::LiteralKind::String => LiteralKind::String,
        token::LiteralKind::Integer { base: _ } => LiteralKind::Integer,
        token::LiteralKind::Float => LiteralKind::Float,
        token::LiteralKind::Boolean => LiteralKind::Boolean,
    }
}

/// Unary (prefix) operators.
#[derive(Debug, Clone, Copy, PartialEq, Eq, Hash, Structural)]
pub enum UnaryOpKind {
    /// -
    Neg,
    /// !
    LogNot,
    /// ~
    BwNot,
}

/// The unary operator a unary-operator token kind stands for.
pub open spec fn spec_unary_op_of_token(kind: TokenKind) -> UnaryOpKind
    recommends
        kind.spec_is_unary_op(),
{
    match kind {
        TokenKind::Bang => UnaryOpKind::LogNot,
        TokenKind::Tilde => UnaryOpKind::BwNot,
        _ => UnaryOpKind::Neg,
    }
}

/// Convert a unary-operator token kind into the unary operator it stands for.
#[verifier::when_used_as_spec(spec_unary_op_of_token)]
pub fn unary_op_of_token(kind: TokenKind) -> (r: UnaryOpKind)
    requires
        kind.spec_is_unary_op(),
    ensures
        r == spec_unary_op_of_token(kind),
{
    match kind {
        TokenKind::Bang => UnaryOpKind::LogNot,
        TokenKind::Tilde => UnaryOpKind::BwNot,
        _ => UnaryOpKind::Neg,
    }
}

/// Binary (infix) operators.
#[derive(Debug, Clone, Copy, PartialEq, Eq, Hash, Structural)]
pub enum BinaryOpKind {
    /// =
    Equal,
    /// ==
    EqualEqual,
    /// +
    Plus,
    /// +=
    PlusEqual,
    /// -
    Minus,
    /// -=
    MinusEqual,
    /// *
    Mul,
    /// *=
    MulEqual,
    /// /
    Div,
    /// /=
    DivEqual,
    /// %
    Mod,
    /// %=
    ModEqual,
    /// &
    BwAnd,
    /// &=
    BwAndEqual,
    /// &&
    LogAnd,
    /// |
    BwOr,
    /// |=
    BwOrEqual,
    /// ||
    LogOr,
    /// !=
    NotEqual,
    /// <
    Lt,
    /// <=
    LtEqual,
    /// >
    Gt,
    /// >=
    GtEqual,
    /// <<
    Shl,
    /// <<=
    ShlEqual,
    /// >>
    Shr,
    /// >>=
    ShrEqual,
}

/// The binary operator a binary-operator token kind stands for.
pub open spec fn spec_binary_op_of_token(kind: TokenKind) -> BinaryOpKind
    recommends
        kind.spec_is_binary_op() || kind is Equal,
{
    match kind {
        TokenKind::EqualEqual => BinaryOpKind::EqualEqual,
        TokenKind::Plus => BinaryOpKind::Plus,
        TokenKind::PlusEqual => BinaryOpKind::PlusEqual,
        TokenKind::Minus => BinaryOpKind::Minus,
        TokenKind::MinusEqual => BinaryOpKind::MinusEqual,
        TokenKind::Star => BinaryOpKind::Mul,
        TokenKind::StarEqual => BinaryOpKind::MulEqual,
        TokenKind::Slash => BinaryOpKind::Div,
        TokenKind::SlashEqual => BinaryOpKind::DivEqual,
        TokenKind::Percent => BinaryOpKind::Mod,
        TokenKind::PercentEqual => BinaryOpKind::ModEqual,
        TokenKind::Ampersand => BinaryOpKind::BwAnd,
        TokenKind::AmpersandEqual => BinaryOpKind::BwAndEqual,
        TokenKind::AmpAmp => BinaryOpKind::LogAnd,
        TokenKind::Bar => BinaryOpKind::BwOr,
        TokenKind::BarEqual => BinaryOpKind::BwOrEqual,
        TokenKind::BarBar => BinaryOpKind::LogOr,
        TokenKind::BangEqual => BinaryOpKind::NotEqual,
        TokenKind::Lt => BinaryOpKind::Lt,
        TokenKind::LtEqual => BinaryOpKind::LtEqual,
        TokenKind::Gt => BinaryOpKind::Gt,
        TokenKind::GtEqual => BinaryOpKind::GtEqual,
        TokenKind::Shl => BinaryOpKind::Shl,
        TokenKind::ShlEqual => BinaryOpKind::ShlEqual,
        TokenKind::Shr => BinaryOpKind::Shr,
        TokenKind::ShrEqual => BinaryOpKind::ShrEqual,
        _ => BinaryOpKind::Equal,
    }
}

/// Convert a binary-operator token kind into the binary operator it stands
/// for.
#[verifier::when_used_as_spec(spec_binary_op_of_token)]
pub fn binary_op_of_token(kind: TokenKind) -> (r: BinaryOpKind)
    requires
        kind.spec_is_binary_op() || kind is Equal,
    ensures
        r == spec_binary_op_of_token(kind),
{
    match kind {
        TokenKind::EqualEqual => BinaryOpKind::EqualEqual,
        TokenKind::Plus => BinaryOpKind::Plus,
        TokenKind::PlusEqual => BinaryOpKind::PlusEqual,
        TokenKind::Minus => BinaryOpKind::Minus,
        TokenKind::MinusEqual => BinaryOpKind::MinusEqual,
        TokenKind::Star => BinaryOpKind::Mul,
        TokenKind::StarEqual => BinaryOpKind::MulEqual,
        TokenKind::Slash => BinaryOpKind::Div,
        TokenKind::SlashEqual => BinaryOpKind::DivEqual,
        TokenKind::Percent => BinaryOpKind::Mod,
        TokenKind::PercentEqual => BinaryOpKind::ModEqual,
        TokenKind::Ampersand => BinaryOpKind::BwAnd,
        TokenKind::AmpersandEqual => BinaryOpKind::BwAndEqual,
        TokenKind::AmpAmp => BinaryOpKind::LogAnd,
        TokenKind::Bar => BinaryOpKind::BwOr,
        TokenKind::BarEqual => BinaryOpKind::BwOrEqual,
        TokenKind::BarBar => BinaryOpKind::LogOr,
        TokenKind::BangEqual => BinaryOpKind::NotEqual,
        TokenKind::Lt => BinaryOpKind::Lt,
        TokenKind::LtEqual => BinaryOpKind::LtEqual,
        TokenKind::Gt => BinaryOpKind::Gt,
        TokenKind::GtEqual => BinaryOpKind::GtEqual,
        TokenKind::Shl => BinaryOpKind::Shl,
        TokenKind::ShlEqual => BinaryOpKind::ShlEqual,
        TokenKind::Shr => BinaryOpKind::Shr,
        TokenKind::ShrEqual => BinaryOpKind::ShrEqual,
        _ => BinaryOpKind::Equal,
    }
}

/// An expression tree: each non-leaf variant exclusively owns its
/// sub-expressions.
#[derive(Debug, PartialEq, Eq)]
pub enum ExpressionKind {
    /// A literal ("hello", 123, 20.4).
    Literal(LiteralKind),
    /// A unary expression (!false, -10).
    Unary { operator: UnaryOpKind, operand: Box<ExpressionKind> },
    /// A binary expression (1 + 2, 5 > 3, 2 / 3).
    Binary { lhs: Box<ExpressionKind>, operator: BinaryOpKind, rhs: Box<ExpressionKind> },
    /// A grouping ( (1 + 2), ((1 + 2) + (3 + 4)) ).
    Grouping(Box<ExpressionKind>),
}

impl LiteralKind {
    /// The placeholder text this literal kind is printed as.
    pub fn symbol(&self) -> (r: &'static str)
        ensures
            match self {
                LiteralKind::Character => r@ == "[char]"@,
                LiteralKind::String => r@ == "[str]"@,
                LiteralKind::Integer => r@ == "[int]"@,
                LiteralKind::Float => r@ == "[float]"@,
                LiteralKind::Boolean => r@ == "[bool]"@,
            },
    {
        match self {
            LiteralKind::Character => "[char]",
            LiteralKind::String => "[str]",
            LiteralKind::Integer => "[int]",
            LiteralKind::Float => "[float]",
            LiteralKind::Boolean => "[bool]",
        }
    }
}

impl UnaryOpKind {
    /// The source text this operator is printed as.
    pub fn symbol(&self) -> (r: &'static str)
        ensures
            match self {
                UnaryOpKind::Neg => r@ == "-"@,
                UnaryOpKind::LogNot => r@ == "!"@,
                UnaryOpKind::BwNot => r@ == "~"@,
            },
    {
        match self {
            UnaryOpKind::Neg => "-",
            UnaryOpKind::LogNot => "!",
            UnaryOpKind::BwNot => "~",
        }
    }
}

impl BinaryOpKind {
    /// The source text this operator is printed as.
    pub fn symbol(&self) -> (r: &'static str)
        ensures
            match self {
                BinaryOpKind::Equal => r@ == "="@,
                BinaryOpKind::EqualEqual => r@ == "=="@,
                BinaryOpKind::Plus => r@ == "+"@,
                BinaryOpKind::PlusEqual => r@ == "+="@,
                BinaryOpKind::Minus => r@ == "-"@,
                BinaryOpKind::MinusEqual => r@ == "-="@,
                BinaryOpKind::Mul => r@ == "*"@,
                BinaryOpKind::MulEqual => r@ == "*="@,
                BinaryOpKind::Div => r@ == "/"@,
                BinaryOpKind::DivEqual => r@ == "/="@,
                BinaryOpKind::Mod => r@ == "%"@,
                BinaryOpKind::ModEqual => r@ == "%="@,
                BinaryOpKind::BwAnd => r@ == "&"@,
                BinaryOpKind::BwAndEqual => r@ == "&="@,
                BinaryOpKind::LogAnd => r@ == "&&"@,
                BinaryOpKind::BwOr => r@ == "|"@,
                BinaryOpKind::BwOrEqual => r@ == "|="@,
                BinaryOpKind::LogOr => r@ == "||"@,
                BinaryOpKind::NotEqual => r@ == "!="@,
                BinaryOpKind::Lt => r@ == "<"@,
                BinaryOpKind::LtEqual => r@ == "<="@,
                BinaryOpKind::Gt => r@ == ">"@,
                BinaryOpKind::GtEqual => r@ == ">="@,
                BinaryOpKind::Shl => r@ == "<<"@,
                BinaryOpKind::ShlEqual => r@ == "<<="@,
                BinaryOpKind::Shr => r@ == ">>"@,
                BinaryOpKind::ShrEqual => r@ == ">>="@,
            },
    {
        match self {
            BinaryOpKind::Equal => "=",
            BinaryOpKind::EqualEqual => "==",
            BinaryOpKind::Plus => "+",
            BinaryOpKind::PlusEqual => "+=",
            BinaryOpKind::Minus => "-",
            BinaryOpKind::MinusEqual => "-=",
            BinaryOpKind::Mul => "*",
            BinaryOpKind::MulEqual => "*=",
            BinaryOpKind::Div => "/",
            BinaryOpKind::DivEqual => "/=",
            BinaryOpKind::Mod => "%",
            BinaryOpKind::ModEqual => "%=",
            BinaryOpKind::BwAnd => "&",
            BinaryOpKind::BwAndEqual => "&=",
            BinaryOpKind::LogAnd => "&&",
            BinaryOpKind::BwOr => "|",
            BinaryOpKind::BwOrEqual => "|=",
            BinaryOpKind::LogOr => "||",
            BinaryOpKind::NotEqual => "!=",
            BinaryOpKind::Lt => "<",
            BinaryOpKind::LtEqual => "<=",
            BinaryOpKind::Gt => ">",
            BinaryOpKind::GtEqual => ">=",
            BinaryOpKind::Shl => "<<",
            BinaryOpKind::ShlEqual => "<<=",
            BinaryOpKind::Shr => ">>",
            BinaryOpKind::ShrEqual => ">>=",
        }
    }
}

} // verus!
