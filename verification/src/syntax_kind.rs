//! The closed taxonomy of token and syntax-node kinds, with the fixed
//! operator-precedence and token-text tables.

use vstd::prelude::*;
use crate::text::str_eq;

verus! {

/// Every kind of token the lexer can emit and every kind of node the
/// parser can build.
#[derive(Clone, Copy, Debug, PartialEq, Eq, Structural)]
pub enum SyntaxKind {
    // Tokens.
    BadToken,
    EndOfFileToken,
    NumberToken,
    IdentifierToken,
    PlusToken,
    MinusToken,
    StarToken,
    SlashToken,
    BangToken,
    EqualsToken,
    AmpersandAmpersandToken,
    PipePipeToken,
    EqualsEqualsToken,
    BangEqualsToken,
    OpenParenthesisToken,
    CloseParenthesisToken,
    TrueKeyword,
    FalseKeyword,
    // Expression nodes.
    LiteralExpression,
    UnaryExpression,
    BinaryExpression,
    ParenthesizedExpression,
    NameExpression,
    AssignmentExpression,
}

/// Precedence of a kind used as a prefix unary operator; 0 when the kind
/// is no unary operator. Higher binds tighter.
pub open spec fn spec_unary_operator_precedence(kind: SyntaxKind) -> nat {
    match kind {
        SyntaxKind::PlusToken => 6,
        SyntaxKind::MinusToken => 6,
        SyntaxKind::BangToken => 6,
        _ => 0,
    }
}

/// Precedence of a kind used as an infix binary operator; 0 when the kind
/// is no binary operator. Higher binds tighter.
pub open spec fn spec_binary_operator_precedence(kind: SyntaxKind) -> nat {
    match kind {
        SyntaxKind::StarToken => 5,
        SyntaxKind::SlashToken => 5,
        SyntaxKind::PlusToken => 4,
        SyntaxKind::MinusToken => 4,
        SyntaxKind::EqualsEqualsToken => 3,
        SyntaxKind::BangEqualsToken => 3,
        SyntaxKind::AmpersandAmpersandToken => 2,
        SyntaxKind::PipePipeToken => 1,
        _ => 0,
    }
}

/// Whether the kind has a single fixed source spelling.
pub open spec fn spec_has_fixed_text(kind: SyntaxKind) -> bool {
    match kind {
        SyntaxKind::PlusToken => true,
        SyntaxKind::MinusToken => true,
        SyntaxKind::StarToken => true,
        SyntaxKind::SlashToken => true,
        SyntaxKind::OpenParenthesisToken => true,
        SyntaxKind::CloseParenthesisToken => true,
        SyntaxKind::BangToken => true,
        SyntaxKind::AmpersandAmpersandToken => true,
        SyntaxKind::PipePipeToken => true,
        SyntaxKind::EqualsEqualsToken => true,
        SyntaxKind::BangEqualsToken => true,
        SyntaxKind::EqualsToken => true,
        SyntaxKind::TrueKeyword => true,
        SyntaxKind::FalseKeyword => true,
        _ => false,
    }
}

/// The fixed source spelling of a kind, meaningful when
/// `spec_has_fixed_text` holds.
pub open spec fn spec_fixed_text(kind: SyntaxKind) -> Seq<char> {
    match kind {
        SyntaxKind::PlusToken => "+"@,
        SyntaxKind::MinusToken => "-"@,
        SyntaxKind::StarToken => "*"@,
        SyntaxKind::SlashToken => "/"@,
        SyntaxKind::OpenParenthesisToken => "("@,
        SyntaxKind::CloseParenthesisToken => ")"@,
        SyntaxKind::BangToken => "!"@,
        SyntaxKind::AmpersandAmpersandToken => "&&"@,
        SyntaxKind::PipePipeToken => "||"@,
        SyntaxKind::EqualsEqualsToken => "=="@,
        SyntaxKind::BangEqualsToken => "!="@,
        SyntaxKind::EqualsToken => "="@,
        SyntaxKind::TrueKeyword => "true"@,
        SyntaxKind::FalseKeyword => "false"@,
        _ => Seq::<char>::empty(),
    }
}

/// The display name of a kind, used in diagnostics and tree printing.
pub open spec fn spec_kind_name(kind: SyntaxKind) -> Seq<char> {
    match kind {
        SyntaxKind::BadToken => "BadToken"@,
        SyntaxKind::EndOfFileToken => "EndOfFileToken"@,
        SyntaxKind::NumberToken => "NumberToken"@,
        SyntaxKind::IdentifierToken => "IdentifierToken"@,
        SyntaxKind::PlusToken => "PlusToken"@,
        SyntaxKind::MinusToken => "MinusToken"@,
        SyntaxKind::StarToken => "StarToken"@,
        SyntaxKind::SlashToken => "SlashToken"@,
        SyntaxKind::BangToken => "BangToken"@,
        SyntaxKind::EqualsToken => "EqualsToken"@,
        SyntaxKind::AmpersandAmpersandToken => "AmpersandAmpersandToken"@,
        SyntaxKind::PipePipeToken => "PipePipeToken"@,
        SyntaxKind::EqualsEqualsToken => "EqualsEqualsToken"@,
        SyntaxKind::BangEqualsToken => "BangEqualsToken"@,
        SyntaxKind::OpenParenthesisToken => "OpenParenthesisToken"@,
        SyntaxKind::CloseParenthesisToken => "CloseParenthesisToken"@,
        SyntaxKind::TrueKeyword => "TrueKeyword"@,
        SyntaxKind::FalseKeyword => "FalseKeyword"@,
        SyntaxKind::LiteralExpression => "LiteralExpression"@,
        SyntaxKind::UnaryExpression => "UnaryExpression"@,
        SyntaxKind::BinaryExpression => "BinaryExpression"@,
        SyntaxKind::ParenthesizedExpression => "ParenthesizedExpression"@,
        SyntaxKind::NameExpression => "NameExpression"@,
        SyntaxKind::AssignmentExpression => "AssignmentExpression"@,
    }
}

impl SyntaxKind {
    /// Precedence of this kind as a prefix unary operator (0: none).
    pub fn unary_operator_precedence(&self) -> (r: usize)
        ensures
            r == spec_unary_operator_precedence(*self),
    {
        match self {
            SyntaxKind::PlusToken | SyntaxKind::MinusToken | SyntaxKind::BangToken => 6,
            _ => 0,
        }
    }

    /// Precedence of this kind as an infix binary operator (0: none).
    pub fn binary_operator_precedence(&self) -> (r: usize)
        ensures
            r == spec_binary_operator_precedence(*self),
    {
        match self {
            SyntaxKind::StarToken | SyntaxKind::SlashToken => 5,
            SyntaxKind::PlusToken | SyntaxKind::MinusToken => 4,
            SyntaxKind::EqualsEqualsToken | SyntaxKind::BangEqualsToken => 3,
            SyntaxKind::AmpersandAmpersandToken => 2,
            SyntaxKind::PipePipeToken => 1,
            _ => 0,
        }
    }

    /// The fixed source spelling of this kind, if it has one.
    pub fn get_text(&self) -> (r: Option<&'static str>)
        ensures
            r is Some <==> spec_has_fixed_text(*self),
            r is Some ==> r->0@ == spec_fixed_text(*self),
    {
        match self {
            SyntaxKind::PlusToken => Some("+"),
            SyntaxKind::MinusToken => Some("-"),
            SyntaxKind::StarToken => Some("*"),
            SyntaxKind::SlashToken => Some("/"),
            SyntaxKind::OpenParenthesisToken => Some("("),
            SyntaxKind::CloseParenthesisToken => Some(")"),
            SyntaxKind::BangToken => Some("!"),
            SyntaxKind::AmpersandAmpersandToken => Some("&&"),
            SyntaxKind::PipePipeToken => Some("||"),
            SyntaxKind::EqualsEqualsToken => Some("=="),
            SyntaxKind::BangEqualsToken => Some("!="),
            SyntaxKind::EqualsToken => Some("="),
            SyntaxKind::TrueKeyword => Some("true"),
            SyntaxKind::FalseKeyword => Some("false"),
            _ => None,
        }
    }

    /// The display name of this kind.
    pub fn name(&self) -> (r: &'static str)
        ensures
            r@ == spec_kind_name(*self),
    {
        match self {
            SyntaxKind::BadToken => "BadToken",
            SyntaxKind::EndOfFileToken => "EndOfFileToken",
            SyntaxKind::NumberToken => "NumberToken",
            SyntaxKind::IdentifierToken => "IdentifierToken",
            SyntaxKind::PlusToken => "PlusToken",
            SyntaxKind::MinusToken => "MinusToken",
            SyntaxKind::StarToken => "StarToken",
            SyntaxKind::SlashToken => "SlashToken",
            SyntaxKind::BangToken => "BangToken",
            SyntaxKind::EqualsToken => "EqualsToken",
            SyntaxKind::AmpersandAmpersandToken => "AmpersandAmpersandToken",
            SyntaxKind::PipePipeToken => "PipePipeToken",
            SyntaxKind::EqualsEqualsToken => "EqualsEqualsToken",
            SyntaxKind::BangEqualsToken => "BangEqualsToken",
            SyntaxKind::OpenParenthesisToken => "OpenParenthesisToken",
            SyntaxKind::CloseParenthesisToken => "CloseParenthesisToken",
            SyntaxKind::TrueKeyword => "TrueKeyword",
            SyntaxKind::FalseKeyword => "FalseKeyword",
            SyntaxKind::LiteralExpression => "LiteralExpression",
            SyntaxKind::UnaryExpression => "UnaryExpression",
            SyntaxKind::BinaryExpression => "BinaryExpression",
            SyntaxKind::ParenthesizedExpression => "ParenthesizedExpression",
            SyntaxKind::NameExpression => "NameExpression",
            SyntaxKind::AssignmentExpression => "AssignmentExpression",
        }
    }
}

/// The token kind of an identifier-shaped chunk of text: the keywords
/// `true` and `false` get their keyword kinds, everything else stays an
/// identifier.
pub open spec fn spec_keyword_kind(text: Seq<char>) -> SyntaxKind {
    if text == "true"@ {
        SyntaxKind::TrueKeyword
    } else if text == "false"@ {
        SyntaxKind::FalseKeyword
    } else {
        SyntaxKind::IdentifierToken
    }
}

/// Reclassify an identifier-shaped chunk: `true` and `false` become
/// keywords, everything else is an identifier.
pub fn keyword_kind(text: &str) -> (r: SyntaxKind)
    ensures
        r == spec_keyword_kind(text@),
{
    if str_eq(text, "true") {
        SyntaxKind::TrueKeyword
    } else if str_eq(text, "false") {
        SyntaxKind::FalseKeyword
    } else {
        SyntaxKind::IdentifierToken
    }
}

} // verus!
