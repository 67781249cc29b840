//! Tokens produced by the lexer.

use vstd::prelude::*;
use crate::syntax_kind::SyntaxKind;
use crate::text::TextSpan;
use crate::value::SilverValue;

verus! {

/// The mathematical model of a token: its kind, where it lies in the
/// source, the text it spans, and its literal value if it has one.
pub ghost struct TokenModel {
    pub kind: SyntaxKind,
    pub span: TextSpan,
    pub text: Seq<char>,
    pub value: Option<SilverValue>,
}

/// One token of source text. Immutable once produced by the lexer (or
/// synthesized by the parser's error recovery, with empty text).
#[derive(Clone, Debug)]
pub struct SyntaxToken {
    kind: SyntaxKind,
    span: TextSpan,
    text: String,
    value: Option<SilverValue>,
}

impl View for SyntaxToken {
    type V = TokenModel;

    closed spec fn view(&self) -> TokenModel {
        TokenModel { kind: self.kind, span: self.span, text: self.text@, value: self.value }
    }
}

impl SyntaxToken {
    pub fn new(
        kind: SyntaxKind,
        span: TextSpan,
        text: String,
        value: Option<SilverValue>,
    ) -> (r: SyntaxToken)
        ensures
            r@ == (TokenModel { kind, span, text: text@, value }),
    {
        SyntaxToken { kind, span, text, value }
    }

    /// A copy of this token, equal to it in the model.
    pub fn duplicate(&self) -> (r: SyntaxToken)
        ensures
            r@ == self@,
    {
        SyntaxToken {
            kind: self.kind,
            span: self.span,
            text: self.text.clone(),
            value: self.value,
        }
    }

    pub fn kind(&self) -> (r: SyntaxKind)
        ensures
            r == self@.kind,
    {
        self.kind
    }

    pub fn span(&self) -> (r: TextSpan)
        ensures
            r == self@.span,
    {
        self.span
    }

    pub fn text(&self) -> (r: &str)
        ensures
            r@ == self@.text,
    {
        self.text.as_str()
    }

    pub fn value(&self) -> (r: &Option<SilverValue>)
        ensures
            *r == self@.value,
    {
        &self.value
    }
}

/// The models of a sequence of tokens.
pub open spec fn token_models(tokens: Seq<SyntaxToken>) -> Seq<TokenModel> {
    tokens.map_values(|t: SyntaxToken| t@)
}

} // verus!
