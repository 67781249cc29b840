//! The parser: token sequence to expression tree, by recursive descent
//! with precedence climbing.
//!
//! A unary operator whose precedence reaches the surrounding precedence
//! is consumed and its operand parsed at the operator's own precedence;
//! otherwise a primary is parsed (literal, parenthesized expression, or
//! an identifier, which becomes an assignment when an equals token
//! follows it directly). Binary operators then fold into a left-growing
//! tree for as long as their precedence strictly exceeds the surrounding
//! one, which makes equal-precedence chains left-associative. When a
//! required token kind is missing, a parser error is reported and a
//! zero-width token of the expected kind is synthesized without consuming
//! the unexpected token, so one gap costs one diagnostic.
//!
//! The specification-level parser carries a fuel parameter only to bound
//! its recursion; `spec_expression_fuel` is always enough, and
//! `lemma_parse_expression_fuel_mono` shows that any larger amount gives
//! the same result.

use vstd::prelude::*;
use crate::diagnostics::{Diagnostic, DiagnosticKind, DiagnosticModel, ErrorReporter};
use crate::expression::{ExpressionModel, ExpressionSyntax};
use crate::lexer::{spec_lex, spec_lex_diags, lemma_lex_ends_in_one_eof, Lexer};
use crate::syntax_tree::SyntaxTree;
use crate::syntax_kind::{
    spec_binary_operator_precedence, spec_kind_name, spec_unary_operator_precedence, SyntaxKind,
};
use crate::text::{SourceText, TextSpan};
use crate::token::{token_models, SyntaxToken, TokenModel};
use crate::value::SilverValue;

verus! {

/// What one parsing step yields: the parsed expression, the position
/// after it, and the diagnostics it reported, in order.
pub ghost struct ParseStep {
    pub expr: ExpressionModel,
    pub pos: int,
    pub diags: Seq<DiagnosticModel>,
}

/// The token at `pos`, clamped to the final end-of-file token.
pub open spec fn spec_peek(tokens: Seq<TokenModel>, pos: int) -> TokenModel {
    if 0 <= pos < tokens.len() {
        tokens[pos]
    } else {
        tokens.last()
    }
}

/// The zero-width token synthesized when a required kind is missing.
pub open spec fn spec_missing_token(expected: SyntaxKind, current: TokenModel) -> TokenModel {
    TokenModel {
        kind: expected,
        span: TextSpan { start: current.span.start, length: 0 },
        text: Seq::<char>::empty(),
        value: None,
    }
}

/// The diagnostic reported when a required kind is missing.
pub open spec fn spec_match_diag(expected: SyntaxKind, current: TokenModel) -> DiagnosticModel {
    DiagnosticModel {
        span: current.span,
        message: "expected "@ + spec_kind_name(expected) + ", found "@ + spec_kind_name(
            current.kind,
        ),
        kind: DiagnosticKind::ParserError,
    }
}

/// Demand a token of kind `expected` at `pos`: consume it when present,
/// otherwise report and synthesize without consuming.
pub open spec fn spec_match_token(tokens: Seq<TokenModel>, pos: int, expected: SyntaxKind) -> (
    TokenModel,
    int,
    Seq<DiagnosticModel>,
) {
    let cur = spec_peek(tokens, pos);
    if cur.kind == expected {
        (cur, pos + 1, Seq::<DiagnosticModel>::empty())
    } else {
        (spec_missing_token(expected, cur), pos, seq![spec_match_diag(expected, cur)])
    }
}

/// The literal value of a number token, with the placeholder for a
/// synthesized token that has none.
pub open spec fn spec_literal_value(token: TokenModel) -> SilverValue {
    match token.value {
        Some(v) => v,
        None => SilverValue::Number(0),
    }
}

/// Parse one expression at `pos` under `parent_precedence`.
pub open spec fn spec_parse_expression(
    tokens: Seq<TokenModel>,
    pos: int,
    parent_precedence: nat,
    fuel: nat,
) -> Option<ParseStep>
    decreases fuel,
{
    if fuel == 0 {
        None
    } else {
        let cur = spec_peek(tokens, pos);
        let unary_precedence = spec_unary_operator_precedence(cur.kind);
        if unary_precedence != 0 && unary_precedence >= parent_precedence {
            match spec_parse_expression(tokens, pos + 1, unary_precedence, (fuel - 1) as nat) {
                None => None,
                Some(operand) => {
                    let unary = ExpressionModel::Unary {
                        operator_token: cur,
                        operand: Box::new(operand.expr),
                    };
                    match spec_parse_binary_rest(
                        tokens,
                        operand.pos,
                        unary,
                        parent_precedence,
                        (fuel - 1) as nat,
                    ) {
                        None => None,
                        Some(rest) => Some(
                            ParseStep {
                                expr: rest.expr,
                                pos: rest.pos,
                                diags: operand.diags + rest.diags,
                            },
                        ),
                    }
                },
            }
        } else {
            match spec_parse_primary(tokens, pos, (fuel - 1) as nat) {
                None => None,
                Some(primary) => {
                    match spec_parse_binary_rest(
                        tokens,
                        primary.pos,
                        primary.expr,
                        parent_precedence,
                        (fuel - 1) as nat,
                    ) {
                        None => None,
                        Some(rest) => Some(
                            ParseStep {
                                expr: rest.expr,
                                pos: rest.pos,
                                diags: primary.diags + rest.diags,
                            },
                        ),
                    }
                },
            }
        }
    }
}

/// Fold binary operators into `left` while their precedence strictly
/// exceeds `parent_precedence`.
pub open spec fn spec_parse_binary_rest(
    tokens: Seq<TokenModel>,
    pos: int,
    left: ExpressionModel,
    parent_precedence: nat,
    fuel: nat,
) -> Option<ParseStep>
    decreases fuel,
{
    if fuel == 0 {
        None
    } else {
        let cur = spec_peek(tokens, pos);
        let precedence = spec_binary_operator_precedence(cur.kind);
        if precedence == 0 || precedence <= parent_precedence {
            Some(ParseStep { expr: left, pos, diags: Seq::<DiagnosticModel>::empty() })
        } else {
            match spec_parse_expression(tokens, pos + 1, precedence, (fuel - 1) as nat) {
                None => None,
                Some(right) => {
                    let combined = ExpressionModel::Binary {
                        left: Box::new(left),
                        operator_token: cur,
                        right: Box::new(right.expr),
                    };
                    match spec_parse_binary_rest(
                        tokens,
                        right.pos,
                        combined,
                        parent_precedence,
                        (fuel - 1) as nat,
                    ) {
                        None => None,
                        Some(rest) => Some(
                            ParseStep {
                                expr: rest.expr,
                                pos: rest.pos,
                                diags: right.diags + rest.diags,
                            },
                        ),
                    }
                },
            }
        }
    }
}

/// Parse a primary expression: a parenthesized expression, a boolean or
/// number literal, a name, or an assignment to a name.
pub open spec fn spec_parse_primary(tokens: Seq<TokenModel>, pos: int, fuel: nat) -> Option<
    ParseStep,
>
    decreases fuel,
{
    if fuel == 0 {
        None
    } else {
        let cur = spec_peek(tokens, pos);
        if cur.kind == SyntaxKind::OpenParenthesisToken {
            match spec_parse_expression(tokens, pos + 1, 0, (fuel - 1) as nat) {
                None => None,
                Some(inner) => {
                    let (close, pos2, close_diags) = spec_match_token(
                        tokens,
                        inner.pos,
                        SyntaxKind::CloseParenthesisToken,
                    );
                    Some(
                        ParseStep {
                            expr: ExpressionModel::Parenthesized {
                                open_parenthesis_token: cur,
                                expression: Box::new(inner.expr),
                                close_parenthesis_token: close,
                            },
                            pos: pos2,
                            diags: inner.diags + close_diags,
                        },
                    )
                },
            }
        } else if cur.kind == SyntaxKind::TrueKeyword || cur.kind == SyntaxKind::FalseKeyword {
            Some(
                ParseStep {
                    expr: ExpressionModel::Literal {
                        literal_token: cur,
                        value: SilverValue::Boolean(cur.kind == SyntaxKind::TrueKeyword),
                    },
                    pos: pos + 1,
                    diags: Seq::<DiagnosticModel>::empty(),
                },
            )
        } else if cur.kind == SyntaxKind::IdentifierToken {
            let next = spec_peek(tokens, pos + 1);
            if next.kind == SyntaxKind::EqualsToken {
                match spec_parse_expression(tokens, pos + 2, 0, (fuel - 1) as nat) {
                    None => None,
                    Some(value) => Some(
                        ParseStep {
                            expr: ExpressionModel::Assignment {
                                identifier_token: cur,
                                equals_token: next,
                                expression: Box::new(value.expr),
                            },
                            pos: value.pos,
                            diags: value.diags,
                        },
                    ),
                }
            } else {
                Some(
                    ParseStep {
                        expr: ExpressionModel::Name { identifier_token: cur },
                        pos: pos + 1,
                        diags: Seq::<DiagnosticModel>::empty(),
                    },
                )
            }
        } else {
            let (token, pos2, diags) = spec_match_token(tokens, pos, SyntaxKind::NumberToken);
            Some(
                ParseStep {
                    expr: ExpressionModel::Literal {
                        literal_token: token,
                        value: spec_literal_value(token),
                    },
                    pos: pos2,
                    diags,
                },
            )
        }
    }
}

/// Fuel that always suffices for `spec_parse_expression` from `pos` in a
/// token sequence of length `len`.
pub open spec fn spec_expression_fuel(len: int, pos: int) -> nat {
    (3 * (len - pos) + 3) as nat
}

/// Fuel that always suffices for `spec_parse_binary_rest`.
pub open spec fn spec_binary_rest_fuel(len: int, pos: int) -> nat {
    (3 * (len - pos) + 2) as nat
}

/// Fuel that always suffices for `spec_parse_primary`.
pub open spec fn spec_primary_fuel(len: int, pos: int) -> nat {
    (3 * (len - pos) + 1) as nat
}

/// Once enough fuel is supplied for a parse to succeed, more fuel does
/// not change its result.
pub proof fn lemma_parse_expression_fuel_mono(
    tokens: Seq<TokenModel>,
    pos: int,
    parent_precedence: nat,
    fuel1: nat,
    fuel2: nat,
)
    requires
        fuel1 <= fuel2,
        spec_parse_expression(tokens, pos, parent_precedence, fuel1) is Some,
    ensures
        spec_parse_expression(tokens, pos, parent_precedence, fuel2) == spec_parse_expression(
            tokens,
            pos,
            parent_precedence,
            fuel1,
        ),
    decreases fuel1,
{
    let cur = spec_peek(tokens, pos);
    let unary_precedence = spec_unary_operator_precedence(cur.kind);
    if unary_precedence != 0 && unary_precedence >= parent_precedence {
        let operand = spec_parse_expression(
            tokens,
            pos + 1,
            unary_precedence,
            (fuel1 - 1) as nat,
        );
        lemma_parse_expression_fuel_mono(
            tokens,
            pos + 1,
            unary_precedence,
            (fuel1 - 1) as nat,
            (fuel2 - 1) as nat,
        );
        let unary = ExpressionModel::Unary {
            operator_token: cur,
            operand: Box::new(operand->0.expr),
        };
        lemma_parse_binary_rest_fuel_mono(
            tokens,
            operand->0.pos,
            unary,
            parent_precedence,
            (fuel1 - 1) as nat,
            (fuel2 - 1) as nat,
        );
    } else {
        let primary = spec_parse_primary(tokens, pos, (fuel1 - 1) as nat);
        lemma_parse_primary_fuel_mono(tokens, pos, (fuel1 - 1) as nat, (fuel2 - 1) as nat);
        lemma_parse_binary_rest_fuel_mono(
            tokens,
            primary->0.pos,
            primary->0.expr,
            parent_precedence,
            (fuel1 - 1) as nat,
            (fuel2 - 1) as nat,
        );
    }
}

pub proof fn lemma_parse_binary_rest_fuel_mono(
    tokens: Seq<TokenModel>,
    pos: int,
    left: ExpressionModel,
    parent_precedence: nat,
    fuel1: nat,
    fuel2: nat,
)
    requires
        fuel1 <= fuel2,
        spec_parse_binary_rest(tokens, pos, left, parent_precedence, fuel1) is Some,
    ensures
        spec_parse_binary_rest(tokens, pos, left, parent_precedence, fuel2)
            == spec_parse_binary_rest(tokens, pos, left, parent_precedence, fuel1),
    decreases fuel1,
{
    let cur = spec_peek(tokens, pos);
    let precedence = spec_binary_operator_precedence(cur.kind);
    if precedence == 0 || precedence <= parent_precedence {
    } else {
        let right = spec_parse_expression(tokens, pos + 1, precedence, (fuel1 - 1) as nat);
        lemma_parse_expression_fuel_mono(
            tokens,
            pos + 1,
            precedence,
            (fuel1 - 1) as nat,
            (fuel2 - 1) as nat,
        );
        let combined = ExpressionModel::Binary {
            left: Box::new(left),
            operator_token: cur,
            right: Box::new(right->0.expr),
        };
        lemma_parse_binary_rest_fuel_mono(
            tokens,
            right->0.pos,
            combined,
            parent_precedence,
            (fuel1 - 1) as nat,
            (fuel2 - 1) as nat,
        );
    }
}

pub proof fn lemma_parse_primary_fuel_mono(
    tokens: Seq<TokenModel>,
    pos: int,
    fuel1: nat,
    fuel2: nat,
)
    requires
        fuel1 <= fuel2,
        spec_parse_primary(tokens, pos, fuel1) is Some,
    ensures
        spec_parse_primary(tokens, pos, fuel2) == spec_parse_primary(tokens, pos, fuel1),
    decreases fuel1,
{
    let cur = spec_peek(tokens, pos);
    if cur.kind == SyntaxKind::OpenParenthesisToken {
        lemma_parse_expression_fuel_mono(
            tokens,
            pos + 1,
            0,
            (fuel1 - 1) as nat,
            (fuel2 - 1) as nat,
        );
    } else if cur.kind == SyntaxKind::TrueKeyword || cur.kind == SyntaxKind::FalseKeyword {
    } else if cur.kind == SyntaxKind::IdentifierToken {
        let next = spec_peek(tokens, pos + 1);
        if next.kind == SyntaxKind::EqualsToken {
            lemma_parse_expression_fuel_mono(
                tokens,
                pos + 2,
                0,
                (fuel1 - 1) as nat,
                (fuel2 - 1) as nat,
            );
        }
    }
}

/// The parser's state: the fixed token sequence and the current position.
pub struct Parser {
    tokens: Vec<SyntaxToken>,
    position: usize,
}

impl Parser {
    pub closed spec fn models(&self) -> Seq<TokenModel> {
        token_models(self.tokens@)
    }

    pub closed spec fn wf(&self) -> bool {
        &&& self.tokens@.len() >= 1
        &&& self.models().last().kind == SyntaxKind::EndOfFileToken
        &&& self.position < self.tokens@.len()
    }

    /// Build a parser over a lexed token sequence, positioned at its
    /// start.
    fn new(tokens: Vec<SyntaxToken>) -> (r: Parser)
        requires
            tokens@.len() >= 1,
            token_models(tokens@).last().kind == SyntaxKind::EndOfFileToken,
        ensures
            r.wf(),
            r.models() == token_models(tokens@),
            r.position == 0,
    {
        Parser { tokens, position: 0 }
    }

    /// The token `offset` places past the current one, clamped to the
    /// final end-of-file token.
    fn peek(&self, offset: usize) -> (r: &SyntaxToken)
        requires
            self.wf(),
            self.position + offset <= self.tokens@.len(),
        ensures
            r@ == spec_peek(self.models(), self.position + offset),
    {
        let n = self.tokens.len();
        let index = self.position + offset;
        if index < n {
            &self.tokens[index]
        } else {
            &self.tokens[self.tokens.len() - 1]
        }
    }

    /// The current token.
    fn current(&self) -> (r: &SyntaxToken)
        requires
            self.wf(),
        ensures
            r@ == spec_peek(self.models(), self.position as int),
    {
        self.peek(0)
    }

    /// Consume the current token and move past it.
    fn next_token(&mut self) -> (r: SyntaxToken)
        requires
            old(self).wf(),
            spec_peek(old(self).models(), old(self).position as int).kind
                != SyntaxKind::EndOfFileToken,
        ensures
            final(self).wf(),
            final(self).tokens == old(self).tokens,
            final(self).position == old(self).position + 1,
            r@ == spec_peek(old(self).models(), old(self).position as int),
    {
        proof {
            if self.position == self.tokens@.len() - 1 {
                assert(spec_peek(self.models(), self.position as int) == self.models().last());
            }
        }
        let n = self.tokens.len();
        let token = self.tokens[self.position].duplicate();
        self.position = self.position + 1;
        token
    }

    /// Demand a token of kind `expected`: consume it when present,
    /// otherwise report a parser error and synthesize a zero-width token
    /// of the expected kind without consuming anything.
    fn match_token(&mut self, expected: SyntaxKind, reporter: &mut ErrorReporter) -> (r:
        SyntaxToken)
        requires
            old(self).wf(),
            expected != SyntaxKind::EndOfFileToken,
        ensures
            final(self).wf(),
            final(self).tokens == old(self).tokens,
            ({
                let (token, pos2, diags) = spec_match_token(
                    old(self).models(),
                    old(self).position as int,
                    expected,
                );
                &&& r@ == token
                &&& final(self).position as int == pos2
                &&& final(reporter)@ == old(reporter)@ + diags
            }),
    {
        let ghost diags_empty = Seq::<DiagnosticModel>::empty();
        if self.current().kind() == expected {
            let token = self.next_token();
            proof {
                assert(final(reporter)@ =~= old(reporter)@ + diags_empty);
            }
            token
        } else {
            let current_kind = self.current().kind();
            let span = self.current().span();
            let mut message = String::from_str("expected ");
            message.append(expected.name());
            message.append(", found ");
            message.append(current_kind.name());
            reporter.report(Diagnostic::new(span, message, DiagnosticKind::ParserError));
            let token = SyntaxToken::new(
                expected,
                TextSpan::new(span.start, 0),
                String::new(),
                None,
            );
            proof {
                let cur = spec_peek(old(self).models(), old(self).position as int);
                assert(token@ == spec_missing_token(expected, cur));
                assert(final(reporter)@ =~= old(reporter)@ + seq![
                    spec_match_diag(expected, cur),
                ]);
            }
            token
        }
    }

    /// Parse one expression at the current position under
    /// `parent_precedence`.
    fn parse_expression(&mut self, parent_precedence: usize, reporter: &mut ErrorReporter) -> (r:
        ExpressionSyntax)
        requires
            old(self).wf(),
        ensures
            final(self).wf(),
            final(self).tokens == old(self).tokens,
            old(self).position <= final(self).position,
            old(reporter)@.is_prefix_of(final(reporter)@),
            spec_parse_expression(
                old(self).models(),
                old(self).position as int,
                parent_precedence as nat,
                spec_expression_fuel(old(self).models().len() as int, old(self).position as int),
            ) == Some(
                ParseStep {
                    expr: r@,
                    pos: final(self).position as int,
                    diags: final(reporter)@.skip(old(reporter)@.len() as int),
                },
            ),
        decreases old(self).tokens@.len() - old(self).position, 2int,
    {
        let ghost models = old(self).models();
        let ghost pos0 = old(self).position as int;
        let ghost len = models.len() as int;
        let ghost fuel = spec_expression_fuel(len, pos0);
        let ghost base = old(reporter)@;
        let unary_precedence = self.current().kind().unary_operator_precedence();
        if unary_precedence != 0 && unary_precedence >= parent_precedence {
            let operator_token = self.next_token();
            let ghost pos1 = self.position as int;
            let operand = self.parse_expression(unary_precedence, reporter);
            let ghost mid = reporter@;
            let ghost pos2 = self.position as int;
            let unary = ExpressionSyntax::Unary { operator_token, operand: Box::new(operand) };
            let result = self.parse_binary_rest(unary, parent_precedence, reporter);
            proof {
                lemma_parse_expression_fuel_mono(
                    models,
                    pos1,
                    unary_precedence as nat,
                    spec_expression_fuel(len, pos1),
                    (fuel - 1) as nat,
                );
                lemma_parse_binary_rest_fuel_mono(
                    models,
                    pos2,
                    expression_model_of_unary(operator_token@, operand@),
                    parent_precedence as nat,
                    spec_binary_rest_fuel(len, pos2),
                    (fuel - 1) as nat,
                );
                assert(mid.skip(base.len() as int) + final(reporter)@.skip(mid.len() as int)
                    =~= final(reporter)@.skip(base.len() as int));
            }
            result
        } else {
            let primary = self.parse_primary(reporter);
            let ghost mid = reporter@;
            let ghost pos2 = self.position as int;
            let ghost primary_model = primary@;
            let result = self.parse_binary_rest(primary, parent_precedence, reporter);
            proof {
                lemma_parse_primary_fuel_mono(
                    models,
                    pos0,
                    spec_primary_fuel(len, pos0),
                    (fuel - 1) as nat,
                );
                lemma_parse_binary_rest_fuel_mono(
                    models,
                    pos2,
                    primary_model,
                    parent_precedence as nat,
                    spec_binary_rest_fuel(len, pos2),
                    (fuel - 1) as nat,
                );
                assert(mid.skip(base.len() as int) + final(reporter)@.skip(mid.len() as int)
                    =~= final(reporter)@.skip(base.len() as int));
            }
            result
        }
    }

    /// Fold binary operators into `left` while their precedence strictly
    /// exceeds `parent_precedence`.
    fn parse_binary_rest(
        &mut self,
        left: ExpressionSyntax,
        parent_precedence: usize,
        reporter: &mut ErrorReporter,
    ) -> (r: ExpressionSyntax)
        requires
            old(self).wf(),
        ensures
            final(self).wf(),
            final(self).tokens == old(self).tokens,
            old(self).position <= final(self).position,
            old(reporter)@.is_prefix_of(final(reporter)@),
            spec_parse_binary_rest(
                old(self).models(),
                old(self).position as int,
                left@,
                parent_precedence as nat,
                spec_binary_rest_fuel(old(self).models().len() as int, old(self).position as int),
            ) == Some(
                ParseStep {
                    expr: r@,
                    pos: final(self).position as int,
                    diags: final(reporter)@.skip(old(reporter)@.len() as int),
                },
            ),
        decreases old(self).tokens@.len() - old(self).position, 1int,
    {
        let ghost models = old(self).models();
        let ghost pos0 = old(self).position as int;
        let ghost len = models.len() as int;
        let ghost fuel = spec_binary_rest_fuel(len, pos0);
        let ghost base = old(reporter)@;
        let precedence = self.current().kind().binary_operator_precedence();
        if precedence == 0 || precedence <= parent_precedence {
            proof {
                assert(final(reporter)@.skip(base.len() as int) =~= Seq::<
                    DiagnosticModel,
                >::empty());
            }
            return left;
        }
        let operator_token = self.next_token();
        let ghost pos1 = self.position as int;
        let right = self.parse_expression(precedence, reporter);
        let ghost mid = reporter@;
        let ghost pos2 = self.position as int;
        let combined = ExpressionSyntax::Binary {
            left: Box::new(left),
            operator_token,
            right: Box::new(right),
        };
        let ghost combined_model = combined@;
        let result = self.parse_binary_rest(combined, parent_precedence, reporter);
        proof {
            lemma_parse_expression_fuel_mono(
                models,
                pos1,
                precedence as nat,
                spec_expression_fuel(len, pos1),
                (fuel - 1) as nat,
            );
            lemma_parse_binary_rest_fuel_mono(
                models,
                pos2,
                combined_model,
                parent_precedence as nat,
                spec_binary_rest_fuel(len, pos2),
                (fuel - 1) as nat,
            );
            assert(mid.skip(base.len() as int) + final(reporter)@.skip(mid.len() as int)
                =~= final(reporter)@.skip(base.len() as int));
        }
        result
    }

    /// Lex `text` and parse the single expression it spells into a
    /// syntax tree, reporting every lexer and parser diagnostic to
    /// `reporter`, in order.
    pub fn parse(text: SourceText, reporter: &mut ErrorReporter) -> (r: SyntaxTree)
        requires
            text.wf(),
        ensures
            r.wf(),
            r.spec_text() == text@,
            r.spec_root() == spec_parse_text(text@).expr,
            r.spec_eof() == spec_lex(text@, 0).last(),
            final(reporter)@ == old(reporter)@ + spec_lex_diags(text@, 0) + spec_parse_text(
                text@,
            ).diags,
    {
        let ghost base = old(reporter)@;
        let tokens = Lexer::get_tokens(&text, reporter);
        let ghost mid = reporter@;
        proof {
            lemma_lex_ends_in_one_eof(text@, 0);
        }
        let mut parser = Parser::new(tokens);
        let root = parser.parse_expression(0, reporter);
        let eof_index = parser.tokens.len() - 1;
        let end_of_file_token = parser.tokens[eof_index].duplicate();
        proof {
            assert(end_of_file_token@ == spec_lex(text@, 0).last());
            assert(final(reporter)@ =~= base + spec_lex_diags(text@, 0) + spec_parse_text(
                text@,
            ).diags);
        }
        SyntaxTree::new(root, end_of_file_token, text)
    }

    /// Parse a primary expression.
    fn parse_primary(&mut self, reporter: &mut ErrorReporter) -> (r: ExpressionSyntax)
        requires
            old(self).wf(),
        ensures
            final(self).wf(),
            final(self).tokens == old(self).tokens,
            old(self).position <= final(self).position,
            old(reporter)@.is_prefix_of(final(reporter)@),
            spec_parse_primary(
                old(self).models(),
                old(self).position as int,
                spec_primary_fuel(old(self).models().len() as int, old(self).position as int),
            ) == Some(
                ParseStep {
                    expr: r@,
                    pos: final(self).position as int,
                    diags: final(reporter)@.skip(old(reporter)@.len() as int),
                },
            ),
        decreases old(self).tokens@.len() - old(self).position, 0int,
    {
        let ghost models = old(self).models();
        let ghost pos0 = old(self).position as int;
        let ghost len = models.len() as int;
        let ghost fuel = spec_primary_fuel(len, pos0);
        let ghost base = old(reporter)@;
        let kind = self.current().kind();
        if kind == SyntaxKind::OpenParenthesisToken {
            let open_parenthesis_token = self.next_token();
            let ghost pos1 = self.position as int;
            let expression = self.parse_expression(0, reporter);
            let ghost mid = reporter@;
            let ghost mid_pos = self.position as int;
            let close_parenthesis_token = self.match_token(
                SyntaxKind::CloseParenthesisToken,
                reporter,
            );
            let result = ExpressionSyntax::Parenthesized {
                open_parenthesis_token,
                expression: Box::new(expression),
                close_parenthesis_token,
            };
            proof {
                lemma_parse_expression_fuel_mono(
                    models,
                    pos1,
                    0,
                    spec_expression_fuel(len, pos1),
                    (fuel - 1) as nat,
                );
                let (close, pos2, close_diags) = spec_match_token(
                    models,
                    mid_pos,
                    SyntaxKind::CloseParenthesisToken,
                );
                assert(final(reporter)@.skip(mid.len() as int) =~= close_diags);
                assert(mid.skip(base.len() as int) + final(reporter)@.skip(mid.len() as int)
                    =~= final(reporter)@.skip(base.len() as int));
            }
            result
        } else if kind == SyntaxKind::TrueKeyword || kind == SyntaxKind::FalseKeyword {
            let literal_token = self.next_token();
            let result = ExpressionSyntax::Literal {
                literal_token,
                value: SilverValue::Boolean(kind == SyntaxKind::TrueKeyword),
            };
            proof {
                assert(final(reporter)@.skip(base.len() as int) =~= Seq::<
                    DiagnosticModel,
                >::empty());
            }
            result
        } else if kind == SyntaxKind::IdentifierToken {
            let follows_equals = self.peek(1).kind() == SyntaxKind::EqualsToken;
            if follows_equals {
                let identifier_token = self.next_token();
                let equals_token = self.next_token();
                let ghost pos1 = self.position as int;
                let expression = self.parse_expression(0, reporter);
                let result = ExpressionSyntax::Assignment {
                    identifier_token,
                    equals_token,
                    expression: Box::new(expression),
                };
                proof {
                    lemma_parse_expression_fuel_mono(
                        models,
                        pos1,
                        0,
                        spec_expression_fuel(len, pos1),
                        (fuel - 1) as nat,
                    );
                    }
                result
            } else {
                let identifier_token = self.next_token();
                let result = ExpressionSyntax::Name { identifier_token };
                proof {
                    assert(final(reporter)@.skip(base.len() as int) =~= Seq::<
                        DiagnosticModel,
                    >::empty());
                    }
                result
            }
        } else {
            let literal_token = self.match_token(SyntaxKind::NumberToken, reporter);
            let value = match literal_token.value() {
                Some(v) => *v,
                None => SilverValue::Number(0),
            };
            let result = ExpressionSyntax::Literal { literal_token, value };
            proof {
                let (token, pos2, diags) = spec_match_token(models, pos0, SyntaxKind::NumberToken);
                assert(final(reporter)@.skip(base.len() as int) =~= diags);
            }
            result
        }
    }
}

/// The result of parsing a whole text: the tokens are lexed and the one
/// expression they spell is parsed at the lowest precedence.
pub open spec fn spec_parse_text(text: Seq<char>) -> ParseStep {
    let tokens = spec_lex(text, 0);
    spec_parse_expression(tokens, 0, 0, spec_expression_fuel(tokens.len() as int, 0))->0
}

/// The model of a unary node assembled from its parts.
pub open spec fn expression_model_of_unary(
    operator_token: TokenModel,
    operand: ExpressionModel,
) -> ExpressionModel {
    ExpressionModel::Unary { operator_token, operand: Box::new(operand) }
}

} // verus!
