//! The syntax tree: the parsed root expression, the end-of-file token,
//! and the source text, with the parsing entry points.

use vstd::prelude::*;
use vstd::string::StrSliceExecFns;
use vstd::string::StringExecFns;
use crate::diagnostics::ErrorReporter;
use crate::expression::{ExpressionModel, ExpressionSyntax};
use crate::lexer::{spec_lex, spec_lex_diags, Lexer};
use crate::parser::{spec_parse_text, Parser};
use crate::text::SourceText;
use crate::token::{token_models, SyntaxToken, TokenModel};
use crate::syntax_kind::{spec_kind_name, SyntaxKind};
use crate::value::SilverValue;

verus! {

/// The parsed form of one source text: the root expression, the final
/// end-of-file token, and the text itself.
pub struct SyntaxTree {
    root: ExpressionSyntax,
    end_of_file_token: SyntaxToken,
    text: SourceText,
}

impl SyntaxTree {
    pub closed spec fn spec_root(&self) -> ExpressionModel {
        self.root@
    }

    pub closed spec fn spec_eof(&self) -> TokenModel {
        self.end_of_file_token@
    }

    pub closed spec fn spec_text(&self) -> Seq<char> {
        self.text@
    }

    pub closed spec fn wf(&self) -> bool {
        self.text.wf()
    }

    pub(crate) fn new(
        root: ExpressionSyntax,
        end_of_file_token: SyntaxToken,
        text: SourceText,
    ) -> (r: SyntaxTree)
        ensures
            r.spec_root() == root@,
            r.spec_eof() == end_of_file_token@,
            r.spec_text() == text@,
            text.wf() ==> r.wf(),
    {
        SyntaxTree { root, end_of_file_token, text }
    }

    /// Parse an owned source text.
    fn parse(text: SourceText, reporter: &mut ErrorReporter) -> (r: SyntaxTree)
        requires
            text.wf(),
        ensures
            r.wf(),
            r.spec_text() == text@,
            r.spec_root() == spec_parse_text(text@).expr,
            r.spec_eof() == spec_lex(text@, 0).last(),
            final(reporter)@ == old(reporter)@ + spec_lex_diags(text@, 0) + spec_parse_text(
                text@,
            ).diags,
    {
        Parser::parse(text, reporter)
    }

    /// Parse a string: the primary entry point. Lexer and parser
    /// diagnostics are reported to `reporter`, in order.
    pub fn parse_str(text: &str, reporter: &mut ErrorReporter) -> (r: SyntaxTree)
        ensures
            r.wf(),
            r.spec_text() == text@,
            r.spec_root() == spec_parse_text(text@).expr,
            r.spec_eof() == spec_lex(text@, 0).last(),
            final(reporter)@ == old(reporter)@ + spec_lex_diags(text@, 0) + spec_parse_text(
                text@,
            ).diags,
    {
        Self::parse(SourceText::new(text), reporter)
    }

    /// Lex a text into its token sequence without parsing: the lex-only
    /// entry point for tooling.
    pub fn parse_tokens(text: &SourceText, reporter: &mut ErrorReporter) -> (tokens: Vec<
        SyntaxToken,
    >)
        requires
            text.wf(),
        ensures
            token_models(tokens@) == spec_lex(text@, 0),
            final(reporter)@ == old(reporter)@ + spec_lex_diags(text@, 0),
    {
        Lexer::get_tokens(text, reporter)
    }

    /// The parsed root expression.
    pub fn root(&self) -> (r: &ExpressionSyntax)
        ensures
            r@ == self.spec_root(),
    {
        &self.root
    }

    /// The end-of-file token that closed the token stream.
    pub fn end_of_file_token(&self) -> (r: &SyntaxToken)
        ensures
            r@ == self.spec_eof(),
    {
        &self.end_of_file_token
    }

    /// The debug ASCII tree of the parsed root: one line per node, with
    /// `+--`/`\\--` branch glyphs and inline literal values. A
    /// diagnostic aid, not a serialization format.
    pub fn pretty_print(&self) -> (r: String)
        ensures
            r@ == spec_pretty_expression(self.spec_root(), Seq::<char>::empty(), true),
    {
        let mut out: Vec<char> = Vec::new();
        push_expression_tree(&mut out, &self.root, "", true);
        proof {
            reveal_strlit("");
            assert(""@ =~= Seq::<char>::empty());
            assert(out@ =~= spec_pretty_expression(self.spec_root(), Seq::<char>::empty(), true));
        }
        string_from_chars(&out)
    }

    /// The source text this tree was parsed from.
    pub fn text(&self) -> (r: &SourceText)
        ensures
            r@ == self.spec_text(),
            self.wf() ==> r.wf(),
    {
        &self.text
    }
}

/// The decimal digits of a number, most significant first.
pub open spec fn spec_nat_digits(n: nat) -> Seq<char>
    decreases n,
{
    if n < 10 {
        seq![((48 + n) as u8) as char]
    } else {
        spec_nat_digits(n / 10) + seq![((48 + (n % 10)) as u8) as char]
    }
}

/// The rendering of a runtime value: decimal digits with an optional
/// sign, or the boolean keywords.
pub open spec fn spec_render_value(v: SilverValue) -> Seq<char> {
    match v {
        SilverValue::Number(n) => if n < 0 {
            seq!['-'] + spec_nat_digits((0 - n) as nat)
        } else {
            spec_nat_digits(n as nat)
        },
        SilverValue::Boolean(b) => if b {
            "true"@
        } else {
            "false"@
        },
    }
}

/// The branch glyph before a node.
pub open spec fn spec_marker(is_last: bool) -> Seq<char> {
    if is_last {
        "\\--"@
    } else {
        "+--"@
    }
}

/// The indent handed to a node's children.
pub open spec fn spec_child_indent(indent: Seq<char>, is_last: bool) -> Seq<char> {
    indent + (if is_last {
        "   "@
    } else {
        "|  "@
    })
}

/// The rendering of a token's literal value, when it has one.
pub open spec fn spec_value_suffix(v: Option<SilverValue>) -> Seq<char> {
    match v {
        Some(value) => seq![' '] + spec_render_value(value),
        None => Seq::<char>::empty(),
    }
}

/// One tree line for a token leaf.
pub open spec fn spec_pretty_token(t: TokenModel, indent: Seq<char>, is_last: bool) -> Seq<char> {
    indent + spec_marker(is_last) + spec_kind_name(t.kind) + spec_value_suffix(t.value) + seq![
        '\n',
    ]
}

/// The node kind of an expression.
pub open spec fn spec_expression_kind(e: ExpressionModel) -> SyntaxKind {
    match e {
        ExpressionModel::Literal { .. } => SyntaxKind::LiteralExpression,
        ExpressionModel::Name { .. } => SyntaxKind::NameExpression,
        ExpressionModel::Unary { .. } => SyntaxKind::UnaryExpression,
        ExpressionModel::Binary { .. } => SyntaxKind::BinaryExpression,
        ExpressionModel::Parenthesized { .. } => SyntaxKind::ParenthesizedExpression,
        ExpressionModel::Assignment { .. } => SyntaxKind::AssignmentExpression,
    }
}

/// The debug tree of an expression: its own line, then its children
/// (tokens and sub-expressions, in source order), each indented one
/// step, the last one under a closing glyph.
pub open spec fn spec_pretty_expression(
    e: ExpressionModel,
    indent: Seq<char>,
    is_last: bool,
) -> Seq<char>
    decreases e,
{
    let value_suffix = match e {
        ExpressionModel::Literal { value, .. } => spec_value_suffix(Some(value)),
        _ => Seq::<char>::empty(),
    };
    let head = indent + spec_marker(is_last) + spec_kind_name(spec_expression_kind(e))
        + value_suffix + seq!['\n'];
    let ci = spec_child_indent(indent, is_last);
    head + match e {
        ExpressionModel::Literal { literal_token, .. } => spec_pretty_token(
            literal_token,
            ci,
            true,
        ),
        ExpressionModel::Name { identifier_token } => spec_pretty_token(identifier_token, ci, true),
        ExpressionModel::Unary { operator_token, operand } => spec_pretty_token(
            operator_token,
            ci,
            false,
        ) + spec_pretty_expression(*operand, ci, true),
        ExpressionModel::Binary { left, operator_token, right } => spec_pretty_expression(
            *left,
            ci,
            false,
        ) + spec_pretty_token(operator_token, ci, false) + spec_pretty_expression(*right, ci, true),
        ExpressionModel::Parenthesized {
            open_parenthesis_token,
            expression,
            close_parenthesis_token,
        } => spec_pretty_token(open_parenthesis_token, ci, false) + spec_pretty_expression(
            *expression,
            ci,
            false,
        ) + spec_pretty_token(close_parenthesis_token, ci, true),
        ExpressionModel::Assignment { identifier_token, equals_token, expression } => {
            spec_pretty_token(identifier_token, ci, false) + spec_pretty_token(
                equals_token,
                ci,
                false,
            ) + spec_pretty_expression(*expression, ci, true)
        },
    }
}

/// Append the characters of a string slice.
fn push_str_chars(out: &mut Vec<char>, s: &str)
    ensures
        final(out)@ == old(out)@ + s@,
{
    let n = s.unicode_len();
    let mut i: usize = 0;
    proof {
        assert(out@ =~= old(out)@ + s@.take(0));
    }
    while i < n
        invariant
            i <= n,
            n == s@.len(),
            out@ == old(out)@ + s@.take(i as int),
        decreases n - i,
    {
        out.push(s.get_char(i));
        proof {
            assert(out@ =~= old(out)@ + s@.take(i + 1));
        }
        i += 1;
    }
    proof {
        assert(s@.take(n as int) =~= s@);
    }
}

/// Append the decimal digits of a number.
fn push_number(out: &mut Vec<char>, n: u64)
    ensures
        final(out)@ == old(out)@ + spec_nat_digits(n as nat),
    decreases n,
{
    if n < 10 {
        out.push((48 + n as u8) as char);
        proof {
            assert(final(out)@ =~= old(out)@ + spec_nat_digits(n as nat));
        }
    } else {
        push_number(out, n / 10);
        out.push((48 + (n % 10) as u8) as char);
        proof {
            assert(final(out)@ =~= old(out)@ + spec_nat_digits(n as nat));
        }
    }
}

/// Append the rendering of a runtime value.
fn push_value(out: &mut Vec<char>, v: &SilverValue)
    ensures
        final(out)@ == old(out)@ + spec_render_value(*v),
{
    match v {
        SilverValue::Number(n) => {
            if *n >= 0 {
                push_number(out, *n as u64);
            } else {
                out.push('-');
                let magnitude: u64 = if *n == i64::MIN {
                    9223372036854775808u64
                } else {
                    (-*n) as u64
                };
                proof {
                    assert(magnitude as nat == (0 - *n as int) as nat);
                }
                push_number(out, magnitude);
                proof {
                    assert(final(out)@ =~= old(out)@ + spec_render_value(*v));
                }
            }
        },
        SilverValue::Boolean(b) => {
            if *b {
                push_str_chars(out, "true");
            } else {
                push_str_chars(out, "false");
            }
        },
    }
}

/// Append one tree line for a token leaf.
fn push_token_line(out: &mut Vec<char>, token: &SyntaxToken, indent: &str, is_last: bool)
    ensures
        final(out)@ == old(out)@ + spec_pretty_token(token@, indent@, is_last),
{
    push_str_chars(out, indent);
    push_str_chars(out, if is_last { "\\--" } else { "+--" });
    push_str_chars(out, token.kind().name());
    match token.value() {
        Some(value) => {
            let v = *value;
            out.push(' ');
            push_value(out, &v);
        },
        None => (),
    }
    out.push('\n');
    proof {
        assert(final(out)@ =~= old(out)@ + spec_pretty_token(token@, indent@, is_last));
    }
}

/// Append the debug tree of an expression.
#[verifier::rlimit(100)]
fn push_expression_tree(out: &mut Vec<char>, e: &ExpressionSyntax, indent: &str, is_last: bool)
    ensures
        final(out)@ == old(out)@ + spec_pretty_expression(e@, indent@, is_last),
    decreases e,
{
    push_str_chars(out, indent);
    push_str_chars(out, if is_last { "\\--" } else { "+--" });
    let kind = match e {
        ExpressionSyntax::Literal { .. } => SyntaxKind::LiteralExpression,
        ExpressionSyntax::Name { .. } => SyntaxKind::NameExpression,
        ExpressionSyntax::Unary { .. } => SyntaxKind::UnaryExpression,
        ExpressionSyntax::Binary { .. } => SyntaxKind::BinaryExpression,
        ExpressionSyntax::Parenthesized { .. } => SyntaxKind::ParenthesizedExpression,
        ExpressionSyntax::Assignment { .. } => SyntaxKind::AssignmentExpression,
    };
    push_str_chars(out, kind.name());
    match e {
        ExpressionSyntax::Literal { value, .. } => {
            out.push(' ');
            push_value(out, value);
        },
        _ => (),
    }
    out.push('\n');
    let mut child_indent = indent.to_owned();
    child_indent.append(if is_last { "   " } else { "|  " });
    match e {
        ExpressionSyntax::Literal { literal_token, .. } => {
            push_token_line(out, literal_token, child_indent.as_str(), true);
        },
        ExpressionSyntax::Name { identifier_token } => {
            push_token_line(out, identifier_token, child_indent.as_str(), true);
        },
        ExpressionSyntax::Unary { operator_token, operand } => {
            push_token_line(out, operator_token, child_indent.as_str(), false);
            push_expression_tree(out, operand, child_indent.as_str(), true);
        },
        ExpressionSyntax::Binary { left, operator_token, right } => {
            push_expression_tree(out, left, child_indent.as_str(), false);
            push_token_line(out, operator_token, child_indent.as_str(), false);
            push_expression_tree(out, right, child_indent.as_str(), true);
        },
        ExpressionSyntax::Parenthesized {
            open_parenthesis_token,
            expression,
            close_parenthesis_token,
        } => {
            push_token_line(out, open_parenthesis_token, child_indent.as_str(), false);
            push_expression_tree(out, expression, child_indent.as_str(), false);
            push_token_line(out, close_parenthesis_token, child_indent.as_str(), true);
        },
        ExpressionSyntax::Assignment { identifier_token, equals_token, expression } => {
            push_token_line(out, identifier_token, child_indent.as_str(), false);
            push_token_line(out, equals_token, child_indent.as_str(), false);
            push_expression_tree(out, expression, child_indent.as_str(), true);
        },
    }
    proof {
        assert(final(out)@ =~= old(out)@ + spec_pretty_expression(e@, indent@, is_last));
    }
}

/// Relies on `String::from_iter` over a vector's characters: the
/// resulting string holds exactly those characters, in order.
#[verifier::external_body]
fn string_from_chars(chars: &Vec<char>) -> (r: String)
    ensures
        r@ == chars@,
{
    chars.iter().collect()
}

/// Parsing is deterministic: lexing and parsing are functions of the
/// source text alone, so identical texts yield identical token sequences
/// and structurally identical trees, with the same kinds and spans.
pub proof fn lemma_parse_deterministic(text1: Seq<char>, text2: Seq<char>)
    requires
        text1 == text2,
    ensures
        spec_lex(text1, 0) == spec_lex(text2, 0),
        spec_parse_text(text1) == spec_parse_text(text2),
{
}

} // verus!
