//! The lexer: source text to a finite, fully materialized token sequence.
//!
//! Whitespace is consumed and discarded. Digit runs become number tokens
//! with a parsed value; a literal that does not fit the value type reports
//! a lexer error and still emits a placeholder token, so scanning never
//! aborts. Letter runs become identifiers, reclassified as keywords for
//! `true`/`false`. Punctuation is matched with two-character lookahead
//! first, falling back to single characters; an unrecognized character
//! reports a lexer error and emits one bad token while advancing exactly
//! one character. The stream always ends in exactly one end-of-file token.

use vstd::prelude::*;
use vstd::string::StringExecFns;
use crate::diagnostics::{Diagnostic, DiagnosticKind, DiagnosticModel, ErrorReporter};
use crate::syntax_kind::{keyword_kind, spec_keyword_kind, SyntaxKind};
use crate::text::{SourceText, TextSpan};
use crate::token::{token_models, SyntaxToken, TokenModel};
use crate::value::SilverValue;

verus! {

pub open spec fn is_digit_char(c: char) -> bool {
    ('0' as u32) <= (c as u32) && (c as u32) <= ('9' as u32)
}

pub open spec fn is_letter_char(c: char) -> bool {
    (('a' as u32) <= (c as u32) && (c as u32) <= ('z' as u32)) || (('A' as u32) <= (c as u32)
        && (c as u32) <= ('Z' as u32))
}

pub open spec fn is_whitespace_char(c: char) -> bool {
    c == ' ' || c == '\t' || c == '\n' || c == '\r'
}

fn digit_char(c: char) -> (r: bool)
    ensures
        r == is_digit_char(c),
{
    ('0' as u32) <= (c as u32) && (c as u32) <= ('9' as u32)
}

fn letter_char(c: char) -> (r: bool)
    ensures
        r == is_letter_char(c),
{
    (('a' as u32) <= (c as u32) && (c as u32) <= ('z' as u32)) || (('A' as u32) <= (c as u32)
        && (c as u32) <= ('Z' as u32))
}

fn whitespace_char(c: char) -> (r: bool)
    ensures
        r == is_whitespace_char(c),
{
    c == ' ' || c == '\t' || c == '\n' || c == '\r'
}

/// Length of the run of digit characters starting at `pos`.
pub open spec fn spec_digit_run_len(text: Seq<char>, pos: int) -> nat
    decreases text.len() - pos,
{
    if pos < text.len() && is_digit_char(text[pos]) {
        1 + spec_digit_run_len(text, pos + 1)
    } else {
        0
    }
}

/// Length of the run of letter characters starting at `pos`.
pub open spec fn spec_letter_run_len(text: Seq<char>, pos: int) -> nat
    decreases text.len() - pos,
{
    if pos < text.len() && is_letter_char(text[pos]) {
        1 + spec_letter_run_len(text, pos + 1)
    } else {
        0
    }
}

pub proof fn lemma_digit_run_len_bound(text: Seq<char>, pos: int)
    requires
        0 <= pos <= text.len(),
    ensures
        spec_digit_run_len(text, pos) <= text.len() - pos,
    decreases text.len() - pos,
{
    if pos < text.len() && is_digit_char(text[pos]) {
        lemma_digit_run_len_bound(text, pos + 1);
    }
}

/// Every character inside a digit run is a digit.
pub proof fn lemma_digit_run_chars(text: Seq<char>, pos: int)
    requires
        0 <= pos <= text.len(),
    ensures
        forall|j: int|
            pos <= j < pos + spec_digit_run_len(text, pos) ==> is_digit_char(text[j]),
    decreases text.len() - pos,
{
    if pos < text.len() && is_digit_char(text[pos]) {
        lemma_digit_run_chars(text, pos + 1);
    }
}

/// Every character inside a letter run is a letter.
pub proof fn lemma_letter_run_chars(text: Seq<char>, pos: int)
    requires
        0 <= pos <= text.len(),
    ensures
        forall|j: int|
            pos <= j < pos + spec_letter_run_len(text, pos) ==> is_letter_char(text[j]),
    decreases text.len() - pos,
{
    if pos < text.len() && is_letter_char(text[pos]) {
        lemma_letter_run_chars(text, pos + 1);
    }
}

/// A letter run over an all-letter suffix reaches the end of the text.
proof fn lemma_letter_run_all(text: Seq<char>, pos: int)
    requires
        0 <= pos <= text.len(),
        forall|j: int| pos <= j < text.len() ==> is_letter_char(text[j]),
    ensures
        spec_letter_run_len(text, pos) == text.len() - pos,
    decreases text.len() - pos,
{
    if pos < text.len() {
        lemma_letter_run_all(text, pos + 1);
    }
}

pub proof fn lemma_letter_run_len_bound(text: Seq<char>, pos: int)
    requires
        0 <= pos <= text.len(),
    ensures
        spec_letter_run_len(text, pos) <= text.len() - pos,
    decreases text.len() - pos,
{
    if pos < text.len() && is_letter_char(text[pos]) {
        lemma_letter_run_len_bound(text, pos + 1);
    }
}

/// Numeric value of a digit character.
pub open spec fn spec_digit_value(c: char) -> int {
    (c as u32) - ('0' as u32)
}

/// The number denoted by a sequence of digit characters, most significant
/// first.
pub open spec fn spec_digits_value(digits: Seq<char>) -> int
    decreases digits.len(),
{
    if digits.len() == 0 {
        0
    } else {
        spec_digits_value(digits.drop_last()) * 10 + spec_digit_value(digits.last())
    }
}

pub proof fn lemma_digits_value_nonneg(digits: Seq<char>)
    requires
        forall|j: int| 0 <= j < digits.len() ==> is_digit_char(digits[j]),
    ensures
        spec_digits_value(digits) >= 0,
    decreases digits.len(),
{
    if digits.len() > 0 {
        lemma_digits_value_nonneg(digits.drop_last());
    }
}

/// What one token scan at a non-whitespace position yields: the token
/// kind, how many characters it spans beyond the first, its literal
/// value, and whether a lexer error is reported for it.
pub ghost struct ScanModel {
    pub kind: SyntaxKind,
    pub extra: nat,
    pub value: Option<SilverValue>,
    pub error: bool,
}

/// One token scan at position `pos` (meaningful for `0 <= pos < len` and
/// a non-whitespace character at `pos`).
pub open spec fn spec_scan_token(text: Seq<char>, pos: int) -> ScanModel {
    let c = text[pos];
    if is_digit_char(c) {
        let extra = spec_digit_run_len(text, pos + 1);
        let digits = text.subrange(pos, pos + 1 + extra);
        if spec_digits_value(digits) > i64::MAX {
            ScanModel {
                kind: SyntaxKind::NumberToken,
                extra,
                value: Some(SilverValue::Number(0)),
                error: true,
            }
        } else {
            ScanModel {
                kind: SyntaxKind::NumberToken,
                extra,
                value: Some(SilverValue::Number(spec_digits_value(digits) as i64)),
                error: false,
            }
        }
    } else if is_letter_char(c) {
        let extra = spec_letter_run_len(text, pos + 1);
        let word = text.subrange(pos, pos + 1 + extra);
        ScanModel { kind: spec_keyword_kind(word), extra, value: None, error: false }
    } else if c == '&' && pos + 1 < text.len() && text[pos + 1] == '&' {
        ScanModel { kind: SyntaxKind::AmpersandAmpersandToken, extra: 1, value: None, error: false }
    } else if c == '|' && pos + 1 < text.len() && text[pos + 1] == '|' {
        ScanModel { kind: SyntaxKind::PipePipeToken, extra: 1, value: None, error: false }
    } else if c == '=' && pos + 1 < text.len() && text[pos + 1] == '=' {
        ScanModel { kind: SyntaxKind::EqualsEqualsToken, extra: 1, value: None, error: false }
    } else if c == '!' && pos + 1 < text.len() && text[pos + 1] == '=' {
        ScanModel { kind: SyntaxKind::BangEqualsToken, extra: 1, value: None, error: false }
    } else if c == '+' {
        ScanModel { kind: SyntaxKind::PlusToken, extra: 0, value: None, error: false }
    } else if c == '-' {
        ScanModel { kind: SyntaxKind::MinusToken, extra: 0, value: None, error: false }
    } else if c == '*' {
        ScanModel { kind: SyntaxKind::StarToken, extra: 0, value: None, error: false }
    } else if c == '/' {
        ScanModel { kind: SyntaxKind::SlashToken, extra: 0, value: None, error: false }
    } else if c == '(' {
        ScanModel { kind: SyntaxKind::OpenParenthesisToken, extra: 0, value: None, error: false }
    } else if c == ')' {
        ScanModel { kind: SyntaxKind::CloseParenthesisToken, extra: 0, value: None, error: false }
    } else if c == '!' {
        ScanModel { kind: SyntaxKind::BangToken, extra: 0, value: None, error: false }
    } else if c == '=' {
        ScanModel { kind: SyntaxKind::EqualsToken, extra: 0, value: None, error: false }
    } else {
        ScanModel { kind: SyntaxKind::BadToken, extra: 0, value: None, error: true }
    }
}

/// The token that a scan at `pos` emits.
pub open spec fn spec_token_at(text: Seq<char>, pos: int) -> TokenModel {
    let s = spec_scan_token(text, pos);
    TokenModel {
        kind: s.kind,
        span: TextSpan { start: pos as usize, length: (1 + s.extra) as usize },
        text: text.subrange(pos, pos + 1 + s.extra),
        value: s.value,
    }
}

/// The diagnostic that an erroneous scan at `pos` reports.
pub open spec fn spec_lex_diag_at(text: Seq<char>, pos: int) -> DiagnosticModel {
    let s = spec_scan_token(text, pos);
    let chunk = text.subrange(pos, pos + 1 + s.extra);
    DiagnosticModel {
        span: TextSpan { start: pos as usize, length: (1 + s.extra) as usize },
        message: if is_digit_char(text[pos]) {
            "not a valid number: "@ + chunk
        } else {
            "unrecognized character: "@ + chunk
        },
        kind: DiagnosticKind::LexerError,
    }
}

/// The end-of-file token, spanning zero characters at the end of the text.
pub open spec fn spec_eof_token(text: Seq<char>) -> TokenModel {
    TokenModel {
        kind: SyntaxKind::EndOfFileToken,
        span: TextSpan { start: text.len() as usize, length: 0 },
        text: Seq::<char>::empty(),
        value: None,
    }
}

/// The full token sequence of `text` from position `pos` on.
pub open spec fn spec_lex(text: Seq<char>, pos: int) -> Seq<TokenModel>
    decreases text.len() - pos,
        when 0 <= pos <= text.len()
    via spec_lex_decreases
{
    if pos >= text.len() {
        seq![spec_eof_token(text)]
    } else if is_whitespace_char(text[pos]) {
        spec_lex(text, pos + 1)
    } else {
        seq![spec_token_at(text, pos)] + spec_lex(text, pos + 1 + spec_scan_token(text, pos).extra)
    }
}

#[via_fn]
proof fn spec_lex_decreases(text: Seq<char>, pos: int) {
    if 0 <= pos < text.len() && !is_whitespace_char(text[pos]) {
        lemma_digit_run_len_bound(text, pos + 1);
        lemma_letter_run_len_bound(text, pos + 1);
    }
}

/// The diagnostics that lexing `text` from position `pos` on reports, in
/// order.
pub open spec fn spec_lex_diags(text: Seq<char>, pos: int) -> Seq<DiagnosticModel>
    decreases text.len() - pos,
        when 0 <= pos <= text.len()
    via spec_lex_diags_decreases
{
    if pos >= text.len() {
        Seq::<DiagnosticModel>::empty()
    } else if is_whitespace_char(text[pos]) {
        spec_lex_diags(text, pos + 1)
    } else {
        let s = spec_scan_token(text, pos);
        let rest = spec_lex_diags(text, pos + 1 + s.extra);
        if s.error {
            seq![spec_lex_diag_at(text, pos)] + rest
        } else {
            rest
        }
    }
}

#[via_fn]
proof fn spec_lex_diags_decreases(text: Seq<char>, pos: int) {
    if 0 <= pos < text.len() && !is_whitespace_char(text[pos]) {
        lemma_digit_run_len_bound(text, pos + 1);
        lemma_letter_run_len_bound(text, pos + 1);
    }
}

/// Lexing is total: every text yields a finite token sequence that ends
/// in exactly one end-of-file token.
pub proof fn lemma_lex_ends_in_one_eof(text: Seq<char>, pos: int)
    requires
        0 <= pos <= text.len(),
    ensures
        spec_lex(text, pos).len() >= 1,
        spec_lex(text, pos).last().kind == SyntaxKind::EndOfFileToken,
        forall|i: int|
            0 <= i < spec_lex(text, pos).len() - 1 ==> spec_lex(text, pos)[i].kind
                != SyntaxKind::EndOfFileToken,
    decreases text.len() - pos,
{
    if pos >= text.len() {
    } else if is_whitespace_char(text[pos]) {
        lemma_lex_ends_in_one_eof(text, pos + 1);
    } else {
        let s = spec_scan_token(text, pos);
        lemma_digit_run_len_bound(text, pos + 1);
        lemma_letter_run_len_bound(text, pos + 1);
        lemma_lex_ends_in_one_eof(text, pos + 1 + s.extra);
        assert(spec_token_at(text, pos).kind != SyntaxKind::EndOfFileToken);
    }
}

/// Re-lexing one token's text alone reproduces the token's kind.
proof fn lemma_scan_round_trip(text: Seq<char>, pos: int)
    requires
        0 <= pos < text.len(),
        !is_whitespace_char(text[pos]),
    ensures
        spec_lex(spec_token_at(text, pos).text, 0).len() > 0,
        spec_lex(spec_token_at(text, pos).text, 0)[0].kind == spec_token_at(text, pos).kind,
{
    let c = text[pos];
    let s = spec_scan_token(text, pos);
    let chunk = text.subrange(pos, pos + 1 + s.extra);
    lemma_digit_run_len_bound(text, pos + 1);
    lemma_letter_run_len_bound(text, pos + 1);
    assert(chunk.len() == 1 + s.extra);
    assert(chunk[0] == c);
    if is_digit_char(c) {
        assert(spec_scan_token(chunk, 0).kind == SyntaxKind::NumberToken);
    } else if is_letter_char(c) {
        lemma_letter_run_chars(text, pos + 1);
        assert(forall|j: int| 1 <= j < chunk.len() ==> chunk[j] == text[pos + j]);
        assert(forall|j: int| 1 <= j < chunk.len() ==> is_letter_char(chunk[j]));
        lemma_letter_run_all(chunk, 1);
        assert(spec_letter_run_len(chunk, 1) == s.extra);
        assert(chunk.subrange(0, 1 + s.extra as int) =~= chunk);
        assert(spec_scan_token(chunk, 0).kind == spec_keyword_kind(chunk));
        assert(s.kind == spec_keyword_kind(chunk));
    } else {
        if s.extra == 1 {
            assert(chunk[1] == text[pos + 1]);
        }
        assert(spec_scan_token(chunk, 0).kind == s.kind);
    }
    assert(spec_lex(chunk, 0)[0] == spec_token_at(chunk, 0));
}

/// Round trip: the text spanned by any token of a lexed sequence,
/// re-lexed alone, reproduces that token's kind.
pub proof fn lemma_token_round_trip(text: Seq<char>, pos: int, i: int)
    requires
        0 <= pos <= text.len(),
        0 <= i < spec_lex(text, pos).len(),
    ensures
        spec_lex(spec_lex(text, pos)[i].text, 0).len() > 0,
        spec_lex(spec_lex(text, pos)[i].text, 0)[0].kind == spec_lex(text, pos)[i].kind,
    decreases text.len() - pos,
{
    if pos >= text.len() {
        assert(spec_lex(text, pos)[0] == spec_eof_token(text));
        assert(spec_lex(Seq::<char>::empty(), 0)[0].kind == SyntaxKind::EndOfFileToken);
    } else if is_whitespace_char(text[pos]) {
        lemma_token_round_trip(text, pos + 1, i);
    } else {
        let s = spec_scan_token(text, pos);
        lemma_digit_run_len_bound(text, pos + 1);
        lemma_letter_run_len_bound(text, pos + 1);
        if i == 0 {
            lemma_scan_round_trip(text, pos);
        } else {
            lemma_token_round_trip(text, pos + 1 + s.extra, i - 1);
        }
    }
}

/// Find the first index at or after `start` that holds no digit.
fn scan_digit_run(text: &SourceText, start: usize) -> (end: usize)
    requires
        start <= text@.len(),
    ensures
        end == start + spec_digit_run_len(text@, start as int),
        end <= text@.len(),
{
    let n = text.len();
    let mut i: usize = start;
    while i < n && digit_char(text.char_at(i))
        invariant
            start <= i <= n,
            n == text@.len(),
            spec_digit_run_len(text@, start as int) == i - start + spec_digit_run_len(
                text@,
                i as int,
            ),
        decreases n - i,
    {
        i += 1;
    }
    i
}

/// Find the first index at or after `start` that holds no letter.
fn scan_letter_run(text: &SourceText, start: usize) -> (end: usize)
    requires
        start <= text@.len(),
    ensures
        end == start + spec_letter_run_len(text@, start as int),
        end <= text@.len(),
{
    let n = text.len();
    let mut i: usize = start;
    while i < n && letter_char(text.char_at(i))
        invariant
            start <= i <= n,
            n == text@.len(),
            spec_letter_run_len(text@, start as int) == i - start + spec_letter_run_len(
                text@,
                i as int,
            ),
        decreases n - i,
    {
        i += 1;
    }
    i
}

/// Parse the digit run `[start, end)` as an `i64`; `None` when the value
/// does not fit.
fn parse_number_value(text: &SourceText, start: usize, end: usize) -> (r: Option<i64>)
    requires
        start <= end <= text@.len(),
        forall|j: int| start <= j < end ==> is_digit_char(text@[j]),
    ensures
        r is Some <==> spec_digits_value(text@.subrange(start as int, end as int)) <= i64::MAX,
        r is Some ==> r->0 == spec_digits_value(text@.subrange(start as int, end as int)),
{
    let ghost chunk = text@.subrange(start as int, end as int);
    proof {
        assert(forall|j: int| 0 <= j < chunk.len() ==> is_digit_char(chunk[j]));
    }
    let mut value: i64 = 0;
    let mut overflow = false;
    let mut i: usize = start;
    while i < end
        invariant
            start <= i <= end <= text@.len(),
            chunk == text@.subrange(start as int, end as int),
            forall|j: int| start <= j < end ==> is_digit_char(text@[j]),
            !overflow ==> value == spec_digits_value(chunk.take(i - start)) && value >= 0,
            overflow ==> spec_digits_value(chunk.take(i - start)) > i64::MAX,
        decreases end - i,
    {
        let c = text.char_at(i);
        let d: i64 = ((c as u32) - ('0' as u32)) as i64;
        proof {
            assert(chunk[i - start] == text@[i as int]);
            assert(chunk.take(i + 1 - start).drop_last() =~= chunk.take(i - start));
            assert(chunk.take(i + 1 - start).last() == chunk[i - start]);
        }
        let ghost prev = spec_digits_value(chunk.take(i - start));
        let ghost next = spec_digits_value(chunk.take(i + 1 - start));
        proof {
            assert(next == prev * 10 + spec_digit_value(chunk[i - start]));
        }
        if !overflow {
            match value.checked_mul(10) {
                None => {
                    overflow = true;
                    proof {
                        assert(prev * 10 > i64::MAX || prev * 10 < i64::MIN);
                        assert(next > i64::MAX);
                    }
                },
                Some(v10) => {
                    match v10.checked_add(d) {
                        None => {
                            overflow = true;
                            proof {
                                assert(next > i64::MAX);
                            }
                        },
                        Some(nv) => {
                            value = nv;
                        },
                    }
                },
            }
        } else {
            proof {
                lemma_digits_value_nonneg(chunk.take(i - start));
                assert(prev * 10 >= prev);
                assert(next > i64::MAX);
            }
        }
        i += 1;
    }
    proof {
        assert(chunk.take(end - start) =~= chunk);
    }
    if overflow {
        None
    } else {
        Some(value)
    }
}

/// The lexer. It is stateless: one call scans a whole text.
pub struct Lexer {}

/// Scan the single token starting at the non-whitespace position `pos`,
/// reporting a lexer error if the token is erroneous.
fn scan_token(text: &SourceText, pos: usize, reporter: &mut ErrorReporter) -> (r: (
    SyntaxToken,
    usize,
))
    requires
        text.wf(),
        pos < text@.len(),
        !is_whitespace_char(text@[pos as int]),
    ensures
        r.0@ == spec_token_at(text@, pos as int),
        r.1 == pos + 1 + spec_scan_token(text@, pos as int).extra,
        pos < r.1 <= text@.len(),
        final(reporter)@ == if spec_scan_token(text@, pos as int).error {
            old(reporter)@.push(spec_lex_diag_at(text@, pos as int))
        } else {
            old(reporter)@
        },
{
    let ghost s = spec_scan_token(text@, pos as int);
    let n = text.len();
    let c = text.char_at(pos);
    if digit_char(c) {
        let end = scan_digit_run(text, pos + 1);
        proof {
            lemma_digit_run_chars(text@, pos + 1);
        }
        let tok_text = text.substring(pos, end);
        let span = TextSpan::new(pos, end - pos);
        let value: i64;
        match parse_number_value(text, pos, end) {
            Some(v) => {
                value = v;
            },
            None => {
                value = 0;
                let mut msg = String::from_str("not a valid number: ");
                msg.append(tok_text.as_str());
                reporter.report(Diagnostic::new(span, msg, DiagnosticKind::LexerError));
            },
        }
        let token = SyntaxToken::new(
            SyntaxKind::NumberToken,
            span,
            tok_text,
            Some(SilverValue::Number(value)),
        );
        (token, end)
    } else if letter_char(c) {
        let end = scan_letter_run(text, pos + 1);
        let tok_text = text.substring(pos, end);
        let span = TextSpan::new(pos, end - pos);
        let kind = keyword_kind(tok_text.as_str());
        let token = SyntaxToken::new(kind, span, tok_text, None);
        (token, end)
    } else {
        let two = pos + 1 < n && {
            let c2 = text.char_at(pos + 1);
            (c == '&' && c2 == '&') || (c == '|' && c2 == '|') || (c == '=' && c2 == '=') || (c
                == '!' && c2 == '=')
        };
        if two {
            let end = pos + 2;
            let tok_text = text.substring(pos, end);
            let span = TextSpan::new(pos, 2);
            let c2 = text.char_at(pos + 1);
            let kind = if c == '&' {
                SyntaxKind::AmpersandAmpersandToken
            } else if c == '|' {
                SyntaxKind::PipePipeToken
            } else if c == '=' {
                SyntaxKind::EqualsEqualsToken
            } else {
                SyntaxKind::BangEqualsToken
            };
            let token = SyntaxToken::new(kind, span, tok_text, None);
            (token, end)
        } else {
            let end = pos + 1;
            let tok_text = text.substring(pos, end);
            let span = TextSpan::new(pos, 1);
            let kind = if c == '+' {
                SyntaxKind::PlusToken
            } else if c == '-' {
                SyntaxKind::MinusToken
            } else if c == '*' {
                SyntaxKind::StarToken
            } else if c == '/' {
                SyntaxKind::SlashToken
            } else if c == '(' {
                SyntaxKind::OpenParenthesisToken
            } else if c == ')' {
                SyntaxKind::CloseParenthesisToken
            } else if c == '!' {
                SyntaxKind::BangToken
            } else if c == '=' {
                SyntaxKind::EqualsToken
            } else {
                SyntaxKind::BadToken
            };
            if matches!(kind, SyntaxKind::BadToken) {
                let mut msg = String::from_str("unrecognized character: ");
                msg.append(tok_text.as_str());
                reporter.report(Diagnostic::new(span, msg, DiagnosticKind::LexerError));
            }
            let token = SyntaxToken::new(kind, span, tok_text, None);
            (token, end)
        }
    }
}

impl Lexer {
    /// Lex the whole text into tokens, ending in exactly one end-of-file
    /// token, and report every lexer error to `reporter` in order.
    pub fn get_tokens(text: &SourceText, reporter: &mut ErrorReporter) -> (tokens: Vec<
        SyntaxToken,
    >)
        requires
            text.wf(),
        ensures
            token_models(tokens@) == spec_lex(text@, 0),
            final(reporter)@ == old(reporter)@ + spec_lex_diags(text@, 0),
    {
        let ghost base = old(reporter)@;
        let mut tokens: Vec<SyntaxToken> = Vec::new();
        let mut pos: usize = 0;
        let n = text.len();
        proof {
            assert(token_models(tokens@) =~= Seq::<TokenModel>::empty());
            assert(reporter@ =~= base + Seq::<DiagnosticModel>::empty());
        }
        while pos < n
            invariant
                pos <= n,
                n == text@.len(),
                text.wf(),
                spec_lex(text@, 0) == token_models(tokens@) + spec_lex(text@, pos as int),
                spec_lex_diags(text@, 0) == reporter@.skip(base.len() as int) + spec_lex_diags(
                    text@,
                    pos as int,
                ),
                reporter@.len() >= base.len(),
                reporter@.take(base.len() as int) == base,
            decreases n - pos,
        {
            let c = text.char_at(pos);
            if whitespace_char(c) {
                pos += 1;
            } else {
                let ghost old_models = token_models(tokens@);
                let ghost old_diags = reporter@;
                let (token, next) = scan_token(text, pos, reporter);
                tokens.push(token);
                proof {
                    assert(token_models(tokens@) =~= old_models.push(token@));
                    assert(token_models(tokens@) + spec_lex(text@, next as int) =~= old_models + (
                    seq![spec_token_at(text@, pos as int)] + spec_lex(text@, next as int)));
                    if spec_scan_token(text@, pos as int).error {
                        assert(reporter@.skip(base.len() as int) =~= old_diags.skip(
                            base.len() as int,
                        ).push(spec_lex_diag_at(text@, pos as int)));
                        assert(reporter@.skip(base.len() as int) + spec_lex_diags(
                            text@,
                            next as int,
                        ) =~= old_diags.skip(base.len() as int) + (seq![
                            spec_lex_diag_at(text@, pos as int),
                        ] + spec_lex_diags(text@, next as int)));
                        assert(reporter@.take(base.len() as int) =~= base);
                    }
                }
                pos = next;
            }
        }
        let eof = SyntaxToken::new(
            SyntaxKind::EndOfFileToken,
            TextSpan::new(n, 0),
            String::new(),
            None,
        );
        tokens.push(eof);
        proof {
            assert(eof@ == spec_eof_token(text@));
            assert(spec_lex(text@, pos as int) =~= seq![spec_eof_token(text@)]);
            assert(token_models(tokens@) =~= spec_lex(text@, 0));
            assert(reporter@ =~= base + spec_lex_diags(text@, 0));
        }
        tokens
    }
}

} // verus!
