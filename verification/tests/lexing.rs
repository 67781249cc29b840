use silver_language::diagnostics::{DiagnosticKind, ErrorReporter};
use silver_language::syntax_kind::{keyword_kind, SyntaxKind};
use silver_language::syntax_tree::SyntaxTree;
use silver_language::text::{SourceText, TextSpan};
use silver_language::value::{SilverType, SilverValue};

#[test]
fn lexing_ends_in_exactly_one_end_of_file_token() {
    let mut reporter = ErrorReporter::new();
    let text = SourceText::new("1 + 2 * (3 - x) && true || !false");
    let tokens = SyntaxTree::parse_tokens(&text, &mut reporter);
    assert!(!tokens.is_empty());
    let eof_count = tokens
        .iter()
        .filter(|t| t.kind() == SyntaxKind::EndOfFileToken)
        .count();
    assert_eq!(eof_count, 1);
    assert_eq!(tokens.last().unwrap().kind(), SyntaxKind::EndOfFileToken);
    assert!(!reporter.had_error());
}

#[test]
fn lexing_empty_input_yields_only_the_end_of_file_token() {
    let mut reporter = ErrorReporter::new();
    let text = SourceText::new("");
    let tokens = SyntaxTree::parse_tokens(&text, &mut reporter);
    assert_eq!(tokens.len(), 1);
    assert_eq!(tokens[0].kind(), SyntaxKind::EndOfFileToken);
    assert_eq!(tokens[0].span(), TextSpan::new(0, 0));
}

#[test]
fn number_token_carries_its_value_text_and_span() {
    let mut reporter = ErrorReporter::new();
    let text = SourceText::new("  42 ");
    let tokens = SyntaxTree::parse_tokens(&text, &mut reporter);
    assert_eq!(tokens.len(), 2);
    assert_eq!(tokens[0].kind(), SyntaxKind::NumberToken);
    assert_eq!(tokens[0].text(), "42");
    assert_eq!(tokens[0].span(), TextSpan::new(2, 2));
    assert_eq!(tokens[0].value(), &Some(SilverValue::Number(42)));
}

#[test]
fn token_text_relexed_alone_reproduces_its_kind() {
    let mut reporter = ErrorReporter::new();
    let text = SourceText::new("123 abc true && != ( = ! @");
    let tokens = SyntaxTree::parse_tokens(&text, &mut reporter);
    for token in tokens.iter() {
        let mut again = ErrorReporter::new();
        let alone = SourceText::new(token.text());
        let relexed = SyntaxTree::parse_tokens(&alone, &mut again);
        assert_eq!(relexed[0].kind(), token.kind());
    }
}

#[test]
fn an_overlong_number_literal_reports_a_lexer_error() {
    let mut reporter = ErrorReporter::new();
    let text = SourceText::new("99999999999999999999");
    let tokens = SyntaxTree::parse_tokens(&text, &mut reporter);
    assert_eq!(tokens[0].kind(), SyntaxKind::NumberToken);
    assert_eq!(tokens[0].value(), &Some(SilverValue::Number(0)));
    assert_eq!(reporter.diagnostics().len(), 1);
    assert_eq!(
        reporter.diagnostics()[0].kind(),
        &DiagnosticKind::LexerError
    );
    assert_eq!(
        reporter.diagnostics()[0].message(),
        "not a valid number: 99999999999999999999"
    );
}

#[test]
fn an_unrecognized_character_reports_a_lexer_error_and_one_bad_token() {
    let mut reporter = ErrorReporter::new();
    let text = SourceText::new("@");
    let tokens = SyntaxTree::parse_tokens(&text, &mut reporter);
    assert_eq!(tokens.len(), 2);
    assert_eq!(tokens[0].kind(), SyntaxKind::BadToken);
    assert_eq!(reporter.diagnostics().len(), 1);
    assert_eq!(
        reporter.diagnostics()[0].kind(),
        &DiagnosticKind::LexerError
    );
    assert_eq!(reporter.diagnostics()[0].span(), TextSpan::new(0, 1));
}

#[test]
fn keywords_are_reclassified_and_identifiers_stay() {
    assert_eq!(keyword_kind("true"), SyntaxKind::TrueKeyword);
    assert_eq!(keyword_kind("false"), SyntaxKind::FalseKeyword);
    assert_eq!(keyword_kind("tru"), SyntaxKind::IdentifierToken);
    assert_eq!(keyword_kind("truex"), SyntaxKind::IdentifierToken);
}

#[test]
fn operator_tables_match_the_language_definition() {
    assert_eq!(SyntaxKind::BangToken.unary_operator_precedence(), 6);
    assert_eq!(SyntaxKind::MinusToken.unary_operator_precedence(), 6);
    assert_eq!(SyntaxKind::StarToken.binary_operator_precedence(), 5);
    assert_eq!(SyntaxKind::PlusToken.binary_operator_precedence(), 4);
    assert_eq!(SyntaxKind::EqualsEqualsToken.binary_operator_precedence(), 3);
    assert_eq!(
        SyntaxKind::AmpersandAmpersandToken.binary_operator_precedence(),
        2
    );
    assert_eq!(SyntaxKind::PipePipeToken.binary_operator_precedence(), 1);
    assert_eq!(SyntaxKind::NumberToken.binary_operator_precedence(), 0);
    assert_eq!(SyntaxKind::AmpersandAmpersandToken.get_text(), Some("&&"));
    assert_eq!(SyntaxKind::TrueKeyword.get_text(), Some("true"));
    assert_eq!(SyntaxKind::NumberToken.get_text(), None);
}

#[test]
fn spans_expose_their_end() {
    let span = TextSpan::new(2, 3);
    assert_eq!(span.start, 2);
    assert_eq!(span.length, 3);
    assert_eq!(span.end(), 5);
}

#[test]
fn values_know_their_static_type() {
    assert_eq!(
        SilverValue::Number(1).silver_type(),
        SilverType::Number
    );
    assert_eq!(
        SilverValue::Boolean(true).silver_type(),
        SilverType::Boolean
    );
    assert_eq!(SilverType::Number.name(), "Number");
    assert_eq!(SilverType::Boolean.name(), "Boolean");
}

#[test]
fn a_character_outside_the_alphabet_becomes_a_bad_token() {
    let mut reporter = ErrorReporter::new();
    let text = SourceText::new("\u{e9}");
    let tokens = SyntaxTree::parse_tokens(&text, &mut reporter);
    assert_eq!(tokens[0].kind(), SyntaxKind::BadToken);
    assert_eq!(tokens[0].text(), "\u{e9}");
    assert_eq!(reporter.diagnostics().len(), 1);
}
