use silver_language::diagnostics::ErrorReporter;
use silver_language::syntax_kind::SyntaxKind;
use silver_language::syntax_tree::SyntaxTree;

#[test]
fn parsing_identical_text_twice_yields_identical_trees() {
    let text = "1 + 2 * (x = 3) && !true";
    let mut reporter1 = ErrorReporter::new();
    let tree1 = SyntaxTree::parse_str(text, &mut reporter1);
    let mut reporter2 = ErrorReporter::new();
    let tree2 = SyntaxTree::parse_str(text, &mut reporter2);
    assert_eq!(tree1.pretty_print(), tree2.pretty_print());
    assert_eq!(
        tree1.end_of_file_token().span(),
        tree2.end_of_file_token().span()
    );
    assert_eq!(reporter1.diagnostics().len(), reporter2.diagnostics().len());
}

#[test]
fn the_tree_keeps_its_source_text() {
    let mut reporter = ErrorReporter::new();
    let tree = SyntaxTree::parse_str("1 + 2", &mut reporter);
    assert_eq!(tree.text().as_str(), "1 + 2");
    assert_eq!(tree.text().len(), 5);
    assert_eq!(tree.text().char_at(2), '+');
}

#[test]
fn the_end_of_file_token_closes_every_parse() {
    let mut reporter = ErrorReporter::new();
    let tree = SyntaxTree::parse_str("1 + 2", &mut reporter);
    assert_eq!(
        tree.end_of_file_token().kind(),
        SyntaxKind::EndOfFileToken
    );
    assert_eq!(tree.end_of_file_token().span().start, 5);
    assert_eq!(tree.end_of_file_token().span().length, 0);
}

#[test]
fn pretty_print_draws_a_literal_with_its_token() {
    let mut reporter = ErrorReporter::new();
    let tree = SyntaxTree::parse_str("1", &mut reporter);
    assert_eq!(
        tree.pretty_print(),
        "\\--LiteralExpression 1\n   \\--NumberToken 1\n"
    );
}

#[test]
fn pretty_print_draws_a_binary_expression() {
    let mut reporter = ErrorReporter::new();
    let tree = SyntaxTree::parse_str("1 + 2", &mut reporter);
    let expected = "\\--BinaryExpression\n   +--LiteralExpression 1\n   |  \\--NumberToken 1\n   +--PlusToken\n   \\--LiteralExpression 2\n      \\--NumberToken 2\n";
    assert_eq!(tree.pretty_print(), expected);
}

#[test]
fn pretty_print_renders_negative_and_boolean_values() {
    let mut reporter = ErrorReporter::new();
    let tree = SyntaxTree::parse_str("true", &mut reporter);
    assert_eq!(
        tree.pretty_print(),
        "\\--LiteralExpression true\n   \\--TrueKeyword\n"
    );
}
