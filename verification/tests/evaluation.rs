use silver_language::compilation::Compilation;
use silver_language::diagnostics::{DiagnosticKind, ErrorReporter};
use silver_language::store::VariableStore;
use silver_language::syntax_tree::SyntaxTree;
use silver_language::value::SilverValue;

fn evaluate(text: &str, variables: &mut VariableStore) -> (Option<SilverValue>, Vec<DiagnosticKind>) {
    let mut reporter = ErrorReporter::new();
    let tree = SyntaxTree::parse_str(text, &mut reporter);
    let compilation = Compilation::new(&tree);
    let result = compilation.evaluate(variables, &mut reporter);
    let kinds = reporter
        .diagnostics()
        .iter()
        .map(|d| *d.kind())
        .collect();
    (result, kinds)
}

fn evaluate_clean(text: &str, variables: &mut VariableStore) -> SilverValue {
    let (result, kinds) = evaluate(text, variables);
    assert!(kinds.is_empty(), "unexpected diagnostics for {text:?}");
    result.expect("a clean compilation must produce a value")
}

#[test]
fn multiplication_binds_tighter_than_addition() {
    let mut store = VariableStore::new();
    assert_eq!(
        evaluate_clean("1 + 2 * 3", &mut store),
        SilverValue::Number(7)
    );
}

#[test]
fn parentheses_override_precedence() {
    let mut store = VariableStore::new();
    assert_eq!(
        evaluate_clean("(1 + 2) * 3", &mut store),
        SilverValue::Number(9)
    );
}

#[test]
fn subtraction_is_left_associative() {
    let mut store = VariableStore::new();
    assert_eq!(
        evaluate_clean("9 - 5 - 2", &mut store),
        SilverValue::Number(2)
    );
}

#[test]
fn unary_operators_apply() {
    let mut store = VariableStore::new();
    assert_eq!(evaluate_clean("-5", &mut store), SilverValue::Number(-5));
    assert_eq!(evaluate_clean("+5", &mut store), SilverValue::Number(5));
    assert_eq!(evaluate_clean("--1", &mut store), SilverValue::Number(1));
    assert_eq!(
        evaluate_clean("!true", &mut store),
        SilverValue::Boolean(false)
    );
    assert_eq!(
        evaluate_clean("!false", &mut store),
        SilverValue::Boolean(true)
    );
}

#[test]
fn comparisons_and_logic_evaluate() {
    let mut store = VariableStore::new();
    assert_eq!(
        evaluate_clean("true && false", &mut store),
        SilverValue::Boolean(false)
    );
    assert_eq!(
        evaluate_clean("true || false", &mut store),
        SilverValue::Boolean(true)
    );
    assert_eq!(
        evaluate_clean("1 == 1", &mut store),
        SilverValue::Boolean(true)
    );
    assert_eq!(
        evaluate_clean("1 != 2", &mut store),
        SilverValue::Boolean(true)
    );
    assert_eq!(
        evaluate_clean("true == false", &mut store),
        SilverValue::Boolean(false)
    );
    assert_eq!(
        evaluate_clean("1 == 2 || 3 == 3", &mut store),
        SilverValue::Boolean(true)
    );
}

#[test]
fn division_truncates_and_a_zero_divisor_yields_zero() {
    let mut store = VariableStore::new();
    assert_eq!(evaluate_clean("7 / 2", &mut store), SilverValue::Number(3));
    assert_eq!(evaluate_clean("1 / 0", &mut store), SilverValue::Number(0));
}

#[test]
fn addition_wraps_around_on_overflow() {
    let mut store = VariableStore::new();
    assert_eq!(
        evaluate_clean("9223372036854775807 + 1", &mut store),
        SilverValue::Number(i64::MIN)
    );
}

#[test]
fn a_type_mismatch_yields_exactly_one_diagnostic_and_no_value() {
    let mut store = VariableStore::new();
    let (result, kinds) = evaluate("1 + true", &mut store);
    assert_eq!(result, None);
    assert_eq!(kinds, vec![DiagnosticKind::BinderError]);
}

#[test]
fn an_undefined_name_yields_exactly_one_binder_error_and_no_value() {
    let mut store = VariableStore::new();
    let (result, kinds) = evaluate("x + 1", &mut store);
    assert_eq!(result, None);
    assert_eq!(kinds, vec![DiagnosticKind::BinderError]);
}

#[test]
fn the_undefined_name_diagnostic_names_the_variable() {
    let mut reporter = ErrorReporter::new();
    let tree = SyntaxTree::parse_str("x + 1", &mut reporter);
    let mut store = VariableStore::new();
    let result = Compilation::new(&tree).evaluate(&mut store, &mut reporter);
    assert_eq!(result, None);
    assert_eq!(reporter.diagnostics().len(), 1);
    let diagnostic = &reporter.diagnostics()[0];
    assert_eq!(diagnostic.message(), "undefined name: x");
    assert_eq!(diagnostic.span().start, 0);
    assert_eq!(diagnostic.span().length, 1);
}

#[test]
fn an_assignment_returns_its_value_and_persists_it() {
    let mut store = VariableStore::new();
    assert_eq!(
        evaluate_clean("x = 5", &mut store),
        SilverValue::Number(5)
    );
    assert_eq!(store.get("x"), Some(SilverValue::Number(5)));
    assert_eq!(
        evaluate_clean("x + 1", &mut store),
        SilverValue::Number(6)
    );
}

#[test]
fn reassigning_a_different_type_fails_and_leaves_the_store_unchanged() {
    let mut store = VariableStore::new();
    assert_eq!(
        evaluate_clean("x = 5", &mut store),
        SilverValue::Number(5)
    );
    let (result, kinds) = evaluate("x = false", &mut store);
    assert_eq!(result, None);
    assert_eq!(kinds, vec![DiagnosticKind::BinderError]);
    assert_eq!(store.get("x"), Some(SilverValue::Number(5)));
}

#[test]
fn reassigning_the_same_type_updates_the_store() {
    let mut store = VariableStore::new();
    evaluate_clean("x = 5", &mut store);
    assert_eq!(
        evaluate_clean("x = x * 8", &mut store),
        SilverValue::Number(40)
    );
    assert_eq!(store.get("x"), Some(SilverValue::Number(40)));
}

#[test]
fn assignments_chain_right_to_left() {
    let mut store = VariableStore::new();
    assert_eq!(
        evaluate_clean("x = y = 3", &mut store),
        SilverValue::Number(3)
    );
    assert_eq!(store.get("x"), Some(SilverValue::Number(3)));
    assert_eq!(store.get("y"), Some(SilverValue::Number(3)));
}

#[test]
fn an_assignment_inside_an_expression_writes_before_the_read() {
    let mut store = VariableStore::new();
    assert_eq!(
        evaluate_clean("(x = 5) + x", &mut store),
        SilverValue::Number(10)
    );
}

#[test]
fn a_missing_operand_reports_a_parser_error() {
    let mut store = VariableStore::new();
    let (result, kinds) = evaluate("1 +", &mut store);
    assert_eq!(result, None);
    assert_eq!(kinds, vec![DiagnosticKind::ParserError]);
}

#[test]
fn a_missing_closing_parenthesis_reports_a_parser_error() {
    let mut store = VariableStore::new();
    let (result, kinds) = evaluate("(1 + 2", &mut store);
    assert_eq!(result, None);
    assert_eq!(kinds, vec![DiagnosticKind::ParserError]);
}

#[test]
fn a_lexer_error_also_gates_evaluation() {
    let mut store = VariableStore::new();
    let (result, kinds) = evaluate("99999999999999999999", &mut store);
    assert_eq!(result, None);
    assert_eq!(kinds, vec![DiagnosticKind::LexerError]);
}

#[test]
fn a_poisoned_operand_is_not_reported_again_one_level_up() {
    let mut store = VariableStore::new();
    let (result, kinds) = evaluate("(1 + true) * 2", &mut store);
    assert_eq!(result, None);
    assert_eq!(kinds, vec![DiagnosticKind::BinderError]);
}

#[test]
fn a_unary_operator_on_the_wrong_type_reports_one_binder_error() {
    let mut store = VariableStore::new();
    let (result, kinds) = evaluate("!1", &mut store);
    assert_eq!(result, None);
    assert_eq!(kinds, vec![DiagnosticKind::BinderError]);
}

#[test]
fn a_preseeded_store_resolves_names() {
    let mut store = VariableStore::new();
    store.set("a", SilverValue::Number(17));
    assert_eq!(
        evaluate_clean("a * 2 + 1", &mut store),
        SilverValue::Number(35)
    );
}

#[test]
fn the_store_keeps_the_latest_value_per_name() {
    let mut store = VariableStore::new();
    store.set("a", SilverValue::Number(1));
    store.set("b", SilverValue::Boolean(true));
    store.set("a", SilverValue::Number(2));
    assert_eq!(store.get("a"), Some(SilverValue::Number(2)));
    assert_eq!(store.get("b"), Some(SilverValue::Boolean(true)));
    assert_eq!(store.get("c"), None);
}

#[test]
fn negating_the_smallest_number_wraps_to_itself() {
    let mut store = VariableStore::new();
    store.set("m", SilverValue::Number(i64::MIN));
    assert_eq!(
        evaluate_clean("-m", &mut store),
        SilverValue::Number(i64::MIN)
    );
}

#[test]
fn trailing_tokens_after_the_expression_are_ignored() {
    let mut store = VariableStore::new();
    assert_eq!(evaluate_clean("1 2", &mut store), SilverValue::Number(1));
}
