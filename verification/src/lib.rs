//! A minimal expression-oriented scripting language: source text in, one
//! evaluated runtime value out.
//!
//! The pipeline has four verified stages — [`lexer`], [`parser`],
//! [`binding`], [`evaluator`] — threaded by one shared diagnostic
//! reporter and gated by the [`compilation`] orchestrator: any reported
//! diagnostic skips evaluation and yields no value; a clean compilation
//! evaluates to exactly one value. Each stage's behaviour is pinned to a
//! specification-level function (`spec_lex`, `spec_parse_text`,
//! `spec_bind`, `spec_eval`), and `lemma_bind_eval_total` shows that
//! after a clean binding the evaluator can never get stuck.
//!
//! The caller owns the variable [`store`], which lives across
//! evaluations, so a session accumulates variables turn by turn.

pub mod binding;
pub mod compilation;
pub mod diagnostics;
pub mod evaluator;
pub mod expression;
pub mod lexer;
pub mod parser;
pub mod store;
pub mod syntax_kind;
pub mod syntax_tree;
pub mod text;
pub mod token;
pub mod value;
