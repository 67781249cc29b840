//! The orchestrator: bind the parsed tree, gate on the reporter's error
//! state, and evaluate only a clean compilation.

use vstd::prelude::*;
use crate::binding::{spec_bind, Binder};
use crate::diagnostics::ErrorReporter;
use crate::evaluator::{lemma_bind_eval_total, spec_eval, Evaluator};
use crate::expression::ExpressionModel;
use crate::store::{spec_types_of, VariableStore};
use crate::syntax_tree::SyntaxTree;
use crate::value::SilverValue;

verus! {

/// One compilation of one syntax tree against a shared reporter.
pub struct Compilation<'a> {
    syntax: &'a SyntaxTree,
}

impl<'a> Compilation<'a> {
    pub closed spec fn spec_root(&self) -> ExpressionModel {
        self.syntax.spec_root()
    }

    pub fn new(syntax: &'a SyntaxTree) -> (r: Compilation<'a>)
        ensures
            r.spec_root() == syntax.spec_root(),
    {
        Compilation { syntax }
    }

    /// Bind the tree against the caller's variable store, then check the
    /// reporter exactly once: any diagnostic — from lexing, parsing or
    /// binding — skips evaluation and yields no value and an unchanged
    /// store; a clean compilation evaluates to exactly one value.
    pub fn evaluate(&self, variables: &mut VariableStore, reporter: &mut ErrorReporter) -> (r:
        Option<SilverValue>)
        ensures
            ({
                let b = spec_bind(self.spec_root(), spec_types_of(old(variables)@));
                &&& final(reporter)@ == old(reporter)@ + b.diags
                &&& (r is None <==> old(reporter)@.len() + b.diags.len() > 0)
                &&& r is None ==> final(variables)@ == old(variables)@
                &&& r is Some ==> ({
                    let ev = spec_eval(b.bound, old(variables)@);
                    &&& ev is Some
                    &&& r->0 == (ev->0).0
                    &&& final(variables)@ == (ev->0).1
                })
            }),
    {
        let scope = Binder::bind_global_scope(self.syntax.root(), variables, reporter);
        if reporter.had_error() {
            None
        } else {
            proof {
                lemma_bind_eval_total(self.spec_root(), variables@);
            }
            Some(Evaluator::evaluate(scope.expression(), variables))
        }
    }
}

} // verus!
