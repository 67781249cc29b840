//! The evaluator: a pure recursive walk over the bound tree with a
//! mutable variable store. It trusts the binder: no runtime type checks,
//! only proofs that none are needed once binding reported nothing.
//!
//! Arithmetic wraps around on overflow. Division is total: a divisor of
//! zero yields zero, and the one overflowing quotient wraps to the
//! smallest number. Both operands of `&&` and `||` are always evaluated:
//! there is no short-circuiting at this layer.

use vstd::prelude::*;
use vstd::pervasive::unreached;
use crate::binding::{
    lemma_bind_sound, spec_bind, spec_bound_type, spec_env_ok, BoundBinaryOperatorKind,
    BoundExpression, BoundModel, BoundUnaryOperatorKind,
};
use crate::expression::ExpressionModel;
use crate::store::{
    lemma_types_of_get, lemma_types_of_update, spec_assoc_get, spec_assoc_update, spec_types_of,
    VariableStore,
};
use crate::value::{spec_type_of, SilverType, SilverValue};

verus! {

/// Total division: zero for a zero divisor, wrap-around for the one
/// overflowing quotient, ordinary quotient otherwise.
pub open spec fn spec_divide(a: i64, b: i64) -> i64 {
    match a.checked_div(b) {
        Some(q) => q,
        None => if b == 0 {
            0
        } else {
            i64::MIN
        },
    }
}

/// Apply a unary operator to a value of the matching type.
pub open spec fn spec_apply_unary(op: BoundUnaryOperatorKind, v: SilverValue) -> Option<
    SilverValue,
> {
    match (op, v) {
        (BoundUnaryOperatorKind::Identity, SilverValue::Number(n)) => Some(SilverValue::Number(n)),
        (BoundUnaryOperatorKind::Negation, SilverValue::Number(n)) => Some(
            SilverValue::Number(vstd::wrapping::i64_specs::wrapping_sub(0, n)),
        ),
        (BoundUnaryOperatorKind::LogicalNegation, SilverValue::Boolean(b)) => Some(
            SilverValue::Boolean(!b),
        ),
        _ => None,
    }
}

/// Apply a binary operator to values of the matching types.
pub open spec fn spec_apply_binary(
    op: BoundBinaryOperatorKind,
    l: SilverValue,
    r: SilverValue,
) -> Option<SilverValue> {
    match op {
        BoundBinaryOperatorKind::Addition => match (l, r) {
            (SilverValue::Number(a), SilverValue::Number(b)) => Some(
                SilverValue::Number(vstd::wrapping::i64_specs::wrapping_add(a, b)),
            ),
            _ => None,
        },
        BoundBinaryOperatorKind::Subtraction => match (l, r) {
            (SilverValue::Number(a), SilverValue::Number(b)) => Some(
                SilverValue::Number(vstd::wrapping::i64_specs::wrapping_sub(a, b)),
            ),
            _ => None,
        },
        BoundBinaryOperatorKind::Multiplication => match (l, r) {
            (SilverValue::Number(a), SilverValue::Number(b)) => Some(
                SilverValue::Number(vstd::wrapping::i64_specs::wrapping_mul(a, b)),
            ),
            _ => None,
        },
        BoundBinaryOperatorKind::Division => match (l, r) {
            (SilverValue::Number(a), SilverValue::Number(b)) => Some(
                SilverValue::Number(spec_divide(a, b)),
            ),
            _ => None,
        },
        BoundBinaryOperatorKind::LogicalAnd => match (l, r) {
            (SilverValue::Boolean(a), SilverValue::Boolean(b)) => Some(
                SilverValue::Boolean(a && b),
            ),
            _ => None,
        },
        BoundBinaryOperatorKind::LogicalOr => match (l, r) {
            (SilverValue::Boolean(a), SilverValue::Boolean(b)) => Some(
                SilverValue::Boolean(a || b),
            ),
            _ => None,
        },
        BoundBinaryOperatorKind::Equality => if spec_type_of(l) == spec_type_of(r) {
            Some(SilverValue::Boolean(l == r))
        } else {
            None
        },
        BoundBinaryOperatorKind::Inequality => if spec_type_of(l) == spec_type_of(r) {
            Some(SilverValue::Boolean(l != r))
        } else {
            None
        },
    }
}

/// Evaluate a bound node against a store: the resulting value and the
/// store after it. `None` marks the stuck states that a clean binding
/// rules out (an error node, a missing name, an operator on the wrong
/// type).
pub open spec fn spec_eval(b: BoundModel, store: Seq<(Seq<char>, SilverValue)>) -> Option<
    (SilverValue, Seq<(Seq<char>, SilverValue)>),
>
    decreases b,
{
    match b {
        BoundModel::Literal { value } => Some((value, store)),
        BoundModel::Variable { name, .. } => match spec_assoc_get(store, name) {
            Some(v) => Some((v, store)),
            None => None,
        },
        BoundModel::Unary { operator, operand, .. } => match spec_eval(*operand, store) {
            None => None,
            Some((v, s1)) => match spec_apply_unary(operator, v) {
                Some(result) => Some((result, s1)),
                None => None,
            },
        },
        BoundModel::Binary { left, operator, right, .. } => match spec_eval(*left, store) {
            None => None,
            Some((lv, s1)) => match spec_eval(*right, s1) {
                None => None,
                Some((rv, s2)) => match spec_apply_binary(operator, lv, rv) {
                    Some(result) => Some((result, s2)),
                    None => None,
                },
            },
        },
        BoundModel::Assignment { name, expression, .. } => match spec_eval(*expression, store) {
            None => None,
            Some((v, s1)) => Some((v, spec_assoc_update(s1, name, v))),
        },
        BoundModel::Error => None,
    }
}

/// The evaluator never goes wrong after a clean binding: when binding
/// against the store's types reports no diagnostic, evaluation yields a
/// value whose type is the bound tree's static type, and the store's
/// types afterwards are exactly the binder's final type table.
pub proof fn lemma_bind_eval_total(e: ExpressionModel, store: Seq<(Seq<char>, SilverValue)>)
    requires
        spec_bind(e, spec_types_of(store)).diags.len() == 0,
    ensures
        ({
            let b = spec_bind(e, spec_types_of(store));
            let r = spec_eval(b.bound, store);
            &&& r is Some
            &&& spec_type_of((r->0).0) == spec_bound_type(b.bound)
            &&& spec_types_of((r->0).1) == b.env
        }),
    decreases e,
{
    let env = spec_types_of(store);
    assert(spec_env_ok(env)) by {
        assert(forall|i: int|
            0 <= i < env.len() ==> env[i] == (store[i].0, spec_type_of(store[i].1)));
    }
    let b = spec_bind(e, env);
    match e {
        ExpressionModel::Literal { .. } => {},
        ExpressionModel::Name { identifier_token } => {
            lemma_types_of_get(store, identifier_token.text);
        },
        ExpressionModel::Unary { operator_token, operand } => {
            lemma_bind_sound(*operand, env);
            lemma_bind_eval_total(*operand, store);
        },
        ExpressionModel::Binary { left, operator_token, right } => {
            lemma_bind_sound(*left, env);
            lemma_bind_eval_total(*left, store);
            let l = spec_bind(*left, env);
            let lr = spec_eval(l.bound, store);
            let s1 = (lr->0).1;
            lemma_bind_sound(*right, l.env);
            lemma_bind_eval_total(*right, s1);
        },
        ExpressionModel::Parenthesized { expression, .. } => {
            lemma_bind_eval_total(*expression, store);
        },
        ExpressionModel::Assignment { identifier_token, equals_token, expression } => {
            lemma_bind_sound(*expression, env);
            lemma_bind_eval_total(*expression, store);
            let r = spec_bind(*expression, env);
            let ty = spec_bound_type(r.bound);
            if ty != SilverType::Error {
                let declared = spec_assoc_get(r.env, identifier_token.text);
                if !(declared is Some && declared->0 != ty) {
                    let ev = spec_eval(r.bound, store);
                    lemma_types_of_update((ev->0).1, identifier_token.text, (ev->0).0);
                }
            }
        },
    }
}

/// The evaluator. It is stateless: one call walks a whole bound tree.
pub struct Evaluator {}

/// Total division, as the language defines it.
fn divide(a: i64, b: i64) -> (r: i64)
    ensures
        r == spec_divide(a, b),
{
    match a.checked_div(b) {
        Some(q) => q,
        None => if b == 0 {
            0
        } else {
            i64::MIN
        },
    }
}

impl Evaluator {
    /// Evaluate a bound tree: literals yield their value, names read the
    /// store, operators apply natively, and an assignment writes the
    /// store and yields the assigned value. The caller must have bound
    /// the tree cleanly, which is what makes every step defined.
    pub fn evaluate(expression: &BoundExpression, variables: &mut VariableStore) -> (r:
        SilverValue)
        requires
            spec_eval(expression@, old(variables)@) is Some,
        ensures
            r == (spec_eval(expression@, old(variables)@)->0).0,
            final(variables)@ == (spec_eval(expression@, old(variables)@)->0).1,
        decreases expression,
    {
        match expression {
            BoundExpression::Literal { value } => *value,
            BoundExpression::Variable { name, .. } => {
                match variables.get(name.as_str()) {
                    Some(v) => v,
                    None => unreached(),
                }
            },
            BoundExpression::Unary { operator, operand, .. } => {
                let v = Self::evaluate(operand, variables);
                match operator {
                    BoundUnaryOperatorKind::Identity => v,
                    BoundUnaryOperatorKind::Negation => {
                        match v {
                            SilverValue::Number(n) => SilverValue::Number(0i64.wrapping_sub(n)),
                            _ => unreached(),
                        }
                    },
                    BoundUnaryOperatorKind::LogicalNegation => {
                        match v {
                            SilverValue::Boolean(b) => SilverValue::Boolean(!b),
                            _ => unreached(),
                        }
                    },
                }
            },
            BoundExpression::Binary { left, operator, right, .. } => {
                let lv = Self::evaluate(left, variables);
                let rv = Self::evaluate(right, variables);
                match operator {
                    BoundBinaryOperatorKind::Addition => {
                        match (lv, rv) {
                            (SilverValue::Number(a), SilverValue::Number(b)) => SilverValue::Number(
                                a.wrapping_add(b),
                            ),
                            _ => unreached(),
                        }
                    },
                    BoundBinaryOperatorKind::Subtraction => {
                        match (lv, rv) {
                            (SilverValue::Number(a), SilverValue::Number(b)) => SilverValue::Number(
                                a.wrapping_sub(b),
                            ),
                            _ => unreached(),
                        }
                    },
                    BoundBinaryOperatorKind::Multiplication => {
                        match (lv, rv) {
                            (SilverValue::Number(a), SilverValue::Number(b)) => SilverValue::Number(
                                a.wrapping_mul(b),
                            ),
                            _ => unreached(),
                        }
                    },
                    BoundBinaryOperatorKind::Division => {
                        match (lv, rv) {
                            (SilverValue::Number(a), SilverValue::Number(b)) => SilverValue::Number(
                                divide(a, b),
                            ),
                            _ => unreached(),
                        }
                    },
                    BoundBinaryOperatorKind::LogicalAnd => {
                        match (lv, rv) {
                            (SilverValue::Boolean(a), SilverValue::Boolean(b)) => {
                                SilverValue::Boolean(a && b)
                            },
                            _ => unreached(),
                        }
                    },
                    BoundBinaryOperatorKind::LogicalOr => {
                        match (lv, rv) {
                            (SilverValue::Boolean(a), SilverValue::Boolean(b)) => {
                                SilverValue::Boolean(a || b)
                            },
                            _ => unreached(),
                        }
                    },
                    BoundBinaryOperatorKind::Equality => SilverValue::Boolean(lv == rv),
                    BoundBinaryOperatorKind::Inequality => SilverValue::Boolean(lv != rv),
                }
            },
            BoundExpression::Assignment { name, expression, .. } => {
                let v = Self::evaluate(expression, variables);
                variables.set(name.as_str(), v);
                v
            },
            BoundExpression::Error => unreached(),
        }
    }
}

} // verus!
