//! The binder: untyped syntax tree to a typed bound tree, in one
//! downward pass that threads a mutable variable-type table.
//!
//! A node whose operand already carries the poison type is bound to an
//! error node without a new diagnostic, so each independent root cause
//! costs one diagnostic; everything else that fails a type rule reports
//! one binder error and poisons its node. Binding never aborts: it
//! always returns a complete best-effort tree, and callers must check
//! the reporter before evaluating.

use vstd::prelude::*;
use vstd::string::StrSliceExecFns;
use vstd::string::StringExecFns;
use crate::diagnostics::{Diagnostic, DiagnosticKind, DiagnosticModel, ErrorReporter};
use crate::expression::{ExpressionModel, ExpressionSyntax};
use crate::store::{
    spec_assoc_get, spec_assoc_update, spec_types_of, symbol_models, VariableStore, VariableSymbol,
};
use crate::syntax_kind::{spec_fixed_text, SyntaxKind};
use crate::text::{str_eq, TextSpan};
use crate::token::TokenModel;
use crate::value::{spec_type_name, spec_type_of, SilverType, SilverValue};

verus! {

/// A resolved unary operation.
#[derive(Clone, Copy, Debug, PartialEq, Eq, Structural)]
pub enum BoundUnaryOperatorKind {
    Identity,
    Negation,
    LogicalNegation,
}

/// A resolved binary operation.
#[derive(Clone, Copy, Debug, PartialEq, Eq, Structural)]
pub enum BoundBinaryOperatorKind {
    Addition,
    Subtraction,
    Multiplication,
    Division,
    LogicalAnd,
    LogicalOr,
    Equality,
    Inequality,
}

/// The mathematical model of a bound expression node.
pub ghost enum BoundModel {
    Literal { value: SilverValue },
    Variable { name: Seq<char>, ty: SilverType },
    Unary { operator: BoundUnaryOperatorKind, operand: Box<BoundModel>, ty: SilverType },
    Binary {
        left: Box<BoundModel>,
        operator: BoundBinaryOperatorKind,
        right: Box<BoundModel>,
        ty: SilverType,
    },
    Assignment { name: Seq<char>, expression: Box<BoundModel>, ty: SilverType },
    Error,
}

/// One node of the bound tree: the typed mirror of the syntax tree,
/// with names resolved and operators fixed. An `Error` node carries the
/// poison type.
pub enum BoundExpression {
    Literal { value: SilverValue },
    Variable { name: String, ty: SilverType },
    Unary { operator: BoundUnaryOperatorKind, operand: Box<BoundExpression>, ty: SilverType },
    Binary {
        left: Box<BoundExpression>,
        operator: BoundBinaryOperatorKind,
        right: Box<BoundExpression>,
        ty: SilverType,
    },
    Assignment { name: String, expression: Box<BoundExpression>, ty: SilverType },
    Error,
}

/// The model of a bound node.
pub open spec fn bound_model(b: BoundExpression) -> BoundModel
    decreases b,
{
    match b {
        BoundExpression::Literal { value } => BoundModel::Literal { value },
        BoundExpression::Variable { name, ty } => BoundModel::Variable { name: name@, ty },
        BoundExpression::Unary { operator, operand, ty } => BoundModel::Unary {
            operator,
            operand: Box::new(bound_model(*operand)),
            ty,
        },
        BoundExpression::Binary { left, operator, right, ty } => BoundModel::Binary {
            left: Box::new(bound_model(*left)),
            operator,
            right: Box::new(bound_model(*right)),
            ty,
        },
        BoundExpression::Assignment { name, expression, ty } => BoundModel::Assignment {
            name: name@,
            expression: Box::new(bound_model(*expression)),
            ty,
        },
        BoundExpression::Error => BoundModel::Error,
    }
}

impl View for BoundExpression {
    type V = BoundModel;

    open spec fn view(&self) -> BoundModel {
        bound_model(*self)
    }
}

/// The static type of a bound node.
pub open spec fn spec_bound_type(b: BoundModel) -> SilverType {
    match b {
        BoundModel::Literal { value } => spec_type_of(value),
        BoundModel::Variable { ty, .. } => ty,
        BoundModel::Unary { ty, .. } => ty,
        BoundModel::Binary { ty, .. } => ty,
        BoundModel::Assignment { ty, .. } => ty,
        BoundModel::Error => SilverType::Error,
    }
}

impl BoundExpression {
    /// The static type of this node.
    pub fn silver_type(&self) -> (r: SilverType)
        ensures
            r == spec_bound_type(self@),
    {
        match self {
            BoundExpression::Literal { value } => value.silver_type(),
            BoundExpression::Variable { ty, .. } => *ty,
            BoundExpression::Unary { ty, .. } => *ty,
            BoundExpression::Binary { ty, .. } => *ty,
            BoundExpression::Assignment { ty, .. } => *ty,
            BoundExpression::Error => SilverType::Error,
        }
    }
}

/// The fixed table of unary operators: `+ -` on numbers, `!` on
/// booleans.
pub open spec fn spec_bind_unary_operator(op: SyntaxKind, operand: SilverType) -> Option<
    (BoundUnaryOperatorKind, SilverType),
> {
    if op == SyntaxKind::PlusToken && operand == SilverType::Number {
        Some((BoundUnaryOperatorKind::Identity, SilverType::Number))
    } else if op == SyntaxKind::MinusToken && operand == SilverType::Number {
        Some((BoundUnaryOperatorKind::Negation, SilverType::Number))
    } else if op == SyntaxKind::BangToken && operand == SilverType::Boolean {
        Some((BoundUnaryOperatorKind::LogicalNegation, SilverType::Boolean))
    } else {
        None
    }
}

/// The fixed table of binary operators: arithmetic on number pairs,
/// equality on matching types, logic on boolean pairs.
pub open spec fn spec_bind_binary_operator(
    op: SyntaxKind,
    left: SilverType,
    right: SilverType,
) -> Option<(BoundBinaryOperatorKind, SilverType)> {
    if op == SyntaxKind::PlusToken && left == SilverType::Number && right == SilverType::Number {
        Some((BoundBinaryOperatorKind::Addition, SilverType::Number))
    } else if op == SyntaxKind::MinusToken && left == SilverType::Number && right
        == SilverType::Number {
        Some((BoundBinaryOperatorKind::Subtraction, SilverType::Number))
    } else if op == SyntaxKind::StarToken && left == SilverType::Number && right
        == SilverType::Number {
        Some((BoundBinaryOperatorKind::Multiplication, SilverType::Number))
    } else if op == SyntaxKind::SlashToken && left == SilverType::Number && right
        == SilverType::Number {
        Some((BoundBinaryOperatorKind::Division, SilverType::Number))
    } else if op == SyntaxKind::EqualsEqualsToken && left == right && left != SilverType::Error {
        Some((BoundBinaryOperatorKind::Equality, SilverType::Boolean))
    } else if op == SyntaxKind::BangEqualsToken && left == right && left != SilverType::Error {
        Some((BoundBinaryOperatorKind::Inequality, SilverType::Boolean))
    } else if op == SyntaxKind::AmpersandAmpersandToken && left == SilverType::Boolean && right
        == SilverType::Boolean {
        Some((BoundBinaryOperatorKind::LogicalAnd, SilverType::Boolean))
    } else if op == SyntaxKind::PipePipeToken && left == SilverType::Boolean && right
        == SilverType::Boolean {
        Some((BoundBinaryOperatorKind::LogicalOr, SilverType::Boolean))
    } else {
        None
    }
}

/// The diagnostic for a name that no variable declares.
pub open spec fn spec_undefined_name_diag(name: Seq<char>, span: TextSpan) -> DiagnosticModel {
    DiagnosticModel {
        span,
        message: "undefined name: "@ + name,
        kind: DiagnosticKind::BinderError,
    }
}

/// The diagnostic for a unary operator applied to the wrong type.
pub open spec fn spec_unary_operator_diag(op: TokenModel, operand: SilverType) -> DiagnosticModel {
    DiagnosticModel {
        span: op.span,
        message: "unary operator "@ + spec_fixed_text(op.kind) + " is not defined for type "@
            + spec_type_name(operand),
        kind: DiagnosticKind::BinderError,
    }
}

/// The diagnostic for a binary operator applied to the wrong types.
pub open spec fn spec_binary_operator_diag(
    op: TokenModel,
    left: SilverType,
    right: SilverType,
) -> DiagnosticModel {
    DiagnosticModel {
        span: op.span,
        message: "binary operator "@ + spec_fixed_text(op.kind) + " is not defined for types "@
            + spec_type_name(left) + " and "@ + spec_type_name(right),
        kind: DiagnosticKind::BinderError,
    }
}

/// The diagnostic for an assignment that would change a variable's type.
pub open spec fn spec_assignment_diag(
    name: Seq<char>,
    span: TextSpan,
    declared: SilverType,
    incoming: SilverType,
) -> DiagnosticModel {
    DiagnosticModel {
        span,
        message: "cannot assign a value of type "@ + spec_type_name(incoming)
            + " to a variable of type "@ + spec_type_name(declared),
        kind: DiagnosticKind::BinderError,
    }
}

/// What binding one node yields: the bound node, the variable-type table
/// after it, and the diagnostics it reported, in order.
pub ghost struct BindResult {
    pub bound: BoundModel,
    pub env: Seq<(Seq<char>, SilverType)>,
    pub diags: Seq<DiagnosticModel>,
}

/// Bind one node under the variable-type table `env`.
pub open spec fn spec_bind(e: ExpressionModel, env: Seq<(Seq<char>, SilverType)>) -> BindResult
    decreases e,
{
    match e {
        ExpressionModel::Literal { literal_token, value } => BindResult {
            bound: BoundModel::Literal { value },
            env,
            diags: Seq::<DiagnosticModel>::empty(),
        },
        ExpressionModel::Name { identifier_token } => {
            match spec_assoc_get(env, identifier_token.text) {
                Some(ty) => BindResult {
                    bound: BoundModel::Variable { name: identifier_token.text, ty },
                    env,
                    diags: Seq::<DiagnosticModel>::empty(),
                },
                None => BindResult {
                    bound: BoundModel::Error,
                    env,
                    diags: seq![
                        spec_undefined_name_diag(identifier_token.text, identifier_token.span),
                    ],
                },
            }
        },
        ExpressionModel::Unary { operator_token, operand } => {
            let r = spec_bind(*operand, env);
            let operand_type = spec_bound_type(r.bound);
            if operand_type == SilverType::Error {
                BindResult { bound: BoundModel::Error, env: r.env, diags: r.diags }
            } else {
                match spec_bind_unary_operator(operator_token.kind, operand_type) {
                    Some((operator, ty)) => BindResult {
                        bound: BoundModel::Unary { operator, operand: Box::new(r.bound), ty },
                        env: r.env,
                        diags: r.diags,
                    },
                    None => BindResult {
                        bound: BoundModel::Error,
                        env: r.env,
                        diags: r.diags + seq![
                            spec_unary_operator_diag(operator_token, operand_type),
                        ],
                    },
                }
            }
        },
        ExpressionModel::Binary { left, operator_token, right } => {
            let l = spec_bind(*left, env);
            let r = spec_bind(*right, l.env);
            let left_type = spec_bound_type(l.bound);
            let right_type = spec_bound_type(r.bound);
            let diags = l.diags + r.diags;
            if left_type == SilverType::Error || right_type == SilverType::Error {
                BindResult { bound: BoundModel::Error, env: r.env, diags }
            } else {
                match spec_bind_binary_operator(operator_token.kind, left_type, right_type) {
                    Some((operator, ty)) => BindResult {
                        bound: BoundModel::Binary {
                            left: Box::new(l.bound),
                            operator,
                            right: Box::new(r.bound),
                            ty,
                        },
                        env: r.env,
                        diags,
                    },
                    None => BindResult {
                        bound: BoundModel::Error,
                        env: r.env,
                        diags: diags + seq![
                            spec_binary_operator_diag(operator_token, left_type, right_type),
                        ],
                    },
                }
            }
        },
        ExpressionModel::Parenthesized { expression, .. } => spec_bind(*expression, env),
        ExpressionModel::Assignment { identifier_token, equals_token, expression } => {
            let r = spec_bind(*expression, env);
            let name = identifier_token.text;
            let ty = spec_bound_type(r.bound);
            if ty == SilverType::Error {
                BindResult { bound: BoundModel::Error, env: r.env, diags: r.diags }
            } else {
                let declared = spec_assoc_get(r.env, name);
                if declared is Some && declared->0 != ty {
                    BindResult {
                        bound: BoundModel::Error,
                        env: r.env,
                        diags: r.diags + seq![
                            spec_assignment_diag(name, identifier_token.span, declared->0, ty),
                        ],
                    }
                } else {
                    BindResult {
                        bound: BoundModel::Assignment {
                            name,
                            expression: Box::new(r.bound),
                            ty,
                        },
                        env: spec_assoc_update(r.env, name, ty),
                        diags: r.diags,
                    }
                }
            }
        },
    }
}

/// A variable-type table is sound when no entry carries the poison type.
pub open spec fn spec_env_ok(env: Seq<(Seq<char>, SilverType)>) -> bool {
    forall|i: int| 0 <= i < env.len() ==> env[i].1 != SilverType::Error
}

/// A successful lookup returns one of the listed types.
proof fn lemma_assoc_get_listed(env: Seq<(Seq<char>, SilverType)>, name: Seq<char>)
    requires
        spec_env_ok(env),
        spec_assoc_get(env, name) is Some,
    ensures
        spec_assoc_get(env, name)->0 != SilverType::Error,
    decreases env.len(),
{
    if env.len() > 0 && env[0].0 != name {
        assert(spec_env_ok(env.drop_first()));
        lemma_assoc_get_listed(env.drop_first(), name);
    }
}

/// Updating with a sound type keeps the table sound.
proof fn lemma_assoc_update_env_ok(
    env: Seq<(Seq<char>, SilverType)>,
    name: Seq<char>,
    ty: SilverType,
)
    requires
        spec_env_ok(env),
        ty != SilverType::Error,
    ensures
        spec_env_ok(spec_assoc_update(env, name, ty)),
    decreases env.len(),
{
    let updated = spec_assoc_update(env, name, ty);
    if env.len() == 0 {
        assert(forall|i: int| 0 <= i < updated.len() ==> updated[i] == (name, ty));
    } else if env[0].0 == name {
        assert(forall|i: int|
            1 <= i < updated.len() ==> updated[i] == env.drop_first()[i - 1] && env.drop_first()[i
                - 1] == env[i]);
    } else {
        assert(spec_env_ok(env.drop_first()));
        lemma_assoc_update_env_ok(env.drop_first(), name, ty);
        let tail = spec_assoc_update(env.drop_first(), name, ty);
        assert(forall|i: int| 1 <= i < updated.len() ==> updated[i] == tail[i - 1]);
    }
}

/// Binding under a sound table yields a sound table, and a node bound to
/// the poison type always has at least one diagnostic behind it.
pub proof fn lemma_bind_sound(e: ExpressionModel, env: Seq<(Seq<char>, SilverType)>)
    requires
        spec_env_ok(env),
    ensures
        spec_env_ok(spec_bind(e, env).env),
        spec_bound_type(spec_bind(e, env).bound) == SilverType::Error ==> spec_bind(
            e,
            env,
        ).diags.len() > 0,
    decreases e,
{
    match e {
        ExpressionModel::Literal { .. } => {},
        ExpressionModel::Name { identifier_token } => {
            if spec_assoc_get(env, identifier_token.text) is Some {
                lemma_assoc_get_listed(env, identifier_token.text);
            }
        },
        ExpressionModel::Unary { operator_token, operand } => {
            lemma_bind_sound(*operand, env);
        },
        ExpressionModel::Binary { left, operator_token, right } => {
            lemma_bind_sound(*left, env);
            lemma_bind_sound(*right, spec_bind(*left, env).env);
        },
        ExpressionModel::Parenthesized { expression, .. } => {
            lemma_bind_sound(*expression, env);
        },
        ExpressionModel::Assignment { identifier_token, equals_token, expression } => {
            lemma_bind_sound(*expression, env);
            let r = spec_bind(*expression, env);
            let ty = spec_bound_type(r.bound);
            if ty != SilverType::Error {
                let declared = spec_assoc_get(r.env, identifier_token.text);
                if !(declared is Some && declared->0 != ty) {
                    lemma_assoc_update_env_ok(r.env, identifier_token.text, ty);
                }
            }
        },
    }
}

/// The binder's output bundle: the bound root expression and the
/// variable declarations in scope after binding.
pub struct GlobalScope {
    expression: BoundExpression,
    variables: Vec<VariableSymbol>,
}

impl GlobalScope {
    pub closed spec fn spec_expression(&self) -> BoundModel {
        self.expression@
    }

    pub closed spec fn spec_variables(&self) -> Seq<(Seq<char>, SilverType)> {
        symbol_models(self.variables@)
    }

    /// The bound root expression.
    pub fn expression(&self) -> (r: &BoundExpression)
        ensures
            r@ == self.spec_expression(),
    {
        &self.expression
    }

    /// The variables in scope, in declaration order.
    pub fn variables(&self) -> (r: &Vec<VariableSymbol>)
        ensures
            symbol_models(r@) == self.spec_variables(),
    {
        &self.variables
    }
}

/// The binder. It is stateless: one call binds a whole tree.
pub struct Binder {}

/// Look a name up in the exec variable-type table.
fn env_get(env: &Vec<VariableSymbol>, name: &str) -> (r: Option<SilverType>)
    ensures
        r == spec_assoc_get(symbol_models(env@), name@),
{
    let n = env.len();
    let mut i: usize = 0;
    proof {
        assert(symbol_models(env@).skip(0) =~= symbol_models(env@));
    }
    while i < n
        invariant
            i <= n,
            n == env@.len(),
            spec_assoc_get(symbol_models(env@), name@) == spec_assoc_get(
                symbol_models(env@).skip(i as int),
                name@,
            ),
        decreases n - i,
    {
        proof {
            assert(symbol_models(env@).skip(i as int)[0] == (env@[i as int]@.name,
            env@[i as int]@.ty));
            assert(symbol_models(env@).skip(i as int).drop_first() =~= symbol_models(env@).skip(
                i + 1,
            ));
        }
        if str_eq(env[i].name(), name) {
            return Some(env[i].ty());
        }
        i += 1;
    }
    proof {
        assert(symbol_models(env@).skip(n as int) =~= Seq::<(Seq<char>, SilverType)>::empty());
    }
    None
}

/// Declare or re-type a name in the exec variable-type table.
fn env_set(env: &mut Vec<VariableSymbol>, name: &str, ty: SilverType)
    ensures
        symbol_models(final(env)@) == spec_assoc_update(symbol_models(old(env)@), name@, ty),
{
    let n = env.len();
    let mut i: usize = 0;
    while i < n
        invariant
            i <= n,
            n == env@.len(),
            env@ == old(env)@,
            forall|j: int| 0 <= j < i ==> symbol_models(old(env)@)[j].0 != name@,
        decreases n - i,
    {
        proof {
            assert(symbol_models(env@)[i as int] == (env@[i as int]@.name, env@[i as int]@.ty));
        }
        if str_eq(env[i].name(), name) {
            env.set(i, VariableSymbol::new(name.to_owned(), ty));
            proof {
                crate::store::lemma_assoc_update_found(
                    symbol_models(old(env)@),
                    name@,
                    ty,
                    i as int,
                );
                assert(symbol_models(env@) =~= symbol_models(old(env)@).update(
                    i as int,
                    (name@, ty),
                ));
            }
            return ;
        }
        i += 1;
    }
    env.push(VariableSymbol::new(name.to_owned(), ty));
    proof {
        crate::store::lemma_assoc_update_missing(symbol_models(old(env)@), name@, ty);
        assert(symbol_models(env@) =~= symbol_models(old(env)@).push((name@, ty)));
    }
}

/// Resolve a unary operator against its operand type.
fn bind_unary_operator(op: SyntaxKind, operand: SilverType) -> (r: Option<
    (BoundUnaryOperatorKind, SilverType),
>)
    ensures
        r == spec_bind_unary_operator(op, operand),
{
    if op == SyntaxKind::PlusToken && operand == SilverType::Number {
        Some((BoundUnaryOperatorKind::Identity, SilverType::Number))
    } else if op == SyntaxKind::MinusToken && operand == SilverType::Number {
        Some((BoundUnaryOperatorKind::Negation, SilverType::Number))
    } else if op == SyntaxKind::BangToken && operand == SilverType::Boolean {
        Some((BoundUnaryOperatorKind::LogicalNegation, SilverType::Boolean))
    } else {
        None
    }
}

/// Resolve a binary operator against its operand types.
fn bind_binary_operator(op: SyntaxKind, left: SilverType, right: SilverType) -> (r: Option<
    (BoundBinaryOperatorKind, SilverType),
>)
    ensures
        r == spec_bind_binary_operator(op, left, right),
{
    if op == SyntaxKind::PlusToken && left == SilverType::Number && right == SilverType::Number {
        Some((BoundBinaryOperatorKind::Addition, SilverType::Number))
    } else if op == SyntaxKind::MinusToken && left == SilverType::Number && right
        == SilverType::Number {
        Some((BoundBinaryOperatorKind::Subtraction, SilverType::Number))
    } else if op == SyntaxKind::StarToken && left == SilverType::Number && right
        == SilverType::Number {
        Some((BoundBinaryOperatorKind::Multiplication, SilverType::Number))
    } else if op == SyntaxKind::SlashToken && left == SilverType::Number && right
        == SilverType::Number {
        Some((BoundBinaryOperatorKind::Division, SilverType::Number))
    } else if op == SyntaxKind::EqualsEqualsToken && left == right && left != SilverType::Error {
        Some((BoundBinaryOperatorKind::Equality, SilverType::Boolean))
    } else if op == SyntaxKind::BangEqualsToken && left == right && left != SilverType::Error {
        Some((BoundBinaryOperatorKind::Inequality, SilverType::Boolean))
    } else if op == SyntaxKind::AmpersandAmpersandToken && left == SilverType::Boolean && right
        == SilverType::Boolean {
        Some((BoundBinaryOperatorKind::LogicalAnd, SilverType::Boolean))
    } else if op == SyntaxKind::PipePipeToken && left == SilverType::Boolean && right
        == SilverType::Boolean {
        Some((BoundBinaryOperatorKind::LogicalOr, SilverType::Boolean))
    } else {
        None
    }
}

impl Binder {
    /// Bind one node, threading the variable-type table and reporting
    /// binder errors.
    fn bind_expression(
        expression: &ExpressionSyntax,
        env: &mut Vec<VariableSymbol>,
        reporter: &mut ErrorReporter,
    ) -> (b: BoundExpression)
        ensures
            ({
                let r = spec_bind(expression@, symbol_models(old(env)@));
                &&& b@ == r.bound
                &&& symbol_models(final(env)@) == r.env
                &&& final(reporter)@ == old(reporter)@ + r.diags
            }),
        decreases expression,
    {
        let ghost env0 = symbol_models(old(env)@);
        let ghost base = old(reporter)@;
        match expression {
            ExpressionSyntax::Literal { literal_token, value } => {
                let b = BoundExpression::Literal { value: *value };
                proof {
                    assert(reporter@ =~= base + Seq::<DiagnosticModel>::empty());
                }
                b
            },
            ExpressionSyntax::Name { identifier_token } => {
                match env_get(env, identifier_token.text()) {
                    Some(ty) => {
                        let b = BoundExpression::Variable {
                            name: identifier_token.text().to_owned(),
                            ty,
                        };
                        proof {
                            assert(reporter@ =~= base + Seq::<DiagnosticModel>::empty());
                        }
                        b
                    },
                    None => {
                        let mut message = String::from_str("undefined name: ");
                        message.append(identifier_token.text());
                        reporter.report(
                            Diagnostic::new(
                                identifier_token.span(),
                                message,
                                DiagnosticKind::BinderError,
                            ),
                        );
                        proof {
                            assert(reporter@ =~= base + seq![
                                spec_undefined_name_diag(
                                    identifier_token@.text,
                                    identifier_token@.span,
                                ),
                            ]);
                        }
                        BoundExpression::Error
                    },
                }
            },
            ExpressionSyntax::Unary { operator_token, operand } => {
                let bound_operand = Self::bind_expression(operand, env, reporter);
                let operand_type = bound_operand.silver_type();
                if operand_type == SilverType::Error {
                    BoundExpression::Error
                } else {
                    match bind_unary_operator(operator_token.kind(), operand_type) {
                        Some((operator, ty)) => BoundExpression::Unary {
                            operator,
                            operand: Box::new(bound_operand),
                            ty,
                        },
                        None => {
                            let ghost mid = reporter@;
                            let mut message = String::from_str("unary operator ");
                            match operator_token.kind().get_text() {
                                Some(t) => message.append(t),
                                None => (),
                            }
                            message.append(" is not defined for type ");
                            message.append(operand_type.name());
                            reporter.report(
                                Diagnostic::new(
                                    operator_token.span(),
                                    message,
                                    DiagnosticKind::BinderError,
                                ),
                            );
                            proof {
                                assert(reporter@ =~= base + (spec_bind(
                                    operand@,
                                    env0,
                                ).diags + seq![
                                    spec_unary_operator_diag(operator_token@, operand_type),
                                ]));
                            }
                            BoundExpression::Error
                        },
                    }
                }
            },
            ExpressionSyntax::Binary { left, operator_token, right } => {
                let bound_left = Self::bind_expression(left, env, reporter);
                let bound_right = Self::bind_expression(right, env, reporter);
                let left_type = bound_left.silver_type();
                let right_type = bound_right.silver_type();
                proof {
                    assert(reporter@ =~= base + (spec_bind(left@, env0).diags + spec_bind(
                        right@,
                        spec_bind(left@, env0).env,
                    ).diags));
                }
                if left_type == SilverType::Error || right_type == SilverType::Error {
                    BoundExpression::Error
                } else {
                    match bind_binary_operator(operator_token.kind(), left_type, right_type) {
                        Some((operator, ty)) => BoundExpression::Binary {
                            left: Box::new(bound_left),
                            operator,
                            right: Box::new(bound_right),
                            ty,
                        },
                        None => {
                            let ghost mid = reporter@;
                            let mut message = String::from_str("binary operator ");
                            match operator_token.kind().get_text() {
                                Some(t) => message.append(t),
                                None => (),
                            }
                            message.append(" is not defined for types ");
                            message.append(left_type.name());
                            message.append(" and ");
                            message.append(right_type.name());
                            reporter.report(
                                Diagnostic::new(
                                    operator_token.span(),
                                    message,
                                    DiagnosticKind::BinderError,
                                ),
                            );
                            proof {
                                assert(reporter@ =~= base + ((spec_bind(
                                    left@,
                                    env0,
                                ).diags + spec_bind(right@, spec_bind(left@, env0).env).diags)
                                    + seq![
                                    spec_binary_operator_diag(
                                        operator_token@,
                                        left_type,
                                        right_type,
                                    ),
                                ]));
                            }
                            BoundExpression::Error
                        },
                    }
                }
            },
            ExpressionSyntax::Parenthesized { expression, .. } => {
                Self::bind_expression(expression, env, reporter)
            },
            ExpressionSyntax::Assignment { identifier_token, equals_token, expression } => {
                let bound_value = Self::bind_expression(expression, env, reporter);
                let ty = bound_value.silver_type();
                if ty == SilverType::Error {
                    BoundExpression::Error
                } else {
                    let declared = env_get(env, identifier_token.text());
                    let mismatch = match declared {
                        Some(d) => d != ty,
                        None => false,
                    };
                    if mismatch {
                        let ghost mid = reporter@;
                        let mut message = String::from_str("cannot assign a value of type ");
                        message.append(ty.name());
                        message.append(" to a variable of type ");
                        match declared {
                            Some(d) => message.append(d.name()),
                            None => (),
                        }
                        reporter.report(
                            Diagnostic::new(
                                identifier_token.span(),
                                message,
                                DiagnosticKind::BinderError,
                            ),
                        );
                        proof {
                            assert(reporter@ =~= base + (spec_bind(
                                expression@,
                                env0,
                            ).diags + seq![
                                spec_assignment_diag(
                                    identifier_token@.text,
                                    identifier_token@.span,
                                    spec_assoc_get(
                                        spec_bind(expression@, env0).env,
                                        identifier_token@.text,
                                    )->0,
                                    ty,
                                ),
                            ]));
                        }
                        BoundExpression::Error
                    } else {
                        env_set(env, identifier_token.text(), ty);
                        BoundExpression::Assignment {
                            name: identifier_token.text().to_owned(),
                            expression: Box::new(bound_value),
                            ty,
                        }
                    }
                }
            },
        }
    }

    /// Bind a whole tree against the caller's variable store: the type
    /// table starts as the store's name-to-type reading and threads
    /// through the pass; binder errors go to `reporter`.
    pub fn bind_global_scope(
        root: &ExpressionSyntax,
        variables: &VariableStore,
        reporter: &mut ErrorReporter,
    ) -> (scope: GlobalScope)
        ensures
            ({
                let r = spec_bind(root@, spec_types_of(variables@));
                &&& scope.spec_expression() == r.bound
                &&& scope.spec_variables() == r.env
                &&& final(reporter)@ == old(reporter)@ + r.diags
            }),
    {
        let mut env = variables.symbols();
        let expression = Self::bind_expression(root, &mut env, reporter);
        GlobalScope { expression, variables: env }
    }
}

} // verus!
