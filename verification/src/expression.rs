//! The untyped syntax tree: one variant per expression node kind.

use vstd::prelude::*;
use crate::token::{SyntaxToken, TokenModel};
use crate::value::SilverValue;

verus! {

/// The mathematical model of a syntax-tree node.
pub ghost enum ExpressionModel {
    Literal { literal_token: TokenModel, value: SilverValue },
    Name { identifier_token: TokenModel },
    Unary { operator_token: TokenModel, operand: Box<ExpressionModel> },
    Binary { left: Box<ExpressionModel>, operator_token: TokenModel, right: Box<ExpressionModel> },
    Parenthesized {
        open_parenthesis_token: TokenModel,
        expression: Box<ExpressionModel>,
        close_parenthesis_token: TokenModel,
    },
    Assignment {
        identifier_token: TokenModel,
        equals_token: TokenModel,
        expression: Box<ExpressionModel>,
    },
}

/// One expression node of the untyped syntax tree, as the parser builds
/// it.
pub enum ExpressionSyntax {
    Literal { literal_token: SyntaxToken, value: SilverValue },
    Name { identifier_token: SyntaxToken },
    Unary { operator_token: SyntaxToken, operand: Box<ExpressionSyntax> },
    Binary {
        left: Box<ExpressionSyntax>,
        operator_token: SyntaxToken,
        right: Box<ExpressionSyntax>,
    },
    Parenthesized {
        open_parenthesis_token: SyntaxToken,
        expression: Box<ExpressionSyntax>,
        close_parenthesis_token: SyntaxToken,
    },
    Assignment {
        identifier_token: SyntaxToken,
        equals_token: SyntaxToken,
        expression: Box<ExpressionSyntax>,
    },
}

/// The model of an expression node.
pub open spec fn expression_model(e: ExpressionSyntax) -> ExpressionModel
    decreases e,
{
    match e {
        ExpressionSyntax::Literal { literal_token, value } => ExpressionModel::Literal {
            literal_token: literal_token@,
            value,
        },
        ExpressionSyntax::Name { identifier_token } => ExpressionModel::Name {
            identifier_token: identifier_token@,
        },
        ExpressionSyntax::Unary { operator_token, operand } => ExpressionModel::Unary {
            operator_token: operator_token@,
            operand: Box::new(expression_model(*operand)),
        },
        ExpressionSyntax::Binary { left, operator_token, right } => ExpressionModel::Binary {
            left: Box::new(expression_model(*left)),
            operator_token: operator_token@,
            right: Box::new(expression_model(*right)),
        },
        ExpressionSyntax::Parenthesized {
            open_parenthesis_token,
            expression,
            close_parenthesis_token,
        } => ExpressionModel::Parenthesized {
            open_parenthesis_token: open_parenthesis_token@,
            expression: Box::new(expression_model(*expression)),
            close_parenthesis_token: close_parenthesis_token@,
        },
        ExpressionSyntax::Assignment { identifier_token, equals_token, expression } => {
            ExpressionModel::Assignment {
                identifier_token: identifier_token@,
                equals_token: equals_token@,
                expression: Box::new(expression_model(*expression)),
            }
        },
    }
}

impl View for ExpressionSyntax {
    type V = ExpressionModel;

    open spec fn view(&self) -> ExpressionModel {
        expression_model(*self)
    }
}

} // verus!
