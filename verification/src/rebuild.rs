//! Rebuilding of operations from new operands.
//!
//! The refinements of the engine walk an expression, refine its operands and rebuild
//! the operation with the operator that the expression stands for.

use vstd::prelude::*;
use std::rc::Rc;
use crate::abstract_value::AbstractValue;
use crate::arithmetic::{addition, cast, divide, multiply, offset, remainder, subtract};
use crate::conjunction::{and, fit};
use crate::disjunction::or;
use crate::equals::equals;
use crate::expression::Expression;
use crate::lattice::{join, widen};
use crate::negation::logical_not;
use crate::operators::{
    add_overflows,
    bit_and,
    bit_not,
    bit_or,
    bit_xor,
    greater_or_equal,
    greater_than,
    intrinsic_binary,
    intrinsic_bit_vector_unary,
    intrinsic_floating_point_unary,
    less_or_equal,
    less_than,
    mul_overflows,
    negate,
    not_equals,
    shift_left,
    shl_overflows,
    shr,
    shr_overflows,
    sub_overflows,
};
use crate::k_limits;
use crate::rules::{rebuilt_binary, rebuilt_layout, rebuilt_unary};
use crate::semantics::{is_conjunction, is_negation, propositional};

verus! {

/// Returns the operation of `expression` on the operands `left` and `right`.
#[verifier::rlimit(50)]
#[verifier::spinoff_prover]
pub fn rebuild_binary(
    expression: &Expression,
    left: Rc<AbstractValue>,
    right: Rc<AbstractValue>,
    budget: usize,
) -> (result: Rc<AbstractValue>)
    ensures
        result == rebuilt_binary(*expression, left, right, budget),
        expression.within_limit() && left.within_limit() && right.within_limit()
            ==> result.within_limit(),
        *expression is And && fit(*left, *right) ==> propositional(*result)
            && result.expression_size <= left.expression_size + right.expression_size
            && is_conjunction(*result, *left, *right),
    decreases budget, 7int,
{
    reveal(rebuilt_binary);
    match expression {
        Expression::Add { .. } => addition(&left, right, budget),
        Expression::And { .. } => and(&left, right, budget),
        Expression::BitAnd { .. } => bit_and(&left, right),
        Expression::BitOr { .. } => bit_or(&left, right),
        Expression::BitXor { .. } => bit_xor(&left, right),
        Expression::Div { .. } => divide(&left, right, budget),
        Expression::Equals { .. } => equals(&left, right, budget),
        Expression::GreaterOrEqual { .. } => greater_or_equal(&left, right),
        Expression::GreaterThan { .. } => greater_than(&left, right),
        Expression::LessOrEqual { .. } => less_or_equal(&left, right),
        Expression::LessThan { .. } => less_than(&left, right),
        Expression::Mul { .. } => multiply(&left, right, budget),
        Expression::Ne { .. } => not_equals(&left, right),
        Expression::Offset { .. } => offset(&left, right, budget),
        Expression::Or { .. } => or(&left, right, budget),
        Expression::Rem { .. } => remainder(&left, right, budget),
        Expression::Shl { .. } => shift_left(&left, right),
        Expression::Sub { .. } => subtract(&left, right, budget),
        Expression::AddOverflows { result_type, .. } => add_overflows(&left, right, *result_type),
        Expression::MulOverflows { result_type, .. } => mul_overflows(&left, right, *result_type),
        Expression::ShlOverflows { result_type, .. } => shl_overflows(&left, right, *result_type),
        Expression::ShrOverflows { result_type, .. } => shr_overflows(&left, right, *result_type),
        Expression::SubOverflows { result_type, .. } => sub_overflows(&left, right, *result_type),
        Expression::Shr { result_type, .. } => shr(&left, right, *result_type),
        Expression::IntrinsicBinary { name, .. } => intrinsic_binary(&left, right, *name),
        Expression::Join { path, .. } => join(&left, right, path),
        _ => left,
    }
}

/// Returns the operation of `expression` on `operand`.
#[verifier::rlimit(50)]
#[verifier::spinoff_prover]
pub fn rebuild_unary(expression: &Expression, operand: Rc<AbstractValue>, budget: usize) -> (result:
    Rc<AbstractValue>)
    ensures
        result == rebuilt_unary(*expression, operand, budget),
        expression.within_limit() && operand.within_limit() ==> result.within_limit(),
        *expression is LogicalNot && propositional(*operand) && operand.expression_size
            < k_limits::MAX_EXPRESSION_SIZE ==> propositional(*result) && result.expression_size
            <= operand.expression_size + 1 && is_negation(*result, *operand),
    decreases budget, 7int,
{
    reveal(rebuilt_unary);
    match expression {
        Expression::BitNot { result_type, .. } => bit_not(&operand, *result_type),
        Expression::Cast { target_type, .. } => cast(&operand, *target_type, budget),
        Expression::IntrinsicBitVectorUnary { bit_length, name, .. } => {
            intrinsic_bit_vector_unary(&operand, *bit_length, *name)
        },
        Expression::IntrinsicFloatingPointUnary { name, .. } => intrinsic_floating_point_unary(
            &operand,
            *name,
        ),
        Expression::LogicalNot { .. } => logical_not(&operand, budget),
        Expression::Neg { .. } => negate(operand),
        Expression::Widen { path, .. } => widen(&operand, path),
        _ => operand,
    }
}

/// Returns the heap block layout of `expression` with the given length and
/// alignment.
pub fn rebuild_layout(
    expression: &Expression,
    length: Rc<AbstractValue>,
    alignment: Rc<AbstractValue>,
) -> (result: Rc<AbstractValue>)
    ensures
        result == rebuilt_layout(*expression, length, alignment),
        length.within_limit() && alignment.within_limit() ==> result.within_limit(),
{
    match expression {
        Expression::HeapBlockLayout { source, .. } => AbstractValue::make_from(
            Expression::HeapBlockLayout { length, alignment, source: *source },
            1,
        ),
        _ => length,
    }
}

} // verus!
