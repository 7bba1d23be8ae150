//! The negation of conditions.

use vstd::prelude::*;
use std::rc::Rc;
use crate::abstract_value::{bool_value, AbstractValue};
use crate::expression::{BinaryOperator, Expression};
use crate::k_limits;
use crate::path::Path;
use crate::semantics::{
    propositional,
    holds,
    is_conjunction,
    is_disjunction,
    is_negation,
    lemma_same_holds,
    respects,
    same_truth_under,
};
use crate::shared::{node, share};
use crate::equals::equals;
use crate::logic::is_integer_typed;
use crate::operators::{
    greater_or_equal,
    greater_than,
    less_or_equal,
    less_than,
    not_equals,
};
use crate::rules::negation;

verus! {

/// Returns an element that is "!a" where a is a bool.
pub fn logical_not(a: &Rc<AbstractValue>, budget: usize) -> (result: Rc<AbstractValue>)
    ensures
        result == negation(*a, budget),
        a.within_limit() ==> result.within_limit(),
        a.known_bool() matches Some(b) ==> *result == bool_value(!b),
        a.expression is Bottom ==> result == *a,
        a.expression matches Expression::LogicalNot { operand } ==> result == operand,
        propositional(**a) && a.expression_size < k_limits::MAX_EXPRESSION_SIZE ==> propositional(*result)
            && result.expression_size <= a.expression_size + 1 && is_negation(*result, **a),
    decreases budget, 0int,
{
    proof {
        reveal_with_fuel(AbstractValue::within_limit, 3);
        reveal_with_fuel(Expression::within_limit, 3);
        reveal_with_fuel(propositional, 3);
        reveal_with_fuel(holds, 3);
    }
    if let Expression::CompileTimeConstant(v1) = &a.expression {
        let folded = v1.logical_not();
        if !folded.is_bottom() {
            return AbstractValue::of_constant(folded);
        }
    }
    match &a.expression {
        Expression::Bottom => {
            return share(a);
        },
        Expression::Equals { left: x, right: y } => {
            if is_integer_typed(x) {
                // [!(x == y)] -> x != y
                return not_equals(x, share(y));
            }
        },
        Expression::GreaterThan { left: x, right: y } => {
            if is_integer_typed(x) {
                // [!(x > y)] -> x <= y
                return less_or_equal(x, share(y));
            }
        },
        Expression::GreaterOrEqual { left: x, right: y } => {
            if is_integer_typed(x) {
                // [!(x >= y)] -> x < y
                return less_than(x, share(y));
            }
        },
        Expression::LessThan { left: x, right: y } => {
            if is_integer_typed(x) {
                // [!(x < y)] -> x >= y
                return greater_or_equal(x, share(y));
            }
        },
        Expression::LessOrEqual { left: x, right: y } => {
            if is_integer_typed(x) {
                // [!(x <= y)] -> x > y
                return greater_than(x, share(y));
            }
        },
        Expression::LogicalNot { operand } => {
            // [!!x] -> x
            return share(operand);
        },
        Expression::Ne { left: x, right: y } => {
            if budget > 0 && is_integer_typed(x) {
                // [!(x != y)] -> x == y
                return equals(x, share(y), budget - 1);
            }
        },
        _ => (),
    }
    AbstractValue::make_unary(Expression::LogicalNot { operand: share(a) }, a.expression_size)
}

} // verus!
