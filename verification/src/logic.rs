//! Helpers of the logical operators: equality and implication tests that also say
//! what they mean for the truth of conditions.

use vstd::prelude::*;
use std::rc::Rc;
use crate::abstract_value::AbstractValue;
use crate::constant_domain::ConstantDomain;
use crate::expression::Expression;
use crate::implication::{
    implication,
    implication_of_negation,
    implies_not,
    inverse_implication,
    inverse_implication_of_negation,
    inverse_implies,
    inverse_implies_not,
};
use crate::rules::{among_disjuncts, unsigned};
use crate::semantics::{
    entails,
    excludes,
    exhausts,
    lemma_among_disjuncts_entails,
    lemma_implication_of_negation_sound,
    lemma_implication_sound,
    lemma_inverse_implication_of_negation_sound,
    lemma_inverse_implication_sound,
    lemma_same_truth,
    same_truth,
};

verus! {

/// Returns true if the two values are equal. Equal values hold under the same
/// valuations.
pub fn same(a: &AbstractValue, b: &AbstractValue) -> (result: bool)
    ensures
        result == a.same_as(*b),
        result ==> same_truth(*a, *b),
{
    let result = a.eq(b);
    proof {
        if result {
            lemma_same_truth(a, b);
        }
    }
    result
}

/// Returns true if "a => b" is found to hold. It then holds under every valuation.
pub fn entailed(a: &Rc<AbstractValue>, b: &Rc<AbstractValue>) -> (result: bool)
    ensures
        result == implication(**a, **b),
        result ==> entails(**a, **b),
{
    let result = crate::implication::implies(a, b);
    proof {
        if result {
            lemma_implication_sound(a, b);
        }
    }
    result
}

/// Returns true if "a => !b" is found to hold. It then holds under every valuation.
pub fn excluded(a: &Rc<AbstractValue>, b: &Rc<AbstractValue>) -> (result: bool)
    ensures
        result == implication_of_negation(**a, **b),
        result ==> excludes(**a, **b),
{
    let result = implies_not(a, b);
    proof {
        if result {
            lemma_implication_of_negation_sound(a, b);
        }
    }
    result
}

/// Returns true if "!a => b" is found to hold. It then holds under every valuation.
pub fn exhausted(a: &Rc<AbstractValue>, b: &Rc<AbstractValue>) -> (result: bool)
    ensures
        result == inverse_implication(**a, **b),
        result ==> exhausts(**a, **b),
{
    let result = inverse_implies(a, b);
    proof {
        lemma_inverse_implication_sound(a, b);
    }
    result
}

/// Returns true if "!a => !b" is found to hold. It then holds under every valuation:
/// `b` entails `a`.
pub fn entails_back(a: &Rc<AbstractValue>, b: &Rc<AbstractValue>) -> (result: bool)
    ensures
        result == inverse_implication_of_negation(**a, **b),
        result ==> entails(**b, **a),
{
    let result = inverse_implies_not(a, b);
    proof {
        lemma_inverse_implication_of_negation_sound(a, b);
    }
    result
}

/// Returns true if `x` is equal to `y` or to one of the disjuncts of `y`. It then
/// holds only where `y` holds.
pub fn is_contained_in(x: &Rc<AbstractValue>, y: &Rc<AbstractValue>) -> (result: bool)
    ensures
        result == among_disjuncts(**x, **y),
        result ==> entails(**x, **y),
    decreases y,
{
    let result = if same(x, y) {
        true
    } else if let Expression::Or { left, right } = &y.expression {
        is_contained_in(x, left) || is_contained_in(x, right)
    } else {
        false
    };
    proof {
        if result {
            lemma_among_disjuncts_entails(x, y);
        }
    }
    result
}

/// Returns true if the value is the unknown or the impossible value.
pub fn is_top_or_bottom(a: &AbstractValue) -> (result: bool)
    ensures
        result == a.top_or_bottom(),
{
    matches!(a.expression, Expression::Top | Expression::Bottom)
}

/// Returns true if the value is of an integer sort.
pub fn is_integer_typed(a: &AbstractValue) -> (result: bool)
    ensures
        result == a.expression.sort().integer(),
{
    a.expression.infer_type().is_integer()
}

/// Returns true if the expression is of the Boolean sort.
pub fn is_bool_typed(a: &Expression) -> (result: bool)
    ensures
        result == (a.sort() is Bool),
{
    matches!(a.infer_type(), crate::expression::ExpressionType::Bool)
}

/// Returns the unsigned integer that the value is a constant for, if it is one.
pub fn as_u128(a: &AbstractValue) -> (result: Option<u128>)
    ensures
        result == unsigned(*a),
{
    match &a.expression {
        Expression::CompileTimeConstant(ConstantDomain::U128(v)) => Some(*v),
        _ => None,
    }
}

} // verus!
