//! Equality of values as an operator.

use vstd::prelude::*;
use std::rc::Rc;
use crate::abstract_value::AbstractValue;
use crate::constant_domain::ConstantDomain;
use crate::disjunction::or;
use crate::expression::{BinaryOperator, Expression};
use crate::logic::{as_u128, is_bool_typed};
use crate::negation::logical_not;
use crate::path::Path;
use crate::rules::{equality, selected};
use crate::shared::share;

verus! {

/// Returns an element that is "c == k", where `c ? consequent : alternate` is a
/// conditional of two unsigned constants of which `k` is one.
pub fn select(
    condition: &Rc<AbstractValue>,
    consequent: &Rc<AbstractValue>,
    alternate: &Rc<AbstractValue>,
    k: u128,
    budget: usize,
) -> (result: Option<Rc<AbstractValue>>)
    ensures
        result == selected(*condition, *consequent, *alternate, k, budget),
        condition.within_limit() ==> (result matches Some(r) ==> r.within_limit()),
    decreases budget, 3int,
{
    if let (Some(c1), Some(c2)) = (as_u128(consequent), as_u128(alternate)) {
        // [(c ? c1 : c2) == c1] -> c
        if c1 == k {
            return Some(share(condition));
        }
        // [(c ? c1 : c2) == c2] -> !c
        if c2 == k {
            return Some(logical_not(condition, budget));
        }
    }
    None
}

/// Returns an element that is "a == b".
#[verifier::rlimit(100)]
#[verifier::spinoff_prover]
pub fn equals(a: &Rc<AbstractValue>, b: Rc<AbstractValue>, budget: usize) -> (result: Rc<
    AbstractValue,
>)
    ensures
        result == equality(*a, b, budget),
        a.within_limit() && b.within_limit() ==> result.within_limit(),
    decreases budget, 4int,
{
    proof {
        reveal_with_fuel(AbstractValue::within_limit, 3);
        reveal_with_fuel(Expression::within_limit, 3);
    }
    match (&a.expression, &b.expression) {
        (Expression::CompileTimeConstant(v1), Expression::CompileTimeConstant(v2)) => {
            return AbstractValue::of_constant(v1.equals(v2));
        },
        // If a and b are the same location in memory, return true unless the value
        // might be NaN.
        (
            Expression::Variable { path: p1, var_type: t1 },
            Expression::Variable { path: p2, var_type: t2 },
        ) => {
            if Path::eq(p1, p2) && !t1.is_floating_point_number() && !t2.is_floating_point_number() {
                return AbstractValue::of_bool(true);
            }
        },
        // [(c ? c1 : c2) == c1] -> c
        // [(c ? c1 : c2) == c2] -> !c
        (
            Expression::ConditionalExpression { condition, consequent, alternate },
            Expression::CompileTimeConstant(ConstantDomain::U128(k)),
        ) => {
            if let Some(result) = select(condition, consequent, alternate, *k, budget) {
                return result;
            }
        },
        // [c1 == (c ? c1 : c2)] -> c
        // [c2 == (c ? c1 : c2)] -> !c
        (
            Expression::CompileTimeConstant(ConstantDomain::U128(k)),
            Expression::ConditionalExpression { condition, consequent, alternate },
        ) => {
            if let Some(result) = select(condition, consequent, alternate, *k, budget) {
                return result;
            }
        },
        // [!x == 0] -> x when x is Boolean. Canonicalize it to the latter.
        (
            Expression::LogicalNot { operand },
            Expression::CompileTimeConstant(ConstantDomain::U128(k)),
        ) => {
            if *k == 0 && is_bool_typed(&operand.expression) {
                return share(operand);
            }
        },
        // [x == 0] -> !x when x is a Boolean. Canonicalize it to the latter.
        // [x == 1] -> x when x is a Boolean. Canonicalize it to the latter.
        (x, Expression::CompileTimeConstant(ConstantDomain::U128(k))) => {
            if is_bool_typed(x) {
                if *k == 0 {
                    return logical_not(a, budget);
                } else if *k == 1 {
                    return share(a);
                }
            }
        },
        // [(if x { y } else { z }) == z]  -> [if x { y == z } else { true }] -> !x || y == z
        (Expression::ConditionalExpression { condition: x, consequent: y, alternate: z }, _) => {
            if AbstractValue::eq(z, &b) {
                if budget > 0 {
                    return or(
                        &logical_not(x, budget - 1),
                        equals(y, share(z), budget - 1),
                        budget - 1,
                    );
                }
            } else if a.expression.eq(&b.expression)
                && !a.expression.infer_type().is_floating_point_number() {
                return AbstractValue::of_bool(true);
            }
        },
        (x, y) => {
            // If a and b are the same expression and the expression could not result
            // in NaN and the expression represents exactly one value, we can simplify
            // this to true.
            if x.eq(y) && !x.infer_type().is_floating_point_number() {
                return AbstractValue::of_bool(true);
            }
        },
    }
    // Return an equals expression rather than a constant expression.
    AbstractValue::make_binary(share(a), b, BinaryOperator::Equals)
}

} // verus!
