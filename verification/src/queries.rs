//! Questions that can be asked of a value without building another one.

use vstd::prelude::*;
use std::rc::Rc;
use crate::abstract_value::{constant_value, AbstractValue};
use crate::constant_domain::ConstantDomain;
use crate::expression::Expression;

verus! {

/// True if the value is derived from memory locations whose values were not
/// known when the value was constructed: it is a reference, a call, a model field,
/// a variable or a widened value, or a conditional with such a branch.
pub open spec fn path_alias(a: AbstractValue) -> bool
    decreases a,
{
    match a.expression {
        Expression::Reference(_)
        | Expression::UninterpretedCall { .. }
        | Expression::UnknownModelField { .. }
        | Expression::Variable { .. }
        | Expression::Widen { .. } => true,
        Expression::ConditionalExpression { consequent, alternate, .. } => path_alias(*consequent)
            || path_alias(*alternate),
        _ => false,
    }
}

/// True if the storage referenced by the value is, or is contained in, a zeroed
/// heap allocation.
pub open spec fn in_zeroed_heap_block(a: AbstractValue) -> bool
    decreases a,
{
    match a.expression {
        Expression::HeapBlock { is_zeroed, .. } => is_zeroed,
        Expression::Offset { left, .. } => in_zeroed_heap_block(*left),
        Expression::Reference(path) | Expression::Variable { path, .. } => {
            path.rooted_by_zeroed_heap_block()
        },
        _ => false,
    }
}

/// The Boolean value of this expression, if known, otherwise None.
pub fn as_bool_if_known(a: &Rc<AbstractValue>) -> (result: Option<bool>)
    ensures
        result == a.known_bool(),
{
    match &a.expression {
        Expression::CompileTimeConstant(c) => c.as_bool_if_known(),
        _ => None,
    }
}

/// If the concrete Boolean value of this abstract value is known, return it as an
/// unsigned integer constant, one for true and zero for false, otherwise return
/// None.
pub fn as_int_if_known(a: &Rc<AbstractValue>) -> (result: Option<Rc<AbstractValue>>)
    ensures
        match a.known_bool() {
            Some(known) => result matches Some(value) && *value == constant_value(
                ConstantDomain::U128(
                    if known {
                        1
                    } else {
                        0
                    },
                ),
            ),
            None => result is None,
        },
{
    match as_bool_if_known(a) {
        Some(known) => Some(
            AbstractValue::of_u128(
                if known {
                    1
                } else {
                    0
                },
            ),
        ),
        None => None,
    }
}

/// True if the set of concrete values that correspond to this domain is empty.
pub fn is_bottom(a: &Rc<AbstractValue>) -> (result: bool)
    ensures
        result == (a.expression is Bottom),
{
    matches!(a.expression, Expression::Bottom)
}

/// True if all possible concrete values are elements of the set corresponding to
/// this domain.
pub fn is_top(a: &Rc<AbstractValue>) -> (result: bool)
    ensures
        result == (a.expression is Top),
{
    matches!(a.expression, Expression::Top)
}

/// True if the value is derived from one or more memory locations whose values
/// were not known when the value was constructed.
pub fn is_path_alias(a: &Rc<AbstractValue>) -> (result: bool)
    ensures
        result == path_alias(**a),
    decreases a,
{
    match &a.expression {
        Expression::Reference(_)
        | Expression::UninterpretedCall { .. }
        | Expression::UnknownModelField { .. }
        | Expression::Variable { .. }
        | Expression::Widen { .. } => true,
        Expression::ConditionalExpression { consequent, alternate, .. } => is_path_alias(
            consequent,
        ) || is_path_alias(alternate),
        _ => false,
    }
}

/// True if the storage referenced by this expression is, or is contained in, a
/// zeroed heap allocation.
pub fn is_contained_in_zeroed_heap_block(a: &Rc<AbstractValue>) -> (result: bool)
    ensures
        result == in_zeroed_heap_block(**a),
    decreases a,
{
    match &a.expression {
        Expression::HeapBlock { is_zeroed, .. } => *is_zeroed,
        Expression::Offset { left, .. } => is_contained_in_zeroed_heap_block(left),
        Expression::Reference(path) | Expression::Variable { path, .. } => {
            path.is_rooted_by_zeroed_heap_block()
        },
        _ => false,
    }
}

} // verus!
