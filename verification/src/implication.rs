//! Cheap tests for implications between conditions.
//!
//! The tests are sound and incomplete: `true` says that the implication holds,
//! `false` only that it was not found to hold. Each test walks its left operand
//! once.

use vstd::prelude::*;
use std::rc::Rc;
use crate::abstract_value::AbstractValue;
use crate::equality::{lemma_value_same_symmetric, lemma_value_same_transitive};
use crate::expression::Expression;

verus! {

/// True if `a ==> b` is found to hold: `b` is true, `a` is false, the two are equal,
/// or `a` is a conjunction with a conjunct that is found to imply `b`.
pub open spec fn implication(a: AbstractValue, b: AbstractValue) -> bool
    decreases a,
{
    ||| b.known_bool() == Some(true)
    ||| a.known_bool() == Some(false)
    ||| a.same_as(b)
    ||| (a.expression matches Expression::And { left, right } && (implication(*left, b)
        || implication(*right, b)))
}

/// True if `a ==> !b` is found to hold: `b` is false, `a` is false, or `a` is the
/// negation of a value that is equal to `b`.
pub open spec fn implication_of_negation(a: AbstractValue, b: AbstractValue) -> bool {
    ||| b.known_bool() == Some(false)
    ||| a.known_bool() == Some(false)
    ||| (a.expression matches Expression::LogicalNot { operand } && operand.same_as(b))
}

/// True if `!a ==> b` is found to hold.
pub open spec fn inverse_implication(a: AbstractValue, b: AbstractValue) -> bool {
    match (a.expression, b.expression) {
        (Expression::LogicalNot { operand }, _) => implication(*operand, b),
        (_, Expression::LogicalNot { operand }) => inverse_implication_of_negation(a, *operand),
        _ => b.known_bool() == Some(true) || a.known_bool() == Some(true),
    }
}

/// True if `!a ==> !b` is found to hold: the two are equal, or `b` is a conjunction
/// with a conjunct of which this is found to hold.
pub open spec fn inverse_implication_of_negation(a: AbstractValue, b: AbstractValue) -> bool
    decreases b,
{
    ||| a.same_as(b)
    ||| (b.expression matches Expression::And { left, right } && (
    inverse_implication_of_negation(a, *left) || inverse_implication_of_negation(a, *right)))
}

/// True if `a` is false or a conjunction with a conjunct of which this holds.
pub open spec fn has_false_conjunct(a: AbstractValue) -> bool
    decreases a,
{
    ||| a.known_bool() == Some(false)
    ||| (a.expression matches Expression::And { left, right } && (has_false_conjunct(*left)
        || has_false_conjunct(*right)))
}

/// True if `a` is the negation of the constant true.
pub open spec fn negates_true(a: AbstractValue) -> bool {
    a.expression matches Expression::LogicalNot { operand } && operand.known_bool() == Some(true)
}

/// The number of negations at the root of a value.
pub open spec fn negation_depth(a: AbstractValue) -> nat
    decreases a,
{
    match a.expression {
        Expression::LogicalNot { operand } => 1 + negation_depth(*operand),
        _ => 0,
    }
}

/// Returns true if "a => b" is known at compile time to be true.
/// Returning false does not imply the implication is false, just that we do not know.
pub fn implies(a: &Rc<AbstractValue>, b: &Rc<AbstractValue>) -> (result: bool)
    ensures
        result == implication(**a, **b),
    decreases a,
{
    // x => true, is always true
    // false => x, is always true
    // x => x, is always true
    if known_true(b) || known_false(a) || AbstractValue::eq(a, b) {
        return true;
    }
    // x && y => x
    // y && x => x
    if let Expression::And { left, right } = &a.expression {
        return implies(left, b) || implies(right, b);
    }
    false
}

/// Returns true if "a => !b" is known at compile time to be true.
/// Returning false does not imply the implication is false, just that we do not know.
pub fn implies_not(a: &Rc<AbstractValue>, b: &Rc<AbstractValue>) -> (result: bool)
    ensures
        result == implication_of_negation(**a, **b),
{
    // x => !false, is always true
    // false => !x, is always true
    if known_false(b) || known_false(a) {
        return true;
    }
    // !x => !x
    if let Expression::LogicalNot { operand } = &a.expression {
        return AbstractValue::eq(operand, b);
    }
    false
}

/// Returns true if "!a => b" is known at compile time to be true.
/// Returning false does not imply the implication is false, just that we do not know.
pub fn inverse_implies(a: &Rc<AbstractValue>, b: &Rc<AbstractValue>) -> (result: bool)
    ensures
        result == inverse_implication(**a, **b),
{
    if let Expression::LogicalNot { operand } = &a.expression {
        return implies(operand, b);
    }
    if let Expression::LogicalNot { operand } = &b.expression {
        return inverse_implies_not(a, operand);
    }
    // x => true, is always true
    // false => x, is always true
    known_true(b) || known_true(a)
}

/// Returns true if "!a => !b" is known at compile time to be true.
/// Returning false does not imply the implication is false, just that we do not know.
pub fn inverse_implies_not(a: &Rc<AbstractValue>, b: &Rc<AbstractValue>) -> (result: bool)
    ensures
        result == inverse_implication_of_negation(**a, **b),
    decreases b,
{
    if AbstractValue::eq(a, b) {
        return true;
    }
    if let Expression::And { left, right } = &b.expression {
        return inverse_implies_not(a, left) || inverse_implies_not(a, right);
    }
    false
}

/// Returns true if the value is the constant true.
pub fn known_true(a: &AbstractValue) -> (result: bool)
    ensures
        result == (a.known_bool() == Some(true)),
{
    match &a.expression {
        Expression::CompileTimeConstant(c) => match c.as_bool_if_known() {
            Some(b) => b,
            None => false,
        },
        _ => false,
    }
}

/// Returns true if the value is the constant false.
pub fn known_false(a: &AbstractValue) -> (result: bool)
    ensures
        result == (a.known_bool() == Some(false)),
{
    match &a.expression {
        Expression::CompileTimeConstant(c) => match c.as_bool_if_known() {
            Some(b) => !b,
            None => false,
        },
        _ => false,
    }
}

/// Equal values have the same number of negations at their roots.
pub proof fn lemma_same_negation_depth(a: &AbstractValue, b: &AbstractValue)
    requires
        a.same_as(*b),
    ensures
        negation_depth(*a) == negation_depth(*b),
    decreases a,
{
    match (&a.expression, &b.expression) {
        (Expression::LogicalNot { operand: o1 }, Expression::LogicalNot { operand: o2 }) => {
            lemma_same_negation_depth(o1, o2);
        },
        _ => {},
    }
}

/// Equal values are known to be the same Boolean, if any.
pub proof fn lemma_same_known_bool(a: &AbstractValue, b: &AbstractValue)
    requires
        a.same_as(*b),
    ensures
        a.known_bool() == b.known_bool(),
{
}

/// Only a value with a false conjunct is found to imply false.
pub proof fn lemma_implies_false(a: &AbstractValue, b: &AbstractValue)
    requires
        b.known_bool() == Some(false),
    ensures
        implication(*a, *b) == has_false_conjunct(*a),
    decreases a,
{
    if a.same_as(*b) {
        lemma_same_known_bool(a, b);
    }
    match &a.expression {
        Expression::And { left, right } => {
            lemma_implies_false(left, b);
            lemma_implies_false(right, b);
        },
        _ => {},
    }
}

/// Implication is consistent: a value that is found to imply `b` is not also found
/// to imply the negation of `b`.
///
/// Three kinds of pairs are left out, on which both tests succeed: `a` is the
/// constant false, which implies everything; `b` is the constant false and `a` has
/// a false conjunct; and `a` is the negation of the constant true while `b` is true.
pub proof fn lemma_implication_consistent(a: &AbstractValue, b: &AbstractValue)
    requires
        a.known_bool() != Some(false),
        !(b.known_bool() == Some(false) && has_false_conjunct(*a)),
        !(b.known_bool() == Some(true) && negates_true(*a)),
    ensures
        implication(*a, *b) ==> !implication_of_negation(*a, *b),
{
    if implication(*a, *b) && implication_of_negation(*a, *b) {
        if b.known_bool() == Some(false) {
            lemma_implies_false(a, b);
        } else {
            let operand = a.expression->LogicalNot_operand;
            assert(operand.same_as(*b));
            if a.same_as(*b) {
                lemma_value_same_symmetric(a, b);
                lemma_value_same_transitive(&*operand, b, a);
                lemma_same_negation_depth(&*operand, a);
            } else {
                lemma_same_known_bool(&*operand, b);
            }
        }
    }
}

} // verus!
