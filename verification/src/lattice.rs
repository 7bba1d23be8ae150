//! The lattice operations on values: union, widening and inclusion.

use vstd::prelude::*;
use std::rc::Rc;
use crate::abstract_value::{bottom_value, size_sum, top_value, AbstractValue};
use crate::equality::{
    lemma_value_same_reflexive,
    lemma_value_same_symmetric,
    lemma_value_same_transitive,
};
use crate::expression::{Expression, LayoutSource};
use crate::k_limits;
use crate::path::Path;
use crate::shared::share;

verus! {

/// The union of `a` and `b` at `path`: a value that stands for every concrete value
/// that `a` or `b` stands for.
///
/// The impossible value adds nothing to a union, and the unknown value makes the
/// union unknown. A value united with an equal value stays as it is. A widened
/// value absorbs what it is united with. Every other union is a join expression.
pub open spec fn joined(a: Rc<AbstractValue>, b: Rc<AbstractValue>, path: Rc<Path>) -> Rc<
    AbstractValue,
> {
    if a.expression is Bottom {
        b
    } else if a.expression is Top {
        a
    } else if b.expression is Bottom {
        a
    } else if a.same_as(*b) {
        b
    } else if b.expression is Top {
        b
    } else if a.expression is Widen {
        a
    } else if b.expression is Widen {
        b
    } else {
        Rc::new(
            AbstractValue::made_from(
                Expression::Join { path, left: a, right: b },
                size_sum(a.expression_size, b.expression_size),
            ),
        )
    }
}

/// The value `a` widened at `path`.
///
/// Constants, heap blocks, references, variables, the unknown value and widened
/// values stay as they are. A heap block layout widens its length and alignment.
/// Every other value becomes a widen expression of size three, or, where it is
/// larger than [`k_limits::MAX_WIDEN_SIZE`], a variable at `path`.
pub open spec fn widened(a: Rc<AbstractValue>, path: Rc<Path>) -> Rc<AbstractValue>
    decreases a,
{
    match a.expression {
        Expression::CompileTimeConstant(_)
        | Expression::HeapBlock { .. }
        | Expression::Reference(_)
        | Expression::Top
        | Expression::Variable { .. }
        | Expression::Widen { .. } => a,
        Expression::HeapBlockLayout { length, alignment, .. } => Rc::new(
            AbstractValue::made_from(
                Expression::HeapBlockLayout {
                    length: widened(length, path),
                    alignment: widened(alignment, path),
                    source: LayoutSource::Alloc,
                },
                1,
            ),
        ),
        _ => if a.expression_size > k_limits::MAX_WIDEN_SIZE {
            Rc::new(
                AbstractValue::made_from(
                    Expression::Variable { path, var_type: a.expression.sort() },
                    1,
                ),
            )
        } else {
            Rc::new(AbstractValue::made_from(Expression::Widen { path, operand: a }, 3))
        },
    }
}

/// True if `a` is found to be included in `b`: every concrete value that `a` stands
/// for is one that `b` stands for. False only says that this was not found.
///
/// Equal values include each other. The impossible value is included in every
/// value and every value in the unknown value. A conditional or a join is included
/// in `b` if both its branches are; `a` is included in a conditional or a join if
/// it is included in one of the branches, and in a widened value if it is included
/// in what was widened.
pub open spec fn included(a: AbstractValue, b: AbstractValue) -> bool
    decreases a, b,
{
    if a.same_as(b) {
        true
    } else {
        match (a.expression, b.expression) {
            (Expression::Bottom, _) => true,
            (_, Expression::Bottom) => false,
            (_, Expression::Top) => true,
            (Expression::Top, _) => false,
            (Expression::Widen { path: p1, .. }, Expression::Widen { path: p2, .. }) => p1.same_as(
                *p2,
            ),
            (Expression::ConditionalExpression { consequent, alternate, .. }, _) => included(
                *consequent,
                b,
            ) && included(*alternate, b),
            (_, Expression::ConditionalExpression { consequent, alternate, .. }) => included(
                a,
                *consequent,
            ) || included(a, *alternate),
            (_, Expression::Widen { operand, .. }) => included(a, *operand),
            (Expression::Join { left, right, .. }, _) => included(*left, b) && included(*right, b),
            (_, Expression::Join { left, right, .. }) => included(a, *left) || included(a, *right),
            _ => false,
        }
    }
}

/// True if `a` is not a widened value, nor a conditional or a join with a branch
/// of which this does not hold.
pub open spec fn plain(a: AbstractValue) -> bool
    decreases a,
{
    match a.expression {
        Expression::Widen { .. } => false,
        Expression::ConditionalExpression { consequent, alternate, .. } => plain(*consequent)
            && plain(*alternate),
        Expression::Join { left, right, .. } => plain(*left) && plain(*right),
        _ => true,
    }
}

/// Returns a value that stands for all the concrete values that `a` or `b` stands
/// for. In effect this behaves like set union.
pub fn join(a: &Rc<AbstractValue>, b: Rc<AbstractValue>, path: &Rc<Path>) -> (result: Rc<
    AbstractValue,
>)
    ensures
        result == joined(*a, b, *path),
        a.within_limit() && b.within_limit() && path.within_limit() ==> result.within_limit(),
{
    // [{} union y] -> y
    if matches!(a.expression, Expression::Bottom) {
        return b;
    }
    // [TOP union y] -> TOP
    if matches!(a.expression, Expression::Top) {
        return share(a);
    }
    // [x union {}] -> x
    if matches!(b.expression, Expression::Bottom) {
        return share(a);
    }
    // [x union x] -> x
    if AbstractValue::eq(a, &b) {
        return b;
    }
    // [x union TOP] -> TOP
    if matches!(b.expression, Expression::Top) {
        return b;
    }
    // [widened(x) union y] -> widened(x)
    if matches!(a.expression, Expression::Widen { .. }) {
        return share(a);
    }
    // [x union widened(y)] -> widened(y)
    if matches!(b.expression, Expression::Widen { .. }) {
        return b;
    }
    let expression_size = a.expression_size.saturating_add(b.expression_size);
    AbstractValue::make_from(
        Expression::Join { path: share(path), left: share(a), right: b },
        expression_size,
    )
}

/// Returns a value that stands for all the concrete values that `a` stands for, and
/// maybe for more. A small number of widenings at one path leads to a value that
/// widening at that path does not change.
pub fn widen(a: &Rc<AbstractValue>, path: &Rc<Path>) -> (result: Rc<AbstractValue>)
    ensures
        result == widened(*a, *path),
        a.within_limit() && path.within_limit() ==> result.within_limit(),
    decreases a,
{
    match &a.expression {
        Expression::CompileTimeConstant(_)
        | Expression::HeapBlock { .. }
        | Expression::Reference(_)
        | Expression::Top
        | Expression::Variable { .. }
        | Expression::Widen { .. } => share(a),
        Expression::HeapBlockLayout { length, alignment, .. } => AbstractValue::make_from(
            Expression::HeapBlockLayout {
                length: widen(length, path),
                alignment: widen(alignment, path),
                source: LayoutSource::Alloc,
            },
            1,
        ),
        _ => {
            if a.expression_size > k_limits::MAX_WIDEN_SIZE {
                AbstractValue::make_from(
                    Expression::Variable {
                        path: share(path),
                        var_type: a.expression.infer_type(),
                    },
                    1,
                )
            } else {
                AbstractValue::make_from(
                    Expression::Widen { path: share(path), operand: share(a) },
                    3,
                )
            }
        },
    }
}

/// True if all of the concrete values that correspond to `a` also correspond to `b`.
/// Note: `!subset(x, y)` does not imply `subset(y, x)`.
pub fn subset(a: &Rc<AbstractValue>, b: &Rc<AbstractValue>) -> (result: bool)
    ensures
        result == included(**a, **b),
    decreases a, b,
{
    if AbstractValue::eq(a, b) {
        return true;
    }
    match (&a.expression, &b.expression) {
        // The empty set is a subset of every other set.
        (Expression::Bottom, _) => true,
        // A non empty set is not a subset of the empty set.
        (_, Expression::Bottom) => false,
        // Every set is a subset of the universal set.
        (_, Expression::Top) => true,
        // The universal set is not a subset of any set other than the universal set.
        (Expression::Top, _) => false,
        // Widened expressions are equal if their paths are equal, regardless of their
        // operand values.
        (Expression::Widen { path: p1, .. }, Expression::Widen { path: p2, .. }) => Path::eq(p1, p2),
        // (condition ? consequent : alternate) is a subset of x if both consequent and
        // alternate are subsets of x.
        (Expression::ConditionalExpression { consequent, alternate, .. }, _) => {
            // This is a conservative answer. False does not imply b.subset(a).
            subset(consequent, b) && subset(alternate, b)
        },
        // x is a subset of (condition ? consequent : alternate) if x is a subset of
        // consequent or alternate.
        (_, Expression::ConditionalExpression { consequent, alternate, .. }) => {
            // This is a conservative answer. False does not imply b.subset(a).
            subset(a, consequent) || subset(a, alternate)
        },
        // x subset widen { z } if x subset z
        (_, Expression::Widen { operand, .. }) => subset(a, operand),
        // (left join right) is a subset of x if both left and right are subsets of x.
        (Expression::Join { left, right, .. }, _) => {
            // This is a conservative answer. False does not imply b.subset(a).
            subset(left, b) && subset(right, b)
        },
        // x is a subset of (left join right) if x is a subset of either left or right.
        (_, Expression::Join { left, right, .. }) => {
            // This is a conservative answer. False does not imply b.subset(a).
            subset(a, left) || subset(a, right)
        },
        // in all other cases we conservatively answer false
        _ => false,
    }
}

/// The laws of the union: the impossible value is its unit, the unknown value
/// absorbs, and a value united with itself stays as it is.
pub proof fn lemma_join_lattice(x: Rc<AbstractValue>, path: Rc<Path>)
    ensures
        joined(x, Rc::new(bottom_value()), path).same_as(*x),
        !(x.expression is Bottom) ==> joined(x, Rc::new(bottom_value()), path) == x,
        joined(x, Rc::new(top_value()), path).expression is Top,
        joined(x, x, path) == x,
{
    lemma_value_same_reflexive(&x);
}

/// Widening reaches a fixed point at once: a widened value widened again at the
/// same path stays as it is.
pub proof fn lemma_widen_fixpoint(x: Rc<AbstractValue>, path: Rc<Path>)
    ensures
        widened(widened(x, path), path) == widened(x, path),
    decreases x,
{
    match x.expression {
        Expression::HeapBlockLayout { length, alignment, .. } => {
            lemma_widen_fixpoint(length, path);
            lemma_widen_fixpoint(alignment, path);
        },
        _ => {},
    }
}

/// Every value is included in itself.
pub proof fn lemma_subset_reflexive(x: &AbstractValue)
    ensures
        included(*x, *x),
{
    lemma_value_same_reflexive(x);
}

/// Equal values are included in the same values.
pub proof fn lemma_subset_left_same(x: &AbstractValue, y: &AbstractValue, z: &AbstractValue)
    requires
        x.same_as(*y),
    ensures
        included(*x, *z) == included(*y, *z),
    decreases x, z,
{
    lemma_value_same_symmetric(x, y);
    lemma_value_same_transitive(x, y, z);
    lemma_value_same_transitive(y, x, z);
    if !x.same_as(*z) {
        match (&x.expression, &y.expression) {
            (
                Expression::ConditionalExpression { consequent: a1, alternate: b1, .. },
                Expression::ConditionalExpression { consequent: a2, alternate: b2, .. },
            ) => {
                lemma_subset_left_same(a1, a2, z);
                lemma_subset_left_same(b1, b2, z);
            },
            (
                Expression::Join { left: a1, right: b1, .. },
                Expression::Join { left: a2, right: b2, .. },
            ) => {
                lemma_subset_left_same(a1, a2, z);
                lemma_subset_left_same(b1, b2, z);
                match &z.expression {
                    Expression::ConditionalExpression { consequent, alternate, .. } => {
                        lemma_subset_left_same(x, y, consequent);
                        lemma_subset_left_same(x, y, alternate);
                    },
                    Expression::Widen { operand, .. } => {
                        lemma_subset_left_same(x, y, operand);
                    },
                    _ => {},
                }
            },
            _ => {
                match &z.expression {
                    Expression::ConditionalExpression { consequent, alternate, .. } => {
                        lemma_subset_left_same(x, y, consequent);
                        lemma_subset_left_same(x, y, alternate);
                    },
                    Expression::Widen { operand, .. } => {
                        lemma_subset_left_same(x, y, operand);
                    },
                    Expression::Join { left, right, .. } => {
                        lemma_subset_left_same(x, y, left);
                        lemma_subset_left_same(x, y, right);
                    },
                    _ => {},
                }
            },
        }
    }
}

/// Equal values include the same values, if they are plain.
pub proof fn lemma_subset_right_same(x: &AbstractValue, y: &AbstractValue, z: &AbstractValue)
    requires
        y.same_as(*z),
        plain(*y),
    ensures
        included(*x, *y) == included(*x, *z),
        plain(*z),
    decreases x, y,
{
    lemma_value_same_symmetric(y, z);
    lemma_value_same_transitive(x, y, z);
    lemma_value_same_transitive(x, z, y);
    match (&y.expression, &z.expression) {
        (
            Expression::ConditionalExpression { consequent: a1, alternate: b1, .. },
            Expression::ConditionalExpression { consequent: a2, alternate: b2, .. },
        ) => {
            lemma_subset_right_same(x, a1, a2);
            lemma_subset_right_same(x, b1, b2);
        },
        (
            Expression::Join { left: a1, right: b1, .. },
            Expression::Join { left: a2, right: b2, .. },
        ) => {
            lemma_subset_right_same(x, a1, a2);
            lemma_subset_right_same(x, b1, b2);
        },
        _ => {},
    }
    if !x.same_as(*y) {
        match &x.expression {
            Expression::ConditionalExpression { consequent, alternate, .. } => {
                lemma_subset_right_same(consequent, y, z);
                lemma_subset_right_same(alternate, y, z);
            },
            Expression::Join { left, right, .. } => {
                lemma_subset_right_same(left, y, z);
                lemma_subset_right_same(right, y, z);
            },
            _ => {},
        }
    }
}

/// Inclusion is transitive on plain values: if `x` is included in `y` and `y` in
/// `z`, then `x` is included in `z`.
///
/// Without the restriction to plain `y` and `z` this fails, because two widened
/// values of one path are equal whatever was widened: a value is included in the
/// widening of itself, which is equal to the widening of any other value at the
/// same path.
pub proof fn lemma_subset_transitive(x: &AbstractValue, y: &AbstractValue, z: &AbstractValue)
    requires
        plain(*y),
        plain(*z),
        included(*x, *y),
        included(*y, *z),
    ensures
        included(*x, *z),
{
    lemma_subset_chain(x, y, z);
}

proof fn lemma_subset_chain(x: &AbstractValue, y: &AbstractValue, z: &AbstractValue)
    ensures
        plain(*y) && plain(*z) && included(*x, *y) && included(*y, *z) ==> included(*x, *z),
    decreases x, y, z,
{
    if !(plain(*y) && plain(*z) && included(*x, *y) && included(*y, *z)) {
    } else if x.same_as(*y) {
        lemma_subset_left_same(x, y, z);
    } else if y.same_as(*z) {
        lemma_subset_right_same(x, y, z);
    } else if x.same_as(*z) || x.expression is Bottom || z.expression is Top {
    } else if y.expression is Bottom || y.expression is Top || x.expression is Top
        || z.expression is Bottom {
    } else {
        match (&x.expression, &y.expression, &z.expression) {
            (Expression::ConditionalExpression { consequent, alternate, .. }, _, _) => {
                lemma_subset_chain(consequent, y, z);
                lemma_subset_chain(alternate, y, z);
            },
            (_, Expression::ConditionalExpression { consequent, alternate, .. }, _) => {
                lemma_subset_chain(x, consequent, z);
                lemma_subset_chain(x, alternate, z);
            },
            (_, _, Expression::ConditionalExpression { consequent, alternate, .. }) => {
                lemma_subset_chain(x, y, consequent);
                lemma_subset_chain(x, y, alternate);
            },
            (Expression::Join { left, right, .. }, _, _) => {
                lemma_subset_chain(left, y, z);
                lemma_subset_chain(right, y, z);
            },
            (_, Expression::Join { left, right, .. }, _) => {
                lemma_subset_chain(x, left, z);
                lemma_subset_chain(x, right, z);
            },
            (_, _, Expression::Join { left, right, .. }) => {
                lemma_subset_chain(x, y, left);
                lemma_subset_chain(x, y, right);
            },
            _ => {},
        }
    }
}

} // verus!
