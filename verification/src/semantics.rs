//! What values mean: the truth of a condition under a valuation of its variables,
//! and the integers that an arithmetic expression can be.
//!
//! The operators of the engine rewrite expressions. The definitions here say
//! what a rewrite has to keep, and the lemmas show that equality of values and the
//! implication tests respect the truth of conditions.

use vstd::prelude::*;
use crate::abstract_value::{interval_of, widened_interval, AbstractValue};
use crate::constant_domain::ConstantDomain;
use crate::expression::Expression;
use crate::implication::{
    implication,
    implication_of_negation,
    inverse_implication,
    inverse_implication_of_negation,
};
use crate::interval_domain::{
    lemma_difference_sound,
    lemma_hull_sound,
    lemma_negation_sound,
    lemma_product_sound,
    lemma_sum_sound,
};
use crate::k_limits;
use crate::rules::among_disjuncts;
use crate::path::Path;
use crate::shared::node;

verus! {

/// True if the valuation gives the same truth value to paths that are the same.
pub open spec fn respects(valuation: spec_fn(Path) -> bool) -> bool {
    forall|p: Path, q: Path| #[trigger] p.same_as(q) ==> valuation(p) == valuation(q)
}

/// The truth of a condition where the variable at each path has the truth value
/// that `valuation` gives to the path.
///
/// The constant true holds, a variable holds if the valuation says so, and
/// negations, conjunctions and disjunctions hold as their operands say. A
/// conditional holds as its consequent does where its condition holds, and as its
/// alternate does where it does not. No other value holds.
pub open spec fn holds(value: AbstractValue, valuation: spec_fn(Path) -> bool) -> bool
    decreases value,
{
    match value.expression {
        Expression::CompileTimeConstant(c) => c.known_bool() == Some(true),
        Expression::Variable { path, .. } => valuation(*path),
        Expression::LogicalNot { operand } => !holds(*operand, valuation),
        Expression::And { left, right } => holds(*left, valuation) && holds(*right, valuation),
        Expression::Or { left, right } => holds(*left, valuation) || holds(*right, valuation),
        Expression::ConditionalExpression { condition, consequent, alternate } => if holds(
            *condition,
            valuation,
        ) {
            holds(*consequent, valuation)
        } else {
            holds(*alternate, valuation)
        },
        _ => false,
    }
}

/// True if `value` is a propositional formula: a Boolean constant, a Boolean
/// variable, or a negation, conjunction, disjunction or conditional of such
/// formulas. The size of a formula is in the limit, and accounts for the sizes of
/// its operands.
pub open spec fn propositional(value: AbstractValue) -> bool
    decreases value,
{
    &&& 1 <= value.expression_size <= k_limits::MAX_EXPRESSION_SIZE
    &&& value.interval is None
    &&& match value.expression {
        Expression::CompileTimeConstant(c) => c.known_bool() is Some,
        Expression::Variable { var_type, .. } => var_type is Bool,
        Expression::LogicalNot { operand } => propositional(*operand) && value.expression_size
            > operand.expression_size,
        Expression::And { left, right } | Expression::Or { left, right } => propositional(*left)
            && propositional(*right) && value.expression_size >= left.expression_size
            + right.expression_size,
        Expression::ConditionalExpression { condition, consequent, alternate } => propositional(
            *condition,
        ) && propositional(*consequent) && propositional(*alternate) && value.expression_size
            >= condition.expression_size + consequent.expression_size
            + alternate.expression_size,
        _ => false,
    }
}

/// True if `a` and `b` hold under the same valuations.
pub open spec fn same_truth(a: AbstractValue, b: AbstractValue) -> bool {
    forall|valuation: spec_fn(Path) -> bool|
        respects(valuation) ==> #[trigger] holds(a, valuation) == holds(b, valuation)
}

/// True if `b` holds under every valuation under which `a` holds.
pub open spec fn entails(a: AbstractValue, b: AbstractValue) -> bool {
    forall|valuation: spec_fn(Path) -> bool|
        respects(valuation) && #[trigger] holds(a, valuation) ==> holds(b, valuation)
}

/// True if `b` does not hold under any valuation under which `a` holds.
pub open spec fn excludes(a: AbstractValue, b: AbstractValue) -> bool {
    forall|valuation: spec_fn(Path) -> bool|
        respects(valuation) && #[trigger] holds(a, valuation) ==> !holds(b, valuation)
}

/// True if `b` holds under every valuation under which `a` does not hold.
pub open spec fn exhausts(a: AbstractValue, b: AbstractValue) -> bool {
    forall|valuation: spec_fn(Path) -> bool|
        respects(valuation) && !#[trigger] holds(a, valuation) ==> holds(b, valuation)
}

/// True if `result` holds exactly where `a` does not.
pub open spec fn is_negation(result: AbstractValue, a: AbstractValue) -> bool {
    forall|valuation: spec_fn(Path) -> bool|
        respects(valuation) ==> #[trigger] holds(result, valuation) == !holds(a, valuation)
}

/// True if `result` holds exactly where both `a` and `b` hold.
pub open spec fn is_conjunction(result: AbstractValue, a: AbstractValue, b: AbstractValue) -> bool {
    forall|valuation: spec_fn(Path) -> bool|
        respects(valuation) ==> #[trigger] holds(result, valuation) == (holds(a, valuation)
            && holds(b, valuation))
}

/// True if `result` holds exactly where `a` or `b` holds.
pub open spec fn is_disjunction(result: AbstractValue, a: AbstractValue, b: AbstractValue) -> bool {
    forall|valuation: spec_fn(Path) -> bool|
        respects(valuation) ==> #[trigger] holds(result, valuation) == (holds(a, valuation)
            || holds(b, valuation))
}

/// True if `result` holds under the valuations under which `c ? a : b` holds: `a`
/// where `c` holds, and `b` where it does not.
pub open spec fn is_choice(
    result: AbstractValue,
    c: AbstractValue,
    a: AbstractValue,
    b: AbstractValue,
) -> bool {
    forall|valuation: spec_fn(Path) -> bool|
        respects(valuation) ==> #[trigger] holds(result, valuation) == (if holds(c, valuation) {
            holds(a, valuation)
        } else {
            holds(b, valuation)
        })
}

/// A propositional formula is of the Boolean sort.
pub proof fn lemma_formula_is_boolean(value: &AbstractValue)
    ensures
        propositional(*value) ==> value.expression.sort() is Bool,
    decreases value,
{
    match &value.expression {
        Expression::ConditionalExpression { consequent, .. } => {
            lemma_formula_is_boolean(consequent);
        },
        _ => {},
    }
}

/// True if `result` and `a` hold under the same valuations among those under which
/// `condition` holds.
pub open spec fn same_truth_under(
    result: AbstractValue,
    a: AbstractValue,
    condition: AbstractValue,
) -> bool {
    forall|valuation: spec_fn(Path) -> bool|
        respects(valuation) && holds(condition, valuation) ==> #[trigger] holds(result, valuation)
            == holds(a, valuation)
}

/// Equal values have the same truth under a valuation that respects paths.
pub proof fn lemma_same_holds(a: &AbstractValue, b: &AbstractValue, valuation: spec_fn(Path) -> bool)
    requires
        respects(valuation),
    ensures
        a.same_as(*b) ==> holds(*a, valuation) == holds(*b, valuation),
    decreases a,
{
    match (&a.expression, &b.expression) {
        (Expression::LogicalNot { operand: o1 }, Expression::LogicalNot { operand: o2 }) => {
            lemma_same_holds(o1, o2, valuation);
        },
        (Expression::And { left: l1, right: r1 }, Expression::And { left: l2, right: r2 })
        | (Expression::Or { left: l1, right: r1 }, Expression::Or { left: l2, right: r2 }) => {
            lemma_same_holds(l1, l2, valuation);
            lemma_same_holds(r1, r2, valuation);
        },
        (
            Expression::ConditionalExpression { condition: c1, consequent: a1, alternate: b1 },
            Expression::ConditionalExpression { condition: c2, consequent: a2, alternate: b2 },
        ) => {
            lemma_same_holds(c1, c2, valuation);
            lemma_same_holds(a1, a2, valuation);
            lemma_same_holds(b1, b2, valuation);
        },
        (Expression::Variable { path: p1, .. }, Expression::Variable { path: p2, .. }) => {
            if a.same_as(*b) {
                assert(p1.same_as(node(p2)));
                assert(valuation(node(p1)) == valuation(node(p2)));
            }
        },
        (Expression::CompileTimeConstant(c1), Expression::CompileTimeConstant(c2)) => {
            if a.same_as(*b) {
                assert(c1.same_as(*c2));
            }
        },
        _ => {},
    }
}

/// Equal values hold under the same valuations.
pub proof fn lemma_same_truth(a: &AbstractValue, b: &AbstractValue)
    requires
        a.same_as(*b),
    ensures
        same_truth(*a, *b),
{
    assert forall|valuation: spec_fn(Path) -> bool| respects(valuation) implies #[trigger] holds(
        *a,
        valuation,
    ) == holds(*b, valuation) by {
        lemma_same_holds(a, b, valuation);
    }
}

/// Values with the same expression are equal.
pub proof fn lemma_same_expression(a: &AbstractValue, b: &AbstractValue)
    requires
        a.expression.same_as(b.expression),
    ensures
        a.same_as(*b),
{
}

/// A value that is found among the disjuncts of another holds only where the other
/// holds.
pub proof fn lemma_among_disjuncts_holds(
    x: &AbstractValue,
    y: &AbstractValue,
    valuation: spec_fn(Path) -> bool,
)
    requires
        respects(valuation),
    ensures
        among_disjuncts(*x, *y) && holds(*x, valuation) ==> holds(*y, valuation),
    decreases y,
{
    lemma_same_holds(x, y, valuation);
    match &y.expression {
        Expression::Or { left, right } => {
            lemma_among_disjuncts_holds(x, left, valuation);
            lemma_among_disjuncts_holds(x, right, valuation);
        },
        _ => {},
    }
}

/// A value that is found among the disjuncts of another entails the other.
pub proof fn lemma_among_disjuncts_entails(x: &AbstractValue, y: &AbstractValue)
    requires
        among_disjuncts(*x, *y),
    ensures
        entails(*x, *y),
{
    assert forall|valuation: spec_fn(Path) -> bool|
        respects(valuation) && #[trigger] holds(*x, valuation) implies holds(*y, valuation) by {
        lemma_among_disjuncts_holds(x, y, valuation);
    }
}

/// An implication that is found to hold does hold.
pub proof fn lemma_implication_holds(
    a: &AbstractValue,
    b: &AbstractValue,
    valuation: spec_fn(Path) -> bool,
)
    requires
        respects(valuation),
    ensures
        implication(*a, *b) && holds(*a, valuation) ==> holds(*b, valuation),
    decreases a,
{
    lemma_same_holds(a, b, valuation);
    match &a.expression {
        Expression::And { left, right } => {
            lemma_implication_holds(left, b, valuation);
            lemma_implication_holds(right, b, valuation);
        },
        _ => {},
    }
}

/// An implication that is found to hold is an entailment.
pub proof fn lemma_implication_sound(a: &AbstractValue, b: &AbstractValue)
    requires
        implication(*a, *b),
    ensures
        entails(*a, *b),
{
    assert forall|valuation: spec_fn(Path) -> bool|
        respects(valuation) && #[trigger] holds(*a, valuation) implies holds(*b, valuation) by {
        lemma_implication_holds(a, b, valuation);
    }
}

/// An implication of a negation that is found to hold does hold.
pub proof fn lemma_implication_of_negation_sound(a: &AbstractValue, b: &AbstractValue)
    requires
        implication_of_negation(*a, *b),
    ensures
        excludes(*a, *b),
{
    assert forall|valuation: spec_fn(Path) -> bool|
        respects(valuation) && #[trigger] holds(*a, valuation) implies !holds(*b, valuation) by {
        match &a.expression {
            Expression::LogicalNot { operand } => {
                lemma_same_holds(operand, b, valuation);
            },
            _ => {},
        }
    }
}

/// A test for `!a ==> !b` that succeeds says that `a` holds where `b` holds.
pub proof fn lemma_inverse_implication_of_negation_holds(
    a: &AbstractValue,
    b: &AbstractValue,
    valuation: spec_fn(Path) -> bool,
)
    requires
        respects(valuation),
    ensures
        inverse_implication_of_negation(*a, *b) && holds(*b, valuation) ==> holds(*a, valuation),
    decreases b,
{
    lemma_same_holds(a, b, valuation);
    match &b.expression {
        Expression::And { left, right } => {
            lemma_inverse_implication_of_negation_holds(a, left, valuation);
            lemma_inverse_implication_of_negation_holds(a, right, valuation);
        },
        _ => {},
    }
}

/// The test for `!a ==> !b` is sound: where it succeeds, `b` entails `a`.
pub proof fn lemma_inverse_implication_of_negation_sound(a: &AbstractValue, b: &AbstractValue)
    ensures
        inverse_implication_of_negation(*a, *b) ==> entails(*b, *a),
{
    assert forall|valuation: spec_fn(Path) -> bool|
        inverse_implication_of_negation(*a, *b) && respects(valuation) && #[trigger] holds(
            *b,
            valuation,
        ) implies holds(*a, valuation) by {
        lemma_inverse_implication_of_negation_holds(a, b, valuation);
    }
}

/// The test for `!a ==> b` is sound: where it succeeds, `b` holds wherever `a` does
/// not.
pub proof fn lemma_inverse_implication_sound(a: &AbstractValue, b: &AbstractValue)
    ensures
        inverse_implication(*a, *b) ==> exhausts(*a, *b),
{
    assert forall|valuation: spec_fn(Path) -> bool|
        inverse_implication(*a, *b) && respects(valuation) && !#[trigger] holds(
            *a,
            valuation,
        ) implies holds(*b, valuation) by {
        match (&a.expression, &b.expression) {
            (Expression::LogicalNot { operand }, _) => {
                lemma_implication_holds(operand, b, valuation);
            },
            (_, Expression::LogicalNot { operand }) => {
                lemma_inverse_implication_of_negation_holds(a, operand, valuation);
            },
            _ => {},
        }
    }
}

/// The integer that an arithmetic expression is, where `pick` says for each
/// conditional and each join whether its first branch is taken, and `leaf` gives
/// the integer of each value that is not built by arithmetic.
///
/// Sums, differences, products and negations are those of the integers, which have
/// no bounds. A widened value has the value of what was widened.
pub open spec fn value_under(
    value: AbstractValue,
    pick: spec_fn(AbstractValue) -> bool,
    leaf: spec_fn(AbstractValue) -> int,
) -> int
    decreases value,
{
    match value.expression {
        Expression::Add { left, right } => value_under(*left, pick, leaf) + value_under(
            *right,
            pick,
            leaf,
        ),
        Expression::Sub { left, right } => value_under(*left, pick, leaf) - value_under(
            *right,
            pick,
            leaf,
        ),
        Expression::Mul { left, right } => value_under(*left, pick, leaf) * value_under(
            *right,
            pick,
            leaf,
        ),
        Expression::Neg { operand } => -value_under(*operand, pick, leaf),
        Expression::CompileTimeConstant(ConstantDomain::I128(v)) => v as int,
        Expression::CompileTimeConstant(ConstantDomain::U128(v)) => v as int,
        Expression::ConditionalExpression { consequent, alternate, .. } => if pick(value) {
            value_under(*consequent, pick, leaf)
        } else {
            value_under(*alternate, pick, leaf)
        },
        Expression::Join { left, right, .. } => if pick(value) {
            value_under(*left, pick, leaf)
        } else {
            value_under(*right, pick, leaf)
        },
        Expression::Widen { operand, .. } => value_under(*operand, pick, leaf),
        _ => leaf(value),
    }
}

/// The integer that the constant `c` is, if it is an integer.
pub open spec fn integer(c: ConstantDomain) -> Option<int> {
    match c {
        ConstantDomain::I128(v) => Some(v as int),
        ConstantDomain::U128(v) => Some(v as int),
        _ => None,
    }
}

/// True if `k` is an integer of the 128-bit sort of the constant `c`.
pub open spec fn in_sort_of(c: ConstantDomain, k: int) -> bool {
    match c {
        ConstantDomain::I128(_) => i128::MIN <= k <= i128::MAX,
        ConstantDomain::U128(_) => 0 <= k <= u128::MAX,
        _ => false,
    }
}

/// Folding is exact where it does not wrap: the sum, difference or product of two
/// integer constants of one sort is the constant of the sum, difference or product
/// of their integers, where that integer is of the sort.
pub proof fn lemma_folding_exact(a: ConstantDomain, b: ConstantDomain)
    requires
        a is I128 && b is I128 || a is U128 && b is U128,
    ensures
        in_sort_of(a, integer(a)->0 + integer(b)->0) ==> integer(a.sum(b)) == Some(
            integer(a)->0 + integer(b)->0,
        ),
        in_sort_of(a, integer(a)->0 - integer(b)->0) ==> integer(a.difference(b)) == Some(
            integer(a)->0 - integer(b)->0,
        ),
        in_sort_of(a, integer(a)->0 * integer(b)->0) ==> integer(a.product(b)) == Some(
            integer(a)->0 * integer(b)->0,
        ),
{
}

/// Intervals are sound: whatever branches are taken and whatever the values of the
/// variables are, the integer that an expression is lies in the interval of the
/// expression, unless that interval is bottom and so says nothing.
///
/// The integer of an expression is computed without bounds, while the operators
/// fold constants with wrap-around at 128 bits. The two agree where no sum,
/// difference or product leaves its 128-bit sort: see [`lemma_folding_exact`]. Of
/// a constant that folding wrapped around, this lemma says only that it lies in
/// its own interval; it does not relate it to the interval of the operation that
/// was folded.
pub proof fn lemma_interval_sound(
    value: &AbstractValue,
    pick: spec_fn(AbstractValue) -> bool,
    leaf: spec_fn(AbstractValue) -> int,
)
    requires
        !interval_of(*value).bottom(),
    ensures
        interval_of(*value).contains(value_under(*value, pick, leaf)),
    decreases value,
{
    match &value.expression {
        Expression::Add { left, right } => {
            lemma_interval_sound(left, pick, leaf);
            lemma_interval_sound(right, pick, leaf);
            lemma_sum_sound(
                interval_of(node(left)),
                interval_of(node(right)),
                value_under(node(left), pick, leaf),
                value_under(node(right), pick, leaf),
            );
        },
        Expression::Sub { left, right } => {
            lemma_interval_sound(left, pick, leaf);
            lemma_interval_sound(right, pick, leaf);
            lemma_difference_sound(
                interval_of(node(left)),
                interval_of(node(right)),
                value_under(node(left), pick, leaf),
                value_under(node(right), pick, leaf),
            );
        },
        Expression::Mul { left, right } => {
            lemma_interval_sound(left, pick, leaf);
            lemma_interval_sound(right, pick, leaf);
            lemma_product_sound(
                interval_of(node(left)),
                interval_of(node(right)),
                value_under(node(left), pick, leaf),
                value_under(node(right), pick, leaf),
            );
        },
        Expression::Neg { operand } => {
            lemma_interval_sound(operand, pick, leaf);
            lemma_negation_sound(interval_of(node(operand)), value_under(node(operand), pick, leaf));
        },
        Expression::ConditionalExpression { consequent: left, alternate: right, .. }
        | Expression::Join { left, right, .. } => {
            lemma_interval_sound(left, pick, leaf);
            lemma_interval_sound(right, pick, leaf);
            lemma_hull_sound(
                interval_of(node(left)),
                interval_of(node(right)),
                value_under(*value, pick, leaf),
            );
        },
        Expression::Widen { operand, .. } => {
            lemma_interval_sound(operand, pick, leaf);
        },
        _ => {},
    }
}

} // verus!
