//! The disjunction of conditions.

use vstd::prelude::*;
use std::rc::Rc;
use crate::abstract_value::{bool_value, AbstractValue};
use crate::conjunction::{and, fit};
use crate::equals::equals;
use crate::expression::{BinaryOperator, Expression};
use crate::implication::{known_false, known_true};
use crate::logic::{entails_back, exhausted, is_contained_in, is_top_or_bottom, same};
use crate::negation::logical_not;
use crate::path::Path;
use crate::rules::{disjunction, disjunction_by_shape, disjunction_of_conjunctions};
use crate::semantics::{
    holds,
    is_disjunction,
    lemma_same_expression,
    lemma_same_holds,
    lemma_same_truth,
    propositional,
    respects,
};
use crate::shared::{node, share};

verus! {

/// Returns an element that is "a || b".
#[verifier::rlimit(100)]
#[verifier::spinoff_prover]
pub fn or(a: &Rc<AbstractValue>, b: Rc<AbstractValue>, budget: usize) -> (result: Rc<
    AbstractValue,
>)
    ensures
        result == disjunction(*a, b, budget),
        a.within_limit() && b.within_limit() ==> result.within_limit(),
        fit(**a, *b) ==> propositional(*result) && result.expression_size <= a.expression_size
            + b.expression_size && is_disjunction(*result, **a, *b),
    decreases budget, 2int,
{
    proof {
        reveal_with_fuel(AbstractValue::within_limit, 3);
        reveal_with_fuel(Expression::within_limit, 3);
        reveal_with_fuel(propositional, 3);
        reveal_with_fuel(holds, 3);
    }
    if known_false(a) {
        // [false || y] -> y
        return b;
    }
    if known_true(a) || known_true(&b) {
        // [x || true] -> true
        // [true || y] -> true
        return AbstractValue::of_bool(true);
    }
    if is_top_or_bottom(&b) {
        // [a || TOP] -> TOP
        // [a || BOTTOM] -> BOTTOM
        return b;
    }
    if is_top_or_bottom(a) || known_false(&b) {
        // [TOP || b] -> TOP
        // [BOTTOM || b] -> BOTTOM
        // [a || false] -> a
        return share(a);
    }
    // [x || x] -> x
    if a.expression.eq(&b.expression) {
        proof {
            lemma_same_expression(a, &b);
            lemma_same_truth(a, &b);
        }
        return b;
    }
    // [!x || x] -> true
    if let Expression::LogicalNot { operand } = &a.expression {
        if is_contained_in(operand, &b) {
            proof {
                assert forall|v: spec_fn(Path) -> bool| respects(v) implies holds(
                    bool_value(true),
                    v,
                ) == (holds(node(a), v) || holds(node(&b), v)) by {
                    assert(holds(node(a), v) == !holds(node(operand), v));
                    assert(holds(node(operand), v) ==> holds(node(&b), v));
                }
            }
            return AbstractValue::of_bool(true);
        }
    }
    // [x || !x] -> true
    if let Expression::LogicalNot { operand } = &b.expression {
        if is_contained_in(operand, a) {
            proof {
                assert forall|v: spec_fn(Path) -> bool| respects(v) implies holds(
                    bool_value(true),
                    v,
                ) == (holds(node(a), v) || holds(node(&b), v)) by {
                    assert(holds(node(&b), v) == !holds(node(operand), v));
                    assert(holds(node(operand), v) ==> holds(node(a), v));
                }
            }
            return AbstractValue::of_bool(true);
        }
    }
    // [x || (x || y)] -> x || y
    // [x || (y || x)] -> x || y
    // [(x || y) || y] -> x || y
    // [(x || y) || x] -> x || y
    if is_contained_in(a, &b) {
        return b;
    } else if is_contained_in(&b, a) {
        return share(a);
    }
    // [a || (x && y)] -> a || y if !a => x
    if budget > 0 {
        if let Expression::And { left, right: y } = &b.expression {
            if exhausted(a, left) {
                let result = or(a, share(y), budget - 1);
                proof {
                    if fit(node(a), node(&b)) {
                        assert forall|v: spec_fn(Path) -> bool| respects(v) implies holds(
                            node(&result),
                            v,
                        ) == (holds(node(a), v) || holds(node(&b), v)) by {
                            assert(holds(node(&result), v) == (holds(node(a), v) || holds(node(y), v)));
                            assert(holds(node(&b), v) == (holds(node(left), v) && holds(node(y), v)));
                            assert(!holds(node(a), v) ==> holds(node(left), v));
                        }
                    }
                }
                return result;
            }
        }
    }
    // [x || (x && y)] -> x, etc.
    if entails_back(a, &b) {
        proof {
            assert forall|v: spec_fn(Path) -> bool| respects(v) implies holds(
                node(a),
                v,
            ) == (holds(node(a), v) || holds(node(&b), v)) by {
                assert(holds(node(&b), v) ==> holds(node(a), v));
            }
        }
        return share(a);
    }
    or_by_shape(a, b, budget)
}

/// Returns an element that is "a || b" where neither operand is a constant, the
/// unknown or the impossible value, and neither is found among the disjuncts of
/// the other.
#[verifier::rlimit(100)]
#[verifier::spinoff_prover]
pub fn or_by_shape(a: &Rc<AbstractValue>, b: Rc<AbstractValue>, budget: usize) -> (result: Rc<
    AbstractValue,
>)
    ensures
        result == disjunction_by_shape(*a, b, budget),
        a.within_limit() && b.within_limit() ==> result.within_limit(),
        fit(**a, *b) && !a.top_or_bottom() && !b.top_or_bottom() ==> propositional(*result)
            && result.expression_size <= a.expression_size + b.expression_size
            && is_disjunction(*result, **a, *b),
    decreases budget, 1int,
{
    proof {
        reveal_with_fuel(AbstractValue::within_limit, 3);
        reveal_with_fuel(Expression::within_limit, 3);
        reveal_with_fuel(propositional, 3);
        reveal_with_fuel(holds, 3);
    }
    // [!x || x] -> true
    if let Expression::LogicalNot { operand } = &a.expression {
        if same(operand, &b) {
            proof {
                assert forall|v: spec_fn(Path) -> bool| respects(v) implies holds(
                    bool_value(true),
                    v,
                ) == (holds(node(a), v) || holds(node(&b), v)) by {
                    assert(holds(node(a), v) == !holds(node(operand), v));
                    assert(holds(node(operand), v) == holds(node(&b), v));
                }
            }
            return AbstractValue::of_bool(true);
        }
    }
    // [x || !x] -> true
    if let Expression::LogicalNot { operand } = &b.expression {
        if same(operand, a) {
            proof {
                assert forall|v: spec_fn(Path) -> bool| respects(v) implies holds(
                    bool_value(true),
                    v,
                ) == (holds(node(a), v) || holds(node(&b), v)) by {
                    assert(holds(node(&b), v) == !holds(node(operand), v));
                    assert(holds(node(operand), v) == holds(node(a), v));
                }
            }
            return AbstractValue::of_bool(true);
        }
    }
    match (&a.expression, &b.expression) {
        (
            Expression::And { left: x1, right: y1 },
            Expression::And { left: x2, right: y2 },
        ) => {
            return or_of_conjunctions(a, &b, x1, y1, x2, y2, budget);
        },
        // [((c ? e : 1) == 1) || ((c ? e : 1) == 0)] -> !c || e == 0 || e == 1
        (
            Expression::Equals { left: l1, right: r1 },
            Expression::Equals { left: l2, right: r2 },
        ) => {
            if same(l1, l2) && r1.expression.is_one() && r2.expression.is_zero() {
                if let Expression::ConditionalExpression {
                    condition: c,
                    consequent: e,
                    alternate: one,
                } = &l1.expression {
                    if one.expression.is_one() && budget > 0 {
                        let next = budget - 1;
                        let not_c = logical_not(c, next);
                        let e_eq_0 = equals(e, AbstractValue::of_u128(0), next);
                        let e_eq_1 = equals(e, AbstractValue::of_u128(1), next);
                        return or(&or(&not_c, e_eq_0, next), e_eq_1, next);
                    }
                }
            }
        },
        (Expression::And { left: x, right: y }, _) => {
            // [(x && y) || x] -> x
            // [(x && y) || y] -> y
            if same(x, &b) || same(y, &b) {
                proof {
                    assert forall|v: spec_fn(Path) -> bool| respects(v) implies holds(
                        node(&b),
                        v,
                    ) == (holds(node(a), v) || holds(node(&b), v)) by {
                        assert(holds(node(a), v) == (holds(node(x), v) && holds(node(y), v)));
                        lemma_same_holds(x, &b, v);
                        lemma_same_holds(y, &b, v);
                    }
                }
                return b;
            }
            // [(x && y) || (!x || !y)] -> true
            if let Expression::Or { left, right } = &b.expression {
                if exhausted(x, left) && exhausted(y, right) {
                    proof {
                        assert forall|v: spec_fn(Path) -> bool| respects(v) implies holds(
                            bool_value(true),
                            v,
                        ) == (holds(node(a), v) || holds(node(&b), v)) by {
                            assert(holds(node(a), v) == (holds(node(x), v) && holds(node(y), v)));
                            assert(holds(node(&b), v) == (holds(node(left), v) || holds(node(right), v)));
                            assert(!holds(node(x), v) ==> holds(node(left), v));
                            assert(!holds(node(y), v) ==> holds(node(right), v));
                        }
                    }
                    return AbstractValue::of_bool(true);
                }
            }
            // [(x && !y) || y] -> (y || x)
            if let Expression::LogicalNot { operand } = &y.expression {
                if budget > 0 && same(operand, &b) {
                    let result = or(operand, share(x), budget - 1);
                    proof {
                        if fit(node(a), node(&b)) {
                            assert forall|v: spec_fn(Path) -> bool| respects(v) implies holds(
                                node(&result),
                                v,
                            ) == (holds(node(a), v) || holds(node(&b), v)) by {
                                assert(holds(node(&result), v) == (holds(node(operand), v) || holds(node(x), v)));
                                assert(holds(node(a), v) == (holds(node(x), v) && holds(node(y), v)));
                                assert(holds(node(y), v) == !holds(node(operand), v));
                                assert(holds(node(operand), v) == holds(node(&b), v));
                            }
                        }
                    }
                    return result;
                }
            }
        },
        (_, Expression::And { left: x, right: y }) => {
            // [x || (x && y)] -> x
            // [y || (x && y)] -> y
            if same(x, a) || same(y, a) {
                proof {
                    assert forall|v: spec_fn(Path) -> bool| respects(v) implies holds(
                        node(a),
                        v,
                    ) == (holds(node(a), v) || holds(node(&b), v)) by {
                        assert(holds(node(&b), v) == (holds(node(x), v) && holds(node(y), v)));
                        lemma_same_holds(x, a, v);
                        lemma_same_holds(y, a, v);
                    }
                }
                return share(a);
            }
        },
        // [x || !(x || y)] -> x || !y
        (_, Expression::LogicalNot { operand }) => {
            if let Expression::Or { left: x2, right: y } = &operand.expression {
                if budget > 0 && same(a, x2) {
                    let not_y = logical_not(y, budget - 1);
                    let result = or(a, share(&not_y), budget - 1);
                    proof {
                        if fit(node(a), node(&b)) {
                            assert forall|v: spec_fn(Path) -> bool| respects(v) implies holds(
                                node(&result),
                                v,
                            ) == (holds(node(a), v) || holds(node(&b), v)) by {
                                assert(holds(node(&b), v) == !(holds(node(x2), v) || holds(node(y), v)));
                                assert(holds(node(&not_y), v) == !holds(node(y), v));
                                assert(holds(node(&result), v) == (holds(node(a), v) || holds(node(&not_y), v)));
                                lemma_same_holds(a, x2, v);
                            }
                        }
                    }
                    return result;
                }
            }
        },
        _ => (),
    }
    AbstractValue::make_binary(share(a), b, BinaryOperator::Or)
}

/// Returns an element that is "a || b" where `a` is the conjunction of `x1` and
/// `y1` and `b` the conjunction of `x2` and `y2`.
#[verifier::rlimit(100)]
#[verifier::spinoff_prover]
pub fn or_of_conjunctions(
    a: &Rc<AbstractValue>,
    b: &Rc<AbstractValue>,
    x1: &Rc<AbstractValue>,
    y1: &Rc<AbstractValue>,
    x2: &Rc<AbstractValue>,
    y2: &Rc<AbstractValue>,
    budget: usize,
) -> (result: Rc<AbstractValue>)
    requires
        a.expression == (Expression::And { left: *x1, right: *y1 }),
        b.expression == (Expression::And { left: *x2, right: *y2 }),
    ensures
        result == disjunction_of_conjunctions(*a, *b, *x1, *y1, *x2, *y2, budget),
        a.within_limit() && b.within_limit() ==> result.within_limit(),
        fit(**a, **b) ==> propositional(*result) && result.expression_size <= a.expression_size
            + b.expression_size && is_disjunction(*result, **a, **b),
    decreases budget, 0int,
{
    proof {
        reveal_with_fuel(AbstractValue::within_limit, 3);
        reveal_with_fuel(Expression::within_limit, 3);
        reveal_with_fuel(propositional, 3);
        reveal_with_fuel(holds, 3);
    }
    if budget == 0 {
        return AbstractValue::make_binary(share(a), share(b), BinaryOperator::Or);
    }
    let next = budget - 1;
    let ghost fits = fit(node(a), node(b));
    // [(x && y) || (x && !y)] -> x
    // [(x && y1) || (x && y2)] -> (x && (y1 || y2))
    // [(x && y1) || ((x && x3) && y2)] -> x && (y1 || (x3 && y2))
    if same(x1, x2) {
        let not_y1 = logical_not(y1, next);
        if same(&not_y1, y2) {
            proof {
                if fits {
                    assert forall|v: spec_fn(Path) -> bool| respects(v) implies holds(
                        node(x1),
                        v,
                    ) == (holds(node(a), v) || holds(node(b), v)) by {
                        assert(holds(node(a), v) == (holds(node(x1), v) && holds(node(y1), v)));
                        assert(holds(node(b), v) == (holds(node(x2), v) && holds(node(y2), v)));
                        assert(holds(node(&not_y1), v) == !holds(node(y1), v));
                        lemma_same_holds(&not_y1, y2, v);
                        lemma_same_holds(x1, x2, v);
                    }
                }
            }
            share(x1)
        } else {
            let either = or(y1, share(y2), next);
            let result = and(x1, share(&either), next);
            proof {
                if fits {
                    assert forall|v: spec_fn(Path) -> bool| respects(v) implies holds(
                        node(&result),
                        v,
                    ) == (holds(node(a), v) || holds(node(b), v)) by {
                        assert(holds(node(a), v) == (holds(node(x1), v) && holds(node(y1), v)));
                        assert(holds(node(b), v) == (holds(node(x2), v) && holds(node(y2), v)));
                        assert(holds(node(&either), v) == (holds(node(y1), v) || holds(
                            node(y2),
                            v,
                        )));
                        assert(holds(node(&result), v) == (holds(node(x1), v) && holds(
                            node(&either),
                            v,
                        )));
                        lemma_same_holds(x1, x2, v);
                    }
                }
            }
            result
        }
    } else if same(y1, y2) {
        // [(x1 && y) || (x2 && y)] -> (x1 || x2) && y
        let either = or(x1, share(x2), next);
        let result = and(&either, share(y1), next);
        proof {
            if fits {
                assert forall|v: spec_fn(Path) -> bool| respects(v) implies holds(
                    node(&result),
                    v,
                ) == (holds(node(a), v) || holds(node(b), v)) by {
                    assert(holds(node(a), v) == (holds(node(x1), v) && holds(node(y1), v)));
                    assert(holds(node(b), v) == (holds(node(x2), v) && holds(node(y2), v)));
                    assert(holds(node(&either), v) == (holds(node(x1), v) || holds(node(x2), v)));
                    assert(holds(node(&result), v) == (holds(node(&either), v) && holds(
                        node(y1),
                        v,
                    )));
                    lemma_same_holds(y1, y2, v);
                }
            }
        }
        result
    } else {
        if let Expression::And { left: x, right: x3 } = &x2.expression {
            if same(x1, x) {
                let inner = and(x3, share(y2), next);
                let either = or(y1, share(&inner), next);
                let result = and(x1, share(&either), next);
                proof {
                    if fits {
                        assert forall|v: spec_fn(Path) -> bool| respects(v) implies holds(
                            node(&result),
                            v,
                        ) == (holds(node(a), v) || holds(node(b), v)) by {
                            assert(holds(node(a), v) == (holds(node(x1), v) && holds(
                                node(y1),
                                v,
                            )));
                            assert(holds(node(b), v) == (holds(node(x2), v) && holds(
                                node(y2),
                                v,
                            )));
                            assert(holds(node(x2), v) == (holds(node(x), v) && holds(
                                node(x3),
                                v,
                            )));
                            assert(holds(node(&inner), v) == (holds(node(x3), v) && holds(
                                node(y2),
                                v,
                            )));
                            assert(holds(node(&either), v) == (holds(node(y1), v) || holds(
                                node(&inner),
                                v,
                            )));
                            assert(holds(node(&result), v) == (holds(node(x1), v) && holds(
                                node(&either),
                                v,
                            )));
                            lemma_same_holds(x1, x, v);
                        }
                    }
                }
                return result;
            }
        }
        AbstractValue::make_binary(share(a), share(b), BinaryOperator::Or)
    }
}

} // verus!
