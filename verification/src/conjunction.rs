//! The conjunction of conditions.

use vstd::prelude::*;
use std::rc::Rc;
use crate::abstract_value::{bool_value, AbstractValue};
use crate::disjunction::or;
use crate::expression::{BinaryOperator, Expression};
use crate::implication::{known_false, known_true};
use crate::k_limits;
use crate::logic::same;
use crate::negation::logical_not;
use crate::path::Path;
use crate::refine::refine_with;
use crate::rules::{
    cancelled,
    conjunction,
    conjunction_by_refinement,
    conjunction_of_operands,
    other_conjunct,
    other_disjunct,
    undecided,
};
use crate::semantics::{
    holds,
    is_conjunction,
    lemma_same_holds,
    propositional,
    respects,
    same_truth_under,
};
use crate::shared::{node, share};

verus! {

/// True if one of the two values is a disjunction and the other is the negation of
/// one of its disjuncts, and neither decides the conjunction by being a constant.
pub open spec fn cancels(a: AbstractValue, b: AbstractValue) -> bool {
    undecided(a, b) && (other_disjunct(a, b) is Some || other_disjunct(b, a) is Some)
}

/// The sum of the sizes of two formulas is in the limit, so that their conjunction
/// or disjunction is not replaced by a variable.
pub open spec fn fit(a: AbstractValue, b: AbstractValue) -> bool {
    propositional(a) && propositional(b) && a.expression_size + b.expression_size
        <= k_limits::MAX_EXPRESSION_SIZE
}

/// Returns what is left of "a && b" where the shape of `a` decides it.
pub fn cancel(a: &Rc<AbstractValue>, b: &Rc<AbstractValue>) -> (result: Option<Rc<AbstractValue>>)
    ensures
        result == cancelled(*a, *b),
        a.within_limit() && b.within_limit() ==> (result matches Some(r) ==> r.within_limit()),
        fit(**a, **b) ==> (result matches Some(r) ==> propositional(*r) && r.expression_size
            <= a.expression_size + b.expression_size && is_conjunction(*r, **a, **b)),
{
    proof {
        reveal_with_fuel(AbstractValue::within_limit, 3);
        reveal_with_fuel(Expression::within_limit, 3);
        reveal_with_fuel(propositional, 3);
        reveal_with_fuel(holds, 3);
    }
    match &a.expression {
        Expression::And { left: x, right: y } => {
            // [(x && y) && x] -> x && y
            // [(x && y) && y] -> x && y
            if same(x, b) || same(y, b) {
                proof {
                    assert forall|v: spec_fn(Path) -> bool| respects(v) implies holds(
                        node(a),
                        v,
                    ) == (holds(node(a), v) && holds(node(b), v)) by {
                        assert(holds(node(a), v) == (holds(node(x), v) && holds(node(y), v)));
                        lemma_same_holds(x, b, v);
                        lemma_same_holds(y, b, v);
                    }
                }
                return Some(share(a));
            }
        },
        Expression::LogicalNot { operand } => {
            if same(operand, b) {
                // [!x && x] -> false
                proof {
                    assert forall|v: spec_fn(Path) -> bool| respects(v) implies holds(
                        bool_value(false),
                        v,
                    ) == (holds(node(a), v) && holds(node(b), v)) by {
                        assert(holds(node(a), v) == !holds(node(operand), v));
                        assert(holds(node(operand), v) == holds(node(b), v));
                    }
                }
                return Some(AbstractValue::of_bool(false));
            }
        },
        Expression::Or { left: x, right: y } => {
            // [(x || y) && x] -> x
            // [(x || y) && y] -> y
            if same(x, b) || same(y, b) {
                proof {
                    assert forall|v: spec_fn(Path) -> bool| respects(v) implies holds(
                        node(b),
                        v,
                    ) == (holds(node(a), v) && holds(node(b), v)) by {
                        assert(holds(node(a), v) == (holds(node(x), v) || holds(node(y), v)));
                        lemma_same_holds(x, b, v);
                        lemma_same_holds(y, b, v);
                    }
                }
                return Some(share(b));
            }
        },
        _ => (),
    }
    None
}

/// Returns the disjunct of `a` that is left where `b` negates the other one.
pub fn cancel_disjunct(a: &Rc<AbstractValue>, b: &Rc<AbstractValue>) -> (result: Option<
    Rc<AbstractValue>,
>)
    ensures
        result == other_disjunct(**a, **b),
        a.within_limit() ==> (result matches Some(r) ==> r.within_limit()),
        fit(**a, **b) ==> (result matches Some(r) ==> propositional(*r) && r.expression_size
            <= a.expression_size && (forall|v: spec_fn(Path) -> bool|
            respects(v) ==> (#[trigger] holds(**a, v) && holds(**b, v)) == (holds(*r, v) && holds(
                **b,
                v,
            )))),
{
    proof {
        reveal_with_fuel(AbstractValue::within_limit, 3);
        reveal_with_fuel(Expression::within_limit, 3);
        reveal_with_fuel(propositional, 3);
        reveal_with_fuel(holds, 3);
    }
    if let (Expression::Or { left: x, right: y }, Expression::LogicalNot { operand }) = (
        &a.expression,
        &b.expression,
    ) {
        if same(x, b) || same(y, b) {
            return None;
        }
        // [(x || y) && (!x)] -> y
        if same(x, operand) {
            proof {
                assert forall|v: spec_fn(Path) -> bool| respects(v) implies (#[trigger] holds(
                    **a,
                    v,
                ) && holds(**b, v)) == (holds(**y, v) && holds(**b, v)) by {
                    assert(holds(**a, v) == (holds(**x, v) || holds(**y, v)));
                    assert(holds(**b, v) == !holds(**operand, v));
                    lemma_same_holds(x, operand, v);
                }
            }
            return Some(share(y));
        }
        // [(x || y) && (!y)] -> x
        if same(y, operand) {
            proof {
                assert forall|v: spec_fn(Path) -> bool| respects(v) implies (#[trigger] holds(
                    **a,
                    v,
                ) && holds(**b, v)) == (holds(**x, v) && holds(**b, v)) by {
                    assert(holds(**a, v) == (holds(**x, v) || holds(**y, v)));
                    assert(holds(**b, v) == !holds(**operand, v));
                    lemma_same_holds(y, operand, v);
                }
            }
            return Some(share(x));
        }
    }
    None
}

/// Returns the conjunct of `a` that is left where `a` negates a conjunction and `b`
/// is equal to the other conjunct.
pub fn cancel_conjunct(a: &Rc<AbstractValue>, b: &Rc<AbstractValue>) -> (result: Option<
    Rc<AbstractValue>,
>)
    ensures
        result == other_conjunct(**a, **b),
        a.within_limit() ==> (result matches Some(r) ==> r.within_limit()),
        fit(**a, **b) ==> (result matches Some(r) ==> propositional(*r) && r.expression_size + 2
            <= a.expression_size && (forall|v: spec_fn(Path) -> bool|
            respects(v) ==> (#[trigger] holds(**a, v) && holds(**b, v)) == (holds(**b, v) && !holds(
                *r,
                v,
            )))),
{
    proof {
        reveal_with_fuel(AbstractValue::within_limit, 3);
        reveal_with_fuel(Expression::within_limit, 3);
        reveal_with_fuel(propositional, 3);
        reveal_with_fuel(holds, 3);
    }
    if let Expression::LogicalNot { operand } = &a.expression {
        if let Expression::And { left: x, right: y } = &operand.expression {
            // [!(x && y) && x] -> x && !y
            if same(x, b) {
                proof {
                    assert forall|v: spec_fn(Path) -> bool| respects(v) implies (
                    #[trigger] holds(**a, v) && holds(**b, v)) == (holds(**b, v)
                        && !holds(**y, v)) by {
                        assert(holds(**a, v) == !(holds(**x, v) && holds(**y, v)));
                        lemma_same_holds(x, b, v);
                    }
                }
                return Some(share(y));
            }
            // [!(x && y) && y] -> y && !x
            if same(y, b) {
                proof {
                    assert forall|v: spec_fn(Path) -> bool| respects(v) implies (
                    #[trigger] holds(**a, v) && holds(**b, v)) == (holds(**b, v)
                        && !holds(**x, v)) by {
                        assert(holds(**a, v) == !(holds(**x, v) && holds(**y, v)));
                        lemma_same_holds(y, b, v);
                    }
                }
                return Some(share(x));
            }
        }
    }
    None
}

/// Returns an element that is "a && b", as a caller of the engine gets it: a
/// disjunction with the negation of one of its disjuncts gives the other disjunct.
///
/// The disjunct that is left has the truth of the disjunction wherever the negation
/// holds. Every other conjunction of formulas has the truth of the conjunction.
pub fn and_of_operands(a: &Rc<AbstractValue>, b: Rc<AbstractValue>) -> (result: Rc<AbstractValue>)
    ensures
        result == conjunction_of_operands(*a, b),
        a.within_limit() && b.within_limit() ==> result.within_limit(),
        fit(**a, *b) ==> propositional(*result) && result.expression_size <= a.expression_size
            + b.expression_size,
        fit(**a, *b) && !cancels(**a, *b) ==> is_conjunction(*result, **a, *b),
        fit(**a, *b) && cancels(**a, *b) ==> if other_disjunct(**a, *b) is Some {
            same_truth_under(*result, **a, *b)
        } else {
            same_truth_under(*result, *b, **a)
        },
{
    let decided = known_false(a) || known_true(a) || known_false(&b) || known_true(&b)
        || matches!(a.expression, Expression::Bottom) || matches!(
        b.expression,
        Expression::Bottom
    );
    if !decided {
        // [(x || y) && (!x)] -> y
        // [(x || y) && (!y)] -> x
        if let Some(result) = cancel_disjunct(a, &b) {
            return result;
        }
        // [(!x) && (x || y)] -> y
        // [(!y) && (x || y)] -> x
        if let Some(result) = cancel_disjunct(&b, a) {
            return result;
        }
    }
    and(a, b, k_limits::MAX_REWRITE_DEPTH)
}

/// Returns an element that is "a && b", as the operators build it for themselves:
/// every rewrite keeps the truth of the conjunction.
#[verifier::rlimit(100)]
#[verifier::spinoff_prover]
pub fn and(a: &Rc<AbstractValue>, b: Rc<AbstractValue>, budget: usize) -> (result: Rc<
    AbstractValue,
>)
    ensures
        result == conjunction(*a, b, budget),
        a.within_limit() && b.within_limit() ==> result.within_limit(),
        fit(**a, *b) ==> propositional(*result) && result.expression_size <= a.expression_size
            + b.expression_size && is_conjunction(*result, **a, *b),
    decreases budget, 2int,
{
    proof {
        reveal_with_fuel(AbstractValue::within_limit, 3);
        reveal_with_fuel(Expression::within_limit, 3);
        reveal_with_fuel(propositional, 3);
        reveal_with_fuel(holds, 3);
    }
    if known_false(a) {
        // [false && b] -> false
        return AbstractValue::of_bool(false);
    }
    if known_false(&b) {
        // [a && false] -> false
        return AbstractValue::of_bool(false);
    }
    if known_true(a) {
        // [true && b] -> b
        return b;
    }
    if known_true(&b) || matches!(a.expression, Expression::Bottom) {
        // [a && true] -> a
        // [BOTTOM && b] -> BOTTOM
        return share(a);
    }
    if matches!(b.expression, Expression::Bottom) {
        // [a && BOTTOM] -> BOTTOM
        return b;
    }
    if let Some(result) = cancel(a, &b) {
        return result;
    }
    if let Some(result) = cancel(&b, a) {
        return result;
    }
    if budget > 0 {
        // [(x || y) && (!x)] -> y && !x
        if let Some(rest) = cancel_disjunct(a, &b) {
            let ghost b0 = node(&b);
            let result = and(&rest, b, budget - 1);
            proof {
                if fit(node(a), b0) {
                    assert forall|v: spec_fn(Path) -> bool| respects(v) implies holds(
                        node(&result),
                        v,
                    ) == (holds(node(a), v) && holds(b0, v)) by {
                        assert(holds(node(&result), v) == (holds(node(&rest), v) && holds(b0, v)));
                    }
                }
            }
            return result;
        }
        // [(!x) && (x || y)] -> y && !x
        if let Some(rest) = cancel_disjunct(&b, a) {
            let result = and(&rest, share(a), budget - 1);
            proof {
                if fit(node(a), node(&b)) {
                    assert forall|v: spec_fn(Path) -> bool| respects(v) implies holds(
                        node(&result),
                        v,
                    ) == (holds(node(a), v) && holds(node(&b), v)) by {
                        assert(holds(node(&result), v) == (holds(node(&rest), v) && holds(node(a), v)));
                        assert((holds(node(&b), v) && holds(node(a), v)) == (holds(node(&rest), v) && holds(node(a), v)));
                    }
                }
            }
            return result;
        }
        // [x && (x && y || x && z)] -> x && (y || z)
        if let Expression::Or { left, right } = &b.expression {
            if let (
                Expression::And { left: x1, right: y },
                Expression::And { left: x2, right: z },
            ) = (&left.expression, &right.expression) {
                if same(a, x1) && same(a, x2) {
                    let either = or(y, share(z), budget - 1);
                    let result = and(a, share(&either), budget - 1);
                    proof {
                        if fit(node(a), node(&b)) {
                            assert forall|v: spec_fn(Path) -> bool| respects(v) implies holds(
                                node(&result),
                                v,
                            ) == (holds(node(a), v) && holds(node(&b), v)) by {
                                assert(holds(node(&result), v) == (holds(node(a), v) && holds(node(&either), v)));
                                assert(holds(node(&either), v) == (holds(node(y), v) || holds(node(z), v)));
                                assert(holds(node(&b), v) == (holds(node(left), v) || holds(node(right), v)));
                                assert(holds(node(left), v) == (holds(node(x1), v) && holds(node(y), v)));
                                assert(holds(node(right), v) == (holds(node(x2), v) && holds(node(z), v)));
                                lemma_same_holds(a, x1, v);
                                lemma_same_holds(a, x2, v);
                            }
                        }
                    }
                    return result;
                }
            }
        }
    }
    and_by_refinement(a, b, budget)
}

/// Returns an element that is "a && b" where no operand cancels the other.
#[verifier::rlimit(100)]
#[verifier::spinoff_prover]
pub fn and_by_refinement(a: &Rc<AbstractValue>, b: Rc<AbstractValue>, budget: usize) -> (result:
    Rc<AbstractValue>)
    ensures
        result == conjunction_by_refinement(*a, b, budget),
        a.within_limit() && b.within_limit() ==> result.within_limit(),
        fit(**a, *b) ==> propositional(*result) && result.expression_size <= a.expression_size
            + b.expression_size && is_conjunction(*result, **a, *b),
    decreases budget, 0int,
{
    proof {
        reveal_with_fuel(AbstractValue::within_limit, 3);
        reveal_with_fuel(Expression::within_limit, 3);
        reveal_with_fuel(propositional, 3);
        reveal_with_fuel(holds, 3);
    }
    if budget == 0 {
        return AbstractValue::make_binary(share(a), b, BinaryOperator::And);
    }
    // [!x && !y] -> !(x || y)
    if let (Expression::LogicalNot { operand: x }, Expression::LogicalNot { operand: y }) = (
        &a.expression,
        &b.expression,
    ) {
        let either = or(x, share(y), budget - 1);
        let result = logical_not(&either, budget - 1);
        proof {
            if fit(node(a), node(&b)) {
                assert forall|v: spec_fn(Path) -> bool| respects(v) implies holds(
                    node(&result),
                    v,
                ) == (holds(node(a), v) && holds(node(&b), v)) by {
                    assert(holds(node(&result), v) == !holds(node(&either), v));
                    assert(holds(node(&either), v) == (holds(node(x), v) || holds(node(y), v)));
                    assert(holds(node(a), v) == !holds(node(x), v));
                    assert(holds(node(&b), v) == !holds(node(y), v));
                }
            }
        }
        return result;
    }
    // [!(x && y) && x] -> x && !y
    // [!(x && y) && y] -> y && !x
    if let Some(other) = cancel_conjunct(a, &b) {
        let negated = logical_not(&other, budget - 1);
        let ghost b0 = node(&b);
        let result = and(&b, share(&negated), budget - 1);
        proof {
            if fit(node(a), b0) {
                assert forall|v: spec_fn(Path) -> bool| respects(v) implies holds(
                    node(&result),
                    v,
                ) == (holds(node(a), v) && holds(b0, v)) by {
                    assert(holds(node(&result), v) == (holds(b0, v) && holds(node(&negated), v)));
                    assert(holds(node(&negated), v) == !holds(node(&other), v));
                    assert((holds(node(a), v) && holds(b0, v)) == (holds(b0, v) && !holds(node(&other), v)));
                }
            }
        }
        return result;
    }
    let refined = refine_with(&b, a, 7, budget - 1);
    // [x && true] -> x
    // [x && false] -> false
    let result = if known_true(&refined) {
        share(a)
    } else if known_false(&refined) {
        AbstractValue::of_bool(false)
    } else {
        AbstractValue::make_binary(share(a), share(&refined), BinaryOperator::And)
    };
    proof {
        if fit(node(a), node(&b)) {
            assert forall|v: spec_fn(Path) -> bool| respects(v) implies holds(
                node(&result),
                v,
            ) == (holds(node(a), v) && holds(node(&b), v)) by {
                assert(holds(node(&result), v) == (holds(node(a), v) && holds(node(&refined), v)));
                assert(holds(node(a), v) ==> holds(node(&refined), v) == holds(node(&b), v));
            }
        }
    }
    result
}

} // verus!
