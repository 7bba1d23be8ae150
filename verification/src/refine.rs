//! Refinement of values with a path condition that is known to hold.

use vstd::prelude::*;
use std::rc::Rc;
use crate::abstract_value::{bool_value, AbstractValue};
use crate::conditional::conditional;
use crate::disjunction::or;
use crate::expression::{Expression, ExpressionType};
use crate::implication::{implication, implication_of_negation, known_false, known_true};
use crate::k_limits;
use crate::logic::{entailed, excluded, same};
use crate::rebuild::{rebuild_binary, rebuild_layout, rebuild_unary};
use crate::rules::{equated_constant, refined};
use crate::path::Path;
use crate::semantics::{holds, propositional, respects, same_truth_under};
use crate::shared::{node, share};

verus! {

/// The result of refining `a` with `path_condition` at `depth`, where the result
/// is decided without rebuilding an operation: at the depth limit, where the
/// condition is `a` itself or says that `a` is equal to a constant, and where `a`
/// has no operands.
pub open spec fn refined_directly(
    a: Rc<AbstractValue>,
    path_condition: Rc<AbstractValue>,
    depth: usize,
) -> Option<Rc<AbstractValue>> {
    if depth >= k_limits::MAX_REFINE_DEPTH {
        Some(a)
    } else if path_condition.same_as(*a) {
        Some(Rc::new(bool_value(true)))
    } else if equated_constant(*a, *path_condition) is Some {
        equated_constant(*a, *path_condition)
    } else {
        match a.expression {
            Expression::Bottom
            | Expression::Top
            | Expression::CompileTimeConstant(_)
            | Expression::HeapBlock { .. }
            | Expression::Reference(_)
            | Expression::UninterpretedCall { .. }
            | Expression::UnknownModelField { .. } => Some(a),
            Expression::Variable { var_type, .. } => if !(var_type is Bool) {
                Some(a)
            } else if implication(*path_condition, *a) {
                Some(Rc::new(bool_value(true)))
            } else if implication_of_negation(*path_condition, *a) {
                Some(Rc::new(bool_value(false)))
            } else {
                Some(a)
            },
            _ => None,
        }
    }
}

/// True if `condition` is an equality of two constants.
pub open spec fn equates_constants(condition: AbstractValue) -> bool {
    condition.expression matches Expression::Equals { left, right }
        && left.expression is CompileTimeConstant && right.expression is CompileTimeConstant
}

/// Refinement is idempotent where it does not rebuild an operation: refining the
/// result once more with the same condition at the same depth gives the result.
///
/// This is stated for the values on which [`refined_directly`] decides, and for
/// every path condition but an equality of two constants, which says of one
/// constant that it is another.
pub proof fn lemma_refinement_idempotent(
    a: Rc<AbstractValue>,
    path_condition: Rc<AbstractValue>,
    depth: usize,
    budget: usize,
)
    requires
        !equates_constants(*path_condition),
        refined_directly(a, path_condition, depth) is Some,
    ensures
        Some(refined(a, path_condition, depth, budget)) == refined_directly(
            a,
            path_condition,
            depth,
        ),
        refined(refined(a, path_condition, depth, budget), path_condition, depth, budget)
            == refined(a, path_condition, depth, budget),
{
}

/// A refinement whose result is decided directly, and is left as it is, is
/// idempotent: refining the result once more with the same condition at the same
/// depth gives the result.
///
/// This is stated for every value that is refined. The results that it covers are
/// the constants, the unknown and the impossible value, addresses, calls, and the
/// variables that the condition neither implies nor excludes, as long as the
/// condition is not the result itself and does not equate it with a constant.
pub proof fn lemma_refinement_idempotent_on_leaves(
    a: Rc<AbstractValue>,
    path_condition: Rc<AbstractValue>,
    depth: usize,
    budget: usize,
)
    requires
        !equates_constants(*path_condition),
        refined_directly(refined(a, path_condition, depth, budget), path_condition, depth)
            == Some(refined(a, path_condition, depth, budget)),
    ensures
        refined(refined(a, path_condition, depth, budget), path_condition, depth, budget)
            == refined(a, path_condition, depth, budget),
{
    lemma_refinement_idempotent(
        refined(a, path_condition, depth, budget),
        path_condition,
        depth,
        budget,
    );
}

/// A refinement that gives a constant is idempotent, where the path condition is
/// neither a constant itself nor an equality of two constants.
pub proof fn lemma_refinement_idempotent_on_constants(
    a: Rc<AbstractValue>,
    path_condition: Rc<AbstractValue>,
    depth: usize,
    budget: usize,
)
    requires
        refined(a, path_condition, depth, budget).expression is CompileTimeConstant,
        !(path_condition.expression is CompileTimeConstant),
        !equates_constants(*path_condition),
    ensures
        refined(refined(a, path_condition, depth, budget), path_condition, depth, budget)
            == refined(a, path_condition, depth, budget),
{
}

/// Returns a value that is simplified (refined) by using the current path
/// condition: a condition that is known to be true in the current context. If no
/// refinement is possible the result is simply the given value.
///
/// The traversal is kept as trivial as possible, with the simplifications left to
/// the operators that rebuild the refined expression.
#[verifier::rlimit(50)]
#[verifier::spinoff_prover]
pub fn refine_with(
    a: &Rc<AbstractValue>,
    path_condition: &Rc<AbstractValue>,
    depth: usize,
    budget: usize,
) -> (result: Rc<AbstractValue>)
    ensures
        result == refined(*a, *path_condition, depth, budget),
        a.within_limit() && path_condition.within_limit() ==> result.within_limit(),
        depth >= k_limits::MAX_REFINE_DEPTH ==> result == *a,
        depth < k_limits::MAX_REFINE_DEPTH && path_condition.same_as(**a) ==> *result
            == bool_value(true),
        propositional(**a) && !(path_condition.expression is Equals) ==> propositional(*result)
            && result.expression_size <= a.expression_size && same_truth_under(
            *result,
            **a,
            **path_condition,
        ),
    decreases budget, 2int,
{
    proof {
        reveal_with_fuel(AbstractValue::within_limit, 3);
        reveal_with_fuel(Expression::within_limit, 3);
        reveal_with_fuel(propositional, 3);
        reveal_with_fuel(holds, 3);
    }
    if depth >= k_limits::MAX_REFINE_DEPTH {
        return share(a);
    }
    // In this context path_condition is true
    if same(path_condition, a) {
        return AbstractValue::of_bool(true);
    }
    // If the path context constrains the expression to be equal to a constant, just
    // return the constant.
    if let Expression::Equals { left, right } = &path_condition.expression {
        if let Expression::CompileTimeConstant(_) = &left.expression {
            if same(a, right) {
                return share(left);
            }
        }
        if let Expression::CompileTimeConstant(_) = &right.expression {
            if same(a, left) {
                return share(right);
            }
        }
    }
    if let Expression::Variable { var_type, .. } = &a.expression {
        if matches!(var_type, ExpressionType::Bool) {
            if entailed(path_condition, a) {
                return AbstractValue::of_bool(true);
            } else if excluded(path_condition, a) {
                return AbstractValue::of_bool(false);
            }
        }
        return share(a);
    }
    if budget == 0 {
        return share(a);
    }
    let next = budget - 1;
    let pc = path_condition;
    let d: usize = depth + 1;
    // Traverse the expression, looking for recursive refinement opportunities.
    match &a.expression {
        Expression::ConditionalExpression { condition, consequent, alternate } => {
            // The implies checks should be redundant, but currently help with
            // precision, presumably because they are not k-limited like the
            // refinement of the path condition.
            if entailed(pc, condition) {
                let result = refine_with(consequent, pc, d, next);
                proof {
                    if propositional(node(a)) {
                        assert forall|v: spec_fn(Path) -> bool|
                            respects(v) && holds(node(pc), v) implies holds(node(&result), v) == holds(
                            node(a),
                            v,
                        ) by {
                            assert(holds(node(a), v) == (if holds(node(condition), v) {
                            holds(node(consequent), v)
                        } else {
                            holds(node(alternate), v)
                        }));
                            assert(holds(node(condition), v));
                            assert(holds(node(&result), v) == holds(node(consequent), v));
                        }
                    }
                }
                result
            } else if excluded(pc, condition) {
                let result = refine_with(alternate, pc, d, next);
                proof {
                    if propositional(node(a)) {
                        assert forall|v: spec_fn(Path) -> bool|
                            respects(v) && holds(node(pc), v) implies holds(node(&result), v) == holds(
                            node(a),
                            v,
                        ) by {
                            assert(holds(node(a), v) == (if holds(node(condition), v) {
                            holds(node(consequent), v)
                        } else {
                            holds(node(alternate), v)
                        }));
                            assert(!holds(node(condition), v));
                            assert(holds(node(&result), v) == holds(node(alternate), v));
                        }
                    }
                }
                result
            } else {
                let refined_condition = refine_with(condition, pc, d, next);
                let refined_consequent = refine_with(consequent, pc, d, next);
                if known_true(&refined_condition) {
                    proof {
                        if propositional(node(a)) {
                            assert forall|v: spec_fn(Path) -> bool|
                                respects(v) && holds(node(pc), v) implies holds(node(&refined_consequent), v) == holds(
                                node(a),
                                v,
                            ) by {
                                assert(holds(node(a), v) == (if holds(node(condition), v) {
                            holds(node(consequent), v)
                        } else {
                            holds(node(alternate), v)
                        }));
                                assert(holds(node(&refined_condition), v) == holds(node(condition), v));
                                assert(holds(node(&refined_consequent), v) == holds(node(consequent), v));
                            }
                        }
                    }
                    return refined_consequent;
                }
                let refined_alternate = refine_with(alternate, pc, d, next);
                if known_false(&refined_condition) {
                    proof {
                        if propositional(node(a)) {
                            assert forall|v: spec_fn(Path) -> bool|
                                respects(v) && holds(node(pc), v) implies holds(node(&refined_alternate), v) == holds(
                                node(a),
                                v,
                            ) by {
                                assert(holds(node(a), v) == (if holds(node(condition), v) {
                            holds(node(consequent), v)
                        } else {
                            holds(node(alternate), v)
                        }));
                                assert(holds(node(&refined_condition), v) == holds(node(condition), v));
                                assert(holds(node(&refined_alternate), v) == holds(node(alternate), v));
                            }
                        }
                    }
                    return refined_alternate;
                }
                let result = conditional(
                    &refined_condition,
                    share(&refined_consequent),
                    share(&refined_alternate),
                    next,
                );
                proof {
                    if propositional(node(a)) {
                        assert forall|v: spec_fn(Path) -> bool|
                            respects(v) && holds(node(pc), v) implies holds(node(&result), v) == holds(
                            node(a),
                            v,
                        ) by {
                            assert(holds(node(a), v) == (if holds(node(condition), v) {
                            holds(node(consequent), v)
                        } else {
                            holds(node(alternate), v)
                        }));
                            assert(holds(node(&result), v) == (if holds(node(&refined_condition), v) {
                            holds(node(&refined_consequent), v)
                        } else {
                            holds(node(&refined_alternate), v)
                        }));
                            assert(holds(node(&refined_condition), v) == holds(node(condition), v));
                            assert(holds(node(&refined_consequent), v) == holds(node(consequent), v));
                            assert(holds(node(&refined_alternate), v) == holds(node(alternate), v));
                        }
                    }
                }
                result
            }
        },
        Expression::Or { left, right } => {
            // Ideally the constructor should do the simplifications, but in practice
            // or expressions grow quite large due to composition and it really helps
            // to avoid refining the right expression whenever possible, even at the
            // expense of more checks here.
            if entailed(pc, left) || entailed(pc, right) {
                AbstractValue::of_bool(true)
            } else if excluded(pc, left) {
                if excluded(pc, right) {
                    AbstractValue::of_bool(false)
                } else {
                    refine_with(right, pc, d, next)
                }
            } else if excluded(pc, right) {
                refine_with(left, pc, d, next)
            } else {
                or(&refine_with(left, pc, d, next), refine_with(right, pc, d, next), next)
            }
        },
        Expression::Add { left, right, .. }
        | Expression::AddOverflows { left, right, .. }
        | Expression::And { left, right, .. }
        | Expression::BitAnd { left, right, .. }
        | Expression::BitOr { left, right, .. }
        | Expression::BitXor { left, right, .. }
        | Expression::Div { left, right, .. }
        | Expression::Equals { left, right, .. }
        | Expression::GreaterOrEqual { left, right, .. }
        | Expression::GreaterThan { left, right, .. }
        | Expression::IntrinsicBinary { left, right, .. }
        | Expression::Join { left, right, .. }
        | Expression::LessOrEqual { left, right, .. }
        | Expression::LessThan { left, right, .. }
        | Expression::Mul { left, right, .. }
        | Expression::MulOverflows { left, right, .. }
        | Expression::Ne { left, right, .. }
        | Expression::Offset { left, right, .. }
        | Expression::Rem { left, right, .. }
        | Expression::Shl { left, right, .. }
        | Expression::ShlOverflows { left, right, .. }
        | Expression::Shr { left, right, .. }
        | Expression::ShrOverflows { left, right, .. }
        | Expression::Sub { left, right, .. }
        | Expression::SubOverflows { left, right, .. } => rebuild_binary(
            &a.expression,
            refine_with(left, pc, d, next),
            refine_with(right, pc, d, next),
            next,
        ),
        Expression::BitNot { operand, .. }
        | Expression::Cast { operand, .. }
        | Expression::IntrinsicBitVectorUnary { operand, .. }
        | Expression::IntrinsicFloatingPointUnary { operand, .. }
        | Expression::LogicalNot { operand, .. }
        | Expression::Neg { operand, .. }
        | Expression::Widen { operand, .. } => rebuild_unary(&a.expression, refine_with(operand, pc, d, next), next),
        Expression::HeapBlockLayout { length, alignment, .. } => rebuild_layout(
            &a.expression,
            refine_with(length, pc, d, next),
            refine_with(alignment, pc, d, next),
        ),
        _ => share(a),
    }
}

} // verus!
