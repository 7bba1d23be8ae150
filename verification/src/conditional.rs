//! The conditional of a condition and two branches.

use vstd::prelude::*;
use std::rc::Rc;
use crate::abstract_value::AbstractValue;
use crate::arithmetic::try_to_retype_as;
use crate::conjunction::and;
use crate::disjunction::or;
use crate::expression::Expression;
use crate::implication::{known_false, known_true};
use crate::k_limits;
use crate::logic::same;
use crate::negation::logical_not;
use crate::path::Path;
use crate::refine::refine_with;
use crate::rules::{choice, choice_of_disjunction, choice_of_refined, conditional_of};
use crate::semantics::{
    holds,
    is_choice,
    lemma_formula_is_boolean,
    lemma_same_expression,
    lemma_same_holds,
    propositional,
    respects,
};
use crate::shared::{node, share};

verus! {

/// The condition and the two branches are formulas, and the sum of their sizes is
/// in the limit, so that their conditional is not replaced by a variable.
pub open spec fn fit_branches(c: AbstractValue, a: AbstractValue, b: AbstractValue) -> bool {
    propositional(c) && propositional(a) && propositional(b) && c.expression_size
        + a.expression_size + b.expression_size <= k_limits::MAX_EXPRESSION_SIZE
}

/// Returns an element that is "if c { consequent } else { alternate }".
///
/// Callers should not ask for a conditional with two impossible branches. Where
/// they do, the result is the impossible value.
#[verifier::rlimit(100)]
#[verifier::spinoff_prover]
pub fn conditional(
    c: &Rc<AbstractValue>,
    consequent: Rc<AbstractValue>,
    alternate: Rc<AbstractValue>,
    budget: usize,
) -> (result: Rc<AbstractValue>)
    ensures
        result == choice(*c, consequent, alternate, budget),
        c.within_limit() && consequent.within_limit() && alternate.within_limit()
            ==> result.within_limit(),
        fit_branches(**c, *consequent, *alternate) ==> propositional(*result)
            && result.expression_size <= c.expression_size + consequent.expression_size
            + alternate.expression_size && is_choice(*result, **c, *consequent, *alternate),
    decreases budget, 2int,
{
    proof {
        reveal_with_fuel(AbstractValue::within_limit, 3);
        reveal_with_fuel(Expression::within_limit, 3);
        reveal_with_fuel(propositional, 3);
        reveal_with_fuel(holds, 3);
    }
    let ghost c0 = node(c);
    let ghost a0 = node(&consequent);
    let ghost b0 = node(&alternate);
    let ghost fits = fit_branches(c0, a0, b0);
    if matches!(c.expression, Expression::Bottom) {
        // If the condition is impossible so is the expression.
        return consequent;
    }
    if matches!(c.expression, Expression::Top) {
        return share(c);
    }
    if matches!(consequent.expression, Expression::Bottom) {
        return alternate;
    }
    if matches!(alternate.expression, Expression::Bottom) {
        return consequent;
    }
    if consequent.expression.eq(&alternate.expression) {
        // [c ? x : x] -> x
        proof {
            if fits {
                lemma_same_expression(&consequent, &alternate);
                assert forall|v: spec_fn(Path) -> bool| respects(v) implies holds(
                    a0,
                    v,
                ) == (if holds(c0, v) {
                    holds(a0, v)
                } else {
                    holds(b0, v)
                }) by {
                    lemma_same_holds(&consequent, &alternate, v);
                }
            }
        }
        return consequent;
    }
    if budget > 0 && c.expression.eq(&consequent.expression) {
        // [x ? x : y] -> x || y
        let result = or(c, alternate, budget - 1);
        proof {
            if fits {
                lemma_same_expression(c, &consequent);
                assert forall|v: spec_fn(Path) -> bool| respects(v) implies holds(
                    node(&result),
                    v,
                ) == (if holds(c0, v) {
                    holds(a0, v)
                } else {
                    holds(b0, v)
                }) by {
                    assert(holds(node(&result), v) == (holds(c0, v) || holds(b0, v)));
                    lemma_same_holds(c, &consequent, v);
                }
            }
        }
        return result;
    }
    if budget > 0 && c.expression.eq(&alternate.expression) {
        // [y ? x : y] -> y && x
        let result = and(c, consequent, budget - 1);
        proof {
            if fits {
                lemma_same_expression(c, &alternate);
                assert forall|v: spec_fn(Path) -> bool| respects(v) implies holds(
                    node(&result),
                    v,
                ) == (if holds(c0, v) {
                    holds(a0, v)
                } else {
                    holds(b0, v)
                }) by {
                    assert(holds(node(&result), v) == (holds(c0, v) && holds(a0, v)));
                    lemma_same_holds(c, &alternate, v);
                }
            }
        }
        return result;
    }
    if known_true(c) {
        // [true ? x : y] -> x
        return consequent;
    } else if known_false(c) {
        // [false ? x : y] -> y
        return alternate;
    }
    if known_true(&consequent) && known_false(&alternate) {
        // [c ? true : false] -> c
        return share(c);
    }
    if budget == 0 {
        return conditional_unsimplified(c, consequent, alternate);
    }
    let next = budget - 1;
    if known_false(&consequent) && known_true(&alternate) {
        // [c ? false : true] -> !c
        let result = logical_not(c, next);
        proof {
            if fits {
                assert forall|v: spec_fn(Path) -> bool| respects(v) implies holds(
                    node(&result),
                    v,
                ) == (if holds(c0, v) {
                    holds(a0, v)
                } else {
                    holds(b0, v)
                }) by {
                    assert(holds(node(&result), v) == !holds(c0, v));
                }
            }
        }
        return result;
    }
    if let Expression::LogicalNot { operand } = &c.expression {
        // [if !(x) { a } else { b }] -> if x { b } else { a }
        let result = conditional(operand, alternate, consequent, next);
        proof {
            if fits {
                assert forall|v: spec_fn(Path) -> bool| respects(v) implies holds(
                    node(&result),
                    v,
                ) == (if holds(c0, v) {
                    holds(a0, v)
                } else {
                    holds(b0, v)
                }) by {
                    assert(holds(node(&result), v) == (if holds(node(operand), v) {
                    holds(b0, v)
                } else {
                    holds(a0, v)
                }));
                    assert(holds(c0, v) == !holds(node(operand), v));
                }
            }
        }
        return result;
    }
    if let Some(result) = conditional_of_disjunction(c, &consequent, &alternate, budget) {
        return result;
    }
    // if c { consequent } else { alternate } implies c in the consequent and !c in
    // the alternate
    let not_c = logical_not(c, next);
    let refined_consequent = refine_with(&consequent, c, 5, next);
    let refined_alternate = refine_with(&alternate, &not_c, 5, next);
    let result = conditional_of_refined(c, share(&refined_consequent), share(&refined_alternate), budget);
    proof {
        if fits {
            assert forall|v: spec_fn(Path) -> bool| respects(v) implies holds(
                node(&result),
                v,
            ) == (if holds(c0, v) {
                holds(a0, v)
            } else {
                holds(b0, v)
            }) by {
                assert(holds(node(&result), v) == (if holds(c0, v) {
                    holds(node(&refined_consequent), v)
                } else {
                    holds(node(&refined_alternate), v)
                }));
                assert(holds(node(&not_c), v) == !holds(c0, v));
                assert(holds(c0, v) ==> holds(node(&refined_consequent), v) == holds(a0, v));
                assert(holds(node(&not_c), v) ==> holds(node(&refined_alternate), v) == holds(b0, v));
            }
        }
    }
    result
}

/// Returns an element that is "if c { consequent } else { alternate }" where `c` is
/// a disjunction whose operands the consequent mentions, if the consequent does so.
#[verifier::rlimit(100)]
#[verifier::spinoff_prover]
pub fn conditional_of_disjunction(
    c: &Rc<AbstractValue>,
    consequent: &Rc<AbstractValue>,
    alternate: &Rc<AbstractValue>,
    budget: usize,
) -> (result: Option<Rc<AbstractValue>>)
    ensures
        result == choice_of_disjunction(*c, *consequent, *alternate, budget),
        c.within_limit() && consequent.within_limit() && alternate.within_limit() ==> (
        result matches Some(r) ==> r.within_limit()),
        fit_branches(**c, **consequent, **alternate) ==> (result matches Some(r) ==> propositional(
            *r,
        ) && r.expression_size <= c.expression_size + consequent.expression_size
            + alternate.expression_size && is_choice(*r, **c, **consequent, **alternate)),
    decreases budget, 1int,
{
    proof {
        reveal_with_fuel(AbstractValue::within_limit, 3);
        reveal_with_fuel(Expression::within_limit, 3);
        reveal_with_fuel(propositional, 3);
        reveal_with_fuel(holds, 3);
    }
    let ghost c0 = node(c);
    let ghost a0 = node(consequent);
    let ghost b0 = node(alternate);
    let ghost fits = fit_branches(c0, a0, b0);
    if budget == 0 {
        return None;
    }
    let next = budget - 1;
    if let Expression::Or { left: x, right: y } = &c.expression {
        match &consequent.expression {
            Expression::LogicalNot { operand } => {
                if same(x, operand) {
                    // [if x || y { !x } else { z }] -> [!x && y || !x && z] -> !x && (y || z)
                    let either = or(y, share(alternate), next);
                    let result = and(consequent, share(&either), next);
                    proof {
                        if fits {
                            assert forall|v: spec_fn(Path) -> bool| respects(v) implies holds(
                                node(&result),
                                v,
                            ) == (if holds(c0, v) {
                                holds(a0, v)
                            } else {
                                holds(b0, v)
                            }) by {
                                assert(holds(node(&result), v) == (holds(a0, v) && holds(node(&either), v)));
                                assert(holds(node(&either), v) == (holds(node(y), v) || holds(b0, v)));
                                assert(holds(c0, v) == (holds(node(x), v) || holds(node(y), v)));
                                assert(holds(a0, v) == !holds(node(operand), v));
                                lemma_same_holds(x, operand, v);
                            }
                        }
                    }
                    return Some(result);
                }
            },
            Expression::ConditionalExpression { condition, consequent: a, alternate: b } => {
                // [if x || y { if x {a} else {b} } else {b}] -> if x {a} else {b}
                if same(x, condition) && same(b, alternate) {
                    let result = conditional(x, share(a), share(alternate), next);
                    proof {
                        if fits {
                            assert forall|v: spec_fn(Path) -> bool| respects(v) implies holds(
                                node(&result),
                                v,
                            ) == (if holds(c0, v) {
                                holds(a0, v)
                            } else {
                                holds(b0, v)
                            }) by {
                                assert(holds(node(&result), v) == (if holds(node(x), v) {
                                holds(node(a), v)
                            } else {
                                holds(b0, v)
                            }));
                                assert(holds(c0, v) == (holds(node(x), v) || holds(node(y), v)));
                                assert(holds(a0, v) == (if holds(node(condition), v) {
                                holds(node(a), v)
                            } else {
                                holds(node(b), v)
                            }));
                                lemma_same_holds(x, condition, v);
                                lemma_same_holds(b, alternate, v);
                            }
                        }
                    }
                    return Some(result);
                }
                // [if x || y { if y {a} else {b} } else {b}] -> if y {a} else {b}
                if same(y, condition) && same(b, alternate) {
                    let result = conditional(y, share(a), share(alternate), next);
                    proof {
                        if fits {
                            assert forall|v: spec_fn(Path) -> bool| respects(v) implies holds(
                                node(&result),
                                v,
                            ) == (if holds(c0, v) {
                                holds(a0, v)
                            } else {
                                holds(b0, v)
                            }) by {
                                assert(holds(node(&result), v) == (if holds(node(y), v) {
                                holds(node(a), v)
                            } else {
                                holds(b0, v)
                            }));
                                assert(holds(c0, v) == (holds(node(x), v) || holds(node(y), v)));
                                assert(holds(a0, v) == (if holds(node(condition), v) {
                                holds(node(a), v)
                            } else {
                                holds(node(b), v)
                            }));
                                lemma_same_holds(y, condition, v);
                                lemma_same_holds(b, alternate, v);
                            }
                        }
                    }
                    return Some(result);
                }
                // [if x || y { if x {a} else {b} } else {a}] -> if x {a} else { if y {b} else {a} }
                if same(x, condition) && same(a, alternate) {
                    let inner = conditional(y, share(b), share(alternate), next);
                    let result = conditional(x, share(a), share(&inner), next);
                    proof {
                        if fits {
                            assert forall|v: spec_fn(Path) -> bool| respects(v) implies holds(
                                node(&result),
                                v,
                            ) == (if holds(c0, v) {
                                holds(a0, v)
                            } else {
                                holds(b0, v)
                            }) by {
                                assert(holds(node(&result), v) == (if holds(node(x), v) {
                                holds(node(a), v)
                            } else {
                                holds(node(&inner), v)
                            }));
                                assert(holds(node(&inner), v) == (if holds(node(y), v) {
                                holds(node(b), v)
                            } else {
                                holds(b0, v)
                            }));
                                assert(holds(c0, v) == (holds(node(x), v) || holds(node(y), v)));
                                assert(holds(a0, v) == (if holds(node(condition), v) {
                                holds(node(a), v)
                            } else {
                                holds(node(b), v)
                            }));
                                lemma_same_holds(x, condition, v);
                                lemma_same_holds(a, alternate, v);
                            }
                        }
                    }
                    return Some(result);
                }
                // [if x || y { if y {a} else {b} } else {a}] -> if y {a} else { if x {b} else {a} }
                if same(y, condition) && same(a, alternate) {
                    let inner = conditional(x, share(b), share(alternate), next);
                    let result = conditional(y, share(a), share(&inner), next);
                    proof {
                        if fits {
                            assert forall|v: spec_fn(Path) -> bool| respects(v) implies holds(
                                node(&result),
                                v,
                            ) == (if holds(c0, v) {
                                holds(a0, v)
                            } else {
                                holds(b0, v)
                            }) by {
                                assert(holds(node(&result), v) == (if holds(node(y), v) {
                                holds(node(a), v)
                            } else {
                                holds(node(&inner), v)
                            }));
                                assert(holds(node(&inner), v) == (if holds(node(x), v) {
                                holds(node(b), v)
                            } else {
                                holds(b0, v)
                            }));
                                assert(holds(c0, v) == (holds(node(x), v) || holds(node(y), v)));
                                assert(holds(a0, v) == (if holds(node(condition), v) {
                                holds(node(a), v)
                            } else {
                                holds(node(b), v)
                            }));
                                lemma_same_holds(y, condition, v);
                                lemma_same_holds(a, alternate, v);
                            }
                        }
                    }
                    return Some(result);
                }
            },
            _ => (),
        }
    }
    None
}

/// Returns an element that is "if c { consequent } else { alternate }" where the
/// branches were refined with the condition and its negation.
#[verifier::rlimit(100)]
#[verifier::spinoff_prover]
pub fn conditional_of_refined(
    c: &Rc<AbstractValue>,
    consequent: Rc<AbstractValue>,
    alternate: Rc<AbstractValue>,
    budget: usize,
) -> (result: Rc<AbstractValue>)
    ensures
        result == choice_of_refined(*c, consequent, alternate, budget),
        c.within_limit() && consequent.within_limit() && alternate.within_limit()
            ==> result.within_limit(),
        fit_branches(**c, *consequent, *alternate) ==> propositional(*result)
            && result.expression_size <= c.expression_size + consequent.expression_size
            + alternate.expression_size && is_choice(*result, **c, *consequent, *alternate),
    decreases budget, 1int,
{
    proof {
        reveal_with_fuel(AbstractValue::within_limit, 3);
        reveal_with_fuel(Expression::within_limit, 3);
        reveal_with_fuel(propositional, 3);
        reveal_with_fuel(holds, 3);
    }
    let ghost c0 = node(c);
    let ghost a0 = node(&consequent);
    let ghost b0 = node(&alternate);
    let ghost fits = fit_branches(c0, a0, b0);
    if budget == 0 {
        return conditional_unsimplified(c, consequent, alternate);
    }
    let next = budget - 1;
    if let Expression::ConditionalExpression { condition: c2, consequent: a, alternate: b } =
        &consequent.expression {
        // [if c { if c { a } else { b } } else { d }] -> if c { a } else { d }
        if same(c, c2) {
            let result = conditional(c, share(a), alternate, next);
            proof {
                if fits {
                    assert forall|v: spec_fn(Path) -> bool| respects(v) implies holds(
                        node(&result),
                        v,
                    ) == (if holds(c0, v) {
                        holds(a0, v)
                    } else {
                        holds(b0, v)
                    }) by {
                        assert(holds(node(&result), v) == (if holds(c0, v) {
                        holds(node(a), v)
                    } else {
                        holds(b0, v)
                    }));
                        assert(holds(a0, v) == (if holds(node(c2), v) {
                        holds(node(a), v)
                    } else {
                        holds(node(b), v)
                    }));
                        lemma_same_holds(c, c2, v);
                    }
                }
            }
            return result;
        }
        // [if c { if c2 { a } else { b } } else { b }] -> if c && c2 { a } else { b }
        if same(b, &alternate) {
            let both = and(c, share(c2), next);
            let result = conditional(&both, share(a), alternate, next);
            proof {
                if fits {
                    assert forall|v: spec_fn(Path) -> bool| respects(v) implies holds(
                        node(&result),
                        v,
                    ) == (if holds(c0, v) {
                        holds(a0, v)
                    } else {
                        holds(b0, v)
                    }) by {
                        assert(holds(node(&result), v) == (if holds(node(&both), v) {
                        holds(node(a), v)
                    } else {
                        holds(b0, v)
                    }));
                        assert(holds(node(&both), v) == (holds(c0, v) && holds(node(c2), v)));
                        assert(holds(a0, v) == (if holds(node(c2), v) {
                        holds(node(a), v)
                    } else {
                        holds(node(b), v)
                    }));
                        lemma_same_holds(b, &alternate, v);
                    }
                }
            }
            return result;
        }
        // [if c { if c2 { a } else { b } } else { a }] -> if c && !c2 { b } else { a }
        if same(a, &alternate) {
            let not_c2 = logical_not(c2, next);
            let both = and(c, share(&not_c2), next);
            let result = conditional(&both, share(b), alternate, next);
            proof {
                if fits {
                    assert forall|v: spec_fn(Path) -> bool| respects(v) implies holds(
                        node(&result),
                        v,
                    ) == (if holds(c0, v) {
                        holds(a0, v)
                    } else {
                        holds(b0, v)
                    }) by {
                        assert(holds(node(&result), v) == (if holds(node(&both), v) {
                        holds(node(b), v)
                    } else {
                        holds(b0, v)
                    }));
                        assert(holds(node(&both), v) == (holds(c0, v) && holds(node(&not_c2), v)));
                        assert(holds(node(&not_c2), v) == !holds(node(c2), v));
                        assert(holds(a0, v) == (if holds(node(c2), v) {
                        holds(node(a), v)
                    } else {
                        holds(node(b), v)
                    }));
                        lemma_same_holds(a, &alternate, v);
                    }
                }
            }
            return result;
        }
    }
    if let Expression::ConditionalExpression { condition: c2, consequent: a, alternate: b } =
        &alternate.expression {
        // [if c { consequent } else { if c { a } else { b } }] -> if c { consequent } else { b }
        if same(c, c2) {
            let result = conditional(c, consequent, share(b), next);
            proof {
                if fits {
                    assert forall|v: spec_fn(Path) -> bool| respects(v) implies holds(
                        node(&result),
                        v,
                    ) == (if holds(c0, v) {
                        holds(a0, v)
                    } else {
                        holds(b0, v)
                    }) by {
                        assert(holds(node(&result), v) == (if holds(c0, v) {
                        holds(a0, v)
                    } else {
                        holds(node(b), v)
                    }));
                        assert(holds(b0, v) == (if holds(node(c2), v) {
                        holds(node(a), v)
                    } else {
                        holds(node(b), v)
                    }));
                        lemma_same_holds(c, c2, v);
                    }
                }
            }
            return result;
        }
        // [if c { a } else { if c2 { a } else { b } }] -> if c || c2 { a } else { b }
        if same(a, &consequent) {
            let either = or(c, share(c2), next);
            let result = conditional(&either, consequent, share(b), next);
            proof {
                if fits {
                    assert forall|v: spec_fn(Path) -> bool| respects(v) implies holds(
                        node(&result),
                        v,
                    ) == (if holds(c0, v) {
                        holds(a0, v)
                    } else {
                        holds(b0, v)
                    }) by {
                        assert(holds(node(&result), v) == (if holds(node(&either), v) {
                        holds(a0, v)
                    } else {
                        holds(node(b), v)
                    }));
                        assert(holds(node(&either), v) == (holds(c0, v) || holds(node(c2), v)));
                        assert(holds(b0, v) == (if holds(node(c2), v) {
                        holds(node(a), v)
                    } else {
                        holds(node(b), v)
                    }));
                        lemma_same_holds(a, &consequent, v);
                    }
                }
            }
            return result;
        }
    }
    proof {
        lemma_formula_is_boolean(&consequent);
        lemma_formula_is_boolean(&alternate);
    }
    let consequent_type = consequent.expression.infer_type();
    let alternate_type = alternate.expression.infer_type();
    // In this context not primitive is expected to indicate that the value is a
    // default value obtained via an unspecialized summary from a generic function.
    if !consequent_type.is_primitive() && alternate_type.is_primitive() {
        let consequent = try_to_retype_as(&consequent, &alternate_type, next);
        conditional_unsimplified(c, consequent, alternate)
    } else if consequent_type.is_primitive() && !alternate_type.is_primitive() {
        let alternate = try_to_retype_as(&alternate, &consequent_type, next);
        conditional_unsimplified(c, consequent, alternate)
    } else {
        conditional_unsimplified(c, consequent, alternate)
    }
}

/// Returns the conditional expression of a condition and two branches.
pub fn conditional_unsimplified(
    c: &Rc<AbstractValue>,
    consequent: Rc<AbstractValue>,
    alternate: Rc<AbstractValue>,
) -> (result: Rc<AbstractValue>)
    ensures
        result == conditional_of(*c, consequent, alternate),
        c.within_limit() && consequent.within_limit() && alternate.within_limit()
            ==> result.within_limit(),
{
    let expression_size = c.expression_size.saturating_add(
        consequent.expression_size,
    ).saturating_add(alternate.expression_size);
    AbstractValue::make_from(
        Expression::ConditionalExpression { condition: share(c), consequent, alternate },
        expression_size,
    )
}

} // verus!
