use abstract_value_engine::abstract_value::{AbstractValue, AbstractValueTrait};
use abstract_value_engine::constant_domain::ConstantDomain;
use abstract_value_engine::environment::Environment;
use abstract_value_engine::expression::{Expression, ExpressionType};
use abstract_value_engine::k_limits;
use abstract_value_engine::path::Path;
use std::rc::Rc;

fn variable(ordinal: usize, var_type: ExpressionType) -> Rc<AbstractValue> {
    AbstractValue::make_from(
        Expression::Variable { path: Path::new_local(ordinal), var_type },
        1,
    )
}

fn i(v: i128) -> Rc<AbstractValue> {
    AbstractValue::of_constant(ConstantDomain::I128(v))
}

fn valuation(x: bool, y: bool) -> Environment {
    Environment::new()
        .insert(Path::new_local(1), AbstractValue::of_bool(x))
        .insert(Path::new_local(2), AbstractValue::of_bool(y))
}

#[test]
fn an_expression_over_the_size_limit_becomes_a_variable_with_its_interval() {
    let sum = Expression::Add { left: i(3), right: i(4) };
    let large = AbstractValue::make_from(sum, k_limits::MAX_EXPRESSION_SIZE + 1);
    assert_eq!(large.expression_size, 1);
    match &large.expression {
        Expression::Variable { var_type, .. } => assert_eq!(*var_type, ExpressionType::I128),
        other => panic!("expected a variable, got {:?}", other),
    }
    let interval = large.get_cached_interval();
    assert_eq!(interval.lower_bound(), Some(7));
    assert_eq!(interval.upper_bound(), Some(7));
    // The expression of the variable itself says nothing about its value.
    assert!(large.get_as_interval().is_bottom());
    let kept = AbstractValue::make_from(
        Expression::Add { left: i(3), right: i(4) },
        k_limits::MAX_EXPRESSION_SIZE,
    );
    assert!(matches!(kept.expression, Expression::Add { .. }));
    assert_eq!(kept.expression_size, k_limits::MAX_EXPRESSION_SIZE);
}

#[test]
fn sizes_of_built_values_stay_in_the_limit() {
    let x = variable(1, ExpressionType::I128);
    let half = AbstractValue::make_from(
        Expression::Neg { operand: x.clone() },
        k_limits::MAX_EXPRESSION_SIZE - 1,
    );
    let sum = half.multiply(half.clone());
    assert!(sum.expression_size <= k_limits::MAX_EXPRESSION_SIZE);
    assert!(matches!(sum.expression, Expression::Variable { .. }));
    assert_eq!(sum.expression_size, 1);
}

#[test]
fn the_impossible_value_absorbs_in_arithmetic() {
    let x = variable(1, ExpressionType::I128);
    let bottom = AbstractValue::bottom();
    assert!(bottom.addition(x.clone()).is_bottom());
    assert!(bottom.subtract(x.clone()).is_bottom());
    assert!(bottom.multiply(x.clone()).is_bottom());
    assert!(bottom.divide(x.clone()).is_bottom());
    assert!(bottom.remainder(x.clone()).is_bottom());
    assert!(x.addition(bottom.clone()).is_bottom());
    let conditional = variable(2, ExpressionType::Bool).conditional_expression(x.clone(), i(5));
    assert!(bottom.addition(conditional).is_bottom());
    let widened = x.clone().negate().widen(&Path::new_local(3));
    assert!(matches!(widened.expression, Expression::Widen { .. }));
    assert!(bottom.addition(widened.clone()).is_bottom());
    assert!(bottom.subtract(widened.clone()).is_bottom());
    assert!(bottom.multiply(widened.clone()).is_bottom());
    assert!(bottom.divide(widened.clone()).is_bottom());
    assert!(bottom.remainder(widened.clone()).is_bottom());
    assert!(widened.addition(bottom.clone()).is_bottom());
    assert!(widened.multiply(bottom.clone()).is_bottom());
    // Zero times anything is zero.
    assert_eq!(bottom.multiply(i(0)), i(0));
    assert!(bottom.multiply(i(1)).is_bottom());
    assert!(bottom.addition(i(0)).is_bottom());
    assert!(bottom.subtract(i(0)).is_bottom());
    // Another operand is still replaced by a widened one.
    assert_eq!(widened.addition(x.clone()), widened);
}

#[test]
fn intervals_hold_the_constants_that_expressions_fold_to() {
    let folded = i(3).addition(i(4)).multiply(i(-2)).subtract(i(10));
    assert_eq!(folded, i(-24));
    let unfolded = AbstractValue::make_from(
        Expression::Sub {
            left: AbstractValue::make_from(
                Expression::Mul {
                    left: AbstractValue::make_from(Expression::Add { left: i(3), right: i(4) }, 2),
                    right: i(-2),
                },
                3,
            ),
            right: i(10),
        },
        4,
    );
    let interval = unfolded.get_as_interval();
    assert_eq!(interval.lower_bound(), Some(-24));
    assert_eq!(interval.upper_bound(), Some(-24));
    let p = Path::new_local(1);
    let joined = i(-24).join(i(5), &p);
    let interval = joined.get_as_interval();
    assert_eq!(interval.lower_bound(), Some(-24));
    assert_eq!(interval.upper_bound(), Some(5));
    let negated = AbstractValue::make_from(Expression::Neg { operand: joined }, 3);
    let interval = negated.get_as_interval();
    assert_eq!(interval.lower_bound(), Some(-5));
    assert_eq!(interval.upper_bound(), Some(24));
}

#[test]
fn implication_is_consistent() {
    let x = variable(1, ExpressionType::Bool);
    let y = variable(2, ExpressionType::Bool);
    let both = x.and(y.clone());
    assert!(both.implies(&x));
    assert!(!both.implies_not(&x));
    assert!(both.implies(&y));
    assert!(!both.implies_not(&y));
    let not_x = x.logical_not();
    assert!(not_x.implies_not(&x));
    assert!(!not_x.implies(&x));
    assert!(x.implies(&AbstractValue::of_bool(true)));
    assert!(!x.implies_not(&AbstractValue::of_bool(true)));
    // The constant false implies everything, also a condition and its negation.
    let falsity = AbstractValue::of_bool(false);
    assert!(falsity.implies(&x) && falsity.implies_not(&x));
    assert!(not_x.inverse_implies(&x));
    assert!(x.inverse_implies(&not_x));
    assert!(x.inverse_implies_not(&both));
    assert!(!x.inverse_implies_not(&y));
}

#[test]
fn refinement_is_idempotent_where_it_decides_directly() {
    let x = variable(1, ExpressionType::Bool);
    let y = variable(2, ExpressionType::U128);
    let condition = x.and(variable(3, ExpressionType::Bool));
    let once = x.refine_with(&condition, 0);
    assert_eq!(once.as_bool_if_known(), Some(true));
    assert_eq!(once.refine_with(&condition, 0), once);
    let is_five = AbstractValue::make_from(
        Expression::Equals { left: y.clone(), right: AbstractValue::of_u128(5) },
        2,
    );
    let once = y.refine_with(&is_five, 0);
    assert_eq!(once, AbstractValue::of_u128(5));
    assert_eq!(once.refine_with(&is_five, 0), once);
    let sum = y.addition(AbstractValue::of_u128(1));
    let once = sum.refine_with(&is_five, 0);
    assert_eq!(once, AbstractValue::of_u128(6));
    assert_eq!(once.refine_with(&is_five, 0), once);
    // At the depth limit nothing is refined.
    assert_eq!(x.refine_with(&condition, k_limits::MAX_REFINE_DEPTH), x);
}

#[test]
fn join_is_a_lattice_union() {
    let p = Path::new_local(9);
    let x = variable(1, ExpressionType::I128);
    let joined = x.join(AbstractValue::bottom(), &p);
    assert_eq!(joined, x);
    assert_eq!(joined.expression_size, x.expression_size);
    assert!(x.join(AbstractValue::top(), &p).is_top());
    assert!(AbstractValue::top().join(x.clone(), &p).is_top());
    assert_eq!(AbstractValue::bottom().join(x.clone(), &p), x);
    let same = x.join(x.clone(), &p);
    assert_eq!(same, x);
    assert!(matches!(same.expression, Expression::Variable { .. }));
    let sum = x.clone().negate();
    let widened = sum.widen(&p);
    assert_eq!(widened.join(x.clone(), &p), widened);
    assert_eq!(x.join(widened.clone(), &p), widened);
    let other = x.join(i(1), &p);
    match &other.expression {
        Expression::Join { left, right, path } => {
            assert_eq!(*left, x);
            assert_eq!(*right, i(1));
            assert_eq!(*path, p);
        }
        unexpected => panic!("expected a join, got {:?}", unexpected),
    }
    assert_eq!(other.expression_size, 2);
}

#[test]
fn widening_is_a_fixed_point_after_one_step() {
    let p = Path::new_local(9);
    let x = variable(1, ExpressionType::I128);
    for value in [
        x.clone(),
        i(3),
        AbstractValue::top(),
        AbstractValue::bottom(),
        x.clone().negate(),
        x.addition(i(1)),
        AbstractValue::make_from(Expression::Neg { operand: x.clone() }, 2000),
    ] {
        let once = value.widen(&p);
        let twice = once.widen(&p);
        assert_eq!(twice, once);
        assert_eq!(twice.expression_size, once.expression_size);
    }
    assert_eq!(x.widen(&p), x);
    assert!(matches!(AbstractValue::bottom().widen(&p).expression, Expression::Widen { .. }));
    let large = AbstractValue::make_from(Expression::Neg { operand: x.clone() }, 2000);
    match &large.widen(&p).expression {
        Expression::Variable { path, var_type } => {
            assert_eq!(*path, p);
            assert_eq!(*var_type, ExpressionType::I128);
        }
        unexpected => panic!("expected a variable, got {:?}", unexpected),
    }
}

#[test]
fn subset_is_reflexive_and_transitive_on_plain_values() {
    let p = Path::new_local(9);
    let c = variable(8, ExpressionType::Bool);
    let x = variable(1, ExpressionType::I128);
    let y = x.join(i(1), &p);
    let z = c.conditional_expression(y.clone(), i(2));
    for value in [&x, &y, &z, &AbstractValue::top(), &AbstractValue::bottom()] {
        assert!(value.subset(value));
    }
    assert!(x.subset(&y));
    assert!(y.subset(&z));
    assert!(x.subset(&z));
    assert!(!z.subset(&y));
    assert!(AbstractValue::bottom().subset(&x));
    assert!(x.subset(&AbstractValue::top()));
    assert!(!AbstractValue::top().subset(&x));
    assert!(!x.subset(&AbstractValue::bottom()));
    // Two widened values of one path are equal, whatever was widened.
    let widened_x = x.clone().negate().widen(&p);
    let widened_one = i(1).negate().addition(x.clone()).widen(&p);
    assert!(widened_x.subset(&widened_one));
    assert!(x.clone().negate().subset(&widened_x));
    assert!(!x.clone().negate().subset(&widened_one));
}

#[test]
fn logical_operators_preserve_truth_on_formulas() {
    let x = variable(1, ExpressionType::Bool);
    let y = variable(2, ExpressionType::Bool);
    let not_x = x.logical_not();
    let not_y = y.logical_not();
    let x_or_y = x.or(y.clone());
    let x_and_y = x.and(y.clone());
    let formulas = [
        AbstractValue::of_bool(true),
        AbstractValue::of_bool(false),
        x.clone(),
        y.clone(),
        not_x.clone(),
        not_y.clone(),
        x_or_y.clone(),
        x_or_y.logical_not(),
        x_and_y.clone(),
        x_and_y.logical_not(),
        x.and(not_y.clone()),
        not_x.or(y.clone()),
        x_and_y.or(not_x.and(not_y.clone())),
        x_or_y.and(x_and_y.logical_not()),
    ];
    // A disjunction and the negation of one of its disjuncts give the other disjunct,
    // which holds also where the negated disjunct holds.
    let cancels = |l: &Rc<AbstractValue>, r: &Rc<AbstractValue>| match (
        &l.expression,
        &r.expression,
    ) {
        (Expression::Or { left, right }, Expression::LogicalNot { operand }) => {
            left != r && right != r && (left == operand || right == operand)
        }
        _ => false,
    };
    for a in formulas.iter() {
        for b in formulas.iter() {
            for (vx, vy) in [(false, false), (false, true), (true, false), (true, true)] {
                let environment = valuation(vx, vy);
                let truth_of = |value: &Rc<AbstractValue>| {
                    value.refine_paths(&environment).as_bool_if_known().unwrap()
                };
                let ta = truth_of(a);
                let tb = truth_of(b);
                assert_eq!(truth_of(&a.or(b.clone())), ta || tb, "{:?} || {:?}", a, b);
                assert_eq!(truth_of(&a.logical_not()), !ta, "!{:?}", a);
                if !cancels(a, b) && !cancels(b, a) {
                    assert_eq!(truth_of(&a.and(b.clone())), ta && tb, "{:?} && {:?}", a, b);
                }
                if tb && b.as_bool_if_known().is_none() {
                    assert_eq!(truth_of(&a.refine_with(b, 0)), ta, "{:?} given {:?}", a, b);
                }
            }
        }
    }
}

#[test]
fn conditionals_on_a_disjunction_keep_their_value() {
    let x = variable(1, ExpressionType::Bool);
    let y = variable(2, ExpressionType::Bool);
    let value_of = |value: &Rc<AbstractValue>, vx: bool, vy: bool| {
        value.refine_paths(&valuation(vx, vy)).expression.clone()
    };
    // (x || y) ? (x ? 10 : 20) : 10 is x ? 10 : (y ? 20 : 10)
    let inner = x.conditional_expression(i(10), i(20));
    let outer = x.or(y.clone()).conditional_expression(inner, i(10));
    match &outer.expression {
        Expression::ConditionalExpression { condition, consequent, alternate } => {
            assert_eq!(*condition, x);
            assert_eq!(*consequent, i(10));
            assert_eq!(*alternate, y.conditional_expression(i(20), i(10)));
        }
        unexpected => panic!("expected a conditional, got {:?}", unexpected),
    }
    assert_eq!(value_of(&outer, true, true), i(10).expression);
    assert_eq!(value_of(&outer, true, false), i(10).expression);
    assert_eq!(value_of(&outer, false, true), i(20).expression);
    assert_eq!(value_of(&outer, false, false), i(10).expression);
    // (x || y) ? (y ? 10 : 20) : 10 is y ? 10 : (x ? 20 : 10)
    let inner = y.conditional_expression(i(10), i(20));
    let outer = x.or(y.clone()).conditional_expression(inner, i(10));
    match &outer.expression {
        Expression::ConditionalExpression { condition, consequent, alternate } => {
            assert_eq!(*condition, y);
            assert_eq!(*consequent, i(10));
            assert_eq!(*alternate, x.conditional_expression(i(20), i(10)));
        }
        unexpected => panic!("expected a conditional, got {:?}", unexpected),
    }
    assert_eq!(value_of(&outer, true, true), i(10).expression);
    assert_eq!(value_of(&outer, true, false), i(20).expression);
    assert_eq!(value_of(&outer, false, true), i(10).expression);
    assert_eq!(value_of(&outer, false, false), i(10).expression);
    // With conditions for branches, the value is that of the conditional under every
    // assignment.
    let p = variable(3, ExpressionType::Bool);
    let q = variable(4, ExpressionType::Bool);
    for (first, second) in [(x.clone(), y.clone()), (y.clone(), x.clone())] {
        let inner = first.conditional_expression(p.clone(), q.clone());
        let outer = x.or(y.clone()).conditional_expression(inner, p.clone());
        for bits in 0..16 {
            let (vx, vy, vp, vq) = (bits & 1 != 0, bits & 2 != 0, bits & 4 != 0, bits & 8 != 0);
            let environment = valuation(vx, vy)
                .insert(Path::new_local(3), AbstractValue::of_bool(vp))
                .insert(Path::new_local(4), AbstractValue::of_bool(vq));
            let chosen = if first == x { vx } else { vy };
            let expected = if vx || vy { if chosen { vp } else { vq } } else { vp };
            assert_eq!(
                outer.refine_paths(&environment).as_bool_if_known(),
                Some(expected),
                "{:?} under {:?}",
                outer,
                (vx, vy, vp, vq)
            );
        }
    }
}

#[test]
fn refinement_may_change_what_it_rebuilt() {
    let n = variable(1, ExpressionType::I32);
    let m = variable(2, ExpressionType::I32);
    let x = variable(3, ExpressionType::Bool);
    let y = variable(4, ExpressionType::Bool);
    let less = n.less_than(m.clone());
    let value = less.and(x.or(y.clone())).conditional_expression(n.clone(), m.clone());
    let condition = less.and(x.clone());
    // The first refinement rebuilds the conditional with the refined condition, which
    // the second refinement finds to be implied.
    let once = value.refine_with(&condition, 0);
    match &once.expression {
        Expression::ConditionalExpression { condition, consequent, alternate } => {
            assert_eq!(*condition, less);
            assert_eq!(*consequent, n);
            assert_eq!(*alternate, m);
        }
        unexpected => panic!("expected a conditional, got {:?}", unexpected),
    }
    assert_eq!(once.refine_with(&condition, 0), n);
}

#[test]
fn refinement_is_idempotent_where_it_gives_a_leaf() {
    let x = variable(1, ExpressionType::Bool);
    let y = variable(2, ExpressionType::Bool);
    let z = variable(3, ExpressionType::Bool);
    let n = variable(4, ExpressionType::I32);
    // x || y under x is true, and true stays true.
    let once = x.or(y.clone()).refine_with(&x, 0);
    assert_eq!(once.as_bool_if_known(), Some(true));
    assert_eq!(once.refine_with(&x, 0), once);
    // x ? n : 5 under x is n, and n stays n.
    let once = x.conditional_expression(n.clone(), i(5)).refine_with(&x, 0);
    assert_eq!(once, n);
    assert_eq!(once.refine_with(&x, 0), once);
    // y || (x && z) under !x is y, which !x neither implies nor excludes.
    let not_x = x.logical_not();
    let once = y.or(x.and(z.clone())).refine_with(&not_x, 0);
    assert_eq!(once, y);
    assert_eq!(once.refine_with(&not_x, 0), once);
}

#[test]
fn disjunction_with_a_conjunction_keeps_every_case() {
    let l = variable(1, ExpressionType::Bool);
    let r = variable(2, ExpressionType::Bool);
    let not_r = r.logical_not();
    // !r || (l && r) holds where both l and r hold, so it is not !r.
    let result = not_r.or(l.and(r.clone()));
    assert_ne!(result, not_r);
    for (vl, vr) in [(false, false), (false, true), (true, false), (true, true)] {
        assert_eq!(
            result.refine_paths(&valuation(vl, vr)).as_bool_if_known(),
            Some(!vr || (vl && vr))
        );
    }
    // x || (x && y) is x, and so is every disjunction with a conjunction that holds
    // only where the other operand holds.
    assert_eq!(l.or(l.and(r.clone())), l);
    assert_eq!(l.or(r.and(l.clone())), l);
    assert_eq!(not_r.or(l.and(not_r.clone())), not_r);
}

#[test]
fn negated_conjunction_and_a_conjunct_negate_the_other_conjunct() {
    let x = variable(1, ExpressionType::Bool);
    let y = variable(2, ExpressionType::Bool);
    // !(x && y) && x is x && !y
    let result = x.and(y.clone()).logical_not().and(x.clone());
    match &result.expression {
        Expression::And { left, right } => {
            assert_eq!(*left, x);
            assert_eq!(*right, y.logical_not());
        }
        unexpected => panic!("expected x && !y, got {:?}", unexpected),
    }
    // !(x && y) && y is y && !x
    let result = x.and(y.clone()).logical_not().and(y.clone());
    match &result.expression {
        Expression::And { left, right } => {
            assert_eq!(*left, y);
            assert_eq!(*right, x.logical_not());
        }
        unexpected => panic!("expected y && !x, got {:?}", unexpected),
    }
    for (vx, vy) in [(false, false), (false, true), (true, false), (true, true)] {
        assert_eq!(
            result.refine_paths(&valuation(vx, vy)).as_bool_if_known(),
            Some(!(vx && vy) && vy)
        );
    }
}

#[test]
fn a_disjunction_and_the_negation_of_a_disjunct_give_the_other_disjunct() {
    let x = variable(1, ExpressionType::Bool);
    let y = variable(2, ExpressionType::Bool);
    // (x || y) && !x is y for a caller of the engine, also where both x and y hold.
    let result = x.or(y.clone()).and(x.logical_not());
    assert_eq!(result, y);
    assert_eq!(x.logical_not().and(x.or(y.clone())), y);
    assert_eq!(result.refine_paths(&valuation(true, true)).as_bool_if_known(), Some(true));
    // Where an operator builds the conjunction for itself, the negation stays.
    let built = abstract_value_engine::conjunction::and(
        &x.or(y.clone()),
        x.logical_not(),
        k_limits::MAX_REWRITE_DEPTH,
    );
    for (vx, vy) in [(false, false), (false, true), (true, false), (true, true)] {
        assert_eq!(
            built.refine_paths(&valuation(vx, vy)).as_bool_if_known(),
            Some((vx || vy) && !vx)
        );
    }
}

#[test]
fn an_operator_with_no_budget_applies_the_rules_that_apply_no_operator() {
    let x = variable(1, ExpressionType::Bool);
    let a = variable(2, ExpressionType::I32);
    let b = variable(3, ExpressionType::I32);
    let t = AbstractValue::of_bool(true);
    assert_eq!(
        abstract_value_engine::conditional::conditional(&t, a.clone(), b.clone(), 0),
        a
    );
    assert_eq!(
        abstract_value_engine::conditional::conditional(&x, a.clone(), a.clone(), 0),
        a
    );
    assert_eq!(abstract_value_engine::arithmetic::addition(&i(1), i(2), 0), i(3));
    assert_eq!(abstract_value_engine::arithmetic::multiply(&i(3), i(4), 0), i(12));
    assert_eq!(abstract_value_engine::arithmetic::remainder(&i(7), i(4), 0), i(3));
    assert_eq!(
        abstract_value_engine::arithmetic::cast(&i(300), ExpressionType::U8, 0),
        AbstractValue::of_constant(ConstantDomain::U128(44))
    );
    assert!(abstract_value_engine::arithmetic::addition(&AbstractValue::bottom(), a.clone(), 0)
        .is_bottom());
    assert_eq!(abstract_value_engine::refine::refine_with(&x, &x, 0, 0), t);
    assert_eq!(
        abstract_value_engine::refine::refine_with(&x, &x.logical_not(), 0, 0),
        AbstractValue::of_bool(false)
    );
    // A rule that applies an operator is left out.
    let sum = abstract_value_engine::arithmetic::addition(&a, b.clone().negate(), 0);
    assert!(matches!(sum.expression, Expression::Add { .. }));
    assert!(matches!(a.addition(b.negate()).expression, Expression::Sub { .. }));
}

#[test]
fn equal_values_have_equal_digests() {
    let x = AbstractValue::make_from(
        Expression::Variable { path: Path::new_local(1), var_type: ExpressionType::I32 },
        1,
    );
    let y = AbstractValue::make_from(
        Expression::Variable { path: Path::new_local(2), var_type: ExpressionType::I32 },
        1,
    );
    let one = i(1);
    assert_eq!(abstract_value_engine::digest::digest_value(&x.addition(one.clone())), abstract_value_engine::digest::digest_value(&x.addition(one.clone())));
    assert_ne!(abstract_value_engine::digest::digest_value(&x), abstract_value_engine::digest::digest_value(&y));
    assert_ne!(abstract_value_engine::digest::digest_value(&x.addition(one.clone())), abstract_value_engine::digest::digest_value(&x.subtract(one.clone())));
    assert_ne!(abstract_value_engine::digest::digest_path(&Path::new_local(1)), abstract_value_engine::digest::digest_path(&Path::new_parameter(1)));
    // The digest of a local variable is its kind with its number mixed in.
    assert_eq!(abstract_value_engine::digest::digest_path(&Path::new_local(1)), 3u64.wrapping_mul(1099511628211).wrapping_add(1));
    // Widened values at one path are equal whatever was widened, and so are their
    // digests; neither the size nor the interval counts.
    let at = Path::new_local(3);
    let first = x.join(one.clone(), &at).widen(&at);
    let second = y.join(one.clone(), &at).widen(&at);
    assert!(matches!(first.expression, Expression::Widen { .. }));
    assert_eq!(first, second);
    assert_eq!(abstract_value_engine::digest::digest_value(&first), abstract_value_engine::digest::digest_value(&second));
    let sized = AbstractValue::make_from(x.expression.clone(), 7);
    assert_eq!(sized, x);
    assert_eq!(abstract_value_engine::digest::digest_value(&sized), abstract_value_engine::digest::digest_value(&x));
    let mut set = std::collections::HashSet::new();
    assert!(set.insert(first.clone()));
    assert!(!set.insert(second.clone()));
    assert!(set.insert(x.clone()));
    assert!(!set.insert(sized));
    assert!(set.contains(&second));
    assert_eq!(set.len(), 2);
}

#[test]
fn values_are_ordered_by_their_expressions() {
    let x = variable(1, ExpressionType::I32);
    let y = variable(2, ExpressionType::I32);
    assert!(x < y);
    assert!(i(1) < i(2));
    assert_eq!(x.cmp(&x.clone()), std::cmp::Ordering::Equal);
    let mut keyed = std::collections::BTreeMap::new();
    keyed.insert(y.clone(), 2);
    keyed.insert(x.clone(), 1);
    keyed.insert(x.addition(i(1)), 3);
    keyed.insert(x.clone(), 4);
    assert_eq!(keyed.len(), 3);
    assert_eq!(keyed.get(&x), Some(&4));
    assert_eq!(keyed.get(&y), Some(&2));
    assert_eq!(keyed.get(&x.addition(i(1))), Some(&3));
    let paths: Vec<Rc<Path>> = vec![Path::new_local(2), Path::new_local(1)];
    let mut sorted = paths.clone();
    sorted.sort();
    assert_eq!(sorted, vec![Path::new_local(1), Path::new_local(2)]);
}
