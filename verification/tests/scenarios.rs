use abstract_value_engine::abstract_value::{AbstractValue, AbstractValueTrait};
use abstract_value_engine::constant_domain::ConstantDomain;
use abstract_value_engine::environment::Environment;
use abstract_value_engine::expression::{Expression, ExpressionType};
use abstract_value_engine::interval_domain::IntervalDomain;
use abstract_value_engine::path::Path;
use std::rc::Rc;

fn variable(ordinal: usize, var_type: ExpressionType) -> Rc<AbstractValue> {
    AbstractValue::make_from(
        Expression::Variable { path: Path::new_local(ordinal), var_type },
        1,
    )
}

fn u(v: u128) -> Rc<AbstractValue> {
    AbstractValue::of_u128(v)
}

#[test]
fn addition_of_constants_is_associated_and_folded() {
    let x = variable(1, ExpressionType::U128);
    let sum = x.addition(u(3)).addition(u(5));
    match &sum.expression {
        Expression::Add { left, right } => {
            assert_eq!(*left, x);
            assert_eq!(*right, u(8));
        }
        other => panic!("expected x + 8, got {:?}", other),
    }
    assert_eq!(sum.expression_size, x.expression_size + 1);
}

#[test]
fn boolean_equal_to_zero_is_its_negation() {
    let x = variable(1, ExpressionType::Bool);
    let result = x.equals(u(0));
    match &result.expression {
        Expression::LogicalNot { operand } => assert_eq!(*operand, x),
        other => panic!("expected !x, got {:?}", other),
    }
    assert_eq!(x.equals(u(1)), x);
}

#[test]
fn conditional_of_constants_equal_to_its_consequent_is_the_condition() {
    let c = variable(1, ExpressionType::Bool);
    let conditional = c.conditional_expression(u(7), u(9));
    assert!(matches!(conditional.expression, Expression::ConditionalExpression { .. }));
    assert_eq!(conditional.equals(u(7)), c);
    assert_eq!(conditional.equals(u(9)), c.logical_not());
    assert_eq!(u(7).equals(conditional.clone()), c);
}

#[test]
fn condition_and_its_negation_is_false() {
    let x = variable(1, ExpressionType::Bool);
    assert_eq!(x.and(x.logical_not()).as_bool_if_known(), Some(false));
    assert_eq!(x.logical_not().and(x.clone()).as_bool_if_known(), Some(false));
}

#[test]
fn disjunction_and_negated_disjunct_is_the_other_disjunct() {
    let x = variable(1, ExpressionType::Bool);
    let y = variable(2, ExpressionType::Bool);
    let disjunction = x.or(y.clone());
    assert!(matches!(disjunction.expression, Expression::Or { .. }));
    assert_eq!(disjunction.and(x.logical_not()), y);
    assert_eq!(disjunction.and(y.logical_not()), x);
    assert_eq!(x.logical_not().and(disjunction.clone()), y);
}

#[test]
fn division_cancels_a_divisible_constant_factor() {
    let y = variable(1, ExpressionType::U128);
    let product = u(0xFF00).multiply(y.clone()).cast(ExpressionType::U128);
    let quotient = product.divide(u(0xFF));
    match &quotient.expression {
        Expression::Mul { left, right } => {
            assert_eq!(*left, u(256));
            assert_eq!(*right, y);
        }
        other => panic!("expected 256 * y, got {:?}", other),
    }
    assert_eq!(u(0xFF00).multiply(y.clone()).divide(u(0xFF)), u(256).multiply(y.clone()));
    // A factor that is no multiple of the divisor stays.
    let quotient = u(0xFF01).multiply(y.clone()).divide(u(0xFF));
    assert!(matches!(quotient.expression, Expression::Div { .. }));
}

#[test]
fn division_cancels_a_divisible_constant_factor_under_a_cast() {
    let y = variable(1, ExpressionType::U64);
    let product = y.multiply(u(0xFF00));
    assert!(matches!(product.expression, Expression::Mul { .. }));
    let cast = product.cast(ExpressionType::U128);
    assert!(matches!(cast.expression, Expression::Cast { .. }));
    // ((y * 0xFF00) as u128) / 0xFF00 is y as u128
    match &cast.divide(u(0xFF00)).expression {
        Expression::Cast { operand, target_type } => {
            assert_eq!(*operand, y);
            assert_eq!(*target_type, ExpressionType::U128);
        }
        other => panic!("expected y as u128, got {:?}", other),
    }
    // ((0xFF00 * y) as u64) / 0xFF is (256 * y) as u64
    let swapped = u(0xFF00).multiply(y.clone()).cast(ExpressionType::U64);
    assert!(matches!(swapped.expression, Expression::Cast { .. }));
    match &swapped.divide(u(0xFF)).expression {
        Expression::Cast { operand, target_type } => {
            assert_eq!(*operand, u(256).multiply(y.clone()));
            assert_eq!(*target_type, ExpressionType::U64);
        }
        other => panic!("expected (256 * y) as u64, got {:?}", other),
    }
}

#[test]
fn sum_of_small_intervals_does_not_overflow() {
    let bounded = |ordinal: usize| {
        Rc::new(AbstractValue {
            expression: Expression::Variable {
                path: Path::new_local(ordinal),
                var_type: ExpressionType::U8,
            },
            expression_size: 1,
            interval: Some(IntervalDomain { lower_bound: 0, upper_bound: 100 }),
        })
    };
    let x = bounded(1);
    let y = bounded(2);
    assert_eq!(x.add_overflows(y.clone(), ExpressionType::U8).as_bool_if_known(), Some(false));
    // 100 * 100 does not fit eight bits, so nothing is decided.
    assert_eq!(x.mul_overflows(y.clone(), ExpressionType::U8).as_bool_if_known(), None);
    assert_eq!(x.mul_overflows(y, ExpressionType::U16).as_bool_if_known(), Some(false));
}

#[test]
fn refinement_with_an_environment_substitutes_and_folds() {
    let p = Path::new_local(1);
    let environment = Environment::new().insert(p.clone(), u(42));
    let x = AbstractValue::make_from(
        Expression::Variable { path: p, var_type: ExpressionType::U128 },
        1,
    );
    assert_eq!(x.refine_paths(&environment), u(42));
    let sum = x.addition(u(1));
    assert!(matches!(sum.expression, Expression::Add { .. }));
    assert_eq!(sum.refine_paths(&environment), u(43));
}

#[test]
fn widening_drops_the_bound_that_grows() {
    let p = Path::new_local(1);
    let zero = AbstractValue::of_constant(ConstantDomain::I128(0));
    let one = zero.addition(AbstractValue::of_constant(ConstantDomain::I128(1)));
    let joined = zero.join(one, &p);
    assert!(matches!(joined.expression, Expression::Join { .. }));
    let widened = joined.widen(&p);
    assert!(matches!(widened.expression, Expression::Widen { .. }));
    assert_eq!(widened.expression_size, 3);
    let interval = widened.get_as_interval();
    assert_eq!(interval.lower_bound(), Some(0));
    assert_eq!(interval.upper_bound(), None);
    let again = widened.widen(&p);
    assert_eq!(again, widened);
    assert_eq!(again.expression_size, widened.expression_size);
    let interval_again = again.get_cached_interval();
    assert_eq!(*interval_again, interval);
}
