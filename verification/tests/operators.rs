use abstract_value_engine::abstract_value::{AbstractValue, AbstractValueTrait};
use abstract_value_engine::arithmetic::ArithmeticOperator;
use abstract_value_engine::constant_domain::ConstantDomain;
use abstract_value_engine::expression::{Expression, ExpressionType, LayoutSource};
use abstract_value_engine::interval_domain::IntervalDomain;
use abstract_value_engine::k_limits;
use abstract_value_engine::known_names::KnownNames;
use abstract_value_engine::path::Path;
use std::rc::Rc;

fn variable(ordinal: usize, var_type: ExpressionType) -> Rc<AbstractValue> {
    AbstractValue::make_from(
        Expression::Variable { path: Path::new_local(ordinal), var_type },
        1,
    )
}

fn i(v: i128) -> Rc<AbstractValue> {
    AbstractValue::of_constant(ConstantDomain::I128(v))
}

fn u(v: u128) -> Rc<AbstractValue> {
    AbstractValue::of_u128(v)
}

fn bounded(ordinal: usize, lower_bound: i128, upper_bound: i128) -> Rc<AbstractValue> {
    Rc::new(AbstractValue {
        expression: Expression::Variable {
            path: Path::new_local(ordinal),
            var_type: ExpressionType::I128,
        },
        expression_size: 1,
        interval: Some(IntervalDomain { lower_bound, upper_bound }),
    })
}

#[test]
fn constructors_build_constants() {
    assert_eq!(AbstractValue::of_bool(true).as_bool_if_known(), Some(true));
    assert_eq!(AbstractValue::of_bool(false).as_bool_if_known(), Some(false));
    assert!(AbstractValue::of_constant(ConstantDomain::Bottom).is_bottom());
    assert!(AbstractValue::bottom().is_bottom() && !AbstractValue::bottom().is_top());
    assert!(AbstractValue::top().is_top() && !AbstractValue::top().is_bottom());
    assert_eq!(AbstractValue::from(true), *AbstractValue::of_bool(true));
    assert_eq!(AbstractValue::from(5u128), *u(5));
    assert_eq!(AbstractValue::from(ConstantDomain::I128(5)), *i(5));
    assert!(matches!(AbstractValue::from(ConstantDomain::Bottom).expression, Expression::Bottom));
    assert_eq!(u(5).expression_size, 1);
    assert_eq!(AbstractValue::of_bool(true).as_int_if_known(), Some(u(1)));
    assert_eq!(AbstractValue::of_bool(false).as_int_if_known(), Some(u(0)));
    assert_eq!(u(1).as_int_if_known(), None);
}

#[test]
fn unknown_values_are_variables_at_an_alias_of_the_unknown() {
    let unknown = AbstractValue::make_typed_unknown(ExpressionType::U16);
    assert_eq!(unknown.expression_size, 1);
    match &unknown.expression {
        Expression::Variable { path, var_type } => {
            assert_eq!(*var_type, ExpressionType::U16);
            assert_eq!(*path, Path::new_alias(AbstractValue::top()));
        }
        unexpected => panic!("expected a variable, got {:?}", unexpected),
    }
    assert_eq!(unknown.expression.infer_type(), ExpressionType::U16);
}

#[test]
fn references_to_offsets_are_the_addresses() {
    let address = variable(1, ExpressionType::Reference).offset(i(4));
    assert!(matches!(address.expression, Expression::Offset { .. }));
    assert_eq!(AbstractValue::make_reference(Path::new_offset(address.clone())), address);
    let field = Path::new_field(Path::new_local(1), 2);
    let reference = AbstractValue::make_reference(field.clone());
    assert_eq!(reference.expression_size, 2);
    match &reference.expression {
        Expression::Reference(path) => assert_eq!(*path, field),
        unexpected => panic!("expected a reference, got {:?}", unexpected),
    }
}

#[test]
fn identities_and_absorbers_of_arithmetic() {
    let x = variable(1, ExpressionType::I128);
    assert_eq!(x.addition(i(0)), x);
    assert_eq!(i(0).addition(x.clone()), x);
    assert_eq!(x.addition(u(0)), x);
    assert_eq!(x.multiply(i(1)), x);
    assert_eq!(i(1).multiply(x.clone()), x);
    assert_eq!(x.multiply(i(0)), i(0));
    assert_eq!(i(0).multiply(x.clone()), i(0));
    assert_eq!(x.subtract(i(0)), x);
    assert_eq!(i(0).subtract(x.clone()), x.clone().negate());
}

#[test]
fn negations_fuse_with_sums_and_differences() {
    let x = variable(1, ExpressionType::I128);
    let y = variable(2, ExpressionType::I128);
    let minus_y = y.clone().negate();
    assert!(matches!(minus_y.expression, Expression::Neg { .. }));
    match &x.addition(minus_y.clone()).expression {
        Expression::Sub { left, right } => {
            assert_eq!(*left, x);
            assert_eq!(*right, y);
        }
        unexpected => panic!("expected x - y, got {:?}", unexpected),
    }
    match &x.subtract(minus_y).expression {
        Expression::Add { left, right } => {
            assert_eq!(*left, x);
            assert_eq!(*right, y);
        }
        unexpected => panic!("expected x + y, got {:?}", unexpected),
    }
    assert_eq!(i(5).negate(), i(-5));
}

#[test]
fn constants_are_folded_unless_folding_is_not_defined() {
    assert_eq!(i(3).addition(i(4)), i(7));
    assert_eq!(i(3).subtract(i(4)), i(-1));
    assert_eq!(u(3).multiply(u(4)), u(12));
    assert_eq!(u(12).divide(u(4)), u(3));
    assert_eq!(u(13).remainder(u(4)), u(1));
    assert!(matches!(u(13).divide(u(0)).expression, Expression::Div { .. }));
    assert!(matches!(u(13).remainder(u(0)).expression, Expression::Rem { .. }));
    assert!(matches!(i(3).addition(u(4)).expression, Expression::Add { .. }));
    assert_eq!(u(12).bit_and(u(10)), u(8));
    assert_eq!(u(12).bit_or(u(10)), u(14));
    assert_eq!(u(12).bit_xor(u(10)), u(6));
    assert_eq!(u(0xF0).bit_not(ExpressionType::U8), u(0x0F));
    assert_eq!(u(1).shift_left(u(3)), u(8));
    assert_eq!(u(8).shr(u(3), ExpressionType::U8), u(1));
    assert_eq!(u(300).cast(ExpressionType::U8), u(44));
    assert_eq!(AbstractValue::of_bool(true).logical_not(), AbstractValue::of_bool(false));
    assert_eq!(i(3).equals(i(3)).as_bool_if_known(), Some(true));
    assert_eq!(i(3).not_equals(i(3)).as_bool_if_known(), Some(false));
    assert_eq!(i(3).less_than(i(4)).as_bool_if_known(), Some(true));
    assert_eq!(i(3).greater_or_equal(i(4)).as_bool_if_known(), Some(false));
    assert!(i(3).less_than(u(4)).is_bottom());
}

#[test]
fn multiplication_and_division_cancel() {
    let x = variable(1, ExpressionType::U128);
    let y = variable(2, ExpressionType::U128);
    let product = x.multiply(y.clone());
    assert_eq!(product.divide(x.clone()), y);
    assert_eq!(product.divide(y.clone()), x);
    let quotient = x.divide(u(12));
    match &quotient.multiply(u(4)).expression {
        Expression::Div { left, right } => {
            assert_eq!(*left, x);
            assert_eq!(*right, u(3));
        }
        unexpected => panic!("expected x / 3, got {:?}", unexpected),
    }
    assert!(matches!(quotient.multiply(u(5)).expression, Expression::Mul { .. }));
}

#[test]
fn casts_fuse() {
    let x = variable(1, ExpressionType::U64);
    let wide = x.cast(ExpressionType::U32);
    assert!(matches!(wide.expression, Expression::Cast { .. }));
    assert_eq!(wide.expression_size, 2);
    match &wide.cast(ExpressionType::U8).expression {
        Expression::Cast { operand, target_type } => {
            assert_eq!(*operand, x);
            assert_eq!(*target_type, ExpressionType::U8);
        }
        unexpected => panic!("expected x as u8, got {:?}", unexpected),
    }
    // A cast to a wider sort is kept.
    let narrow = x.cast(ExpressionType::U8);
    match &narrow.cast(ExpressionType::U32).expression {
        Expression::Cast { operand, .. } => assert_eq!(*operand, narrow),
        unexpected => panic!("expected (x as u8) as u32, got {:?}", unexpected),
    }
    assert_eq!(x.cast(ExpressionType::U64), x);
    let modulo = x.remainder(u(256));
    match &modulo.cast(ExpressionType::U8).expression {
        Expression::Cast { operand, .. } => assert_eq!(*operand, x),
        unexpected => panic!("expected x as u8, got {:?}", unexpected),
    }
    assert!(AbstractValue::bottom().cast(ExpressionType::U8).is_bottom());
    // A cast to a signed sort fuses with a cast to an unsigned sort that is not wider.
    let z = variable(2, ExpressionType::I128);
    let signed = z.cast(ExpressionType::I64);
    assert!(matches!(signed.expression, Expression::Cast { .. }));
    match &signed.cast(ExpressionType::U8).expression {
        Expression::Cast { operand, target_type } => {
            assert_eq!(*operand, z);
            assert_eq!(*target_type, ExpressionType::U8);
        }
        unexpected => panic!("expected z as u8, got {:?}", unexpected),
    }
    // A cast to a signed sort stays, and so does a narrower first cast.
    match &signed.cast(ExpressionType::I8).expression {
        Expression::Cast { operand, .. } => assert_eq!(*operand, signed),
        unexpected => panic!("expected (z as i64) as i8, got {:?}", unexpected),
    }
    let small = z.cast(ExpressionType::I8);
    match &small.cast(ExpressionType::U8).expression {
        Expression::Cast { operand, .. } => assert_eq!(*operand, small),
        unexpected => panic!("expected (z as i8) as u8, got {:?}", unexpected),
    }
}

#[test]
fn remainder_looks_through_casts() {
    let x = variable(1, ExpressionType::U64);
    let narrow = x.cast(ExpressionType::U8);
    match &narrow.remainder(u(16)).expression {
        Expression::Rem { left, right } => {
            assert_eq!(*left, x);
            assert_eq!(*right, u(16));
        }
        unexpected => panic!("expected x % 16, got {:?}", unexpected),
    }
    match &narrow.remainder(u(15)).expression {
        Expression::Rem { left, .. } => assert_eq!(*left, narrow),
        unexpected => panic!("expected (x as u8) % 15, got {:?}", unexpected),
    }
    match &narrow.remainder(u(512)).expression {
        Expression::Rem { left, .. } => assert_eq!(*left, narrow),
        unexpected => panic!("expected (x as u8) % 512, got {:?}", unexpected),
    }
}

#[test]
fn arithmetic_distributes_over_conditionals_and_joins() {
    let c = variable(9, ExpressionType::Bool);
    let x = variable(1, ExpressionType::I128);
    let conditional = c.conditional_expression(i(1), i(2));
    match &conditional.addition(i(10)).expression {
        Expression::ConditionalExpression { condition, consequent, alternate } => {
            assert_eq!(*condition, c);
            assert_eq!(*consequent, i(11));
            assert_eq!(*alternate, i(12));
        }
        unexpected => panic!("expected c ? 11 : 12, got {:?}", unexpected),
    }
    match &i(10).multiply(conditional.clone()).expression {
        Expression::ConditionalExpression { consequent, alternate, .. } => {
            assert_eq!(*consequent, i(10));
            assert_eq!(*alternate, i(20));
        }
        unexpected => panic!("expected c ? 10 : 20, got {:?}", unexpected),
    }
    let p = Path::new_local(7);
    let joined = i(1).join(x.clone(), &p);
    match &joined.addition(i(10)).expression {
        Expression::Join { left, right, path } => {
            // The left branch is built as it stands, the right branch is simplified.
            assert!(matches!(left.expression, Expression::Add { .. }));
            assert!(matches!(right.expression, Expression::Add { .. }));
            assert_eq!(*path, p);
        }
        unexpected => panic!("expected a join, got {:?}", unexpected),
    }
    let widened = x.clone().negate().widen(&p);
    assert_eq!(widened.addition(i(1)), widened);
    assert_eq!(i(1).subtract(widened.clone()), widened);
    assert_eq!(
        widened.try_to_distribute_binary_op(i(1), ArithmeticOperator::Mul),
        widened
    );
    assert_eq!(i(6).try_to_simplify_binary_op(i(7), ArithmeticOperator::Mul), i(42));
}

#[test]
fn the_unknown_and_the_impossible_value_absorb_in_expressions() {
    let x = variable(1, ExpressionType::I128);
    assert!(x.addition(AbstractValue::top()).is_top());
    assert!(AbstractValue::top().addition(x.clone()).is_top());
    assert!(x.bit_or(AbstractValue::top()).is_top());
    assert!(x.less_than(AbstractValue::bottom()).is_bottom());
    assert!(x.equals(AbstractValue::top()).is_top());
}

#[test]
fn logical_identities_and_absorbers() {
    let x = variable(1, ExpressionType::Bool);
    let t = AbstractValue::of_bool(true);
    let f = AbstractValue::of_bool(false);
    assert_eq!(x.and(t.clone()), x);
    assert_eq!(t.and(x.clone()), x);
    assert_eq!(x.and(f.clone()), f);
    assert_eq!(f.and(x.clone()), f);
    assert_eq!(x.or(f.clone()), x);
    assert_eq!(f.or(x.clone()), x);
    assert_eq!(x.or(t.clone()), t);
    assert_eq!(t.or(x.clone()), t);
    assert!(AbstractValue::bottom().and(x.clone()).is_bottom());
    assert!(x.and(AbstractValue::bottom()).is_bottom());
    assert_eq!(AbstractValue::bottom().and(f.clone()), f);
    assert!(x.or(AbstractValue::top()).is_top());
    assert!(AbstractValue::top().or(x.clone()).is_top());
    assert!(x.or(AbstractValue::bottom()).is_bottom());
    assert_eq!(AbstractValue::top().or(t.clone()), t);
    assert_eq!(x.or(x.clone()), x);
    assert_eq!(x.bit_and(f.clone()), f);
    assert_eq!(u(0).bit_and(x.clone()), u(0));
}

#[test]
fn negation_is_an_involution_and_flips_comparisons() {
    let b = variable(1, ExpressionType::Bool);
    let not_b = b.logical_not();
    assert!(matches!(not_b.expression, Expression::LogicalNot { .. }));
    assert_eq!(not_b.expression_size, 2);
    assert_eq!(not_b.logical_not(), b);
    assert!(AbstractValue::bottom().logical_not().is_bottom());
    let x = variable(2, ExpressionType::I32);
    let y = variable(3, ExpressionType::I32);
    assert!(matches!(x.equals(y.clone()).logical_not().expression, Expression::Ne { .. }));
    assert!(matches!(x.not_equals(y.clone()).logical_not().expression, Expression::Equals { .. }));
    assert!(matches!(x.less_than(y.clone()).logical_not().expression, Expression::GreaterOrEqual { .. }));
    assert!(matches!(x.less_or_equal(y.clone()).logical_not().expression, Expression::GreaterThan { .. }));
    assert!(matches!(x.greater_than(y.clone()).logical_not().expression, Expression::LessOrEqual { .. }));
    assert!(matches!(x.greater_or_equal(y.clone()).logical_not().expression, Expression::LessThan { .. }));
    // Comparisons of floating point numbers are not flipped: a NaN is neither less
    // than nor at least any number.
    let p = variable(4, ExpressionType::F64);
    let q = variable(5, ExpressionType::F64);
    assert!(matches!(p.less_than(q).logical_not().expression, Expression::LogicalNot { .. }));
}

#[test]
fn conjunctions_and_disjunctions_are_simplified() {
    let x = variable(1, ExpressionType::Bool);
    let y = variable(2, ExpressionType::Bool);
    let z = variable(3, ExpressionType::Bool);
    let x_and_y = x.and(y.clone());
    let x_or_y = x.or(y.clone());
    assert!(matches!(x_and_y.expression, Expression::And { .. }));
    assert_eq!(x_and_y.expression_size, 2);
    // De Morgan
    match &x.logical_not().and(y.logical_not()).expression {
        Expression::LogicalNot { operand } => assert_eq!(*operand, x_or_y),
        unexpected => panic!("expected !(x || y), got {:?}", unexpected),
    }
    // complementation
    assert_eq!(x.or(x.logical_not()).as_bool_if_known(), Some(true));
    assert_eq!(x.logical_not().or(x.clone()).as_bool_if_known(), Some(true));
    assert_eq!(x_or_y.or(x.logical_not()).as_bool_if_known(), Some(true));
    // absorption
    assert_eq!(x_or_y.and(x.clone()), x);
    assert_eq!(x.and(x_or_y.clone()), x);
    assert_eq!(x_and_y.or(x.clone()), x);
    assert_eq!(x.or(x_and_y.clone()), x);
    assert_eq!(x_and_y.and(y.clone()), x_and_y);
    assert_eq!(x_or_y.or(y.clone()), x_or_y);
    assert_eq!(y.or(x_or_y.clone()), x_or_y);
    assert_eq!(x_and_y.logical_not().and(x.clone()), x.and(y.logical_not()));
    // distribution
    let x_and_z = x.and(z.clone());
    assert_eq!(x_and_y.or(x_and_z.clone()), x.and(y.or(z.clone())));
    assert_eq!(x_and_y.or(z.and(y.clone())), x.or(z.clone()).and(y.clone()));
    assert_eq!(x_and_y.or(x.and(y.logical_not())), x);
    assert_eq!(x.or(x_or_y.logical_not()), x.or(y.logical_not()));
    assert_eq!(x.and(y.logical_not()).or(y.clone()), y.or(x.clone()));
}

#[test]
fn conjunction_refines_its_right_operand_with_its_left() {
    let x = variable(1, ExpressionType::Bool);
    let y = variable(2, ExpressionType::Bool);
    let z = variable(3, ExpressionType::Bool);
    // Under x && y the disjunction x || z is true, and the conjunction with true is
    // its other operand.
    let both = x.and(y.clone());
    assert_eq!(both.and(x.or(z.clone())), both);
    // Under x && y the negation of x || z is false, and so is the conjunction.
    assert_eq!(both.and(x.or(z.clone()).logical_not()).as_bool_if_known(), Some(false));
    // Under x the disjunction y || z stays, and so does the conjunction.
    match &x.and(y.or(z.clone())).expression {
        Expression::And { left, right } => {
            assert_eq!(*left, x);
            assert_eq!(*right, y.or(z));
        }
        unexpected => panic!("expected x && (y || z), got {:?}", unexpected),
    }
}

#[test]
fn equality_simplifies() {
    let x = variable(1, ExpressionType::I32);
    let f = variable(2, ExpressionType::F32);
    let b = variable(3, ExpressionType::Bool);
    assert_eq!(x.equals(x.clone()).as_bool_if_known(), Some(true));
    assert!(matches!(f.equals(f.clone()).expression, Expression::Equals { .. }));
    let sum = x.addition(i(1));
    assert_eq!(sum.equals(sum.clone()).as_bool_if_known(), Some(true));
    assert_eq!(b.logical_not().equals(u(0)), b);
    assert!(matches!(x.equals(u(0)).expression, Expression::Equals { .. }));
    let c = variable(4, ExpressionType::Bool);
    let conditional = c.conditional_expression(x.clone(), sum.clone());
    // (c ? x : x + 1) == x + 1 is !c || x == x + 1
    match &conditional.equals(sum.clone()).expression {
        Expression::Or { left, right } => {
            assert_eq!(*left, c.logical_not());
            assert!(matches!(right.expression, Expression::Equals { .. }));
        }
        unexpected => panic!("expected a disjunction, got {:?}", unexpected),
    }
    let y = variable(5, ExpressionType::I32);
    match &x.equals(y.clone()).expression {
        Expression::Equals { left, right } => {
            assert_eq!(*left, x);
            assert_eq!(*right, y);
        }
        unexpected => panic!("expected x == y, got {:?}", unexpected),
    }
}

#[test]
fn conditionals_simplify() {
    let c = variable(1, ExpressionType::Bool);
    let d = variable(2, ExpressionType::Bool);
    let x = variable(3, ExpressionType::I32);
    let y = variable(4, ExpressionType::I32);
    let t = AbstractValue::of_bool(true);
    let f = AbstractValue::of_bool(false);
    assert_eq!(c.conditional_expression(x.clone(), x.clone()), x);
    assert_eq!(t.conditional_expression(x.clone(), y.clone()), x);
    assert_eq!(f.conditional_expression(x.clone(), y.clone()), y);
    assert_eq!(c.conditional_expression(t.clone(), f.clone()), c);
    assert_eq!(c.conditional_expression(f.clone(), t.clone()), c.logical_not());
    assert_eq!(c.conditional_expression(c.clone(), d.clone()), c.or(d.clone()));
    assert_eq!(d.conditional_expression(c.clone(), d.clone()), d.and(c.clone()));
    assert_eq!(AbstractValue::bottom().conditional_expression(x.clone(), y.clone()), x);
    assert!(AbstractValue::top().conditional_expression(x.clone(), y.clone()).is_top());
    assert_eq!(c.conditional_expression(AbstractValue::bottom(), y.clone()), y);
    assert_eq!(c.conditional_expression(x.clone(), AbstractValue::bottom()), x);
    let plain = c.conditional_expression(x.clone(), y.clone());
    match &plain.expression {
        Expression::ConditionalExpression { condition, consequent, alternate } => {
            assert_eq!(*condition, c);
            assert_eq!(*consequent, x);
            assert_eq!(*alternate, y);
        }
        unexpected => panic!("expected c ? x : y, got {:?}", unexpected),
    }
    assert_eq!(plain.expression_size, 3);
    assert_eq!(c.logical_not().conditional_expression(x.clone(), y.clone()), c.conditional_expression(y.clone(), x.clone()));
    // The branches are refined with the condition and its negation.
    match &c.conditional_expression(c.and(d.clone()), d.clone()).expression {
        Expression::ConditionalExpression { consequent, alternate, .. } => {
            assert_eq!(*consequent, d);
            assert_eq!(*alternate, d);
        }
        unexpected => panic!("expected c ? d : d, got {:?}", unexpected),
    }
    let nested = d.conditional_expression(x.clone(), y.clone());
    match &c.conditional_expression(nested.clone(), y.clone()).expression {
        Expression::ConditionalExpression { condition, consequent, alternate } => {
            assert_eq!(*condition, c.and(d.clone()));
            assert_eq!(*consequent, x);
            assert_eq!(*alternate, y);
        }
        unexpected => panic!("expected (c && d) ? x : y, got {:?}", unexpected),
    }
    match &c.conditional_expression(x.clone(), d.conditional_expression(x.clone(), y.clone())).expression {
        Expression::ConditionalExpression { condition, consequent, alternate } => {
            assert_eq!(*condition, c.or(d.clone()));
            assert_eq!(*consequent, x);
            assert_eq!(*alternate, y);
        }
        unexpected => panic!("expected (c || d) ? x : y, got {:?}", unexpected),
    }
}

#[test]
fn a_branch_of_no_scalar_sort_is_retyped() {
    let c = variable(1, ExpressionType::Bool);
    let generic = variable(2, ExpressionType::NonPrimitive);
    let conditional = c.conditional_expression(generic.addition(generic.clone().negate()), u(5));
    match &conditional.expression {
        Expression::ConditionalExpression { consequent, .. } => {
            assert_eq!(consequent.expression.infer_type(), ExpressionType::U128);
        }
        unexpected => panic!("expected a conditional, got {:?}", unexpected),
    }
    assert_eq!(generic.try_to_retype_as(&ExpressionType::U8), variable(2, ExpressionType::U8));
    assert_eq!(u(5).try_to_retype_as(&ExpressionType::U8), u(5));
    let reference = AbstractValue::make_from(
        Expression::Cast { operand: generic.clone(), target_type: ExpressionType::Reference },
        2,
    );
    assert_eq!(reference.try_to_retype_as(&ExpressionType::I64), variable(2, ExpressionType::I64));
}

#[test]
fn intervals_decide_comparisons_of_values() {
    let small = bounded(1, 0, 10);
    let large = bounded(2, 20, 30);
    assert_eq!(small.less_than(large.clone()).as_bool_if_known(), Some(true));
    assert_eq!(small.less_or_equal(large.clone()).as_bool_if_known(), Some(true));
    assert_eq!(small.greater_than(large.clone()).as_bool_if_known(), Some(false));
    assert_eq!(large.greater_or_equal(small.clone()).as_bool_if_known(), Some(true));
    let overlapping = bounded(3, 5, 25);
    assert!(matches!(small.less_than(overlapping).expression, Expression::LessThan { .. }));
    let sum = AbstractValue::make_from(Expression::Add { left: i(1), right: i(2) }, 2);
    assert_eq!(sum.less_than(large).as_bool_if_known(), Some(true));
}

#[test]
fn overflow_tests_use_constants_and_intervals() {
    let x = variable(1, ExpressionType::U8);
    assert_eq!(u(200).add_overflows(u(100), ExpressionType::U8).as_bool_if_known(), Some(true));
    assert_eq!(u(2).sub_overflows(u(3), ExpressionType::U8).as_bool_if_known(), Some(true));
    assert_eq!(u(20).mul_overflows(u(10), ExpressionType::U8).as_bool_if_known(), Some(false));
    assert!(matches!(x.add_overflows(u(1), ExpressionType::U8).expression, Expression::AddOverflows { .. }));
    assert!(matches!(x.mul_overflows(u(1), ExpressionType::U8).expression, Expression::MulOverflows { .. }));
    assert!(matches!(x.sub_overflows(u(1), ExpressionType::U8).expression, Expression::SubOverflows { .. }));
    assert_eq!(x.shl_overflows(u(7), ExpressionType::U8).as_bool_if_known(), Some(false));
    assert!(matches!(x.shl_overflows(u(8), ExpressionType::U8).expression, Expression::ShlOverflows { .. }));
    assert_eq!(u(1).shl_overflows(u(8), ExpressionType::U8).as_bool_if_known(), Some(true));
    assert_eq!(x.shr_overflows(bounded(2, 0, 7), ExpressionType::U8).as_bool_if_known(), Some(false));
    assert!(matches!(x.shr_overflows(bounded(2, 0, 8), ExpressionType::U8).expression, Expression::ShrOverflows { .. }));
    assert!(matches!(x.shl_overflows(x.clone(), ExpressionType::U8).expression, Expression::ShlOverflows { .. }));
    assert_eq!(bounded(1, -10, 10).sub_overflows(bounded(2, -10, 10), ExpressionType::I8).as_bool_if_known(), Some(false));
}

#[test]
fn intrinsics_are_kept_or_folded() {
    let x = variable(1, ExpressionType::U32);
    assert_eq!(u(0b1011).intrinsic_bit_vector_unary(32, KnownNames::StdIntrinsicsCtpop), u(3));
    let kept = x.intrinsic_bit_vector_unary(32, KnownNames::StdIntrinsicsCtpop);
    match &kept.expression {
        Expression::IntrinsicBitVectorUnary { operand, bit_length, name } => {
            assert_eq!(*operand, x);
            assert_eq!(*bit_length, 32);
            assert_eq!(*name, KnownNames::StdIntrinsicsCtpop);
        }
        unexpected => panic!("expected an intrinsic call, got {:?}", unexpected),
    }
    assert_eq!(kept.expression_size, 2);
    let f = variable(2, ExpressionType::F64);
    assert!(matches!(f.intrinsic_floating_point_unary(KnownNames::StdIntrinsicsSqrtf64).expression, Expression::IntrinsicFloatingPointUnary { .. }));
    assert!(matches!(f.intrinsic_binary(f.clone(), KnownNames::StdIntrinsicsPowf64).expression, Expression::IntrinsicBinary { .. }));
}

#[test]
fn offsets_add_up() {
    let base = variable(1, ExpressionType::Reference);
    assert_eq!(base.offset(i(0)), base);
    let moved = base.offset(i(4));
    match &moved.offset(i(8)).expression {
        Expression::Offset { left, right } => {
            assert_eq!(*left, base);
            assert_eq!(*right, i(12));
        }
        unexpected => panic!("expected base + 12, got {:?}", unexpected),
    }
}

#[test]
fn widening_a_layout_widens_its_parts() {
    let p = Path::new_local(1);
    let x = variable(2, ExpressionType::U64);
    let layout = AbstractValue::make_from(
        Expression::HeapBlockLayout {
            length: x.addition(u(1)),
            alignment: u(8),
            source: LayoutSource::DeAlloc,
        },
        1,
    );
    match &layout.widen(&p).expression {
        Expression::HeapBlockLayout { length, alignment, source } => {
            assert!(matches!(length.expression, Expression::Widen { .. }));
            assert_eq!(*alignment, u(8));
            assert_eq!(*source, LayoutSource::Alloc);
        }
        unexpected => panic!("expected a layout, got {:?}", unexpected),
    }
    assert!(k_limits::MAX_WIDEN_SIZE < k_limits::MAX_EXPRESSION_SIZE);
}

#[test]
fn equality_of_values_looks_at_expressions_only() {
    let x = variable(1, ExpressionType::I32);
    let resized = AbstractValue::make_from(x.expression.clone(), 7);
    assert_eq!(resized, x);
    assert_ne!(x, variable(2, ExpressionType::I32));
    assert_ne!(x, variable(1, ExpressionType::I64));
    let p = Path::new_local(5);
    let q = Path::new_local(6);
    let one = i(1).negate().addition(x.clone()).widen(&p);
    let other = x.clone().negate().widen(&p);
    assert_eq!(one, other);
    assert_ne!(one.expression, other.expression);
    assert_ne!(one, x.clone().negate().widen(&q));
}
