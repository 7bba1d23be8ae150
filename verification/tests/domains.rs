use abstract_value_engine::constant_domain::{ConstantDomain, FunctionReference};
use abstract_value_engine::expression::ExpressionType;
use abstract_value_engine::interval_domain::IntervalDomain;
use abstract_value_engine::known_names::KnownNames;

fn i(v: i128) -> ConstantDomain {
    ConstantDomain::I128(v)
}

fn u(v: u128) -> ConstantDomain {
    ConstantDomain::U128(v)
}

fn interval(lower_bound: i128, upper_bound: i128) -> IntervalDomain {
    IntervalDomain { lower_bound, upper_bound }
}

#[test]
fn constant_arithmetic_wraps_at_128_bits() {
    assert_eq!(i(3).add(&i(4)), i(7));
    assert_eq!(u(u128::MAX).add(&u(1)), u(0));
    assert_eq!(i(i128::MAX).add(&i(1)), i(i128::MIN));
    assert_eq!(u(0).sub(&u(1)), u(u128::MAX));
    assert_eq!(i(-5).sub(&i(3)), i(-8));
    assert_eq!(u(1 << 127).mul(&u(2)), u(0));
    assert_eq!(i(-6).mul(&i(7)), i(-42));
    assert_eq!(i(5).neg(), i(-5));
    assert_eq!(i(i128::MIN).neg(), i(i128::MIN));
    assert_eq!(u(1).neg(), u(u128::MAX));
}

#[test]
fn operations_that_are_not_defined_give_bottom() {
    assert_eq!(i(3).add(&u(4)), ConstantDomain::Bottom);
    assert_eq!(u(3).div(&u(0)), ConstantDomain::Bottom);
    assert_eq!(i(3).div(&i(0)), ConstantDomain::Bottom);
    assert_eq!(i(i128::MIN).div(&i(-1)), ConstantDomain::Bottom);
    assert_eq!(u(3).rem(&u(0)), ConstantDomain::Bottom);
    assert_eq!(i(i128::MIN).rem(&i(-1)), ConstantDomain::Bottom);
    assert_eq!(ConstantDomain::True.add(&ConstantDomain::True), ConstantDomain::Bottom);
    assert_eq!(ConstantDomain::Unit.neg(), ConstantDomain::Bottom);
    assert_eq!(i(3).logical_not(), ConstantDomain::Bottom);
    assert_eq!(i(3).less_than(&u(4)), ConstantDomain::Bottom);
    assert_eq!(ConstantDomain::Str(String::from("a")).cast(&ExpressionType::U8), ConstantDomain::Bottom);
    assert_eq!(i(1).shl(&i(-1)), ConstantDomain::Bottom);
    assert_eq!(ConstantDomain::F64(0).add(&ConstantDomain::F64(0)), ConstantDomain::Bottom);
}

#[test]
fn division_rounds_towards_zero() {
    assert_eq!(u(7).div(&u(2)), u(3));
    assert_eq!(i(-7).div(&i(2)), i(-3));
    assert_eq!(i(7).div(&i(-2)), i(-3));
    assert_eq!(u(7).rem(&u(2)), u(1));
    assert_eq!(i(-7).rem(&i(2)), i(-1));
    assert_eq!(i(7).rem(&i(-2)), i(1));
}

#[test]
fn bits_are_combined_and_shifted() {
    assert_eq!(u(0b1100).bit_and(&u(0b1010)), u(0b1000));
    assert_eq!(u(0b1100).bit_or(&u(0b1010)), u(0b1110));
    assert_eq!(u(0b1100).bit_xor(&u(0b1010)), u(0b0110));
    assert_eq!(i(-1).bit_and(&i(5)), i(5));
    assert_eq!(ConstantDomain::True.bit_and(&ConstantDomain::False), ConstantDomain::False);
    assert_eq!(ConstantDomain::True.bit_or(&ConstantDomain::False), ConstantDomain::True);
    assert_eq!(ConstantDomain::True.bit_xor(&ConstantDomain::True), ConstantDomain::False);
    assert_eq!(u(0xF0).bit_not(ExpressionType::U8), u(0x0F));
    assert_eq!(u(0).bit_not(ExpressionType::U16), u(0xFFFF));
    assert_eq!(u(0).bit_not(ExpressionType::U128), u(u128::MAX));
    assert_eq!(i(0).bit_not(ExpressionType::I32), i(-1));
    assert_eq!(ConstantDomain::True.bit_not(ExpressionType::Bool), ConstantDomain::False);
    assert_eq!(u(1).shl(&u(4)), u(16));
    assert_eq!(u(1).shl(&i(4)), u(16));
    assert_eq!(i(-16).shr(&u(2)), i(-4));
    assert_eq!(u(16).shr(&u(2)), u(4));
    assert_eq!(u(1).shl(&u(1 << 40)), ConstantDomain::Bottom);
}

#[test]
fn casts_keep_the_low_bits() {
    assert_eq!(i(-1).cast(&ExpressionType::U8), u(255));
    assert_eq!(u(256).cast(&ExpressionType::U8), u(0));
    assert_eq!(u(255).cast(&ExpressionType::I8), i(-1));
    assert_eq!(u(0x1_0000_0001).cast(&ExpressionType::U32), u(1));
    assert_eq!(i(-2).cast(&ExpressionType::I64), i(-2));
    assert_eq!(u(u128::MAX).cast(&ExpressionType::I128), i(-1));
    assert_eq!(i(-1).cast(&ExpressionType::U128), u(u128::MAX));
    assert_eq!(ConstantDomain::True.cast(&ExpressionType::U8), u(1));
    assert_eq!(ConstantDomain::False.cast(&ExpressionType::I32), i(0));
    assert_eq!(ConstantDomain::True.cast(&ExpressionType::Bool), ConstantDomain::True);
    assert_eq!(ConstantDomain::Char('a').cast(&ExpressionType::U32), u(97));
    assert_eq!(u(1).cast(&ExpressionType::Reference), ConstantDomain::Bottom);
}

#[test]
fn constants_are_compared() {
    assert_eq!(i(3).equals(&i(3)), ConstantDomain::True);
    assert_eq!(i(3).equals(&u(3)), ConstantDomain::False);
    assert_eq!(i(3).not_equals(&i(4)), ConstantDomain::True);
    assert_eq!(ConstantDomain::Str(String::from("a")).equals(&ConstantDomain::Str(String::from("a"))), ConstantDomain::True);
    assert_eq!(ConstantDomain::Str(String::from("a")).equals(&ConstantDomain::Str(String::from("b"))), ConstantDomain::False);
    let f = ConstantDomain::Function(FunctionReference { function_id: 7, known_name: KnownNames::Unknown });
    assert_eq!(f.equals(&f.clone()), ConstantDomain::True);
    assert_eq!(i(3).less_than(&i(4)), ConstantDomain::True);
    assert_eq!(i(4).less_than(&i(4)), ConstantDomain::False);
    assert_eq!(i(4).less_or_equal(&i(4)), ConstantDomain::True);
    assert_eq!(u(5).greater_than(&u(4)), ConstantDomain::True);
    assert_eq!(u(4).greater_or_equal(&u(5)), ConstantDomain::False);
    assert_eq!(ConstantDomain::True.logical_not(), ConstantDomain::False);
    assert_eq!(ConstantDomain::True.as_bool_if_known(), Some(true));
    assert_eq!(i(1).as_bool_if_known(), None);
    assert!(i(1).is_one() && u(1).is_one() && !u(0).is_one());
    assert!(i(0).is_zero() && u(0).is_zero() && !ConstantDomain::False.is_zero());
}

#[test]
fn floating_point_constants_are_compared_by_their_bits() {
    let one = ConstantDomain::F64(1.0f64.to_bits());
    let two = ConstantDomain::F64(2.0f64.to_bits());
    let minus_one = ConstantDomain::F64((-1.0f64).to_bits());
    let zero = ConstantDomain::F64(0.0f64.to_bits());
    let minus_zero = ConstantDomain::F64((-0.0f64).to_bits());
    let nan = ConstantDomain::F64(f64::NAN.to_bits());
    assert_eq!(one.equals(&one.clone()), ConstantDomain::True);
    assert_eq!(one.equals(&two), ConstantDomain::False);
    assert_eq!(zero.equals(&minus_zero), ConstantDomain::True);
    assert_eq!(nan.equals(&nan.clone()), ConstantDomain::False);
    assert_eq!(nan.not_equals(&nan.clone()), ConstantDomain::True);
    assert_eq!(one.less_than(&two), ConstantDomain::True);
    assert_eq!(minus_one.less_than(&zero), ConstantDomain::True);
    assert_eq!(minus_one.less_than(&minus_zero), ConstantDomain::True);
    assert_eq!(zero.less_than(&minus_zero), ConstantDomain::False);
    assert_eq!(zero.less_or_equal(&minus_zero), ConstantDomain::True);
    assert_eq!(nan.less_or_equal(&one), ConstantDomain::False);
    assert_eq!(two.greater_than(&minus_one), ConstantDomain::True);
    assert_eq!(one.neg(), minus_one);
    let small = ConstantDomain::F32(1.5f32.to_bits());
    let large = ConstantDomain::F32(2.5f32.to_bits());
    assert_eq!(small.less_than(&large), ConstantDomain::True);
    assert_eq!(small.neg(), ConstantDomain::F32((-1.5f32).to_bits()));
    assert_eq!(ConstantDomain::F32(f32::NAN.to_bits()).equals(&small), ConstantDomain::False);
}

#[test]
fn overflow_is_found_on_constants() {
    assert_eq!(u(200).add_overflows(&u(100), &ExpressionType::U8), ConstantDomain::True);
    assert_eq!(u(200).add_overflows(&u(55), &ExpressionType::U8), ConstantDomain::False);
    assert_eq!(u(u128::MAX).add_overflows(&u(1), &ExpressionType::U128), ConstantDomain::True);
    assert_eq!(i(100).add_overflows(&i(27), &ExpressionType::I8), ConstantDomain::False);
    assert_eq!(i(100).add_overflows(&i(28), &ExpressionType::I8), ConstantDomain::True);
    assert_eq!(i(-100).sub_overflows(&i(29), &ExpressionType::I8), ConstantDomain::True);
    assert_eq!(u(1).sub_overflows(&u(2), &ExpressionType::U32), ConstantDomain::True);
    assert_eq!(u(2).sub_overflows(&u(1), &ExpressionType::U32), ConstantDomain::False);
    assert_eq!(u(16).mul_overflows(&u(16), &ExpressionType::U8), ConstantDomain::True);
    assert_eq!(u(16).mul_overflows(&u(15), &ExpressionType::U8), ConstantDomain::False);
    assert_eq!(i(i128::MAX).mul_overflows(&i(2), &ExpressionType::I128), ConstantDomain::True);
    assert_eq!(u(1).add_overflows(&u(1), &ExpressionType::I8), ConstantDomain::Bottom);
    assert_eq!(u(1).add_overflows(&i(1), &ExpressionType::U8), ConstantDomain::Bottom);
    assert_eq!(u(1).shl_overflows(&u(8), &ExpressionType::U8), ConstantDomain::True);
    assert_eq!(u(1).shl_overflows(&u(7), &ExpressionType::U8), ConstantDomain::False);
    assert_eq!(u(1).shr_overflows(&i(-1), &ExpressionType::U8), ConstantDomain::True);
    assert_eq!(u(1).shr_overflows(&u(31), &ExpressionType::I32), ConstantDomain::False);
    assert_eq!(u(1).shl_overflows(&u(1), &ExpressionType::Bool), ConstantDomain::Bottom);
}

#[test]
fn bit_vector_intrinsics_are_folded() {
    let v = u(0b1011);
    assert_eq!(v.intrinsic_bit_vector_unary(8, KnownNames::StdIntrinsicsCtpop), u(3));
    assert_eq!(v.intrinsic_bit_vector_unary(8, KnownNames::StdIntrinsicsCtlz), u(4));
    assert_eq!(v.intrinsic_bit_vector_unary(32, KnownNames::StdIntrinsicsCtlz), u(28));
    assert_eq!(u(8).intrinsic_bit_vector_unary(8, KnownNames::StdIntrinsicsCttz), u(3));
    assert_eq!(u(0).intrinsic_bit_vector_unary(8, KnownNames::StdIntrinsicsCttz), u(8));
    assert_eq!(u(0).intrinsic_bit_vector_unary(16, KnownNames::StdIntrinsicsCtlz), u(16));
    assert_eq!(u(0).intrinsic_bit_vector_unary(8, KnownNames::StdIntrinsicsCtlzNonzero), ConstantDomain::Bottom);
    assert_eq!(u(0).intrinsic_bit_vector_unary(8, KnownNames::StdIntrinsicsCttzNonzero), ConstantDomain::Bottom);
    assert_eq!(u(1).intrinsic_bit_vector_unary(8, KnownNames::StdIntrinsicsBitreverse), u(128));
    assert_eq!(u(0x1234).intrinsic_bit_vector_unary(16, KnownNames::StdIntrinsicsBswap), u(0x3412));
    assert_eq!(u(0x12345678).intrinsic_bit_vector_unary(32, KnownNames::StdIntrinsicsBswap), u(0x78563412));
    assert_eq!(u(u128::MAX).intrinsic_bit_vector_unary(128, KnownNames::StdIntrinsicsCtpop), u(128));
    assert_eq!(u(256).intrinsic_bit_vector_unary(8, KnownNames::StdIntrinsicsCtpop), ConstantDomain::Bottom);
    assert_eq!(u(1).intrinsic_bit_vector_unary(7, KnownNames::StdIntrinsicsCtpop), ConstantDomain::Bottom);
    assert_eq!(u(1).intrinsic_bit_vector_unary(8, KnownNames::StdIntrinsicsSqrtf32), ConstantDomain::Bottom);
    assert_eq!(i(1).intrinsic_bit_vector_unary(8, KnownNames::StdIntrinsicsCtpop), ConstantDomain::Bottom);
}

#[test]
fn sorts_know_their_bounds() {
    assert!(ExpressionType::I8.is_integer() && ExpressionType::I8.is_signed_integer());
    assert!(ExpressionType::U64.is_unsigned_integer() && !ExpressionType::U64.is_signed_integer());
    assert!(!ExpressionType::Bool.is_integer() && ExpressionType::Bool.is_primitive());
    assert!(ExpressionType::F32.is_floating_point_number() && ExpressionType::F64.is_primitive());
    assert!(!ExpressionType::Reference.is_primitive() && !ExpressionType::NonPrimitive.is_primitive());
    assert_eq!(ExpressionType::I16.bit_length(), 16);
    assert_eq!(ExpressionType::U128.bit_length(), 128);
    assert_eq!(ExpressionType::Bool.bit_length(), 1);
    assert_eq!(ExpressionType::I8.max_value(), i(127));
    assert_eq!(ExpressionType::I8.min_value(), i(-128));
    assert_eq!(ExpressionType::U32.max_value(), u(0xFFFF_FFFF));
    assert_eq!(ExpressionType::U32.min_value(), u(0));
    assert_eq!(ExpressionType::I128.min_value(), i(i128::MIN));
    assert_eq!(ExpressionType::U128.max_value(), u(u128::MAX));
    assert_eq!(ExpressionType::Bool.max_value(), u(1));
    assert_eq!(ExpressionType::F32.max_value(), ConstantDomain::F32(f32::MAX.to_bits()));
    assert_eq!(ExpressionType::F64.min_value(), ConstantDomain::F64(f64::MIN.to_bits()));
    assert_eq!(ExpressionType::Reference.max_value(), ConstantDomain::Bottom);
    assert_eq!(ExpressionType::U8.modulo_value().as_ref().expression_size, 1);
    assert_eq!(i(5).infer_type(), ExpressionType::I128);
    assert_eq!(ConstantDomain::True.infer_type(), ExpressionType::Bool);
    assert_eq!(ConstantDomain::Unit.infer_type(), ExpressionType::NonPrimitive);
}

#[test]
fn interval_arithmetic_follows_the_bounds() {
    assert_eq!(interval(1, 2).add(&interval(10, 20)), interval(11, 22));
    assert_eq!(interval(1, 2).sub(&interval(10, 20)), interval(-19, -8));
    assert_eq!(interval(-2, 3).mul(&interval(4, 5)), interval(-10, 15));
    assert_eq!(interval(-2, 3).mul(&interval(-5, -4)), interval(-15, 10));
    assert_eq!(interval(-2, 3).neg(), interval(-3, 2));
    assert_eq!(interval(1, 2).widen(&interval(10, 20)), interval(1, 20));
    assert_eq!(IntervalDomain::from(7i128), interval(7, 7));
    assert_eq!(IntervalDomain::from(7u128), interval(7, 7));
    assert_eq!(IntervalDomain::from(u128::MAX), interval(i128::MAX, i128::MAX));
}

#[test]
fn missing_bounds_stay_missing() {
    let below_five = interval(i128::MIN, 5);
    let above_five = interval(5, i128::MAX);
    assert_eq!(below_five.add(&interval(1, 1)), interval(i128::MIN, 6));
    assert_eq!(above_five.add(&interval(-1, -1)), interval(4, i128::MAX));
    assert_eq!(below_five.sub(&above_five), interval(i128::MIN, 0));
    assert_eq!(below_five.neg(), interval(-5, i128::MAX));
    assert_eq!(above_five.neg(), interval(i128::MIN, -5));
    assert!(below_five.mul(&interval(2, 2)).is_top());
    assert_eq!(interval(i128::MAX - 1, i128::MAX - 1).add(&interval(5, 5)), interval(i128::MAX, i128::MAX));
    assert_eq!(below_five.lower_bound(), None);
    assert_eq!(below_five.upper_bound(), Some(5));
    assert_eq!(interval(1, 2).remove_lower_bound(), interval(i128::MIN, 2));
    assert_eq!(interval(1, 2).remove_upper_bound(), interval(1, i128::MAX));
    assert!(IntervalDomain::new_top().is_top());
}

#[test]
fn bottom_intervals_say_nothing() {
    let bottom = IntervalDomain::new_bottom();
    assert!(bottom.is_bottom());
    assert!(bottom.add(&interval(1, 2)).is_bottom());
    assert!(interval(1, 2).sub(&bottom).is_bottom());
    assert!(bottom.mul(&bottom).is_bottom());
    assert!(bottom.neg().is_bottom());
    assert!(interval(1, 2).widen(&bottom).is_bottom());
    assert_eq!(bottom.less_than(&interval(1, 2)), None);
    assert_eq!(bottom.lower_bound(), None);
    assert_eq!(bottom.upper_bound(), None);
    assert!(bottom.remove_lower_bound().is_bottom());
    assert!(!bottom.is_contained_in(&ExpressionType::I128));
}

#[test]
fn intervals_decide_comparisons_only_where_they_are_apart() {
    assert_eq!(interval(1, 2).less_than(&interval(3, 4)), Some(true));
    assert_eq!(interval(3, 4).less_than(&interval(1, 3)), Some(false));
    assert_eq!(interval(1, 3).less_than(&interval(3, 4)), None);
    assert_eq!(interval(1, 3).less_equal(&interval(3, 4)), Some(true));
    assert_eq!(interval(4, 5).less_equal(&interval(1, 3)), Some(false));
    assert_eq!(interval(3, 4).greater_than(&interval(1, 2)), Some(true));
    assert_eq!(interval(1, 2).greater_or_equal(&interval(2, 4)), None);
    assert_eq!(interval(2, 2).greater_or_equal(&interval(1, 2)), Some(true));
    assert_eq!(interval(i128::MIN, 2).less_than(&interval(3, 4)), Some(true));
    assert_eq!(interval(1, i128::MAX).less_than(&interval(3, 4)), None);
}

#[test]
fn intervals_fit_sorts() {
    assert!(interval(0, 255).is_contained_in(&ExpressionType::U8));
    assert!(!interval(0, 256).is_contained_in(&ExpressionType::U8));
    assert!(!interval(-1, 5).is_contained_in(&ExpressionType::U64));
    assert!(interval(-128, 127).is_contained_in(&ExpressionType::I8));
    assert!(!interval(-129, 127).is_contained_in(&ExpressionType::I8));
    assert!(interval(0, i128::MAX - 1).is_contained_in(&ExpressionType::U128));
    assert!(!interval(0, i128::MAX).is_contained_in(&ExpressionType::U128));
    assert!(!interval(0, 1).is_contained_in(&ExpressionType::Bool));
    assert!(interval(0, 7).is_contained_in_width_of(&ExpressionType::U8));
    assert!(!interval(0, 8).is_contained_in_width_of(&ExpressionType::U8));
    assert!(!interval(-1, 3).is_contained_in_width_of(&ExpressionType::I32));
    assert!(interval(0, 127).is_contained_in_width_of(&ExpressionType::I128));
}
