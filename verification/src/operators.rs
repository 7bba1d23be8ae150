//! The operators that build a value from their operands without rewriting them:
//! they fold constants, decide by intervals, or build the expression.

use vstd::prelude::*;
use std::rc::Rc;
use crate::abstract_value::{bool_value, constant_value, AbstractValue};
use crate::constant_domain::ConstantDomain;
use crate::expression::{BinaryOperator, Expression, ExpressionType, TypedBinaryOperator};
use crate::implication::known_false;
use crate::interval_domain::IntervalDomain;
use crate::known_names::KnownNames;
use crate::shared::share;

verus! {

/// The constants that `a` and `b` are, if both are constants.
pub open spec fn constants(a: AbstractValue, b: AbstractValue) -> Option<
    (ConstantDomain, ConstantDomain),
> {
    match (a.expression, b.expression) {
        (Expression::CompileTimeConstant(v1), Expression::CompileTimeConstant(v2)) => Some(
            (v1, v2),
        ),
        _ => None,
    }
}

/// The constant that `a` is, if it is a constant.
pub open spec fn constant(a: AbstractValue) -> Option<ConstantDomain> {
    match a.expression {
        Expression::CompileTimeConstant(v) => Some(v),
        _ => None,
    }
}

/// The value that is the constant `folded`, or `otherwise` where folding gave the
/// impossible constant.
pub open spec fn folded_or(folded: ConstantDomain, otherwise: Rc<AbstractValue>) -> Rc<
    AbstractValue,
> {
    if folded is Bottom {
        otherwise
    } else {
        Rc::new(constant_value(folded))
    }
}

/// True if the value is the integer constant zero.
pub open spec fn zero(a: AbstractValue) -> bool {
    a.expression.known_int() == Some(0int)
}

/// True if the value is the integer constant one.
pub open spec fn one(a: AbstractValue) -> bool {
    a.expression.known_int() == Some(1int)
}

/// The value of `-a`: the folded constant where `a` is a constant that can be
/// negated, else a negation.
pub open spec fn negated(a: Rc<AbstractValue>) -> Rc<AbstractValue> {
    let built = Rc::new(AbstractValue::unary(Expression::Neg { operand: a }, a.expression_size));
    match constant(*a) {
        Some(v) => folded_or(v.negation(), built),
        None => built,
    }
}

/// The value of `a != b`: the constant that says whether two constants differ, else
/// the expression.
pub open spec fn inequality(a: Rc<AbstractValue>, b: Rc<AbstractValue>) -> Rc<AbstractValue> {
    match constants(*a, *b) {
        Some((v1, v2)) => Rc::new(constant_value(v1.inequality(v2))),
        None => AbstractValue::binary(BinaryOperator::Ne, a, b),
    }
}

/// What a comparison of two constants gives.
pub open spec fn compared_constants(
    operator: BinaryOperator,
    v1: ConstantDomain,
    v2: ConstantDomain,
) -> ConstantDomain {
    match operator {
        BinaryOperator::LessThan => v1.below(v2),
        BinaryOperator::LessOrEqual => v1.at_most(v2),
        BinaryOperator::GreaterThan => v2.below(v1),
        BinaryOperator::GreaterOrEqual => v2.at_most(v1),
        _ => ConstantDomain::Bottom,
    }
}

/// What the bounds of two intervals decide about a comparison.
pub open spec fn compared_intervals(
    operator: BinaryOperator,
    i1: IntervalDomain,
    i2: IntervalDomain,
) -> Option<bool> {
    match operator {
        BinaryOperator::LessThan => i1.decides_less_than(i2),
        BinaryOperator::LessOrEqual => i1.decides_less_equal(i2),
        BinaryOperator::GreaterThan => i2.decides_less_than(i1),
        BinaryOperator::GreaterOrEqual => i2.decides_less_equal(i1),
        _ => None,
    }
}

/// The value of the comparison `a operator b`: what two constants compare to, else
/// what the intervals of the operands decide, else the expression.
pub open spec fn comparison(
    operator: BinaryOperator,
    a: Rc<AbstractValue>,
    b: Rc<AbstractValue>,
) -> Rc<AbstractValue> {
    match constants(*a, *b) {
        Some((v1, v2)) => Rc::new(constant_value(compared_constants(operator, v1, v2))),
        None => match compared_intervals(operator, a.cached_interval(), b.cached_interval()) {
            Some(decided) => Rc::new(bool_value(decided)),
            None => AbstractValue::binary(operator, a, b),
        },
    }
}

/// What `|`, `^` and `<<` give on two constants.
pub open spec fn folded_bits(
    operator: BinaryOperator,
    v1: ConstantDomain,
    v2: ConstantDomain,
) -> ConstantDomain {
    match operator {
        BinaryOperator::BitAnd => v1.conjunction(v2),
        BinaryOperator::BitOr => v1.disjunction(v2),
        BinaryOperator::BitXor => v1.exclusive_disjunction(v2),
        BinaryOperator::Shl => v1.shifted_left(v2),
        _ => ConstantDomain::Bottom,
    }
}

/// The value of `a operator b` for an operator on bits: the folded constant where
/// both operands are constants that can be folded, else the expression.
pub open spec fn bit_operation(
    operator: BinaryOperator,
    a: Rc<AbstractValue>,
    b: Rc<AbstractValue>,
) -> Rc<AbstractValue> {
    let built = AbstractValue::binary(operator, a, b);
    match constants(*a, *b) {
        Some((v1, v2)) => folded_or(folded_bits(operator, v1, v2), built),
        None => built,
    }
}

/// The value of `a & b`: false if an operand is false, zero if an operand is zero,
/// else the folded constant or the expression.
pub open spec fn bit_conjunction(a: Rc<AbstractValue>, b: Rc<AbstractValue>) -> Rc<AbstractValue> {
    if a.known_bool() == Some(false) || b.known_bool() == Some(false) {
        Rc::new(bool_value(false))
    } else if zero(*a) {
        a
    } else if zero(*b) {
        b
    } else {
        bit_operation(BinaryOperator::BitAnd, a, b)
    }
}

/// The value of `!a` on the bits of an integer of sort `result_type`: the folded
/// constant, or the expression.
pub open spec fn bit_complement(a: Rc<AbstractValue>, result_type: ExpressionType) -> Rc<
    AbstractValue,
> {
    let built = Rc::new(
        AbstractValue::unary(Expression::BitNot { operand: a, result_type }, a.expression_size),
    );
    match constant(*a) {
        Some(v) => folded_or(v.complement(result_type), built),
        None => built,
    }
}

/// The value of `a >> b` where `a` has sort `expression_type`: the folded constant,
/// or the expression.
pub open spec fn shifted_right(
    a: Rc<AbstractValue>,
    b: Rc<AbstractValue>,
    expression_type: ExpressionType,
) -> Rc<AbstractValue> {
    let built = Rc::new(
        AbstractValue::typed_binary(TypedBinaryOperator::Shr, a, b, expression_type),
    );
    match constants(*a, *b) {
        Some((v1, v2)) => folded_or(v1.shifted_right(v2), built),
        None => built,
    }
}

/// What an overflow test gives on two constants.
pub open spec fn overflow_of_constants(
    operator: TypedBinaryOperator,
    v1: ConstantDomain,
    v2: ConstantDomain,
    target_type: ExpressionType,
) -> ConstantDomain {
    match operator {
        TypedBinaryOperator::AddOverflows => v1.sum_overflows(v2, target_type),
        TypedBinaryOperator::MulOverflows => v1.product_overflows(v2, target_type),
        TypedBinaryOperator::SubOverflows => v1.difference_overflows(v2, target_type),
        TypedBinaryOperator::ShlOverflows | TypedBinaryOperator::ShrOverflows => {
            v1.shift_overflows(v2, target_type)
        },
        TypedBinaryOperator::Shr => ConstantDomain::Bottom,
    }
}

/// True if the intervals of the operands show that the operation stays in range:
/// the interval of the sum, product or difference fits `target_type`, or the
/// interval of a shift distance fits the width of `target_type`.
pub open spec fn in_range(
    operator: TypedBinaryOperator,
    i1: IntervalDomain,
    i2: IntervalDomain,
    target_type: ExpressionType,
) -> bool {
    match operator {
        TypedBinaryOperator::AddOverflows => i1.sum(i2).fits(target_type),
        TypedBinaryOperator::MulOverflows => i1.product(i2).fits(target_type),
        TypedBinaryOperator::SubOverflows => i1.difference(i2).fits(target_type),
        TypedBinaryOperator::ShlOverflows | TypedBinaryOperator::ShrOverflows => i2.fits_width(
            target_type,
        ),
        TypedBinaryOperator::Shr => false,
    }
}

/// The value of an overflow test: the folded constant where both operands are
/// constants and the test is defined on them, else false where the intervals of
/// the operands show that the operation stays in range, else the expression.
pub open spec fn overflow(
    operator: TypedBinaryOperator,
    a: Rc<AbstractValue>,
    b: Rc<AbstractValue>,
    target_type: ExpressionType,
) -> Rc<AbstractValue> {
    let otherwise = if in_range(operator, a.cached_interval(), b.cached_interval(), target_type) {
        Rc::new(bool_value(false))
    } else {
        Rc::new(AbstractValue::typed_binary(operator, a, b, target_type))
    };
    match constants(*a, *b) {
        Some((v1, v2)) => folded_or(overflow_of_constants(operator, v1, v2, target_type), otherwise),
        None => otherwise,
    }
}

/// The value of a call of an intrinsic function of two operands: the expression of
/// the call, with the size of `a` plus one.
pub open spec fn binary_call(a: Rc<AbstractValue>, b: Rc<AbstractValue>, name: KnownNames) -> Rc<
    AbstractValue,
> {
    Rc::new(
        AbstractValue::unary(
            Expression::IntrinsicBinary { left: a, right: b, name },
            a.expression_size,
        ),
    )
}

/// The value of a call of an intrinsic bit vector function: the folded constant, or
/// the expression of the call.
pub open spec fn bit_vector_call(a: Rc<AbstractValue>, bit_length: u8, name: KnownNames) -> Rc<
    AbstractValue,
> {
    let built = Rc::new(
        AbstractValue::unary(
            Expression::IntrinsicBitVectorUnary { operand: a, bit_length, name },
            a.expression_size,
        ),
    );
    match constant(*a) {
        Some(v) => folded_or(v.bit_vector_intrinsic(bit_length, name), built),
        None => built,
    }
}

/// The value of a call of an intrinsic floating point function: the expression of
/// the call.
pub open spec fn floating_point_call(a: Rc<AbstractValue>, name: KnownNames) -> Rc<AbstractValue> {
    Rc::new(
        AbstractValue::unary(
            Expression::IntrinsicFloatingPointUnary { operand: a, name },
            a.expression_size,
        ),
    )
}

/// Returns an element that is "-a".
pub fn negate(a: Rc<AbstractValue>) -> (result: Rc<AbstractValue>)
    ensures
        result == negated(a),
        a.within_limit() ==> result.within_limit(),
{
    if let Expression::CompileTimeConstant(v1) = &a.expression {
        let folded = v1.neg();
        if !folded.is_bottom() {
            return AbstractValue::of_constant(folded);
        }
    }
    let operand_size = a.expression_size;
    AbstractValue::make_unary(Expression::Neg { operand: a }, operand_size)
}

/// Returns an element that is "a != b".
pub fn not_equals(a: &Rc<AbstractValue>, b: Rc<AbstractValue>) -> (result: Rc<AbstractValue>)
    ensures
        result == inequality(*a, b),
        a.within_limit() && b.within_limit() ==> result.within_limit(),
{
    if let (Expression::CompileTimeConstant(v1), Expression::CompileTimeConstant(v2)) = (
        &a.expression,
        &b.expression,
    ) {
        return AbstractValue::of_constant(v1.not_equals(v2));
    }
    AbstractValue::make_binary(share(a), b, BinaryOperator::Ne)
}

/// Returns an element that is "a < b".
pub fn less_than(a: &Rc<AbstractValue>, b: Rc<AbstractValue>) -> (result: Rc<AbstractValue>)
    ensures
        result == comparison(BinaryOperator::LessThan, *a, b),
        a.within_limit() && b.within_limit() ==> result.within_limit(),
{
    if let (Expression::CompileTimeConstant(v1), Expression::CompileTimeConstant(v2)) = (
        &a.expression,
        &b.expression,
    ) {
        return AbstractValue::of_constant(v1.less_than(v2));
    }
    if let Some(decided) = a.get_cached_interval().less_than(&b.get_cached_interval()) {
        return AbstractValue::of_bool(decided);
    }
    AbstractValue::make_binary(share(a), b, BinaryOperator::LessThan)
}

/// Returns an element that is "a <= b".
pub fn less_or_equal(a: &Rc<AbstractValue>, b: Rc<AbstractValue>) -> (result: Rc<AbstractValue>)
    ensures
        result == comparison(BinaryOperator::LessOrEqual, *a, b),
        a.within_limit() && b.within_limit() ==> result.within_limit(),
{
    if let (Expression::CompileTimeConstant(v1), Expression::CompileTimeConstant(v2)) = (
        &a.expression,
        &b.expression,
    ) {
        return AbstractValue::of_constant(v1.less_or_equal(v2));
    }
    if let Some(decided) = a.get_cached_interval().less_equal(&b.get_cached_interval()) {
        return AbstractValue::of_bool(decided);
    }
    AbstractValue::make_binary(share(a), b, BinaryOperator::LessOrEqual)
}

/// Returns an element that is "a > b".
pub fn greater_than(a: &Rc<AbstractValue>, b: Rc<AbstractValue>) -> (result: Rc<AbstractValue>)
    ensures
        result == comparison(BinaryOperator::GreaterThan, *a, b),
        a.within_limit() && b.within_limit() ==> result.within_limit(),
{
    if let (Expression::CompileTimeConstant(v1), Expression::CompileTimeConstant(v2)) = (
        &a.expression,
        &b.expression,
    ) {
        return AbstractValue::of_constant(v1.greater_than(v2));
    }
    if let Some(decided) = a.get_cached_interval().greater_than(&b.get_cached_interval()) {
        return AbstractValue::of_bool(decided);
    }
    AbstractValue::make_binary(share(a), b, BinaryOperator::GreaterThan)
}

/// Returns an element that is "a >= b".
pub fn greater_or_equal(a: &Rc<AbstractValue>, b: Rc<AbstractValue>) -> (result: Rc<AbstractValue>)
    ensures
        result == comparison(BinaryOperator::GreaterOrEqual, *a, b),
        a.within_limit() && b.within_limit() ==> result.within_limit(),
{
    if let (Expression::CompileTimeConstant(v1), Expression::CompileTimeConstant(v2)) = (
        &a.expression,
        &b.expression,
    ) {
        return AbstractValue::of_constant(v1.greater_or_equal(v2));
    }
    if let Some(decided) = a.get_cached_interval().greater_or_equal(&b.get_cached_interval()) {
        return AbstractValue::of_bool(decided);
    }
    AbstractValue::make_binary(share(a), b, BinaryOperator::GreaterOrEqual)
}

/// Returns an element that is "a & b".
pub fn bit_and(a: &Rc<AbstractValue>, b: Rc<AbstractValue>) -> (result: Rc<AbstractValue>)
    ensures
        result == bit_conjunction(*a, b),
        a.within_limit() && b.within_limit() ==> result.within_limit(),
{
    if known_false(a) {
        // [false & y] -> false
        return AbstractValue::of_bool(false);
    }
    if known_false(&b) {
        // [x & false] -> false
        return AbstractValue::of_bool(false);
    }
    if a.expression.is_zero() {
        // [0 & y] -> 0
        return share(a);
    }
    if b.expression.is_zero() {
        // [x & 0] -> 0
        return b;
    }
    if let (Expression::CompileTimeConstant(v1), Expression::CompileTimeConstant(v2)) = (
        &a.expression,
        &b.expression,
    ) {
        let folded = v1.bit_and(v2);
        if !folded.is_bottom() {
            return AbstractValue::of_constant(folded);
        }
    }
    AbstractValue::make_binary(share(a), b, BinaryOperator::BitAnd)
}

/// Returns an element that is "a | b".
pub fn bit_or(a: &Rc<AbstractValue>, b: Rc<AbstractValue>) -> (result: Rc<AbstractValue>)
    ensures
        result == bit_operation(BinaryOperator::BitOr, *a, b),
        a.within_limit() && b.within_limit() ==> result.within_limit(),
{
    if let (Expression::CompileTimeConstant(v1), Expression::CompileTimeConstant(v2)) = (
        &a.expression,
        &b.expression,
    ) {
        let folded = v1.bit_or(v2);
        if !folded.is_bottom() {
            return AbstractValue::of_constant(folded);
        }
    }
    AbstractValue::make_binary(share(a), b, BinaryOperator::BitOr)
}

/// Returns an element that is "a ^ b".
pub fn bit_xor(a: &Rc<AbstractValue>, b: Rc<AbstractValue>) -> (result: Rc<AbstractValue>)
    ensures
        result == bit_operation(BinaryOperator::BitXor, *a, b),
        a.within_limit() && b.within_limit() ==> result.within_limit(),
{
    if let (Expression::CompileTimeConstant(v1), Expression::CompileTimeConstant(v2)) = (
        &a.expression,
        &b.expression,
    ) {
        let folded = v1.bit_xor(v2);
        if !folded.is_bottom() {
            return AbstractValue::of_constant(folded);
        }
    }
    AbstractValue::make_binary(share(a), b, BinaryOperator::BitXor)
}

/// Returns an element that is "a << b".
pub fn shift_left(a: &Rc<AbstractValue>, b: Rc<AbstractValue>) -> (result: Rc<AbstractValue>)
    ensures
        result == bit_operation(BinaryOperator::Shl, *a, b),
        a.within_limit() && b.within_limit() ==> result.within_limit(),
{
    if let (Expression::CompileTimeConstant(v1), Expression::CompileTimeConstant(v2)) = (
        &a.expression,
        &b.expression,
    ) {
        let folded = v1.shl(v2);
        if !folded.is_bottom() {
            return AbstractValue::of_constant(folded);
        }
    }
    AbstractValue::make_binary(share(a), b, BinaryOperator::Shl)
}

/// Returns an element that is "!a" where a is an integer.
pub fn bit_not(a: &Rc<AbstractValue>, result_type: ExpressionType) -> (result: Rc<AbstractValue>)
    ensures
        result == bit_complement(*a, result_type),
        a.within_limit() ==> result.within_limit(),
{
    if let Expression::CompileTimeConstant(v1) = &a.expression {
        let folded = v1.bit_not(result_type);
        if !folded.is_bottom() {
            return AbstractValue::of_constant(folded);
        }
    }
    AbstractValue::make_unary(
        Expression::BitNot { operand: share(a), result_type },
        a.expression_size,
    )
}

/// Returns an element that is "a >> b".
pub fn shr(a: &Rc<AbstractValue>, b: Rc<AbstractValue>, expression_type: ExpressionType) -> (result: Rc<AbstractValue>)
    ensures
        result == shifted_right(*a, b, expression_type),
        a.within_limit() && b.within_limit() ==> result.within_limit(),
{
    if let (Expression::CompileTimeConstant(v1), Expression::CompileTimeConstant(v2)) = (
        &a.expression,
        &b.expression,
    ) {
        let folded = v1.shr(v2);
        if !folded.is_bottom() {
            return AbstractValue::of_constant(folded);
        }
    }
    AbstractValue::make_typed_binary(share(a), b, expression_type, TypedBinaryOperator::Shr)
}

/// Returns an element that is true if "a + b" is not in range of target_type.
pub fn add_overflows(a: &Rc<AbstractValue>, b: Rc<AbstractValue>, target_type: ExpressionType) -> (result: Rc<AbstractValue>)
    ensures
        result == overflow(TypedBinaryOperator::AddOverflows, *a, b, target_type),
        a.within_limit() && b.within_limit() ==> result.within_limit(),
{
    if let (Expression::CompileTimeConstant(v1), Expression::CompileTimeConstant(v2)) = (
        &a.expression,
        &b.expression,
    ) {
        let folded = v1.add_overflows(v2, &target_type);
        if !folded.is_bottom() {
            return AbstractValue::of_constant(folded);
        }
    }
    let interval = a.get_cached_interval().add(&b.get_cached_interval());
    if interval.is_contained_in(&target_type) {
        return AbstractValue::of_bool(false);
    }
    AbstractValue::make_typed_binary(share(a), b, target_type, TypedBinaryOperator::AddOverflows)
}

/// Returns an element that is true if "a * b" is not in range of target_type.
pub fn mul_overflows(a: &Rc<AbstractValue>, b: Rc<AbstractValue>, target_type: ExpressionType) -> (result: Rc<AbstractValue>)
    ensures
        result == overflow(TypedBinaryOperator::MulOverflows, *a, b, target_type),
        a.within_limit() && b.within_limit() ==> result.within_limit(),
{
    if let (Expression::CompileTimeConstant(v1), Expression::CompileTimeConstant(v2)) = (
        &a.expression,
        &b.expression,
    ) {
        let folded = v1.mul_overflows(v2, &target_type);
        if !folded.is_bottom() {
            return AbstractValue::of_constant(folded);
        }
    }
    let interval = a.get_cached_interval().mul(&b.get_cached_interval());
    if interval.is_contained_in(&target_type) {
        return AbstractValue::of_bool(false);
    }
    AbstractValue::make_typed_binary(share(a), b, target_type, TypedBinaryOperator::MulOverflows)
}

/// Returns an element that is true if "a - b" is not in range of target_type.
pub fn sub_overflows(a: &Rc<AbstractValue>, b: Rc<AbstractValue>, target_type: ExpressionType) -> (result: Rc<AbstractValue>)
    ensures
        result == overflow(TypedBinaryOperator::SubOverflows, *a, b, target_type),
        a.within_limit() && b.within_limit() ==> result.within_limit(),
{
    if let (Expression::CompileTimeConstant(v1), Expression::CompileTimeConstant(v2)) = (
        &a.expression,
        &b.expression,
    ) {
        let folded = v1.sub_overflows(v2, &target_type);
        if !folded.is_bottom() {
            return AbstractValue::of_constant(folded);
        }
    }
    let interval = a.get_cached_interval().sub(&b.get_cached_interval());
    if interval.is_contained_in(&target_type) {
        return AbstractValue::of_bool(false);
    }
    AbstractValue::make_typed_binary(share(a), b, target_type, TypedBinaryOperator::SubOverflows)
}

/// Returns an element that is true if "a << b" shifts away all bits.
pub fn shl_overflows(a: &Rc<AbstractValue>, b: Rc<AbstractValue>, target_type: ExpressionType) -> (result: Rc<AbstractValue>)
    ensures
        result == overflow(TypedBinaryOperator::ShlOverflows, *a, b, target_type),
        a.within_limit() && b.within_limit() ==> result.within_limit(),
{
    if let (Expression::CompileTimeConstant(v1), Expression::CompileTimeConstant(v2)) = (
        &a.expression,
        &b.expression,
    ) {
        let folded = v1.shl_overflows(v2, &target_type);
        if !folded.is_bottom() {
            return AbstractValue::of_constant(folded);
        }
    }
    let interval = b.get_cached_interval();
    if interval.is_contained_in_width_of(&target_type) {
        return AbstractValue::of_bool(false);
    }
    AbstractValue::make_typed_binary(share(a), b, target_type, TypedBinaryOperator::ShlOverflows)
}

/// Returns an element that is true if "a >> b" shifts away all bits.
pub fn shr_overflows(a: &Rc<AbstractValue>, b: Rc<AbstractValue>, target_type: ExpressionType) -> (result: Rc<AbstractValue>)
    ensures
        result == overflow(TypedBinaryOperator::ShrOverflows, *a, b, target_type),
        a.within_limit() && b.within_limit() ==> result.within_limit(),
{
    if let (Expression::CompileTimeConstant(v1), Expression::CompileTimeConstant(v2)) = (
        &a.expression,
        &b.expression,
    ) {
        let folded = v1.shr_overflows(v2, &target_type);
        if !folded.is_bottom() {
            return AbstractValue::of_constant(folded);
        }
    }
    let interval = b.get_cached_interval();
    if interval.is_contained_in_width_of(&target_type) {
        return AbstractValue::of_bool(false);
    }
    AbstractValue::make_typed_binary(share(a), b, target_type, TypedBinaryOperator::ShrOverflows)
}

/// Returns a.f(b) where f is an intrinsic binary function.
///
/// The intrinsic binary functions all work on floating point numbers. They are not
/// folded: the result is the expression of the call, with the size of `a` plus one.
pub fn intrinsic_binary(a: &Rc<AbstractValue>, b: Rc<AbstractValue>, name: KnownNames) -> (result: Rc<AbstractValue>)
    ensures
        result == binary_call(*a, b, name),
        a.within_limit() && b.within_limit() ==> result.within_limit(),
{
    AbstractValue::make_unary(
        Expression::IntrinsicBinary { left: share(a), right: b, name },
        a.expression_size,
    )
}

/// Returns (a as u(8|16|32|64|128)).f() where f is an intrinsic bit vector unary
/// function.
pub fn intrinsic_bit_vector_unary(a: &Rc<AbstractValue>, bit_length: u8, name: KnownNames) -> (result: Rc<AbstractValue>)
    ensures
        result == bit_vector_call(*a, bit_length, name),
        a.within_limit() ==> result.within_limit(),
{
    if let Expression::CompileTimeConstant(v1) = &a.expression {
        let folded = v1.intrinsic_bit_vector_unary(bit_length, name);
        if !folded.is_bottom() {
            return AbstractValue::of_constant(folded);
        }
    }
    AbstractValue::make_unary(
        Expression::IntrinsicBitVectorUnary { operand: share(a), bit_length, name },
        a.expression_size,
    )
}

/// Returns a.f() where f is an intrinsic floating point unary function.
///
/// Floating point constants are not folded: the result is the expression of the
/// call.
pub fn intrinsic_floating_point_unary(a: &Rc<AbstractValue>, name: KnownNames) -> (result: Rc<AbstractValue>)
    ensures
        result == floating_point_call(*a, name),
        a.within_limit() ==> result.within_limit(),
{
    AbstractValue::make_unary(
        Expression::IntrinsicFloatingPointUnary { operand: share(a), name },
        a.expression_size,
    )
}

} // verus!
