//! The arithmetic operators and the cast.
//!
//! Each operator first tries the rewrites that give an operand or a constant, then
//! the rewrites that build a smaller operation, then folds constants, and at last
//! distributes itself over the branches of a conditional or a join. An operator
//! that has used up its rewrite budget builds its expression as it stands.

use vstd::prelude::*;
use std::rc::Rc;
use crate::abstract_value::AbstractValue;
use crate::constant_domain::ConstantDomain;
use crate::expression::{BinaryOperator, Expression, ExpressionType};
use crate::conditional::conditional;
use crate::equals::equals;
use crate::lattice::join;
use crate::operators::{less_or_equal, negate, zero};
use crate::rules::{
    applied,
    cast_of,
    casts_fuse,
    converted,
    difference,
    distributed,
    divisible_factor,
    modulus,
    moved,
    power_of_two,
    product,
    quotient,
    retyped,
    simplified,
    sum,
};
use crate::shared::share;

verus! {

/// The arithmetic operators that fold constants and distribute over branches.
#[derive(Clone, Copy, Debug, PartialEq, Eq, Structural, Hash)]
pub enum ArithmeticOperator {
    Add,
    Div,
    Mul,
    Rem,
    Sub,
}

impl ArithmeticOperator {
    /// The operator of the expression that this operator builds.
    pub open spec fn binary(self) -> BinaryOperator {
        match self {
            ArithmeticOperator::Add => BinaryOperator::Add,
            ArithmeticOperator::Div => BinaryOperator::Div,
            ArithmeticOperator::Mul => BinaryOperator::Mul,
            ArithmeticOperator::Rem => BinaryOperator::Rem,
            ArithmeticOperator::Sub => BinaryOperator::Sub,
        }
    }

    /// The constant that this operator gives on two constants.
    pub open spec fn folded(self, v1: ConstantDomain, v2: ConstantDomain) -> ConstantDomain {
        match self {
            ArithmeticOperator::Add => v1.sum(v2),
            ArithmeticOperator::Div => v1.quotient(v2),
            ArithmeticOperator::Mul => v1.product(v2),
            ArithmeticOperator::Rem => v1.modulus(v2),
            ArithmeticOperator::Sub => v1.difference(v2),
        }
    }

    /// Returns the operator of the expression that this operator builds.
    pub fn as_binary(self) -> (result: BinaryOperator)
        ensures
            result == self.binary(),
    {
        match self {
            ArithmeticOperator::Add => BinaryOperator::Add,
            ArithmeticOperator::Div => BinaryOperator::Div,
            ArithmeticOperator::Mul => BinaryOperator::Mul,
            ArithmeticOperator::Rem => BinaryOperator::Rem,
            ArithmeticOperator::Sub => BinaryOperator::Sub,
        }
    }

    /// Returns the constant that this operator gives on two constants.
    pub fn fold(self, v1: &ConstantDomain, v2: &ConstantDomain) -> (result: ConstantDomain)
        ensures
            result == self.folded(*v1, *v2),
    {
        match self {
            ArithmeticOperator::Add => v1.add(v2),
            ArithmeticOperator::Div => v1.div(v2),
            ArithmeticOperator::Mul => v1.mul(v2),
            ArithmeticOperator::Rem => v1.rem(v2),
            ArithmeticOperator::Sub => v1.sub(v2),
        }
    }
}

fn has_divisible_factor(x: &AbstractValue, b: &AbstractValue) -> (result: bool)
    ensures
        result == divisible_factor(*x, *b),
{
    match (&x.expression, &b.expression) {
        (
            Expression::CompileTimeConstant(ConstantDomain::U128(c1)),
            Expression::CompileTimeConstant(ConstantDomain::U128(c2)),
        ) => *c2 != 0 && *c1 > *c2 && *c1 % *c2 == 0,
        _ => false,
    }
}

fn greatest_of_sort(sort: &ExpressionType) -> (result: u128)
    ensures
        result == sort.greatest(),
{
    match sort {
        ExpressionType::Bool => 1,
        ExpressionType::I8 => 0x7f,
        ExpressionType::I16 => 0x7fff,
        ExpressionType::I32 => 0x7fff_ffff,
        ExpressionType::I64 => 0x7fff_ffff_ffff_ffff,
        ExpressionType::I128 => 0x7fff_ffff_ffff_ffff_ffff_ffff_ffff_ffff,
        ExpressionType::U8 => 0xff,
        ExpressionType::U16 => 0xffff,
        ExpressionType::U32 => 0xffff_ffff,
        ExpressionType::U64 => 0xffff_ffff_ffff_ffff,
        ExpressionType::U128 => 0xffff_ffff_ffff_ffff_ffff_ffff_ffff_ffff,
        _ => 0,
    }
}

fn do_casts_fuse(t1: &ExpressionType, t2: &ExpressionType) -> (result: bool)
    ensures
        result == casts_fuse(*t1, *t2),
{
    t1.is_integer() && t2.is_unsigned_integer() && greatest_of_sort(t1) >= greatest_of_sort(t2)
}

fn is_power_of_two(c: u128) -> (result: bool)
    ensures
        result == power_of_two(c),
{
    c != 0 && c & (c - 1) == 0
}

/// True if the impossible value absorbs `x` under `operator`: the operation on the
/// impossible value and `x` is the impossible value. Only zero is not absorbed by
/// a product: the product with zero is zero.
pub open spec fn absorbed(x: AbstractValue, operator: ArithmeticOperator) -> bool {
    !(operator is Mul && zero(x))
}

/// Applies the smart constructor of `operator` to `a` and `b`.
pub fn apply(
    operator: ArithmeticOperator,
    a: &Rc<AbstractValue>,
    b: Rc<AbstractValue>,
    budget: usize,
) -> (result: Rc<AbstractValue>)
    ensures
        result == applied(operator, *a, b, budget),
        a.within_limit() && b.within_limit() ==> result.within_limit(),
        a.expression is Bottom && absorbed(*b, operator) ==> result.expression is Bottom,
    decreases budget, 3int,
{
    match operator {
        ArithmeticOperator::Add => addition(a, b, budget),
        ArithmeticOperator::Div => divide(a, b, budget),
        ArithmeticOperator::Mul => multiply(a, b, budget),
        ArithmeticOperator::Rem => remainder(a, b, budget),
        ArithmeticOperator::Sub => subtract(a, b, budget),
    }
}

/// Returns an element that is "a + b".
pub fn addition(a: &Rc<AbstractValue>, b: Rc<AbstractValue>, budget: usize) -> (result: Rc<
    AbstractValue,
>)
    ensures
        result == sum(*a, b, budget),
        a.within_limit() && b.within_limit() ==> result.within_limit(),
        a.expression is Bottom ==> result.expression is Bottom,
    decreases budget, 2int,
{
    proof {
        reveal_with_fuel(AbstractValue::within_limit, 3);
        reveal_with_fuel(Expression::within_limit, 3);
    }
    // [x + 0] -> x
    if b.expression.is_zero() {
        return share(a);
    }
    // [0 + x] -> x
    if a.expression.is_zero() {
        return b;
    }
    if budget == 0 {
        return try_to_simplify_binary_op(a, b, ArithmeticOperator::Add, budget);
    }
    // [(x + c1) + c2] -> x + c3 where c3 = c1 + c2
    if let Expression::Add { left, right } = &a.expression {
        if let (Expression::CompileTimeConstant(v1), Expression::CompileTimeConstant(v2)) = (
            &right.expression,
            &b.expression,
        ) {
            let folded = v1.add(v2);
            if !folded.is_bottom() {
                return addition(left, AbstractValue::of_constant(folded), budget - 1);
            }
        }
    }
    // [x + (-y)] -> x - y
    if let Expression::Neg { operand } = &b.expression {
        return subtract(a, share(operand), budget - 1);
    }
    try_to_simplify_binary_op(a, b, ArithmeticOperator::Add, budget)
}

/// Returns an element that is "a - b".
pub fn subtract(a: &Rc<AbstractValue>, b: Rc<AbstractValue>, budget: usize) -> (result: Rc<
    AbstractValue,
>)
    ensures
        result == difference(*a, b, budget),
        a.within_limit() && b.within_limit() ==> result.within_limit(),
        a.expression is Bottom ==> result.expression is Bottom,
    decreases budget, 2int,
{
    proof {
        reveal_with_fuel(AbstractValue::within_limit, 3);
        reveal_with_fuel(Expression::within_limit, 3);
    }
    // [0 - b] -> -b
    if a.expression.is_zero() {
        return negate(b);
    }
    // [a - 0] -> a
    if b.expression.is_zero() {
        return share(a);
    }
    if budget == 0 {
        return try_to_simplify_binary_op(a, b, ArithmeticOperator::Sub, budget);
    }
    // [a - (- operand)] -> a + operand
    if let Expression::Neg { operand } = &b.expression {
        return addition(a, share(operand), budget - 1);
    }
    try_to_simplify_binary_op(a, b, ArithmeticOperator::Sub, budget)
}

/// Returns an element that is "a * b".
pub fn multiply(a: &Rc<AbstractValue>, b: Rc<AbstractValue>, budget: usize) -> (result: Rc<
    AbstractValue,
>)
    ensures
        result == product(*a, b, budget),
        a.within_limit() && b.within_limit() ==> result.within_limit(),
        a.expression is Bottom && absorbed(*b, ArithmeticOperator::Mul) ==> result.expression is Bottom,
    decreases budget, 2int,
{
    proof {
        reveal_with_fuel(AbstractValue::within_limit, 3);
        reveal_with_fuel(Expression::within_limit, 3);
    }
    // [0 * y] -> 0
    if a.expression.is_zero() {
        return share(a);
    }
    // [1 * y] -> y
    if a.expression.is_one() {
        return b;
    }
    // [x * 0] -> 0
    if b.expression.is_zero() {
        return b;
    }
    // [x * 1] -> x
    if b.expression.is_one() {
        return share(a);
    }
    if budget == 0 {
        return try_to_simplify_binary_op(a, b, ArithmeticOperator::Mul, budget);
    }
    // [(x / c1) * c2] -> x / (c1 / c2) if c1 > c2 && c1 % c2 == 0
    if let Expression::CompileTimeConstant(ConstantDomain::U128(c2)) = &b.expression {
        if let Expression::Div { left: x, right } = &a.expression {
            if let Expression::CompileTimeConstant(ConstantDomain::U128(c1)) = &right.expression {
                if *c1 > *c2 && *c1 % *c2 == 0 {
                    return divide(x, AbstractValue::of_u128(*c1 / *c2), budget - 1);
                }
            }
        }
    }
    try_to_simplify_binary_op(a, b, ArithmeticOperator::Mul, budget)
}

/// Returns an element that is "a / b".
#[verifier::rlimit(100)]
#[verifier::spinoff_prover]
pub fn divide(a: &Rc<AbstractValue>, b: Rc<AbstractValue>, budget: usize) -> (result: Rc<
    AbstractValue,
>)
    ensures
        result == quotient(*a, b, budget),
        a.within_limit() && b.within_limit() ==> result.within_limit(),
        a.expression is Bottom ==> result.expression is Bottom,
    decreases budget, 2int,
{
    proof {
        reveal_with_fuel(AbstractValue::within_limit, 3);
        reveal_with_fuel(Expression::within_limit, 3);
    }
    match &a.expression {
        // [(x * y) / x] -> y
        // [(x * y) / y] -> x
        Expression::Mul { left: x, right: y } => {
            if x.expression.eq(&b.expression) {
                return share(y);
            } else if y.expression.eq(&b.expression) {
                return share(x);
            } else if budget > 0 && has_divisible_factor(x, &b) {
                // [(c1 * y) / c2] -> (c1 / c2) * y if c1 >= c2 and c1 % c2 == 0
                let quotient = divide(x, b, budget - 1);
                return multiply(&quotient, share(y), budget - 1);
            }
        },
        Expression::Cast { operand, target_type } => {
            if let (
                Expression::CompileTimeConstant(ConstantDomain::U128(_)),
                Expression::Mul { left: x, right: y },
            ) = (&b.expression, &operand.expression) {
                if budget > 0 {
                    if x.expression.eq(&b.expression) {
                        // [((x * y) as target_type) / x] -> y as target_type
                        return cast(y, *target_type, budget - 1);
                    } else if y.expression.eq(&b.expression) {
                        // [((x * y) as target_type) / y] -> x as target_type
                        return cast(x, *target_type, budget - 1);
                    } else {
                        // [((c1 * y) as t) / c2] -> ((c1 / c2) * y) as t if c1 >= c2 and c1 % c2 == 0
                        if has_divisible_factor(x, &b) {
                            let quotient = divide(x, b, budget - 1);
                            let product = multiply(&quotient, share(y), budget - 1);
                            return cast(&product, *target_type, budget - 1);
                        }
                    }
                }
            }
        },
        _ => (),
    }
    try_to_simplify_binary_op(a, b, ArithmeticOperator::Div, budget)
}

/// Returns an element that is "a % b".
pub fn remainder(a: &Rc<AbstractValue>, b: Rc<AbstractValue>, budget: usize) -> (result: Rc<
    AbstractValue,
>)
    ensures
        result == modulus(*a, b, budget),
        a.within_limit() && b.within_limit() ==> result.within_limit(),
        a.expression is Bottom ==> result.expression is Bottom,
    decreases budget, 2int,
{
    proof {
        reveal_with_fuel(AbstractValue::within_limit, 3);
        reveal_with_fuel(Expression::within_limit, 3);
    }
    if budget == 0 {
        return try_to_simplify_binary_op(a, b, ArithmeticOperator::Rem, budget);
    }
    // [(x as t) % c] -> x % c if c.is_power_of_two() && c <= t.modulo_value()
    if let Expression::Cast { operand: x, target_type: t } = &a.expression {
        if let Expression::CompileTimeConstant(ConstantDomain::U128(c)) = &b.expression {
            if is_power_of_two(*c) {
                let in_range = less_or_equal(&b, t.modulo_value());
                if crate::implication::known_true(&in_range) {
                    return remainder(x, b, budget - 1);
                }
            }
        }
    }
    try_to_simplify_binary_op(a, b, ArithmeticOperator::Rem, budget)
}

/// Returns an element that is "a.b": the address `a` moved by `b` bytes.
pub fn offset(a: &Rc<AbstractValue>, b: Rc<AbstractValue>, budget: usize) -> (result: Rc<
    AbstractValue,
>)
    ensures
        result == moved(*a, b, budget),
        a.within_limit() && b.within_limit() ==> result.within_limit(),
    decreases budget, 3int,
{
    proof {
        reveal_with_fuel(AbstractValue::within_limit, 3);
        reveal_with_fuel(Expression::within_limit, 3);
    }
    if let Expression::CompileTimeConstant(ConstantDomain::I128(v)) = &b.expression {
        if *v == 0 {
            return share(a);
        }
    }
    if let Expression::Offset { left, right } = &a.expression {
        AbstractValue::make_binary(share(left), addition(right, b, budget), BinaryOperator::Offset)
    } else {
        AbstractValue::make_binary(share(a), b, BinaryOperator::Offset)
    }
}

/// Returns an element that is "a as target_type".
pub fn cast(a: &Rc<AbstractValue>, target_type: ExpressionType, budget: usize) -> (result: Rc<
    AbstractValue,
>)
    ensures
        result == converted(*a, target_type, budget),
        a.within_limit() ==> result.within_limit(),
    decreases budget, 2int,
{
    proof {
        reveal_with_fuel(AbstractValue::within_limit, 3);
        reveal_with_fuel(Expression::within_limit, 3);
    }
    if let Expression::CompileTimeConstant(v1) = &a.expression {
        let folded = v1.cast(&target_type);
        if !folded.is_bottom() {
            return AbstractValue::of_constant(folded);
        }
    }
    if matches!(a.expression, Expression::Bottom) {
        return share(a);
    }
    if budget == 0 {
        return cast_unsimplified(a, target_type);
    }
    match &a.expression {
        Expression::ConditionalExpression { condition, consequent, alternate } => conditional(
            condition,
            cast(consequent, target_type, budget - 1),
            cast(alternate, target_type, budget - 1),
            budget - 1,
        ),
        Expression::Join { left, right, path } => join(
            &cast(left, target_type, budget - 1),
            cast(right, target_type, budget - 1),
            path,
        ),
        // [(x as t1) as target_type] -> x as target_type if t1.max_value() >= target_type.max_value()
        Expression::Cast { operand, target_type: t1 } => {
            if do_casts_fuse(t1, &target_type) {
                cast(operand, target_type, budget - 1)
            } else {
                cast_unsimplified(a, target_type)
            }
        },
        // [(x % c1) as t] -> (x as t) if c1 == t.modulo_value()
        Expression::Rem { left, right } => {
            let same_modulus = equals(right, target_type.modulo_value(), budget - 1);
            if crate::implication::known_true(&same_modulus) {
                cast(left, target_type, budget - 1)
            } else {
                cast_unsimplified(a, target_type)
            }
        },
        _ => cast_unsimplified(a, target_type),
    }
}

fn cast_unsimplified(a: &Rc<AbstractValue>, target_type: ExpressionType) -> (result: Rc<
    AbstractValue,
>)
    ensures
        result == cast_of(*a, target_type),
        a.within_limit() ==> result.within_limit(),
{
    if a.expression.infer_type() != target_type {
        AbstractValue::make_unary(
            Expression::Cast { operand: share(a), target_type },
            a.expression_size,
        )
    } else {
        share(a)
    }
}

/// Tries to simplify operation(a, b) by constant folding or by distributing the
/// operation over a and/or b. Returns operation(a, b) if no simplification is
/// possible.
pub fn try_to_simplify_binary_op(
    a: &Rc<AbstractValue>,
    b: Rc<AbstractValue>,
    operator: ArithmeticOperator,
    budget: usize,
) -> (result: Rc<AbstractValue>)
    ensures
        result == simplified(*a, b, operator, budget),
        a.within_limit() && b.within_limit() ==> result.within_limit(),
        a.expression is Bottom ==> result.expression is Bottom,
    decreases budget, 1int,
{
    if let (Expression::CompileTimeConstant(v1), Expression::CompileTimeConstant(v2)) = (
        &a.expression,
        &b.expression,
    ) {
        let folded = operator.fold(v1, v2);
        if !folded.is_bottom() {
            return AbstractValue::of_constant(folded);
        }
    }
    try_to_distribute_binary_op(a, b, operator, budget)
}

/// Tries to distribute the operation over a and/or b.
/// Returns operation(a, b) if no simplification is possible.
pub fn try_to_distribute_binary_op(
    a: &Rc<AbstractValue>,
    b: Rc<AbstractValue>,
    operator: ArithmeticOperator,
    budget: usize,
) -> (result: Rc<AbstractValue>)
    ensures
        result == distributed(*a, b, operator, budget),
        a.within_limit() && b.within_limit() ==> result.within_limit(),
        a.expression is Bottom ==> result.expression is Bottom,
    decreases budget, 0int,
{
    proof {
        reveal_with_fuel(AbstractValue::within_limit, 3);
        reveal_with_fuel(Expression::within_limit, 3);
    }
    // An unknown or impossible operand is the result.
    if matches!(a.expression, Expression::Top | Expression::Bottom) {
        return share(a);
    }
    if matches!(b.expression, Expression::Top | Expression::Bottom) {
        return b;
    }
    if budget > 0 {
        if let Expression::ConditionalExpression { condition, consequent, alternate } =
            &a.expression {
            return conditional(
                condition,
                apply(operator, consequent, share(&b), budget - 1),
                apply(operator, alternate, share(&b), budget - 1),
                budget - 1,
            );
        }
        if let Expression::ConditionalExpression { condition, consequent, alternate } =
            &b.expression {
            return conditional(
                condition,
                apply(operator, a, share(consequent), budget - 1),
                apply(operator, a, share(alternate), budget - 1),
                budget - 1,
            );
        }
        if let Expression::Join { left, right, path } = &a.expression {
            let joined_left = AbstractValue::make_binary(
                share(left),
                share(&b),
                operator.as_binary(),
            );
            return join(&joined_left, apply(operator, right, share(&b), budget - 1), path);
        }
        if let Expression::Join { left, right, path } = &b.expression {
            let joined_left = AbstractValue::make_binary(
                share(a),
                share(left),
                operator.as_binary(),
            );
            return join(&joined_left, apply(operator, a, share(right), budget - 1), path);
        }
    }
    match (&a.expression, &b.expression) {
        (Expression::Widen { .. }, _) => share(a),
        (_, Expression::Widen { .. }) => b,
        _ => AbstractValue::make_binary(share(a), b, operator.as_binary()),
    }
}

/// Attempts to construct an equivalent expression to `a`, but with the difference
/// that the type inferred for the resulting expression will be the target type. If
/// this is not possible, the given expression is returned.
///
/// The need for this arises from the difficulty of correctly typing variables that
/// have generic types when constructed, but then leak out to caller contexts.
pub fn try_to_retype_as(a: &Rc<AbstractValue>, target_type: &ExpressionType, budget: usize) -> (result:
    Rc<AbstractValue>)
    ensures
        result == retyped(*a, *target_type, budget),
        a.within_limit() ==> result.within_limit(),
    decreases budget, 2int,
{
    proof {
        reveal_with_fuel(AbstractValue::within_limit, 3);
        reveal_with_fuel(Expression::within_limit, 3);
    }
    if let Expression::Variable { path, .. } = &a.expression {
        return AbstractValue::make_from(
            Expression::Variable { path: share(path), var_type: *target_type },
            1,
        );
    }
    if budget == 0 {
        return share(a);
    }
    let next = budget - 1;
    match &a.expression {
        Expression::Add { left, right } => addition(
            &try_to_retype_as(left, target_type, next),
            try_to_retype_as(right, target_type, next),
            next,
        ),
        Expression::BitAnd { left, right } => crate::operators::bit_and(
            &try_to_retype_as(left, target_type, next),
            try_to_retype_as(right, target_type, next),
        ),
        Expression::BitOr { left, right } => crate::operators::bit_or(
            &try_to_retype_as(left, target_type, next),
            try_to_retype_as(right, target_type, next),
        ),
        Expression::BitXor { left, right } => crate::operators::bit_xor(
            &try_to_retype_as(left, target_type, next),
            try_to_retype_as(right, target_type, next),
        ),
        Expression::Cast { operand, target_type: tt } => {
            if matches!(tt, ExpressionType::Reference) {
                try_to_retype_as(operand, target_type, next)
            } else {
                share(a)
            }
        },
        Expression::ConditionalExpression { condition, consequent, alternate } => {
            let consequent = try_to_retype_as(consequent, target_type, next);
            let alternate = try_to_retype_as(alternate, target_type, next);
            conditional(condition, consequent, alternate, next)
        },
        Expression::Div { left, right } => divide(
            &try_to_retype_as(left, target_type, next),
            try_to_retype_as(right, target_type, next),
            next,
        ),
        Expression::Join { path, left, right } => join(
            &try_to_retype_as(left, target_type, next),
            try_to_retype_as(right, target_type, next),
            path,
        ),
        Expression::Mul { left, right } => multiply(
            &try_to_retype_as(left, target_type, next),
            try_to_retype_as(right, target_type, next),
            next,
        ),
        Expression::Rem { left, right } => remainder(
            &try_to_retype_as(left, target_type, next),
            try_to_retype_as(right, target_type, next),
            next,
        ),
        Expression::Shl { left, right } => crate::operators::shift_left(
            &try_to_retype_as(left, target_type, next),
            try_to_retype_as(right, target_type, next),
        ),
        Expression::Sub { left, right } => subtract(
            &try_to_retype_as(left, target_type, next),
            try_to_retype_as(right, target_type, next),
            next,
        ),
        Expression::Neg { operand } => negate(try_to_retype_as(operand, target_type, next)),
        _ => share(a),
    }
}

} // verus!
