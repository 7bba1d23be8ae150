//! The rewrite rules of the operators.
//!
//! Each operator of the engine is a normalizer: it tries its rules in order and
//! applies the first that fits. This module says, rule by rule, what each operator
//! gives. The operators themselves are in `arithmetic`, `negation`, `conjunction`,
//! `disjunction`, `equals`, `conditional` and `refine`; each of them returns what
//! a function of this module gives, which its contract names.
//!
//! The operators apply one another, and a rule may hand an operator a value that
//! is larger than the one it was given, so the size of the operands does not bound
//! the rewriting. A rewrite budget does: a rule that applies an operator hands on a
//! budget that is one less than its own, and with no budget left an operator
//! applies only the rules that apply no operator. The budget is tested nowhere
//! else. The operations of `AbstractValueTrait` start with
//! `k_limits::MAX_REWRITE_DEPTH`.

use vstd::prelude::*;
use std::rc::Rc;
use crate::abstract_value::{bool_value, constant_value, size_sum, AbstractValue};
use crate::arithmetic::ArithmeticOperator;
use crate::constant_domain::ConstantDomain;
use crate::expression::{BinaryOperator, Expression, ExpressionType, TypedBinaryOperator};
use crate::implication::{
    implication,
    implication_of_negation,
    inverse_implication,
    inverse_implication_of_negation,
};
use crate::k_limits;
use crate::lattice::{joined, widened};
use crate::operators::{
    binary_call,
    bit_complement,
    bit_conjunction,
    bit_operation,
    bit_vector_call,
    comparison,
    constant,
    constants,
    floating_point_call,
    inequality,
    negated,
    one,
    overflow,
    shifted_right,
    zero,
};

verus! {

/// The value that is the Boolean `b`.
pub open spec fn boolean(b: bool) -> Rc<AbstractValue> {
    Rc::new(bool_value(b))
}

/// The value that is the constant `c`.
pub open spec fn number(c: ConstantDomain) -> Rc<AbstractValue> {
    Rc::new(constant_value(c))
}

/// The budget that a rule hands on.
pub open spec fn less(budget: usize) -> usize {
    (budget - 1) as usize
}

/// True if `c` is a power of two: it has exactly one bit set.
pub open spec fn power_of_two(c: u128) -> bool {
    c != 0 && c & ((c - 1) as u128) == 0
}

/// What the smart constructor of `operator` gives on `a` and `b`.
pub open spec fn applied(
    operator: ArithmeticOperator,
    a: Rc<AbstractValue>,
    b: Rc<AbstractValue>,
    budget: usize,
) -> Rc<AbstractValue>
    decreases budget, 3int,
{
    match operator {
        ArithmeticOperator::Add => sum(a, b, budget),
        ArithmeticOperator::Div => quotient(a, b, budget),
        ArithmeticOperator::Mul => product(a, b, budget),
        ArithmeticOperator::Rem => modulus(a, b, budget),
        ArithmeticOperator::Sub => difference(a, b, budget),
    }
}

/// The sum `x + c`, where `a` is `x + c1`, `b` is the constant `c2` and `c` is the
/// constant `c1 + c2`.
pub open spec fn reassociated(a: AbstractValue, b: AbstractValue) -> Option<
    (Rc<AbstractValue>, ConstantDomain),
> {
    match a.expression {
        Expression::Add { left, right } => match constants(*right, b) {
            Some((v1, v2)) => if v1.sum(v2) is Bottom {
                None
            } else {
                Some((left, v1.sum(v2)))
            },
            None => None,
        },
        _ => None,
    }
}

/// The value of `a + b`.
///
/// - `x + 0` is `x` and `0 + x` is `x`.
/// - `(x + c1) + c2` is `x + c3`, where `c3` is the constant `c1 + c2`.
/// - `x + (-y)` is `x - y`.
/// - Every other sum is folded or distributed: see [`simplified`].
pub open spec fn sum(a: Rc<AbstractValue>, b: Rc<AbstractValue>, budget: usize) -> Rc<
    AbstractValue,
>
    decreases budget, 2int,
{
    if zero(*b) {
        a
    } else if zero(*a) {
        b
    } else if budget == 0 {
        simplified(a, b, ArithmeticOperator::Add, budget)
    } else {
        match reassociated(*a, *b) {
            Some((left, folded)) => sum(left, number(folded), less(budget)),
            None => match b.expression {
                Expression::Neg { operand } => difference(a, operand, less(budget)),
                _ => simplified(a, b, ArithmeticOperator::Add, budget),
            },
        }
    }
}

/// The value of `a - b`.
///
/// - `0 - y` is `-y` and `x - 0` is `x`.
/// - `x - (-y)` is `x + y`.
/// - Every other difference is folded or distributed: see [`simplified`].
pub open spec fn difference(a: Rc<AbstractValue>, b: Rc<AbstractValue>, budget: usize) -> Rc<
    AbstractValue,
>
    decreases budget, 2int,
{
    if zero(*a) {
        negated(b)
    } else if zero(*b) {
        a
    } else if budget == 0 {
        simplified(a, b, ArithmeticOperator::Sub, budget)
    } else {
        match b.expression {
            Expression::Neg { operand } => sum(a, operand, less(budget)),
            _ => simplified(a, b, ArithmeticOperator::Sub, budget),
        }
    }
}

/// The quotient `x / c`, where `a` is `x / c1`, `b` is the constant `c2`, `c1` is
/// a multiple of `c2` and greater than it, and `c` is `c1 / c2`.
pub open spec fn divided_chain(a: AbstractValue, b: AbstractValue) -> Option<
    (Rc<AbstractValue>, u128),
> {
    match (a.expression, b.expression) {
        (
            Expression::Div { left, right },
            Expression::CompileTimeConstant(ConstantDomain::U128(c2)),
        ) => match right.expression {
            Expression::CompileTimeConstant(ConstantDomain::U128(c1)) => if c2 != 0 && c1 > c2
                && c1 % c2 == 0 {
                Some((left, c1 / c2))
            } else {
                None
            },
            _ => None,
        },
        _ => None,
    }
}

/// The value of `a * b`.
///
/// - `0 * y` is `0`, `1 * y` is `y`, `x * 0` is `0` and `x * 1` is `x`.
/// - `(x / c1) * c2` is `x / (c1 / c2)` where `c1` is a multiple of `c2` and greater.
/// - Every other product is folded or distributed: see [`simplified`].
pub open spec fn product(a: Rc<AbstractValue>, b: Rc<AbstractValue>, budget: usize) -> Rc<
    AbstractValue,
>
    decreases budget, 2int,
{
    if zero(*a) {
        a
    } else if one(*a) {
        b
    } else if zero(*b) {
        b
    } else if one(*b) {
        a
    } else if budget == 0 {
        simplified(a, b, ArithmeticOperator::Mul, budget)
    } else {
        match divided_chain(*a, *b) {
            Some((x, c)) => quotient(x, number(ConstantDomain::U128(c)), less(budget)),
            None => simplified(a, b, ArithmeticOperator::Mul, budget),
        }
    }
}

/// True if `x` is an unsigned constant `c1` and `b` an unsigned constant `c2` that
/// is not zero, and `c1` is a multiple of `c2` and greater than it.
pub open spec fn divisible_factor(x: AbstractValue, b: AbstractValue) -> bool {
    match (x.expression, b.expression) {
        (
            Expression::CompileTimeConstant(ConstantDomain::U128(c1)),
            Expression::CompileTimeConstant(ConstantDomain::U128(c2)),
        ) => c2 != 0 && c1 > c2 && c1 % c2 == 0,
        _ => false,
    }
}

/// The value of `a / b`.
///
/// - `(x * y) / x` is `y` and `(x * y) / y` is `x`.
/// - `(c1 * y) / c2` is `(c1 / c2) * y` where `c1` is a multiple of `c2` and greater.
/// - `((x * y) as t) / x` is `y as t` and `((x * y) as t) / y` is `x as t`, where
///   the divisor is an unsigned constant.
/// - `((c1 * y) as t) / c2` is `((c1 / c2) * y) as t` where `c1` is a multiple of
///   `c2` and greater.
/// - Every other quotient is folded or distributed: see [`simplified`].
pub open spec fn quotient(a: Rc<AbstractValue>, b: Rc<AbstractValue>, budget: usize) -> Rc<
    AbstractValue,
>
    decreases budget, 2int,
{
    match a.expression {
        Expression::Mul { left: x, right: y } => if x.expression.same_as(b.expression) {
            y
        } else if y.expression.same_as(b.expression) {
            x
        } else if budget > 0 && divisible_factor(*x, *b) {
            product(quotient(x, b, less(budget)), y, less(budget))
        } else {
            simplified(a, b, ArithmeticOperator::Div, budget)
        },
        Expression::Cast { operand, target_type } => match (b.expression, operand.expression) {
            (
                Expression::CompileTimeConstant(ConstantDomain::U128(c2)),
                Expression::Mul { left: x, right: y },
            ) => if budget == 0 {
                simplified(a, b, ArithmeticOperator::Div, budget)
            } else if x.expression.same_as(b.expression) {
                converted(y, target_type, less(budget))
            } else if y.expression.same_as(b.expression) {
                converted(x, target_type, less(budget))
            } else {
                if divisible_factor(*x, *b) {
                    converted(
                        product(quotient(x, b, less(budget)), y, less(budget)),
                        target_type,
                        less(budget),
                    )
                } else {
                    simplified(a, b, ArithmeticOperator::Div, budget)
                }
            },
            _ => simplified(a, b, ArithmeticOperator::Div, budget),
        },
        _ => simplified(a, b, ArithmeticOperator::Div, budget),
    }
}

/// The value of `a % b`.
///
/// - `(x as t) % c` is `x % c` where `c` is a power of two that is not greater than
///   the number of values of the sort `t`.
/// - Every other remainder is folded or distributed: see [`simplified`].
pub open spec fn modulus(a: Rc<AbstractValue>, b: Rc<AbstractValue>, budget: usize) -> Rc<
    AbstractValue,
>
    decreases budget, 2int,
{
    if budget == 0 {
        simplified(a, b, ArithmeticOperator::Rem, budget)
    } else {
        match (a.expression, b.expression) {
            (
                Expression::Cast { operand: x, target_type: t },
                Expression::CompileTimeConstant(ConstantDomain::U128(c)),
            ) => if power_of_two(c) && comparison(
                BinaryOperator::LessOrEqual,
                b,
                Rc::new(t.modulo()),
            ).known_bool() == Some(true) {
                modulus(x, b, less(budget))
            } else {
                simplified(a, b, ArithmeticOperator::Rem, budget)
            },
            _ => simplified(a, b, ArithmeticOperator::Rem, budget),
        }
    }
}

/// The address `a` moved by `b` bytes.
///
/// - An address moved by zero stays as it is.
/// - An address that was moved already is moved by the sum of the two distances.
pub open spec fn moved(a: Rc<AbstractValue>, b: Rc<AbstractValue>, budget: usize) -> Rc<
    AbstractValue,
>
    decreases budget, 3int,
{
    if b.expression matches Expression::CompileTimeConstant(ConstantDomain::I128(v)) && v == 0 {
        a
    } else {
        match a.expression {
            Expression::Offset { left, right } => AbstractValue::binary(
                BinaryOperator::Offset,
                left,
                sum(right, b, budget),
            ),
            _ => AbstractValue::binary(BinaryOperator::Offset, a, b),
        }
    }
}

/// The cast of `a` to `target_type` as an expression: `a` itself where it has that
/// sort already.
pub open spec fn cast_of(a: Rc<AbstractValue>, target_type: ExpressionType) -> Rc<AbstractValue> {
    if a.expression.sort() != target_type {
        Rc::new(
            AbstractValue::unary(Expression::Cast { operand: a, target_type }, a.expression_size),
        )
    } else {
        a
    }
}

/// True if a cast to the integer sort `t1` followed by a cast to `t2` keeps what
/// the cast to `t2` alone keeps: `t2` is unsigned and its greatest value is not
/// above the greatest value of `t1`.
pub open spec fn casts_fuse(t1: ExpressionType, t2: ExpressionType) -> bool {
    t1.integer() && t2.unsigned_integer() && t1.greatest() >= t2.greatest()
}

/// The value of `a as target_type`.
///
/// - A constant is folded where the cast is defined on it.
/// - The impossible value stays as it is.
/// - The cast of a conditional or a join is the conditional or join of the casts.
/// - `(x as t1) as t2` is `x as t2` where `t1` is an integer sort, `t2` an unsigned
///   one, and the greatest value of `t1` is at least the greatest value of `t2`.
/// - `(x % c) as t` is `x as t` where `c` is the number of values of the sort `t`.
pub open spec fn converted(a: Rc<AbstractValue>, target_type: ExpressionType, budget: usize) -> Rc<
    AbstractValue,
>
    decreases budget, 2int,
{
    if constant(*a) matches Some(v) && !(v.converted(target_type) is Bottom) {
        number(constant(*a)->0.converted(target_type))
    } else if a.expression is Bottom {
        a
    } else if budget == 0 {
        cast_of(a, target_type)
    } else {
        match a.expression {
            Expression::ConditionalExpression { condition, consequent, alternate } => choice(
                condition,
                converted(consequent, target_type, less(budget)),
                converted(alternate, target_type, less(budget)),
                less(budget),
            ),
            Expression::Join { left, right, path } => joined(
                converted(left, target_type, less(budget)),
                converted(right, target_type, less(budget)),
                path,
            ),
            Expression::Cast { operand, target_type: t1 } => if casts_fuse(t1, target_type) {
                converted(operand, target_type, less(budget))
            } else {
                cast_of(a, target_type)
            },
            Expression::Rem { left, right } => if equality(
                right,
                Rc::new(target_type.modulo()),
                less(budget),
            ).known_bool() == Some(true) {
                converted(left, target_type, less(budget))
            } else {
                cast_of(a, target_type)
            },
            _ => cast_of(a, target_type),
        }
    }
}

/// The value of an arithmetic operation that none of the rules of its operator
/// rewrites: two constants are folded, unless folding gives the impossible
/// constant, and every other pair of operands is distributed over.
pub open spec fn simplified(
    a: Rc<AbstractValue>,
    b: Rc<AbstractValue>,
    operator: ArithmeticOperator,
    budget: usize,
) -> Rc<AbstractValue>
    decreases budget, 1int,
{
    match constants(*a, *b) {
        Some((v1, v2)) => if operator.folded(v1, v2) is Bottom {
            distributed(a, b, operator, budget)
        } else {
            number(operator.folded(v1, v2))
        },
        None => distributed(a, b, operator, budget),
    }
}

/// The value of an arithmetic operation that is not folded.
///
/// - An operand that is the unknown or the impossible value is the result: the
///   left one if both are.
/// - `op(c ? x : y, b)` is `c ? op(x, b) : op(y, b)`, and likewise for a
///   conditional on the right.
/// - An operation on a join is the join of the operations on its branches, at the
///   path of the join.
/// - A widened operand is the result.
/// - Every other operation is built as an expression.
pub open spec fn distributed(
    a: Rc<AbstractValue>,
    b: Rc<AbstractValue>,
    operator: ArithmeticOperator,
    budget: usize,
) -> Rc<AbstractValue>
    decreases budget, 0int,
{
    if a.top_or_bottom() {
        a
    } else if b.top_or_bottom() {
        b
    } else if budget > 0 && a.expression is ConditionalExpression {
        choice(
            a.expression->ConditionalExpression_condition,
            applied(operator, a.expression->ConditionalExpression_consequent, b, less(budget)),
            applied(operator, a.expression->ConditionalExpression_alternate, b, less(budget)),
            less(budget),
        )
    } else if budget > 0 && b.expression is ConditionalExpression {
        choice(
            b.expression->ConditionalExpression_condition,
            applied(operator, a, b.expression->ConditionalExpression_consequent, less(budget)),
            applied(operator, a, b.expression->ConditionalExpression_alternate, less(budget)),
            less(budget),
        )
    } else if budget > 0 && a.expression is Join {
        joined(
            AbstractValue::binary(operator.binary(), a.expression->Join_left, b),
            applied(operator, a.expression->Join_right, b, less(budget)),
            a.expression->Join_path,
        )
    } else if budget > 0 && b.expression is Join {
        joined(
            AbstractValue::binary(operator.binary(), a, b.expression->Join_left),
            applied(operator, a, b.expression->Join_right, less(budget)),
            b.expression->Join_path,
        )
    } else if a.expression is Widen {
        a
    } else if b.expression is Widen {
        b
    } else {
        AbstractValue::binary(operator.binary(), a, b)
    }
}

/// The value `a` with its sort changed to `target_type`, as far as that can be
/// done: arithmetic, conditionals and joins are rebuilt from their retyped
/// operands, a cast to a reference is dropped, a variable gets the sort, and every
/// other value stays as it is.
pub open spec fn retyped(a: Rc<AbstractValue>, target_type: ExpressionType, budget: usize) -> Rc<
    AbstractValue,
>
    decreases budget, 2int,
{
    if a.expression is Variable {
        Rc::new(
            AbstractValue::made_from(
                Expression::Variable { path: a.expression->Variable_path, var_type: target_type },
                1,
            ),
        )
    } else if budget == 0 {
        a
    } else {
        let t = target_type;
        let n = less(budget);
        match a.expression {
            Expression::Add { left, right } => sum(retyped(left, t, n), retyped(right, t, n), n),
            Expression::BitAnd { left, right } => bit_conjunction(
                retyped(left, t, n),
                retyped(right, t, n),
            ),
            Expression::BitOr { left, right } => bit_operation(
                BinaryOperator::BitOr,
                retyped(left, t, n),
                retyped(right, t, n),
            ),
            Expression::BitXor { left, right } => bit_operation(
                BinaryOperator::BitXor,
                retyped(left, t, n),
                retyped(right, t, n),
            ),
            Expression::Cast { operand, target_type: tt } => if tt is Reference {
                retyped(operand, t, n)
            } else {
                a
            },
            Expression::ConditionalExpression { condition, consequent, alternate } => choice(
                condition,
                retyped(consequent, t, n),
                retyped(alternate, t, n),
                n,
            ),
            Expression::Div { left, right } => quotient(
                retyped(left, t, n),
                retyped(right, t, n),
                n,
            ),
            Expression::Join { path, left, right } => joined(
                retyped(left, t, n),
                retyped(right, t, n),
                path,
            ),
            Expression::Mul { left, right } => product(
                retyped(left, t, n),
                retyped(right, t, n),
                n,
            ),
            Expression::Rem { left, right } => modulus(
                retyped(left, t, n),
                retyped(right, t, n),
                n,
            ),
            Expression::Shl { left, right } => bit_operation(
                BinaryOperator::Shl,
                retyped(left, t, n),
                retyped(right, t, n),
            ),
            Expression::Sub { left, right } => difference(
                retyped(left, t, n),
                retyped(right, t, n),
                n,
            ),
            Expression::Neg { operand } => negated(retyped(operand, t, n)),
            _ => a,
        }
    }
}

/// The negation of `a` as an expression.
pub open spec fn not_of(a: Rc<AbstractValue>) -> Rc<AbstractValue> {
    Rc::new(AbstractValue::unary(Expression::LogicalNot { operand: a }, a.expression_size))
}

/// The value of `!a`.
///
/// - A Boolean constant is folded, and the impossible value stays as it is.
/// - `!!x` is `x`.
/// - The negation of a comparison of integers is the opposite comparison:
///   `!(x == y)` is `x != y`, `!(x > y)` is `x <= y`, `!(x >= y)` is `x < y`,
///   `!(x < y)` is `x >= y`, `!(x <= y)` is `x > y` and `!(x != y)` is `x == y`.
pub open spec fn negation(a: Rc<AbstractValue>, budget: usize) -> Rc<AbstractValue>
    decreases budget, 2int,
{
    if constant(*a) matches Some(v) && !(v.inverse() is Bottom) {
        number(constant(*a)->0.inverse())
    } else {
        match a.expression {
            Expression::Bottom => a,
            Expression::LogicalNot { operand } => operand,
            Expression::Equals { left: x, right: y } => if x.expression.sort().integer() {
                inequality(x, y)
            } else {
                not_of(a)
            },
            Expression::GreaterThan { left: x, right: y } => if x.expression.sort().integer() {
                comparison(BinaryOperator::LessOrEqual, x, y)
            } else {
                not_of(a)
            },
            Expression::GreaterOrEqual { left: x, right: y } => if x.expression.sort().integer() {
                comparison(BinaryOperator::LessThan, x, y)
            } else {
                not_of(a)
            },
            Expression::LessThan { left: x, right: y } => if x.expression.sort().integer() {
                comparison(BinaryOperator::GreaterOrEqual, x, y)
            } else {
                not_of(a)
            },
            Expression::LessOrEqual { left: x, right: y } => if x.expression.sort().integer() {
                comparison(BinaryOperator::GreaterThan, x, y)
            } else {
                not_of(a)
            },
            Expression::Ne { left: x, right: y } => if budget > 0 && x.expression.sort().integer() {
                equality(x, y, less(budget))
            } else {
                not_of(a)
            },
            _ => not_of(a),
        }
    }
}

/// What is left of the conjunction of `a` and `b` where the shape of `a` decides it:
///
/// - `(x && y) && x` and `(x && y) && y` are `x && y`.
/// - `!x && x` is false.
/// - `(x || y) && x` is `x` and `(x || y) && y` is `y`.
pub open spec fn cancelled(a: Rc<AbstractValue>, b: Rc<AbstractValue>) -> Option<
    Rc<AbstractValue>,
> {
    match a.expression {
        Expression::And { left: x, right: y } => if x.same_as(*b) || y.same_as(*b) {
            Some(a)
        } else {
            None
        },
        Expression::LogicalNot { operand } => if operand.same_as(*b) {
            Some(boolean(false))
        } else {
            None
        },
        Expression::Or { left: x, right: y } => if x.same_as(*b) || y.same_as(*b) {
            Some(b)
        } else {
            None
        },
        _ => None,
    }
}

/// The disjunct of `a` that is left where `b` negates the other one: `y` where `a`
/// is `x || y` and `b` is `!x`, and `x` where `b` is `!y`.
pub open spec fn other_disjunct(a: AbstractValue, b: AbstractValue) -> Option<Rc<AbstractValue>> {
    match (a.expression, b.expression) {
        (Expression::Or { left: x, right: y }, Expression::LogicalNot { operand }) => {
            if x.same_as(b) || y.same_as(b) {
                None
            } else if x.same_as(*operand) {
                Some(y)
            } else if y.same_as(*operand) {
                Some(x)
            } else {
                None
            }
        },
        _ => None,
    }
}

/// The operands `y` and `z`, where `b` is `(x1 && y) || (x2 && z)` and `a` is equal
/// to both `x1` and `x2`.
pub open spec fn common_factor(a: AbstractValue, b: AbstractValue) -> Option<
    (Rc<AbstractValue>, Rc<AbstractValue>),
> {
    match b.expression {
        Expression::Or { left, right } => match (left.expression, right.expression) {
            (
                Expression::And { left: x1, right: y },
                Expression::And { left: x2, right: z },
            ) => if a.same_as(*x1) && a.same_as(*x2) {
                Some((y, z))
            } else {
                None
            },
            _ => None,
        },
        _ => None,
    }
}

/// The conjunct of `a` that is left where `a` is `!(x && y)` and `b` is equal to the
/// other conjunct: `y` where `b` is `x`, and `x` where `b` is `y`.
pub open spec fn other_conjunct(a: AbstractValue, b: AbstractValue) -> Option<Rc<AbstractValue>> {
    match a.expression {
        Expression::LogicalNot { operand } => match operand.expression {
            Expression::And { left: x, right: y } => if x.same_as(b) {
                Some(y)
            } else if y.same_as(b) {
                Some(x)
            } else {
                None
            },
            _ => None,
        },
        _ => None,
    }
}

/// The value of `a && b`, where `b` was refined with `a`: `a` where `b` became
/// true, false where it became false, and else the expression `a && b`.
pub open spec fn conjunction_with_refined(a: Rc<AbstractValue>, b: Rc<AbstractValue>) -> Rc<
    AbstractValue,
> {
    if b.known_bool() == Some(true) {
        a
    } else if b.known_bool() == Some(false) {
        boolean(false)
    } else {
        AbstractValue::binary(BinaryOperator::And, a, b)
    }
}

/// The value of `a && b` where no operand cancels.
///
/// - `!x && !y` is `!(x || y)`.
/// - `!(x && y) && x` is `x && !y` and `!(x && y) && y` is `y && !x`.
/// - Every other conjunction is `a && b'`, where `b'` is `b` refined with `a`: see
///   [`conjunction_with_refined`].
pub open spec fn conjunction_by_refinement(
    a: Rc<AbstractValue>,
    b: Rc<AbstractValue>,
    budget: usize,
) -> Rc<AbstractValue>
    decreases budget, 0int,
{
    if budget == 0 {
        AbstractValue::binary(BinaryOperator::And, a, b)
    } else {
        match (a.expression, b.expression) {
            (
                Expression::LogicalNot { operand: x },
                Expression::LogicalNot { operand: y },
            ) => negation(disjunction(x, y, less(budget)), less(budget)),
            _ => match other_conjunct(*a, *b) {
                Some(other) => conjunction(b, negation(other, less(budget)), less(budget)),
                None => conjunction_with_refined(a, refined(b, a, 7, less(budget))),
            },
        }
    }
}

/// The value of `a && b` as the operators build it for themselves.
///
/// - `false && y` and `x && false` are false, `true && y` is `y` and `x && true`
///   is `x`.
/// - An impossible operand is the result.
/// - An operand that cancels the other decides the result: see [`cancelled`].
/// - `(x || y) && !x` is `y && !x`, and likewise for `!y` and for the operands the
///   other way round.
/// - `x && ((x && y) || (x && z))` is `x && (y || z)`.
/// - Every other conjunction is as [`conjunction_by_refinement`] says.
pub open spec fn conjunction(a: Rc<AbstractValue>, b: Rc<AbstractValue>, budget: usize) -> Rc<
    AbstractValue,
>
    decreases budget, 2int,
{
    if a.known_bool() == Some(false) || b.known_bool() == Some(false) {
        boolean(false)
    } else if a.known_bool() == Some(true) {
        b
    } else if b.known_bool() == Some(true) || a.expression is Bottom {
        a
    } else if b.expression is Bottom {
        b
    } else if cancelled(a, b) is Some {
        cancelled(a, b)->0
    } else if cancelled(b, a) is Some {
        cancelled(b, a)->0
    } else if budget > 0 && other_disjunct(*a, *b) is Some {
        conjunction(other_disjunct(*a, *b)->0, b, less(budget))
    } else if budget > 0 && other_disjunct(*b, *a) is Some {
        conjunction(other_disjunct(*b, *a)->0, a, less(budget))
    } else if budget > 0 {
        match common_factor(*a, *b) {
            Some((y, z)) => conjunction(a, disjunction(y, z, less(budget)), less(budget)),
            None => conjunction_by_refinement(a, b, budget),
        }
    } else {
        conjunction_by_refinement(a, b, budget)
    }
}

/// True if neither operand decides the conjunction by being a constant or the
/// impossible value.
pub open spec fn undecided(a: AbstractValue, b: AbstractValue) -> bool {
    a.known_bool() is None && b.known_bool() is None && !(a.expression is Bottom) && !(
    b.expression is Bottom)
}

/// The value of `a && b` as a caller of the engine gets it.
///
/// - `(x || y) && !x` is `y` and `(x || y) && !y` is `x`, and likewise for the
///   operands the other way round. The disjunct that is left stands for the
///   conjunction where it is looked at under the negation; it holds in more cases
///   than the conjunction does.
/// - Every other conjunction is as [`conjunction`] says.
pub open spec fn conjunction_of_operands(a: Rc<AbstractValue>, b: Rc<AbstractValue>) -> Rc<
    AbstractValue,
> {
    if undecided(*a, *b) && other_disjunct(*a, *b) is Some {
        other_disjunct(*a, *b)->0
    } else if undecided(*a, *b) && other_disjunct(*b, *a) is Some {
        other_disjunct(*b, *a)->0
    } else {
        conjunction(a, b, k_limits::MAX_REWRITE_DEPTH)
    }
}

/// True if `x` is found among the disjuncts of `y`: it is equal to `y`, or `y` is a
/// disjunction and `x` is found among the disjuncts of one of its operands.
pub open spec fn among_disjuncts(x: AbstractValue, y: AbstractValue) -> bool
    decreases y,
{
    ||| x.same_as(y)
    ||| (y.expression matches Expression::Or { left, right } && (among_disjuncts(x, *left)
        || among_disjuncts(x, *right)))
}

/// The value of `a || b` where both `a` and `b` are conjunctions: `a` is `x1 && y1`
/// and `b` is `x2 && y2`.
///
/// - `(x && y) || (x && !y)` is `x`.
/// - `(x && y1) || (x && y2)` is `x && (y1 || y2)`.
/// - `(x1 && y) || (x2 && y)` is `(x1 || x2) && y`.
/// - `(x && y1) || ((x && x3) && y2)` is `x && (y1 || (x3 && y2))`.
pub open spec fn disjunction_of_conjunctions(
    a: Rc<AbstractValue>,
    b: Rc<AbstractValue>,
    x1: Rc<AbstractValue>,
    y1: Rc<AbstractValue>,
    x2: Rc<AbstractValue>,
    y2: Rc<AbstractValue>,
    budget: usize,
) -> Rc<AbstractValue>
    decreases budget, 0int,
{
    if budget == 0 {
        AbstractValue::binary(BinaryOperator::Or, a, b)
    } else {
        let n = less(budget);
        if x1.same_as(*x2) {
            if negation(y1, n).same_as(*y2) {
                x1
            } else {
                conjunction(x1, disjunction(y1, y2, n), n)
            }
        } else if y1.same_as(*y2) {
            conjunction(disjunction(x1, x2, n), y1, n)
        } else {
            match x2.expression {
                Expression::And { left: x, right: x3 } => if x1.same_as(*x) {
                    conjunction(x1, disjunction(y1, conjunction(x3, y2, n), n), n)
                } else {
                    AbstractValue::binary(BinaryOperator::Or, a, b)
                },
                _ => AbstractValue::binary(BinaryOperator::Or, a, b),
            }
        }
    }
}

/// The condition `c` and the value `e`, where `a` is `(c ? e : 1) == 1` and `b` is
/// `(c ? e : 1) == 0`.
pub open spec fn one_or_zero(a: AbstractValue, b: AbstractValue) -> Option<
    (Rc<AbstractValue>, Rc<AbstractValue>),
> {
    match (a.expression, b.expression) {
        (
            Expression::Equals { left: l1, right: r1 },
            Expression::Equals { left: l2, right: r2 },
        ) => if l1.same_as(*l2) && one(*r1) && zero(*r2) {
            match l1.expression {
                Expression::ConditionalExpression { condition, consequent, alternate } => if one(
                    *alternate,
                ) {
                    Some((condition, consequent))
                } else {
                    None
                },
                _ => None,
            }
        } else {
            None
        },
        _ => None,
    }
}

/// The value of `a || b` where neither operand is a constant, the unknown or the
/// impossible value, and neither is found among the disjuncts of the other.
///
/// - `!x || x` and `x || !x` are true.
/// - Two conjunctions are joined as [`disjunction_of_conjunctions`] says.
/// - `((c ? e : 1) == 1) || ((c ? e : 1) == 0)` is `!c || e == 0 || e == 1`.
/// - `(x && y) || x` is `x`, and `x || (x && y)` is `x`.
/// - `(x && y) || (l || r)` is true where `!x` is found to imply `l` and `!y` to
///   imply `r`.
/// - `(x && !y) || y` is `y || x`.
/// - `x || !(x || y)` is `x || !y`.
pub open spec fn disjunction_by_shape(
    a: Rc<AbstractValue>,
    b: Rc<AbstractValue>,
    budget: usize,
) -> Rc<AbstractValue>
    decreases budget, 1int,
{
    let unsimplified = AbstractValue::binary(BinaryOperator::Or, a, b);
    if a.expression matches Expression::LogicalNot { operand } && operand.same_as(*b) {
        boolean(true)
    } else if b.expression matches Expression::LogicalNot { operand } && operand.same_as(*a) {
        boolean(true)
    } else {
        match (a.expression, b.expression) {
            (
                Expression::And { left: x1, right: y1 },
                Expression::And { left: x2, right: y2 },
            ) => disjunction_of_conjunctions(a, b, x1, y1, x2, y2, budget),
            (Expression::Equals { .. }, Expression::Equals { .. }) => {
                match one_or_zero(*a, *b) {
                    Some((c, e)) => if budget > 0 {
                        disjunction(
                            disjunction(
                                negation(c, less(budget)),
                                equality(e, number(ConstantDomain::U128(0)), less(budget)),
                                less(budget),
                            ),
                            equality(e, number(ConstantDomain::U128(1)), less(budget)),
                            less(budget),
                        )
                    } else {
                        unsimplified
                    },
                    None => unsimplified,
                }
            },
            (Expression::And { left: x, right: y }, _) => if x.same_as(*b) || y.same_as(*b) {
                b
            } else if b.expression matches Expression::Or { left, right } && inverse_implication(
                *x,
                *left,
            ) && inverse_implication(*y, *right) {
                boolean(true)
            } else {
                match y.expression {
                    Expression::LogicalNot { operand } => if budget > 0 && operand.same_as(*b) {
                        disjunction(operand, x, less(budget))
                    } else {
                        unsimplified
                    },
                    _ => unsimplified,
                }
            },
            (_, Expression::And { left: x, right: y }) => if x.same_as(*a) || y.same_as(*a) {
                a
            } else {
                unsimplified
            },
            (_, Expression::LogicalNot { operand }) => match operand.expression {
                Expression::Or { left: x2, right: y } => if budget > 0 && a.same_as(*x2) {
                    disjunction(a, negation(y, less(budget)), less(budget))
                } else {
                    unsimplified
                },
                _ => unsimplified,
            },
            _ => unsimplified,
        }
    }
}

/// The value of `a || b`.
///
/// - `false || y` is `y`, `x || false` is `x`, and `true || y` and `x || true` are
///   true.
/// - An unknown or impossible operand is the result.
/// - `x || x` is `x`.
/// - `!x || y` is true where `x` is among the disjuncts of `y`, and likewise
///   `x || !y` where `y` is among the disjuncts of `x`.
/// - An operand that is among the disjuncts of the other is dropped.
/// - `x || (y && z)` is `x || z` where `!x` is found to imply `y`.
/// - `x || y` is `x` where `!x` is found to imply `!y`.
/// - Every other disjunction is as [`disjunction_by_shape`] says.
pub open spec fn disjunction(a: Rc<AbstractValue>, b: Rc<AbstractValue>, budget: usize) -> Rc<
    AbstractValue,
>
    decreases budget, 2int,
{
    if a.known_bool() == Some(false) {
        b
    } else if a.known_bool() == Some(true) || b.known_bool() == Some(true) {
        boolean(true)
    } else if b.top_or_bottom() {
        b
    } else if a.top_or_bottom() || b.known_bool() == Some(false) {
        a
    } else if a.expression.same_as(b.expression) {
        b
    } else if a.expression matches Expression::LogicalNot { operand } && among_disjuncts(
        *operand,
        *b,
    ) {
        boolean(true)
    } else if b.expression matches Expression::LogicalNot { operand } && among_disjuncts(
        *operand,
        *a,
    ) {
        boolean(true)
    } else if among_disjuncts(*a, *b) {
        b
    } else if among_disjuncts(*b, *a) {
        a
    } else if budget > 0 && b.expression is And && inverse_implication(
        *a,
        *b.expression->And_left,
    ) {
        disjunction(a, b.expression->And_right, less(budget))
    } else if inverse_implication_of_negation(*a, *b) {
        a
    } else {
        disjunction_by_shape(a, b, budget)
    }
}

/// The unsigned integer that `a` is a constant for, if it is one.
pub open spec fn unsigned(a: AbstractValue) -> Option<u128> {
    match a.expression {
        Expression::CompileTimeConstant(ConstantDomain::U128(v)) => Some(v),
        _ => None,
    }
}

/// The equality of `a` and `b` as an expression, or true where the two have the
/// same expression and are not floating point numbers.
pub open spec fn equality_of_same(a: Rc<AbstractValue>, b: Rc<AbstractValue>) -> Rc<
    AbstractValue,
> {
    if a.expression.same_as(b.expression) && !a.expression.sort().floating_point() {
        boolean(true)
    } else {
        AbstractValue::binary(BinaryOperator::Equals, a, b)
    }
}

/// The value of `c == k`, where `c ? c1 : c2` is a conditional of two unsigned
/// constants and `k` is an unsigned constant: `c` where `k` is `c1`, `!c` where `k`
/// is `c2`, and `None` where it is neither or the branches are no such constants.
pub open spec fn selected(
    condition: Rc<AbstractValue>,
    consequent: Rc<AbstractValue>,
    alternate: Rc<AbstractValue>,
    k: u128,
    budget: usize,
) -> Option<Rc<AbstractValue>>
    decreases budget, 3int,
{
    match (unsigned(*consequent), unsigned(*alternate)) {
        (Some(c1), Some(c2)) => if c1 == k {
            Some(condition)
        } else if c2 == k {
            Some(negation(condition, budget))
        } else {
            None
        },
        _ => None,
    }
}

/// The value of `a == b`.
///
/// - Two constants are compared.
/// - A variable is equal to itself, unless it is a floating point number.
/// - `(c ? c1 : c2) == c1` is `c` and `(c ? c1 : c2) == c2` is `!c`, for unsigned
///   constants, and likewise with the constant on the left.
/// - `!x == 0` is `x`, `x == 0` is `!x` and `x == 1` is `x`, where `x` is a Boolean.
/// - `(x ? y : z) == z` is `!x || y == z`.
/// - A value is equal to a value with the same expression, unless it is a floating
///   point number.
pub open spec fn equality(a: Rc<AbstractValue>, b: Rc<AbstractValue>, budget: usize) -> Rc<
    AbstractValue,
>
    decreases budget, 4int,
{
    let built = AbstractValue::binary(BinaryOperator::Equals, a, b);
    match (a.expression, b.expression) {
        (Expression::CompileTimeConstant(v1), Expression::CompileTimeConstant(v2)) => number(
            v1.equality(v2),
        ),
        (
            Expression::Variable { path: p1, var_type: t1 },
            Expression::Variable { path: p2, var_type: t2 },
        ) => if p1.same_as(*p2) && !t1.floating_point() && !t2.floating_point() {
            boolean(true)
        } else {
            built
        },
        (
            Expression::ConditionalExpression { condition, consequent, alternate },
            Expression::CompileTimeConstant(ConstantDomain::U128(k)),
        ) => match selected(condition, consequent, alternate, k, budget) {
            Some(result) => result,
            None => built,
        },
        (
            Expression::CompileTimeConstant(ConstantDomain::U128(k)),
            Expression::ConditionalExpression { condition, consequent, alternate },
        ) => match selected(condition, consequent, alternate, k, budget) {
            Some(result) => result,
            None => built,
        },
        (
            Expression::LogicalNot { operand },
            Expression::CompileTimeConstant(ConstantDomain::U128(k)),
        ) => if k == 0 && operand.expression.sort() is Bool {
            operand
        } else {
            built
        },
        (x, Expression::CompileTimeConstant(ConstantDomain::U128(k))) => if x.sort() is Bool && k
            == 0 {
            negation(a, budget)
        } else if x.sort() is Bool && k == 1 {
            a
        } else {
            built
        },
        (Expression::ConditionalExpression { condition: x, consequent: y, alternate: z }, _) => {
            if z.same_as(*b) {
                if budget > 0 {
                    disjunction(
                        negation(x, less(budget)),
                        equality(y, z, less(budget)),
                        less(budget),
                    )
                } else {
                    built
                }
            } else {
                equality_of_same(a, b)
            }
        },
        _ => equality_of_same(a, b),
    }
}

/// The conditional expression of a condition and two branches, with the sum of
/// their three sizes as its size.
pub open spec fn conditional_of(
    c: Rc<AbstractValue>,
    consequent: Rc<AbstractValue>,
    alternate: Rc<AbstractValue>,
) -> Rc<AbstractValue> {
    Rc::new(
        AbstractValue::made_from(
            Expression::ConditionalExpression { condition: c, consequent, alternate },
            size_sum(
                size_sum(c.expression_size, consequent.expression_size),
                alternate.expression_size,
            ),
        ),
    )
}

/// The value of `c ? consequent : alternate` where `c` is a disjunction `x || y`
/// and the consequent shows one of these shapes:
///
/// - `(x || y) ? !x : z` is `!x && (y || z)`.
/// - `(x || y) ? (x ? a : b) : b` is `x ? a : b`, and likewise for `y`.
/// - `(x || y) ? (x ? a : b) : a` is `x ? a : (y ? b : a)`, and with `y` in place of
///   `x` it is `y ? a : (x ? b : a)`.
pub open spec fn choice_of_disjunction(
    c: Rc<AbstractValue>,
    consequent: Rc<AbstractValue>,
    alternate: Rc<AbstractValue>,
    budget: usize,
) -> Option<Rc<AbstractValue>>
    decreases budget, 1int,
{
    if budget == 0 {
        None
    } else {
        let n = less(budget);
        match (c.expression, consequent.expression) {
            (
                Expression::Or { left: x, right: y },
                Expression::LogicalNot { operand },
            ) => if x.same_as(*operand) {
                Some(conjunction(consequent, disjunction(y, alternate, n), n))
            } else {
                None
            },
            (
                Expression::Or { left: x, right: y },
                Expression::ConditionalExpression { condition, consequent: a, alternate: b },
            ) => if x.same_as(*condition) && b.same_as(*alternate) {
                Some(choice(x, a, alternate, n))
            } else if y.same_as(*condition) && b.same_as(*alternate) {
                Some(choice(y, a, alternate, n))
            } else if x.same_as(*condition) && a.same_as(*alternate) {
                Some(choice(x, a, choice(y, b, alternate, n), n))
            } else if y.same_as(*condition) && a.same_as(*alternate) {
                Some(choice(y, a, choice(x, b, alternate, n), n))
            } else {
                None
            },
            _ => None,
        }
    }
}

/// The value of `c ? consequent : alternate` where the branches were refined with
/// the condition and its negation.
///
/// - `c ? (c ? a : b) : d` is `c ? a : d`.
/// - `c ? (c2 ? a : b) : b` is `(c && c2) ? a : b`.
/// - `c ? (c2 ? a : b) : a` is `(c && !c2) ? b : a`.
/// - `c ? a : (c ? x : b)` is `c ? a : b`.
/// - `c ? a : (c2 ? a : b)` is `(c || c2) ? a : b`.
/// - Where exactly one branch is of a scalar sort, the other branch is retyped to it.
pub open spec fn choice_of_refined(
    c: Rc<AbstractValue>,
    consequent: Rc<AbstractValue>,
    alternate: Rc<AbstractValue>,
    budget: usize,
) -> Rc<AbstractValue>
    decreases budget, 1int,
{
    if budget == 0 {
        conditional_of(c, consequent, alternate)
    } else {
        let n = less(budget);
        if consequent.expression matches Expression::ConditionalExpression {
            condition: c2,
            consequent: a,
            alternate: b,
        } && (c.same_as(*c2) || b.same_as(*alternate) || a.same_as(*alternate)) {
            let c2 = consequent.expression->ConditionalExpression_condition;
            let a = consequent.expression->ConditionalExpression_consequent;
            let b = consequent.expression->ConditionalExpression_alternate;
            if c.same_as(*c2) {
                choice(c, a, alternate, n)
            } else if b.same_as(*alternate) {
                choice(conjunction(c, c2, n), a, alternate, n)
            } else {
                choice(conjunction(c, negation(c2, n), n), b, alternate, n)
            }
        } else if alternate.expression matches Expression::ConditionalExpression {
            condition: c2,
            consequent: a,
            alternate: b,
        } && (c.same_as(*c2) || a.same_as(*consequent)) {
            let c2 = alternate.expression->ConditionalExpression_condition;
            let b = alternate.expression->ConditionalExpression_alternate;
            if c.same_as(*c2) {
                choice(c, consequent, b, n)
            } else {
                choice(disjunction(c, c2, n), consequent, b, n)
            }
        } else {
            let consequent_type = consequent.expression.sort();
            let alternate_type = alternate.expression.sort();
            if !consequent_type.primitive() && alternate_type.primitive() {
                conditional_of(c, retyped(consequent, alternate_type, n), alternate)
            } else if consequent_type.primitive() && !alternate_type.primitive() {
                conditional_of(c, consequent, retyped(alternate, consequent_type, n))
            } else {
                conditional_of(c, consequent, alternate)
            }
        }
    }
}

/// The value of `c ? consequent : alternate`.
///
/// - An impossible condition gives the consequent, an unknown condition itself.
/// - An impossible branch gives the other branch.
/// - `c ? x : x` is `x`, `x ? x : y` is `x || y` and `y ? x : y` is `y && x`.
/// - `true ? a : b` is `a` and `false ? a : b` is `b`.
/// - `c ? true : false` is `c` and `c ? false : true` is `!c`.
/// - `!c ? a : b` is `c ? b : a`.
/// - A condition that is a disjunction is tried as [`choice_of_disjunction`] says.
/// - Every other conditional has its consequent refined with `c` and its alternate
///   with `!c`, and is then as [`choice_of_refined`] says.
pub open spec fn choice(
    c: Rc<AbstractValue>,
    consequent: Rc<AbstractValue>,
    alternate: Rc<AbstractValue>,
    budget: usize,
) -> Rc<AbstractValue>
    decreases budget, 2int,
{
    if c.expression is Bottom {
        consequent
    } else if c.expression is Top {
        c
    } else if consequent.expression is Bottom {
        alternate
    } else if alternate.expression is Bottom {
        consequent
    } else if consequent.expression.same_as(alternate.expression) {
        consequent
    } else if budget > 0 && c.expression.same_as(consequent.expression) {
        disjunction(c, alternate, less(budget))
    } else if budget > 0 && c.expression.same_as(alternate.expression) {
        conjunction(c, consequent, less(budget))
    } else if c.known_bool() == Some(true) {
        consequent
    } else if c.known_bool() == Some(false) {
        alternate
    } else if consequent.known_bool() == Some(true) && alternate.known_bool() == Some(false) {
        c
    } else if budget == 0 {
        conditional_of(c, consequent, alternate)
    } else if consequent.known_bool() == Some(false) && alternate.known_bool() == Some(true) {
        negation(c, less(budget))
    } else if c.expression is LogicalNot {
        choice(c.expression->LogicalNot_operand, alternate, consequent, less(budget))
    } else if choice_of_disjunction(c, consequent, alternate, budget) is Some {
        choice_of_disjunction(c, consequent, alternate, budget)->0
    } else {
        choice_of_refined(
            c,
            refined(consequent, c, 5, less(budget)),
            refined(alternate, negation(c, less(budget)), 5, less(budget)),
            budget,
        )
    }
}

/// The value of the operation of `expression` on the operands `left` and `right`:
/// what the operator of the expression gives on them. An expression that is not an
/// operation on two operands gives `left`.
#[verifier::opaque]
pub open spec fn rebuilt_binary(
    expression: Expression,
    left: Rc<AbstractValue>,
    right: Rc<AbstractValue>,
    n: usize,
) -> Rc<AbstractValue>
    decreases n, 7int,
{
    match expression {
        Expression::Add { .. } => sum(left, right, n),
        Expression::And { .. } => conjunction(left, right, n),
        Expression::BitAnd { .. } => bit_conjunction(left, right),
        Expression::BitOr { .. } => bit_operation(BinaryOperator::BitOr, left, right),
        Expression::BitXor { .. } => bit_operation(BinaryOperator::BitXor, left, right),
        Expression::Div { .. } => quotient(left, right, n),
        Expression::Equals { .. } => equality(left, right, n),
        Expression::GreaterOrEqual { .. } => comparison(BinaryOperator::GreaterOrEqual, left, right),
        Expression::GreaterThan { .. } => comparison(BinaryOperator::GreaterThan, left, right),
        Expression::LessOrEqual { .. } => comparison(BinaryOperator::LessOrEqual, left, right),
        Expression::LessThan { .. } => comparison(BinaryOperator::LessThan, left, right),
        Expression::Mul { .. } => product(left, right, n),
        Expression::Ne { .. } => inequality(left, right),
        Expression::Offset { .. } => moved(left, right, n),
        Expression::Or { .. } => disjunction(left, right, n),
        Expression::Rem { .. } => modulus(left, right, n),
        Expression::Shl { .. } => bit_operation(BinaryOperator::Shl, left, right),
        Expression::Sub { .. } => difference(left, right, n),
        Expression::AddOverflows { result_type, .. } => overflow(
            TypedBinaryOperator::AddOverflows,
            left,
            right,
            result_type,
        ),
        Expression::MulOverflows { result_type, .. } => overflow(
            TypedBinaryOperator::MulOverflows,
            left,
            right,
            result_type,
        ),
        Expression::ShlOverflows { result_type, .. } => overflow(
            TypedBinaryOperator::ShlOverflows,
            left,
            right,
            result_type,
        ),
        Expression::ShrOverflows { result_type, .. } => overflow(
            TypedBinaryOperator::ShrOverflows,
            left,
            right,
            result_type,
        ),
        Expression::SubOverflows { result_type, .. } => overflow(
            TypedBinaryOperator::SubOverflows,
            left,
            right,
            result_type,
        ),
        Expression::Shr { result_type, .. } => shifted_right(left, right, result_type),
        Expression::IntrinsicBinary { name, .. } => binary_call(left, right, name),
        Expression::Join { path, .. } => joined(left, right, path),
        _ => left,
    }
}

/// The value of the operation of `expression` on `operand`: what the operator of
/// the expression gives on it. An expression that is not an operation on one
/// operand gives the operand.
#[verifier::opaque]
pub open spec fn rebuilt_unary(expression: Expression, operand: Rc<AbstractValue>, n: usize) -> Rc<
    AbstractValue,
>
    decreases n, 7int,
{
    match expression {
        Expression::BitNot { result_type, .. } => bit_complement(operand, result_type),
        Expression::Cast { target_type, .. } => converted(operand, target_type, n),
        Expression::IntrinsicBitVectorUnary { bit_length, name, .. } => bit_vector_call(
            operand,
            bit_length,
            name,
        ),
        Expression::IntrinsicFloatingPointUnary { name, .. } => floating_point_call(operand, name),
        Expression::LogicalNot { .. } => negation(operand, n),
        Expression::Neg { .. } => negated(operand),
        Expression::Widen { path, .. } => widened(operand, path),
        _ => operand,
    }
}

/// The heap block layout of `expression` with the given length and alignment.
pub open spec fn rebuilt_layout(
    expression: Expression,
    length: Rc<AbstractValue>,
    alignment: Rc<AbstractValue>,
) -> Rc<AbstractValue> {
    match expression {
        Expression::HeapBlockLayout { source, .. } => Rc::new(
            AbstractValue::made_from(
                Expression::HeapBlockLayout { length, alignment, source },
                1,
            ),
        ),
        _ => length,
    }
}

/// The constant that `condition` says `a` is equal to: `condition` is an equality
/// of that constant and a value that is equal to `a`.
pub open spec fn equated_constant(a: AbstractValue, condition: AbstractValue) -> Option<
    Rc<AbstractValue>,
> {
    match condition.expression {
        Expression::Equals { left, right } => if left.expression is CompileTimeConstant
            && a.same_as(*right) {
            Some(left)
        } else if right.expression is CompileTimeConstant && a.same_as(*left) {
            Some(right)
        } else {
            None
        },
        _ => None,
    }
}

/// The value `a` refined with the path condition `pc`, which is known to hold, at
/// the given depth.
///
/// - At the depth limit nothing is refined.
/// - A value that is equal to the condition is true.
/// - A value that the condition equates with a constant is that constant.
/// - A conditional whose condition is found to be implied is its consequent; one
///   whose condition is found to be excluded is its alternate.
/// - A disjunction with an implied operand is true, one with two excluded operands
///   is false, and one with one excluded operand is the other operand.
/// - A Boolean variable that is found to be implied is true, one that is found to
///   be excluded is false.
/// - Every other value is rebuilt by its operator from its refined operands.
pub open spec fn refined(
    a: Rc<AbstractValue>,
    pc: Rc<AbstractValue>,
    depth: usize,
    budget: usize,
) -> Rc<AbstractValue>
    decreases budget, 2int,
{
    if depth >= k_limits::MAX_REFINE_DEPTH {
        a
    } else if pc.same_as(*a) {
        boolean(true)
    } else if equated_constant(*a, *pc) is Some {
        equated_constant(*a, *pc)->0
    } else if a.expression matches Expression::Variable { var_type, .. } {
        if !(a.expression->Variable_var_type is Bool) {
            a
        } else if implication(*pc, *a) {
            boolean(true)
        } else if implication_of_negation(*pc, *a) {
            boolean(false)
        } else {
            a
        }
    } else if budget == 0 {
        a
    } else {
        let n = less(budget);
        let d = (depth + 1) as usize;
        match a.expression {
            Expression::ConditionalExpression { condition, consequent, alternate } => {
                if implication(*pc, *condition) {
                    refined(consequent, pc, d, n)
                } else if implication_of_negation(*pc, *condition) {
                    refined(alternate, pc, d, n)
                } else if refined(condition, pc, d, n).known_bool() == Some(true) {
                    refined(consequent, pc, d, n)
                } else if refined(condition, pc, d, n).known_bool() == Some(false) {
                    refined(alternate, pc, d, n)
                } else {
                    choice(
                        refined(condition, pc, d, n),
                        refined(consequent, pc, d, n),
                        refined(alternate, pc, d, n),
                        n,
                    )
                }
            },
            Expression::Or { left, right } => {
                if implication(*pc, *left) || implication(*pc, *right) {
                    boolean(true)
                } else if implication_of_negation(*pc, *left) {
                    if implication_of_negation(*pc, *right) {
                        boolean(false)
                    } else {
                        refined(right, pc, d, n)
                    }
                } else if implication_of_negation(*pc, *right) {
                    refined(left, pc, d, n)
                } else {
                    disjunction(refined(left, pc, d, n), refined(right, pc, d, n), n)
                }
            },
            Expression::Add { left, right, .. }
            | Expression::AddOverflows { left, right, .. }
            | Expression::And { left, right, .. }
            | Expression::BitAnd { left, right, .. }
            | Expression::BitOr { left, right, .. }
            | Expression::BitXor { left, right, .. }
            | Expression::Div { left, right, .. }
            | Expression::Equals { left, right, .. }
            | Expression::GreaterOrEqual { left, right, .. }
            | Expression::GreaterThan { left, right, .. }
            | Expression::IntrinsicBinary { left, right, .. }
            | Expression::Join { left, right, .. }
            | Expression::LessOrEqual { left, right, .. }
            | Expression::LessThan { left, right, .. }
            | Expression::Mul { left, right, .. }
            | Expression::MulOverflows { left, right, .. }
            | Expression::Ne { left, right, .. }
            | Expression::Offset { left, right, .. }
            | Expression::Rem { left, right, .. }
            | Expression::Shl { left, right, .. }
            | Expression::ShlOverflows { left, right, .. }
            | Expression::Shr { left, right, .. }
            | Expression::ShrOverflows { left, right, .. }
            | Expression::Sub { left, right, .. }
            | Expression::SubOverflows { left, right, .. } => rebuilt_binary(
                a.expression,
                refined(left, pc, d, n),
                refined(right, pc, d, n),
                n,
            ),
            Expression::BitNot { operand, .. }
            | Expression::Cast { operand, .. }
            | Expression::IntrinsicBitVectorUnary { operand, .. }
            | Expression::IntrinsicFloatingPointUnary { operand, .. }
            | Expression::LogicalNot { operand, .. }
            | Expression::Neg { operand, .. }
            | Expression::Widen { operand, .. } => rebuilt_unary(
                a.expression,
                refined(operand, pc, d, n),
                n,
            ),
            Expression::HeapBlockLayout { length, alignment, .. } => rebuilt_layout(
                a.expression,
                refined(length, pc, d, n),
                refined(alignment, pc, d, n),
            ),
            _ => a,
        }
    }
}

} // verus!
