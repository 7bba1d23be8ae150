//! Abstract values: what is known of a value that a program computes.

use vstd::prelude::*;
use vstd::std_specs::cmp::PartialEqSpecImpl;
use std::rc::Rc;
use crate::arithmetic::{absorbed, ArithmeticOperator};
use crate::environment::Environment;
use crate::heap_blocks::with_blocks_of;
use crate::implication::{
    implication,
    implication_of_negation,
    inverse_implication,
    inverse_implication_of_negation,
};
use crate::known_names::KnownNames;
use crate::lattice::{included, joined, widened};
use crate::rules::{
    choice,
    conjunction_of_operands,
    other_disjunct,
    converted,
    difference,
    disjunction,
    distributed,
    equality,
    modulus,
    moved,
    negation,
    product,
    quotient,
    refined,
    retyped,
    simplified,
    sum,
};
use crate::conditional::fit_branches;
use crate::conjunction::{cancels, fit};
use crate::operators::{
    binary_call,
    bit_complement,
    bit_conjunction,
    bit_operation,
    bit_vector_call,
    comparison,
    constants,
    floating_point_call,
    inequality,
    negated,
    overflow,
    shifted_right,
    zero,
};
use crate::queries::{in_zeroed_heap_block, path_alias};
use crate::argument_refinement::{arguments_within_limit, refined_by_arguments};
use crate::dereference::{dereferenced, with_equalities};
use crate::environment_refinement::refined_by_environment;
use crate::semantics::{
    is_choice,
    is_conjunction,
    is_disjunction,
    is_negation,
    propositional,
    same_truth_under,
};
use crate::constant_domain::{truth, ConstantDomain};
use crate::expression::{BinaryOperator, Expression, ExpressionType, TypedBinaryOperator};
use crate::interval_domain::{bottom_interval, IntervalDomain};
use crate::k_limits;
use crate::path::{Path, PathEnum, PathSelector};
use crate::shared::share;

verus! {

/// A value that is not fully known: a number between 1 and 10, say, but not which.
///
/// A value that is fully known is kept in the same way, so that every operation
/// treats all values alike.
///
/// Values are compared with `==` and hashed by their digest (see `digest`), which
/// both pass over the operand of a widened value, the size and the interval. The
/// order of values is the derived one, so that values can be the keys of ordered
/// maps: it goes by the expression first. It is finer than `==`: it tells apart
/// two widened values of one path by what was widened, and two values of one
/// expression by their sizes and intervals.
#[derive(Clone, Debug, PartialOrd, Ord)]
pub struct AbstractValue {
    /// How this value was built. It is by this tree that the value is refined with
    /// path conditions and actual arguments.
    pub expression: Expression,
    /// How large the expression is. A value whose expression gets too large is
    /// replaced by a variable, or analysis time diverges.
    pub expression_size: u64,
    /// The interval of a value that stands for an expression that got too large.
    /// For every other value this is `None` and the interval follows from the
    /// expression. Equality does not look at it.
    pub interval: Option<IntervalDomain>,
}

impl AbstractValue {
    /// True if the two values are equal: both are widened values of the same path,
    /// whatever was widened, or their expressions are the same tree. Neither the
    /// size nor the interval is looked at.
    pub open spec fn same_as(self, other: AbstractValue) -> bool
        decreases self,
    {
        match (self.expression, other.expression) {
            (Expression::Widen { path: p1, .. }, Expression::Widen { path: p2, .. }) => (
            *p1).same_as(*p2),
            (e1, e2) => e1.same_as(e2),
        }
    }

    /// Returns true if the two values are equal.
    pub fn eq(&self, other: &AbstractValue) -> (result: bool)
        ensures
            result == self.same_as(*other),
        decreases self,
    {
        match (&self.expression, &other.expression) {
            (Expression::Widen { path: p1, .. }, Expression::Widen { path: p2, .. }) => Path::eq(p1, p2),
            (e1, e2) => e1.eq(e2),
        }
    }
}

/// The sum of two sizes, or the greatest size where the sum is greater than that.
pub open spec fn size_sum(a: u64, b: u64) -> u64 {
    if a + b > u64::MAX {
        u64::MAX
    } else {
        (a + b) as u64
    }
}

/// The impossible value: no concrete value corresponds to it.
pub open spec fn bottom_value() -> AbstractValue {
    AbstractValue { expression: Expression::Bottom, expression_size: 1, interval: None }
}

/// The value about which nothing is known: every concrete value corresponds to it.
pub open spec fn top_value() -> AbstractValue {
    AbstractValue { expression: Expression::Top, expression_size: 1, interval: None }
}

/// The value that is the constant `c`, or the impossible value where `c` is the
/// impossible constant.
pub open spec fn constant_value(c: ConstantDomain) -> AbstractValue {
    if c is Bottom {
        bottom_value()
    } else {
        AbstractValue {
            expression: Expression::CompileTimeConstant(c),
            expression_size: 1,
            interval: None,
        }
    }
}

/// The value that is the Boolean `b`.
pub open spec fn bool_value(b: bool) -> AbstractValue {
    constant_value(truth(b))
}

/// The variable of sort `var_type` of which nothing else is known.
pub open spec fn unknown_variable(var_type: ExpressionType) -> Expression {
    Expression::Variable {
        path: Rc::new(Path { value: PathEnum::Alias { value: Rc::new(top_value()) } }),
        var_type,
    }
}

/// A value that is built from an expression and a size is never larger than the
/// greatest size that an expression may have: where the given size is larger, the
/// value is a variable of size one.
pub proof fn lemma_made_from_size(expression: Expression, expression_size: u64)
    ensures
        AbstractValue::made_from(expression, expression_size).expression_size
            <= k_limits::MAX_EXPRESSION_SIZE,
        expression_size > k_limits::MAX_EXPRESSION_SIZE ==> AbstractValue::made_from(
            expression,
            expression_size,
        ).expression is Variable && AbstractValue::made_from(
            expression,
            expression_size,
        ).expression_size == 1,
        expression_size <= k_limits::MAX_EXPRESSION_SIZE ==> AbstractValue::made_from(
            expression,
            expression_size,
        ) == (AbstractValue { expression, expression_size, interval: None }),
{
}

/// The variable of which nothing is known holds no value that is over the size limit.
pub proof fn lemma_unknown_variable_within_limit(var_type: ExpressionType)
    ensures
        unknown_variable(var_type).within_limit(),
{
    let top = top_value();
    assert(top.within_limit());
    let path = Path { value: PathEnum::Alias { value: Rc::new(top) } };
    assert(path.within_limit());
}

impl AbstractValue {
    /// True if no value in this value, itself included, is larger than the greatest
    /// size that an expression may have.
    pub open spec fn within_limit(self) -> bool
        decreases self,
    {
        self.expression_size <= k_limits::MAX_EXPRESSION_SIZE && self.expression.within_limit()
    }

    /// The Boolean that this value is known to be.
    pub open spec fn known_bool(self) -> Option<bool> {
        match self.expression {
            Expression::CompileTimeConstant(c) => c.known_bool(),
            _ => None,
        }
    }

    /// The value that `make_from` builds from `expression` and `expression_size`:
    /// the expression with its size, or, where the size is over the limit, a
    /// variable of the same sort that keeps the interval of the expression.
    pub open spec fn made_from(expression: Expression, expression_size: u64) -> AbstractValue {
        let value = AbstractValue { expression, expression_size, interval: None };
        if expression_size > k_limits::MAX_EXPRESSION_SIZE {
            AbstractValue {
                expression: unknown_variable(expression.sort()),
                expression_size: 1,
                interval: Some(interval_of(value)),
            }
        } else {
            value
        }
    }

    /// The interval that is kept for this value where it stands for an expression
    /// that got too large, else the interval of its expression.
    pub open spec fn cached_interval(self) -> IntervalDomain {
        match self.interval {
            Some(interval) => interval,
            None => interval_of(self),
        }
    }

    /// True if this value is the unknown or the impossible value.
    pub open spec fn top_or_bottom(self) -> bool {
        self.expression is Top || self.expression is Bottom
    }

    /// The value that `make_binary` builds: `left` if it is the unknown or the
    /// impossible value, else `right` if it is one of them, else the operator applied
    /// to the two, with the sum of their sizes as its size.
    pub open spec fn binary(
        operator: BinaryOperator,
        left: Rc<AbstractValue>,
        right: Rc<AbstractValue>,
    ) -> Rc<AbstractValue> {
        if left.top_or_bottom() {
            left
        } else if right.top_or_bottom() {
            right
        } else {
            Rc::new(
                Self::made_from(
                    operator.apply(left, right),
                    size_sum(left.expression_size, right.expression_size),
                ),
            )
        }
    }

    /// The value that `make_typed_binary` builds: the operator applied to the two
    /// operands and the sort, with the sum of the sizes of the operands as its size.
    pub open spec fn typed_binary(
        operator: TypedBinaryOperator,
        left: Rc<AbstractValue>,
        right: Rc<AbstractValue>,
        result_type: ExpressionType,
    ) -> AbstractValue {
        Self::made_from(
            operator.apply(left, right, result_type),
            size_sum(left.expression_size, right.expression_size),
        )
    }

    /// The value that `make_unary` builds from the expression of a unary operator
    /// and the size of its operand.
    pub open spec fn unary(expression: Expression, operand_size: u64) -> AbstractValue {
        Self::made_from(expression, size_sum(operand_size, 1))
    }

    /// Creates an abstract value from a binary expression and keeps track of the size.
    pub fn make_binary(
        left: Rc<AbstractValue>,
        right: Rc<AbstractValue>,
        operator: BinaryOperator,
    ) -> (result: Rc<AbstractValue>)
        ensures
            result == Self::binary(operator, left, right),
            left.within_limit() && right.within_limit() ==> result.within_limit(),
    {
        if matches!(left.expression, Expression::Top | Expression::Bottom) {
            return left;
        }
        if matches!(right.expression, Expression::Top | Expression::Bottom) {
            return right;
        }
        let expression_size = left.expression_size.saturating_add(right.expression_size);
        Self::make_from(operator.build(left, right), expression_size)
    }

    /// Creates an abstract value from a typed binary expression and keeps track of
    /// the size.
    pub fn make_typed_binary(
        left: Rc<AbstractValue>,
        right: Rc<AbstractValue>,
        result_type: ExpressionType,
        operator: TypedBinaryOperator,
    ) -> (result: Rc<AbstractValue>)
        ensures
            *result == Self::typed_binary(operator, left, right, result_type),
            left.within_limit() && right.within_limit() ==> result.within_limit(),
    {
        let expression_size = left.expression_size.saturating_add(right.expression_size);
        Self::make_from(operator.build(left, right, result_type), expression_size)
    }

    /// Creates an abstract value from the expression of a unary operator and the
    /// size of its operand, and keeps track of the size.
    pub fn make_unary(expression: Expression, operand_size: u64) -> (result: Rc<AbstractValue>)
        ensures
            *result == Self::unary(expression, operand_size),
            expression.within_limit() ==> result.within_limit(),
    {
        Self::make_from(expression, operand_size.saturating_add(1))
    }

    /// Returns the interval of this value: the one that is kept with it, if any,
    /// else the one that its expression gives.
    pub fn get_cached_interval(&self) -> (result: Rc<IntervalDomain>)
        ensures
            *result == self.cached_interval(),
    {
        match &self.interval {
            Some(interval) => Rc::new(*interval),
            None => Rc::new(get_as_interval(self)),
        }
    }

    /// Returns the impossible value.
    pub fn bottom() -> (result: Rc<AbstractValue>)
        ensures
            *result == bottom_value(),
    {
        Rc::new(AbstractValue { expression: Expression::Bottom, expression_size: 1, interval: None })
    }

    /// Returns the value about which nothing is known.
    pub fn top() -> (result: Rc<AbstractValue>)
        ensures
            *result == top_value(),
    {
        Rc::new(AbstractValue { expression: Expression::Top, expression_size: 1, interval: None })
    }

    /// Returns the value that is the Boolean `b`.
    pub fn of_bool(b: bool) -> (result: Rc<AbstractValue>)
        ensures
            *result == bool_value(b),
    {
        Rc::new(
            AbstractValue {
                expression: Expression::CompileTimeConstant(ConstantDomain::of_bool(b)),
                expression_size: 1,
                interval: None,
            },
        )
    }

    /// Returns the value that is the constant `c`. The impossible constant gives
    /// the impossible value.
    pub fn of_constant(c: ConstantDomain) -> (result: Rc<AbstractValue>)
        ensures
            *result == constant_value(c),
    {
        if c.is_bottom() {
            return Self::bottom();
        }
        Rc::new(
            AbstractValue {
                expression: Expression::CompileTimeConstant(c),
                expression_size: 1,
                interval: None,
            },
        )
    }

    /// Returns the value that is the unsigned integer `v`.
    pub fn of_u128(v: u128) -> (result: Rc<AbstractValue>)
        ensures
            *result == constant_value(ConstantDomain::U128(v)),
    {
        Self::of_constant(ConstantDomain::U128(v))
    }

    /// Creates an abstract value from the given expression and size.
    ///
    /// A size over [`k_limits::MAX_EXPRESSION_SIZE`] means that refining the
    /// expression gets expensive and that composing it into other expressions leads
    /// to exponential growth. The result is then a typed variable of size one that
    /// keeps the interval of the expression.
    pub fn make_from(expression: Expression, expression_size: u64) -> (result: Rc<AbstractValue>)
        ensures
            *result == Self::made_from(expression, expression_size),
            result.expression_size <= k_limits::MAX_EXPRESSION_SIZE,
            expression.within_limit() ==> result.within_limit(),
    {
        if expression_size > k_limits::MAX_EXPRESSION_SIZE {
            let var_type = expression.infer_type();
            let value = AbstractValue { expression, expression_size, interval: None };
            let interval = get_as_interval(&value);
            proof {
                lemma_unknown_variable_within_limit(var_type);
            }
            Rc::new(
                AbstractValue {
                    expression: Expression::Variable {
                        path: Path::new_alias(Self::top()),
                        var_type,
                    },
                    expression_size: 1,
                    interval: Some(interval),
                },
            )
        } else {
            Rc::new(AbstractValue { expression, expression_size, interval: None })
        }
    }

    /// Creates an abstract value that is a reference to the memory named by the
    /// given path. A path that stands for an address gives that address.
    pub fn make_reference(path: Rc<Path>) -> (result: Rc<AbstractValue>)
        ensures
            path.value matches PathEnum::Offset { value } ==> result == value,
            !(path.value is Offset) ==> *result == Self::made_from(
                Expression::Reference(path),
                path.length() as u64,
            ),
            path.within_limit() ==> result.within_limit(),
    {
        if let PathEnum::Offset { value } = &path.value {
            return share(value);
        }
        let path_length = path.path_length() as u64;
        Self::make_from(Expression::Reference(path), path_length)
    }

    /// Creates an abstract value about which nothing is known other than its type.
    pub fn make_typed_unknown(var_type: ExpressionType) -> (result: Rc<AbstractValue>)
        ensures
            *result == (AbstractValue {
                expression: unknown_variable(var_type),
                expression_size: 1,
                interval: None,
            }),
            result.within_limit(),
    {
        proof {
            lemma_unknown_variable_within_limit(var_type);
        }
        Self::make_from(
            Expression::Variable { path: Path::new_alias(Self::top()), var_type },
            1,
        )
    }
}

/// The interval of the integers that a value can be, as far as its expression shows
/// it: the bottom interval says that the expression does not show it.
///
/// Constants, sums, differences, products and negations have the interval that
/// interval arithmetic gives. A conditional and a join have the hull of their two
/// branches. A widened join keeps the bound that the join has in common with its
/// left branch and drops the other.
pub open spec fn interval_of(value: AbstractValue) -> IntervalDomain
    decreases value,
{
    match value.expression {
        Expression::Add { left, right } => interval_of(*left).sum(interval_of(*right)),
        Expression::CompileTimeConstant(ConstantDomain::I128(v)) => IntervalDomain::of_signed(v),
        Expression::CompileTimeConstant(ConstantDomain::U128(v)) => IntervalDomain::of_unsigned(v),
        Expression::ConditionalExpression { consequent, alternate, .. } => interval_of(
            *consequent,
        ).hull(interval_of(*alternate)),
        Expression::Join { left, right, .. } => interval_of(*left).hull(interval_of(*right)),
        Expression::Mul { left, right } => interval_of(*left).product(interval_of(*right)),
        Expression::Neg { operand } => interval_of(*operand).negation(),
        Expression::Sub { left, right } => interval_of(*left).difference(interval_of(*right)),
        Expression::Widen { operand, .. } => {
            let interval = interval_of(*operand);
            match operand.expression {
                Expression::Join { left, .. } => widened_interval(interval_of(*left), interval),
                _ => interval,
            }
        },
        _ => bottom_interval(),
    }
}

/// The interval of a widened join, given the interval `left` of the left branch of
/// the join and the interval `joined` of the join. A bound that the two have in
/// common does not change while the loop runs and is kept; the other is dropped.
pub open spec fn widened_interval(left: IntervalDomain, joined: IntervalDomain) -> IntervalDomain {
    if joined.bottom() {
        joined
    } else if left.bottom() {
        bottom_interval()
    } else if left.bounded_below() && joined.bounded_below() && left.lower_bound
        == joined.lower_bound {
        joined.without_upper()
    } else if left.bounded_above() && joined.bounded_above() && left.upper_bound
        == joined.upper_bound {
        joined.without_lower()
    } else {
        joined
    }
}

/// Constructs an element of the interval domain for simple expressions.
pub fn get_as_interval(value: &AbstractValue) -> (result: IntervalDomain)
    ensures
        result == interval_of(*value),
    decreases value,
{
    match &value.expression {
        Expression::Add { left, right } => get_as_interval(left).add(&get_as_interval(right)),
        Expression::CompileTimeConstant(ConstantDomain::I128(v)) => IntervalDomain::from(*v),
        Expression::CompileTimeConstant(ConstantDomain::U128(v)) => IntervalDomain::from(*v),
        Expression::ConditionalExpression { consequent, alternate, .. } => get_as_interval(
            consequent,
        ).widen(&get_as_interval(alternate)),
        Expression::Join { left, right, .. } => get_as_interval(left).widen(
            &get_as_interval(right),
        ),
        Expression::Mul { left, right } => get_as_interval(left).mul(&get_as_interval(right)),
        Expression::Neg { operand } => get_as_interval(operand).neg(),
        Expression::Sub { left, right } => get_as_interval(left).sub(&get_as_interval(right)),
        Expression::Widen { operand, .. } => {
            let interval = get_as_interval(operand);
            if interval.is_bottom() {
                return interval;
            }
            if let Expression::Join { left, .. } = &operand.expression {
                let left_interval = get_as_interval(left);
                if left_interval.is_bottom() {
                    return IntervalDomain::new_bottom();
                }
                match (left_interval.lower_bound(), interval.lower_bound()) {
                    (Some(llb), Some(lb)) => {
                        if llb == lb {
                            // The lower bound is finite and does not change as a result of
                            // the fixed point computation, so it is kept.
                            return interval.remove_upper_bound();
                        }
                    },
                    _ => (),
                }
                match (left_interval.upper_bound(), interval.upper_bound()) {
                    (Some(lub), Some(ub)) => {
                        if lub == ub {
                            // The upper bound is finite and does not change as a result of
                            // the fixed point computation, so it is kept.
                            return interval.remove_lower_bound();
                        }
                    },
                    _ => (),
                }
            }
            interval
        },
        _ => IntervalDomain::new_bottom(),
    }
}

impl From<bool> for AbstractValue {
    /// The value that is the Boolean `b`.
    fn from(b: bool) -> (result: AbstractValue) {
        AbstractValue {
            expression: Expression::CompileTimeConstant(ConstantDomain::of_bool(b)),
            expression_size: 1,
            interval: None,
        }
    }
}

impl vstd::std_specs::convert::FromSpecImpl<bool> for AbstractValue {
    open spec fn obeys_from_spec() -> bool {
        true
    }

    open spec fn from_spec(b: bool) -> AbstractValue {
        bool_value(b)
    }
}

impl From<ConstantDomain> for AbstractValue {
    /// The value that is the constant `c`, or the impossible value where `c` is the
    /// impossible constant.
    fn from(c: ConstantDomain) -> (result: AbstractValue) {
        if c.is_bottom() {
            AbstractValue { expression: Expression::Bottom, expression_size: 1, interval: None }
        } else {
            AbstractValue {
                expression: Expression::CompileTimeConstant(c),
                expression_size: 1,
                interval: None,
            }
        }
    }
}

impl vstd::std_specs::convert::FromSpecImpl<ConstantDomain> for AbstractValue {
    open spec fn obeys_from_spec() -> bool {
        true
    }

    open spec fn from_spec(c: ConstantDomain) -> AbstractValue {
        constant_value(c)
    }
}

impl From<u128> for AbstractValue {
    /// The value that is the unsigned integer `v`.
    fn from(v: u128) -> (result: AbstractValue) {
        AbstractValue {
            expression: Expression::CompileTimeConstant(ConstantDomain::U128(v)),
            expression_size: 1,
            interval: None,
        }
    }
}

impl vstd::std_specs::convert::FromSpecImpl<u128> for AbstractValue {
    open spec fn obeys_from_spec() -> bool {
        true
    }

    open spec fn from_spec(v: u128) -> AbstractValue {
        constant_value(ConstantDomain::U128(v))
    }
}

/// The operations of the engine on shared values.
///
/// Every operator normalizes as it builds: it folds constants, drops identities,
/// and rewrites by the rules of the algebra, so that the value it returns is small
/// and questions about it are cheap.
pub trait AbstractValueTrait: Sized {
    /// True if this is the impossible value.
    spec fn is_impossible(&self) -> bool;

    /// The Boolean that this value is a constant for, if it is one.
    spec fn truth_if_known(&self) -> Option<bool>;

    /// Returns an element that is "self + other".
    fn addition(&self, other: Self) -> Self;

    /// Returns an expression that is `self && equalities` where the latter term is
    /// constructed from the values of the `self_env` for keys that are in the
    /// `widened_env` and have values that have been widened. This prevents a true
    /// condition from collapsing the path condition at a join point.
    ///
    /// There is an equality for each path at which `widened_env` holds a widened value
    /// and `self_env` holds a value of a scalar sort that is not widened.
    fn add_equalities_for_widened_vars(&self, self_env: &Environment, widened_env: &Environment) -> Self;

    /// Returns an element that is true if "self + other" is not in range of target_type.
    fn add_overflows(&self, other: Self, target_type: ExpressionType) -> Self;

    /// Returns an element that is "self && other", as a caller of the engine gets it: a
    /// disjunction with the negation of one of its disjuncts gives the other disjunct.
    ///
    /// The disjunct that is left has the truth of the disjunction wherever the negation
    /// holds. Every other conjunction of formulas has the truth of the conjunction.
    fn and(&self, other: Self) -> Self;

    /// The Boolean value of this expression, if known, otherwise None.
    fn as_bool_if_known(&self) -> Option<bool>;

    /// If the concrete Boolean value of this abstract value is known, return it as an
    /// unsigned integer constant, one for true and zero for false, otherwise return
    /// None.
    fn as_int_if_known(&self) -> Option<Rc<AbstractValue>>;

    /// Returns an element that is "self & other".
    fn bit_and(&self, other: Self) -> Self;

    /// Returns an element that is "!self" where self is an integer.
    fn bit_not(&self, result_type: ExpressionType) -> Self;

    /// Returns an element that is "self | other".
    fn bit_or(&self, other: Self) -> Self;

    /// Returns an element that is "self ^ other".
    fn bit_xor(&self, other: Self) -> Self;

    /// Returns an element that is "self as target_type".
    fn cast(&self, target_type: ExpressionType) -> Self;

    /// Returns an element that is "if self { consequent } else { alternate }".
    ///
    /// Callers should not ask for a conditional with two impossible branches. Where
    /// they do, the result is the impossible value.
    fn conditional_expression(&self, consequent: Self, alternate: Self) -> Self
        requires
            !(consequent.is_impossible() && alternate.is_impossible()),
    ;

    /// Returns an element that is "*self".
    fn dereference(&self, target_type: ExpressionType) -> Self;

    /// Returns an element that is "self / other".
    fn divide(&self, other: Self) -> Self;

    /// Returns an element that is "self == other".
    fn equals(&self, other: Self) -> Self;

    /// Returns an element that is "self >= other".
    fn greater_or_equal(&self, other: Self) -> Self;

    /// Returns an element that is "self > other".
    fn greater_than(&self, other: Self) -> Self;

    /// Returns true if "self => other" is known at compile time to be true.
    /// Returning false does not imply the implication is false, just that we do not know.
    fn implies(&self, other: &Self) -> bool;

    /// Returns true if "self => !other" is known at compile time to be true.
    /// Returning false does not imply the implication is false, just that we do not know.
    fn implies_not(&self, other: &Self) -> bool;

    /// Returns self.f(other) where f is an intrinsic binary function.
    ///
    /// The intrinsic binary functions all work on floating point numbers. They are not
    /// folded: the result is the expression of the call, with the size of `self` plus one.
    fn intrinsic_binary(&self, other: Self, name: KnownNames) -> Self;

    /// Returns (self as u(8|16|32|64|128)).f() where f is an intrinsic bit vector unary
    /// function.
    fn intrinsic_bit_vector_unary(&self, bit_length: u8, name: KnownNames) -> Self;

    /// Returns self.f() where f is an intrinsic floating point unary function.
    ///
    /// Floating point constants are not folded: the result is the expression of the
    /// call.
    fn intrinsic_floating_point_unary(&self, name: KnownNames) -> Self;

    /// Returns true if "!self => other" is known at compile time to be true.
    /// Returning false does not imply the implication is false, just that we do not know.
    fn inverse_implies(&self, other: &Self) -> bool;

    /// Returns true if "!self => !other" is known at compile time to be true.
    /// Returning false does not imply the implication is false, just that we do not know.
    fn inverse_implies_not(&self, other: &Self) -> bool;

    /// True if the set of concrete values that correspond to this domain is empty.
    fn is_bottom(&self) -> bool;

    /// True if the storage referenced by this expression is, or is contained in, a
    /// zeroed heap allocation.
    fn is_contained_in_zeroed_heap_block(&self) -> bool;

    /// True if the value is derived from one or more memory locations whose values
    /// were not known when the value was constructed.
    fn is_path_alias(&self) -> bool;

    /// True if all possible concrete values are elements of the set corresponding to
    /// this domain.
    fn is_top(&self) -> bool;

    /// Returns a value that stands for all the concrete values that `self` or `other` stands
    /// for. In effect this behaves like set union.
    fn join(&self, other: Self, path: &Rc<Path>) -> Self;

    /// Returns an element that is "self <= other".
    fn less_or_equal(&self, other: Self) -> Self;

    /// Returns an element that is "self < other".
    fn less_than(&self, other: Self) -> Self;

    /// Returns an element that is "self * other".
    fn multiply(&self, other: Self) -> Self;

    /// Returns an element that is true if "self * other" is not in range of target_type.
    fn mul_overflows(&self, other: Self, target_type: ExpressionType) -> Self;

    /// Returns an element that is "-self".
    fn negate(self) -> Self;

    /// Returns an element that is "self != other".
    fn not_equals(&self, other: Self) -> Self;

    /// Returns an element that is "!self" where self is a bool.
    fn logical_not(&self) -> Self;

    /// Returns an element that is "self.other": the address `self` moved by `other` bytes.
    fn offset(&self, other: Self) -> Self;

    /// Returns an element that is "self || other".
    fn or(&self, other: Self) -> Self;

    /// Adds any abstract heap addresses found in the associated expression to the
    /// given collection, unless an equal address is in the collection already.
    fn record_heap_blocks(&self, result: &mut Vec<Rc<AbstractValue>>);

    /// Returns an element that is "self % other".
    fn remainder(&self, other: Self) -> Self;

    /// Returns an element that is "self << other".
    fn shift_left(&self, other: Self) -> Self;

    /// Returns an element that is true if "self << other" shifts away all bits.
    fn shl_overflows(&self, other: Self, target_type: ExpressionType) -> Self;

    /// Returns an element that is "self >> other".
    fn shr(&self, other: Self, expression_type: ExpressionType) -> Self;

    /// Returns an element that is true if "self >> other" shifts away all bits.
    fn shr_overflows(&self, other: Self, target_type: ExpressionType) -> Self;

    /// Returns an element that is "self - other".
    fn subtract(&self, other: Self) -> Self;

    /// Returns an element that is true if "self - other" is not in range of target_type.
    fn sub_overflows(&self, other: Self, target_type: ExpressionType) -> Self;

    /// True if all of the concrete values that correspond to `self` also correspond to `other`.
    /// Note: `!subset(x, y)` does not imply `subset(y, x)`.
    fn subset(&self, other: &Self) -> bool;

    /// Attempts to construct an equivalent expression to `self`, but with the difference
    /// that the type inferred for the resulting expression will be the target type. If
    /// this is not possible, the given expression is returned.
    ///
    /// The need for this arises from the difficulty of correctly typing variables that
    /// have generic types when constructed, but then leak out to caller contexts.
    fn try_to_retype_as(&self, target_type: &ExpressionType) -> Self;

    /// Tries to simplify operation(self, other) by constant folding or by distributing the
    /// operation over self and/or other. Returns operation(self, other) if no simplification is
    /// possible.
    fn try_to_simplify_binary_op(&self, other: Self, operator: ArithmeticOperator) -> Self;

    /// Tries to distribute the operation over self and/or other.
    /// Returns operation(self, other) if no simplification is possible.
    fn try_to_distribute_binary_op(&self, other: Self, operator: ArithmeticOperator) -> Self;

    /// Gets the interval of this value: the one that is kept with it, if any, else
    /// the one that its expression gives.
    fn get_cached_interval(&self) -> Rc<IntervalDomain>;

    /// Constructs an element of the Interval domain for simple expressions.
    fn get_as_interval(&self) -> IntervalDomain;

    /// Replaces occurrences of Expression::Variable(path) with the value at that path
    /// in the given environment (if there is such a value).
    fn refine_paths(&self, environment: &Environment) -> Self;

    /// Returns a value that is simplified (refined) by replacing parameter values with
    /// their corresponding argument values. If no refinement is possible the result
    /// is simply the given value.
    ///
    /// `fresh` is an offset to add to the locals of the called function so that they
    /// do not clash with the locals of the caller. A parameter for which there is no
    /// argument stays as it is.
    fn refine_parameters(&self, arguments: &[(Rc<Path>, Rc<AbstractValue>)], fresh: usize) -> Self;

    /// Returns a value that is simplified (refined) by using the current path
    /// condition: a condition that is known to be true in the current context. If no
    /// refinement is possible the result is simply the given value.
    ///
    /// The traversal is kept as trivial as possible, with the simplifications left to
    /// the operators that rebuild the refined expression.
    fn refine_with(&self, path_condition: &Self, depth: usize) -> Self
        requires
            path_condition.truth_if_known() != Some(false),
    ;

    /// Returns a value that stands for all the concrete values that `self` stands for, and
    /// maybe for more. A small number of widenings at one path leads to a value that
    /// widening at that path does not change.
    fn widen(&self, path: &Rc<Path>) -> Self;
}

impl AbstractValueTrait for Rc<AbstractValue> {
    open spec fn is_impossible(&self) -> bool {
        self.expression is Bottom
    }

    open spec fn truth_if_known(&self) -> Option<bool> {
        (**self).known_bool()
    }

    fn addition(&self, other: Self) -> (result: Self)
        ensures
            result == sum(*self, other, k_limits::MAX_REWRITE_DEPTH),
            self.within_limit() && other.within_limit() ==> result.within_limit(),
            self.expression is Bottom ==> result.expression is Bottom,
    {
        crate::arithmetic::addition(self, other, k_limits::MAX_REWRITE_DEPTH)
    }

    fn add_equalities_for_widened_vars(&self, self_env: &Environment, widened_env: &Environment) -> (result: Self)
        ensures
            result == with_equalities(*self, *self_env, *widened_env, widened_env.value_map@.len() as int),
            self.within_limit() && self_env.within_limit() && widened_env.within_limit()
                ==> result.within_limit(),
    {
        crate::dereference::add_equalities_for_widened_vars(self, self_env, widened_env)
    }

    fn add_overflows(&self, other: Self, target_type: ExpressionType) -> (result: Self)
        ensures
            result == overflow(TypedBinaryOperator::AddOverflows, *self, other, target_type),
            self.within_limit() && other.within_limit() ==> result.within_limit(),
    {
        crate::operators::add_overflows(self, other, target_type)
    }

    fn and(&self, other: Self) -> (result: Self)
        ensures
            result == conjunction_of_operands(*self, other),
            self.within_limit() && other.within_limit() ==> result.within_limit(),
            fit(**self, *other) ==> propositional(*result) && result.expression_size <= self.expression_size
                + other.expression_size,
            fit(**self, *other) && !cancels(**self, *other) ==> is_conjunction(*result, **self, *other),
            fit(**self, *other) && cancels(**self, *other) ==> if other_disjunct(**self, *other) is Some {
                same_truth_under(*result, **self, *other)
            } else {
                same_truth_under(*result, *other, **self)
            },
    {
        crate::conjunction::and_of_operands(self, other)
    }

    fn as_bool_if_known(&self) -> (result: Option<bool>)
        ensures
            result == self.known_bool(),
    {
        crate::queries::as_bool_if_known(self)
    }

    fn as_int_if_known(&self) -> (result: Option<Rc<AbstractValue>>)
        ensures
            match self.known_bool() {
                Some(known) => result matches Some(value) && *value == constant_value(
                    ConstantDomain::U128(
                        if known {
                            1
                        } else {
                            0
                        },
                    ),
                ),
                None => result is None,
            },
    {
        crate::queries::as_int_if_known(self)
    }

    fn bit_and(&self, other: Self) -> (result: Self)
        ensures
            result == bit_conjunction(*self, other),
            self.within_limit() && other.within_limit() ==> result.within_limit(),
    {
        crate::operators::bit_and(self, other)
    }

    fn bit_not(&self, result_type: ExpressionType) -> (result: Self)
        ensures
            result == bit_complement(*self, result_type),
            self.within_limit() ==> result.within_limit(),
    {
        crate::operators::bit_not(self, result_type)
    }

    fn bit_or(&self, other: Self) -> (result: Self)
        ensures
            result == bit_operation(BinaryOperator::BitOr, *self, other),
            self.within_limit() && other.within_limit() ==> result.within_limit(),
    {
        crate::operators::bit_or(self, other)
    }

    fn bit_xor(&self, other: Self) -> (result: Self)
        ensures
            result == bit_operation(BinaryOperator::BitXor, *self, other),
            self.within_limit() && other.within_limit() ==> result.within_limit(),
    {
        crate::operators::bit_xor(self, other)
    }

    fn cast(&self, target_type: ExpressionType) -> (result: Self)
        ensures
            result == converted(*self, target_type, k_limits::MAX_REWRITE_DEPTH),
            self.within_limit() ==> result.within_limit(),
    {
        crate::arithmetic::cast(self, target_type, k_limits::MAX_REWRITE_DEPTH)
    }

    fn conditional_expression(&self, consequent: Self, alternate: Self) -> (result: Self)
        ensures
            result == choice(*self, consequent, alternate, k_limits::MAX_REWRITE_DEPTH),
            self.within_limit() && consequent.within_limit() && alternate.within_limit()
                ==> result.within_limit(),
            fit_branches(**self, *consequent, *alternate) ==> propositional(*result)
                && result.expression_size <= self.expression_size + consequent.expression_size
                + alternate.expression_size && is_choice(*result, **self, *consequent, *alternate),
    {
        crate::conditional::conditional(self, consequent, alternate, k_limits::MAX_REWRITE_DEPTH)
    }

    fn dereference(&self, target_type: ExpressionType) -> (result: Self)
        ensures
            result == dereferenced(*self, target_type),
            self.within_limit() ==> result.within_limit(),
    {
        crate::dereference::dereference(self, target_type)
    }

    fn divide(&self, other: Self) -> (result: Self)
        ensures
            result == quotient(*self, other, k_limits::MAX_REWRITE_DEPTH),
            self.within_limit() && other.within_limit() ==> result.within_limit(),
            self.expression is Bottom ==> result.expression is Bottom,
    {
        crate::arithmetic::divide(self, other, k_limits::MAX_REWRITE_DEPTH)
    }

    fn equals(&self, other: Self) -> (result: Self)
        ensures
            result == equality(*self, other, k_limits::MAX_REWRITE_DEPTH),
            self.within_limit() && other.within_limit() ==> result.within_limit(),
    {
        crate::equals::equals(self, other, k_limits::MAX_REWRITE_DEPTH)
    }

    fn greater_or_equal(&self, other: Self) -> (result: Self)
        ensures
            result == comparison(BinaryOperator::GreaterOrEqual, *self, other),
            self.within_limit() && other.within_limit() ==> result.within_limit(),
    {
        crate::operators::greater_or_equal(self, other)
    }

    fn greater_than(&self, other: Self) -> (result: Self)
        ensures
            result == comparison(BinaryOperator::GreaterThan, *self, other),
            self.within_limit() && other.within_limit() ==> result.within_limit(),
    {
        crate::operators::greater_than(self, other)
    }

    fn implies(&self, other: &Self) -> (result: bool)
        ensures
            result == implication(**self, **other),
    {
        crate::implication::implies(self, other)
    }

    fn implies_not(&self, other: &Self) -> (result: bool)
        ensures
            result == implication_of_negation(**self, **other),
    {
        crate::implication::implies_not(self, other)
    }

    fn intrinsic_binary(&self, other: Self, name: KnownNames) -> (result: Self)
        ensures
            result == binary_call(*self, other, name),
            self.within_limit() && other.within_limit() ==> result.within_limit(),
    {
        crate::operators::intrinsic_binary(self, other, name)
    }

    fn intrinsic_bit_vector_unary(&self, bit_length: u8, name: KnownNames) -> (result: Self)
        ensures
            result == bit_vector_call(*self, bit_length, name),
            self.within_limit() ==> result.within_limit(),
    {
        crate::operators::intrinsic_bit_vector_unary(self, bit_length, name)
    }

    fn intrinsic_floating_point_unary(&self, name: KnownNames) -> (result: Self)
        ensures
            result == floating_point_call(*self, name),
            self.within_limit() ==> result.within_limit(),
    {
        crate::operators::intrinsic_floating_point_unary(self, name)
    }

    fn inverse_implies(&self, other: &Self) -> (result: bool)
        ensures
            result == inverse_implication(**self, **other),
    {
        crate::implication::inverse_implies(self, other)
    }

    fn inverse_implies_not(&self, other: &Self) -> (result: bool)
        ensures
            result == inverse_implication_of_negation(**self, **other),
    {
        crate::implication::inverse_implies_not(self, other)
    }

    fn is_bottom(&self) -> (result: bool)
        ensures
            result == (self.expression is Bottom),
    {
        crate::queries::is_bottom(self)
    }

    fn is_contained_in_zeroed_heap_block(&self) -> (result: bool)
        ensures
            result == in_zeroed_heap_block(**self),
    {
        crate::queries::is_contained_in_zeroed_heap_block(self)
    }

    fn is_path_alias(&self) -> (result: bool)
        ensures
            result == path_alias(**self),
    {
        crate::queries::is_path_alias(self)
    }

    fn is_top(&self) -> (result: bool)
        ensures
            result == (self.expression is Top),
    {
        crate::queries::is_top(self)
    }

    fn join(&self, other: Self, path: &Rc<Path>) -> (result: Self)
        ensures
            result == joined(*self, other, *path),
            self.within_limit() && other.within_limit() && path.within_limit() ==> result.within_limit(),
    {
        crate::lattice::join(self, other, path)
    }

    fn less_or_equal(&self, other: Self) -> (result: Self)
        ensures
            result == comparison(BinaryOperator::LessOrEqual, *self, other),
            self.within_limit() && other.within_limit() ==> result.within_limit(),
    {
        crate::operators::less_or_equal(self, other)
    }

    fn less_than(&self, other: Self) -> (result: Self)
        ensures
            result == comparison(BinaryOperator::LessThan, *self, other),
            self.within_limit() && other.within_limit() ==> result.within_limit(),
    {
        crate::operators::less_than(self, other)
    }

    fn multiply(&self, other: Self) -> (result: Self)
        ensures
            result == product(*self, other, k_limits::MAX_REWRITE_DEPTH),
            self.within_limit() && other.within_limit() ==> result.within_limit(),
            self.expression is Bottom && absorbed(*other, ArithmeticOperator::Mul) ==> result.expression is Bottom,
    {
        crate::arithmetic::multiply(self, other, k_limits::MAX_REWRITE_DEPTH)
    }

    fn mul_overflows(&self, other: Self, target_type: ExpressionType) -> (result: Self)
        ensures
            result == overflow(TypedBinaryOperator::MulOverflows, *self, other, target_type),
            self.within_limit() && other.within_limit() ==> result.within_limit(),
    {
        crate::operators::mul_overflows(self, other, target_type)
    }

    fn negate(self) -> (result: Self)
        ensures
            result == negated(self),
            self.within_limit() ==> result.within_limit(),
    {
        crate::operators::negate(self)
    }

    fn not_equals(&self, other: Self) -> (result: Self)
        ensures
            result == inequality(*self, other),
            self.within_limit() && other.within_limit() ==> result.within_limit(),
    {
        crate::operators::not_equals(self, other)
    }

    fn logical_not(&self) -> (result: Self)
        ensures
            result == negation(*self, k_limits::MAX_REWRITE_DEPTH),
            self.within_limit() ==> result.within_limit(),
            self.known_bool() matches Some(b) ==> *result == bool_value(!b),
            self.expression is Bottom ==> result == *self,
            self.expression matches Expression::LogicalNot { operand } ==> result == operand,
            propositional(**self) && self.expression_size < k_limits::MAX_EXPRESSION_SIZE ==> propositional(*result)
                && result.expression_size <= self.expression_size + 1 && is_negation(*result, **self),
    {
        crate::negation::logical_not(self, k_limits::MAX_REWRITE_DEPTH)
    }

    fn offset(&self, other: Self) -> (result: Self)
        ensures
            result == moved(*self, other, k_limits::MAX_REWRITE_DEPTH),
            self.within_limit() && other.within_limit() ==> result.within_limit(),
    {
        crate::arithmetic::offset(self, other, k_limits::MAX_REWRITE_DEPTH)
    }

    fn or(&self, other: Self) -> (result: Self)
        ensures
            result == disjunction(*self, other, k_limits::MAX_REWRITE_DEPTH),
            self.within_limit() && other.within_limit() ==> result.within_limit(),
            fit(**self, *other) ==> propositional(*result) && result.expression_size <= self.expression_size
                + other.expression_size && is_disjunction(*result, **self, *other),
    {
        crate::disjunction::or(self, other, k_limits::MAX_REWRITE_DEPTH)
    }

    fn record_heap_blocks(&self, result: &mut Vec<Rc<AbstractValue>>)
        ensures
            final(result)@ == with_blocks_of(*self, old(result)@),
    {
        crate::heap_blocks::record_heap_blocks(self, result)
    }

    fn remainder(&self, other: Self) -> (result: Self)
        ensures
            result == modulus(*self, other, k_limits::MAX_REWRITE_DEPTH),
            self.within_limit() && other.within_limit() ==> result.within_limit(),
            self.expression is Bottom ==> result.expression is Bottom,
    {
        crate::arithmetic::remainder(self, other, k_limits::MAX_REWRITE_DEPTH)
    }

    fn shift_left(&self, other: Self) -> (result: Self)
        ensures
            result == bit_operation(BinaryOperator::Shl, *self, other),
            self.within_limit() && other.within_limit() ==> result.within_limit(),
    {
        crate::operators::shift_left(self, other)
    }

    fn shl_overflows(&self, other: Self, target_type: ExpressionType) -> (result: Self)
        ensures
            result == overflow(TypedBinaryOperator::ShlOverflows, *self, other, target_type),
            self.within_limit() && other.within_limit() ==> result.within_limit(),
    {
        crate::operators::shl_overflows(self, other, target_type)
    }

    fn shr(&self, other: Self, expression_type: ExpressionType) -> (result: Self)
        ensures
            result == shifted_right(*self, other, expression_type),
            self.within_limit() && other.within_limit() ==> result.within_limit(),
    {
        crate::operators::shr(self, other, expression_type)
    }

    fn shr_overflows(&self, other: Self, target_type: ExpressionType) -> (result: Self)
        ensures
            result == overflow(TypedBinaryOperator::ShrOverflows, *self, other, target_type),
            self.within_limit() && other.within_limit() ==> result.within_limit(),
    {
        crate::operators::shr_overflows(self, other, target_type)
    }

    fn subtract(&self, other: Self) -> (result: Self)
        ensures
            result == difference(*self, other, k_limits::MAX_REWRITE_DEPTH),
            self.within_limit() && other.within_limit() ==> result.within_limit(),
            self.expression is Bottom ==> result.expression is Bottom,
    {
        crate::arithmetic::subtract(self, other, k_limits::MAX_REWRITE_DEPTH)
    }

    fn sub_overflows(&self, other: Self, target_type: ExpressionType) -> (result: Self)
        ensures
            result == overflow(TypedBinaryOperator::SubOverflows, *self, other, target_type),
            self.within_limit() && other.within_limit() ==> result.within_limit(),
    {
        crate::operators::sub_overflows(self, other, target_type)
    }

    fn subset(&self, other: &Self) -> (result: bool)
        ensures
            result == included(**self, **other),
    {
        crate::lattice::subset(self, other)
    }

    fn try_to_retype_as(&self, target_type: &ExpressionType) -> (result: Self)
        ensures
            result == retyped(*self, *target_type, k_limits::MAX_REWRITE_DEPTH),
            self.within_limit() ==> result.within_limit(),
    {
        crate::arithmetic::try_to_retype_as(self, target_type, k_limits::MAX_REWRITE_DEPTH)
    }

    fn try_to_simplify_binary_op(&self, other: Self, operator: ArithmeticOperator) -> (result: Self)
        ensures
            result == simplified(*self, other, operator, k_limits::MAX_REWRITE_DEPTH),
            self.within_limit() && other.within_limit() ==> result.within_limit(),
            self.expression is Bottom ==> result.expression is Bottom,
    {
        crate::arithmetic::try_to_simplify_binary_op(self, other, operator, k_limits::MAX_REWRITE_DEPTH)
    }

    fn try_to_distribute_binary_op(&self, other: Self, operator: ArithmeticOperator) -> (result: Self)
        ensures
            result == distributed(*self, other, operator, k_limits::MAX_REWRITE_DEPTH),
            self.within_limit() && other.within_limit() ==> result.within_limit(),
            self.expression is Bottom ==> result.expression is Bottom,
    {
        crate::arithmetic::try_to_distribute_binary_op(self, other, operator, k_limits::MAX_REWRITE_DEPTH)
    }

    fn get_cached_interval(&self) -> (result: Rc<IntervalDomain>)
        ensures
            *result == self.cached_interval(),
    {
        (**self).get_cached_interval()
    }

    fn get_as_interval(&self) -> (result: IntervalDomain)
        ensures
            result == interval_of(**self),
    {
        get_as_interval(self)
    }

    fn refine_paths(&self, environment: &Environment) -> (result: Self)
        ensures
            result == refined_by_environment(*self, *environment),
            self.within_limit() && environment.within_limit() ==> result.within_limit(),
    {
        crate::environment_refinement::refine_paths(self, environment)
    }

    fn refine_parameters(&self, arguments: &[(Rc<Path>, Rc<AbstractValue>)], fresh: usize) -> (result: Self)
        ensures
            result == refined_by_arguments(*self, arguments@, fresh),
            self.within_limit() && arguments_within_limit(arguments@) ==> result.within_limit(),
    {
        crate::argument_refinement::refine_parameters(self, arguments, fresh)
    }

    fn refine_with(&self, path_condition: &Self, depth: usize) -> (result: Self)
        ensures
            result == refined(*self, *path_condition, depth, k_limits::MAX_REWRITE_DEPTH),
            self.within_limit() && path_condition.within_limit() ==> result.within_limit(),
            depth >= k_limits::MAX_REFINE_DEPTH ==> result == *self,
            depth < k_limits::MAX_REFINE_DEPTH && path_condition.same_as(**self) ==> *result
                == bool_value(true),
            propositional(**self) && !(path_condition.expression is Equals) ==> propositional(*result)
                && result.expression_size <= self.expression_size && same_truth_under(
                *result,
                **self,
                **path_condition,
            ),
    {
        crate::refine::refine_with(self, path_condition, depth, k_limits::MAX_REWRITE_DEPTH)
    }

    fn widen(&self, path: &Rc<Path>) -> (result: Self)
        ensures
            result == widened(*self, *path),
            self.within_limit() && path.within_limit() ==> result.within_limit(),
    {
        crate::lattice::widen(self, path)
    }
}

impl PartialEq for AbstractValue {
    /// Values are equal if they are widened values of the same path or have the same expression.
    fn eq(&self, other: &Self) -> (result: bool) {
        AbstractValue::eq(self, other)
    }
}

impl Eq for AbstractValue {

}

impl PartialEqSpecImpl for AbstractValue {
    open spec fn obeys_eq_spec() -> bool {
        true
    }

    open spec fn eq_spec(&self, other: &Self) -> bool {
        self.same_as(*other)
    }
}

} // verus!
