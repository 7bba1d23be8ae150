//! Dereferencing of values, and the equalities that keep a path condition from
//! collapsing where two control flows meet.

use vstd::prelude::*;
use std::rc::Rc;
use crate::abstract_value::AbstractValue;
use crate::conditional::conditional;
use crate::conjunction::and;
use crate::environment::Environment;
use crate::expression::{BinaryOperator, Expression, ExpressionType};
use crate::k_limits;
use crate::lattice::{join, joined, widen, widened};
use crate::path::{Path, PathEnum, PathSelector};
use crate::rules::{choice, conjunction};
use crate::shared::share;

verus! {

/// The value of `*a`, of sort `target_type`.
///
/// - The unknown and the impossible value, constants and moved addresses stay as
///   they are.
/// - A cast is looked through.
/// - A conditional, a join and a widened value are dereferenced branch by branch.
/// - A reference to a heap block is the address of the block, and every other
///   reference is a variable at its path.
/// - A variable and a call are a variable at the dereference of their path.
/// - Every other value is a variable of which nothing is known.
pub open spec fn dereferenced(a: Rc<AbstractValue>, target_type: ExpressionType) -> Rc<
    AbstractValue,
>
    decreases a,
{
    match a.expression {
        Expression::Bottom
        | Expression::Top
        | Expression::CompileTimeConstant(_)
        | Expression::Offset { .. } => a,
        Expression::Cast { operand, .. } => dereferenced(operand, target_type),
        Expression::ConditionalExpression { condition, consequent, alternate } => choice(
            condition,
            dereferenced(consequent, target_type),
            dereferenced(alternate, target_type),
            k_limits::MAX_REWRITE_DEPTH,
        ),
        Expression::Join { path, left, right } => joined(
            dereferenced(left, target_type),
            dereferenced(right, target_type),
            path,
        ),
        Expression::Reference(path) => match path.value {
            PathEnum::HeapBlock { value } => value,
            _ => Rc::new(
                AbstractValue::made_from(Expression::Variable { path, var_type: target_type }, 1),
            ),
        },
        Expression::UninterpretedCall { path, .. } | Expression::Variable { path, .. } => Rc::new(
            AbstractValue::made_from(
                Expression::Variable {
                    path: Rc::new(Path::qualified(path, Rc::new(PathSelector::Deref))),
                    var_type: target_type,
                },
                1,
            ),
        ),
        Expression::Widen { path, operand } => widened(dereferenced(operand, target_type), path),
        _ => Rc::new(
            AbstractValue {
                expression: crate::abstract_value::unknown_variable(target_type),
                expression_size: 1,
                interval: None,
            },
        ),
    }
}

/// Returns an element that is "*a".
pub fn dereference(a: &Rc<AbstractValue>, target_type: ExpressionType) -> (result: Rc<
    AbstractValue,
>)
    ensures
        result == dereferenced(*a, target_type),
        a.within_limit() ==> result.within_limit(),
    decreases a,
{
    proof {
        reveal_with_fuel(AbstractValue::within_limit, 3);
        reveal_with_fuel(Expression::within_limit, 3);
        reveal_with_fuel(Path::within_limit, 2);
    }
    match &a.expression {
        Expression::Bottom | Expression::Top => share(a),
        Expression::Cast { operand, .. } => dereference(operand, target_type),
        Expression::CompileTimeConstant(_) => share(a),
        Expression::ConditionalExpression { condition, consequent, alternate } => conditional(
            condition,
            dereference(consequent, target_type),
            dereference(alternate, target_type),
            k_limits::MAX_REWRITE_DEPTH,
        ),
        Expression::Join { path, left, right } => join(
            &dereference(left, target_type),
            dereference(right, target_type),
            path,
        ),
        Expression::Offset { .. } => share(a),
        Expression::Reference(path) => {
            if let PathEnum::HeapBlock { value } = &path.value {
                share(value)
            } else {
                AbstractValue::make_from(
                    Expression::Variable { path: share(path), var_type: target_type },
                    1,
                )
            }
        },
        Expression::UninterpretedCall { path, .. } | Expression::Variable { path, .. } => {
            AbstractValue::make_from(
                Expression::Variable { path: Path::new_deref(share(path)), var_type: target_type },
                1,
            )
        },
        Expression::Widen { path, operand } => widen(&dereference(operand, target_type), path),
        _ => AbstractValue::make_typed_unknown(target_type),
    }
}

/// The equality of the variable at `key` and the value that `self_env` holds there,
/// if `widened` is a widened value and the held value is a scalar that is not
/// widened.
pub open spec fn equality_at(
    key: Rc<Path>,
    widened: Rc<AbstractValue>,
    self_env: Environment,
) -> Option<Rc<AbstractValue>> {
    if !(widened.expression is Widen) {
        None
    } else {
        match self_env.lookup(*key) {
            Some(held) => if !(held.expression is Widen) && held.expression.sort().primitive() {
                Some(
                    AbstractValue::binary(
                        BinaryOperator::Equals,
                        Rc::new(
                            AbstractValue::made_from(
                                Expression::Variable {
                                    path: key,
                                    var_type: held.expression.sort(),
                                },
                                1,
                            ),
                        ),
                        held,
                    ),
                )
            } else {
                None
            },
            None => None,
        }
    }
}

/// The condition `a` in conjunction with the equalities for the first `count`
/// entries of `widened_env`, in the order of the entries.
pub open spec fn with_equalities(
    a: Rc<AbstractValue>,
    self_env: Environment,
    widened_env: Environment,
    count: int,
) -> Rc<AbstractValue>
    decreases count,
{
    if count <= 0 || count > widened_env.value_map@.len() {
        a
    } else {
        let before = with_equalities(a, self_env, widened_env, count - 1);
        let entry = widened_env.value_map@[count - 1];
        match equality_at(entry.0, entry.1, self_env) {
            Some(equality) => conjunction(before, equality, k_limits::MAX_REWRITE_DEPTH),
            None => before,
        }
    }
}

/// Returns an expression that is `a && equalities` where the latter term is
/// constructed from the values of the `self_env` for keys that are in the
/// `widened_env` and have values that have been widened. This prevents a true
/// condition from collapsing the path condition at a join point.
///
/// There is an equality for each path at which `widened_env` holds a widened value
/// and `self_env` holds a value of a scalar sort that is not widened.
pub fn add_equalities_for_widened_vars(
    a: &Rc<AbstractValue>,
    self_env: &Environment,
    widened_env: &Environment,
) -> (result: Rc<AbstractValue>)
    ensures
        result == with_equalities(*a, *self_env, *widened_env, widened_env.value_map@.len() as int),
        a.within_limit() && self_env.within_limit() && widened_env.within_limit()
            ==> result.within_limit(),
{
    let mut result = share(a);
    let mut i: usize = 0;
    while i < widened_env.value_map.len()
        invariant
            i <= widened_env.value_map@.len(),
            a.within_limit() && self_env.within_limit() && widened_env.within_limit()
                ==> result.within_limit(),
            result == with_equalities(*a, *self_env, *widened_env, i as int),
        decreases widened_env.value_map@.len() - i,
    {
        let key = &widened_env.value_map[i].0;
        let value = &widened_env.value_map[i].1;
        proof {
            assert(widened_env.within_limit() ==> widened_env.value_map@[i as int].0.within_limit());
        }
        if let Expression::Widen { .. } = &value.expression {
            if let Some(self_value) = self_env.value_at(key) {
                let widened = matches!(self_value.expression, Expression::Widen { .. });
                let var_type = self_value.expression.infer_type();
                if !widened && var_type.is_primitive() {
                    let variable = AbstractValue::make_from(
                        Expression::Variable { path: share(key), var_type },
                        1,
                    );
                    let equality = AbstractValue::make_binary(
                        variable,
                        share(self_value),
                        BinaryOperator::Equals,
                    );
                    result = and(&result, equality, k_limits::MAX_REWRITE_DEPTH);
                }
            }
        }
        i += 1;
    }
    result
}

} // verus!
