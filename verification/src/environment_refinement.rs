//! Refinement of values with the values that an environment holds.
//!
//! The refinement walks the expression of a value and rebuilds it with the
//! operators, so that the simplifications of the operators apply to the result.

use vstd::prelude::*;
use std::rc::Rc;
use crate::abstract_value::AbstractValue;
use crate::conditional::conditional;
use crate::expression::Expression;
use crate::k_limits;
use crate::path::{Path, PathEnum, PathSelector};
use crate::rebuild::{rebuild_binary, rebuild_layout, rebuild_unary};
use crate::rules::{choice, rebuilt_binary, rebuilt_layout, rebuilt_unary};
use crate::shared::share;
use crate::environment::Environment;

verus! {

/// The reference to the memory that `path` names: the address that the path
/// stands for, if it stands for one, else a reference expression whose size is the
/// length of the path.
pub open spec fn reference_to(path: Rc<Path>) -> Rc<AbstractValue> {
    match path.value {
        PathEnum::Offset { value } => value,
        _ => Rc::new(AbstractValue::made_from(Expression::Reference(path), path.length() as u64)),
    }
}

/// The value `a` with each variable replaced by the value that the environment
/// holds at its path.
///
/// - A variable at a path for which the environment holds a value is that value.
///   Every other variable has its path refined: an alias path gives the value it is
///   known by, a refined path for which the environment holds a value gives that
///   value, and any other refined path gives a variable at it.
/// - A reference has its path refined.
/// - A model field is the value that the environment holds at its path, else its
///   default, unless its path is rooted in a parameter: then it stays a model field.
/// - The unknown and the impossible value, constants, heap blocks and calls stay as
///   they are.
/// - Every other value is rebuilt by its operator from its refined operands.
pub open spec fn refined_by_environment(a: Rc<AbstractValue>, environment: Environment) -> Rc<
    AbstractValue,
>
    decreases a,
{
    let n = k_limits::MAX_REWRITE_DEPTH;
    match a.expression {
        Expression::Bottom
        | Expression::Top
        | Expression::CompileTimeConstant(_)
        | Expression::HeapBlock { .. }
        | Expression::UninterpretedCall { .. } => a,
        Expression::Reference(path) => reference_to(path_in_environment(path, environment)),
        Expression::UnknownModelField { path, default } => match environment.lookup(*path) {
            Some(value) => value,
            None => if path.rooted_by_parameter() {
                Rc::new(
                    AbstractValue::unary(
                        Expression::UnknownModelField { path, default },
                        default.expression_size,
                    ),
                )
            } else {
                default
            },
        },
        Expression::Variable { path, var_type } => match environment.lookup(*path) {
            Some(value) => value,
            None => {
                let refined_path = path_in_environment(path, environment);
                match refined_path.value {
                    PathEnum::Alias { value } => value,
                    _ => match environment.lookup(*refined_path) {
                        Some(value) => value,
                        None => if refined_path.same_as(*path) {
                            a
                        } else {
                            Rc::new(
                                AbstractValue::made_from(
                                    Expression::Variable { path: refined_path, var_type },
                                    1,
                                ),
                            )
                        },
                    },
                }
            },
        },
        Expression::Add { left, right, .. }
        | Expression::AddOverflows { left, right, .. }
        | Expression::And { left, right, .. }
        | Expression::BitAnd { left, right, .. }
        | Expression::BitOr { left, right, .. }
        | Expression::BitXor { left, right, .. }
        | Expression::Div { left, right, .. }
        | Expression::Equals { left, right, .. }
        | Expression::GreaterOrEqual { left, right, .. }
        | Expression::GreaterThan { left, right, .. }
        | Expression::IntrinsicBinary { left, right, .. }
        | Expression::Join { left, right, .. }
        | Expression::LessOrEqual { left, right, .. }
        | Expression::LessThan { left, right, .. }
        | Expression::Mul { left, right, .. }
        | Expression::MulOverflows { left, right, .. }
        | Expression::Ne { left, right, .. }
        | Expression::Offset { left, right, .. }
        | Expression::Or { left, right, .. }
        | Expression::Rem { left, right, .. }
        | Expression::Shl { left, right, .. }
        | Expression::ShlOverflows { left, right, .. }
        | Expression::Shr { left, right, .. }
        | Expression::ShrOverflows { left, right, .. }
        | Expression::Sub { left, right, .. }
        | Expression::SubOverflows { left, right, .. } => rebuilt_binary(a.expression, refined_by_environment(left, environment), refined_by_environment(right, environment), n),
        Expression::BitNot { operand, .. }
        | Expression::Cast { operand, .. }
        | Expression::IntrinsicBitVectorUnary { operand, .. }
        | Expression::IntrinsicFloatingPointUnary { operand, .. }
        | Expression::LogicalNot { operand, .. }
        | Expression::Neg { operand, .. }
        | Expression::Widen { operand, .. } => rebuilt_unary(a.expression, refined_by_environment(operand, environment), n),
        Expression::HeapBlockLayout { length, alignment, .. } => rebuilt_layout(
            a.expression,
            refined_by_environment(length, environment),
            refined_by_environment(alignment, environment),
        ),
        Expression::ConditionalExpression { condition, consequent, alternate } => choice(
            refined_by_environment(condition, environment),
            refined_by_environment(consequent, environment),
            refined_by_environment(alternate, environment),
            n,
        ),
    }
}

/// The value that decides what a path is refined to, where the environment holds
/// `value` at the path: the operand of a cast, else the value itself.
pub open spec fn uncast(value: Rc<AbstractValue>) -> Rc<AbstractValue> {
    match value.expression {
        Expression::Cast { operand, .. } => operand,
        _ => value,
    }
}

/// The path that `path` is refined to where the environment holds `value` at it:
/// the path of the heap block that the value is, or that the value is a reference
/// to, else the path itself.
pub open spec fn path_of_held(path: Rc<Path>, value: Rc<AbstractValue>) -> Rc<Path> {
    match uncast(value).expression {
        Expression::HeapBlock { .. } => Rc::new(Path::of_value(uncast(value))),
        Expression::Reference(target) => match target.value {
            PathEnum::HeapBlock { .. } => target,
            _ => path,
        },
        _ => path,
    }
}

/// The path that picks the part `selector` of `qualifier`, where both are refined
/// already and `original` is the selector before it was refined:
///
/// - A qualifier that ends in a dereference loses it.
/// - A qualifier at which the environment holds a reference is replaced by the
///   path that the reference points to, which is the whole result where the
///   selector is a dereference.
pub open spec fn qualified_in_environment(
    qualifier: Rc<Path>,
    selector: Rc<PathSelector>,
    original: Rc<PathSelector>,
    environment: Environment,
) -> Rc<Path> {
    let qualified = Rc::new(Path::qualified(qualifier, selector));
    match qualifier.value {
        PathEnum::QualifiedPath { qualifier: base_qualifier, selector: base_selector, .. } => {
            if *base_selector is Deref {
                Rc::new(Path::qualified(base_qualifier, selector))
            } else {
                through_reference(qualifier, selector, original, environment)
            }
        },
        _ => through_reference(qualifier, selector, original, environment),
    }
}

/// The path that picks the part `selector` of `qualifier`, with the qualifier
/// replaced by the path that it holds a reference to, if it holds one.
pub open spec fn through_reference(
    qualifier: Rc<Path>,
    selector: Rc<PathSelector>,
    original: Rc<PathSelector>,
    environment: Environment,
) -> Rc<Path> {
    match environment.lookup(*qualifier) {
        Some(value) => match value.expression {
            Expression::Reference(target) => if *original is Deref {
                target
            } else {
                Rc::new(Path::qualified(target, selector))
            },
            _ => Rc::new(Path::qualified(qualifier, selector)),
        },
        None => Rc::new(Path::qualified(qualifier, selector)),
    }
}

/// The path `path` refined with the environment, so that there is not more than
/// one path for the same location.
///
/// - A path at which the environment holds a value is as [`path_of_held`] says.
/// - A path that stands for an address is the path that stands for the refined
///   address.
/// - A qualified path has its qualifier and its selector refined and is then as
///   [`qualified_in_environment`] says.
/// - Every other path stays as it is.
pub open spec fn path_in_environment(path: Rc<Path>, environment: Environment) -> Rc<Path>
    decreases path,
{
    match environment.lookup(*path) {
        Some(value) => path_of_held(path, value),
        None => match path.value {
            PathEnum::Offset { value } => Rc::new(
                Path::of_value(refined_by_environment(value, environment)),
            ),
            PathEnum::QualifiedPath { qualifier, selector, .. } => qualified_in_environment(
                path_in_environment(qualifier, environment),
                selector_in_environment(selector, environment),
                selector,
                environment,
            ),
            _ => path,
        },
    }
}

/// The selector `selector` with the value that it holds refined with the
/// environment.
pub open spec fn selector_in_environment(
    selector: Rc<PathSelector>,
    environment: Environment,
) -> Rc<PathSelector>
    decreases selector,
{
    match *selector {
        PathSelector::Index(value) => Rc::new(
            PathSelector::Index(refined_by_environment(value, environment)),
        ),
        PathSelector::Slice(value) => Rc::new(
            PathSelector::Slice(refined_by_environment(value, environment)),
        ),
        _ => selector,
    }
}

/// Replaces occurrences of Expression::Variable(path) with the value at that path
/// in the given environment (if there is such a value).
#[verifier::rlimit(50)]
#[verifier::spinoff_prover]
pub fn refine_paths(a: &Rc<AbstractValue>, environment: &Environment) -> (result: Rc<
    AbstractValue,
>)
    ensures
        result == refined_by_environment(*a, *environment),
        a.within_limit() && environment.within_limit() ==> result.within_limit(),
    decreases a,
{
    proof {
        reveal_with_fuel(AbstractValue::within_limit, 3);
        reveal_with_fuel(Expression::within_limit, 3);
        reveal_with_fuel(Path::within_limit, 2);
    }
    let budget: usize = k_limits::MAX_REWRITE_DEPTH;
    match &a.expression {
        Expression::Bottom | Expression::Top => share(a),
        Expression::CompileTimeConstant(_) => share(a),
        Expression::HeapBlock { .. } => share(a),
        Expression::Reference(path) => {
            let refined_path = refine_paths_of_path(path, environment);
            AbstractValue::make_reference(refined_path)
        },
        Expression::UninterpretedCall { .. } => share(a),
        Expression::UnknownModelField { path, default } => {
            if let Some(value) = environment.value_at(path) {
                // This environment has a value for the model field.
                share(value)
            } else if path.is_rooted_by_parameter() {
                // Keep passing the buck to the next caller.
                AbstractValue::make_unary(
                    Expression::UnknownModelField { path: share(path), default: share(default) },
                    default.expression_size,
                )
            } else {
                // The buck stops here and the environment does not have a value for
                // the model field.
                share(default)
            }
        },
        Expression::Variable { path, var_type } => {
            if let Some(value) = environment.value_at(path) {
                share(value)
            } else {
                let refined_path = refine_paths_of_path(path, environment);
                if let PathEnum::Alias { value } = &refined_path.value {
                    share(value)
                } else if let Some(value) = environment.value_at(&refined_path) {
                    share(value)
                } else if Path::eq(&refined_path, path) {
                    share(a)
                } else {
                    AbstractValue::make_from(
                        Expression::Variable { path: refined_path, var_type: *var_type },
                        1,
                    )
                }
            }
        },
        Expression::Add { left, right, .. }
        | Expression::AddOverflows { left, right, .. }
        | Expression::And { left, right, .. }
        | Expression::BitAnd { left, right, .. }
        | Expression::BitOr { left, right, .. }
        | Expression::BitXor { left, right, .. }
        | Expression::Div { left, right, .. }
        | Expression::Equals { left, right, .. }
        | Expression::GreaterOrEqual { left, right, .. }
        | Expression::GreaterThan { left, right, .. }
        | Expression::IntrinsicBinary { left, right, .. }
        | Expression::Join { left, right, .. }
        | Expression::LessOrEqual { left, right, .. }
        | Expression::LessThan { left, right, .. }
        | Expression::Mul { left, right, .. }
        | Expression::MulOverflows { left, right, .. }
        | Expression::Ne { left, right, .. }
        | Expression::Offset { left, right, .. }
        | Expression::Or { left, right, .. }
        | Expression::Rem { left, right, .. }
        | Expression::Shl { left, right, .. }
        | Expression::ShlOverflows { left, right, .. }
        | Expression::Shr { left, right, .. }
        | Expression::ShrOverflows { left, right, .. }
        | Expression::Sub { left, right, .. }
        | Expression::SubOverflows { left, right, .. } => rebuild_binary(&a.expression, refine_paths(left, environment), refine_paths(right, environment), budget),
        Expression::BitNot { operand, .. }
        | Expression::Cast { operand, .. }
        | Expression::IntrinsicBitVectorUnary { operand, .. }
        | Expression::IntrinsicFloatingPointUnary { operand, .. }
        | Expression::LogicalNot { operand, .. }
        | Expression::Neg { operand, .. }
        | Expression::Widen { operand, .. } => rebuild_unary(&a.expression, refine_paths(operand, environment), budget),
        Expression::HeapBlockLayout { length, alignment, .. } => rebuild_layout(
            &a.expression,
            refine_paths(length, environment),
            refine_paths(alignment, environment),
        ),
        Expression::ConditionalExpression { condition, consequent, alternate } => conditional(
            &refine_paths(condition, environment),
            refine_paths(consequent, environment),
            refine_paths(alternate, environment),
            budget,
        ),
    }
}

/// Refines the values that select parts of a path, and replaces a path that leads
/// through a reference by the path that the reference points to, so that there is
/// not more than one path for the same location.
pub fn refine_paths_of_path(path: &Rc<Path>, environment: &Environment) -> (result: Rc<Path>)
    ensures
        result == path_in_environment(*path, *environment),
        path.within_limit() && environment.within_limit() ==> result.within_limit(),
    decreases path,
{
    proof {
        reveal_with_fuel(AbstractValue::within_limit, 3);
        reveal_with_fuel(Expression::within_limit, 3);
        reveal_with_fuel(Path::within_limit, 2);
    }
    if let Some(value) = environment.value_at(path) {
        // The environment has the path as a key, so the path is canonical. The
        // value at the path, however, could just be a reference to another path.
        let value = match &value.expression {
            Expression::Cast { operand, .. } => operand,
            _ => value,
        };
        return match &value.expression {
            Expression::HeapBlock { .. } => Path::get_as_path(share(value)),
            Expression::Reference(target) => match &target.value {
                PathEnum::HeapBlock { .. } => share(target),
                _ => share(path),
            },
            _ => share(path),
        };
    }
    // A path that is not a key in the environment may not be canonical.
    match &path.value {
        PathEnum::Offset { value } => Path::get_as_path(refine_paths(value, environment)),
        PathEnum::QualifiedPath { qualifier, selector, .. } => {
            let refined_selector = refine_paths_of_selector(selector, environment);
            let refined_qualifier = refine_paths_of_path(qualifier, environment);
            // The qualifier is now canonical. But in the context of a selector, we
            // might be able to simplify the qualifier by dropping an explicit
            // dereference or an explicit reference.
            if let PathEnum::QualifiedPath {
                qualifier: base_qualifier,
                selector: base_selector,
                ..
            } = &refined_qualifier.value {
                if matches!(**base_selector, PathSelector::Deref) {
                    // no need for an explicit deref in a qualifier
                    return Path::new_qualified(share(base_qualifier), refined_selector);
                }
            }
            if let Some(value) = environment.value_at(&refined_qualifier) {
                if let Expression::Reference(target) = &value.expression {
                    if matches!(**selector, PathSelector::Deref) {
                        // the path is the location that the reference points to
                        return share(target);
                    }
                    return Path::new_qualified(share(target), refined_selector);
                }
            }
            Path::new_qualified(refined_qualifier, refined_selector)
        },
        // Non qualified, non offset paths are already canonical
        _ => share(path),
    }
}

/// Refines the value that a selector holds, if it holds one.
pub fn refine_paths_of_selector(selector: &Rc<PathSelector>, environment: &Environment) -> (result:
    Rc<PathSelector>)
    ensures
        result == selector_in_environment(*selector, *environment),
        selector.within_limit() && environment.within_limit() ==> result.within_limit(),
    decreases selector,
{
    match &**selector {
        PathSelector::Index(value) => Rc::new(
            PathSelector::Index(refine_paths(value, environment)),
        ),
        PathSelector::Slice(value) => Rc::new(
            PathSelector::Slice(refine_paths(value, environment)),
        ),
        _ => share(selector),
    }
}

} // verus!
