//! Refinement of the values of a called function with the arguments of a call.
//!
//! The refinement walks the expression of a value and rebuilds it with the
//! operators, so that the simplifications of the operators apply to the result.

use vstd::prelude::*;
use std::rc::Rc;
use crate::abstract_value::AbstractValue;
use crate::conditional::conditional;
use crate::expression::Expression;
use crate::k_limits;
use crate::path::{Path, PathEnum, PathSelector};
use crate::rebuild::{rebuild_binary, rebuild_layout, rebuild_unary};
use crate::rules::{choice, rebuilt_binary, rebuilt_layout, rebuilt_unary};
use crate::shared::share;
use crate::environment_refinement::reference_to;

verus! {

/// True if no argument holds a value that is larger than the greatest size that an
/// expression may have.
pub open spec fn arguments_within_limit(arguments: Seq<(Rc<Path>, Rc<AbstractValue>)>) -> bool {
    forall|i: int|
        0 <= i < arguments.len() ==> (#[trigger] arguments[i]).0.within_limit()
            && arguments[i].1.within_limit()
}

/// The argument for the parameter with the given number, counted from one, if
/// there is one.
pub open spec fn argument_for(
    arguments: Seq<(Rc<Path>, Rc<AbstractValue>)>,
    ordinal: usize,
) -> Option<(Rc<Path>, Rc<AbstractValue>)> {
    if 1 <= ordinal <= arguments.len() {
        Some(arguments[ordinal - 1])
    } else {
        None
    }
}

/// The value that stands for what is at `path`, of sort `var_type`: the value that
/// an alias path is known by, else a variable at the path.
pub open spec fn variable_at(path: Rc<Path>, var_type: crate::expression::ExpressionType) -> Rc<
    AbstractValue,
> {
    match path.value {
        PathEnum::Alias { value } => value,
        _ => Rc::new(AbstractValue::made_from(Expression::Variable { path, var_type }, 1)),
    }
}

/// The argument that a reference to a parameter stands for, if `path` is a
/// parameter with an argument.
pub open spec fn referenced_argument(
    path: Rc<Path>,
    arguments: Seq<(Rc<Path>, Rc<AbstractValue>)>,
) -> Option<Rc<AbstractValue>> {
    match path.value {
        PathEnum::Parameter { ordinal } => match argument_for(arguments, ordinal) {
            Some(argument) => Some(argument.1),
            None => None,
        },
        _ => None,
    }
}

/// The value `a` of a called function as the caller sees it: with the parameters
/// replaced by the arguments and the numbers of locals moved by `fresh`.
///
/// - A reference to a parameter is the argument, which is a reference already.
///   Every other reference has its path refined.
/// - A variable and a call have their paths refined, and are then the value that
///   an alias path is known by, or a variable at the refined path.
/// - A model field has its path refined.
/// - The unknown and the impossible value, constants and heap blocks stay as they
///   are.
/// - Every other value is rebuilt by its operator from its refined operands.
pub open spec fn refined_by_arguments(
    a: Rc<AbstractValue>,
    arguments: Seq<(Rc<Path>, Rc<AbstractValue>)>,
    fresh: usize,
) -> Rc<AbstractValue>
    decreases a,
{
    let n = k_limits::MAX_REWRITE_DEPTH;
    match a.expression {
        Expression::Bottom
        | Expression::Top
        | Expression::CompileTimeConstant(_)
        | Expression::HeapBlock { .. } => a,
        Expression::Reference(path) => match referenced_argument(path, arguments) {
            Some(argument) => argument,
            None => reference_to(path_of_caller(path, arguments, fresh)),
        },
        Expression::UninterpretedCall { result_type, path, .. } => variable_at(
            path_of_caller(path, arguments, fresh),
            result_type,
        ),
        Expression::UnknownModelField { path, default } => Rc::new(
            AbstractValue::made_from(
                Expression::UnknownModelField {
                    path: path_of_caller(path, arguments, fresh),
                    default,
                },
                1,
            ),
        ),
        Expression::Variable { path, var_type } => variable_at(
            path_of_caller(path, arguments, fresh),
            var_type,
        ),
        Expression::Add { left, right, .. }
        | Expression::AddOverflows { left, right, .. }
        | Expression::And { left, right, .. }
        | Expression::BitAnd { left, right, .. }
        | Expression::BitOr { left, right, .. }
        | Expression::BitXor { left, right, .. }
        | Expression::Div { left, right, .. }
        | Expression::Equals { left, right, .. }
        | Expression::GreaterOrEqual { left, right, .. }
        | Expression::GreaterThan { left, right, .. }
        | Expression::IntrinsicBinary { left, right, .. }
        | Expression::Join { left, right, .. }
        | Expression::LessOrEqual { left, right, .. }
        | Expression::LessThan { left, right, .. }
        | Expression::Mul { left, right, .. }
        | Expression::MulOverflows { left, right, .. }
        | Expression::Ne { left, right, .. }
        | Expression::Offset { left, right, .. }
        | Expression::Or { left, right, .. }
        | Expression::Rem { left, right, .. }
        | Expression::Shl { left, right, .. }
        | Expression::ShlOverflows { left, right, .. }
        | Expression::Shr { left, right, .. }
        | Expression::ShrOverflows { left, right, .. }
        | Expression::Sub { left, right, .. }
        | Expression::SubOverflows { left, right, .. } => rebuilt_binary(a.expression, refined_by_arguments(left, arguments, fresh), refined_by_arguments(right, arguments, fresh), n),
        Expression::BitNot { operand, .. }
        | Expression::Cast { operand, .. }
        | Expression::IntrinsicBitVectorUnary { operand, .. }
        | Expression::IntrinsicFloatingPointUnary { operand, .. }
        | Expression::LogicalNot { operand, .. }
        | Expression::Neg { operand, .. }
        | Expression::Widen { operand, .. } => rebuilt_unary(a.expression, refined_by_arguments(operand, arguments, fresh), n),
        Expression::HeapBlockLayout { length, alignment, .. } => rebuilt_layout(
            a.expression,
            refined_by_arguments(length, arguments, fresh),
            refined_by_arguments(alignment, arguments, fresh),
        ),
        Expression::ConditionalExpression { condition, consequent, alternate } => choice(
            refined_by_arguments(condition, arguments, fresh),
            refined_by_arguments(consequent, arguments, fresh),
            refined_by_arguments(alternate, arguments, fresh),
            n,
        ),
    }
}

/// The sum of the number of a local and `fresh`, or the greatest number where the
/// sum is greater than that.
pub open spec fn moved_ordinal(ordinal: usize, fresh: usize) -> usize {
    if ordinal + fresh > usize::MAX {
        usize::MAX
    } else {
        (ordinal + fresh) as usize
    }
}

/// The path `path` of a called function as the caller sees it.
///
/// - A local has its number moved by `fresh`, and the result of the function is
///   the local with the number `fresh`.
/// - A parameter is the path of its argument, if it has one.
/// - A qualified path has its qualifier and its selector refined.
/// - Every other path stays as it is.
pub open spec fn path_of_caller(
    path: Rc<Path>,
    arguments: Seq<(Rc<Path>, Rc<AbstractValue>)>,
    fresh: usize,
) -> Rc<Path>
    decreases path,
{
    match path.value {
        PathEnum::LocalVariable { ordinal } => Rc::new(
            Path { value: PathEnum::LocalVariable { ordinal: moved_ordinal(ordinal, fresh) } },
        ),
        PathEnum::Parameter { ordinal } => match argument_for(arguments, ordinal) {
            Some(argument) => argument.0,
            None => path,
        },
        PathEnum::ReturnValue => Rc::new(Path { value: PathEnum::LocalVariable { ordinal: fresh } }),
        PathEnum::QualifiedPath { qualifier, selector, .. } => Rc::new(
            Path::qualified(
                path_of_caller(qualifier, arguments, fresh),
                selector_of_caller(selector, arguments, fresh),
            ),
        ),
        _ => path,
    }
}

/// The selector `selector` of a called function as the caller sees it: with the
/// value that it holds refined.
pub open spec fn selector_of_caller(
    selector: Rc<PathSelector>,
    arguments: Seq<(Rc<Path>, Rc<AbstractValue>)>,
    fresh: usize,
) -> Rc<PathSelector>
    decreases selector,
{
    match *selector {
        PathSelector::Index(value) => Rc::new(
            PathSelector::Index(refined_by_arguments(value, arguments, fresh)),
        ),
        PathSelector::Slice(value) => Rc::new(
            PathSelector::Slice(refined_by_arguments(value, arguments, fresh)),
        ),
        _ => selector,
    }
}

/// Returns a value that is simplified (refined) by replacing parameter values with
/// their corresponding argument values. If no refinement is possible the result
/// is simply the given value.
///
/// `fresh` is an offset to add to the locals of the called function so that they
/// do not clash with the locals of the caller. A parameter for which there is no
/// argument stays as it is.
#[verifier::rlimit(50)]
#[verifier::spinoff_prover]
pub fn refine_parameters(
    a: &Rc<AbstractValue>,
    arguments: &[(Rc<Path>, Rc<AbstractValue>)],
    fresh: usize,
) -> (result: Rc<AbstractValue>)
    ensures
        result == refined_by_arguments(*a, arguments@, fresh),
        a.within_limit() && arguments_within_limit(arguments@) ==> result.within_limit(),
    decreases a,
{
    proof {
        reveal_with_fuel(AbstractValue::within_limit, 3);
        reveal_with_fuel(Expression::within_limit, 3);
        reveal_with_fuel(Path::within_limit, 2);
    }
    let budget: usize = k_limits::MAX_REWRITE_DEPTH;
    match &a.expression {
        Expression::Bottom | Expression::Top => share(a),
        Expression::CompileTimeConstant(_) => share(a),
        Expression::HeapBlock { .. } => share(a),
        Expression::Reference(path) => {
            // if the path is a parameter, the reference is an artifact of its type
            // and needs to be removed in the call context
            if let PathEnum::Parameter { ordinal } = &path.value {
                if 1 <= *ordinal && *ordinal <= arguments.len() {
                    return share(&arguments[*ordinal - 1].1);
                }
            }
            let refined_path = refine_parameters_of_path(path, arguments, fresh);
            AbstractValue::make_reference(refined_path)
        },
        Expression::UninterpretedCall { result_type, path, .. } => {
            let refined_path = refine_parameters_of_path(path, arguments, fresh);
            if let PathEnum::Alias { value } = &refined_path.value {
                share(value)
            } else {
                AbstractValue::make_from(
                    Expression::Variable { path: refined_path, var_type: *result_type },
                    1,
                )
            }
        },
        Expression::UnknownModelField { path, default } => {
            let refined_path = refine_parameters_of_path(path, arguments, fresh);
            AbstractValue::make_from(
                Expression::UnknownModelField { path: refined_path, default: share(default) },
                1,
            )
        },
        Expression::Variable { path, var_type } => {
            let refined_path = refine_parameters_of_path(path, arguments, fresh);
            if let PathEnum::Alias { value } = &refined_path.value {
                share(value)
            } else {
                AbstractValue::make_from(
                    Expression::Variable { path: refined_path, var_type: *var_type },
                    1,
                )
            }
        },
        Expression::Add { left, right, .. }
        | Expression::AddOverflows { left, right, .. }
        | Expression::And { left, right, .. }
        | Expression::BitAnd { left, right, .. }
        | Expression::BitOr { left, right, .. }
        | Expression::BitXor { left, right, .. }
        | Expression::Div { left, right, .. }
        | Expression::Equals { left, right, .. }
        | Expression::GreaterOrEqual { left, right, .. }
        | Expression::GreaterThan { left, right, .. }
        | Expression::IntrinsicBinary { left, right, .. }
        | Expression::Join { left, right, .. }
        | Expression::LessOrEqual { left, right, .. }
        | Expression::LessThan { left, right, .. }
        | Expression::Mul { left, right, .. }
        | Expression::MulOverflows { left, right, .. }
        | Expression::Ne { left, right, .. }
        | Expression::Offset { left, right, .. }
        | Expression::Or { left, right, .. }
        | Expression::Rem { left, right, .. }
        | Expression::Shl { left, right, .. }
        | Expression::ShlOverflows { left, right, .. }
        | Expression::Shr { left, right, .. }
        | Expression::ShrOverflows { left, right, .. }
        | Expression::Sub { left, right, .. }
        | Expression::SubOverflows { left, right, .. } => rebuild_binary(&a.expression, refine_parameters(left, arguments, fresh), refine_parameters(right, arguments, fresh), budget),
        Expression::BitNot { operand, .. }
        | Expression::Cast { operand, .. }
        | Expression::IntrinsicBitVectorUnary { operand, .. }
        | Expression::IntrinsicFloatingPointUnary { operand, .. }
        | Expression::LogicalNot { operand, .. }
        | Expression::Neg { operand, .. }
        | Expression::Widen { operand, .. } => rebuild_unary(&a.expression, refine_parameters(operand, arguments, fresh), budget),
        Expression::HeapBlockLayout { length, alignment, .. } => rebuild_layout(
            &a.expression,
            refine_parameters(length, arguments, fresh),
            refine_parameters(alignment, arguments, fresh),
        ),
        Expression::ConditionalExpression { condition, consequent, alternate } => conditional(
            &refine_parameters(condition, arguments, fresh),
            refine_parameters(consequent, arguments, fresh),
            refine_parameters(alternate, arguments, fresh),
            budget,
        ),
    }
}

/// Replaces the parameter at the root of a path by the path of its argument, moves
/// the numbers of locals by `fresh`, and refines the values that select parts.
pub fn refine_parameters_of_path(
    path: &Rc<Path>,
    arguments: &[(Rc<Path>, Rc<AbstractValue>)],
    fresh: usize,
) -> (result: Rc<Path>)
    ensures
        result == path_of_caller(*path, arguments@, fresh),
        path.within_limit() && arguments_within_limit(arguments@) ==> result.within_limit(),
    decreases path,
{
    proof {
        reveal_with_fuel(Path::within_limit, 2);
    }
    match &path.value {
        PathEnum::LocalVariable { ordinal } => Path::new_local(ordinal.saturating_add(fresh)),
        PathEnum::Parameter { ordinal } => {
            if 1 <= *ordinal && *ordinal <= arguments.len() {
                share(&arguments[*ordinal - 1].0)
            } else {
                share(path)
            }
        },
        PathEnum::ReturnValue => Path::new_local(fresh),
        PathEnum::QualifiedPath { qualifier, selector, .. } => {
            let refined_qualifier = refine_parameters_of_path(qualifier, arguments, fresh);
            let refined_selector = refine_parameters_of_selector(selector, arguments, fresh);
            Path::new_qualified(refined_qualifier, refined_selector)
        },
        _ => share(path),
    }
}

/// Refines the value that a selector holds, if it holds one.
pub fn refine_parameters_of_selector(
    selector: &Rc<PathSelector>,
    arguments: &[(Rc<Path>, Rc<AbstractValue>)],
    fresh: usize,
) -> (result: Rc<PathSelector>)
    ensures
        result == selector_of_caller(*selector, arguments@, fresh),
        selector.within_limit() && arguments_within_limit(arguments@) ==> result.within_limit(),
    decreases selector,
{
    match &**selector {
        PathSelector::Index(value) => Rc::new(
            PathSelector::Index(refine_parameters(value, arguments, fresh)),
        ),
        PathSelector::Slice(value) => Rc::new(
            PathSelector::Slice(refine_parameters(value, arguments, fresh)),
        ),
        _ => share(selector),
    }
}

} // verus!
