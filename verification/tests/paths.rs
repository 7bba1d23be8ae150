use abstract_value_engine::abstract_value::{AbstractValue, AbstractValueTrait};
use abstract_value_engine::constant_domain::ConstantDomain;
use abstract_value_engine::environment::Environment;
use abstract_value_engine::expression::{Expression, ExpressionType};
use abstract_value_engine::path::{Path, PathEnum, PathRefinement, PathSelector};
use std::rc::Rc;

fn variable_at(path: Rc<Path>, var_type: ExpressionType) -> Rc<AbstractValue> {
    AbstractValue::make_from(Expression::Variable { path, var_type }, 1)
}

fn variable(ordinal: usize, var_type: ExpressionType) -> Rc<AbstractValue> {
    variable_at(Path::new_local(ordinal), var_type)
}

fn heap_block(abstract_address: usize, is_zeroed: bool) -> Rc<AbstractValue> {
    AbstractValue::make_from(Expression::HeapBlock { abstract_address, is_zeroed }, 1)
}

fn u(v: u128) -> Rc<AbstractValue> {
    AbstractValue::of_u128(v)
}

#[test]
fn qualified_paths_count_their_depth() {
    let local = Path::new_local(1);
    assert_eq!(local.path_length(), 1);
    let field = Path::new_field(local.clone(), 3);
    assert_eq!(field.path_length(), 2);
    let element = Path::new_index(Path::new_deref(field.clone()), u(0));
    assert_eq!(element.path_length(), 4);
    match &element.value {
        PathEnum::QualifiedPath { qualifier, selector, depth } => {
            assert_eq!(*depth, 4);
            assert_eq!(**selector, PathSelector::Index(u(0)));
            assert_eq!(*qualifier, Path::new_deref(field));
        }
        unexpected => panic!("expected a qualified path, got {:?}", unexpected),
    }
}

#[test]
fn paths_are_compared_by_their_parts() {
    assert_eq!(Path::new_local(1), Path::new_local(1));
    assert_ne!(Path::new_local(1), Path::new_local(2));
    assert_ne!(Path::new_local(1), Path::new_parameter(1));
    assert_eq!(Path::new_result(), Path::new_result());
    assert_eq!(Path::new_static(4, ExpressionType::U8), Path::new_static(4, ExpressionType::U8));
    assert_ne!(Path::new_static(4, ExpressionType::U8), Path::new_static(4, ExpressionType::I8));
    assert_eq!(Path::new_field(Path::new_local(1), 2), Path::new_field(Path::new_local(1), 2));
    assert_ne!(Path::new_field(Path::new_local(1), 2), Path::new_field(Path::new_local(1), 3));
    assert_ne!(PathSelector::Deref, PathSelector::Discriminant);
    assert_eq!(PathSelector::Downcast(String::from("Some"), 1), PathSelector::Downcast(String::from("Some"), 1));
    assert_ne!(PathSelector::Downcast(String::from("Some"), 1), PathSelector::Downcast(String::from("None"), 1));
    assert_eq!(
        PathSelector::ConstantSlice { from: 1, to: 2, from_end: false },
        PathSelector::ConstantSlice { from: 1, to: 2, from_end: false }
    );
    assert_ne!(PathSelector::Slice(u(1)), PathSelector::Index(u(1)));
}

#[test]
fn paths_know_their_roots() {
    let parameter = Path::new_parameter(1);
    assert!(parameter.is_rooted_by_parameter());
    assert!(Path::new_field(Path::new_deref(parameter), 0).is_rooted_by_parameter());
    assert!(!Path::new_field(Path::new_local(1), 0).is_rooted_by_parameter());
    let zeroed = Path::new_heap_block(heap_block(1, true));
    let dirty = Path::new_heap_block(heap_block(2, false));
    assert!(zeroed.is_rooted_by_zeroed_heap_block());
    assert!(Path::new_index(zeroed.clone(), u(3)).is_rooted_by_zeroed_heap_block());
    assert!(!dirty.is_rooted_by_zeroed_heap_block());
    assert!(!Path::new_local(1).is_rooted_by_zeroed_heap_block());
    assert!(heap_block(1, true).is_contained_in_zeroed_heap_block());
    assert!(!heap_block(1, false).is_contained_in_zeroed_heap_block());
    assert!(AbstractValue::make_reference(zeroed.clone()).is_contained_in_zeroed_heap_block());
    assert!(variable_at(zeroed, ExpressionType::U8).is_contained_in_zeroed_heap_block());
    let moved = heap_block(1, true).offset(AbstractValue::of_constant(ConstantDomain::I128(8)));
    assert!(moved.is_contained_in_zeroed_heap_block());
    assert!(!u(1).is_contained_in_zeroed_heap_block());
}

#[test]
fn values_stand_for_paths() {
    let block = heap_block(1, false);
    assert_eq!(Path::get_as_path(block.clone()), Path::new_heap_block(block));
    let p = Path::new_local(3);
    assert_eq!(Path::get_as_path(variable_at(p.clone(), ExpressionType::U8)), p);
    assert_eq!(Path::get_as_path(AbstractValue::make_reference(p.clone())), p);
    assert_eq!(Path::get_as_path(variable(8, ExpressionType::I8).negate().widen(&p)), p);
    assert_eq!(Path::get_as_path(u(1)), Path::new_alias(u(1)));
    let address = variable(1, ExpressionType::Reference).offset(AbstractValue::of_constant(ConstantDomain::I128(4)));
    assert_eq!(Path::get_as_path(address.clone()), Path::new_offset(address));
}

#[test]
fn path_aliases_are_found() {
    assert!(variable(1, ExpressionType::U8).is_path_alias());
    assert!(AbstractValue::make_reference(Path::new_local(1)).is_path_alias());
    assert!(variable(8, ExpressionType::I8).negate().widen(&Path::new_local(1)).is_path_alias());
    assert!(!u(1).is_path_alias());
    let c = variable(2, ExpressionType::Bool);
    assert!(c.conditional_expression(u(1), variable(1, ExpressionType::U128)).is_path_alias());
    assert!(!c.conditional_expression(u(1), u(2)).is_path_alias());
    assert!(!variable(1, ExpressionType::U128).addition(u(1)).is_path_alias());
}

#[test]
fn environments_hold_one_value_per_path() {
    let p = Path::new_local(1);
    let q = Path::new_field(Path::new_local(1), 0);
    let empty = Environment::new();
    assert!(empty.value_at(&p).is_none());
    let first = empty.insert(p.clone(), u(1));
    let second = first.insert(q.clone(), u(2));
    let third = second.insert(Path::new_local(1), u(3));
    assert_eq!(first.value_at(&p), Some(&u(1)));
    assert!(first.value_at(&q).is_none());
    assert_eq!(second.value_at(&p), Some(&u(1)));
    assert_eq!(second.value_at(&q), Some(&u(2)));
    assert_eq!(third.value_at(&p), Some(&u(3)));
    assert_eq!(third.value_at(&q), Some(&u(2)));
    assert_eq!(third.value_map.len(), 2);
    assert_eq!(first.value_map.len(), 1);
    assert!(empty.value_map.is_empty());
}

#[test]
fn refinement_with_an_environment_follows_paths() {
    let p = Path::new_local(1);
    let q = Path::new_local(2);
    let x = variable_at(p.clone(), ExpressionType::U128);
    let empty = Environment::new();
    assert_eq!(x.refine_paths(&empty), x);
    assert_eq!(u(5).refine_paths(&empty), u(5));
    assert!(AbstractValue::top().refine_paths(&empty).is_top());
    // A reference held at the qualifier replaces the qualifier.
    let environment = Environment::new()
        .insert(p.clone(), AbstractValue::make_reference(q.clone()))
        .insert(Path::new_field(q.clone(), 0), u(7));
    let through = variable_at(Path::new_field(p.clone(), 0), ExpressionType::U128);
    assert_eq!(through.refine_paths(&environment), u(7));
    let pointee = variable_at(Path::new_deref(p.clone()), ExpressionType::U128);
    assert_eq!(pointee.refine_paths(&environment), variable_at(q.clone(), ExpressionType::U128));
    assert_eq!(Path::new_deref(p.clone()).refine_paths(&environment), q);
    // An explicit dereference in a qualifier is dropped.
    let field_of_pointee = Path::new_field(Path::new_deref(Path::new_local(3)), 1);
    assert_eq!(field_of_pointee.refine_paths(&empty), Path::new_field(Path::new_local(3), 1));
    // A path that stands for a value is known by the value.
    let alias = variable_at(Path::new_alias(u(9)), ExpressionType::U128);
    assert_eq!(alias.refine_paths(&empty), u(9));
    // Selectors are refined too.
    let index = variable_at(Path::new_local(4), ExpressionType::U128);
    let element = Path::new_index(Path::new_local(5), index);
    let environment = Environment::new().insert(Path::new_local(4), u(3));
    assert_eq!(element.refine_paths(&environment), Path::new_index(Path::new_local(5), u(3)));
    let selector = Rc::new(PathSelector::Field(1));
    assert_eq!(selector.refine_paths(&environment), selector);
}

#[test]
fn model_fields_fall_back_to_their_defaults() {
    let local = Path::new_field(Path::new_local(1), 0);
    let of_parameter = Path::new_field(Path::new_parameter(1), 0);
    let field = |path: Rc<Path>| {
        AbstractValue::make_from(Expression::UnknownModelField { path, default: u(5) }, 2)
    };
    let empty = Environment::new();
    assert_eq!(field(local.clone()).refine_paths(&empty), u(5));
    assert_eq!(field(of_parameter.clone()).refine_paths(&empty), field(of_parameter.clone()));
    let environment = empty.insert(local.clone(), u(6)).insert(of_parameter.clone(), u(7));
    assert_eq!(field(local).refine_paths(&environment), u(6));
    assert_eq!(field(of_parameter).refine_paths(&environment), u(7));
}

#[test]
fn refinement_with_arguments_replaces_parameters() {
    let argument_path = Path::new_local(7);
    let arguments = vec![
        (argument_path.clone(), u(10)),
        (Path::new_alias(u(20)), u(20)),
    ];
    let first = variable_at(Path::new_parameter(1), ExpressionType::U128);
    let second = variable_at(Path::new_parameter(2), ExpressionType::U128);
    let third = variable_at(Path::new_parameter(3), ExpressionType::U128);
    assert_eq!(first.refine_parameters(&arguments, 100), variable_at(argument_path.clone(), ExpressionType::U128));
    assert_eq!(second.refine_parameters(&arguments, 100), u(20));
    assert_eq!(third.refine_parameters(&arguments, 100), third);
    assert_eq!(first.addition(second.clone()).refine_parameters(&arguments, 100), variable_at(argument_path.clone(), ExpressionType::U128).addition(u(20)));
    let reference = AbstractValue::make_reference(Path::new_parameter(1));
    assert_eq!(reference.refine_parameters(&arguments, 100), u(10));
    let missing = AbstractValue::make_reference(Path::new_parameter(9));
    assert_eq!(missing.refine_parameters(&arguments, 100), missing);
    let zeroth = AbstractValue::make_reference(Path::new_parameter(0));
    assert_eq!(zeroth.refine_parameters(&arguments, 100), zeroth);
    let local = variable(3, ExpressionType::U128);
    assert_eq!(local.refine_parameters(&arguments, 100), variable(103, ExpressionType::U128));
    let result = variable_at(Path::new_result(), ExpressionType::U128);
    assert_eq!(result.refine_parameters(&arguments, 100), variable(100, ExpressionType::U128));
    let field = Path::new_field(Path::new_parameter(1), 2);
    assert_eq!(field.refine_parameters(&arguments, 100), Path::new_field(argument_path, 2));
    assert_eq!(Path::new_local(usize::MAX).refine_parameters(&arguments, 1), Path::new_local(usize::MAX));
    assert_eq!(u(5).refine_parameters(&arguments, 100), u(5));
    let indexed = Rc::new(PathSelector::Index(second));
    assert_eq!(indexed.refine_parameters(&arguments, 100), Rc::new(PathSelector::Index(u(20))));
}

#[test]
fn calls_become_variables_in_the_caller() {
    let arguments = vec![(Path::new_local(7), u(10))];
    let call = AbstractValue::make_from(
        Expression::UninterpretedCall {
            callee: u(1),
            result_type: ExpressionType::I64,
            path: Path::new_local(2),
        },
        2,
    );
    assert_eq!(call.refine_parameters(&arguments, 10), variable(12, ExpressionType::I64));
    assert_eq!(call.refine_paths(&Environment::new()), call);
    let field = AbstractValue::make_from(
        Expression::UnknownModelField { path: Path::new_parameter(1), default: u(5) },
        2,
    );
    match &field.refine_parameters(&arguments, 10).expression {
        Expression::UnknownModelField { path, default } => {
            assert_eq!(*path, Path::new_local(7));
            assert_eq!(*default, u(5));
        }
        unexpected => panic!("expected a model field, got {:?}", unexpected),
    }
}

#[test]
fn dereferencing_follows_references() {
    let p = Path::new_local(1);
    let block = heap_block(1, false);
    assert_eq!(AbstractValue::make_reference(Path::new_heap_block(block.clone())).dereference(ExpressionType::U8), block);
    assert_eq!(AbstractValue::make_reference(p.clone()).dereference(ExpressionType::U8), variable_at(p.clone(), ExpressionType::U8));
    assert_eq!(variable_at(p.clone(), ExpressionType::Reference).dereference(ExpressionType::U8), variable_at(Path::new_deref(p.clone()), ExpressionType::U8));
    assert!(AbstractValue::top().dereference(ExpressionType::U8).is_top());
    assert!(AbstractValue::bottom().dereference(ExpressionType::U8).is_bottom());
    assert_eq!(u(5).dereference(ExpressionType::U8), u(5));
    let c = variable(9, ExpressionType::Bool);
    let q = Path::new_local(2);
    let either = c.conditional_expression(AbstractValue::make_reference(p.clone()), AbstractValue::make_reference(q.clone()));
    assert_eq!(either.dereference(ExpressionType::U8), c.conditional_expression(variable_at(p.clone(), ExpressionType::U8), variable_at(q, ExpressionType::U8)));
    let cast = AbstractValue::make_from(
        Expression::Cast { operand: AbstractValue::make_reference(p.clone()), target_type: ExpressionType::Reference },
        2,
    );
    assert_eq!(cast.dereference(ExpressionType::U8), variable_at(p, ExpressionType::U8));
    let unhandled = u(1).addition(variable(3, ExpressionType::U128));
    assert_eq!(unhandled.dereference(ExpressionType::U8), AbstractValue::make_typed_unknown(ExpressionType::U8));
}

#[test]
fn heap_blocks_are_recorded_once() {
    let first = heap_block(1, false);
    let second = heap_block(2, true);
    let x = variable_at(Path::new_heap_block(second.clone()), ExpressionType::U64);
    let value = AbstractValue::make_from(Expression::Add { left: first.clone(), right: x }, 2);
    let both = AbstractValue::make_from(
        Expression::ConditionalExpression {
            condition: variable(9, ExpressionType::Bool),
            consequent: value.clone(),
            alternate: first.clone(),
        },
        4,
    );
    let mut recorded = Vec::new();
    both.record_heap_blocks(&mut recorded);
    assert_eq!(recorded, vec![first.clone(), second.clone()]);
    both.record_heap_blocks(&mut recorded);
    assert_eq!(recorded.len(), 2);
    let mut other = vec![second.clone()];
    value.record_heap_blocks(&mut other);
    assert_eq!(other, vec![second, first]);
    let mut none = Vec::new();
    u(1).record_heap_blocks(&mut none);
    assert!(none.is_empty());
}

#[test]
fn equalities_are_added_for_widened_variables() {
    let p = Path::new_local(1);
    let q = Path::new_local(2);
    let r = Path::new_local(3);
    let widened = variable(8, ExpressionType::I8).negate().widen(&p);
    let self_env = Environment::new()
        .insert(p.clone(), u(5))
        .insert(q.clone(), u(6))
        .insert(r.clone(), AbstractValue::make_reference(q.clone()));
    let widened_env = Environment::new()
        .insert(p.clone(), widened.clone())
        .insert(q.clone(), u(7))
        .insert(r.clone(), widened.clone());
    let condition = variable(9, ExpressionType::Bool);
    let result = condition.add_equalities_for_widened_vars(&self_env, &widened_env);
    match &result.expression {
        Expression::And { left, right } => {
            assert_eq!(*left, condition);
            match &right.expression {
                Expression::Equals { left, right } => {
                    assert_eq!(*left, variable_at(p, ExpressionType::U128));
                    assert_eq!(*right, u(5));
                }
                unexpected => panic!("expected an equality, got {:?}", unexpected),
            }
        }
        unexpected => panic!("expected a conjunction, got {:?}", unexpected),
    }
    assert_eq!(condition.add_equalities_for_widened_vars(&self_env, &self_env), condition);
    assert_eq!(condition.add_equalities_for_widened_vars(&Environment::new(), &widened_env), condition);
}
