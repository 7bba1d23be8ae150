//! Symbolic names for memory locations.

use vstd::prelude::*;
use vstd::std_specs::cmp::PartialEqSpecImpl;
use std::rc::Rc;
use crate::abstract_value::AbstractValue;
use crate::environment::Environment;
use crate::argument_refinement::{arguments_within_limit, path_of_caller, selector_of_caller};
use crate::environment_refinement::{path_in_environment, selector_in_environment};
use crate::expression::{Expression, ExpressionType};
use crate::shared::share;

verus! {

/// The name of a memory location.
#[derive(Clone, Debug, PartialOrd, Ord)]
pub struct Path {
    pub value: PathEnum,
}

/// The kinds of names that memory locations have.
#[derive(Clone, Debug, PartialOrd, Ord)]
pub enum PathEnum {
    /// A location that is known only by the value it holds. Values that are not
    /// kept in memory, or whose location got lost, are rooted here.
    Alias { value: Rc<AbstractValue> },
    /// The block of heap memory whose address is `value`.
    HeapBlock { value: Rc<AbstractValue> },
    /// The local variable or compiler temporary with the given number.
    LocalVariable { ordinal: usize },
    /// The location at the address `value`, which is a base address moved by an offset.
    Offset { value: Rc<AbstractValue> },
    /// The parameter with the given number, counted from one.
    Parameter { ordinal: usize },
    /// The location that holds the result of the current function.
    ReturnValue,
    /// The static variable that `def_id` identifies.
    StaticVariable { def_id: usize, expression_type: ExpressionType },
    /// The part of `qualifier` that `selector` picks. `depth` counts the selectors
    /// between this path and its root, this one included, and the root.
    QualifiedPath { qualifier: Rc<Path>, selector: Rc<PathSelector>, depth: usize },
}

/// The ways in which a path picks a part of the location that another path names.
#[derive(Clone, Debug, PartialOrd, Ord)]
pub enum PathSelector {
    /// The location that a reference or pointer points to.
    Deref,
    /// The tag that tells the variants of an enum apart.
    Discriminant,
    /// The field with the given number.
    Field(usize),
    /// The element at the index that the value gives.
    Index(Rc<AbstractValue>),
    /// The elements from `from` up to `to`, both counted from the end if `from_end`.
    ConstantSlice { from: u32, to: u32, from_end: bool },
    /// The first elements, as many as the value gives.
    Slice(Rc<AbstractValue>),
    /// The fields of the variant with the given name and number.
    Downcast(String, usize),
}

impl Path {
    /// True if the two paths name the same location in the same way.
    pub open spec fn same_as(self, other: Path) -> bool
        decreases self,
    {
        self.value.same_as(other.value)
    }

    /// Returns true if the two paths name the same location in the same way.
    pub fn eq(&self, other: &Path) -> (result: bool)
        ensures
            result == self.same_as(*other),
        decreases self,
    {
        self.value.eq(&other.value)
    }
}

impl PathEnum {
    /// True if the two are the same kind of name with the same parts.
    pub open spec fn same_as(self, other: PathEnum) -> bool
        decreases self,
    {
        match (self, other) {
            (PathEnum::Alias { value: v1 }, PathEnum::Alias { value: v2 }) => (*v1).same_as(*v2),
            (PathEnum::HeapBlock { value: v1 }, PathEnum::HeapBlock { value: v2 }) => (
            *v1).same_as(*v2),
            (PathEnum::LocalVariable { ordinal: o1 }, PathEnum::LocalVariable { ordinal: o2 }) => o1
                == o2,
            (PathEnum::Offset { value: v1 }, PathEnum::Offset { value: v2 }) => (*v1).same_as(*v2),
            (PathEnum::Parameter { ordinal: o1 }, PathEnum::Parameter { ordinal: o2 }) => o1 == o2,
            (PathEnum::ReturnValue, PathEnum::ReturnValue) => true,
            (
                PathEnum::StaticVariable { def_id: d1, expression_type: t1 },
                PathEnum::StaticVariable { def_id: d2, expression_type: t2 },
            ) => d1 == d2 && t1 == t2,
            (
                PathEnum::QualifiedPath { qualifier: q1, selector: s1, depth: n1 },
                PathEnum::QualifiedPath { qualifier: q2, selector: s2, depth: n2 },
            ) => (*q1).same_as(*q2) && (*s1).same_as(*s2) && n1 == n2,
            _ => false,
        }
    }

    /// Returns true if the two are the same kind of name with the same parts.
    pub fn eq(&self, other: &PathEnum) -> (result: bool)
        ensures
            result == self.same_as(*other),
        decreases self,
    {
        match (self, other) {
            (PathEnum::Alias { value: v1 }, PathEnum::Alias { value: v2 }) => AbstractValue::eq(v1, v2),
            (PathEnum::HeapBlock { value: v1 }, PathEnum::HeapBlock { value: v2 }) => AbstractValue::eq(v1, v2),
            (PathEnum::LocalVariable { ordinal: o1 }, PathEnum::LocalVariable { ordinal: o2 }) => *o1
                == *o2,
            (PathEnum::Offset { value: v1 }, PathEnum::Offset { value: v2 }) => AbstractValue::eq(v1, v2),
            (PathEnum::Parameter { ordinal: o1 }, PathEnum::Parameter { ordinal: o2 }) => *o1
                == *o2,
            (PathEnum::ReturnValue, PathEnum::ReturnValue) => true,
            (
                PathEnum::StaticVariable { def_id: d1, expression_type: t1 },
                PathEnum::StaticVariable { def_id: d2, expression_type: t2 },
            ) => *d1 == *d2 && *t1 == *t2,
            (
                PathEnum::QualifiedPath { qualifier: q1, selector: s1, depth: n1 },
                PathEnum::QualifiedPath { qualifier: q2, selector: s2, depth: n2 },
            ) => Path::eq(q1, q2) && PathSelector::eq(s1, s2) && *n1 == *n2,
            _ => false,
        }
    }
}

impl PathSelector {
    /// True if the two selectors pick the same part.
    pub open spec fn same_as(self, other: PathSelector) -> bool
        decreases self,
    {
        match (self, other) {
            (PathSelector::Deref, PathSelector::Deref) => true,
            (PathSelector::Discriminant, PathSelector::Discriminant) => true,
            (PathSelector::Field(n1), PathSelector::Field(n2)) => n1 == n2,
            (PathSelector::Index(v1), PathSelector::Index(v2)) => (*v1).same_as(*v2),
            (
                PathSelector::ConstantSlice { from: f1, to: t1, from_end: e1 },
                PathSelector::ConstantSlice { from: f2, to: t2, from_end: e2 },
            ) => f1 == f2 && t1 == t2 && e1 == e2,
            (PathSelector::Slice(v1), PathSelector::Slice(v2)) => (*v1).same_as(*v2),
            (PathSelector::Downcast(s1, n1), PathSelector::Downcast(s2, n2)) => s1@ == s2@ && n1
                == n2,
            _ => false,
        }
    }

    /// Returns true if the two selectors pick the same part.
    pub fn eq(&self, other: &PathSelector) -> (result: bool)
        ensures
            result == self.same_as(*other),
        decreases self,
    {
        match (self, other) {
            (PathSelector::Deref, PathSelector::Deref) => true,
            (PathSelector::Discriminant, PathSelector::Discriminant) => true,
            (PathSelector::Field(n1), PathSelector::Field(n2)) => *n1 == *n2,
            (PathSelector::Index(v1), PathSelector::Index(v2)) => AbstractValue::eq(v1, v2),
            (
                PathSelector::ConstantSlice { from: f1, to: t1, from_end: e1 },
                PathSelector::ConstantSlice { from: f2, to: t2, from_end: e2 },
            ) => *f1 == *f2 && *t1 == *t2 && *e1 == *e2,
            (PathSelector::Slice(v1), PathSelector::Slice(v2)) => AbstractValue::eq(v1, v2),
            (PathSelector::Downcast(s1, n1), PathSelector::Downcast(s2, n2)) => *s1 == *s2 && *n1
                == *n2,
            _ => false,
        }
    }
}

impl Path {
    /// True if no value in this path, at any depth, is larger than the greatest size
    /// that an expression may have.
    pub open spec fn within_limit(self) -> bool
        decreases self,
    {
        match self.value {
            PathEnum::Alias { value } | PathEnum::HeapBlock { value } | PathEnum::Offset {
                value,
            } => value.within_limit(),
            PathEnum::QualifiedPath { qualifier, selector, .. } => qualifier.within_limit()
                && selector.within_limit(),
            _ => true,
        }
    }

    /// The number of selectors between this path and its root, plus one for the root.
    pub open spec fn length(self) -> usize {
        match self.value {
            PathEnum::QualifiedPath { depth, .. } => depth,
            _ => 1,
        }
    }

    /// True if following the qualifiers of this path leads to a parameter.
    pub open spec fn rooted_by_parameter(self) -> bool
        decreases self,
    {
        match self.value {
            PathEnum::Parameter { .. } => true,
            PathEnum::QualifiedPath { qualifier, .. } => qualifier.rooted_by_parameter(),
            _ => false,
        }
    }

    /// True if this path leads to `root` through first fields only: it is the field
    /// with the number zero of `root`, or of a path of which this holds.
    pub open spec fn first_leaf_rooted_in(self, root: Path) -> bool
        decreases self,
    {
        match self.value {
            PathEnum::QualifiedPath { qualifier, selector, .. } => match *selector {
                PathSelector::Field(ordinal) => ordinal == 0 && (qualifier.same_as(root)
                    || qualifier.first_leaf_rooted_in(root)),
                _ => false,
            },
            _ => false,
        }
    }

    /// True if following the qualifiers of this path leads to a heap block that was
    /// zeroed when it was allocated.
    pub open spec fn rooted_by_zeroed_heap_block(self) -> bool
        decreases self,
    {
        match self.value {
            PathEnum::HeapBlock { value } => value.expression matches Expression::HeapBlock {
                is_zeroed,
                ..
            } && is_zeroed,
            PathEnum::QualifiedPath { qualifier, .. } => qualifier.rooted_by_zeroed_heap_block(),
            _ => false,
        }
    }

    /// The path that stands for `value`: the path that `value` names, if it is a
    /// reference, a variable or a widened value, else a path that is known by
    /// `value` alone.
    pub open spec fn of_value(value: Rc<AbstractValue>) -> Path {
        match value.expression {
            Expression::HeapBlock { .. } => Path { value: PathEnum::HeapBlock { value } },
            Expression::Offset { .. } => Path { value: PathEnum::Offset { value } },
            Expression::Reference(path)
            | Expression::Variable { path, .. }
            | Expression::Widen { path, .. } => *path,
            _ => Path { value: PathEnum::Alias { value } },
        }
    }

    /// The path that picks the part `selector` of `qualifier`.
    pub open spec fn qualified(qualifier: Rc<Path>, selector: Rc<PathSelector>) -> Path {
        Path {
            value: PathEnum::QualifiedPath {
                qualifier,
                selector,
                depth: if qualifier.length() < usize::MAX {
                    (qualifier.length() + 1) as usize
                } else {
                    usize::MAX
                },
            },
        }
    }

    /// Returns the path that is known only by the value it holds.
    pub fn new_alias(value: Rc<AbstractValue>) -> (result: Rc<Path>)
        ensures
            *result == (Path { value: PathEnum::Alias { value } }),
    {
        Rc::new(Path { value: PathEnum::Alias { value } })
    }

    /// Returns the path of the heap block whose address is `value`.
    pub fn new_heap_block(value: Rc<AbstractValue>) -> (result: Rc<Path>)
        ensures
            *result == (Path { value: PathEnum::HeapBlock { value } }),
    {
        Rc::new(Path { value: PathEnum::HeapBlock { value } })
    }

    /// Returns the path of the location at the address `value`.
    pub fn new_offset(value: Rc<AbstractValue>) -> (result: Rc<Path>)
        ensures
            *result == (Path { value: PathEnum::Offset { value } }),
    {
        Rc::new(Path { value: PathEnum::Offset { value } })
    }

    /// Returns the path of the local variable with the given number.
    pub fn new_local(ordinal: usize) -> (result: Rc<Path>)
        ensures
            *result == (Path { value: PathEnum::LocalVariable { ordinal } }),
    {
        Rc::new(Path { value: PathEnum::LocalVariable { ordinal } })
    }

    /// Returns the path of the parameter with the given number.
    pub fn new_parameter(ordinal: usize) -> (result: Rc<Path>)
        ensures
            *result == (Path { value: PathEnum::Parameter { ordinal } }),
    {
        Rc::new(Path { value: PathEnum::Parameter { ordinal } })
    }

    /// Returns the path of the location that holds the result of the current function.
    pub fn new_result() -> (result: Rc<Path>)
        ensures
            *result == (Path { value: PathEnum::ReturnValue }),
    {
        Rc::new(Path { value: PathEnum::ReturnValue })
    }

    /// Returns the path of the static variable that `def_id` identifies.
    pub fn new_static(def_id: usize, expression_type: ExpressionType) -> (result: Rc<Path>)
        ensures
            *result == (Path { value: PathEnum::StaticVariable { def_id, expression_type } }),
    {
        Rc::new(Path { value: PathEnum::StaticVariable { def_id, expression_type } })
    }

    /// Returns the path that picks the part `selector` of `qualifier`. Its depth is
    /// one more than the length of `qualifier`.
    pub fn new_qualified(qualifier: Rc<Path>, selector: Rc<PathSelector>) -> (result: Rc<Path>)
        ensures
            *result == Path::qualified(qualifier, selector),
    {
        let length: usize = qualifier.path_length();
        let depth: usize = if length < usize::MAX {
            length + 1
        } else {
            usize::MAX
        };
        Rc::new(Path { value: PathEnum::QualifiedPath { qualifier, selector, depth } })
    }

    /// Returns the path of the location that the reference at `path` points to.
    pub fn new_deref(path: Rc<Path>) -> (result: Rc<Path>)
        ensures
            *result == Path::qualified(path, Rc::new(PathSelector::Deref)),
    {
        Path::new_qualified(path, Rc::new(PathSelector::Deref))
    }

    /// Returns the path of the field with the given number of the location at `path`.
    pub fn new_field(path: Rc<Path>, ordinal: usize) -> (result: Rc<Path>)
        ensures
            *result == Path::qualified(path, Rc::new(PathSelector::Field(ordinal))),
    {
        Path::new_qualified(path, Rc::new(PathSelector::Field(ordinal)))
    }

    /// Returns the path of the element at `index` of the collection at `path`.
    pub fn new_index(path: Rc<Path>, index: Rc<AbstractValue>) -> (result: Rc<Path>)
        ensures
            *result == Path::qualified(path, Rc::new(PathSelector::Index(index))),
    {
        Path::new_qualified(path, Rc::new(PathSelector::Index(index)))
    }

    /// Returns the path that stands for `value`.
    pub fn get_as_path(value: Rc<AbstractValue>) -> (result: Rc<Path>)
        ensures
            *result == Path::of_value(value),
    {
        match &value.expression {
            Expression::HeapBlock { .. } => Path::new_heap_block(value),
            Expression::Offset { .. } => Path::new_offset(value),
            Expression::Reference(path)
            | Expression::Variable { path, .. }
            | Expression::Widen { path, .. } => share(path),
            _ => Path::new_alias(value),
        }
    }

    /// Returns the number of selectors between this path and its root, plus one.
    pub fn path_length(&self) -> (result: usize)
        ensures
            result == self.length(),
    {
        match &self.value {
            PathEnum::QualifiedPath { depth, .. } => *depth,
            _ => 1,
        }
    }

    /// Returns true if this path is a parameter or a part of one.
    pub fn is_rooted_by_parameter(&self) -> (result: bool)
        ensures
            result == self.rooted_by_parameter(),
        decreases self,
    {
        match &self.value {
            PathEnum::Parameter { .. } => true,
            PathEnum::QualifiedPath { qualifier, .. } => qualifier.is_rooted_by_parameter(),
            _ => false,
        }
    }

    /// Returns true if this path leads to `root` through first fields only: it is
    /// the field with the number zero of `root`, or of a path of which this holds.
    pub fn is_first_leaf_rooted_in(&self, root: &Rc<Path>) -> (result: bool)
        ensures
            result == self.first_leaf_rooted_in(**root),
        decreases self,
    {
        match &self.value {
            PathEnum::QualifiedPath { qualifier, selector, .. } => match &**selector {
                PathSelector::Field(ordinal) => *ordinal == 0 && (Path::eq(qualifier, root)
                    || qualifier.is_first_leaf_rooted_in(root)),
                _ => false,
            },
            _ => false,
        }
    }

    /// Returns true if this path is a zeroed heap block or a part of one.
    pub fn is_rooted_by_zeroed_heap_block(&self) -> (result: bool)
        ensures
            result == self.rooted_by_zeroed_heap_block(),
        decreases self,
    {
        match &self.value {
            PathEnum::HeapBlock { value } => match &value.expression {
                Expression::HeapBlock { is_zeroed, .. } => *is_zeroed,
                _ => false,
            },
            PathEnum::QualifiedPath { qualifier, .. } => qualifier.is_rooted_by_zeroed_heap_block(),
            _ => false,
        }
    }
}

impl PathSelector {
    /// True if no value in this selector, at any depth, is larger than the greatest
    /// size that an expression may have.
    pub open spec fn within_limit(self) -> bool
        decreases self,
    {
        match self {
            PathSelector::Index(value) | PathSelector::Slice(value) => value.within_limit(),
            _ => true,
        }
    }
}

/// Refinement of paths and selectors with what is known at another place of the
/// analysis.
pub trait PathRefinement: Sized {
    /// Replaces parameters by the paths of their arguments, moves the numbers of
    /// locals by `fresh`, and refines the values that select parts.
    fn refine_parameters(
        &self,
        arguments: &[(Rc<Path>, Rc<AbstractValue>)],
        fresh: usize,
    ) -> Self;

    /// Refines the values that select parts, and replaces what leads through a
    /// reference by what the reference points to.
    fn refine_paths(&self, environment: &Environment) -> Self;
}

impl PathRefinement for Rc<Path> {
    fn refine_parameters(
        &self,
        arguments: &[(Rc<Path>, Rc<AbstractValue>)],
        fresh: usize,
    ) -> (result: Self)
        ensures
            result == path_of_caller(*self, arguments@, fresh),
            self.within_limit() && arguments_within_limit(arguments@) ==> result.within_limit(),
    {
        crate::argument_refinement::refine_parameters_of_path(self, arguments, fresh)
    }

    fn refine_paths(&self, environment: &Environment) -> (result: Self)
        ensures
            result == path_in_environment(*self, *environment),
            self.within_limit() && environment.within_limit() ==> result.within_limit(),
    {
        crate::environment_refinement::refine_paths_of_path(self, environment)
    }
}

impl PathRefinement for Rc<PathSelector> {
    fn refine_parameters(
        &self,
        arguments: &[(Rc<Path>, Rc<AbstractValue>)],
        fresh: usize,
    ) -> (result: Self)
        ensures
            result == selector_of_caller(*self, arguments@, fresh),
            self.within_limit() && arguments_within_limit(arguments@) ==> result.within_limit(),
    {
        crate::argument_refinement::refine_parameters_of_selector(self, arguments, fresh)
    }

    fn refine_paths(&self, environment: &Environment) -> (result: Self)
        ensures
            result == selector_in_environment(*self, *environment),
            self.within_limit() && environment.within_limit() ==> result.within_limit(),
    {
        crate::environment_refinement::refine_paths_of_selector(self, environment)
    }
}

impl PartialEq for Path {
    /// Paths are equal if they name the same location in the same way.
    fn eq(&self, other: &Self) -> (result: bool) {
        Path::eq(self, other)
    }
}

impl Eq for Path {

}

impl PartialEqSpecImpl for Path {
    open spec fn obeys_eq_spec() -> bool {
        true
    }

    open spec fn eq_spec(&self, other: &Self) -> bool {
        self.same_as(*other)
    }
}

impl PartialEq for PathEnum {
    /// Names are equal if they are of the same kind and have the same parts.
    fn eq(&self, other: &Self) -> (result: bool) {
        PathEnum::eq(self, other)
    }
}

impl Eq for PathEnum {

}

impl PartialEqSpecImpl for PathEnum {
    open spec fn obeys_eq_spec() -> bool {
        true
    }

    open spec fn eq_spec(&self, other: &Self) -> bool {
        self.same_as(*other)
    }
}

impl PartialEq for PathSelector {
    /// Selectors are equal if they pick the same part.
    fn eq(&self, other: &Self) -> (result: bool) {
        PathSelector::eq(self, other)
    }
}

impl Eq for PathSelector {

}

impl PartialEqSpecImpl for PathSelector {
    open spec fn obeys_eq_spec() -> bool {
        true
    }

    open spec fn eq_spec(&self, other: &Self) -> bool {
        self.same_as(*other)
    }
}

} // verus!
