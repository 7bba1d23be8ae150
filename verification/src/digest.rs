//! Digests of values, for hashing.
//!
//! The digest of a value is a number that goes by what equality looks at: equal
//! values have equal digests. It passes over the operand of a widened value, the
//! size and the interval, as equality does. `Hash` feeds the digest to the hasher.

use vstd::prelude::*;
use crate::abstract_value::AbstractValue;
use crate::constant_domain::ConstantDomain;
use crate::expression::Expression;
use crate::path::{Path, PathEnum, PathSelector};

verus! {

/// The digest `h` with the word `w` mixed in.
pub open spec fn mixed(h: u64, w: u64) -> u64 {
    h.wrapping_mul(1099511628211).wrapping_add(w)
}

/// The low 64 bits of `v`.
pub open spec fn low_bits(v: u128) -> u64 {
    (v % 0x1_0000_0000_0000_0000) as u64
}

/// The digest of the constant `c`: strings and function references count by
/// their kind alone.
pub open spec fn constant_digest(c: ConstantDomain) -> u64 {
    match c {
        ConstantDomain::Bottom => 1,
        ConstantDomain::Top => 2,
        ConstantDomain::Unit => 3,
        ConstantDomain::True => 4,
        ConstantDomain::False => 5,
        ConstantDomain::Char(_) => 6,
        ConstantDomain::I128(v) => if v >= 0 {
            mixed(7, low_bits(v as u128))
        } else {
            mixed(8, low_bits((-(v + 1)) as u128))
        },
        ConstantDomain::U128(v) => mixed(9, low_bits(v)),
        ConstantDomain::F32(bits) => mixed(10, bits as u64),
        ConstantDomain::F64(bits) => mixed(11, bits),
        ConstantDomain::Str(_) => 12,
        ConstantDomain::Function(_) => 13,
    }
}

/// The digest of the selector `s`.
pub open spec fn selector_digest(s: PathSelector) -> u64
    decreases s,
{
    match s {
        PathSelector::Deref => 1,
        PathSelector::Discriminant => 2,
        PathSelector::Field(n) => mixed(3, n as u64),
        PathSelector::Index(value) => mixed(4, value_digest(*value)),
        PathSelector::ConstantSlice { from, to, .. } => mixed(mixed(5, from as u64), to as u64),
        PathSelector::Slice(value) => mixed(6, value_digest(*value)),
        PathSelector::Downcast(_, n) => mixed(7, n as u64),
    }
}

/// The digest of the path `p`.
pub open spec fn path_digest(p: Path) -> u64
    decreases p,
{
    match p.value {
        PathEnum::Alias { value } => mixed(1, value_digest(*value)),
        PathEnum::HeapBlock { value } => mixed(2, value_digest(*value)),
        PathEnum::LocalVariable { ordinal } => mixed(3, ordinal as u64),
        PathEnum::Offset { value } => mixed(4, value_digest(*value)),
        PathEnum::Parameter { ordinal } => mixed(5, ordinal as u64),
        PathEnum::ReturnValue => 6,
        PathEnum::StaticVariable { def_id, .. } => mixed(7, def_id as u64),
        PathEnum::QualifiedPath { qualifier, selector, .. } => mixed(
            mixed(8, path_digest(*qualifier)),
            selector_digest(*selector),
        ),
    }
}

/// The digest of the value `v`: that of its expression.
pub open spec fn value_digest(v: AbstractValue) -> u64
    decreases v,
{
    expression_digest(v.expression)
}

/// The digest of the expression `e`: its kind, with the digests of its operands,
/// paths and constants mixed in. Of a widened value only the path counts.
pub open spec fn expression_digest(e: Expression) -> u64
    decreases e,
{
    match e {
        Expression::Top => 1,
        Expression::Bottom => 2,
        Expression::Add { left, right } => mixed(mixed(3, value_digest(*left)), value_digest(*right)),
        Expression::And { left, right } => mixed(mixed(4, value_digest(*left)), value_digest(*right)),
        Expression::BitAnd { left, right } => mixed(mixed(5, value_digest(*left)), value_digest(*right)),
        Expression::BitOr { left, right } => mixed(mixed(6, value_digest(*left)), value_digest(*right)),
        Expression::BitXor { left, right } => mixed(mixed(7, value_digest(*left)), value_digest(*right)),
        Expression::Div { left, right } => mixed(mixed(8, value_digest(*left)), value_digest(*right)),
        Expression::Equals { left, right } => mixed(mixed(9, value_digest(*left)), value_digest(*right)),
        Expression::GreaterOrEqual { left, right } => mixed(mixed(10, value_digest(*left)), value_digest(*right)),
        Expression::GreaterThan { left, right } => mixed(mixed(11, value_digest(*left)), value_digest(*right)),
        Expression::LessOrEqual { left, right } => mixed(mixed(12, value_digest(*left)), value_digest(*right)),
        Expression::LessThan { left, right } => mixed(mixed(13, value_digest(*left)), value_digest(*right)),
        Expression::Mul { left, right } => mixed(mixed(14, value_digest(*left)), value_digest(*right)),
        Expression::Ne { left, right } => mixed(mixed(15, value_digest(*left)), value_digest(*right)),
        Expression::Offset { left, right } => mixed(mixed(16, value_digest(*left)), value_digest(*right)),
        Expression::Or { left, right } => mixed(mixed(17, value_digest(*left)), value_digest(*right)),
        Expression::Rem { left, right } => mixed(mixed(18, value_digest(*left)), value_digest(*right)),
        Expression::Shl { left, right } => mixed(mixed(19, value_digest(*left)), value_digest(*right)),
        Expression::Sub { left, right } => mixed(mixed(20, value_digest(*left)), value_digest(*right)),
        Expression::AddOverflows { left, right, .. } => mixed(mixed(21, value_digest(*left)), value_digest(*right)),
        Expression::MulOverflows { left, right, .. } => mixed(mixed(22, value_digest(*left)), value_digest(*right)),
        Expression::ShlOverflows { left, right, .. } => mixed(mixed(23, value_digest(*left)), value_digest(*right)),
        Expression::Shr { left, right, .. } => mixed(mixed(24, value_digest(*left)), value_digest(*right)),
        Expression::ShrOverflows { left, right, .. } => mixed(mixed(25, value_digest(*left)), value_digest(*right)),
        Expression::SubOverflows { left, right, .. } => mixed(mixed(26, value_digest(*left)), value_digest(*right)),
        Expression::BitNot { operand, .. } => mixed(27, value_digest(*operand)),
        Expression::Cast { operand, .. } => mixed(28, value_digest(*operand)),
        Expression::CompileTimeConstant(x) => mixed(29, constant_digest(x)),
        Expression::ConditionalExpression { condition, consequent, alternate } => mixed(mixed(mixed(30, value_digest(*condition)), value_digest(*consequent)), value_digest(*alternate)),
        Expression::HeapBlock { .. } => 31,
        Expression::HeapBlockLayout { length, alignment, .. } => mixed(mixed(32, value_digest(*length)), value_digest(*alignment)),
        Expression::IntrinsicBinary { left, right, .. } => mixed(mixed(33, value_digest(*left)), value_digest(*right)),
        Expression::IntrinsicBitVectorUnary { operand, .. } => mixed(34, value_digest(*operand)),
        Expression::IntrinsicFloatingPointUnary { operand, .. } => mixed(35, value_digest(*operand)),
        Expression::Join { path, left, right } => mixed(mixed(mixed(36, path_digest(*path)), value_digest(*left)), value_digest(*right)),
        Expression::LogicalNot { operand } => mixed(37, value_digest(*operand)),
        Expression::Neg { operand } => mixed(38, value_digest(*operand)),
        Expression::Reference(x) => mixed(39, path_digest(*x)),
        Expression::UninterpretedCall { callee, path, .. } => mixed(mixed(40, value_digest(*callee)), path_digest(*path)),
        Expression::UnknownModelField { path, default } => mixed(mixed(41, path_digest(*path)), value_digest(*default)),
        Expression::Variable { path, .. } => mixed(42, path_digest(*path)),
        Expression::Widen { path, .. } => mixed(43, path_digest(*path)),
    }
}

/// Returns the digest `h` with the word `w` mixed in.
pub fn mix(h: u64, w: u64) -> (result: u64)
    ensures
        result == mixed(h, w),
{
    h.wrapping_mul(1099511628211).wrapping_add(w)
}

/// Returns the low 64 bits of `v`.
pub fn low_bits_of(v: u128) -> (result: u64)
    ensures
        result == low_bits(v),
{
    (v % 0x1_0000_0000_0000_0000) as u64
}

/// Returns the digest of the constant `c`.
pub fn digest_constant(c: &ConstantDomain) -> (result: u64)
    ensures
        result == constant_digest(*c),
{
    match c {
        ConstantDomain::Bottom => 1,
        ConstantDomain::Top => 2,
        ConstantDomain::Unit => 3,
        ConstantDomain::True => 4,
        ConstantDomain::False => 5,
        ConstantDomain::Char(_) => 6,
        ConstantDomain::I128(v) => if *v >= 0 {
            mix(7, low_bits_of(*v as u128))
        } else {
            mix(8, low_bits_of((-(*v + 1)) as u128))
        },
        ConstantDomain::U128(v) => mix(9, low_bits_of(*v)),
        ConstantDomain::F32(bits) => mix(10, *bits as u64),
        ConstantDomain::F64(bits) => mix(11, *bits),
        ConstantDomain::Str(_) => 12,
        ConstantDomain::Function(_) => 13,
    }
}

/// Returns the digest of the selector `s`.
pub fn digest_selector(s: &PathSelector) -> (result: u64)
    ensures
        result == selector_digest(*s),
    decreases s,
{
    match s {
        PathSelector::Deref => 1,
        PathSelector::Discriminant => 2,
        PathSelector::Field(n) => mix(3, *n as u64),
        PathSelector::Index(value) => mix(4, digest_value(value)),
        PathSelector::ConstantSlice { from, to, .. } => mix(mix(5, *from as u64), *to as u64),
        PathSelector::Slice(value) => mix(6, digest_value(value)),
        PathSelector::Downcast(_, n) => mix(7, *n as u64),
    }
}

/// Returns the digest of the path `p`.
pub fn digest_path(p: &Path) -> (result: u64)
    ensures
        result == path_digest(*p),
    decreases p,
{
    match &p.value {
        PathEnum::Alias { value } => mix(1, digest_value(value)),
        PathEnum::HeapBlock { value } => mix(2, digest_value(value)),
        PathEnum::LocalVariable { ordinal } => mix(3, *ordinal as u64),
        PathEnum::Offset { value } => mix(4, digest_value(value)),
        PathEnum::Parameter { ordinal } => mix(5, *ordinal as u64),
        PathEnum::ReturnValue => 6,
        PathEnum::StaticVariable { def_id, .. } => mix(7, *def_id as u64),
        PathEnum::QualifiedPath { qualifier, selector, .. } => mix(
            mix(8, digest_path(qualifier)),
            digest_selector(selector),
        ),
    }
}

/// Returns the digest of the value `v`.
pub fn digest_value(v: &AbstractValue) -> (result: u64)
    ensures
        result == value_digest(*v),
    decreases v,
{
    digest_expression(&v.expression)
}

/// Returns the digest of the expression `e`.
pub fn digest_expression(e: &Expression) -> (result: u64)
    ensures
        result == expression_digest(*e),
    decreases e,
{
    match e {
        Expression::Top => 1,
        Expression::Bottom => 2,
        Expression::Add { left, right } => mix(mix(3, digest_value(left)), digest_value(right)),
        Expression::And { left, right } => mix(mix(4, digest_value(left)), digest_value(right)),
        Expression::BitAnd { left, right } => mix(mix(5, digest_value(left)), digest_value(right)),
        Expression::BitOr { left, right } => mix(mix(6, digest_value(left)), digest_value(right)),
        Expression::BitXor { left, right } => mix(mix(7, digest_value(left)), digest_value(right)),
        Expression::Div { left, right } => mix(mix(8, digest_value(left)), digest_value(right)),
        Expression::Equals { left, right } => mix(mix(9, digest_value(left)), digest_value(right)),
        Expression::GreaterOrEqual { left, right } => mix(mix(10, digest_value(left)), digest_value(right)),
        Expression::GreaterThan { left, right } => mix(mix(11, digest_value(left)), digest_value(right)),
        Expression::LessOrEqual { left, right } => mix(mix(12, digest_value(left)), digest_value(right)),
        Expression::LessThan { left, right } => mix(mix(13, digest_value(left)), digest_value(right)),
        Expression::Mul { left, right } => mix(mix(14, digest_value(left)), digest_value(right)),
        Expression::Ne { left, right } => mix(mix(15, digest_value(left)), digest_value(right)),
        Expression::Offset { left, right } => mix(mix(16, digest_value(left)), digest_value(right)),
        Expression::Or { left, right } => mix(mix(17, digest_value(left)), digest_value(right)),
        Expression::Rem { left, right } => mix(mix(18, digest_value(left)), digest_value(right)),
        Expression::Shl { left, right } => mix(mix(19, digest_value(left)), digest_value(right)),
        Expression::Sub { left, right } => mix(mix(20, digest_value(left)), digest_value(right)),
        Expression::AddOverflows { left, right, .. } => mix(mix(21, digest_value(left)), digest_value(right)),
        Expression::MulOverflows { left, right, .. } => mix(mix(22, digest_value(left)), digest_value(right)),
        Expression::ShlOverflows { left, right, .. } => mix(mix(23, digest_value(left)), digest_value(right)),
        Expression::Shr { left, right, .. } => mix(mix(24, digest_value(left)), digest_value(right)),
        Expression::ShrOverflows { left, right, .. } => mix(mix(25, digest_value(left)), digest_value(right)),
        Expression::SubOverflows { left, right, .. } => mix(mix(26, digest_value(left)), digest_value(right)),
        Expression::BitNot { operand, .. } => mix(27, digest_value(operand)),
        Expression::Cast { operand, .. } => mix(28, digest_value(operand)),
        Expression::CompileTimeConstant(x) => mix(29, digest_constant(x)),
        Expression::ConditionalExpression { condition, consequent, alternate } => mix(mix(mix(30, digest_value(condition)), digest_value(consequent)), digest_value(alternate)),
        Expression::HeapBlock { .. } => 31,
        Expression::HeapBlockLayout { length, alignment, .. } => mix(mix(32, digest_value(length)), digest_value(alignment)),
        Expression::IntrinsicBinary { left, right, .. } => mix(mix(33, digest_value(left)), digest_value(right)),
        Expression::IntrinsicBitVectorUnary { operand, .. } => mix(34, digest_value(operand)),
        Expression::IntrinsicFloatingPointUnary { operand, .. } => mix(35, digest_value(operand)),
        Expression::Join { path, left, right } => mix(mix(mix(36, digest_path(path)), digest_value(left)), digest_value(right)),
        Expression::LogicalNot { operand } => mix(37, digest_value(operand)),
        Expression::Neg { operand } => mix(38, digest_value(operand)),
        Expression::Reference(x) => mix(39, digest_path(x)),
        Expression::UninterpretedCall { callee, path, .. } => mix(mix(40, digest_value(callee)), digest_path(path)),
        Expression::UnknownModelField { path, default } => mix(mix(41, digest_path(path)), digest_value(default)),
        Expression::Variable { path, .. } => mix(42, digest_path(path)),
        Expression::Widen { path, .. } => mix(43, digest_path(path)),
    }
}

/// Selectors that are the same have the same digest.
pub proof fn lemma_selector_digest(a: &PathSelector, b: &PathSelector)
    ensures
        a.same_as(*b) ==> selector_digest(*a) == selector_digest(*b),
    decreases a,
{
    match (a, b) {
        (PathSelector::Index(v1), PathSelector::Index(v2))
        | (PathSelector::Slice(v1), PathSelector::Slice(v2)) => {
            lemma_value_digest(v1, v2);
        },
        _ => {},
    }
}

/// Paths that are the same have the same digest.
pub proof fn lemma_path_digest(a: &Path, b: &Path)
    ensures
        a.same_as(*b) ==> path_digest(*a) == path_digest(*b),
    decreases a,
{
    match (&a.value, &b.value) {
        (PathEnum::Alias { value: v1 }, PathEnum::Alias { value: v2 })
        | (PathEnum::HeapBlock { value: v1 }, PathEnum::HeapBlock { value: v2 })
        | (PathEnum::Offset { value: v1 }, PathEnum::Offset { value: v2 }) => {
            lemma_value_digest(v1, v2);
        },
        (
            PathEnum::QualifiedPath { qualifier: q1, selector: s1, .. },
            PathEnum::QualifiedPath { qualifier: q2, selector: s2, .. },
        ) => {
            lemma_path_digest(q1, q2);
            lemma_selector_digest(s1, s2);
        },
        _ => {},
    }
}

/// Equal values have equal digests, so that `Hash` agrees with `==`.
pub proof fn lemma_value_digest(a: &AbstractValue, b: &AbstractValue)
    ensures
        a.same_as(*b) ==> value_digest(*a) == value_digest(*b),
    decreases a,
{
    match (&a.expression, &b.expression) {
        (Expression::Widen { path: p1, .. }, Expression::Widen { path: p2, .. }) => {
            lemma_path_digest(p1, p2);
        },
        _ => {
            lemma_expression_digest(&a.expression, &b.expression);
        },
    }
}

/// Expressions that are the same tree have the same digest.
pub proof fn lemma_expression_digest(a: &Expression, b: &Expression)
    ensures
        a.same_as(*b) ==> expression_digest(*a) == expression_digest(*b),
    decreases a,
{
    match a {
        Expression::Add { left: l1, right: r1, .. }
        | Expression::And { left: l1, right: r1, .. }
        | Expression::BitAnd { left: l1, right: r1, .. }
        | Expression::BitOr { left: l1, right: r1, .. }
        | Expression::BitXor { left: l1, right: r1, .. }
        | Expression::Div { left: l1, right: r1, .. }
        | Expression::Equals { left: l1, right: r1, .. }
        | Expression::GreaterOrEqual { left: l1, right: r1, .. }
        | Expression::GreaterThan { left: l1, right: r1, .. }
        | Expression::LessOrEqual { left: l1, right: r1, .. }
        | Expression::LessThan { left: l1, right: r1, .. }
        | Expression::Mul { left: l1, right: r1, .. }
        | Expression::Ne { left: l1, right: r1, .. }
        | Expression::Offset { left: l1, right: r1, .. }
        | Expression::Or { left: l1, right: r1, .. }
        | Expression::Rem { left: l1, right: r1, .. }
        | Expression::Shl { left: l1, right: r1, .. }
        | Expression::Sub { left: l1, right: r1, .. }
        | Expression::AddOverflows { left: l1, right: r1, .. }
        | Expression::MulOverflows { left: l1, right: r1, .. }
        | Expression::ShlOverflows { left: l1, right: r1, .. }
        | Expression::Shr { left: l1, right: r1, .. }
        | Expression::ShrOverflows { left: l1, right: r1, .. }
        | Expression::SubOverflows { left: l1, right: r1, .. }
        | Expression::IntrinsicBinary { left: l1, right: r1, .. } => match b {
            Expression::Add { left: l2, right: r2, .. }
            | Expression::And { left: l2, right: r2, .. }
            | Expression::BitAnd { left: l2, right: r2, .. }
            | Expression::BitOr { left: l2, right: r2, .. }
            | Expression::BitXor { left: l2, right: r2, .. }
            | Expression::Div { left: l2, right: r2, .. }
            | Expression::Equals { left: l2, right: r2, .. }
            | Expression::GreaterOrEqual { left: l2, right: r2, .. }
            | Expression::GreaterThan { left: l2, right: r2, .. }
            | Expression::LessOrEqual { left: l2, right: r2, .. }
            | Expression::LessThan { left: l2, right: r2, .. }
            | Expression::Mul { left: l2, right: r2, .. }
            | Expression::Ne { left: l2, right: r2, .. }
            | Expression::Offset { left: l2, right: r2, .. }
            | Expression::Or { left: l2, right: r2, .. }
            | Expression::Rem { left: l2, right: r2, .. }
            | Expression::Shl { left: l2, right: r2, .. }
            | Expression::Sub { left: l2, right: r2, .. }
            | Expression::AddOverflows { left: l2, right: r2, .. }
            | Expression::MulOverflows { left: l2, right: r2, .. }
            | Expression::ShlOverflows { left: l2, right: r2, .. }
            | Expression::Shr { left: l2, right: r2, .. }
            | Expression::ShrOverflows { left: l2, right: r2, .. }
            | Expression::SubOverflows { left: l2, right: r2, .. }
            | Expression::IntrinsicBinary { left: l2, right: r2, .. } => {
                lemma_value_digest(l1, l2);
                lemma_value_digest(r1, r2);
            },
            _ => {},
        },
        Expression::BitNot { operand: o1, .. }
        | Expression::Cast { operand: o1, .. }
        | Expression::IntrinsicBitVectorUnary { operand: o1, .. }
        | Expression::IntrinsicFloatingPointUnary { operand: o1, .. }
        | Expression::LogicalNot { operand: o1, .. }
        | Expression::Neg { operand: o1, .. } => match b {
            Expression::BitNot { operand: o2, .. }
            | Expression::Cast { operand: o2, .. }
            | Expression::IntrinsicBitVectorUnary { operand: o2, .. }
            | Expression::IntrinsicFloatingPointUnary { operand: o2, .. }
            | Expression::LogicalNot { operand: o2, .. }
            | Expression::Neg { operand: o2, .. } => {
                lemma_value_digest(o1, o2);
            },
            _ => {},
        },
        Expression::ConditionalExpression { condition: c1, consequent: a1, alternate: b1 } => match b {
            Expression::ConditionalExpression { condition: c2, consequent: a2, alternate: b2 } => {
                lemma_value_digest(c1, c2);
                lemma_value_digest(a1, a2);
                lemma_value_digest(b1, b2);
            },
            _ => {},
        },
        Expression::HeapBlockLayout { length: n1, alignment: g1, .. } => match b {
            Expression::HeapBlockLayout { length: n2, alignment: g2, .. } => {
                lemma_value_digest(n1, n2);
                lemma_value_digest(g1, g2);
            },
            _ => {},
        },
        Expression::Join { path: p1, left: l1, right: r1 } => match b {
            Expression::Join { path: p2, left: l2, right: r2 } => {
                lemma_path_digest(p1, p2);
                lemma_value_digest(l1, l2);
                lemma_value_digest(r1, r2);
            },
            _ => {},
        },
        Expression::Variable { path: p1, .. } => match b {
            Expression::Variable { path: p2, .. } => {
                lemma_path_digest(p1, p2);
            },
            _ => {},
        },
        Expression::UninterpretedCall { callee: f1, path: p1, .. } => match b {
            Expression::UninterpretedCall { callee: f2, path: p2, .. } => {
                lemma_value_digest(f1, f2);
                lemma_path_digest(p1, p2);
            },
            _ => {},
        },
        Expression::UnknownModelField { path: p1, default: d1 } => match b {
            Expression::UnknownModelField { path: p2, default: d2 } => {
                lemma_path_digest(p1, p2);
                lemma_value_digest(d1, d2);
            },
            _ => {},
        },
        Expression::Widen { path: p1, .. } => match b {
            Expression::Widen { path: p2, .. } => {
                lemma_path_digest(p1, p2);
            },
            _ => {},
        },
        Expression::Reference(p1) => match b {
            Expression::Reference(p2) => {
                lemma_path_digest(p1, p2);
            },
            _ => {},
        },
        _ => {},
    }
}

/// Feeds `word` to `state`.
///
/// Calls `Hasher::write_u64` of std. Nothing is stated of the state after the call.
#[verifier::external_body]
fn feed<H: std::hash::Hasher>(state: &mut H, word: u64) {
    state.write_u64(word)
}

impl std::hash::Hash for AbstractValue {
    fn hash<H: std::hash::Hasher>(&self, state: &mut H) {
        feed(state, digest_value(self))
    }
}

impl std::hash::Hash for Expression {
    fn hash<H: std::hash::Hasher>(&self, state: &mut H) {
        feed(state, digest_expression(self))
    }
}

impl std::hash::Hash for Path {
    fn hash<H: std::hash::Hasher>(&self, state: &mut H) {
        feed(state, digest_path(self))
    }
}

impl std::hash::Hash for PathSelector {
    fn hash<H: std::hash::Hasher>(&self, state: &mut H) {
        feed(state, digest_selector(self))
    }
}

impl std::hash::Hash for ConstantDomain {
    fn hash<H: std::hash::Hasher>(&self, state: &mut H) {
        feed(state, digest_constant(self))
    }
}

} // verus!
