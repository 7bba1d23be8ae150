//! Equality of values is an equivalence.
//!
//! Values, expressions, paths and selectors are compared by the `same_as` relations,
//! which look through shared nodes and treat two widened values of one path as
//! equal. The lemmas here show that each relation is reflexive, symmetric and
//! transitive.

use vstd::prelude::*;
use crate::abstract_value::AbstractValue;
use crate::constant_domain::ConstantDomain;
use crate::expression::Expression;
use crate::path::{Path, PathEnum, PathSelector};

verus! {

/// Every constant is the same as itself, and sameness of constants is symmetric
/// and transitive.
pub proof fn lemma_constant_same_equivalence(a: &ConstantDomain, b: &ConstantDomain, c: &ConstantDomain)
    ensures
        a.same_as(*a),
        a.same_as(*b) == b.same_as(*a),
        a.same_as(*b) && b.same_as(*c) ==> a.same_as(*c),
{
}

/// Every value is equal to itself.
pub proof fn lemma_value_same_reflexive(a: &AbstractValue)
    ensures
        a.same_as(*a),
    decreases a,
{
    match &a.expression {
        Expression::Widen { path, .. } => lemma_path_same_reflexive(path),
        _ => lemma_expression_same_reflexive(&a.expression),
    }
}

/// If `a` is equal to `b`, then `b` is equal to `a`.
pub proof fn lemma_value_same_symmetric(a: &AbstractValue, b: &AbstractValue)
    ensures
        a.same_as(*b) == b.same_as(*a),
    decreases a,
{
    match (&a.expression, &b.expression) {
        (Expression::Widen { path: p1, .. }, Expression::Widen { path: p2, .. }) => {
            lemma_path_same_symmetric(p1, p2)
        },
        _ => lemma_expression_same_symmetric(&a.expression, &b.expression),
    }
}

/// If `a` is equal to `b` and `b` to `c`, then `a` is equal to `c`.
pub proof fn lemma_value_same_transitive(a: &AbstractValue, b: &AbstractValue, c: &AbstractValue)
    ensures
        a.same_as(*b) && b.same_as(*c) ==> a.same_as(*c),
    decreases a,
{
    match (&a.expression, &b.expression, &c.expression) {
        (
            Expression::Widen { path: p1, .. },
            Expression::Widen { path: p2, .. },
            Expression::Widen { path: p3, .. },
        ) => lemma_path_same_transitive(p1, p2, p3),
        _ => lemma_expression_same_transitive(&a.expression, &b.expression, &c.expression),
    }
}

/// Every expression is the same as itself.
pub proof fn lemma_expression_same_reflexive(a: &Expression)
    ensures
        a.same_as(*a),
    decreases a,
{
    match a {
        Expression::Add { left: l, right: r, .. }
        | Expression::And { left: l, right: r, .. }
        | Expression::BitAnd { left: l, right: r, .. }
        | Expression::BitOr { left: l, right: r, .. }
        | Expression::BitXor { left: l, right: r, .. }
        | Expression::Div { left: l, right: r, .. }
        | Expression::Equals { left: l, right: r, .. }
        | Expression::GreaterOrEqual { left: l, right: r, .. }
        | Expression::GreaterThan { left: l, right: r, .. }
        | Expression::LessOrEqual { left: l, right: r, .. }
        | Expression::LessThan { left: l, right: r, .. }
        | Expression::Mul { left: l, right: r, .. }
        | Expression::Ne { left: l, right: r, .. }
        | Expression::Offset { left: l, right: r, .. }
        | Expression::Or { left: l, right: r, .. }
        | Expression::Rem { left: l, right: r, .. }
        | Expression::Shl { left: l, right: r, .. }
        | Expression::Sub { left: l, right: r, .. }
        | Expression::AddOverflows { left: l, right: r, .. }
        | Expression::MulOverflows { left: l, right: r, .. }
        | Expression::ShlOverflows { left: l, right: r, .. }
        | Expression::Shr { left: l, right: r, .. }
        | Expression::ShrOverflows { left: l, right: r, .. }
        | Expression::SubOverflows { left: l, right: r, .. }
        | Expression::IntrinsicBinary { left: l, right: r, .. } => {
            lemma_value_same_reflexive(l);
            lemma_value_same_reflexive(r);
        },
        Expression::BitNot { operand: o, .. }
        | Expression::Cast { operand: o, .. }
        | Expression::IntrinsicBitVectorUnary { operand: o, .. }
        | Expression::IntrinsicFloatingPointUnary { operand: o, .. }
        | Expression::LogicalNot { operand: o, .. }
        | Expression::Neg { operand: o, .. } => {
            lemma_value_same_reflexive(o);
        },
        Expression::ConditionalExpression { condition: c, consequent: a, alternate: b } => {
            lemma_value_same_reflexive(c);
            lemma_value_same_reflexive(a);
            lemma_value_same_reflexive(b);
        },
        Expression::HeapBlockLayout { length: n, alignment: g, .. } => {
            lemma_value_same_reflexive(n);
            lemma_value_same_reflexive(g);
        },
        Expression::Join { path: p, left: l, right: r } => {
            lemma_path_same_reflexive(p);
            lemma_value_same_reflexive(l);
            lemma_value_same_reflexive(r);
        },
        Expression::Variable { path: p, .. } => {
            lemma_path_same_reflexive(p);
        },
        Expression::UninterpretedCall { callee: f, path: p, .. } => {
            lemma_value_same_reflexive(f);
            lemma_path_same_reflexive(p);
        },
        Expression::UnknownModelField { path: p, default: d } => {
            lemma_path_same_reflexive(p);
            lemma_value_same_reflexive(d);
        },
        Expression::Widen { path: p, operand: o } => {
            lemma_path_same_reflexive(p);
            lemma_value_same_reflexive(o);
        },
        Expression::Reference(p) => {
            lemma_path_same_reflexive(p);
        },
        _ => {},
    }
}

/// If `a` is the same as `b`, then `b` is the same as `a`.
pub proof fn lemma_expression_same_symmetric(a: &Expression, b: &Expression)
    ensures
        a.same_as(*b) == b.same_as(*a),
    decreases a,
{
    match a {
        Expression::Add { left: l1, right: r1, .. }
        | Expression::And { left: l1, right: r1, .. }
        | Expression::BitAnd { left: l1, right: r1, .. }
        | Expression::BitOr { left: l1, right: r1, .. }
        | Expression::BitXor { left: l1, right: r1, .. }
        | Expression::Div { left: l1, right: r1, .. }
        | Expression::Equals { left: l1, right: r1, .. }
        | Expression::GreaterOrEqual { left: l1, right: r1, .. }
        | Expression::GreaterThan { left: l1, right: r1, .. }
        | Expression::LessOrEqual { left: l1, right: r1, .. }
        | Expression::LessThan { left: l1, right: r1, .. }
        | Expression::Mul { left: l1, right: r1, .. }
        | Expression::Ne { left: l1, right: r1, .. }
        | Expression::Offset { left: l1, right: r1, .. }
        | Expression::Or { left: l1, right: r1, .. }
        | Expression::Rem { left: l1, right: r1, .. }
        | Expression::Shl { left: l1, right: r1, .. }
        | Expression::Sub { left: l1, right: r1, .. }
        | Expression::AddOverflows { left: l1, right: r1, .. }
        | Expression::MulOverflows { left: l1, right: r1, .. }
        | Expression::ShlOverflows { left: l1, right: r1, .. }
        | Expression::Shr { left: l1, right: r1, .. }
        | Expression::ShrOverflows { left: l1, right: r1, .. }
        | Expression::SubOverflows { left: l1, right: r1, .. }
        | Expression::IntrinsicBinary { left: l1, right: r1, .. } => match b {
            Expression::Add { left: l2, right: r2, .. }
            | Expression::And { left: l2, right: r2, .. }
            | Expression::BitAnd { left: l2, right: r2, .. }
            | Expression::BitOr { left: l2, right: r2, .. }
            | Expression::BitXor { left: l2, right: r2, .. }
            | Expression::Div { left: l2, right: r2, .. }
            | Expression::Equals { left: l2, right: r2, .. }
            | Expression::GreaterOrEqual { left: l2, right: r2, .. }
            | Expression::GreaterThan { left: l2, right: r2, .. }
            | Expression::LessOrEqual { left: l2, right: r2, .. }
            | Expression::LessThan { left: l2, right: r2, .. }
            | Expression::Mul { left: l2, right: r2, .. }
            | Expression::Ne { left: l2, right: r2, .. }
            | Expression::Offset { left: l2, right: r2, .. }
            | Expression::Or { left: l2, right: r2, .. }
            | Expression::Rem { left: l2, right: r2, .. }
            | Expression::Shl { left: l2, right: r2, .. }
            | Expression::Sub { left: l2, right: r2, .. }
            | Expression::AddOverflows { left: l2, right: r2, .. }
            | Expression::MulOverflows { left: l2, right: r2, .. }
            | Expression::ShlOverflows { left: l2, right: r2, .. }
            | Expression::Shr { left: l2, right: r2, .. }
            | Expression::ShrOverflows { left: l2, right: r2, .. }
            | Expression::SubOverflows { left: l2, right: r2, .. }
            | Expression::IntrinsicBinary { left: l2, right: r2, .. } => {
                lemma_value_same_symmetric(l1, l2);
                lemma_value_same_symmetric(r1, r2);
            },
            _ => {},
        },
        Expression::BitNot { operand: o1, .. }
        | Expression::Cast { operand: o1, .. }
        | Expression::IntrinsicBitVectorUnary { operand: o1, .. }
        | Expression::IntrinsicFloatingPointUnary { operand: o1, .. }
        | Expression::LogicalNot { operand: o1, .. }
        | Expression::Neg { operand: o1, .. } => match b {
            Expression::BitNot { operand: o2, .. }
            | Expression::Cast { operand: o2, .. }
            | Expression::IntrinsicBitVectorUnary { operand: o2, .. }
            | Expression::IntrinsicFloatingPointUnary { operand: o2, .. }
            | Expression::LogicalNot { operand: o2, .. }
            | Expression::Neg { operand: o2, .. } => {
                lemma_value_same_symmetric(o1, o2);
            },
            _ => {},
        },
        Expression::ConditionalExpression { condition: c1, consequent: a1, alternate: b1 } => match b {
            Expression::ConditionalExpression { condition: c2, consequent: a2, alternate: b2 } => {
                lemma_value_same_symmetric(c1, c2);
                lemma_value_same_symmetric(a1, a2);
                lemma_value_same_symmetric(b1, b2);
            },
            _ => {},
        },
        Expression::HeapBlockLayout { length: n1, alignment: g1, .. } => match b {
            Expression::HeapBlockLayout { length: n2, alignment: g2, .. } => {
                lemma_value_same_symmetric(n1, n2);
                lemma_value_same_symmetric(g1, g2);
            },
            _ => {},
        },
        Expression::Join { path: p1, left: l1, right: r1 } => match b {
            Expression::Join { path: p2, left: l2, right: r2 } => {
                lemma_path_same_symmetric(p1, p2);
                lemma_value_same_symmetric(l1, l2);
                lemma_value_same_symmetric(r1, r2);
            },
            _ => {},
        },
        Expression::Variable { path: p1, .. } => match b {
            Expression::Variable { path: p2, .. } => {
                lemma_path_same_symmetric(p1, p2);
            },
            _ => {},
        },
        Expression::UninterpretedCall { callee: f1, path: p1, .. } => match b {
            Expression::UninterpretedCall { callee: f2, path: p2, .. } => {
                lemma_value_same_symmetric(f1, f2);
                lemma_path_same_symmetric(p1, p2);
            },
            _ => {},
        },
        Expression::UnknownModelField { path: p1, default: d1 } => match b {
            Expression::UnknownModelField { path: p2, default: d2 } => {
                lemma_path_same_symmetric(p1, p2);
                lemma_value_same_symmetric(d1, d2);
            },
            _ => {},
        },
        Expression::Widen { path: p1, operand: o1 } => match b {
            Expression::Widen { path: p2, operand: o2 } => {
                lemma_path_same_symmetric(p1, p2);
                lemma_value_same_symmetric(o1, o2);
            },
            _ => {},
        },
        Expression::Reference(p1) => match b {
            Expression::Reference(p2) => {
                lemma_path_same_symmetric(p1, p2);
            },
            _ => {},
        },
        _ => {},
    }
}

/// If `a` is the same as `b` and `b` the same as `c`, then `a` is the same as `c`.
pub proof fn lemma_expression_same_transitive(a: &Expression, b: &Expression, c: &Expression)
    ensures
        a.same_as(*b) && b.same_as(*c) ==> a.same_as(*c),
    decreases a,
{
    match a {
        Expression::Add { left: l1, right: r1, .. }
        | Expression::And { left: l1, right: r1, .. }
        | Expression::BitAnd { left: l1, right: r1, .. }
        | Expression::BitOr { left: l1, right: r1, .. }
        | Expression::BitXor { left: l1, right: r1, .. }
        | Expression::Div { left: l1, right: r1, .. }
        | Expression::Equals { left: l1, right: r1, .. }
        | Expression::GreaterOrEqual { left: l1, right: r1, .. }
        | Expression::GreaterThan { left: l1, right: r1, .. }
        | Expression::LessOrEqual { left: l1, right: r1, .. }
        | Expression::LessThan { left: l1, right: r1, .. }
        | Expression::Mul { left: l1, right: r1, .. }
        | Expression::Ne { left: l1, right: r1, .. }
        | Expression::Offset { left: l1, right: r1, .. }
        | Expression::Or { left: l1, right: r1, .. }
        | Expression::Rem { left: l1, right: r1, .. }
        | Expression::Shl { left: l1, right: r1, .. }
        | Expression::Sub { left: l1, right: r1, .. }
        | Expression::AddOverflows { left: l1, right: r1, .. }
        | Expression::MulOverflows { left: l1, right: r1, .. }
        | Expression::ShlOverflows { left: l1, right: r1, .. }
        | Expression::Shr { left: l1, right: r1, .. }
        | Expression::ShrOverflows { left: l1, right: r1, .. }
        | Expression::SubOverflows { left: l1, right: r1, .. }
        | Expression::IntrinsicBinary { left: l1, right: r1, .. } => match b {
            Expression::Add { left: l2, right: r2, .. }
            | Expression::And { left: l2, right: r2, .. }
            | Expression::BitAnd { left: l2, right: r2, .. }
            | Expression::BitOr { left: l2, right: r2, .. }
            | Expression::BitXor { left: l2, right: r2, .. }
            | Expression::Div { left: l2, right: r2, .. }
            | Expression::Equals { left: l2, right: r2, .. }
            | Expression::GreaterOrEqual { left: l2, right: r2, .. }
            | Expression::GreaterThan { left: l2, right: r2, .. }
            | Expression::LessOrEqual { left: l2, right: r2, .. }
            | Expression::LessThan { left: l2, right: r2, .. }
            | Expression::Mul { left: l2, right: r2, .. }
            | Expression::Ne { left: l2, right: r2, .. }
            | Expression::Offset { left: l2, right: r2, .. }
            | Expression::Or { left: l2, right: r2, .. }
            | Expression::Rem { left: l2, right: r2, .. }
            | Expression::Shl { left: l2, right: r2, .. }
            | Expression::Sub { left: l2, right: r2, .. }
            | Expression::AddOverflows { left: l2, right: r2, .. }
            | Expression::MulOverflows { left: l2, right: r2, .. }
            | Expression::ShlOverflows { left: l2, right: r2, .. }
            | Expression::Shr { left: l2, right: r2, .. }
            | Expression::ShrOverflows { left: l2, right: r2, .. }
            | Expression::SubOverflows { left: l2, right: r2, .. }
            | Expression::IntrinsicBinary { left: l2, right: r2, .. } => match c {
                Expression::Add { left: l3, right: r3, .. }
                | Expression::And { left: l3, right: r3, .. }
                | Expression::BitAnd { left: l3, right: r3, .. }
                | Expression::BitOr { left: l3, right: r3, .. }
                | Expression::BitXor { left: l3, right: r3, .. }
                | Expression::Div { left: l3, right: r3, .. }
                | Expression::Equals { left: l3, right: r3, .. }
                | Expression::GreaterOrEqual { left: l3, right: r3, .. }
                | Expression::GreaterThan { left: l3, right: r3, .. }
                | Expression::LessOrEqual { left: l3, right: r3, .. }
                | Expression::LessThan { left: l3, right: r3, .. }
                | Expression::Mul { left: l3, right: r3, .. }
                | Expression::Ne { left: l3, right: r3, .. }
                | Expression::Offset { left: l3, right: r3, .. }
                | Expression::Or { left: l3, right: r3, .. }
                | Expression::Rem { left: l3, right: r3, .. }
                | Expression::Shl { left: l3, right: r3, .. }
                | Expression::Sub { left: l3, right: r3, .. }
                | Expression::AddOverflows { left: l3, right: r3, .. }
                | Expression::MulOverflows { left: l3, right: r3, .. }
                | Expression::ShlOverflows { left: l3, right: r3, .. }
                | Expression::Shr { left: l3, right: r3, .. }
                | Expression::ShrOverflows { left: l3, right: r3, .. }
                | Expression::SubOverflows { left: l3, right: r3, .. }
                | Expression::IntrinsicBinary { left: l3, right: r3, .. } => {
                    lemma_value_same_transitive(l1, l2, l3);
                    lemma_value_same_transitive(r1, r2, r3);
                },
                _ => {},
            },
            _ => {},
        },
        Expression::BitNot { operand: o1, .. }
        | Expression::Cast { operand: o1, .. }
        | Expression::IntrinsicBitVectorUnary { operand: o1, .. }
        | Expression::IntrinsicFloatingPointUnary { operand: o1, .. }
        | Expression::LogicalNot { operand: o1, .. }
        | Expression::Neg { operand: o1, .. } => match b {
            Expression::BitNot { operand: o2, .. }
            | Expression::Cast { operand: o2, .. }
            | Expression::IntrinsicBitVectorUnary { operand: o2, .. }
            | Expression::IntrinsicFloatingPointUnary { operand: o2, .. }
            | Expression::LogicalNot { operand: o2, .. }
            | Expression::Neg { operand: o2, .. } => match c {
                Expression::BitNot { operand: o3, .. }
                | Expression::Cast { operand: o3, .. }
                | Expression::IntrinsicBitVectorUnary { operand: o3, .. }
                | Expression::IntrinsicFloatingPointUnary { operand: o3, .. }
                | Expression::LogicalNot { operand: o3, .. }
                | Expression::Neg { operand: o3, .. } => {
                    lemma_value_same_transitive(o1, o2, o3);
                },
                _ => {},
            },
            _ => {},
        },
        Expression::ConditionalExpression { condition: c1, consequent: a1, alternate: b1 } => match b {
            Expression::ConditionalExpression { condition: c2, consequent: a2, alternate: b2 } => match c {
                Expression::ConditionalExpression { condition: c3, consequent: a3, alternate: b3 } => {
                    lemma_value_same_transitive(c1, c2, c3);
                    lemma_value_same_transitive(a1, a2, a3);
                    lemma_value_same_transitive(b1, b2, b3);
                },
                _ => {},
            },
            _ => {},
        },
        Expression::HeapBlockLayout { length: n1, alignment: g1, .. } => match b {
            Expression::HeapBlockLayout { length: n2, alignment: g2, .. } => match c {
                Expression::HeapBlockLayout { length: n3, alignment: g3, .. } => {
                    lemma_value_same_transitive(n1, n2, n3);
                    lemma_value_same_transitive(g1, g2, g3);
                },
                _ => {},
            },
            _ => {},
        },
        Expression::Join { path: p1, left: l1, right: r1 } => match b {
            Expression::Join { path: p2, left: l2, right: r2 } => match c {
                Expression::Join { path: p3, left: l3, right: r3 } => {
                    lemma_path_same_transitive(p1, p2, p3);
                    lemma_value_same_transitive(l1, l2, l3);
                    lemma_value_same_transitive(r1, r2, r3);
                },
                _ => {},
            },
            _ => {},
        },
        Expression::Variable { path: p1, .. } => match b {
            Expression::Variable { path: p2, .. } => match c {
                Expression::Variable { path: p3, .. } => {
                    lemma_path_same_transitive(p1, p2, p3);
                },
                _ => {},
            },
            _ => {},
        },
        Expression::UninterpretedCall { callee: f1, path: p1, .. } => match b {
            Expression::UninterpretedCall { callee: f2, path: p2, .. } => match c {
                Expression::UninterpretedCall { callee: f3, path: p3, .. } => {
                    lemma_value_same_transitive(f1, f2, f3);
                    lemma_path_same_transitive(p1, p2, p3);
                },
                _ => {},
            },
            _ => {},
        },
        Expression::UnknownModelField { path: p1, default: d1 } => match b {
            Expression::UnknownModelField { path: p2, default: d2 } => match c {
                Expression::UnknownModelField { path: p3, default: d3 } => {
                    lemma_path_same_transitive(p1, p2, p3);
                    lemma_value_same_transitive(d1, d2, d3);
                },
                _ => {},
            },
            _ => {},
        },
        Expression::Widen { path: p1, operand: o1 } => match b {
            Expression::Widen { path: p2, operand: o2 } => match c {
                Expression::Widen { path: p3, operand: o3 } => {
                    lemma_path_same_transitive(p1, p2, p3);
                    lemma_value_same_transitive(o1, o2, o3);
                },
                _ => {},
            },
            _ => {},
        },
        Expression::Reference(p1) => match b {
            Expression::Reference(p2) => match c {
                Expression::Reference(p3) => {
                    lemma_path_same_transitive(p1, p2, p3);
                },
                _ => {},
            },
            _ => {},
        },
        _ => {},
    }
}

/// Every path is the same as itself.
pub proof fn lemma_path_same_reflexive(a: &Path)
    ensures
        a.same_as(*a),
    decreases a,
{
    match &a.value {
        PathEnum::Alias { value } | PathEnum::HeapBlock { value } | PathEnum::Offset { value } => {
            lemma_value_same_reflexive(value);
        },
        PathEnum::QualifiedPath { qualifier, selector, .. } => {
            lemma_path_same_reflexive(qualifier);
            lemma_selector_same_reflexive(selector);
        },
        _ => {},
    }
}

/// If the path `a` is the same as `b`, then `b` is the same as `a`.
pub proof fn lemma_path_same_symmetric(a: &Path, b: &Path)
    ensures
        a.same_as(*b) == b.same_as(*a),
    decreases a,
{
    match (&a.value, &b.value) {
        (PathEnum::Alias { value: v1 }, PathEnum::Alias { value: v2 })
        | (PathEnum::HeapBlock { value: v1 }, PathEnum::HeapBlock { value: v2 })
        | (PathEnum::Offset { value: v1 }, PathEnum::Offset { value: v2 }) => {
            lemma_value_same_symmetric(v1, v2);
        },
        (
            PathEnum::QualifiedPath { qualifier: q1, selector: s1, .. },
            PathEnum::QualifiedPath { qualifier: q2, selector: s2, .. },
        ) => {
            lemma_path_same_symmetric(q1, q2);
            lemma_selector_same_symmetric(s1, s2);
        },
        _ => {},
    }
}

/// If the path `a` is the same as `b` and `b` the same as `c`, then `a` is the same as `c`.
pub proof fn lemma_path_same_transitive(a: &Path, b: &Path, c: &Path)
    ensures
        a.same_as(*b) && b.same_as(*c) ==> a.same_as(*c),
    decreases a,
{
    match (&a.value, &b.value, &c.value) {
        (PathEnum::Alias { value: v1 }, PathEnum::Alias { value: v2 }, PathEnum::Alias { value: v3 })
        | (
            PathEnum::HeapBlock { value: v1 },
            PathEnum::HeapBlock { value: v2 },
            PathEnum::HeapBlock { value: v3 },
        )
        | (
            PathEnum::Offset { value: v1 },
            PathEnum::Offset { value: v2 },
            PathEnum::Offset { value: v3 },
        ) => {
            lemma_value_same_transitive(v1, v2, v3);
        },
        (
            PathEnum::QualifiedPath { qualifier: q1, selector: s1, .. },
            PathEnum::QualifiedPath { qualifier: q2, selector: s2, .. },
            PathEnum::QualifiedPath { qualifier: q3, selector: s3, .. },
        ) => {
            lemma_path_same_transitive(q1, q2, q3);
            lemma_selector_same_transitive(s1, s2, s3);
        },
        _ => {},
    }
}

/// Every selector is the same as itself.
pub proof fn lemma_selector_same_reflexive(a: &PathSelector)
    ensures
        a.same_as(*a),
    decreases a,
{
    match a {
        PathSelector::Index(v) | PathSelector::Slice(v) => lemma_value_same_reflexive(v),
        _ => {},
    }
}

/// If the selector `a` is the same as `b`, then `b` is the same as `a`.
pub proof fn lemma_selector_same_symmetric(a: &PathSelector, b: &PathSelector)
    ensures
        a.same_as(*b) == b.same_as(*a),
    decreases a,
{
    match (a, b) {
        (PathSelector::Index(v1), PathSelector::Index(v2))
        | (PathSelector::Slice(v1), PathSelector::Slice(v2)) => lemma_value_same_symmetric(
            v1,
            v2,
        ),
        _ => {},
    }
}

/// If the selector `a` is the same as `b` and `b` the same as `c`, then `a` is the
/// same as `c`.
pub proof fn lemma_selector_same_transitive(a: &PathSelector, b: &PathSelector, c: &PathSelector)
    ensures
        a.same_as(*b) && b.same_as(*c) ==> a.same_as(*c),
    decreases a,
{
    match (a, b, c) {
        (PathSelector::Index(v1), PathSelector::Index(v2), PathSelector::Index(v3))
        | (PathSelector::Slice(v1), PathSelector::Slice(v2), PathSelector::Slice(v3)) => {
            lemma_value_same_transitive(v1, v2, v3)
        },
        _ => {},
    }
}

} // verus!
