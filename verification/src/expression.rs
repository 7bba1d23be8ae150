//! The sorts of expressions and the expression tree itself.

use vstd::prelude::*;
use vstd::std_specs::cmp::PartialEqSpecImpl;
use std::rc::Rc;
use crate::abstract_value::{bottom_value, constant_value, AbstractValue};
use crate::constant_domain::ConstantDomain;
use crate::known_names::KnownNames;
use crate::path::Path;

verus! {

/// The sort of the value that an expression denotes.
#[derive(Clone, Copy, Debug, PartialEq, Eq, Structural, Hash, PartialOrd, Ord)]
pub enum ExpressionType {
    Bool,
    F32,
    F64,
    I8,
    I16,
    I32,
    I64,
    I128,
    NonPrimitive,
    Reference,
    U8,
    U16,
    U32,
    U64,
    U128,
}

impl ExpressionType {
    /// True for the signed integer sorts.
    pub open spec fn signed_integer(self) -> bool {
        self is I8 || self is I16 || self is I32 || self is I64 || self is I128
    }

    /// True for the unsigned integer sorts.
    pub open spec fn unsigned_integer(self) -> bool {
        self is U8 || self is U16 || self is U32 || self is U64 || self is U128
    }

    /// True for the integer sorts, signed or not.
    pub open spec fn integer(self) -> bool {
        self.signed_integer() || self.unsigned_integer()
    }

    /// True for the two floating point sorts.
    pub open spec fn floating_point(self) -> bool {
        self is F32 || self is F64
    }

    /// True for every sort that is a scalar: all but references and aggregates.
    pub open spec fn primitive(self) -> bool {
        !(self is NonPrimitive) && !(self is Reference)
    }

    /// The number of bits in a value of this sort.
    pub open spec fn width(self) -> int {
        match self {
            ExpressionType::Bool => 1,
            ExpressionType::I8 | ExpressionType::U8 => 8,
            ExpressionType::I16 | ExpressionType::U16 => 16,
            ExpressionType::I32 | ExpressionType::U32 | ExpressionType::F32 => 32,
            ExpressionType::I64 | ExpressionType::U64 | ExpressionType::F64 => 64,
            _ => 128,
        }
    }

    /// The least integer that a value of this integer sort can be. Zero for the other sorts.
    pub open spec fn least(self) -> int {
        match self {
            ExpressionType::I8 => -0x80,
            ExpressionType::I16 => -0x8000,
            ExpressionType::I32 => -0x8000_0000,
            ExpressionType::I64 => -0x8000_0000_0000_0000,
            ExpressionType::I128 => -0x8000_0000_0000_0000_0000_0000_0000_0000,
            _ => 0,
        }
    }

    /// The greatest integer that a value of this integer sort can be.
    /// One for booleans and zero for the sorts that are not integers.
    pub open spec fn greatest(self) -> int {
        match self {
            ExpressionType::Bool => 1,
            ExpressionType::I8 => 0x7f,
            ExpressionType::I16 => 0x7fff,
            ExpressionType::I32 => 0x7fff_ffff,
            ExpressionType::I64 => 0x7fff_ffff_ffff_ffff,
            ExpressionType::I128 => 0x7fff_ffff_ffff_ffff_ffff_ffff_ffff_ffff,
            ExpressionType::U8 => 0xff,
            ExpressionType::U16 => 0xffff,
            ExpressionType::U32 => 0xffff_ffff,
            ExpressionType::U64 => 0xffff_ffff_ffff_ffff,
            ExpressionType::U128 => 0xffff_ffff_ffff_ffff_ffff_ffff_ffff_ffff,
            _ => 0,
        }
    }

    /// Returns true if this sort is one of the signed integer sorts.
    pub fn is_signed_integer(&self) -> (result: bool)
        ensures
            result == self.signed_integer(),
    {
        matches!(
            self,
            ExpressionType::I8 | ExpressionType::I16 | ExpressionType::I32 | ExpressionType::I64
                | ExpressionType::I128
        )
    }

    /// Returns true if this sort is one of the unsigned integer sorts.
    pub fn is_unsigned_integer(&self) -> (result: bool)
        ensures
            result == self.unsigned_integer(),
    {
        matches!(
            self,
            ExpressionType::U8 | ExpressionType::U16 | ExpressionType::U32 | ExpressionType::U64
                | ExpressionType::U128
        )
    }

    /// Returns true if this sort is one of the integer sorts.
    pub fn is_integer(&self) -> (result: bool)
        ensures
            result == self.integer(),
    {
        self.is_signed_integer() || self.is_unsigned_integer()
    }

    /// Returns true if this sort is one of the floating point sorts.
    pub fn is_floating_point_number(&self) -> (result: bool)
        ensures
            result == self.floating_point(),
    {
        matches!(self, ExpressionType::F32 | ExpressionType::F64)
    }

    /// Returns true if this sort is a scalar.
    pub fn is_primitive(&self) -> (result: bool)
        ensures
            result == self.primitive(),
    {
        !matches!(self, ExpressionType::NonPrimitive | ExpressionType::Reference)
    }

    /// Returns the number of bits used to represent a value of this sort.
    pub fn bit_length(&self) -> (result: u8)
        ensures
            result == self.width(),
    {
        match self {
            ExpressionType::Bool => 1,
            ExpressionType::I8 | ExpressionType::U8 => 8,
            ExpressionType::I16 | ExpressionType::U16 => 16,
            ExpressionType::I32 | ExpressionType::U32 | ExpressionType::F32 => 32,
            ExpressionType::I64 | ExpressionType::U64 | ExpressionType::F64 => 64,
            _ => 128,
        }
    }
}

/// Where the layout of a heap block was taken from.
#[derive(Clone, Copy, Debug, PartialEq, Eq, Structural, Hash, PartialOrd, Ord)]
pub enum LayoutSource {
    /// The block was allocated with this layout.
    Alloc,
    /// The block was deallocated with this layout.
    DeAlloc,
    /// The block was reallocated with this layout.
    ReAlloc,
}

/// How a value was built. The engine simplifies and refines values by this tree.
#[derive(Clone, Debug, PartialOrd, Ord)]
pub enum Expression {
    /// The value about which nothing is known.
    Top,
    /// The impossible value.
    Bottom,
    /// `left + right`.
    Add { left: Rc<AbstractValue>, right: Rc<AbstractValue> },
    /// `left && right`.
    And { left: Rc<AbstractValue>, right: Rc<AbstractValue> },
    /// `left & right`.
    BitAnd { left: Rc<AbstractValue>, right: Rc<AbstractValue> },
    /// `left | right`.
    BitOr { left: Rc<AbstractValue>, right: Rc<AbstractValue> },
    /// `left ^ right`.
    BitXor { left: Rc<AbstractValue>, right: Rc<AbstractValue> },
    /// `left / right`.
    Div { left: Rc<AbstractValue>, right: Rc<AbstractValue> },
    /// `left == right`.
    Equals { left: Rc<AbstractValue>, right: Rc<AbstractValue> },
    /// `left >= right`.
    GreaterOrEqual { left: Rc<AbstractValue>, right: Rc<AbstractValue> },
    /// `left > right`.
    GreaterThan { left: Rc<AbstractValue>, right: Rc<AbstractValue> },
    /// `left <= right`.
    LessOrEqual { left: Rc<AbstractValue>, right: Rc<AbstractValue> },
    /// `left < right`.
    LessThan { left: Rc<AbstractValue>, right: Rc<AbstractValue> },
    /// `left * right`.
    Mul { left: Rc<AbstractValue>, right: Rc<AbstractValue> },
    /// `left != right`.
    Ne { left: Rc<AbstractValue>, right: Rc<AbstractValue> },
    /// The address `left` moved by `right` bytes.
    Offset { left: Rc<AbstractValue>, right: Rc<AbstractValue> },
    /// `left || right`.
    Or { left: Rc<AbstractValue>, right: Rc<AbstractValue> },
    /// `left % right`.
    Rem { left: Rc<AbstractValue>, right: Rc<AbstractValue> },
    /// `left << right`.
    Shl { left: Rc<AbstractValue>, right: Rc<AbstractValue> },
    /// `left - right`.
    Sub { left: Rc<AbstractValue>, right: Rc<AbstractValue> },
    /// True if `left + right` is out of range for `result_type`.
    AddOverflows { left: Rc<AbstractValue>, right: Rc<AbstractValue>, result_type: ExpressionType },
    /// True if `left * right` is out of range for `result_type`.
    MulOverflows { left: Rc<AbstractValue>, right: Rc<AbstractValue>, result_type: ExpressionType },
    /// True if `left << right` shifts away all bits of a `result_type`.
    ShlOverflows { left: Rc<AbstractValue>, right: Rc<AbstractValue>, result_type: ExpressionType },
    /// `left >> right`, where `left` has sort `result_type`.
    Shr { left: Rc<AbstractValue>, right: Rc<AbstractValue>, result_type: ExpressionType },
    /// True if `left >> right` shifts away all bits of a `result_type`.
    ShrOverflows { left: Rc<AbstractValue>, right: Rc<AbstractValue>, result_type: ExpressionType },
    /// True if `left - right` is out of range for `result_type`.
    SubOverflows { left: Rc<AbstractValue>, right: Rc<AbstractValue>, result_type: ExpressionType },
    /// `!operand` on the bits of an integer of sort `result_type`.
    BitNot { operand: Rc<AbstractValue>, result_type: ExpressionType },
    /// `operand as target_type`.
    Cast { operand: Rc<AbstractValue>, target_type: ExpressionType },
    /// A value that is known at compile time.
    CompileTimeConstant(ConstantDomain),
    /// `if condition { consequent } else { alternate }`.
    ConditionalExpression {
        condition: Rc<AbstractValue>,
        consequent: Rc<AbstractValue>,
        alternate: Rc<AbstractValue>,
    },
    /// The address of a block of heap memory, told apart from other blocks by
    /// `abstract_address`.
    HeapBlock { abstract_address: usize, is_zeroed: bool },
    /// The length and alignment that a heap block was allocated, reallocated or freed with.
    HeapBlockLayout {
        length: Rc<AbstractValue>,
        alignment: Rc<AbstractValue>,
        source: LayoutSource,
    },
    /// The result of the intrinsic binary function `name` on `left` and `right`.
    IntrinsicBinary { left: Rc<AbstractValue>, right: Rc<AbstractValue>, name: KnownNames },
    /// The result of the intrinsic bit vector function `name` on the low `bit_length`
    /// bits of `operand`.
    IntrinsicBitVectorUnary { operand: Rc<AbstractValue>, bit_length: u8, name: KnownNames },
    /// The result of the intrinsic floating point function `name` on `operand`.
    IntrinsicFloatingPointUnary { operand: Rc<AbstractValue>, name: KnownNames },
    /// Either `left` or `right`: the value at `path` where two control flows meet.
    Join { path: Rc<Path>, left: Rc<AbstractValue>, right: Rc<AbstractValue> },
    /// `!operand` for a Boolean.
    LogicalNot { operand: Rc<AbstractValue> },
    /// `-operand`.
    Neg { operand: Rc<AbstractValue> },
    /// The address of the memory that `path` names.
    Reference(Rc<Path>),
    /// The result of calling `callee`, of sort `result_type`, kept at `path`.
    UninterpretedCall { callee: Rc<AbstractValue>, result_type: ExpressionType, path: Rc<Path> },
    /// The value of a model field at `path`, which is `default` where no value was
    /// ever assigned to it.
    UnknownModelField { path: Rc<Path>, default: Rc<AbstractValue> },
    /// The unknown value of sort `var_type` that memory holds at `path`.
    Variable { path: Rc<Path>, var_type: ExpressionType },
    /// All the values that `operand` takes at `path` while a loop runs.
    Widen { path: Rc<Path>, operand: Rc<AbstractValue> },
}

impl Expression {
    /// True if the two expressions are the same tree. Operands are compared as
    /// values are: see [`AbstractValue::same_as`].
    pub open spec fn same_as(self, other: Expression) -> bool
        decreases self,
    {
        match (self, other) {
            (Expression::Top, Expression::Top) => true,
            (Expression::Bottom, Expression::Bottom) => true,
            (
                Expression::Add { left: l1, right: r1 },
                Expression::Add { left: l2, right: r2 },
            ) => (*l1).same_as(*l2) && (*r1).same_as(*r2),
            (
                Expression::And { left: l1, right: r1 },
                Expression::And { left: l2, right: r2 },
            ) => (*l1).same_as(*l2) && (*r1).same_as(*r2),
            (
                Expression::BitAnd { left: l1, right: r1 },
                Expression::BitAnd { left: l2, right: r2 },
            ) => (*l1).same_as(*l2) && (*r1).same_as(*r2),
            (
                Expression::BitOr { left: l1, right: r1 },
                Expression::BitOr { left: l2, right: r2 },
            ) => (*l1).same_as(*l2) && (*r1).same_as(*r2),
            (
                Expression::BitXor { left: l1, right: r1 },
                Expression::BitXor { left: l2, right: r2 },
            ) => (*l1).same_as(*l2) && (*r1).same_as(*r2),
            (
                Expression::Div { left: l1, right: r1 },
                Expression::Div { left: l2, right: r2 },
            ) => (*l1).same_as(*l2) && (*r1).same_as(*r2),
            (
                Expression::Equals { left: l1, right: r1 },
                Expression::Equals { left: l2, right: r2 },
            ) => (*l1).same_as(*l2) && (*r1).same_as(*r2),
            (
                Expression::GreaterOrEqual { left: l1, right: r1 },
                Expression::GreaterOrEqual { left: l2, right: r2 },
            ) => (*l1).same_as(*l2) && (*r1).same_as(*r2),
            (
                Expression::GreaterThan { left: l1, right: r1 },
                Expression::GreaterThan { left: l2, right: r2 },
            ) => (*l1).same_as(*l2) && (*r1).same_as(*r2),
            (
                Expression::LessOrEqual { left: l1, right: r1 },
                Expression::LessOrEqual { left: l2, right: r2 },
            ) => (*l1).same_as(*l2) && (*r1).same_as(*r2),
            (
                Expression::LessThan { left: l1, right: r1 },
                Expression::LessThan { left: l2, right: r2 },
            ) => (*l1).same_as(*l2) && (*r1).same_as(*r2),
            (
                Expression::Mul { left: l1, right: r1 },
                Expression::Mul { left: l2, right: r2 },
            ) => (*l1).same_as(*l2) && (*r1).same_as(*r2),
            (
                Expression::Ne { left: l1, right: r1 },
                Expression::Ne { left: l2, right: r2 },
            ) => (*l1).same_as(*l2) && (*r1).same_as(*r2),
            (
                Expression::Offset { left: l1, right: r1 },
                Expression::Offset { left: l2, right: r2 },
            ) => (*l1).same_as(*l2) && (*r1).same_as(*r2),
            (
                Expression::Or { left: l1, right: r1 },
                Expression::Or { left: l2, right: r2 },
            ) => (*l1).same_as(*l2) && (*r1).same_as(*r2),
            (
                Expression::Rem { left: l1, right: r1 },
                Expression::Rem { left: l2, right: r2 },
            ) => (*l1).same_as(*l2) && (*r1).same_as(*r2),
            (
                Expression::Shl { left: l1, right: r1 },
                Expression::Shl { left: l2, right: r2 },
            ) => (*l1).same_as(*l2) && (*r1).same_as(*r2),
            (
                Expression::Sub { left: l1, right: r1 },
                Expression::Sub { left: l2, right: r2 },
            ) => (*l1).same_as(*l2) && (*r1).same_as(*r2),
            (
                Expression::AddOverflows { left: l1, right: r1, result_type: t1 },
                Expression::AddOverflows { left: l2, right: r2, result_type: t2 },
            ) => (*l1).same_as(*l2) && (*r1).same_as(*r2) && t1 == t2,
            (
                Expression::MulOverflows { left: l1, right: r1, result_type: t1 },
                Expression::MulOverflows { left: l2, right: r2, result_type: t2 },
            ) => (*l1).same_as(*l2) && (*r1).same_as(*r2) && t1 == t2,
            (
                Expression::ShlOverflows { left: l1, right: r1, result_type: t1 },
                Expression::ShlOverflows { left: l2, right: r2, result_type: t2 },
            ) => (*l1).same_as(*l2) && (*r1).same_as(*r2) && t1 == t2,
            (
                Expression::Shr { left: l1, right: r1, result_type: t1 },
                Expression::Shr { left: l2, right: r2, result_type: t2 },
            ) => (*l1).same_as(*l2) && (*r1).same_as(*r2) && t1 == t2,
            (
                Expression::ShrOverflows { left: l1, right: r1, result_type: t1 },
                Expression::ShrOverflows { left: l2, right: r2, result_type: t2 },
            ) => (*l1).same_as(*l2) && (*r1).same_as(*r2) && t1 == t2,
            (
                Expression::SubOverflows { left: l1, right: r1, result_type: t1 },
                Expression::SubOverflows { left: l2, right: r2, result_type: t2 },
            ) => (*l1).same_as(*l2) && (*r1).same_as(*r2) && t1 == t2,
            (
                Expression::BitNot { operand: o1, result_type: t1 },
                Expression::BitNot { operand: o2, result_type: t2 },
            ) => (*o1).same_as(*o2) && t1 == t2,
            (
                Expression::Cast { operand: o1, target_type: t1 },
                Expression::Cast { operand: o2, target_type: t2 },
            ) => (*o1).same_as(*o2) && t1 == t2,
            (
                Expression::CompileTimeConstant(x1),
                Expression::CompileTimeConstant(x2),
            ) => x1.same_as(x2),
            (
                Expression::ConditionalExpression { condition: c1, consequent: a1, alternate: b1 },
                Expression::ConditionalExpression { condition: c2, consequent: a2, alternate: b2 },
            ) => (*c1).same_as(*c2) && (*a1).same_as(*a2) && (*b1).same_as(*b2),
            (
                Expression::HeapBlock { abstract_address: h1, is_zeroed: z1 },
                Expression::HeapBlock { abstract_address: h2, is_zeroed: z2 },
            ) => h1 == h2 && z1 == z2,
            (
                Expression::HeapBlockLayout { length: n1, alignment: g1, source: s1 },
                Expression::HeapBlockLayout { length: n2, alignment: g2, source: s2 },
            ) => (*n1).same_as(*n2) && (*g1).same_as(*g2) && s1 == s2,
            (
                Expression::IntrinsicBinary { left: l1, right: r1, name: k1 },
                Expression::IntrinsicBinary { left: l2, right: r2, name: k2 },
            ) => (*l1).same_as(*l2) && (*r1).same_as(*r2) && k1 == k2,
            (
                Expression::IntrinsicBitVectorUnary { operand: o1, bit_length: w1, name: k1 },
                Expression::IntrinsicBitVectorUnary { operand: o2, bit_length: w2, name: k2 },
            ) => (*o1).same_as(*o2) && w1 == w2 && k1 == k2,
            (
                Expression::IntrinsicFloatingPointUnary { operand: o1, name: k1 },
                Expression::IntrinsicFloatingPointUnary { operand: o2, name: k2 },
            ) => (*o1).same_as(*o2) && k1 == k2,
            (
                Expression::Join { path: p1, left: l1, right: r1 },
                Expression::Join { path: p2, left: l2, right: r2 },
            ) => (*p1).same_as(*p2) && (*l1).same_as(*l2) && (*r1).same_as(*r2),
            (
                Expression::LogicalNot { operand: o1 },
                Expression::LogicalNot { operand: o2 },
            ) => (*o1).same_as(*o2),
            (
                Expression::Neg { operand: o1 },
                Expression::Neg { operand: o2 },
            ) => (*o1).same_as(*o2),
            (Expression::Reference(x1), Expression::Reference(x2)) => (*x1).same_as(*x2),
            (
                Expression::UninterpretedCall { callee: f1, result_type: t1, path: p1 },
                Expression::UninterpretedCall { callee: f2, result_type: t2, path: p2 },
            ) => (*f1).same_as(*f2) && t1 == t2 && (*p1).same_as(*p2),
            (
                Expression::UnknownModelField { path: p1, default: d1 },
                Expression::UnknownModelField { path: p2, default: d2 },
            ) => (*p1).same_as(*p2) && (*d1).same_as(*d2),
            (
                Expression::Variable { path: p1, var_type: t1 },
                Expression::Variable { path: p2, var_type: t2 },
            ) => (*p1).same_as(*p2) && t1 == t2,
            (
                Expression::Widen { path: p1, operand: o1 },
                Expression::Widen { path: p2, operand: o2 },
            ) => (*p1).same_as(*p2) && (*o1).same_as(*o2),
            _ => false,
        }
    }

    /// Returns true if the two expressions are the same tree.
    pub fn eq(&self, other: &Expression) -> (result: bool)
        ensures
            result == self.same_as(*other),
        decreases self,
    {
        match (self, other) {
            (Expression::Top, Expression::Top) => true,
            (Expression::Bottom, Expression::Bottom) => true,
            (
                Expression::Add { left: l1, right: r1 },
                Expression::Add { left: l2, right: r2 },
            ) => AbstractValue::eq(l1, l2) && AbstractValue::eq(r1, r2),
            (
                Expression::And { left: l1, right: r1 },
                Expression::And { left: l2, right: r2 },
            ) => AbstractValue::eq(l1, l2) && AbstractValue::eq(r1, r2),
            (
                Expression::BitAnd { left: l1, right: r1 },
                Expression::BitAnd { left: l2, right: r2 },
            ) => AbstractValue::eq(l1, l2) && AbstractValue::eq(r1, r2),
            (
                Expression::BitOr { left: l1, right: r1 },
                Expression::BitOr { left: l2, right: r2 },
            ) => AbstractValue::eq(l1, l2) && AbstractValue::eq(r1, r2),
            (
                Expression::BitXor { left: l1, right: r1 },
                Expression::BitXor { left: l2, right: r2 },
            ) => AbstractValue::eq(l1, l2) && AbstractValue::eq(r1, r2),
            (
                Expression::Div { left: l1, right: r1 },
                Expression::Div { left: l2, right: r2 },
            ) => AbstractValue::eq(l1, l2) && AbstractValue::eq(r1, r2),
            (
                Expression::Equals { left: l1, right: r1 },
                Expression::Equals { left: l2, right: r2 },
            ) => AbstractValue::eq(l1, l2) && AbstractValue::eq(r1, r2),
            (
                Expression::GreaterOrEqual { left: l1, right: r1 },
                Expression::GreaterOrEqual { left: l2, right: r2 },
            ) => AbstractValue::eq(l1, l2) && AbstractValue::eq(r1, r2),
            (
                Expression::GreaterThan { left: l1, right: r1 },
                Expression::GreaterThan { left: l2, right: r2 },
            ) => AbstractValue::eq(l1, l2) && AbstractValue::eq(r1, r2),
            (
                Expression::LessOrEqual { left: l1, right: r1 },
                Expression::LessOrEqual { left: l2, right: r2 },
            ) => AbstractValue::eq(l1, l2) && AbstractValue::eq(r1, r2),
            (
                Expression::LessThan { left: l1, right: r1 },
                Expression::LessThan { left: l2, right: r2 },
            ) => AbstractValue::eq(l1, l2) && AbstractValue::eq(r1, r2),
            (
                Expression::Mul { left: l1, right: r1 },
                Expression::Mul { left: l2, right: r2 },
            ) => AbstractValue::eq(l1, l2) && AbstractValue::eq(r1, r2),
            (
                Expression::Ne { left: l1, right: r1 },
                Expression::Ne { left: l2, right: r2 },
            ) => AbstractValue::eq(l1, l2) && AbstractValue::eq(r1, r2),
            (
                Expression::Offset { left: l1, right: r1 },
                Expression::Offset { left: l2, right: r2 },
            ) => AbstractValue::eq(l1, l2) && AbstractValue::eq(r1, r2),
            (
                Expression::Or { left: l1, right: r1 },
                Expression::Or { left: l2, right: r2 },
            ) => AbstractValue::eq(l1, l2) && AbstractValue::eq(r1, r2),
            (
                Expression::Rem { left: l1, right: r1 },
                Expression::Rem { left: l2, right: r2 },
            ) => AbstractValue::eq(l1, l2) && AbstractValue::eq(r1, r2),
            (
                Expression::Shl { left: l1, right: r1 },
                Expression::Shl { left: l2, right: r2 },
            ) => AbstractValue::eq(l1, l2) && AbstractValue::eq(r1, r2),
            (
                Expression::Sub { left: l1, right: r1 },
                Expression::Sub { left: l2, right: r2 },
            ) => AbstractValue::eq(l1, l2) && AbstractValue::eq(r1, r2),
            (
                Expression::AddOverflows { left: l1, right: r1, result_type: t1 },
                Expression::AddOverflows { left: l2, right: r2, result_type: t2 },
            ) => AbstractValue::eq(l1, l2) && AbstractValue::eq(r1, r2) && *t1 == *t2,
            (
                Expression::MulOverflows { left: l1, right: r1, result_type: t1 },
                Expression::MulOverflows { left: l2, right: r2, result_type: t2 },
            ) => AbstractValue::eq(l1, l2) && AbstractValue::eq(r1, r2) && *t1 == *t2,
            (
                Expression::ShlOverflows { left: l1, right: r1, result_type: t1 },
                Expression::ShlOverflows { left: l2, right: r2, result_type: t2 },
            ) => AbstractValue::eq(l1, l2) && AbstractValue::eq(r1, r2) && *t1 == *t2,
            (
                Expression::Shr { left: l1, right: r1, result_type: t1 },
                Expression::Shr { left: l2, right: r2, result_type: t2 },
            ) => AbstractValue::eq(l1, l2) && AbstractValue::eq(r1, r2) && *t1 == *t2,
            (
                Expression::ShrOverflows { left: l1, right: r1, result_type: t1 },
                Expression::ShrOverflows { left: l2, right: r2, result_type: t2 },
            ) => AbstractValue::eq(l1, l2) && AbstractValue::eq(r1, r2) && *t1 == *t2,
            (
                Expression::SubOverflows { left: l1, right: r1, result_type: t1 },
                Expression::SubOverflows { left: l2, right: r2, result_type: t2 },
            ) => AbstractValue::eq(l1, l2) && AbstractValue::eq(r1, r2) && *t1 == *t2,
            (
                Expression::BitNot { operand: o1, result_type: t1 },
                Expression::BitNot { operand: o2, result_type: t2 },
            ) => AbstractValue::eq(o1, o2) && *t1 == *t2,
            (
                Expression::Cast { operand: o1, target_type: t1 },
                Expression::Cast { operand: o2, target_type: t2 },
            ) => AbstractValue::eq(o1, o2) && *t1 == *t2,
            (Expression::CompileTimeConstant(x1), Expression::CompileTimeConstant(x2)) => x1.eq(x2),
            (
                Expression::ConditionalExpression { condition: c1, consequent: a1, alternate: b1 },
                Expression::ConditionalExpression { condition: c2, consequent: a2, alternate: b2 },
            ) => {
                AbstractValue::eq(c1, c2) && AbstractValue::eq(a1, a2) && AbstractValue::eq(b1, b2)
            },
            (
                Expression::HeapBlock { abstract_address: h1, is_zeroed: z1 },
                Expression::HeapBlock { abstract_address: h2, is_zeroed: z2 },
            ) => *h1 == *h2 && *z1 == *z2,
            (
                Expression::HeapBlockLayout { length: n1, alignment: g1, source: s1 },
                Expression::HeapBlockLayout { length: n2, alignment: g2, source: s2 },
            ) => AbstractValue::eq(n1, n2) && AbstractValue::eq(g1, g2) && *s1 == *s2,
            (
                Expression::IntrinsicBinary { left: l1, right: r1, name: k1 },
                Expression::IntrinsicBinary { left: l2, right: r2, name: k2 },
            ) => AbstractValue::eq(l1, l2) && AbstractValue::eq(r1, r2) && *k1 == *k2,
            (
                Expression::IntrinsicBitVectorUnary { operand: o1, bit_length: w1, name: k1 },
                Expression::IntrinsicBitVectorUnary { operand: o2, bit_length: w2, name: k2 },
            ) => AbstractValue::eq(o1, o2) && *w1 == *w2 && *k1 == *k2,
            (
                Expression::IntrinsicFloatingPointUnary { operand: o1, name: k1 },
                Expression::IntrinsicFloatingPointUnary { operand: o2, name: k2 },
            ) => AbstractValue::eq(o1, o2) && *k1 == *k2,
            (
                Expression::Join { path: p1, left: l1, right: r1 },
                Expression::Join { path: p2, left: l2, right: r2 },
            ) => Path::eq(p1, p2) && AbstractValue::eq(l1, l2) && AbstractValue::eq(r1, r2),
            (
                Expression::LogicalNot { operand: o1 },
                Expression::LogicalNot { operand: o2 },
            ) => AbstractValue::eq(o1, o2),
            (
                Expression::Neg { operand: o1 },
                Expression::Neg { operand: o2 },
            ) => AbstractValue::eq(o1, o2),
            (Expression::Reference(x1), Expression::Reference(x2)) => Path::eq(x1, x2),
            (
                Expression::UninterpretedCall { callee: f1, result_type: t1, path: p1 },
                Expression::UninterpretedCall { callee: f2, result_type: t2, path: p2 },
            ) => AbstractValue::eq(f1, f2) && *t1 == *t2 && Path::eq(p1, p2),
            (
                Expression::UnknownModelField { path: p1, default: d1 },
                Expression::UnknownModelField { path: p2, default: d2 },
            ) => Path::eq(p1, p2) && AbstractValue::eq(d1, d2),
            (
                Expression::Variable { path: p1, var_type: t1 },
                Expression::Variable { path: p2, var_type: t2 },
            ) => Path::eq(p1, p2) && *t1 == *t2,
            (
                Expression::Widen { path: p1, operand: o1 },
                Expression::Widen { path: p2, operand: o2 },
            ) => Path::eq(p1, p2) && AbstractValue::eq(o1, o2),
            _ => false,
        }
    }
}

/// The operators that take two operands and no sort.
#[derive(Clone, Copy, Debug, PartialEq, Eq, Structural, Hash)]
pub enum BinaryOperator {
    Add,
    And,
    BitAnd,
    BitOr,
    BitXor,
    Div,
    Equals,
    GreaterOrEqual,
    GreaterThan,
    LessOrEqual,
    LessThan,
    Mul,
    Ne,
    Offset,
    Or,
    Rem,
    Shl,
    Sub,
}

impl BinaryOperator {
    /// The expression that applies this operator to `left` and `right`.
    pub open spec fn apply(self, left: Rc<AbstractValue>, right: Rc<AbstractValue>) -> Expression {
        match self {
            BinaryOperator::Add => Expression::Add { left, right },
            BinaryOperator::And => Expression::And { left, right },
            BinaryOperator::BitAnd => Expression::BitAnd { left, right },
            BinaryOperator::BitOr => Expression::BitOr { left, right },
            BinaryOperator::BitXor => Expression::BitXor { left, right },
            BinaryOperator::Div => Expression::Div { left, right },
            BinaryOperator::Equals => Expression::Equals { left, right },
            BinaryOperator::GreaterOrEqual => Expression::GreaterOrEqual { left, right },
            BinaryOperator::GreaterThan => Expression::GreaterThan { left, right },
            BinaryOperator::LessOrEqual => Expression::LessOrEqual { left, right },
            BinaryOperator::LessThan => Expression::LessThan { left, right },
            BinaryOperator::Mul => Expression::Mul { left, right },
            BinaryOperator::Ne => Expression::Ne { left, right },
            BinaryOperator::Offset => Expression::Offset { left, right },
            BinaryOperator::Or => Expression::Or { left, right },
            BinaryOperator::Rem => Expression::Rem { left, right },
            BinaryOperator::Shl => Expression::Shl { left, right },
            BinaryOperator::Sub => Expression::Sub { left, right },
        }
    }

    /// Returns the expression that applies this operator to `left` and `right`.
    pub fn build(self, left: Rc<AbstractValue>, right: Rc<AbstractValue>) -> (result: Expression)
        ensures
            result == self.apply(left, right),
    {
        match self {
            BinaryOperator::Add => Expression::Add { left, right },
            BinaryOperator::And => Expression::And { left, right },
            BinaryOperator::BitAnd => Expression::BitAnd { left, right },
            BinaryOperator::BitOr => Expression::BitOr { left, right },
            BinaryOperator::BitXor => Expression::BitXor { left, right },
            BinaryOperator::Div => Expression::Div { left, right },
            BinaryOperator::Equals => Expression::Equals { left, right },
            BinaryOperator::GreaterOrEqual => Expression::GreaterOrEqual { left, right },
            BinaryOperator::GreaterThan => Expression::GreaterThan { left, right },
            BinaryOperator::LessOrEqual => Expression::LessOrEqual { left, right },
            BinaryOperator::LessThan => Expression::LessThan { left, right },
            BinaryOperator::Mul => Expression::Mul { left, right },
            BinaryOperator::Ne => Expression::Ne { left, right },
            BinaryOperator::Offset => Expression::Offset { left, right },
            BinaryOperator::Or => Expression::Or { left, right },
            BinaryOperator::Rem => Expression::Rem { left, right },
            BinaryOperator::Shl => Expression::Shl { left, right },
            BinaryOperator::Sub => Expression::Sub { left, right },
        }
    }
}

/// The operators that take two operands and the sort of the result or of the operands.
#[derive(Clone, Copy, Debug, PartialEq, Eq, Structural, Hash)]
pub enum TypedBinaryOperator {
    AddOverflows,
    MulOverflows,
    ShlOverflows,
    Shr,
    ShrOverflows,
    SubOverflows,
}

impl TypedBinaryOperator {
    /// The expression that applies this operator to `left` and `right`.
    pub open spec fn apply(self, left: Rc<AbstractValue>, right: Rc<AbstractValue>, result_type: ExpressionType) -> Expression {
        match self {
            TypedBinaryOperator::AddOverflows => Expression::AddOverflows { left, right, result_type },
            TypedBinaryOperator::MulOverflows => Expression::MulOverflows { left, right, result_type },
            TypedBinaryOperator::ShlOverflows => Expression::ShlOverflows { left, right, result_type },
            TypedBinaryOperator::Shr => Expression::Shr { left, right, result_type },
            TypedBinaryOperator::ShrOverflows => Expression::ShrOverflows { left, right, result_type },
            TypedBinaryOperator::SubOverflows => Expression::SubOverflows { left, right, result_type },
        }
    }

    /// Returns the expression that applies this operator to `left` and `right`.
    pub fn build(self, left: Rc<AbstractValue>, right: Rc<AbstractValue>, result_type: ExpressionType) -> (result: Expression)
        ensures
            result == self.apply(left, right, result_type),
    {
        match self {
            TypedBinaryOperator::AddOverflows => Expression::AddOverflows { left, right, result_type },
            TypedBinaryOperator::MulOverflows => Expression::MulOverflows { left, right, result_type },
            TypedBinaryOperator::ShlOverflows => Expression::ShlOverflows { left, right, result_type },
            TypedBinaryOperator::Shr => Expression::Shr { left, right, result_type },
            TypedBinaryOperator::ShrOverflows => Expression::ShrOverflows { left, right, result_type },
            TypedBinaryOperator::SubOverflows => Expression::SubOverflows { left, right, result_type },
        }
    }
}

impl Expression {
    /// The sort of the value that this expression denotes, as far as the
    /// expression shows it.
    pub open spec fn sort(self) -> ExpressionType
        decreases self,
    {
        match self {
            Expression::Add { left, .. }
            | Expression::BitAnd { left, .. }
            | Expression::BitOr { left, .. }
            | Expression::BitXor { left, .. }
            | Expression::Div { left, .. }
            | Expression::Mul { left, .. }
            | Expression::Rem { left, .. }
            | Expression::Shl { left, .. }
            | Expression::Sub { left, .. }
            | Expression::IntrinsicBinary { left, .. }
            | Expression::Join { left, .. } => left.expression.sort(),
            Expression::AddOverflows { .. }
            | Expression::And { .. }
            | Expression::Equals { .. }
            | Expression::GreaterOrEqual { .. }
            | Expression::GreaterThan { .. }
            | Expression::LessOrEqual { .. }
            | Expression::LessThan { .. }
            | Expression::LogicalNot { .. }
            | Expression::MulOverflows { .. }
            | Expression::Ne { .. }
            | Expression::Or { .. }
            | Expression::ShlOverflows { .. }
            | Expression::ShrOverflows { .. }
            | Expression::SubOverflows { .. } => ExpressionType::Bool,
            Expression::IntrinsicBitVectorUnary { operand, .. }
            | Expression::IntrinsicFloatingPointUnary { operand, .. }
            | Expression::Neg { operand, .. }
            | Expression::Widen { operand, .. } => operand.expression.sort(),
            Expression::BitNot { result_type, .. }
            | Expression::Shr { result_type, .. }
            | Expression::UninterpretedCall { result_type, .. } => result_type,
            Expression::Cast { target_type, .. } => target_type,
            Expression::CompileTimeConstant(c) => c.sort(),
            Expression::ConditionalExpression { consequent, .. } => consequent.expression.sort(),
            Expression::HeapBlock { .. } | Expression::Offset { .. } | Expression::Reference(
                _,
            ) => ExpressionType::Reference,
            Expression::UnknownModelField { default, .. } => default.expression.sort(),
            Expression::Variable { var_type, .. } => var_type,
            Expression::Top | Expression::Bottom | Expression::HeapBlockLayout {
                ..
            } => ExpressionType::NonPrimitive,
        }
    }

    /// Returns the sort of the value that this expression denotes.
    pub fn infer_type(&self) -> (result: ExpressionType)
        ensures
            result == self.sort(),
        decreases self,
    {
        match self {
            Expression::Add { left, .. }
            | Expression::BitAnd { left, .. }
            | Expression::BitOr { left, .. }
            | Expression::BitXor { left, .. }
            | Expression::Div { left, .. }
            | Expression::Mul { left, .. }
            | Expression::Rem { left, .. }
            | Expression::Shl { left, .. }
            | Expression::Sub { left, .. }
            | Expression::IntrinsicBinary { left, .. }
            | Expression::Join { left, .. } => left.expression.infer_type(),
            Expression::AddOverflows { .. }
            | Expression::And { .. }
            | Expression::Equals { .. }
            | Expression::GreaterOrEqual { .. }
            | Expression::GreaterThan { .. }
            | Expression::LessOrEqual { .. }
            | Expression::LessThan { .. }
            | Expression::LogicalNot { .. }
            | Expression::MulOverflows { .. }
            | Expression::Ne { .. }
            | Expression::Or { .. }
            | Expression::ShlOverflows { .. }
            | Expression::ShrOverflows { .. }
            | Expression::SubOverflows { .. } => ExpressionType::Bool,
            Expression::IntrinsicBitVectorUnary { operand, .. }
            | Expression::IntrinsicFloatingPointUnary { operand, .. }
            | Expression::Neg { operand, .. }
            | Expression::Widen { operand, .. } => operand.expression.infer_type(),
            Expression::BitNot { result_type, .. }
            | Expression::Shr { result_type, .. }
            | Expression::UninterpretedCall { result_type, .. } => *result_type,
            Expression::Cast { target_type, .. } => *target_type,
            Expression::CompileTimeConstant(c) => c.infer_type(),
            Expression::ConditionalExpression { consequent, .. } => consequent.expression.infer_type(),
            Expression::HeapBlock { .. } | Expression::Offset { .. } | Expression::Reference(
                _,
            ) => ExpressionType::Reference,
            Expression::UnknownModelField { default, .. } => default.expression.infer_type(),
            Expression::Variable { var_type, .. } => *var_type,
            Expression::Top | Expression::Bottom | Expression::HeapBlockLayout {
                ..
            } => ExpressionType::NonPrimitive,
        }
    }

    /// The integer that this expression is a constant for, if it is one.
    pub open spec fn known_int(self) -> Option<int> {
        match self {
            Expression::CompileTimeConstant(c) => c.known_int(),
            _ => None,
        }
    }

    /// Returns true if this expression is the integer constant one.
    pub fn is_one(&self) -> (result: bool)
        ensures
            result == (self.known_int() == Some(1int)),
    {
        match self {
            Expression::CompileTimeConstant(c) => c.is_one(),
            _ => false,
        }
    }

    /// Returns true if this expression is the integer constant zero.
    pub fn is_zero(&self) -> (result: bool)
        ensures
            result == (self.known_int() == Some(0int)),
    {
        match self {
            Expression::CompileTimeConstant(c) => c.is_zero(),
            _ => false,
        }
    }
}

impl Expression {
    /// True if no value in this expression, at any depth, is larger than the
    /// greatest size that an expression may have.
    pub open spec fn within_limit(self) -> bool
        decreases self,
    {
        match self {
            Expression::Add { left, right, .. }
            | Expression::And { left, right, .. }
            | Expression::BitAnd { left, right, .. }
            | Expression::BitOr { left, right, .. }
            | Expression::BitXor { left, right, .. }
            | Expression::Div { left, right, .. }
            | Expression::Equals { left, right, .. }
            | Expression::GreaterOrEqual { left, right, .. }
            | Expression::GreaterThan { left, right, .. }
            | Expression::LessOrEqual { left, right, .. }
            | Expression::LessThan { left, right, .. }
            | Expression::Mul { left, right, .. }
            | Expression::Ne { left, right, .. }
            | Expression::Offset { left, right, .. }
            | Expression::Or { left, right, .. }
            | Expression::Rem { left, right, .. }
            | Expression::Shl { left, right, .. }
            | Expression::Sub { left, right, .. }
            | Expression::AddOverflows { left, right, .. }
            | Expression::MulOverflows { left, right, .. }
            | Expression::ShlOverflows { left, right, .. }
            | Expression::Shr { left, right, .. }
            | Expression::ShrOverflows { left, right, .. }
            | Expression::SubOverflows { left, right, .. }
            | Expression::IntrinsicBinary { left, right, .. } => left.within_limit() && right.within_limit(),
            Expression::BitNot { operand, .. }
            | Expression::Cast { operand, .. }
            | Expression::IntrinsicBitVectorUnary { operand, .. }
            | Expression::IntrinsicFloatingPointUnary { operand, .. }
            | Expression::LogicalNot { operand, .. }
            | Expression::Neg { operand, .. } => operand.within_limit(),
            Expression::ConditionalExpression { condition, consequent, alternate } => {
                condition.within_limit() && consequent.within_limit() && alternate.within_limit()
            },
            Expression::HeapBlockLayout { length, alignment, .. } => length.within_limit()
                && alignment.within_limit(),
            Expression::Join { path, left, right } => path.within_limit() && left.within_limit()
                && right.within_limit(),
            Expression::Reference(path) | Expression::Variable { path, .. } => path.within_limit(),
            Expression::UninterpretedCall { callee, path, .. } => callee.within_limit()
                && path.within_limit(),
            Expression::UnknownModelField { path, default } => path.within_limit()
                && default.within_limit(),
            Expression::Widen { path, operand } => path.within_limit() && operand.within_limit(),
            _ => true,
        }
    }
}

impl ExpressionType {
    /// The greatest value of this sort as a constant: the impossible constant for a
    /// sort that is not a scalar.
    pub open spec fn greatest_constant(self) -> ConstantDomain {
        match self {
            ExpressionType::Bool => ConstantDomain::U128(1),
            ExpressionType::F32 => ConstantDomain::F32(0x7f7f_ffff),
            ExpressionType::F64 => ConstantDomain::F64(0x7fef_ffff_ffff_ffff),
            ExpressionType::NonPrimitive | ExpressionType::Reference => ConstantDomain::Bottom,
            _ => if self.signed_integer() {
                ConstantDomain::I128(self.greatest() as i128)
            } else {
                ConstantDomain::U128(self.greatest() as u128)
            },
        }
    }

    /// The least value of this sort as a constant: the impossible constant for a
    /// sort that is not a scalar.
    pub open spec fn least_constant(self) -> ConstantDomain {
        match self {
            ExpressionType::F32 => ConstantDomain::F32(0xff7f_ffff),
            ExpressionType::F64 => ConstantDomain::F64(0xffef_ffff_ffff_ffff),
            ExpressionType::NonPrimitive | ExpressionType::Reference => ConstantDomain::Bottom,
            _ => if self.signed_integer() {
                ConstantDomain::I128(self.least() as i128)
            } else {
                ConstantDomain::U128(0)
            },
        }
    }

    /// The number of values of this sort, for the unsigned integer sorts of less
    /// than 128 bits: the impossible value for every other sort.
    pub open spec fn modulo(self) -> AbstractValue {
        match self {
            ExpressionType::U8 | ExpressionType::U16 | ExpressionType::U32 | ExpressionType::U64 => {
                constant_value(ConstantDomain::U128((self.greatest() + 1) as u128))
            },
            _ => bottom_value(),
        }
    }

    /// Returns the greatest value of this sort.
    pub fn max_value(&self) -> (result: ConstantDomain)
        ensures
            result == self.greatest_constant(),
    {
        match self {
            ExpressionType::Bool => ConstantDomain::U128(1),
            ExpressionType::F32 => ConstantDomain::F32(0x7f7f_ffff),
            ExpressionType::F64 => ConstantDomain::F64(0x7fef_ffff_ffff_ffff),
            ExpressionType::I8 => ConstantDomain::I128(0x7f),
            ExpressionType::I16 => ConstantDomain::I128(0x7fff),
            ExpressionType::I32 => ConstantDomain::I128(0x7fff_ffff),
            ExpressionType::I64 => ConstantDomain::I128(0x7fff_ffff_ffff_ffff),
            ExpressionType::I128 => ConstantDomain::I128(i128::MAX),
            ExpressionType::U8 => ConstantDomain::U128(0xff),
            ExpressionType::U16 => ConstantDomain::U128(0xffff),
            ExpressionType::U32 => ConstantDomain::U128(0xffff_ffff),
            ExpressionType::U64 => ConstantDomain::U128(0xffff_ffff_ffff_ffff),
            ExpressionType::U128 => ConstantDomain::U128(u128::MAX),
            ExpressionType::NonPrimitive | ExpressionType::Reference => ConstantDomain::Bottom,
        }
    }

    /// Returns the least value of this sort.
    pub fn min_value(&self) -> (result: ConstantDomain)
        ensures
            result == self.least_constant(),
    {
        match self {
            ExpressionType::F32 => ConstantDomain::F32(0xff7f_ffff),
            ExpressionType::F64 => ConstantDomain::F64(0xffef_ffff_ffff_ffff),
            ExpressionType::I8 => ConstantDomain::I128(-0x80),
            ExpressionType::I16 => ConstantDomain::I128(-0x8000),
            ExpressionType::I32 => ConstantDomain::I128(-0x8000_0000),
            ExpressionType::I64 => ConstantDomain::I128(-0x8000_0000_0000_0000),
            ExpressionType::I128 => ConstantDomain::I128(i128::MIN),
            ExpressionType::NonPrimitive | ExpressionType::Reference => ConstantDomain::Bottom,
            _ => ConstantDomain::U128(0),
        }
    }

    /// Returns the number of values of this sort as a constant value, where that is
    /// an unsigned integer of 128 bits, else the impossible value.
    pub fn modulo_value(&self) -> (result: Rc<AbstractValue>)
        ensures
            *result == self.modulo(),
            result.within_limit(),
    {
        match self {
            ExpressionType::U8 => AbstractValue::of_u128(0x100),
            ExpressionType::U16 => AbstractValue::of_u128(0x1_0000),
            ExpressionType::U32 => AbstractValue::of_u128(0x1_0000_0000),
            ExpressionType::U64 => AbstractValue::of_u128(0x1_0000_0000_0000_0000),
            _ => AbstractValue::bottom(),
        }
    }
}

impl PartialEq for Expression {
    /// Expressions are equal if they are the same tree.
    fn eq(&self, other: &Self) -> (result: bool) {
        Expression::eq(self, other)
    }
}

impl Eq for Expression {

}

impl PartialEqSpecImpl for Expression {
    open spec fn obeys_eq_spec() -> bool {
        true
    }

    open spec fn eq_spec(&self, other: &Self) -> bool {
        self.same_as(*other)
    }
}

} // verus!
