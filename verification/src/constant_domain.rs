//! Concrete scalar values and the operations that fold them.
//!
//! Every operation is total. Where an operation is not defined on its operands
//! (division by zero, operands of different sorts, a sort the operation does not
//! know) the result is [`ConstantDomain::Bottom`].
//!
//! Floating point constants are kept as the bits of their IEEE 754 encoding.
//! They are compared and negated on those bits; other arithmetic on them is not
//! folded.

use vstd::prelude::*;
use vstd::std_specs::cmp::PartialEqSpecImpl;
use crate::expression::ExpressionType;
use crate::known_names::KnownNames;

verus! {

/// A reference to a function that is known at compile time.
#[derive(Clone, Copy, Debug, PartialEq, Eq, Structural, Hash, PartialOrd, Ord)]
pub struct FunctionReference {
    /// A number that identifies the function among all functions of the analyzed program.
    pub function_id: usize,
    /// The special meaning of the function, if it has one.
    pub known_name: KnownNames,
}

/// A value that is fully known at compile time.
#[derive(Clone, Debug, PartialOrd, Ord)]
pub enum ConstantDomain {
    /// The impossible constant: the result of an operation that is not defined.
    Bottom,
    /// A constant of which nothing is known.
    Top,
    /// The only value of the unit type.
    Unit,
    /// The Boolean value true.
    True,
    /// The Boolean value false.
    False,
    /// A character.
    Char(char),
    /// A signed integer of any width up to 128 bits.
    I128(i128),
    /// An unsigned integer of any width up to 128 bits.
    U128(u128),
    /// The bits of a 32 bit floating point number.
    F32(u32),
    /// The bits of a 64 bit floating point number.
    F64(u64),
    /// A string literal.
    Str(String),
    /// A reference to a function.
    Function(FunctionReference),
}

/// The constant for a Boolean.
pub open spec fn truth(b: bool) -> ConstantDomain {
    if b {
        ConstantDomain::True
    } else {
        ConstantDomain::False
    }
}

/// True if the bits of a 32 bit floating point number encode a NaN.
pub open spec fn f32_nan(bits: u32) -> bool {
    bits % 0x8000_0000 > 0x7f80_0000
}

/// True if the bits of a 64 bit floating point number encode a NaN.
pub open spec fn f64_nan(bits: u64) -> bool {
    bits % 0x8000_0000_0000_0000 > 0x7ff0_0000_0000_0000
}

/// An integer that orders the 32 bit floating point numbers, NaNs excepted, as
/// their values are ordered: the magnitude bits, negated where the sign bit is set.
pub open spec fn f32_key(bits: u32) -> int {
    if bits >= 0x8000_0000 {
        -(bits - 0x8000_0000)
    } else {
        bits as int
    }
}

/// An integer that orders the 64 bit floating point numbers, NaNs excepted, as
/// their values are ordered.
pub open spec fn f64_key(bits: u64) -> int {
    if bits >= 0x8000_0000_0000_0000 {
        -(bits - 0x8000_0000_0000_0000)
    } else {
        bits as int
    }
}

/// True if the sum, difference or product `value` is not a value of the integer
/// sort `target_type`.
pub open spec fn out_of_range(value: int, target_type: ExpressionType) -> bool {
    !(target_type.least() <= value <= target_type.greatest())
}

/// The shift distance that a constant denotes, if it is a non negative integer
/// constant that fits 32 bits.
pub open spec fn shift_distance(c: ConstantDomain) -> Option<u32> {
    match c {
        ConstantDomain::I128(v) => if 0 <= v <= u32::MAX {
            Some(v as u32)
        } else {
            None
        },
        ConstantDomain::U128(v) => if v <= u32::MAX {
            Some(v as u32)
        } else {
            None
        },
        _ => None,
    }
}

impl ConstantDomain {
    /// True if the two constants are the same constant.
    pub open spec fn same_as(self, other: Self) -> bool {
        match (self, other) {
            (ConstantDomain::Bottom, ConstantDomain::Bottom) => true,
            (ConstantDomain::Top, ConstantDomain::Top) => true,
            (ConstantDomain::Unit, ConstantDomain::Unit) => true,
            (ConstantDomain::True, ConstantDomain::True) => true,
            (ConstantDomain::False, ConstantDomain::False) => true,
            (ConstantDomain::Char(a), ConstantDomain::Char(b)) => a == b,
            (ConstantDomain::I128(a), ConstantDomain::I128(b)) => a == b,
            (ConstantDomain::U128(a), ConstantDomain::U128(b)) => a == b,
            (ConstantDomain::F32(a), ConstantDomain::F32(b)) => a == b,
            (ConstantDomain::F64(a), ConstantDomain::F64(b)) => a == b,
            (ConstantDomain::Str(a), ConstantDomain::Str(b)) => a@ == b@,
            (ConstantDomain::Function(a), ConstantDomain::Function(b)) => a == b,
            _ => false,
        }
    }

    /// The Boolean that this constant is, if it is one.
    pub open spec fn known_bool(self) -> Option<bool> {
        match self {
            ConstantDomain::True => Some(true),
            ConstantDomain::False => Some(false),
            _ => None,
        }
    }

    /// The integer that this constant is, if it is an integer constant.
    pub open spec fn known_int(self) -> Option<int> {
        match self {
            ConstantDomain::I128(v) => Some(v as int),
            ConstantDomain::U128(v) => Some(v as int),
            _ => None,
        }
    }

    /// The sort of this constant.
    pub open spec fn sort(self) -> ExpressionType {
        match self {
            ConstantDomain::True | ConstantDomain::False => ExpressionType::Bool,
            ConstantDomain::Char(_) => ExpressionType::U32,
            ConstantDomain::I128(_) => ExpressionType::I128,
            ConstantDomain::U128(_) => ExpressionType::U128,
            ConstantDomain::F32(_) => ExpressionType::F32,
            ConstantDomain::F64(_) => ExpressionType::F64,
            ConstantDomain::Str(_) | ConstantDomain::Function(_) => ExpressionType::Reference,
            _ => ExpressionType::NonPrimitive,
        }
    }

    /// `self + other`, wrapping at 128 bits.
    pub open spec fn sum(self, other: Self) -> Self {
        match (self, other) {
            (ConstantDomain::I128(a), ConstantDomain::I128(b)) => ConstantDomain::I128(
                a.wrapping_add(b),
            ),
            (ConstantDomain::U128(a), ConstantDomain::U128(b)) => ConstantDomain::U128(
                a.wrapping_add(b),
            ),
            _ => ConstantDomain::Bottom,
        }
    }

    /// `self - other`, wrapping at 128 bits.
    pub open spec fn difference(self, other: Self) -> Self {
        match (self, other) {
            (ConstantDomain::I128(a), ConstantDomain::I128(b)) => ConstantDomain::I128(
                a.wrapping_sub(b),
            ),
            (ConstantDomain::U128(a), ConstantDomain::U128(b)) => ConstantDomain::U128(
                a.wrapping_sub(b),
            ),
            _ => ConstantDomain::Bottom,
        }
    }

    /// `self * other`, wrapping at 128 bits.
    pub open spec fn product(self, other: Self) -> Self {
        match (self, other) {
            (ConstantDomain::I128(a), ConstantDomain::I128(b)) => ConstantDomain::I128(
                a.wrapping_mul(b),
            ),
            (ConstantDomain::U128(a), ConstantDomain::U128(b)) => ConstantDomain::U128(
                a.wrapping_mul(b),
            ),
            _ => ConstantDomain::Bottom,
        }
    }

    /// `self / other`, rounded towards zero. Bottom where the divisor is zero or the
    /// quotient is not an `i128`.
    pub open spec fn quotient(self, other: Self) -> Self {
        match (self, other) {
            (ConstantDomain::I128(a), ConstantDomain::I128(b)) => match a.checked_div(b) {
                Some(q) => ConstantDomain::I128(q),
                None => ConstantDomain::Bottom,
            },
            (ConstantDomain::U128(a), ConstantDomain::U128(b)) => if b == 0 {
                ConstantDomain::Bottom
            } else {
                ConstantDomain::U128(a / b)
            },
            _ => ConstantDomain::Bottom,
        }
    }

    /// The remainder of `self / other`, with the sign of `self`. Bottom where the
    /// divisor is zero or the quotient is not an `i128`.
    pub open spec fn modulus(self, other: Self) -> Self {
        match (self, other) {
            (ConstantDomain::I128(a), ConstantDomain::I128(b)) => match a.checked_rem(b) {
                Some(r) => ConstantDomain::I128(r),
                None => ConstantDomain::Bottom,
            },
            (ConstantDomain::U128(a), ConstantDomain::U128(b)) => if b == 0 {
                ConstantDomain::Bottom
            } else {
                ConstantDomain::U128(a % b)
            },
            _ => ConstantDomain::Bottom,
        }
    }

    /// `-self`, wrapping at 128 bits. A floating point number changes its sign bit.
    pub open spec fn negation(self) -> Self {
        match self {
            ConstantDomain::I128(a) => ConstantDomain::I128(0i128.wrapping_sub(a)),
            ConstantDomain::U128(a) => ConstantDomain::U128(0u128.wrapping_sub(a)),
            ConstantDomain::F32(a) => ConstantDomain::F32(
                if a >= 0x8000_0000 {
                    (a - 0x8000_0000) as u32
                } else {
                    (a + 0x8000_0000) as u32
                },
            ),
            ConstantDomain::F64(a) => ConstantDomain::F64(
                if a >= 0x8000_0000_0000_0000 {
                    (a - 0x8000_0000_0000_0000) as u64
                } else {
                    (a + 0x8000_0000_0000_0000) as u64
                },
            ),
            _ => ConstantDomain::Bottom,
        }
    }

    /// `self & other` on integers and on Booleans.
    pub open spec fn conjunction(self, other: Self) -> Self {
        match (self, other) {
            (ConstantDomain::I128(a), ConstantDomain::I128(b)) => ConstantDomain::I128(a & b),
            (ConstantDomain::U128(a), ConstantDomain::U128(b)) => ConstantDomain::U128(a & b),
            _ => match (self.known_bool(), other.known_bool()) {
                (Some(a), Some(b)) => truth(a && b),
                _ => ConstantDomain::Bottom,
            },
        }
    }

    /// `self | other` on integers and on Booleans.
    pub open spec fn disjunction(self, other: Self) -> Self {
        match (self, other) {
            (ConstantDomain::I128(a), ConstantDomain::I128(b)) => ConstantDomain::I128(a | b),
            (ConstantDomain::U128(a), ConstantDomain::U128(b)) => ConstantDomain::U128(a | b),
            _ => match (self.known_bool(), other.known_bool()) {
                (Some(a), Some(b)) => truth(a || b),
                _ => ConstantDomain::Bottom,
            },
        }
    }

    /// `self ^ other` on integers and on Booleans.
    pub open spec fn exclusive_disjunction(self, other: Self) -> Self {
        match (self, other) {
            (ConstantDomain::I128(a), ConstantDomain::I128(b)) => ConstantDomain::I128(a ^ b),
            (ConstantDomain::U128(a), ConstantDomain::U128(b)) => ConstantDomain::U128(a ^ b),
            _ => match (self.known_bool(), other.known_bool()) {
                (Some(a), Some(b)) => truth(a != b),
                _ => ConstantDomain::Bottom,
            },
        }
    }

    /// `!self` on the bits of an integer of sort `result_type`, and on Booleans.
    pub open spec fn complement(self, result_type: ExpressionType) -> Self {
        match self {
            ConstantDomain::I128(a) => ConstantDomain::I128(!a),
            ConstantDomain::U128(a) => match result_type {
                ExpressionType::U8 => ConstantDomain::U128((!(a as u8)) as u128),
                ExpressionType::U16 => ConstantDomain::U128((!(a as u16)) as u128),
                ExpressionType::U32 => ConstantDomain::U128((!(a as u32)) as u128),
                ExpressionType::U64 => ConstantDomain::U128((!(a as u64)) as u128),
                ExpressionType::U128 => ConstantDomain::U128(!a),
                _ => ConstantDomain::Bottom,
            },
            ConstantDomain::True => ConstantDomain::False,
            ConstantDomain::False => ConstantDomain::True,
            _ => ConstantDomain::Bottom,
        }
    }

    /// `!self` for a Boolean.
    pub open spec fn inverse(self) -> Self {
        match self {
            ConstantDomain::True => ConstantDomain::False,
            ConstantDomain::False => ConstantDomain::True,
            _ => ConstantDomain::Bottom,
        }
    }

    /// The integer `v`, given modulo two to the power 128, as a constant of the
    /// integer sort `target_type`: the low bits of `v` that the sort has room for.
    pub open spec fn truncated(v: u128, target_type: ExpressionType) -> Self {
        match target_type {
            ExpressionType::U8 => ConstantDomain::U128((v as u8) as u128),
            ExpressionType::U16 => ConstantDomain::U128((v as u16) as u128),
            ExpressionType::U32 => ConstantDomain::U128((v as u32) as u128),
            ExpressionType::U64 => ConstantDomain::U128((v as u64) as u128),
            ExpressionType::U128 => ConstantDomain::U128(v),
            ExpressionType::I8 => ConstantDomain::I128((v as i8) as i128),
            ExpressionType::I16 => ConstantDomain::I128((v as i16) as i128),
            ExpressionType::I32 => ConstantDomain::I128((v as i32) as i128),
            ExpressionType::I64 => ConstantDomain::I128((v as i64) as i128),
            ExpressionType::I128 => ConstantDomain::I128(v as i128),
            _ => ConstantDomain::Bottom,
        }
    }

    /// `self as target_type` for integers, characters and Booleans cast to an
    /// integer sort; a Boolean cast to Bool stays as it is.
    pub open spec fn converted(self, target_type: ExpressionType) -> Self {
        match self {
            ConstantDomain::I128(v) => Self::truncated(v as u128, target_type),
            ConstantDomain::U128(v) => Self::truncated(v, target_type),
            ConstantDomain::Char(c) => Self::truncated(c as u128, target_type),
            ConstantDomain::True => if target_type is Bool {
                self
            } else {
                Self::truncated(1, target_type)
            },
            ConstantDomain::False => if target_type is Bool {
                self
            } else {
                Self::truncated(0, target_type)
            },
            _ => ConstantDomain::Bottom,
        }
    }

    /// `self == other`. Floating point numbers are equal if neither is a NaN and they
    /// have the same bits or are both zero.
    pub open spec fn equality(self, other: Self) -> Self {
        match (self, other) {
            (ConstantDomain::F32(a), ConstantDomain::F32(b)) => truth(
                !f32_nan(a) && !f32_nan(b) && f32_key(a) == f32_key(b),
            ),
            (ConstantDomain::F64(a), ConstantDomain::F64(b)) => truth(
                !f64_nan(a) && !f64_nan(b) && f64_key(a) == f64_key(b),
            ),
            _ => truth(self.same_as(other)),
        }
    }

    /// `self != other`: the inverse of [`Self::equality`].
    pub open spec fn inequality(self, other: Self) -> Self {
        self.equality(other).inverse()
    }

    /// `self < other` on two integers of the same signedness or two floating point
    /// numbers of the same width.
    pub open spec fn below(self, other: Self) -> Self {
        match (self, other) {
            (ConstantDomain::I128(a), ConstantDomain::I128(b)) => truth(a < b),
            (ConstantDomain::U128(a), ConstantDomain::U128(b)) => truth(a < b),
            (ConstantDomain::F32(a), ConstantDomain::F32(b)) => truth(
                !f32_nan(a) && !f32_nan(b) && f32_key(a) < f32_key(b),
            ),
            (ConstantDomain::F64(a), ConstantDomain::F64(b)) => truth(
                !f64_nan(a) && !f64_nan(b) && f64_key(a) < f64_key(b),
            ),
            _ => ConstantDomain::Bottom,
        }
    }

    /// `self <= other` on two integers of the same signedness or two floating point
    /// numbers of the same width.
    pub open spec fn at_most(self, other: Self) -> Self {
        match (self, other) {
            (ConstantDomain::I128(a), ConstantDomain::I128(b)) => truth(a <= b),
            (ConstantDomain::U128(a), ConstantDomain::U128(b)) => truth(a <= b),
            (ConstantDomain::F32(a), ConstantDomain::F32(b)) => truth(
                !f32_nan(a) && !f32_nan(b) && f32_key(a) <= f32_key(b),
            ),
            (ConstantDomain::F64(a), ConstantDomain::F64(b)) => truth(
                !f64_nan(a) && !f64_nan(b) && f64_key(a) <= f64_key(b),
            ),
            _ => ConstantDomain::Bottom,
        }
    }

    /// `self << other`, wrapping the shift distance at 128.
    pub open spec fn shifted_left(self, other: Self) -> Self {
        match (self, shift_distance(other)) {
            (ConstantDomain::I128(a), Some(d)) => ConstantDomain::I128(a.wrapping_shl(d)),
            (ConstantDomain::U128(a), Some(d)) => ConstantDomain::U128(a.wrapping_shl(d)),
            _ => ConstantDomain::Bottom,
        }
    }

    /// `self >> other`, wrapping the shift distance at 128.
    pub open spec fn shifted_right(self, other: Self) -> Self {
        match (self, shift_distance(other)) {
            (ConstantDomain::I128(a), Some(d)) => ConstantDomain::I128(a.wrapping_shr(d)),
            (ConstantDomain::U128(a), Some(d)) => ConstantDomain::U128(a.wrapping_shr(d)),
            _ => ConstantDomain::Bottom,
        }
    }

    /// True if shifting an integer of sort `target_type` by `other` shifts all its
    /// bits away: the distance is at least the width of the sort.
    pub open spec fn shift_overflows(self, other: Self, target_type: ExpressionType) -> Self {
        if !(self is I128 || self is U128) || !target_type.integer() {
            ConstantDomain::Bottom
        } else {
            match other.known_int() {
                Some(d) => truth(d < 0 || d >= target_type.width()),
                None => ConstantDomain::Bottom,
            }
        }
    }

    /// The integers `a` and `b` that the operands of an overflow check denote, where
    /// both have the signedness of the integer sort `target_type`.
    pub open spec fn operands(self, other: Self, target_type: ExpressionType) -> Option<
        (int, int),
    > {
        match (self, other) {
            (ConstantDomain::I128(a), ConstantDomain::I128(b)) => if target_type.signed_integer() {
                Some((a as int, b as int))
            } else {
                None
            },
            (ConstantDomain::U128(a), ConstantDomain::U128(b)) => if target_type.unsigned_integer() {
                Some((a as int, b as int))
            } else {
                None
            },
            _ => None,
        }
    }

    /// True if `self + other` is not a value of the integer sort `target_type`.
    pub open spec fn sum_overflows(self, other: Self, target_type: ExpressionType) -> Self {
        match self.operands(other, target_type) {
            Some((a, b)) => truth(out_of_range(a + b, target_type)),
            None => ConstantDomain::Bottom,
        }
    }

    /// True if `self - other` is not a value of the integer sort `target_type`.
    pub open spec fn difference_overflows(self, other: Self, target_type: ExpressionType) -> Self {
        match self.operands(other, target_type) {
            Some((a, b)) => truth(out_of_range(a - b, target_type)),
            None => ConstantDomain::Bottom,
        }
    }

    /// True if `self * other` is not a value of the integer sort `target_type`.
    pub open spec fn product_overflows(self, other: Self, target_type: ExpressionType) -> Self {
        match self.operands(other, target_type) {
            Some((a, b)) => truth(out_of_range(a * b, target_type)),
            None => ConstantDomain::Bottom,
        }
    }
}

fn f32_is_nan(bits: u32) -> (result: bool)
    ensures
        result == f32_nan(bits),
{
    bits % 0x8000_0000 > 0x7f80_0000
}

fn f64_is_nan(bits: u64) -> (result: bool)
    ensures
        result == f64_nan(bits),
{
    bits % 0x8000_0000_0000_0000 > 0x7ff0_0000_0000_0000
}

fn f32_order_key(bits: u32) -> (result: i64)
    ensures
        result == f32_key(bits),
{
    if bits >= 0x8000_0000 {
        -((bits - 0x8000_0000) as i64)
    } else {
        bits as i64
    }
}

fn f64_order_key(bits: u64) -> (result: i128)
    ensures
        result == f64_key(bits),
{
    if bits >= 0x8000_0000_0000_0000 {
        -((bits - 0x8000_0000_0000_0000) as i128)
    } else {
        bits as i128
    }
}

fn in_range_signed(value: i128, target_type: &ExpressionType) -> (result: bool)
    requires
        target_type.signed_integer(),
    ensures
        result == !out_of_range(value as int, *target_type),
{
    match target_type {
        ExpressionType::I8 => -0x80 <= value && value <= 0x7f,
        ExpressionType::I16 => -0x8000 <= value && value <= 0x7fff,
        ExpressionType::I32 => -0x8000_0000 <= value && value <= 0x7fff_ffff,
        ExpressionType::I64 => -0x8000_0000_0000_0000 <= value && value <= 0x7fff_ffff_ffff_ffff,
        _ => true,
    }
}

fn in_range_unsigned(value: u128, target_type: &ExpressionType) -> (result: bool)
    requires
        target_type.unsigned_integer(),
    ensures
        result == !out_of_range(value as int, *target_type),
{
    match target_type {
        ExpressionType::U8 => value <= 0xff,
        ExpressionType::U16 => value <= 0xffff,
        ExpressionType::U32 => value <= 0xffff_ffff,
        ExpressionType::U64 => value <= 0xffff_ffff_ffff_ffff,
        _ => true,
    }
}

fn truncate(v: u128, target_type: &ExpressionType) -> (result: ConstantDomain)
    ensures
        result == ConstantDomain::truncated(v, *target_type),
{
    match target_type {
        ExpressionType::U8 => ConstantDomain::U128((#[verifier::truncate] (v as u8)) as u128),
        ExpressionType::U16 => ConstantDomain::U128((#[verifier::truncate] (v as u16)) as u128),
        ExpressionType::U32 => ConstantDomain::U128((#[verifier::truncate] (v as u32)) as u128),
        ExpressionType::U64 => ConstantDomain::U128((#[verifier::truncate] (v as u64)) as u128),
        ExpressionType::U128 => ConstantDomain::U128(v),
        ExpressionType::I8 => ConstantDomain::I128((#[verifier::truncate] (v as i8)) as i128),
        ExpressionType::I16 => ConstantDomain::I128((#[verifier::truncate] (v as i16)) as i128),
        ExpressionType::I32 => ConstantDomain::I128((#[verifier::truncate] (v as i32)) as i128),
        ExpressionType::I64 => ConstantDomain::I128((#[verifier::truncate] (v as i64)) as i128),
        ExpressionType::I128 => ConstantDomain::I128(#[verifier::truncate] (v as i128)),
        _ => ConstantDomain::Bottom,
    }
}

impl ConstantDomain {
    /// Returns the constant for a Boolean.
    pub fn of_bool(b: bool) -> (result: Self)
        ensures
            result == truth(b),
    {
        if b {
            ConstantDomain::True
        } else {
            ConstantDomain::False
        }
    }

    /// Returns true if the two constants are the same constant.
    pub fn eq(&self, other: &Self) -> (result: bool)
        ensures
            result == self.same_as(*other),
    {
        match (self, other) {
            (ConstantDomain::Bottom, ConstantDomain::Bottom) => true,
            (ConstantDomain::Top, ConstantDomain::Top) => true,
            (ConstantDomain::Unit, ConstantDomain::Unit) => true,
            (ConstantDomain::True, ConstantDomain::True) => true,
            (ConstantDomain::False, ConstantDomain::False) => true,
            (ConstantDomain::Char(a), ConstantDomain::Char(b)) => *a == *b,
            (ConstantDomain::I128(a), ConstantDomain::I128(b)) => *a == *b,
            (ConstantDomain::U128(a), ConstantDomain::U128(b)) => *a == *b,
            (ConstantDomain::F32(a), ConstantDomain::F32(b)) => *a == *b,
            (ConstantDomain::F64(a), ConstantDomain::F64(b)) => *a == *b,
            (ConstantDomain::Str(a), ConstantDomain::Str(b)) => *a == *b,
            (ConstantDomain::Function(a), ConstantDomain::Function(b)) => a.function_id
                == b.function_id && a.known_name == b.known_name,
            _ => false,
        }
    }

    /// Returns true if this is the impossible constant.
    pub fn is_bottom(&self) -> (result: bool)
        ensures
            result == (*self is Bottom),
    {
        matches!(self, ConstantDomain::Bottom)
    }

    /// Returns the Boolean that this constant is, if it is one.
    pub fn as_bool_if_known(&self) -> (result: Option<bool>)
        ensures
            result == self.known_bool(),
    {
        match self {
            ConstantDomain::True => Some(true),
            ConstantDomain::False => Some(false),
            _ => None,
        }
    }

    /// Returns true if this is the integer one.
    pub fn is_one(&self) -> (result: bool)
        ensures
            result == (self.known_int() == Some(1int)),
    {
        match self {
            ConstantDomain::I128(v) => *v == 1,
            ConstantDomain::U128(v) => *v == 1,
            _ => false,
        }
    }

    /// Returns true if this is the integer zero.
    pub fn is_zero(&self) -> (result: bool)
        ensures
            result == (self.known_int() == Some(0int)),
    {
        match self {
            ConstantDomain::I128(v) => *v == 0,
            ConstantDomain::U128(v) => *v == 0,
            _ => false,
        }
    }

    /// Returns the sort of this constant.
    pub fn infer_type(&self) -> (result: ExpressionType)
        ensures
            result == self.sort(),
    {
        match self {
            ConstantDomain::True | ConstantDomain::False => ExpressionType::Bool,
            ConstantDomain::Char(_) => ExpressionType::U32,
            ConstantDomain::I128(_) => ExpressionType::I128,
            ConstantDomain::U128(_) => ExpressionType::U128,
            ConstantDomain::F32(_) => ExpressionType::F32,
            ConstantDomain::F64(_) => ExpressionType::F64,
            ConstantDomain::Str(_) | ConstantDomain::Function(_) => ExpressionType::Reference,
            _ => ExpressionType::NonPrimitive,
        }
    }

    /// Returns a constant that is `self + other`.
    pub fn add(&self, other: &Self) -> (result: Self)
        ensures
            result == self.sum(*other),
    {
        match (self, other) {
            (ConstantDomain::I128(a), ConstantDomain::I128(b)) => ConstantDomain::I128(
                a.wrapping_add(*b),
            ),
            (ConstantDomain::U128(a), ConstantDomain::U128(b)) => ConstantDomain::U128(
                a.wrapping_add(*b),
            ),
            _ => ConstantDomain::Bottom,
        }
    }

    /// Returns a constant that is `self - other`.
    pub fn sub(&self, other: &Self) -> (result: Self)
        ensures
            result == self.difference(*other),
    {
        match (self, other) {
            (ConstantDomain::I128(a), ConstantDomain::I128(b)) => ConstantDomain::I128(
                a.wrapping_sub(*b),
            ),
            (ConstantDomain::U128(a), ConstantDomain::U128(b)) => ConstantDomain::U128(
                a.wrapping_sub(*b),
            ),
            _ => ConstantDomain::Bottom,
        }
    }

    /// Returns a constant that is `self * other`.
    pub fn mul(&self, other: &Self) -> (result: Self)
        ensures
            result == self.product(*other),
    {
        match (self, other) {
            (ConstantDomain::I128(a), ConstantDomain::I128(b)) => ConstantDomain::I128(
                a.wrapping_mul(*b),
            ),
            (ConstantDomain::U128(a), ConstantDomain::U128(b)) => ConstantDomain::U128(
                a.wrapping_mul(*b),
            ),
            _ => ConstantDomain::Bottom,
        }
    }

    /// Returns a constant that is `self / other`.
    pub fn div(&self, other: &Self) -> (result: Self)
        ensures
            result == self.quotient(*other),
    {
        match (self, other) {
            (ConstantDomain::I128(a), ConstantDomain::I128(b)) => match a.checked_div(*b) {
                Some(q) => ConstantDomain::I128(q),
                None => ConstantDomain::Bottom,
            },
            (ConstantDomain::U128(a), ConstantDomain::U128(b)) => if *b == 0 {
                ConstantDomain::Bottom
            } else {
                ConstantDomain::U128(*a / *b)
            },
            _ => ConstantDomain::Bottom,
        }
    }

    /// Returns a constant that is `self % other`.
    pub fn rem(&self, other: &Self) -> (result: Self)
        ensures
            result == self.modulus(*other),
    {
        match (self, other) {
            (ConstantDomain::I128(a), ConstantDomain::I128(b)) => match a.checked_rem(*b) {
                Some(r) => ConstantDomain::I128(r),
                None => ConstantDomain::Bottom,
            },
            (ConstantDomain::U128(a), ConstantDomain::U128(b)) => if *b == 0 {
                ConstantDomain::Bottom
            } else {
                ConstantDomain::U128(*a % *b)
            },
            _ => ConstantDomain::Bottom,
        }
    }

    /// Returns a constant that is `-self`.
    pub fn neg(&self) -> (result: Self)
        ensures
            result == self.negation(),
    {
        match self {
            ConstantDomain::I128(a) => ConstantDomain::I128(0i128.wrapping_sub(*a)),
            ConstantDomain::U128(a) => ConstantDomain::U128(0u128.wrapping_sub(*a)),
            ConstantDomain::F32(a) => ConstantDomain::F32(
                if *a >= 0x8000_0000 {
                    *a - 0x8000_0000
                } else {
                    *a + 0x8000_0000
                },
            ),
            ConstantDomain::F64(a) => ConstantDomain::F64(
                if *a >= 0x8000_0000_0000_0000 {
                    *a - 0x8000_0000_0000_0000
                } else {
                    *a + 0x8000_0000_0000_0000
                },
            ),
            _ => ConstantDomain::Bottom,
        }
    }

    /// Returns a constant that is `self & other`.
    pub fn bit_and(&self, other: &Self) -> (result: Self)
        ensures
            result == self.conjunction(*other),
    {
        match (self, other) {
            (ConstantDomain::I128(a), ConstantDomain::I128(b)) => ConstantDomain::I128(*a & *b),
            (ConstantDomain::U128(a), ConstantDomain::U128(b)) => ConstantDomain::U128(*a & *b),
            _ => match (self.as_bool_if_known(), other.as_bool_if_known()) {
                (Some(a), Some(b)) => Self::of_bool(a && b),
                _ => ConstantDomain::Bottom,
            },
        }
    }

    /// Returns a constant that is `self | other`.
    pub fn bit_or(&self, other: &Self) -> (result: Self)
        ensures
            result == self.disjunction(*other),
    {
        match (self, other) {
            (ConstantDomain::I128(a), ConstantDomain::I128(b)) => ConstantDomain::I128(*a | *b),
            (ConstantDomain::U128(a), ConstantDomain::U128(b)) => ConstantDomain::U128(*a | *b),
            _ => match (self.as_bool_if_known(), other.as_bool_if_known()) {
                (Some(a), Some(b)) => Self::of_bool(a || b),
                _ => ConstantDomain::Bottom,
            },
        }
    }

    /// Returns a constant that is `self ^ other`.
    pub fn bit_xor(&self, other: &Self) -> (result: Self)
        ensures
            result == self.exclusive_disjunction(*other),
    {
        match (self, other) {
            (ConstantDomain::I128(a), ConstantDomain::I128(b)) => ConstantDomain::I128(*a ^ *b),
            (ConstantDomain::U128(a), ConstantDomain::U128(b)) => ConstantDomain::U128(*a ^ *b),
            _ => match (self.as_bool_if_known(), other.as_bool_if_known()) {
                (Some(a), Some(b)) => Self::of_bool(a != b),
                _ => ConstantDomain::Bottom,
            },
        }
    }

    /// Returns a constant that is `!self`, where `self` is an integer of sort
    /// `result_type` or a Boolean.
    pub fn bit_not(&self, result_type: ExpressionType) -> (result: Self)
        ensures
            result == self.complement(result_type),
    {
        match self {
            ConstantDomain::I128(a) => ConstantDomain::I128(!*a),
            ConstantDomain::U128(a) => match result_type {
                ExpressionType::U8 => ConstantDomain::U128(
                    (!(#[verifier::truncate] (*a as u8))) as u128,
                ),
                ExpressionType::U16 => ConstantDomain::U128(
                    (!(#[verifier::truncate] (*a as u16))) as u128,
                ),
                ExpressionType::U32 => ConstantDomain::U128(
                    (!(#[verifier::truncate] (*a as u32))) as u128,
                ),
                ExpressionType::U64 => ConstantDomain::U128(
                    (!(#[verifier::truncate] (*a as u64))) as u128,
                ),
                ExpressionType::U128 => ConstantDomain::U128(!*a),
                _ => ConstantDomain::Bottom,
            },
            ConstantDomain::True => ConstantDomain::False,
            ConstantDomain::False => ConstantDomain::True,
            _ => ConstantDomain::Bottom,
        }
    }

    /// Returns a constant that is `!self`, where `self` is a Boolean.
    pub fn logical_not(&self) -> (result: Self)
        ensures
            result == self.inverse(),
    {
        match self {
            ConstantDomain::True => ConstantDomain::False,
            ConstantDomain::False => ConstantDomain::True,
            _ => ConstantDomain::Bottom,
        }
    }

    /// Returns a constant that is `self as target_type`.
    pub fn cast(&self, target_type: &ExpressionType) -> (result: Self)
        ensures
            result == self.converted(*target_type),
    {
        match self {
            ConstantDomain::I128(v) => truncate(#[verifier::truncate] (*v as u128), target_type),
            ConstantDomain::U128(v) => truncate(*v, target_type),
            ConstantDomain::Char(c) => truncate(*c as u128, target_type),
            ConstantDomain::True => if matches!(target_type, ExpressionType::Bool) {
                ConstantDomain::True
            } else {
                truncate(1, target_type)
            },
            ConstantDomain::False => if matches!(target_type, ExpressionType::Bool) {
                ConstantDomain::False
            } else {
                truncate(0, target_type)
            },
            _ => ConstantDomain::Bottom,
        }
    }

    /// Returns a constant that is `self == other`.
    pub fn equals(&self, other: &Self) -> (result: Self)
        ensures
            result == self.equality(*other),
    {
        match (self, other) {
            (ConstantDomain::F32(a), ConstantDomain::F32(b)) => Self::of_bool(
                !f32_is_nan(*a) && !f32_is_nan(*b) && f32_order_key(*a) == f32_order_key(*b),
            ),
            (ConstantDomain::F64(a), ConstantDomain::F64(b)) => Self::of_bool(
                !f64_is_nan(*a) && !f64_is_nan(*b) && f64_order_key(*a) == f64_order_key(*b),
            ),
            _ => Self::of_bool(self.eq(other)),
        }
    }

    /// Returns a constant that is `self != other`.
    pub fn not_equals(&self, other: &Self) -> (result: Self)
        ensures
            result == self.inequality(*other),
    {
        self.equals(other).logical_not()
    }

    /// Returns a constant that is `self < other`.
    pub fn less_than(&self, other: &Self) -> (result: Self)
        ensures
            result == self.below(*other),
    {
        match (self, other) {
            (ConstantDomain::I128(a), ConstantDomain::I128(b)) => Self::of_bool(*a < *b),
            (ConstantDomain::U128(a), ConstantDomain::U128(b)) => Self::of_bool(*a < *b),
            (ConstantDomain::F32(a), ConstantDomain::F32(b)) => Self::of_bool(
                !f32_is_nan(*a) && !f32_is_nan(*b) && f32_order_key(*a) < f32_order_key(*b),
            ),
            (ConstantDomain::F64(a), ConstantDomain::F64(b)) => Self::of_bool(
                !f64_is_nan(*a) && !f64_is_nan(*b) && f64_order_key(*a) < f64_order_key(*b),
            ),
            _ => ConstantDomain::Bottom,
        }
    }

    /// Returns a constant that is `self <= other`.
    pub fn less_or_equal(&self, other: &Self) -> (result: Self)
        ensures
            result == self.at_most(*other),
    {
        match (self, other) {
            (ConstantDomain::I128(a), ConstantDomain::I128(b)) => Self::of_bool(*a <= *b),
            (ConstantDomain::U128(a), ConstantDomain::U128(b)) => Self::of_bool(*a <= *b),
            (ConstantDomain::F32(a), ConstantDomain::F32(b)) => Self::of_bool(
                !f32_is_nan(*a) && !f32_is_nan(*b) && f32_order_key(*a) <= f32_order_key(*b),
            ),
            (ConstantDomain::F64(a), ConstantDomain::F64(b)) => Self::of_bool(
                !f64_is_nan(*a) && !f64_is_nan(*b) && f64_order_key(*a) <= f64_order_key(*b),
            ),
            _ => ConstantDomain::Bottom,
        }
    }

    /// Returns a constant that is `self > other`.
    pub fn greater_than(&self, other: &Self) -> (result: Self)
        ensures
            result == other.below(*self),
    {
        other.less_than(self)
    }

    /// Returns a constant that is `self >= other`.
    pub fn greater_or_equal(&self, other: &Self) -> (result: Self)
        ensures
            result == other.at_most(*self),
    {
        other.less_or_equal(self)
    }

    fn as_shift_distance(&self) -> (result: Option<u32>)
        ensures
            result == shift_distance(*self),
    {
        match self {
            ConstantDomain::I128(v) => if 0 <= *v && *v <= 0xffff_ffff {
                Some(*v as u32)
            } else {
                None
            },
            ConstantDomain::U128(v) => if *v <= 0xffff_ffff {
                Some(*v as u32)
            } else {
                None
            },
            _ => None,
        }
    }

    /// Returns a constant that is `self << other`.
    pub fn shl(&self, other: &Self) -> (result: Self)
        ensures
            result == self.shifted_left(*other),
    {
        match (self, other.as_shift_distance()) {
            (ConstantDomain::I128(a), Some(d)) => ConstantDomain::I128(a.wrapping_shl(d)),
            (ConstantDomain::U128(a), Some(d)) => ConstantDomain::U128(a.wrapping_shl(d)),
            _ => ConstantDomain::Bottom,
        }
    }

    /// Returns a constant that is `self >> other`.
    pub fn shr(&self, other: &Self) -> (result: Self)
        ensures
            result == self.shifted_right(*other),
    {
        match (self, other.as_shift_distance()) {
            (ConstantDomain::I128(a), Some(d)) => ConstantDomain::I128(a.wrapping_shr(d)),
            (ConstantDomain::U128(a), Some(d)) => ConstantDomain::U128(a.wrapping_shr(d)),
            _ => ConstantDomain::Bottom,
        }
    }

    /// Returns a constant that is true if `self << other` shifts away all bits of a
    /// value of sort `target_type`.
    pub fn shl_overflows(&self, other: &Self, target_type: &ExpressionType) -> (result: Self)
        ensures
            result == self.shift_overflows(*other, *target_type),
    {
        if !matches!(self, ConstantDomain::I128(_) | ConstantDomain::U128(_))
            || !target_type.is_integer() {
            return ConstantDomain::Bottom;
        }
        let width: u8 = target_type.bit_length();
        match other {
            ConstantDomain::I128(d) => Self::of_bool(*d < 0 || *d >= width as i128),
            ConstantDomain::U128(d) => Self::of_bool(*d >= width as u128),
            _ => ConstantDomain::Bottom,
        }
    }

    /// Returns a constant that is true if `self >> other` shifts away all bits of a
    /// value of sort `target_type`.
    pub fn shr_overflows(&self, other: &Self, target_type: &ExpressionType) -> (result: Self)
        ensures
            result == self.shift_overflows(*other, *target_type),
    {
        self.shl_overflows(other, target_type)
    }

    /// Returns a constant that is true if `self + other` is out of range for
    /// `target_type`.
    pub fn add_overflows(&self, other: &Self, target_type: &ExpressionType) -> (result: Self)
        ensures
            result == self.sum_overflows(*other, *target_type),
    {
        match (self, other) {
            (ConstantDomain::I128(a), ConstantDomain::I128(b)) => {
                if !target_type.is_signed_integer() {
                    return ConstantDomain::Bottom;
                }
                match a.checked_add(*b) {
                    Some(sum) => Self::of_bool(!in_range_signed(sum, target_type)),
                    None => ConstantDomain::True,
                }
            },
            (ConstantDomain::U128(a), ConstantDomain::U128(b)) => {
                if !target_type.is_unsigned_integer() {
                    return ConstantDomain::Bottom;
                }
                match a.checked_add(*b) {
                    Some(sum) => Self::of_bool(!in_range_unsigned(sum, target_type)),
                    None => ConstantDomain::True,
                }
            },
            _ => ConstantDomain::Bottom,
        }
    }

    /// Returns a constant that is true if `self - other` is out of range for
    /// `target_type`.
    pub fn sub_overflows(&self, other: &Self, target_type: &ExpressionType) -> (result: Self)
        ensures
            result == self.difference_overflows(*other, *target_type),
    {
        match (self, other) {
            (ConstantDomain::I128(a), ConstantDomain::I128(b)) => {
                if !target_type.is_signed_integer() {
                    return ConstantDomain::Bottom;
                }
                match a.checked_sub(*b) {
                    Some(difference) => Self::of_bool(!in_range_signed(difference, target_type)),
                    None => ConstantDomain::True,
                }
            },
            (ConstantDomain::U128(a), ConstantDomain::U128(b)) => {
                if !target_type.is_unsigned_integer() {
                    return ConstantDomain::Bottom;
                }
                match a.checked_sub(*b) {
                    Some(difference) => Self::of_bool(!in_range_unsigned(difference, target_type)),
                    None => ConstantDomain::True,
                }
            },
            _ => ConstantDomain::Bottom,
        }
    }

    /// Returns a constant that is true if `self * other` is out of range for
    /// `target_type`.
    pub fn mul_overflows(&self, other: &Self, target_type: &ExpressionType) -> (result: Self)
        ensures
            result == self.product_overflows(*other, *target_type),
    {
        match (self, other) {
            (ConstantDomain::I128(a), ConstantDomain::I128(b)) => {
                if !target_type.is_signed_integer() {
                    return ConstantDomain::Bottom;
                }
                match a.checked_mul(*b) {
                    Some(product) => Self::of_bool(!in_range_signed(product, target_type)),
                    None => ConstantDomain::True,
                }
            },
            (ConstantDomain::U128(a), ConstantDomain::U128(b)) => {
                if !target_type.is_unsigned_integer() {
                    return ConstantDomain::Bottom;
                }
                match a.checked_mul(*b) {
                    Some(product) => Self::of_bool(!in_range_unsigned(product, target_type)),
                    None => ConstantDomain::True,
                }
            },
            _ => ConstantDomain::Bottom,
        }
    }
}

/// The number of bits that are set among the low `bits` bits of `v`.
pub open spec fn ones(v: nat, bits: nat) -> nat
    decreases bits,
{
    if bits == 0 {
        0
    } else {
        (v % 2) + ones(v / 2, (bits - 1) as nat)
    }
}

/// The number of zero bits below the lowest bit that is set among the low `bits`
/// bits of `v`: `bits` itself where none of them is set.
pub open spec fn zeros_below(v: nat, bits: nat) -> nat
    decreases bits,
{
    if bits == 0 || v % 2 == 1 {
        0
    } else {
        1 + zeros_below(v / 2, (bits - 1) as nat)
    }
}

/// The number of bits of `v` up to its highest bit that is set.
pub open spec fn significant_bits(v: nat) -> nat
    decreases v,
{
    if v == 0 {
        0
    } else {
        1 + significant_bits(v / 2)
    }
}

/// The low `bits` bits of `v` in reverse order, put above the bits of `above`.
pub open spec fn reversed(v: u128, bits: nat, above: u128) -> u128
    decreases bits,
{
    if bits == 0 {
        above
    } else {
        reversed(v / 2, (bits - 1) as nat, above.wrapping_mul(2).wrapping_add(v % 2))
    }
}

/// The low `bytes` bytes of `v` in reverse order, put above the bytes of `above`.
pub open spec fn swapped(v: u128, bytes: nat, above: u128) -> u128
    decreases bytes,
{
    if bytes == 0 {
        above
    } else {
        swapped(v / 256, (bytes - 1) as nat, above.wrapping_mul(256).wrapping_add(v % 256))
    }
}

/// True if `bit_length` is the width of an integer sort.
pub open spec fn integer_width(bit_length: u8) -> bool {
    bit_length == 8 || bit_length == 16 || bit_length == 32 || bit_length == 64 || bit_length
        == 128
}

fn count_ones(v: u128, bits: u8) -> (result: u128)
    ensures
        result == ones(v as nat, bits as nat),
        result <= bits,
    decreases bits,
{
    if bits == 0 {
        0
    } else {
        (v % 2) + count_ones(v / 2, bits - 1)
    }
}

fn count_zeros_below(v: u128, bits: u8) -> (result: u128)
    ensures
        result == zeros_below(v as nat, bits as nat),
        result <= bits,
    decreases bits,
{
    if bits == 0 || v % 2 == 1 {
        0
    } else {
        1 + count_zeros_below(v / 2, bits - 1)
    }
}

fn count_significant_bits(v: u128, limit: u8) -> (result: u8)
    ensures
        significant_bits(v as nat) <= limit ==> result == significant_bits(v as nat),
        significant_bits(v as nat) > limit ==> result == limit,
    decreases limit,
{
    if v == 0 || limit == 0 {
        proof {
            if v != 0 {
                assert(significant_bits(v as nat) > 0);
            }
        }
        0
    } else {
        1 + count_significant_bits(v / 2, limit - 1)
    }
}

fn reverse_bits(v: u128, bits: u8, above: u128) -> (result: u128)
    ensures
        result == reversed(v, bits as nat, above),
    decreases bits,
{
    if bits == 0 {
        above
    } else {
        reverse_bits(v / 2, bits - 1, above.wrapping_mul(2).wrapping_add(v % 2))
    }
}

fn swap_bytes(v: u128, bytes: u8, above: u128) -> (result: u128)
    ensures
        result == swapped(v, bytes as nat, above),
    decreases bytes,
{
    if bytes == 0 {
        above
    } else {
        swap_bytes(v / 256, bytes - 1, above.wrapping_mul(256).wrapping_add(v % 256))
    }
}

impl ConstantDomain {
    /// The result of the intrinsic function `name` on the unsigned integer `self`
    /// of `bit_length` bits: the impossible constant where `self` is no such integer
    /// or the function is not one of the bit vector functions, or is not defined on
    /// `self`.
    pub open spec fn bit_vector_intrinsic(self, bit_length: u8, name: KnownNames) -> Self {
        match self {
            ConstantDomain::U128(v) => if !integer_width(bit_length) || significant_bits(v as nat)
                > bit_length {
                ConstantDomain::Bottom
            } else {
                match name {
                    KnownNames::StdIntrinsicsBitreverse => ConstantDomain::U128(
                        reversed(v, bit_length as nat, 0),
                    ),
                    KnownNames::StdIntrinsicsBswap => ConstantDomain::U128(
                        swapped(v, (bit_length / 8) as nat, 0),
                    ),
                    KnownNames::StdIntrinsicsCtlz => ConstantDomain::U128(
                        (bit_length - significant_bits(v as nat)) as u128,
                    ),
                    KnownNames::StdIntrinsicsCtlzNonzero => if v == 0 {
                        ConstantDomain::Bottom
                    } else {
                        ConstantDomain::U128((bit_length - significant_bits(v as nat)) as u128)
                    },
                    KnownNames::StdIntrinsicsCtpop => ConstantDomain::U128(
                        ones(v as nat, bit_length as nat) as u128,
                    ),
                    KnownNames::StdIntrinsicsCttz => ConstantDomain::U128(
                        zeros_below(v as nat, bit_length as nat) as u128,
                    ),
                    KnownNames::StdIntrinsicsCttzNonzero => if v == 0 {
                        ConstantDomain::Bottom
                    } else {
                        ConstantDomain::U128(zeros_below(v as nat, bit_length as nat) as u128)
                    },
                    _ => ConstantDomain::Bottom,
                }
            },
            _ => ConstantDomain::Bottom,
        }
    }

    /// Returns a constant that is the result of the intrinsic bit vector function
    /// `name` on the low `bit_length` bits of `self`.
    pub fn intrinsic_bit_vector_unary(&self, bit_length: u8, name: KnownNames) -> (result: Self)
        ensures
            result == self.bit_vector_intrinsic(bit_length, name),
    {
        let v: u128 = match self {
            ConstantDomain::U128(v) => *v,
            _ => {
                return ConstantDomain::Bottom;
            },
        };
        if !(bit_length == 8 || bit_length == 16 || bit_length == 32 || bit_length == 64
            || bit_length == 128) {
            return ConstantDomain::Bottom;
        }
        let length: u8 = count_significant_bits(v, 129);
        if length > bit_length {
            return ConstantDomain::Bottom;
        }
        match name {
            KnownNames::StdIntrinsicsBitreverse => ConstantDomain::U128(
                reverse_bits(v, bit_length, 0),
            ),
            KnownNames::StdIntrinsicsBswap => ConstantDomain::U128(swap_bytes(v, bit_length / 8, 0)),
            KnownNames::StdIntrinsicsCtlz => ConstantDomain::U128((bit_length - length) as u128),
            KnownNames::StdIntrinsicsCtlzNonzero => if v == 0 {
                ConstantDomain::Bottom
            } else {
                ConstantDomain::U128((bit_length - length) as u128)
            },
            KnownNames::StdIntrinsicsCtpop => ConstantDomain::U128(count_ones(v, bit_length)),
            KnownNames::StdIntrinsicsCttz => ConstantDomain::U128(count_zeros_below(v, bit_length)),
            KnownNames::StdIntrinsicsCttzNonzero => if v == 0 {
                ConstantDomain::Bottom
            } else {
                ConstantDomain::U128(count_zeros_below(v, bit_length))
            },
            _ => ConstantDomain::Bottom,
        }
    }
}

impl PartialEq for ConstantDomain {
    /// Constants are equal if they are the same constant.
    fn eq(&self, other: &Self) -> (result: bool) {
        ConstantDomain::eq(self, other)
    }
}

impl Eq for ConstantDomain {

}

impl PartialEqSpecImpl for ConstantDomain {
    open spec fn obeys_eq_spec() -> bool {
        true
    }

    open spec fn eq_spec(&self, other: &Self) -> bool {
        self.same_as(*other)
    }
}

} // verus!
