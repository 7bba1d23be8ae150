//! Closed integer intervals that may be unbounded on either side.
//!
//! An interval is kept as two `i128` bounds. The least `i128` as a lower bound
//! stands for "no lower bound" and the greatest `i128` as an upper bound for
//! "no upper bound". An interval whose upper bound is below its lower bound is
//! bottom: it says nothing about the value it was computed for.

use vstd::prelude::*;
use crate::expression::ExpressionType;

verus! {

/// A range of integers given by a lower and an upper bound.
#[derive(Clone, Copy, Debug, PartialEq, Eq, Structural, Hash, PartialOrd, Ord)]
pub struct IntervalDomain {
    pub lower_bound: i128,
    pub upper_bound: i128,
}

/// The interval that carries no information.
pub open spec fn bottom_interval() -> IntervalDomain {
    IntervalDomain { lower_bound: 1, upper_bound: 0 }
}

/// The interval that holds every integer.
pub open spec fn top_interval() -> IntervalDomain {
    IntervalDomain { lower_bound: i128::MIN, upper_bound: i128::MAX }
}

/// The integer `v` kept in range: what is above the greatest `i128` becomes the
/// greatest, what is below the least becomes the least.
pub open spec fn clamp(v: int) -> i128 {
    if v > i128::MAX {
        i128::MAX
    } else if v < i128::MIN {
        i128::MIN
    } else {
        v as i128
    }
}

/// The lesser of two integers.
pub open spec fn min2(a: int, b: int) -> int {
    if a <= b {
        a
    } else {
        b
    }
}

/// The greater of two integers.
pub open spec fn max2(a: int, b: int) -> int {
    if a >= b {
        a
    } else {
        b
    }
}

impl IntervalDomain {
    /// True if this interval carries no information.
    pub open spec fn bottom(self) -> bool {
        self.upper_bound < self.lower_bound
    }

    /// True if this interval holds every integer.
    pub open spec fn top(self) -> bool {
        self.lower_bound == i128::MIN && self.upper_bound == i128::MAX
    }

    /// True if there is a least integer in this interval.
    pub open spec fn bounded_below(self) -> bool {
        !self.bottom() && self.lower_bound != i128::MIN
    }

    /// True if there is a greatest integer in this interval.
    pub open spec fn bounded_above(self) -> bool {
        !self.bottom() && self.upper_bound != i128::MAX
    }

    /// True if the integer `k` lies in this interval.
    pub open spec fn contains(self, k: int) -> bool {
        &&& !self.bottom()
        &&& (self.lower_bound == i128::MIN || self.lower_bound <= k)
        &&& (self.upper_bound == i128::MAX || k <= self.upper_bound)
    }

    /// The interval of the sums of an element of `self` and an element of `other`.
    pub open spec fn sum(self, other: Self) -> Self {
        if self.bottom() || other.bottom() {
            bottom_interval()
        } else {
            IntervalDomain {
                lower_bound: if self.lower_bound == i128::MIN || other.lower_bound == i128::MIN {
                    i128::MIN
                } else {
                    clamp(self.lower_bound + other.lower_bound)
                },
                upper_bound: if self.upper_bound == i128::MAX || other.upper_bound == i128::MAX {
                    i128::MAX
                } else {
                    clamp(self.upper_bound + other.upper_bound)
                },
            }
        }
    }

    /// The interval of the differences of an element of `self` and an element of `other`.
    pub open spec fn difference(self, other: Self) -> Self {
        if self.bottom() || other.bottom() {
            bottom_interval()
        } else {
            IntervalDomain {
                lower_bound: if self.lower_bound == i128::MIN || other.upper_bound == i128::MAX {
                    i128::MIN
                } else {
                    clamp(self.lower_bound - other.upper_bound)
                },
                upper_bound: if self.upper_bound == i128::MAX || other.lower_bound == i128::MIN {
                    i128::MAX
                } else {
                    clamp(self.upper_bound - other.lower_bound)
                },
            }
        }
    }

    /// The interval of the negations of the elements of `self`.
    pub open spec fn negation(self) -> Self {
        if self.bottom() {
            bottom_interval()
        } else {
            IntervalDomain {
                lower_bound: if self.upper_bound == i128::MAX {
                    i128::MIN
                } else {
                    clamp(-self.upper_bound)
                },
                upper_bound: if self.lower_bound == i128::MIN {
                    i128::MAX
                } else {
                    clamp(-self.lower_bound)
                },
            }
        }
    }

    /// The interval of the products of an element of `self` and an element of `other`.
    /// Where one of the four bounds is missing the product is the top interval.
    pub open spec fn product(self, other: Self) -> Self {
        if self.bottom() || other.bottom() {
            bottom_interval()
        } else if !self.bounded_below() || !self.bounded_above() || !other.bounded_below()
            || !other.bounded_above() {
            top_interval()
        } else {
            let ll = self.lower_bound * other.lower_bound;
            let lu = self.lower_bound * other.upper_bound;
            let ul = self.upper_bound * other.lower_bound;
            let uu = self.upper_bound * other.upper_bound;
            IntervalDomain {
                lower_bound: clamp(min2(min2(ll, lu), min2(ul, uu))),
                upper_bound: clamp(max2(max2(ll, lu), max2(ul, uu))),
            }
        }
    }

    /// The least interval that holds both `self` and `other`, unless one of them is
    /// bottom: then nothing is known of the union either.
    pub open spec fn hull(self, other: Self) -> Self {
        if self.bottom() || other.bottom() {
            bottom_interval()
        } else {
            IntervalDomain {
                lower_bound: min2(self.lower_bound as int, other.lower_bound as int) as i128,
                upper_bound: max2(self.upper_bound as int, other.upper_bound as int) as i128,
            }
        }
    }

    /// `Some(true)` if every element of `self` is below every element of `other`,
    /// `Some(false)` if none is, and `None` if the bounds do not decide.
    pub open spec fn decides_less_than(self, other: Self) -> Option<bool> {
        if self.bounded_above() && other.bounded_below() && self.upper_bound < other.lower_bound {
            Some(true)
        } else if self.bounded_below() && other.bounded_above() && self.lower_bound
            >= other.upper_bound {
            Some(false)
        } else {
            None
        }
    }

    /// `Some(true)` if no element of `self` is above an element of `other`,
    /// `Some(false)` if every element is, and `None` if the bounds do not decide.
    pub open spec fn decides_less_equal(self, other: Self) -> Option<bool> {
        if self.bounded_above() && other.bounded_below() && self.upper_bound <= other.lower_bound {
            Some(true)
        } else if self.bounded_below() && other.bounded_above() && self.lower_bound
            > other.upper_bound {
            Some(false)
        } else {
            None
        }
    }

    /// True if both bounds exist and lie in the range of the integer sort `target_type`.
    pub open spec fn fits(self, target_type: ExpressionType) -> bool {
        &&& target_type.integer()
        &&& self.bounded_below()
        &&& self.bounded_above()
        &&& target_type.least() <= self.lower_bound
        &&& self.upper_bound <= target_type.greatest()
    }

    /// True if both bounds exist and every element is a shift distance that keeps
    /// at least one bit of a value of the integer sort `target_type`.
    pub open spec fn fits_width(self, target_type: ExpressionType) -> bool {
        &&& target_type.integer()
        &&& self.bounded_below()
        &&& self.bounded_above()
        &&& 0 <= self.lower_bound
        &&& self.upper_bound < target_type.width()
    }

    /// Returns the interval that carries no information.
    pub fn new_bottom() -> (result: Self)
        ensures
            result == bottom_interval(),
    {
        IntervalDomain { lower_bound: 1, upper_bound: 0 }
    }

    /// Returns the interval that holds every integer.
    pub fn new_top() -> (result: Self)
        ensures
            result == top_interval(),
    {
        IntervalDomain { lower_bound: i128::MIN, upper_bound: i128::MAX }
    }

    /// Returns `[self.lower + other.lower ... self.upper + other.upper]`.
    pub fn add(&self, other: &Self) -> (result: Self)
        ensures
            result == self.sum(*other),
    {
        if self.is_bottom() || other.is_bottom() {
            return Self::new_bottom();
        }
        let lower_bound: i128 = if self.lower_bound == i128::MIN || other.lower_bound
            == i128::MIN {
            i128::MIN
        } else {
            clamped_add(self.lower_bound, other.lower_bound)
        };
        let upper_bound: i128 = if self.upper_bound == i128::MAX || other.upper_bound
            == i128::MAX {
            i128::MAX
        } else {
            clamped_add(self.upper_bound, other.upper_bound)
        };
        IntervalDomain { lower_bound, upper_bound }
    }

    /// Returns `[self.lower - other.upper ... self.upper - other.lower]`.
    pub fn sub(&self, other: &Self) -> (result: Self)
        ensures
            result == self.difference(*other),
    {
        if self.is_bottom() || other.is_bottom() {
            return Self::new_bottom();
        }
        let lower_bound: i128 = if self.lower_bound == i128::MIN || other.upper_bound
            == i128::MAX {
            i128::MIN
        } else {
            clamped_sub(self.lower_bound, other.upper_bound)
        };
        let upper_bound: i128 = if self.upper_bound == i128::MAX || other.lower_bound
            == i128::MIN {
            i128::MAX
        } else {
            clamped_sub(self.upper_bound, other.lower_bound)
        };
        IntervalDomain { lower_bound, upper_bound }
    }

    /// Returns `[-self.upper ... -self.lower]`.
    pub fn neg(&self) -> (result: Self)
        ensures
            result == self.negation(),
    {
        if self.is_bottom() {
            return Self::new_bottom();
        }
        let lower_bound: i128 = if self.upper_bound == i128::MAX {
            i128::MIN
        } else {
            clamped_sub(0, self.upper_bound)
        };
        let upper_bound: i128 = if self.lower_bound == i128::MIN {
            i128::MAX
        } else {
            clamped_sub(0, self.lower_bound)
        };
        IntervalDomain { lower_bound, upper_bound }
    }

    /// Returns the interval spanned by the four products of the bounds.
    pub fn mul(&self, other: &Self) -> (result: Self)
        ensures
            result == self.product(*other),
    {
        if self.is_bottom() || other.is_bottom() {
            return Self::new_bottom();
        }
        if self.lower_bound == i128::MIN || self.upper_bound == i128::MAX || other.lower_bound
            == i128::MIN || other.upper_bound == i128::MAX {
            return Self::new_top();
        }
        let ll: i128 = clamped_mul(self.lower_bound, other.lower_bound);
        let lu: i128 = clamped_mul(self.lower_bound, other.upper_bound);
        let ul: i128 = clamped_mul(self.upper_bound, other.lower_bound);
        let uu: i128 = clamped_mul(self.upper_bound, other.upper_bound);
        let lower_bound: i128 = least_of(least_of(ll, lu), least_of(ul, uu));
        let upper_bound: i128 = greatest_of(greatest_of(ll, lu), greatest_of(ul, uu));
        IntervalDomain { lower_bound, upper_bound }
    }

    /// Returns the least interval that holds both `self` and `other`.
    pub fn widen(&self, other: &Self) -> (result: Self)
        ensures
            result == self.hull(*other),
    {
        if self.is_bottom() || other.is_bottom() {
            return Self::new_bottom();
        }
        IntervalDomain {
            lower_bound: least_of(self.lower_bound, other.lower_bound),
            upper_bound: greatest_of(self.upper_bound, other.upper_bound),
        }
    }

    /// Decides `self < other` where the bounds allow it.
    pub fn less_than(&self, other: &Self) -> (result: Option<bool>)
        ensures
            result == self.decides_less_than(*other),
    {
        if self.has_upper() && other.has_lower() && self.upper_bound < other.lower_bound {
            Some(true)
        } else if self.has_lower() && other.has_upper() && self.lower_bound >= other.upper_bound {
            Some(false)
        } else {
            None
        }
    }

    /// Decides `self <= other` where the bounds allow it.
    pub fn less_equal(&self, other: &Self) -> (result: Option<bool>)
        ensures
            result == self.decides_less_equal(*other),
    {
        if self.has_upper() && other.has_lower() && self.upper_bound <= other.lower_bound {
            Some(true)
        } else if self.has_lower() && other.has_upper() && self.lower_bound > other.upper_bound {
            Some(false)
        } else {
            None
        }
    }

    /// Decides `self > other` where the bounds allow it.
    pub fn greater_than(&self, other: &Self) -> (result: Option<bool>)
        ensures
            result == other.decides_less_than(*self),
    {
        other.less_than(self)
    }

    /// Decides `self >= other` where the bounds allow it.
    pub fn greater_or_equal(&self, other: &Self) -> (result: Option<bool>)
        ensures
            result == other.decides_less_equal(*self),
    {
        other.less_equal(self)
    }

    /// Returns true if this interval carries no information.
    pub fn is_bottom(&self) -> (result: bool)
        ensures
            result == self.bottom(),
    {
        self.upper_bound < self.lower_bound
    }

    /// Returns true if this interval holds every integer.
    pub fn is_top(&self) -> (result: bool)
        ensures
            result == self.top(),
    {
        self.lower_bound == i128::MIN && self.upper_bound == i128::MAX
    }

    fn has_lower(&self) -> (result: bool)
        ensures
            result == self.bounded_below(),
    {
        !self.is_bottom() && self.lower_bound != i128::MIN
    }

    fn has_upper(&self) -> (result: bool)
        ensures
            result == self.bounded_above(),
    {
        !self.is_bottom() && self.upper_bound != i128::MAX
    }

    /// Returns true if every element of this interval is a value of the integer sort
    /// `target_type`.
    pub fn is_contained_in(&self, target_type: &ExpressionType) -> (result: bool)
        ensures
            result == self.fits(*target_type),
    {
        if !self.has_lower() || !self.has_upper() {
            return false;
        }
        match target_type {
            ExpressionType::I8 => self.lower_bound >= -0x80 && self.upper_bound <= 0x7f,
            ExpressionType::I16 => self.lower_bound >= -0x8000 && self.upper_bound <= 0x7fff,
            ExpressionType::I32 => self.lower_bound >= -0x8000_0000 && self.upper_bound
                <= 0x7fff_ffff,
            ExpressionType::I64 => self.lower_bound >= -0x8000_0000_0000_0000 && self.upper_bound
                <= 0x7fff_ffff_ffff_ffff,
            ExpressionType::I128 => true,
            ExpressionType::U8 => self.lower_bound >= 0 && self.upper_bound <= 0xff,
            ExpressionType::U16 => self.lower_bound >= 0 && self.upper_bound <= 0xffff,
            ExpressionType::U32 => self.lower_bound >= 0 && self.upper_bound <= 0xffff_ffff,
            ExpressionType::U64 => self.lower_bound >= 0 && self.upper_bound
                <= 0xffff_ffff_ffff_ffff,
            ExpressionType::U128 => self.lower_bound >= 0,
            _ => false,
        }
    }

    /// Returns true if every element of this interval is less than the number of bits
    /// of the integer sort `target_type`, and none is negative.
    pub fn is_contained_in_width_of(&self, target_type: &ExpressionType) -> (result: bool)
        ensures
            result == self.fits_width(*target_type),
    {
        if !self.has_lower() || !self.has_upper() || !target_type.is_integer() {
            return false;
        }
        let width: u8 = target_type.bit_length();
        self.lower_bound >= 0 && self.upper_bound < width as i128
    }

    /// Returns the least element of this interval, if there is one.
    pub fn lower_bound(&self) -> (result: Option<i128>)
        ensures
            result == (if self.bounded_below() {
                Some(self.lower_bound)
            } else {
                None
            }),
    {
        if self.has_lower() {
            Some(self.lower_bound)
        } else {
            None
        }
    }

    /// Returns the greatest element of this interval, if there is one.
    pub fn upper_bound(&self) -> (result: Option<i128>)
        ensures
            result == (if self.bounded_above() {
                Some(self.upper_bound)
            } else {
                None
            }),
    {
        if self.has_upper() {
            Some(self.upper_bound)
        } else {
            None
        }
    }

    /// Returns this interval without its lower bound. Bottom stays bottom.
    pub fn remove_lower_bound(&self) -> (result: Self)
        ensures
            result == self.without_lower(),
    {
        if self.is_bottom() {
            return *self;
        }
        IntervalDomain { lower_bound: i128::MIN, upper_bound: self.upper_bound }
    }

    /// Returns this interval without its upper bound. Bottom stays bottom.
    pub fn remove_upper_bound(&self) -> (result: Self)
        ensures
            result == self.without_upper(),
    {
        if self.is_bottom() {
            return *self;
        }
        IntervalDomain { lower_bound: self.lower_bound, upper_bound: i128::MAX }
    }

    /// This interval extended downwards without end.
    pub open spec fn without_lower(self) -> Self {
        if self.bottom() {
            self
        } else {
            IntervalDomain { lower_bound: i128::MIN, upper_bound: self.upper_bound }
        }
    }

    /// This interval extended upwards without end.
    pub open spec fn without_upper(self) -> Self {
        if self.bottom() {
            self
        } else {
            IntervalDomain { lower_bound: self.lower_bound, upper_bound: i128::MAX }
        }
    }

    /// The interval that holds the signed constant `i` and nothing else.
    pub open spec fn of_signed(i: i128) -> Self {
        IntervalDomain { lower_bound: i, upper_bound: i }
    }

    /// The interval of the unsigned constant `u`: the point `u` where that is an
    /// `i128`, else everything from the greatest `i128` upwards.
    pub open spec fn of_unsigned(u: u128) -> Self {
        if u <= i128::MAX {
            IntervalDomain { lower_bound: u as i128, upper_bound: u as i128 }
        } else {
            IntervalDomain { lower_bound: i128::MAX, upper_bound: i128::MAX }
        }
    }
}

impl From<i128> for IntervalDomain {
    fn from(i: i128) -> (result: IntervalDomain) {
        IntervalDomain { lower_bound: i, upper_bound: i }
    }
}

impl vstd::std_specs::convert::FromSpecImpl<i128> for IntervalDomain {
    open spec fn obeys_from_spec() -> bool {
        true
    }

    open spec fn from_spec(i: i128) -> IntervalDomain {
        IntervalDomain::of_signed(i)
    }
}

impl From<u128> for IntervalDomain {
    fn from(u: u128) -> (result: IntervalDomain) {
        if u <= 0x7fff_ffff_ffff_ffff_ffff_ffff_ffff_ffff {
            IntervalDomain { lower_bound: u as i128, upper_bound: u as i128 }
        } else {
            IntervalDomain { lower_bound: i128::MAX, upper_bound: i128::MAX }
        }
    }
}

impl vstd::std_specs::convert::FromSpecImpl<u128> for IntervalDomain {
    open spec fn obeys_from_spec() -> bool {
        true
    }

    open spec fn from_spec(u: u128) -> IntervalDomain {
        IntervalDomain::of_unsigned(u)
    }
}

fn least_of(a: i128, b: i128) -> (result: i128)
    ensures
        result == min2(a as int, b as int),
{
    if a <= b {
        a
    } else {
        b
    }
}

fn greatest_of(a: i128, b: i128) -> (result: i128)
    ensures
        result == max2(a as int, b as int),
{
    if a >= b {
        a
    } else {
        b
    }
}

fn clamped_add(a: i128, b: i128) -> (result: i128)
    ensures
        result == clamp(a + b),
{
    match a.checked_add(b) {
        Some(sum) => sum,
        None => if a > 0 {
            i128::MAX
        } else {
            i128::MIN
        },
    }
}

fn clamped_sub(a: i128, b: i128) -> (result: i128)
    ensures
        result == clamp(a - b),
{
    match a.checked_sub(b) {
        Some(difference) => difference,
        None => if b < 0 {
            i128::MAX
        } else {
            i128::MIN
        },
    }
}

fn clamped_mul(a: i128, b: i128) -> (result: i128)
    ensures
        result == clamp(a * b),
{
    match a.checked_mul(b) {
        Some(product) => product,
        None => {
            proof {
                lemma_product_sign(a as int, b as int);
            }
            if (a > 0) == (b > 0) {
                i128::MAX
            } else {
                i128::MIN
            }
        },
    }
}

proof fn lemma_product_sign(a: int, b: int)
    ensures
        (a > 0 && b > 0) || (a < 0 && b < 0) ==> a * b > 0,
        (a > 0 && b < 0) || (a < 0 && b > 0) ==> a * b < 0,
        a == 0 || b == 0 ==> a * b == 0,
{
    assert((a > 0 && b > 0) || (a < 0 && b < 0) ==> a * b > 0) by (nonlinear_arith);
    assert((a > 0 && b < 0) || (a < 0 && b > 0) ==> a * b < 0) by (nonlinear_arith);
    assert(a == 0 || b == 0 ==> a * b == 0) by (nonlinear_arith);
}

/// For `x` between `lo` and `hi`, the product `x * y` lies between the products
/// `lo * y` and `hi * y`, whichever of the two is the smaller.
proof fn lemma_product_between(lo: int, hi: int, x: int, y: int)
    requires
        lo <= x <= hi,
    ensures
        min2(lo * y, hi * y) <= x * y <= max2(lo * y, hi * y),
{
    assert(y >= 0 ==> lo * y <= x * y <= hi * y) by (nonlinear_arith)
        requires
            lo <= x <= hi,
    ;
    assert(y <= 0 ==> hi * y <= x * y <= lo * y) by (nonlinear_arith)
        requires
            lo <= x <= hi,
    ;
}

/// The sum of two intervals holds the sum of any two of their elements.
pub proof fn lemma_sum_sound(a: IntervalDomain, b: IntervalDomain, x: int, y: int)
    requires
        a.contains(x),
        b.contains(y),
    ensures
        a.sum(b).contains(x + y),
{
}

/// The difference of two intervals holds the difference of any two of their elements.
pub proof fn lemma_difference_sound(a: IntervalDomain, b: IntervalDomain, x: int, y: int)
    requires
        a.contains(x),
        b.contains(y),
    ensures
        a.difference(b).contains(x - y),
{
}

/// The negation of an interval holds the negation of each of its elements.
pub proof fn lemma_negation_sound(a: IntervalDomain, x: int)
    requires
        a.contains(x),
    ensures
        a.negation().contains(-x),
{
}

/// The product of two intervals holds the product of any two of their elements.
pub proof fn lemma_product_sound(a: IntervalDomain, b: IntervalDomain, x: int, y: int)
    requires
        a.contains(x),
        b.contains(y),
    ensures
        a.product(b).contains(x * y),
{
    if a.bounded_below() && a.bounded_above() && b.bounded_below() && b.bounded_above() {
        let (al, au) = (a.lower_bound as int, a.upper_bound as int);
        let (bl, bu) = (b.lower_bound as int, b.upper_bound as int);
        lemma_product_between(al, au, x, y);
        lemma_product_between(bl, bu, y, al);
        lemma_product_between(bl, bu, y, au);
        assert(al * y == y * al && au * y == y * au) by (nonlinear_arith);
        assert(bl * al == al * bl && bu * al == al * bu && bl * au == au * bl && bu * au == au
            * bu) by (nonlinear_arith);
    }
}

/// The hull of two intervals holds every element of either.
pub proof fn lemma_hull_sound(a: IntervalDomain, b: IntervalDomain, x: int)
    requires
        !a.bottom(),
        !b.bottom(),
        a.contains(x) || b.contains(x),
    ensures
        a.hull(b).contains(x),
{
}

/// What the bounds decide about `<` and `<=` holds of every pair of elements.
pub proof fn lemma_decisions_sound(a: IntervalDomain, b: IntervalDomain, x: int, y: int)
    requires
        a.contains(x),
        b.contains(y),
    ensures
        a.decides_less_than(b) matches Some(d) ==> d == (x < y),
        a.decides_less_equal(b) matches Some(d) ==> d == (x <= y),
{
}

/// An interval that fits an integer sort holds only values of that sort.
pub proof fn lemma_fits_sound(a: IntervalDomain, target_type: ExpressionType, x: int)
    requires
        a.fits(target_type),
        a.contains(x),
    ensures
        target_type.least() <= x <= target_type.greatest(),
{
}

} // verus!
