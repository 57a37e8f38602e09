//! Integers that always lie in an inclusive range `[min, max]`.
//!
//! A [`BoundedInt`] carries its range next to its value; every constructor
//! and every arithmetic operation keeps `min <= value <= max`, either by
//! refusing (`new`, `checked_*`) or by clamping (`clamp`, `saturating_*`).
use vstd::prelude::*;
use crate::text::{push_signed_decimal, signed_decimal};

verus! {

/// The error returned when a value lies outside the range of a
/// [`BoundedInt`].
#[derive(Debug, Clone, Copy, PartialEq, Eq)]
pub struct BoundsError;

impl BoundsError {
    /// The text shown for this error.
    pub fn to_string(&self) -> (s: String)
        ensures
            s@ == "value is outside the BoundedInt range"@,
    {
        String::from_str("value is outside the BoundedInt range")
    }
}

/// `v` clamped into `[lo, hi]`.
pub open spec fn clamp_to(v: int, lo: int, hi: int) -> int {
    if v < lo {
        lo
    } else if v > hi {
        hi
    } else {
        v
    }
}

/// Clamping lands in the range, and leaves a value already in it unchanged.
pub proof fn law_clamp_to_range(v: int, lo: int, hi: int)
    requires
        lo <= hi,
    ensures
        lo <= clamp_to(v, lo, hi) <= hi,
        lo <= v <= hi ==> clamp_to(v, lo, hi) == v,
{
}

/// An `i64` known to lie in the inclusive range `[min, max]`.
#[derive(Debug, Copy, PartialEq, Eq, Ord, PartialOrd, Hash)]
pub struct BoundedInt {
    value: i64,
    min: i64,
    max: i64,
}

impl View for BoundedInt {
    type V = i64;

    /// The value.
    closed spec fn view(&self) -> i64 {
        self.value
    }
}

impl BoundedInt {
    #[verifier::type_invariant]
    spec fn in_range(self) -> bool {
        self.min <= self.value <= self.max
    }

    /// The lower end of the range.
    pub closed spec fn lo(self) -> i64 {
        self.min
    }

    /// The upper end of the range.
    pub closed spec fn hi(self) -> i64 {
        self.max
    }

    /// `value` in the range `[min, max]`, or `BoundsError` when it lies
    /// outside (so always when `min > max`).
    pub fn new(min: i64, max: i64, value: i64) -> (r: Result<Self, BoundsError>)
        ensures
            r is Ok <==> min <= value <= max,
            r matches Ok(b) ==> b@ == value && b.lo() == min && b.hi() == max,
    {
        if value < min || value > max {
            return Err(BoundsError);
        }
        Ok(BoundedInt { value, min, max })
    }

    /// `value` clamped into `[min, max]`; the same as [`BoundedInt::clamp`].
    pub fn new_clamped(min: i64, max: i64, value: i64) -> (b: Self)
        requires
            min <= max,
        ensures
            b@ == clamp_to(value as int, min as int, max as int),
            b.lo() == min,
            b.hi() == max,
    {
        Self::clamp(min, max, value)
    }

    /// The value.
    pub fn value(self) -> (v: i64)
        ensures
            v == self@,
            self.lo() <= v <= self.hi(),
    {
        proof {
            use_type_invariant(self);
        }
        self.value
    }

    /// The value in decimal, as `Display` would show it.
    pub fn to_string(&self) -> (s: String)
        ensures
            s@ == signed_decimal(self@ as int),
    {
        let mut s = String::new();
        push_signed_decimal(&mut s, self.value);
        s
    }

    /// The lower end of the range.
    pub fn min(self) -> (v: i64)
        ensures
            v == self.lo(),
    {
        self.min
    }

    /// The upper end of the range.
    pub fn max(self) -> (v: i64)
        ensures
            v == self.hi(),
    {
        self.max
    }

    /// `value` clamped into `[min, max]`: `min` below the range, `max` above
    /// it, `value` itself inside.
    pub fn clamp(min: i64, max: i64, value: i64) -> (b: Self)
        requires
            min <= max,
        ensures
            b@ == clamp_to(value as int, min as int, max as int),
            b.lo() == min,
            b.hi() == max,
    {
        let clamped = if value < min {
            min
        } else if value > max {
            max
        } else {
            value
        };
        BoundedInt { value: clamped, min, max }
    }

    /// `self + rhs` in the same range, or `None` when the exact sum lies
    /// outside it.
    pub fn checked_add(self, rhs: i64) -> (r: Option<Self>)
        ensures
            r is Some <==> self.lo() <= self@ + rhs <= self.hi(),
            r matches Some(b) ==> b@ == self@ + rhs && b.lo() == self.lo() && b.hi() == self.hi(),
    {
        let sum: i128 = self.value as i128 + rhs as i128;
        if sum < self.min as i128 || sum > self.max as i128 {
            return None;
        }
        Some(BoundedInt { value: sum as i64, min: self.min, max: self.max })
    }

    /// `self + rhs`, clamped into the range.
    pub fn saturating_add(self, rhs: i64) -> (b: Self)
        ensures
            b@ == clamp_to(self@ + rhs, self.lo() as int, self.hi() as int),
            b.lo() == self.lo(),
            b.hi() == self.hi(),
    {
        proof {
            use_type_invariant(self);
        }
        if let Some(v) = self.checked_add(rhs) {
            return v;
        }
        let sum: i128 = self.value as i128 + rhs as i128;
        let clamped: i128 = if sum < self.min as i128 {
            self.min as i128
        } else if sum > self.max as i128 {
            self.max as i128
        } else {
            sum
        };
        BoundedInt { value: clamped as i64, min: self.min, max: self.max }
    }

    /// `self - rhs` in the same range, or `None` when the exact difference
    /// lies outside it.
    pub fn checked_sub(self, rhs: i64) -> (r: Option<Self>)
        ensures
            r is Some <==> self.lo() <= self@ - rhs <= self.hi(),
            r matches Some(b) ==> b@ == self@ - rhs && b.lo() == self.lo() && b.hi() == self.hi(),
    {
        let diff: i128 = self.value as i128 - rhs as i128;
        if diff < self.min as i128 || diff > self.max as i128 {
            return None;
        }
        Some(BoundedInt { value: diff as i64, min: self.min, max: self.max })
    }

    /// `self - rhs`, clamped into the range.
    pub fn saturating_sub(self, rhs: i64) -> (b: Self)
        ensures
            b@ == clamp_to(self@ - rhs, self.lo() as int, self.hi() as int),
            b.lo() == self.lo(),
            b.hi() == self.hi(),
    {
        proof {
            use_type_invariant(self);
        }
        if let Some(v) = self.checked_sub(rhs) {
            return v;
        }
        let diff: i128 = self.value as i128 - rhs as i128;
        let clamped: i128 = if diff < self.min as i128 {
            self.min as i128
        } else if diff > self.max as i128 {
            self.max as i128
        } else {
            diff
        };
        BoundedInt { value: clamped as i64, min: self.min, max: self.max }
    }
}

impl Clone for BoundedInt {
    fn clone(&self) -> (b: Self)
        ensures
            b == *self,
    {
        *self
    }
}

impl TryFrom<(i64, i64, i64)> for BoundedInt {
    type Error = BoundsError;

    /// `(min, max, value)` as a bounded integer, as [`BoundedInt::new`].
    fn try_from(bounds_and_value: (i64, i64, i64)) -> (r: Result<Self, BoundsError>)
        ensures
            r is Ok <==> bounds_and_value.0 <= bounds_and_value.2 <= bounds_and_value.1,
            r matches Ok(b) ==> b@ == bounds_and_value.2 && b.lo() == bounds_and_value.0
                && b.hi() == bounds_and_value.1,
    {
        let (min, max, value) = bounds_and_value;
        if value < min || value > max {
            return Err(BoundsError);
        }
        Ok(BoundedInt { value, min, max })
    }
}

impl vstd::std_specs::convert::TryFromSpecImpl<(i64, i64, i64)> for BoundedInt {
    open spec fn obeys_try_from_spec() -> bool {
        true
    }

    closed spec fn try_from_spec(t: (i64, i64, i64)) -> Result<Self, BoundsError> {
        if t.0 <= t.2 <= t.1 {
            Ok(BoundedInt { value: t.2, min: t.0, max: t.1 })
        } else {
            Err(BoundsError)
        }
    }
}

impl From<BoundedInt> for i64 {
    fn from(b: BoundedInt) -> (v: i64)
        ensures
            v == b@,
    {
        b.value
    }
}

impl vstd::std_specs::convert::FromSpecImpl<BoundedInt> for i64 {
    open spec fn obeys_from_spec() -> bool {
        true
    }

    open spec fn from_spec(b: BoundedInt) -> i64 {
        b@
    }
}

} // verus!
