//! The exact casts between the primitive integer types: each succeeds
//! exactly when the value lies in the target type's range, and then keeps
//! the value.
use vstd::prelude::*;
use super::{CastError, SafeCast};

verus! {

impl SafeCast<i8> for i8 {
    open spec fn fits(self) -> bool {
        i8::MIN <= self <= i8::MAX
    }

    open spec fn converted(self) -> i8 {
        self as i8
    }

    open spec fn type_names() -> (Seq<char>, Seq<char>) {
        ("i8"@, "i8"@)
    }

    fn safe_cast(self) -> Result<i8, CastError> {
        Ok(self)
    }
}

impl SafeCast<i16> for i8 {
    open spec fn fits(self) -> bool {
        i16::MIN <= self <= i16::MAX
    }

    open spec fn converted(self) -> i16 {
        self as i16
    }

    open spec fn type_names() -> (Seq<char>, Seq<char>) {
        ("i8"@, "i16"@)
    }

    fn safe_cast(self) -> Result<i16, CastError> {
        let v = self as i128;
        if v < i16::MIN as i128 || v > i16::MAX as i128 {
            Err(CastError::new("i8", "i16"))
        } else {
            Ok(self as i16)
        }
    }
}

impl SafeCast<i32> for i8 {
    open spec fn fits(self) -> bool {
        i32::MIN <= self <= i32::MAX
    }

    open spec fn converted(self) -> i32 {
        self as i32
    }

    open spec fn type_names() -> (Seq<char>, Seq<char>) {
        ("i8"@, "i32"@)
    }

    fn safe_cast(self) -> Result<i32, CastError> {
        let v = self as i128;
        if v < i32::MIN as i128 || v > i32::MAX as i128 {
            Err(CastError::new("i8", "i32"))
        } else {
            Ok(self as i32)
        }
    }
}

impl SafeCast<i64> for i8 {
    open spec fn fits(self) -> bool {
        i64::MIN <= self <= i64::MAX
    }

    open spec fn converted(self) -> i64 {
        self as i64
    }

    open spec fn type_names() -> (Seq<char>, Seq<char>) {
        ("i8"@, "i64"@)
    }

    fn safe_cast(self) -> Result<i64, CastError> {
        let v = self as i128;
        if v < i64::MIN as i128 || v > i64::MAX as i128 {
            Err(CastError::new("i8", "i64"))
        } else {
            Ok(self as i64)
        }
    }
}

impl SafeCast<i128> for i8 {
    open spec fn fits(self) -> bool {
        i128::MIN <= self <= i128::MAX
    }

    open spec fn converted(self) -> i128 {
        self as i128
    }

    open spec fn type_names() -> (Seq<char>, Seq<char>) {
        ("i8"@, "i128"@)
    }

    fn safe_cast(self) -> Result<i128, CastError> {
        let v = self as i128;
        if v < i128::MIN as i128 || v > i128::MAX as i128 {
            Err(CastError::new("i8", "i128"))
        } else {
            Ok(self as i128)
        }
    }
}

impl SafeCast<isize> for i8 {
    open spec fn fits(self) -> bool {
        isize::MIN <= self <= isize::MAX
    }

    open spec fn converted(self) -> isize {
        self as isize
    }

    open spec fn type_names() -> (Seq<char>, Seq<char>) {
        ("i8"@, "isize"@)
    }

    fn safe_cast(self) -> Result<isize, CastError> {
        let v = self as i128;
        if v < isize::MIN as i128 || v > isize::MAX as i128 {
            Err(CastError::new("i8", "isize"))
        } else {
            Ok(self as isize)
        }
    }
}

impl SafeCast<u8> for i8 {
    open spec fn fits(self) -> bool {
        u8::MIN <= self <= u8::MAX
    }

    open spec fn converted(self) -> u8 {
        self as u8
    }

    open spec fn type_names() -> (Seq<char>, Seq<char>) {
        ("i8"@, "u8"@)
    }

    fn safe_cast(self) -> Result<u8, CastError> {
        let v = self as i128;
        if v < u8::MIN as i128 || v > u8::MAX as i128 {
            Err(CastError::new("i8", "u8"))
        } else {
            Ok(self as u8)
        }
    }
}

impl SafeCast<u16> for i8 {
    open spec fn fits(self) -> bool {
        u16::MIN <= self <= u16::MAX
    }

    open spec fn converted(self) -> u16 {
        self as u16
    }

    open spec fn type_names() -> (Seq<char>, Seq<char>) {
        ("i8"@, "u16"@)
    }

    fn safe_cast(self) -> Result<u16, CastError> {
        let v = self as i128;
        if v < u16::MIN as i128 || v > u16::MAX as i128 {
            Err(CastError::new("i8", "u16"))
        } else {
            Ok(self as u16)
        }
    }
}

impl SafeCast<u32> for i8 {
    open spec fn fits(self) -> bool {
        u32::MIN <= self <= u32::MAX
    }

    open spec fn converted(self) -> u32 {
        self as u32
    }

    open spec fn type_names() -> (Seq<char>, Seq<char>) {
        ("i8"@, "u32"@)
    }

    fn safe_cast(self) -> Result<u32, CastError> {
        let v = self as i128;
        if v < u32::MIN as i128 || v > u32::MAX as i128 {
            Err(CastError::new("i8", "u32"))
        } else {
            Ok(self as u32)
        }
    }
}

impl SafeCast<u64> for i8 {
    open spec fn fits(self) -> bool {
        u64::MIN <= self <= u64::MAX
    }

    open spec fn converted(self) -> u64 {
        self as u64
    }

    open spec fn type_names() -> (Seq<char>, Seq<char>) {
        ("i8"@, "u64"@)
    }

    fn safe_cast(self) -> Result<u64, CastError> {
        let v = self as i128;
        if v < u64::MIN as i128 || v > u64::MAX as i128 {
            Err(CastError::new("i8", "u64"))
        } else {
            Ok(self as u64)
        }
    }
}

impl SafeCast<u128> for i8 {
    open spec fn fits(self) -> bool {
        u128::MIN <= self <= u128::MAX
    }

    open spec fn converted(self) -> u128 {
        self as u128
    }

    open spec fn type_names() -> (Seq<char>, Seq<char>) {
        ("i8"@, "u128"@)
    }

    fn safe_cast(self) -> Result<u128, CastError> {
        if self < 0 {
            Err(CastError::new("i8", "u128"))
        } else {
            Ok(self as u128)
        }
    }
}

impl SafeCast<usize> for i8 {
    open spec fn fits(self) -> bool {
        usize::MIN <= self <= usize::MAX
    }

    open spec fn converted(self) -> usize {
        self as usize
    }

    open spec fn type_names() -> (Seq<char>, Seq<char>) {
        ("i8"@, "usize"@)
    }

    fn safe_cast(self) -> Result<usize, CastError> {
        let v = self as i128;
        if v < usize::MIN as i128 || v > usize::MAX as i128 {
            Err(CastError::new("i8", "usize"))
        } else {
            Ok(self as usize)
        }
    }
}

impl SafeCast<i8> for i16 {
    open spec fn fits(self) -> bool {
        i8::MIN <= self <= i8::MAX
    }

    open spec fn converted(self) -> i8 {
        self as i8
    }

    open spec fn type_names() -> (Seq<char>, Seq<char>) {
        ("i16"@, "i8"@)
    }

    fn safe_cast(self) -> Result<i8, CastError> {
        let v = self as i128;
        if v < i8::MIN as i128 || v > i8::MAX as i128 {
            Err(CastError::new("i16", "i8"))
        } else {
            Ok(self as i8)
        }
    }
}

impl SafeCast<i16> for i16 {
    open spec fn fits(self) -> bool {
        i16::MIN <= self <= i16::MAX
    }

    open spec fn converted(self) -> i16 {
        self as i16
    }

    open spec fn type_names() -> (Seq<char>, Seq<char>) {
        ("i16"@, "i16"@)
    }

    fn safe_cast(self) -> Result<i16, CastError> {
        Ok(self)
    }
}

impl SafeCast<i32> for i16 {
    open spec fn fits(self) -> bool {
        i32::MIN <= self <= i32::MAX
    }

    open spec fn converted(self) -> i32 {
        self as i32
    }

    open spec fn type_names() -> (Seq<char>, Seq<char>) {
        ("i16"@, "i32"@)
    }

    fn safe_cast(self) -> Result<i32, CastError> {
        let v = self as i128;
        if v < i32::MIN as i128 || v > i32::MAX as i128 {
            Err(CastError::new("i16", "i32"))
        } else {
            Ok(self as i32)
        }
    }
}

impl SafeCast<i64> for i16 {
    open spec fn fits(self) -> bool {
        i64::MIN <= self <= i64::MAX
    }

    open spec fn converted(self) -> i64 {
        self as i64
    }

    open spec fn type_names() -> (Seq<char>, Seq<char>) {
        ("i16"@, "i64"@)
    }

    fn safe_cast(self) -> Result<i64, CastError> {
        let v = self as i128;
        if v < i64::MIN as i128 || v > i64::MAX as i128 {
            Err(CastError::new("i16", "i64"))
        } else {
            Ok(self as i64)
        }
    }
}

impl SafeCast<i128> for i16 {
    open spec fn fits(self) -> bool {
        i128::MIN <= self <= i128::MAX
    }

    open spec fn converted(self) -> i128 {
        self as i128
    }

    open spec fn type_names() -> (Seq<char>, Seq<char>) {
        ("i16"@, "i128"@)
    }

    fn safe_cast(self) -> Result<i128, CastError> {
        let v = self as i128;
        if v < i128::MIN as i128 || v > i128::MAX as i128 {
            Err(CastError::new("i16", "i128"))
        } else {
            Ok(self as i128)
        }
    }
}

impl SafeCast<isize> for i16 {
    open spec fn fits(self) -> bool {
        isize::MIN <= self <= isize::MAX
    }

    open spec fn converted(self) -> isize {
        self as isize
    }

    open spec fn type_names() -> (Seq<char>, Seq<char>) {
        ("i16"@, "isize"@)
    }

    fn safe_cast(self) -> Result<isize, CastError> {
        let v = self as i128;
        if v < isize::MIN as i128 || v > isize::MAX as i128 {
            Err(CastError::new("i16", "isize"))
        } else {
            Ok(self as isize)
        }
    }
}

impl SafeCast<u8> for i16 {
    open spec fn fits(self) -> bool {
        u8::MIN <= self <= u8::MAX
    }

    open spec fn converted(self) -> u8 {
        self as u8
    }

    open spec fn type_names() -> (Seq<char>, Seq<char>) {
        ("i16"@, "u8"@)
    }

    fn safe_cast(self) -> Result<u8, CastError> {
        let v = self as i128;
        if v < u8::MIN as i128 || v > u8::MAX as i128 {
            Err(CastError::new("i16", "u8"))
        } else {
            Ok(self as u8)
        }
    }
}

impl SafeCast<u16> for i16 {
    open spec fn fits(self) -> bool {
        u16::MIN <= self <= u16::MAX
    }

    open spec fn converted(self) -> u16 {
        self as u16
    }

    open spec fn type_names() -> (Seq<char>, Seq<char>) {
        ("i16"@, "u16"@)
    }

    fn safe_cast(self) -> Result<u16, CastError> {
        let v = self as i128;
        if v < u16::MIN as i128 || v > u16::MAX as i128 {
            Err(CastError::new("i16", "u16"))
        } else {
            Ok(self as u16)
        }
    }
}

impl SafeCast<u32> for i16 {
    open spec fn fits(self) -> bool {
        u32::MIN <= self <= u32::MAX
    }

    open spec fn converted(self) -> u32 {
        self as u32
    }

    open spec fn type_names() -> (Seq<char>, Seq<char>) {
        ("i16"@, "u32"@)
    }

    fn safe_cast(self) -> Result<u32, CastError> {
        let v = self as i128;
        if v < u32::MIN as i128 || v > u32::MAX as i128 {
            Err(CastError::new("i16", "u32"))
        } else {
            Ok(self as u32)
        }
    }
}

impl SafeCast<u64> for i16 {
    open spec fn fits(self) -> bool {
        u64::MIN <= self <= u64::MAX
    }

    open spec fn converted(self) -> u64 {
        self as u64
    }

    open spec fn type_names() -> (Seq<char>, Seq<char>) {
        ("i16"@, "u64"@)
    }

    fn safe_cast(self) -> Result<u64, CastError> {
        let v = self as i128;
        if v < u64::MIN as i128 || v > u64::MAX as i128 {
            Err(CastError::new("i16", "u64"))
        } else {
            Ok(self as u64)
        }
    }
}

impl SafeCast<u128> for i16 {
    open spec fn fits(self) -> bool {
        u128::MIN <= self <= u128::MAX
    }

    open spec fn converted(self) -> u128 {
        self as u128
    }

    open spec fn type_names() -> (Seq<char>, Seq<char>) {
        ("i16"@, "u128"@)
    }

    fn safe_cast(self) -> Result<u128, CastError> {
        if self < 0 {
            Err(CastError::new("i16", "u128"))
        } else {
            Ok(self as u128)
        }
    }
}

impl SafeCast<usize> for i16 {
    open spec fn fits(self) -> bool {
        usize::MIN <= self <= usize::MAX
    }

    open spec fn converted(self) -> usize {
        self as usize
    }

    open spec fn type_names() -> (Seq<char>, Seq<char>) {
        ("i16"@, "usize"@)
    }

    fn safe_cast(self) -> Result<usize, CastError> {
        let v = self as i128;
        if v < usize::MIN as i128 || v > usize::MAX as i128 {
            Err(CastError::new("i16", "usize"))
        } else {
            Ok(self as usize)
        }
    }
}

impl SafeCast<i8> for i32 {
    open spec fn fits(self) -> bool {
        i8::MIN <= self <= i8::MAX
    }

    open spec fn converted(self) -> i8 {
        self as i8
    }

    open spec fn type_names() -> (Seq<char>, Seq<char>) {
        ("i32"@, "i8"@)
    }

    fn safe_cast(self) -> Result<i8, CastError> {
        let v = self as i128;
        if v < i8::MIN as i128 || v > i8::MAX as i128 {
            Err(CastError::new("i32", "i8"))
        } else {
            Ok(self as i8)
        }
    }
}

impl SafeCast<i16> for i32 {
    open spec fn fits(self) -> bool {
        i16::MIN <= self <= i16::MAX
    }

    open spec fn converted(self) -> i16 {
        self as i16
    }

    open spec fn type_names() -> (Seq<char>, Seq<char>) {
        ("i32"@, "i16"@)
    }

    fn safe_cast(self) -> Result<i16, CastError> {
        let v = self as i128;
        if v < i16::MIN as i128 || v > i16::MAX as i128 {
            Err(CastError::new("i32", "i16"))
        } else {
            Ok(self as i16)
        }
    }
}

impl SafeCast<i32> for i32 {
    open spec fn fits(self) -> bool {
        i32::MIN <= self <= i32::MAX
    }

    open spec fn converted(self) -> i32 {
        self as i32
    }

    open spec fn type_names() -> (Seq<char>, Seq<char>) {
        ("i32"@, "i32"@)
    }

    fn safe_cast(self) -> Result<i32, CastError> {
        Ok(self)
    }
}

impl SafeCast<i64> for i32 {
    open spec fn fits(self) -> bool {
        i64::MIN <= self <= i64::MAX
    }

    open spec fn converted(self) -> i64 {
        self as i64
    }

    open spec fn type_names() -> (Seq<char>, Seq<char>) {
        ("i32"@, "i64"@)
    }

    fn safe_cast(self) -> Result<i64, CastError> {
        let v = self as i128;
        if v < i64::MIN as i128 || v > i64::MAX as i128 {
            Err(CastError::new("i32", "i64"))
        } else {
            Ok(self as i64)
        }
    }
}

impl SafeCast<i128> for i32 {
    open spec fn fits(self) -> bool {
        i128::MIN <= self <= i128::MAX
    }

    open spec fn converted(self) -> i128 {
        self as i128
    }

    open spec fn type_names() -> (Seq<char>, Seq<char>) {
        ("i32"@, "i128"@)
    }

    fn safe_cast(self) -> Result<i128, CastError> {
        let v = self as i128;
        if v < i128::MIN as i128 || v > i128::MAX as i128 {
            Err(CastError::new("i32", "i128"))
        } else {
            Ok(self as i128)
        }
    }
}

impl SafeCast<isize> for i32 {
    open spec fn fits(self) -> bool {
        isize::MIN <= self <= isize::MAX
    }

    open spec fn converted(self) -> isize {
        self as isize
    }

    open spec fn type_names() -> (Seq<char>, Seq<char>) {
        ("i32"@, "isize"@)
    }

    fn safe_cast(self) -> Result<isize, CastError> {
        let v = self as i128;
        if v < isize::MIN as i128 || v > isize::MAX as i128 {
            Err(CastError::new("i32", "isize"))
        } else {
            Ok(self as isize)
        }
    }
}

impl SafeCast<u8> for i32 {
    open spec fn fits(self) -> bool {
        u8::MIN <= self <= u8::MAX
    }

    open spec fn converted(self) -> u8 {
        self as u8
    }

    open spec fn type_names() -> (Seq<char>, Seq<char>) {
        ("i32"@, "u8"@)
    }

    fn safe_cast(self) -> Result<u8, CastError> {
        let v = self as i128;
        if v < u8::MIN as i128 || v > u8::MAX as i128 {
            Err(CastError::new("i32", "u8"))
        } else {
            Ok(self as u8)
        }
    }
}

impl SafeCast<u16> for i32 {
    open spec fn fits(self) -> bool {
        u16::MIN <= self <= u16::MAX
    }

    open spec fn converted(self) -> u16 {
        self as u16
    }

    open spec fn type_names() -> (Seq<char>, Seq<char>) {
        ("i32"@, "u16"@)
    }

    fn safe_cast(self) -> Result<u16, CastError> {
        let v = self as i128;
        if v < u16::MIN as i128 || v > u16::MAX as i128 {
            Err(CastError::new("i32", "u16"))
        } else {
            Ok(self as u16)
        }
    }
}

impl SafeCast<u32> for i32 {
    open spec fn fits(self) -> bool {
        u32::MIN <= self <= u32::MAX
    }

    open spec fn converted(self) -> u32 {
        self as u32
    }

    open spec fn type_names() -> (Seq<char>, Seq<char>) {
        ("i32"@, "u32"@)
    }

    fn safe_cast(self) -> Result<u32, CastError> {
        let v = self as i128;
        if v < u32::MIN as i128 || v > u32::MAX as i128 {
            Err(CastError::new("i32", "u32"))
        } else {
            Ok(self as u32)
        }
    }
}

impl SafeCast<u64> for i32 {
    open spec fn fits(self) -> bool {
        u64::MIN <= self <= u64::MAX
    }

    open spec fn converted(self) -> u64 {
        self as u64
    }

    open spec fn type_names() -> (Seq<char>, Seq<char>) {
        ("i32"@, "u64"@)
    }

    fn safe_cast(self) -> Result<u64, CastError> {
        let v = self as i128;
        if v < u64::MIN as i128 || v > u64::MAX as i128 {
            Err(CastError::new("i32", "u64"))
        } else {
            Ok(self as u64)
        }
    }
}

impl SafeCast<u128> for i32 {
    open spec fn fits(self) -> bool {
        u128::MIN <= self <= u128::MAX
    }

    open spec fn converted(self) -> u128 {
        self as u128
    }

    open spec fn type_names() -> (Seq<char>, Seq<char>) {
        ("i32"@, "u128"@)
    }

    fn safe_cast(self) -> Result<u128, CastError> {
        if self < 0 {
            Err(CastError::new("i32", "u128"))
        } else {
            Ok(self as u128)
        }
    }
}

impl SafeCast<usize> for i32 {
    open spec fn fits(self) -> bool {
        usize::MIN <= self <= usize::MAX
    }

    open spec fn converted(self) -> usize {
        self as usize
    }

    open spec fn type_names() -> (Seq<char>, Seq<char>) {
        ("i32"@, "usize"@)
    }

    fn safe_cast(self) -> Result<usize, CastError> {
        let v = self as i128;
        if v < usize::MIN as i128 || v > usize::MAX as i128 {
            Err(CastError::new("i32", "usize"))
        } else {
            Ok(self as usize)
        }
    }
}

impl SafeCast<i8> for i64 {
    open spec fn fits(self) -> bool {
        i8::MIN <= self <= i8::MAX
    }

    open spec fn converted(self) -> i8 {
        self as i8
    }

    open spec fn type_names() -> (Seq<char>, Seq<char>) {
        ("i64"@, "i8"@)
    }

    fn safe_cast(self) -> Result<i8, CastError> {
        let v = self as i128;
        if v < i8::MIN as i128 || v > i8::MAX as i128 {
            Err(CastError::new("i64", "i8"))
        } else {
            Ok(self as i8)
        }
    }
}

impl SafeCast<i16> for i64 {
    open spec fn fits(self) -> bool {
        i16::MIN <= self <= i16::MAX
    }

    open spec fn converted(self) -> i16 {
        self as i16
    }

    open spec fn type_names() -> (Seq<char>, Seq<char>) {
        ("i64"@, "i16"@)
    }

    fn safe_cast(self) -> Result<i16, CastError> {
        let v = self as i128;
        if v < i16::MIN as i128 || v > i16::MAX as i128 {
            Err(CastError::new("i64", "i16"))
        } else {
            Ok(self as i16)
        }
    }
}

impl SafeCast<i32> for i64 {
    open spec fn fits(self) -> bool {
        i32::MIN <= self <= i32::MAX
    }

    open spec fn converted(self) -> i32 {
        self as i32
    }

    open spec fn type_names() -> (Seq<char>, Seq<char>) {
        ("i64"@, "i32"@)
    }

    fn safe_cast(self) -> Result<i32, CastError> {
        let v = self as i128;
        if v < i32::MIN as i128 || v > i32::MAX as i128 {
            Err(CastError::new("i64", "i32"))
        } else {
            Ok(self as i32)
        }
    }
}

impl SafeCast<i64> for i64 {
    open spec fn fits(self) -> bool {
        i64::MIN <= self <= i64::MAX
    }

    open spec fn converted(self) -> i64 {
        self as i64
    }

    open spec fn type_names() -> (Seq<char>, Seq<char>) {
        ("i64"@, "i64"@)
    }

    fn safe_cast(self) -> Result<i64, CastError> {
        Ok(self)
    }
}

impl SafeCast<i128> for i64 {
    open spec fn fits(self) -> bool {
        i128::MIN <= self <= i128::MAX
    }

    open spec fn converted(self) -> i128 {
        self as i128
    }

    open spec fn type_names() -> (Seq<char>, Seq<char>) {
        ("i64"@, "i128"@)
    }

    fn safe_cast(self) -> Result<i128, CastError> {
        let v = self as i128;
        if v < i128::MIN as i128 || v > i128::MAX as i128 {
            Err(CastError::new("i64", "i128"))
        } else {
            Ok(self as i128)
        }
    }
}

impl SafeCast<isize> for i64 {
    open spec fn fits(self) -> bool {
        isize::MIN <= self <= isize::MAX
    }

    open spec fn converted(self) -> isize {
        self as isize
    }

    open spec fn type_names() -> (Seq<char>, Seq<char>) {
        ("i64"@, "isize"@)
    }

    fn safe_cast(self) -> Result<isize, CastError> {
        let v = self as i128;
        if v < isize::MIN as i128 || v > isize::MAX as i128 {
            Err(CastError::new("i64", "isize"))
        } else {
            Ok(self as isize)
        }
    }
}

impl SafeCast<u8> for i64 {
    open spec fn fits(self) -> bool {
        u8::MIN <= self <= u8::MAX
    }

    open spec fn converted(self) -> u8 {
        self as u8
    }

    open spec fn type_names() -> (Seq<char>, Seq<char>) {
        ("i64"@, "u8"@)
    }

    fn safe_cast(self) -> Result<u8, CastError> {
        let v = self as i128;
        if v < u8::MIN as i128 || v > u8::MAX as i128 {
            Err(CastError::new("i64", "u8"))
        } else {
            Ok(self as u8)
        }
    }
}

impl SafeCast<u16> for i64 {
    open spec fn fits(self) -> bool {
        u16::MIN <= self <= u16::MAX
    }

    open spec fn converted(self) -> u16 {
        self as u16
    }

    open spec fn type_names() -> (Seq<char>, Seq<char>) {
        ("i64"@, "u16"@)
    }

    fn safe_cast(self) -> Result<u16, CastError> {
        let v = self as i128;
        if v < u16::MIN as i128 || v > u16::MAX as i128 {
            Err(CastError::new("i64", "u16"))
        } else {
            Ok(self as u16)
        }
    }
}

impl SafeCast<u32> for i64 {
    open spec fn fits(self) -> bool {
        u32::MIN <= self <= u32::MAX
    }

    open spec fn converted(self) -> u32 {
        self as u32
    }

    open spec fn type_names() -> (Seq<char>, Seq<char>) {
        ("i64"@, "u32"@)
    }

    fn safe_cast(self) -> Result<u32, CastError> {
        let v = self as i128;
        if v < u32::MIN as i128 || v > u32::MAX as i128 {
            Err(CastError::new("i64", "u32"))
        } else {
            Ok(self as u32)
        }
    }
}

impl SafeCast<u64> for i64 {
    open spec fn fits(self) -> bool {
        u64::MIN <= self <= u64::MAX
    }

    open spec fn converted(self) -> u64 {
        self as u64
    }

    open spec fn type_names() -> (Seq<char>, Seq<char>) {
        ("i64"@, "u64"@)
    }

    fn safe_cast(self) -> Result<u64, CastError> {
        let v = self as i128;
        if v < u64::MIN as i128 || v > u64::MAX as i128 {
            Err(CastError::new("i64", "u64"))
        } else {
            Ok(self as u64)
        }
    }
}

impl SafeCast<u128> for i64 {
    open spec fn fits(self) -> bool {
        u128::MIN <= self <= u128::MAX
    }

    open spec fn converted(self) -> u128 {
        self as u128
    }

    open spec fn type_names() -> (Seq<char>, Seq<char>) {
        ("i64"@, "u128"@)
    }

    fn safe_cast(self) -> Result<u128, CastError> {
        if self < 0 {
            Err(CastError::new("i64", "u128"))
        } else {
            Ok(self as u128)
        }
    }
}

impl SafeCast<usize> for i64 {
    open spec fn fits(self) -> bool {
        usize::MIN <= self <= usize::MAX
    }

    open spec fn converted(self) -> usize {
        self as usize
    }

    open spec fn type_names() -> (Seq<char>, Seq<char>) {
        ("i64"@, "usize"@)
    }

    fn safe_cast(self) -> Result<usize, CastError> {
        let v = self as i128;
        if v < usize::MIN as i128 || v > usize::MAX as i128 {
            Err(CastError::new("i64", "usize"))
        } else {
            Ok(self as usize)
        }
    }
}

impl SafeCast<i8> for i128 {
    open spec fn fits(self) -> bool {
        i8::MIN <= self <= i8::MAX
    }

    open spec fn converted(self) -> i8 {
        self as i8
    }

    open spec fn type_names() -> (Seq<char>, Seq<char>) {
        ("i128"@, "i8"@)
    }

    fn safe_cast(self) -> Result<i8, CastError> {
        let v = self as i128;
        if v < i8::MIN as i128 || v > i8::MAX as i128 {
            Err(CastError::new("i128", "i8"))
        } else {
            Ok(self as i8)
        }
    }
}

impl SafeCast<i16> for i128 {
    open spec fn fits(self) -> bool {
        i16::MIN <= self <= i16::MAX
    }

    open spec fn converted(self) -> i16 {
        self as i16
    }

    open spec fn type_names() -> (Seq<char>, Seq<char>) {
        ("i128"@, "i16"@)
    }

    fn safe_cast(self) -> Result<i16, CastError> {
        let v = self as i128;
        if v < i16::MIN as i128 || v > i16::MAX as i128 {
            Err(CastError::new("i128", "i16"))
        } else {
            Ok(self as i16)
        }
    }
}

impl SafeCast<i32> for i128 {
    open spec fn fits(self) -> bool {
        i32::MIN <= self <= i32::MAX
    }

    open spec fn converted(self) -> i32 {
        self as i32
    }

    open spec fn type_names() -> (Seq<char>, Seq<char>) {
        ("i128"@, "i32"@)
    }

    fn safe_cast(self) -> Result<i32, CastError> {
        let v = self as i128;
        if v < i32::MIN as i128 || v > i32::MAX as i128 {
            Err(CastError::new("i128", "i32"))
        } else {
            Ok(self as i32)
        }
    }
}

impl SafeCast<i64> for i128 {
    open spec fn fits(self) -> bool {
        i64::MIN <= self <= i64::MAX
    }

    open spec fn converted(self) -> i64 {
        self as i64
    }

    open spec fn type_names() -> (Seq<char>, Seq<char>) {
        ("i128"@, "i64"@)
    }

    fn safe_cast(self) -> Result<i64, CastError> {
        let v = self as i128;
        if v < i64::MIN as i128 || v > i64::MAX as i128 {
            Err(CastError::new("i128", "i64"))
        } else {
            Ok(self as i64)
        }
    }
}

impl SafeCast<i128> for i128 {
    open spec fn fits(self) -> bool {
        i128::MIN <= self <= i128::MAX
    }

    open spec fn converted(self) -> i128 {
        self as i128
    }

    open spec fn type_names() -> (Seq<char>, Seq<char>) {
        ("i128"@, "i128"@)
    }

    fn safe_cast(self) -> Result<i128, CastError> {
        Ok(self)
    }
}

impl SafeCast<isize> for i128 {
    open spec fn fits(self) -> bool {
        isize::MIN <= self <= isize::MAX
    }

    open spec fn converted(self) -> isize {
        self as isize
    }

    open spec fn type_names() -> (Seq<char>, Seq<char>) {
        ("i128"@, "isize"@)
    }

    fn safe_cast(self) -> Result<isize, CastError> {
        let v = self as i128;
        if v < isize::MIN as i128 || v > isize::MAX as i128 {
            Err(CastError::new("i128", "isize"))
        } else {
            Ok(self as isize)
        }
    }
}

impl SafeCast<u8> for i128 {
    open spec fn fits(self) -> bool {
        u8::MIN <= self <= u8::MAX
    }

    open spec fn converted(self) -> u8 {
        self as u8
    }

    open spec fn type_names() -> (Seq<char>, Seq<char>) {
        ("i128"@, "u8"@)
    }

    fn safe_cast(self) -> Result<u8, CastError> {
        let v = self as i128;
        if v < u8::MIN as i128 || v > u8::MAX as i128 {
            Err(CastError::new("i128", "u8"))
        } else {
            Ok(self as u8)
        }
    }
}

impl SafeCast<u16> for i128 {
    open spec fn fits(self) -> bool {
        u16::MIN <= self <= u16::MAX
    }

    open spec fn converted(self) -> u16 {
        self as u16
    }

    open spec fn type_names() -> (Seq<char>, Seq<char>) {
        ("i128"@, "u16"@)
    }

    fn safe_cast(self) -> Result<u16, CastError> {
        let v = self as i128;
        if v < u16::MIN as i128 || v > u16::MAX as i128 {
            Err(CastError::new("i128", "u16"))
        } else {
            Ok(self as u16)
        }
    }
}

impl SafeCast<u32> for i128 {
    open spec fn fits(self) -> bool {
        u32::MIN <= self <= u32::MAX
    }

    open spec fn converted(self) -> u32 {
        self as u32
    }

    open spec fn type_names() -> (Seq<char>, Seq<char>) {
        ("i128"@, "u32"@)
    }

    fn safe_cast(self) -> Result<u32, CastError> {
        let v = self as i128;
        if v < u32::MIN as i128 || v > u32::MAX as i128 {
            Err(CastError::new("i128", "u32"))
        } else {
            Ok(self as u32)
        }
    }
}

impl SafeCast<u64> for i128 {
    open spec fn fits(self) -> bool {
        u64::MIN <= self <= u64::MAX
    }

    open spec fn converted(self) -> u64 {
        self as u64
    }

    open spec fn type_names() -> (Seq<char>, Seq<char>) {
        ("i128"@, "u64"@)
    }

    fn safe_cast(self) -> Result<u64, CastError> {
        let v = self as i128;
        if v < u64::MIN as i128 || v > u64::MAX as i128 {
            Err(CastError::new("i128", "u64"))
        } else {
            Ok(self as u64)
        }
    }
}

impl SafeCast<u128> for i128 {
    open spec fn fits(self) -> bool {
        u128::MIN <= self <= u128::MAX
    }

    open spec fn converted(self) -> u128 {
        self as u128
    }

    open spec fn type_names() -> (Seq<char>, Seq<char>) {
        ("i128"@, "u128"@)
    }

    fn safe_cast(self) -> Result<u128, CastError> {
        if self < 0 {
            Err(CastError::new("i128", "u128"))
        } else {
            Ok(self as u128)
        }
    }
}

impl SafeCast<usize> for i128 {
    open spec fn fits(self) -> bool {
        usize::MIN <= self <= usize::MAX
    }

    open spec fn converted(self) -> usize {
        self as usize
    }

    open spec fn type_names() -> (Seq<char>, Seq<char>) {
        ("i128"@, "usize"@)
    }

    fn safe_cast(self) -> Result<usize, CastError> {
        let v = self as i128;
        if v < usize::MIN as i128 || v > usize::MAX as i128 {
            Err(CastError::new("i128", "usize"))
        } else {
            Ok(self as usize)
        }
    }
}

impl SafeCast<i8> for isize {
    open spec fn fits(self) -> bool {
        i8::MIN <= self <= i8::MAX
    }

    open spec fn converted(self) -> i8 {
        self as i8
    }

    open spec fn type_names() -> (Seq<char>, Seq<char>) {
        ("isize"@, "i8"@)
    }

    fn safe_cast(self) -> Result<i8, CastError> {
        let v = self as i128;
        if v < i8::MIN as i128 || v > i8::MAX as i128 {
            Err(CastError::new("isize", "i8"))
        } else {
            Ok(self as i8)
        }
    }
}

impl SafeCast<i16> for isize {
    open spec fn fits(self) -> bool {
        i16::MIN <= self <= i16::MAX
    }

    open spec fn converted(self) -> i16 {
        self as i16
    }

    open spec fn type_names() -> (Seq<char>, Seq<char>) {
        ("isize"@, "i16"@)
    }

    fn safe_cast(self) -> Result<i16, CastError> {
        let v = self as i128;
        if v < i16::MIN as i128 || v > i16::MAX as i128 {
            Err(CastError::new("isize", "i16"))
        } else {
            Ok(self as i16)
        }
    }
}

impl SafeCast<i32> for isize {
    open spec fn fits(self) -> bool {
        i32::MIN <= self <= i32::MAX
    }

    open spec fn converted(self) -> i32 {
        self as i32
    }

    open spec fn type_names() -> (Seq<char>, Seq<char>) {
        ("isize"@, "i32"@)
    }

    fn safe_cast(self) -> Result<i32, CastError> {
        let v = self as i128;
        if v < i32::MIN as i128 || v > i32::MAX as i128 {
            Err(CastError::new("isize", "i32"))
        } else {
            Ok(self as i32)
        }
    }
}

impl SafeCast<i64> for isize {
    open spec fn fits(self) -> bool {
        i64::MIN <= self <= i64::MAX
    }

    open spec fn converted(self) -> i64 {
        self as i64
    }

    open spec fn type_names() -> (Seq<char>, Seq<char>) {
        ("isize"@, "i64"@)
    }

    fn safe_cast(self) -> Result<i64, CastError> {
        let v = self as i128;
        if v < i64::MIN as i128 || v > i64::MAX as i128 {
            Err(CastError::new("isize", "i64"))
        } else {
            Ok(self as i64)
        }
    }
}

impl SafeCast<i128> for isize {
    open spec fn fits(self) -> bool {
        i128::MIN <= self <= i128::MAX
    }

    open spec fn converted(self) -> i128 {
        self as i128
    }

    open spec fn type_names() -> (Seq<char>, Seq<char>) {
        ("isize"@, "i128"@)
    }

    fn safe_cast(self) -> Result<i128, CastError> {
        let v = self as i128;
        if v < i128::MIN as i128 || v > i128::MAX as i128 {
            Err(CastError::new("isize", "i128"))
        } else {
            Ok(self as i128)
        }
    }
}

impl SafeCast<isize> for isize {
    open spec fn fits(self) -> bool {
        isize::MIN <= self <= isize::MAX
    }

    open spec fn converted(self) -> isize {
        self as isize
    }

    open spec fn type_names() -> (Seq<char>, Seq<char>) {
        ("isize"@, "isize"@)
    }

    fn safe_cast(self) -> Result<isize, CastError> {
        Ok(self)
    }
}

impl SafeCast<u8> for isize {
    open spec fn fits(self) -> bool {
        u8::MIN <= self <= u8::MAX
    }

    open spec fn converted(self) -> u8 {
        self as u8
    }

    open spec fn type_names() -> (Seq<char>, Seq<char>) {
        ("isize"@, "u8"@)
    }

    fn safe_cast(self) -> Result<u8, CastError> {
        let v = self as i128;
        if v < u8::MIN as i128 || v > u8::MAX as i128 {
            Err(CastError::new("isize", "u8"))
        } else {
            Ok(self as u8)
        }
    }
}

impl SafeCast<u16> for isize {
    open spec fn fits(self) -> bool {
        u16::MIN <= self <= u16::MAX
    }

    open spec fn converted(self) -> u16 {
        self as u16
    }

    open spec fn type_names() -> (Seq<char>, Seq<char>) {
        ("isize"@, "u16"@)
    }

    fn safe_cast(self) -> Result<u16, CastError> {
        let v = self as i128;
        if v < u16::MIN as i128 || v > u16::MAX as i128 {
            Err(CastError::new("isize", "u16"))
        } else {
            Ok(self as u16)
        }
    }
}

impl SafeCast<u32> for isize {
    open spec fn fits(self) -> bool {
        u32::MIN <= self <= u32::MAX
    }

    open spec fn converted(self) -> u32 {
        self as u32
    }

    open spec fn type_names() -> (Seq<char>, Seq<char>) {
        ("isize"@, "u32"@)
    }

    fn safe_cast(self) -> Result<u32, CastError> {
        let v = self as i128;
        if v < u32::MIN as i128 || v > u32::MAX as i128 {
            Err(CastError::new("isize", "u32"))
        } else {
            Ok(self as u32)
        }
    }
}

impl SafeCast<u64> for isize {
    open spec fn fits(self) -> bool {
        u64::MIN <= self <= u64::MAX
    }

    open spec fn converted(self) -> u64 {
        self as u64
    }

    open spec fn type_names() -> (Seq<char>, Seq<char>) {
        ("isize"@, "u64"@)
    }

    fn safe_cast(self) -> Result<u64, CastError> {
        let v = self as i128;
        if v < u64::MIN as i128 || v > u64::MAX as i128 {
            Err(CastError::new("isize", "u64"))
        } else {
            Ok(self as u64)
        }
    }
}

impl SafeCast<u128> for isize {
    open spec fn fits(self) -> bool {
        u128::MIN <= self <= u128::MAX
    }

    open spec fn converted(self) -> u128 {
        self as u128
    }

    open spec fn type_names() -> (Seq<char>, Seq<char>) {
        ("isize"@, "u128"@)
    }

    fn safe_cast(self) -> Result<u128, CastError> {
        if self < 0 {
            Err(CastError::new("isize", "u128"))
        } else {
            Ok(self as u128)
        }
    }
}

impl SafeCast<usize> for isize {
    open spec fn fits(self) -> bool {
        usize::MIN <= self <= usize::MAX
    }

    open spec fn converted(self) -> usize {
        self as usize
    }

    open spec fn type_names() -> (Seq<char>, Seq<char>) {
        ("isize"@, "usize"@)
    }

    fn safe_cast(self) -> Result<usize, CastError> {
        let v = self as i128;
        if v < usize::MIN as i128 || v > usize::MAX as i128 {
            Err(CastError::new("isize", "usize"))
        } else {
            Ok(self as usize)
        }
    }
}

impl SafeCast<i8> for u8 {
    open spec fn fits(self) -> bool {
        i8::MIN <= self <= i8::MAX
    }

    open spec fn converted(self) -> i8 {
        self as i8
    }

    open spec fn type_names() -> (Seq<char>, Seq<char>) {
        ("u8"@, "i8"@)
    }

    fn safe_cast(self) -> Result<i8, CastError> {
        let v = self as i128;
        if v < i8::MIN as i128 || v > i8::MAX as i128 {
            Err(CastError::new("u8", "i8"))
        } else {
            Ok(self as i8)
        }
    }
}

impl SafeCast<i16> for u8 {
    open spec fn fits(self) -> bool {
        i16::MIN <= self <= i16::MAX
    }

    open spec fn converted(self) -> i16 {
        self as i16
    }

    open spec fn type_names() -> (Seq<char>, Seq<char>) {
        ("u8"@, "i16"@)
    }

    fn safe_cast(self) -> Result<i16, CastError> {
        let v = self as i128;
        if v < i16::MIN as i128 || v > i16::MAX as i128 {
            Err(CastError::new("u8", "i16"))
        } else {
            Ok(self as i16)
        }
    }
}

impl SafeCast<i32> for u8 {
    open spec fn fits(self) -> bool {
        i32::MIN <= self <= i32::MAX
    }

    open spec fn converted(self) -> i32 {
        self as i32
    }

    open spec fn type_names() -> (Seq<char>, Seq<char>) {
        ("u8"@, "i32"@)
    }

    fn safe_cast(self) -> Result<i32, CastError> {
        let v = self as i128;
        if v < i32::MIN as i128 || v > i32::MAX as i128 {
            Err(CastError::new("u8", "i32"))
        } else {
            Ok(self as i32)
        }
    }
}

impl SafeCast<i64> for u8 {
    open spec fn fits(self) -> bool {
        i64::MIN <= self <= i64::MAX
    }

    open spec fn converted(self) -> i64 {
        self as i64
    }

    open spec fn type_names() -> (Seq<char>, Seq<char>) {
        ("u8"@, "i64"@)
    }

    fn safe_cast(self) -> Result<i64, CastError> {
        let v = self as i128;
        if v < i64::MIN as i128 || v > i64::MAX as i128 {
            Err(CastError::new("u8", "i64"))
        } else {
            Ok(self as i64)
        }
    }
}

impl SafeCast<i128> for u8 {
    open spec fn fits(self) -> bool {
        i128::MIN <= self <= i128::MAX
    }

    open spec fn converted(self) -> i128 {
        self as i128
    }

    open spec fn type_names() -> (Seq<char>, Seq<char>) {
        ("u8"@, "i128"@)
    }

    fn safe_cast(self) -> Result<i128, CastError> {
        let v = self as i128;
        if v < i128::MIN as i128 || v > i128::MAX as i128 {
            Err(CastError::new("u8", "i128"))
        } else {
            Ok(self as i128)
        }
    }
}

impl SafeCast<isize> for u8 {
    open spec fn fits(self) -> bool {
        isize::MIN <= self <= isize::MAX
    }

    open spec fn converted(self) -> isize {
        self as isize
    }

    open spec fn type_names() -> (Seq<char>, Seq<char>) {
        ("u8"@, "isize"@)
    }

    fn safe_cast(self) -> Result<isize, CastError> {
        let v = self as i128;
        if v < isize::MIN as i128 || v > isize::MAX as i128 {
            Err(CastError::new("u8", "isize"))
        } else {
            Ok(self as isize)
        }
    }
}

impl SafeCast<u8> for u8 {
    open spec fn fits(self) -> bool {
        u8::MIN <= self <= u8::MAX
    }

    open spec fn converted(self) -> u8 {
        self as u8
    }

    open spec fn type_names() -> (Seq<char>, Seq<char>) {
        ("u8"@, "u8"@)
    }

    fn safe_cast(self) -> Result<u8, CastError> {
        Ok(self)
    }
}

impl SafeCast<u16> for u8 {
    open spec fn fits(self) -> bool {
        u16::MIN <= self <= u16::MAX
    }

    open spec fn converted(self) -> u16 {
        self as u16
    }

    open spec fn type_names() -> (Seq<char>, Seq<char>) {
        ("u8"@, "u16"@)
    }

    fn safe_cast(self) -> Result<u16, CastError> {
        let v = self as i128;
        if v < u16::MIN as i128 || v > u16::MAX as i128 {
            Err(CastError::new("u8", "u16"))
        } else {
            Ok(self as u16)
        }
    }
}

impl SafeCast<u32> for u8 {
    open spec fn fits(self) -> bool {
        u32::MIN <= self <= u32::MAX
    }

    open spec fn converted(self) -> u32 {
        self as u32
    }

    open spec fn type_names() -> (Seq<char>, Seq<char>) {
        ("u8"@, "u32"@)
    }

    fn safe_cast(self) -> Result<u32, CastError> {
        let v = self as i128;
        if v < u32::MIN as i128 || v > u32::MAX as i128 {
            Err(CastError::new("u8", "u32"))
        } else {
            Ok(self as u32)
        }
    }
}

impl SafeCast<u64> for u8 {
    open spec fn fits(self) -> bool {
        u64::MIN <= self <= u64::MAX
    }

    open spec fn converted(self) -> u64 {
        self as u64
    }

    open spec fn type_names() -> (Seq<char>, Seq<char>) {
        ("u8"@, "u64"@)
    }

    fn safe_cast(self) -> Result<u64, CastError> {
        let v = self as i128;
        if v < u64::MIN as i128 || v > u64::MAX as i128 {
            Err(CastError::new("u8", "u64"))
        } else {
            Ok(self as u64)
        }
    }
}

impl SafeCast<u128> for u8 {
    open spec fn fits(self) -> bool {
        u128::MIN <= self <= u128::MAX
    }

    open spec fn converted(self) -> u128 {
        self as u128
    }

    open spec fn type_names() -> (Seq<char>, Seq<char>) {
        ("u8"@, "u128"@)
    }

    fn safe_cast(self) -> Result<u128, CastError> {
        Ok(self as u128)
    }
}

impl SafeCast<usize> for u8 {
    open spec fn fits(self) -> bool {
        usize::MIN <= self <= usize::MAX
    }

    open spec fn converted(self) -> usize {
        self as usize
    }

    open spec fn type_names() -> (Seq<char>, Seq<char>) {
        ("u8"@, "usize"@)
    }

    fn safe_cast(self) -> Result<usize, CastError> {
        let v = self as i128;
        if v < usize::MIN as i128 || v > usize::MAX as i128 {
            Err(CastError::new("u8", "usize"))
        } else {
            Ok(self as usize)
        }
    }
}

impl SafeCast<i8> for u16 {
    open spec fn fits(self) -> bool {
        i8::MIN <= self <= i8::MAX
    }

    open spec fn converted(self) -> i8 {
        self as i8
    }

    open spec fn type_names() -> (Seq<char>, Seq<char>) {
        ("u16"@, "i8"@)
    }

    fn safe_cast(self) -> Result<i8, CastError> {
        let v = self as i128;
        if v < i8::MIN as i128 || v > i8::MAX as i128 {
            Err(CastError::new("u16", "i8"))
        } else {
            Ok(self as i8)
        }
    }
}

impl SafeCast<i16> for u16 {
    open spec fn fits(self) -> bool {
        i16::MIN <= self <= i16::MAX
    }

    open spec fn converted(self) -> i16 {
        self as i16
    }

    open spec fn type_names() -> (Seq<char>, Seq<char>) {
        ("u16"@, "i16"@)
    }

    fn safe_cast(self) -> Result<i16, CastError> {
        let v = self as i128;
        if v < i16::MIN as i128 || v > i16::MAX as i128 {
            Err(CastError::new("u16", "i16"))
        } else {
            Ok(self as i16)
        }
    }
}

impl SafeCast<i32> for u16 {
    open spec fn fits(self) -> bool {
        i32::MIN <= self <= i32::MAX
    }

    open spec fn converted(self) -> i32 {
        self as i32
    }

    open spec fn type_names() -> (Seq<char>, Seq<char>) {
        ("u16"@, "i32"@)
    }

    fn safe_cast(self) -> Result<i32, CastError> {
        let v = self as i128;
        if v < i32::MIN as i128 || v > i32::MAX as i128 {
            Err(CastError::new("u16", "i32"))
        } else {
            Ok(self as i32)
        }
    }
}

impl SafeCast<i64> for u16 {
    open spec fn fits(self) -> bool {
        i64::MIN <= self <= i64::MAX
    }

    open spec fn converted(self) -> i64 {
        self as i64
    }

    open spec fn type_names() -> (Seq<char>, Seq<char>) {
        ("u16"@, "i64"@)
    }

    fn safe_cast(self) -> Result<i64, CastError> {
        let v = self as i128;
        if v < i64::MIN as i128 || v > i64::MAX as i128 {
            Err(CastError::new("u16", "i64"))
        } else {
            Ok(self as i64)
        }
    }
}

impl SafeCast<i128> for u16 {
    open spec fn fits(self) -> bool {
        i128::MIN <= self <= i128::MAX
    }

    open spec fn converted(self) -> i128 {
        self as i128
    }

    open spec fn type_names() -> (Seq<char>, Seq<char>) {
        ("u16"@, "i128"@)
    }

    fn safe_cast(self) -> Result<i128, CastError> {
        let v = self as i128;
        if v < i128::MIN as i128 || v > i128::MAX as i128 {
            Err(CastError::new("u16", "i128"))
        } else {
            Ok(self as i128)
        }
    }
}

impl SafeCast<isize> for u16 {
    open spec fn fits(self) -> bool {
        isize::MIN <= self <= isize::MAX
    }

    open spec fn converted(self) -> isize {
        self as isize
    }

    open spec fn type_names() -> (Seq<char>, Seq<char>) {
        ("u16"@, "isize"@)
    }

    fn safe_cast(self) -> Result<isize, CastError> {
        let v = self as i128;
        if v < isize::MIN as i128 || v > isize::MAX as i128 {
            Err(CastError::new("u16", "isize"))
        } else {
            Ok(self as isize)
        }
    }
}

impl SafeCast<u8> for u16 {
    open spec fn fits(self) -> bool {
        u8::MIN <= self <= u8::MAX
    }

    open spec fn converted(self) -> u8 {
        self as u8
    }

    open spec fn type_names() -> (Seq<char>, Seq<char>) {
        ("u16"@, "u8"@)
    }

    fn safe_cast(self) -> Result<u8, CastError> {
        let v = self as i128;
        if v < u8::MIN as i128 || v > u8::MAX as i128 {
            Err(CastError::new("u16", "u8"))
        } else {
            Ok(self as u8)
        }
    }
}

impl SafeCast<u16> for u16 {
    open spec fn fits(self) -> bool {
        u16::MIN <= self <= u16::MAX
    }

    open spec fn converted(self) -> u16 {
        self as u16
    }

    open spec fn type_names() -> (Seq<char>, Seq<char>) {
        ("u16"@, "u16"@)
    }

    fn safe_cast(self) -> Result<u16, CastError> {
        Ok(self)
    }
}

impl SafeCast<u32> for u16 {
    open spec fn fits(self) -> bool {
        u32::MIN <= self <= u32::MAX
    }

    open spec fn converted(self) -> u32 {
        self as u32
    }

    open spec fn type_names() -> (Seq<char>, Seq<char>) {
        ("u16"@, "u32"@)
    }

    fn safe_cast(self) -> Result<u32, CastError> {
        let v = self as i128;
        if v < u32::MIN as i128 || v > u32::MAX as i128 {
            Err(CastError::new("u16", "u32"))
        } else {
            Ok(self as u32)
        }
    }
}

impl SafeCast<u64> for u16 {
    open spec fn fits(self) -> bool {
        u64::MIN <= self <= u64::MAX
    }

    open spec fn converted(self) -> u64 {
        self as u64
    }

    open spec fn type_names() -> (Seq<char>, Seq<char>) {
        ("u16"@, "u64"@)
    }

    fn safe_cast(self) -> Result<u64, CastError> {
        let v = self as i128;
        if v < u64::MIN as i128 || v > u64::MAX as i128 {
            Err(CastError::new("u16", "u64"))
        } else {
            Ok(self as u64)
        }
    }
}

impl SafeCast<u128> for u16 {
    open spec fn fits(self) -> bool {
        u128::MIN <= self <= u128::MAX
    }

    open spec fn converted(self) -> u128 {
        self as u128
    }

    open spec fn type_names() -> (Seq<char>, Seq<char>) {
        ("u16"@, "u128"@)
    }

    fn safe_cast(self) -> Result<u128, CastError> {
        Ok(self as u128)
    }
}

impl SafeCast<usize> for u16 {
    open spec fn fits(self) -> bool {
        usize::MIN <= self <= usize::MAX
    }

    open spec fn converted(self) -> usize {
        self as usize
    }

    open spec fn type_names() -> (Seq<char>, Seq<char>) {
        ("u16"@, "usize"@)
    }

    fn safe_cast(self) -> Result<usize, CastError> {
        let v = self as i128;
        if v < usize::MIN as i128 || v > usize::MAX as i128 {
            Err(CastError::new("u16", "usize"))
        } else {
            Ok(self as usize)
        }
    }
}

impl SafeCast<i8> for u32 {
    open spec fn fits(self) -> bool {
        i8::MIN <= self <= i8::MAX
    }

    open spec fn converted(self) -> i8 {
        self as i8
    }

    open spec fn type_names() -> (Seq<char>, Seq<char>) {
        ("u32"@, "i8"@)
    }

    fn safe_cast(self) -> Result<i8, CastError> {
        let v = self as i128;
        if v < i8::MIN as i128 || v > i8::MAX as i128 {
            Err(CastError::new("u32", "i8"))
        } else {
            Ok(self as i8)
        }
    }
}

impl SafeCast<i16> for u32 {
    open spec fn fits(self) -> bool {
        i16::MIN <= self <= i16::MAX
    }

    open spec fn converted(self) -> i16 {
        self as i16
    }

    open spec fn type_names() -> (Seq<char>, Seq<char>) {
        ("u32"@, "i16"@)
    }

    fn safe_cast(self) -> Result<i16, CastError> {
        let v = self as i128;
        if v < i16::MIN as i128 || v > i16::MAX as i128 {
            Err(CastError::new("u32", "i16"))
        } else {
            Ok(self as i16)
        }
    }
}

impl SafeCast<i32> for u32 {
    open spec fn fits(self) -> bool {
        i32::MIN <= self <= i32::MAX
    }

    open spec fn converted(self) -> i32 {
        self as i32
    }

    open spec fn type_names() -> (Seq<char>, Seq<char>) {
        ("u32"@, "i32"@)
    }

    fn safe_cast(self) -> Result<i32, CastError> {
        let v = self as i128;
        if v < i32::MIN as i128 || v > i32::MAX as i128 {
            Err(CastError::new("u32", "i32"))
        } else {
            Ok(self as i32)
        }
    }
}

impl SafeCast<i64> for u32 {
    open spec fn fits(self) -> bool {
        i64::MIN <= self <= i64::MAX
    }

    open spec fn converted(self) -> i64 {
        self as i64
    }

    open spec fn type_names() -> (Seq<char>, Seq<char>) {
        ("u32"@, "i64"@)
    }

    fn safe_cast(self) -> Result<i64, CastError> {
        let v = self as i128;
        if v < i64::MIN as i128 || v > i64::MAX as i128 {
            Err(CastError::new("u32", "i64"))
        } else {
            Ok(self as i64)
        }
    }
}

impl SafeCast<i128> for u32 {
    open spec fn fits(self) -> bool {
        i128::MIN <= self <= i128::MAX
    }

    open spec fn converted(self) -> i128 {
        self as i128
    }

    open spec fn type_names() -> (Seq<char>, Seq<char>) {
        ("u32"@, "i128"@)
    }

    fn safe_cast(self) -> Result<i128, CastError> {
        let v = self as i128;
        if v < i128::MIN as i128 || v > i128::MAX as i128 {
            Err(CastError::new("u32", "i128"))
        } else {
            Ok(self as i128)
        }
    }
}

impl SafeCast<isize> for u32 {
    open spec fn fits(self) -> bool {
        isize::MIN <= self <= isize::MAX
    }

    open spec fn converted(self) -> isize {
        self as isize
    }

    open spec fn type_names() -> (Seq<char>, Seq<char>) {
        ("u32"@, "isize"@)
    }

    fn safe_cast(self) -> Result<isize, CastError> {
        let v = self as i128;
        if v < isize::MIN as i128 || v > isize::MAX as i128 {
            Err(CastError::new("u32", "isize"))
        } else {
            Ok(self as isize)
        }
    }
}

impl SafeCast<u8> for u32 {
    open spec fn fits(self) -> bool {
        u8::MIN <= self <= u8::MAX
    }

    open spec fn converted(self) -> u8 {
        self as u8
    }

    open spec fn type_names() -> (Seq<char>, Seq<char>) {
        ("u32"@, "u8"@)
    }

    fn safe_cast(self) -> Result<u8, CastError> {
        let v = self as i128;
        if v < u8::MIN as i128 || v > u8::MAX as i128 {
            Err(CastError::new("u32", "u8"))
        } else {
            Ok(self as u8)
        }
    }
}

impl SafeCast<u16> for u32 {
    open spec fn fits(self) -> bool {
        u16::MIN <= self <= u16::MAX
    }

    open spec fn converted(self) -> u16 {
        self as u16
    }

    open spec fn type_names() -> (Seq<char>, Seq<char>) {
        ("u32"@, "u16"@)
    }

    fn safe_cast(self) -> Result<u16, CastError> {
        let v = self as i128;
        if v < u16::MIN as i128 || v > u16::MAX as i128 {
            Err(CastError::new("u32", "u16"))
        } else {
            Ok(self as u16)
        }
    }
}

impl SafeCast<u32> for u32 {
    open spec fn fits(self) -> bool {
        u32::MIN <= self <= u32::MAX
    }

    open spec fn converted(self) -> u32 {
        self as u32
    }

    open spec fn type_names() -> (Seq<char>, Seq<char>) {
        ("u32"@, "u32"@)
    }

    fn safe_cast(self) -> Result<u32, CastError> {
        Ok(self)
    }
}

impl SafeCast<u64> for u32 {
    open spec fn fits(self) -> bool {
        u64::MIN <= self <= u64::MAX
    }

    open spec fn converted(self) -> u64 {
        self as u64
    }

    open spec fn type_names() -> (Seq<char>, Seq<char>) {
        ("u32"@, "u64"@)
    }

    fn safe_cast(self) -> Result<u64, CastError> {
        let v = self as i128;
        if v < u64::MIN as i128 || v > u64::MAX as i128 {
            Err(CastError::new("u32", "u64"))
        } else {
            Ok(self as u64)
        }
    }
}

impl SafeCast<u128> for u32 {
    open spec fn fits(self) -> bool {
        u128::MIN <= self <= u128::MAX
    }

    open spec fn converted(self) -> u128 {
        self as u128
    }

    open spec fn type_names() -> (Seq<char>, Seq<char>) {
        ("u32"@, "u128"@)
    }

    fn safe_cast(self) -> Result<u128, CastError> {
        Ok(self as u128)
    }
}

impl SafeCast<usize> for u32 {
    open spec fn fits(self) -> bool {
        usize::MIN <= self <= usize::MAX
    }

    open spec fn converted(self) -> usize {
        self as usize
    }

    open spec fn type_names() -> (Seq<char>, Seq<char>) {
        ("u32"@, "usize"@)
    }

    fn safe_cast(self) -> Result<usize, CastError> {
        let v = self as i128;
        if v < usize::MIN as i128 || v > usize::MAX as i128 {
            Err(CastError::new("u32", "usize"))
        } else {
            Ok(self as usize)
        }
    }
}

impl SafeCast<i8> for u64 {
    open spec fn fits(self) -> bool {
        i8::MIN <= self <= i8::MAX
    }

    open spec fn converted(self) -> i8 {
        self as i8
    }

    open spec fn type_names() -> (Seq<char>, Seq<char>) {
        ("u64"@, "i8"@)
    }

    fn safe_cast(self) -> Result<i8, CastError> {
        let v = self as i128;
        if v < i8::MIN as i128 || v > i8::MAX as i128 {
            Err(CastError::new("u64", "i8"))
        } else {
            Ok(self as i8)
        }
    }
}

impl SafeCast<i16> for u64 {
    open spec fn fits(self) -> bool {
        i16::MIN <= self <= i16::MAX
    }

    open spec fn converted(self) -> i16 {
        self as i16
    }

    open spec fn type_names() -> (Seq<char>, Seq<char>) {
        ("u64"@, "i16"@)
    }

    fn safe_cast(self) -> Result<i16, CastError> {
        let v = self as i128;
        if v < i16::MIN as i128 || v > i16::MAX as i128 {
            Err(CastError::new("u64", "i16"))
        } else {
            Ok(self as i16)
        }
    }
}

impl SafeCast<i32> for u64 {
    open spec fn fits(self) -> bool {
        i32::MIN <= self <= i32::MAX
    }

    open spec fn converted(self) -> i32 {
        self as i32
    }

    open spec fn type_names() -> (Seq<char>, Seq<char>) {
        ("u64"@, "i32"@)
    }

    fn safe_cast(self) -> Result<i32, CastError> {
        let v = self as i128;
        if v < i32::MIN as i128 || v > i32::MAX as i128 {
            Err(CastError::new("u64", "i32"))
        } else {
            Ok(self as i32)
        }
    }
}

impl SafeCast<i64> for u64 {
    open spec fn fits(self) -> bool {
        i64::MIN <= self <= i64::MAX
    }

    open spec fn converted(self) -> i64 {
        self as i64
    }

    open spec fn type_names() -> (Seq<char>, Seq<char>) {
        ("u64"@, "i64"@)
    }

    fn safe_cast(self) -> Result<i64, CastError> {
        let v = self as i128;
        if v < i64::MIN as i128 || v > i64::MAX as i128 {
            Err(CastError::new("u64", "i64"))
        } else {
            Ok(self as i64)
        }
    }
}

impl SafeCast<i128> for u64 {
    open spec fn fits(self) -> bool {
        i128::MIN <= self <= i128::MAX
    }

    open spec fn converted(self) -> i128 {
        self as i128
    }

    open spec fn type_names() -> (Seq<char>, Seq<char>) {
        ("u64"@, "i128"@)
    }

    fn safe_cast(self) -> Result<i128, CastError> {
        let v = self as i128;
        if v < i128::MIN as i128 || v > i128::MAX as i128 {
            Err(CastError::new("u64", "i128"))
        } else {
            Ok(self as i128)
        }
    }
}

impl SafeCast<isize> for u64 {
    open spec fn fits(self) -> bool {
        isize::MIN <= self <= isize::MAX
    }

    open spec fn converted(self) -> isize {
        self as isize
    }

    open spec fn type_names() -> (Seq<char>, Seq<char>) {
        ("u64"@, "isize"@)
    }

    fn safe_cast(self) -> Result<isize, CastError> {
        let v = self as i128;
        if v < isize::MIN as i128 || v > isize::MAX as i128 {
            Err(CastError::new("u64", "isize"))
        } else {
            Ok(self as isize)
        }
    }
}

impl SafeCast<u8> for u64 {
    open spec fn fits(self) -> bool {
        u8::MIN <= self <= u8::MAX
    }

    open spec fn converted(self) -> u8 {
        self as u8
    }

    open spec fn type_names() -> (Seq<char>, Seq<char>) {
        ("u64"@, "u8"@)
    }

    fn safe_cast(self) -> Result<u8, CastError> {
        let v = self as i128;
        if v < u8::MIN as i128 || v > u8::MAX as i128 {
            Err(CastError::new("u64", "u8"))
        } else {
            Ok(self as u8)
        }
    }
}

impl SafeCast<u16> for u64 {
    open spec fn fits(self) -> bool {
        u16::MIN <= self <= u16::MAX
    }

    open spec fn converted(self) -> u16 {
        self as u16
    }

    open spec fn type_names() -> (Seq<char>, Seq<char>) {
        ("u64"@, "u16"@)
    }

    fn safe_cast(self) -> Result<u16, CastError> {
        let v = self as i128;
        if v < u16::MIN as i128 || v > u16::MAX as i128 {
            Err(CastError::new("u64", "u16"))
        } else {
            Ok(self as u16)
        }
    }
}

impl SafeCast<u32> for u64 {
    open spec fn fits(self) -> bool {
        u32::MIN <= self <= u32::MAX
    }

    open spec fn converted(self) -> u32 {
        self as u32
    }

    open spec fn type_names() -> (Seq<char>, Seq<char>) {
        ("u64"@, "u32"@)
    }

    fn safe_cast(self) -> Result<u32, CastError> {
        let v = self as i128;
        if v < u32::MIN as i128 || v > u32::MAX as i128 {
            Err(CastError::new("u64", "u32"))
        } else {
            Ok(self as u32)
        }
    }
}

impl SafeCast<u64> for u64 {
    open spec fn fits(self) -> bool {
        u64::MIN <= self <= u64::MAX
    }

    open spec fn converted(self) -> u64 {
        self as u64
    }

    open spec fn type_names() -> (Seq<char>, Seq<char>) {
        ("u64"@, "u64"@)
    }

    fn safe_cast(self) -> Result<u64, CastError> {
        Ok(self)
    }
}

impl SafeCast<u128> for u64 {
    open spec fn fits(self) -> bool {
        u128::MIN <= self <= u128::MAX
    }

    open spec fn converted(self) -> u128 {
        self as u128
    }

    open spec fn type_names() -> (Seq<char>, Seq<char>) {
        ("u64"@, "u128"@)
    }

    fn safe_cast(self) -> Result<u128, CastError> {
        Ok(self as u128)
    }
}

impl SafeCast<usize> for u64 {
    open spec fn fits(self) -> bool {
        usize::MIN <= self <= usize::MAX
    }

    open spec fn converted(self) -> usize {
        self as usize
    }

    open spec fn type_names() -> (Seq<char>, Seq<char>) {
        ("u64"@, "usize"@)
    }

    fn safe_cast(self) -> Result<usize, CastError> {
        let v = self as i128;
        if v < usize::MIN as i128 || v > usize::MAX as i128 {
            Err(CastError::new("u64", "usize"))
        } else {
            Ok(self as usize)
        }
    }
}

impl SafeCast<i8> for u128 {
    open spec fn fits(self) -> bool {
        i8::MIN <= self <= i8::MAX
    }

    open spec fn converted(self) -> i8 {
        self as i8
    }

    open spec fn type_names() -> (Seq<char>, Seq<char>) {
        ("u128"@, "i8"@)
    }

    fn safe_cast(self) -> Result<i8, CastError> {
        if self > i8::MAX as u128 {
            Err(CastError::new("u128", "i8"))
        } else {
            Ok(self as i8)
        }
    }
}

impl SafeCast<i16> for u128 {
    open spec fn fits(self) -> bool {
        i16::MIN <= self <= i16::MAX
    }

    open spec fn converted(self) -> i16 {
        self as i16
    }

    open spec fn type_names() -> (Seq<char>, Seq<char>) {
        ("u128"@, "i16"@)
    }

    fn safe_cast(self) -> Result<i16, CastError> {
        if self > i16::MAX as u128 {
            Err(CastError::new("u128", "i16"))
        } else {
            Ok(self as i16)
        }
    }
}

impl SafeCast<i32> for u128 {
    open spec fn fits(self) -> bool {
        i32::MIN <= self <= i32::MAX
    }

    open spec fn converted(self) -> i32 {
        self as i32
    }

    open spec fn type_names() -> (Seq<char>, Seq<char>) {
        ("u128"@, "i32"@)
    }

    fn safe_cast(self) -> Result<i32, CastError> {
        if self > i32::MAX as u128 {
            Err(CastError::new("u128", "i32"))
        } else {
            Ok(self as i32)
        }
    }
}

impl SafeCast<i64> for u128 {
    open spec fn fits(self) -> bool {
        i64::MIN <= self <= i64::MAX
    }

    open spec fn converted(self) -> i64 {
        self as i64
    }

    open spec fn type_names() -> (Seq<char>, Seq<char>) {
        ("u128"@, "i64"@)
    }

    fn safe_cast(self) -> Result<i64, CastError> {
        if self > i64::MAX as u128 {
            Err(CastError::new("u128", "i64"))
        } else {
            Ok(self as i64)
        }
    }
}

impl SafeCast<i128> for u128 {
    open spec fn fits(self) -> bool {
        i128::MIN <= self <= i128::MAX
    }

    open spec fn converted(self) -> i128 {
        self as i128
    }

    open spec fn type_names() -> (Seq<char>, Seq<char>) {
        ("u128"@, "i128"@)
    }

    fn safe_cast(self) -> Result<i128, CastError> {
        if self > i128::MAX as u128 {
            Err(CastError::new("u128", "i128"))
        } else {
            Ok(self as i128)
        }
    }
}

impl SafeCast<isize> for u128 {
    open spec fn fits(self) -> bool {
        isize::MIN <= self <= isize::MAX
    }

    open spec fn converted(self) -> isize {
        self as isize
    }

    open spec fn type_names() -> (Seq<char>, Seq<char>) {
        ("u128"@, "isize"@)
    }

    fn safe_cast(self) -> Result<isize, CastError> {
        if self > isize::MAX as u128 {
            Err(CastError::new("u128", "isize"))
        } else {
            Ok(self as isize)
        }
    }
}

impl SafeCast<u8> for u128 {
    open spec fn fits(self) -> bool {
        u8::MIN <= self <= u8::MAX
    }

    open spec fn converted(self) -> u8 {
        self as u8
    }

    open spec fn type_names() -> (Seq<char>, Seq<char>) {
        ("u128"@, "u8"@)
    }

    fn safe_cast(self) -> Result<u8, CastError> {
        if self > u8::MAX as u128 {
            Err(CastError::new("u128", "u8"))
        } else {
            Ok(self as u8)
        }
    }
}

impl SafeCast<u16> for u128 {
    open spec fn fits(self) -> bool {
        u16::MIN <= self <= u16::MAX
    }

    open spec fn converted(self) -> u16 {
        self as u16
    }

    open spec fn type_names() -> (Seq<char>, Seq<char>) {
        ("u128"@, "u16"@)
    }

    fn safe_cast(self) -> Result<u16, CastError> {
        if self > u16::MAX as u128 {
            Err(CastError::new("u128", "u16"))
        } else {
            Ok(self as u16)
        }
    }
}

impl SafeCast<u32> for u128 {
    open spec fn fits(self) -> bool {
        u32::MIN <= self <= u32::MAX
    }

    open spec fn converted(self) -> u32 {
        self as u32
    }

    open spec fn type_names() -> (Seq<char>, Seq<char>) {
        ("u128"@, "u32"@)
    }

    fn safe_cast(self) -> Result<u32, CastError> {
        if self > u32::MAX as u128 {
            Err(CastError::new("u128", "u32"))
        } else {
            Ok(self as u32)
        }
    }
}

impl SafeCast<u64> for u128 {
    open spec fn fits(self) -> bool {
        u64::MIN <= self <= u64::MAX
    }

    open spec fn converted(self) -> u64 {
        self as u64
    }

    open spec fn type_names() -> (Seq<char>, Seq<char>) {
        ("u128"@, "u64"@)
    }

    fn safe_cast(self) -> Result<u64, CastError> {
        if self > u64::MAX as u128 {
            Err(CastError::new("u128", "u64"))
        } else {
            Ok(self as u64)
        }
    }
}

impl SafeCast<u128> for u128 {
    open spec fn fits(self) -> bool {
        u128::MIN <= self <= u128::MAX
    }

    open spec fn converted(self) -> u128 {
        self as u128
    }

    open spec fn type_names() -> (Seq<char>, Seq<char>) {
        ("u128"@, "u128"@)
    }

    fn safe_cast(self) -> Result<u128, CastError> {
        Ok(self)
    }
}

impl SafeCast<usize> for u128 {
    open spec fn fits(self) -> bool {
        usize::MIN <= self <= usize::MAX
    }

    open spec fn converted(self) -> usize {
        self as usize
    }

    open spec fn type_names() -> (Seq<char>, Seq<char>) {
        ("u128"@, "usize"@)
    }

    fn safe_cast(self) -> Result<usize, CastError> {
        if self > usize::MAX as u128 {
            Err(CastError::new("u128", "usize"))
        } else {
            Ok(self as usize)
        }
    }
}

impl SafeCast<i8> for usize {
    open spec fn fits(self) -> bool {
        i8::MIN <= self <= i8::MAX
    }

    open spec fn converted(self) -> i8 {
        self as i8
    }

    open spec fn type_names() -> (Seq<char>, Seq<char>) {
        ("usize"@, "i8"@)
    }

    fn safe_cast(self) -> Result<i8, CastError> {
        let v = self as i128;
        if v < i8::MIN as i128 || v > i8::MAX as i128 {
            Err(CastError::new("usize", "i8"))
        } else {
            Ok(self as i8)
        }
    }
}

impl SafeCast<i16> for usize {
    open spec fn fits(self) -> bool {
        i16::MIN <= self <= i16::MAX
    }

    open spec fn converted(self) -> i16 {
        self as i16
    }

    open spec fn type_names() -> (Seq<char>, Seq<char>) {
        ("usize"@, "i16"@)
    }

    fn safe_cast(self) -> Result<i16, CastError> {
        let v = self as i128;
        if v < i16::MIN as i128 || v > i16::MAX as i128 {
            Err(CastError::new("usize", "i16"))
        } else {
            Ok(self as i16)
        }
    }
}

impl SafeCast<i32> for usize {
    open spec fn fits(self) -> bool {
        i32::MIN <= self <= i32::MAX
    }

    open spec fn converted(self) -> i32 {
        self as i32
    }

    open spec fn type_names() -> (Seq<char>, Seq<char>) {
        ("usize"@, "i32"@)
    }

    fn safe_cast(self) -> Result<i32, CastError> {
        let v = self as i128;
        if v < i32::MIN as i128 || v > i32::MAX as i128 {
            Err(CastError::new("usize", "i32"))
        } else {
            Ok(self as i32)
        }
    }
}

impl SafeCast<i64> for usize {
    open spec fn fits(self) -> bool {
        i64::MIN <= self <= i64::MAX
    }

    open spec fn converted(self) -> i64 {
        self as i64
    }

    open spec fn type_names() -> (Seq<char>, Seq<char>) {
        ("usize"@, "i64"@)
    }

    fn safe_cast(self) -> Result<i64, CastError> {
        let v = self as i128;
        if v < i64::MIN as i128 || v > i64::MAX as i128 {
            Err(CastError::new("usize", "i64"))
        } else {
            Ok(self as i64)
        }
    }
}

impl SafeCast<i128> for usize {
    open spec fn fits(self) -> bool {
        i128::MIN <= self <= i128::MAX
    }

    open spec fn converted(self) -> i128 {
        self as i128
    }

    open spec fn type_names() -> (Seq<char>, Seq<char>) {
        ("usize"@, "i128"@)
    }

    fn safe_cast(self) -> Result<i128, CastError> {
        let v = self as i128;
        if v < i128::MIN as i128 || v > i128::MAX as i128 {
            Err(CastError::new("usize", "i128"))
        } else {
            Ok(self as i128)
        }
    }
}

impl SafeCast<isize> for usize {
    open spec fn fits(self) -> bool {
        isize::MIN <= self <= isize::MAX
    }

    open spec fn converted(self) -> isize {
        self as isize
    }

    open spec fn type_names() -> (Seq<char>, Seq<char>) {
        ("usize"@, "isize"@)
    }

    fn safe_cast(self) -> Result<isize, CastError> {
        let v = self as i128;
        if v < isize::MIN as i128 || v > isize::MAX as i128 {
            Err(CastError::new("usize", "isize"))
        } else {
            Ok(self as isize)
        }
    }
}

impl SafeCast<u8> for usize {
    open spec fn fits(self) -> bool {
        u8::MIN <= self <= u8::MAX
    }

    open spec fn converted(self) -> u8 {
        self as u8
    }

    open spec fn type_names() -> (Seq<char>, Seq<char>) {
        ("usize"@, "u8"@)
    }

    fn safe_cast(self) -> Result<u8, CastError> {
        let v = self as i128;
        if v < u8::MIN as i128 || v > u8::MAX as i128 {
            Err(CastError::new("usize", "u8"))
        } else {
            Ok(self as u8)
        }
    }
}

impl SafeCast<u16> for usize {
    open spec fn fits(self) -> bool {
        u16::MIN <= self <= u16::MAX
    }

    open spec fn converted(self) -> u16 {
        self as u16
    }

    open spec fn type_names() -> (Seq<char>, Seq<char>) {
        ("usize"@, "u16"@)
    }

    fn safe_cast(self) -> Result<u16, CastError> {
        let v = self as i128;
        if v < u16::MIN as i128 || v > u16::MAX as i128 {
            Err(CastError::new("usize", "u16"))
        } else {
            Ok(self as u16)
        }
    }
}

impl SafeCast<u32> for usize {
    open spec fn fits(self) -> bool {
        u32::MIN <= self <= u32::MAX
    }

    open spec fn converted(self) -> u32 {
        self as u32
    }

    open spec fn type_names() -> (Seq<char>, Seq<char>) {
        ("usize"@, "u32"@)
    }

    fn safe_cast(self) -> Result<u32, CastError> {
        let v = self as i128;
        if v < u32::MIN as i128 || v > u32::MAX as i128 {
            Err(CastError::new("usize", "u32"))
        } else {
            Ok(self as u32)
        }
    }
}

impl SafeCast<u64> for usize {
    open spec fn fits(self) -> bool {
        u64::MIN <= self <= u64::MAX
    }

    open spec fn converted(self) -> u64 {
        self as u64
    }

    open spec fn type_names() -> (Seq<char>, Seq<char>) {
        ("usize"@, "u64"@)
    }

    fn safe_cast(self) -> Result<u64, CastError> {
        let v = self as i128;
        if v < u64::MIN as i128 || v > u64::MAX as i128 {
            Err(CastError::new("usize", "u64"))
        } else {
            Ok(self as u64)
        }
    }
}

impl SafeCast<u128> for usize {
    open spec fn fits(self) -> bool {
        u128::MIN <= self <= u128::MAX
    }

    open spec fn converted(self) -> u128 {
        self as u128
    }

    open spec fn type_names() -> (Seq<char>, Seq<char>) {
        ("usize"@, "u128"@)
    }

    fn safe_cast(self) -> Result<u128, CastError> {
        Ok(self as u128)
    }
}

impl SafeCast<usize> for usize {
    open spec fn fits(self) -> bool {
        usize::MIN <= self <= usize::MAX
    }

    open spec fn converted(self) -> usize {
        self as usize
    }

    open spec fn type_names() -> (Seq<char>, Seq<char>) {
        ("usize"@, "usize"@)
    }

    fn safe_cast(self) -> Result<usize, CastError> {
        Ok(self)
    }
}

/// A cast to the type the value already has always succeeds and keeps the
/// value.
pub proof fn law_identity_casts_succeed(x_i8: i8, x_i16: i16, x_i32: i32, x_i64: i64, x_i128: i128, x_isize: isize, x_u8: u8, x_u16: u16, x_u32: u32, x_u64: u64, x_u128: u128, x_usize: usize)
    ensures
        <i8 as SafeCast<i8>>::fits(x_i8) && <i8 as SafeCast<i8>>::converted(x_i8) == x_i8,
        <i16 as SafeCast<i16>>::fits(x_i16) && <i16 as SafeCast<i16>>::converted(x_i16) == x_i16,
        <i32 as SafeCast<i32>>::fits(x_i32) && <i32 as SafeCast<i32>>::converted(x_i32) == x_i32,
        <i64 as SafeCast<i64>>::fits(x_i64) && <i64 as SafeCast<i64>>::converted(x_i64) == x_i64,
        <i128 as SafeCast<i128>>::fits(x_i128) && <i128 as SafeCast<i128>>::converted(x_i128) == x_i128,
        <isize as SafeCast<isize>>::fits(x_isize) && <isize as SafeCast<isize>>::converted(x_isize) == x_isize,
        <u8 as SafeCast<u8>>::fits(x_u8) && <u8 as SafeCast<u8>>::converted(x_u8) == x_u8,
        <u16 as SafeCast<u16>>::fits(x_u16) && <u16 as SafeCast<u16>>::converted(x_u16) == x_u16,
        <u32 as SafeCast<u32>>::fits(x_u32) && <u32 as SafeCast<u32>>::converted(x_u32) == x_u32,
        <u64 as SafeCast<u64>>::fits(x_u64) && <u64 as SafeCast<u64>>::converted(x_u64) == x_u64,
        <u128 as SafeCast<u128>>::fits(x_u128) && <u128 as SafeCast<u128>>::converted(x_u128) == x_u128,
        <usize as SafeCast<usize>>::fits(x_usize) && <usize as SafeCast<usize>>::converted(x_usize) == x_usize,
{
}

/// A cast from `i8` into a type whose range contains all of `i8`
/// always succeeds and keeps the value.
pub proof fn law_widening_from_i8_succeeds(x: i8)
    ensures
        <i8 as SafeCast<i16>>::fits(x) && <i8 as SafeCast<i16>>::converted(x) == x,
        <i8 as SafeCast<i32>>::fits(x) && <i8 as SafeCast<i32>>::converted(x) == x,
        <i8 as SafeCast<i64>>::fits(x) && <i8 as SafeCast<i64>>::converted(x) == x,
        <i8 as SafeCast<i128>>::fits(x) && <i8 as SafeCast<i128>>::converted(x) == x,
        <i8 as SafeCast<isize>>::fits(x) && <i8 as SafeCast<isize>>::converted(x) == x,
{
}

/// A cast from `i16` into a type whose range contains all of `i16`
/// always succeeds and keeps the value.
pub proof fn law_widening_from_i16_succeeds(x: i16)
    ensures
        <i16 as SafeCast<i32>>::fits(x) && <i16 as SafeCast<i32>>::converted(x) == x,
        <i16 as SafeCast<i64>>::fits(x) && <i16 as SafeCast<i64>>::converted(x) == x,
        <i16 as SafeCast<i128>>::fits(x) && <i16 as SafeCast<i128>>::converted(x) == x,
        <i16 as SafeCast<isize>>::fits(x) && <i16 as SafeCast<isize>>::converted(x) == x,
{
}

/// A cast from `i32` into a type whose range contains all of `i32`
/// always succeeds and keeps the value.
pub proof fn law_widening_from_i32_succeeds(x: i32)
    ensures
        <i32 as SafeCast<i64>>::fits(x) && <i32 as SafeCast<i64>>::converted(x) == x,
        <i32 as SafeCast<i128>>::fits(x) && <i32 as SafeCast<i128>>::converted(x) == x,
        <i32 as SafeCast<isize>>::fits(x) && <i32 as SafeCast<isize>>::converted(x) == x,
{
}

/// A cast from `i64` into a type whose range contains all of `i64`
/// always succeeds and keeps the value.
pub proof fn law_widening_from_i64_succeeds(x: i64)
    ensures
        <i64 as SafeCast<i128>>::fits(x) && <i64 as SafeCast<i128>>::converted(x) == x,
{
}

/// A cast from `isize` into a type whose range contains all of `isize`
/// always succeeds and keeps the value.
pub proof fn law_widening_from_isize_succeeds(x: isize)
    ensures
        <isize as SafeCast<i64>>::fits(x) && <isize as SafeCast<i64>>::converted(x) == x,
        <isize as SafeCast<i128>>::fits(x) && <isize as SafeCast<i128>>::converted(x) == x,
{
}

/// A cast from `u8` into a type whose range contains all of `u8`
/// always succeeds and keeps the value.
pub proof fn law_widening_from_u8_succeeds(x: u8)
    ensures
        <u8 as SafeCast<u16>>::fits(x) && <u8 as SafeCast<u16>>::converted(x) == x,
        <u8 as SafeCast<u32>>::fits(x) && <u8 as SafeCast<u32>>::converted(x) == x,
        <u8 as SafeCast<u64>>::fits(x) && <u8 as SafeCast<u64>>::converted(x) == x,
        <u8 as SafeCast<u128>>::fits(x) && <u8 as SafeCast<u128>>::converted(x) == x,
        <u8 as SafeCast<usize>>::fits(x) && <u8 as SafeCast<usize>>::converted(x) == x,
        <u8 as SafeCast<i16>>::fits(x) && <u8 as SafeCast<i16>>::converted(x) == x,
        <u8 as SafeCast<i32>>::fits(x) && <u8 as SafeCast<i32>>::converted(x) == x,
        <u8 as SafeCast<i64>>::fits(x) && <u8 as SafeCast<i64>>::converted(x) == x,
        <u8 as SafeCast<i128>>::fits(x) && <u8 as SafeCast<i128>>::converted(x) == x,
        <u8 as SafeCast<isize>>::fits(x) && <u8 as SafeCast<isize>>::converted(x) == x,
{
}

/// A cast from `u16` into a type whose range contains all of `u16`
/// always succeeds and keeps the value.
pub proof fn law_widening_from_u16_succeeds(x: u16)
    ensures
        <u16 as SafeCast<u32>>::fits(x) && <u16 as SafeCast<u32>>::converted(x) == x,
        <u16 as SafeCast<u64>>::fits(x) && <u16 as SafeCast<u64>>::converted(x) == x,
        <u16 as SafeCast<u128>>::fits(x) && <u16 as SafeCast<u128>>::converted(x) == x,
        <u16 as SafeCast<usize>>::fits(x) && <u16 as SafeCast<usize>>::converted(x) == x,
        <u16 as SafeCast<i32>>::fits(x) && <u16 as SafeCast<i32>>::converted(x) == x,
        <u16 as SafeCast<i64>>::fits(x) && <u16 as SafeCast<i64>>::converted(x) == x,
        <u16 as SafeCast<i128>>::fits(x) && <u16 as SafeCast<i128>>::converted(x) == x,
        <u16 as SafeCast<isize>>::fits(x) && <u16 as SafeCast<isize>>::converted(x) == x,
{
}

/// A cast from `u32` into a type whose range contains all of `u32`
/// always succeeds and keeps the value.
pub proof fn law_widening_from_u32_succeeds(x: u32)
    ensures
        <u32 as SafeCast<u64>>::fits(x) && <u32 as SafeCast<u64>>::converted(x) == x,
        <u32 as SafeCast<u128>>::fits(x) && <u32 as SafeCast<u128>>::converted(x) == x,
        <u32 as SafeCast<usize>>::fits(x) && <u32 as SafeCast<usize>>::converted(x) == x,
        <u32 as SafeCast<i64>>::fits(x) && <u32 as SafeCast<i64>>::converted(x) == x,
        <u32 as SafeCast<i128>>::fits(x) && <u32 as SafeCast<i128>>::converted(x) == x,
{
}

/// A cast from `u64` into a type whose range contains all of `u64`
/// always succeeds and keeps the value.
pub proof fn law_widening_from_u64_succeeds(x: u64)
    ensures
        <u64 as SafeCast<u128>>::fits(x) && <u64 as SafeCast<u128>>::converted(x) == x,
        <u64 as SafeCast<i128>>::fits(x) && <u64 as SafeCast<i128>>::converted(x) == x,
{
}

/// A cast from `usize` into a type whose range contains all of `usize`
/// always succeeds and keeps the value.
pub proof fn law_widening_from_usize_succeeds(x: usize)
    ensures
        <usize as SafeCast<u64>>::fits(x) && <usize as SafeCast<u64>>::converted(x) == x,
        <usize as SafeCast<u128>>::fits(x) && <usize as SafeCast<u128>>::converted(x) == x,
        <usize as SafeCast<i128>>::fits(x) && <usize as SafeCast<i128>>::converted(x) == x,
{
}
/// A cast from `i8` succeeds exactly when the value lies in the target
/// type's range (from its least to its greatest value, both included), and
/// then keeps the value.
pub proof fn law_casts_from_i8_are_exact(x: i8)
    ensures
        <i8 as SafeCast<i8>>::fits(x) <==> (-128int <= x && x <= 127int),
        <i8 as SafeCast<i8>>::fits(x) ==> <i8 as SafeCast<i8>>::converted(x) == x,
        <i8 as SafeCast<i16>>::fits(x) <==> (-32768int <= x && x <= 32767int),
        <i8 as SafeCast<i16>>::fits(x) ==> <i8 as SafeCast<i16>>::converted(x) == x,
        <i8 as SafeCast<i32>>::fits(x) <==> (-2147483648int <= x && x <= 2147483647int),
        <i8 as SafeCast<i32>>::fits(x) ==> <i8 as SafeCast<i32>>::converted(x) == x,
        <i8 as SafeCast<i64>>::fits(x) <==> (-9223372036854775808int <= x && x <= 9223372036854775807int),
        <i8 as SafeCast<i64>>::fits(x) ==> <i8 as SafeCast<i64>>::converted(x) == x,
        <i8 as SafeCast<i128>>::fits(x) <==> (-170141183460469231731687303715884105728int <= x && x <= 170141183460469231731687303715884105727int),
        <i8 as SafeCast<i128>>::fits(x) ==> <i8 as SafeCast<i128>>::converted(x) == x,
        <i8 as SafeCast<isize>>::fits(x) <==> (isize::MIN <= x && x <= isize::MAX),
        <i8 as SafeCast<isize>>::fits(x) ==> <i8 as SafeCast<isize>>::converted(x) == x,
        <i8 as SafeCast<u8>>::fits(x) <==> (0int <= x && x <= 255int),
        <i8 as SafeCast<u8>>::fits(x) ==> <i8 as SafeCast<u8>>::converted(x) == x,
        <i8 as SafeCast<u16>>::fits(x) <==> (0int <= x && x <= 65535int),
        <i8 as SafeCast<u16>>::fits(x) ==> <i8 as SafeCast<u16>>::converted(x) == x,
        <i8 as SafeCast<u32>>::fits(x) <==> (0int <= x && x <= 4294967295int),
        <i8 as SafeCast<u32>>::fits(x) ==> <i8 as SafeCast<u32>>::converted(x) == x,
        <i8 as SafeCast<u64>>::fits(x) <==> (0int <= x && x <= 18446744073709551615int),
        <i8 as SafeCast<u64>>::fits(x) ==> <i8 as SafeCast<u64>>::converted(x) == x,
        <i8 as SafeCast<u128>>::fits(x) <==> (0int <= x && x <= 340282366920938463463374607431768211455int),
        <i8 as SafeCast<u128>>::fits(x) ==> <i8 as SafeCast<u128>>::converted(x) == x,
        <i8 as SafeCast<usize>>::fits(x) <==> (0int <= x && x <= usize::MAX),
        <i8 as SafeCast<usize>>::fits(x) ==> <i8 as SafeCast<usize>>::converted(x) == x,
{
}

/// A cast from `i16` succeeds exactly when the value lies in the target
/// type's range (from its least to its greatest value, both included), and
/// then keeps the value.
pub proof fn law_casts_from_i16_are_exact(x: i16)
    ensures
        <i16 as SafeCast<i8>>::fits(x) <==> (-128int <= x && x <= 127int),
        <i16 as SafeCast<i8>>::fits(x) ==> <i16 as SafeCast<i8>>::converted(x) == x,
        <i16 as SafeCast<i16>>::fits(x) <==> (-32768int <= x && x <= 32767int),
        <i16 as SafeCast<i16>>::fits(x) ==> <i16 as SafeCast<i16>>::converted(x) == x,
        <i16 as SafeCast<i32>>::fits(x) <==> (-2147483648int <= x && x <= 2147483647int),
        <i16 as SafeCast<i32>>::fits(x) ==> <i16 as SafeCast<i32>>::converted(x) == x,
        <i16 as SafeCast<i64>>::fits(x) <==> (-9223372036854775808int <= x && x <= 9223372036854775807int),
        <i16 as SafeCast<i64>>::fits(x) ==> <i16 as SafeCast<i64>>::converted(x) == x,
        <i16 as SafeCast<i128>>::fits(x) <==> (-170141183460469231731687303715884105728int <= x && x <= 170141183460469231731687303715884105727int),
        <i16 as SafeCast<i128>>::fits(x) ==> <i16 as SafeCast<i128>>::converted(x) == x,
        <i16 as SafeCast<isize>>::fits(x) <==> (isize::MIN <= x && x <= isize::MAX),
        <i16 as SafeCast<isize>>::fits(x) ==> <i16 as SafeCast<isize>>::converted(x) == x,
        <i16 as SafeCast<u8>>::fits(x) <==> (0int <= x && x <= 255int),
        <i16 as SafeCast<u8>>::fits(x) ==> <i16 as SafeCast<u8>>::converted(x) == x,
        <i16 as SafeCast<u16>>::fits(x) <==> (0int <= x && x <= 65535int),
        <i16 as SafeCast<u16>>::fits(x) ==> <i16 as SafeCast<u16>>::converted(x) == x,
        <i16 as SafeCast<u32>>::fits(x) <==> (0int <= x && x <= 4294967295int),
        <i16 as SafeCast<u32>>::fits(x) ==> <i16 as SafeCast<u32>>::converted(x) == x,
        <i16 as SafeCast<u64>>::fits(x) <==> (0int <= x && x <= 18446744073709551615int),
        <i16 as SafeCast<u64>>::fits(x) ==> <i16 as SafeCast<u64>>::converted(x) == x,
        <i16 as SafeCast<u128>>::fits(x) <==> (0int <= x && x <= 340282366920938463463374607431768211455int),
        <i16 as SafeCast<u128>>::fits(x) ==> <i16 as SafeCast<u128>>::converted(x) == x,
        <i16 as SafeCast<usize>>::fits(x) <==> (0int <= x && x <= usize::MAX),
        <i16 as SafeCast<usize>>::fits(x) ==> <i16 as SafeCast<usize>>::converted(x) == x,
{
}

/// A cast from `i32` succeeds exactly when the value lies in the target
/// type's range (from its least to its greatest value, both included), and
/// then keeps the value.
pub proof fn law_casts_from_i32_are_exact(x: i32)
    ensures
        <i32 as SafeCast<i8>>::fits(x) <==> (-128int <= x && x <= 127int),
        <i32 as SafeCast<i8>>::fits(x) ==> <i32 as SafeCast<i8>>::converted(x) == x,
        <i32 as SafeCast<i16>>::fits(x) <==> (-32768int <= x && x <= 32767int),
        <i32 as SafeCast<i16>>::fits(x) ==> <i32 as SafeCast<i16>>::converted(x) == x,
        <i32 as SafeCast<i32>>::fits(x) <==> (-2147483648int <= x && x <= 2147483647int),
        <i32 as SafeCast<i32>>::fits(x) ==> <i32 as SafeCast<i32>>::converted(x) == x,
        <i32 as SafeCast<i64>>::fits(x) <==> (-9223372036854775808int <= x && x <= 9223372036854775807int),
        <i32 as SafeCast<i64>>::fits(x) ==> <i32 as SafeCast<i64>>::converted(x) == x,
        <i32 as SafeCast<i128>>::fits(x) <==> (-170141183460469231731687303715884105728int <= x && x <= 170141183460469231731687303715884105727int),
        <i32 as SafeCast<i128>>::fits(x) ==> <i32 as SafeCast<i128>>::converted(x) == x,
        <i32 as SafeCast<isize>>::fits(x) <==> (isize::MIN <= x && x <= isize::MAX),
        <i32 as SafeCast<isize>>::fits(x) ==> <i32 as SafeCast<isize>>::converted(x) == x,
        <i32 as SafeCast<u8>>::fits(x) <==> (0int <= x && x <= 255int),
        <i32 as SafeCast<u8>>::fits(x) ==> <i32 as SafeCast<u8>>::converted(x) == x,
        <i32 as SafeCast<u16>>::fits(x) <==> (0int <= x && x <= 65535int),
        <i32 as SafeCast<u16>>::fits(x) ==> <i32 as SafeCast<u16>>::converted(x) == x,
        <i32 as SafeCast<u32>>::fits(x) <==> (0int <= x && x <= 4294967295int),
        <i32 as SafeCast<u32>>::fits(x) ==> <i32 as SafeCast<u32>>::converted(x) == x,
        <i32 as SafeCast<u64>>::fits(x) <==> (0int <= x && x <= 18446744073709551615int),
        <i32 as SafeCast<u64>>::fits(x) ==> <i32 as SafeCast<u64>>::converted(x) == x,
        <i32 as SafeCast<u128>>::fits(x) <==> (0int <= x && x <= 340282366920938463463374607431768211455int),
        <i32 as SafeCast<u128>>::fits(x) ==> <i32 as SafeCast<u128>>::converted(x) == x,
        <i32 as SafeCast<usize>>::fits(x) <==> (0int <= x && x <= usize::MAX),
        <i32 as SafeCast<usize>>::fits(x) ==> <i32 as SafeCast<usize>>::converted(x) == x,
{
}

/// A cast from `i64` succeeds exactly when the value lies in the target
/// type's range (from its least to its greatest value, both included), and
/// then keeps the value.
pub proof fn law_casts_from_i64_are_exact(x: i64)
    ensures
        <i64 as SafeCast<i8>>::fits(x) <==> (-128int <= x && x <= 127int),
        <i64 as SafeCast<i8>>::fits(x) ==> <i64 as SafeCast<i8>>::converted(x) == x,
        <i64 as SafeCast<i16>>::fits(x) <==> (-32768int <= x && x <= 32767int),
        <i64 as SafeCast<i16>>::fits(x) ==> <i64 as SafeCast<i16>>::converted(x) == x,
        <i64 as SafeCast<i32>>::fits(x) <==> (-2147483648int <= x && x <= 2147483647int),
        <i64 as SafeCast<i32>>::fits(x) ==> <i64 as SafeCast<i32>>::converted(x) == x,
        <i64 as SafeCast<i64>>::fits(x) <==> (-9223372036854775808int <= x && x <= 9223372036854775807int),
        <i64 as SafeCast<i64>>::fits(x) ==> <i64 as SafeCast<i64>>::converted(x) == x,
        <i64 as SafeCast<i128>>::fits(x) <==> (-170141183460469231731687303715884105728int <= x && x <= 170141183460469231731687303715884105727int),
        <i64 as SafeCast<i128>>::fits(x) ==> <i64 as SafeCast<i128>>::converted(x) == x,
        <i64 as SafeCast<isize>>::fits(x) <==> (isize::MIN <= x && x <= isize::MAX),
        <i64 as SafeCast<isize>>::fits(x) ==> <i64 as SafeCast<isize>>::converted(x) == x,
        <i64 as SafeCast<u8>>::fits(x) <==> (0int <= x && x <= 255int),
        <i64 as SafeCast<u8>>::fits(x) ==> <i64 as SafeCast<u8>>::converted(x) == x,
        <i64 as SafeCast<u16>>::fits(x) <==> (0int <= x && x <= 65535int),
        <i64 as SafeCast<u16>>::fits(x) ==> <i64 as SafeCast<u16>>::converted(x) == x,
        <i64 as SafeCast<u32>>::fits(x) <==> (0int <= x && x <= 4294967295int),
        <i64 as SafeCast<u32>>::fits(x) ==> <i64 as SafeCast<u32>>::converted(x) == x,
        <i64 as SafeCast<u64>>::fits(x) <==> (0int <= x && x <= 18446744073709551615int),
        <i64 as SafeCast<u64>>::fits(x) ==> <i64 as SafeCast<u64>>::converted(x) == x,
        <i64 as SafeCast<u128>>::fits(x) <==> (0int <= x && x <= 340282366920938463463374607431768211455int),
        <i64 as SafeCast<u128>>::fits(x) ==> <i64 as SafeCast<u128>>::converted(x) == x,
        <i64 as SafeCast<usize>>::fits(x) <==> (0int <= x && x <= usize::MAX),
        <i64 as SafeCast<usize>>::fits(x) ==> <i64 as SafeCast<usize>>::converted(x) == x,
{
}

/// A cast from `i128` succeeds exactly when the value lies in the target
/// type's range (from its least to its greatest value, both included), and
/// then keeps the value.
pub proof fn law_casts_from_i128_are_exact(x: i128)
    ensures
        <i128 as SafeCast<i8>>::fits(x) <==> (-128int <= x && x <= 127int),
        <i128 as SafeCast<i8>>::fits(x) ==> <i128 as SafeCast<i8>>::converted(x) == x,
        <i128 as SafeCast<i16>>::fits(x) <==> (-32768int <= x && x <= 32767int),
        <i128 as SafeCast<i16>>::fits(x) ==> <i128 as SafeCast<i16>>::converted(x) == x,
        <i128 as SafeCast<i32>>::fits(x) <==> (-2147483648int <= x && x <= 2147483647int),
        <i128 as SafeCast<i32>>::fits(x) ==> <i128 as SafeCast<i32>>::converted(x) == x,
        <i128 as SafeCast<i64>>::fits(x) <==> (-9223372036854775808int <= x && x <= 9223372036854775807int),
        <i128 as SafeCast<i64>>::fits(x) ==> <i128 as SafeCast<i64>>::converted(x) == x,
        <i128 as SafeCast<i128>>::fits(x) <==> (-170141183460469231731687303715884105728int <= x && x <= 170141183460469231731687303715884105727int),
        <i128 as SafeCast<i128>>::fits(x) ==> <i128 as SafeCast<i128>>::converted(x) == x,
        <i128 as SafeCast<isize>>::fits(x) <==> (isize::MIN <= x && x <= isize::MAX),
        <i128 as SafeCast<isize>>::fits(x) ==> <i128 as SafeCast<isize>>::converted(x) == x,
        <i128 as SafeCast<u8>>::fits(x) <==> (0int <= x && x <= 255int),
        <i128 as SafeCast<u8>>::fits(x) ==> <i128 as SafeCast<u8>>::converted(x) == x,
        <i128 as SafeCast<u16>>::fits(x) <==> (0int <= x && x <= 65535int),
        <i128 as SafeCast<u16>>::fits(x) ==> <i128 as SafeCast<u16>>::converted(x) == x,
        <i128 as SafeCast<u32>>::fits(x) <==> (0int <= x && x <= 4294967295int),
        <i128 as SafeCast<u32>>::fits(x) ==> <i128 as SafeCast<u32>>::converted(x) == x,
        <i128 as SafeCast<u64>>::fits(x) <==> (0int <= x && x <= 18446744073709551615int),
        <i128 as SafeCast<u64>>::fits(x) ==> <i128 as SafeCast<u64>>::converted(x) == x,
        <i128 as SafeCast<u128>>::fits(x) <==> (0int <= x && x <= 340282366920938463463374607431768211455int),
        <i128 as SafeCast<u128>>::fits(x) ==> <i128 as SafeCast<u128>>::converted(x) == x,
        <i128 as SafeCast<usize>>::fits(x) <==> (0int <= x && x <= usize::MAX),
        <i128 as SafeCast<usize>>::fits(x) ==> <i128 as SafeCast<usize>>::converted(x) == x,
{
}

/// A cast from `isize` succeeds exactly when the value lies in the target
/// type's range (from its least to its greatest value, both included), and
/// then keeps the value.
pub proof fn law_casts_from_isize_are_exact(x: isize)
    ensures
        <isize as SafeCast<i8>>::fits(x) <==> (-128int <= x && x <= 127int),
        <isize as SafeCast<i8>>::fits(x) ==> <isize as SafeCast<i8>>::converted(x) == x,
        <isize as SafeCast<i16>>::fits(x) <==> (-32768int <= x && x <= 32767int),
        <isize as SafeCast<i16>>::fits(x) ==> <isize as SafeCast<i16>>::converted(x) == x,
        <isize as SafeCast<i32>>::fits(x) <==> (-2147483648int <= x && x <= 2147483647int),
        <isize as SafeCast<i32>>::fits(x) ==> <isize as SafeCast<i32>>::converted(x) == x,
        <isize as SafeCast<i64>>::fits(x) <==> (-9223372036854775808int <= x && x <= 9223372036854775807int),
        <isize as SafeCast<i64>>::fits(x) ==> <isize as SafeCast<i64>>::converted(x) == x,
        <isize as SafeCast<i128>>::fits(x) <==> (-170141183460469231731687303715884105728int <= x && x <= 170141183460469231731687303715884105727int),
        <isize as SafeCast<i128>>::fits(x) ==> <isize as SafeCast<i128>>::converted(x) == x,
        <isize as SafeCast<isize>>::fits(x) <==> (isize::MIN <= x && x <= isize::MAX),
        <isize as SafeCast<isize>>::fits(x) ==> <isize as SafeCast<isize>>::converted(x) == x,
        <isize as SafeCast<u8>>::fits(x) <==> (0int <= x && x <= 255int),
        <isize as SafeCast<u8>>::fits(x) ==> <isize as SafeCast<u8>>::converted(x) == x,
        <isize as SafeCast<u16>>::fits(x) <==> (0int <= x && x <= 65535int),
        <isize as SafeCast<u16>>::fits(x) ==> <isize as SafeCast<u16>>::converted(x) == x,
        <isize as SafeCast<u32>>::fits(x) <==> (0int <= x && x <= 4294967295int),
        <isize as SafeCast<u32>>::fits(x) ==> <isize as SafeCast<u32>>::converted(x) == x,
        <isize as SafeCast<u64>>::fits(x) <==> (0int <= x && x <= 18446744073709551615int),
        <isize as SafeCast<u64>>::fits(x) ==> <isize as SafeCast<u64>>::converted(x) == x,
        <isize as SafeCast<u128>>::fits(x) <==> (0int <= x && x <= 340282366920938463463374607431768211455int),
        <isize as SafeCast<u128>>::fits(x) ==> <isize as SafeCast<u128>>::converted(x) == x,
        <isize as SafeCast<usize>>::fits(x) <==> (0int <= x && x <= usize::MAX),
        <isize as SafeCast<usize>>::fits(x) ==> <isize as SafeCast<usize>>::converted(x) == x,
{
}

/// A cast from `u8` succeeds exactly when the value lies in the target
/// type's range (from its least to its greatest value, both included), and
/// then keeps the value.
pub proof fn law_casts_from_u8_are_exact(x: u8)
    ensures
        <u8 as SafeCast<i8>>::fits(x) <==> (-128int <= x && x <= 127int),
        <u8 as SafeCast<i8>>::fits(x) ==> <u8 as SafeCast<i8>>::converted(x) == x,
        <u8 as SafeCast<i16>>::fits(x) <==> (-32768int <= x && x <= 32767int),
        <u8 as SafeCast<i16>>::fits(x) ==> <u8 as SafeCast<i16>>::converted(x) == x,
        <u8 as SafeCast<i32>>::fits(x) <==> (-2147483648int <= x && x <= 2147483647int),
        <u8 as SafeCast<i32>>::fits(x) ==> <u8 as SafeCast<i32>>::converted(x) == x,
        <u8 as SafeCast<i64>>::fits(x) <==> (-9223372036854775808int <= x && x <= 9223372036854775807int),
        <u8 as SafeCast<i64>>::fits(x) ==> <u8 as SafeCast<i64>>::converted(x) == x,
        <u8 as SafeCast<i128>>::fits(x) <==> (-170141183460469231731687303715884105728int <= x && x <= 170141183460469231731687303715884105727int),
        <u8 as SafeCast<i128>>::fits(x) ==> <u8 as SafeCast<i128>>::converted(x) == x,
        <u8 as SafeCast<isize>>::fits(x) <==> (isize::MIN <= x && x <= isize::MAX),
        <u8 as SafeCast<isize>>::fits(x) ==> <u8 as SafeCast<isize>>::converted(x) == x,
        <u8 as SafeCast<u8>>::fits(x) <==> (0int <= x && x <= 255int),
        <u8 as SafeCast<u8>>::fits(x) ==> <u8 as SafeCast<u8>>::converted(x) == x,
        <u8 as SafeCast<u16>>::fits(x) <==> (0int <= x && x <= 65535int),
        <u8 as SafeCast<u16>>::fits(x) ==> <u8 as SafeCast<u16>>::converted(x) == x,
        <u8 as SafeCast<u32>>::fits(x) <==> (0int <= x && x <= 4294967295int),
        <u8 as SafeCast<u32>>::fits(x) ==> <u8 as SafeCast<u32>>::converted(x) == x,
        <u8 as SafeCast<u64>>::fits(x) <==> (0int <= x && x <= 18446744073709551615int),
        <u8 as SafeCast<u64>>::fits(x) ==> <u8 as SafeCast<u64>>::converted(x) == x,
        <u8 as SafeCast<u128>>::fits(x) <==> (0int <= x && x <= 340282366920938463463374607431768211455int),
        <u8 as SafeCast<u128>>::fits(x) ==> <u8 as SafeCast<u128>>::converted(x) == x,
        <u8 as SafeCast<usize>>::fits(x) <==> (0int <= x && x <= usize::MAX),
        <u8 as SafeCast<usize>>::fits(x) ==> <u8 as SafeCast<usize>>::converted(x) == x,
{
}

/// A cast from `u16` succeeds exactly when the value lies in the target
/// type's range (from its least to its greatest value, both included), and
/// then keeps the value.
pub proof fn law_casts_from_u16_are_exact(x: u16)
    ensures
        <u16 as SafeCast<i8>>::fits(x) <==> (-128int <= x && x <= 127int),
        <u16 as SafeCast<i8>>::fits(x) ==> <u16 as SafeCast<i8>>::converted(x) == x,
        <u16 as SafeCast<i16>>::fits(x) <==> (-32768int <= x && x <= 32767int),
        <u16 as SafeCast<i16>>::fits(x) ==> <u16 as SafeCast<i16>>::converted(x) == x,
        <u16 as SafeCast<i32>>::fits(x) <==> (-2147483648int <= x && x <= 2147483647int),
        <u16 as SafeCast<i32>>::fits(x) ==> <u16 as SafeCast<i32>>::converted(x) == x,
        <u16 as SafeCast<i64>>::fits(x) <==> (-9223372036854775808int <= x && x <= 9223372036854775807int),
        <u16 as SafeCast<i64>>::fits(x) ==> <u16 as SafeCast<i64>>::converted(x) == x,
        <u16 as SafeCast<i128>>::fits(x) <==> (-170141183460469231731687303715884105728int <= x && x <= 170141183460469231731687303715884105727int),
        <u16 as SafeCast<i128>>::fits(x) ==> <u16 as SafeCast<i128>>::converted(x) == x,
        <u16 as SafeCast<isize>>::fits(x) <==> (isize::MIN <= x && x <= isize::MAX),
        <u16 as SafeCast<isize>>::fits(x) ==> <u16 as SafeCast<isize>>::converted(x) == x,
        <u16 as SafeCast<u8>>::fits(x) <==> (0int <= x && x <= 255int),
        <u16 as SafeCast<u8>>::fits(x) ==> <u16 as SafeCast<u8>>::converted(x) == x,
        <u16 as SafeCast<u16>>::fits(x) <==> (0int <= x && x <= 65535int),
        <u16 as SafeCast<u16>>::fits(x) ==> <u16 as SafeCast<u16>>::converted(x) == x,
        <u16 as SafeCast<u32>>::fits(x) <==> (0int <= x && x <= 4294967295int),
        <u16 as SafeCast<u32>>::fits(x) ==> <u16 as SafeCast<u32>>::converted(x) == x,
        <u16 as SafeCast<u64>>::fits(x) <==> (0int <= x && x <= 18446744073709551615int),
        <u16 as SafeCast<u64>>::fits(x) ==> <u16 as SafeCast<u64>>::converted(x) == x,
        <u16 as SafeCast<u128>>::fits(x) <==> (0int <= x && x <= 340282366920938463463374607431768211455int),
        <u16 as SafeCast<u128>>::fits(x) ==> <u16 as SafeCast<u128>>::converted(x) == x,
        <u16 as SafeCast<usize>>::fits(x) <==> (0int <= x && x <= usize::MAX),
        <u16 as SafeCast<usize>>::fits(x) ==> <u16 as SafeCast<usize>>::converted(x) == x,
{
}

/// A cast from `u32` succeeds exactly when the value lies in the target
/// type's range (from its least to its greatest value, both included), and
/// then keeps the value.
pub proof fn law_casts_from_u32_are_exact(x: u32)
    ensures
        <u32 as SafeCast<i8>>::fits(x) <==> (-128int <= x && x <= 127int),
        <u32 as SafeCast<i8>>::fits(x) ==> <u32 as SafeCast<i8>>::converted(x) == x,
        <u32 as SafeCast<i16>>::fits(x) <==> (-32768int <= x && x <= 32767int),
        <u32 as SafeCast<i16>>::fits(x) ==> <u32 as SafeCast<i16>>::converted(x) == x,
        <u32 as SafeCast<i32>>::fits(x) <==> (-2147483648int <= x && x <= 2147483647int),
        <u32 as SafeCast<i32>>::fits(x) ==> <u32 as SafeCast<i32>>::converted(x) == x,
        <u32 as SafeCast<i64>>::fits(x) <==> (-9223372036854775808int <= x && x <= 9223372036854775807int),
        <u32 as SafeCast<i64>>::fits(x) ==> <u32 as SafeCast<i64>>::converted(x) == x,
        <u32 as SafeCast<i128>>::fits(x) <==> (-170141183460469231731687303715884105728int <= x && x <= 170141183460469231731687303715884105727int),
        <u32 as SafeCast<i128>>::fits(x) ==> <u32 as SafeCast<i128>>::converted(x) == x,
        <u32 as SafeCast<isize>>::fits(x) <==> (isize::MIN <= x && x <= isize::MAX),
        <u32 as SafeCast<isize>>::fits(x) ==> <u32 as SafeCast<isize>>::converted(x) == x,
        <u32 as SafeCast<u8>>::fits(x) <==> (0int <= x && x <= 255int),
        <u32 as SafeCast<u8>>::fits(x) ==> <u32 as SafeCast<u8>>::converted(x) == x,
        <u32 as SafeCast<u16>>::fits(x) <==> (0int <= x && x <= 65535int),
        <u32 as SafeCast<u16>>::fits(x) ==> <u32 as SafeCast<u16>>::converted(x) == x,
        <u32 as SafeCast<u32>>::fits(x) <==> (0int <= x && x <= 4294967295int),
        <u32 as SafeCast<u32>>::fits(x) ==> <u32 as SafeCast<u32>>::converted(x) == x,
        <u32 as SafeCast<u64>>::fits(x) <==> (0int <= x && x <= 18446744073709551615int),
        <u32 as SafeCast<u64>>::fits(x) ==> <u32 as SafeCast<u64>>::converted(x) == x,
        <u32 as SafeCast<u128>>::fits(x) <==> (0int <= x && x <= 340282366920938463463374607431768211455int),
        <u32 as SafeCast<u128>>::fits(x) ==> <u32 as SafeCast<u128>>::converted(x) == x,
        <u32 as SafeCast<usize>>::fits(x) <==> (0int <= x && x <= usize::MAX),
        <u32 as SafeCast<usize>>::fits(x) ==> <u32 as SafeCast<usize>>::converted(x) == x,
{
}

/// A cast from `u64` succeeds exactly when the value lies in the target
/// type's range (from its least to its greatest value, both included), and
/// then keeps the value.
pub proof fn law_casts_from_u64_are_exact(x: u64)
    ensures
        <u64 as SafeCast<i8>>::fits(x) <==> (-128int <= x && x <= 127int),
        <u64 as SafeCast<i8>>::fits(x) ==> <u64 as SafeCast<i8>>::converted(x) == x,
        <u64 as SafeCast<i16>>::fits(x) <==> (-32768int <= x && x <= 32767int),
        <u64 as SafeCast<i16>>::fits(x) ==> <u64 as SafeCast<i16>>::converted(x) == x,
        <u64 as SafeCast<i32>>::fits(x) <==> (-2147483648int <= x && x <= 2147483647int),
        <u64 as SafeCast<i32>>::fits(x) ==> <u64 as SafeCast<i32>>::converted(x) == x,
        <u64 as SafeCast<i64>>::fits(x) <==> (-9223372036854775808int <= x && x <= 9223372036854775807int),
        <u64 as SafeCast<i64>>::fits(x) ==> <u64 as SafeCast<i64>>::converted(x) == x,
        <u64 as SafeCast<i128>>::fits(x) <==> (-170141183460469231731687303715884105728int <= x && x <= 170141183460469231731687303715884105727int),
        <u64 as SafeCast<i128>>::fits(x) ==> <u64 as SafeCast<i128>>::converted(x) == x,
        <u64 as SafeCast<isize>>::fits(x) <==> (isize::MIN <= x && x <= isize::MAX),
        <u64 as SafeCast<isize>>::fits(x) ==> <u64 as SafeCast<isize>>::converted(x) == x,
        <u64 as SafeCast<u8>>::fits(x) <==> (0int <= x && x <= 255int),
        <u64 as SafeCast<u8>>::fits(x) ==> <u64 as SafeCast<u8>>::converted(x) == x,
        <u64 as SafeCast<u16>>::fits(x) <==> (0int <= x && x <= 65535int),
        <u64 as SafeCast<u16>>::fits(x) ==> <u64 as SafeCast<u16>>::converted(x) == x,
        <u64 as SafeCast<u32>>::fits(x) <==> (0int <= x && x <= 4294967295int),
        <u64 as SafeCast<u32>>::fits(x) ==> <u64 as SafeCast<u32>>::converted(x) == x,
        <u64 as SafeCast<u64>>::fits(x) <==> (0int <= x && x <= 18446744073709551615int),
        <u64 as SafeCast<u64>>::fits(x) ==> <u64 as SafeCast<u64>>::converted(x) == x,
        <u64 as SafeCast<u128>>::fits(x) <==> (0int <= x && x <= 340282366920938463463374607431768211455int),
        <u64 as SafeCast<u128>>::fits(x) ==> <u64 as SafeCast<u128>>::converted(x) == x,
        <u64 as SafeCast<usize>>::fits(x) <==> (0int <= x && x <= usize::MAX),
        <u64 as SafeCast<usize>>::fits(x) ==> <u64 as SafeCast<usize>>::converted(x) == x,
{
}

/// A cast from `u128` succeeds exactly when the value lies in the target
/// type's range (from its least to its greatest value, both included), and
/// then keeps the value.
pub proof fn law_casts_from_u128_are_exact(x: u128)
    ensures
        <u128 as SafeCast<i8>>::fits(x) <==> (-128int <= x && x <= 127int),
        <u128 as SafeCast<i8>>::fits(x) ==> <u128 as SafeCast<i8>>::converted(x) == x,
        <u128 as SafeCast<i16>>::fits(x) <==> (-32768int <= x && x <= 32767int),
        <u128 as SafeCast<i16>>::fits(x) ==> <u128 as SafeCast<i16>>::converted(x) == x,
        <u128 as SafeCast<i32>>::fits(x) <==> (-2147483648int <= x && x <= 2147483647int),
        <u128 as SafeCast<i32>>::fits(x) ==> <u128 as SafeCast<i32>>::converted(x) == x,
        <u128 as SafeCast<i64>>::fits(x) <==> (-9223372036854775808int <= x && x <= 9223372036854775807int),
        <u128 as SafeCast<i64>>::fits(x) ==> <u128 as SafeCast<i64>>::converted(x) == x,
        <u128 as SafeCast<i128>>::fits(x) <==> (-170141183460469231731687303715884105728int <= x && x <= 170141183460469231731687303715884105727int),
        <u128 as SafeCast<i128>>::fits(x) ==> <u128 as SafeCast<i128>>::converted(x) == x,
        <u128 as SafeCast<isize>>::fits(x) <==> (isize::MIN <= x && x <= isize::MAX),
        <u128 as SafeCast<isize>>::fits(x) ==> <u128 as SafeCast<isize>>::converted(x) == x,
        <u128 as SafeCast<u8>>::fits(x) <==> (0int <= x && x <= 255int),
        <u128 as SafeCast<u8>>::fits(x) ==> <u128 as SafeCast<u8>>::converted(x) == x,
        <u128 as SafeCast<u16>>::fits(x) <==> (0int <= x && x <= 65535int),
        <u128 as SafeCast<u16>>::fits(x) ==> <u128 as SafeCast<u16>>::converted(x) == x,
        <u128 as SafeCast<u32>>::fits(x) <==> (0int <= x && x <= 4294967295int),
        <u128 as SafeCast<u32>>::fits(x) ==> <u128 as SafeCast<u32>>::converted(x) == x,
        <u128 as SafeCast<u64>>::fits(x) <==> (0int <= x && x <= 18446744073709551615int),
        <u128 as SafeCast<u64>>::fits(x) ==> <u128 as SafeCast<u64>>::converted(x) == x,
        <u128 as SafeCast<u128>>::fits(x) <==> (0int <= x && x <= 340282366920938463463374607431768211455int),
        <u128 as SafeCast<u128>>::fits(x) ==> <u128 as SafeCast<u128>>::converted(x) == x,
        <u128 as SafeCast<usize>>::fits(x) <==> (0int <= x && x <= usize::MAX),
        <u128 as SafeCast<usize>>::fits(x) ==> <u128 as SafeCast<usize>>::converted(x) == x,
{
}

/// A cast from `usize` succeeds exactly when the value lies in the target
/// type's range (from its least to its greatest value, both included), and
/// then keeps the value.
pub proof fn law_casts_from_usize_are_exact(x: usize)
    ensures
        <usize as SafeCast<i8>>::fits(x) <==> (-128int <= x && x <= 127int),
        <usize as SafeCast<i8>>::fits(x) ==> <usize as SafeCast<i8>>::converted(x) == x,
        <usize as SafeCast<i16>>::fits(x) <==> (-32768int <= x && x <= 32767int),
        <usize as SafeCast<i16>>::fits(x) ==> <usize as SafeCast<i16>>::converted(x) == x,
        <usize as SafeCast<i32>>::fits(x) <==> (-2147483648int <= x && x <= 2147483647int),
        <usize as SafeCast<i32>>::fits(x) ==> <usize as SafeCast<i32>>::converted(x) == x,
        <usize as SafeCast<i64>>::fits(x) <==> (-9223372036854775808int <= x && x <= 9223372036854775807int),
        <usize as SafeCast<i64>>::fits(x) ==> <usize as SafeCast<i64>>::converted(x) == x,
        <usize as SafeCast<i128>>::fits(x) <==> (-170141183460469231731687303715884105728int <= x && x <= 170141183460469231731687303715884105727int),
        <usize as SafeCast<i128>>::fits(x) ==> <usize as SafeCast<i128>>::converted(x) == x,
        <usize as SafeCast<isize>>::fits(x) <==> (isize::MIN <= x && x <= isize::MAX),
        <usize as SafeCast<isize>>::fits(x) ==> <usize as SafeCast<isize>>::converted(x) == x,
        <usize as SafeCast<u8>>::fits(x) <==> (0int <= x && x <= 255int),
        <usize as SafeCast<u8>>::fits(x) ==> <usize as SafeCast<u8>>::converted(x) == x,
        <usize as SafeCast<u16>>::fits(x) <==> (0int <= x && x <= 65535int),
        <usize as SafeCast<u16>>::fits(x) ==> <usize as SafeCast<u16>>::converted(x) == x,
        <usize as SafeCast<u32>>::fits(x) <==> (0int <= x && x <= 4294967295int),
        <usize as SafeCast<u32>>::fits(x) ==> <usize as SafeCast<u32>>::converted(x) == x,
        <usize as SafeCast<u64>>::fits(x) <==> (0int <= x && x <= 18446744073709551615int),
        <usize as SafeCast<u64>>::fits(x) ==> <usize as SafeCast<u64>>::converted(x) == x,
        <usize as SafeCast<u128>>::fits(x) <==> (0int <= x && x <= 340282366920938463463374607431768211455int),
        <usize as SafeCast<u128>>::fits(x) ==> <usize as SafeCast<u128>>::converted(x) == x,
        <usize as SafeCast<usize>>::fits(x) <==> (0int <= x && x <= usize::MAX),
        <usize as SafeCast<usize>>::fits(x) ==> <usize as SafeCast<usize>>::converted(x) == x,
{
}

} // verus!
