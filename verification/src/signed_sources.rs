//! The truncation operations for signed source types.
//!
//! Every pair with a signed source implements the checked, aborting and
//! saturating families.  Bitwise truncation is deliberately not offered
//! for signed sources: see the crate root.

use vstd::prelude::*;

verus! {

use crate::model::IntValue;
use crate::{Chop, Shrink, TryTruncate};

impl TryTruncate<u8> for i8 {
    fn try_truncate(self) -> Option<u8> {
        if self >= 0 {
            Some(self as u8)
        } else {
            None
        }
    }
}

impl Chop<u8> for i8 {
    fn chop(self) -> u8 {
        let t: Option<u8> = self.try_truncate();
        t.unwrap()
    }
}

impl Shrink<u8> for i8 {
    fn shrink(self) -> u8 {
        let t: Option<u8> = self.try_truncate();
        match t {
            Some(v) => v,
            None => if self < 0 {
                u8::MIN
            } else {
                u8::MAX
            },
        }
    }
}

impl TryTruncate<i8> for i16 {
    fn try_truncate(self) -> Option<i8> {
        if self >= (i8::MIN as i16) && self <= (i8::MAX as i16) {
            Some(self as i8)
        } else {
            None
        }
    }
}

impl Chop<i8> for i16 {
    fn chop(self) -> i8 {
        let t: Option<i8> = self.try_truncate();
        t.unwrap()
    }
}

impl Shrink<i8> for i16 {
    fn shrink(self) -> i8 {
        let t: Option<i8> = self.try_truncate();
        match t {
            Some(v) => v,
            None => if self < (i8::MIN as i16) {
                i8::MIN
            } else {
                i8::MAX
            },
        }
    }
}

impl TryTruncate<u8> for i16 {
    fn try_truncate(self) -> Option<u8> {
        if self >= 0 && self <= (u8::MAX as i16) {
            Some(self as u8)
        } else {
            None
        }
    }
}

impl Chop<u8> for i16 {
    fn chop(self) -> u8 {
        let t: Option<u8> = self.try_truncate();
        t.unwrap()
    }
}

impl Shrink<u8> for i16 {
    fn shrink(self) -> u8 {
        let t: Option<u8> = self.try_truncate();
        match t {
            Some(v) => v,
            None => if self < 0 {
                u8::MIN
            } else {
                u8::MAX
            },
        }
    }
}

impl TryTruncate<u16> for i16 {
    fn try_truncate(self) -> Option<u16> {
        if self >= 0 {
            Some(self as u16)
        } else {
            None
        }
    }
}

impl Chop<u16> for i16 {
    fn chop(self) -> u16 {
        let t: Option<u16> = self.try_truncate();
        t.unwrap()
    }
}

impl Shrink<u16> for i16 {
    fn shrink(self) -> u16 {
        let t: Option<u16> = self.try_truncate();
        match t {
            Some(v) => v,
            None => if self < 0 {
                u16::MIN
            } else {
                u16::MAX
            },
        }
    }
}

impl TryTruncate<i8> for i32 {
    fn try_truncate(self) -> Option<i8> {
        if self >= (i8::MIN as i32) && self <= (i8::MAX as i32) {
            Some(self as i8)
        } else {
            None
        }
    }
}

impl Chop<i8> for i32 {
    fn chop(self) -> i8 {
        let t: Option<i8> = self.try_truncate();
        t.unwrap()
    }
}

impl Shrink<i8> for i32 {
    fn shrink(self) -> i8 {
        let t: Option<i8> = self.try_truncate();
        match t {
            Some(v) => v,
            None => if self < (i8::MIN as i32) {
                i8::MIN
            } else {
                i8::MAX
            },
        }
    }
}

impl TryTruncate<i16> for i32 {
    fn try_truncate(self) -> Option<i16> {
        if self >= (i16::MIN as i32) && self <= (i16::MAX as i32) {
            Some(self as i16)
        } else {
            None
        }
    }
}

impl Chop<i16> for i32 {
    fn chop(self) -> i16 {
        let t: Option<i16> = self.try_truncate();
        t.unwrap()
    }
}

impl Shrink<i16> for i32 {
    fn shrink(self) -> i16 {
        let t: Option<i16> = self.try_truncate();
        match t {
            Some(v) => v,
            None => if self < (i16::MIN as i32) {
                i16::MIN
            } else {
                i16::MAX
            },
        }
    }
}

impl TryTruncate<u8> for i32 {
    fn try_truncate(self) -> Option<u8> {
        if self >= 0 && self <= (u8::MAX as i32) {
            Some(self as u8)
        } else {
            None
        }
    }
}

impl Chop<u8> for i32 {
    fn chop(self) -> u8 {
        let t: Option<u8> = self.try_truncate();
        t.unwrap()
    }
}

impl Shrink<u8> for i32 {
    fn shrink(self) -> u8 {
        let t: Option<u8> = self.try_truncate();
        match t {
            Some(v) => v,
            None => if self < 0 {
                u8::MIN
            } else {
                u8::MAX
            },
        }
    }
}

impl TryTruncate<u16> for i32 {
    fn try_truncate(self) -> Option<u16> {
        if self >= 0 && self <= (u16::MAX as i32) {
            Some(self as u16)
        } else {
            None
        }
    }
}

impl Chop<u16> for i32 {
    fn chop(self) -> u16 {
        let t: Option<u16> = self.try_truncate();
        t.unwrap()
    }
}

impl Shrink<u16> for i32 {
    fn shrink(self) -> u16 {
        let t: Option<u16> = self.try_truncate();
        match t {
            Some(v) => v,
            None => if self < 0 {
                u16::MIN
            } else {
                u16::MAX
            },
        }
    }
}

impl TryTruncate<u32> for i32 {
    fn try_truncate(self) -> Option<u32> {
        if self >= 0 {
            Some(self as u32)
        } else {
            None
        }
    }
}

impl Chop<u32> for i32 {
    fn chop(self) -> u32 {
        let t: Option<u32> = self.try_truncate();
        t.unwrap()
    }
}

impl Shrink<u32> for i32 {
    fn shrink(self) -> u32 {
        let t: Option<u32> = self.try_truncate();
        match t {
            Some(v) => v,
            None => if self < 0 {
                u32::MIN
            } else {
                u32::MAX
            },
        }
    }
}

impl TryTruncate<i8> for i64 {
    fn try_truncate(self) -> Option<i8> {
        if self >= (i8::MIN as i64) && self <= (i8::MAX as i64) {
            Some(self as i8)
        } else {
            None
        }
    }
}

impl Chop<i8> for i64 {
    fn chop(self) -> i8 {
        let t: Option<i8> = self.try_truncate();
        t.unwrap()
    }
}

impl Shrink<i8> for i64 {
    fn shrink(self) -> i8 {
        let t: Option<i8> = self.try_truncate();
        match t {
            Some(v) => v,
            None => if self < (i8::MIN as i64) {
                i8::MIN
            } else {
                i8::MAX
            },
        }
    }
}

impl TryTruncate<i16> for i64 {
    fn try_truncate(self) -> Option<i16> {
        if self >= (i16::MIN as i64) && self <= (i16::MAX as i64) {
            Some(self as i16)
        } else {
            None
        }
    }
}

impl Chop<i16> for i64 {
    fn chop(self) -> i16 {
        let t: Option<i16> = self.try_truncate();
        t.unwrap()
    }
}

impl Shrink<i16> for i64 {
    fn shrink(self) -> i16 {
        let t: Option<i16> = self.try_truncate();
        match t {
            Some(v) => v,
            None => if self < (i16::MIN as i64) {
                i16::MIN
            } else {
                i16::MAX
            },
        }
    }
}

impl TryTruncate<i32> for i64 {
    fn try_truncate(self) -> Option<i32> {
        if self >= (i32::MIN as i64) && self <= (i32::MAX as i64) {
            Some(self as i32)
        } else {
            None
        }
    }
}

impl Chop<i32> for i64 {
    fn chop(self) -> i32 {
        let t: Option<i32> = self.try_truncate();
        t.unwrap()
    }
}

impl Shrink<i32> for i64 {
    fn shrink(self) -> i32 {
        let t: Option<i32> = self.try_truncate();
        match t {
            Some(v) => v,
            None => if self < (i32::MIN as i64) {
                i32::MIN
            } else {
                i32::MAX
            },
        }
    }
}

impl TryTruncate<u8> for i64 {
    fn try_truncate(self) -> Option<u8> {
        if self >= 0 && self <= (u8::MAX as i64) {
            Some(self as u8)
        } else {
            None
        }
    }
}

impl Chop<u8> for i64 {
    fn chop(self) -> u8 {
        let t: Option<u8> = self.try_truncate();
        t.unwrap()
    }
}

impl Shrink<u8> for i64 {
    fn shrink(self) -> u8 {
        let t: Option<u8> = self.try_truncate();
        match t {
            Some(v) => v,
            None => if self < 0 {
                u8::MIN
            } else {
                u8::MAX
            },
        }
    }
}

impl TryTruncate<u16> for i64 {
    fn try_truncate(self) -> Option<u16> {
        if self >= 0 && self <= (u16::MAX as i64) {
            Some(self as u16)
        } else {
            None
        }
    }
}

impl Chop<u16> for i64 {
    fn chop(self) -> u16 {
        let t: Option<u16> = self.try_truncate();
        t.unwrap()
    }
}

impl Shrink<u16> for i64 {
    fn shrink(self) -> u16 {
        let t: Option<u16> = self.try_truncate();
        match t {
            Some(v) => v,
            None => if self < 0 {
                u16::MIN
            } else {
                u16::MAX
            },
        }
    }
}

impl TryTruncate<u32> for i64 {
    fn try_truncate(self) -> Option<u32> {
        if self >= 0 && self <= (u32::MAX as i64) {
            Some(self as u32)
        } else {
            None
        }
    }
}

impl Chop<u32> for i64 {
    fn chop(self) -> u32 {
        let t: Option<u32> = self.try_truncate();
        t.unwrap()
    }
}

impl Shrink<u32> for i64 {
    fn shrink(self) -> u32 {
        let t: Option<u32> = self.try_truncate();
        match t {
            Some(v) => v,
            None => if self < 0 {
                u32::MIN
            } else {
                u32::MAX
            },
        }
    }
}

impl TryTruncate<u64> for i64 {
    fn try_truncate(self) -> Option<u64> {
        if self >= 0 {
            Some(self as u64)
        } else {
            None
        }
    }
}

impl Chop<u64> for i64 {
    fn chop(self) -> u64 {
        let t: Option<u64> = self.try_truncate();
        t.unwrap()
    }
}

impl Shrink<u64> for i64 {
    fn shrink(self) -> u64 {
        let t: Option<u64> = self.try_truncate();
        match t {
            Some(v) => v,
            None => if self < 0 {
                u64::MIN
            } else {
                u64::MAX
            },
        }
    }
}

impl TryTruncate<i8> for i128 {
    fn try_truncate(self) -> Option<i8> {
        if self >= (i8::MIN as i128) && self <= (i8::MAX as i128) {
            Some(self as i8)
        } else {
            None
        }
    }
}

impl Chop<i8> for i128 {
    fn chop(self) -> i8 {
        let t: Option<i8> = self.try_truncate();
        t.unwrap()
    }
}

impl Shrink<i8> for i128 {
    fn shrink(self) -> i8 {
        let t: Option<i8> = self.try_truncate();
        match t {
            Some(v) => v,
            None => if self < (i8::MIN as i128) {
                i8::MIN
            } else {
                i8::MAX
            },
        }
    }
}

impl TryTruncate<i16> for i128 {
    fn try_truncate(self) -> Option<i16> {
        if self >= (i16::MIN as i128) && self <= (i16::MAX as i128) {
            Some(self as i16)
        } else {
            None
        }
    }
}

impl Chop<i16> for i128 {
    fn chop(self) -> i16 {
        let t: Option<i16> = self.try_truncate();
        t.unwrap()
    }
}

impl Shrink<i16> for i128 {
    fn shrink(self) -> i16 {
        let t: Option<i16> = self.try_truncate();
        match t {
            Some(v) => v,
            None => if self < (i16::MIN as i128) {
                i16::MIN
            } else {
                i16::MAX
            },
        }
    }
}

impl TryTruncate<i32> for i128 {
    fn try_truncate(self) -> Option<i32> {
        if self >= (i32::MIN as i128) && self <= (i32::MAX as i128) {
            Some(self as i32)
        } else {
            None
        }
    }
}

impl Chop<i32> for i128 {
    fn chop(self) -> i32 {
        let t: Option<i32> = self.try_truncate();
        t.unwrap()
    }
}

impl Shrink<i32> for i128 {
    fn shrink(self) -> i32 {
        let t: Option<i32> = self.try_truncate();
        match t {
            Some(v) => v,
            None => if self < (i32::MIN as i128) {
                i32::MIN
            } else {
                i32::MAX
            },
        }
    }
}

impl TryTruncate<i64> for i128 {
    fn try_truncate(self) -> Option<i64> {
        if self >= (i64::MIN as i128) && self <= (i64::MAX as i128) {
            Some(self as i64)
        } else {
            None
        }
    }
}

impl Chop<i64> for i128 {
    fn chop(self) -> i64 {
        let t: Option<i64> = self.try_truncate();
        t.unwrap()
    }
}

impl Shrink<i64> for i128 {
    fn shrink(self) -> i64 {
        let t: Option<i64> = self.try_truncate();
        match t {
            Some(v) => v,
            None => if self < (i64::MIN as i128) {
                i64::MIN
            } else {
                i64::MAX
            },
        }
    }
}

impl TryTruncate<u8> for i128 {
    fn try_truncate(self) -> Option<u8> {
        if self >= 0 && self <= (u8::MAX as i128) {
            Some(self as u8)
        } else {
            None
        }
    }
}

impl Chop<u8> for i128 {
    fn chop(self) -> u8 {
        let t: Option<u8> = self.try_truncate();
        t.unwrap()
    }
}

impl Shrink<u8> for i128 {
    fn shrink(self) -> u8 {
        let t: Option<u8> = self.try_truncate();
        match t {
            Some(v) => v,
            None => if self < 0 {
                u8::MIN
            } else {
                u8::MAX
            },
        }
    }
}

impl TryTruncate<u16> for i128 {
    fn try_truncate(self) -> Option<u16> {
        if self >= 0 && self <= (u16::MAX as i128) {
            Some(self as u16)
        } else {
            None
        }
    }
}

impl Chop<u16> for i128 {
    fn chop(self) -> u16 {
        let t: Option<u16> = self.try_truncate();
        t.unwrap()
    }
}

impl Shrink<u16> for i128 {
    fn shrink(self) -> u16 {
        let t: Option<u16> = self.try_truncate();
        match t {
            Some(v) => v,
            None => if self < 0 {
                u16::MIN
            } else {
                u16::MAX
            },
        }
    }
}

impl TryTruncate<u32> for i128 {
    fn try_truncate(self) -> Option<u32> {
        if self >= 0 && self <= (u32::MAX as i128) {
            Some(self as u32)
        } else {
            None
        }
    }
}

impl Chop<u32> for i128 {
    fn chop(self) -> u32 {
        let t: Option<u32> = self.try_truncate();
        t.unwrap()
    }
}

impl Shrink<u32> for i128 {
    fn shrink(self) -> u32 {
        let t: Option<u32> = self.try_truncate();
        match t {
            Some(v) => v,
            None => if self < 0 {
                u32::MIN
            } else {
                u32::MAX
            },
        }
    }
}

impl TryTruncate<u64> for i128 {
    fn try_truncate(self) -> Option<u64> {
        if self >= 0 && self <= (u64::MAX as i128) {
            Some(self as u64)
        } else {
            None
        }
    }
}

impl Chop<u64> for i128 {
    fn chop(self) -> u64 {
        let t: Option<u64> = self.try_truncate();
        t.unwrap()
    }
}

impl Shrink<u64> for i128 {
    fn shrink(self) -> u64 {
        let t: Option<u64> = self.try_truncate();
        match t {
            Some(v) => v,
            None => if self < 0 {
                u64::MIN
            } else {
                u64::MAX
            },
        }
    }
}

impl TryTruncate<u128> for i128 {
    fn try_truncate(self) -> Option<u128> {
        if self >= 0 {
            Some(self as u128)
        } else {
            None
        }
    }
}

impl Chop<u128> for i128 {
    fn chop(self) -> u128 {
        let t: Option<u128> = self.try_truncate();
        t.unwrap()
    }
}

impl Shrink<u128> for i128 {
    fn shrink(self) -> u128 {
        let t: Option<u128> = self.try_truncate();
        match t {
            Some(v) => v,
            None => if self < 0 {
                u128::MIN
            } else {
                u128::MAX
            },
        }
    }
}
} // verus!
