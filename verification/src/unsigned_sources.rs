//! The truncation operations for unsigned source types.
//!
//! Every pair with an unsigned source implements all four operation
//! families; bitwise truncation exists only here, since the low-order
//! bits of a negative value have no single agreed reading.

use vstd::prelude::*;

verus! {

use crate::model::IntValue;
use crate::{Chop, Shrink, TruncateUnchecked, TryTruncate};

impl TryTruncate<i8> for u8 {
    fn try_truncate(self) -> Option<i8> {
        if self <= (i8::MAX as u8) {
            Some(self as i8)
        } else {
            None
        }
    }
}

impl Chop<i8> for u8 {
    fn chop(self) -> i8 {
        let t: Option<i8> = self.try_truncate();
        t.unwrap()
    }
}

impl Shrink<i8> for u8 {
    fn shrink(self) -> i8 {
        let t: Option<i8> = self.try_truncate();
        match t {
            Some(v) => v,
            None => i8::MAX,
        }
    }
}

impl TruncateUnchecked<i8> for u8 {
    fn truncate_unchecked(self) -> i8 {
        proof {
            vstd::arithmetic::div_mod::lemma_small_mod(self as nat, 0x100nat);
        }
        if self <= (i8::MAX as u8) {
            self as i8
        } else {
            -((u8::MAX - self) as i8) - 1
        }
    }
}

impl TryTruncate<u8> for u16 {
    fn try_truncate(self) -> Option<u8> {
        if self <= (u8::MAX as u16) {
            Some(self as u8)
        } else {
            None
        }
    }
}

impl Chop<u8> for u16 {
    fn chop(self) -> u8 {
        let t: Option<u8> = self.try_truncate();
        t.unwrap()
    }
}

impl Shrink<u8> for u16 {
    fn shrink(self) -> u8 {
        let t: Option<u8> = self.try_truncate();
        match t {
            Some(v) => v,
            None => u8::MAX,
        }
    }
}

impl TruncateUnchecked<u8> for u16 {
    fn truncate_unchecked(self) -> u8 {
        (self % 0x100) as u8
    }
}

impl TryTruncate<i8> for u16 {
    fn try_truncate(self) -> Option<i8> {
        if self <= (i8::MAX as u16) {
            Some(self as i8)
        } else {
            None
        }
    }
}

impl Chop<i8> for u16 {
    fn chop(self) -> i8 {
        let t: Option<i8> = self.try_truncate();
        t.unwrap()
    }
}

impl Shrink<i8> for u16 {
    fn shrink(self) -> i8 {
        let t: Option<i8> = self.try_truncate();
        match t {
            Some(v) => v,
            None => i8::MAX,
        }
    }
}

impl TruncateUnchecked<i8> for u16 {
    fn truncate_unchecked(self) -> i8 {
        let m: u16 = self % 0x100;
        if m <= (i8::MAX as u16) {
            m as i8
        } else {
            -((0xFF - m) as i8) - 1
        }
    }
}

impl TryTruncate<i16> for u16 {
    fn try_truncate(self) -> Option<i16> {
        if self <= (i16::MAX as u16) {
            Some(self as i16)
        } else {
            None
        }
    }
}

impl Chop<i16> for u16 {
    fn chop(self) -> i16 {
        let t: Option<i16> = self.try_truncate();
        t.unwrap()
    }
}

impl Shrink<i16> for u16 {
    fn shrink(self) -> i16 {
        let t: Option<i16> = self.try_truncate();
        match t {
            Some(v) => v,
            None => i16::MAX,
        }
    }
}

impl TruncateUnchecked<i16> for u16 {
    fn truncate_unchecked(self) -> i16 {
        proof {
            vstd::arithmetic::div_mod::lemma_small_mod(self as nat, 0x1_0000nat);
        }
        if self <= (i16::MAX as u16) {
            self as i16
        } else {
            -((u16::MAX - self) as i16) - 1
        }
    }
}

impl TryTruncate<u8> for u32 {
    fn try_truncate(self) -> Option<u8> {
        if self <= (u8::MAX as u32) {
            Some(self as u8)
        } else {
            None
        }
    }
}

impl Chop<u8> for u32 {
    fn chop(self) -> u8 {
        let t: Option<u8> = self.try_truncate();
        t.unwrap()
    }
}

impl Shrink<u8> for u32 {
    fn shrink(self) -> u8 {
        let t: Option<u8> = self.try_truncate();
        match t {
            Some(v) => v,
            None => u8::MAX,
        }
    }
}

impl TruncateUnchecked<u8> for u32 {
    fn truncate_unchecked(self) -> u8 {
        (self % 0x100) as u8
    }
}

impl TryTruncate<u16> for u32 {
    fn try_truncate(self) -> Option<u16> {
        if self <= (u16::MAX as u32) {
            Some(self as u16)
        } else {
            None
        }
    }
}

impl Chop<u16> for u32 {
    fn chop(self) -> u16 {
        let t: Option<u16> = self.try_truncate();
        t.unwrap()
    }
}

impl Shrink<u16> for u32 {
    fn shrink(self) -> u16 {
        let t: Option<u16> = self.try_truncate();
        match t {
            Some(v) => v,
            None => u16::MAX,
        }
    }
}

impl TruncateUnchecked<u16> for u32 {
    fn truncate_unchecked(self) -> u16 {
        (self % 0x1_0000) as u16
    }
}

impl TryTruncate<i8> for u32 {
    fn try_truncate(self) -> Option<i8> {
        if self <= (i8::MAX as u32) {
            Some(self as i8)
        } else {
            None
        }
    }
}

impl Chop<i8> for u32 {
    fn chop(self) -> i8 {
        let t: Option<i8> = self.try_truncate();
        t.unwrap()
    }
}

impl Shrink<i8> for u32 {
    fn shrink(self) -> i8 {
        let t: Option<i8> = self.try_truncate();
        match t {
            Some(v) => v,
            None => i8::MAX,
        }
    }
}

impl TruncateUnchecked<i8> for u32 {
    fn truncate_unchecked(self) -> i8 {
        let m: u32 = self % 0x100;
        if m <= (i8::MAX as u32) {
            m as i8
        } else {
            -((0xFF - m) as i8) - 1
        }
    }
}

impl TryTruncate<i16> for u32 {
    fn try_truncate(self) -> Option<i16> {
        if self <= (i16::MAX as u32) {
            Some(self as i16)
        } else {
            None
        }
    }
}

impl Chop<i16> for u32 {
    fn chop(self) -> i16 {
        let t: Option<i16> = self.try_truncate();
        t.unwrap()
    }
}

impl Shrink<i16> for u32 {
    fn shrink(self) -> i16 {
        let t: Option<i16> = self.try_truncate();
        match t {
            Some(v) => v,
            None => i16::MAX,
        }
    }
}

impl TruncateUnchecked<i16> for u32 {
    fn truncate_unchecked(self) -> i16 {
        let m: u32 = self % 0x1_0000;
        if m <= (i16::MAX as u32) {
            m as i16
        } else {
            -((0xFFFF - m) as i16) - 1
        }
    }
}

impl TryTruncate<i32> for u32 {
    fn try_truncate(self) -> Option<i32> {
        if self <= (i32::MAX as u32) {
            Some(self as i32)
        } else {
            None
        }
    }
}

impl Chop<i32> for u32 {
    fn chop(self) -> i32 {
        let t: Option<i32> = self.try_truncate();
        t.unwrap()
    }
}

impl Shrink<i32> for u32 {
    fn shrink(self) -> i32 {
        let t: Option<i32> = self.try_truncate();
        match t {
            Some(v) => v,
            None => i32::MAX,
        }
    }
}

impl TruncateUnchecked<i32> for u32 {
    fn truncate_unchecked(self) -> i32 {
        proof {
            vstd::arithmetic::div_mod::lemma_small_mod(self as nat, 0x1_0000_0000nat);
        }
        if self <= (i32::MAX as u32) {
            self as i32
        } else {
            -((u32::MAX - self) as i32) - 1
        }
    }
}

impl TryTruncate<u8> for u64 {
    fn try_truncate(self) -> Option<u8> {
        if self <= (u8::MAX as u64) {
            Some(self as u8)
        } else {
            None
        }
    }
}

impl Chop<u8> for u64 {
    fn chop(self) -> u8 {
        let t: Option<u8> = self.try_truncate();
        t.unwrap()
    }
}

impl Shrink<u8> for u64 {
    fn shrink(self) -> u8 {
        let t: Option<u8> = self.try_truncate();
        match t {
            Some(v) => v,
            None => u8::MAX,
        }
    }
}

impl TruncateUnchecked<u8> for u64 {
    fn truncate_unchecked(self) -> u8 {
        (self % 0x100) as u8
    }
}

impl TryTruncate<u16> for u64 {
    fn try_truncate(self) -> Option<u16> {
        if self <= (u16::MAX as u64) {
            Some(self as u16)
        } else {
            None
        }
    }
}

impl Chop<u16> for u64 {
    fn chop(self) -> u16 {
        let t: Option<u16> = self.try_truncate();
        t.unwrap()
    }
}

impl Shrink<u16> for u64 {
    fn shrink(self) -> u16 {
        let t: Option<u16> = self.try_truncate();
        match t {
            Some(v) => v,
            None => u16::MAX,
        }
    }
}

impl TruncateUnchecked<u16> for u64 {
    fn truncate_unchecked(self) -> u16 {
        (self % 0x1_0000) as u16
    }
}

impl TryTruncate<u32> for u64 {
    fn try_truncate(self) -> Option<u32> {
        if self <= (u32::MAX as u64) {
            Some(self as u32)
        } else {
            None
        }
    }
}

impl Chop<u32> for u64 {
    fn chop(self) -> u32 {
        let t: Option<u32> = self.try_truncate();
        t.unwrap()
    }
}

impl Shrink<u32> for u64 {
    fn shrink(self) -> u32 {
        let t: Option<u32> = self.try_truncate();
        match t {
            Some(v) => v,
            None => u32::MAX,
        }
    }
}

impl TruncateUnchecked<u32> for u64 {
    fn truncate_unchecked(self) -> u32 {
        (self % 0x1_0000_0000) as u32
    }
}

impl TryTruncate<i8> for u64 {
    fn try_truncate(self) -> Option<i8> {
        if self <= (i8::MAX as u64) {
            Some(self as i8)
        } else {
            None
        }
    }
}

impl Chop<i8> for u64 {
    fn chop(self) -> i8 {
        let t: Option<i8> = self.try_truncate();
        t.unwrap()
    }
}

impl Shrink<i8> for u64 {
    fn shrink(self) -> i8 {
        let t: Option<i8> = self.try_truncate();
        match t {
            Some(v) => v,
            None => i8::MAX,
        }
    }
}

impl TruncateUnchecked<i8> for u64 {
    fn truncate_unchecked(self) -> i8 {
        let m: u64 = self % 0x100;
        if m <= (i8::MAX as u64) {
            m as i8
        } else {
            -((0xFF - m) as i8) - 1
        }
    }
}

impl TryTruncate<i16> for u64 {
    fn try_truncate(self) -> Option<i16> {
        if self <= (i16::MAX as u64) {
            Some(self as i16)
        } else {
            None
        }
    }
}

impl Chop<i16> for u64 {
    fn chop(self) -> i16 {
        let t: Option<i16> = self.try_truncate();
        t.unwrap()
    }
}

impl Shrink<i16> for u64 {
    fn shrink(self) -> i16 {
        let t: Option<i16> = self.try_truncate();
        match t {
            Some(v) => v,
            None => i16::MAX,
        }
    }
}

impl TruncateUnchecked<i16> for u64 {
    fn truncate_unchecked(self) -> i16 {
        let m: u64 = self % 0x1_0000;
        if m <= (i16::MAX as u64) {
            m as i16
        } else {
            -((0xFFFF - m) as i16) - 1
        }
    }
}

impl TryTruncate<i32> for u64 {
    fn try_truncate(self) -> Option<i32> {
        if self <= (i32::MAX as u64) {
            Some(self as i32)
        } else {
            None
        }
    }
}

impl Chop<i32> for u64 {
    fn chop(self) -> i32 {
        let t: Option<i32> = self.try_truncate();
        t.unwrap()
    }
}

impl Shrink<i32> for u64 {
    fn shrink(self) -> i32 {
        let t: Option<i32> = self.try_truncate();
        match t {
            Some(v) => v,
            None => i32::MAX,
        }
    }
}

impl TruncateUnchecked<i32> for u64 {
    fn truncate_unchecked(self) -> i32 {
        let m: u64 = self % 0x1_0000_0000;
        if m <= (i32::MAX as u64) {
            m as i32
        } else {
            -((0xFFFF_FFFF - m) as i32) - 1
        }
    }
}

impl TryTruncate<i64> for u64 {
    fn try_truncate(self) -> Option<i64> {
        if self <= (i64::MAX as u64) {
            Some(self as i64)
        } else {
            None
        }
    }
}

impl Chop<i64> for u64 {
    fn chop(self) -> i64 {
        let t: Option<i64> = self.try_truncate();
        t.unwrap()
    }
}

impl Shrink<i64> for u64 {
    fn shrink(self) -> i64 {
        let t: Option<i64> = self.try_truncate();
        match t {
            Some(v) => v,
            None => i64::MAX,
        }
    }
}

impl TruncateUnchecked<i64> for u64 {
    fn truncate_unchecked(self) -> i64 {
        proof {
            vstd::arithmetic::div_mod::lemma_small_mod(self as nat, 0x1_0000_0000_0000_0000nat);
        }
        if self <= (i64::MAX as u64) {
            self as i64
        } else {
            -((u64::MAX - self) as i64) - 1
        }
    }
}

impl TryTruncate<u8> for u128 {
    fn try_truncate(self) -> Option<u8> {
        if self <= (u8::MAX as u128) {
            Some(self as u8)
        } else {
            None
        }
    }
}

impl Chop<u8> for u128 {
    fn chop(self) -> u8 {
        let t: Option<u8> = self.try_truncate();
        t.unwrap()
    }
}

impl Shrink<u8> for u128 {
    fn shrink(self) -> u8 {
        let t: Option<u8> = self.try_truncate();
        match t {
            Some(v) => v,
            None => u8::MAX,
        }
    }
}

impl TruncateUnchecked<u8> for u128 {
    fn truncate_unchecked(self) -> u8 {
        (self % 0x100) as u8
    }
}

impl TryTruncate<u16> for u128 {
    fn try_truncate(self) -> Option<u16> {
        if self <= (u16::MAX as u128) {
            Some(self as u16)
        } else {
            None
        }
    }
}

impl Chop<u16> for u128 {
    fn chop(self) -> u16 {
        let t: Option<u16> = self.try_truncate();
        t.unwrap()
    }
}

impl Shrink<u16> for u128 {
    fn shrink(self) -> u16 {
        let t: Option<u16> = self.try_truncate();
        match t {
            Some(v) => v,
            None => u16::MAX,
        }
    }
}

impl TruncateUnchecked<u16> for u128 {
    fn truncate_unchecked(self) -> u16 {
        (self % 0x1_0000) as u16
    }
}

impl TryTruncate<u32> for u128 {
    fn try_truncate(self) -> Option<u32> {
        if self <= (u32::MAX as u128) {
            Some(self as u32)
        } else {
            None
        }
    }
}

impl Chop<u32> for u128 {
    fn chop(self) -> u32 {
        let t: Option<u32> = self.try_truncate();
        t.unwrap()
    }
}

impl Shrink<u32> for u128 {
    fn shrink(self) -> u32 {
        let t: Option<u32> = self.try_truncate();
        match t {
            Some(v) => v,
            None => u32::MAX,
        }
    }
}

impl TruncateUnchecked<u32> for u128 {
    fn truncate_unchecked(self) -> u32 {
        (self % 0x1_0000_0000) as u32
    }
}

impl TryTruncate<u64> for u128 {
    fn try_truncate(self) -> Option<u64> {
        if self <= (u64::MAX as u128) {
            Some(self as u64)
        } else {
            None
        }
    }
}

impl Chop<u64> for u128 {
    fn chop(self) -> u64 {
        let t: Option<u64> = self.try_truncate();
        t.unwrap()
    }
}

impl Shrink<u64> for u128 {
    fn shrink(self) -> u64 {
        let t: Option<u64> = self.try_truncate();
        match t {
            Some(v) => v,
            None => u64::MAX,
        }
    }
}

impl TruncateUnchecked<u64> for u128 {
    fn truncate_unchecked(self) -> u64 {
        (self % 0x1_0000_0000_0000_0000) as u64
    }
}

impl TryTruncate<i8> for u128 {
    fn try_truncate(self) -> Option<i8> {
        if self <= (i8::MAX as u128) {
            Some(self as i8)
        } else {
            None
        }
    }
}

impl Chop<i8> for u128 {
    fn chop(self) -> i8 {
        let t: Option<i8> = self.try_truncate();
        t.unwrap()
    }
}

impl Shrink<i8> for u128 {
    fn shrink(self) -> i8 {
        let t: Option<i8> = self.try_truncate();
        match t {
            Some(v) => v,
            None => i8::MAX,
        }
    }
}

impl TruncateUnchecked<i8> for u128 {
    fn truncate_unchecked(self) -> i8 {
        let m: u128 = self % 0x100;
        if m <= (i8::MAX as u128) {
            m as i8
        } else {
            -((0xFF - m) as i8) - 1
        }
    }
}

impl TryTruncate<i16> for u128 {
    fn try_truncate(self) -> Option<i16> {
        if self <= (i16::MAX as u128) {
            Some(self as i16)
        } else {
            None
        }
    }
}

impl Chop<i16> for u128 {
    fn chop(self) -> i16 {
        let t: Option<i16> = self.try_truncate();
        t.unwrap()
    }
}

impl Shrink<i16> for u128 {
    fn shrink(self) -> i16 {
        let t: Option<i16> = self.try_truncate();
        match t {
            Some(v) => v,
            None => i16::MAX,
        }
    }
}

impl TruncateUnchecked<i16> for u128 {
    fn truncate_unchecked(self) -> i16 {
        let m: u128 = self % 0x1_0000;
        if m <= (i16::MAX as u128) {
            m as i16
        } else {
            -((0xFFFF - m) as i16) - 1
        }
    }
}

impl TryTruncate<i32> for u128 {
    fn try_truncate(self) -> Option<i32> {
        if self <= (i32::MAX as u128) {
            Some(self as i32)
        } else {
            None
        }
    }
}

impl Chop<i32> for u128 {
    fn chop(self) -> i32 {
        let t: Option<i32> = self.try_truncate();
        t.unwrap()
    }
}

impl Shrink<i32> for u128 {
    fn shrink(self) -> i32 {
        let t: Option<i32> = self.try_truncate();
        match t {
            Some(v) => v,
            None => i32::MAX,
        }
    }
}

impl TruncateUnchecked<i32> for u128 {
    fn truncate_unchecked(self) -> i32 {
        let m: u128 = self % 0x1_0000_0000;
        if m <= (i32::MAX as u128) {
            m as i32
        } else {
            -((0xFFFF_FFFF - m) as i32) - 1
        }
    }
}

impl TryTruncate<i64> for u128 {
    fn try_truncate(self) -> Option<i64> {
        if self <= (i64::MAX as u128) {
            Some(self as i64)
        } else {
            None
        }
    }
}

impl Chop<i64> for u128 {
    fn chop(self) -> i64 {
        let t: Option<i64> = self.try_truncate();
        t.unwrap()
    }
}

impl Shrink<i64> for u128 {
    fn shrink(self) -> i64 {
        let t: Option<i64> = self.try_truncate();
        match t {
            Some(v) => v,
            None => i64::MAX,
        }
    }
}

impl TruncateUnchecked<i64> for u128 {
    fn truncate_unchecked(self) -> i64 {
        let m: u128 = self % 0x1_0000_0000_0000_0000;
        if m <= (i64::MAX as u128) {
            m as i64
        } else {
            -((0xFFFF_FFFF_FFFF_FFFF - m) as i64) - 1
        }
    }
}

impl TryTruncate<i128> for u128 {
    fn try_truncate(self) -> Option<i128> {
        if self <= (i128::MAX as u128) {
            Some(self as i128)
        } else {
            None
        }
    }
}

impl Chop<i128> for u128 {
    fn chop(self) -> i128 {
        let t: Option<i128> = self.try_truncate();
        t.unwrap()
    }
}

impl Shrink<i128> for u128 {
    fn shrink(self) -> i128 {
        let t: Option<i128> = self.try_truncate();
        match t {
            Some(v) => v,
            None => i128::MAX,
        }
    }
}

impl TruncateUnchecked<i128> for u128 {
    fn truncate_unchecked(self) -> i128 {
        proof {
            vstd::arithmetic::div_mod::lemma_small_mod(
                self as nat,
                0x1_0000_0000_0000_0000_0000_0000_0000_0000nat,
            );
        }
        if self <= (i128::MAX as u128) {
            self as i128
        } else {
            -((u128::MAX - self) as i128) - 1
        }
    }
}

impl TryTruncate<u8> for usize {
    fn try_truncate(self) -> Option<u8> {
        if self <= (u8::MAX as usize) {
            Some(self as u8)
        } else {
            None
        }
    }
}

impl Chop<u8> for usize {
    fn chop(self) -> u8 {
        let t: Option<u8> = self.try_truncate();
        t.unwrap()
    }
}

impl Shrink<u8> for usize {
    fn shrink(self) -> u8 {
        let t: Option<u8> = self.try_truncate();
        match t {
            Some(v) => v,
            None => u8::MAX,
        }
    }
}

impl TruncateUnchecked<u8> for usize {
    fn truncate_unchecked(self) -> u8 {
        ((self as u64) % 0x100) as u8
    }
}

impl TryTruncate<u16> for usize {
    fn try_truncate(self) -> Option<u16> {
        if self <= (u16::MAX as usize) {
            Some(self as u16)
        } else {
            None
        }
    }
}

impl Chop<u16> for usize {
    fn chop(self) -> u16 {
        let t: Option<u16> = self.try_truncate();
        t.unwrap()
    }
}

impl Shrink<u16> for usize {
    fn shrink(self) -> u16 {
        let t: Option<u16> = self.try_truncate();
        match t {
            Some(v) => v,
            None => u16::MAX,
        }
    }
}

impl TruncateUnchecked<u16> for usize {
    fn truncate_unchecked(self) -> u16 {
        ((self as u64) % 0x1_0000) as u16
    }
}

impl TryTruncate<u32> for usize {
    fn try_truncate(self) -> Option<u32> {
        if self <= (u32::MAX as usize) {
            Some(self as u32)
        } else {
            None
        }
    }
}

impl Chop<u32> for usize {
    fn chop(self) -> u32 {
        let t: Option<u32> = self.try_truncate();
        t.unwrap()
    }
}

impl Shrink<u32> for usize {
    fn shrink(self) -> u32 {
        let t: Option<u32> = self.try_truncate();
        match t {
            Some(v) => v,
            None => u32::MAX,
        }
    }
}

impl TruncateUnchecked<u32> for usize {
    fn truncate_unchecked(self) -> u32 {
        ((self as u64) % 0x1_0000_0000) as u32
    }
}
} // verus!
