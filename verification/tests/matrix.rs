use truncate_integer::{
    Chop, ChopFrom, Shrink, ShrinkFrom, TruncateFromUnchecked, TruncateUnchecked, TryTruncate,
    TryTruncateFrom,
};

/// Zero is within every destination's range, so aborting truncation
/// returns it unchanged for every pair in the matrix.
#[test]
fn chop_zero_every_pair() {
    let x: i8 = 0u8.chop();
    assert_eq!(x, 0i8);
    let x: u8 = 0u16.chop();
    assert_eq!(x, 0u8);
    let x: i8 = 0u16.chop();
    assert_eq!(x, 0i8);
    let x: i16 = 0u16.chop();
    assert_eq!(x, 0i16);
    let x: u8 = 0u32.chop();
    assert_eq!(x, 0u8);
    let x: u16 = 0u32.chop();
    assert_eq!(x, 0u16);
    let x: i8 = 0u32.chop();
    assert_eq!(x, 0i8);
    let x: i16 = 0u32.chop();
    assert_eq!(x, 0i16);
    let x: i32 = 0u32.chop();
    assert_eq!(x, 0i32);
    let x: u8 = 0u64.chop();
    assert_eq!(x, 0u8);
    let x: u16 = 0u64.chop();
    assert_eq!(x, 0u16);
    let x: u32 = 0u64.chop();
    assert_eq!(x, 0u32);
    let x: i8 = 0u64.chop();
    assert_eq!(x, 0i8);
    let x: i16 = 0u64.chop();
    assert_eq!(x, 0i16);
    let x: i32 = 0u64.chop();
    assert_eq!(x, 0i32);
    let x: i64 = 0u64.chop();
    assert_eq!(x, 0i64);
    let x: u8 = 0u128.chop();
    assert_eq!(x, 0u8);
    let x: u16 = 0u128.chop();
    assert_eq!(x, 0u16);
    let x: u32 = 0u128.chop();
    assert_eq!(x, 0u32);
    let x: u64 = 0u128.chop();
    assert_eq!(x, 0u64);
    let x: i8 = 0u128.chop();
    assert_eq!(x, 0i8);
    let x: i16 = 0u128.chop();
    assert_eq!(x, 0i16);
    let x: i32 = 0u128.chop();
    assert_eq!(x, 0i32);
    let x: i64 = 0u128.chop();
    assert_eq!(x, 0i64);
    let x: i128 = 0u128.chop();
    assert_eq!(x, 0i128);
    let x: u8 = 0usize.chop();
    assert_eq!(x, 0u8);
    let x: u16 = 0usize.chop();
    assert_eq!(x, 0u16);
    let x: u32 = 0usize.chop();
    assert_eq!(x, 0u32);
    let x: u8 = 0i8.chop();
    assert_eq!(x, 0u8);
    let x: i8 = 0i16.chop();
    assert_eq!(x, 0i8);
    let x: u8 = 0i16.chop();
    assert_eq!(x, 0u8);
    let x: u16 = 0i16.chop();
    assert_eq!(x, 0u16);
    let x: i8 = 0i32.chop();
    assert_eq!(x, 0i8);
    let x: i16 = 0i32.chop();
    assert_eq!(x, 0i16);
    let x: u8 = 0i32.chop();
    assert_eq!(x, 0u8);
    let x: u16 = 0i32.chop();
    assert_eq!(x, 0u16);
    let x: u32 = 0i32.chop();
    assert_eq!(x, 0u32);
    let x: i8 = 0i64.chop();
    assert_eq!(x, 0i8);
    let x: i16 = 0i64.chop();
    assert_eq!(x, 0i16);
    let x: i32 = 0i64.chop();
    assert_eq!(x, 0i32);
    let x: u8 = 0i64.chop();
    assert_eq!(x, 0u8);
    let x: u16 = 0i64.chop();
    assert_eq!(x, 0u16);
    let x: u32 = 0i64.chop();
    assert_eq!(x, 0u32);
    let x: u64 = 0i64.chop();
    assert_eq!(x, 0u64);
    let x: i8 = 0i128.chop();
    assert_eq!(x, 0i8);
    let x: i16 = 0i128.chop();
    assert_eq!(x, 0i16);
    let x: i32 = 0i128.chop();
    assert_eq!(x, 0i32);
    let x: i64 = 0i128.chop();
    assert_eq!(x, 0i64);
    let x: u8 = 0i128.chop();
    assert_eq!(x, 0u8);
    let x: u16 = 0i128.chop();
    assert_eq!(x, 0u16);
    let x: u32 = 0i128.chop();
    assert_eq!(x, 0u32);
    let x: u64 = 0i128.chop();
    assert_eq!(x, 0u64);
    let x: u128 = 0i128.chop();
    assert_eq!(x, 0u128);
}

#[test]
fn try_truncate_in_range_is_exact() {
    let x: Option<u8> = 200u16.try_truncate();
    assert_eq!(x, Some(200u8));
    let x: Option<i8> = (-128i32).try_truncate();
    assert_eq!(x, Some(-128i8));
    let x: Option<u8> = 255u64.try_truncate();
    assert_eq!(x, Some(255u8));
    let x: Option<i8> = 127u8.try_truncate();
    assert_eq!(x, Some(127i8));
    let x: Option<u64> = 5i128.try_truncate();
    assert_eq!(x, Some(5u64));
    let x: Option<u16> = 65535u32.try_truncate();
    assert_eq!(x, Some(65535u16));
    let x: Option<u32> = 123456usize.try_truncate();
    assert_eq!(x, Some(123456u32));
}

#[test]
fn try_truncate_boundaries() {
    let x: Option<u8> = 255u16.try_truncate();
    assert_eq!(x, Some(255u8));
    let x: Option<u8> = 256u16.try_truncate();
    assert!(x.is_none());
    let x: Option<i8> = (-128i16).try_truncate();
    assert_eq!(x, Some(-128i8));
    let x: Option<i8> = (-129i16).try_truncate();
    assert!(x.is_none());
    let x: Option<i8> = 128u8.try_truncate();
    assert!(x.is_none());
    let x: Option<u128> = (-1i128).try_truncate();
    assert!(x.is_none());
    let x: Option<u32> = 0x1_0000_0000u64.try_truncate();
    assert!(x.is_none());
    let x: Option<u32> = 0xFFFF_FFFFu64.try_truncate();
    assert_eq!(x, Some(u32::MAX));
}

#[test]
fn chop_in_range_is_exact() {
    let x: u8 = 255u16.chop();
    assert_eq!(x, 255u8);
    let x: i8 = (-128i64).chop();
    assert_eq!(x, -128i8);
    let x: u128 = 7i128.chop();
    assert_eq!(x, 7u128);
    let x: u32 = 4_000_000_000usize.chop();
    assert_eq!(x, 4_000_000_000u32);
}

#[test]
fn shrink_saturates_above() {
    let x: i8 = 1000i32.shrink();
    assert_eq!(x, i8::MAX);
    let x: i8 = 200u16.shrink();
    assert_eq!(x, i8::MAX);
    let x: u64 = u128::MAX.shrink();
    assert_eq!(x, u64::MAX);
    let x: i64 = u64::MAX.shrink();
    assert_eq!(x, i64::MAX);
    let x: u16 = 70000usize.shrink();
    assert_eq!(x, u16::MAX);
    let x: i128 = u128::MAX.shrink();
    assert_eq!(x, i128::MAX);
}

#[test]
fn shrink_saturates_below() {
    let x: i8 = (-1000i32).shrink();
    assert_eq!(x, i8::MIN);
    let x: u8 = (-1i128).shrink();
    assert_eq!(x, 0u8);
    let x: u64 = i64::MIN.shrink();
    assert_eq!(x, 0u64);
    let x: i64 = i128::MIN.shrink();
    assert_eq!(x, i64::MIN);
}

#[test]
fn shrink_in_range_is_exact() {
    let x: u8 = 42u128.shrink();
    assert_eq!(x, 42u8);
    let x: i8 = (-5i16).shrink();
    assert_eq!(x, -5i8);
    let x: u32 = 123456usize.shrink();
    assert_eq!(x, 123456u32);
}

#[test]
fn truncate_unchecked_wraps() {
    let x: i8 = 200u16.truncate_unchecked();
    assert_eq!(x, -56i8);
    let x: i8 = 255u8.truncate_unchecked();
    assert_eq!(x, -1i8);
    let x: u8 = 300usize.truncate_unchecked();
    assert_eq!(x, 44u8);
    let x: u64 = u128::MAX.truncate_unchecked();
    assert_eq!(x, u64::MAX);
    let x: i64 = u128::MAX.truncate_unchecked();
    assert_eq!(x, -1i64);
    let x: i64 = u64::MAX.truncate_unchecked();
    assert_eq!(x, -1i64);
    let x: i128 = u128::MAX.truncate_unchecked();
    assert_eq!(x, -1i128);
    let x: u16 = 0x12345u32.truncate_unchecked();
    assert_eq!(x, 0x2345u16);
    let x: i16 = 0x1_8000u32.truncate_unchecked();
    assert_eq!(x, i16::MIN);
    let x: i8 = 100u64.truncate_unchecked();
    assert_eq!(x, 100i8);
}

#[test]
fn duals_match_primaries() {
    assert_eq!(u8::try_truncate_from(257u16), 257u16.try_truncate());
    assert_eq!(u8::try_truncate_from(42u16), 42u16.try_truncate());
    assert_eq!(i8::try_truncate_from(-1000i32), (-1000i32).try_truncate());
    let a: u8 = u8::chop_from(99u64);
    let b: u8 = 99u64.chop();
    assert_eq!(a, b);
    let a: u8 = u8::shrink_from(257u16);
    let b: u8 = 257u16.shrink();
    assert_eq!(a, b);
    let a: u8 = u8::shrink_from(-1i16);
    let b: u8 = (-1i16).shrink();
    assert_eq!(a, b);
    let a: u8 = u8::truncate_from_unchecked(257u16);
    let b: u8 = 257u16.truncate_unchecked();
    assert_eq!(a, b);
    let a: i8 = i8::truncate_from_unchecked(200u16);
    let b: i8 = 200u16.truncate_unchecked();
    assert_eq!(a, b);
}
