use cheque::Checker;

#[test]
fn u8_add() {
    let one = Checker::wrap(1u8);
    assert_eq!(one + 2u8, Some(3u8));
    assert_eq!(one + Checker::wrap(2u8), Some(3u8));
    assert_eq!(Checker::wrap(u8::MAX - 1) + 1u8, Some(u8::MAX));
    assert_eq!(Checker::wrap(u8::MAX) + 1u8, None);
    assert_eq!(Checker::wrap(u8::MAX) + Checker::wrap(u8::MAX), None);
}

#[test]
fn u8_sub() {
    let five = Checker::wrap(5u8);
    assert_eq!(five - 3u8, Some(2u8));
    assert_eq!(five - Checker::wrap(3u8), Some(2u8));
    assert_eq!(five - 5u8, Some(0u8));
    assert_eq!(five - 6u8, None);
    assert_eq!(Checker::wrap(0u8) - Checker::wrap(u8::MAX), None);
    assert_eq!(Checker::wrap(u8::MAX) - u8::MAX, Some(0u8));
}

#[test]
fn u8_mul() {
    let six = Checker::wrap(6u8);
    assert_eq!(six * 7u8, Some(42u8));
    assert_eq!(six * Checker::wrap(7u8), Some(42u8));
    assert_eq!(Checker::wrap(u8::MAX) * 2u8, None);
    assert_eq!(Checker::wrap(u8::MAX) * 1u8, Some(u8::MAX));
    assert_eq!(Checker::wrap(u8::MAX / 2) * 2u8, Some(u8::MAX - 1));
    assert_eq!(Checker::wrap(u8::MAX / 2 + 1) * Checker::wrap(2u8), None);
}

#[test]
fn u8_div() {
    let seven = Checker::wrap(7u8);
    assert_eq!(seven / 2u8, Some(3u8));
    assert_eq!(seven / Checker::wrap(2u8), Some(3u8));
    assert_eq!(seven / 8u8, Some(0u8));
    assert_eq!(seven / 0u8, None);
    assert_eq!(seven / Checker::wrap(0u8), None);
    assert_eq!(Checker::wrap(u8::MAX) / 1u8, Some(u8::MAX));
}

#[test]
fn u16_add() {
    let one = Checker::wrap(1u16);
    assert_eq!(one + 2u16, Some(3u16));
    assert_eq!(one + Checker::wrap(2u16), Some(3u16));
    assert_eq!(Checker::wrap(u16::MAX - 1) + 1u16, Some(u16::MAX));
    assert_eq!(Checker::wrap(u16::MAX) + 1u16, None);
    assert_eq!(Checker::wrap(u16::MAX) + Checker::wrap(u16::MAX), None);
}

#[test]
fn u16_sub() {
    let five = Checker::wrap(5u16);
    assert_eq!(five - 3u16, Some(2u16));
    assert_eq!(five - Checker::wrap(3u16), Some(2u16));
    assert_eq!(five - 5u16, Some(0u16));
    assert_eq!(five - 6u16, None);
    assert_eq!(Checker::wrap(0u16) - Checker::wrap(u16::MAX), None);
    assert_eq!(Checker::wrap(u16::MAX) - u16::MAX, Some(0u16));
}

#[test]
fn u16_mul() {
    let six = Checker::wrap(6u16);
    assert_eq!(six * 7u16, Some(42u16));
    assert_eq!(six * Checker::wrap(7u16), Some(42u16));
    assert_eq!(Checker::wrap(u16::MAX) * 2u16, None);
    assert_eq!(Checker::wrap(u16::MAX) * 1u16, Some(u16::MAX));
    assert_eq!(Checker::wrap(u16::MAX / 2) * 2u16, Some(u16::MAX - 1));
    assert_eq!(Checker::wrap(u16::MAX / 2 + 1) * Checker::wrap(2u16), None);
}

#[test]
fn u16_div() {
    let seven = Checker::wrap(7u16);
    assert_eq!(seven / 2u16, Some(3u16));
    assert_eq!(seven / Checker::wrap(2u16), Some(3u16));
    assert_eq!(seven / 8u16, Some(0u16));
    assert_eq!(seven / 0u16, None);
    assert_eq!(seven / Checker::wrap(0u16), None);
    assert_eq!(Checker::wrap(u16::MAX) / 1u16, Some(u16::MAX));
}

#[test]
fn u32_add() {
    let one = Checker::wrap(1u32);
    assert_eq!(one + 2u32, Some(3u32));
    assert_eq!(one + Checker::wrap(2u32), Some(3u32));
    assert_eq!(Checker::wrap(u32::MAX - 1) + 1u32, Some(u32::MAX));
    assert_eq!(Checker::wrap(u32::MAX) + 1u32, None);
    assert_eq!(Checker::wrap(u32::MAX) + Checker::wrap(u32::MAX), None);
}

#[test]
fn u32_sub() {
    let five = Checker::wrap(5u32);
    assert_eq!(five - 3u32, Some(2u32));
    assert_eq!(five - Checker::wrap(3u32), Some(2u32));
    assert_eq!(five - 5u32, Some(0u32));
    assert_eq!(five - 6u32, None);
    assert_eq!(Checker::wrap(0u32) - Checker::wrap(u32::MAX), None);
    assert_eq!(Checker::wrap(u32::MAX) - u32::MAX, Some(0u32));
}

#[test]
fn u32_mul() {
    let six = Checker::wrap(6u32);
    assert_eq!(six * 7u32, Some(42u32));
    assert_eq!(six * Checker::wrap(7u32), Some(42u32));
    assert_eq!(Checker::wrap(u32::MAX) * 2u32, None);
    assert_eq!(Checker::wrap(u32::MAX) * 1u32, Some(u32::MAX));
    assert_eq!(Checker::wrap(u32::MAX / 2) * 2u32, Some(u32::MAX - 1));
    assert_eq!(Checker::wrap(u32::MAX / 2 + 1) * Checker::wrap(2u32), None);
}

#[test]
fn u32_div() {
    let seven = Checker::wrap(7u32);
    assert_eq!(seven / 2u32, Some(3u32));
    assert_eq!(seven / Checker::wrap(2u32), Some(3u32));
    assert_eq!(seven / 8u32, Some(0u32));
    assert_eq!(seven / 0u32, None);
    assert_eq!(seven / Checker::wrap(0u32), None);
    assert_eq!(Checker::wrap(u32::MAX) / 1u32, Some(u32::MAX));
}

#[test]
fn u64_add() {
    let one = Checker::wrap(1u64);
    assert_eq!(one + 2u64, Some(3u64));
    assert_eq!(one + Checker::wrap(2u64), Some(3u64));
    assert_eq!(Checker::wrap(u64::MAX - 1) + 1u64, Some(u64::MAX));
    assert_eq!(Checker::wrap(u64::MAX) + 1u64, None);
    assert_eq!(Checker::wrap(u64::MAX) + Checker::wrap(u64::MAX), None);
}

#[test]
fn u64_sub() {
    let five = Checker::wrap(5u64);
    assert_eq!(five - 3u64, Some(2u64));
    assert_eq!(five - Checker::wrap(3u64), Some(2u64));
    assert_eq!(five - 5u64, Some(0u64));
    assert_eq!(five - 6u64, None);
    assert_eq!(Checker::wrap(0u64) - Checker::wrap(u64::MAX), None);
    assert_eq!(Checker::wrap(u64::MAX) - u64::MAX, Some(0u64));
}

#[test]
fn u64_mul() {
    let six = Checker::wrap(6u64);
    assert_eq!(six * 7u64, Some(42u64));
    assert_eq!(six * Checker::wrap(7u64), Some(42u64));
    assert_eq!(Checker::wrap(u64::MAX) * 2u64, None);
    assert_eq!(Checker::wrap(u64::MAX) * 1u64, Some(u64::MAX));
    assert_eq!(Checker::wrap(u64::MAX / 2) * 2u64, Some(u64::MAX - 1));
    assert_eq!(Checker::wrap(u64::MAX / 2 + 1) * Checker::wrap(2u64), None);
}

#[test]
fn u64_div() {
    let seven = Checker::wrap(7u64);
    assert_eq!(seven / 2u64, Some(3u64));
    assert_eq!(seven / Checker::wrap(2u64), Some(3u64));
    assert_eq!(seven / 8u64, Some(0u64));
    assert_eq!(seven / 0u64, None);
    assert_eq!(seven / Checker::wrap(0u64), None);
    assert_eq!(Checker::wrap(u64::MAX) / 1u64, Some(u64::MAX));
}

#[test]
fn u128_add() {
    let one = Checker::wrap(1u128);
    assert_eq!(one + 2u128, Some(3u128));
    assert_eq!(one + Checker::wrap(2u128), Some(3u128));
    assert_eq!(Checker::wrap(u128::MAX - 1) + 1u128, Some(u128::MAX));
    assert_eq!(Checker::wrap(u128::MAX) + 1u128, None);
    assert_eq!(Checker::wrap(u128::MAX) + Checker::wrap(u128::MAX), None);
}

#[test]
fn u128_sub() {
    let five = Checker::wrap(5u128);
    assert_eq!(five - 3u128, Some(2u128));
    assert_eq!(five - Checker::wrap(3u128), Some(2u128));
    assert_eq!(five - 5u128, Some(0u128));
    assert_eq!(five - 6u128, None);
    assert_eq!(Checker::wrap(0u128) - Checker::wrap(u128::MAX), None);
    assert_eq!(Checker::wrap(u128::MAX) - u128::MAX, Some(0u128));
}

#[test]
fn u128_mul() {
    let six = Checker::wrap(6u128);
    assert_eq!(six * 7u128, Some(42u128));
    assert_eq!(six * Checker::wrap(7u128), Some(42u128));
    assert_eq!(Checker::wrap(u128::MAX) * 2u128, None);
    assert_eq!(Checker::wrap(u128::MAX) * 1u128, Some(u128::MAX));
    assert_eq!(Checker::wrap(u128::MAX / 2) * 2u128, Some(u128::MAX - 1));
    assert_eq!(Checker::wrap(u128::MAX / 2 + 1) * Checker::wrap(2u128), None);
}

#[test]
fn u128_div() {
    let seven = Checker::wrap(7u128);
    assert_eq!(seven / 2u128, Some(3u128));
    assert_eq!(seven / Checker::wrap(2u128), Some(3u128));
    assert_eq!(seven / 8u128, Some(0u128));
    assert_eq!(seven / 0u128, None);
    assert_eq!(seven / Checker::wrap(0u128), None);
    assert_eq!(Checker::wrap(u128::MAX) / 1u128, Some(u128::MAX));
}

#[test]
fn usize_add() {
    let one = Checker::wrap(1usize);
    assert_eq!(one + 2usize, Some(3usize));
    assert_eq!(one + Checker::wrap(2usize), Some(3usize));
    assert_eq!(Checker::wrap(usize::MAX - 1) + 1usize, Some(usize::MAX));
    assert_eq!(Checker::wrap(usize::MAX) + 1usize, None);
    assert_eq!(Checker::wrap(usize::MAX) + Checker::wrap(usize::MAX), None);
}

#[test]
fn usize_sub() {
    let five = Checker::wrap(5usize);
    assert_eq!(five - 3usize, Some(2usize));
    assert_eq!(five - Checker::wrap(3usize), Some(2usize));
    assert_eq!(five - 5usize, Some(0usize));
    assert_eq!(five - 6usize, None);
    assert_eq!(Checker::wrap(0usize) - Checker::wrap(usize::MAX), None);
    assert_eq!(Checker::wrap(usize::MAX) - usize::MAX, Some(0usize));
}

#[test]
fn usize_mul() {
    let six = Checker::wrap(6usize);
    assert_eq!(six * 7usize, Some(42usize));
    assert_eq!(six * Checker::wrap(7usize), Some(42usize));
    assert_eq!(Checker::wrap(usize::MAX) * 2usize, None);
    assert_eq!(Checker::wrap(usize::MAX) * 1usize, Some(usize::MAX));
    assert_eq!(Checker::wrap(usize::MAX / 2) * 2usize, Some(usize::MAX - 1));
    assert_eq!(Checker::wrap(usize::MAX / 2 + 1) * Checker::wrap(2usize), None);
}

#[test]
fn usize_div() {
    let seven = Checker::wrap(7usize);
    assert_eq!(seven / 2usize, Some(3usize));
    assert_eq!(seven / Checker::wrap(2usize), Some(3usize));
    assert_eq!(seven / 8usize, Some(0usize));
    assert_eq!(seven / 0usize, None);
    assert_eq!(seven / Checker::wrap(0usize), None);
    assert_eq!(Checker::wrap(usize::MAX) / 1usize, Some(usize::MAX));
}
