use cheque::Checker;

#[test]
fn compiles() {
    let a = 10;
    let a = Checker(Some(a));
    let _ = a + a;
    let _ = a - a;
    let _ = a * a;
    let _ = a / a;
    let _ = a + 1;
    let _ = a - 1;
    let _ = a * 1;
    let _ = a / 1;
}

#[test]
fn divide_by_zero() {
    let b = 1u8;
    let z = 0u8;
    let b = Checker(Some(b));
    let z = Checker(Some(z));
    assert_eq!(b / z, None);
}

#[test]
fn empty_invoke() {
    let wrapped: [Checker<u8>; 0] = [];
    assert!(wrapped.is_empty());
}
