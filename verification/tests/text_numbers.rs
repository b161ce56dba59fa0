use dockup::ids::now_rfc3339;
use dockup::text::{decimal, int_text};

#[test]
fn numbers_print_in_decimal() {
    assert_eq!(decimal(0), "0");
    assert_eq!(decimal(7), "7");
    assert_eq!(decimal(404), "404");
    assert_eq!(decimal(1000), "1000");
    assert_eq!(decimal(u64::MAX), u64::MAX.to_string());
    assert_eq!(int_text(0), "0");
    assert_eq!(int_text(-1), "-1");
    assert_eq!(int_text(127), "127");
    assert_eq!(int_text(i32::MIN as i64), "-2147483648");
}

#[test]
fn clock_text_is_rfc3339_in_utc() {
    let t = now_rfc3339();
    let b: Vec<char> = t.chars().collect();
    assert!(t.ends_with("+00:00"));
    assert_eq!(b[4], '-');
    assert_eq!(b[7], '-');
    assert_eq!(b[10], 'T');
    assert_eq!(b[13], ':');
    assert_eq!(b[16], ':');
    assert!([25, 29, 32, 35].contains(&b.len()));
}
