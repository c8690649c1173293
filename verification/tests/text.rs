use fhe_sum::text::push_bracketed_list;
use fhe_sum::text::push_decimal;

fn decimal_text(n: u64) -> String {
    let mut text = String::new();
    push_decimal(&mut text, n);
    text
}

#[test]
fn decimal_of_small_numbers() {
    assert_eq!(decimal_text(0), "0");
    assert_eq!(decimal_text(7), "7");
    assert_eq!(decimal_text(10), "10");
    assert_eq!(decimal_text(579), "579");
    assert_eq!(decimal_text(1000), "1000");
}

#[test]
fn decimal_of_largest_number() {
    assert_eq!(decimal_text(u64::MAX), "18446744073709551615");
}

#[test]
fn decimal_agrees_with_std() {
    let mut n: u64 = 1;
    for _ in 0..64 {
        assert_eq!(decimal_text(n), format!("{}", n));
        assert_eq!(decimal_text(n - 1), format!("{}", n - 1));
        n = n.wrapping_mul(2);
    }
}

#[test]
fn push_decimal_appends() {
    let mut out = String::from("got ");
    push_decimal(&mut out, 456);
    assert_eq!(out, "got 456");
}

#[test]
fn bracketed_list_of_none_one_many() {
    let mut out = String::new();
    push_bracketed_list(&mut out, &vec![]);
    assert_eq!(out, "[]");
    let mut out = String::new();
    push_bracketed_list(&mut out, &vec![7]);
    assert_eq!(out, "[7]");
    let mut out = String::from("A = ");
    push_bracketed_list(&mut out, &vec![1, 20, 300]);
    assert_eq!(out, "A = [1, 20, 300]");
}

#[test]
fn bracketed_list_agrees_with_std() {
    let items: Vec<u64> = vec![0, u64::MAX, 42, 9, 10, 18446744073709551];
    let mut out = String::new();
    push_bracketed_list(&mut out, &items);
    assert_eq!(out, format!("{:?}", items));
}
