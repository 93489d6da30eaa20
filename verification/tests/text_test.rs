use webpad::text::{push_decimal, push_flag};

fn decimal(n: u64) -> String {
    let mut s = String::new();
    push_decimal(&mut s, n);
    s
}

#[test]
fn decimals() {
    assert_eq!(decimal(0), "0");
    assert_eq!(decimal(9), "9");
    assert_eq!(decimal(10), "10");
    assert_eq!(decimal(1009), "1009");
    assert_eq!(decimal(u64::MAX), "18446744073709551615");
}

#[test]
fn pieces_follow_one_another() {
    let mut s = String::from("n=");
    push_decimal(&mut s, 8443);
    push_flag(&mut s, true);
    push_flag(&mut s, false);
    assert_eq!(s, "n=8443truefalse");
}
