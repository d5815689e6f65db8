use mandel_viewer::text::{find_nul, push_decimal};

#[test]
fn push_decimal_writes_base_ten() {
    for n in [0u64, 7, 9, 10, 11, 99, 100, 101, 1234567890, u64::MAX] {
        let mut text = String::from("n=");
        push_decimal(&mut text, n);
        assert_eq!(text, format!("n={}", n));
    }
}

#[test]
fn find_nul_gives_the_first_position() {
    assert_eq!(find_nul(""), None);
    assert_eq!(find_nul("void main() {}"), None);
    assert_eq!(find_nul("\0"), Some(0));
    assert_eq!(find_nul("ab\0cd\0"), Some(2));
    assert_eq!(find_nul("abc\0"), Some(3));
    assert_eq!(find_nul("\u{E9}\0"), Some(2));
}
