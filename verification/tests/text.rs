use zallet_migrate::text::{
    bytes_equal, decimal_text, repeat_text, same_text, text_order, yes_no_text, TextOrder,
};

#[test]
fn decimals() {
    for n in [0u64, 7, 10, 99, 100, 2147483647, u64::MAX] {
        assert_eq!(decimal_text(n), n.to_string());
    }
}

#[test]
fn repeated_text() {
    assert_eq!(repeat_text("=", 72), "=".repeat(72));
    assert_eq!(repeat_text("ab", 3), "ababab");
    assert_eq!(repeat_text("x", 0), "");
}

#[test]
fn text_is_ordered_as_strings_are() {
    let texts = ["", "a", "aa", "ab", "b", "Z", "é", "€", "\u{10000}", "zzz"];
    for a in texts {
        for b in texts {
            let order = text_order(a, b);
            assert_eq!(order == TextOrder::Before, a < b);
            assert_eq!(order == TextOrder::Same, a == b);
            assert_eq!(order == TextOrder::After, a > b);
            assert_eq!(same_text(a, b), a == b);
        }
    }
}

#[test]
fn equal_bytes() {
    assert!(bytes_equal(&[], &[]));
    assert!(bytes_equal(&[1, 2], &[1, 2]));
    assert!(!bytes_equal(&[1, 2], &[1, 3]));
    assert!(!bytes_equal(&[1, 2], &[1]));
}

#[test]
fn answers() {
    assert_eq!(yes_no_text(true), "yes");
    assert_eq!(yes_no_text(false), "no");
}
