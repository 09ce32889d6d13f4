use proxy_agent::text::{signed_text, unsigned_text};

#[test]
fn unsigned_texts() {
    for n in [0u128, 1, 9, 10, 11, 99, 100, 65535, 3080, 10203040506070809, u128::MAX] {
        assert_eq!(unsigned_text(n), format!("{}", n));
    }
}

#[test]
fn signed_texts() {
    for i in [0i32, 1, -1, 9, -10, 255, i32::MAX, i32::MIN] {
        assert_eq!(signed_text(i), format!("{}", i));
    }
}
