use iroha_wasm_pack::text::{
    chars_of, concat2, concat3, contains, decimal, push_text, text_eq,
};

#[test]
fn text_eq_compares_characters() {
    assert!(text_eq("", ""));
    assert!(text_eq("cdylib", "cdylib"));
    assert!(!text_eq("cdylib", "cdylip"));
    assert!(!text_eq("cdylib", "cdyli"));
    assert!(!text_eq("", "a"));
    assert!(text_eq("größe", "größe"));
    assert!(!text_eq("große", "größe"));
}

#[test]
fn chars_of_keeps_order_and_counts_characters() {
    assert_eq!(chars_of("a.b"), vec!['a', '.', 'b']);
    assert_eq!(chars_of("é1"), vec!['é', '1']);
    assert_eq!(chars_of(""), Vec::<char>::new());
}

#[test]
fn contains_finds_a_part_anywhere() {
    assert!(contains("/home/me/.rustup/toolchains/stable", "rustup"));
    assert!(contains("rustup", "rustup"));
    assert!(contains("xrustup", "rustup"));
    assert!(contains("rustupx", "rustup"));
    assert!(contains("rusrustup", "rustup"));
    assert!(!contains("/usr/local", "rustup"));
    assert!(!contains("rustu", "rustup"));
    assert!(!contains("rust-up", "rustup"));
    assert!(!contains("RUSTUP", "rustup"));
    assert!(!contains("", "rustup"));
}

#[test]
fn contains_the_empty_text_always() {
    assert!(contains("abc", ""));
    assert!(contains("", ""));
}

#[test]
fn concat_joins_in_order() {
    assert_eq!(concat2("ab", "cd"), "abcd");
    assert_eq!(concat2("", "x"), "x");
    assert_eq!(concat3("a", "", "c"), "ac");
    assert_eq!(concat3("1", "2", "3"), "123");
}

#[test]
fn push_text_appends() {
    let mut list = vec!["a".to_string()];
    push_text(&mut list, "b");
    assert_eq!(list, vec!["a".to_string(), "b".to_string()]);
}

#[test]
fn decimal_writes_numbers() {
    assert_eq!(decimal(0), "0");
    assert_eq!(decimal(7), "7");
    assert_eq!(decimal(10), "10");
    assert_eq!(decimal(25), "25");
    assert_eq!(decimal(4194305), "4194305");
    assert_eq!(decimal(1234567890), "1234567890");
    assert_eq!(decimal(u64::MAX), "18446744073709551615");
}
