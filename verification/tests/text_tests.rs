use tataku::text::{same_text, split_text, to_decimal};

#[test]
fn decimals() {
    assert_eq!(to_decimal(0), "0");
    assert_eq!(to_decimal(1234567), "1234567");
    assert_eq!(to_decimal(u64::MAX), u64::MAX.to_string());
}

#[test]
fn text_equality() {
    assert!(same_text("abc", "abc"));
    assert!(!same_text("abc", "abd"));
    assert!(!same_text("ab", "abc"));
    assert!(same_text("", ""));
}

#[test]
fn splitting_matches_std_and_joins_back() {
    for s in ["", "a", "a b", " a  b ", "  ", "héllo wörld"] {
        let pieces = split_text(s, ' ');
        let expected: Vec<String> = s.split(' ').map(String::from).collect();
        assert_eq!(pieces, expected);
        assert_eq!(pieces.join(" "), s);
    }
}
