use merge_pipeline::text::{concat2, concat3, has_suffix_folded, render_decimal, same_folded};

#[test]
fn suffix_matches_in_any_case() {
    assert!(has_suffix_folded("a.orf", ".orf"));
    assert!(has_suffix_folded("A.ORF", ".orf"));
    assert!(has_suffix_folded("shot.OrF", ".orf"));
    assert!(has_suffix_folded("shot.orf", ".ORF"));
}

#[test]
fn suffix_rejects_other_endings() {
    assert!(!has_suffix_folded("notes.txt", ".orf"));
    assert!(!has_suffix_folded("a.orf.txt", ".orf"));
    assert!(!has_suffix_folded("aorf", ".orf"));
    assert!(!has_suffix_folded("a.or", ".orf"));
    assert!(!has_suffix_folded("", ".orf"));
}

#[test]
fn suffix_equal_to_the_whole_name_matches() {
    assert!(has_suffix_folded(".orf", ".orf"));
    assert!(has_suffix_folded(".ORF", ".orf"));
}

#[test]
fn suffix_longer_than_the_name_never_matches() {
    assert!(!has_suffix_folded("orf", ".orf"));
    assert!(!has_suffix_folded("f", ".orf"));
}

#[test]
fn empty_suffix_matches_every_name() {
    assert!(has_suffix_folded("anything", ""));
    assert!(has_suffix_folded("", ""));
}

#[test]
fn suffix_counts_characters_not_bytes() {
    assert!(has_suffix_folded("bl\u{e5}b\u{e6}r.orf", ".orf"));
    assert!(has_suffix_folded("\u{5199}\u{771f}.ORF", ".orf"));
    assert!(!has_suffix_folded("a.orf\u{e9}", ".orf"));
}

#[test]
fn folding_touches_ascii_letters_only() {
    assert!(same_folded('a', 'A'));
    assert!(same_folded('Z', 'z'));
    assert!(same_folded('7', '7'));
    assert!(!same_folded('a', 'b'));
    assert!(!same_folded('@', '`'));
    assert!(!same_folded('[', '{'));
    assert!(!same_folded('\u{e9}', '\u{c9}'));
    assert!(!same_folded('\u{212a}', 'k'));
}

#[test]
fn decimal_of_single_digits() {
    assert_eq!(render_decimal(0), "0");
    assert_eq!(render_decimal(7), "7");
    assert_eq!(render_decimal(9), "9");
}

#[test]
fn decimal_of_longer_numbers() {
    assert_eq!(render_decimal(10), "10");
    assert_eq!(render_decimal(99), "99");
    assert_eq!(render_decimal(100), "100");
    assert_eq!(render_decimal(12345), "12345");
    assert_eq!(render_decimal(9007199254740993), "9007199254740993");
}

#[test]
fn decimal_of_the_largest_count() {
    assert_eq!(render_decimal(usize::MAX), format!("{}", usize::MAX));
}

#[test]
fn concatenation_keeps_order() {
    assert_eq!(concat2("ab", "cd"), "abcd");
    assert_eq!(concat2("", "cd"), "cd");
    assert_eq!(concat3("a", "/", "b"), "a/b");
    assert_eq!(concat3("", "", ""), "");
}
