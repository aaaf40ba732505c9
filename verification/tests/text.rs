use majik_views::text::{contains_text, count_text, decimal, is_blank, is_white_space, join, lowers_to, same_text, split_words, trim};

#[test]
fn numbers_are_written_in_base_ten() {
    assert_eq!(decimal(0), "0");
    assert_eq!(decimal(9), "9");
    assert_eq!(decimal(10), "10");
    assert_eq!(decimal(1_203_450_678_905), "1203450678905");
    assert_eq!(decimal(u64::MAX), format!("{}", u64::MAX));
    assert_eq!(count_text(42), "42");
}

#[test]
fn white_space_is_what_the_standard_library_says() {
    for code in 0..=0x10FFFFu32 {
        if let Some(c) = char::from_u32(code) {
            assert_eq!(is_white_space(c), c.is_whitespace(), "U+{code:04X}");
        }
    }
}

#[test]
fn trimming_takes_white_space_off_both_ends() {
    for text in ["", " ", "a", "  sk-test-123  ", "\t a b \n", "\u{2003}x\u{a0}", "é ", " 越 "] {
        assert_eq!(trim(text), text.trim());
        assert_eq!(trim(&trim(text)), trim(text), "trimming again changes nothing");
        assert_eq!(is_blank(text), text.trim().is_empty());
    }
}

#[test]
fn words_are_what_is_between_white_space() {
    for text in ["", "  ", "flux", "flux pro", "  pro \t flux\n", "a b c", "é\u{3000}ü"] {
        assert_eq!(split_words(text), text.split_whitespace().collect::<Vec<_>>());
    }
}

#[test]
fn joining_puts_the_separator_between() {
    let parts = |all: &[&str]| all.iter().map(|s| s.to_string()).collect::<Vec<_>>();
    assert_eq!(join(&parts(&[]), ", "), "");
    assert_eq!(join(&parts(&["a"]), ", "), "a");
    assert_eq!(join(&parts(&["a", "b", "c"]), ", "), "a, b, c");
}

#[test]
fn a_text_is_found_inside_another() {
    assert!(contains_text("flux.2 pro", "2 p"));
    assert!(contains_text("flux", ""));
    assert!(contains_text("flux", "flux"));
    assert!(!contains_text("flux", "fluxx"));
    assert!(!contains_text("flux", "lx"));
    assert!(same_text("é", "é") && !same_text("é", "e"));
}

#[test]
fn ascii_letters_compare_in_lower_case() {
    assert!(lowers_to("JPG", "jpg") && lowers_to("JpEg", "jpeg"));
    assert!(!lowers_to("jpg", "JPG"), "the second text is taken as it is");
    assert!(!lowers_to("jp", "jpg"));
    assert!(lowers_to("É", "É"), "only ASCII letters change");
}
