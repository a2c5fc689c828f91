use intergen::text::{str_equal, trim_flagged, trim_range, whitespace_flags_of};

#[test]
fn trimming_with_given_flags_drops_flagged_ends() {
    let text = "xxabcxx";
    let flags = vec![true, true, false, true, false, true, true];

    assert_eq!(trim_flagged(text, 0, 7, &flags), "abc");
    assert_eq!(trim_flagged(text, 3, 7, &flags), "c");
    assert_eq!(trim_flagged(text, 5, 7, &flags), "");
    assert_eq!(trim_flagged(text, 2, 5, &flags), "abc");
    assert_eq!(trim_flagged(text, 0, 0, &flags), "");
}

#[test]
fn white_space_follows_the_unicode_property() {
    assert_eq!(whitespace_flags_of(" a\t\u{3000}"), vec![true, false, true, true]);
    assert_eq!(trim_range("\u{3000} Child scale ratio \n", 0, 20), "Child scale ratio");
    assert_eq!(trim_range("keep: this", 5, 10), "this");
    assert!(str_equal("same", "same"));
    assert!(!str_equal("same", "Same"));
}
