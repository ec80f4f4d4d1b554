use trading_dashboard::text::{cut_fraction_text, first_segment_text, join2, join3, text_eq, u64_text};

#[test]
fn equality_and_joining() {
    assert!(text_eq("live", "live"));
    assert!(!text_eq("live", "Live"));
    assert!(!text_eq("live", "liv"));
    assert_eq!(join2("a", "bc"), "abc");
    assert_eq!(join3("Position ", "p1", " closed"), "Position p1 closed");
}

#[test]
fn integers_in_decimal() {
    assert_eq!(u64_text(0), "0");
    assert_eq!(u64_text(7), "7");
    assert_eq!(u64_text(10), "10");
    assert_eq!(u64_text(4294967295), "4294967295");
    assert_eq!(u64_text(u64::MAX), u64::MAX.to_string());
}

#[test]
fn cutting_fractions() {
    assert_eq!(cut_fraction_text("1.23456"), "1.23");
    assert_eq!(cut_fraction_text("1.2"), "1.2");
    assert_eq!(cut_fraction_text("1."), "1.");
    assert_eq!(cut_fraction_text("12"), "12");
    assert_eq!(cut_fraction_text("1.2.3"), "1.2.3");
}

#[test]
fn first_segments() {
    assert_eq!(first_segment_text("abcd-ef-gh", '-'), "abcd");
    assert_eq!(first_segment_text("nodash", '-'), "nodash");
    assert_eq!(first_segment_text("-lead", '-'), "");
}
