use nyaa::marquee::marquee;

#[test]
fn text_that_fits_is_returned_whole() {
    assert_eq!(marquee("abc", 10, 100, true), "abc");
    assert_eq!(marquee("abc", 3, 100, true), "abc");
}

#[test]
fn unselected_text_does_not_scroll() {
    assert_eq!(marquee("abcdef", 3, 100, false), "abcdef");
}

#[test]
fn scrolling_waits_five_ticks() {
    assert_eq!(marquee("abcdef", 3, 0, true), "abcdef");
    assert_eq!(marquee("abcdef", 3, 5, true), "abcdef");
    assert_ne!(marquee("abcdef", 3, 6, true), "abcdef");
}

#[test]
fn scrolling_advances_one_character_per_tick() {
    // Cycle is "abcdef" plus three spaces, nine positions long.
    assert_eq!(marquee("abcdef", 3, 6, true), "bcd");
    assert_eq!(marquee("abcdef", 3, 7, true), "cde");
    assert_eq!(marquee("abcdef", 3, 8, true), "def");
}

#[test]
fn scrolling_wraps_through_the_separator() {
    // Start position 7 of 9: separator spaces, then the text again.
    assert_eq!(marquee("abcdef", 4, 12, true), "  ab");
    // One full cycle later the window repeats.
    assert_eq!(marquee("abcdef", 4, 21, true), "  ab");
}
