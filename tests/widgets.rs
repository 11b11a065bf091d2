use castero_link::scrollable_paragraph::{trim_text, ScrollableParagraphState};
use castero_link::show_notes::{format_episode_description, tidy_text};

fn state(content: &str, width: u16, height: u16) -> ScrollableParagraphState {
    let mut s = ScrollableParagraphState::new(content.to_string());
    s.set_dimensions(width, height);
    s
}

#[test]
fn rows_count_wrapped_lines() {
    // "abcdefghij" takes 3 rows at 4 columns, the empty line 1, "xy" 1.
    let s = state("abcdefghij\n\nxy", 4, 2);
    assert_eq!(s.max_scroll_vertical(), 3);
    let s = state("abcdefghij\n\nxy\n", 4, 10);
    assert_eq!(s.max_scroll_vertical(), 0);
}

#[test]
fn no_width_means_no_rows() {
    let s = state("some text", 0, 0);
    assert_eq!(s.max_scroll_vertical(), 0);
    let mut s = state("some text", 5, 0);
    s.scroll_offset_horizontal = 5;
    assert_eq!(s.max_scroll_vertical(), 0);
}

#[test]
fn wide_characters_take_two_columns() {
    let s = state("日本語", 2, 1);
    assert_eq!(s.max_scroll_vertical(), 2);
}

#[test]
fn scrolling_stays_in_range() {
    let mut s = state("1\n2\n3\n4\n5\n6", 10, 2);
    assert_eq!(s.max_scroll_vertical(), 4);
    s.scroll_down(3);
    assert_eq!(s.scroll_offset_vertical, 3);
    s.scroll_down(5);
    assert_eq!(s.scroll_offset_vertical, 4);
    s.scroll_up(1);
    assert_eq!(s.scroll_offset_vertical, 3);
    s.scroll_up(10);
    assert_eq!(s.scroll_offset_vertical, 0);
}

#[test]
fn resizing_clamps_the_offset() {
    let mut s = state("1\n2\n3\n4\n5\n6", 10, 2);
    s.scroll_down(4);
    s.set_dimensions(10, 5);
    assert_eq!(s.scroll_offset_vertical, 1);
}

#[test]
fn new_content_is_trimmed_and_scrolled_to_top() {
    let mut s = state("1\n2\n3\n4", 10, 1);
    s.scroll_down(2);
    s.set_content("  \n hello \n\t".to_string());
    assert_eq!(s.content, "hello");
    assert_eq!(s.scroll_offset_vertical, 0);
    assert_eq!(trim_text(" \t "), "");
}

#[test]
fn plain_descriptions_are_trimmed() {
    assert_eq!(format_episode_description(Some("  plain text \n")), "plain text");
    assert_eq!(format_episode_description(Some("a < b > c")), "a < b > c");
    assert_eq!(format_episode_description(None), "No show notes available for this episode.");
}

#[test]
fn html_descriptions_are_rendered() {
    let notes = format_episode_description(Some("<p>Hello <b>world</b></p><p></p><p>Bye</p>"));
    assert!(!notes.contains("<p>"));
    assert!(notes.contains("Hello"));
    assert!(notes.contains("Bye"));
    assert!(!notes.contains("\n\n"));
}

#[test]
fn tidy_text_drops_blank_lines_and_trailing_space() {
    assert_eq!(tidy_text("a  \n\n  \nb\t\r\nc"), "a\nb\nc");
    assert_eq!(tidy_text(""), "");
}

#[test]
fn whitespace_matches_std() {
    for u in 0u32..0x3100 {
        if let Some(c) = char::from_u32(u) {
            assert_eq!(castero_link::scrollable_paragraph::is_whitespace(c), c.is_whitespace(), "{:x}", u);
        }
    }
}
