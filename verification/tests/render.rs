use putio_browse::layout::{centered_rect, cursor_column, Rect};
use putio_browse::render::{
    file_type_color, file_type_icon, spinner_frame, truncate, EntryColor, ELLIPSIS,
};
use putio_browse::text::decimal_string;

#[test]
fn short_text_is_kept() {
    assert_eq!(truncate("hello", 5), "hello");
    assert_eq!(truncate("hello", 24), "hello");
    assert_eq!(truncate("", 0), "");
}

#[test]
fn long_text_ends_with_an_ellipsis() {
    assert_eq!(truncate("hello world", 6), "hello\u{2026}");
    assert_eq!(truncate("hello", 4), "hel\u{2026}");
    assert_eq!(truncate("hello", 1), "\u{2026}");
    assert_eq!(truncate("hello", 0), "\u{2026}");
    assert_eq!(ELLIPSIS, '\u{2026}');
}

#[test]
fn truncate_counts_characters_not_bytes() {
    assert_eq!(truncate("\u{e9}t\u{e9}", 3), "\u{e9}t\u{e9}");
    assert_eq!(truncate("\u{65e5}\u{672c}\u{8a9e}\u{306e}\u{540d}", 3), "\u{65e5}\u{672c}\u{2026}");
}

#[test]
fn icons_per_kind() {
    assert_eq!(file_type_icon("FOLDER"), "\u{f07b}");
    assert_eq!(file_type_icon("VIDEO"), "\u{f03d}");
    assert_eq!(file_type_icon("AUDIO"), "\u{f001}");
    assert_eq!(file_type_icon("IMAGE"), "\u{f03e}");
    assert_eq!(file_type_icon("ARCHIVE"), "\u{f1c6}");
    assert_eq!(file_type_icon("PDF"), "\u{f1c1}");
    assert_eq!(file_type_icon("TEXT"), "\u{f15c}");
    assert_eq!(file_type_icon("FILE"), "\u{f15b}");
    assert_eq!(file_type_icon("video"), "\u{f15b}");
}

#[test]
fn colours_per_kind() {
    assert_eq!(file_type_color("FOLDER"), EntryColor::LightYellow);
    assert_eq!(file_type_color("VIDEO"), EntryColor::Green);
    assert_eq!(file_type_color("AUDIO"), EntryColor::Magenta);
    assert_eq!(file_type_color("IMAGE"), EntryColor::Cyan);
    assert_eq!(file_type_color("ARCHIVE"), EntryColor::Red);
    assert_eq!(file_type_color("PDF"), EntryColor::Red);
    assert_eq!(file_type_color("TEXT"), EntryColor::Gray);
    assert_eq!(file_type_color(""), EntryColor::Gray);
}

#[test]
fn spinner_has_ten_frames() {
    let frames = ['\u{280b}', '\u{2819}', '\u{2839}', '\u{2838}', '\u{283c}', '\u{2834}', '\u{2826}',
        '\u{2827}', '\u{2807}', '\u{280f}'];
    for tick in 0..=255u8 {
        assert_eq!(spinner_frame(tick), frames[tick as usize % 10]);
    }
}

#[test]
fn popup_is_centred() {
    let screen = Rect { x: 0, y: 0, width: 100, height: 40 };
    assert_eq!(centered_rect(50, 7, screen), Rect { x: 25, y: 16, width: 50, height: 7 });
    assert_eq!(centered_rect(38, 10, screen), Rect { x: 31, y: 15, width: 38, height: 10 });
    let shifted = Rect { x: 10, y: 5, width: 81, height: 9 };
    assert_eq!(centered_rect(40, 5, shifted), Rect { x: 34, y: 7, width: 32, height: 5 });
}

#[test]
fn popup_never_leaves_the_screen() {
    let small = Rect { x: 3, y: 2, width: 20, height: 4 };
    assert_eq!(centered_rect(50, 7, small), Rect { x: 8, y: 2, width: 10, height: 4 });
    assert_eq!(centered_rect(250, 1, small), Rect { x: 3, y: 3, width: 20, height: 1 });
    let empty = Rect { x: 0, y: 0, width: 0, height: 0 };
    assert_eq!(centered_rect(50, 5, empty), empty);
    let wide = Rect { x: 0, y: 0, width: 65535, height: 65535 };
    assert_eq!(
        centered_rect(50, 65535, wide),
        Rect { x: 16384, y: 0, width: 32767, height: 65535 }
    );
}

#[test]
fn identifiers_in_decimal() {
    assert_eq!(decimal_string(0), "0");
    assert_eq!(decimal_string(7), "7");
    assert_eq!(decimal_string(10), "10");
    assert_eq!(decimal_string(-1), "-1");
    assert_eq!(decimal_string(1234567890), "1234567890");
    assert_eq!(decimal_string(i64::MAX), "9223372036854775807");
    assert_eq!(decimal_string(i64::MIN), "-9223372036854775808");
}

#[test]
fn cursor_follows_the_text_up_to_the_last_column() {
    assert_eq!(cursor_column(1, 0, 79), 1);
    assert_eq!(cursor_column(1, 5, 79), 6);
    assert_eq!(cursor_column(1, 78, 79), 79);
    assert_eq!(cursor_column(1, 500, 79), 79);
    assert_eq!(cursor_column(27, 3, 70), 30);
    assert_eq!(cursor_column(27, usize::MAX, 70), 70);
    assert_eq!(cursor_column(10, 3, 4), 4);
    assert_eq!(cursor_column(0, 65535, 65535), 65535);
}

#[test]
fn rect_bounds_are_checked() {
    assert!(Rect { x: 0, y: 0, width: 65535, height: 65535 }.fits());
    assert!(Rect { x: 65535, y: 65535, width: 0, height: 0 }.fits());
    assert!(!Rect { x: 1, y: 0, width: 65535, height: 1 }.fits());
    assert!(!Rect { x: 0, y: 2, width: 1, height: 65534 }.fits());
}
