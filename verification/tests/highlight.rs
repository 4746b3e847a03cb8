use putio_browse::render::{highlight_match, match_bounds, split_highlight, Segment};

fn pieces(segments: &[Segment]) -> Vec<(&str, bool)> {
    segments.iter().map(|s| (s.text.as_str(), s.highlighted)).collect()
}

#[test]
fn the_match_is_highlighted_between_its_neighbours() {
    assert_eq!(
        pieces(&highlight_match("Holiday.mkv", "day")),
        vec![("Holi", false), ("day", true), (".mkv", false)]
    );
}

#[test]
fn a_match_at_either_end_has_one_neighbour() {
    assert_eq!(pieces(&highlight_match("Holiday", "holi")), vec![("Holi", true), ("day", false)]);
    assert_eq!(pieces(&highlight_match("Holiday", "DAY")), vec![("Holi", false), ("day", true)]);
    assert_eq!(pieces(&highlight_match("Holiday", "HOLIDAY")), vec![("Holiday", true)]);
}

#[test]
fn only_the_first_match_is_highlighted() {
    assert_eq!(
        pieces(&highlight_match("abcabc", "BC")),
        vec![("a", false), ("bc", true), ("abc", false)]
    );
}

#[test]
fn without_match_the_name_is_one_plain_piece() {
    assert_eq!(pieces(&highlight_match("Holiday", "night")), vec![("Holiday", false)]);
    assert_eq!(pieces(&highlight_match("Holiday", "")), vec![("Holiday", false)]);
    assert_eq!(pieces(&highlight_match("", "x")), vec![("", false)]);
    assert_eq!(pieces(&highlight_match("", "")), vec![("", false)]);
}

#[test]
fn names_with_wide_characters_are_cut_between_characters() {
    assert_eq!(
        pieces(&highlight_match("caf\u{e9} menu", "MENU")),
        vec![("caf\u{e9} ", false), ("menu", true)]
    );
    assert_eq!(
        pieces(&highlight_match("\u{c9}t\u{e9}", "t")),
        vec![("\u{c9}", false), ("t", true), ("\u{e9}", false)]
    );
}

#[test]
fn a_match_that_does_not_fall_between_characters_is_not_highlighted() {
    // U+0130 takes two bytes and its lower-case form three, so the match found
    // in the lower-case name starts inside a character of the name itself
    let name = "\u{130}\u{e9}x";
    assert_eq!(pieces(&highlight_match(name, "\u{e9}")), vec![(name, false)]);
}

#[test]
fn split_at_given_bounds() {
    assert_eq!(
        pieces(&split_highlight("abcdef", 2, 4)),
        vec![("ab", false), ("cd", true), ("ef", false)]
    );
    assert_eq!(pieces(&split_highlight("abcdef", 0, 6)), vec![("abcdef", true)]);
    assert_eq!(pieces(&split_highlight("abcdef", 0, 0)), vec![("", true), ("abcdef", false)]);
    assert_eq!(pieces(&split_highlight("abcdef", 6, 6)), vec![("abcdef", false), ("", true)]);
    assert_eq!(pieces(&split_highlight("abcdef", 3, 3)), vec![("abc", false), ("", true), ("def", false)]);
    assert_eq!(pieces(&split_highlight("", 0, 0)), vec![("", true)]);
    assert_eq!(
        pieces(&split_highlight("a\u{e9}b", 1, 3)),
        vec![("a", false), ("\u{e9}", true), ("b", false)]
    );
}

#[test]
fn bounds_are_those_of_the_first_occurrence() {
    assert_eq!(match_bounds("Holiday", "holiday", "day"), Some((4, 7)));
    assert_eq!(match_bounds("abcabc", "abcabc", "bc"), Some((1, 3)));
    assert_eq!(match_bounds("abc", "abc", ""), Some((0, 0)));
    assert_eq!(match_bounds("abc", "abc", "abc"), Some((0, 3)));
    assert_eq!(match_bounds("abc", "abc", "x"), None);
    assert_eq!(match_bounds("abc", "abc", "abcd"), None);
    assert_eq!(match_bounds("", "", "a"), None);
}

#[test]
fn bounds_inside_a_character_or_beyond_the_name_do_not_count() {
    // the name takes the bytes 0..2, 2..4 and 4..5; its lower-case form is one
    // byte longer, and there the second character starts at byte 3
    assert_eq!(match_bounds("\u{130}\u{e9}x", "i\u{307}\u{e9}x", "\u{e9}"), None);
    assert_eq!(match_bounds("\u{130}\u{e9}x", "i\u{307}\u{e9}x", "x"), None);
    assert_eq!(match_bounds("\u{130}\u{e9}x", "i\u{307}\u{e9}x", "i"), None);
    assert_eq!(match_bounds("\u{130}", "i\u{307}", "\u{307}"), None);
    // the lower-case forms are taken as given
    assert_eq!(match_bounds("\u{e9}x", "xx", "x"), None);
    assert_eq!(match_bounds("\u{e9}x", "12x", "x"), Some((2, 3)));
}
