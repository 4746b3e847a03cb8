//! What rendering needs to know about entries and text, apart from the
//! drawing itself.

use crate::entry::{file_kind, kind_of, FileKind};
use crate::text::{
    first_occurrence, lemma_first_occurrence, lowercase, push_char, str_find, to_lowercase,
};
use vstd::prelude::*;
use vstd::string::{StrSliceExecFns, StringExecFns, StringSliceAdditionalSpecFns};
use vstd::utf8::{
    decode_utf8, encode_utf8, encode_utf8_decode_utf8, encode_utf8_valid_utf8, is_char_boundary,
    is_char_boundary_iff_not_is_continuation_byte, is_char_boundary_start_end_of_seq,
};

verus! {

/// The character that stands for text that was cut off.
pub const ELLIPSIS: char = '\u{2026}';

/// The colours in which entries are listed.
#[derive(Clone, Copy, Debug, PartialEq, Eq, Structural)]
pub enum EntryColor {
    LightYellow,
    Green,
    Magenta,
    Cyan,
    Red,
    Gray,
}

/// `s`, cut down to `max_chars` characters. A string that is cut ends with an
/// ellipsis, which counts as one of the characters.
pub open spec fn truncated(s: Seq<char>, max_chars: nat) -> Seq<char> {
    if s.len() <= max_chars {
        s
    } else if max_chars == 0 {
        seq![ELLIPSIS]
    } else {
        s.take(max_chars - 1).push(ELLIPSIS)
    }
}

/// Cuts `s` down to `max_chars` characters for display. With `max_chars` 0 a
/// string that is not empty becomes the ellipsis alone.
pub fn truncate(s: &str, max_chars: usize) -> (r: String)
    ensures
        r@ == truncated(s@, max_chars as nat),
{
    let count = s.unicode_len();
    if count <= max_chars {
        String::from_str(s)
    } else {
        let keep: usize = if max_chars == 0 {
            0
        } else {
            max_chars - 1
        };
        let mut r = String::from_str(s.substring_char(0, keep));
        push_char(&mut r, ELLIPSIS);
        proof {
            assert(s@.subrange(0, keep as int) =~= s@.take(keep as int));
            if max_chars == 0 {
                assert(s@.take(0).push(ELLIPSIS) =~= seq![ELLIPSIS]);
            }
        }
        r
    }
}

/// The icon for an entry of the given kind.
pub open spec fn icon_of(kind: FileKind) -> Seq<char> {
    match kind {
        FileKind::Folder => "\u{f07b}"@,
        FileKind::Video => "\u{f03d}"@,
        FileKind::Audio => "\u{f001}"@,
        FileKind::Image => "\u{f03e}"@,
        FileKind::Archive => "\u{f1c6}"@,
        FileKind::Pdf => "\u{f1c1}"@,
        FileKind::Text => "\u{f15c}"@,
        FileKind::Other => "\u{f15b}"@,
    }
}

/// Returns the icon for an entry of the kind that `file_type` names; a kind
/// that the browser does not know gets the icon of a plain file.
pub fn file_type_icon(file_type: &str) -> (icon: &'static str)
    ensures
        icon@ == icon_of(kind_of(file_type@)),
{
    match file_kind(file_type) {
        FileKind::Folder => "\u{f07b}",
        FileKind::Video => "\u{f03d}",
        FileKind::Audio => "\u{f001}",
        FileKind::Image => "\u{f03e}",
        FileKind::Archive => "\u{f1c6}",
        FileKind::Pdf => "\u{f1c1}",
        FileKind::Text => "\u{f15c}",
        FileKind::Other => "\u{f15b}",
    }
}

/// The colour for an entry of the given kind.
pub open spec fn color_of(kind: FileKind) -> EntryColor {
    match kind {
        FileKind::Folder => EntryColor::LightYellow,
        FileKind::Video => EntryColor::Green,
        FileKind::Audio => EntryColor::Magenta,
        FileKind::Image => EntryColor::Cyan,
        FileKind::Archive => EntryColor::Red,
        FileKind::Pdf => EntryColor::Red,
        FileKind::Text => EntryColor::Gray,
        FileKind::Other => EntryColor::Gray,
    }
}

/// Returns the colour for an entry of the kind that `file_type` names:
/// folders stand out, and a kind that the browser does not know is grey.
pub fn file_type_color(file_type: &str) -> (color: EntryColor)
    ensures
        color == color_of(kind_of(file_type@)),
{
    match file_kind(file_type) {
        FileKind::Folder => EntryColor::LightYellow,
        FileKind::Video => EntryColor::Green,
        FileKind::Audio => EntryColor::Magenta,
        FileKind::Image => EntryColor::Cyan,
        FileKind::Archive => EntryColor::Red,
        FileKind::Pdf => EntryColor::Red,
        FileKind::Text => EntryColor::Gray,
        FileKind::Other => EntryColor::Gray,
    }
}

/// The frames of the spinner, in the order in which they are shown.
pub open spec fn spinner_frames() -> Seq<char> {
    seq![
        '\u{280b}',
        '\u{2819}',
        '\u{2839}',
        '\u{2838}',
        '\u{283c}',
        '\u{2834}',
        '\u{2826}',
        '\u{2827}',
        '\u{2807}',
        '\u{280f}',
    ]
}

/// Returns the frame of the spinner for a tick of the session.
pub fn spinner_frame(tick: u8) -> (frame: char)
    ensures
        frame == spinner_frames()[tick as int % 10],
{
    let frames: [char; 10] = [
        '\u{280b}',
        '\u{2819}',
        '\u{2839}',
        '\u{2838}',
        '\u{283c}',
        '\u{2834}',
        '\u{2826}',
        '\u{2827}',
        '\u{2807}',
        '\u{280f}',
    ];
    frames[(tick % 10) as usize]
}

/// A piece of a name, to be drawn plain or as the part that matched a search.
#[derive(Debug)]
pub struct Segment {
    pub text: String,
    pub highlighted: bool,
}

/// View of a [`Segment`].
pub struct SegmentView {
    pub text: Seq<char>,
    pub highlighted: bool,
}

impl View for Segment {
    type V = SegmentView;

    open spec fn view(&self) -> SegmentView {
        SegmentView { text: self.text@, highlighted: self.highlighted }
    }
}

/// The segments of a vector, each by its view.
pub open spec fn segment_views(segments: Seq<Segment>) -> Seq<SegmentView> {
    segments.map_values(|s: Segment| s@)
}

/// The text whose UTF-8 form is the bytes `from` to `to` of the UTF-8 form of
/// `s`.
pub open spec fn byte_slice(s: Seq<char>, from: int, to: int) -> Seq<char> {
    decode_utf8(encode_utf8(s).subrange(from, to))
}

/// `name` cut at the byte indices `start` and `end`: what stands before the
/// match, if anything, the match, and what stands after it, if anything.
pub open spec fn split_segments(name: Seq<char>, start: int, end: int) -> Seq<SegmentView> {
    let len = encode_utf8(name).len() as int;
    let before = if start > 0 {
        seq![SegmentView { text: byte_slice(name, 0, start), highlighted: false }]
    } else {
        Seq::empty()
    };
    let after = if end < len {
        seq![SegmentView { text: byte_slice(name, end, len), highlighted: false }]
    } else {
        Seq::empty()
    };
    before + seq![SegmentView { text: byte_slice(name, start, end), highlighted: true }] + after
}

/// The byte range of `name` to highlight, given the lower-case forms of the
/// name and of the query: the first place at which the query stands in the
/// lower-case name. It counts only if both its ends fall between characters
/// of `name` itself.
pub open spec fn match_range(
    name: Seq<char>,
    lower_name: Seq<char>,
    lower_query: Seq<char>,
) -> Option<(int, int)> {
    match first_occurrence(encode_utf8(lower_name), encode_utf8(lower_query)) {
        Some(start) => {
            let end = start + encode_utf8(lower_query).len();
            if is_char_boundary(encode_utf8(name), start) && is_char_boundary(
                encode_utf8(name),
                end,
            ) {
                Some((start, end))
            } else {
                None
            }
        },
        None => None,
    }
}

/// The byte range of `name` to highlight for `query`; none for an empty
/// query.
pub open spec fn highlight_range(name: Seq<char>, query: Seq<char>) -> Option<(int, int)> {
    if query.len() == 0 {
        None
    } else {
        match_range(name, lowercase(name), lowercase(query))
    }
}

/// The segments in which `name` is drawn while `query` is the last search.
pub open spec fn highlighted(name: Seq<char>, query: Seq<char>) -> Seq<SegmentView> {
    match highlight_range(name, query) {
        Some((start, end)) => split_segments(name, start, end),
        None => seq![SegmentView { text: name, highlighted: false }],
    }
}

/// Cuts `name` at two byte indices that fall between its characters.
pub fn split_highlight(name: &str, start: usize, end: usize) -> (segments: Vec<Segment>)
    requires
        start <= end,
        is_char_boundary(name.spec_bytes(), start as int),
        is_char_boundary(name.spec_bytes(), end as int),
    ensures
        segment_views(segments@) == split_segments(name@, start as int, end as int),
{
    let ghost bytes = name.spec_bytes();
    proof {
        encode_utf8_valid_utf8(name@);
    }
    let len = name.as_bytes().len();
    let (head, after) = name.split_at(end);
    proof {
        encode_utf8_valid_utf8(head@);
        let head_bytes = head.spec_bytes();
        if start == end {
            is_char_boundary_start_end_of_seq(head_bytes);
        } else if start > 0 {
            is_char_boundary_iff_not_is_continuation_byte(bytes, start as int);
            is_char_boundary_iff_not_is_continuation_byte(head_bytes, start as int);
        }
    }
    let (before, matched) = head.split_at(start);
    proof {
        encode_utf8_decode_utf8(before@);
        encode_utf8_decode_utf8(matched@);
        encode_utf8_decode_utf8(after@);
        assert(before.spec_bytes() =~= bytes.subrange(0, start as int));
        assert(matched.spec_bytes() =~= bytes.subrange(start as int, end as int));
        assert(after.spec_bytes() =~= bytes.subrange(end as int, len as int));
    }
    let mut segments: Vec<Segment> = Vec::new();
    if start > 0 {
        segments.push(Segment { text: String::from_str(before), highlighted: false });
    }
    segments.push(Segment { text: String::from_str(matched), highlighted: true });
    if end < len {
        segments.push(Segment { text: String::from_str(after), highlighted: false });
    }
    proof {
        assert(segment_views(segments@) =~= split_segments(name@, start as int, end as int));
    }
    segments
}

/// Finds the byte range of `name` to highlight, given the lower-case forms
/// of the name and of the query.
pub fn match_bounds(name: &str, lower_name: &str, lower_query: &str) -> (r: Option<(usize, usize)>)
    ensures
        match r {
            Some((start, end)) => {
                &&& match_range(name@, lower_name@, lower_query@) == Some(
                    (start as int, end as int),
                )
                &&& start <= end
                &&& is_char_boundary(name.spec_bytes(), start as int)
                &&& is_char_boundary(name.spec_bytes(), end as int)
            },
            None => match_range(name@, lower_name@, lower_query@) is None,
        },
{
    let found = str_find(lower_name, lower_query);
    proof {
        lemma_first_occurrence(
            lower_name.spec_bytes(),
            lower_query.spec_bytes(),
            match found {
                Some(at) => Some(at as int),
                None => None,
            },
        );
    }
    match found {
        Some(start) => {
            let lower_len: usize = lower_name.as_bytes().len();
            let end: usize = start + lower_query.as_bytes().len();
            if end <= lower_len && name.is_char_boundary(start) && name.is_char_boundary(end) {
                Some((start, end))
            } else {
                None
            }
        },
        None => None,
    }
}

/// Splits `name` into the segments in which it is drawn while `query` is the
/// last search: the first place where the name contains the query, case set
/// aside, is highlighted. Without such a place, or with an empty query, the
/// name is one plain segment.
pub fn highlight_match(name: &str, query: &str) -> (segments: Vec<Segment>)
    ensures
        segment_views(segments@) == highlighted(name@, query@),
{
    let bounds = if query.is_empty() {
        None
    } else {
        let lower_name = to_lowercase(name);
        let lower_query = to_lowercase(query);
        match_bounds(name, lower_name.as_str(), lower_query.as_str())
    };
    match bounds {
        Some((start, end)) => split_highlight(name, start, end),
        None => {
            let mut segments: Vec<Segment> = Vec::new();
            segments.push(Segment { text: String::from_str(name), highlighted: false });
            proof {
                assert(segment_views(segments@) =~= seq![
                    SegmentView { text: name@, highlighted: false },
                ]);
            }
            segments
        },
    }
}

} // verus!
