//! Entries of a listing and the orders they can be shown in.

use crate::text::{
    lemma_lex_lt_connected, lemma_lex_lt_irreflexive, lemma_lex_lt_transitive, lex_lt, lowercase,
    str_eq, str_lt, to_lowercase,
};
use vstd::prelude::*;

verus! {

/// The field by which the entry list is ordered.
#[derive(Clone, Copy, Debug, PartialEq, Eq, Structural)]
pub enum SortField {
    Name,
    Size,
    Date,
    Modified,
}

/// The direction in which the entry list is ordered.
#[derive(Clone, Copy, Debug, PartialEq, Eq, Structural)]
pub enum SortDirection {
    Asc,
    Desc,
}

impl SortField {
    /// The field that follows this one when the user cycles through them.
    pub open spec fn spec_next(self) -> SortField {
        match self {
            SortField::Name => SortField::Size,
            SortField::Size => SortField::Date,
            SortField::Date => SortField::Modified,
            SortField::Modified => SortField::Name,
        }
    }

    /// The field that follows this one when the user cycles through them.
    #[verifier::when_used_as_spec(spec_next)]
    pub fn next(self) -> (r: SortField)
        ensures
            r == self.spec_next(),
    {
        match self {
            SortField::Name => SortField::Size,
            SortField::Size => SortField::Date,
            SortField::Date => SortField::Modified,
            SortField::Modified => SortField::Name,
        }
    }
}

impl SortDirection {
    /// The opposite direction.
    pub open spec fn spec_reversed(self) -> SortDirection {
        match self {
            SortDirection::Asc => SortDirection::Desc,
            SortDirection::Desc => SortDirection::Asc,
        }
    }

    /// The opposite direction.
    #[verifier::when_used_as_spec(spec_reversed)]
    pub fn reversed(self) -> (r: SortDirection)
        ensures
            r == self.spec_reversed(),
    {
        match self {
            SortDirection::Asc => SortDirection::Desc,
            SortDirection::Desc => SortDirection::Asc,
        }
    }
}

/// The kinds of entries that the browser tells apart.
#[derive(Clone, Copy, Debug, PartialEq, Eq, Structural)]
pub enum FileKind {
    Folder,
    Video,
    Audio,
    Image,
    Archive,
    Pdf,
    Text,
    /// Any kind that the browser has no name for.
    Other,
}

/// The kind that the store's name for it stands for.
pub open spec fn kind_of(file_type: Seq<char>) -> FileKind {
    if file_type == "FOLDER"@ {
        FileKind::Folder
    } else if file_type == "VIDEO"@ {
        FileKind::Video
    } else if file_type == "AUDIO"@ {
        FileKind::Audio
    } else if file_type == "IMAGE"@ {
        FileKind::Image
    } else if file_type == "ARCHIVE"@ {
        FileKind::Archive
    } else if file_type == "PDF"@ {
        FileKind::Pdf
    } else if file_type == "TEXT"@ {
        FileKind::Text
    } else {
        FileKind::Other
    }
}

/// Returns the kind that the store's name for it stands for. The names are
/// written in capitals; anything else is of the kind [`FileKind::Other`].
pub fn file_kind(file_type: &str) -> (kind: FileKind)
    ensures
        kind == kind_of(file_type@),
{
    if str_eq(file_type, "FOLDER") {
        FileKind::Folder
    } else if str_eq(file_type, "VIDEO") {
        FileKind::Video
    } else if str_eq(file_type, "AUDIO") {
        FileKind::Audio
    } else if str_eq(file_type, "IMAGE") {
        FileKind::Image
    } else if str_eq(file_type, "ARCHIVE") {
        FileKind::Archive
    } else if str_eq(file_type, "PDF") {
        FileKind::Pdf
    } else if str_eq(file_type, "TEXT") {
        FileKind::Text
    } else {
        FileKind::Other
    }
}

/// One file or folder of the remote store, as a listing or a search reports it.
#[derive(Debug)]
pub struct Entry {
    /// Identifier, unique within the store.
    pub id: i64,
    pub name: String,
    /// Kind of the entry as the store names it: `FOLDER`, `VIDEO`, `AUDIO`, ...
    pub file_type: String,
    /// Size in bytes.
    pub size: u64,
    /// Creation time, in seconds since the epoch.
    pub created_at: i64,
    /// Time of the last change, in seconds since the epoch.
    pub updated_at: i64,
    /// Identifier of the folder that holds the entry; 0 is the root.
    pub parent_id: i64,
}

/// An [`Entry`] with its strings as sequences of characters.
pub struct EntryView {
    pub id: i64,
    pub name: Seq<char>,
    pub file_type: Seq<char>,
    pub size: u64,
    pub created_at: i64,
    pub updated_at: i64,
    pub parent_id: i64,
}

impl View for Entry {
    type V = EntryView;

    open spec fn view(&self) -> EntryView {
        EntryView {
            id: self.id,
            name: self.name@,
            file_type: self.file_type@,
            size: self.size,
            created_at: self.created_at,
            updated_at: self.updated_at,
            parent_id: self.parent_id,
        }
    }
}

impl Clone for Entry {
    fn clone(&self) -> (r: Entry)
        ensures
            r@ == self@,
    {
        Entry {
            id: self.id,
            name: self.name.clone(),
            file_type: self.file_type.clone(),
            size: self.size,
            created_at: self.created_at,
            updated_at: self.updated_at,
            parent_id: self.parent_id,
        }
    }
}

/// The entries of a vector, each by its view.
pub open spec fn entry_views(entries: Seq<Entry>) -> Seq<EntryView> {
    entries.map_values(|e: Entry| e@)
}

/// `a` comes strictly before `b` when the list is ordered upwards by `field`.
/// Names are compared without regard to case.
pub open spec fn key_lt(a: EntryView, b: EntryView, field: SortField) -> bool {
    match field {
        SortField::Name => lex_lt(lowercase(a.name), lowercase(b.name)),
        SortField::Size => a.size < b.size,
        SortField::Date => a.created_at < b.created_at,
        SortField::Modified => a.updated_at < b.updated_at,
    }
}

/// `a` and `b` tie under `field`.
pub open spec fn same_key(a: EntryView, b: EntryView, field: SortField) -> bool {
    match field {
        SortField::Name => lowercase(a.name) == lowercase(b.name),
        SortField::Size => a.size == b.size,
        SortField::Date => a.created_at == b.created_at,
        SortField::Modified => a.updated_at == b.updated_at,
    }
}

/// `a` comes strictly before `b` in the order given by `field` and `direction`.
pub open spec fn precedes(
    a: EntryView,
    b: EntryView,
    field: SortField,
    direction: SortDirection,
) -> bool {
    match direction {
        SortDirection::Asc => key_lt(a, b, field),
        SortDirection::Desc => key_lt(b, a, field),
    }
}

/// Of two entries exactly one holds: the first precedes the second, the second
/// precedes the first, or they tie.
pub proof fn lemma_order_total(
    a: EntryView,
    b: EntryView,
    field: SortField,
    direction: SortDirection,
)
    ensures
        precedes(a, b, field, direction) || precedes(b, a, field, direction) || same_key(
            a,
            b,
            field,
        ),
        !(precedes(a, b, field, direction) && precedes(b, a, field, direction)),
        same_key(a, b, field) ==> !precedes(a, b, field, direction) && !precedes(
            b,
            a,
            field,
            direction,
        ),
{
    if field == SortField::Name {
        let x = lowercase(a.name);
        let y = lowercase(b.name);
        if x == y {
            lemma_lex_lt_irreflexive(x);
        } else {
            lemma_lex_lt_connected(x, y);
            if lex_lt(x, y) && lex_lt(y, x) {
                lemma_lex_lt_transitive(x, y, x);
                lemma_lex_lt_irreflexive(x);
            }
        }
    }
}

/// The order is transitive.
pub proof fn lemma_order_transitive(
    a: EntryView,
    b: EntryView,
    c: EntryView,
    field: SortField,
    direction: SortDirection,
)
    requires
        precedes(a, b, field, direction),
        precedes(b, c, field, direction),
    ensures
        precedes(a, c, field, direction),
{
    if field == SortField::Name {
        let x = lowercase(a.name);
        let y = lowercase(b.name);
        let z = lowercase(c.name);
        if direction == SortDirection::Asc {
            lemma_lex_lt_transitive(x, y, z);
        } else {
            lemma_lex_lt_transitive(z, y, x);
        }
    }
}

/// What is not after `b` is before everything that `b` is before.
pub proof fn lemma_order_not_after(
    a: EntryView,
    b: EntryView,
    c: EntryView,
    field: SortField,
    direction: SortDirection,
)
    requires
        !precedes(b, a, field, direction),
        precedes(b, c, field, direction),
    ensures
        precedes(a, c, field, direction),
{
    lemma_order_total(a, b, field, direction);
    if precedes(a, b, field, direction) {
        lemma_order_transitive(a, b, c, field, direction);
    }
}

/// What is not before `b` is after everything that `b` is after.
pub proof fn lemma_order_not_before(
    a: EntryView,
    b: EntryView,
    c: EntryView,
    field: SortField,
    direction: SortDirection,
)
    requires
        precedes(a, b, field, direction),
        !precedes(c, b, field, direction),
    ensures
        precedes(a, c, field, direction),
{
    lemma_order_total(b, c, field, direction);
    if precedes(b, c, field, direction) {
        lemma_order_transitive(a, b, c, field, direction);
    }
}

/// Tells whether `a` comes strictly before `b` in the given order.
pub fn entry_precedes(a: &Entry, b: &Entry, field: SortField, direction: SortDirection) -> (r:
    bool)
    ensures
        r == precedes(a@, b@, field, direction),
{
    let (x, y) = match direction {
        SortDirection::Asc => (a, b),
        SortDirection::Desc => (b, a),
    };
    match field {
        SortField::Name => {
            let lx = to_lowercase(x.name.as_str());
            let ly = to_lowercase(y.name.as_str());
            str_lt(lx.as_str(), ly.as_str())
        },
        SortField::Size => x.size < y.size,
        SortField::Date => x.created_at < y.created_at,
        SortField::Modified => x.updated_at < y.updated_at,
    }
}

} // verus!
