//! The session as a mathematical value, and its transitions.
//!
//! [`Session`] is the view of [`crate::app::BrowserApp`]. Every operation of
//! the browser is specified here as a function from one session to the next.

use crate::entry::{EntryView, SortDirection, SortField};
use crate::sort::{is_sorted, lemma_sort_there_and_back, lemma_stable_sort, stable_sort};
use crate::text::{is_substring, lowercase};
use vstd::arithmetic::div_mod::{
    lemma_fundamental_div_mod_converse, lemma_mod_pos_bound, lemma_small_mod,
};
use vstd::prelude::*;

verus! {

/// Identifier of the root folder.
pub const ROOT_ID: i64 = 0;

/// Identifier of the breadcrumb that stands for search results.
pub const SEARCH_RESULTS_ID: i64 = -1;

/// Number of entries that a page movement skips.
pub const PAGE_STEP: usize = 10;

/// Lifecycle of the session.
#[derive(Clone, Copy, Debug, PartialEq, Eq, Structural)]
pub enum AppState {
    Browsing,
    Quitting,
}

/// View of a [`crate::app::BreadcrumbEntry`].
pub struct BreadcrumbView {
    pub id: i64,
    pub name: Seq<char>,
    pub saved_index: nat,
    pub saved_offset: nat,
}

/// View of a [`crate::app::ModalState`].
pub enum ModalView {
    Closed,
    Loading,
    ConfirmDelete { file_id: i64, file_name: Seq<char> },
    FileActions { file_id: i64, file_name: Seq<char>, file_type: Seq<char>, selected: nat },
    Find { query: Seq<char> },
    SearchInput { query: Seq<char> },
    Error(Seq<char>),
    Success(Seq<char>),
}

/// View of a [`crate::app::PendingAction`].
pub enum PendingView {
    Nothing,
    Download { file_id: i64 },
    Search { query: Seq<char> },
    GoToFolder { parent_id: i64, file_id: i64 },
    Delete { file_id: i64 },
    CopyPath { file_name: Seq<char>, parent_id: i64 },
}

/// The whole state of a browsing session.
pub struct Session {
    pub current_folder_id: i64,
    pub breadcrumbs: Seq<BreadcrumbView>,
    pub files: Seq<EntryView>,
    pub selected_index: nat,
    pub list_offset: nat,
    pub app_state: AppState,
    pub modal: ModalView,
    pub pending_action: PendingView,
    pub sort_field: SortField,
    pub sort_direction: SortDirection,
    pub restore_index: Option<nat>,
    pub restore_offset: Option<nat>,
    pub tick: u8,
    pub needs_reload: bool,
    pub spinner_label: Seq<char>,
    pub last_search: Option<Seq<char>>,
    pub is_search_results: bool,
    pub pending_select_id: Option<i64>,
}

/// The breadcrumb of the root folder.
pub open spec fn root_breadcrumb() -> BreadcrumbView {
    BreadcrumbView { id: ROOT_ID, name: "My Files"@, saved_index: 0, saved_offset: 0 }
}

/// The name of the breadcrumb that stands for the results of a search.
pub open spec fn search_label(query: Seq<char>) -> Seq<char> {
    "Search: "@ + query
}

/// The smaller of two natural numbers.
pub open spec fn min_nat(a: nat, b: nat) -> nat {
    if a <= b {
        a
    } else {
        b
    }
}

/// Index of the last entry of a list of the given length; 0 for an empty list.
pub open spec fn last_index(len: nat) -> nat {
    if len == 0 {
        0
    } else {
        (len - 1) as nat
    }
}

/// Index of the first entry with the given identifier; the length of the list
/// if there is none.
pub open spec fn position_of_id(files: Seq<EntryView>, id: i64) -> nat
    decreases files.len(),
{
    if files.len() == 0 {
        0
    } else if files[0].id == id {
        0
    } else {
        1 + position_of_id(files.drop_first(), id)
    }
}

/// The entry's name contains the query, case set aside.
pub open spec fn name_matches(entry: EntryView, query: Seq<char>) -> bool {
    is_substring(lowercase(query), lowercase(entry.name))
}

/// The position that the `k`-th probe of a search looks at, counted from the
/// selection and wrapping round the end of the list.
pub open spec fn probe(len: int, selected: int, k: int) -> int {
    (selected + k) % len
}

/// For each entry, whether its name contains the query.
pub open spec fn match_flags(files: Seq<EntryView>, query: Seq<char>) -> Seq<bool> {
    files.map_values(|e: EntryView| name_matches(e, query))
}

/// The first `k` from `from` up to the length of the list whose probe looks at
/// a position that is flagged.
pub open spec fn first_hit(hits: Seq<bool>, selected: int, from: int) -> Option<int>
    decreases hits.len() + 1 - from,
{
    if from > hits.len() || from < 1 {
        None
    } else if hits[probe(hits.len() as int, selected, from)] {
        Some(from)
    } else {
        first_hit(hits, selected, from + 1)
    }
}

/// The first flagged position after `selected`, wrapping round the end of the
/// list and coming to `selected` itself last.
pub open spec fn next_hit(hits: Seq<bool>, selected: nat) -> Option<nat> {
    if hits.len() == 0 {
        None
    } else {
        match first_hit(hits, selected as int, 1) {
            Some(k) => Some(probe(hits.len() as int, selected as int, k) as nat),
            None => None,
        }
    }
}

impl Session {
    /// What the operations on a session rely on, and keep: the breadcrumbs
    /// start at the root, and the selection points into the list, or is 0
    /// where the list is empty.
    pub open spec fn wf(self) -> bool {
        &&& self.breadcrumbs.len() >= 1
        &&& self.breadcrumbs[0].id == ROOT_ID
        &&& self.files.len() > 0 ==> self.selected_index < self.files.len()
        &&& self.files.len() == 0 ==> self.selected_index == 0
    }

    /// The list is in the order given by the sort field and direction. This
    /// holds of the session a browser starts with, and every operation keeps
    /// it.
    pub open spec fn ordered(self) -> bool {
        is_sorted(self.files, self.sort_field, self.sort_direction)
    }

    /// The session a browser starts with: at the root, nothing listed yet, and
    /// the first listing due.
    pub open spec fn initial() -> Session {
        Session {
            current_folder_id: ROOT_ID,
            breadcrumbs: seq![root_breadcrumb()],
            files: Seq::empty(),
            selected_index: 0,
            list_offset: 0,
            app_state: AppState::Browsing,
            modal: ModalView::Loading,
            pending_action: PendingView::Nothing,
            sort_field: SortField::Name,
            sort_direction: SortDirection::Asc,
            restore_index: None,
            restore_offset: None,
            tick: 0,
            needs_reload: true,
            spinner_label: "Loading..."@,
            last_search: None,
            is_search_results: false,
            pending_select_id: None,
        }
    }

    /// The breadcrumbs, with the selection and the scroll offset stored in the
    /// last of them.
    pub open spec fn breadcrumbs_with_position(self) -> Seq<BreadcrumbView> {
        if self.breadcrumbs.len() == 0 {
            self.breadcrumbs
        } else {
            self.breadcrumbs.update(
                self.breadcrumbs.len() - 1,
                BreadcrumbView {
                    saved_index: self.selected_index,
                    saved_offset: self.list_offset,
                    ..self.breadcrumbs.last()
                },
            )
        }
    }

    /// Descends into a folder.
    pub open spec fn enter_folder(self, id: i64, name: Seq<char>) -> Session {
        Session {
            breadcrumbs: self.breadcrumbs_with_position().push(
                BreadcrumbView { id, name, saved_index: 0, saved_offset: 0 },
            ),
            current_folder_id: id,
            files: Seq::empty(),
            selected_index: 0,
            modal: ModalView::Loading,
            ..self
        }
    }

    /// Returns to the breadcrumb below the last one; at the root nothing
    /// changes.
    pub open spec fn go_back(self) -> Session {
        if self.breadcrumbs.len() > 1 {
            let rest = self.breadcrumbs.drop_last();
            Session {
                breadcrumbs: rest,
                is_search_results: false,
                current_folder_id: rest.last().id,
                restore_index: Some(rest.last().saved_index),
                restore_offset: Some(rest.last().saved_offset),
                files: Seq::empty(),
                selected_index: 0,
                modal: ModalView::Loading,
                ..self
            }
        } else {
            self
        }
    }

    /// The selection that a fresh listing gets.
    pub open spec fn selection_after_load(self, sorted: Seq<EntryView>) -> nat {
        match self.pending_select_id {
            Some(id) => {
                let found = position_of_id(sorted, id);
                if found < sorted.len() {
                    found
                } else {
                    0
                }
            },
            None => {
                let wanted: nat = match self.restore_index {
                    Some(i) => i,
                    None => 0,
                };
                min_nat(wanted, last_index(sorted.len()))
            },
        }
    }

    /// Takes in a fresh listing of the current folder.
    pub open spec fn set_files(self, files: Seq<EntryView>) -> Session {
        let sorted = stable_sort(files, self.sort_field, self.sort_direction);
        let last = last_index(sorted.len());
        match self.pending_select_id {
            Some(id) => Session {
                files: sorted,
                selected_index: self.selection_after_load(sorted),
                pending_select_id: None,
                restore_offset: None,
                modal: ModalView::Closed,
                ..self
            },
            None => Session {
                files: sorted,
                selected_index: self.selection_after_load(sorted),
                restore_index: None,
                list_offset: match self.restore_offset {
                    Some(offset) => min_nat(offset, last),
                    None => self.list_offset,
                },
                restore_offset: None,
                modal: ModalView::Closed,
                ..self
            },
        }
    }

    /// Shows the results of a search, put in order like any listing, in place
    /// of earlier results if there are any.
    pub open spec fn enter_search_results(self, query: Seq<char>, files: Seq<EntryView>) -> Session {
        let breadcrumbs = if self.is_search_results {
            if self.breadcrumbs.len() == 0 {
                self.breadcrumbs
            } else {
                self.breadcrumbs.update(
                    self.breadcrumbs.len() - 1,
                    BreadcrumbView { name: search_label(query), ..self.breadcrumbs.last() },
                )
            }
        } else {
            self.breadcrumbs_with_position().push(
                BreadcrumbView {
                    id: SEARCH_RESULTS_ID,
                    name: search_label(query),
                    saved_index: 0,
                    saved_offset: 0,
                },
            )
        };
        Session {
            breadcrumbs,
            is_search_results: true,
            files: stable_sort(files, self.sort_field, self.sort_direction),
            selected_index: 0,
            list_offset: 0,
            modal: ModalView::Closed,
            ..self
        }
    }

    /// Gives the breadcrumb of the current folder the name that the store
    /// reports for it. The root keeps its name, and so does a last breadcrumb
    /// that is not the current folder's.
    pub open spec fn with_folder_name(self, name: Seq<char>) -> Session {
        if self.current_folder_id != ROOT_ID && self.breadcrumbs.len() > 0
            && self.breadcrumbs.last().id == self.current_folder_id {
            Session {
                breadcrumbs: self.breadcrumbs.update(
                    self.breadcrumbs.len() - 1,
                    BreadcrumbView { name, ..self.breadcrumbs.last() },
                ),
                ..self
            }
        } else {
            self
        }
    }

    /// Forgets every breadcrumb but the root.
    pub open spec fn reset_to_root(self) -> Session {
        Session {
            breadcrumbs: seq![
                BreadcrumbView { saved_index: 0, saved_offset: 0, ..self.breadcrumbs[0] },
            ],
            is_search_results: false,
            current_folder_id: ROOT_ID,
            ..self
        }
    }

    /// Goes straight to a folder, with the entry to select once it is listed.
    pub open spec fn navigate_to_folder(self, parent_id: i64, file_id: i64) -> Session {
        let root = self.reset_to_root();
        Session {
            breadcrumbs: if parent_id != ROOT_ID {
                root.breadcrumbs.push(
                    BreadcrumbView { id: parent_id, name: "..."@, saved_index: 0, saved_offset: 0 },
                )
            } else {
                root.breadcrumbs
            },
            current_folder_id: parent_id,
            pending_select_id: Some(file_id),
            files: Seq::empty(),
            selected_index: 0,
            modal: ModalView::Loading,
            ..root
        }
    }

    /// Orders the list anew by the current field and direction and selects its
    /// first entry.
    pub open spec fn resorted(self) -> Session {
        Session {
            files: stable_sort(self.files, self.sort_field, self.sort_direction),
            selected_index: 0,
            ..self
        }
    }

    /// Orders the list by the next field.
    pub open spec fn cycle_sort_field(self) -> Session {
        Session { sort_field: self.sort_field.next(), ..self }.resorted()
    }

    /// Orders the list in the opposite direction.
    pub open spec fn toggle_sort_direction(self) -> Session {
        Session { sort_direction: self.sort_direction.reversed(), ..self }.resorted()
    }

    /// The selected entry, if the list has one.
    pub open spec fn selected_file(self) -> Option<EntryView> {
        if self.selected_index < self.files.len() {
            Some(self.files[self.selected_index as int])
        } else {
            None
        }
    }

    /// The first listed entry with the given identifier.
    pub open spec fn entry_with_id(self, id: i64) -> Option<EntryView> {
        let at = position_of_id(self.files, id);
        if at < self.files.len() {
            Some(self.files[at as int])
        } else {
            None
        }
    }

    /// Marks the selection and the scroll offset to be restored by the next
    /// listing.
    pub open spec fn save_position_for_reload(self) -> Session {
        Session {
            restore_index: Some(self.selected_index),
            restore_offset: Some(self.list_offset),
            ..self
        }
    }

    /// Moves the selection up by `step` entries, stopping at the first.
    pub open spec fn moved_up(self, step: nat) -> Session {
        Session {
            selected_index: if self.selected_index >= step {
                (self.selected_index - step) as nat
            } else {
                0
            },
            ..self
        }
    }

    /// Moves the selection down by `step` entries, stopping at the last.
    pub open spec fn moved_down(self, step: nat) -> Session {
        if self.files.len() == 0 {
            self
        } else {
            Session {
                selected_index: min_nat(self.selected_index + step, last_index(self.files.len())),
                ..self
            }
        }
    }

    /// Where a search for `query` ends: the first match after the selection,
    /// wrapping round, if there is one. An empty query matches nothing.
    pub open spec fn find_target(self, query: Seq<char>) -> Option<nat> {
        if query.len() == 0 {
            None
        } else {
            next_hit(match_flags(self.files, query), self.selected_index)
        }
    }

    /// Moves the selection to the next entry whose name contains `query`.
    pub open spec fn find_next_with(self, query: Seq<char>) -> Session {
        match self.find_target(query) {
            Some(i) => Session { selected_index: i, ..self },
            None => self,
        }
    }

    /// Repeats the last search.
    pub open spec fn find_next(self) -> Session {
        match self.last_search {
            Some(query) => self.find_next_with(query),
            None => self,
        }
    }
}

/// What the index of the first entry with a given identifier is: no entry
/// before it has the identifier, and the entry there has it, unless the index
/// is the length of the list.
pub proof fn lemma_position_of_id_is_first(files: Seq<EntryView>, id: i64)
    ensures
        0 <= position_of_id(files, id) <= files.len(),
        forall|j: int| 0 <= j < position_of_id(files, id) ==> (#[trigger] files[j]).id != id,
        position_of_id(files, id) < files.len() ==> files[position_of_id(files, id) as int].id == id,
    decreases files.len(),
{
    if files.len() > 0 && files[0].id != id {
        let rest = files.drop_first();
        lemma_position_of_id_is_first(rest, id);
        assert forall|j: int| 0 <= j < position_of_id(files, id) implies (#[trigger] files[j]).id
            != id by {
            if j > 0 {
                assert(files[j] == rest[j - 1]);
            }
        }
    }
}

/// What a scan from probe `from` on finds: the first probe at a flagged
/// position, which is at most the length of the list; or nothing, when no
/// probe from there on comes to a flagged position.
pub proof fn lemma_first_hit(hits: Seq<bool>, selected: int, from: int)
    requires
        1 <= from,
    ensures
        match first_hit(hits, selected, from) {
            Some(k) => {
                &&& from <= k <= hits.len()
                &&& hits[probe(hits.len() as int, selected, k)]
                &&& forall|j: int|
                    from <= j < k ==> !#[trigger] hits[probe(hits.len() as int, selected, j)]
            },
            None => forall|j: int|
                from <= j <= hits.len() ==> !#[trigger] hits[probe(hits.len() as int, selected, j)],
        },
    decreases hits.len() + 1 - from,
{
    if from <= hits.len() && !hits[probe(hits.len() as int, selected, from)] {
        lemma_first_hit(hits, selected, from + 1);
    }
}

/// Every position of the list is looked at by one of the probes 1 to the
/// length of the list.
pub proof fn lemma_probes_cover(len: int, selected: int, i: int) -> (k: int)
    requires
        0 <= selected < len,
        0 <= i < len,
    ensures
        1 <= k <= len,
        probe(len, selected, k) == i,
{
    if i > selected {
        lemma_small_mod(i as nat, len as nat);
        i - selected
    } else {
        lemma_fundamental_div_mod_converse(i + len, len, 1, i);
        i - selected + len
    }
}

/// A scan finds a position exactly when some position is flagged, and what
/// it finds is a flagged position of the list.
pub proof fn lemma_next_hit(hits: Seq<bool>, selected: nat)
    requires
        hits.len() > 0 ==> selected < hits.len(),
    ensures
        next_hit(hits, selected).is_some() <==> exists|i: int| 0 <= i < hits.len() && hits[i],
        next_hit(hits, selected) matches Some(i) ==> i < hits.len() && hits[i as int],
{
    let n = hits.len() as int;
    if n > 0 {
        lemma_first_hit(hits, selected as int, 1);
        match first_hit(hits, selected as int, 1) {
            Some(k) => {
                lemma_mod_pos_bound(selected + k, n);
            },
            None => {
                assert forall|i: int| 0 <= i < n implies !hits[i] by {
                    let k = lemma_probes_cover(n, selected as int, i);
                    assert(!hits[probe(n, selected as int, k)]);
                }
            },
        }
    }
}

/// A search with a non-empty query finds an entry exactly when the name of
/// some entry contains the query, case set aside; and what it finds is such
/// an entry.
pub proof fn lemma_find_target(s: Session, query: Seq<char>)
    requires
        s.wf(),
        query.len() > 0,
    ensures
        s.find_target(query).is_some() <==> exists|i: int|
            0 <= i < s.files.len() && name_matches(#[trigger] s.files[i], query),
        s.find_target(query) matches Some(i) ==> i < s.files.len() && name_matches(
            s.files[i as int],
            query,
        ),
{
    let hits = match_flags(s.files, query);
    lemma_next_hit(hits, s.selected_index);
    if exists|i: int| 0 <= i < s.files.len() && name_matches(#[trigger] s.files[i], query) {
        let i = choose|i: int| 0 <= i < s.files.len() && name_matches(#[trigger] s.files[i], query);
        assert(hits[i]);
    }
    if exists|i: int| 0 <= i < hits.len() && hits[i] {
        let i = choose|i: int| 0 <= i < hits.len() && hits[i];
        assert(name_matches(s.files[i], query));
    }
}

/// Search results that replace earlier ones leave the number of breadcrumbs
/// as it is; the first results add one breadcrumb.
pub proof fn lemma_search_results_breadcrumbs(
    s: Session,
    query: Seq<char>,
    files: Seq<EntryView>,
)
    requires
        s.wf(),
    ensures
        s.is_search_results ==> s.enter_search_results(query, files).breadcrumbs.len()
            == s.breadcrumbs.len(),
        !s.is_search_results ==> s.enter_search_results(query, files).breadcrumbs.len()
            == s.breadcrumbs.len() + 1,
        s.enter_search_results(query, files).breadcrumbs.last().name == search_label(query),
        s.enter_search_results(query, files).files == stable_sort(
            files,
            s.sort_field,
            s.sort_direction,
        ),
{
}

/// Entering a folder and going back leads to the breadcrumbs one came from,
/// and marks for the next listing the selection and the scroll offset that
/// one had there.
pub proof fn lemma_enter_then_back(s: Session, id: i64, name: Seq<char>)
    requires
        s.wf(),
    ensures
        s.enter_folder(id, name).breadcrumbs.len() == s.breadcrumbs.len() + 1,
        s.enter_folder(id, name).selected_index == 0,
        s.enter_folder(id, name).go_back().breadcrumbs == s.breadcrumbs_with_position(),
        s.enter_folder(id, name).go_back().breadcrumbs.len() == s.breadcrumbs.len(),
        s.enter_folder(id, name).go_back().current_folder_id == s.breadcrumbs.last().id,
        s.enter_folder(id, name).go_back().restore_index == Some(s.selected_index),
        s.enter_folder(id, name).go_back().restore_offset == Some(s.list_offset),
{
    let entered = s.enter_folder(id, name);
    assert(entered.breadcrumbs.drop_last() =~= s.breadcrumbs_with_position());
}

/// A listing that arrives with a place marked and no entry asked for selects
/// the marked entry, or the last one if the list has become shorter.
pub proof fn lemma_listing_restores_position(s: Session, files: Seq<EntryView>)
    requires
        s.wf(),
        s.pending_select_id is None,
        s.restore_index is Some,
        s.restore_offset is Some,
        files.len() > 0,
    ensures
        s.set_files(files).selected_index == min_nat(s.restore_index->0, last_index(files.len())),
        s.set_files(files).list_offset == min_nat(s.restore_offset->0, last_index(files.len())),
        s.set_files(files).restore_index is None,
        s.set_files(files).restore_offset is None,
{
    lemma_stable_sort(files, s.sort_field, s.sort_direction);
}

/// A fresh listing and a change of the order leave the list in order.
pub proof fn lemma_listing_is_sorted(s: Session, files: Seq<EntryView>)
    ensures
        is_sorted(s.set_files(files).files, s.sort_field, s.sort_direction),
        is_sorted(s.resorted().files, s.sort_field, s.sort_direction),
        is_sorted(
            s.cycle_sort_field().files,
            s.cycle_sort_field().sort_field,
            s.cycle_sort_field().sort_direction,
        ),
        is_sorted(
            s.toggle_sort_direction().files,
            s.toggle_sort_direction().sort_field,
            s.toggle_sort_direction().sort_direction,
        ),
{
    lemma_stable_sort(files, s.sort_field, s.sort_direction);
    lemma_stable_sort(s.files, s.sort_field, s.sort_direction);
    lemma_stable_sort(s.files, s.sort_field.next(), s.sort_direction);
    lemma_stable_sort(s.files, s.sort_field, s.sort_direction.reversed());
}

/// Turning the direction round twice gives back the list as it was.
pub proof fn lemma_toggle_twice(s: Session)
    requires
        s.ordered(),
    ensures
        s.toggle_sort_direction().toggle_sort_direction().files == s.files,
        s.toggle_sort_direction().toggle_sort_direction().sort_direction == s.sort_direction,
        s.toggle_sort_direction().toggle_sort_direction().sort_field == s.sort_field,
{
    lemma_sort_there_and_back(s.files, s.sort_field, s.sort_direction);
}

/// The navigation and list operations keep a session well formed.
pub proof fn lemma_operations_keep_wf(
    s: Session,
    id: i64,
    other_id: i64,
    name: Seq<char>,
    files: Seq<EntryView>,
    step: nat,
)
    requires
        s.wf(),
    ensures
        Session::initial().wf(),
        s.enter_folder(id, name).wf(),
        s.go_back().wf(),
        s.set_files(files).wf(),
        s.enter_search_results(name, files).wf(),
        s.reset_to_root().wf(),
        s.navigate_to_folder(id, other_id).wf(),
        s.cycle_sort_field().wf(),
        s.toggle_sort_direction().wf(),
        s.save_position_for_reload().wf(),
        s.moved_up(step).wf(),
        s.moved_down(step).wf(),
        s.find_next_with(name).wf(),
        s.find_next().wf(),
{
    lemma_stable_sort(files, s.sort_field, s.sort_direction);
    lemma_stable_sort(s.files, s.sort_field.next(), s.sort_direction);
    lemma_stable_sort(s.files, s.sort_field, s.sort_direction.reversed());
    let sorted = stable_sort(files, s.sort_field, s.sort_direction);
    if s.pending_select_id is Some {
        lemma_position_of_id_is_first(sorted, s.pending_select_id->0);
    }
    lemma_find_keeps_wf(s, name);
    if s.last_search is Some {
        lemma_find_keeps_wf(s, s.last_search->0);
    }
}

/// The navigation and list operations leave the list in order: those that
/// bring a new list put it in order, and the others do not touch a list that
/// is in order.
pub proof fn lemma_operations_keep_order(
    s: Session,
    id: i64,
    other_id: i64,
    name: Seq<char>,
    files: Seq<EntryView>,
    step: nat,
)
    requires
        s.ordered(),
    ensures
        Session::initial().ordered(),
        s.enter_folder(id, name).ordered(),
        s.go_back().ordered(),
        s.set_files(files).ordered(),
        s.enter_search_results(name, files).ordered(),
        s.with_folder_name(name).ordered(),
        s.reset_to_root().ordered(),
        s.navigate_to_folder(id, other_id).ordered(),
        s.cycle_sort_field().ordered(),
        s.toggle_sort_direction().ordered(),
        s.save_position_for_reload().ordered(),
        s.moved_up(step).ordered(),
        s.moved_down(step).ordered(),
        s.find_next_with(name).ordered(),
        s.find_next().ordered(),
{
    lemma_stable_sort(files, s.sort_field, s.sort_direction);
    lemma_stable_sort(s.files, s.sort_field.next(), s.sort_direction);
    lemma_stable_sort(s.files, s.sort_field, s.sort_direction.reversed());
}

/// A search within the list keeps a session well formed.
pub proof fn lemma_find_keeps_wf(s: Session, query: Seq<char>)
    requires
        s.wf(),
    ensures
        s.find_next_with(query).wf(),
{
    if query.len() > 0 {
        lemma_find_target(s, query);
    }
}

/// The slot for the pending action holds one action: a second one put there
/// takes the place of the first.
pub proof fn lemma_pending_slot(s: Session, first: PendingView, second: PendingView)
    ensures
        (Session { pending_action: second, ..(Session { pending_action: first, ..s }) }) == (Session {
            pending_action: second,
            ..s
        }),
{
}

} // verus!
