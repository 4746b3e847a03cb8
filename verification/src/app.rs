//! The browser's state and the operations on it.

use crate::entry::{entry_views, Entry, EntryView, SortDirection, SortField};
use crate::session::{
    first_hit, lemma_next_hit, match_flags, next_hit, position_of_id, probe, AppState,
    BreadcrumbView, ModalView, PendingView, Session, PAGE_STEP, ROOT_ID, SEARCH_RESULTS_ID,
};
use crate::sort::{is_ordered, lemma_stable_sort, sort_entries};
use crate::text::{str_contains, to_lowercase};
use vstd::arithmetic::div_mod::{lemma_fundamental_div_mod_converse, lemma_small_mod};
use vstd::prelude::*;
use vstd::string::StringExecFns;

verus! {

/// One level of the navigation stack, with the place where the user left it.
#[derive(Debug)]
pub struct BreadcrumbEntry {
    /// Identifier of the folder: 0 for the root, -1 for search results.
    pub id: i64,
    pub name: String,
    pub saved_index: usize,
    pub saved_offset: usize,
}

impl View for BreadcrumbEntry {
    type V = BreadcrumbView;

    open spec fn view(&self) -> BreadcrumbView {
        BreadcrumbView {
            id: self.id,
            name: self.name@,
            saved_index: self.saved_index as nat,
            saved_offset: self.saved_offset as nat,
        }
    }
}

/// The breadcrumbs of a vector, each by its view.
pub open spec fn breadcrumb_views(crumbs: Seq<BreadcrumbEntry>) -> Seq<BreadcrumbView> {
    crumbs.map_values(|c: BreadcrumbEntry| c@)
}

/// The overlay that is open, if any. It decides what a key does.
#[derive(Debug)]
pub enum ModalState {
    Closed,
    Loading,
    ConfirmDelete { file_id: i64, file_name: String },
    FileActions { file_id: i64, file_name: String, file_type: String, selected: usize },
    Find { query: String },
    SearchInput { query: String },
    Error(String),
    Success(String),
}

impl View for ModalState {
    type V = ModalView;

    open spec fn view(&self) -> ModalView {
        match self {
            ModalState::Closed => ModalView::Closed,
            ModalState::Loading => ModalView::Loading,
            ModalState::ConfirmDelete { file_id, file_name } => ModalView::ConfirmDelete {
                file_id: *file_id,
                file_name: file_name@,
            },
            ModalState::FileActions {
                file_id,
                file_name,
                file_type,
                selected,
            } => ModalView::FileActions {
                file_id: *file_id,
                file_name: file_name@,
                file_type: file_type@,
                selected: *selected as nat,
            },
            ModalState::Find { query } => ModalView::Find { query: query@ },
            ModalState::SearchInput { query } => ModalView::SearchInput { query: query@ },
            ModalState::Error(message) => ModalView::Error(message@),
            ModalState::Success(message) => ModalView::Success(message@),
        }
    }
}

impl Clone for ModalState {
    fn clone(&self) -> (r: ModalState)
        ensures
            r@ == self@,
    {
        match self {
            ModalState::Closed => ModalState::Closed,
            ModalState::Loading => ModalState::Loading,
            ModalState::ConfirmDelete { file_id, file_name } => ModalState::ConfirmDelete {
                file_id: *file_id,
                file_name: file_name.clone(),
            },
            ModalState::FileActions {
                file_id,
                file_name,
                file_type,
                selected,
            } => ModalState::FileActions {
                file_id: *file_id,
                file_name: file_name.clone(),
                file_type: file_type.clone(),
                selected: *selected,
            },
            ModalState::Find { query } => ModalState::Find { query: query.clone() },
            ModalState::SearchInput { query } => ModalState::SearchInput { query: query.clone() },
            ModalState::Error(message) => ModalState::Error(message.clone()),
            ModalState::Success(message) => ModalState::Success(message.clone()),
        }
    }
}

/// What the drive loop has to do next on behalf of the user. There is one
/// slot: a new action replaces the one that waits.
#[derive(Debug)]
pub enum PendingAction {
    Nothing,
    Download { file_id: i64 },
    Search { query: String },
    GoToFolder { parent_id: i64, file_id: i64 },
    Delete { file_id: i64 },
    CopyPath { file_name: String, parent_id: i64 },
}

impl View for PendingAction {
    type V = PendingView;

    open spec fn view(&self) -> PendingView {
        match self {
            PendingAction::Nothing => PendingView::Nothing,
            PendingAction::Download { file_id } => PendingView::Download { file_id: *file_id },
            PendingAction::Search { query } => PendingView::Search { query: query@ },
            PendingAction::GoToFolder { parent_id, file_id } => PendingView::GoToFolder {
                parent_id: *parent_id,
                file_id: *file_id,
            },
            PendingAction::Delete { file_id } => PendingView::Delete { file_id: *file_id },
            PendingAction::CopyPath { file_name, parent_id } => PendingView::CopyPath {
                file_name: file_name@,
                parent_id: *parent_id,
            },
        }
    }
}

/// An optional index as an optional natural number.
pub open spec fn index_view(index: Option<usize>) -> Option<nat> {
    match index {
        Some(i) => Some(i as nat),
        None => None,
    }
}

/// An optional string as an optional sequence of characters.
pub open spec fn text_view(text: Option<String>) -> Option<Seq<char>> {
    match text {
        Some(s) => Some(s@),
        None => None,
    }
}

/// The state of a browsing session.
pub struct BrowserApp {
    current_folder_id: i64,
    breadcrumbs: Vec<BreadcrumbEntry>,
    files: Vec<Entry>,
    selected_index: usize,
    list_offset: usize,
    app_state: AppState,
    modal: ModalState,
    pending_action: PendingAction,
    sort_field: SortField,
    sort_direction: SortDirection,
    restore_index: Option<usize>,
    restore_offset: Option<usize>,
    tick: u8,
    needs_reload: bool,
    spinner_label: String,
    last_search: Option<String>,
    is_search_results: bool,
    pending_select_id: Option<i64>,
}

impl View for BrowserApp {
    type V = Session;

    closed spec fn view(&self) -> Session {
        Session {
            current_folder_id: self.current_folder_id,
            breadcrumbs: breadcrumb_views(self.breadcrumbs@),
            files: entry_views(self.files@),
            selected_index: self.selected_index as nat,
            list_offset: self.list_offset as nat,
            app_state: self.app_state,
            modal: self.modal@,
            pending_action: self.pending_action@,
            sort_field: self.sort_field,
            sort_direction: self.sort_direction,
            restore_index: index_view(self.restore_index),
            restore_offset: index_view(self.restore_offset),
            tick: self.tick,
            needs_reload: self.needs_reload,
            spinner_label: self.spinner_label@,
            last_search: text_view(self.last_search),
            is_search_results: self.is_search_results,
            pending_select_id: self.pending_select_id,
        }
    }
}

impl BrowserApp {
    /// A session at the root, with nothing listed yet and the first listing
    /// due.
    pub fn new() -> (app: BrowserApp)
        ensures
            app@ == Session::initial(),
            app@.wf(),
            app@.ordered(),
    {
        let mut breadcrumbs: Vec<BreadcrumbEntry> = Vec::new();
        breadcrumbs.push(
            BreadcrumbEntry {
                id: ROOT_ID,
                name: String::from_str("My Files"),
                saved_index: 0,
                saved_offset: 0,
            },
        );
        let app = BrowserApp {
            current_folder_id: ROOT_ID,
            breadcrumbs,
            files: Vec::new(),
            selected_index: 0,
            list_offset: 0,
            app_state: AppState::Browsing,
            modal: ModalState::Loading,
            pending_action: PendingAction::Nothing,
            sort_field: SortField::Name,
            sort_direction: SortDirection::Asc,
            restore_index: None,
            restore_offset: None,
            tick: 0,
            needs_reload: true,
            spinner_label: String::from_str("Loading..."),
            last_search: None,
            is_search_results: false,
            pending_select_id: None,
        };
        proof {
            assert(app@.breadcrumbs =~= Session::initial().breadcrumbs);
            assert(app@.files =~= Session::initial().files);
        }
        app
    }

    /// Tells whether the session is well formed: the operations on it ask
    /// for that. Every session that comes from [`BrowserApp::new`] is,
    /// whatever was done with it since.
    pub fn is_well_formed(&self) -> (ok: bool)
        ensures
            ok == self@.wf(),
    {
        if self.breadcrumbs.len() == 0 || self.breadcrumbs[0].id != ROOT_ID {
            return false;
        }
        if self.files.len() == 0 {
            self.selected_index == 0
        } else {
            self.selected_index < self.files.len()
        }
    }

    /// Tells whether the list is in the order given by the sort field and
    /// direction. It is in every session that comes from
    /// [`BrowserApp::new`], whatever was done with it since.
    pub fn is_ordered(&self) -> (ok: bool)
        ensures
            ok == self@.ordered(),
    {
        is_ordered(&self.files, self.sort_field, self.sort_direction)
    }

    /// Identifier of the folder that is shown or being loaded.
    pub fn current_folder_id(&self) -> (r: i64)
        ensures
            r == self@.current_folder_id,
    {
        self.current_folder_id
    }

    /// The navigation stack, root first.
    pub fn breadcrumbs(&self) -> (r: &Vec<BreadcrumbEntry>)
        ensures
            breadcrumb_views(r@) == self@.breadcrumbs,
    {
        &self.breadcrumbs
    }

    /// The entries that are shown.
    pub fn files(&self) -> (r: &Vec<Entry>)
        ensures
            entry_views(r@) == self@.files,
    {
        &self.files
    }

    /// Index of the selected entry.
    pub fn selected_index(&self) -> (r: usize)
        ensures
            r as nat == self@.selected_index,
    {
        self.selected_index
    }

    /// Index of the first entry that the list widget shows.
    pub fn list_offset(&self) -> (r: usize)
        ensures
            r as nat == self@.list_offset,
    {
        self.list_offset
    }

    /// Whether the session goes on.
    pub fn app_state(&self) -> (r: AppState)
        ensures
            r == self@.app_state,
    {
        self.app_state
    }

    /// The overlay that is open.
    pub fn modal(&self) -> (r: &ModalState)
        ensures
            r@ == self@.modal,
    {
        &self.modal
    }

    /// The action that waits for the drive loop.
    pub fn pending_action(&self) -> (r: &PendingAction)
        ensures
            r@ == self@.pending_action,
    {
        &self.pending_action
    }

    /// The field by which the list is ordered.
    pub fn sort_field(&self) -> (r: SortField)
        ensures
            r == self@.sort_field,
    {
        self.sort_field
    }

    /// The direction in which the list is ordered.
    pub fn sort_direction(&self) -> (r: SortDirection)
        ensures
            r == self@.sort_direction,
    {
        self.sort_direction
    }

    /// Counter that drives the spinner.
    pub fn tick(&self) -> (r: u8)
        ensures
            r == self@.tick,
    {
        self.tick
    }

    /// Whether the current folder has to be listed anew.
    pub fn needs_reload(&self) -> (r: bool)
        ensures
            r == self@.needs_reload,
    {
        self.needs_reload
    }

    /// The text shown beside the spinner.
    pub fn spinner_label(&self) -> (r: &String)
        ensures
            r@ == self@.spinner_label,
    {
        &self.spinner_label
    }

    /// The query of the last search within the list.
    pub fn last_search(&self) -> (r: &Option<String>)
        ensures
            text_view(*r) == self@.last_search,
    {
        &self.last_search
    }

    /// Whether the list holds the results of a search.
    pub fn is_search_results(&self) -> (r: bool)
        ensures
            r == self@.is_search_results,
    {
        self.is_search_results
    }

    /// Identifier of the entry to select once the next listing is in.
    pub fn pending_select_id(&self) -> (r: Option<i64>)
        ensures
            r == self@.pending_select_id,
    {
        self.pending_select_id
    }

    /// Opens, replaces or closes the overlay.
    pub fn set_modal(&mut self, modal: ModalState)
        ensures
            final(self)@ == (Session { modal: modal@, ..old(self)@ }),
    {
        self.modal = modal;
    }

    /// Puts an action into the slot, in place of the one that waits there.
    pub fn set_pending_action(&mut self, action: PendingAction)
        ensures
            final(self)@ == (Session { pending_action: action@, ..old(self)@ }),
    {
        self.pending_action = action;
    }

    /// Takes the waiting action out of the slot and leaves the slot empty.
    pub fn take_pending_action(&mut self) -> (action: PendingAction)
        ensures
            action@ == old(self)@.pending_action,
            final(self)@ == (Session { pending_action: PendingView::Nothing, ..old(self)@ }),
    {
        let mut action = PendingAction::Nothing;
        std::mem::swap(&mut self.pending_action, &mut action);
        action
    }

    /// Ends or resumes the session.
    pub fn set_app_state(&mut self, state: AppState)
        ensures
            final(self)@ == (Session { app_state: state, ..old(self)@ }),
    {
        self.app_state = state;
    }

    /// Asks for, or calls off, a fresh listing of the current folder.
    pub fn set_needs_reload(&mut self, needs_reload: bool)
        ensures
            final(self)@ == (Session { needs_reload, ..old(self)@ }),
    {
        self.needs_reload = needs_reload;
    }

    /// Sets the text shown beside the spinner.
    pub fn set_spinner_label(&mut self, label: String)
        ensures
            final(self)@ == (Session { spinner_label: label@, ..old(self)@ }),
    {
        self.spinner_label = label;
    }

    /// Remembers the query of a search within the list.
    pub fn set_last_search(&mut self, query: Option<String>)
        ensures
            final(self)@ == (Session { last_search: text_view(query), ..old(self)@ }),
    {
        self.last_search = query;
    }

    /// Records the scroll offset that the list widget settled on.
    pub fn set_list_offset(&mut self, offset: usize)
        ensures
            final(self)@ == (Session { list_offset: offset as nat, ..old(self)@ }),
    {
        self.list_offset = offset;
    }

    /// Advances the spinner by one frame.
    pub fn advance_tick(&mut self)
        ensures
            final(self)@ == (Session {
                tick: if old(self)@.tick == u8::MAX {
                    0u8
                } else {
                    (old(self)@.tick + 1) as u8
                },
                ..old(self)@
            }),
    {
        self.tick = if self.tick == u8::MAX {
            0
        } else {
            self.tick + 1
        };
    }
}

/// The first entry with the given identifier stands at `i`, or no entry has
/// it and `i` is the length of the list.
proof fn lemma_position_of_id(files: Seq<EntryView>, id: i64, i: int)
    requires
        0 <= i <= files.len(),
        forall|j: int| 0 <= j < i ==> (#[trigger] files[j]).id != id,
        i < files.len() ==> files[i].id == id,
    ensures
        position_of_id(files, id) == i,
    decreases i,
{
    if i > 0 {
        let rest = files.drop_first();
        assert forall|j: int| 0 <= j < i - 1 implies (#[trigger] rest[j]).id != id by {
            assert(rest[j] == files[j + 1]);
        }
        lemma_position_of_id(rest, id, i - 1);
    }
}

/// Index of the first entry with the given identifier; the length of the list
/// if there is none.
fn position_by_id(files: &Vec<Entry>, id: i64) -> (r: usize)
    ensures
        r as nat == position_of_id(entry_views(files@), id),
{
    let mut i: usize = 0;
    while i < files.len() && files[i].id != id
        invariant
            i <= files.len(),
            forall|j: int| 0 <= j < i ==> (#[trigger] entry_views(files@)[j]).id != id,
        decreases files.len() - i,
    {
        i = i + 1;
    }
    proof {
        lemma_position_of_id(entry_views(files@), id, i as int);
    }
    i
}

/// Returns the first flagged position after `selected`, if any position is
/// flagged. The scan wraps round the end of the list, looks at each position
/// once and comes to `selected` itself last.
pub fn next_match(hits: &Vec<bool>, selected: usize) -> (r: Option<usize>)
    requires
        hits.len() > 0 ==> selected < hits.len(),
    ensures
        match r {
            Some(i) => next_hit(hits@, selected as nat) == Some(i as nat),
            None => next_hit(hits@, selected as nat) is None,
        },
{
    let n: usize = hits.len();
    if n == 0 {
        return None;
    }
    let gap: usize = n - selected;
    let mut probes: usize = 0;
    while probes < n
        invariant
            n == hits.len(),
            gap == n - selected,
            0 < gap <= n,
            probes <= n,
            first_hit(hits@, selected as int, 1) == first_hit(hits@, selected as int, probes + 1),
        decreases n - probes,
    {
        let i: usize = if probes < gap - 1 {
            selected + probes + 1
        } else {
            probes - (gap - 1)
        };
        proof {
            if probes < gap - 1 {
                lemma_small_mod((selected + probes + 1) as nat, n as nat);
            } else {
                lemma_fundamental_div_mod_converse(selected + probes + 1, n as int, 1, i as int);
            }
            assert(i as int == probe(n as int, selected as int, probes + 1));
        }
        if hits[i] {
            return Some(i);
        }
        probes = probes + 1;
    }
    None
}

impl BrowserApp {
    /// Stores the selection and the scroll offset in the last breadcrumb.
    fn save_position_in_top(&mut self)
        requires
            old(self)@.wf(),
        ensures
            final(self)@ == (Session {
                breadcrumbs: old(self)@.breadcrumbs_with_position(),
                ..old(self)@
            }),
            final(self)@.wf(),
    {
        let top = self.breadcrumbs.pop().unwrap();
        self.breadcrumbs.push(
            BreadcrumbEntry {
                id: top.id,
                name: top.name,
                saved_index: self.selected_index,
                saved_offset: self.list_offset,
            },
        );
        proof {
            assert(breadcrumb_views(self.breadcrumbs@) =~= old(self)@.breadcrumbs_with_position());
        }
    }

    /// Descends into the folder `id`: the place in the current folder is
    /// stored in its breadcrumb, a breadcrumb for the folder is pushed, and
    /// the list is emptied until the folder's listing arrives.
    pub fn enter_folder(&mut self, id: i64, name: String)
        requires
            old(self)@.wf(),
        ensures
            final(self)@ == old(self)@.enter_folder(id, name@),
            final(self)@.wf(),
            final(self)@.ordered(),
    {
        self.save_position_in_top();
        self.breadcrumbs.push(BreadcrumbEntry { id, name, saved_index: 0, saved_offset: 0 });
        self.current_folder_id = id;
        self.files.clear();
        self.selected_index = 0;
        self.modal = ModalState::Loading;
        proof {
            assert(breadcrumb_views(self.breadcrumbs@) =~= old(self)@.enter_folder(
                id,
                name@,
            ).breadcrumbs);
            assert(entry_views(self.files@) =~= Seq::<EntryView>::empty());
        }
    }

    /// Returns to the breadcrumb below the last one and marks the place
    /// stored there for the next listing. At the root nothing changes.
    pub fn go_back(&mut self)
        requires
            old(self)@.wf(),
        ensures
            final(self)@ == old(self)@.go_back(),
            final(self)@.wf(),
            old(self)@.ordered() ==> final(self)@.ordered(),
    {
        if self.breadcrumbs.len() > 1 {
            self.breadcrumbs.pop();
            self.is_search_results = false;
            let last: usize = self.breadcrumbs.len() - 1;
            self.current_folder_id = self.breadcrumbs[last].id;
            self.restore_index = Some(self.breadcrumbs[last].saved_index);
            self.restore_offset = Some(self.breadcrumbs[last].saved_offset);
            self.files.clear();
            self.selected_index = 0;
            self.modal = ModalState::Loading;
            proof {
                assert(breadcrumb_views(self.breadcrumbs@) =~= old(self)@.breadcrumbs.drop_last());
                assert(entry_views(self.files@) =~= Seq::<EntryView>::empty());
            }
        }
    }

    /// Takes in a fresh listing of the current folder: orders it, selects the
    /// entry that was asked for, or else restores the marked place as far as
    /// the list reaches, and closes the overlay.
    pub fn set_files(&mut self, files: Vec<Entry>)
        requires
            old(self)@.wf(),
        ensures
            final(self)@ == old(self)@.set_files(entry_views(files@)),
            final(self)@.wf(),
            final(self)@.ordered(),
    {
        self.selected_index = 0;
        self.files = sort_entries(files, self.sort_field, self.sort_direction);
        let n: usize = self.files.len();
        let last: usize = if n == 0 {
            0
        } else {
            n - 1
        };
        match self.pending_select_id {
            Some(id) => {
                self.pending_select_id = None;
                let found = position_by_id(&self.files, id);
                self.selected_index = if found < n {
                    found
                } else {
                    0
                };
            },
            None => {
                let wanted: usize = match self.restore_index {
                    Some(i) => i,
                    None => 0,
                };
                self.restore_index = None;
                self.selected_index = if wanted <= last {
                    wanted
                } else {
                    last
                };
                match self.restore_offset {
                    Some(offset) => {
                        self.list_offset = if offset <= last {
                            offset
                        } else {
                            last
                        };
                    },
                    None => {},
                }
            },
        }
        self.restore_offset = None;
        self.modal = ModalState::Closed;
        proof {
            lemma_stable_sort(entry_views(files@), self.sort_field, self.sort_direction);
        }
    }

    /// Shows the results of a search, put in order like any listing. The
    /// first results push a breadcrumb of their own; later ones take its place.
    pub fn enter_search_results(&mut self, query: &str, files: Vec<Entry>)
        requires
            old(self)@.wf(),
        ensures
            final(self)@ == old(self)@.enter_search_results(query@, entry_views(files@)),
            final(self)@.wf(),
            final(self)@.ordered(),
    {
        let mut label = String::from_str("Search: ");
        label.append(query);
        if self.is_search_results {
            let top = self.breadcrumbs.pop().unwrap();
            self.breadcrumbs.push(
                BreadcrumbEntry {
                    id: top.id,
                    name: label,
                    saved_index: top.saved_index,
                    saved_offset: top.saved_offset,
                },
            );
        } else {
            self.save_position_in_top();
            self.breadcrumbs.push(
                BreadcrumbEntry {
                    id: SEARCH_RESULTS_ID,
                    name: label,
                    saved_index: 0,
                    saved_offset: 0,
                },
            );
            self.is_search_results = true;
        }
        self.selected_index = 0;
        self.files = sort_entries(files, self.sort_field, self.sort_direction);
        self.list_offset = 0;
        self.modal = ModalState::Closed;
        proof {
            assert(breadcrumb_views(self.breadcrumbs@) =~= old(self)@.enter_search_results(
                query@,
                entry_views(files@),
            ).breadcrumbs);
            lemma_stable_sort(entry_views(files@), self.sort_field, self.sort_direction);
        }
    }

    /// Gives the breadcrumb of the current folder the name that the store
    /// reports for it. The root keeps its name, and so does a last breadcrumb
    /// that is not the current folder's.
    pub fn set_folder_name(&mut self, name: String)
        requires
            old(self)@.wf(),
        ensures
            final(self)@ == old(self)@.with_folder_name(name@),
            final(self)@.wf(),
    {
        let last: usize = self.breadcrumbs.len() - 1;
        if self.current_folder_id != ROOT_ID && self.breadcrumbs[last].id
            == self.current_folder_id {
            let top = self.breadcrumbs.pop().unwrap();
            self.breadcrumbs.push(
                BreadcrumbEntry {
                    id: top.id,
                    name,
                    saved_index: top.saved_index,
                    saved_offset: top.saved_offset,
                },
            );
            proof {
                assert(breadcrumb_views(self.breadcrumbs@) =~= old(self)@.with_folder_name(
                    name@,
                ).breadcrumbs);
            }
        }
    }

    /// Forgets every breadcrumb but the root and leaves the search results.
    pub fn reset_to_root(&mut self)
        requires
            old(self)@.wf(),
        ensures
            final(self)@ == old(self)@.reset_to_root(),
            final(self)@.wf(),
    {
        self.breadcrumbs.truncate(1);
        let root = self.breadcrumbs.pop().unwrap();
        self.breadcrumbs.push(
            BreadcrumbEntry { id: root.id, name: root.name, saved_index: 0, saved_offset: 0 },
        );
        self.is_search_results = false;
        self.current_folder_id = ROOT_ID;
        proof {
            assert(breadcrumb_views(self.breadcrumbs@) =~= old(self)@.reset_to_root().breadcrumbs);
        }
    }

    /// Goes straight to the folder `parent_id` and marks `file_id` to be
    /// selected once the folder is listed. The folder's breadcrumb gets a
    /// stand-in name until the listing brings the real one.
    pub fn navigate_to_folder(&mut self, parent_id: i64, file_id: i64)
        requires
            old(self)@.wf(),
        ensures
            final(self)@ == old(self)@.navigate_to_folder(parent_id, file_id),
            final(self)@.wf(),
            final(self)@.ordered(),
    {
        self.reset_to_root();
        if parent_id != ROOT_ID {
            self.breadcrumbs.push(
                BreadcrumbEntry {
                    id: parent_id,
                    name: String::from_str("..."),
                    saved_index: 0,
                    saved_offset: 0,
                },
            );
            self.current_folder_id = parent_id;
        }
        self.pending_select_id = Some(file_id);
        self.files.clear();
        self.selected_index = 0;
        self.modal = ModalState::Loading;
        proof {
            assert(breadcrumb_views(self.breadcrumbs@) =~= old(self)@.navigate_to_folder(
                parent_id,
                file_id,
            ).breadcrumbs);
            assert(entry_views(self.files@) =~= Seq::<EntryView>::empty());
        }
    }

    /// Orders the list by the current field and direction.
    fn sort_files(&mut self)
        requires
            old(self)@.wf(),
        ensures
            final(self)@ == old(self)@.resorted(),
            final(self)@.wf(),
            final(self)@.ordered(),
    {
        self.selected_index = 0;
        let mut files: Vec<Entry> = Vec::new();
        std::mem::swap(&mut self.files, &mut files);
        self.files = sort_entries(files, self.sort_field, self.sort_direction);
        proof {
            lemma_stable_sort(old(self)@.files, self.sort_field, self.sort_direction);
        }
    }

    /// Orders the list by the next field and selects its first entry.
    pub fn cycle_sort_field(&mut self)
        requires
            old(self)@.wf(),
        ensures
            final(self)@ == old(self)@.cycle_sort_field(),
            final(self)@.wf(),
            final(self)@.ordered(),
    {
        self.sort_field = self.sort_field.next();
        self.sort_files();
    }

    /// Orders the list in the opposite direction and selects its first entry.
    pub fn toggle_sort_direction(&mut self)
        requires
            old(self)@.wf(),
        ensures
            final(self)@ == old(self)@.toggle_sort_direction(),
            final(self)@.wf(),
            final(self)@.ordered(),
    {
        self.sort_direction = self.sort_direction.reversed();
        self.sort_files();
    }

    /// The selected entry, if the list has one.
    pub fn selected_file(&self) -> (r: Option<&Entry>)
        ensures
            match r {
                Some(entry) => self@.selected_file() == Some(entry@),
                None => self@.selected_file() is None,
            },
    {
        if self.selected_index < self.files.len() {
            Some(&self.files[self.selected_index])
        } else {
            None
        }
    }

    /// The first listed entry with the given identifier.
    pub fn entry_with_id(&self, id: i64) -> (r: Option<&Entry>)
        ensures
            match r {
                Some(entry) => self@.entry_with_id(id) == Some(entry@),
                None => self@.entry_with_id(id) is None,
            },
    {
        let at = position_by_id(&self.files, id);
        if at < self.files.len() {
            Some(&self.files[at])
        } else {
            None
        }
    }

    /// Marks the selection and the scroll offset to be restored by the next
    /// listing.
    pub fn save_position_for_reload(&mut self)
        ensures
            final(self)@ == old(self)@.save_position_for_reload(),
    {
        self.restore_index = Some(self.selected_index);
        self.restore_offset = Some(self.list_offset);
    }

    /// Moves the selection up by one entry, stopping at the first.
    pub fn move_up(&mut self)
        requires
            old(self)@.wf(),
        ensures
            final(self)@ == old(self)@.moved_up(1),
            final(self)@.wf(),
    {
        if self.selected_index > 0 {
            self.selected_index = self.selected_index - 1;
        }
    }

    /// Moves the selection down by one entry, stopping at the last.
    pub fn move_down(&mut self)
        requires
            old(self)@.wf(),
        ensures
            final(self)@ == old(self)@.moved_down(1),
            final(self)@.wf(),
    {
        if self.files.len() > 0 && self.selected_index < self.files.len() - 1 {
            self.selected_index = self.selected_index + 1;
        }
    }

    /// Moves the selection up by a page, stopping at the first entry.
    pub fn move_page_up(&mut self)
        requires
            old(self)@.wf(),
        ensures
            final(self)@ == old(self)@.moved_up(PAGE_STEP as nat),
            final(self)@.wf(),
    {
        self.selected_index = if self.selected_index >= PAGE_STEP {
            self.selected_index - PAGE_STEP
        } else {
            0
        };
    }

    /// Moves the selection down by a page, stopping at the last entry.
    pub fn move_page_down(&mut self)
        requires
            old(self)@.wf(),
        ensures
            final(self)@ == old(self)@.moved_down(PAGE_STEP as nat),
            final(self)@.wf(),
    {
        if self.files.len() > 0 {
            let last: usize = self.files.len() - 1;
            self.selected_index = if last - self.selected_index >= PAGE_STEP {
                self.selected_index + PAGE_STEP
            } else {
                last
            };
        }
    }

    /// Tells for each entry whether its name contains `query`, case set aside.
    fn match_flags(&self, query: &str) -> (hits: Vec<bool>)
        ensures
            hits@ == match_flags(self@.files, query@),
    {
        let needle = to_lowercase(query);
        let mut hits: Vec<bool> = Vec::new();
        let mut i: usize = 0;
        while i < self.files.len()
            invariant
                i <= self.files.len(),
                needle@ == crate::text::lowercase(query@),
                hits@ == match_flags(entry_views(self.files@), query@).take(i as int),
            decreases self.files.len() - i,
        {
            let name = to_lowercase(self.files[i].name.as_str());
            hits.push(str_contains(name.as_str(), needle.as_str()));
            proof {
                let all = match_flags(entry_views(self.files@), query@);
                assert(all.take(i + 1) =~= all.take(i as int).push(all[i as int]));
            }
            i = i + 1;
        }
        proof {
            let all = match_flags(entry_views(self.files@), query@);
            assert(all.take(self.files.len() as int) =~= all);
        }
        hits
    }

    /// Moves the selection to the next entry whose name contains `query`,
    /// case set aside. The search starts after the selection, wraps round the
    /// end of the list and comes to the selected entry last. Returns whether
    /// an entry was found; if none was, or the query or the list is empty,
    /// the selection stays.
    pub fn find_next_with(&mut self, query: &str) -> (found: bool)
        requires
            old(self)@.wf(),
        ensures
            final(self)@ == old(self)@.find_next_with(query@),
            found == old(self)@.find_target(query@).is_some(),
            final(self)@.wf(),
    {
        if query.is_empty() || self.files.len() == 0 {
            return false;
        }
        let hits = self.match_flags(query);
        proof {
            lemma_next_hit(hits@, self.selected_index as nat);
        }
        match next_match(&hits, self.selected_index) {
            Some(i) => {
                self.selected_index = i;
                true
            },
            None => false,
        }
    }

    /// Repeats the last search; without one, finds nothing.
    pub fn find_next(&mut self) -> (found: bool)
        requires
            old(self)@.wf(),
        ensures
            final(self)@ == old(self)@.find_next(),
            found == match old(self)@.last_search {
                Some(query) => old(self)@.find_target(query).is_some(),
                None => false,
            },
            final(self)@.wf(),
    {
        let query = self.last_search.clone();
        match query {
            Some(q) => self.find_next_with(q.as_str()),
            None => false,
        }
    }
}

} // verus!
