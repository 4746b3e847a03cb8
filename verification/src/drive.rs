//! The decisions of the drive loop: what to do next, and what to make of the
//! answer once the outside work is done.
//!
//! The caller renders a frame, asks [`BrowserApp::next_step`] what is due,
//! performs it, and reports the result to the matching `finish_` function.
//! A listing that is due goes before the pending action, and the pending
//! action before the next key.

use crate::app::{BrowserApp, ModalState, PendingAction};
use crate::entry::{entry_views, Entry, EntryView};
use crate::events::{failure_message, unit_result_view, Effect, EffectView};
use crate::path::part_views;
use crate::session::{
    lemma_operations_keep_order, lemma_operations_keep_wf, AppState, ModalView, PendingView,
    Session,
};
use crate::text::push_char;
use vstd::prelude::*;
use vstd::string::StringExecFns;

verus! {

/// What the store reports for a folder: its name and what it holds.
#[derive(Debug)]
pub struct Listing {
    pub parent_name: String,
    pub files: Vec<Entry>,
}

/// View of a [`Listing`].
pub struct ListingView {
    pub parent_name: Seq<char>,
    pub files: Seq<EntryView>,
}

impl View for Listing {
    type V = ListingView;

    open spec fn view(&self) -> ListingView {
        ListingView { parent_name: self.parent_name@, files: entry_views(self.files@) }
    }
}

/// The outside work that is due.
#[derive(Debug)]
pub enum DriveStep {
    /// The session has ended: leave the loop.
    Quit,
    /// List the folder; report to [`BrowserApp::finish_reload`] and go on
    /// with the next frame.
    Reload { folder_id: i64 },
    /// Search the store; report to [`BrowserApp::finish_search`].
    Search { query: String },
    /// Walk up from `parent_id` to the root; report to
    /// [`BrowserApp::finish_copy_path`].
    CopyPath { file_name: String, parent_id: i64 },
    /// Delete the file; report to [`BrowserApp::finish_delete`].
    Delete { file_id: i64 },
    /// Download the file with the terminal handed back to the user.
    Download { file_id: i64 },
    /// Nothing is due: wait for a key.
    Idle,
}

/// View of a [`DriveStep`].
pub enum DriveStepView {
    Quit,
    Reload { folder_id: i64 },
    Search { query: Seq<char> },
    CopyPath { file_name: Seq<char>, parent_id: i64 },
    Delete { file_id: i64 },
    Download { file_id: i64 },
    Idle,
}

impl View for DriveStep {
    type V = DriveStepView;

    open spec fn view(&self) -> DriveStepView {
        match self {
            DriveStep::Quit => DriveStepView::Quit,
            DriveStep::Reload { folder_id } => DriveStepView::Reload { folder_id: *folder_id },
            DriveStep::Search { query } => DriveStepView::Search { query: query@ },
            DriveStep::CopyPath { file_name, parent_id } => DriveStepView::CopyPath {
                file_name: file_name@,
                parent_id: *parent_id,
            },
            DriveStep::Delete { file_id } => DriveStepView::Delete { file_id: *file_id },
            DriveStep::Download { file_id } => DriveStepView::Download { file_id: *file_id },
            DriveStep::Idle => DriveStepView::Idle,
        }
    }
}

/// The result of a listing, by its views.
pub open spec fn listing_result_view(result: Result<Listing, String>) -> Result<
    ListingView,
    Seq<char>,
> {
    match result {
        Ok(listing) => Ok(listing@),
        Err(reason) => Err(reason@),
    }
}

/// The result of a search, by its views.
pub open spec fn search_result_view(result: Result<Vec<Entry>, String>) -> Result<
    Seq<EntryView>,
    Seq<char>,
> {
    match result {
        Ok(files) => Ok(entry_views(files@)),
        Err(reason) => Err(reason@),
    }
}

/// The result of a walk to the root, by its views.
pub open spec fn path_result_view(result: Result<Vec<String>, String>) -> Result<
    Seq<Seq<char>>,
    Seq<char>,
> {
    match result {
        Ok(parts) => Ok(part_views(parts@)),
        Err(reason) => Err(reason@),
    }
}

/// The names joined by `/`.
pub open spec fn join_path(parts: Seq<Seq<char>>) -> Seq<char>
    decreases parts.len(),
{
    if parts.len() == 0 {
        Seq::empty()
    } else if parts.len() == 1 {
        parts[0]
    } else {
        join_path(parts.drop_last()) + seq!['/'] + parts.last()
    }
}

impl Session {
    /// The session with the slot for the pending action empty.
    pub open spec fn without_pending(self) -> Session {
        Session { pending_action: PendingView::Nothing, ..self }
    }

    /// The session at the start of a listing: the loading overlay is up, with
    /// its own label unless a load was shown already.
    pub open spec fn begin_reload(self) -> Session {
        Session {
            needs_reload: false,
            spinner_label: if self.modal is Loading {
                self.spinner_label
            } else {
                "Loading..."@
            },
            modal: ModalView::Loading,
            ..self
        }
    }

    /// What is due, and the session once it has been taken up.
    pub open spec fn next_step(self) -> (Session, DriveStepView) {
        if self.app_state == AppState::Quitting {
            (self, DriveStepView::Quit)
        } else if self.needs_reload {
            (self.begin_reload(), DriveStepView::Reload { folder_id: self.current_folder_id })
        } else {
            let taken = self.without_pending();
            match self.pending_action {
                PendingView::Nothing => (taken, DriveStepView::Idle),
                PendingView::Search { query } => (taken, DriveStepView::Search { query }),
                PendingView::GoToFolder { parent_id, file_id } => (
                    Session { needs_reload: true, ..taken.navigate_to_folder(parent_id, file_id) },
                    DriveStepView::Idle,
                ),
                PendingView::CopyPath { file_name, parent_id } => (
                    taken,
                    DriveStepView::CopyPath { file_name, parent_id },
                ),
                PendingView::Delete { file_id } => (taken, DriveStepView::Delete { file_id }),
                PendingView::Download { file_id } => (taken, DriveStepView::Download { file_id }),
            }
        }
    }

    /// The listing of the current folder has arrived, or has failed.
    pub open spec fn finish_reload(self, result: Result<ListingView, Seq<char>>) -> Session {
        match result {
            Ok(listing) => self.with_folder_name(listing.parent_name).set_files(listing.files),
            Err(reason) => Session { modal: ModalView::Error(reason), ..self },
        }
    }

    /// The results of a search have arrived, or the search has failed.
    pub open spec fn finish_search(
        self,
        query: Seq<char>,
        result: Result<Seq<EntryView>, Seq<char>>,
    ) -> Session {
        match result {
            Ok(files) => self.enter_search_results(query, files),
            Err(reason) => self.failed("Search failed: "@, reason),
        }
    }

    /// The store has deleted the file, or has refused to.
    pub open spec fn finish_delete(self, result: Result<(), Seq<char>>) -> Session {
        match result {
            Ok(_) => Session { spinner_label: "Loading..."@, needs_reload: true, ..self },
            Err(reason) => self.failed("Delete failed: "@, reason),
        }
    }

    /// The walk to the root has brought the names of the folders above the
    /// file, or has failed.
    pub open spec fn finish_copy_path(
        self,
        file_name: Seq<char>,
        result: Result<Seq<Seq<char>>, Seq<char>>,
    ) -> (Session, EffectView) {
        match result {
            Ok(parts) => (
                self,
                EffectView::CopyToClipboard {
                    text: join_path(parts.push(file_name)),
                    success_message: "Path copied!"@,
                },
            ),
            Err(reason) => (Session { modal: ModalView::Error(reason), ..self }, EffectView::Nothing),
        }
    }
}

/// The drive loop keeps a session well formed and its list in order.
pub proof fn lemma_drive_keeps_wf(
    s: Session,
    listing: Result<ListingView, Seq<char>>,
    query: Seq<char>,
    found: Result<Seq<EntryView>, Seq<char>>,
    deleted: Result<(), Seq<char>>,
    file_name: Seq<char>,
    path: Result<Seq<Seq<char>>, Seq<char>>,
)
    requires
        s.wf(),
    ensures
        s.next_step().0.wf(),
        s.finish_reload(listing).wf(),
        s.finish_search(query, found).wf(),
        s.finish_delete(deleted).wf(),
        s.finish_copy_path(file_name, path).0.wf(),
        s.ordered() ==> {
            &&& s.next_step().0.ordered()
            &&& s.finish_reload(listing).ordered()
            &&& s.finish_search(query, found).ordered()
            &&& s.finish_delete(deleted).ordered()
            &&& s.finish_copy_path(file_name, path).0.ordered()
        },
{
    if s.ordered() {
        lemma_operations_keep_order(s, 0, 0, query, Seq::empty(), 0);
        match listing {
            Ok(l) => {
                lemma_operations_keep_order(
                    s.with_folder_name(l.parent_name),
                    0,
                    0,
                    Seq::empty(),
                    l.files,
                    0,
                );
            },
            Err(_) => {},
        }
        match found {
            Ok(files) => {
                lemma_operations_keep_order(s, 0, 0, query, files, 0);
            },
            Err(_) => {},
        }
    }
    match s.pending_action {
        PendingView::GoToFolder { parent_id, file_id } => {
            lemma_operations_keep_wf(
                s.without_pending(),
                parent_id,
                file_id,
                Seq::empty(),
                Seq::empty(),
                0,
            );
        },
        _ => {},
    }
    match listing {
        Ok(l) => {
            lemma_operations_keep_wf(
                s.with_folder_name(l.parent_name),
                0,
                0,
                Seq::empty(),
                l.files,
                0,
            );
        },
        Err(_) => {},
    }
    match found {
        Ok(files) => {
            lemma_operations_keep_wf(s, 0, 0, query, files, 0);
        },
        Err(_) => {},
    }
}

/// At most one action waits: taking up what is due leaves the slot empty,
/// whatever was in it, unless the session has ended or a listing goes first.
pub proof fn lemma_next_step_empties_slot(s: Session)
    requires
        s.app_state == AppState::Browsing,
        !s.needs_reload,
    ensures
        s.next_step().0.pending_action == PendingView::Nothing,
{
}

/// Joins the names with `/`.
pub fn join_parts(parts: &Vec<String>) -> (path: String)
    ensures
        path@ == join_path(part_views(parts@)),
{
    let mut path = String::new();
    let mut i: usize = 0;
    while i < parts.len()
        invariant
            i <= parts.len(),
            path@ == join_path(part_views(parts@).take(i as int)),
        decreases parts.len() - i,
    {
        if i > 0 {
            push_char(&mut path, '/');
        }
        path.append(parts[i].as_str());
        proof {
            let names = part_views(parts@);
            assert(names.take(i + 1).drop_last() =~= names.take(i as int));
            assert(names.take(i + 1).last() == parts@[i as int]@);
            if i == 0 {
                assert(Seq::<char>::empty() + parts@[0]@ =~= parts@[0]@);
            } else {
                assert(path@ =~= join_path(names.take(i as int)) + seq!['/'] + parts@[i as int]@);
            }
        }
        i = i + 1;
    }
    proof {
        assert(part_views(parts@).take(parts.len() as int) =~= part_views(parts@));
    }
    path
}

impl BrowserApp {
    /// Says what outside work is due and takes it up. A session that has
    /// ended has nothing due. A listing goes first; then the pending action,
    /// which leaves the slot. A jump to a folder is carried out at once and
    /// makes a listing due.
    pub fn next_step(&mut self) -> (step: DriveStep)
        requires
            old(self)@.wf(),
        ensures
            (final(self)@, step@) == old(self)@.next_step(),
            final(self)@.wf(),
            old(self)@.ordered() ==> final(self)@.ordered(),
    {
        match self.app_state() {
            AppState::Quitting => {
                return DriveStep::Quit;
            },
            AppState::Browsing => {},
        }
        if self.needs_reload() {
            self.set_needs_reload(false);
            let loading = match self.modal() {
                ModalState::Loading => true,
                _ => false,
            };
            if !loading {
                self.set_spinner_label(String::from_str("Loading..."));
                self.set_modal(ModalState::Loading);
            }
            return DriveStep::Reload { folder_id: self.current_folder_id() };
        }
        match self.take_pending_action() {
            PendingAction::Nothing => DriveStep::Idle,
            PendingAction::Search { query } => DriveStep::Search { query },
            PendingAction::GoToFolder { parent_id, file_id } => {
                self.navigate_to_folder(parent_id, file_id);
                self.set_needs_reload(true);
                DriveStep::Idle
            },
            PendingAction::CopyPath { file_name, parent_id } => DriveStep::CopyPath {
                file_name,
                parent_id,
            },
            PendingAction::Delete { file_id } => DriveStep::Delete { file_id },
            PendingAction::Download { file_id } => DriveStep::Download { file_id },
        }
    }

    /// Takes the listing of the current folder: names the folder's
    /// breadcrumb and shows the entries. A failure is shown with its reason
    /// and leaves the list as it is.
    pub fn finish_reload(&mut self, result: Result<Listing, String>)
        requires
            old(self)@.wf(),
        ensures
            final(self)@ == old(self)@.finish_reload(listing_result_view(result)),
            final(self)@.wf(),
            old(self)@.ordered() ==> final(self)@.ordered(),
    {
        match result {
            Ok(listing) => {
                self.set_folder_name(listing.parent_name);
                self.set_files(listing.files);
            },
            Err(reason) => {
                self.set_modal(ModalState::Error(reason));
            },
        }
    }

    /// Takes the results of a search for `query` and shows them, or shows why
    /// the search failed.
    pub fn finish_search(&mut self, query: &str, result: Result<Vec<Entry>, String>)
        requires
            old(self)@.wf(),
        ensures
            final(self)@ == old(self)@.finish_search(query@, search_result_view(result)),
            final(self)@.wf(),
            old(self)@.ordered() ==> final(self)@.ordered(),
    {
        match result {
            Ok(files) => {
                self.enter_search_results(query, files);
            },
            Err(reason) => {
                self.set_modal(
                    ModalState::Error(failure_message("Search failed: ", reason.as_str())),
                );
            },
        }
    }

    /// Takes the outcome of a deletion: after a success the folder is listed
    /// anew, a failure is shown.
    pub fn finish_delete(&mut self, result: Result<(), String>)
        ensures
            final(self)@ == old(self)@.finish_delete(unit_result_view(result)),
    {
        match result {
            Ok(_) => {
                self.set_spinner_label(String::from_str("Loading..."));
                self.set_needs_reload(true);
            },
            Err(reason) => {
                self.set_modal(
                    ModalState::Error(failure_message("Delete failed: ", reason.as_str())),
                );
            },
        }
    }

    /// Takes the outcome of the walk to the root for the file `file_name`.
    /// The names of the folders, outermost first, and the file's name make
    /// the path that is to be copied to the clipboard next; a failure is
    /// shown.
    pub fn finish_copy_path(&mut self, file_name: String, result: Result<Vec<String>, String>) -> (effect:
        Effect)
        ensures
            (final(self)@, effect@) == old(self)@.finish_copy_path(
                file_name@,
                path_result_view(result),
            ),
    {
        match result {
            Ok(parts) => {
                let ghost folders = part_views(parts@);
                let mut parts = parts;
                parts.push(file_name);
                proof {
                    assert(part_views(parts@) =~= folders.push(file_name@));
                }
                Effect::CopyToClipboard {
                    text: join_parts(&parts),
                    success_message: String::from_str("Path copied!"),
                }
            },
            Err(reason) => {
                self.set_modal(ModalState::Error(reason));
                Effect::Nothing
            },
        }
    }
}

} // verus!
