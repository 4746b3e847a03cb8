//! Keyboard input: what a key does in each state of the overlay, and the
//! effects that the caller has to perform for it.

use crate::actions::{
    action_views, file_actions, file_actions_for, find_shortcut, lemma_file_actions_len,
    shortcut_position,
};
use crate::app::{BrowserApp, ModalState, PendingAction};
use crate::entry::{file_kind, kind_of, EntryView, FileKind};
use crate::session::{
    lemma_find_keeps_wf, lemma_operations_keep_order, lemma_operations_keep_wf, AppState,
    ModalView, PendingView, Session, PAGE_STEP, ROOT_ID,
};
use crate::text::{decimal, decimal_string, pop_char, push_char, str_eq};
use vstd::arithmetic::div_mod::lemma_mod_pos_bound;
use vstd::prelude::*;
use vstd::string::StringExecFns;

verus! {

/// The keys that the browser tells apart.
#[derive(Clone, Copy, Debug, PartialEq, Eq, Structural)]
pub enum KeyCode {
    Char(char),
    Enter,
    Esc,
    Up,
    Down,
    Left,
    Backspace,
    /// Any other key.
    Other,
}

/// The modifier keys held down with a key.
#[derive(Clone, Copy, Debug, PartialEq, Eq, Structural)]
pub struct KeyModifiers {
    pub shift: bool,
    pub control: bool,
    pub alt: bool,
    pub super_key: bool,
    pub hyper: bool,
    pub meta: bool,
}

impl KeyModifiers {
    /// Control is held down and no other modifier is.
    pub open spec fn is_control_only(self) -> bool {
        self.control && !self.shift && !self.alt && !self.super_key && !self.hyper && !self.meta
    }

    /// Tells whether control is held down and no other modifier is.
    #[verifier::when_used_as_spec(is_control_only)]
    pub fn control_only(self) -> (r: bool)
        ensures
            r == self.is_control_only(),
    {
        self.control && !self.shift && !self.alt && !self.super_key && !self.hyper && !self.meta
    }
}

/// A key press.
#[derive(Clone, Copy, Debug, PartialEq, Eq, Structural)]
pub struct KeyEvent {
    pub code: KeyCode,
    pub modifiers: KeyModifiers,
}

/// Work outside the session that a key asks for. The caller performs it and
/// reports the outcome to the session.
#[derive(Debug)]
pub enum Effect {
    Nothing,
    /// Ask the store for the shareable URL of the file; then report to
    /// [`BrowserApp::finish_fetch_url`].
    FetchUrl { file_id: i64 },
    /// Put `text` on the clipboard; then report to
    /// [`BrowserApp::finish_clipboard`] with `success_message`.
    CopyToClipboard { text: String, success_message: String },
    /// Open `url` with the system's browser; then report to
    /// [`BrowserApp::finish_open_in_browser`].
    OpenInBrowser { url: String },
}

/// View of an [`Effect`].
pub enum EffectView {
    Nothing,
    FetchUrl { file_id: i64 },
    CopyToClipboard { text: Seq<char>, success_message: Seq<char> },
    OpenInBrowser { url: Seq<char> },
}

impl View for Effect {
    type V = EffectView;

    open spec fn view(&self) -> EffectView {
        match self {
            Effect::Nothing => EffectView::Nothing,
            Effect::FetchUrl { file_id } => EffectView::FetchUrl { file_id: *file_id },
            Effect::CopyToClipboard { text, success_message } => EffectView::CopyToClipboard {
                text: text@,
                success_message: success_message@,
            },
            Effect::OpenInBrowser { url } => EffectView::OpenInBrowser { url: url@ },
        }
    }
}

/// How an attempt to put text on the clipboard ended.
#[derive(Debug)]
pub enum ClipboardOutcome {
    Copied,
    /// The clipboard refused the text; the reason is attached.
    Failed(String),
    /// No clipboard could be reached; the reason is attached.
    Unavailable(String),
}

/// View of a [`ClipboardOutcome`].
pub enum ClipboardOutcomeView {
    Copied,
    Failed(Seq<char>),
    Unavailable(Seq<char>),
}

impl View for ClipboardOutcome {
    type V = ClipboardOutcomeView;

    open spec fn view(&self) -> ClipboardOutcomeView {
        match self {
            ClipboardOutcome::Copied => ClipboardOutcomeView::Copied,
            ClipboardOutcome::Failed(reason) => ClipboardOutcomeView::Failed(reason@),
            ClipboardOutcome::Unavailable(reason) => ClipboardOutcomeView::Unavailable(reason@),
        }
    }
}

/// The result of an outside call that hands back text, by its views.
pub open spec fn text_result_view(result: Result<String, String>) -> Result<Seq<char>, Seq<char>> {
    match result {
        Ok(text) => Ok(text@),
        Err(reason) => Err(reason@),
    }
}

/// The result of an outside call that hands back nothing, by its view.
pub open spec fn unit_result_view(result: Result<(), String>) -> Result<(), Seq<char>> {
    match result {
        Ok(_) => Ok(()),
        Err(reason) => Err(reason@),
    }
}

/// The address from which a file can be streamed with the given token.
pub open spec fn stream_url(file_id: i64, api_token: Seq<char>) -> Seq<char> {
    "https://api.put.io/v2/files/"@ + decimal(file_id as int) + "/stream?oauth_token="@ + api_token
}

/// The address of a file in the store's web application.
pub open spec fn browser_url(file_id: i64) -> Seq<char> {
    "https://app.put.io/files/"@ + decimal(file_id as int)
}

/// A query without its last character.
pub open spec fn without_last(query: Seq<char>) -> Seq<char> {
    if query.len() == 0 {
        query
    } else {
        query.drop_last()
    }
}

impl Session {
    /// The selection of an open action menu points into the menu.
    pub open spec fn menu_selection_valid(self) -> bool {
        self.modal matches ModalView::FileActions { file_type, selected, .. } ==> selected
            < file_actions(file_type, self.is_search_results).len()
    }

    /// The session with the overlay closed.
    pub open spec fn closed(self) -> Session {
        Session { modal: ModalView::Closed, ..self }
    }

    /// The session on its way out.
    pub open spec fn quitting(self) -> Session {
        Session { app_state: AppState::Quitting, ..self }
    }

    /// The session with `action` in the slot.
    pub open spec fn with_pending(self, action: PendingView) -> Session {
        Session { pending_action: action, ..self }
    }

    /// Carries out the action with the given label for the file `file_id`.
    pub open spec fn dispatch_action(self, label: Seq<char>, file_id: i64, api_token: Seq<char>) -> (
        Session,
        EffectView,
    ) {
        if label == "Copy URL"@ {
            (self, EffectView::FetchUrl { file_id })
        } else if label == "Copy Stream URL"@ {
            (
                self,
                EffectView::CopyToClipboard {
                    text: stream_url(file_id, api_token),
                    success_message: "Stream URL copied!"@,
                },
            )
        } else if label == "Download"@ {
            (self.with_pending(PendingView::Download { file_id }), EffectView::Nothing)
        } else if label == "Open in browser"@ {
            (self, EffectView::OpenInBrowser { url: browser_url(file_id) })
        } else if label == "Copy file ID"@ {
            (
                self,
                EffectView::CopyToClipboard {
                    text: decimal(file_id as int),
                    success_message: "File ID copied!"@,
                },
            )
        } else if label == "Copy path"@ {
            match self.entry_with_id(file_id) {
                Some(entry) => (
                    Session {
                        pending_action: PendingView::CopyPath {
                            file_name: entry.name,
                            parent_id: entry.parent_id,
                        },
                        spinner_label: "Copying path..."@,
                        modal: ModalView::Loading,
                        ..self
                    },
                    EffectView::Nothing,
                ),
                None => (
                    Session { modal: ModalView::Error("File not found for path lookup."@), ..self },
                    EffectView::Nothing,
                ),
            }
        } else if label == "Download as zip"@ {
            (self.with_pending(PendingView::Download { file_id }), EffectView::Nothing)
        } else if label == "Copy folder ID"@ {
            (
                self,
                EffectView::CopyToClipboard {
                    text: decimal(file_id as int),
                    success_message: "Folder ID copied!"@,
                },
            )
        } else if label == "Go to folder"@ {
            let parent_id = match self.entry_with_id(file_id) {
                Some(entry) => entry.parent_id,
                None => ROOT_ID,
            };
            (self.with_pending(PendingView::GoToFolder { parent_id, file_id }), EffectView::Nothing)
        } else {
            (self, EffectView::Nothing)
        }
    }

    /// A key while the browser asks whether to delete `file_id`.
    pub open spec fn on_key_confirm_delete(self, code: KeyCode, file_id: i64) -> Session {
        if code == KeyCode::Char('y') || code == KeyCode::Char('Y') {
            Session {
                pending_action: PendingView::Delete { file_id },
                spinner_label: "Deleting..."@,
                modal: ModalView::Loading,
                ..self.save_position_for_reload()
            }
        } else if code == KeyCode::Char('n') || code == KeyCode::Char('N') || code
            == KeyCode::Esc {
            self.closed()
        } else {
            self
        }
    }

    /// A key while the action menu is open.
    pub open spec fn on_key_file_actions(
        self,
        code: KeyCode,
        file_id: i64,
        file_name: Seq<char>,
        file_type: Seq<char>,
        selected: nat,
        api_token: Seq<char>,
    ) -> (Session, EffectView) {
        let menu = file_actions(file_type, self.is_search_results);
        let n = menu.len();
        if code == KeyCode::Up || code == KeyCode::Char('k') {
            (
                Session {
                    modal: ModalView::FileActions {
                        file_id,
                        file_name,
                        file_type,
                        selected: if selected == 0 {
                            (n - 1) as nat
                        } else {
                            (selected - 1) as nat
                        },
                    },
                    ..self
                },
                EffectView::Nothing,
            )
        } else if code == KeyCode::Down || code == KeyCode::Char('j') {
            (
                Session {
                    modal: ModalView::FileActions {
                        file_id,
                        file_name,
                        file_type,
                        selected: ((selected + 1) as nat % n) as nat,
                    },
                    ..self
                },
                EffectView::Nothing,
            )
        } else if code == KeyCode::Enter {
            self.closed().dispatch_action(menu[selected as int].label, file_id, api_token)
        } else if code is Char {
            let at = shortcut_position(menu, code->Char_0);
            if at < n {
                self.closed().dispatch_action(menu[at as int].label, file_id, api_token)
            } else {
                (self, EffectView::Nothing)
            }
        } else if code == KeyCode::Esc {
            (self.closed(), EffectView::Nothing)
        } else {
            (self, EffectView::Nothing)
        }
    }

    /// A key while the user types a query for the store.
    pub open spec fn on_key_search_input(self, key: KeyEvent, query: Seq<char>) -> Session {
        if key.code == KeyCode::Esc {
            self.closed()
        } else if key.code == KeyCode::Enter {
            if query.len() > 0 {
                Session {
                    pending_action: PendingView::Search { query },
                    spinner_label: "Searching..."@,
                    modal: ModalView::Loading,
                    ..self
                }
            } else {
                self.closed()
            }
        } else if key.code == KeyCode::Backspace {
            Session { modal: ModalView::SearchInput { query: without_last(query) }, ..self }
        } else if key.code is Char && !key.modifiers.control {
            Session {
                modal: ModalView::SearchInput { query: query.push(key.code->Char_0) },
                ..self
            }
        } else {
            self
        }
    }

    /// A key while the user types a query for the list.
    pub open spec fn on_key_find(self, key: KeyEvent, query: Seq<char>) -> Session {
        if key.code == KeyCode::Esc {
            self.closed()
        } else if key.code == KeyCode::Enter {
            if query.len() > 0 {
                Session { last_search: Some(query), ..self.closed() }.find_next_with(query)
            } else {
                self.closed()
            }
        } else if key.code == KeyCode::Backspace {
            Session { modal: ModalView::Find { query: without_last(query) }, ..self }
        } else if key.code is Char && !key.modifiers.control {
            Session { modal: ModalView::Find { query: query.push(key.code->Char_0) }, ..self }
        } else {
            self
        }
    }

    /// The session with the action menu open for the selected entry, if there
    /// is one.
    pub open spec fn open_file_actions(self) -> Session {
        match self.selected_file() {
            Some(entry) => Session {
                modal: ModalView::FileActions {
                    file_id: entry.id,
                    file_name: entry.name,
                    file_type: entry.file_type,
                    selected: 0,
                },
                ..self
            },
            None => self,
        }
    }

    /// Enter on the selected entry: a folder is entered, for anything else the
    /// action menu opens.
    pub open spec fn open_selected(self) -> Session {
        match self.selected_file() {
            Some(entry) => if kind_of(entry.file_type) == FileKind::Folder {
                Session { needs_reload: true, ..self.enter_folder(entry.id, entry.name) }
            } else {
                self.open_file_actions()
            },
            None => self,
        }
    }

    /// The session asking whether to delete the selected entry, if there is
    /// one.
    pub open spec fn ask_delete(self) -> Session {
        match self.selected_file() {
            Some(entry) => Session {
                modal: ModalView::ConfirmDelete { file_id: entry.id, file_name: entry.name },
                ..self
            },
            None => self,
        }
    }

    /// A key while no overlay is open.
    pub open spec fn on_key_browsing(self, key: KeyEvent) -> Session {
        let code = key.code;
        let control = key.modifiers.control;
        if code == KeyCode::Char('q') {
            self.quitting()
        } else if code == KeyCode::Esc {
            if self.breadcrumbs.len() > 1 {
                Session { needs_reload: true, ..self.go_back() }
            } else {
                self.quitting()
            }
        } else if code == KeyCode::Up || code == KeyCode::Char('k') {
            self.moved_up(1)
        } else if code == KeyCode::Down || code == KeyCode::Char('j') {
            self.moved_down(1)
        } else if code == KeyCode::Char('u') && control {
            self.moved_up(PAGE_STEP as nat)
        } else if code == KeyCode::Char('d') && control {
            self.moved_down(PAGE_STEP as nat)
        } else if code == KeyCode::Char('o') && control {
            self.open_file_actions()
        } else if code == KeyCode::Enter {
            self.open_selected()
        } else if code == KeyCode::Left || code == KeyCode::Backspace {
            Session { needs_reload: true, ..self.go_back() }
        } else if code == KeyCode::Char('/') {
            Session { modal: ModalView::Find { query: Seq::empty() }, ..self }
        } else if code == KeyCode::Char('f') && control {
            Session { modal: ModalView::SearchInput { query: Seq::empty() }, ..self }
        } else if code == KeyCode::Char('n') {
            self.find_next()
        } else if code == KeyCode::Char('s') {
            self.cycle_sort_field()
        } else if code == KeyCode::Char('r') {
            self.toggle_sort_direction()
        } else if code == KeyCode::Char('x') {
            self.ask_delete()
        } else {
            self
        }
    }

    /// What a key does to the session, and the effect that it asks for.
    /// Control-C ends the session whatever is open; any other key goes to
    /// the open overlay, or to the list if none is open.
    pub open spec fn handle_key(self, key: KeyEvent, api_token: Seq<char>) -> (Session, EffectView) {
        if key.modifiers.is_control_only() && key.code == KeyCode::Char('c') {
            (self.quitting(), EffectView::Nothing)
        } else {
            match self.modal {
                ModalView::Loading => (self, EffectView::Nothing),
                ModalView::Error(_) => (self.closed(), EffectView::Nothing),
                ModalView::Success(_) => (self.closed(), EffectView::Nothing),
                ModalView::ConfirmDelete { file_id, .. } => (
                    self.on_key_confirm_delete(key.code, file_id),
                    EffectView::Nothing,
                ),
                ModalView::FileActions {
                    file_id,
                    file_name,
                    file_type,
                    selected,
                } => self.on_key_file_actions(
                    key.code,
                    file_id,
                    file_name,
                    file_type,
                    selected,
                    api_token,
                ),
                ModalView::SearchInput { query } => (
                    self.on_key_search_input(key, query),
                    EffectView::Nothing,
                ),
                ModalView::Find { query } => (self.on_key_find(key, query), EffectView::Nothing),
                ModalView::Closed => (self.on_key_browsing(key), EffectView::Nothing),
            }
        }
    }

    /// The session with a failure shown: `prefix` followed by the reason.
    pub open spec fn failed(self, prefix: Seq<char>, reason: Seq<char>) -> Session {
        Session { modal: ModalView::Error(prefix + reason), ..self }
    }

    /// The store has answered the request for a shareable URL.
    pub open spec fn finish_fetch_url(self, result: Result<Seq<char>, Seq<char>>) -> (
        Session,
        EffectView,
    ) {
        match result {
            Ok(url) => (
                self,
                EffectView::CopyToClipboard { text: url, success_message: "URL copied!"@ },
            ),
            Err(reason) => (self.failed("Failed to get URL: "@, reason), EffectView::Nothing),
        }
    }

    /// The attempt to put text on the clipboard has ended.
    pub open spec fn finish_clipboard(
        self,
        outcome: ClipboardOutcomeView,
        success_message: Seq<char>,
    ) -> Session {
        match outcome {
            ClipboardOutcomeView::Copied => Session {
                modal: ModalView::Success(success_message),
                ..self
            },
            ClipboardOutcomeView::Failed(reason) => self.failed("Clipboard error: "@, reason),
            ClipboardOutcomeView::Unavailable(reason) => self.failed(
                "Clipboard unavailable: "@,
                reason,
            ),
        }
    }

    /// The attempt to start the system's browser has ended.
    pub open spec fn finish_open_in_browser(self, result: Result<(), Seq<char>>) -> Session {
        match result {
            Ok(_) => Session { modal: ModalView::Success("Opening in browser..."@), ..self },
            Err(reason) => self.failed("Could not open browser: "@, reason),
        }
    }
}

/// A key leaves the list as it is, empties it, or puts it in order anew: a
/// list that is in order stays in order.
pub proof fn lemma_handle_key_keeps_order(s: Session, key: KeyEvent, api_token: Seq<char>)
    requires
        s.ordered(),
    ensures
        s.handle_key(key, api_token).0.ordered(),
{
    let after = s.handle_key(key, api_token).0;
    let untouched = after.files == s.files && after.sort_field == s.sort_field
        && after.sort_direction == s.sort_direction;
    let emptied = after.files == Seq::<EntryView>::empty();
    assert(untouched || emptied || after == s.cycle_sort_field() || after
        == s.toggle_sort_direction());
    lemma_operations_keep_order(s, 0, 0, Seq::empty(), Seq::empty(), 0);
}

/// A key leaves a well-formed session well formed, and the selection of an
/// action menu inside the menu.
pub proof fn lemma_handle_key_keeps_wf(s: Session, key: KeyEvent, api_token: Seq<char>)
    requires
        s.wf(),
        s.menu_selection_valid(),
    ensures
        s.handle_key(key, api_token).0.wf(),
        s.handle_key(key, api_token).0.menu_selection_valid(),
{
    let after = s.handle_key(key, api_token).0;
    if key.modifiers.is_control_only() && key.code == KeyCode::Char('c') {
    } else {
        match s.modal {
            ModalView::FileActions { file_id, file_name, file_type, selected } => {
                let n = file_actions(file_type, s.is_search_results).len();
                lemma_file_actions_len(file_type, s.is_search_results);
                lemma_mod_pos_bound((selected + 1) as int, n as int);
            },
            ModalView::Find { query } => {
                lemma_find_keeps_wf(Session { last_search: Some(query), ..s.closed() }, query);
            },
            ModalView::Closed => {
                lemma_operations_keep_wf(s, 0, 0, Seq::empty(), Seq::empty(), PAGE_STEP as nat);
                lemma_operations_keep_wf(s, 0, 0, Seq::empty(), Seq::empty(), 1);
                match s.selected_file() {
                    Some(entry) => {
                        lemma_file_actions_len(entry.file_type, s.is_search_results);
                        lemma_operations_keep_wf(
                            s,
                            entry.id,
                            0,
                            entry.name,
                            Seq::empty(),
                            1,
                        );
                    },
                    None => {},
                }
            },
            _ => {},
        }
    }
}

/// The reports of finished effects, and the actions of the menu, change
/// neither the breadcrumbs nor the list nor the selection: they keep a
/// session well formed and its list in order.
pub proof fn lemma_reports_keep_wf(
    s: Session,
    label: Seq<char>,
    file_id: i64,
    api_token: Seq<char>,
    fetched: Result<Seq<char>, Seq<char>>,
    outcome: ClipboardOutcomeView,
    success_message: Seq<char>,
    opened: Result<(), Seq<char>>,
)
    requires
        s.wf(),
    ensures
        s.dispatch_action(label, file_id, api_token).0.wf(),
        s.finish_fetch_url(fetched).0.wf(),
        s.finish_clipboard(outcome, success_message).wf(),
        s.finish_open_in_browser(opened).wf(),
        s.ordered() ==> {
            &&& s.dispatch_action(label, file_id, api_token).0.ordered()
            &&& s.finish_fetch_url(fetched).0.ordered()
            &&& s.finish_clipboard(outcome, success_message).ordered()
            &&& s.finish_open_in_browser(opened).ordered()
        },
{
}

/// Carries out the action with the given label for the file `file_id`:
/// changes the session, or hands back the outside work that the action needs.
/// An unknown label does nothing.
pub fn execute_file_action(app: &mut BrowserApp, label: &str, file_id: i64, api_token: &str) -> (effect:
    Effect)
    ensures
        (final(app)@, effect@) == old(app)@.dispatch_action(label@, file_id, api_token@),
{
    if str_eq(label, "Copy URL") {
        Effect::FetchUrl { file_id }
    } else if str_eq(label, "Copy Stream URL") {
        let mut url = String::from_str("https://api.put.io/v2/files/");
        let id = decimal_string(file_id);
        url.append(id.as_str());
        url.append("/stream?oauth_token=");
        url.append(api_token);
        Effect::CopyToClipboard {
            text: url,
            success_message: String::from_str("Stream URL copied!"),
        }
    } else if str_eq(label, "Download") {
        app.set_pending_action(PendingAction::Download { file_id });
        Effect::Nothing
    } else if str_eq(label, "Open in browser") {
        let mut url = String::from_str("https://app.put.io/files/");
        let id = decimal_string(file_id);
        url.append(id.as_str());
        Effect::OpenInBrowser { url }
    } else if str_eq(label, "Copy file ID") {
        Effect::CopyToClipboard {
            text: decimal_string(file_id),
            success_message: String::from_str("File ID copied!"),
        }
    } else if str_eq(label, "Copy path") {
        let found = match app.entry_with_id(file_id) {
            Some(entry) => Some((entry.name.clone(), entry.parent_id)),
            None => None,
        };
        match found {
            Some((file_name, parent_id)) => {
                app.set_pending_action(PendingAction::CopyPath { file_name, parent_id });
                app.set_spinner_label(String::from_str("Copying path..."));
                app.set_modal(ModalState::Loading);
            },
            None => {
                app.set_modal(
                    ModalState::Error(String::from_str("File not found for path lookup.")),
                );
            },
        }
        Effect::Nothing
    } else if str_eq(label, "Download as zip") {
        app.set_pending_action(PendingAction::Download { file_id });
        Effect::Nothing
    } else if str_eq(label, "Copy folder ID") {
        Effect::CopyToClipboard {
            text: decimal_string(file_id),
            success_message: String::from_str("Folder ID copied!"),
        }
    } else if str_eq(label, "Go to folder") {
        let parent_id = match app.entry_with_id(file_id) {
            Some(entry) => entry.parent_id,
            None => ROOT_ID,
        };
        app.set_pending_action(PendingAction::GoToFolder { parent_id, file_id });
        Effect::Nothing
    } else {
        Effect::Nothing
    }
}

fn handle_confirm_delete(app: &mut BrowserApp, code: KeyCode, file_id: i64)
    ensures
        final(app)@ == old(app)@.on_key_confirm_delete(code, file_id),
{
    if code == KeyCode::Char('y') || code == KeyCode::Char('Y') {
        app.save_position_for_reload();
        app.set_pending_action(PendingAction::Delete { file_id });
        app.set_spinner_label(String::from_str("Deleting..."));
        app.set_modal(ModalState::Loading);
    } else if code == KeyCode::Char('n') || code == KeyCode::Char('N') || code == KeyCode::Esc {
        app.set_modal(ModalState::Closed);
    }
}

fn handle_file_actions(
    app: &mut BrowserApp,
    code: KeyCode,
    file_id: i64,
    file_name: String,
    file_type: String,
    selected: usize,
    api_token: &str,
) -> (effect: Effect)
    requires
        selected < file_actions(file_type@, old(app)@.is_search_results).len(),
    ensures
        (final(app)@, effect@) == old(app)@.on_key_file_actions(
            code,
            file_id,
            file_name@,
            file_type@,
            selected as nat,
            api_token@,
        ),
{
    let actions = file_actions_for(file_type.as_str(), app.is_search_results());
    let n: usize = actions.len();
    let ghost menu = file_actions(file_type@, app@.is_search_results);
    proof {
        lemma_file_actions_len(file_type@, app@.is_search_results);
        assert(action_views(actions@).len() == n);
    }
    if code == KeyCode::Up || code == KeyCode::Char('k') {
        let above: usize = if selected == 0 {
            n - 1
        } else {
            selected - 1
        };
        app.set_modal(ModalState::FileActions { file_id, file_name, file_type, selected: above });
        Effect::Nothing
    } else if code == KeyCode::Down || code == KeyCode::Char('j') {
        let below: usize = (selected + 1) % n;
        app.set_modal(ModalState::FileActions { file_id, file_name, file_type, selected: below });
        Effect::Nothing
    } else if code == KeyCode::Enter {
        let label = actions[selected].label;
        proof {
            assert(action_views(actions@)[selected as int].label == label@);
        }
        app.set_modal(ModalState::Closed);
        execute_file_action(app, label, file_id, api_token)
    } else {
        match code {
            KeyCode::Char(c) => {
                match find_shortcut(&actions, c) {
                    Some(at) => {
                        let label = actions[at].label;
                        proof {
                            assert(action_views(actions@)[at as int].label == label@);
                        }
                        app.set_modal(ModalState::Closed);
                        execute_file_action(app, label, file_id, api_token)
                    },
                    None => Effect::Nothing,
                }
            },
            KeyCode::Esc => {
                app.set_modal(ModalState::Closed);
                Effect::Nothing
            },
            _ => Effect::Nothing,
        }
    }
}

fn handle_search_input(app: &mut BrowserApp, key: KeyEvent, query: String)
    ensures
        final(app)@ == old(app)@.on_key_search_input(key, query@),
{
    match key.code {
        KeyCode::Esc => {
            app.set_modal(ModalState::Closed);
        },
        KeyCode::Enter => {
            if !query.as_str().is_empty() {
                app.set_pending_action(PendingAction::Search { query });
                app.set_spinner_label(String::from_str("Searching..."));
                app.set_modal(ModalState::Loading);
            } else {
                app.set_modal(ModalState::Closed);
            }
        },
        KeyCode::Backspace => {
            let mut shorter = query;
            pop_char(&mut shorter);
            app.set_modal(ModalState::SearchInput { query: shorter });
        },
        KeyCode::Char(c) => {
            if !key.modifiers.control {
                let mut longer = query;
                push_char(&mut longer, c);
                app.set_modal(ModalState::SearchInput { query: longer });
            }
        },
        _ => {},
    }
}

fn handle_find(app: &mut BrowserApp, key: KeyEvent, query: String)
    requires
        old(app)@.wf(),
    ensures
        final(app)@ == old(app)@.on_key_find(key, query@),
        final(app)@.wf(),
{
    match key.code {
        KeyCode::Esc => {
            app.set_modal(ModalState::Closed);
        },
        KeyCode::Enter => {
            app.set_modal(ModalState::Closed);
            if !query.as_str().is_empty() {
                app.set_last_search(Some(query.clone()));
                app.find_next_with(query.as_str());
            }
        },
        KeyCode::Backspace => {
            let mut shorter = query;
            pop_char(&mut shorter);
            app.set_modal(ModalState::Find { query: shorter });
        },
        KeyCode::Char(c) => {
            if !key.modifiers.control {
                let mut longer = query;
                push_char(&mut longer, c);
                app.set_modal(ModalState::Find { query: longer });
            }
        },
        _ => {},
    }
}

/// Opens the action menu for the selected entry, if there is one.
fn open_file_actions(app: &mut BrowserApp)
    ensures
        final(app)@ == old(app)@.open_file_actions(),
{
    let picked = match app.selected_file() {
        Some(entry) => Some((entry.id, entry.name.clone(), entry.file_type.clone())),
        None => None,
    };
    match picked {
        Some((file_id, file_name, file_type)) => {
            app.set_modal(ModalState::FileActions { file_id, file_name, file_type, selected: 0 });
        },
        None => {},
    }
}

fn handle_browsing(app: &mut BrowserApp, key: KeyEvent)
    requires
        old(app)@.wf(),
    ensures
        final(app)@ == old(app)@.on_key_browsing(key),
        final(app)@.wf(),
{
    let code = key.code;
    let control = key.modifiers.control;
    if code == KeyCode::Char('q') {
        app.set_app_state(AppState::Quitting);
    } else if code == KeyCode::Esc {
        if app.breadcrumbs().len() > 1 {
            app.go_back();
            app.set_needs_reload(true);
        } else {
            app.set_app_state(AppState::Quitting);
        }
    } else if code == KeyCode::Up || code == KeyCode::Char('k') {
        app.move_up();
    } else if code == KeyCode::Down || code == KeyCode::Char('j') {
        app.move_down();
    } else if code == KeyCode::Char('u') && control {
        app.move_page_up();
    } else if code == KeyCode::Char('d') && control {
        app.move_page_down();
    } else if code == KeyCode::Char('o') && control {
        open_file_actions(app);
    } else if code == KeyCode::Enter {
        let picked = match app.selected_file() {
            Some(entry) => Some(
                (
                    entry.id,
                    entry.name.clone(),
                    file_kind(entry.file_type.as_str()) == FileKind::Folder,
                ),
            ),
            None => None,
        };
        match picked {
            Some((file_id, file_name, is_folder)) => {
                if is_folder {
                    app.enter_folder(file_id, file_name);
                    app.set_needs_reload(true);
                } else {
                    open_file_actions(app);
                }
            },
            None => {},
        }
    } else if code == KeyCode::Left || code == KeyCode::Backspace {
        app.go_back();
        app.set_needs_reload(true);
    } else if code == KeyCode::Char('/') {
        app.set_modal(ModalState::Find { query: String::new() });
    } else if code == KeyCode::Char('f') && control {
        app.set_modal(ModalState::SearchInput { query: String::new() });
    } else if code == KeyCode::Char('n') {
        app.find_next();
    } else if code == KeyCode::Char('s') {
        app.cycle_sort_field();
    } else if code == KeyCode::Char('r') {
        app.toggle_sort_direction();
    } else if code == KeyCode::Char('x') {
        let picked = match app.selected_file() {
            Some(entry) => Some((entry.id, entry.name.clone())),
            None => None,
        };
        match picked {
            Some((file_id, file_name)) => {
                app.set_modal(ModalState::ConfirmDelete { file_id, file_name });
            },
            None => {},
        }
    }
}

/// Tells whether the selection of an open action menu points into the menu.
/// It does after every key; [`handle_key`] takes no session in which it does
/// not.
pub fn menu_selection_in_range(app: &BrowserApp) -> (r: bool)
    ensures
        r == app@.menu_selection_valid(),
{
    match app.modal() {
        ModalState::FileActions { file_type, selected, .. } => {
            let actions = file_actions_for(file_type.as_str(), app.is_search_results());
            proof {
                assert(action_views(actions@).len() == actions.len());
            }
            *selected < actions.len()
        },
        _ => true,
    }
}

/// Applies a key press to the session and returns the outside work that it
/// asks for. Control-C ends the session whatever is open. Otherwise the open
/// overlay decides: a load in progress ignores the key, a message is
/// dismissed by any key, and the other overlays and the list have their own
/// keys.
pub fn handle_key(app: &mut BrowserApp, key: KeyEvent, api_token: &str) -> (effect: Effect)
    requires
        old(app)@.wf(),
        old(app)@.menu_selection_valid(),
    ensures
        (final(app)@, effect@) == old(app)@.handle_key(key, api_token@),
        final(app)@.wf(),
        final(app)@.menu_selection_valid(),
        old(app)@.ordered() ==> final(app)@.ordered(),
{
    proof {
        lemma_handle_key_keeps_wf(app@, key, api_token@);
        if app@.ordered() {
            lemma_handle_key_keeps_order(app@, key, api_token@);
        }
    }
    if key.modifiers.control_only() && key.code == KeyCode::Char('c') {
        app.set_app_state(AppState::Quitting);
        return Effect::Nothing;
    }
    let modal = app.modal().clone();
    match modal {
        ModalState::Loading => Effect::Nothing,
        ModalState::Error(_) => {
            app.set_modal(ModalState::Closed);
            Effect::Nothing
        },
        ModalState::Success(_) => {
            app.set_modal(ModalState::Closed);
            Effect::Nothing
        },
        ModalState::ConfirmDelete { file_id, .. } => {
            handle_confirm_delete(app, key.code, file_id);
            Effect::Nothing
        },
        ModalState::FileActions { file_id, file_name, file_type, selected } => {
            handle_file_actions(app, key.code, file_id, file_name, file_type, selected, api_token)
        },
        ModalState::SearchInput { query } => {
            handle_search_input(app, key, query);
            Effect::Nothing
        },
        ModalState::Find { query } => {
            handle_find(app, key, query);
            Effect::Nothing
        },
        ModalState::Closed => {
            handle_browsing(app, key);
            Effect::Nothing
        },
    }
}

/// A message made of a fixed beginning and a reason.
pub fn failure_message(prefix: &str, reason: &str) -> (message: String)
    ensures
        message@ == prefix@ + reason@,
{
    let mut message = String::from_str(prefix);
    message.append(reason);
    message
}

impl BrowserApp {
    /// Takes the store's answer to a request for a shareable URL. A URL is to
    /// be copied to the clipboard next; a failure is shown.
    pub fn finish_fetch_url(&mut self, result: Result<String, String>) -> (effect: Effect)
        ensures
            (final(self)@, effect@) == old(self)@.finish_fetch_url(text_result_view(result)),
    {
        match result {
            Ok(url) => Effect::CopyToClipboard {
                text: url,
                success_message: String::from_str("URL copied!"),
            },
            Err(reason) => {
                self.set_modal(
                    ModalState::Error(failure_message("Failed to get URL: ", reason.as_str())),
                );
                Effect::Nothing
            },
        }
    }

    /// Takes the outcome of a copy to the clipboard and shows it.
    pub fn finish_clipboard(&mut self, outcome: ClipboardOutcome, success_message: String)
        ensures
            final(self)@ == old(self)@.finish_clipboard(outcome@, success_message@),
    {
        match outcome {
            ClipboardOutcome::Copied => {
                self.set_modal(ModalState::Success(success_message));
            },
            ClipboardOutcome::Failed(reason) => {
                self.set_modal(
                    ModalState::Error(failure_message("Clipboard error: ", reason.as_str())),
                );
            },
            ClipboardOutcome::Unavailable(reason) => {
                self.set_modal(
                    ModalState::Error(
                        failure_message("Clipboard unavailable: ", reason.as_str()),
                    ),
                );
            },
        }
    }

    /// Takes the outcome of starting the system's browser and shows it.
    pub fn finish_open_in_browser(&mut self, result: Result<(), String>)
        ensures
            final(self)@ == old(self)@.finish_open_in_browser(unit_result_view(result)),
    {
        match result {
            Ok(_) => {
                self.set_modal(ModalState::Success(String::from_str("Opening in browser...")));
            },
            Err(reason) => {
                self.set_modal(
                    ModalState::Error(
                        failure_message("Could not open browser: ", reason.as_str()),
                    ),
                );
            },
        }
    }
}

} // verus!
