use putio_browse::actions::{file_actions_for, find_shortcut, FileAction};
use putio_browse::app::{BrowserApp, ModalState, PendingAction};
use putio_browse::entry::{Entry, SortDirection, SortField};
use putio_browse::events::{
    execute_file_action, failure_message, handle_key, menu_selection_in_range, ClipboardOutcome,
    Effect, KeyCode, KeyEvent, KeyModifiers,
};
use putio_browse::session::AppState;

const TOKEN: &str = "tok";

fn file(id: i64, name: &str, file_type: &str, parent_id: i64) -> Entry {
    Entry {
        id,
        name: name.to_string(),
        file_type: file_type.to_string(),
        size: 0,
        created_at: 0,
        updated_at: 0,
        parent_id,
    }
}

fn plain() -> KeyModifiers {
    KeyModifiers { shift: false, control: false, alt: false, super_key: false, hyper: false, meta: false }
}

fn control() -> KeyModifiers {
    KeyModifiers { control: true, ..plain() }
}

fn key(code: KeyCode) -> KeyEvent {
    KeyEvent { code, modifiers: plain() }
}

fn ch(c: char) -> KeyEvent {
    key(KeyCode::Char(c))
}

fn ctrl(c: char) -> KeyEvent {
    KeyEvent { code: KeyCode::Char(c), modifiers: control() }
}

fn press(app: &mut BrowserApp, event: KeyEvent) -> Effect {
    handle_key(app, event, TOKEN)
}

fn browsing() -> BrowserApp {
    let mut app = BrowserApp::new();
    app.set_needs_reload(false);
    app.set_files(vec![
        file(1, "Alpha", "FOLDER", 0),
        file(2, "beta.mkv", "VIDEO", 0),
        file(3, "gamma.txt", "TEXT", 0),
    ]);
    app
}

fn labels(actions: &[FileAction]) -> Vec<(&'static str, char)> {
    actions.iter().map(|a| (a.label, a.key)).collect()
}

fn type_text(app: &mut BrowserApp, text: &str) {
    for c in text.chars() {
        press(app, ch(c));
    }
}

#[test]
fn delete_is_asked_for_and_can_be_declined_or_confirmed() {
    let mut app = browsing();
    assert!(matches!(press(&mut app, ch('x')), Effect::Nothing));
    match app.modal() {
        ModalState::ConfirmDelete { file_id, file_name } => {
            assert_eq!(*file_id, 1);
            assert_eq!(file_name, "Alpha");
        }
        other => panic!("unexpected modal {:?}", other),
    }
    press(&mut app, ch('n'));
    assert!(matches!(app.modal(), ModalState::Closed));
    assert!(matches!(app.pending_action(), PendingAction::Nothing));

    app.move_down();
    app.set_list_offset(1);
    press(&mut app, ch('x'));
    press(&mut app, ch('y'));
    assert!(matches!(app.pending_action(), PendingAction::Delete { file_id: 2 }));
    assert!(matches!(app.modal(), ModalState::Loading));
    assert_eq!(app.spinner_label(), "Deleting...");

    // the place is restored by the listing that follows
    app.set_list_offset(0);
    app.set_files(vec![file(1, "Alpha", "FOLDER", 0), file(3, "gamma.txt", "TEXT", 0)]);
    assert_eq!(app.selected_index(), 1);
    assert_eq!(app.list_offset(), 1);
}

#[test]
fn confirm_delete_accepts_capitals_and_escape_and_ignores_the_rest() {
    for accept in ['y', 'Y'] {
        let mut app = browsing();
        press(&mut app, ch('x'));
        press(&mut app, ch(accept));
        assert!(matches!(app.pending_action(), PendingAction::Delete { file_id: 1 }));
    }
    for decline in [ch('n'), ch('N'), key(KeyCode::Esc)] {
        let mut app = browsing();
        press(&mut app, ch('x'));
        press(&mut app, decline);
        assert!(matches!(app.modal(), ModalState::Closed));
    }
    let mut app = browsing();
    press(&mut app, ch('x'));
    press(&mut app, ch('q'));
    press(&mut app, key(KeyCode::Enter));
    assert!(matches!(app.modal(), ModalState::ConfirmDelete { .. }));
    assert_eq!(app.app_state(), AppState::Browsing);
}

#[test]
fn delete_on_an_empty_list_does_nothing() {
    let mut app = BrowserApp::new();
    app.set_files(vec![]);
    press(&mut app, ch('x'));
    assert!(matches!(app.modal(), ModalState::Closed));
    press(&mut app, key(KeyCode::Enter));
    assert!(matches!(app.modal(), ModalState::Closed));
    press(&mut app, ctrl('o'));
    assert!(matches!(app.modal(), ModalState::Closed));
}

#[test]
fn control_c_quits_whatever_is_open() {
    let mut app = BrowserApp::new();
    assert!(matches!(app.modal(), ModalState::Loading));
    press(&mut app, ctrl('c'));
    assert_eq!(app.app_state(), AppState::Quitting);

    let mut app = browsing();
    press(&mut app, ch('/'));
    press(&mut app, ctrl('c'));
    assert_eq!(app.app_state(), AppState::Quitting);

    // with a second modifier it is an ordinary key
    let mut app = browsing();
    let both = KeyEvent {
        code: KeyCode::Char('c'),
        modifiers: KeyModifiers { shift: true, ..control() },
    };
    press(&mut app, both);
    assert_eq!(app.app_state(), AppState::Browsing);
}

#[test]
fn loading_ignores_keys() {
    let mut app = BrowserApp::new();
    press(&mut app, ch('q'));
    press(&mut app, key(KeyCode::Esc));
    assert_eq!(app.app_state(), AppState::Browsing);
    assert!(matches!(app.modal(), ModalState::Loading));
}

#[test]
fn any_key_dismisses_a_message() {
    let mut app = browsing();
    app.set_modal(ModalState::Error("boom".to_string()));
    press(&mut app, ch('q'));
    assert!(matches!(app.modal(), ModalState::Closed));
    assert_eq!(app.app_state(), AppState::Browsing);
    app.set_modal(ModalState::Success("fine".to_string()));
    press(&mut app, key(KeyCode::Other));
    assert!(matches!(app.modal(), ModalState::Closed));
}

#[test]
fn browsing_keys_move_the_cursor() {
    let mut app = browsing();
    press(&mut app, ch('j'));
    assert_eq!(app.selected_index(), 1);
    press(&mut app, key(KeyCode::Down));
    assert_eq!(app.selected_index(), 2);
    press(&mut app, key(KeyCode::Down));
    assert_eq!(app.selected_index(), 2);
    press(&mut app, ch('k'));
    press(&mut app, key(KeyCode::Up));
    press(&mut app, key(KeyCode::Up));
    assert_eq!(app.selected_index(), 0);
    press(&mut app, ctrl('d'));
    assert_eq!(app.selected_index(), 2);
    press(&mut app, ctrl('u'));
    assert_eq!(app.selected_index(), 0);
    // without control they are no keys of the list
    press(&mut app, ch('d'));
    press(&mut app, ch('u'));
    press(&mut app, ch('o'));
    press(&mut app, ch('f'));
    assert_eq!(app.selected_index(), 0);
    assert!(matches!(app.modal(), ModalState::Closed));
}

#[test]
fn enter_descends_into_a_folder_and_opens_actions_for_a_file() {
    let mut app = browsing();
    press(&mut app, key(KeyCode::Enter));
    assert_eq!(app.current_folder_id(), 1);
    assert_eq!(app.breadcrumbs().len(), 2);
    assert_eq!(app.breadcrumbs()[1].name, "Alpha");
    assert!(app.needs_reload());
    assert!(matches!(app.modal(), ModalState::Loading));

    let mut app = browsing();
    press(&mut app, ch('j'));
    press(&mut app, key(KeyCode::Enter));
    match app.modal() {
        ModalState::FileActions { file_id, file_name, file_type, selected } => {
            assert_eq!(*file_id, 2);
            assert_eq!(file_name, "beta.mkv");
            assert_eq!(file_type, "VIDEO");
            assert_eq!(*selected, 0);
        }
        other => panic!("unexpected modal {:?}", other),
    }
    assert!(!app.needs_reload());

    // control-o opens the menu for a folder too
    let mut app = browsing();
    press(&mut app, ctrl('o'));
    assert!(matches!(app.modal(), ModalState::FileActions { file_id: 1, selected: 0, .. }));
}

#[test]
fn escape_goes_back_or_quits_at_the_root() {
    let mut app = browsing();
    press(&mut app, key(KeyCode::Enter));
    app.set_needs_reload(false);
    app.set_files(vec![]);
    press(&mut app, key(KeyCode::Esc));
    assert_eq!(app.breadcrumbs().len(), 1);
    assert!(app.needs_reload());
    assert_eq!(app.app_state(), AppState::Browsing);
    app.set_needs_reload(false);
    app.set_files(vec![]);
    press(&mut app, key(KeyCode::Esc));
    assert_eq!(app.app_state(), AppState::Quitting);
}

#[test]
fn left_and_backspace_go_back_and_ask_for_a_listing() {
    for code in [KeyCode::Left, KeyCode::Backspace] {
        let mut app = browsing();
        press(&mut app, key(KeyCode::Enter));
        app.set_needs_reload(false);
        app.set_files(vec![]);
        press(&mut app, key(code));
        assert_eq!(app.breadcrumbs().len(), 1);
        assert!(app.needs_reload());
    }
    let mut app = browsing();
    press(&mut app, key(KeyCode::Left));
    assert_eq!(app.breadcrumbs().len(), 1);
    assert!(app.needs_reload());
    assert_eq!(app.files().len(), 3);
}

#[test]
fn q_quits() {
    let mut app = browsing();
    press(&mut app, ch('q'));
    assert_eq!(app.app_state(), AppState::Quitting);
}

#[test]
fn sort_keys_change_the_order_and_reset_the_cursor() {
    let mut app = browsing();
    press(&mut app, ch('j'));
    press(&mut app, ch('r'));
    assert_eq!(app.sort_direction(), SortDirection::Desc);
    assert_eq!(app.selected_index(), 0);
    assert_eq!(app.files()[0].name, "gamma.txt");
    press(&mut app, ch('j'));
    press(&mut app, ch('s'));
    assert_eq!(app.sort_field(), SortField::Size);
    assert_eq!(app.selected_index(), 0);
}

#[test]
fn find_bar_edits_its_query_and_jumps_on_enter() {
    let mut app = browsing();
    press(&mut app, ch('/'));
    assert!(matches!(app.modal(), ModalState::Find { query } if query.is_empty()));
    press(&mut app, key(KeyCode::Backspace));
    assert!(matches!(app.modal(), ModalState::Find { query } if query.is_empty()));
    type_text(&mut app, "GAMx");
    press(&mut app, ctrl('a'));
    press(&mut app, key(KeyCode::Backspace));
    assert!(matches!(app.modal(), ModalState::Find { query } if query == "GAM"));
    press(&mut app, key(KeyCode::Enter));
    assert!(matches!(app.modal(), ModalState::Closed));
    assert_eq!(app.last_search().as_deref(), Some("GAM"));
    assert_eq!(app.selected_index(), 2);

    // 'n' repeats the search and wraps round to the same entry
    press(&mut app, ch('k'));
    press(&mut app, ch('n'));
    assert_eq!(app.selected_index(), 2);
}

#[test]
fn find_bar_closes_on_escape_and_on_an_empty_query() {
    let mut app = browsing();
    press(&mut app, ch('/'));
    type_text(&mut app, "be");
    press(&mut app, key(KeyCode::Esc));
    assert!(matches!(app.modal(), ModalState::Closed));
    assert!(app.last_search().is_none());
    assert_eq!(app.selected_index(), 0);

    press(&mut app, ch('/'));
    press(&mut app, key(KeyCode::Enter));
    assert!(matches!(app.modal(), ModalState::Closed));
    assert!(app.last_search().is_none());

    // without an earlier search 'n' finds nothing
    press(&mut app, ch('n'));
    assert_eq!(app.selected_index(), 0);
}

#[test]
fn search_input_queues_a_search() {
    let mut app = browsing();
    press(&mut app, ctrl('f'));
    assert!(matches!(app.modal(), ModalState::SearchInput { query } if query.is_empty()));
    type_text(&mut app, "cats");
    press(&mut app, key(KeyCode::Backspace));
    press(&mut app, ctrl('x'));
    press(&mut app, key(KeyCode::Up));
    assert!(matches!(app.modal(), ModalState::SearchInput { query } if query == "cat"));
    press(&mut app, key(KeyCode::Enter));
    assert!(matches!(app.pending_action(), PendingAction::Search { query } if query == "cat"));
    assert!(matches!(app.modal(), ModalState::Loading));
    assert_eq!(app.spinner_label(), "Searching...");
}

#[test]
fn search_input_closes_on_escape_and_on_an_empty_query() {
    let mut app = browsing();
    press(&mut app, ctrl('f'));
    press(&mut app, key(KeyCode::Enter));
    assert!(matches!(app.modal(), ModalState::Closed));
    assert!(matches!(app.pending_action(), PendingAction::Nothing));
    press(&mut app, ctrl('f'));
    type_text(&mut app, "a");
    press(&mut app, key(KeyCode::Esc));
    assert!(matches!(app.modal(), ModalState::Closed));
    assert!(matches!(app.pending_action(), PendingAction::Nothing));
}

#[test]
fn action_lists_per_kind() {
    assert_eq!(
        labels(&file_actions_for("FOLDER", false)),
        vec![
            ("Download as zip", 'z'),
            ("Open in browser", 'b'),
            ("Copy path", 'p'),
            ("Copy folder ID", 'i'),
        ]
    );
    assert_eq!(
        labels(&file_actions_for("VIDEO", false)),
        vec![
            ("Copy URL", 'c'),
            ("Copy Stream URL", 's'),
            ("Download", 'd'),
            ("Open in browser", 'b'),
            ("Copy path", 'p'),
            ("Copy file ID", 'i'),
        ]
    );
    let other = vec![
        ("Copy URL", 'c'),
        ("Download", 'd'),
        ("Open in browser", 'b'),
        ("Copy path", 'p'),
        ("Copy file ID", 'i'),
    ];
    for kind in ["AUDIO", "IMAGE", "ARCHIVE", "PDF", "TEXT", "FILE", "", "folder"] {
        assert_eq!(labels(&file_actions_for(kind, false)), other);
    }
    for kind in ["FOLDER", "VIDEO", "TEXT"] {
        let plain = file_actions_for(kind, false);
        let searching = file_actions_for(kind, true);
        assert_eq!(searching.len(), plain.len() + 1);
        assert_eq!(labels(&searching[..plain.len()]), labels(&plain));
        assert_eq!(labels(&searching[plain.len()..]), vec![("Go to folder", 'g')]);
    }
}

#[test]
fn shortcuts_are_found_by_key() {
    let actions = file_actions_for("VIDEO", true);
    assert_eq!(find_shortcut(&actions, 'c'), Some(0));
    assert_eq!(find_shortcut(&actions, 'i'), Some(5));
    assert_eq!(find_shortcut(&actions, 'g'), Some(6));
    assert_eq!(find_shortcut(&actions, 'z'), None);
    assert_eq!(find_shortcut(&Vec::new(), 'c'), None);
}

#[test]
fn action_menu_selection_wraps_round() {
    let mut app = browsing();
    press(&mut app, ch('j'));
    press(&mut app, key(KeyCode::Enter));
    press(&mut app, key(KeyCode::Up));
    assert!(matches!(app.modal(), ModalState::FileActions { selected: 5, .. }));
    press(&mut app, ch('j'));
    assert!(matches!(app.modal(), ModalState::FileActions { selected: 0, .. }));
    press(&mut app, key(KeyCode::Down));
    press(&mut app, ch('k'));
    press(&mut app, ch('j'));
    assert!(matches!(app.modal(), ModalState::FileActions { selected: 1, .. }));
    press(&mut app, key(KeyCode::Other));
    assert!(matches!(app.modal(), ModalState::FileActions { selected: 1, .. }));
    press(&mut app, key(KeyCode::Esc));
    assert!(matches!(app.modal(), ModalState::Closed));
}

#[test]
fn enter_dispatches_the_selected_action() {
    let mut app = browsing();
    press(&mut app, ch('j'));
    press(&mut app, key(KeyCode::Enter));
    press(&mut app, ch('j'));
    match press(&mut app, key(KeyCode::Enter)) {
        Effect::CopyToClipboard { text, success_message } => {
            assert_eq!(text, "https://api.put.io/v2/files/2/stream?oauth_token=tok");
            assert_eq!(success_message, "Stream URL copied!");
        }
        other => panic!("unexpected effect {:?}", other),
    }
    assert!(matches!(app.modal(), ModalState::Closed));
}

#[test]
fn a_shortcut_dispatches_its_action_and_other_letters_do_nothing() {
    let mut app = browsing();
    press(&mut app, ch('j'));
    press(&mut app, key(KeyCode::Enter));
    assert!(matches!(press(&mut app, ch('z')), Effect::Nothing));
    assert!(matches!(app.modal(), ModalState::FileActions { .. }));
    assert!(matches!(press(&mut app, ch('g')), Effect::Nothing));
    assert!(matches!(app.modal(), ModalState::FileActions { .. }));
    assert!(matches!(press(&mut app, ch('d')), Effect::Nothing));
    assert!(matches!(app.modal(), ModalState::Closed));
    assert!(matches!(app.pending_action(), PendingAction::Download { file_id: 2 }));

    let mut app = browsing();
    press(&mut app, ctrl('o'));
    assert!(matches!(press(&mut app, ch('z')), Effect::Nothing));
    assert!(matches!(app.pending_action(), PendingAction::Download { file_id: 1 }));
}

#[test]
fn every_action_does_its_work() {
    let mut app = browsing();
    assert!(matches!(
        execute_file_action(&mut app, "Copy URL", 3, TOKEN),
        Effect::FetchUrl { file_id: 3 }
    ));
    match execute_file_action(&mut app, "Open in browser", -12, TOKEN) {
        Effect::OpenInBrowser { url } => assert_eq!(url, "https://app.put.io/files/-12"),
        other => panic!("unexpected effect {:?}", other),
    }
    match execute_file_action(&mut app, "Copy file ID", 9007199254740993, TOKEN) {
        Effect::CopyToClipboard { text, success_message } => {
            assert_eq!(text, "9007199254740993");
            assert_eq!(success_message, "File ID copied!");
        }
        other => panic!("unexpected effect {:?}", other),
    }
    match execute_file_action(&mut app, "Copy folder ID", 0, TOKEN) {
        Effect::CopyToClipboard { text, success_message } => {
            assert_eq!(text, "0");
            assert_eq!(success_message, "Folder ID copied!");
        }
        other => panic!("unexpected effect {:?}", other),
    }
    assert!(matches!(app.pending_action(), PendingAction::Nothing));
    assert!(matches!(execute_file_action(&mut app, "Download as zip", 1, TOKEN), Effect::Nothing));
    assert!(matches!(app.pending_action(), PendingAction::Download { file_id: 1 }));
    assert!(matches!(execute_file_action(&mut app, "Unknown", 1, TOKEN), Effect::Nothing));
    assert!(matches!(execute_file_action(&mut app, "copy url", 1, TOKEN), Effect::Nothing));
    assert!(matches!(app.pending_action(), PendingAction::Download { file_id: 1 }));
    assert!(matches!(app.modal(), ModalState::Closed));
}

#[test]
fn copy_path_needs_the_entry_in_the_list() {
    let mut app = BrowserApp::new();
    app.set_files(vec![file(5, "movie.mkv", "VIDEO", 77)]);
    assert!(matches!(execute_file_action(&mut app, "Copy path", 5, TOKEN), Effect::Nothing));
    match app.pending_action() {
        PendingAction::CopyPath { file_name, parent_id } => {
            assert_eq!(file_name, "movie.mkv");
            assert_eq!(*parent_id, 77);
        }
        other => panic!("unexpected action {:?}", other),
    }
    assert!(matches!(app.modal(), ModalState::Loading));
    assert_eq!(app.spinner_label(), "Copying path...");

    let mut app = BrowserApp::new();
    app.set_files(vec![]);
    execute_file_action(&mut app, "Copy path", 5, TOKEN);
    assert!(matches!(app.pending_action(), PendingAction::Nothing));
    assert!(
        matches!(app.modal(), ModalState::Error(message) if message == "File not found for path lookup.")
    );
}

#[test]
fn go_to_folder_takes_the_parent_from_the_list() {
    let mut app = BrowserApp::new();
    app.enter_search_results("m", vec![file(5, "movie.mkv", "VIDEO", 77)]);
    press(&mut app, key(KeyCode::Enter));
    press(&mut app, ch('g'));
    assert!(matches!(
        app.pending_action(),
        PendingAction::GoToFolder { parent_id: 77, file_id: 5 }
    ));
    execute_file_action(&mut app, "Go to folder", 6, TOKEN);
    assert!(matches!(
        app.pending_action(),
        PendingAction::GoToFolder { parent_id: 0, file_id: 6 }
    ));
}

#[test]
fn a_new_action_replaces_the_pending_one() {
    let mut app = browsing();
    execute_file_action(&mut app, "Download", 2, TOKEN);
    execute_file_action(&mut app, "Go to folder", 3, TOKEN);
    assert!(matches!(
        app.take_pending_action(),
        PendingAction::GoToFolder { parent_id: 0, file_id: 3 }
    ));
    assert!(matches!(app.take_pending_action(), PendingAction::Nothing));
}

#[test]
fn fetched_url_is_copied_or_the_failure_is_shown() {
    let mut app = browsing();
    match app.finish_fetch_url(Ok("https://x/y".to_string())) {
        Effect::CopyToClipboard { text, success_message } => {
            assert_eq!(text, "https://x/y");
            assert_eq!(success_message, "URL copied!");
        }
        other => panic!("unexpected effect {:?}", other),
    }
    assert!(matches!(app.modal(), ModalState::Closed));
    assert!(matches!(app.finish_fetch_url(Err("timeout".to_string())), Effect::Nothing));
    assert!(
        matches!(app.modal(), ModalState::Error(message) if message == "Failed to get URL: timeout")
    );
}

#[test]
fn clipboard_outcomes_are_shown() {
    let mut app = browsing();
    app.finish_clipboard(ClipboardOutcome::Copied, "Path copied!".to_string());
    assert!(matches!(app.modal(), ModalState::Success(message) if message == "Path copied!"));
    app.finish_clipboard(ClipboardOutcome::Failed("busy".to_string()), "x".to_string());
    assert!(matches!(app.modal(), ModalState::Error(message) if message == "Clipboard error: busy"));
    app.finish_clipboard(ClipboardOutcome::Unavailable("no display".to_string()), "x".to_string());
    assert!(matches!(
        app.modal(),
        ModalState::Error(message) if message == "Clipboard unavailable: no display"
    ));
}

#[test]
fn browser_outcomes_are_shown() {
    let mut app = browsing();
    app.finish_open_in_browser(Ok(()));
    assert!(matches!(app.modal(), ModalState::Success(message) if message == "Opening in browser..."));
    app.finish_open_in_browser(Err("not found".to_string()));
    assert!(matches!(
        app.modal(),
        ModalState::Error(message) if message == "Could not open browser: not found"
    ));
}

#[test]
fn failure_messages_are_joined() {
    assert_eq!(failure_message("Delete failed: ", "denied"), "Delete failed: denied");
    assert_eq!(failure_message("", ""), "");
}

#[test]
fn control_only_means_no_other_modifier() {
    assert!(control().control_only());
    assert!(!plain().control_only());
    assert!(!KeyModifiers { alt: true, ..control() }.control_only());
    assert!(!KeyModifiers { meta: true, ..control() }.control_only());
}

#[test]
fn menu_selection_is_checked() {
    let mut app = browsing();
    assert!(menu_selection_in_range(&app));
    press(&mut app, ch('j'));
    press(&mut app, key(KeyCode::Enter));
    press(&mut app, key(KeyCode::Up));
    assert!(menu_selection_in_range(&app));
    app.set_modal(ModalState::FileActions {
        file_id: 2,
        file_name: "beta.mkv".to_string(),
        file_type: "VIDEO".to_string(),
        selected: 6,
    });
    assert!(!menu_selection_in_range(&app));
    app.set_modal(ModalState::FileActions {
        file_id: 3,
        file_name: "gamma.txt".to_string(),
        file_type: "TEXT".to_string(),
        selected: 4,
    });
    assert!(menu_selection_in_range(&app));
}
