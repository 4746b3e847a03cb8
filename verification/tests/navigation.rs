use putio_browse::app::{BrowserApp, ModalState, PendingAction};
use putio_browse::entry::{Entry, SortDirection, SortField};
use putio_browse::session::AppState;

fn entry(id: i64, name: &str, file_type: &str) -> Entry {
    Entry {
        id,
        name: name.to_string(),
        file_type: file_type.to_string(),
        size: 0,
        created_at: 0,
        updated_at: 0,
        parent_id: 0,
    }
}

fn five() -> Vec<Entry> {
    vec![
        entry(1, "a", "FOLDER"),
        entry(2, "b", "VIDEO"),
        entry(3, "c", "TEXT"),
        entry(4, "d", "PDF"),
        entry(5, "e", "AUDIO"),
    ]
}

fn names(app: &BrowserApp) -> Vec<String> {
    app.files().iter().map(|f| f.name.clone()).collect()
}

fn crumbs(app: &BrowserApp) -> Vec<String> {
    app.breadcrumbs().iter().map(|c| c.name.clone()).collect()
}

#[test]
fn new_session_starts_at_root_and_asks_for_a_listing() {
    let app = BrowserApp::new();
    assert_eq!(app.current_folder_id(), 0);
    assert_eq!(crumbs(&app), vec!["My Files"]);
    assert_eq!(app.breadcrumbs()[0].id, 0);
    assert!(app.files().is_empty());
    assert_eq!(app.selected_index(), 0);
    assert_eq!(app.list_offset(), 0);
    assert_eq!(app.app_state(), AppState::Browsing);
    assert!(matches!(app.modal(), ModalState::Loading));
    assert!(matches!(app.pending_action(), PendingAction::Nothing));
    assert_eq!(app.sort_field(), SortField::Name);
    assert_eq!(app.sort_direction(), SortDirection::Asc);
    assert!(app.needs_reload());
    assert_eq!(app.spinner_label(), "Loading...");
    assert!(app.last_search().is_none());
    assert!(!app.is_search_results());
    assert_eq!(app.pending_select_id(), None);
    assert_eq!(app.tick(), 0);
}

#[test]
fn enter_folder_then_go_back_restores_cursor_and_scroll() {
    let mut app = BrowserApp::new();
    app.set_files(five());
    app.move_down();
    app.move_down();
    app.set_list_offset(1);
    assert_eq!(app.selected_index(), 2);

    app.enter_folder(7, "Docs".to_string());
    assert_eq!(crumbs(&app), vec!["My Files", "Docs"]);
    assert_eq!(app.selected_index(), 0);
    assert_eq!(app.current_folder_id(), 7);
    assert!(app.files().is_empty());
    assert!(matches!(app.modal(), ModalState::Loading));
    assert_eq!(app.breadcrumbs()[0].saved_index, 2);
    assert_eq!(app.breadcrumbs()[0].saved_offset, 1);

    app.set_list_offset(0);
    app.go_back();
    assert_eq!(crumbs(&app), vec!["My Files"]);
    assert_eq!(app.current_folder_id(), 0);
    assert!(matches!(app.modal(), ModalState::Loading));
    assert_eq!(app.selected_index(), 0);

    app.set_files(five());
    assert_eq!(app.selected_index(), 2);
    assert_eq!(app.list_offset(), 1);
    assert!(matches!(app.modal(), ModalState::Closed));
}

#[test]
fn go_back_at_root_changes_nothing() {
    let mut app = BrowserApp::new();
    app.set_files(five());
    app.move_down();
    app.go_back();
    assert_eq!(crumbs(&app), vec!["My Files"]);
    assert_eq!(app.selected_index(), 1);
    assert_eq!(app.files().len(), 5);
    assert!(matches!(app.modal(), ModalState::Closed));
}

#[test]
fn restored_cursor_is_clamped_to_a_shorter_list() {
    let mut app = BrowserApp::new();
    app.set_files(five());
    app.move_page_down();
    assert_eq!(app.selected_index(), 4);
    app.set_list_offset(3);
    app.save_position_for_reload();
    app.set_files(vec![entry(1, "a", "TEXT"), entry(2, "b", "TEXT")]);
    assert_eq!(app.selected_index(), 1);
    assert_eq!(app.list_offset(), 1);
    app.save_position_for_reload();
    app.set_files(vec![]);
    assert_eq!(app.selected_index(), 0);
    assert_eq!(app.list_offset(), 0);
}

#[test]
fn search_results_push_once_and_are_replaced_in_place() {
    let mut app = BrowserApp::new();
    app.set_files(five());
    app.move_down();
    app.enter_search_results("foo", vec![entry(10, "e1", "TEXT"), entry(11, "e2", "TEXT")]);
    assert_eq!(crumbs(&app), vec!["My Files", "Search: foo"]);
    assert_eq!(app.breadcrumbs()[1].id, -1);
    assert_eq!(app.breadcrumbs()[0].saved_index, 1);
    assert!(app.is_search_results());
    assert_eq!(names(&app), vec!["e1", "e2"]);
    assert_eq!(app.selected_index(), 0);
    assert!(matches!(app.modal(), ModalState::Closed));

    app.move_down();
    app.enter_search_results("bar", vec![entry(12, "e3", "TEXT")]);
    assert_eq!(crumbs(&app), vec!["My Files", "Search: bar"]);
    assert_eq!(app.breadcrumbs()[0].saved_index, 1);
    assert_eq!(names(&app), vec!["e3"]);
    assert_eq!(app.selected_index(), 0);
    assert_eq!(app.list_offset(), 0);
}

#[test]
fn search_results_are_put_in_order_like_a_listing() {
    let mut app = BrowserApp::new();
    app.enter_search_results("x", vec![entry(1, "b", "TEXT"), entry(2, "a", "TEXT")]);
    assert_eq!(names(&app), vec!["a", "b"]);
    app.toggle_sort_direction();
    assert_eq!(names(&app), vec!["b", "a"]);
    app.toggle_sort_direction();
    assert_eq!(names(&app), vec!["a", "b"]);
    app.enter_search_results("y", vec![entry(3, "c", "TEXT"), entry(4, "D", "TEXT")]);
    assert_eq!(names(&app), vec!["c", "D"]);
    app.toggle_sort_direction();
    app.enter_search_results("z", vec![entry(3, "c", "TEXT"), entry(4, "D", "TEXT")]);
    assert_eq!(names(&app), vec!["D", "c"]);
}

#[test]
fn go_back_from_search_results_leaves_search_mode() {
    let mut app = BrowserApp::new();
    app.set_files(five());
    app.enter_search_results("foo", vec![entry(10, "e1", "TEXT")]);
    app.go_back();
    assert!(!app.is_search_results());
    assert_eq!(crumbs(&app), vec!["My Files"]);
    assert_eq!(app.current_folder_id(), 0);
}

#[test]
fn reset_to_root_truncates_and_zeroes_the_saved_position() {
    let mut app = BrowserApp::new();
    app.set_files(five());
    app.move_down();
    app.enter_folder(7, "Docs".to_string());
    app.enter_search_results("q", vec![]);
    assert_eq!(app.breadcrumbs().len(), 3);
    app.reset_to_root();
    assert_eq!(crumbs(&app), vec!["My Files"]);
    assert_eq!(app.breadcrumbs()[0].saved_index, 0);
    assert_eq!(app.breadcrumbs()[0].saved_offset, 0);
    assert!(!app.is_search_results());
    assert_eq!(app.current_folder_id(), 0);
}

#[test]
fn navigate_to_folder_pushes_a_placeholder_and_selects_after_load() {
    let mut app = BrowserApp::new();
    app.enter_search_results("q", vec![entry(3, "c", "TEXT")]);
    app.navigate_to_folder(42, 3);
    assert_eq!(crumbs(&app), vec!["My Files", "..."]);
    assert_eq!(app.breadcrumbs()[1].id, 42);
    assert_eq!(app.current_folder_id(), 42);
    assert_eq!(app.pending_select_id(), Some(3));
    assert!(app.files().is_empty());
    assert!(matches!(app.modal(), ModalState::Loading));

    app.set_files(five());
    assert_eq!(app.selected_index(), 2);
    assert_eq!(app.pending_select_id(), None);
}

#[test]
fn navigate_to_root_pushes_nothing() {
    let mut app = BrowserApp::new();
    app.enter_folder(7, "Docs".to_string());
    app.navigate_to_folder(0, 9);
    assert_eq!(crumbs(&app), vec!["My Files"]);
    assert_eq!(app.current_folder_id(), 0);
    app.set_files(five());
    assert_eq!(app.selected_index(), 0);
}

#[test]
fn set_folder_name_renames_only_the_current_folder() {
    let mut app = BrowserApp::new();
    app.set_folder_name("Other".to_string());
    assert_eq!(crumbs(&app), vec!["My Files"]);
    app.navigate_to_folder(42, 3);
    app.set_folder_name("Movies".to_string());
    assert_eq!(crumbs(&app), vec!["My Files", "Movies"]);
}

#[test]
fn cursor_moves_are_clamped() {
    let mut app = BrowserApp::new();
    app.move_up();
    app.move_down();
    app.move_page_down();
    app.move_page_up();
    assert_eq!(app.selected_index(), 0);
    app.set_files(five());
    app.move_up();
    assert_eq!(app.selected_index(), 0);
    for _ in 0..7 {
        app.move_down();
    }
    assert_eq!(app.selected_index(), 4);
    app.move_page_up();
    assert_eq!(app.selected_index(), 0);
    let many: Vec<Entry> = (0..25).map(|i| entry(i, &format!("f{:02}", i), "TEXT")).collect();
    app.set_files(many);
    app.move_page_down();
    assert_eq!(app.selected_index(), 10);
    app.move_page_down();
    app.move_page_down();
    assert_eq!(app.selected_index(), 24);
    app.move_page_up();
    assert_eq!(app.selected_index(), 14);
}

#[test]
fn selected_file_follows_the_cursor() {
    let mut app = BrowserApp::new();
    assert!(app.selected_file().is_none());
    app.set_files(five());
    app.move_down();
    assert_eq!(app.selected_file().unwrap().id, 2);
    assert_eq!(app.entry_with_id(4).unwrap().name, "d");
    assert!(app.entry_with_id(99).is_none());
}

#[test]
fn tick_wraps_round() {
    let mut app = BrowserApp::new();
    for _ in 0..255 {
        app.advance_tick();
    }
    assert_eq!(app.tick(), 255);
    app.advance_tick();
    assert_eq!(app.tick(), 0);
}

#[test]
fn pending_slot_holds_one_action() {
    let mut app = BrowserApp::new();
    app.set_pending_action(PendingAction::Delete { file_id: 1 });
    app.set_pending_action(PendingAction::Download { file_id: 2 });
    assert!(matches!(app.take_pending_action(), PendingAction::Download { file_id: 2 }));
    assert!(matches!(app.pending_action(), PendingAction::Nothing));
    assert!(matches!(app.take_pending_action(), PendingAction::Nothing));
}
