use pfman::models::{Session, SessionStatus, SessionType};
use pfman::time::Timestamp;
use pfman::ui::dashboard::{
    cursor_fits, cursor_visible, popup_area, status_text, with_cursor, Area,
};
use pfman::ui::logs_viewer::{header_height, log_text, log_title, scroll_offset};
use pfman::ui::session_form::FormState;
use pfman::ui::{AppAction, AppState, FormMode, Key, KeyCode, Screen};

fn session(id: u128, name: &str, target: &str, local: u16, remote: Option<u16>) -> Session {
    Session::with_identity(
        id,
        Timestamp { nanos: 0 },
        name.to_string(),
        SessionType::SSH,
        target.to_string(),
        local,
        remote,
    )
}

fn app() -> AppState {
    AppState::new(vec![
        session(1, "Web", "host1", 8080, Some(80)),
        session(2, "db", "WEBHOST", 5432, Some(5432)),
        session(3, "proxy", "jump", 1080, None),
    ])
}

fn key(code: KeyCode) -> Key {
    Key { code, control: false }
}

fn press(a: &mut AppState, code: KeyCode) -> AppAction {
    let k = key(code);
    assert!(a.accepts_on_dashboard(k));
    a.handle_dashboard_key(k)
}

#[test]
fn app_starts_on_the_dashboard() {
    let a = app();
    assert_eq!(a.current_screen, Screen::Dashboard);
    assert_eq!(a.selected_index, 0);
    assert_eq!(a.search_query, "");
    assert!(!a.search_mode);
    assert_eq!(a.delete_confirmation, None);
    assert_eq!(a.sessions.len(), 3);
}

#[test]
fn search_looks_at_name_target_and_ports() {
    let mut a = app();
    assert_eq!(a.filtered_sessions(), vec![0, 1, 2]);
    a.search_query = "web".to_string();
    assert_eq!(a.filtered_sessions(), vec![0, 1]);
    a.search_query = "80".to_string();
    assert_eq!(a.filtered_sessions(), vec![0, 2]);
    a.search_query = "5432".to_string();
    assert_eq!(a.filtered_sessions(), vec![1]);
    a.search_query = "JUMP".to_string();
    assert_eq!(a.filtered_sessions(), vec![2]);
    a.search_query = "nothing".to_string();
    assert!(a.filtered_sessions().is_empty());
    assert_eq!(a.selected_session(), None);
    a.search_query = "db".to_string();
    assert_eq!(a.selected_session(), Some(1));
}

#[test]
fn selection_moves_around_the_list() {
    let mut a = app();
    a.move_selection(-1);
    assert_eq!(a.selected_index, 2);
    a.move_selection(1);
    assert_eq!(a.selected_index, 0);
    a.search_query = "nothing".to_string();
    a.selected_index = 1;
    a.move_selection(1);
    assert_eq!(a.selected_index, 1);
}

#[test]
fn deletion_is_asked_then_done() {
    let mut a = app();
    a.selected_index = 1;
    assert_eq!(press(&mut a, KeyCode::Char('d')), AppAction::Idle);
    assert_eq!(a.delete_confirmation, Some(1));
    assert_eq!(press(&mut a, KeyCode::Char('x')), AppAction::Idle);
    assert_eq!(a.delete_confirmation, Some(1));
    assert_eq!(press(&mut a, KeyCode::Char('n')), AppAction::Idle);
    assert_eq!(a.delete_confirmation, None);
    assert_eq!(a.sessions.len(), 3);
    press(&mut a, KeyCode::Char('d'));
    assert_eq!(press(&mut a, KeyCode::Enter), AppAction::Persist);
    assert_eq!(a.sessions.len(), 2);
    assert_eq!(a.sessions[1].name, "proxy");
    assert_eq!(a.selected_index, 0);
    assert_eq!(a.delete_confirmation, None);
    assert!(!a.confirm_delete());
    a.delete_confirmation = Some(5);
    assert!(!a.accepts_on_dashboard(key(KeyCode::Char('y'))));
    assert!(a.accepts_on_dashboard(key(KeyCode::Esc)));
    a.cancel_delete();
    assert_eq!(a.delete_confirmation, None);
}

#[test]
fn search_is_typed_on_the_dashboard() {
    let mut a = app();
    assert_eq!(press(&mut a, KeyCode::Char('/')), AppAction::Idle);
    assert!(a.search_mode);
    press(&mut a, KeyCode::Char('q'));
    press(&mut a, KeyCode::Char('w'));
    assert_eq!(a.search_query, "qw");
    assert_eq!(a.search_cursor_pos, 2);
    press(&mut a, KeyCode::Backspace);
    assert_eq!(a.search_query, "q");
    press(&mut a, KeyCode::Up);
    assert_eq!(a.selected_index, 0);
    press(&mut a, KeyCode::Enter);
    assert!(!a.search_mode);
    assert_eq!(a.search_query, "q");
    press(&mut a, KeyCode::Char('/'));
    press(&mut a, KeyCode::Esc);
    assert!(!a.search_mode);
    assert_eq!(a.search_query, "");
    assert_eq!(a.search_cursor_pos, 0);
    a.search_mode = true;
    a.search_query = "é".to_string();
    a.search_cursor_pos = 1;
    assert!(!a.accepts_on_dashboard(key(KeyCode::Char('x'))));
    assert!(a.accepts_on_dashboard(key(KeyCode::Backspace)));
    a.search_cursor_pos = 2;
    assert!(!a.accepts_on_dashboard(key(KeyCode::Backspace)));
    a.search_cursor_pos = 0;
    assert!(a.accepts_on_dashboard(key(KeyCode::Backspace)));
    press(&mut a, KeyCode::Backspace);
    assert_eq!(a.search_query, "é");
}

#[test]
fn dashboard_keys_name_what_to_do() {
    let mut a = app();
    assert_eq!(press(&mut a, KeyCode::Char('q')), AppAction::Quit);
    let ctrl_c = Key { code: KeyCode::Char('c'), control: true };
    assert_eq!(a.handle_dashboard_key(ctrl_c), AppAction::Quit);
    assert_eq!(a.current_screen, Screen::Dashboard);
    assert_eq!(press(&mut a, KeyCode::Down), AppAction::Idle);
    assert_eq!(a.selected_index, 1);
    assert_eq!(press(&mut a, KeyCode::Char('s')), AppAction::ToggleSession(1));
    assert_eq!(press(&mut a, KeyCode::Char('l')), AppAction::Idle);
    assert_eq!(a.current_screen, Screen::LogsViewer(1));
    a.current_screen = Screen::Dashboard;
    assert_eq!(press(&mut a, KeyCode::Char('e')), AppAction::EditSession(1));
    assert_eq!(a.current_screen, Screen::SessionForm(FormMode::Edit(1)));
    a.current_screen = Screen::Dashboard;
    assert_eq!(press(&mut a, KeyCode::Char('c')), AppAction::CreateSession);
    assert_eq!(a.current_screen, Screen::SessionForm(FormMode::Create));
    a.current_screen = Screen::Dashboard;
    assert_eq!(press(&mut a, KeyCode::Char('C')), AppAction::Idle);
    assert_eq!(press(&mut a, KeyCode::Tab), AppAction::Idle);
    a.search_query = "nothing".to_string();
    assert_eq!(press(&mut a, KeyCode::Char('s')), AppAction::Idle);
    assert_eq!(press(&mut a, KeyCode::Char('e')), AppAction::Idle);
    assert_eq!(press(&mut a, KeyCode::Char('d')), AppAction::Idle);
    assert_eq!(a.delete_confirmation, None);
    assert_eq!(a.current_screen, Screen::Dashboard);
}

#[test]
fn log_viewer_keys_name_what_to_do() {
    let mut a = app();
    a.current_screen = Screen::LogsViewer(2);
    assert_eq!(a.handle_logs_key(key(KeyCode::Char('r'))), AppAction::RestartSession(2));
    assert_eq!(a.handle_logs_key(key(KeyCode::Char('s'))), AppAction::ToggleSession(2));
    assert_eq!(a.selected_index, 2);
    assert_eq!(a.handle_logs_key(key(KeyCode::Char('x'))), AppAction::Idle);
    assert_eq!(a.handle_logs_key(key(KeyCode::Char('e'))), AppAction::EditSession(2));
    assert_eq!(a.current_screen, Screen::SessionForm(FormMode::Edit(2)));
    a.current_screen = Screen::LogsViewer(7);
    assert_eq!(a.handle_logs_key(key(KeyCode::Char('r'))), AppAction::Idle);
    assert_eq!(a.handle_logs_key(key(KeyCode::Char('s'))), AppAction::Idle);
    assert_eq!(a.selected_index, 7);
    assert_eq!(a.handle_logs_key(key(KeyCode::Esc)), AppAction::Idle);
    assert_eq!(a.current_screen, Screen::Dashboard);
    assert_eq!(a.handle_logs_key(key(KeyCode::Char('s'))), AppAction::Idle);
    assert_eq!(a.selected_index, 7);
}

#[test]
fn saving_a_new_session_adds_it() {
    let mut a = app();
    a.current_screen = Screen::SessionForm(FormMode::Create);
    let mut f = FormState::new(Vec::new(), String::new(), Vec::new(), Vec::new());
    f.name = "new".to_string();
    f.target = "t".to_string();
    f.local_port = "1".to_string();
    assert!(!a.save_form(&f));
    assert_eq!(a.sessions.len(), 3);
    assert_eq!(a.current_screen, Screen::SessionForm(FormMode::Create));
    f.remote_port = "2".to_string();
    assert!(a.save_form(&f));
    assert_eq!(a.sessions.len(), 4);
    assert_eq!(a.sessions[3].name, "new");
    assert_eq!(a.sessions[3].remote_port, Some(2));
    assert_eq!(a.sessions[3].status, SessionStatus::Stopped);
    assert_eq!(a.current_screen, Screen::Dashboard);
}

#[test]
fn saving_an_edited_session_keeps_its_state() {
    let mut a = app();
    a.sessions[1].status = SessionStatus::Running;
    a.sessions[1].pid = Some(9);
    a.current_screen = Screen::SessionForm(FormMode::Edit(1));
    let mut f = FormState::from_session(&a.sessions[1], Vec::new(), String::new(), Vec::new());
    f.name = "renamed".to_string();
    f.local_port = "6543".to_string();
    f.session_type = SessionType::Socks5;
    assert!(a.save_form(&f));
    assert_eq!(a.sessions.len(), 3);
    assert_eq!(a.sessions[1].id, 2);
    assert_eq!(a.sessions[1].name, "renamed");
    assert_eq!(a.sessions[1].local_port, 6543);
    assert_eq!(a.sessions[1].remote_port, None);
    assert_eq!(a.sessions[1].session_type, SessionType::Socks5);
    assert_eq!(a.sessions[1].status, SessionStatus::Running);
    assert_eq!(a.sessions[1].pid, Some(9));
    assert_eq!(a.current_screen, Screen::Dashboard);
    a.current_screen = Screen::SessionForm(FormMode::Edit(9));
    assert!(a.save_form(&f));
    assert_eq!(a.sessions.len(), 3);
}

#[test]
fn status_text_shortens_long_messages() {
    assert_eq!(status_text(&SessionStatus::Running), "Running");
    assert_eq!(status_text(&SessionStatus::Stopped), "Stopped");
    assert_eq!(status_text(&SessionStatus::Error("boom".to_string())), "Error: boom");
    let thirty = "a".repeat(30);
    assert_eq!(status_text(&SessionStatus::Error(thirty.clone())), format!("Error: {}", thirty));
    let longer = format!("{}{}", "b".repeat(27), "cccc");
    assert_eq!(
        status_text(&SessionStatus::Error(longer)),
        format!("Error: {}...", "b".repeat(27))
    );
    let accents = "é".repeat(31);
    assert_eq!(
        status_text(&SessionStatus::Error(accents)),
        format!("Error: {}...", "é".repeat(27))
    );
}

#[test]
fn cursor_blinks_every_half_second() {
    assert!(cursor_visible(0));
    assert!(cursor_visible(499));
    assert!(!cursor_visible(500));
    assert!(!cursor_visible(999));
    assert!(cursor_visible(1000));
}

#[test]
fn cursor_is_drawn_where_it_stands() {
    assert_eq!(with_cursor("abc", 1), "a█bc");
    assert_eq!(with_cursor("abc", 3), "abc█");
    assert_eq!(with_cursor("abc", 99), "abc█");
    assert_eq!(with_cursor("", 0), "█");
    assert!(cursor_fits("é", 0));
    assert!(!cursor_fits("é", 1));
    assert!(cursor_fits("é", 2));
    assert!(cursor_fits("é", 3));
}

#[test]
fn table_title_shows_count_or_search() {
    let mut a = app();
    assert_eq!(a.table_title(true), "Sessions (3)");
    a.search_query = "web".to_string();
    assert_eq!(a.table_title(false), "Sessions (2)");
    a.search_mode = true;
    a.search_cursor_pos = 1;
    assert_eq!(a.table_title(true), "Sessions (Search: w█eb)");
    assert_eq!(a.table_title(false), "Sessions (Search: web)");
}

#[test]
fn popup_is_centred() {
    let full = popup_area(Area { x: 0, y: 0, width: 100, height: 40 });
    assert_eq!(full, Area { x: 25, y: 16, width: 50, height: 7 });
    let narrow = popup_area(Area { x: 2, y: 3, width: 30, height: 5 });
    assert_eq!(narrow, Area { x: 4, y: 3, width: 26, height: 7 });
    let tiny = popup_area(Area { x: 0, y: 0, width: 4, height: 0 });
    assert_eq!(tiny, Area { x: 2, y: 0, width: 0, height: 7 });
}

#[test]
fn log_viewer_header_grows_for_errors() {
    let mut s = session(1, "n", "t", 1, None);
    assert_eq!(header_height(&s), 5);
    assert_eq!(log_title(&s), "Logs (Historical)");
    s.status = SessionStatus::Running;
    assert_eq!(header_height(&s), 5);
    assert_eq!(log_title(&s), "Logs (Live)");
    s.status = SessionStatus::Error("x".to_string());
    assert_eq!(header_height(&s), 6);
    assert_eq!(log_title(&s), "Logs (Error)");
}

#[test]
fn empty_log_is_explained() {
    let mut s = session(1, "n", "t", 1, None);
    assert_eq!(log_text(&s, Some("line\n".to_string())), "line\n");
    assert_eq!(log_text(&s, None), "Failed to read logs");
    assert_eq!(
        log_text(&s, Some(String::new())),
        "Session has never been started. No logs available."
    );
    s.last_started = Some(Timestamp { nanos: 1 });
    assert_eq!(log_text(&s, Some(String::new())), "Session was stopped. No logs were generated.");
    s.status = SessionStatus::Running;
    assert_eq!(log_text(&s, Some(String::new())), "Session is running but no output yet...");
    s.status = SessionStatus::Error("e".to_string());
    assert_eq!(
        log_text(&s, Some(String::new())),
        "Session failed. Check error message above or logs may be empty."
    );
}

#[test]
fn log_is_scrolled_to_its_end() {
    assert_eq!(scroll_offset("a\nb\nc\nd\ne\n", 5), 2);
    assert_eq!(scroll_offset("a\nb", 10), 0);
    assert_eq!(scroll_offset("a\nb\nc", 0), 3);
    assert_eq!(scroll_offset("a\nb\nc", 1), 3);
    assert_eq!(scroll_offset("", 2), 0);
    let long = "x\n".repeat(65_537);
    assert_eq!(scroll_offset(&long, 2), 1);
}
