//! The dashboard: what its keys do, and the texts it shows.

use crate::models::{SessionStatus, StatusView};
use crate::text::{
    at_boundary, byte_len, decimal, decimal_text, insert_char, inserted, on_boundary, remove_char,
    removed,
};
use crate::ui::{AppAction, AppState, AppView, FormMode, Key, KeyCode, Screen};
use vstd::prelude::*;
use vstd::string::*;

verus! {

/// The key says yes to the deletion in question.
pub open spec fn says_yes(key: Key) -> bool {
    key.code == KeyCode::Char('y') || key.code == KeyCode::Char('Y') || key.code == KeyCode::Enter
}

/// The key says no to the deletion in question.
pub open spec fn says_no(key: Key) -> bool {
    key.code == KeyCode::Char('n') || key.code == KeyCode::Char('N') || key.code == KeyCode::Esc
}

/// The key ends the program: Control with the letter C, or the letter q.
pub open spec fn quits(key: Key) -> bool {
    (key.control && (key.code == KeyCode::Char('c') || key.code == KeyCode::Char('C')))
        || key.code == KeyCode::Char('q')
}

impl AppView {
    /// The key is typed into the search.
    pub open spec fn types_into_search(self, key: Key) -> bool {
        self.delete_confirmation is None && self.search_mode && key.code is Char
    }

    /// The key erases from the search.
    pub open spec fn erases_from_search(self, key: Key) -> bool {
        self.delete_confirmation is None && self.search_mode && key.code == KeyCode::Backspace
            && self.search_cursor_pos > 0
    }

    /// The dashboard can carry the key out: a deletion that is confirmed
    /// names a session that exists, and the cursor of the search stands
    /// where a character can go in or out.
    pub open spec fn accepts_on_dashboard(self, key: Key) -> bool {
        &&& self.delete_confirmation matches Some(at) ==> (says_yes(key) ==> at
            < self.sessions.len())
        &&& self.types_into_search(key) ==> on_boundary(
            self.search_query,
            self.search_cursor_pos as int,
        ) && self.search_cursor_pos < usize::MAX
        &&& self.erases_from_search(key) ==> on_boundary(
            self.search_query,
            self.search_cursor_pos - 1,
        ) && self.search_cursor_pos - 1 < byte_len(self.search_query) as usize
    }

    /// The state after a key press while a deletion is in question.
    pub open spec fn after_answer(self, key: Key) -> AppView {
        if says_yes(key) {
            self.with_deletion()
        } else if says_no(key) {
            AppView { delete_confirmation: None, ..self }
        } else {
            self
        }
    }

    /// The state after a key press while the search is being typed.
    pub open spec fn after_search_key(self, key: Key) -> AppView {
        match key.code {
            KeyCode::Esc => AppView {
                search_mode: false,
                search_query: Seq::empty(),
                search_cursor_pos: 0,
                ..self
            },
            KeyCode::Enter => AppView { search_mode: false, ..self },
            KeyCode::Char(c) => AppView {
                search_query: inserted(self.search_query, self.search_cursor_pos as int, c),
                search_cursor_pos: (self.search_cursor_pos + 1) as usize,
                ..self
            },
            KeyCode::Backspace => if self.search_cursor_pos > 0 {
                AppView {
                    search_query: removed(self.search_query, self.search_cursor_pos - 1),
                    search_cursor_pos: (self.search_cursor_pos - 1) as usize,
                    ..self
                }
            } else {
                self
            },
            _ => self,
        }
    }

    /// The state after a key press on the plain dashboard.
    pub open spec fn after_command(self, key: Key) -> AppView {
        if quits(key) {
            self
        } else {
            match key.code {
                KeyCode::Up => self.with_moved_selection(-1i32),
                KeyCode::Down => self.with_moved_selection(1i32),
                KeyCode::Char(c) => if c == 'c' {
                    AppView { current_screen: Screen::SessionForm(FormMode::Create), ..self }
                } else if c == 'e' {
                    match self.selected() {
                        Some(at) => AppView {
                            current_screen: Screen::SessionForm(FormMode::Edit(at)),
                            ..self
                        },
                        None => self,
                    }
                } else if c == 'd' {
                    match self.selected() {
                        Some(at) => AppView { delete_confirmation: Some(at), ..self },
                        None => self,
                    }
                } else if c == 'l' {
                    match self.selected() {
                        Some(at) => AppView { current_screen: Screen::LogsViewer(at), ..self },
                        None => self,
                    }
                } else if c == '/' {
                    AppView { search_mode: true, ..self }
                } else {
                    self
                },
                _ => self,
            }
        }
    }

    /// The state after a key press on the dashboard.
    pub open spec fn after_dashboard_key(self, key: Key) -> AppView {
        if self.delete_confirmation is Some {
            self.after_answer(key)
        } else if self.search_mode {
            self.after_search_key(key)
        } else {
            self.after_command(key)
        }
    }

    /// What the caller is to do after a key press on the dashboard.
    pub open spec fn dashboard_action(self, key: Key) -> AppAction {
        if self.delete_confirmation is Some {
            if says_yes(key) {
                AppAction::Persist
            } else {
                AppAction::Idle
            }
        } else if self.search_mode {
            AppAction::Idle
        } else if quits(key) {
            AppAction::Quit
        } else {
            match key.code {
                KeyCode::Char(c) => if c == 'c' {
                    AppAction::CreateSession
                } else if c == 'e' {
                    match self.selected() {
                        Some(at) => AppAction::EditSession(at),
                        None => AppAction::Idle,
                    }
                } else if c == 's' {
                    match self.selected() {
                        Some(at) => AppAction::ToggleSession(at),
                        None => AppAction::Idle,
                    }
                } else {
                    AppAction::Idle
                },
                _ => AppAction::Idle,
            }
        }
    }
}

/// Whether the key says yes.
fn is_yes(key: Key) -> (b: bool)
    ensures
        b == says_yes(key),
{
    match key.code {
        KeyCode::Char(c) => c == 'y' || c == 'Y',
        KeyCode::Enter => true,
        _ => false,
    }
}

/// Whether the key says no.
fn is_no(key: Key) -> (b: bool)
    ensures
        b == says_no(key),
{
    match key.code {
        KeyCode::Char(c) => c == 'n' || c == 'N',
        KeyCode::Esc => true,
        _ => false,
    }
}

/// Whether the key ends the program.
fn is_quit(key: Key) -> (b: bool)
    ensures
        b == quits(key),
{
    match key.code {
        KeyCode::Char(c) => (key.control && (c == 'c' || c == 'C')) || c == 'q',
        _ => false,
    }
}

impl AppState {
    /// Whether the dashboard can carry the key out. A key for which this
    /// does not hold must not be given to
    /// [`AppState::handle_dashboard_key`].
    pub fn accepts_on_dashboard(&self, key: Key) -> (b: bool)
        ensures
            b == self@.accepts_on_dashboard(key),
    {
        let deletion = match self.delete_confirmation {
            Some(at) => !is_yes(key) || at < self.sessions.len(),
            None => true,
        };
        let searching = self.delete_confirmation.is_none() && self.search_mode;
        let typing = match key.code {
            KeyCode::Char(_) => !searching || (at_boundary(
                self.search_query.as_str(),
                self.search_cursor_pos,
            ) && self.search_cursor_pos < usize::MAX),
            _ => true,
        };
        let erasing = if searching && key.code == KeyCode::Backspace && self.search_cursor_pos > 0 {
            at_boundary(self.search_query.as_str(), self.search_cursor_pos - 1)
                && self.search_cursor_pos - 1 < self.search_query.as_str().len()
        } else {
            true
        };
        deletion && typing && erasing
    }

    /// Takes a key press on the dashboard and says what the caller is to
    /// do.
    pub fn handle_dashboard_key(&mut self, key: Key) -> (r: AppAction)
        requires
            old(self)@.accepts_on_dashboard(key),
        ensures
            final(self)@ == old(self)@.after_dashboard_key(key),
            r == old(self)@.dashboard_action(key),
    {
        if self.delete_confirmation.is_some() {
            if is_yes(key) {
                self.confirm_delete();
                AppAction::Persist
            } else if is_no(key) {
                self.cancel_delete();
                AppAction::Idle
            } else {
                AppAction::Idle
            }
        } else if self.search_mode {
            match key.code {
                KeyCode::Esc => {
                    self.search_mode = false;
                    self.search_query = String::new();
                    self.search_cursor_pos = 0;
                },
                KeyCode::Enter => {
                    self.search_mode = false;
                },
                KeyCode::Char(c) => {
                    insert_char(&mut self.search_query, self.search_cursor_pos, c);
                    self.search_cursor_pos = self.search_cursor_pos + 1;
                },
                KeyCode::Backspace => {
                    if self.search_cursor_pos > 0 {
                        remove_char(&mut self.search_query, self.search_cursor_pos - 1);
                        self.search_cursor_pos = self.search_cursor_pos - 1;
                    }
                },
                _ => {},
            }
            AppAction::Idle
        } else if is_quit(key) {
            AppAction::Quit
        } else {
            match key.code {
                KeyCode::Up => {
                    self.move_selection(-1);
                    AppAction::Idle
                },
                KeyCode::Down => {
                    self.move_selection(1);
                    AppAction::Idle
                },
                KeyCode::Char(c) => {
                    if c == 'c' {
                        self.current_screen = Screen::SessionForm(FormMode::Create);
                        AppAction::CreateSession
                    } else if c == 'e' {
                        match self.selected_session() {
                            Some(at) => {
                                self.current_screen = Screen::SessionForm(FormMode::Edit(at));
                                AppAction::EditSession(at)
                            },
                            None => AppAction::Idle,
                        }
                    } else if c == 'd' {
                        self.delete_session();
                        AppAction::Idle
                    } else if c == 's' {
                        match self.selected_session() {
                            Some(at) => AppAction::ToggleSession(at),
                            None => AppAction::Idle,
                        }
                    } else if c == 'l' {
                        match self.selected_session() {
                            Some(at) => {
                                self.current_screen = Screen::LogsViewer(at);
                            },
                            None => {},
                        }
                        AppAction::Idle
                    } else if c == '/' {
                        self.search_mode = true;
                        AppAction::Idle
                    } else {
                        AppAction::Idle
                    }
                },
                _ => AppAction::Idle,
            }
        }
    }
}


/// The block that marks the cursor in a text.
pub const CURSOR_MARK: char = '█';

/// The longest error message the table shows in full, in characters.
pub const MESSAGE_LIMIT: usize = 30;

/// The width of the question whether to delete, where the screen allows
/// it.
pub const POPUP_WIDTH: u16 = 50;

/// The height of the question whether to delete.
pub const POPUP_HEIGHT: u16 = 7;

/// A rectangle of the screen.
#[derive(Debug, Clone, Copy, PartialEq, Eq, Structural)]
pub struct Area {
    pub x: u16,
    pub y: u16,
    pub width: u16,
    pub height: u16,
}

/// An error message as the table shows it: cut to 27 characters and an
/// ellipsis where it has more than [`MESSAGE_LIMIT`].
pub open spec fn shortened(message: Seq<char>) -> Seq<char> {
    if message.len() > MESSAGE_LIMIT {
        message.take(MESSAGE_LIMIT - 3) + "..."@
    } else {
        message
    }
}

/// The status of a session as the table shows it.
pub open spec fn status_text_of(status: StatusView) -> Seq<char> {
    match status {
        StatusView::Running => "Running"@,
        StatusView::Stopped => "Stopped"@,
        StatusView::Error(message) => "Error: "@ + shortened(message),
    }
}

/// Whether the blinking cursor shows at `millis` milliseconds of the
/// clock: it shows for half a second, then hides for half a second.
pub open spec fn cursor_shows_at(millis: u128) -> bool {
    (millis / 500) % 2 == 0
}

/// Where the cursor is drawn in a text: where it stands, or at the end of
/// the text if it stands beyond.
pub open spec fn drawn_at(text: Seq<char>, cursor: usize) -> usize {
    if cursor <= byte_len(text) as usize {
        cursor
    } else {
        byte_len(text) as usize
    }
}

/// A text with the cursor drawn in.
pub open spec fn with_cursor_drawn(text: Seq<char>, cursor: usize) -> Seq<char> {
    inserted(text, drawn_at(text, cursor) as int, CURSOR_MARK)
}

/// The title over the table of sessions: the search while one is typed,
/// with the cursor while it shows, else the number of sessions listed.
pub open spec fn table_title_of(state: AppView, cursor_shows: bool) -> Seq<char> {
    if state.search_mode {
        "Sessions (Search: "@ + (if cursor_shows {
            with_cursor_drawn(state.search_query, state.search_cursor_pos)
        } else {
            state.search_query
        }) + ")"@
    } else {
        "Sessions ("@ + decimal(state.listed().len()) + ")"@
    }
}

/// Where the question whether to delete is drawn on a screen: centred, at
/// most [`POPUP_WIDTH`] wide and four columns narrower than the screen.
pub open spec fn popup_in(area: Area) -> Area {
    let width = if area.width - 4 < POPUP_WIDTH {
        (area.width - 4) as u16
    } else {
        POPUP_WIDTH
    };
    let down = if area.height >= POPUP_HEIGHT {
        (area.height - POPUP_HEIGHT) / 2
    } else {
        0
    };
    Area {
        x: (area.x + (area.width - width) / 2) as u16,
        y: (area.y + down) as u16,
        width,
        height: POPUP_HEIGHT,
    }
}

/// The status of a session as the table shows it.
pub fn status_text(status: &SessionStatus) -> (r: String)
    ensures
        r@ == status_text_of(status@),
{
    match status {
        SessionStatus::Running => String::from_str("Running"),
        SessionStatus::Stopped => String::from_str("Stopped"),
        SessionStatus::Error(message) => {
            let mut out = String::from_str("Error: ");
            if message.as_str().unicode_len() > MESSAGE_LIMIT {
                out.append(message.as_str().substring_char(0, MESSAGE_LIMIT - 3));
                out.append("...");
                assert(message@.subrange(0, MESSAGE_LIMIT - 3) =~= message@.take(MESSAGE_LIMIT - 3));
            } else {
                out.append(message.as_str());
            }
            out
        },
    }
}

/// Whether the blinking cursor shows at `millis` milliseconds of the
/// clock.
pub fn cursor_visible(millis: u128) -> (b: bool)
    ensures
        b == cursor_shows_at(millis),
{
    (millis / 500) % 2 == 0
}

/// Whether the cursor can be drawn into `text`: the place where it is
/// drawn lies on a boundary of the text.
pub fn cursor_fits(text: &str, cursor: usize) -> (b: bool)
    ensures
        b == on_boundary(text@, drawn_at(text@, cursor) as int),
{
    let at = if cursor <= text.len() {
        cursor
    } else {
        text.len()
    };
    at_boundary(text, at)
}

/// A text with the cursor drawn in where it stands.
pub fn with_cursor(text: &str, cursor: usize) -> (r: String)
    requires
        on_boundary(text@, drawn_at(text@, cursor) as int),
    ensures
        r@ == with_cursor_drawn(text@, cursor),
{
    let at = if cursor <= text.len() {
        cursor
    } else {
        text.len()
    };
    let mut out = String::from_str(text);
    insert_char(&mut out, at, CURSOR_MARK);
    out
}

impl AppState {
    /// The title over the table of sessions.
    pub fn table_title(&self, cursor_shows: bool) -> (r: String)
        requires
            self@.search_mode && cursor_shows ==> on_boundary(
                self@.search_query,
                drawn_at(self@.search_query, self@.search_cursor_pos) as int,
            ),
        ensures
            r@ == table_title_of(self@, cursor_shows),
    {
        if self.search_mode {
            let mut out = String::from_str("Sessions (Search: ");
            if cursor_shows {
                out.append(with_cursor(self.search_query.as_str(), self.search_cursor_pos).as_str());
            } else {
                out.append(self.search_query.as_str());
            }
            out.append(")");
            out
        } else {
            let count = self.filtered_sessions().len();
            let mut out = String::from_str("Sessions (");
            out.append(decimal_text(count as u64).as_str());
            out.append(")");
            out
        }
    }
}

/// Where the question whether to delete is drawn on the screen `area`.
pub fn popup_area(area: Area) -> (r: Area)
    requires
        area.width >= 4,
        area.x + area.width <= u16::MAX,
        area.y + area.height <= u16::MAX,
    ensures
        r == popup_in(area),
{
    let width: u16 = if area.width - 4 < POPUP_WIDTH {
        area.width - 4
    } else {
        POPUP_WIDTH
    };
    let down: u16 = if area.height >= POPUP_HEIGHT {
        (area.height - POPUP_HEIGHT) / 2
    } else {
        0
    };
    Area { x: area.x + (area.width - width) / 2, y: area.y + down, width, height: POPUP_HEIGHT }
}

} // verus!
