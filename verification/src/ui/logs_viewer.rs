//! The log viewer: what its keys do, and the texts it shows.

use crate::models::{Session, SessionStatus, SessionView, StatusView};
use crate::text::{is_empty_text, lines_of, split_lines};
use crate::ui::{AppAction, AppState, AppView, FormMode, Key, KeyCode, Screen};
use vstd::prelude::*;
use vstd::string::*;

verus! {

impl AppView {
    /// The state with the selection of the dashboard put on the position of
    /// the session whose log is shown.
    pub open spec fn selecting_viewed(self) -> AppView {
        match self.current_screen {
            Screen::LogsViewer(at) => AppView { selected_index: at, ..self },
            _ => self,
        }
    }

    /// The state after a key press in the log viewer.
    pub open spec fn after_logs_key(self, key: Key) -> AppView {
        if key.code == KeyCode::Esc {
            AppView { current_screen: Screen::Dashboard, ..self }
        } else if !(self.current_screen is LogsViewer) {
            self
        } else if key.code == KeyCode::Char('s') {
            self.selecting_viewed()
        } else if key.code == KeyCode::Char('e') {
            match self.selecting_viewed().selected() {
                Some(at) => AppView {
                    current_screen: Screen::SessionForm(FormMode::Edit(at)),
                    ..self.selecting_viewed()
                },
                None => self.selecting_viewed(),
            }
        } else {
            self
        }
    }

    /// What the caller is to do after a key press in the log viewer.
    pub open spec fn logs_action(self, key: Key) -> AppAction {
        match self.current_screen {
            Screen::LogsViewer(viewed) => if key.code == KeyCode::Char('s') {
                match self.selecting_viewed().selected() {
                    Some(at) => AppAction::ToggleSession(at),
                    None => AppAction::Idle,
                }
            } else if key.code == KeyCode::Char('r') {
                if viewed < self.sessions.len() {
                    AppAction::RestartSession(viewed)
                } else {
                    AppAction::Idle
                }
            } else if key.code == KeyCode::Char('e') {
                match self.selecting_viewed().selected() {
                    Some(at) => AppAction::EditSession(at),
                    None => AppAction::Idle,
                }
            } else {
                AppAction::Idle
            },
            _ => AppAction::Idle,
        }
    }
}

impl AppState {
    /// Takes a key press in the log viewer and says what the caller is to
    /// do.
    pub fn handle_logs_key(&mut self, key: Key) -> (r: AppAction)
        ensures
            final(self)@ == old(self)@.after_logs_key(key),
            r == old(self)@.logs_action(key),
    {
        let viewed = match self.current_screen {
            Screen::LogsViewer(at) => Some(at),
            _ => None,
        };
        match key.code {
            KeyCode::Esc => {
                self.current_screen = Screen::Dashboard;
                AppAction::Idle
            },
            KeyCode::Char(c) => match viewed {
                Some(at) => {
                    if c == 's' {
                        self.selected_index = at;
                        match self.selected_session() {
                            Some(target) => AppAction::ToggleSession(target),
                            None => AppAction::Idle,
                        }
                    } else if c == 'r' {
                        if at < self.sessions.len() {
                            AppAction::RestartSession(at)
                        } else {
                            AppAction::Idle
                        }
                    } else if c == 'e' {
                        self.selected_index = at;
                        match self.selected_session() {
                            Some(target) => {
                                self.current_screen = Screen::SessionForm(FormMode::Edit(target));
                                AppAction::EditSession(target)
                            },
                            None => AppAction::Idle,
                        }
                    } else {
                        AppAction::Idle
                    }
                },
                None => AppAction::Idle,
            },
            _ => AppAction::Idle,
        }
    }
}

/// The height of the header above a log: one line more for a session in
/// error, for its message.
pub open spec fn header_height_of(status: StatusView) -> u16 {
    if status is Error {
        6
    } else {
        5
    }
}

/// The words shown in place of an empty log.
pub open spec fn empty_log_notice(s: SessionView) -> Seq<char> {
    match s.status {
        StatusView::Stopped => if s.last_started is Some {
            "Session was stopped. No logs were generated."@
        } else {
            "Session has never been started. No logs available."@
        },
        StatusView::Error(_) => "Session failed. Check error message above or logs may be empty."@,
        StatusView::Running => "Session is running but no output yet..."@,
    }
}

/// What the viewer shows for a log: the log, a notice where it is empty,
/// and a complaint where it could not be read.
pub open spec fn shown_log(s: SessionView, log: Option<Seq<char>>) -> Seq<char> {
    match log {
        None => "Failed to read logs"@,
        Some(content) => if content.len() == 0 {
            empty_log_notice(s)
        } else {
            content
        },
    }
}

/// The title over a log.
pub open spec fn log_title_of(status: StatusView) -> Seq<char> {
    match status {
        StatusView::Running => "Logs (Live)"@,
        StatusView::Stopped => "Logs (Historical)"@,
        StatusView::Error(_) => "Logs (Error)"@,
    }
}

/// How far a text of `lines` lines is scrolled in a frame of `height` rows
/// for its end to show. The frame's border takes two rows; the count of
/// lines is taken modulo 2^16.
pub open spec fn scroll_to_end(lines: nat, height: u16) -> u16 {
    let total = lines % 0x1_0000;
    let visible = if height >= 2 {
        height - 2
    } else {
        0
    };
    if total >= visible {
        (total - visible) as u16
    } else {
        0
    }
}

/// The height of the header above the log of `session`.
pub fn header_height(session: &Session) -> (h: u16)
    ensures
        h == header_height_of(session@.status),
{
    match session.status {
        SessionStatus::Error(_) => 6,
        _ => 5,
    }
}

/// What the viewer shows for the log of `session`, given what the log held
/// when it was read: `None` where it could not be read.
pub fn log_text(session: &Session, log: Option<String>) -> (r: String)
    ensures
        r@ == shown_log(
            session@,
            match log {
                Some(content) => Some(content@),
                None => None,
            },
        ),
{
    match log {
        None => String::from_str("Failed to read logs"),
        Some(content) => {
            if is_empty_text(content.as_str()) {
                match session.status {
                    SessionStatus::Stopped => {
                        if session.last_started.is_some() {
                            String::from_str("Session was stopped. No logs were generated.")
                        } else {
                            String::from_str("Session has never been started. No logs available.")
                        }
                    },
                    SessionStatus::Error(_) => String::from_str(
                        "Session failed. Check error message above or logs may be empty.",
                    ),
                    SessionStatus::Running => String::from_str(
                        "Session is running but no output yet...",
                    ),
                }
            } else {
                content
            }
        },
    }
}

/// The title over the log of `session`.
pub fn log_title(session: &Session) -> (r: &'static str)
    ensures
        r@ == log_title_of(session@.status),
{
    match session.status {
        SessionStatus::Running => "Logs (Live)",
        SessionStatus::Stopped => "Logs (Historical)",
        SessionStatus::Error(_) => "Logs (Error)",
    }
}

/// How far `text` is scrolled in a frame of `height` rows for its end to
/// show.
pub fn scroll_offset(text: &str, height: u16) -> (r: u16)
    ensures
        r == scroll_to_end(split_lines(text@).len(), height),
{
    let lines = lines_of(text);
    let total: u16 = (lines.len() % 0x1_0000) as u16;
    let visible: u16 = if height >= 2 {
        height - 2
    } else {
        0
    };
    if total >= visible {
        total - visible
    } else {
        0
    }
}

} // verus!
