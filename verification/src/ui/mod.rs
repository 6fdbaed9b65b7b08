//! The state behind the screens: which screen is shown, and the form in
//! which a session is created or edited.

pub mod dashboard;
pub mod logs_viewer;
pub mod session_form;

use crate::models::{Session, SessionView};
use crate::process::session_views;
use crate::text::{
    contains_ignoring_case, contains_text, decimal, decimal_text, has_substring, is_empty_text,
    lowercase, to_lower,
};
use crate::time::Timestamp;
use crate::ui::session_form::{FormState, FormView};
use vstd::prelude::*;
use vstd::string::*;

verus! {

/// Whether the form creates a session or edits the one at an index.
#[derive(Debug, Clone, Copy, PartialEq, Eq, Structural)]
pub enum FormMode {
    Create,
    Edit(usize),
}

/// The screen that is shown.
#[derive(Debug, Clone, Copy, PartialEq, Eq, Structural)]
pub enum Screen {
    Dashboard,
    LogsViewer(usize),
    SessionForm(FormMode),
}

/// What a key press names.
#[derive(Debug, Clone, Copy, PartialEq, Eq, Structural)]
pub enum KeyCode {
    Char(char),
    Enter,
    Esc,
    Tab,
    BackTab,
    Backspace,
    Up,
    Down,
    /// Any key the screens do not react to.
    Other,
}

/// A key press: the key, and whether Control, and nothing but Control, was
/// held with it.
#[derive(Debug, Clone, Copy, PartialEq, Eq, Structural)]
pub struct Key {
    pub code: KeyCode,
    pub control: bool,
}


/// The state behind the dashboard: the sessions, what is selected, and the
/// search and the question that may be open.
#[derive(Debug)]
pub struct AppState {
    pub sessions: Vec<Session>,
    pub current_screen: Screen,
    pub selected_index: usize,
    pub search_query: String,
    pub search_mode: bool,
    pub search_cursor_pos: usize,
    pub delete_confirmation: Option<usize>,
}

/// The mathematical value of an [`AppState`].
pub struct AppView {
    pub sessions: Seq<SessionView>,
    pub current_screen: Screen,
    pub selected_index: usize,
    pub search_query: Seq<char>,
    pub search_mode: bool,
    pub search_cursor_pos: usize,
    pub delete_confirmation: Option<usize>,
}

impl View for AppState {
    type V = AppView;

    open spec fn view(&self) -> AppView {
        AppView {
            sessions: session_views(self.sessions@),
            current_screen: self.current_screen,
            selected_index: self.selected_index,
            search_query: self.search_query@,
            search_mode: self.search_mode,
            search_cursor_pos: self.search_cursor_pos,
            delete_confirmation: self.delete_confirmation,
        }
    }
}

/// What the caller is to do after a key press on the dashboard or in the
/// log viewer.
#[derive(Debug, Clone, Copy, PartialEq, Eq, Structural)]
pub enum AppAction {
    /// Nothing beyond showing the screen again.
    Idle,
    /// End the program.
    Quit,
    /// Write the sessions to disk.
    Persist,
    /// Open the form for a new session.
    CreateSession,
    /// Open the form for the session at the index.
    EditSession(usize),
    /// Stop the session at the index if it runs, start it if not, and write
    /// the sessions to disk.
    ToggleSession(usize),
    /// Stop and start the session at the index and write the sessions to
    /// disk.
    RestartSession(usize),
}

/// A session answers a search: the query occurs, without regard to case, in
/// its name or target, or as it stands in the numeral of one of its ports.
pub open spec fn answers(s: SessionView, query: Seq<char>) -> bool {
    ||| has_substring(lowercase(s.name), lowercase(query))
    ||| has_substring(lowercase(s.target), lowercase(query))
    ||| has_substring(decimal(s.local_port as nat), query)
    ||| (s.remote_port matches Some(p) && has_substring(decimal(p as nat), query))
}

/// The positions, among the first `n` sessions, of those that the search
/// shows: all of them while nothing is searched for.
pub open spec fn shown(sessions: Seq<SessionView>, query: Seq<char>, n: nat) -> Seq<usize>
    decreases n,
{
    if n == 0 {
        Seq::empty()
    } else {
        let earlier = shown(sessions, query, (n - 1) as nat);
        if query.len() == 0 || answers(sessions[n - 1], query) {
            earlier.push((n - 1) as usize)
        } else {
            earlier
        }
    }
}

impl AppView {
    /// The positions of the sessions that the dashboard lists.
    pub open spec fn listed(self) -> Seq<usize> {
        shown(self.sessions, self.search_query, self.sessions.len())
    }

    /// The position of the session under the selection, if the selection
    /// is on one.
    pub open spec fn selected(self) -> Option<usize> {
        if self.selected_index < self.listed().len() {
            Some(self.listed()[self.selected_index as int])
        } else {
            None
        }
    }

    /// The state once the selection has moved by `delta` around the list.
    pub open spec fn with_moved_selection(self, delta: i32) -> AppView {
        if self.listed().len() == 0 {
            self
        } else {
            AppView {
                selected_index: ((self.selected_index + delta) % (self.listed().len() as int)) as usize,
                ..self
            }
        }
    }

    /// The state once the session in question has been deleted.
    pub open spec fn with_deletion(self) -> AppView {
        match self.delete_confirmation {
            Some(at) => AppView {
                sessions: self.sessions.remove(at as int),
                selected_index: if self.selected_index > 0 {
                    (self.selected_index - 1) as usize
                } else {
                    0
                },
                delete_confirmation: None,
                ..self
            },
            None => self,
        }
    }
}

/// Whether a session answers a search, given the query and its lower-case
/// form.
fn session_answers(session: &Session, query: &str, query_lower: &str) -> (b: bool)
    requires
        query_lower@ == lowercase(query@),
    ensures
        b == answers(session@, query@),
{
    if contains_ignoring_case(session.name.as_str(), query_lower) {
        return true;
    }
    if contains_ignoring_case(session.target.as_str(), query_lower) {
        return true;
    }
    if contains_text(decimal_text(session.local_port as u64).as_str(), query) {
        return true;
    }
    match session.remote_port {
        Some(p) => contains_text(decimal_text(p as u64).as_str(), query),
        None => false,
    }
}

impl AppState {
    /// The state in which the program starts: the dashboard over the given
    /// sessions, nothing searched for, nothing in question.
    pub fn new(sessions: Vec<Session>) -> (a: AppState)
        ensures
            a@ == (AppView {
                sessions: session_views(sessions@),
                current_screen: Screen::Dashboard,
                selected_index: 0,
                search_query: Seq::empty(),
                search_mode: false,
                search_cursor_pos: 0,
                delete_confirmation: None,
            }),
    {
        AppState {
            sessions,
            current_screen: Screen::Dashboard,
            selected_index: 0,
            search_query: String::new(),
            search_mode: false,
            search_cursor_pos: 0,
            delete_confirmation: None,
        }
    }

    /// The positions of the sessions that the dashboard lists, in order.
    pub fn filtered_sessions(&self) -> (r: Vec<usize>)
        ensures
            r@ == self@.listed(),
    {
        let all = is_empty_text(self.search_query.as_str());
        let query_lower = to_lower(self.search_query.as_str());
        let ghost views = session_views(self.sessions@);
        let mut out: Vec<usize> = Vec::new();
        let mut i: usize = 0;
        while i < self.sessions.len()
            invariant
                i <= self.sessions.len(),
                views == session_views(self.sessions@),
                all == (self.search_query@.len() == 0),
                query_lower@ == lowercase(self.search_query@),
                out@ == shown(views, self.search_query@, i as nat),
            decreases self.sessions.len() - i,
        {
            assert(views[i as int] == self.sessions@[i as int]@);
            if all || session_answers(
                &self.sessions[i],
                self.search_query.as_str(),
                query_lower.as_str(),
            ) {
                out.push(i);
            }
            i += 1;
        }
        out
    }

    /// The position of the session under the selection.
    pub fn selected_session(&self) -> (r: Option<usize>)
        ensures
            r == self@.selected(),
    {
        let listed = self.filtered_sessions();
        if self.selected_index < listed.len() {
            Some(listed[self.selected_index])
        } else {
            None
        }
    }

    /// Moves the selection by `delta` around the sessions listed.
    pub fn move_selection(&mut self, delta: i32)
        ensures
            final(self)@ == old(self)@.with_moved_selection(delta),
    {
        let count = self.filtered_sessions().len();
        if count == 0 {
            return ;
        }
        self.selected_index = crate::ui::session_form::wrap(self.selected_index, delta, count);
    }

    /// Puts the deletion of the selected session in question.
    pub fn delete_session(&mut self)
        ensures
            final(self)@ == match old(self)@.selected() {
                Some(at) => AppView { delete_confirmation: Some(at), ..old(self)@ },
                None => old(self)@,
            },
    {
        match self.selected_session() {
            Some(at) => {
                self.delete_confirmation = Some(at);
            },
            None => {},
        }
    }

    /// Deletes the session in question and says whether the sessions have
    /// to be written to disk.
    pub fn confirm_delete(&mut self) -> (persist: bool)
        requires
            old(self)@.delete_confirmation matches Some(at) ==> at < old(self)@.sessions.len(),
        ensures
            final(self)@ == old(self)@.with_deletion(),
            persist == old(self)@.delete_confirmation is Some,
    {
        match self.delete_confirmation {
            Some(at) => {
                let ghost before = session_views(self.sessions@);
                self.sessions.remove(at);
                assert(session_views(self.sessions@) =~= before.remove(at as int));
                if self.selected_index > 0 {
                    self.selected_index = self.selected_index - 1;
                }
                self.delete_confirmation = None;
                true
            },
            None => false,
        }
    }

    /// Withdraws the question of a deletion.
    pub fn cancel_delete(&mut self)
        ensures
            final(self)@ == (AppView { delete_confirmation: None, ..old(self)@ }),
    {
        self.delete_confirmation = None;
    }
}


impl AppView {
    /// The state once a complete form has been saved: an edited session is
    /// rewritten in place, a new one is added at the end under the identity
    /// and time of creation given, and the dashboard is shown again.
    pub open spec fn with_saved(self, form: FormView, id: u128, created_at: Timestamp) -> AppView {
        AppView {
            sessions: match self.current_screen {
                Screen::SessionForm(FormMode::Edit(at)) => if at < self.sessions.len() {
                    self.sessions.update(at as int, form.edited(self.sessions[at as int]))
                } else {
                    self.sessions
                },
                _ => self.sessions.push(form.session(id, created_at)),
            },
            current_screen: Screen::Dashboard,
            ..self
        }
    }
}

impl AppState {
    /// Saves what the form describes and returns to the dashboard; does
    /// nothing, and says so, where the form is not complete. A new session
    /// gets a fresh identity.
    pub fn save_form(&mut self, form: &FormState) -> (saved: bool)
        ensures
            saved == form@.is_complete(),
            !saved ==> final(self)@ == old(self)@,
            saved ==> exists|id: u128, created_at: Timestamp|
                final(self)@ == #[trigger] old(self)@.with_saved(form@, id, created_at),
    {
        let session = match form.to_session() {
            Some(session) => session,
            None => {
                return false;
            },
        };
        let ghost before = session_views(self.sessions@);
        let ghost id = session@.id;
        let ghost created_at = session@.created_at;
        match self.current_screen {
            Screen::SessionForm(FormMode::Edit(at)) => {
                if at < self.sessions.len() {
                    let mut existing = self.sessions.remove(at);
                    existing.name = session.name;
                    existing.session_type = session.session_type;
                    existing.target = session.target;
                    existing.local_port = session.local_port;
                    existing.remote_port = session.remote_port;
                    existing.kube_context = session.kube_context;
                    existing.kube_namespace = session.kube_namespace;
                    self.sessions.insert(at, existing);
                    assert(session_views(self.sessions@) =~= before.update(
                        at as int,
                        form@.edited(before[at as int]),
                    ));
                }
            },
            _ => {
                self.sessions.push(session);
                assert(session_views(self.sessions@) =~= before.push(
                    form@.session(id, created_at),
                ));
            },
        }
        self.current_screen = Screen::Dashboard;
        assert(self@ == old(self)@.with_saved(form@, id, created_at));
        true
    }
}

} // verus!
