//! The persisted description of a tunnel session and its runtime status.

use crate::text::{copy_opt_text, copy_texts, decimal, decimal_text, opt_text, texts};
use crate::time::{quotient_toward_zero, remainder_toward_zero, Timestamp, whole_seconds_between};
use uuid::Uuid;
use vstd::prelude::*;
use vstd::string::*;
use vstd::string::*;

verus! {

/// The kind of tunnel a session realises.
#[derive(Debug, Clone, Copy, PartialEq, Eq, Structural)]
pub enum SessionType {
    SSH,
    Kubectl,
    Socks5,
}

impl SessionType {
    /// The name under which the kind is shown.
    pub open spec fn label(self) -> Seq<char> {
        match self {
            SessionType::SSH => "SSH"@,
            SessionType::Kubectl => "kubectl"@,
            SessionType::Socks5 => "SOCKS5"@,
        }
    }

    pub fn as_str(&self) -> (r: &'static str)
        ensures
            r@ == self.label(),
    {
        match self {
            SessionType::SSH => "SSH",
            SessionType::Kubectl => "kubectl",
            SessionType::Socks5 => "SOCKS5",
        }
    }
}

/// The last known state of a session's process.
#[derive(Debug)]
pub enum SessionStatus {
    Running,
    Stopped,
    Error(String),
}

/// The mathematical value of a [`SessionStatus`].
pub enum StatusView {
    Running,
    Stopped,
    Error(Seq<char>),
}

impl View for SessionStatus {
    type V = StatusView;

    open spec fn view(&self) -> StatusView {
        match self {
            SessionStatus::Running => StatusView::Running,
            SessionStatus::Stopped => StatusView::Stopped,
            SessionStatus::Error(message) => StatusView::Error(message@),
        }
    }
}

impl StatusView {
    /// The name under which the state is shown; the message of an error is
    /// not part of it.
    pub open spec fn label(self) -> Seq<char> {
        match self {
            StatusView::Running => "Running"@,
            StatusView::Stopped => "Stopped"@,
            StatusView::Error(_) => "Error"@,
        }
    }
}

impl SessionStatus {
    pub fn as_str(&self) -> (r: &'static str)
        ensures
            r@ == self@.label(),
    {
        match self {
            SessionStatus::Running => "Running",
            SessionStatus::Stopped => "Stopped",
            SessionStatus::Error(_) => "Error",
        }
    }

    pub fn is_running(&self) -> (b: bool)
        ensures
            b == (self@ is Running),
    {
        match self {
            SessionStatus::Running => true,
            _ => false,
        }
    }
}

impl Clone for SessionStatus {
    fn clone(&self) -> (r: SessionStatus)
        ensures
            r@ == self@,
    {
        match self {
            SessionStatus::Running => SessionStatus::Running,
            SessionStatus::Stopped => SessionStatus::Stopped,
            SessionStatus::Error(message) => SessionStatus::Error(message.clone()),
        }
    }
}

impl PartialEq for SessionStatus {
    fn eq(&self, other: &SessionStatus) -> (b: bool) {
        match self {
            SessionStatus::Running => other.is_running(),
            SessionStatus::Stopped => match other {
                SessionStatus::Stopped => true,
                _ => false,
            },
            SessionStatus::Error(mine) => match other {
                SessionStatus::Error(theirs) => {
                    *mine == *theirs
                },
                _ => false,
            },
        }
    }
}

impl vstd::std_specs::cmp::PartialEqSpecImpl for SessionStatus {
    open spec fn obeys_eq_spec() -> bool {
        true
    }

    open spec fn eq_spec(&self, other: &SessionStatus) -> bool {
        self@ == other@
    }
}


/// One tunnel: what to run, and what is known of its last run.
#[derive(Debug)]
pub struct Session {
    /// The session's identity, a UUID read as one 128-bit number.
    pub id: u128,
    pub name: String,
    pub session_type: SessionType,
    pub target: String,
    pub local_port: u16,
    pub remote_port: Option<u16>,
    pub status: SessionStatus,
    pub pid: Option<u32>,
    pub created_at: Timestamp,
    pub last_started: Option<Timestamp>,
    pub additional_options: Vec<String>,
    pub kube_context: Option<String>,
    pub kube_namespace: Option<String>,
}

/// The mathematical value of a [`Session`].
pub struct SessionView {
    pub id: u128,
    pub name: Seq<char>,
    pub session_type: SessionType,
    pub target: Seq<char>,
    pub local_port: u16,
    pub remote_port: Option<u16>,
    pub status: StatusView,
    pub pid: Option<u32>,
    pub created_at: Timestamp,
    pub last_started: Option<Timestamp>,
    pub additional_options: Seq<Seq<char>>,
    pub kube_context: Option<Seq<char>>,
    pub kube_namespace: Option<Seq<char>>,
}

impl View for Session {
    type V = SessionView;

    open spec fn view(&self) -> SessionView {
        SessionView {
            id: self.id,
            name: self.name@,
            session_type: self.session_type,
            target: self.target@,
            local_port: self.local_port,
            remote_port: self.remote_port,
            status: self.status@,
            pid: self.pid,
            created_at: self.created_at,
            last_started: self.last_started,
            additional_options: texts(self.additional_options@),
            kube_context: opt_text(self.kube_context),
            kube_namespace: opt_text(self.kube_namespace),
        }
    }
}

impl SessionView {
    /// A process id is recorded exactly when the session is held to be
    /// running.
    pub open spec fn status_matches_pid(self) -> bool {
        (self.status is Running) <==> (self.pid is Some)
    }

    /// The remote port, or 0 where the session has none.
    pub open spec fn remote_or_zero(self) -> nat {
        match self.remote_port {
            Some(p) => p as nat,
            None => 0,
        }
    }

    /// The whole seconds for which the session has been running at `now`:
    /// defined for a running session that has a start time.
    pub open spec fn uptime(self, now: Timestamp) -> Option<int> {
        if self.status is Running && self.last_started is Some {
            Some(whole_seconds_between(now, self.last_started->0))
        } else {
            None
        }
    }

    /// The ports as the dashboard shows them.
    pub open spec fn port_mapping(self) -> Seq<char> {
        if self.session_type == SessionType::Socks5 {
            decimal(self.local_port as nat)
        } else {
            decimal(self.local_port as nat) + " â†’ "@ + decimal(self.remote_or_zero())
        }
    }

    /// How long the session has run, or how long ago it last started.
    pub open spec fn uptime_text(self, now: Timestamp) -> Seq<char> {
        match self.uptime(now) {
            Some(s) => clock_text(s),
            None => match self.last_started {
                Some(last) => ago_text(whole_seconds_between(now, last)),
                None => "Never"@,
            },
        }
    }
}

/// A number in at least two columns: a leading zero before a single digit,
/// a minus sign before a negative number.
pub open spec fn two_columns(n: int) -> Seq<char> {
    if n < 0 {
        "-"@ + decimal((-n) as nat)
    } else if n < 10 {
        "0"@ + decimal(n as nat)
    } else {
        decimal(n as nat)
    }
}

/// A span of `s` seconds as hours, minutes and seconds.
pub open spec fn clock_text(s: int) -> Seq<char> {
    two_columns(quotient_toward_zero(s, 3600)) + ":"@ + two_columns(
        remainder_toward_zero(quotient_toward_zero(s, 60), 60),
    ) + ":"@ + two_columns(remainder_toward_zero(s, 60))
}

/// How long ago something happened that lies `s` seconds back, in the
/// largest unit of which at least one has passed.
pub open spec fn ago_text(s: int) -> Seq<char> {
    if quotient_toward_zero(s, 86400) > 0 {
        decimal(quotient_toward_zero(s, 86400) as nat) + " days ago"@
    } else if quotient_toward_zero(s, 3600) > 0 {
        decimal(quotient_toward_zero(s, 3600) as nat) + " hours ago"@
    } else if quotient_toward_zero(s, 60) > 0 {
        decimal(quotient_toward_zero(s, 60) as nat) + " min ago"@
    } else {
        "Just now"@
    }
}


/// `Uuid::new_v4` and `Uuid::as_u128`: a freshly drawn random identifier.
/// Nothing is promised of its value.
#[verifier::external_body]
pub(crate) fn fresh_id() -> u128 {
    Uuid::new_v4().as_u128()
}

/// A number in at least two columns, as [`two_columns`] defines it.
fn two_columns_text(n: i64) -> (r: String)
    requires
        i64::MIN < n,
    ensures
        r@ == two_columns(n as int),
{
    if n < 0 {
        let mut out = String::from_str("-");
        out.append(decimal_text((-n) as u64).as_str());
        out
    } else if n < 10 {
        let mut out = String::from_str("0");
        out.append(decimal_text(n as u64).as_str());
        out
    } else {
        decimal_text(n as u64)
    }
}

/// The quotient of `a` by a positive `b`, rounded toward zero.
fn divide_toward_zero(a: i64, b: i64) -> (q: i64)
    requires
        b > 0,
        i64::MIN < a,
    ensures
        q == quotient_toward_zero(a as int, b as int),
        remainder_toward_zero(a as int, b as int) == a - b * q,
        -b < a - b * q < b,
        a >= 0 ==> 0 <= q <= a,
        a < 0 ==> a <= q <= 0,
{
    if a >= 0 {
        let q = a / b;
        assert(0 <= q <= a) by (nonlinear_arith)
            requires
                q == a as int / b as int,
                a >= 0,
                b > 0,
        ;
        assert(0 <= a - b * q < b) by (nonlinear_arith)
            requires
                q == a as int / b as int,
                a >= 0,
                b > 0,
        ;
        q
    } else {
        let back = -a;
        let q = back / b;
        assert(0 <= q <= back) by (nonlinear_arith)
            requires
                q == back as int / b as int,
                back >= 0,
                b > 0,
        ;
        assert(0 <= back - b * q < b) by (nonlinear_arith)
            requires
                q == back as int / b as int,
                back >= 0,
                b > 0,
        ;
        assert(b * (-q) == -(b * q)) by (nonlinear_arith);
        -q
    }
}

impl Session {
    /// A session with the given identity and time of creation, stopped and
    /// never started, without options.
    pub fn with_identity(
        id: u128,
        created_at: Timestamp,
        name: String,
        session_type: SessionType,
        target: String,
        local_port: u16,
        remote_port: Option<u16>,
    ) -> (s: Session)
        ensures
            s@ == (SessionView {
                id,
                name: name@,
                session_type,
                target: target@,
                local_port,
                remote_port,
                status: StatusView::Stopped,
                pid: None,
                created_at,
                last_started: None,
                additional_options: Seq::empty(),
                kube_context: None,
                kube_namespace: None,
            }),
    {
        let s = Session {
            id,
            name,
            session_type,
            target,
            local_port,
            remote_port,
            status: SessionStatus::Stopped,
            pid: None,
            created_at,
            last_started: None,
            additional_options: Vec::new(),
            kube_context: None,
            kube_namespace: None,
        };
        assert(s@.additional_options =~= Seq::empty());
        s
    }

    /// A new session under a fresh random identity, created now. Identity
    /// and time come from outside; everything else is as
    /// [`Session::with_identity`] sets it.
    pub fn new(
        name: String,
        session_type: SessionType,
        target: String,
        local_port: u16,
        remote_port: Option<u16>,
    ) -> (s: Session)
        ensures
            s@ == (SessionView {
                id: s@.id,
                name: name@,
                session_type,
                target: target@,
                local_port,
                remote_port,
                status: StatusView::Stopped,
                pid: None,
                created_at: s@.created_at,
                last_started: None,
                additional_options: Seq::empty(),
                kube_context: None,
                kube_namespace: None,
            }),
    {
        let id = fresh_id();
        let created_at = Timestamp::now();
        Session::with_identity(id, created_at, name, session_type, target, local_port, remote_port)
    }

    /// The whole seconds for which the session has been running at `now`.
    pub fn uptime_at(&self, now: Timestamp) -> (r: Option<i64>)
        ensures
            match r {
                Some(s) => self@.uptime(now) == Some(s as int),
                None => self@.uptime(now) is None,
            },
    {
        if self.status.is_running() {
            match self.last_started {
                Some(start) => Some(now.seconds_since(&start)),
                None => None,
            }
        } else {
            None
        }
    }

    /// The uptime by the system clock: [`Session::uptime_at`] of the
    /// present instant.
    pub fn uptime(&self) -> (r: Option<i64>)
        ensures
            r is Some <==> (self@.status is Running && self@.last_started is Some),
            exists|now: Timestamp|
                match r {
                    Some(s) => #[trigger] self@.uptime(now) == Some(s as int),
                    None => self@.uptime(now) is None,
                },
    {
        let now = Timestamp::now();
        let r = self.uptime_at(now);
        assert(match r {
            Some(s) => self@.uptime(now) == Some(s as int),
            None => self@.uptime(now) is None,
        });
        r
    }

    /// How long the session has run at `now`, or how long before `now` it
    /// last started.
    pub fn uptime_string_at(&self, now: Timestamp) -> (r: String)
        ensures
            r@ == self@.uptime_text(now),
    {
        match self.uptime_at(now) {
            Some(s) => {
                proof {
                    lemma_span_bounds(now, self.last_started->0);
                }
                let hours = divide_toward_zero(s, 3600);
                let whole_minutes = divide_toward_zero(s, 60);
                let minutes = whole_minutes - 60 * divide_toward_zero(whole_minutes, 60);
                let seconds = s - 60 * whole_minutes;
                let mut out = two_columns_text(hours);
                out.append(":");
                out.append(two_columns_text(minutes).as_str());
                out.append(":");
                out.append(two_columns_text(seconds).as_str());
                out
            },
            None => match self.last_started {
                Some(last) => {
                    let s = now.seconds_since(&last);
                    proof {
                        lemma_span_bounds(now, last);
                    }
                    let days = divide_toward_zero(s, 86400);
                    let hours = divide_toward_zero(s, 3600);
                    let minutes = divide_toward_zero(s, 60);
                    if days > 0 {
                        let mut out = decimal_text(days as u64);
                        out.append(" days ago");
                        out
                    } else if hours > 0 {
                        let mut out = decimal_text(hours as u64);
                        out.append(" hours ago");
                        out
                    } else if minutes > 0 {
                        let mut out = decimal_text(minutes as u64);
                        out.append(" min ago");
                        out
                    } else {
                        String::from_str("Just now")
                    }
                },
                None => String::from_str("Never"),
            },
        }
    }

    /// [`Session::uptime_string_at`] of the present instant.
    pub fn uptime_string(&self) -> (r: String)
        ensures
            exists|now: Timestamp| r@ == #[trigger] self@.uptime_text(now),
            self@.last_started is None ==> r@ == "Never"@,
    {
        self.uptime_string_at(Timestamp::now())
    }

    pub fn port_mapping(&self) -> (r: String)
        ensures
            r@ == self@.port_mapping(),
    {
        let mut out = decimal_text(self.local_port as u64);
        match self.session_type {
            SessionType::Socks5 => {},
            _ => {
                out.append(" â†’ ");
                let remote: u16 = match self.remote_port {
                    Some(p) => p,
                    None => 0,
                };
                out.append(decimal_text(remote as u64).as_str());
            },
        }
        out
    }
}

impl Clone for Session {
    fn clone(&self) -> (s: Session)
        ensures
            s@ == self@,
    {
        Session {
            id: self.id,
            name: self.name.clone(),
            session_type: self.session_type,
            target: self.target.clone(),
            local_port: self.local_port,
            remote_port: self.remote_port,
            status: self.status.clone(),
            pid: self.pid,
            created_at: self.created_at,
            last_started: self.last_started,
            additional_options: copy_texts(&self.additional_options),
            kube_context: copy_opt_text(&self.kube_context),
            kube_namespace: copy_opt_text(&self.kube_namespace),
        }
    }
}

/// Two instants are less than 2^64 nanoseconds apart, so the whole seconds
/// between them stay far inside the 64-bit range.
pub proof fn lemma_span_bounds(later: Timestamp, earlier: Timestamp)
    ensures
        -18_446_744_074 < whole_seconds_between(later, earlier) < 18_446_744_074,
{
    let gap = later.nanos - earlier.nanos;
    assert(-0x1_0000_0000_0000_0000 < gap < 0x1_0000_0000_0000_0000);
}

} // verus!
