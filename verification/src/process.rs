//! The process supervisor: how a session is started and stopped, how the
//! set of watched processes is kept, and what one round of the liveness
//! monitor decides.
//!
//! Spawning, signalling, files, channels and threads are the caller's. Each
//! operation here takes the outcome of such a step as a plain value and
//! returns the next state together with what is to be written or sent.

use crate::models::{Session, SessionStatus, SessionType, SessionView, StatusView};
use crate::monitor::pruned;
use crate::text::{
    decimal, decimal_text, join_from, joined, lines_of, opt_text, split_lines, texts,
};
use crate::time::{formatted_time, marker_pattern, Timestamp};
use vstd::prelude::*;
use vstd::string::*;

verus! {

/// The event a log marker records.
#[derive(Debug, Clone, Copy, PartialEq, Eq, Structural)]
pub enum MarkerKind {
    Started,
    Stopped,
    Crashed,
    FailedEarly,
}

impl MarkerKind {
    /// The words that name the event in the marker.
    pub open spec fn title(self) -> Seq<char> {
        match self {
            MarkerKind::Started => "Started"@,
            MarkerKind::Stopped => "Stopped"@,
            MarkerKind::Crashed => "Crashed/Exited"@,
            MarkerKind::FailedEarly => "Failed Early"@,
        }
    }

    /// What follows the closing rule: one line feed after a start, two
    /// after every event that ends a run.
    pub open spec fn ending(self) -> Seq<char> {
        match self {
            MarkerKind::Started => "\n"@,
            _ => "\n\n"@,
        }
    }

    /// The message reported for a process that left nothing in its log.
    pub open spec fn fallback(self) -> Seq<char> {
        match self {
            MarkerKind::FailedEarly => "Process exited shortly after start"@,
            _ => "Process terminated"@,
        }
    }
}

/// The width of the rule that frames a marker.
pub const RULE_WIDTH: usize = 80;

/// The number of log lines a diagnostic is drawn from.
pub const TAIL_LINES: usize = 3;

/// The length to which a diagnostic is cut, not counting the ellipsis.
pub const DIAGNOSTIC_LIMIT: usize = 100;

/// The rule that frames a marker: eighty equals signs.
pub open spec fn rule() -> Seq<char> {
    Seq::new(RULE_WIDTH as nat, |i: int| '=')
}

/// The banner written to a session's log for an event that happened to the
/// process `pid` at the instant spelled `stamp`.
pub open spec fn marker(kind: MarkerKind, stamp: Seq<char>, pid: u32) -> Seq<char> {
    "\n"@ + rule() + "\nSession "@ + kind.title() + ": "@ + stamp + " | PID: "@ + decimal(
        pid as nat,
    ) + "\n"@ + rule() + kind.ending()
}

/// The last `n` of the lines, or all of them where there are fewer.
pub open spec fn last_lines(lines: Seq<Seq<char>>, n: nat) -> Seq<Seq<char>> {
    if lines.len() <= n {
        lines
    } else {
        lines.subrange(lines.len() - n, lines.len() as int)
    }
}

/// A text cut to its last [`DIAGNOSTIC_LIMIT`] characters, with an
/// ellipsis in front when anything was cut.
pub open spec fn clipped(s: Seq<char>) -> Seq<char> {
    if s.len() > DIAGNOSTIC_LIMIT {
        "..."@ + s.subrange(s.len() - DIAGNOSTIC_LIMIT, s.len() as int)
    } else {
        s
    }
}

/// The end of a log, as one line: its last [`TAIL_LINES`] lines joined by
/// single spaces.
pub open spec fn log_tail(log: Seq<char>) -> Seq<char> {
    joined(last_lines(split_lines(log), TAIL_LINES as nat), " "@)
}

/// The message that explains a death: drawn from the end of the log, or the
/// fallback of the event where the log is empty or could not be read.
pub open spec fn diagnostic_of(log: Option<Seq<char>>, kind: MarkerKind) -> Seq<char> {
    match log {
        Some(content) => if content.len() == 0 {
            kind.fallback()
        } else {
            clipped(log_tail(content))
        },
        None => kind.fallback(),
    }
}

/// The rule that frames a marker.
pub fn rule_text() -> (r: String)
    ensures
        r@ == rule(),
{
    let mut out = String::new();
    let mut i: usize = 0;
    proof {
        reveal_strlit("=");
    }
    while i < RULE_WIDTH
        invariant
            i <= RULE_WIDTH,
            out@ == Seq::new(i as nat, |k: int| '='),
            "="@ == seq!['='],
        decreases RULE_WIDTH - i,
    {
        out.append("=");
        i += 1;
        assert(out@ =~= Seq::new(i as nat, |k: int| '='));
    }
    out
}

/// The marker for `kind` with the instant already spelled out.
pub fn marker_with_stamp(kind: MarkerKind, stamp: &str, pid: u32) -> (r: String)
    ensures
        r@ == marker(kind, stamp@, pid),
{
    let rule = rule_text();
    let mut out = String::from_str("\n");
    out.append(rule.as_str());
    out.append("\nSession ");
    match kind {
        MarkerKind::Started => out.append("Started"),
        MarkerKind::Stopped => out.append("Stopped"),
        MarkerKind::Crashed => out.append("Crashed/Exited"),
        MarkerKind::FailedEarly => out.append("Failed Early"),
    }
    out.append(": ");
    out.append(stamp);
    out.append(" | PID: ");
    out.append(decimal_text(pid as u64).as_str());
    out.append("\n");
    out.append(rule.as_str());
    match kind {
        MarkerKind::Started => out.append("\n"),
        _ => out.append("\n\n"),
    }
    out
}

/// The marker for `kind` at the instant `at`.
pub fn marker_text(kind: MarkerKind, at: Timestamp, pid: u32) -> (r: String)
    ensures
        r@ == marker(kind, formatted_time(at.nanos as int, marker_pattern()), pid),
{
    let stamp = at.marker_text();
    marker_with_stamp(kind, stamp.as_str(), pid)
}

/// A text cut as [`clipped`] says.
pub fn clip(s: String) -> (r: String)
    ensures
        r@ == clipped(s@),
{
    let len = s.as_str().unicode_len();
    if len > DIAGNOSTIC_LIMIT {
        let mut out = String::from_str("...");
        out.append(s.as_str().substring_char(len - DIAGNOSTIC_LIMIT, len));
        out
    } else {
        s
    }
}

/// The message that explains a death of kind `kind`, from what the
/// session's log held when it was read: `None` where it could not be read.
pub fn diagnostic(log: Option<&str>, kind: MarkerKind) -> (r: String)
    ensures
        r@ == diagnostic_of(
            match log {
                Some(content) => Some(content@),
                None => None,
            },
            kind,
        ),
{
    let present = match log {
        Some(content) => content.unicode_len() > 0,
        None => false,
    };
    if present {
        let content = log.unwrap();
        let lines = lines_of(content);
        let from = if lines.len() <= TAIL_LINES {
            0
        } else {
            lines.len() - TAIL_LINES
        };
        assert(texts(lines@).subrange(from as int, lines.len() as int) =~= last_lines(
            split_lines(content@),
            TAIL_LINES as nat,
        ));
        clip(join_from(&lines, from, " "))
    } else {
        match kind {
            MarkerKind::FailedEarly => String::from_str("Process exited shortly after start"),
            _ => String::from_str("Process terminated"),
        }
    }
}

/// A diagnostic drawn from a log tail of more than one hundred characters
/// has one hundred and three: an ellipsis, then the last hundred characters
/// of the tail.
pub proof fn lemma_long_tail_is_clipped(log: Seq<char>, kind: MarkerKind)
    requires
        log_tail(log).len() > DIAGNOSTIC_LIMIT,
    ensures
        diagnostic_of(Some(log), kind).len() == DIAGNOSTIC_LIMIT + 3,
        diagnostic_of(Some(log), kind).subrange(0, 3) == "..."@,
        diagnostic_of(Some(log), kind).subrange(3, DIAGNOSTIC_LIMIT + 3) == log_tail(log).subrange(
            log_tail(log).len() - DIAGNOSTIC_LIMIT,
            log_tail(log).len() as int,
        ),
{
    reveal_strlit("...");
    let tail = log_tail(log);
    assert(log.len() > 0) by {
        if log.len() == 0 {
            assert(split_lines(log) =~= Seq::empty());
            assert(last_lines(split_lines(log), TAIL_LINES as nat) =~= Seq::empty());
            assert(tail.len() == 0);
        }
    }
    let d = diagnostic_of(Some(log), kind);
    let cut = tail.subrange(tail.len() - DIAGNOSTIC_LIMIT, tail.len() as int);
    assert(d == "..."@ + cut);
    assert(d.subrange(0, 3) =~= "..."@);
    assert(d.subrange(3, DIAGNOSTIC_LIMIT + 3) =~= cut);
}


/// A program and the arguments it is to be started with.
#[derive(Debug)]
pub struct CommandLine {
    pub program: String,
    pub args: Vec<String>,
}

/// The mathematical value of a [`CommandLine`].
pub struct CommandView {
    pub program: Seq<char>,
    pub args: Seq<Seq<char>>,
}

impl View for CommandLine {
    type V = CommandView;

    open spec fn view(&self) -> CommandView {
        CommandView { program: self.program@, args: texts(self.args@) }
    }
}

/// The local and the remote port of a session the way `ssh -L` is told
/// them: the local port is bound to the remote one on `localhost`.
pub open spec fn local_forward(s: SessionView) -> Seq<char> {
    decimal(s.local_port as nat) + ":localhost:"@ + decimal(s.remote_or_zero())
}

/// The local and the remote port of a session the way `kubectl
/// port-forward` is told them.
pub open spec fn port_pair(s: SessionView) -> Seq<char> {
    decimal(s.local_port as nat) + ":"@ + decimal(s.remote_or_zero())
}

/// A flag and its value where the value is present, nothing otherwise.
pub open spec fn optional_flag(flag: Seq<char>, value: Option<Seq<char>>) -> Seq<Seq<char>> {
    match value {
        Some(v) => seq![flag, v],
        None => Seq::empty(),
    }
}

/// The command of an SSH local forward.
pub open spec fn ssh_command(s: SessionView) -> CommandView {
    CommandView {
        program: "ssh"@,
        args: seq!["-L"@, local_forward(s), s.target, "-N"@] + s.additional_options,
    }
}

/// The command of a Kubernetes port forward.
pub open spec fn kubectl_command(s: SessionView) -> CommandView {
    CommandView {
        program: "kubectl"@,
        args: optional_flag("--context"@, s.kube_context) + optional_flag(
            "--namespace"@,
            s.kube_namespace,
        ) + seq!["port-forward"@, s.target, port_pair(s)] + s.additional_options,
    }
}

/// The command of a SOCKS5 proxy, an SSH dynamic forward.
pub open spec fn socks5_command(s: SessionView) -> CommandView {
    CommandView {
        program: "ssh"@,
        args: seq!["-D"@, decimal(s.local_port as nat), s.target, "-N"@] + s.additional_options,
    }
}

/// The command that realises a session's tunnel.
pub open spec fn command_for(s: SessionView) -> CommandView {
    match s.session_type {
        SessionType::SSH => ssh_command(s),
        SessionType::Kubectl => kubectl_command(s),
        SessionType::Socks5 => socks5_command(s),
    }
}

/// Appends copies of the session's extra options, in the order given.
fn push_options(args: &mut Vec<String>, options: &Vec<String>)
    ensures
        texts(final(args)@) == texts(old(args)@) + texts(options@),
{
    let ghost base = texts(args@);
    let mut i: usize = 0;
    assert(texts(args@) =~= base + texts(options@).take(0));
    while i < options.len()
        invariant
            i <= options.len(),
            texts(args@) == base + texts(options@).take(i as int),
        decreases options.len() - i,
    {
        let ghost before = args@;
        args.push(options[i].clone());
        i += 1;
        assert(texts(args@) =~= texts(before).push(options@[i - 1]@));
        assert(texts(args@) =~= base + texts(options@).take(i as int));
    }
    assert(texts(options@).take(options.len() as int) =~= texts(options@));
}

/// The remote port of a session, or 0 where it has none.
fn remote_or_zero(session: &Session) -> (p: u16)
    ensures
        p as nat == session@.remote_or_zero(),
{
    match session.remote_port {
        Some(p) => p,
        None => 0,
    }
}

impl CommandLine {
    /// The command of an SSH local forward for `session`.
    pub fn build_ssh_command(session: &Session) -> (c: CommandLine)
        ensures
            c@ == ssh_command(session@),
    {
        let mut forward = decimal_text(session.local_port as u64);
        forward.append(":localhost:");
        forward.append(decimal_text(remote_or_zero(session) as u64).as_str());
        let mut args: Vec<String> = Vec::new();
        args.push(String::from_str("-L"));
        args.push(forward);
        args.push(session.target.clone());
        args.push(String::from_str("-N"));
        assert(texts(args@) =~= seq!["-L"@, local_forward(session@), session@.target, "-N"@]);
        push_options(&mut args, &session.additional_options);
        CommandLine { program: String::from_str("ssh"), args }
    }

    /// The command of a Kubernetes port forward for `session`.
    pub fn build_kubectl_command(session: &Session) -> (c: CommandLine)
        ensures
            c@ == kubectl_command(session@),
    {
        let mut args: Vec<String> = Vec::new();
        assert(texts(args@) =~= Seq::empty());
        match &session.kube_context {
            Some(context) => {
                args.push(String::from_str("--context"));
                args.push(context.clone());
            },
            None => {},
        }
        assert(texts(args@) =~= optional_flag("--context"@, session@.kube_context));
        let ghost first = texts(args@);
        match &session.kube_namespace {
            Some(namespace) => {
                args.push(String::from_str("--namespace"));
                args.push(namespace.clone());
            },
            None => {},
        }
        assert(texts(args@) =~= first + optional_flag("--namespace"@, session@.kube_namespace));
        let ghost flags = texts(args@);
        let mut pair = decimal_text(session.local_port as u64);
        pair.append(":");
        pair.append(decimal_text(remote_or_zero(session) as u64).as_str());
        args.push(String::from_str("port-forward"));
        args.push(session.target.clone());
        args.push(pair);
        assert(texts(args@) =~= flags + seq!["port-forward"@, session@.target, port_pair(session@)]);
        push_options(&mut args, &session.additional_options);
        CommandLine { program: String::from_str("kubectl"), args }
    }

    /// The command of a SOCKS5 proxy for `session`.
    pub fn build_socks5_command(session: &Session) -> (c: CommandLine)
        ensures
            c@ == socks5_command(session@),
    {
        let mut args: Vec<String> = Vec::new();
        args.push(String::from_str("-D"));
        args.push(decimal_text(session.local_port as u64));
        args.push(session.target.clone());
        args.push(String::from_str("-N"));
        assert(texts(args@) =~= seq![
            "-D"@,
            decimal(session@.local_port as nat),
            session@.target,
            "-N"@,
        ]);
        push_options(&mut args, &session.additional_options);
        CommandLine { program: String::from_str("ssh"), args }
    }

    /// The command that realises the tunnel of `session`.
    pub fn for_session(session: &Session) -> (c: CommandLine)
        ensures
            c@ == command_for(session@),
    {
        match session.session_type {
            SessionType::SSH => CommandLine::build_ssh_command(session),
            SessionType::Kubectl => CommandLine::build_kubectl_command(session),
            SessionType::Socks5 => CommandLine::build_socks5_command(session),
        }
    }
}


/// The shadow record of a session that is held to be running: who it is,
/// which process serves it, and since when.
#[derive(Debug, Clone, Copy, PartialEq, Eq, Structural)]
pub struct MonitoredSession {
    pub id: u128,
    pub pid: Option<u32>,
    pub started_at: Option<Timestamp>,
}

/// A change of status that the monitor reports to the owner of the
/// sessions.
#[derive(Debug)]
pub struct StatusUpdate {
    pub session_id: u128,
    pub status: SessionStatus,
    pub pid: Option<u32>,
}

/// The mathematical value of a [`StatusUpdate`].
pub struct UpdateView {
    pub session_id: u128,
    pub status: StatusView,
    pub pid: Option<u32>,
}

impl View for StatusUpdate {
    type V = UpdateView;

    open spec fn view(&self) -> UpdateView {
        UpdateView { session_id: self.session_id, status: self.status@, pid: self.pid }
    }
}

impl Clone for StatusUpdate {
    fn clone(&self) -> (r: StatusUpdate)
        ensures
            r@ == self@,
    {
        StatusUpdate { session_id: self.session_id, status: self.status.clone(), pid: self.pid }
    }
}

impl UpdateView {
    /// The update names a process exactly when it reports a running
    /// session.
    pub open spec fn status_matches_pid(self) -> bool {
        (self.status is Running) <==> (self.pid is Some)
    }
}

/// Why a start or a stop did not go through.
#[derive(Debug)]
pub enum ProcessError {
    /// The process could not be created; the message is the system's.
    SpawnFailed(String),
    /// The termination signal could not be delivered; the message is the
    /// system's.
    SignalFailed(String),
}

/// The mathematical value of a [`ProcessError`].
pub enum ProcessErrorView {
    SpawnFailed(Seq<char>),
    SignalFailed(Seq<char>),
}

impl View for ProcessError {
    type V = ProcessErrorView;

    open spec fn view(&self) -> ProcessErrorView {
        match self {
            ProcessError::SpawnFailed(m) => ProcessErrorView::SpawnFailed(m@),
            ProcessError::SignalFailed(m) => ProcessErrorView::SignalFailed(m@),
        }
    }
}

impl ProcessError {
    /// The error in words.
    pub fn message(&self) -> (r: String)
        ensures
            r@ == match self@ {
                ProcessErrorView::SpawnFailed(m) => "failed to start process: "@ + m,
                ProcessErrorView::SignalFailed(m) => "failed to signal process: "@ + m,
            },
    {
        match self {
            ProcessError::SpawnFailed(m) => {
                let mut out = String::from_str("failed to start process: ");
                out.append(m.as_str());
                out
            },
            ProcessError::SignalFailed(m) => {
                let mut out = String::from_str("failed to signal process: ");
                out.append(m.as_str());
                out
            },
        }
    }
}

/// What keeps the run of a termination command from counting as a signal
/// delivered: the complaint of a command that ran and failed, or the
/// system's message where it could not be run.
pub open spec fn signal_complaint(ran: Result<(bool, String), String>) -> Option<Seq<char>> {
    match ran {
        Ok((succeeded, complaint)) => if succeeded {
            None
        } else {
            Some(complaint@)
        },
        Err(reason) => Some(reason@),
    }
}

/// Judges the run of a termination command. `ran` holds, for a command
/// that ran, whether it succeeded and what it complained of, and the
/// system's message for one that could not be run. The signal counts as
/// delivered only where the command ran and succeeded.
pub fn signal_error(ran: Result<(bool, String), String>) -> (r: Option<String>)
    ensures
        opt_text(r) == signal_complaint(ran),
{
    match ran {
        Ok((succeeded, complaint)) => {
            if succeeded {
                None
            } else {
                Some(complaint)
            }
        },
        Err(reason) => Some(reason),
    }
}

/// The values of a list of sessions.
pub open spec fn session_views(sessions: Seq<Session>) -> Seq<SessionView> {
    sessions.map_values(|s: Session| s@)
}

/// The values of a list of updates.
pub open spec fn update_views(updates: Seq<StatusUpdate>) -> Seq<UpdateView> {
    updates.map_values(|u: StatusUpdate| u@)
}

/// The shadow record that stands for a session.
pub open spec fn entry_of(s: SessionView) -> MonitoredSession {
    MonitoredSession { id: s.id, pid: s.pid, started_at: s.last_started }
}

/// The sessions that are running under a process.
pub open spec fn running_sessions(sessions: Seq<SessionView>) -> Seq<SessionView> {
    sessions.filter(|s: SessionView| s.status is Running && s.pid is Some)
}

/// The records that stand for a list of sessions: one for each session that
/// is running under a process, in order.
pub open spec fn supervised(sessions: Seq<SessionView>) -> Seq<MonitoredSession> {
    running_sessions(sessions).map_values(|s: SessionView| entry_of(s))
}

/// Every record that stands for a list of sessions has a process, and
/// belongs to a session of the list that is running under that process.
pub proof fn lemma_supervised_are_running(sessions: Seq<SessionView>, k: int)
    requires
        0 <= k < supervised(sessions).len(),
    ensures
        supervised(sessions)[k].pid is Some,
        exists|i: int|
            0 <= i < sessions.len() && (#[trigger] sessions[i]).status is Running
                && supervised(sessions)[k] == entry_of(sessions[i]),
{
    let running = |s: SessionView| s.status is Running && s.pid is Some;
    let kept = running_sessions(sessions);
    sessions.lemma_filter_pred(running, k);
    assert(kept.contains(kept[k]));
    sessions.lemma_filter_contains_rev(running, kept[k]);
    let i = choose|i: int| 0 <= i < sessions.len() && sessions[i] == kept[k];
    assert(sessions[i].status is Running && supervised(sessions)[k] == entry_of(sessions[i]));
}

/// A session that is not running, or has no process, has no record among
/// those that stand for a list in which no other session shares its
/// identity.
pub proof fn lemma_idle_is_not_supervised(sessions: Seq<SessionView>, at: int)
    requires
        0 <= at < sessions.len(),
        !(sessions[at].status is Running && sessions[at].pid is Some),
        forall|i: int|
            0 <= i < sessions.len() && i != at ==> (#[trigger] sessions[i]).id != sessions[at].id,
    ensures
        !tracks(supervised(sessions), sessions[at].id),
{
    let records = supervised(sessions);
    assert forall|k: int| 0 <= k < records.len() implies (#[trigger] records[k]).id
        != sessions[at].id by {
        lemma_supervised_are_running(sessions, k);
        let i = choose|i: int|
            0 <= i < sessions.len() && (#[trigger] sessions[i]).status is Running && records[k]
                == entry_of(sessions[i]);
        assert(records[k].pid is Some);
        assert(sessions[i].pid is Some);
        assert(i != at);
    }
}

/// Some record in `track` belongs to the session `id`.
pub open spec fn tracks(track: Seq<MonitoredSession>, id: u128) -> bool {
    exists|i: int| 0 <= i < track.len() && (#[trigger] track[i]).id == id
}

/// `i` is where the first record of the session `id` stands in `track`.
pub open spec fn is_first_of(track: Seq<MonitoredSession>, id: u128, i: int) -> bool {
    &&& 0 <= i < track.len()
    &&& track[i].id == id
    &&& forall|j: int| 0 <= j < i ==> (#[trigger] track[j]).id != id
}

/// Where the first record of the session `id` stands in `track`.
pub open spec fn first_of(track: Seq<MonitoredSession>, id: u128) -> int {
    choose|i: int| is_first_of(track, id, i)
}

/// `track` with `entry` in the place of the first record of the same
/// session, or at the end where the session has none.
pub open spec fn upsert(track: Seq<MonitoredSession>, entry: MonitoredSession) -> Seq<
    MonitoredSession,
> {
    if tracks(track, entry.id) {
        track.update(first_of(track, entry.id), entry)
    } else {
        track.push(entry)
    }
}

/// `track` without the records of the session `id`.
pub open spec fn without(track: Seq<MonitoredSession>, id: u128) -> Seq<MonitoredSession> {
    track.filter(|e: MonitoredSession| e.id != id)
}

/// A session once it has been started as process `pid` at `at`.
pub open spec fn started(s: SessionView, pid: u32, at: Timestamp) -> SessionView {
    SessionView { pid: Some(pid), status: StatusView::Running, last_started: Some(at), ..s }
}

/// A session once it has been stopped.
pub open spec fn stopped(s: SessionView) -> SessionView {
    SessionView { pid: None, status: StatusView::Stopped, ..s }
}

/// The position of the first record of a session is the only one that
/// [`is_first_of`] accepts.
pub proof fn lemma_first_is_unique(track: Seq<MonitoredSession>, id: u128, i: int)
    requires
        is_first_of(track, id, i),
    ensures
        tracks(track, id),
        first_of(track, id) == i,
{
    let c = first_of(track, id);
    assert(is_first_of(track, id, c));
    if c < i {
        assert(track[c].id != id);
    }
    if i < c {
        assert(track[i].id != id);
    }
}

/// No two records belong to the same session.
pub open spec fn distinct_ids(track: Seq<MonitoredSession>) -> bool {
    forall|i: int, j: int|
        0 <= i < j < track.len() ==> (#[trigger] track[i]).id != (#[trigger] track[j]).id
}

/// Where a session has a record, one of its records is the first.
pub proof fn lemma_tracked_has_first(track: Seq<MonitoredSession>, id: u128, w: int)
    requires
        0 <= w < track.len(),
        track[w].id == id,
    ensures
        exists|i: int| is_first_of(track, id, i),
    decreases w,
{
    if forall|j: int| 0 <= j < w ==> (#[trigger] track[j]).id != id {
        assert(is_first_of(track, id, w));
    } else {
        let j = choose|j: int| 0 <= j < w && (#[trigger] track[j]).id == id;
        lemma_tracked_has_first(track, id, j);
    }
}

/// After a record has been entered, its session is on watch, and the first
/// record of the session is the one entered.
pub proof fn lemma_upsert_tracks(track: Seq<MonitoredSession>, entry: MonitoredSession)
    ensures
        tracks(upsert(track, entry), entry.id),
        upsert(track, entry)[first_of(upsert(track, entry), entry.id)] == entry,
{
    let after = upsert(track, entry);
    if tracks(track, entry.id) {
        let w = choose|i: int| 0 <= i < track.len() && (#[trigger] track[i]).id == entry.id;
        lemma_tracked_has_first(track, entry.id, w);
        let at = first_of(track, entry.id);
        assert(is_first_of(track, entry.id, at));
        assert(after[at] == entry);
        assert forall|j: int| 0 <= j < at implies (#[trigger] after[j]).id != entry.id by {
            assert(after[j] == track[j]);
        }
        assert(is_first_of(after, entry.id, at));
        lemma_first_is_unique(after, entry.id, at);
    } else {
        let at = track.len() as int;
        assert(after[at] == entry);
        assert forall|j: int| 0 <= j < at implies (#[trigger] after[j]).id != entry.id by {
            assert(after[j] == track[j]);
        }
        assert(is_first_of(after, entry.id, at));
        lemma_first_is_unique(after, entry.id, at);
    }
}

/// Entering a record leaves every session with one record at most, where
/// that was so before.
pub proof fn lemma_upsert_keeps_distinct(track: Seq<MonitoredSession>, entry: MonitoredSession)
    requires
        distinct_ids(track),
    ensures
        distinct_ids(upsert(track, entry)),
{
    let after = upsert(track, entry);
    if tracks(track, entry.id) {
        let w = choose|i: int| 0 <= i < track.len() && (#[trigger] track[i]).id == entry.id;
        lemma_tracked_has_first(track, entry.id, w);
        let at = first_of(track, entry.id);
        assert(is_first_of(track, entry.id, at));
        assert forall|i: int, j: int| 0 <= i < j < after.len() implies (#[trigger] after[i]).id != (
        #[trigger] after[j]).id by {
            assert(after[i].id == track[i].id);
            assert(after[j].id == track[j].id);
        }
    } else {
        assert forall|i: int, j: int| 0 <= i < j < after.len() implies (#[trigger] after[i]).id != (
        #[trigger] after[j]).id by {
            if j < track.len() {
                assert(after[i] == track[i]);
                assert(after[j] == track[j]);
            } else {
                assert(after[i] == track[i]);
            }
        }
    }
}

/// What a stop hands back: the marker to append to the log, where a process
/// was recorded, and whether the signal went through.
#[derive(Debug)]
pub struct StopReport {
    pub marker: Option<String>,
    pub outcome: Result<(), ProcessError>,
}

/// The supervisor's record of the processes it watches.
#[derive(Debug)]
pub struct ProcessManager {
    tracking: Vec<MonitoredSession>,
}

impl View for ProcessManager {
    type V = Seq<MonitoredSession>;

    closed spec fn view(&self) -> Seq<MonitoredSession> {
        self.tracking@
    }
}

impl ProcessManager {
    /// A supervisor that watches nothing yet.
    pub fn new() -> (m: ProcessManager)
        ensures
            m@ == Seq::<MonitoredSession>::empty(),
    {
        ProcessManager { tracking: Vec::new() }
    }

    /// A copy of the records, to be examined without holding the
    /// supervisor.
    pub fn snapshot(&self) -> (r: Vec<MonitoredSession>)
        ensures
            r@ == self@,
    {
        let mut out: Vec<MonitoredSession> = Vec::new();
        let mut i: usize = 0;
        while i < self.tracking.len()
            invariant
                i <= self.tracking.len(),
                out@ == self.tracking@.take(i as int),
            decreases self.tracking.len() - i,
        {
            out.push(self.tracking[i]);
            i += 1;
            assert(out@ =~= self.tracking@.take(i as int));
        }
        assert(self.tracking@.take(self.tracking.len() as int) =~= self.tracking@);
        out
    }

    /// Replaces the records wholesale by one for each of `sessions` that is
    /// running under a process, in their order. Sessions that are not
    /// running, or have no process, are not put on watch. Nothing is started
    /// or signalled.
    pub fn sync_monitored_sessions(&mut self, sessions: &[Session])
        ensures
            final(self)@ == supervised(session_views(sessions@)),
    {
        let ghost all = session_views(sessions@);
        let ghost running = |s: SessionView| s.status is Running && s.pid is Some;
        let ghost entry = |s: SessionView| entry_of(s);
        let mut fresh: Vec<MonitoredSession> = Vec::new();
        let mut i: usize = 0;
        assert(fresh@ =~= all.take(0).filter(running).map_values(entry));
        while i < sessions.len()
            invariant
                i <= sessions.len(),
                all == session_views(sessions@),
                running == |s: SessionView| s.status is Running && s.pid is Some,
                entry == |s: SessionView| entry_of(s),
                fresh@ == all.take(i as int).filter(running).map_values(entry),
            decreases sessions.len() - i,
        {
            let session = &sessions[i];
            proof {
                assert(all.take(i + 1) =~= all.take(i as int).push(session@));
                all.take(i as int).lemma_filter_push(session@, running);
            }
            if session.status.is_running() && session.pid.is_some() {
                let ghost kept = all.take(i as int).filter(running);
                fresh.push(
                    MonitoredSession {
                        id: session.id,
                        pid: session.pid,
                        started_at: session.last_started,
                    },
                );
                assert(fresh@ =~= kept.push(session@).map_values(entry));
            }
            i += 1;
        }
        assert(all.take(sessions.len() as int) =~= all);
        self.tracking = fresh;
    }

    /// Records the outcome of trying to spawn the process of `session` at
    /// `started_at`.
    ///
    /// With a process id, the session becomes running under that process,
    /// its record is entered in place of an earlier one or added, and the
    /// "Session Started" marker for its log is returned. With the system's
    /// refusal, the error is returned and nothing changes.
    pub fn start_session(
        &mut self,
        session: &mut Session,
        started_at: Timestamp,
        spawned: Result<u32, String>,
    ) -> (r: Result<String, ProcessError>)
        ensures
            match spawned {
                Ok(pid) => {
                    &&& final(session)@ == started(old(session)@, pid, started_at)
                    &&& final(session)@.status_matches_pid()
                    &&& final(self)@ == upsert(
                        old(self)@,
                        MonitoredSession {
                            id: old(session)@.id,
                            pid: Some(pid),
                            started_at: Some(started_at),
                        },
                    )
                    &&& tracks(final(self)@, old(session)@.id)
                    &&& r matches Ok(text)
                    &&& text@ == marker(
                        MarkerKind::Started,
                        formatted_time(started_at.nanos as int, marker_pattern()),
                        pid,
                    )
                },
                Err(reason) => {
                    &&& final(session)@ == old(session)@
                    &&& final(self)@ == old(self)@
                    &&& r matches Err(e)
                    &&& e@ == ProcessErrorView::SpawnFailed(reason@)
                },
            },
    {
        match spawned {
            Err(reason) => Err(ProcessError::SpawnFailed(reason)),
            Ok(pid) => {
                session.pid = Some(pid);
                session.status = SessionStatus::Running;
                session.last_started = Some(started_at);
                let entry = MonitoredSession {
                    id: session.id,
                    pid: Some(pid),
                    started_at: Some(started_at),
                };
                let mut i: usize = 0;
                let mut found = false;
                while i < self.tracking.len() && !found
                    invariant
                        i <= self.tracking.len(),
                        self.tracking@ == old(self).tracking@,
                        !found ==> forall|j: int| 0 <= j < i ==> (#[trigger] self.tracking@[j]).id != entry.id,
                        found ==> is_first_of(self.tracking@, entry.id, i as int),
                    decreases self.tracking.len() - i + if found { 0int } else { 1int },
                {
                    if self.tracking[i].id == entry.id {
                        found = true;
                    } else {
                        i += 1;
                    }
                }
                proof {
                    lemma_upsert_tracks(self.tracking@, entry);
                }
                if found {
                    proof {
                        lemma_first_is_unique(self.tracking@, entry.id, i as int);
                    }
                    self.tracking.set(i, entry);
                } else {
                    self.tracking.push(entry);
                }
                Ok(marker_text(MarkerKind::Started, started_at, pid))
            },
        }
    }

    /// Records that `session` has been stopped at `stopped_at`.
    ///
    /// `signal_error` is the system's message where the termination signal
    /// that was owed to a recorded process could not be delivered. Whatever
    /// it says, the session becomes stopped without a process and its
    /// records leave the watch. The report carries the "Session Stopped"
    /// marker where a process was recorded, and the signal's failure.
    pub fn stop_session(
        &mut self,
        session: &mut Session,
        stopped_at: Timestamp,
        signal_error: Option<String>,
    ) -> (r: StopReport)
        ensures
            final(session)@ == stopped(old(session)@),
            final(session)@.status_matches_pid(),
            final(self)@ == without(old(self)@, old(session)@.id),
            !tracks(final(self)@, old(session)@.id),
            match old(session)@.pid {
                Some(pid) => r.marker matches Some(text) && text@ == marker(
                    MarkerKind::Stopped,
                    formatted_time(stopped_at.nanos as int, marker_pattern()),
                    pid,
                ),
                None => r.marker is None,
            },
            match (old(session)@.pid, signal_error) {
                (Some(_), Some(reason)) => r.outcome matches Err(e) && e@
                    == ProcessErrorView::SignalFailed(reason@),
                _ => r.outcome is Ok,
            },
    {
        let (marker, outcome) = match session.pid {
            Some(pid) => {
                let text = marker_text(MarkerKind::Stopped, stopped_at, pid);
                let outcome = match signal_error {
                    Some(reason) => Err(ProcessError::SignalFailed(reason)),
                    None => Ok(()),
                };
                (Some(text), outcome)
            },
            None => (None, Ok(())),
        };
        session.status = SessionStatus::Stopped;
        session.pid = None;
        let id = session.id;
        let ghost before = self.tracking@;
        let mut kept: Vec<MonitoredSession> = Vec::new();
        let mut i: usize = 0;
        assert(before.take(0).filter(|e: MonitoredSession| e.id != id) =~= Seq::empty());
        while i < self.tracking.len()
            invariant
                i <= self.tracking.len(),
                self.tracking@ == before,
                kept@ == before.take(i as int).filter(|e: MonitoredSession| e.id != id),
            decreases self.tracking.len() - i,
        {
            let entry = self.tracking[i];
            proof {
                let pred = |e: MonitoredSession| e.id != id;
                assert(before.take(i + 1) =~= before.take(i as int).push(entry));
                before.take(i as int).lemma_filter_push(entry, pred);
            }
            if entry.id != id {
                kept.push(entry);
            }
            i += 1;
        }
        assert(before.take(before.len() as int) =~= before);
        self.tracking = kept;
        proof {
            lemma_without_forgets(before, id);
        }
        StopReport { marker, outcome }
    }
}

/// Once the records of a session are taken away, none of them is left.
pub proof fn lemma_without_forgets(track: Seq<MonitoredSession>, id: u128)
    ensures
        !tracks(without(track, id), id),
{
    let pred = |e: MonitoredSession| e.id != id;
    let rest = track.filter(pred);
    assert forall|i: int| 0 <= i < rest.len() implies (#[trigger] rest[i]).id != id by {
        track.lemma_filter_pred(pred, i);
    }
}


/// Some session in `sessions` has the identity `id`.
pub open spec fn holds(sessions: Seq<SessionView>, id: u128) -> bool {
    exists|i: int| 0 <= i < sessions.len() && (#[trigger] sessions[i]).id == id
}

/// `i` is where the first session with the identity `id` stands.
pub open spec fn is_first_session(sessions: Seq<SessionView>, id: u128, i: int) -> bool {
    &&& 0 <= i < sessions.len()
    &&& sessions[i].id == id
    &&& forall|j: int| 0 <= j < i ==> (#[trigger] sessions[j]).id != id
}

/// Where the first session with the identity `id` stands.
pub open spec fn first_session(sessions: Seq<SessionView>, id: u128) -> int {
    choose|i: int| is_first_session(sessions, id, i)
}

/// A session once an update has been applied to it: status and process
/// are the update's, all else stays.
pub open spec fn updated(s: SessionView, u: UpdateView) -> SessionView {
    SessionView { status: u.status, pid: u.pid, ..s }
}

/// The sessions once one update has been applied: the first session that
/// the update names takes its status and process; an update that names no
/// session changes nothing.
pub open spec fn apply_update(sessions: Seq<SessionView>, u: UpdateView) -> Seq<SessionView> {
    if holds(sessions, u.session_id) {
        let i = first_session(sessions, u.session_id);
        sessions.update(i, updated(sessions[i], u))
    } else {
        sessions
    }
}

/// The sessions once the first `n` of the updates have been applied, in
/// their order.
pub open spec fn apply_updates(sessions: Seq<SessionView>, updates: Seq<UpdateView>, n: nat) -> Seq<
    SessionView,
>
    decreases n,
{
    if n == 0 {
        sessions
    } else {
        apply_update(apply_updates(sessions, updates, (n - 1) as nat), updates[n - 1])
    }
}

/// One of the first `n` updates names a session of `sessions`.
pub open spec fn any_applies(sessions: Seq<SessionView>, updates: Seq<UpdateView>, n: nat) -> bool {
    exists|k: int| 0 <= k < n && holds(sessions, (#[trigger] updates[k]).session_id)
}

/// The identities of the sessions, in order.
pub open spec fn identities(sessions: Seq<SessionView>) -> Seq<u128> {
    sessions.map_values(|s: SessionView| s.id)
}

/// The first position of a session's identity is the only one that
/// [`is_first_session`] accepts.
pub proof fn lemma_first_session_is_unique(sessions: Seq<SessionView>, id: u128, i: int)
    requires
        is_first_session(sessions, id, i),
    ensures
        holds(sessions, id),
        first_session(sessions, id) == i,
{
    let c = first_session(sessions, id);
    assert(is_first_session(sessions, id, c));
    if c < i {
        assert(sessions[c].id != id);
    }
    if i < c {
        assert(sessions[i].id != id);
    }
}

/// Applying an update leaves every session its identity.
pub proof fn lemma_apply_keeps_identities(sessions: Seq<SessionView>, u: UpdateView)
    ensures
        identities(apply_update(sessions, u)) == identities(sessions),
{
    if holds(sessions, u.session_id) {
        let w = choose|i: int| 0 <= i < sessions.len() && (#[trigger] sessions[i]).id == u.session_id;
        lemma_holds_has_first(sessions, u.session_id, w);
        let i = first_session(sessions, u.session_id);
        assert(is_first_session(sessions, u.session_id, i));
    }
    assert(identities(apply_update(sessions, u)) =~= identities(sessions));
}

/// Where a session has the identity `id`, one of them is the first.
pub proof fn lemma_holds_has_first(sessions: Seq<SessionView>, id: u128, w: int)
    requires
        0 <= w < sessions.len(),
        sessions[w].id == id,
    ensures
        exists|i: int| is_first_session(sessions, id, i),
    decreases w,
{
    if forall|j: int| 0 <= j < w ==> (#[trigger] sessions[j]).id != id {
        assert(is_first_session(sessions, id, w));
    } else {
        let j = choose|j: int| 0 <= j < w && (#[trigger] sessions[j]).id == id;
        lemma_holds_has_first(sessions, id, j);
    }
}

/// Two lists of sessions with the same identities hold the same ones.
pub proof fn lemma_same_identities_hold_same(a: Seq<SessionView>, b: Seq<SessionView>, id: u128)
    requires
        identities(a) == identities(b),
    ensures
        holds(a, id) == holds(b, id),
{
    assert(a.len() == identities(a).len());
    assert(b.len() == identities(b).len());
    if holds(a, id) {
        let i = choose|i: int| 0 <= i < a.len() && (#[trigger] a[i]).id == id;
        assert(identities(a)[i] == id);
        assert(identities(b)[i] == b[i].id);
    }
    if holds(b, id) {
        let i = choose|i: int| 0 <= i < b.len() && (#[trigger] b[i]).id == id;
        assert(identities(b)[i] == id);
        assert(identities(a)[i] == a[i].id);
    }
}

/// Whether a position is the first of an identity depends on the
/// identities alone.
pub proof fn lemma_first_depends_on_identities(
    a: Seq<SessionView>,
    b: Seq<SessionView>,
    id: u128,
    i: int,
)
    requires
        identities(a) == identities(b),
        is_first_session(a, id, i),
    ensures
        is_first_session(b, id, i),
{
    assert(a.len() == identities(a).len());
    assert(b.len() == identities(b).len());
    assert(identities(a)[i] == a[i].id);
    assert(identities(b)[i] == b[i].id);
    assert forall|j: int| 0 <= j < i implies (#[trigger] b[j]).id != id by {
        assert(identities(a)[j] == a[j].id);
        assert(identities(b)[j] == b[j].id);
    }
}

/// Applying updates leaves every session its identity.
pub proof fn lemma_drain_keeps_identities(
    sessions: Seq<SessionView>,
    updates: Seq<UpdateView>,
    n: nat,
)
    ensures
        identities(apply_updates(sessions, updates, n)) == identities(sessions),
    decreases n,
{
    if n > 0 {
        lemma_drain_keeps_identities(sessions, updates, (n - 1) as nat);
        lemma_apply_keeps_identities(
            apply_updates(sessions, updates, (n - 1) as nat),
            updates[n - 1],
        );
    }
}

/// Once the reports of deaths have been applied, every session that one of
/// them names shows an error and no process: the first session of each
/// identity reported.
pub proof fn lemma_drained_reports_show(
    sessions: Seq<SessionView>,
    updates: Seq<UpdateView>,
    n: nat,
    k: int,
)
    requires
        n <= updates.len(),
        0 <= k < n,
        holds(sessions, updates[k].session_id),
        forall|j: int|
            0 <= j < updates.len() ==> (#[trigger] updates[j]).status is Error && updates[j].pid
                is None,
    ensures
        ({
            let at = first_session(sessions, updates[k].session_id);
            let after = apply_updates(sessions, updates, n);
            &&& is_first_session(sessions, updates[k].session_id, at)
            &&& after.len() == sessions.len()
            &&& after[at].status is Error
            &&& after[at].pid is None
        }),
    decreases n,
{
    let id = updates[k].session_id;
    let w = choose|i: int| 0 <= i < sessions.len() && (#[trigger] sessions[i]).id == id;
    lemma_holds_has_first(sessions, id, w);
    let at = first_session(sessions, id);
    assert(is_first_session(sessions, id, at));
    let before = apply_updates(sessions, updates, (n - 1) as nat);
    lemma_drain_keeps_identities(sessions, updates, (n - 1) as nat);
    lemma_first_depends_on_identities(sessions, before, id, at);
    lemma_first_session_is_unique(before, id, at);
    assert(before.len() == identities(before).len());
    assert(sessions.len() == identities(sessions).len());
    let last = updates[n - 1];
    assert(last.status is Error && last.pid is None);
    if last.session_id == id {
        assert(apply_update(before, last)[at] == updated(before[at], last));
    } else {
        lemma_drained_reports_show(sessions, updates, (n - 1) as nat, k);
        if holds(before, last.session_id) {
            let v = choose|i: int|
                0 <= i < before.len() && (#[trigger] before[i]).id == last.session_id;
            lemma_holds_has_first(before, last.session_id, v);
            let other = first_session(before, last.session_id);
            assert(is_first_session(before, last.session_id, other));
            assert(other != at);
            assert(apply_update(before, last)[at] == before[at]);
        }
    }
}

impl ProcessManager {
    /// Applies the updates that were waiting, in the order in which they
    /// were reported, and says whether any of them named a session.
    pub fn poll_status_updates(sessions: &mut Vec<Session>, updates: &Vec<StatusUpdate>) -> (changed:
        bool)
        ensures
            session_views(final(sessions)@) == apply_updates(
                session_views(old(sessions)@),
                update_views(updates@),
                updates.len() as nat,
            ),
            changed == any_applies(
                session_views(old(sessions)@),
                update_views(updates@),
                updates.len() as nat,
            ),
    {
        let ghost start = session_views(sessions@);
        let ghost news = update_views(updates@);
        let mut changed = false;
        let mut k: usize = 0;
        while k < updates.len()
            invariant
                k <= updates.len(),
                start == session_views(old(sessions)@),
                news == update_views(updates@),
                session_views(sessions@) == apply_updates(start, news, k as nat),
                identities(session_views(sessions@)) == identities(start),
                changed == any_applies(start, news, k as nat),
            decreases updates.len() - k,
        {
            let update = &updates[k];
            let ghost current = session_views(sessions@);
            let mut i: usize = 0;
            let mut found = false;
            while i < sessions.len() && !found
                invariant
                    i <= sessions.len(),
                    current == session_views(sessions@),
                    !found ==> forall|j: int| 0 <= j < i ==> (#[trigger] current[j]).id != update.session_id,
                    found ==> is_first_session(current, update.session_id, i as int),
                decreases sessions.len() - i + if found { 0int } else { 1int },
            {
                assert(current[i as int] == sessions@[i as int]@);
                if sessions[i].id == update.session_id {
                    found = true;
                } else {
                    i += 1;
                }
            }
            proof {
                lemma_same_identities_hold_same(current, start, update.session_id);
                lemma_apply_keeps_identities(current, news[k as int]);
                assert(news[k as int] == update@);
                if found {
                    lemma_first_session_is_unique(current, update.session_id, i as int);
                } else {
                    assert(!holds(current, update.session_id));
                }
            }
            if found {
                let mut session = sessions.remove(i);
                session.status = update.status.clone();
                session.pid = update.pid;
                sessions.insert(i, session);
                changed = true;
                assert(session_views(sessions@) =~= current.update(
                    i as int,
                    updated(current[i as int], update@),
                ));
            }
            k += 1;
            proof {
                if changed {
                    if found {
                        assert(holds(start, news[k - 1].session_id));
                    } else {
                        let w = choose|w: int| 0 <= w < k - 1 && holds(start, (#[trigger] news[w]).session_id);
                        assert(holds(start, news[w].session_id));
                    }
                    assert(any_applies(start, news, k as nat));
                } else {
                    assert forall|w: int| 0 <= w < k implies !holds(
                        start,
                        (#[trigger] news[w]).session_id,
                    ) by {
                        if w < k - 1 {
                            assert(!any_applies(start, news, (k - 1) as nat));
                        }
                    }
                }
            }
        }
        changed
    }
}

/// While every session records a process exactly when it is running, and
/// every update names a process exactly when it reports a running session,
/// applying the updates keeps it so.
pub proof fn lemma_drain_keeps_status_and_pid(
    sessions: Seq<SessionView>,
    updates: Seq<UpdateView>,
    n: nat,
)
    requires
        n <= updates.len(),
        forall|i: int| 0 <= i < sessions.len() ==> (#[trigger] sessions[i]).status_matches_pid(),
        forall|k: int| 0 <= k < updates.len() ==> (#[trigger] updates[k]).status_matches_pid(),
    ensures
        apply_updates(sessions, updates, n).len() == sessions.len(),
        forall|i: int|
            0 <= i < sessions.len() ==> (#[trigger] apply_updates(
                sessions,
                updates,
                n,
            )[i]).status_matches_pid(),
    decreases n,
{
    if n > 0 {
        lemma_drain_keeps_status_and_pid(sessions, updates, (n - 1) as nat);
        let before = apply_updates(sessions, updates, (n - 1) as nat);
        let u = updates[n - 1];
        assert(u.status_matches_pid());
        if holds(before, u.session_id) {
            let w = choose|i: int| 0 <= i < before.len() && (#[trigger] before[i]).id == u.session_id;
            lemma_holds_has_first(before, u.session_id, w);
            let p = first_session(before, u.session_id);
            assert(is_first_session(before, u.session_id, p));
            let after = apply_update(before, u);
            assert forall|i: int| 0 <= i < sessions.len() implies (#[trigger] after[i]).status_matches_pid() by {
                if i != p {
                    assert(after[i] == before[i]);
                }
            }
        }
    }
}


impl ProcessManager {
    /// Takes off the watch every record of a session in `crashed`, and every
    /// record that has no process.
    pub fn untrack(&mut self, crashed: &Vec<u128>)
        ensures
            final(self)@ == pruned(old(self)@, crashed@),
    {
        let ghost before = self.tracking@;
        let ghost keep = |e: MonitoredSession| e.pid is Some && !crashed@.contains(e.id);
        let mut kept: Vec<MonitoredSession> = Vec::new();
        let mut i: usize = 0;
        assert(before.take(0).filter(keep) =~= Seq::empty());
        while i < self.tracking.len()
            invariant
                i <= self.tracking.len(),
                self.tracking@ == before,
                keep == |e: MonitoredSession| e.pid is Some && !crashed@.contains(e.id),
                kept@ == before.take(i as int).filter(keep),
            decreases self.tracking.len() - i,
        {
            let entry = self.tracking[i];
            let mut listed = false;
            let mut j: usize = 0;
            while j < crashed.len() && !listed
                invariant
                    j <= crashed.len(),
                    !listed ==> forall|k: int| 0 <= k < j ==> crashed@[k] != entry.id,
                    listed ==> crashed@.contains(entry.id),
                decreases crashed.len() - j + if listed { 0int } else { 1int },
            {
                if crashed[j] == entry.id {
                    listed = true;
                } else {
                    j += 1;
                }
            }
            proof {
                assert(before.take(i + 1) =~= before.take(i as int).push(entry));
                before.take(i as int).lemma_filter_push(entry, keep);
            }
            if entry.pid.is_some() && !listed {
                kept.push(entry);
            }
            i += 1;
        }
        assert(before.take(before.len() as int) =~= before);
        self.tracking = kept;
    }
}

} // verus!
