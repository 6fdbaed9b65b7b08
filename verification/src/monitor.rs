//! The liveness monitor: what one round over the watched processes finds,
//! and what is reported and forgotten as a result.

use crate::models::{SessionStatus, StatusView};
use crate::process::{
    diagnostic, diagnostic_of, MarkerKind, MonitoredSession, StatusUpdate, UpdateView,
};
use crate::time::{Timestamp, whole_seconds_between};
use sysinfo::{Pid, ProcessesToUpdate, ProcessRefreshKind, RefreshKind, System};
use vstd::prelude::*;

verus! {

/// The seconds after a start during which a death counts as an early
/// failure.
pub const EARLY_WINDOW_SECONDS: i64 = 15;

/// The seconds the monitor waits between two rounds.
pub const POLL_PERIOD_SECONDS: u64 = 2;

/// What the process table said of one watched process: whether it listed
/// the process, and whether the process was still there when looked at
/// again.
#[derive(Debug, Clone, Copy, PartialEq, Eq, Structural)]
pub struct Probe {
    pub listed: bool,
    pub alive: bool,
}

/// A watched process found dead: the session, the process, and whether it
/// crashed or failed early.
#[derive(Debug, Clone, Copy, PartialEq, Eq, Structural)]
pub struct Death {
    pub id: u128,
    pub pid: u32,
    pub kind: MarkerKind,
}

/// How a wait between two rounds ended.
#[derive(Debug, Clone, Copy, PartialEq, Eq, Structural)]
pub enum WaitOutcome {
    /// The poll period passed without a signal.
    TimedOut,
    /// Shutdown was signalled.
    ShutdownRequested,
    /// The signalling side is gone.
    Disconnected,
}

/// The record is still inside the early-verification window at `now`.
pub open spec fn in_early_window(entry: MonitoredSession, now: Timestamp) -> bool {
    entry.started_at matches Some(start) && whole_seconds_between(now, start)
        < EARLY_WINDOW_SECONDS
}

/// What a round concludes of one record. A record without a process is
/// never reported. A process the table does not list has crashed. A listed
/// process that is inside its early window and gone at the second look has
/// failed early. Every other process is well.
pub open spec fn verdict(entry: MonitoredSession, now: Timestamp, probe: Probe) -> Option<Death> {
    match entry.pid {
        None => None,
        Some(pid) => if !probe.listed {
            Some(Death { id: entry.id, pid, kind: MarkerKind::Crashed })
        } else if in_early_window(entry, now) && !probe.alive {
            Some(Death { id: entry.id, pid, kind: MarkerKind::FailedEarly })
        } else {
            None
        },
    }
}

/// The deaths among the first `n` records, in the order of the records.
pub open spec fn verdicts(
    snapshot: Seq<MonitoredSession>,
    now: Timestamp,
    probes: Seq<Probe>,
    n: nat,
) -> Seq<Death>
    decreases n,
{
    if n == 0 {
        Seq::empty()
    } else {
        let earlier = verdicts(snapshot, now, probes, (n - 1) as nat);
        match verdict(snapshot[n - 1], now, probes[n - 1]) {
            Some(death) => earlier.push(death),
            None => earlier,
        }
    }
}

/// The processes that a table lists.
pub uninterp spec fn listed_pids(table: System) -> Set<u32>;

/// The process of a record is among those listed. A record without a
/// process is never listed.
pub open spec fn is_listed(entry: MonitoredSession, listed: Set<u32>) -> bool {
    entry.pid matches Some(pid) && listed.contains(pid)
}

/// What the first look at the table says of each record: whether the table
/// lists its process.
pub open spec fn first_looks(snapshot: Seq<MonitoredSession>, listed: Set<u32>) -> Seq<bool> {
    Seq::new(snapshot.len(), |i: int| is_listed(snapshot[i], listed))
}

/// A record is looked at a second time: the first look found its process,
/// and the record is inside its early window.
pub open spec fn looked_at_again(entry: MonitoredSession, now: Timestamp, listed: bool) -> bool {
    listed && in_early_window(entry, now)
}

/// What is known of a record after both looks: what the first look found,
/// and, for a record looked at again, whether the table as it then stood
/// still listed its process.
pub open spec fn probe_after(
    entry: MonitoredSession,
    now: Timestamp,
    listed: bool,
    later: Set<u32>,
) -> Probe {
    Probe {
        listed,
        alive: if looked_at_again(entry, now, listed) {
            is_listed(entry, later)
        } else {
            listed
        },
    }
}

/// What the first look found of the record at a position; nothing where
/// the first look did not reach it.
pub open spec fn found_at(listed: Seq<bool>, i: int) -> bool {
    0 <= i < listed.len() && listed[i]
}

/// What is known of each record after both looks.
pub open spec fn second_looks(
    snapshot: Seq<MonitoredSession>,
    now: Timestamp,
    listed: Seq<bool>,
    later: Set<u32>,
) -> Seq<Probe> {
    Seq::new(
        snapshot.len(),
        |i: int| probe_after(snapshot[i], now, found_at(listed, i), later),
    )
}

/// Some record is looked at a second time.
pub open spec fn any_looked_at_again(
    snapshot: Seq<MonitoredSession>,
    now: Timestamp,
    listed: Seq<bool>,
) -> bool {
    exists|i: int|
        0 <= i < snapshot.len() && looked_at_again(
            #[trigger] snapshot[i],
            now,
            found_at(listed, i),
        )
}

/// What a round knows of each record when the table listed `first` at the
/// first look and `later` at the second.
pub open spec fn probes_between(
    snapshot: Seq<MonitoredSession>,
    now: Timestamp,
    first: Set<u32>,
    later: Set<u32>,
) -> Seq<Probe> {
    second_looks(snapshot, now, first_looks(snapshot, first), later)
}

/// The sessions that the deaths belong to.
pub open spec fn dead_ids(deaths: Seq<Death>) -> Seq<u128> {
    deaths.map_values(|d: Death| d.id)
}

/// The records that stay on watch after a round: those that have a process
/// and whose session is not among `crashed`.
pub open spec fn pruned(track: Seq<MonitoredSession>, crashed: Seq<u128>) -> Seq<MonitoredSession> {
    track.filter(|e: MonitoredSession| e.pid is Some && !crashed.contains(e.id))
}

/// The update that reports a death, given what the session's log held.
pub open spec fn report_of(death: Death, log: Option<Seq<char>>) -> UpdateView {
    UpdateView {
        session_id: death.id,
        status: StatusView::Error(diagnostic_of(log, death.kind)),
        pid: None,
    }
}

/// `sysinfo::System`, the table of the processes of this machine. Its
/// contents are not visible to proofs.
#[verifier::external_type_specification]
#[verifier::external_body]
pub struct ExSystem(System);

/// `System::new_with_specifics`, asked for processes only: a table of the
/// processes of this machine. Nothing is promised of what it lists.
#[verifier::external_body]
pub(crate) fn new_process_table() -> System {
    System::new_with_specifics(RefreshKind::new().with_processes(ProcessRefreshKind::everything()))
}

/// `System::refresh_processes` over all processes, dropping the dead ones:
/// brings the table up to date.
#[verifier::external_body]
pub(crate) fn refresh_process_table(table: &mut System) {
    table.refresh_processes(ProcessesToUpdate::All, true);
}

/// `System::process` of `Pid::from_u32`: whether the table lists the
/// process, that is, whether the process is among [`listed_pids`] of the
/// table. What a table lists depends on the machine and on when it was
/// last brought up to date.
#[verifier::external_body]
pub(crate) fn table_lists(table: &System, pid: u32) -> (b: bool)
    ensures
        b == listed_pids(*table).contains(pid),
{
    table.process(Pid::from_u32(pid)).is_some()
}

/// Whether the record is inside the early-verification window at `now`.
pub fn within_early_window(entry: &MonitoredSession, now: Timestamp) -> (b: bool)
    ensures
        b == in_early_window(*entry, now),
{
    match entry.started_at {
        Some(start) => now.seconds_since(&start) < EARLY_WINDOW_SECONDS,
        None => false,
    }
}

/// What a round concludes of one record, given what the table said.
pub fn assess(entry: &MonitoredSession, now: Timestamp, probe: Probe) -> (r: Option<Death>)
    ensures
        r == verdict(*entry, now, probe),
{
    match entry.pid {
        None => None,
        Some(pid) => {
            if !probe.listed {
                Some(Death { id: entry.id, pid, kind: MarkerKind::Crashed })
            } else if within_early_window(entry, now) && !probe.alive {
                Some(Death { id: entry.id, pid, kind: MarkerKind::FailedEarly })
            } else {
                None
            }
        },
    }
}

/// The deaths among the records, given what the table said of each.
pub fn judge(snapshot: &Vec<MonitoredSession>, now: Timestamp, probes: &Vec<Probe>) -> (r: Vec<
    Death,
>)
    requires
        probes.len() == snapshot.len(),
    ensures
        r@ == verdicts(snapshot@, now, probes@, snapshot.len() as nat),
{
    let mut deaths: Vec<Death> = Vec::new();
    let mut i: usize = 0;
    while i < snapshot.len()
        invariant
            i <= snapshot.len(),
            probes.len() == snapshot.len(),
            deaths@ == verdicts(snapshot@, now, probes@, i as nat),
        decreases snapshot.len() - i,
    {
        match assess(&snapshot[i], now, probes[i]) {
            Some(death) => deaths.push(death),
            None => {},
        }
        i += 1;
    }
    deaths
}

/// The first look of a round: whether the table lists the process of each
/// record.
pub fn first_look(table: &System, snapshot: &Vec<MonitoredSession>) -> (r: Vec<bool>)
    ensures
        r@ == first_looks(snapshot@, listed_pids(*table)),
{
    let mut listed: Vec<bool> = Vec::new();
    let mut i: usize = 0;
    while i < snapshot.len()
        invariant
            i <= snapshot.len(),
            listed@ == first_looks(snapshot@, listed_pids(*table)).take(i as int),
        decreases snapshot.len() - i,
    {
        let found = match snapshot[i].pid {
            Some(pid) => table_lists(table, pid),
            None => false,
        };
        listed.push(found);
        i += 1;
        assert(listed@ =~= first_looks(snapshot@, listed_pids(*table)).take(i as int));
    }
    assert(first_looks(snapshot@, listed_pids(*table)).take(snapshot.len() as int)
        =~= first_looks(snapshot@, listed_pids(*table)));
    listed
}

/// Whether any record has to be looked at a second time, given what the
/// first look found.
pub fn second_look_due(snapshot: &Vec<MonitoredSession>, now: Timestamp, listed: &Vec<bool>) -> (b:
    bool)
    ensures
        b == any_looked_at_again(snapshot@, now, listed@),
{
    let mut i: usize = 0;
    while i < snapshot.len()
        invariant
            i <= snapshot.len(),
            forall|k: int|
                0 <= k < i ==> !looked_at_again(#[trigger] snapshot@[k], now, found_at(listed@, k)),
        decreases snapshot.len() - i,
    {
        if i < listed.len() && listed[i] && within_early_window(&snapshot[i], now) {
            return true;
        }
        i += 1;
    }
    false
}

/// The second look of a round: for each record that the first look found
/// inside its early window, whether the table still lists its process.
/// `table` is the table as it stands at the second look.
pub fn second_look(
    table: &System,
    snapshot: &Vec<MonitoredSession>,
    now: Timestamp,
    listed: &Vec<bool>,
) -> (r: Vec<Probe>)
    ensures
        r@ == second_looks(snapshot@, now, listed@, listed_pids(*table)),
{
    let ghost goal = second_looks(snapshot@, now, listed@, listed_pids(*table));
    let mut probes: Vec<Probe> = Vec::new();
    let mut i: usize = 0;
    while i < snapshot.len()
        invariant
            i <= snapshot.len(),
            goal == second_looks(snapshot@, now, listed@, listed_pids(*table)),
            probes@ == goal.take(i as int),
        decreases snapshot.len() - i,
    {
        let entry = &snapshot[i];
        let found = i < listed.len() && listed[i];
        let alive = if found && within_early_window(entry, now) {
            match entry.pid {
                Some(pid) => table_lists(table, pid),
                None => false,
            }
        } else {
            found
        };
        probes.push(Probe { listed: found, alive });
        i += 1;
        assert(probes@ =~= goal.take(i as int));
    }
    assert(goal.take(snapshot.len() as int) =~= goal);
    probes
}

/// One round of the monitor over a snapshot of the records. It reads the
/// process table once and looks each recorded process up in it. Where a
/// process that it found belongs to a record inside its early window, it
/// brings the table up to date once more and looks those processes up
/// again. Then it judges.
///
/// What the table lists cannot be known beforehand; the deaths returned are
/// those that [`verdicts`] draws from what it listed at the first look and
/// at the second.
pub fn detect_deaths(snapshot: &Vec<MonitoredSession>, now: Timestamp) -> (r: Vec<Death>)
    ensures
        exists|first: Set<u32>, later: Set<u32>|
            r@ == verdicts(
                snapshot@,
                now,
                #[trigger] probes_between(snapshot@, now, first, later),
                snapshot.len() as nat,
            ),
{
    let mut table = new_process_table();
    refresh_process_table(&mut table);
    let listed = first_look(&table, snapshot);
    let ghost first = listed_pids(table);
    if second_look_due(snapshot, now, &listed) {
        refresh_process_table(&mut table);
    }
    let probes = second_look(&table, snapshot, now, &listed);
    assert(probes@ == probes_between(snapshot@, now, first, listed_pids(table)));
    judge(snapshot, now, &probes)
}

/// The update that reports `death`, given what the session's log held when
/// it was read after the marker was written: `None` where it could not be
/// read.
pub fn crash_update(death: &Death, log: Option<&str>) -> (u: StatusUpdate)
    ensures
        u@ == report_of(
            *death,
            match log {
                Some(content) => Some(content@),
                None => None,
            },
        ),
        u@.status_matches_pid(),
{
    StatusUpdate {
        session_id: death.id,
        status: SessionStatus::Error(diagnostic(log, death.kind)),
        pid: None,
    }
}

/// The sessions that the deaths belong to.
pub fn crashed_ids(deaths: &Vec<Death>) -> (r: Vec<u128>)
    ensures
        r@ == dead_ids(deaths@),
{
    let mut ids: Vec<u128> = Vec::new();
    let mut i: usize = 0;
    while i < deaths.len()
        invariant
            i <= deaths.len(),
            ids@ == dead_ids(deaths@).take(i as int),
        decreases deaths.len() - i,
    {
        ids.push(deaths[i].id);
        i += 1;
        assert(ids@ =~= dead_ids(deaths@).take(i as int));
    }
    assert(dead_ids(deaths@).take(deaths.len() as int) =~= dead_ids(deaths@));
    ids
}

/// The monitor's own state: whether it goes on watching.
#[derive(Debug)]
pub struct StatusMonitor {
    watching: bool,
}

impl StatusMonitor {
    /// Whether the monitor goes on with another round.
    pub closed spec fn is_watching(&self) -> bool {
        self.watching
    }

    /// A monitor that is watching.
    pub fn new() -> (m: StatusMonitor)
        ensures
            m.is_watching(),
    {
        StatusMonitor { watching: true }
    }

    /// Whether the monitor goes on with another round.
    pub fn watching(&self) -> (b: bool)
        ensures
            b == self.is_watching(),
    {
        self.watching
    }

    /// Takes note of how the wait after a round ended. The monitor repeats
    /// after a timeout; a shutdown signal, or the loss of the side that
    /// would send one, ends it for good.
    pub fn after_wait(&mut self, outcome: WaitOutcome) -> (again: bool)
        ensures
            again == final(self).is_watching(),
            final(self).is_watching() == (old(self).is_watching() && outcome
                == WaitOutcome::TimedOut),
    {
        match outcome {
            WaitOutcome::TimedOut => {},
            _ => {
                self.watching = false;
            },
        }
        self.watching
    }
}

/// A process that the table still lists, and that is gone at the second
/// look while its record is inside the early window, has failed early.
pub proof fn lemma_death_in_window_is_early_failure(
    entry: MonitoredSession,
    now: Timestamp,
    probe: Probe,
)
    requires
        entry.pid is Some,
        in_early_window(entry, now),
        probe.listed,
        !probe.alive,
    ensures
        verdict(entry, now, probe) == Some(
            Death { id: entry.id, pid: entry.pid->0, kind: MarkerKind::FailedEarly },
        ),
{
}

/// A process that dies once its record has left the early window has
/// crashed: it is reported when the table no longer lists it, and as
/// nothing else.
pub proof fn lemma_death_after_window_is_crash(
    entry: MonitoredSession,
    now: Timestamp,
    probe: Probe,
)
    requires
        entry.pid is Some,
        !in_early_window(entry, now),
    ensures
        !probe.listed ==> verdict(entry, now, probe) == Some(
            Death { id: entry.id, pid: entry.pid->0, kind: MarkerKind::Crashed },
        ),
        probe.listed ==> verdict(entry, now, probe) is None,
{
}

/// A process that the table lists at both looks is well, and so is its
/// record after the round.
pub proof fn lemma_listed_at_both_looks_is_well(
    entry: MonitoredSession,
    now: Timestamp,
    first: Set<u32>,
    later: Set<u32>,
)
    requires
        is_listed(entry, first),
        is_listed(entry, later),
    ensures
        verdict(entry, now, probe_after(entry, now, is_listed(entry, first), later)) is None,
{
}

/// A process that the table lists at the first look and no longer at the
/// second, while its record is inside the early window, has failed early.
pub proof fn lemma_gone_at_second_look_is_early_failure(
    entry: MonitoredSession,
    now: Timestamp,
    first: Set<u32>,
    later: Set<u32>,
)
    requires
        is_listed(entry, first),
        in_early_window(entry, now),
        !is_listed(entry, later),
    ensures
        verdict(entry, now, probe_after(entry, now, is_listed(entry, first), later)) == Some(
            Death { id: entry.id, pid: entry.pid->0, kind: MarkerKind::FailedEarly },
        ),
{
}

/// The report of a death keeps status and process in step: it reports an
/// error and names no process.
pub proof fn lemma_report_matches(death: Death, log: Option<Seq<char>>)
    ensures
        report_of(death, log).status_matches_pid(),
        report_of(death, log).status is Error,
        report_of(death, log).pid is None,
{
}

/// Every death a round finds belongs to one of the records it looked at,
/// with that record's process.
pub proof fn lemma_death_has_record(
    snapshot: Seq<MonitoredSession>,
    now: Timestamp,
    probes: Seq<Probe>,
    n: nat,
    k: int,
)
    requires
        n <= snapshot.len(),
        0 <= k < verdicts(snapshot, now, probes, n).len(),
    ensures
        exists|i: int|
            0 <= i < n && (#[trigger] snapshot[i]).id == verdicts(snapshot, now, probes, n)[k].id
                && snapshot[i].pid == Some(verdicts(snapshot, now, probes, n)[k].pid),
    decreases n,
{
    if n > 0 {
        let earlier = verdicts(snapshot, now, probes, (n - 1) as nat);
        if k < earlier.len() {
            lemma_death_has_record(snapshot, now, probes, (n - 1) as nat, k);
            let i = choose|i: int|
                0 <= i < n - 1 && (#[trigger] snapshot[i]).id == earlier[k].id && snapshot[i].pid
                    == Some(earlier[k].pid);
            assert(snapshot[i].id == verdicts(snapshot, now, probes, n)[k].id);
        } else {
            assert(snapshot[n - 1].id == verdicts(snapshot, now, probes, n)[k].id);
        }
    }
}

/// A death is reported once. When the sessions of a round's deaths have
/// been taken off the watch, no later round finds a death of any of them,
/// whatever the process table says then.
pub proof fn lemma_reported_once(
    track: Seq<MonitoredSession>,
    now: Timestamp,
    probes: Seq<Probe>,
    later: Timestamp,
    later_probes: Seq<Probe>,
)
    ensures
        ({
            let deaths = verdicts(track, now, probes, track.len());
            let rest = pruned(track, dead_ids(deaths));
            let again = verdicts(rest, later, later_probes, rest.len());
            forall|k: int, j: int|
                0 <= k < again.len() && 0 <= j < deaths.len() ==> (#[trigger] again[k]).id != (
                #[trigger] deaths[j]).id
        }),
{
    let deaths = verdicts(track, now, probes, track.len());
    let crashed = dead_ids(deaths);
    let keep = |e: MonitoredSession| e.pid is Some && !crashed.contains(e.id);
    let rest = pruned(track, crashed);
    let again = verdicts(rest, later, later_probes, rest.len());
    assert forall|k: int, j: int| 0 <= k < again.len() && 0 <= j < deaths.len() implies (
    #[trigger] again[k]).id != (#[trigger] deaths[j]).id by {
        lemma_death_has_record(rest, later, later_probes, rest.len(), k);
        let i = choose|i: int| 0 <= i < rest.len() && (#[trigger] rest[i]).id == again[k].id;
        track.lemma_filter_pred(keep, i);
        assert(!crashed.contains(rest[i].id));
        assert(crashed[j] == deaths[j].id);
    }
}

/// The records that stay on watch after a round all have a process, and
/// none belongs to a session that was found dead.
pub proof fn lemma_pruned_is_clean(track: Seq<MonitoredSession>, crashed: Seq<u128>)
    ensures
        forall|i: int|
            0 <= i < pruned(track, crashed).len() ==> (#[trigger] pruned(track, crashed)[i]).pid
                is Some && !crashed.contains(pruned(track, crashed)[i].id),
{
    let keep = |e: MonitoredSession| e.pid is Some && !crashed.contains(e.id);
    assert forall|i: int| 0 <= i < pruned(track, crashed).len() implies (#[trigger] pruned(
        track,
        crashed,
    )[i]).pid is Some && !crashed.contains(pruned(track, crashed)[i].id) by {
        track.lemma_filter_pred(keep, i);
    }
}

} // verus!
