//! Daemon lifecycle supervision: start, stop, status.
//!
//! The supervisor owns at most one handle to the daemon process. Because
//! the daemon is spawned detached and can outlive the companion, the
//! supervisor reconciles its local handle against an OS process-table
//! snapshot on every query: it prefers the owned handle and falls back to
//! an exact executable-name scan, adopting a discovered process as an
//! unowned reference.
//!
//! Spawning and killing processes is I/O the caller performs. Each
//! operation is therefore split into a verified planning step (what to
//! spawn or kill, given the current state and a snapshot) and a verified
//! commit step (how the state and the reported outcome follow from what
//! the OS did). The caller runs the plan, reports the per-target results,
//! and the contracts here pin down every decision in between. The
//! intermediate lifecycle states (starting, stopping) exist only inside
//! one serialized operation; the resolved states a caller observes are
//! `Running` and `Stopped`.

use vstd::prelude::*;
use crate::platform::Platform;
use crate::platform::SpawnOptions;
use crate::platform::spec_daemon_executable_name;
use crate::platform::spec_spawn_options;
use crate::platform::daemon_executable_name;
use crate::platform::spawn_options;
use crate::process::ProcessTable;
use crate::process::spec_matching_pids;
use crate::process::spec_has_match;
use crate::process::lemma_matching_pids_correct;
use vstd::string::StringExecFns;

verus! {

/// A reference to the daemon process: its pid, and whether this supervisor
/// spawned it (`owned`) or merely discovered it in the process table after
/// an app restart (`!owned`).
#[derive(Clone, Copy, PartialEq, Eq, Structural, Debug)]
pub struct DaemonHandle {
    pub pid: u64,
    pub owned: bool,
}

/// The resolved daemon state a caller observes.
#[derive(Clone, Copy, PartialEq, Eq, Structural, Debug)]
pub enum DaemonStatus {
    Stopped,
    Running,
}

/// The supervisor's whole state: the platform it resolves facts for and
/// the at-most-one daemon handle it holds. Construct one per application
/// instance and serialize all operations on it.
#[derive(Clone, Copy, Debug)]
pub struct Supervisor {
    pub platform: Platform,
    pub handle: Option<DaemonHandle>,
}

/// What `start` asks the caller to do: nothing (the daemon is already
/// active — a success, not an error), or spawn the daemon executable with
/// the platform's detach options.
#[derive(Clone, Debug)]
pub enum StartStep {
    AlreadyRunning,
    Spawn(SpawnRequest),
}

/// A request to spawn the daemon: the platform-suffixed executable name,
/// its argument list, and the detach options.
#[derive(Clone, Debug)]
pub struct SpawnRequest {
    pub executable: String,
    pub args: Vec<String>,
    pub options: SpawnOptions,
}

/// The successful outcomes of `start`.
#[derive(Clone, Copy, PartialEq, Eq, Structural, Debug)]
pub enum StartOutcome {
    /// The daemon was already active; nothing was spawned.
    AlreadyRunning,
    /// A new daemon process was spawned and is now owned.
    Started { pid: u64 },
}

/// The errors the supervisor surfaces. A spawn failure is fatal to that
/// `start` call only.
#[derive(Clone, PartialEq, Eq, Debug)]
pub enum SupervisorError {
    ProcessSpawn { detail: String },
}

impl SupervisorError {
    /// A human-readable description of the error, for direct display.
    pub fn describe(&self) -> (msg: String)
        ensures
            self matches SupervisorError::ProcessSpawn { detail }
                ==> msg@ == "failed to spawn daemon: "@ + detail@,
    {
        match self {
            SupervisorError::ProcessSpawn { detail } => String::from_str(
                "failed to spawn daemon: ",
            ).concat(detail.as_str()),
        }
    }
}

/// What `stop` asks the caller to do: kill the owned process, kill every
/// table entry matching the daemon's name, or nothing at all.
#[derive(Clone, Debug)]
pub enum StopStep {
    KillOwned { pid: u64 },
    KillMatches { pids: Vec<u64> },
    NotRunning,
}

/// The caller's report of one termination request: the target pid and
/// whether the OS rejected the request.
#[derive(Clone, Copy, PartialEq, Eq, Structural, Debug)]
pub struct KillAttempt {
    pub pid: u64,
    pub denied: bool,
}

/// The outcome of `stop`. Absence of a daemon is a non-fatal result, never
/// an error; rejected termination requests are aggregated, not fail-fast.
#[derive(Clone, PartialEq, Eq, Debug)]
pub enum StopOutcome {
    /// Every requested termination succeeded.
    Stopped,
    /// Some termination requests were denied by the OS; the pids are
    /// listed. The remaining targets were still attempted.
    PartiallyStopped { denied: Vec<u64> },
    /// No owned handle and no matching process: nothing to do.
    NotRunning,
}

/// The pids of the daemon-named records in the snapshot, for this
/// supervisor's platform.
pub open spec fn spec_daemon_matches(s: Supervisor, table: ProcessTable) -> Seq<u64> {
    spec_matching_pids(table.records@, spec_daemon_executable_name(s.platform))
}

/// Whether the supervisor resolves to `Running` against this snapshot: it
/// holds a handle, or the table has a record with the daemon's exact name.
pub open spec fn spec_resolves_running(s: Supervisor, table: ProcessTable) -> bool {
    s.handle is Some || spec_daemon_matches(s, table).len() > 0
}

/// The supervisor state after reconciling against a snapshot: an empty
/// handle beside a matching record adopts the first match as an unowned
/// reference; otherwise nothing changes.
pub open spec fn spec_resolve(s: Supervisor, table: ProcessTable) -> Supervisor {
    if s.handle is None && spec_daemon_matches(s, table).len() > 0 {
        Supervisor {
            platform: s.platform,
            handle: Some(DaemonHandle { pid: spec_daemon_matches(s, table)[0], owned: false }),
        }
    } else {
        s
    }
}

/// Whether `stop` has nothing to terminate: no owned handle, and no record
/// in the snapshot with the daemon's name.
pub open spec fn spec_stop_is_not_running(s: Supervisor, table: ProcessTable) -> bool {
    !(s.handle matches Some(h) && h.owned) && spec_daemon_matches(s, table).len() == 0
}

/// One `start` call against snapshot `table`, in an environment where a
/// spawn, if issued, succeeds and yields `pid`: the next supervisor state,
/// and whether a process was spawned.
pub open spec fn spec_start(s: Supervisor, table: ProcessTable, pid: u64) -> (Supervisor, bool) {
    if spec_resolves_running(s, table) {
        (spec_resolve(s, table), false)
    } else {
        (
            Supervisor {
                platform: s.platform,
                handle: Some(DaemonHandle { pid, owned: true }),
            },
            true,
        )
    }
}

/// The number of processes spawned over a run of consecutive `start`
/// calls with no intervening `stop`: call `i` sees snapshot `tables[i]`
/// and, if it spawns, obtains pid `pids[i]`.
pub open spec fn spec_start_spawn_count(
    s: Supervisor,
    tables: Seq<ProcessTable>,
    pids: Seq<u64>,
) -> nat
    decreases tables.len(),
{
    if tables.len() == 0 || pids.len() == 0 {
        0
    } else {
        let stepped = spec_start(s, tables[0], pids[0]);
        (if stepped.1 {
            1nat
        } else {
            0nat
        }) + spec_start_spawn_count(stepped.0, tables.skip(1), pids.skip(1))
    }
}

/// Law: a supervisor that holds a handle — owned or adopted — never
/// spawns again, whatever snapshots later `start` calls see: every such
/// call resolves to the already-running success outcome.
pub proof fn lemma_running_never_spawns(s: Supervisor, tables: Seq<ProcessTable>, pids: Seq<u64>)
    requires
        s.handle is Some,
    ensures
        spec_start_spawn_count(s, tables, pids) == 0,
    decreases tables.len(),
{
    if tables.len() > 0 && pids.len() > 0 {
        let stepped = spec_start(s, tables[0], pids[0]);
        assert(stepped.0 == s);
        lemma_running_never_spawns(s, tables.skip(1), pids.skip(1));
    }
}

/// Law: over any sequence of `start` calls with no intervening `stop`, at
/// most one process is ever spawned. The first call may spawn; every later
/// call finds the supervisor running and reports the already-running
/// success outcome instead.
pub proof fn lemma_start_spawns_at_most_once(
    s: Supervisor,
    tables: Seq<ProcessTable>,
    pids: Seq<u64>,
)
    ensures
        spec_start_spawn_count(s, tables, pids) <= 1,
{
    if tables.len() > 0 && pids.len() > 0 {
        let stepped = spec_start(s, tables[0], pids[0]);
        assert(stepped.0.handle is Some);
        lemma_running_never_spawns(stepped.0, tables.skip(1), pids.skip(1));
    }
}

/// Law: `stop` on a supervisor holding no handle, against a snapshot with
/// no record named like the daemon, has nothing to terminate: it yields
/// the non-error "not running" outcome.
pub proof fn lemma_stop_not_running(s: Supervisor, table: ProcessTable)
    requires
        s.handle is None,
        !spec_has_match(table.records@, spec_daemon_executable_name(s.platform)),
    ensures
        spec_stop_is_not_running(s, table),
{
    lemma_matching_pids_correct(table.records@, spec_daemon_executable_name(s.platform));
}

/// The pids among `attempts` whose termination the OS rejected, in order.
pub open spec fn spec_denied_pids(attempts: Seq<KillAttempt>) -> Seq<u64>
    decreases attempts.len(),
{
    if attempts.len() == 0 {
        Seq::empty()
    } else {
        let rest = spec_denied_pids(attempts.drop_last());
        if attempts.last().denied {
            rest.push(attempts.last().pid)
        } else {
            rest
        }
    }
}

impl Supervisor {
    /// A fresh supervisor for `platform`, holding no handle.
    pub fn new(platform: Platform) -> (s: Self)
        ensures
            s == (Supervisor { platform, handle: None }),
    {
        Supervisor { platform, handle: None }
    }

    /// Resolves the current daemon state against a fresh snapshot. The only
    /// state change is reconciliation itself: a discovered, unowned daemon
    /// is adopted so later operations see a consistent picture.
    pub fn status(&mut self, table: &ProcessTable) -> (st: DaemonStatus)
        ensures
            *final(self) == spec_resolve(*old(self), *table),
            st is Running <==> spec_resolves_running(*old(self), *table),
    {
        match self.handle {
            Some(_) => DaemonStatus::Running,
            None => {
                let name = daemon_executable_name(self.platform);
                let pids = table.matching_pids(&name);
                if pids.len() > 0 {
                    self.handle = Some(DaemonHandle { pid: pids[0], owned: false });
                    DaemonStatus::Running
                } else {
                    DaemonStatus::Stopped
                }
            },
        }
    }

    /// Plans a `start`: if the daemon is already active — locally held or
    /// discovered in the snapshot — the call is complete with the
    /// idempotent already-running outcome and nothing is spawned.
    /// Otherwise the caller must spawn the returned request and report the
    /// result to `start_commit`.
    pub fn start_plan(&mut self, table: &ProcessTable) -> (step: StartStep)
        ensures
            spec_resolves_running(*old(self), *table) ==> *final(self) == spec_resolve(
                *old(self),
                *table,
            ) && step is AlreadyRunning,
            !spec_resolves_running(*old(self), *table) ==> *final(self) == *old(self)
                && final(self).handle is None && (step matches StartStep::Spawn(req)
                && req.executable@ == spec_daemon_executable_name(old(self).platform)
                && req.args@.len() == 1 && req.args@[0]@ == "daemon"@
                && req.options == spec_spawn_options(old(self).platform)),
    {
        let name = daemon_executable_name(self.platform);
        let already = match self.handle {
            Some(_) => true,
            None => {
                let pids = table.matching_pids(&name);
                if pids.len() > 0 {
                    self.handle = Some(DaemonHandle { pid: pids[0], owned: false });
                    true
                } else {
                    false
                }
            },
        };
        if already {
            StartStep::AlreadyRunning
        } else {
            let mut args: Vec<String> = Vec::new();
            args.push(String::from_str("daemon"));
            StartStep::Spawn(
                SpawnRequest { executable: name, args, options: spawn_options(self.platform) },
            )
        }
    }

    /// Commits the spawn the caller performed for a planned `start`. A
    /// successful spawn is recorded as the owned handle; a failed spawn
    /// leaves the supervisor stopped and surfaces a spawn error fatal to
    /// this call only.
    pub fn start_commit(&mut self, spawned: Result<u64, String>) -> (r: Result<
        StartOutcome,
        SupervisorError,
    >)
        requires
            old(self).handle is None,
        ensures
            spawned matches Ok(pid) ==> *final(self) == (Supervisor {
                platform: old(self).platform,
                handle: Some(DaemonHandle { pid, owned: true }),
            }) && r == Ok::<StartOutcome, SupervisorError>(StartOutcome::Started { pid }),
            spawned matches Err(detail) ==> *final(self) == *old(self) && (r matches Err(e)
                && e == (SupervisorError::ProcessSpawn { detail })),
    {
        match spawned {
            Ok(pid) => {
                self.handle = Some(DaemonHandle { pid, owned: true });
                Ok(StartOutcome::Started { pid })
            },
            Err(detail) => Err(SupervisorError::ProcessSpawn { detail }),
        }
    }

    /// Plans a `stop`: terminate the owned process if one is held;
    /// otherwise terminate every record in the snapshot whose name matches
    /// the daemon's exactly; if neither finds anything, there is nothing
    /// to do and the outcome is the non-error "not running". The handle is
    /// released either way.
    pub fn stop_plan(&mut self, table: &ProcessTable) -> (step: StopStep)
        ensures
            *final(self) == (Supervisor { platform: old(self).platform, handle: None }),
            (old(self).handle matches Some(h) && h.owned) ==> step == (StopStep::KillOwned {
                pid: old(self).handle->Some_0.pid,
            }),
            !(old(self).handle matches Some(h) && h.owned) && spec_daemon_matches(
                *old(self),
                *table,
            ).len() > 0 ==> (step matches StopStep::KillMatches { pids } && pids@
                == spec_daemon_matches(*old(self), *table)),
            step is NotRunning <==> spec_stop_is_not_running(*old(self), *table),
    {
        let owned_pid: Option<u64> = match self.handle {
            Some(h) => if h.owned {
                Some(h.pid)
            } else {
                None
            },
            None => None,
        };
        self.handle = None;
        match owned_pid {
            Some(pid) => StopStep::KillOwned { pid },
            None => {
                let name = daemon_executable_name(self.platform);
                let pids = table.matching_pids(&name);
                if pids.len() > 0 {
                    StopStep::KillMatches { pids }
                } else {
                    StopStep::NotRunning
                }
            },
        }
    }
}

/// Aggregates the caller's termination reports for a planned `stop` into
/// its outcome: absence of a daemon is the non-error "not running" result;
/// denied terminations are collected, in order, into a partial outcome
/// rather than aborting the remaining targets.
pub fn stop_finish(step: &StopStep, attempts: &Vec<KillAttempt>) -> (out: StopOutcome)
    ensures
        out is NotRunning <==> step is NotRunning,
        step !is NotRunning && spec_denied_pids(attempts@).len() == 0 ==> out is Stopped,
        step !is NotRunning && spec_denied_pids(attempts@).len() > 0 ==> (out matches
            StopOutcome::PartiallyStopped { denied } && denied@ == spec_denied_pids(attempts@)),
{
    match step {
        StopStep::NotRunning => StopOutcome::NotRunning,
        _ => {
            let denied = denied_pids(attempts);
            if denied.len() == 0 {
                StopOutcome::Stopped
            } else {
                StopOutcome::PartiallyStopped { denied }
            }
        },
    }
}

/// Collects the pids whose termination was denied, in report order.
pub fn denied_pids(attempts: &Vec<KillAttempt>) -> (denied: Vec<u64>)
    ensures
        denied@ == spec_denied_pids(attempts@),
{
    let mut denied: Vec<u64> = Vec::new();
    let n = attempts.len();
    let mut i: usize = 0;
    while i < n
        invariant
            i <= n,
            n == attempts@.len(),
            denied@ == spec_denied_pids(attempts@.take(i as int)),
        decreases n - i,
    {
        proof {
            assert(attempts@.take(i + 1 as int).drop_last() =~= attempts@.take(i as int));
            assert(attempts@.take(i + 1 as int).last() == attempts@[i as int]);
        }
        if attempts[i].denied {
            denied.push(attempts[i].pid);
        }
        i = i + 1;
    }
    proof {
        assert(attempts@.take(n as int) =~= attempts@);
    }
    denied
}

} // verus!
