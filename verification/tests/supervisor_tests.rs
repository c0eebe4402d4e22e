use bambooclaw_supervisor::platform::Platform;
use bambooclaw_supervisor::process::ProcessRecord;
use bambooclaw_supervisor::process::ProcessTable;
use bambooclaw_supervisor::supervisor::stop_finish;
use bambooclaw_supervisor::supervisor::DaemonStatus;
use bambooclaw_supervisor::supervisor::KillAttempt;
use bambooclaw_supervisor::supervisor::StartOutcome;
use bambooclaw_supervisor::supervisor::StartStep;
use bambooclaw_supervisor::supervisor::StopOutcome;
use bambooclaw_supervisor::supervisor::StopStep;
use bambooclaw_supervisor::supervisor::Supervisor;

fn record(pid: u64, name: &str) -> ProcessRecord {
    ProcessRecord { pid, name: name.to_string(), args: Vec::new() }
}

/// A fake process backend for driving the supervisor's plan/commit steps:
/// it "spawns" by handing out pids and counts how often it was asked to.
struct FakeBackend {
    next_pid: u64,
    spawn_count: usize,
}

impl FakeBackend {
    fn new() -> Self {
        FakeBackend { next_pid: 100, spawn_count: 0 }
    }

    fn spawn(&mut self) -> Result<u64, String> {
        self.spawn_count += 1;
        let pid = self.next_pid;
        self.next_pid += 1;
        Ok(pid)
    }
}

fn start(sup: &mut Supervisor, table: &ProcessTable, backend: &mut FakeBackend) -> StartOutcome {
    match sup.start_plan(table) {
        StartStep::AlreadyRunning => StartOutcome::AlreadyRunning,
        StartStep::Spawn(_req) => sup.start_commit(backend.spawn()).unwrap(),
    }
}

#[test]
fn repeated_start_spawns_once() {
    let table = ProcessTable::empty();
    let mut sup = Supervisor::new(Platform::Linux);
    let mut backend = FakeBackend::new();

    let first = start(&mut sup, &table, &mut backend);
    assert_eq!(first, StartOutcome::Started { pid: 100 });
    let second = start(&mut sup, &table, &mut backend);
    assert_eq!(second, StartOutcome::AlreadyRunning);
    let third = start(&mut sup, &table, &mut backend);
    assert_eq!(third, StartOutcome::AlreadyRunning);
    assert_eq!(backend.spawn_count, 1);
}

#[test]
fn start_is_already_running_when_table_has_daemon() {
    let table = ProcessTable { records: vec![record(7, "bambooclaw")] };
    let mut sup = Supervisor::new(Platform::Linux);
    let mut backend = FakeBackend::new();

    let outcome = start(&mut sup, &table, &mut backend);
    assert_eq!(outcome, StartOutcome::AlreadyRunning);
    assert_eq!(backend.spawn_count, 0);
}

#[test]
fn failed_spawn_leaves_supervisor_stopped() {
    let table = ProcessTable::empty();
    let mut sup = Supervisor::new(Platform::Linux);

    let step = sup.start_plan(&table);
    assert!(matches!(step, StartStep::Spawn(_)));
    let r = sup.start_commit(Err("no such file".to_string()));
    assert!(r.is_err());
    assert_eq!(sup.status(&table), DaemonStatus::Stopped);

    // the next start may try again
    let step2 = sup.start_plan(&table);
    assert!(matches!(step2, StartStep::Spawn(_)));
}

#[test]
fn spawn_request_uses_platform_facts() {
    let table = ProcessTable::empty();

    let mut sup = Supervisor::new(Platform::Windows);
    match sup.start_plan(&table) {
        StartStep::Spawn(req) => {
            assert_eq!(req.executable, "bambooclaw.exe");
            assert_eq!(req.args, vec!["daemon".to_string()]);
            assert!(req.options.hide_window);
            assert!(req.options.detach_stdio);
        }
        StartStep::AlreadyRunning => panic!("expected a spawn request"),
    }

    let mut sup = Supervisor::new(Platform::Linux);
    match sup.start_plan(&table) {
        StartStep::Spawn(req) => {
            assert_eq!(req.executable, "bambooclaw");
            assert!(!req.options.hide_window);
            assert!(req.options.detach_stdio);
        }
        StartStep::AlreadyRunning => panic!("expected a spawn request"),
    }
}

#[test]
fn stop_without_daemon_is_not_running_not_an_error() {
    let table = ProcessTable::empty();
    let mut sup = Supervisor::new(Platform::Linux);

    let step = sup.stop_plan(&table);
    assert!(matches!(step, StopStep::NotRunning));
    let out = stop_finish(&step, &Vec::new());
    assert_eq!(out, StopOutcome::NotRunning);
}

#[test]
fn stop_falls_back_to_table_scan_by_exact_name() {
    // exact-name matching: "bambooclaw-helper" and "Bambooclaw" do not match
    let table = ProcessTable {
        records: vec![
            record(1, "bambooclaw"),
            record(2, "bambooclaw-helper"),
            record(3, "Bambooclaw"),
            record(4, "bambooclaw"),
        ],
    };
    let mut sup = Supervisor::new(Platform::Linux);

    let step = sup.stop_plan(&table);
    match &step {
        StopStep::KillMatches { pids } => assert_eq!(pids, &vec![1, 4]),
        other => panic!("expected KillMatches, got {:?}", other),
    }

    // one kill denied: continue-on-error, aggregated into a partial outcome
    let attempts = vec![
        KillAttempt { pid: 1, denied: true },
        KillAttempt { pid: 4, denied: false },
    ];
    let out = stop_finish(&step, &attempts);
    assert_eq!(out, StopOutcome::PartiallyStopped { denied: vec![1] });
}

#[test]
fn stop_of_owned_daemon_kills_it_and_releases_the_handle() {
    let table = ProcessTable::empty();
    let mut sup = Supervisor::new(Platform::Linux);
    let mut backend = FakeBackend::new();

    start(&mut sup, &table, &mut backend);
    let step = sup.stop_plan(&table);
    assert!(matches!(step, StopStep::KillOwned { pid: 100 }));
    let out = stop_finish(&step, &vec![KillAttempt { pid: 100, denied: false }]);
    assert_eq!(out, StopOutcome::Stopped);
    assert_eq!(sup.status(&table), DaemonStatus::Stopped);
}

#[test]
fn status_adopts_discovered_daemon_as_unowned() {
    // the app was restarted while the detached daemon kept running
    let table = ProcessTable { records: vec![record(55, "bambooclaw")] };
    let mut sup = Supervisor::new(Platform::Linux);

    assert_eq!(sup.status(&table), DaemonStatus::Running);

    // the adopted reference is unowned, so stop goes through the table scan
    let step = sup.stop_plan(&table);
    match &step {
        StopStep::KillMatches { pids } => assert_eq!(pids, &vec![55]),
        other => panic!("expected KillMatches, got {:?}", other),
    }
}

#[test]
fn end_to_end_start_status_stop_status() {
    let table = ProcessTable::empty();
    let mut sup = Supervisor::new(Platform::MacOs);
    let mut backend = FakeBackend::new();

    assert_eq!(start(&mut sup, &table, &mut backend), StartOutcome::Started { pid: 100 });
    assert_eq!(sup.status(&table), DaemonStatus::Running);

    let step = sup.stop_plan(&table);
    assert!(matches!(step, StopStep::KillOwned { pid: 100 }));
    let out = stop_finish(&step, &vec![KillAttempt { pid: 100, denied: false }]);
    assert_eq!(out, StopOutcome::Stopped);

    assert_eq!(sup.status(&table), DaemonStatus::Stopped);
}

#[test]
fn spawn_error_describes_itself() {
    let table = ProcessTable::empty();
    let mut sup = Supervisor::new(Platform::Linux);
    sup.start_plan(&table);
    let err = sup.start_commit(Err("permission denied".to_string())).unwrap_err();
    assert_eq!(err.describe(), "failed to spawn daemon: permission denied");
}
