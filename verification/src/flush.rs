//! The emergency kill-switch: one compound, best-effort recovery
//! operation. It stops the daemon (ignoring a "not running" outcome),
//! force-terminates every process-table entry named on the platform's
//! auxiliary kill list — except any entry carrying the companion's own
//! image name, which must never be terminated — and resets the agent's
//! scratch directory by removing it recursively and recreating it empty.
//!
//! The caller executes the plan's kills and the directory reset and
//! reports each sub-step's result; no individual failure stops the
//! remaining steps, and the aggregate report, never an error, says
//! whether cleanup fully succeeded and which parts did not.

use vstd::prelude::*;
use crate::platform::spec_aux_kill_list;
use crate::platform::spec_scratch_dir;
use crate::platform::aux_kill_list;
use crate::platform::scratch_dir;
use crate::process::ProcessRecord;
use crate::process::ProcessTable;
use crate::process::spec_matching_pids;
use crate::process::table_wf;
use crate::process::lemma_matching_pids_correct;
use crate::supervisor::KillAttempt;
use crate::supervisor::denied_pids;
use crate::supervisor::StopStep;
use crate::supervisor::Supervisor;
use crate::supervisor::spec_daemon_matches;
use crate::supervisor::spec_denied_pids;
use crate::supervisor::spec_stop_is_not_running;

verus! {

/// Everything the caller must execute for one emergency flush: the stop
/// step for the daemon itself, the auxiliary processes to force-kill, and
/// the scratch directory to remove recursively and recreate empty. The
/// scratch reset is unconditional, so repeating a flush leaves the
/// directory present and empty again.
#[derive(Clone, Debug)]
pub struct FlushPlan {
    pub stop: StopStep,
    pub kill_pids: Vec<u64>,
    pub scratch_dir: String,
}

/// The aggregate outcome of a flush: which sub-steps failed, never an
/// error — the panic button always completes.
#[derive(Clone, PartialEq, Eq, Debug)]
pub struct FlushReport {
    /// Pids of the stop step whose termination the OS rejected.
    pub stop_denied: Vec<u64>,
    /// Auxiliary kill targets whose termination the OS rejected.
    pub kills_denied: Vec<u64>,
    /// Whether the scratch directory reset succeeded.
    pub scratch_ok: bool,
    /// Whether every sub-step succeeded.
    pub fully_ok: bool,
}

/// The pids an emergency flush targets: for each name on the kill list,
/// in list order, every record with exactly that name — except that a
/// name equal to `self_name`, the companion's own process image, is
/// skipped entirely.
pub open spec fn spec_flush_targets(
    records: Seq<ProcessRecord>,
    kill_list: Seq<Seq<char>>,
    self_name: Seq<char>,
) -> Seq<u64>
    decreases kill_list.len(),
{
    if kill_list.len() == 0 {
        Seq::empty()
    } else {
        let head = if kill_list[0] == self_name {
            Seq::empty()
        } else {
            spec_matching_pids(records, kill_list[0])
        };
        head + spec_flush_targets(records, kill_list.skip(1), self_name)
    }
}

/// Every targeted pid belongs to a record whose name is on the kill list
/// and differs from the companion's own image name.
pub proof fn lemma_flush_targets_from_records(
    records: Seq<ProcessRecord>,
    kill_list: Seq<Seq<char>>,
    self_name: Seq<char>,
)
    ensures
        forall|j: int|
            0 <= j < spec_flush_targets(records, kill_list, self_name).len()
                ==> exists|k: int|
                    0 <= k < records.len() && records[k].pid == #[trigger] spec_flush_targets(
                        records,
                        kill_list,
                        self_name,
                    )[j] && kill_list.contains(records[k].name@) && records[k].name@ != self_name,
    decreases kill_list.len(),
{
    if kill_list.len() > 0 {
        lemma_flush_targets_from_records(records, kill_list.skip(1), self_name);
        lemma_matching_pids_correct(records, kill_list[0]);
        let whole = spec_flush_targets(records, kill_list, self_name);
        let head_len = if kill_list[0] == self_name {
            0int
        } else {
            spec_matching_pids(records, kill_list[0]).len() as int
        };
        assert forall|j: int| 0 <= j < whole.len() implies exists|k: int|
            0 <= k < records.len() && records[k].pid == #[trigger] whole[j] && kill_list.contains(
                records[k].name@,
            ) && records[k].name@ != self_name by {
            if j < head_len {
                let head = spec_matching_pids(records, kill_list[0]);
                assert(whole[j] == head[j]);
                let k = choose|k: int|
                    0 <= k < records.len() && records[k].name@ == kill_list[0] && records[k].pid
                        == head[j];
                assert(kill_list.contains(records[k].name@)) by {
                    assert(kill_list[0] == records[k].name@);
                }
            } else {
                let tail = spec_flush_targets(records, kill_list.skip(1), self_name);
                assert(whole[j] == tail[j - head_len]);
                let k = choose|k: int|
                    0 <= k < records.len() && records[k].pid == tail[j - head_len] && kill_list.skip(
                        1,
                    ).contains(records[k].name@) && records[k].name@ != self_name;
                assert(kill_list.contains(records[k].name@)) by {
                    let m = choose|m: int|
                        0 <= m < kill_list.skip(1).len() && kill_list.skip(1)[m]
                            == records[k].name@;
                    assert(kill_list[m + 1] == records[k].name@);
                }
            }
        }
    }
}

/// Law: an emergency flush never terminates the supervising application
/// itself. In a well-formed snapshot (pids are pairwise distinct, as OS
/// pids are), no pid of a record named `self_name` is ever among the
/// flush targets, whatever the kill list holds.
pub proof fn lemma_flush_never_targets_self(
    records: Seq<ProcessRecord>,
    kill_list: Seq<Seq<char>>,
    self_name: Seq<char>,
)
    requires
        table_wf(records),
    ensures
        forall|i: int, j: int|
            0 <= i < records.len() && (#[trigger] records[i].name@) == self_name && 0 <= j
                < spec_flush_targets(records, kill_list, self_name).len()
                ==> (#[trigger] spec_flush_targets(records, kill_list, self_name)[j])
                != records[i].pid,
{
    lemma_flush_targets_from_records(records, kill_list, self_name);
}

/// The observable state of the scratch directory: whether it exists and
/// how many entries it holds.
pub struct ScratchDirState {
    pub present: bool,
    pub entries: nat,
}

/// The effect of the plan's scratch reset on the directory: removed
/// recursively if present, then recreated empty — whatever state it was
/// in before.
pub open spec fn spec_apply_scratch_reset(d: ScratchDirState) -> ScratchDirState {
    ScratchDirState { present: true, entries: 0 }
}

/// Law: the scratch reset a flush plans leaves the directory present and
/// empty, and applying it again — as a second flush in immediate
/// succession does, the plan being unconditional — changes nothing:
/// the reset is idempotent.
pub proof fn lemma_scratch_reset_idempotent(d: ScratchDirState)
    ensures
        spec_apply_scratch_reset(d).present,
        spec_apply_scratch_reset(d).entries == 0,
        spec_apply_scratch_reset(spec_apply_scratch_reset(d)) == spec_apply_scratch_reset(d),
{
}

/// Plans one emergency flush against the current supervisor state and a
/// fresh snapshot: the daemon stop step (its "not running" outcome is
/// ignored by design), the self-excluded auxiliary kill targets, and the
/// unconditional scratch-directory reset. Releases the daemon handle.
pub fn flush_plan(sup: &mut Supervisor, table: &ProcessTable, self_name: &String) -> (p: FlushPlan)
    ensures
        *final(sup) == (Supervisor { platform: old(sup).platform, handle: None }),
        (old(sup).handle matches Some(h) && h.owned) ==> p.stop == (StopStep::KillOwned {
            pid: old(sup).handle->Some_0.pid,
        }),
        !(old(sup).handle matches Some(h) && h.owned) && spec_daemon_matches(
            *old(sup),
            *table,
        ).len() > 0 ==> (p.stop matches StopStep::KillMatches { pids } && pids@
            == spec_daemon_matches(*old(sup), *table)),
        p.stop is NotRunning <==> spec_stop_is_not_running(*old(sup), *table),
        p.kill_pids@ == spec_flush_targets(
            table.records@,
            spec_aux_kill_list(old(sup).platform),
            self_name@,
        ),
        p.scratch_dir@ == spec_scratch_dir(old(sup).platform),
{
    let platform = sup.platform;
    let stop = sup.stop_plan(table);
    let names = aux_kill_list(platform);
    let mut kill_pids: Vec<u64> = Vec::new();
    let n = names.len();
    let mut i: usize = 0;
    proof {
        assert(names@.map_values(|nm: String| nm@).skip(0) =~= names@.map_values(
            |nm: String| nm@,
        ));
    }
    while i < n
        invariant
            i <= n,
            n == names@.len(),
            names@.map_values(|nm: String| nm@) == spec_aux_kill_list(platform),
            kill_pids@ + spec_flush_targets(
                table.records@,
                names@.map_values(|nm: String| nm@).skip(i as int),
                self_name@,
            ) == spec_flush_targets(
                table.records@,
                names@.map_values(|nm: String| nm@),
                self_name@,
            ),
        decreases n - i,
    {
        let ghost name_views = names@.map_values(|nm: String| nm@);
        proof {
            assert(name_views.skip(i as int).len() > 0);
            assert(name_views.skip(i as int)[0] == name_views[i as int]);
            assert(name_views.skip(i as int).skip(1) =~= name_views.skip(i + 1 as int));
        }
        if !(names[i] == *self_name) {
            let mut found = table.matching_pids(&names[i]);
            kill_pids.append(&mut found);
        }
        i = i + 1;
        proof {
            assert(kill_pids@ + spec_flush_targets(
                table.records@,
                name_views.skip(i as int),
                self_name@,
            ) =~= spec_flush_targets(table.records@, name_views, self_name@));
        }
    }
    proof {
        assert(names@.map_values(|nm: String| nm@).skip(n as int).len() == 0);
        assert(kill_pids@ =~= kill_pids@ + spec_flush_targets(
            table.records@,
            names@.map_values(|nm: String| nm@).skip(n as int),
            self_name@,
        ));
    }
    FlushPlan { stop, kill_pids, scratch_dir: scratch_dir(platform) }
}

/// Aggregates the sub-step results of an executed flush into one report:
/// the denied pids of the stop step and of the auxiliary kills, in order,
/// and whether the scratch reset succeeded. Cleanup fully succeeded
/// exactly when nothing was denied and the reset worked; failures are
/// detail for diagnostics, never an error.
pub fn flush_finish(
    stop_attempts: &Vec<KillAttempt>,
    kill_attempts: &Vec<KillAttempt>,
    scratch_ok: bool,
) -> (r: FlushReport)
    ensures
        r.stop_denied@ == spec_denied_pids(stop_attempts@),
        r.kills_denied@ == spec_denied_pids(kill_attempts@),
        r.scratch_ok == scratch_ok,
        r.fully_ok <==> (spec_denied_pids(stop_attempts@).len() == 0 && spec_denied_pids(
            kill_attempts@,
        ).len() == 0 && scratch_ok),
{
    let stop_denied = denied_pids(stop_attempts);
    let kills_denied = denied_pids(kill_attempts);
    let fully_ok = stop_denied.len() == 0 && kills_denied.len() == 0 && scratch_ok;
    FlushReport { stop_denied, kills_denied, scratch_ok, fully_ok }
}

} // verus!
