//! Point-in-time snapshot of the OS process table. The caller enumerates
//! the running processes and hands the snapshot in as plain records; the
//! library's only operation on it — exact executable-name matching — is
//! verified here.

use vstd::prelude::*;

verus! {

/// One running process as the OS reports it: its identifier, the exact
/// executable name, and the argument list. Produced transiently by a
/// snapshot; never persisted.
#[derive(Clone, Debug)]
pub struct ProcessRecord {
    pub pid: u64,
    pub name: String,
    pub args: Vec<String>,
}

/// A snapshot of the process table, refreshed on demand by the caller.
/// A read-only view of OS state.
#[derive(Clone, Debug)]
pub struct ProcessTable {
    pub records: Vec<ProcessRecord>,
}

/// The pids of the records whose executable name is exactly `name`, in
/// table order.
pub open spec fn spec_matching_pids(records: Seq<ProcessRecord>, name: Seq<char>) -> Seq<u64>
    decreases records.len(),
{
    if records.len() == 0 {
        Seq::empty()
    } else {
        let rest = spec_matching_pids(records.drop_last(), name);
        if records.last().name@ == name {
            rest.push(records.last().pid)
        } else {
            rest
        }
    }
}

/// Whether some record in `records` has executable name exactly `name`.
pub open spec fn spec_has_match(records: Seq<ProcessRecord>, name: Seq<char>) -> bool {
    exists|i: int| 0 <= i < records.len() && records[i].name@ == name
}

/// A table snapshot is well formed when the OS-assigned pids are pairwise
/// distinct, as they are for any set of simultaneously running processes.
pub open spec fn table_wf(records: Seq<ProcessRecord>) -> bool {
    forall|i: int, j: int|
        0 <= i < j < records.len() ==> records[i].pid != records[j].pid
}

/// There is a matching record if and only if exact-name matching finds a
/// pid; and every pid found belongs to a record with that name, while every
/// record with that name contributes its pid.
pub proof fn lemma_matching_pids_correct(records: Seq<ProcessRecord>, name: Seq<char>)
    ensures
        spec_matching_pids(records, name).len() > 0 <==> spec_has_match(records, name),
        forall|k: int|
            0 <= k < spec_matching_pids(records, name).len()
                ==> exists|i: int|
                    0 <= i < records.len() && records[i].name@ == name
                        && records[i].pid == #[trigger] spec_matching_pids(records, name)[k],
        forall|i: int|
            0 <= i < records.len() && #[trigger] records[i].name@ == name
                ==> spec_matching_pids(records, name).contains(records[i].pid),
    decreases records.len(),
{
    if records.len() > 0 {
        lemma_matching_pids_correct(records.drop_last(), name);
        let sub = records.drop_last();
        let rest = spec_matching_pids(sub, name);
        let whole = spec_matching_pids(records, name);
        assert forall|i: int|
            0 <= i < records.len() && records[i].name@ == name
                implies whole.contains(records[i].pid) by {
            if i < records.len() - 1 {
                assert(sub[i] == records[i]);
                let k = choose|k: int| 0 <= k < rest.len() && rest[k] == records[i].pid;
                assert(whole[k] == records[i].pid);
            } else {
                assert(whole.last() == records[i].pid);
            }
        }
        if spec_has_match(records, name) && records.last().name@ != name {
            let i = choose|i: int| 0 <= i < records.len() && records[i].name@ == name;
            assert(sub[i] == records[i]);
            assert(spec_has_match(sub, name));
        }
    }
}

impl ProcessTable {
    /// An empty snapshot: no process is running.
    pub fn empty() -> (t: Self)
        ensures
            t.records@.len() == 0,
    {
        ProcessTable { records: Vec::new() }
    }

    /// Scans the snapshot for processes whose executable name is exactly
    /// `name` and returns their pids in table order.
    pub fn matching_pids(&self, name: &String) -> (pids: Vec<u64>)
        ensures
            pids@ == spec_matching_pids(self.records@, name@),
    {
        let mut pids: Vec<u64> = Vec::new();
        let n = self.records.len();
        let mut i: usize = 0;
        while i < n
            invariant
                i <= n,
                n == self.records@.len(),
                pids@ == spec_matching_pids(self.records@.take(i as int), name@),
            decreases n - i,
        {
            proof {
                assert(self.records@.take(i + 1 as int).drop_last() =~= self.records@.take(
                    i as int,
                ));
                assert(self.records@.take(i + 1 as int).last() == self.records@[i as int]);
            }
            if self.records[i].name == *name {
                pids.push(self.records[i].pid);
            }
            i = i + 1;
        }
        proof {
            assert(self.records@.take(n as int) =~= self.records@);
        }
        pids
    }
}

} // verus!
