//! Accounting for the blocking inference pool: how many workers it gets,
//! which submitted jobs still owe a result, and how many have completed.
//! Each job resolves once, either with its result or as lost.
use vstd::prelude::*;
use std::collections::HashSet;

verus! {

broadcast use vstd::std_specs::hash::group_hash_axioms;

/// Relies on num_cpus::get: the number of logical CPUs, documented as
/// always at least one.
#[verifier::external_body]
fn logical_cpus() -> (r: usize)
    ensures
        r >= 1,
{
    num_cpus::get()
}

/// Half of the CPUs go to inference, and never fewer than one worker.
pub open spec fn workers_for(cpus: nat) -> nat {
    if cpus / 2 == 0 {
        1
    } else {
        cpus / 2
    }
}

/// The worker count for a host with `cpus` logical CPUs.
pub fn worker_count_for(cpus: usize) -> (r: usize)
    ensures
        r == workers_for(cpus as nat),
{
    if cpus / 2 == 0 {
        1
    } else {
        cpus / 2
    }
}

/// The worker count for this host: half its logical CPUs, at least one.
pub fn default_worker_count() -> (r: usize)
    ensures
        r >= 1,
        exists|cpus: nat| cpus >= 1 && r == workers_for(cpus),
{
    let cpus = logical_cpus();
    worker_count_for(cpus)
}

/// The pool's bookkeeping: job ids are handed out in order, a job is
/// pending until it resolves, and `completed` counts the results delivered.
pub struct JobLedger {
    next_id: u64,
    pending: HashSet<u64>,
    completed: u64,
}

pub struct LedgerView {
    pub next_id: nat,
    pub pending: Set<u64>,
    pub completed: nat,
}

impl View for JobLedger {
    type V = LedgerView;

    closed spec fn view(&self) -> LedgerView {
        LedgerView {
            next_id: self.next_id as nat,
            pending: self.pending@,
            completed: self.completed as nat,
        }
    }
}

/// Every pending job was handed out before.
pub open spec fn ledger_wf(v: LedgerView) -> bool {
    forall|id: u64| #[trigger] v.pending.contains(id) ==> id < v.next_id
}

/// The ledger after a submission.
pub open spec fn submit_step(v: LedgerView) -> LedgerView {
    LedgerView { next_id: v.next_id + 1, pending: v.pending.insert(v.next_id as u64), ..v }
}

/// The ledger after job `id` delivered its result: counted once if it was
/// pending, ignored otherwise.
pub open spec fn complete_step(v: LedgerView, id: u64) -> LedgerView {
    if v.pending.contains(id) {
        LedgerView { pending: v.pending.remove(id), completed: v.completed + 1, ..v }
    } else {
        v
    }
}

/// The ledger after job `id` was lost (the pool went away): no longer
/// pending, not counted.
pub open spec fn cancel_step(v: LedgerView, id: u64) -> LedgerView {
    LedgerView { pending: v.pending.remove(id), ..v }
}

impl JobLedger {
    /// A ledger with no job yet.
    pub fn new() -> (r: Self)
        ensures
            r@.next_id == 0,
            r@.pending == Set::<u64>::empty(),
            r@.completed == 0,
            ledger_wf(r@),
    {
        JobLedger { next_id: 0, pending: HashSet::new(), completed: 0 }
    }

    /// The id the next submission gets.
    pub fn next_id(&self) -> (r: u64)
        ensures
            r == self@.next_id,
    {
        self.next_id
    }

    /// Registers a new job and returns its id.
    pub fn submit(&mut self) -> (id: u64)
        requires
            old(self)@.next_id < u64::MAX,
        ensures
            id == old(self)@.next_id,
            final(self)@ == submit_step(old(self)@),
            ledger_wf(old(self)@) ==> ledger_wf(final(self)@),
    {
        let id = self.next_id;
        self.pending.insert(id);
        self.next_id = id + 1;
        proof {
            if ledger_wf(old(self)@) {
                assert forall|k: u64| #[trigger] self@.pending.contains(k) implies k < self@.next_id by {
                    if k != id {
                        assert(old(self)@.pending.contains(k));
                    }
                }
            }
        }
        id
    }

    /// Records the result of job `id`. Returns whether it was accepted:
    /// only a pending job's first result counts.
    pub fn complete(&mut self, id: u64) -> (accepted: bool)
        requires
            old(self)@.completed < u64::MAX,
        ensures
            accepted == old(self)@.pending.contains(id),
            final(self)@ == complete_step(old(self)@, id),
            ledger_wf(old(self)@) ==> ledger_wf(final(self)@),
    {
        if self.pending.remove(&id) {
            self.completed = self.completed + 1;
            assert forall|k: u64| #[trigger] self@.pending.contains(k) implies old(self)@.pending.contains(k) by {}
            true
        } else {
            assert(self.pending@ =~= old(self).pending@);
            false
        }
    }

    /// Records that job `id` was lost without a result. Returns whether it
    /// was pending.
    pub fn cancel(&mut self, id: u64) -> (was_pending: bool)
        ensures
            was_pending == old(self)@.pending.contains(id),
            final(self)@ == cancel_step(old(self)@, id),
            ledger_wf(old(self)@) ==> ledger_wf(final(self)@),
    {
        let was_pending = self.pending.remove(&id);
        assert forall|k: u64| #[trigger] self@.pending.contains(k) implies old(self)@.pending.contains(k) by {}
        was_pending
    }
}

/// How many jobs have delivered their result.
pub fn get_completed_jobs(ledger: &JobLedger) -> (r: u64)
    ensures
        r == ledger@.completed,
{
    ledger.completed
}

/// The ledger after `n` submissions.
pub open spec fn submit_n(v: LedgerView, n: nat) -> LedgerView
    decreases n,
{
    if n == 0 {
        v
    } else {
        submit_step(submit_n(v, (n - 1) as nat))
    }
}

/// The ledger after the results of `ids` arrive in that order.
pub open spec fn complete_all(v: LedgerView, ids: Seq<u64>) -> LedgerView
    decreases ids.len(),
{
    if ids.len() == 0 {
        v
    } else {
        complete_all(complete_step(v, ids[0]), ids.drop_first())
    }
}

proof fn lemma_submit_n(v: LedgerView, n: nat)
    requires
        v.next_id + n <= u64::MAX + 1,
    ensures
        submit_n(v, n).next_id == v.next_id + n,
        submit_n(v, n).completed == v.completed,
        forall|id: u64| #[trigger]
            submit_n(v, n).pending.contains(id) <==> (v.pending.contains(id) || (v.next_id <= id
                < v.next_id + n)),
    decreases n,
{
    if n > 0 {
        lemma_submit_n(v, (n - 1) as nat);
    }
}

proof fn lemma_complete_all(v: LedgerView, ids: Seq<u64>)
    requires
        ids.no_duplicates(),
        forall|i: int| 0 <= i < ids.len() ==> v.pending.contains(#[trigger] ids[i]),
    ensures
        complete_all(v, ids).completed == v.completed + ids.len(),
        complete_all(v, ids).next_id == v.next_id,
    decreases ids.len(),
{
    if ids.len() > 0 {
        let w = complete_step(v, ids[0]);
        let rest = ids.drop_first();
        assert forall|i: int| 0 <= i < rest.len() implies w.pending.contains(#[trigger] rest[i]) by {
            assert(rest[i] == ids[i + 1]);
            assert(ids[i + 1] != ids[0]);
        }
        lemma_complete_all(w, rest);
    }
}

/// Submitting `n` jobs and then taking the result of each of them, in any
/// order, accepts every result and advances the completion counter by
/// exactly `n`.
pub proof fn lemma_n_jobs_n_results(v: LedgerView, n: nat, ids: Seq<u64>)
    requires
        ledger_wf(v),
        v.next_id + n <= u64::MAX + 1,
        ids.len() == n,
        ids.no_duplicates(),
        forall|i: int| 0 <= i < ids.len() ==> v.next_id <= #[trigger] ids[i] < v.next_id + n,
    ensures
        complete_all(submit_n(v, n), ids).completed == v.completed + n,
        complete_all(submit_n(v, n), ids).next_id == v.next_id + n,
{
    lemma_submit_n(v, n);
    let w = submit_n(v, n);
    assert forall|i: int| 0 <= i < ids.len() implies w.pending.contains(#[trigger] ids[i]) by {
        assert(v.next_id <= ids[i] < v.next_id + n);
    }
    lemma_complete_all(w, ids);
}

} // verus!
