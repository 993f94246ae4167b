//! The one shared, mutable record of the current job and its results.
//!
//! Exactly one `JobSharedData` exists per orchestrator instance, for its
//! entire lifetime; every access crosses a single reader/writer lock held by
//! the unverified shell, and each operation here is one short critical
//! section: installing a new job, a worker publishing its stats slot and
//! solution batches, and the orchestrator draining one batch or snapshotting
//! the stats.  Each worker writes only its own stats slot and only appends to
//! the solutions collection; draining is the orchestrator's privilege.

use vstd::prelude::*;

use crate::header::{hex_fragment_valid, spec_header};
use crate::types::{SolutionView, SolverSolutions, SolverStats, SolverStatsView, stamp_view};

verus! {

/// Mathematical value of a [`JobSharedData`].
#[verifier::ext_equal]
pub struct JobStateView {
    pub job_id: u32,
    pub pre_nonce: Seq<char>,
    pub post_nonce: Seq<char>,
    pub difficulty: u64,
    pub stats: Seq<SolverStatsView>,
    pub solutions: Seq<Seq<SolutionView>>,
}

/// The values of a sequence of stats records.
pub open spec fn stats_view(stats: Seq<SolverStats>) -> Seq<SolverStatsView> {
    stats.map_values(|s: SolverStats| s@)
}

/// The record shared by the orchestrator and every worker: the current
/// problem instance, one stats slot per configured worker, and the pending
/// solution batches.
pub struct JobSharedData {
    /// Sequence number of the current problem instance.
    job_id: u32,
    /// Hexadecimal header fragment that precedes the nonce field.
    pre_nonce: String,
    /// Hexadecimal header fragment that follows the nonce field.
    post_nonce: String,
    /// Minimum acceptable solution difficulty, informational to this core.
    difficulty: u64,
    /// One telemetry slot per configured worker, indexed by worker index.
    stats: Vec<SolverStats>,
    /// Pending solution batches, appended by workers, drained by the
    /// orchestrator one at a time.
    solutions: Vec<SolverSolutions>,
}

impl View for JobSharedData {
    type V = JobStateView;

    closed spec fn view(&self) -> JobStateView {
        JobStateView {
            job_id: self.job_id,
            pre_nonce: self.pre_nonce@,
            post_nonce: self.post_nonce@,
            difficulty: self.difficulty,
            stats: stats_view(self.stats@),
            solutions: self.solutions@.map_values(|b: SolverSolutions| b@),
        }
    }
}

/// The state after a new job has been installed: the job fields are replaced
/// in one step, the stats slots and pending solutions are untouched.
pub open spec fn spec_install_job(
    v: JobStateView,
    job_id: u32,
    pre_nonce: Seq<char>,
    post_nonce: Seq<char>,
    difficulty: u64,
) -> JobStateView {
    JobStateView { job_id, pre_nonce, post_nonce, difficulty, ..v }
}

/// One drain step on the pending batches: the most recently appended batch
/// leaves the collection, or nothing when it is empty.
pub open spec fn spec_drain(sols: Seq<Seq<SolutionView>>) -> (
    Option<Seq<SolutionView>>,
    Seq<Seq<SolutionView>>,
) {
    if sols.len() == 0 {
        (None, sols)
    } else {
        (Some(sols.last()), sols.drop_last())
    }
}

impl JobSharedData {
    /// Every pending batch keeps its count consistent with its contents.
    pub closed spec fn wf(&self) -> bool {
        forall|k: int| 0 <= k < self.solutions@.len() ==> (#[trigger] self.solutions@[k]).wf()
    }

    /// Creates the shared record sized for `num_solvers` workers: one default
    /// stats slot per worker, no job installed, no pending solutions.
    pub fn new(num_solvers: usize) -> (r: JobSharedData)
        ensures
            r.wf(),
            r@.job_id == 0,
            r@.pre_nonce == Seq::<char>::empty(),
            r@.post_nonce == Seq::<char>::empty(),
            r@.difficulty == 0,
            r@.stats.len() == num_solvers,
            forall|k: int| 0 <= k < num_solvers ==> r@.stats[k] == SolverStats::spec_default(),
            r@.solutions == Seq::<Seq<SolutionView>>::empty(),
    {
        let mut stats: Vec<SolverStats> = Vec::new();
        let mut i: usize = 0;
        while i < num_solvers
            invariant
                i <= num_solvers,
                stats@.len() == i as int,
                forall|k: int| 0 <= k < i ==> (#[trigger] stats@[k])@ == SolverStats::spec_default(),
            decreases num_solvers - i,
        {
            stats.push(SolverStats::default());
            i = i + 1;
        }
        let r = JobSharedData {
            job_id: 0,
            pre_nonce: String::new(),
            post_nonce: String::new(),
            difficulty: 0,
            stats,
            solutions: Vec::new(),
        };
        proof {
            assert(r@.solutions =~= Seq::<Seq<SolutionView>>::empty());
        }
        r
    }

    /// Atomically replaces the current job: all four fields change in one
    /// critical section, so no worker can ever read a header template that is
    /// only partially updated.
    pub fn set_job(&mut self, job_id: u32, pre_nonce: &str, post_nonce: &str, difficulty: u64)
        requires
            old(self).wf(),
        ensures
            final(self).wf(),
            final(self)@ == spec_install_job(old(self)@, job_id, pre_nonce@, post_nonce@, difficulty),
    {
        self.job_id = job_id;
        self.pre_nonce = pre_nonce.to_owned();
        self.post_nonce = post_nonce.to_owned();
        self.difficulty = difficulty;
    }

    /// Both header fragments, fetched in one critical section so that a solve
    /// attempt never mixes the pre-nonce fragment of one job with the
    /// post-nonce fragment of another.
    pub fn header_fragments(&self) -> (r: (String, String))
        ensures
            r.0@ == self@.pre_nonce,
            r.1@ == self@.post_nonce,
    {
        (self.pre_nonce.clone(), self.post_nonce.clone())
    }

    /// Sequence number of the current problem instance.
    pub fn current_job_id(&self) -> (r: u32)
        ensures
            r == self@.job_id,
    {
        self.job_id
    }

    /// The current difficulty target.
    pub fn current_difficulty(&self) -> (r: u64)
        ensures
            r == self@.difficulty,
    {
        self.difficulty
    }

    /// How many worker slots the record was sized for.
    pub fn num_workers(&self) -> (r: usize)
        ensures
            r == self@.stats.len(),
    {
        self.stats.len()
    }

    /// Records which plugin worker `instance` runs, in that worker's own
    /// stats slot; no other slot changes.
    pub fn set_plugin_name(&mut self, instance: usize, name: &str)
        requires
            old(self).wf(),
            instance < old(self)@.stats.len(),
        ensures
            final(self).wf(),
            final(self)@ == (JobStateView {
                stats: old(self)@.stats.update(
                    instance as int,
                    SolverStatsView { plugin_name: name@, ..old(self)@.stats[instance as int] },
                ),
                ..old(self)@
            }),
    {
        let mut slot = self.stats[instance].duplicate();
        slot.set_plugin_name(name);
        self.stats.set(instance, slot);
        proof {
            assert(self@.stats =~= old(self)@.stats.update(
                instance as int,
                SolverStatsView { plugin_name: name@, ..old(self)@.stats[instance as int] },
            ));
            assert(self@ =~= (JobStateView {
                stats: old(self)@.stats.update(
                    instance as int,
                    SolverStatsView { plugin_name: name@, ..old(self)@.stats[instance as int] },
                ),
                ..old(self)@
            }));
        }
    }

    /// Publishes the outcome of one solve attempt by worker `instance`, all
    /// in one critical section: the worker's own stats slot is overwritten
    /// with its scratch stats (iteration counter set to `iter_count`), and,
    /// if the attempt found solutions, the batch is stamped with the nonce
    /// the attempt's header was built with and appended to the pending
    /// collection.  No other worker's slot changes and no batch is removed.
    pub fn record_solve_result(
        &mut self,
        instance: usize,
        stats: &SolverStats,
        iter_count: u64,
        solutions: &SolverSolutions,
        nonce: u64,
    )
        requires
            old(self).wf(),
            instance < old(self)@.stats.len(),
            solutions.wf(),
        ensures
            final(self).wf(),
            final(self)@.stats == old(self)@.stats.update(
                instance as int,
                SolverStatsView { iterations: iter_count, ..stats@ },
            ),
            final(self)@.job_id == old(self)@.job_id,
            final(self)@.pre_nonce == old(self)@.pre_nonce,
            final(self)@.post_nonce == old(self)@.post_nonce,
            final(self)@.difficulty == old(self)@.difficulty,
            solutions@.len() > 0 ==> final(self)@.solutions == old(self)@.solutions.push(
                stamp_view(solutions@, nonce),
            ),
            solutions@.len() == 0 ==> final(self)@.solutions == old(self)@.solutions,
    {
        let mut slot = stats.duplicate();
        slot.iterations = iter_count;
        self.stats.set(instance, slot);
        proof {
            assert(self@.stats =~= old(self)@.stats.update(
                instance as int,
                SolverStatsView { iterations: iter_count, ..stats@ },
            ));
        }
        if solutions.num_sols > 0 {
            let mut batch = solutions.duplicate();
            batch.stamp_with_nonce(nonce);
            self.solutions.push(batch);
            proof {
                assert(self@.solutions =~= old(self)@.solutions.push(
                    stamp_view(solutions@, nonce),
                ));
            }
        }
    }

    /// Removes and returns one pending solution batch — the most recently
    /// appended one — or nothing when the collection is empty.  A returned
    /// batch leaves the collection, so no batch is ever returned twice.
    pub fn pop_solution(&mut self) -> (r: Option<SolverSolutions>)
        requires
            old(self).wf(),
        ensures
            final(self).wf(),
            final(self)@.job_id == old(self)@.job_id,
            final(self)@.pre_nonce == old(self)@.pre_nonce,
            final(self)@.post_nonce == old(self)@.post_nonce,
            final(self)@.difficulty == old(self)@.difficulty,
            final(self)@.stats == old(self)@.stats,
            r is Some <==> old(self)@.solutions.len() > 0,
            r matches Some(b) ==> b.wf() && Some(b@) == spec_drain(old(self)@.solutions).0
                && final(self)@.solutions == spec_drain(old(self)@.solutions).1,
            r is None ==> final(self)@.solutions == old(self)@.solutions,
    {
        let r = self.solutions.pop();
        proof {
            if old(self).solutions@.len() > 0 {
                assert(self@.solutions =~= spec_drain(old(self)@.solutions).1);
            }
        }
        r
    }

    /// A snapshot copy of every worker's stats record, taken in one critical
    /// section so that no record is observed partially written.
    pub fn stats_snapshot(&self) -> (r: Vec<SolverStats>)
        ensures
            stats_view(r@) == self@.stats,
    {
        let mut out: Vec<SolverStats> = Vec::new();
        let mut i: usize = 0;
        while i < self.stats.len()
            invariant
                i <= self.stats.len(),
                out@.len() == i as int,
                forall|k: int| 0 <= k < i ==> (#[trigger] out@[k])@ == self.stats@[k]@,
            decreases self.stats.len() - i,
        {
            let s = self.stats[i].duplicate();
            out.push(s);
            i = i + 1;
        }
        proof {
            assert(stats_view(out@) =~= self@.stats);
        }
        out
    }
}

/// Each worker writes only its own stats slot, so the writes of two distinct
/// workers land in distinct slots: they commute, and neither overwrites or
/// tears what the other wrote.
pub proof fn lemma_distinct_stat_slots_commute(
    stats: Seq<SolverStatsView>,
    i: int,
    j: int,
    a: SolverStatsView,
    b: SolverStatsView,
)
    requires
        0 <= i < stats.len(),
        0 <= j < stats.len(),
        i != j,
    ensures
        stats.update(i, a).update(j, b) == stats.update(j, b).update(i, a),
        stats.update(i, a)[j] == stats[j],
{
    assert(stats.update(i, a).update(j, b) =~= stats.update(j, b).update(i, a));
}

/// Once a job install completes, the shared state holds exactly the installed
/// fragments and difficulty, so a solve attempt that begins afterwards builds
/// its header from exactly those fragments.  (An attempt already in flight
/// when the install began may still complete against the prior header; its
/// batch is stamped with the prior nonce context and is not filtered here.)
pub proof fn lemma_attempt_after_install_uses_new_job(
    v: JobStateView,
    job_id: u32,
    pre_nonce: Seq<char>,
    post_nonce: Seq<char>,
    difficulty: u64,
    nonce: u64,
)
    ensures
        ({
            let w = spec_install_job(v, job_id, pre_nonce, post_nonce, difficulty);
            &&& w.job_id == job_id
            &&& w.pre_nonce == pre_nonce
            &&& w.post_nonce == post_nonce
            &&& w.difficulty == difficulty
            &&& w.stats == v.stats
            &&& w.solutions == v.solutions
            &&& (hex_fragment_valid(pre_nonce) && hex_fragment_valid(post_nonce)
                ==> spec_header(w.pre_nonce, w.post_nonce, nonce) == spec_header(
                pre_nonce,
                post_nonce,
                nonce,
            ))
        }),
{
}

/// A drained batch leaves the collection: draining returns the most recently
/// appended batch, shrinks the collection by one, and a second drain returns
/// the batch at the preceding position — never the same batch slot twice.
pub proof fn lemma_drained_batch_leaves_collection(sols: Seq<Seq<SolutionView>>)
    requires
        sols.len() >= 1,
    ensures
        spec_drain(sols).0 == Some(sols[sols.len() - 1]),
        spec_drain(sols).1.len() == sols.len() - 1,
        sols.len() >= 2 ==> spec_drain(spec_drain(sols).1).0 == Some(sols[sols.len() - 2]),
{
}

} // verus!
