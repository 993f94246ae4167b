//! The plain data carried between the orchestrator, the workers and the
//! shared job state: control signals, per-worker telemetry, and solution
//! batches.

use vstd::prelude::*;

verus! {

/// A control signal sent from the orchestrator to a worker.  Two independent
/// channels per worker carry this type: the loop-control channel drives the
/// worker's paused/solving/stopped state machine, and the hard-stop channel
/// is drained by the worker's stop watcher to cancel a blocking solve call.
#[derive(Clone, Copy, Debug, PartialEq, Eq, Structural)]
pub enum ControlMessage {
    /// Terminate permanently and release all resources.
    Stop,
    /// Suspend without releasing the solve context.
    Pause,
    /// Resume from a pause.
    Resume,
}

/// The error surfaced by the orchestrator's public calls.
#[derive(Clone, Debug, PartialEq, Eq)]
pub enum CuckooMinerError {
    /// A plugin could not be loaded or its solver could not be initialized
    /// when a worker started; carries the offending plugin's name.
    PluginLoadError(String),
}

/// Per-worker telemetry.  Each record is written only by its owning worker
/// and read by the orchestrator and the display layer.
#[derive(Clone, Debug)]
pub struct SolverStats {
    /// Name of the plugin the worker runs.
    pub plugin_name: String,
    /// Name of the device the plugin drives.
    pub device_name: String,
    /// Cumulative count of solve attempts made by the worker.
    pub iterations: u64,
    /// Wall-clock duration of the most recent solve attempt, in nanoseconds.
    pub last_solution_time: u64,
    /// Whether the most recent solve attempt reported an error.
    pub has_errored: bool,
}

/// Mathematical value of a [`SolverStats`] record.
pub struct SolverStatsView {
    pub plugin_name: Seq<char>,
    pub device_name: Seq<char>,
    pub iterations: u64,
    pub last_solution_time: u64,
    pub has_errored: bool,
}

impl View for SolverStats {
    type V = SolverStatsView;

    open spec fn view(&self) -> SolverStatsView {
        SolverStatsView {
            plugin_name: self.plugin_name@,
            device_name: self.device_name@,
            iterations: self.iterations,
            last_solution_time: self.last_solution_time,
            has_errored: self.has_errored,
        }
    }
}

impl SolverStats {
    /// The record a worker slot holds before its worker has reported.
    pub open spec fn spec_default() -> SolverStatsView {
        SolverStatsView {
            plugin_name: Seq::empty(),
            device_name: Seq::empty(),
            iterations: 0,
            last_solution_time: 0,
            has_errored: false,
        }
    }

    /// Records which plugin the owning worker runs.
    pub fn set_plugin_name(&mut self, name: &str)
        ensures
            final(self)@ == (SolverStatsView { plugin_name: name@, ..old(self)@ }),
    {
        self.plugin_name = name.to_owned();
    }

    /// A copy with the same value, made field by field so that the equality
    /// of the copy is part of the contract.
    pub fn duplicate(&self) -> (r: SolverStats)
        ensures
            r@ == self@,
    {
        SolverStats {
            plugin_name: self.plugin_name.clone(),
            device_name: self.device_name.clone(),
            iterations: self.iterations,
            last_solution_time: self.last_solution_time,
            has_errored: self.has_errored,
        }
    }
}

impl Default for SolverStats {
    /// An empty record: no plugin or device name, no attempts, no error.
    fn default() -> (r: SolverStats)
        ensures
            r@ == SolverStats::spec_default(),
    {
        SolverStats {
            plugin_name: String::new(),
            device_name: String::new(),
            iterations: 0,
            last_solution_time: 0,
            has_errored: false,
        }
    }
}

/// One candidate solution: the cycle found by the plugin, stamped with the
/// nonce that was in effect when the solve attempt that produced it began.
#[derive(Clone, Debug)]
pub struct Solution {
    /// The nonce the producing attempt's header was built with.
    pub nonce: u64,
    /// The cycle the plugin found, as edge indices.
    pub cycle: Vec<u64>,
}

/// Mathematical value of a [`Solution`].
pub struct SolutionView {
    pub nonce: u64,
    pub cycle: Seq<u64>,
}

impl View for Solution {
    type V = SolutionView;

    open spec fn view(&self) -> SolutionView {
        SolutionView { nonce: self.nonce, cycle: self.cycle@ }
    }
}

impl Solution {
    /// A copy with the same value.
    pub fn duplicate(&self) -> (r: Solution)
        ensures
            r@ == self@,
    {
        let mut cycle: Vec<u64> = Vec::new();
        let mut i: usize = 0;
        while i < self.cycle.len()
            invariant
                i <= self.cycle.len(),
                cycle@.len() == i as int,
                forall|k: int| 0 <= k < i ==> cycle@[k] == self.cycle@[k],
            decreases self.cycle.len() - i,
        {
            cycle.push(self.cycle[i]);
            i = i + 1;
        }
        proof {
            assert(cycle@ =~= self.cycle@);
        }
        Solution { nonce: self.nonce, cycle }
    }
}

/// The most candidate solutions one solve attempt can report.
pub const MAX_SOLS_PER_BATCH: usize = 16;

/// The batch of candidate solutions produced by one solve attempt: a small
/// fixed-capacity collection plus its count.
#[derive(Clone, Debug)]
pub struct SolverSolutions {
    /// How many solutions the batch holds.
    pub num_sols: u32,
    /// The solutions themselves.
    pub sols: Vec<Solution>,
}

impl View for SolverSolutions {
    type V = Seq<SolutionView>;

    open spec fn view(&self) -> Seq<SolutionView> {
        self.sols@.map_values(|s: Solution| s@)
    }
}

/// A batch in which every solution carries the given nonce stamp.
pub open spec fn stamp_view(batch: Seq<SolutionView>, nonce: u64) -> Seq<SolutionView> {
    batch.map_values(|s: SolutionView| SolutionView { nonce, cycle: s.cycle })
}

impl SolverSolutions {
    /// The count matches the contents and stays within the batch capacity.
    pub open spec fn wf(&self) -> bool {
        &&& self.num_sols as int == self.sols@.len()
        &&& self.sols@.len() <= MAX_SOLS_PER_BATCH as int
    }

    /// Adds one candidate solution to the batch.
    pub fn push_solution(&mut self, sol: Solution)
        requires
            old(self).wf(),
            old(self)@.len() < MAX_SOLS_PER_BATCH as int,
        ensures
            final(self).wf(),
            final(self)@ == old(self)@.push(sol@),
    {
        self.sols.push(sol);
        self.num_sols = self.num_sols + 1;
    }

    /// A copy with the same value.
    pub fn duplicate(&self) -> (r: SolverSolutions)
        requires
            self.wf(),
        ensures
            r.wf(),
            r@ == self@,
    {
        let mut sols: Vec<Solution> = Vec::new();
        let mut i: usize = 0;
        while i < self.sols.len()
            invariant
                i <= self.sols.len(),
                sols@.len() == i as int,
                forall|k: int| 0 <= k < i ==> sols@[k]@ == self.sols@[k]@,
            decreases self.sols.len() - i,
        {
            let s = self.sols[i].duplicate();
            sols.push(s);
            i = i + 1;
        }
        let r = SolverSolutions { num_sols: self.num_sols, sols };
        proof {
            assert(r@ =~= self@);
        }
        r
    }

    /// Stamps every solution in the batch with the nonce that was in effect
    /// when the producing solve attempt began.
    pub fn stamp_with_nonce(&mut self, nonce: u64)
        requires
            old(self).wf(),
        ensures
            final(self).wf(),
            final(self)@ == stamp_view(old(self)@, nonce),
    {
        let ghost orig = old(self)@;
        let n = self.sols.len();
        let mut stamped: Vec<Solution> = Vec::new();
        let mut i: usize = 0;
        proof {
            assert(self@ =~= orig.skip(0));
        }
        while i < n
            invariant
                i <= n,
                n as int == orig.len(),
                self.num_sols == old(self).num_sols,
                self@ == orig.skip(i as int),
                stamped@.len() == i as int,
                forall|k: int| 0 <= k < i ==> stamped@[k]@ == (SolutionView {
                    nonce,
                    cycle: orig[k].cycle,
                }),
            decreases n - i,
        {
            let ghost before_view = self@;
            proof {
                assert(self@.len() == self.sols@.len());
                assert(orig.skip(i as int).len() == n - i);
            }
            let s = self.sols.remove(0);
            proof {
                assert(before_view[0] == s@);
                assert(self@ =~= before_view.skip(1));
                assert(before_view.skip(1) =~= orig.skip(i as int + 1));
            }
            stamped.push(Solution { nonce, cycle: s.cycle });
            i = i + 1;
        }
        self.sols = stamped;
        proof {
            assert(self.sols@.len() == n as int);
            assert(self.num_sols == old(self).num_sols);
            assert(old(self).num_sols as int == old(self).sols@.len());
            assert(orig.len() == old(self).sols@.len());
            assert(self@ =~= stamp_view(orig, nonce));
        }
    }
}

impl Default for SolverSolutions {
    /// The empty batch, as a worker's scratch buffer starts and is reset
    /// after each attempt.
    fn default() -> (r: SolverSolutions)
        ensures
            r.wf(),
            r@ == Seq::<SolutionView>::empty(),
    {
        let r = SolverSolutions { num_sols: 0, sols: Vec::new() };
        proof {
            assert(r@ =~= Seq::<SolutionView>::empty());
        }
        r
    }
}

} // verus!
