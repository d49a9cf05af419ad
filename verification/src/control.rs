//! The run control: at most one benchmark runs at a time, and a running
//! benchmark can be asked to stop.

use vstd::prelude::*;

verus! {

/// Whether a benchmark is running and whether it has been asked to stop.
#[derive(Debug)]
pub struct BenchmarkControl {
    pub cancelled: bool,
    pub running: bool,
}

/// The message with which a second concurrent start is refused.
pub open spec fn already_running_message() -> Seq<char> {
    "A benchmark is already running."@
}

impl BenchmarkControl {
    /// A start is accepted exactly when no benchmark is running.
    pub open spec fn can_begin(&self) -> bool {
        !self.running
    }

    /// The state after an accepted start: running, and no stop requested.
    pub open spec fn after_begin(&self) -> BenchmarkControl {
        if self.running {
            BenchmarkControl { cancelled: self.cancelled, running: self.running }
        } else {
            BenchmarkControl { cancelled: false, running: true }
        }
    }

    /// The state after a run ends: not running; a stop request stays visible.
    pub open spec fn after_finish(&self) -> BenchmarkControl {
        BenchmarkControl { cancelled: self.cancelled, running: false }
    }

    /// The state after a stop request.
    pub open spec fn after_cancel(&self) -> BenchmarkControl {
        BenchmarkControl { cancelled: true, running: self.running }
    }

    /// An idle control with no stop request.
    pub fn new() -> (res: BenchmarkControl)
        ensures
            !res.running,
            !res.cancelled,
    {
        BenchmarkControl { cancelled: false, running: false }
    }

    /// Marks a benchmark as running and clears any earlier stop request, or
    /// refuses when one is already running.
    pub fn begin(&mut self) -> (res: Result<(), String>)
        ensures
            res is Ok <==> old(self).can_begin(),
            res matches Err(msg) ==> msg@ == already_running_message(),
            final(self).cancelled == old(self).after_begin().cancelled,
            final(self).running == old(self).after_begin().running,
    {
        if self.running {
            proof {
                reveal_strlit("A benchmark is already running.");
            }
            return Err("A benchmark is already running.".to_owned());
        }
        self.running = true;
        self.cancelled = false;
        Ok(())
    }

    /// Marks the running benchmark as ended.
    pub fn finish(&mut self)
        ensures
            final(self).cancelled == old(self).after_finish().cancelled,
            final(self).running == old(self).after_finish().running,
    {
        self.running = false;
    }

    /// Asks the running benchmark to stop.
    pub fn cancel(&mut self)
        ensures
            final(self).cancelled == old(self).after_cancel().cancelled,
            final(self).running == old(self).after_cancel().running,
    {
        self.cancelled = true;
    }

    /// Whether a stop has been requested since the last accepted start.
    pub fn is_cancelled(&self) -> (res: bool)
        ensures
            res == self.cancelled,
    {
        self.cancelled
    }
}

impl Default for BenchmarkControl {
    fn default() -> (res: BenchmarkControl)
        ensures
            !res.running,
            !res.cancelled,
    {
        BenchmarkControl::new()
    }
}

/// Two runs never overlap: once a start is accepted, every further start is
/// refused until the run finishes.
pub proof fn lemma_no_overlapping_runs(c: BenchmarkControl)
    requires
        c.can_begin(),
    ensures
        !c.after_begin().can_begin(),
        !c.after_begin().after_cancel().can_begin(),
        c.after_begin().after_finish().can_begin(),
{
}

/// A finished run frees the control: the next start is accepted, whatever
/// state the control was in.
pub proof fn lemma_finish_reopens(c: BenchmarkControl)
    ensures
        c.after_finish().can_begin(),
{
}

/// A stop request is seen by the run, and it does not change whether a run
/// is going on.
pub proof fn lemma_cancel_observed(c: BenchmarkControl)
    ensures
        c.after_cancel().cancelled,
        c.after_cancel().running == c.running,
{
}

/// An accepted start forgets the stop request of an earlier run.
pub proof fn lemma_begin_clears_cancel(c: BenchmarkControl)
    requires
        c.can_begin(),
    ensures
        !c.after_begin().cancelled,
        c.after_begin().running,
{
}

/// A refused start changes nothing.
pub proof fn lemma_refused_begin_is_noop(c: BenchmarkControl)
    requires
        !c.can_begin(),
    ensures
        c.after_begin() == c,
{
}

} // verus!
