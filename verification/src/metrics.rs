//! Metrics gathered while a flow runs.
use vstd::prelude::*;
use std::time::Instant;

verus! {

/// A moment, by the monotonic clock of the machine.
#[verifier::external_type_specification]
#[verifier::external_body]
pub struct ExInstant(Instant);

/// Calls `Instant::now`, the current moment; what it is depends on the time.
#[verifier::external_body]
fn now() -> Instant {
    Instant::now()
}

/// Metrics of a run: the number of processes, the number of outputs sent, and when the run
/// started.
pub struct Metrics {
    num_processs: usize,
    outputs_sent: u32,
    start_time: Instant,
}

impl Metrics {
    /// The number of processes.
    pub closed spec fn processes(&self) -> usize {
        self.num_processs
    }

    /// The number of outputs sent.
    pub closed spec fn sent(&self) -> u32 {
        self.outputs_sent
    }

    /// When the run started.
    pub closed spec fn started(&self) -> Instant {
        self.start_time
    }

    /// Metrics of a run starting now: no processes and no outputs sent yet.
    pub fn new() -> (m: Metrics)
        ensures
            m.processes() == 0,
            m.sent() == 0,
    {
        let now = now();
        Metrics { num_processs: 0, outputs_sent: 0, start_time: now }
    }

    /// Records the number of processes.
    pub fn set_num_processes(&mut self, num: usize)
        ensures
            final(self).processes() == num,
            final(self).sent() == old(self).sent(),
            final(self).started() == old(self).started(),
    {
        self.num_processs = num;
    }

    /// Records that an output was sent.
    pub fn increment_outputs_sent(&mut self)
        requires
            old(self).sent() < u32::MAX,
        ensures
            final(self).sent() == old(self).sent() + 1,
            final(self).processes() == old(self).processes(),
            final(self).started() == old(self).started(),
    {
        self.outputs_sent = self.outputs_sent + 1;
    }

    /// The number of processes.
    pub fn num_processes(&self) -> (n: usize)
        ensures
            n == self.processes(),
    {
        self.num_processs
    }

    /// The number of outputs sent.
    pub fn outputs_sent(&self) -> (n: u32)
        ensures
            n == self.sent(),
    {
        self.outputs_sent
    }

    /// When the run started.
    pub fn start_time(&self) -> (t: &Instant)
        ensures
            *t == self.started(),
    {
        &self.start_time
    }
}

} // verus!
