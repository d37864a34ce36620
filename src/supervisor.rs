use vstd::prelude::*;

verus! {

/// What polling a started command without blocking reported.
#[derive(Debug, Clone, Copy, PartialEq, Eq, Structural)]
pub enum PollOutcome {
    /// The command has not finished yet.
    Running,
    /// The command has finished; its output can be collected.
    Exited,
    /// The poll itself failed.
    Failed,
}

/// What to do with a previous run of the command once it has been polled.
#[derive(Debug, Clone, Copy, PartialEq, Eq, Structural)]
pub enum Reconciliation {
    /// Still running: terminate it, once. A failure to terminate is only
    /// reported; supervision goes on.
    Kill,
    /// Already finished: record its output and do nothing else.
    RecordOutput,
    /// The poll failed: report that and do nothing else.
    RecordPollError,
}

/// The reconciliation owed to a previous run, given how polling it went.
pub open spec fn reconciliation_for(poll: PollOutcome) -> Reconciliation {
    match poll {
        PollOutcome::Running => Reconciliation::Kill,
        PollOutcome::Exited => Reconciliation::RecordOutput,
        PollOutcome::Failed => Reconciliation::RecordPollError,
    }
}

/// Decides how to reconcile a previous run: a run that is still going is
/// killed, a finished one never is.
pub fn reconcile(poll: PollOutcome) -> (r: Reconciliation)
    ensures
        r == reconciliation_for(poll),
        r == Reconciliation::Kill <==> poll == PollOutcome::Running,
{
    match poll {
        PollOutcome::Running => Reconciliation::Kill,
        PollOutcome::Exited => Reconciliation::RecordOutput,
        PollOutcome::Failed => Reconciliation::RecordPollError,
    }
}

/// Owns the handle of the one run of the command that may be in flight.
///
/// Holding an `Option` makes a second live handle impossible: a handle is
/// only taken on after the previous one has been handed out for
/// reconciliation.
#[derive(Debug)]
pub struct ProcessSupervisor<H> {
    in_flight: Option<H>,
}

impl<H> ProcessSupervisor<H> {
    /// The handle of the run in flight, if any.
    pub closed spec fn in_flight(&self) -> Option<H> {
        self.in_flight
    }

    /// A supervisor that tracks nothing.
    pub fn new() -> (r: ProcessSupervisor<H>)
        ensures
            r.in_flight() is None,
    {
        ProcessSupervisor { in_flight: None }
    }

    /// Whether a run is in flight.
    pub fn is_tracking(&self) -> (r: bool)
        ensures
            r == self.in_flight() is Some,
    {
        self.in_flight.is_some()
    }

    /// Hands out the handle in flight, if any, for reconciliation; afterwards
    /// nothing is in flight.
    pub fn release(&mut self) -> (r: Option<H>)
        ensures
            r == old(self).in_flight(),
            final(self).in_flight() is None,
    {
        self.in_flight.take()
    }

    /// Starts tracking a freshly started run. Only allowed once the previous
    /// handle has been released.
    pub fn track(&mut self, handle: H)
        requires
            old(self).in_flight() is None,
        ensures
            final(self).in_flight() == Some(handle),
    {
        self.in_flight = Some(handle);
    }
}

} // verus!
