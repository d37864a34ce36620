use vstd::prelude::*;
use crate::supervisor::ProcessSupervisor;

verus! {

/// What the caller must do about one `LockedHint` change.
#[derive(Debug)]
pub enum Directive<H> {
    /// Nothing at all: no start, no reconciliation.
    Ignore,
    /// Reconcile this previous run (collect it or kill it); start nothing.
    Reconcile(H),
    /// Reconcile `previous`, when there is one, and only then start the
    /// unlock command; hand the new handle back through `on_started`.
    Start { previous: Option<H> },
}

/// Whether following `d` reconciles a previous run.
pub open spec fn reconciles<H>(d: Directive<H>) -> bool {
    match d {
        Directive::Reconcile(_) => true,
        Directive::Start { previous } => previous is Some,
        Directive::Ignore => false,
    }
}

/// The directive for a change to `locked` while `active` reads as given and
/// `in_flight` is the previous run's handle, if any.
pub open spec fn decide<H>(in_flight: Option<H>, active: bool, locked: bool) -> Directive<H> {
    if !active {
        Directive::Ignore
    } else if !locked {
        Directive::Start { previous: in_flight }
    } else {
        match in_flight {
            Some(h) => Directive::Reconcile(h),
            None => Directive::Ignore,
        }
    }
}

/// Whether a run is in flight after a sequence of `(active, locked)`
/// readings, every start having succeeded.
pub open spec fn in_flight_after(readings: Seq<(bool, bool)>) -> bool
    decreases readings.len(),
{
    if readings.len() == 0 {
        false
    } else {
        let (active, locked) = readings.last();
        if active {
            !locked
        } else {
            in_flight_after(readings.drop_last())
        }
    }
}

/// The directive given for reading `i` of a sequence of `(active, locked)`
/// readings, the handles standing as `()`.
pub open spec fn directive_at(readings: Seq<(bool, bool)>, i: int) -> Directive<()> {
    let prior = if in_flight_after(readings.take(i)) {
        Some(())
    } else {
        None
    };
    decide(prior, readings[i].0, readings[i].1)
}

/// Turns the stream of `LockedHint` changes into directives for the caller.
///
/// The stream's first item only reports the current state and is dropped
/// unread. Every later change is looked at only while the session is active.
#[derive(Debug)]
pub struct LockStateMonitor<H> {
    initial_seen: bool,
    supervisor: ProcessSupervisor<H>,
}

impl<H> LockStateMonitor<H> {
    /// Whether the stream's first item is still to come.
    pub closed spec fn awaiting_initial(&self) -> bool {
        !self.initial_seen
    }

    /// The handle of the run in flight, if any.
    pub closed spec fn in_flight(&self) -> Option<H> {
        self.supervisor.in_flight()
    }

    /// A monitor that has seen nothing and has no run in flight.
    pub fn new() -> (r: LockStateMonitor<H>)
        ensures
            r.awaiting_initial(),
            r.in_flight() is None,
    {
        LockStateMonitor { initial_seen: false, supervisor: ProcessSupervisor::new() }
    }

    /// Whether a run is in flight.
    pub fn is_tracking(&self) -> (r: bool)
        ensures
            r == self.in_flight() is Some,
    {
        self.supervisor.is_tracking()
    }

    /// Takes note of an item of the change stream. Returns whether the
    /// caller must read `Active` and the item's value and pass them to
    /// `on_reading`: never for the first item, always afterwards.
    pub fn on_item(&mut self) -> (evaluate: bool)
        ensures
            evaluate == !old(self).awaiting_initial(),
            !final(self).awaiting_initial(),
            final(self).in_flight() == old(self).in_flight(),
    {
        if self.initial_seen {
            true
        } else {
            self.initial_seen = true;
            false
        }
    }

    /// Decides what a change of `LockedHint` to `locked` calls for, `active`
    /// being the session's `Active` property read for it.
    ///
    /// An inactive session changes nothing. An unlock starts the command,
    /// after the previous run is reconciled. A lock reconciles the previous
    /// run, if there is one.
    pub fn on_reading(&mut self, active: bool, locked: bool) -> (d: Directive<H>)
        requires
            !old(self).awaiting_initial(),
        ensures
            d == decide(old(self).in_flight(), active, locked),
            final(self).in_flight() == (if active {
                None
            } else {
                old(self).in_flight()
            }),
            !final(self).awaiting_initial(),
    {
        if !active {
            Directive::Ignore
        } else if !locked {
            Directive::Start { previous: self.supervisor.release() }
        } else {
            match self.supervisor.release() {
                Some(h) => Directive::Reconcile(h),
                None => Directive::Ignore,
            }
        }
    }

    /// Records the handle of a run that was started as a `Start` directive
    /// asked. When starting fails, this is not called and nothing stays in
    /// flight.
    pub fn on_started(&mut self, handle: H)
        requires
            old(self).in_flight() is None,
        ensures
            final(self).in_flight() == Some(handle),
            final(self).awaiting_initial() == old(self).awaiting_initial(),
    {
        self.supervisor.track(handle);
    }
}

/// One step of the monitor, followed by `on_started` when it starts the
/// command, leaves a run in flight exactly as `in_flight_after` says.
pub proof fn lemma_step_in_flight(readings: Seq<(bool, bool)>, active: bool, locked: bool)
    ensures
        in_flight_after(readings.push((active, locked))) == (if active {
            !locked
        } else {
            in_flight_after(readings)
        }),
        decide(
            if in_flight_after(readings) {
                Some(())
            } else {
                None
            },
            active,
            locked,
        ) is Start ==> in_flight_after(readings.push((active, locked))),
{
    assert(readings.push((active, locked)).drop_last() =~= readings);
}

/// A reading starts the command exactly when the session is active and the
/// change is an unlock, whatever came before.
pub proof fn lemma_starts_iff_active_unlock(readings: Seq<(bool, bool)>, i: int)
    requires
        0 <= i < readings.len(),
    ensures
        directive_at(readings, i) is Start <==> readings[i] == (true, false),
{
}

/// A reading taken while the session is inactive starts nothing,
/// reconciles nothing and leaves the run in flight as it was.
pub proof fn lemma_inactive_is_ignored(readings: Seq<(bool, bool)>, i: int)
    requires
        0 <= i < readings.len(),
        !readings[i].0,
    ensures
        directive_at(readings, i) is Ignore,
        in_flight_after(readings.take(i + 1)) == in_flight_after(readings.take(i)),
{
    assert(readings.take(i + 1).drop_last() =~= readings.take(i));
}

/// Between two starts of the command there is always a reconciliation of
/// the earlier run: two runs are never started with none in between.
pub proof fn lemma_no_start_without_reconcile(readings: Seq<(bool, bool)>, i: int, j: int)
    requires
        0 <= i < j < readings.len(),
        directive_at(readings, i) is Start,
        directive_at(readings, j) is Start,
    ensures
        exists|k: int| i < k <= j && #[trigger] reconciles(directive_at(readings, k)),
{
    if !exists|k: int| i < k <= j && #[trigger] reconciles(directive_at(readings, k)) {
        assert forall|m: int| i < m < j implies !#[trigger] reconciles(directive_at(readings, m)) by {
            if reconciles(directive_at(readings, m)) {
                assert(i < m <= j && reconciles(directive_at(readings, m)));
            }
        }
        lemma_in_flight_until_reconcile(readings, i, j);
        assert(reconciles(directive_at(readings, j)));
    }
}

/// After a start at `i`, a run stays in flight up to `k` unless some reading
/// in between reconciled it.
proof fn lemma_in_flight_until_reconcile(readings: Seq<(bool, bool)>, i: int, k: int)
    requires
        0 <= i < k <= readings.len(),
        directive_at(readings, i) is Start,
        forall|m: int| i < m < k ==> !#[trigger] reconciles(directive_at(readings, m)),
    ensures
        in_flight_after(readings.take(k)),
    decreases k - i,
{
    if k == i + 1 {
        assert(readings.take(k).drop_last() =~= readings.take(i));
    } else {
        lemma_in_flight_until_reconcile(readings, i, k - 1);
        assert(readings.take(k).drop_last() =~= readings.take(k - 1));
        assert(!reconciles(directive_at(readings, k - 1)));
    }
}

} // verus!
