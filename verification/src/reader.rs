//! Decision core of one ingestion run. The run spawns one collector thread
//! that drains an item channel into a staging buffer and honors a dedicated
//! interrupt channel; the run handle harvests the buffer and polls a shared
//! components-outstanding counter. The threads, channels and busy-poll loops
//! live in the embedding program; every decision they carry out — the
//! collector loop's step, the drain, the completion and termination tests,
//! and the startup/shutdown handshake — is stated and proved here.

use vstd::prelude::*;
use std::sync::Arc;

verus! {

/// What the collector loop's channel selection can observe: an item arrived,
/// the item channel closed (normal end of input), or an interrupt message
/// arrived (any value means terminate).
pub enum CollectorEvent<T> {
    Received(Arc<T>),
    SourceClosed,
    Interrupted,
}

/// One decision of the collector loop: a received item is pushed onto the
/// staging buffer and the loop goes on; a closed source or an interrupt
/// stops the loop and leaves the buffer as it is.
pub fn collector_step<T>(staging: &mut Vec<Arc<T>>, event: CollectorEvent<T>) -> (stop: bool)
    ensures
        match event {
            CollectorEvent::Received(item) => !stop && final(staging)@ == old(staging)@.push(item),
            CollectorEvent::SourceClosed => stop && final(staging)@ == old(staging)@,
            CollectorEvent::Interrupted => stop && final(staging)@ == old(staging)@,
        },
{
    match event {
        CollectorEvent::Received(item) => {
            staging.push(item);
            false
        },
        CollectorEvent::SourceClosed => true,
        CollectorEvent::Interrupted => true,
    }
}

/// Swap-drains the staging buffer: returns everything accumulated since the
/// last drain, in arrival order, and leaves the buffer empty.
pub fn drain_staging<T>(staging: &mut Vec<Arc<T>>) -> (r: Vec<Arc<T>>)
    ensures
        r@ == old(staging)@,
        final(staging)@.len() == 0,
{
    let mut r: Vec<Arc<T>> = Vec::new();
    core::mem::swap(&mut r, staging);
    r
}

/// The run handle's completion test: a run is done exactly when no
/// component is outstanding and the staging buffer has been drained —
/// "producer stopped" alone is not "done".
pub fn is_done_check(components_outstanding: usize, staging_len: usize) -> (r: bool)
    ensures
        r == (components_outstanding == 0 && staging_len == 0),
{
    components_outstanding == 0 && staging_len == 0
}

/// While the staging buffer holds anything, the run is not done, even after
/// the components-outstanding counter has reached zero.
pub proof fn lemma_not_done_until_drained(components_outstanding: usize, staging_len: usize)
    requires
        staging_len > 0,
    ensures
        !(components_outstanding == 0 && staging_len == 0),
{
}

/// The termination barrier that a kill polls: the run's components are
/// fully stopped exactly when the shared counter has returned to zero.
pub fn components_stopped(components_outstanding: usize) -> (r: bool)
    ensures
        r == (components_outstanding == 0),
{
    components_outstanding == 0
}

/// The startup/shutdown handshake of the one collector thread a run spawns,
/// over the shared components-outstanding counter and the readiness flag.
/// The thread registers with the counter first, only then raises the
/// readiness flag the run polls before returning, and deregisters only
/// after that; so a kill issued right after the run returns cannot miss it.
pub struct RunHandshake {
    /// The shared components-outstanding counter's value.
    components: usize,
    /// Whether the collector has incremented the counter.
    registered: bool,
    /// The readiness flag the run busy-polls before returning.
    ready: bool,
    /// Whether the collector has terminated and decremented the counter.
    exited: bool,
}

impl RunHandshake {
    /// The shared counter's value.
    pub closed spec fn components(&self) -> nat {
        self.components as nat
    }

    /// Whether the collector has incremented the counter.
    pub closed spec fn registered(&self) -> bool {
        self.registered
    }

    /// Whether the readiness flag has been raised.
    pub closed spec fn ready(&self) -> bool {
        self.ready
    }

    /// Whether the collector has terminated.
    pub closed spec fn exited(&self) -> bool {
        self.exited
    }

    /// The handshake's invariant: the counter counts exactly the live
    /// registration, the flag is raised only by a registered collector, and
    /// only a collector that has raised the flag can have exited.
    pub open spec fn wf(&self) -> bool {
        &&& self.components() == if self.registered() && !self.exited() {
            1nat
        } else {
            0nat
        }
        &&& self.ready() ==> self.registered()
        &&& self.exited() ==> self.ready()
    }

    /// A fresh run: nothing outstanding, flag down.
    pub fn new() -> (r: Self)
        ensures
            r.wf(),
            !r.registered(),
            !r.ready(),
            !r.exited(),
            r.components() == 0,
    {
        RunHandshake { components: 0, registered: false, ready: false, exited: false }
    }

    /// The collector's first act: increment the shared counter.
    pub fn register(&mut self)
        requires
            old(self).wf(),
            !old(self).registered(),
        ensures
            final(self).wf(),
            final(self).registered(),
            final(self).components() == 1,
            final(self).ready() == old(self).ready(),
            !final(self).exited(),
    {
        self.components = self.components + 1;
        self.registered = true;
    }

    /// The collector's second act: raise the readiness flag — only after
    /// the counter is already incremented.
    pub fn signal_ready(&mut self)
        requires
            old(self).wf(),
            old(self).registered(),
            !old(self).exited(),
        ensures
            final(self).wf(),
            final(self).ready(),
            final(self).components() == old(self).components(),
            final(self).registered(),
            !final(self).exited(),
    {
        self.ready = true;
    }

    /// The collector's last act: decrement the counter as it terminates.
    /// It can only come after the readiness flag went up.
    pub fn exit(&mut self)
        requires
            old(self).wf(),
            old(self).ready(),
            !old(self).exited(),
        ensures
            final(self).wf(),
            final(self).exited(),
            final(self).components() == 0,
    {
        self.components = self.components - 1;
        self.exited = true;
    }

    /// The shared counter's current value.
    pub fn components_outstanding(&self) -> (r: usize)
        ensures
            r == self.components(),
    {
        self.components
    }

    /// What the run's startup busy-poll tests: the readiness flag.
    pub fn run_wait_done(&self) -> (r: bool)
        ensures
            r == self.ready(),
    {
        self.ready
    }
}

/// When the run's startup poll succeeds while the collector still lives,
/// the counter is already greater than zero: there is no window after the
/// run returns in which a kill could observe the counter still at zero
/// although the collector is about to raise it.
pub proof fn lemma_run_return_no_race(h: RunHandshake)
    requires
        h.wf(),
        h.ready(),
        !h.exited(),
    ensures
        h.components() > 0,
{
}

/// Once the collector has honored termination, the counter stands at zero
/// again, so a kill's wait on `components_stopped` returns.
pub proof fn lemma_kill_barrier_clears(h: RunHandshake)
    requires
        h.wf(),
        h.exited(),
    ensures
        h.components() == 0,
{
}

} // verus!
