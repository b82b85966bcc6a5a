//! The teardown protocol between the owning handle and its worker thread.
use std::sync::atomic::{AtomicBool, Ordering};
use std::sync::Arc;
use vstd::prelude::*;

use crate::signal::StopSignal;

verus! {

/// One externally visible effect of teardown, in the order it was performed.
pub enum Effect {
    /// The shared run flag was set to false.
    ClearFlag,
    /// The stop signal was sent to the worker's final wait.
    SendStop,
    /// The worker's join token was handed out to be joined.
    ReleaseWorker,
}

/// What a lifecycle is: whether its (stop signal, worker) pair is still held,
/// and every teardown effect it has performed so far.
pub struct LifecycleView {
    pub armed: bool,
    pub log: Seq<Effect>,
}

/// The effects of one teardown, starting from a lifecycle that holds its pair
/// (`armed`) or has already given it up.
pub open spec fn teardown_effects(armed: bool) -> Seq<Effect> {
    if armed {
        seq![Effect::ClearFlag, Effect::SendStop, Effect::ReleaseWorker]
    } else {
        seq![Effect::ClearFlag]
    }
}

/// The lifecycle after one teardown.
pub open spec fn torn_down(v: LifecycleView) -> LifecycleView {
    LifecycleView { armed: false, log: v.log + teardown_effects(v.armed) }
}

/// Every `later` effect in `s` has an `earlier` effect before it.
pub open spec fn precedes(s: Seq<Effect>, earlier: Effect, later: Effect) -> bool {
    forall|j: int|
        0 <= j < s.len() && #[trigger] s[j] == later ==> exists|i: int|
            0 <= i < j && s[i] == earlier
}

/// After teardown the pair is given up, the run flag has been cleared, and a
/// worker that was still held has been handed out to be joined.
pub proof fn lemma_teardown_completes(v: LifecycleView)
    ensures
        !torn_down(v).armed,
        torn_down(v).log.len() > v.log.len(),
        torn_down(v).log[v.log.len() as int] == Effect::ClearFlag,
        v.armed ==> torn_down(v).log.last() == Effect::ReleaseWorker,
{
}

/// A second teardown changes nothing but clearing the already cleared flag
/// once more: it sends no signal and hands out no worker, so it never blocks.
pub proof fn lemma_teardown_idempotent(v: LifecycleView)
    ensures
        torn_down(torn_down(v)).armed == torn_down(v).armed,
        torn_down(torn_down(v)).log == torn_down(v).log.push(Effect::ClearFlag),
{
    assert(torn_down(torn_down(v)).log =~= torn_down(v).log.push(Effect::ClearFlag));
}

/// Teardown clears the flag before it sends the stop signal, and sends the
/// stop signal before it hands out the worker to be joined, whatever the
/// workload has done; a held worker is always signalled.
pub proof fn lemma_teardown_signals_before_join(armed: bool)
    ensures
        precedes(teardown_effects(armed), Effect::ClearFlag, Effect::SendStop),
        precedes(teardown_effects(armed), Effect::SendStop, Effect::ReleaseWorker),
        armed ==> teardown_effects(armed).contains(Effect::SendStop),
{
    let s = teardown_effects(armed);
    if armed {
        assert(s[0] == Effect::ClearFlag);
        assert(s[1] == Effect::SendStop);
        assert(s[2] == Effect::ReleaseWorker);
    }
}

/// Ownership of one worker thread, through its join token `J`, together with
/// the run flag shared with every task on that worker and the stop signal that
/// ends the worker's final wait.
pub struct Lifecycle<J> {
    run: Arc<AtomicBool>,
    stop: StopSignal,
    worker: Option<J>,
    log: Ghost<Seq<Effect>>,
}

impl<J> Lifecycle<J> {
    pub closed spec fn view(&self) -> LifecycleView {
        LifecycleView { armed: self.worker is Some, log: self.log@ }
    }

    /// The run flag this lifecycle clears on teardown.
    pub closed spec fn flag(&self) -> Arc<AtomicBool> {
        self.run
    }

    /// The stop signal and the worker are held together or given up together.
    pub closed spec fn wf(&self) -> bool {
        self.stop.armed() == (self.worker is Some)
    }

    /// Takes ownership of a freshly started worker, the flag its tasks poll
    /// and the signal that its final wait listens to.
    pub fn new(run: Arc<AtomicBool>, stop: StopSignal, worker: J) -> (r: Lifecycle<J>)
        requires
            stop.armed(),
        ensures
            r.wf(),
            r@ == (LifecycleView { armed: true, log: Seq::empty() }),
            r.flag() == run,
    {
        Lifecycle { run, stop, worker: Some(worker), log: Ghost(Seq::empty()) }
    }

    /// Whether teardown still has a worker to stop.
    pub fn is_armed(&self) -> (r: bool)
        ensures
            r == self@.armed,
    {
        self.worker.is_some()
    }

    /// The run flag shared with the workload.
    pub fn run_flag(&self) -> (r: &Arc<AtomicBool>)
        ensures
            *r == self.flag(),
    {
        &self.run
    }

    /// Tears the context down: clears the run flag, then, if the pair is still
    /// held, sends the stop signal and hands out the worker's join token, which
    /// the caller joins. A second call only clears the flag again and returns
    /// `None`, so nothing is left to block on.
    pub fn release(&mut self) -> (worker: Option<J>)
        requires
            old(self).wf(),
        ensures
            final(self).wf(),
            final(self)@ == torn_down(old(self)@),
            final(self).flag() == old(self).flag(),
            worker is Some <==> old(self)@.armed,
    {
        self.run.store(false, Ordering::SeqCst);
        self.log = Ghost(self.log@.push(Effect::ClearFlag));
        match self.worker.take() {
            Some(w) => {
                let _ = self.stop.fire();
                self.log = Ghost(self.log@.push(Effect::SendStop));
                self.log = Ghost(self.log@.push(Effect::ReleaseWorker));
                assert(self.log@ =~= old(self).log@ + teardown_effects(true));
                Some(w)
            },
            None => {
                assert(self.log@ =~= old(self).log@ + teardown_effects(false));
                None
            },
        }
    }
}

} // verus!
