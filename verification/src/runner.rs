//! The pipeline runner: the consumer side of the transport.
//!
//! In processing mode a background consumer races "next tree arrived"
//! against "shutdown requested", feeds each arriving tree to the
//! configured [`Processor`], and after the shutdown signal closes the
//! transport and drains every buffered tree before exiting.  In capture
//! mode no processor runs: after the scope ends, the backlog is
//! collected in arrival order and handed back.
//!
//! The waiting itself is the host runtime's business.  The decisions are
//! made here: [`runner_step`] is the transition rule, [`ProcessRun`] and
//! [`CaptureRun`] walk it, and the lemmas below state the delivery
//! guarantees of the protocol, among them that a graceful run loses no
//! tree and keeps arrival order.

use vstd::prelude::*;

use crate::processor::{ProcessReport, Processor, returns_input};
use crate::tree::Tree;
use std::io::Write;

verus! {

/// The phases of the consumer in processing mode.
#[derive(Clone, Copy, PartialEq, Eq, Structural, Debug)]
pub enum RunnerState {
    /// Trees are processed as they arrive, racing the shutdown signal.
    Running,
    /// The shutdown signal fired; the transport must now be closed.
    ShuttingDown,
    /// The transport is closed; the buffered backlog is being drained.
    Draining,
    /// The backlog is exhausted; the consumer exits.
    Done,
}

/// What the consumer observed while waiting.
#[derive(Clone, Copy, PartialEq, Eq, Structural, Debug)]
pub enum RunnerEvent {
    /// The next tree arrived, or was pulled from the backlog.
    TreeArrived(Tree),
    /// The one-shot shutdown signal fired.
    ShutdownRequested,
    /// The transport was closed for further receipt.
    TransportClosed,
    /// The transport is closed and nothing is left in its buffer.
    TransportEmpty,
}

/// What the host loop must do after an event was consumed.
#[derive(Clone, Copy, PartialEq, Eq, Structural, Debug)]
pub enum RunnerAction {
    /// The tree was fed to the processor; keep waiting.
    Delivered(Tree),
    /// Close the transport for further receipt, then report it closed.
    CloseTransport,
    /// Keep pulling from the backlog.
    Continue,
    /// The drain is complete; the consumer may be joined.
    Finish,
    /// The event cannot occur in this phase: a programming error,
    /// detected rather than acted on.  The phase does not change.
    Reject,
}

/// The transition rule of the processing-mode consumer.
///
/// Every tree that arrives while running or draining is delivered at
/// once; the shutdown signal is accepted exactly once, while running;
/// the drain ends only when the closed transport reports empty.
pub open spec fn spec_step(state: RunnerState, event: RunnerEvent) -> (RunnerState, RunnerAction) {
    match (state, event) {
        (RunnerState::Running, RunnerEvent::TreeArrived(t)) => (
            RunnerState::Running,
            RunnerAction::Delivered(t),
        ),
        (RunnerState::Running, RunnerEvent::ShutdownRequested) => (
            RunnerState::ShuttingDown,
            RunnerAction::CloseTransport,
        ),
        (RunnerState::ShuttingDown, RunnerEvent::TransportClosed) => (
            RunnerState::Draining,
            RunnerAction::Continue,
        ),
        (RunnerState::Draining, RunnerEvent::TreeArrived(t)) => (
            RunnerState::Draining,
            RunnerAction::Delivered(t),
        ),
        (RunnerState::Draining, RunnerEvent::TransportEmpty) => (
            RunnerState::Done,
            RunnerAction::Finish,
        ),
        (s, _) => (s, RunnerAction::Reject),
    }
}

/// Decides the consumer's next phase and the host's next duty.
pub fn runner_step(state: RunnerState, event: RunnerEvent) -> (r: (RunnerState, RunnerAction))
    ensures
        r == spec_step(state, event),
{
    match (state, event) {
        (RunnerState::Running, RunnerEvent::TreeArrived(t)) => (
            RunnerState::Running,
            RunnerAction::Delivered(t),
        ),
        (RunnerState::Running, RunnerEvent::ShutdownRequested) => (
            RunnerState::ShuttingDown,
            RunnerAction::CloseTransport,
        ),
        (RunnerState::ShuttingDown, RunnerEvent::TransportClosed) => (
            RunnerState::Draining,
            RunnerAction::Continue,
        ),
        (RunnerState::Draining, RunnerEvent::TreeArrived(t)) => (
            RunnerState::Draining,
            RunnerAction::Delivered(t),
        ),
        (RunnerState::Draining, RunnerEvent::TransportEmpty) => (
            RunnerState::Done,
            RunnerAction::Finish,
        ),
        (s, _) => (s, RunnerAction::Reject),
    }
}

/// The phase reached after consuming a sequence of events.
pub open spec fn run_state(state: RunnerState, events: Seq<RunnerEvent>) -> RunnerState
    decreases events.len(),
{
    if events.len() == 0 {
        state
    } else {
        run_state(spec_step(state, events[0]).0, events.drop_first())
    }
}

/// The trees fed to the processor, in order, while consuming a
/// sequence of events.
pub open spec fn run_delivered(state: RunnerState, events: Seq<RunnerEvent>) -> Seq<Tree>
    decreases events.len(),
{
    if events.len() == 0 {
        Seq::empty()
    } else {
        let rest = run_delivered(spec_step(state, events[0]).0, events.drop_first());
        match spec_step(state, events[0]).1 {
            RunnerAction::Delivered(t) => seq![t] + rest,
            _ => rest,
        }
    }
}

/// The events of a batch of trees arriving in order.
pub open spec fn arrivals(trees: Seq<Tree>) -> Seq<RunnerEvent> {
    trees.map_values(|t: Tree| RunnerEvent::TreeArrived(t))
}

/// The events of one graceful run in processing mode: trees arrive
/// while the scope runs, the scope ends and the shutdown signal fires,
/// the transport closes, the buffered backlog drains, and the empty
/// transport ends the run.
pub open spec fn graceful_events(live: Seq<Tree>, backlog: Seq<Tree>) -> Seq<RunnerEvent> {
    arrivals(live) + seq![RunnerEvent::ShutdownRequested, RunnerEvent::TransportClosed]
        + arrivals(backlog) + seq![RunnerEvent::TransportEmpty]
}

/// The events of a capture drain: the transport is already closed, the
/// backlog is pulled whole, and the empty transport ends the run.
pub open spec fn capture_events(backlog: Seq<Tree>) -> Seq<RunnerEvent> {
    arrivals(backlog) + seq![RunnerEvent::TransportEmpty]
}

/// Consuming the concatenation of two event batches reaches the phase,
/// and delivers the trees, of consuming them one after the other.
pub proof fn lemma_run_append(state: RunnerState, a: Seq<RunnerEvent>, b: Seq<RunnerEvent>)
    ensures
        run_state(state, a + b) == run_state(run_state(state, a), b),
        run_delivered(state, a + b) == run_delivered(state, a) + run_delivered(
            run_state(state, a),
            b,
        ),
    decreases a.len(),
{
    if a.len() == 0 {
        assert(a + b =~= b);
        assert(run_delivered(state, a) + run_delivered(state, b) =~= run_delivered(state, b));
    } else {
        let next = spec_step(state, a[0]).0;
        assert((a + b)[0] == a[0]);
        assert((a + b).drop_first() =~= a.drop_first() + b);
        lemma_run_append(next, a.drop_first(), b);
        match spec_step(state, a[0]).1 {
            RunnerAction::Delivered(t) => {
                assert(seq![t] + (run_delivered(next, a.drop_first()) + run_delivered(
                    run_state(next, a.drop_first()),
                    b,
                )) =~= (seq![t] + run_delivered(next, a.drop_first())) + run_delivered(
                    run_state(next, a.drop_first()),
                    b,
                ));
            },
            _ => {},
        }
    }
}

/// While running or draining, a batch of arriving trees is delivered
/// whole, in arrival order, and the phase does not change.
pub proof fn lemma_run_arrivals(state: RunnerState, trees: Seq<Tree>)
    requires
        state == RunnerState::Running || state == RunnerState::Draining,
    ensures
        run_state(state, arrivals(trees)) == state,
        run_delivered(state, arrivals(trees)) == trees,
    decreases trees.len(),
{
    if trees.len() == 0 {
        assert(arrivals(trees) =~= Seq::<RunnerEvent>::empty());
        assert(run_delivered(state, arrivals(trees)) =~= trees);
    } else {
        assert(arrivals(trees)[0] == RunnerEvent::TreeArrived(trees[0]));
        assert(arrivals(trees).drop_first() =~= arrivals(trees.drop_first()));
        lemma_run_arrivals(state, trees.drop_first());
        assert(run_delivered(state, arrivals(trees)) =~= seq![trees[0]] + trees.drop_first());
        assert(seq![trees[0]] + trees.drop_first() =~= trees);
    }
}

/// Law of no loss under graceful shutdown, and of per-producer order:
/// in one graceful run, every tree that arrived before the shutdown
/// signal and every tree still buffered when the transport closed is
/// fed to the processor, in arrival order and with nothing else, before
/// the consumer finishes.
pub proof fn lemma_graceful_run_no_loss(live: Seq<Tree>, backlog: Seq<Tree>)
    ensures
        run_state(RunnerState::Running, graceful_events(live, backlog)) == RunnerState::Done,
        run_delivered(RunnerState::Running, graceful_events(live, backlog)) == live + backlog,
{
    reveal_with_fuel(run_state, 3);
    reveal_with_fuel(run_delivered, 3);
    let shutdown = seq![RunnerEvent::ShutdownRequested, RunnerEvent::TransportClosed];
    let tail = seq![RunnerEvent::TransportEmpty];
    lemma_run_arrivals(RunnerState::Running, live);
    lemma_run_append(RunnerState::Running, arrivals(live), shutdown + arrivals(backlog) + tail);
    lemma_run_append(RunnerState::Running, shutdown, arrivals(backlog) + tail);
    assert(run_state(RunnerState::Running, shutdown) == RunnerState::Draining) by {
        assert(shutdown.drop_first() =~= seq![RunnerEvent::TransportClosed]);
    }
    assert(run_delivered(RunnerState::Running, shutdown) =~= Seq::<Tree>::empty()) by {
        assert(shutdown.drop_first() =~= seq![RunnerEvent::TransportClosed]);
    }
    lemma_run_arrivals(RunnerState::Draining, backlog);
    lemma_run_append(RunnerState::Draining, arrivals(backlog), tail);
    assert(run_delivered(RunnerState::Draining, tail) =~= Seq::<Tree>::empty());
    assert(graceful_events(live, backlog) =~= arrivals(live) + (shutdown + arrivals(backlog)
        + tail));
    assert(shutdown + arrivals(backlog) + tail =~= shutdown + (arrivals(backlog) + tail));
    assert(run_delivered(RunnerState::Running, graceful_events(live, backlog)) =~= live + backlog);
}

/// Law of capture completeness and order: a capture drain over a
/// closed transport returns exactly the buffered trees, in arrival
/// order, with no omissions and no duplicates, and the run ends.
pub proof fn lemma_capture_complete(backlog: Seq<Tree>)
    ensures
        run_state(RunnerState::Draining, capture_events(backlog)) == RunnerState::Done,
        run_delivered(RunnerState::Draining, capture_events(backlog)) == backlog,
{
    reveal_with_fuel(run_state, 3);
    reveal_with_fuel(run_delivered, 3);
    let tail = seq![RunnerEvent::TransportEmpty];
    lemma_run_arrivals(RunnerState::Draining, backlog);
    lemma_run_append(RunnerState::Draining, arrivals(backlog), tail);
    assert(run_delivered(RunnerState::Draining, tail) =~= Seq::<Tree>::empty());
    assert(run_delivered(RunnerState::Draining, capture_events(backlog)) =~= backlog);
}

/// Law of single shutdown: the signal is consumed exactly once.  Once
/// the consumer has left the running phase, a second shutdown signal is
/// rejected as a programming error and changes no phase.
pub proof fn lemma_second_shutdown_rejected(state: RunnerState)
    requires
        state != RunnerState::Running,
    ensures
        spec_step(state, RunnerEvent::ShutdownRequested) == (state, RunnerAction::Reject),
{
}

/// Relies on the `std::io::Write` impl of `std::io::Stderr`: the
/// operator-facing failure hook; one line describing the report goes to
/// the standard error stream.
#[verifier::external_body]
fn report_failure(rep: &ProcessReport) {
    let _ = writeln!(std::io::stderr(), "failed to process tree: {:?}", rep);
}

/// One processing-mode consumer run.
///
/// The run owns the configured processor exclusively: no two trees are
/// ever processed concurrently.  It walks the phases of [`spec_step`],
/// feeds every arriving tree to the processor at once, and keeps a
/// report for every tree whose whole fallback chain still failed — the
/// failure-hook log.  One tree's failure never halts the run.
pub struct ProcessRun<P> {
    processor: P,
    state: RunnerState,
    delivered: Ghost<Seq<Tree>>,
    failures: Vec<ProcessReport>,
}

impl<P: Processor> ProcessRun<P> {
    /// The phase the run is in.
    pub closed spec fn spec_state(self) -> RunnerState {
        self.state
    }

    /// The trees fed to the processor so far, in order.
    pub closed spec fn delivered(self) -> Seq<Tree> {
        self.delivered@
    }

    /// The reports of the trees whose whole chain failed, in order.
    pub closed spec fn failure_log(self) -> Seq<ProcessReport> {
        self.failures@
    }

    /// The processor the run was configured with.
    pub closed spec fn spec_processor(self) -> P {
        self.processor
    }

    /// A fresh run, in the running phase, with nothing delivered.
    pub fn new(processor: P) -> (r: Self)
        ensures
            r.spec_state() == RunnerState::Running,
            r.delivered() == Seq::<Tree>::empty(),
            r.failure_log() == Seq::<ProcessReport>::empty(),
            r.spec_processor() == processor,
    {
        ProcessRun {
            processor,
            state: RunnerState::Running,
            delivered: Ghost(Seq::empty()),
            failures: Vec::new(),
        }
    }

    /// Consume one observed event.
    ///
    /// The phase moves exactly as [`spec_step`] says.  An arriving tree
    /// is fed to the processor before anything else happens; if its
    /// whole fallback chain still fails, the report joins the failure
    /// log and is echoed through the failure hook.  The returned action
    /// is the host's next duty.
    pub fn on_event(&mut self, event: RunnerEvent) -> (action: RunnerAction)
        ensures
            final(self).spec_processor() == old(self).spec_processor(),
            (final(self).spec_state(), action) == spec_step(old(self).spec_state(), event),
            (action matches RunnerAction::Delivered(t) ==> final(self).delivered() == old(self).delivered().push(t)),
            !(action is Delivered) ==> final(self).delivered() == old(self).delivered(),
            (action matches RunnerAction::Delivered(t) ==> (final(self).failure_log() == old(self).failure_log() || (exists|rep: ProcessReport|
                {
                    &&& returns_input(t, Result::<(), ProcessReport>::Err(rep))
                    &&& old(self).spec_processor().guarantees(
                        t,
                        Result::<(), ProcessReport>::Err(rep),
                    )
                    &&& final(self).failure_log() == old(self).failure_log().push(rep)
                }))),
            !(action is Delivered) ==> final(self).failure_log() == old(self).failure_log(),
            ((action matches RunnerAction::Delivered(t) && (forall|r: Result<(), ProcessReport>|
                #[trigger] old(self).spec_processor().guarantees(t, r) ==> r is Ok)) ==> final(self).failure_log() == old(self).failure_log()),
    {
        let (next, action) = runner_step(self.state, event);
        self.state = next;
        match action {
            RunnerAction::Delivered(t) => {
                self.delivered = Ghost(self.delivered@.push(t));
                match self.processor.process(t) {
                    Ok(_) => {},
                    Err(rep) => {
                        report_failure(&rep);
                        self.failures.push(rep);
                    },
                }
            },
            _ => {},
        }
        action
    }

    /// The phase the run is in.
    pub fn state(&self) -> (s: RunnerState)
        ensures
            s == self.spec_state(),
    {
        self.state
    }

    /// How many trees failed their whole fallback chain so far.
    pub fn failure_count(&self) -> (n: usize)
        ensures
            n == self.failure_log().len(),
    {
        self.failures.len()
    }

    /// Hand back the failure log, in order of failure.
    pub fn into_failures(self) -> (v: Vec<ProcessReport>)
        ensures
            v@ == self.failure_log(),
    {
        self.failures
    }
}

/// One capture-mode run.
///
/// No processor is consulted: after the monitored scope ends and the
/// transport closes, the backlog is collected whole, in arrival order,
/// and handed back to the caller.
pub struct CaptureRun {
    logs: Vec<Tree>,
    done: bool,
}

impl CaptureRun {
    /// The trees collected so far, in arrival order.
    pub closed spec fn collected(self) -> Seq<Tree> {
        self.logs@
    }

    /// Whether the backlog was exhausted and the run is over.
    pub closed spec fn finished(self) -> bool {
        self.done
    }

    /// A fresh run with nothing collected.
    pub fn new() -> (r: CaptureRun)
        ensures
            r.collected() == Seq::<Tree>::empty(),
            !r.finished(),
    {
        CaptureRun { logs: Vec::new(), done: false }
    }

    /// Record the next tree pulled from the closed transport.
    pub fn collect(&mut self, tree: Tree)
        requires
            !old(self).finished(),
        ensures
            final(self).collected() == old(self).collected().push(tree),
            !final(self).finished(),
    {
        self.logs.push(tree);
    }

    /// The backlog is exhausted: nothing more can be collected.
    pub fn finish(&mut self)
        requires
            !old(self).finished(),
        ensures
            final(self).collected() == old(self).collected(),
            final(self).finished(),
    {
        self.done = true;
    }

    /// Hand back every collected tree, in arrival order.
    pub fn into_logs(self) -> (logs: Vec<Tree>)
        ensures
            logs@ == self.collected(),
    {
        self.logs
    }
}

} // verus!
