//! The processing capability and its fallback-composition algebra.
//!
//! A [`Processor`] consumes one completed [`Tree`] and reports success or
//! a [`ProcessReport`].  Processors compose: [`Processor::with_fallback`]
//! chains a primary and a fallback into a new processor that retries the
//! tree on a recoverable failure.  The routing rule of such a chain is
//! the pure function [`fallback_decision`], proved to match its
//! specification exactly.

use vstd::prelude::*;

use crate::tree::Tree;
use std::io::Write;

verus! {

/// Why one processing attempt failed.
#[derive(Clone, Copy, PartialEq, Eq, Structural, Debug)]
pub enum ReportCause {
    /// The tree was offered to a transport after its receiving half had
    /// closed.  The tree comes back, so a fallback can bypass the
    /// transport.
    TransportClosed,
    /// A terminal sink (a writer or formatter) failed.  The tree comes
    /// back, so a fallback can try another destination.
    SinkFailure,
    /// Ownership of the tree had already passed downstream when the
    /// failure was detected, so the tree cannot come back and no
    /// fallback can retry it.
    UnrecoverableLoss,
}

/// The failure outcome of one processing attempt.
///
/// A report returns the original tree whenever the failing processor
/// still owns it, so that a fallback can retry the very same tree
/// without reconstruction.  Only when ownership had already passed to
/// another sink is `tree` absent; such a loss is final.
#[derive(Clone, Copy, PartialEq, Eq, Debug)]
pub struct ProcessReport {
    /// The tree handed back for a retry, if it could be recovered.
    pub tree: Option<Tree>,
    /// Why the attempt failed.
    pub cause: ReportCause,
}

impl ProcessReport {
    /// A report carrying the given tree (if recovered) and cause.
    pub fn new(tree: Option<Tree>, cause: ReportCause) -> (r: ProcessReport)
        ensures
            r.tree == tree,
            r.cause == cause,
    {
        ProcessReport { tree, cause }
    }

    /// A fallback can retry exactly the reports that still carry the
    /// tree.
    pub open spec fn recoverable(self) -> bool {
        self.tree is Some
    }

    /// Whether a fallback could still retry this report's tree.
    pub fn is_recoverable(&self) -> (r: bool)
        ensures
            r == self.recoverable(),
    {
        self.tree.is_some()
    }
}

/// The report of a tree bounced off a closed transport.
pub open spec fn transport_closed_report(tree: Tree) -> ProcessReport {
    ProcessReport { tree: Some(tree), cause: ReportCause::TransportClosed }
}

/// The report of a tree a terminal sink could not write.
pub open spec fn sink_failure_report(tree: Tree) -> ProcessReport {
    ProcessReport { tree: Some(tree), cause: ReportCause::SinkFailure }
}

/// Holds of every outcome a processor may report for `tree`: failure is
/// announced, never silent, and a failing processor hands back the very
/// tree it was given or none at all.
pub open spec fn returns_input(tree: Tree, r: Result<(), ProcessReport>) -> bool {
    r matches Err(rep) ==> (rep.tree matches Some(t) ==> t == tree)
}

/// A capability that consumes one tree and reports success or a
/// recoverable failure.
///
/// What processing means is up to the implementation: writing to a
/// sink, forwarding to a conduit, storing in memory, or discarding.
/// Every implementation states its own guarantee through
/// [`Processor::guarantees`], and every outcome obeys
/// [`returns_input`]: a failure never swallows the tree silently.
pub trait Processor: Sized {
    /// What every outcome of [`Processor::process`] obeys for this
    /// processor, beyond handing the input tree back on failure.
    spec fn guarantees(&self, tree: Tree, r: Result<(), ProcessReport>) -> bool;

    /// Consume one tree, reporting a failure rather than swallowing it.
    fn process(&self, tree: Tree) -> (r: Result<(), ProcessReport>)
        ensures
            returns_input(tree, r),
            self.guarantees(tree, r),
    ;

    /// A processor that first attempts `self` and offers the tree to
    /// `fallback` when `self` fails recoverably.
    fn with_fallback<F>(self, fallback: F) -> (r: WithFallback<Self, F>)
        ensures
            r.primary == self,
            r.fallback == fallback,
    {
        WithFallback { primary: self, fallback }
    }

    /// A processor that first attempts `self` and prints the tree to
    /// the standard output stream when `self` fails recoverably.
    fn with_stdout_fallback(self) -> (r: WithFallback<Self, StdoutPrinter>)
        ensures
            r.primary == self,
            r.fallback == StdoutPrinter,
    {
        self.with_fallback(StdoutPrinter)
    }

    /// A processor that first attempts `self` and prints the tree to
    /// the standard error stream when `self` fails recoverably.
    fn with_stderr_fallback(self) -> (r: WithFallback<Self, StderrPrinter>)
        ensures
            r.primary == self,
            r.fallback == StderrPrinter,
    {
        self.with_fallback(StderrPrinter)
    }

    /// A processor that first attempts `self` and silently discards the
    /// tree when `self` fails recoverably.
    fn with_ignore_fallback(self) -> (r: WithFallback<Self, Sink>)
        ensures
            r.primary == self,
            r.fallback == Sink,
    {
        self.with_fallback(Sink)
    }
}

/// What a fallback chain must do with the primary's outcome.
#[derive(Clone, Copy, PartialEq, Eq, Debug)]
pub enum FallbackDecision {
    /// The primary succeeded; the fallback is not consulted.
    Done,
    /// The primary failed but returned the tree; offer it to the
    /// fallback.
    Retry(Tree),
    /// The primary lost the tree; nothing is left to retry, the report
    /// passes through unchanged.
    Propagate(ProcessReport),
}

/// The routing rule of a fallback chain, as a mathematical function of
/// the primary's outcome.
pub open spec fn spec_fallback_decision(attempt: Result<(), ProcessReport>) -> FallbackDecision {
    match attempt {
        Ok(_) => FallbackDecision::Done,
        Err(rep) => match rep.tree {
            Some(t) => FallbackDecision::Retry(t),
            None => FallbackDecision::Propagate(rep),
        },
    }
}

/// Decides what a fallback chain does next, given the primary's
/// outcome.
pub fn fallback_decision(attempt: Result<(), ProcessReport>) -> (d: FallbackDecision)
    ensures
        d == spec_fallback_decision(attempt),
{
    match attempt {
        Ok(_) => FallbackDecision::Done,
        Err(rep) => match rep.tree {
            Some(t) => FallbackDecision::Retry(t),
            None => FallbackDecision::Propagate(rep),
        },
    }
}

/// Law: when the primary fails and hands the tree back, the chain
/// offers that very tree to the fallback; when the primary succeeds,
/// the fallback is never consulted; when the tree was lost, the report
/// passes through untouched.
pub proof fn lemma_fallback_routing(tree: Tree, attempt: Result<(), ProcessReport>)
    requires
        returns_input(tree, attempt),
    ensures
        attempt is Ok ==> spec_fallback_decision(attempt) == FallbackDecision::Done,
        (attempt matches Err(rep) && rep.tree is Some) ==> spec_fallback_decision(attempt)
            == FallbackDecision::Retry(tree),
        (attempt matches Err(rep) && rep.tree is None) ==> spec_fallback_decision(attempt)
            == FallbackDecision::Propagate(attempt->Err_0),
{
}

/// A processor composed of a primary and a fallback.
///
/// This type is returned by [`Processor::with_fallback`].  Chains
/// compose: wrapping an already-composed processor yields a deeper
/// chain, attempted strictly left to right and stopping at the first
/// success.
#[derive(Debug)]
pub struct WithFallback<P, F> {
    /// Attempted first, on every tree.
    pub primary: P,
    /// Offered the tree when `primary` fails recoverably.
    pub fallback: F,
}

impl<P: Processor, F: Processor> Processor for WithFallback<P, F> {
    /// A failure that still carries the tree can only have come from
    /// the fallback, after it received that tree, so the fallback's own
    /// guarantee applies to it; a failure that lost the tree came from
    /// one of the two stages, so one of their guarantees applies.
    open spec fn guarantees(&self, tree: Tree, r: Result<(), ProcessReport>) -> bool {
        &&& ((r matches Err(rep) && rep.tree is Some) ==> self.fallback.guarantees(tree, r))
        &&& ((r matches Err(rep) && rep.tree is None) ==> (self.primary.guarantees(tree, r)
            || self.fallback.guarantees(tree, r)))
    }

    fn process(&self, tree: Tree) -> (r: Result<(), ProcessReport>) {
        let attempt = self.primary.process(tree);
        match fallback_decision(attempt) {
            FallbackDecision::Done => Ok(()),
            FallbackDecision::Retry(t) => self.fallback.process(t),
            FallbackDecision::Propagate(rep) => Err(rep),
        }
    }
}

/// A processor that discards every tree.
///
/// This processor cannot fail: it succeeds on every input, including a
/// degenerate tree.  Discarding is an explicit opt-in, never a default.
#[derive(Clone, Copy, PartialEq, Eq, Structural, Debug)]
pub struct Sink;

impl Processor for Sink {
    /// Discarding always succeeds.
    open spec fn guarantees(&self, tree: Tree, r: Result<(), ProcessReport>) -> bool {
        r is Ok
    }

    fn process(&self, _tree: Tree) -> (r: Result<(), ProcessReport>)
        ensures
            r is Ok,
    {
        Ok(())
    }
}

/// The outcome a printing processor reports for a write that either
/// went through or did not.
pub open spec fn spec_write_outcome(tree: Tree, wrote: bool) -> Result<(), ProcessReport> {
    if wrote {
        Ok(())
    } else {
        Err(sink_failure_report(tree))
    }
}

/// Turns the outcome of a write into the processor's report: success
/// when the line went out, otherwise a sink failure carrying the tree
/// back for a fallback to retry.
pub fn write_outcome(tree: Tree, wrote: bool) -> (r: Result<(), ProcessReport>)
    ensures
        r == spec_write_outcome(tree, wrote),
{
    if wrote {
        Ok(())
    } else {
        Err(ProcessReport { tree: Some(tree), cause: ReportCause::SinkFailure })
    }
}

/// Relies on the `std::io::Write` impl of `std::io::Stdout`: one line
/// naming the tree goes to the standard output stream, and the result
/// says whether the write succeeded.
#[verifier::external_body]
fn print_tree_stdout(tree: &Tree) -> (wrote: bool) {
    writeln!(std::io::stdout(), "tree {}", tree.id).is_ok()
}

/// Relies on the `std::io::Write` impl of `std::io::Stderr`: one line
/// naming the tree goes to the standard error stream, and the result
/// says whether the write succeeded.
#[verifier::external_body]
fn print_tree_stderr(tree: &Tree) -> (wrote: bool) {
    writeln!(std::io::stderr(), "tree {}", tree.id).is_ok()
}

/// A terminal processor that prints each tree to the standard output
/// stream.
#[derive(Clone, Copy, PartialEq, Eq, Structural, Debug)]
pub struct StdoutPrinter;

impl Processor for StdoutPrinter {
    /// Either the line went out, or the tree comes back as a sink
    /// failure.
    open spec fn guarantees(&self, tree: Tree, r: Result<(), ProcessReport>) -> bool {
        r is Ok || r == Result::<(), ProcessReport>::Err(sink_failure_report(tree))
    }

    fn process(&self, tree: Tree) -> (r: Result<(), ProcessReport>) {
        let wrote = print_tree_stdout(&tree);
        write_outcome(tree, wrote)
    }
}

/// A terminal processor that prints each tree to the standard error
/// stream.
#[derive(Clone, Copy, PartialEq, Eq, Structural, Debug)]
pub struct StderrPrinter;

impl Processor for StderrPrinter {
    /// Either the line went out, or the tree comes back as a sink
    /// failure.
    open spec fn guarantees(&self, tree: Tree, r: Result<(), ProcessReport>) -> bool {
        r is Ok || r == Result::<(), ProcessReport>::Err(sink_failure_report(tree))
    }

    fn process(&self, tree: Tree) -> (r: Result<(), ProcessReport>) {
        let wrote = print_tree_stderr(&tree);
        write_outcome(tree, wrote)
    }
}

impl<P: Processor> Processor for Box<P> {
    open spec fn guarantees(&self, tree: Tree, r: Result<(), ProcessReport>) -> bool {
        (**self).guarantees(tree, r)
    }

    fn process(&self, tree: Tree) -> (r: Result<(), ProcessReport>) {
        (**self).process(tree)
    }
}

impl<P: Processor> Processor for std::sync::Arc<P> {
    open spec fn guarantees(&self, tree: Tree, r: Result<(), ProcessReport>) -> bool {
        (**self).guarantees(tree, r)
    }

    fn process(&self, tree: Tree) -> (r: Result<(), ProcessReport>) {
        (**self).process(tree)
    }
}

} // verus!
