//! The transport: an unbounded multi-producer, single-consumer conduit
//! carrying completed trees from instrumented code to the runner.
//!
//! Enqueueing never blocks the producing path and never fails while the
//! receiving half is open; once that half has closed, the tree bounces
//! back inside the report, where a fallback can still pick it up.  The
//! conduit itself belongs to the host runtime; this module states what
//! the pipeline relies on of it and wraps the producing side as a
//! [`Processor`].

use vstd::prelude::*;

use crate::processor::{
    ProcessReport, Processor, ReportCause, transport_closed_report,
};
use crate::tree::Tree;
use tokio::sync::mpsc::{UnboundedReceiver, UnboundedSender};

verus! {

#[verifier::external_type_specification]
#[verifier::external_body]
#[verifier::reject_recursive_types(T)]
pub struct ExUnboundedSender<T>(UnboundedSender<T>);

#[verifier::external_type_specification]
#[verifier::external_body]
#[verifier::reject_recursive_types(T)]
pub struct ExUnboundedReceiver<T>(UnboundedReceiver<T>);

/// Relies on tokio's `UnboundedSender::clone`: another sending half of
/// the very same conduit.
pub assume_specification<T>[ <UnboundedSender<T> as Clone>::clone ](
    sender: &UnboundedSender<T>,
) -> UnboundedSender<T>;

/// Relies on tokio's `sync::mpsc::unbounded_channel`: the two halves of
/// one fresh unbounded conduit.
#[verifier::external_body]
pub(crate) fn unbounded_pair() -> (pair: (UnboundedSender<Tree>, UnboundedReceiver<Tree>)) {
    tokio::sync::mpsc::unbounded_channel()
}

/// Relies on tokio's `UnboundedSender::send`: the message is enqueued
/// without blocking unless the receiving half has been closed or
/// dropped, in which case it comes back unchanged inside the error.
#[verifier::external_body]
fn send_tree(sender: &UnboundedSender<Tree>, tree: Tree) -> (r: Result<(), Tree>)
    ensures
        r matches Err(t) ==> t == tree,
{
    sender.send(tree).map_err(|e| e.0)
}

impl Processor for UnboundedSender<Tree> {
    /// Enqueueing either succeeds or bounces off the closed transport,
    /// handing the very tree back.
    open spec fn guarantees(&self, tree: Tree, r: Result<(), ProcessReport>) -> bool {
        r is Ok || r == Result::<(), ProcessReport>::Err(transport_closed_report(tree))
    }

    fn process(&self, tree: Tree) -> (r: Result<(), ProcessReport>) {
        match send_tree(self, tree) {
            Ok(_) => Ok(()),
            Err(t) => Err(ProcessReport { tree: Some(t), cause: ReportCause::TransportClosed }),
        }
    }
}

/// The producer-side processor: processing a tree means enqueueing it
/// on the transport, whole, without blocking the instrumented path.
///
/// The sending half is clonable by design, so many concurrent
/// producers may share one transport; the receiving half stays with
/// the runner alone.
#[derive(Clone)]
pub struct TreeSender(pub(crate) UnboundedSender<Tree>);

impl Processor for TreeSender {
    /// Enqueueing either succeeds or bounces off the closed transport,
    /// handing the very tree back.
    open spec fn guarantees(&self, tree: Tree, r: Result<(), ProcessReport>) -> bool {
        r is Ok || r == Result::<(), ProcessReport>::Err(transport_closed_report(tree))
    }

    fn process(&self, tree: Tree) -> (r: Result<(), ProcessReport>) {
        self.0.process(tree)
    }
}

#[verifier::external_type_specification]
#[verifier::external_body]
#[verifier::reject_recursive_types(T)]
pub struct ExStdSender<T>(std::sync::mpsc::Sender<T>);

#[verifier::external_type_specification]
#[verifier::external_body]
#[verifier::reject_recursive_types(T)]
pub struct ExStdSyncSender<T>(std::sync::mpsc::SyncSender<T>);

/// Relies on `std::sync::mpsc::Sender::send`: the message is queued
/// unless the receiver has disconnected, in which case it comes back
/// unchanged inside the error.
#[verifier::external_body]
fn std_send_tree(sender: &std::sync::mpsc::Sender<Tree>, tree: Tree) -> (r: Result<(), Tree>)
    ensures
        r matches Err(t) ==> t == tree,
{
    sender.send(tree).map_err(|e| e.0)
}

/// Relies on `std::sync::mpsc::SyncSender::send`: the call blocks until
/// buffer space frees, and the message comes back unchanged inside the
/// error when the receiver has disconnected.
#[verifier::external_body]
fn std_sync_send_tree(
    sender: &std::sync::mpsc::SyncSender<Tree>,
    tree: Tree,
) -> (r: Result<(), Tree>)
    ensures
        r matches Err(t) ==> t == tree,
{
    sender.send(tree).map_err(|e| e.0)
}

impl Processor for std::sync::mpsc::Sender<Tree> {
    /// Forwarding either succeeds or bounces off the disconnected
    /// conduit, handing the very tree back.
    open spec fn guarantees(&self, tree: Tree, r: Result<(), ProcessReport>) -> bool {
        r is Ok || r == Result::<(), ProcessReport>::Err(transport_closed_report(tree))
    }

    fn process(&self, tree: Tree) -> (r: Result<(), ProcessReport>) {
        match std_send_tree(self, tree) {
            Ok(_) => Ok(()),
            Err(t) => Err(ProcessReport { tree: Some(t), cause: ReportCause::TransportClosed }),
        }
    }
}

impl Processor for std::sync::mpsc::SyncSender<Tree> {
    /// Forwarding either succeeds or bounces off the disconnected
    /// conduit, handing the very tree back.
    open spec fn guarantees(&self, tree: Tree, r: Result<(), ProcessReport>) -> bool {
        r is Ok || r == Result::<(), ProcessReport>::Err(transport_closed_report(tree))
    }

    fn process(&self, tree: Tree) -> (r: Result<(), ProcessReport>) {
        match std_sync_send_tree(self, tree) {
            Ok(_) => Ok(()),
            Err(t) => Err(ProcessReport { tree: Some(t), cause: ReportCause::TransportClosed }),
        }
    }
}

} // verus!
