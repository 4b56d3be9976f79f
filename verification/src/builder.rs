//! The pipeline configurator: a two-stage, immutable-step builder.
//!
//! Stage one, begun by [`new`] or [`capture`], collects the producer-side
//! processor (by default the transport's sending half), the consumer-side
//! processor (in processing mode, by default a printer to the standard
//! output stream), the tag-routing policy, and whether activation is
//! process-wide.  Every step consumes the builder and returns it changed
//! in exactly one place.
//!
//! Stage two, entered through [`LayerBuilder::on_subscriber`], binds the
//! producer-side processor and the tag policy into the host's
//! instrumentation layer and keeps what the consumer side needs.  The
//! mode chosen at the first call — [`Process`] or [`Capture`] — rides
//! along in the types, so what running a scope returns is fixed before
//! any tree flows.

use vstd::prelude::*;

use crate::processor::{Processor, StdoutPrinter, WithFallback};
use crate::sealed::Sealed;
use crate::transport::{TreeSender, unbounded_pair};
use crate::tree::Tree;
use tokio::sync::mpsc::UnboundedReceiver;

verus! {

/// The tag-routing policy handed to the host instrumentation: which
/// tag parser, if any, it should consult while assembling trees.
///
/// The parsing itself is the business of an outside collaborator; the
/// pipeline only carries the choice.
#[derive(Clone, Copy, PartialEq, Eq, Structural, Debug)]
pub enum TagPolicy {
    /// No routing tag is attached to any tree.
    NoTag,
    /// The host consults the tag parser it registered under this key.
    Custom(u64),
}

/// A marker: trace data is collected whole and handed back for
/// inspection after the scope ends.
pub struct Capture(());

/// A marker: trace data is fed to the carried consumer-side processor
/// as it arrives.
pub struct Process<P>(pub P);

/// Marks the processors that wrap the transport's sending half, so
/// that [`LayerBuilder::map_sender`] can only decorate the configured
/// sender, never replace it with an unrelated processor.
pub trait SealedSender: Sealed {

}

impl Sealed for TreeSender {

}

impl SealedSender for TreeSender {

}

impl<S: SealedSender, P> Sealed for WithFallback<S, P> {

}

impl<S: SealedSender, P> SealedSender for WithFallback<S, P> {

}

/// Configures and constructs [`SubscriberBuilder`]s.
///
/// This type is returned by [`new`] and [`capture`].
pub struct LayerBuilder<T, R> {
    sender_processor: T,
    receiver_processor: R,
    receiver: UnboundedReceiver<Tree>,
    tag: TagPolicy,
    is_global: bool,
}

impl<T, R> LayerBuilder<T, R> {
    /// The producer-side processor configured so far.
    pub closed spec fn spec_sender(self) -> T {
        self.sender_processor
    }

    /// The consumer-side configuration (mode marker) configured so far.
    pub closed spec fn spec_receiver_processor(self) -> R {
        self.receiver_processor
    }

    /// The receiving half of the transport this builder was created
    /// with.
    pub closed spec fn spec_receiver(self) -> UnboundedReceiver<Tree> {
        self.receiver
    }

    /// The tag-routing policy configured so far.
    pub closed spec fn spec_tag(self) -> TagPolicy {
        self.tag
    }

    /// Whether the subscriber is to be activated process-wide.
    pub closed spec fn spec_global(self) -> bool {
        self.is_global
    }
}

/// Begins configuring a pipeline in processing mode: trees are sent to
/// a consuming task and fed to a processor as they arrive.
///
/// Defaults: the producer side enqueues into a fresh unbounded
/// transport; the consumer side prints each tree to the standard
/// output stream; no tag is attached; activation is process-wide, as
/// production use wants one pipeline visible to every thread.
pub fn new() -> (b: LayerBuilder<TreeSender, Process<StdoutPrinter>>)
    ensures
        b.spec_receiver_processor().0 == StdoutPrinter,
        b.spec_tag() == TagPolicy::NoTag,
        b.spec_global() == true,
{
    let (sender, receiver) = unbounded_pair();
    LayerBuilder {
        sender_processor: TreeSender(sender),
        receiver_processor: Process(StdoutPrinter),
        receiver,
        tag: TagPolicy::NoTag,
        is_global: true,
    }
}

/// Begins configuring a pipeline in capture mode: trees are stored and
/// handed back, in arrival order, after the scope ends.
///
/// Defaults: the producer side enqueues into a fresh unbounded
/// transport; no tag is attached; activation is scoped rather than
/// process-wide, so concurrently running test cases stay isolated.
pub fn capture() -> (b: LayerBuilder<TreeSender, Capture>)
    ensures
        b.spec_tag() == TagPolicy::NoTag,
        b.spec_global() == false,
{
    let (sender, receiver) = unbounded_pair();
    LayerBuilder {
        sender_processor: TreeSender(sender),
        receiver_processor: Capture(()),
        receiver,
        tag: TagPolicy::NoTag,
        is_global: false,
    }
}

impl<T: Processor, R: Processor> LayerBuilder<T, Process<R>> {
    /// Reconfigure the processor on the receiving end of the
    /// transport, for instance to add a fallback; everything else is
    /// kept.
    pub fn map_receiver<F, R2: Processor>(self, f: F) -> (b: LayerBuilder<T, Process<R2>>) where
        F: FnOnce(R) -> R2,

        requires
            call_requires(f, (self.spec_receiver_processor().0,)),
        ensures
            call_ensures(f, (self.spec_receiver_processor().0,), b.spec_receiver_processor().0),
            b.spec_sender() == self.spec_sender(),
            b.spec_receiver() == self.spec_receiver(),
            b.spec_tag() == self.spec_tag(),
            b.spec_global() == self.spec_global(),
    {
        LayerBuilder {
            sender_processor: self.sender_processor,
            receiver_processor: Process(f(self.receiver_processor.0)),
            receiver: self.receiver,
            tag: self.tag,
            is_global: self.is_global,
        }
    }
}

impl<T: Processor + SealedSender, R> LayerBuilder<T, R> {
    /// Reconfigure the producer-side processor by decorating the
    /// configured sender, for instance with a fallback; everything
    /// else is kept.
    pub fn map_sender<F, T2>(self, f: F) -> (b: LayerBuilder<T2, R>) where
        F: FnOnce(T) -> T2,
        T2: Processor + SealedSender,

        requires
            call_requires(f, (self.spec_sender(),)),
        ensures
            call_ensures(f, (self.spec_sender(),), b.spec_sender()),
            b.spec_receiver_processor() == self.spec_receiver_processor(),
            b.spec_receiver() == self.spec_receiver(),
            b.spec_tag() == self.spec_tag(),
            b.spec_global() == self.spec_global(),
    {
        LayerBuilder {
            sender_processor: f(self.sender_processor),
            receiver_processor: self.receiver_processor,
            receiver: self.receiver,
            tag: self.tag,
            is_global: self.is_global,
        }
    }

    /// Set the tag-routing policy; everything else is kept.
    pub fn set_tag(self, tag: TagPolicy) -> (b: Self)
        ensures
            b.spec_tag() == tag,
            b.spec_sender() == self.spec_sender(),
            b.spec_receiver_processor() == self.spec_receiver_processor(),
            b.spec_receiver() == self.spec_receiver(),
            b.spec_global() == self.spec_global(),
    {
        LayerBuilder {
            sender_processor: self.sender_processor,
            receiver_processor: self.receiver_processor,
            receiver: self.receiver,
            tag,
            is_global: self.is_global,
        }
    }

    /// Set whether the subscriber is activated process-wide or only
    /// for the scope being run; everything else is kept.
    pub fn set_global(self, is_global: bool) -> (b: Self)
        ensures
            b.spec_global() == is_global,
            b.spec_sender() == self.spec_sender(),
            b.spec_receiver_processor() == self.spec_receiver_processor(),
            b.spec_receiver() == self.spec_receiver(),
            b.spec_tag() == self.spec_tag(),
    {
        LayerBuilder {
            sender_processor: self.sender_processor,
            receiver_processor: self.receiver_processor,
            receiver: self.receiver,
            tag: self.tag,
            is_global,
        }
    }

    /// Finish the first stage: `bind` is the host instrumentation's
    /// hook, which receives the producer-side processor and the tag
    /// policy and composes them onto its subscriber.  What the
    /// consumer side needs rides on into the second stage.
    pub fn on_subscriber<S, F>(self, bind: F) -> (b: SubscriberBuilder<S, R>) where
        F: FnOnce(T, TagPolicy) -> S,

        requires
            call_requires(bind, (self.spec_sender(), self.spec_tag())),
        ensures
            call_ensures(bind, (self.spec_sender(), self.spec_tag()), b.spec_subscriber()),
            b.spec_output() == self.spec_receiver_processor(),
            b.spec_receiver() == self.spec_receiver(),
            b.spec_global() == self.spec_global(),
    {
        SubscriberBuilder {
            subscriber: bind(self.sender_processor, self.tag),
            output: self.receiver_processor,
            receiver: self.receiver,
            is_global: self.is_global,
        }
    }
}

/// Configures a pipeline to run around an execution scope.
///
/// This type is returned by [`LayerBuilder::on_subscriber`].
pub struct SubscriberBuilder<S, O> {
    subscriber: S,
    output: O,
    receiver: UnboundedReceiver<Tree>,
    is_global: bool,
}

impl<S, O> SubscriberBuilder<S, O> {
    /// The subscriber built so far.
    pub closed spec fn spec_subscriber(self) -> S {
        self.subscriber
    }

    /// The consumer-side configuration (mode marker).
    pub closed spec fn spec_output(self) -> O {
        self.output
    }

    /// The receiving half of the transport.
    pub closed spec fn spec_receiver(self) -> UnboundedReceiver<Tree> {
        self.receiver
    }

    /// Whether activation is process-wide.
    pub closed spec fn spec_global(self) -> bool {
        self.is_global
    }

    /// Stack one more layer onto the subscriber: `wrap` receives the
    /// subscriber built so far and returns the wrapped one; everything
    /// else is kept.
    pub fn with<S2, F>(self, wrap: F) -> (b: SubscriberBuilder<S2, O>) where
        F: FnOnce(S) -> S2,

        requires
            call_requires(wrap, (self.spec_subscriber(),)),
        ensures
            call_ensures(wrap, (self.spec_subscriber(),), b.spec_subscriber()),
            b.spec_output() == self.spec_output(),
            b.spec_receiver() == self.spec_receiver(),
            b.spec_global() == self.spec_global(),
    {
        SubscriberBuilder {
            subscriber: wrap(self.subscriber),
            output: self.output,
            receiver: self.receiver,
            is_global: self.is_global,
        }
    }

    /// Hand the host loop what it runs on: the subscriber to activate,
    /// the consumer-side configuration, the transport's receiving half
    /// (owned by the runner alone), and whether activation is
    /// process-wide.
    pub fn into_parts(self) -> (parts: (S, O, UnboundedReceiver<Tree>, bool))
        ensures
            parts.0 == self.spec_subscriber(),
            parts.1 == self.spec_output(),
            parts.2 == self.spec_receiver(),
            parts.3 == self.spec_global(),
    {
        (self.subscriber, self.output, self.receiver, self.is_global)
    }
}

} // verus!
