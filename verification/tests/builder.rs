//! The two-stage configurator, observed at run time.

use forest_pipeline::builder::{self, Process, TagPolicy};
use forest_pipeline::processor::{Processor, Sink, StdoutPrinter};
use forest_pipeline::tree::Tree;

#[test]
fn processing_mode_defaults_to_global_activation() {
    let staged = builder::new().on_subscriber(|sender, tag| {
        assert_eq!(tag, TagPolicy::NoTag);
        sender
    });
    let (_subscriber, output, _receiver, is_global) = staged.into_parts();
    assert!(is_global);
    let Process(printer) = output;
    assert_eq!(printer, StdoutPrinter);
}

#[test]
fn capture_mode_defaults_to_scoped_activation() {
    let staged = builder::capture().on_subscriber(|sender, tag| {
        assert_eq!(tag, TagPolicy::NoTag);
        sender
    });
    let (_subscriber, _output, _receiver, is_global) = staged.into_parts();
    assert!(!is_global);
}

#[test]
fn set_global_and_set_tag_reconfigure_one_thing_each() {
    let staged = builder::new()
        .set_global(false)
        .set_tag(TagPolicy::Custom(9))
        .on_subscriber(|sender, tag| {
            assert_eq!(tag, TagPolicy::Custom(9));
            sender
        });
    let (_subscriber, _output, _receiver, is_global) = staged.into_parts();
    assert!(!is_global);
}

#[test]
fn map_sender_decorates_the_configured_sender() {
    let staged = builder::new()
        .map_sender(|sender| sender.with_ignore_fallback())
        .on_subscriber(|chain, _tag| chain);
    let (chain, _output, receiver, _is_global) = staged.into_parts();
    drop(receiver);
    // The transport is closed, yet the configured discard fallback
    // swallows the failure.
    assert_eq!(chain.process(Tree::new(1)), Ok(()));
}

#[test]
fn map_receiver_replaces_the_consumer_side_processor() {
    let staged = builder::new()
        .map_receiver(|_printer| Sink)
        .on_subscriber(|sender, _tag| sender);
    let (_sender, output, _receiver, _is_global) = staged.into_parts();
    let Process(consumer) = output;
    assert_eq!(consumer.process(Tree::new(2)), Ok(()));
}

#[test]
fn with_stacks_a_layer_over_the_subscriber() {
    let staged = builder::capture()
        .on_subscriber(|sender, _tag| sender)
        .with(|sender| (sender, "wrapped"));
    let ((sender, label), _output, mut receiver, _is_global) = staged.into_parts();
    assert_eq!(label, "wrapped");
    let tree = Tree::new(3);
    assert_eq!(sender.process(tree), Ok(()));
    assert_eq!(receiver.try_recv(), Ok(tree));
}
