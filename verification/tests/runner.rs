//! The two execution modes, driven over a real transport.

use forest_pipeline::builder;
use forest_pipeline::processor::{ProcessReport, Processor, ReportCause};
use forest_pipeline::runner::{
    runner_step, CaptureRun, ProcessRun, RunnerAction, RunnerEvent, RunnerState,
};
use forest_pipeline::transport::TreeSender;
use forest_pipeline::tree::Tree;
use tokio::sync::mpsc::UnboundedReceiver;

/// Builds one pipeline's halves: the producing side and the receiving
/// side the consumer drains.
fn transport() -> (TreeSender, UnboundedReceiver<Tree>) {
    let staged = builder::capture().on_subscriber(|sender, _tag| sender);
    let (sender, _output, receiver, _is_global) = staged.into_parts();
    (sender, receiver)
}

/// Builds a producing half whose transport is already closed: a
/// processor that fails on every tree, handing it back.
fn always_failing_processor() -> TreeSender {
    let (sender, receiver) = transport();
    drop(receiver);
    sender
}

/// Runs the graceful-shutdown protocol of processing mode to its end:
/// signal, close, drain the backlog, finish.
fn drain_gracefully<P: Processor>(
    run: &mut ProcessRun<P>,
    receiver: &mut UnboundedReceiver<Tree>,
) {
    assert_eq!(
        run.on_event(RunnerEvent::ShutdownRequested),
        RunnerAction::CloseTransport
    );
    receiver.close();
    assert_eq!(
        run.on_event(RunnerEvent::TransportClosed),
        RunnerAction::Continue
    );
    while let Ok(tree) = receiver.try_recv() {
        assert_eq!(
            run.on_event(RunnerEvent::TreeArrived(tree)),
            RunnerAction::Delivered(tree)
        );
    }
    assert_eq!(
        run.on_event(RunnerEvent::TransportEmpty),
        RunnerAction::Finish
    );
    assert_eq!(run.state(), RunnerState::Done);
}

#[test]
fn graceful_shutdown_loses_no_tree_and_keeps_order() {
    let (producer, mut receiver) = transport();
    let (seen_tx, seen_rx) = std::sync::mpsc::channel();
    let mut run = ProcessRun::new(seen_tx);
    let trees = [Tree::new(1), Tree::new(2), Tree::new(3), Tree::new(4)];
    // Two trees arrive while running, two are still buffered at
    // shutdown: all four must be processed, in order, before the end.
    for tree in trees {
        assert_eq!(producer.process(tree), Ok(()));
    }
    for _ in 0..2 {
        let tree = receiver.try_recv().unwrap();
        assert_eq!(
            run.on_event(RunnerEvent::TreeArrived(tree)),
            RunnerAction::Delivered(tree)
        );
    }
    drain_gracefully(&mut run, &mut receiver);
    assert_eq!(run.failure_count(), 0);
    let seen: Vec<Tree> = seen_rx.try_iter().collect();
    assert_eq!(seen, trees.to_vec());
}

#[test]
fn failing_chain_reports_every_tree_to_the_hook() {
    // A primary that always fails, with no fallback: the failure hook
    // sees every tree, in order, and the run itself never halts.
    let (producer, mut receiver) = transport();
    let mut run = ProcessRun::new(always_failing_processor());
    let trees = [Tree::new(5), Tree::new(6), Tree::new(7)];
    for tree in trees {
        assert_eq!(producer.process(tree), Ok(()));
    }
    drain_gracefully(&mut run, &mut receiver);
    assert_eq!(run.failure_count(), 3);
    let failures = run.into_failures();
    let expected: Vec<ProcessReport> = trees
        .iter()
        .map(|t| ProcessReport::new(Some(*t), ReportCause::TransportClosed))
        .collect();
    assert_eq!(failures, expected);
}

#[test]
fn discard_fallback_keeps_the_hook_silent() {
    // The scenario of a failing primary wrapped in a discard fallback:
    // three trees from one producer, the chain swallows every failure,
    // nothing propagates and the failure hook stays silent.
    let (producer, mut receiver) = transport();
    let chain = always_failing_processor().with_ignore_fallback();
    let mut run = ProcessRun::new(chain);
    for id in 1..=3u64 {
        assert_eq!(producer.process(Tree::new(id)), Ok(()));
    }
    drain_gracefully(&mut run, &mut receiver);
    assert_eq!(run.failure_count(), 0);
}

#[test]
fn capture_returns_every_tree_in_production_order() {
    // One event-only scope and one span with a child produce two
    // trees; capture hands back exactly those two, in that order.
    let (producer, mut receiver) = transport();
    let event_only = Tree::new(10);
    let span_with_child = Tree::new(11);
    assert_eq!(producer.process(event_only), Ok(()));
    assert_eq!(producer.process(span_with_child), Ok(()));
    receiver.close();
    let mut run = CaptureRun::new();
    while let Ok(tree) = receiver.try_recv() {
        run.collect(tree);
    }
    run.finish();
    let logs = run.into_logs();
    assert_eq!(logs.len(), 2);
    assert_eq!(logs, vec![event_only, span_with_child]);
}

#[test]
fn capture_of_a_silent_scope_is_empty() {
    let (_producer, mut receiver) = transport();
    receiver.close();
    let mut run = CaptureRun::new();
    while let Ok(tree) = receiver.try_recv() {
        run.collect(tree);
    }
    run.finish();
    assert_eq!(run.into_logs(), Vec::<Tree>::new());
}

#[test]
fn second_shutdown_is_rejected() {
    let (_producer, mut receiver) = transport();
    let mut run = ProcessRun::new(forest_pipeline::processor::Sink);
    assert_eq!(
        run.on_event(RunnerEvent::ShutdownRequested),
        RunnerAction::CloseTransport
    );
    // A second signal in any later phase is a detected programming
    // error: the phase stays put and nothing is acted on.
    assert_eq!(
        run.on_event(RunnerEvent::ShutdownRequested),
        RunnerAction::Reject
    );
    assert_eq!(run.state(), RunnerState::ShuttingDown);
    receiver.close();
    assert_eq!(
        run.on_event(RunnerEvent::TransportClosed),
        RunnerAction::Continue
    );
    assert_eq!(
        run.on_event(RunnerEvent::ShutdownRequested),
        RunnerAction::Reject
    );
    assert_eq!(run.state(), RunnerState::Draining);
}

#[test]
fn runner_step_follows_the_transition_table() {
    let tree = Tree::new(1);
    assert_eq!(
        runner_step(RunnerState::Running, RunnerEvent::TreeArrived(tree)),
        (RunnerState::Running, RunnerAction::Delivered(tree))
    );
    assert_eq!(
        runner_step(RunnerState::Running, RunnerEvent::ShutdownRequested),
        (RunnerState::ShuttingDown, RunnerAction::CloseTransport)
    );
    assert_eq!(
        runner_step(RunnerState::ShuttingDown, RunnerEvent::TransportClosed),
        (RunnerState::Draining, RunnerAction::Continue)
    );
    assert_eq!(
        runner_step(RunnerState::Draining, RunnerEvent::TreeArrived(tree)),
        (RunnerState::Draining, RunnerAction::Delivered(tree))
    );
    assert_eq!(
        runner_step(RunnerState::Draining, RunnerEvent::TransportEmpty),
        (RunnerState::Done, RunnerAction::Finish)
    );
    assert_eq!(
        runner_step(RunnerState::Done, RunnerEvent::TreeArrived(tree)),
        (RunnerState::Done, RunnerAction::Reject)
    );
    assert_eq!(
        runner_step(RunnerState::Running, RunnerEvent::TransportEmpty),
        (RunnerState::Running, RunnerAction::Reject)
    );
}

#[test]
fn cloned_senders_share_one_transport() {
    let (producer, mut receiver) = transport();
    let second = producer.clone();
    let first_tree = Tree::new(31);
    let second_tree = Tree::new(32);
    assert_eq!(producer.process(first_tree), Ok(()));
    assert_eq!(second.process(second_tree), Ok(()));
    assert_eq!(receiver.try_recv(), Ok(first_tree));
    assert_eq!(receiver.try_recv(), Ok(second_tree));
}
