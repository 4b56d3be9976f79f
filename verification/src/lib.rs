//! An asynchronous delivery-and-processing pipeline for completed trace
//! trees.
//!
//! Instrumented code hands finished [`tree::Tree`] values to the sending
//! half of an unbounded transport; a consumer drains the transport and
//! feeds every tree to a configurable [`processor::Processor`].  Two
//! execution modes are supported: background processing with a graceful
//! shutdown-and-drain protocol, and synchronous capture of every tree for
//! later inspection.  The decision logic of both modes is verified here;
//! the host runtime drives the loops and performs the waiting.

pub mod builder;
pub mod processor;
pub mod runner;
mod sealed;
pub mod transport;
pub mod tree;
