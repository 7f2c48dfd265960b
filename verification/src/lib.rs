//! Library for tailing a sharded, append-only remote stream.
//!
//! The stream is divided into shards, each an independently ordered,
//! continuously appended sequence of records.  The library owns the logic of
//! the tailer: how a shard poller resolves and advances its position token,
//! how the pollers' batches fan in to one bounded queue, how cancellation
//! stops every loop, and how record batches are rendered as text.  The
//! surrounding binary supplies what the logic cannot: the network calls to
//! the stream service, the timer, and the interrupt signal.

pub mod aggregator;
pub mod config;
pub mod error;
pub mod kinesis;
pub mod printer;
pub mod queue;
pub mod records;
pub mod shutdown;
pub mod text;
