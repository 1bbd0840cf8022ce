//! Replays historical blockchain blocks against a second validation node to
//! discover transactions that are consensus-valid but rejected by that node's
//! relay policy, and records them with contextual metadata.
//!
//! The core is the replay engine in [`engine`]: a verified state machine that
//! drives the height cursor, classifies every non-coinbase transaction of each
//! block, buffers one result row per genuine policy rejection, and flushes the
//! buffer only when the validation node did not already know the block. The
//! surrounding RPC transport, configuration and sink I/O live outside the
//! library and feed the engine plain events.

pub mod engine;
pub mod pool;
pub mod types;
