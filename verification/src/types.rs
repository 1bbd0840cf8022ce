//! Plain data consumed and produced by the replay engine: per-transaction
//! facts, persisted result rows, and the tagged outcomes of node calls.

use vstd::prelude::*;

verus! {

/// Highest fee, in satoshi, that a replayed transaction may carry when it is
/// tested against or submitted to the validation node. The node refuses
/// anything at or above one whole coin, so this stays one satoshi below.
pub const MAX_FEE_SATS: u64 = 99_999_999;

/// Highest amount, in satoshi, that a replayed transaction may burn in
/// unspendable outputs when it is submitted to the validation node.
pub const MAX_BURN_SATS: u64 = 999_999_999;

/// The facts the engine reads of one transaction of a historical block.
#[derive(Debug, Clone, PartialEq)]
pub struct TxSummary {
    /// Textual transaction identifier.
    pub txid: String,
    /// Virtual size of the serialized transaction.
    pub vsize: usize,
    /// Number of inputs.
    pub inputs: usize,
    /// Number of outputs.
    pub outputs: usize,
    /// Whether this is the block's coinbase transaction. The coinbase is not
    /// relayable and is never classified.
    pub coinbase: bool,
}

/// One persisted record: a transaction that the validation node rejected for
/// a reason other than already sitting in its mempool, in a block the node
/// did not already know.
#[derive(Debug, Clone, PartialEq)]
pub struct ResultRow {
    /// Height of the block the transaction belongs to.
    pub height: u64,
    /// Label of the mining pool that produced the block, or "Unknown".
    pub miner: String,
    /// The validation node's rejection reason.
    pub reject_reason: String,
    /// Textual transaction identifier.
    pub txid: String,
    /// Virtual size of the serialized transaction.
    pub vsize: usize,
    /// Number of inputs.
    pub inputs: usize,
    /// Number of outputs.
    pub outputs: usize,
    /// Transaction fee in satoshi; 0 when the fee could not be obtained.
    pub fee: u64,
}

/// Outcome of testing one transaction against the validation node's mempool
/// policy without submitting it.
#[derive(Debug, Clone, PartialEq)]
pub enum AcceptOutcome {
    /// The node would admit the transaction to its mempool.
    Accepted,
    /// The node refused the transaction and reported why.
    Rejected { reason: String },
}

/// Outcome of submitting one raw transaction to the validation node.
#[derive(Debug, Clone, PartialEq)]
pub enum SendOutcome {
    /// The node accepted the transaction into its mempool.
    Sent,
    /// The call failed at the transport level (connection reset, timeout,
    /// buffer pressure); the submission may be retried.
    TransportFailure,
    /// The node returned a well-formed error for the submission.
    Rejected { reason: String },
}

/// Outcome of submitting one block to the validation node.
#[derive(Debug, Clone, PartialEq)]
pub enum SubmitOutcome {
    /// The node accepted the block; it was new to the node.
    Accepted,
    /// The node already knew the block. Expected after an interrupted run.
    Duplicate,
    /// The call failed at the transport level; the submission may be retried.
    TransportFailure,
    /// The node returned a well-formed error other than the duplicate one.
    Rejected { reason: String },
}

/// A fatal condition: the engine stops and the process is expected to abort.
#[derive(Debug, Clone, PartialEq)]
pub enum Fault {
    /// An event arrived that the engine's current state cannot consume:
    /// a programming fault in the caller, never silently swallowed.
    UnexpectedEvent,
    /// The height cursor cannot advance without overflowing.
    HeightOverflow,
    /// The node returned a well-formed error for a transaction that had just
    /// passed the mempool-acceptance test.
    SendRejected { reason: String },
    /// The node rejected a block submission for a reason other than already
    /// knowing the block.
    SubmitRejected { reason: String },
}

/// The rejection reason the validation node reports for a transaction that
/// already sits in its mempool, left behind by a previously interrupted run.
/// Such a rejection is noise, not a discovery.
pub open spec fn is_already_in_mempool(reason: Seq<char>) -> bool {
    reason == "txn-already-in-mempool"@
}

/// Tests a rejection reason against the node's "transaction already in
/// mempool" sentinel.
pub fn already_in_mempool(reason: &String) -> (r: bool)
    ensures
        r == is_already_in_mempool(reason@),
{
    let sentinel: String = "txn-already-in-mempool".to_owned();
    *reason == sentinel
}

} // verus!
