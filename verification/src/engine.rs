//! The replay engine: a state machine that drives the height cursor over
//! historical blocks, classifies every non-coinbase transaction against the
//! validation node, buffers a result row per genuine policy rejection, and
//! flushes the buffer only for blocks the validation node did not already
//! know.
//!
//! The engine performs no I/O itself. The caller runs the loop: it performs
//! each returned [`Action`] against the nodes or the sink and hands the
//! outcome back as the next [`Event`]. Every transition is fixed by
//! [`spec_step`], which [`Engine::step`] is proved to implement.

use vstd::prelude::*;
use crate::types::{
    AcceptOutcome, Fault, ResultRow, SendOutcome, SubmitOutcome, TxSummary, MAX_BURN_SATS,
    MAX_FEE_SATS, is_already_in_mempool, already_in_mempool,
};

verus! {

// ---------------------------------------------------------------------------
// Events and actions: the engine's narrow interface to the outside world.
// ---------------------------------------------------------------------------

/// What the outside world reports back to the engine. Each event answers the
/// action the engine returned last.
#[derive(Debug, Clone, PartialEq)]
pub enum Event {
    /// The validation node's current chain height; answers nothing, it opens
    /// the run.
    TestHeight { height: u64 },
    /// The data source's current chain height; answers `GetDataHeight`.
    DataHeight { height: u64 },
    /// The historical block at the requested height, reduced to its miner
    /// label and per-transaction facts in block order; answers `FetchBlock`.
    BlockReady { miner: String, txs: Vec<TxSummary> },
    /// Outcome of the mempool-acceptance test; answers `TestAccept`.
    AcceptChecked { outcome: AcceptOutcome },
    /// The fee of the rejected transaction, in satoshi, where obtainable;
    /// answers `LookUpFee`.
    FeeLooked { fee_sats: Option<u64> },
    /// Outcome of submitting the raw transaction; answers `SendTx`.
    SendDone { outcome: SendOutcome },
    /// Outcome of submitting the block; answers `SubmitBlock`.
    SubmitDone { outcome: SubmitOutcome },
    /// The rows of the last `WriteRows` action reached the sink and the sink
    /// was flushed; answers `WriteRows`.
    RowsWritten,
}

/// What the engine asks the outside world to do next.
#[derive(Debug, Clone, PartialEq)]
pub enum Action {
    /// Read the data source's current chain height.
    GetDataHeight,
    /// Fetch the historical block at this height from the data source and
    /// resolve its miner label.
    FetchBlock { height: u64 },
    /// Test mempool acceptance of the transaction at this index of the
    /// current block on the validation node, with the given fee ceiling in
    /// satoshi: a safety bound against pathological fees being relayed for
    /// real.
    TestAccept { tx: usize, max_fee_sats: u64 },
    /// Look up the fee of the transaction at this index of the current block
    /// on the data source.
    LookUpFee { tx: usize },
    /// Submit the raw transaction at this index of the current block to the
    /// validation node, with the given fee and burn ceilings in satoshi.
    SendTx { tx: usize, max_fee_sats: u64, max_burn_sats: u64 },
    /// Submit the current block to the validation node.
    SubmitBlock,
    /// Append these rows, in the given order, to the result sink, then flush
    /// the sink.
    WriteRows { rows: Vec<ResultRow> },
    /// The validation node has caught up with the data source: the run is
    /// complete.
    Finish,
    /// A fatal condition: abort the process.
    Abort { fault: Fault },
}

// ---------------------------------------------------------------------------
// Engine state.
// ---------------------------------------------------------------------------

/// Where the engine stands within the current block's classification pass.
#[derive(Debug, Clone, PartialEq)]
pub enum Stage {
    /// Waiting for the mempool-acceptance test of the transaction at the
    /// cursor.
    AwaitAccept,
    /// The transaction at the cursor was rejected for this reason; waiting
    /// for its fee before buffering the row.
    AwaitFee { reason: String },
    /// The transaction at the cursor passed the test; waiting for its
    /// submission outcome.
    AwaitSend,
    /// Every transaction is classified; waiting for the block-submission
    /// outcome.
    AwaitSubmit,
}

/// The engine's per-block state: the block's transactions, the cursor into
/// them, and the rows buffered so far.
#[derive(Debug, Clone, PartialEq)]
pub struct BlockRun {
    /// Label of the pool that produced this block.
    pub miner: String,
    /// The block's transactions, in block order.
    pub txs: Vec<TxSummary>,
    /// Index of the transaction under classification; `txs.len()` once every
    /// transaction is classified.
    pub idx: usize,
    /// Rows buffered for this block, in classification order. Flushed only if
    /// the block turns out to be new to the validation node.
    pub rows: Vec<ResultRow>,
    /// What the engine waits for.
    pub stage: Stage,
}

/// The engine's phase: what kind of event it can consume next.
#[derive(Debug, Clone, PartialEq)]
pub enum Phase {
    /// Fresh engine; expects the validation node's height.
    Boot,
    /// Expects the data source's height, to decide between the next block and
    /// completion.
    AwaitDataHeight,
    /// Expects the block at the engine's current height.
    AwaitBlock,
    /// Classifying the current block's transactions.
    InBlock { run: BlockRun },
    /// Expects confirmation that the last `WriteRows` reached the sink.
    AwaitWritten,
    /// The run completed.
    Done,
    /// A fatal condition was reported; the engine stays here.
    Failed,
}

/// The replay engine. Owns the height cursor and the per-block row buffer;
/// everything else lives behind [`Event`] and [`Action`].
#[derive(Debug, Clone, PartialEq)]
pub struct Engine {
    /// The height the engine currently works on (or, in `Boot`, zero).
    height: u64,
    /// What the engine waits for.
    phase: Phase,
}

// ---------------------------------------------------------------------------
// The mathematical model: the same state with sequences for vectors.
// ---------------------------------------------------------------------------

/// Model of [`BlockRun`], with sequences for the vectors.
#[verifier::ext_equal]
pub struct BlockRunModel {
    pub miner: String,
    pub txs: Seq<TxSummary>,
    pub idx: int,
    pub rows: Seq<ResultRow>,
    pub stage: Stage,
}

/// Model of [`Phase`].
#[verifier::ext_equal]
pub enum PhaseModel {
    Boot,
    AwaitDataHeight,
    AwaitBlock,
    InBlock { run: BlockRunModel },
    AwaitWritten,
    Done,
    Failed,
}

/// Model of [`Engine`].
#[verifier::ext_equal]
pub struct EngineModel {
    pub height: u64,
    pub phase: PhaseModel,
}

/// Model of [`Event`].
#[verifier::ext_equal]
pub enum EventModel {
    TestHeight { height: u64 },
    DataHeight { height: u64 },
    BlockReady { miner: String, txs: Seq<TxSummary> },
    AcceptChecked { outcome: AcceptOutcome },
    FeeLooked { fee_sats: Option<u64> },
    SendDone { outcome: SendOutcome },
    SubmitDone { outcome: SubmitOutcome },
    RowsWritten,
}

/// Model of [`Action`].
#[verifier::ext_equal]
pub enum ActionModel {
    GetDataHeight,
    FetchBlock { height: u64 },
    TestAccept { tx: int, max_fee_sats: u64 },
    LookUpFee { tx: int },
    SendTx { tx: int, max_fee_sats: u64, max_burn_sats: u64 },
    SubmitBlock,
    WriteRows { rows: Seq<ResultRow> },
    Finish,
    Abort { fault: Fault },
}

impl View for BlockRun {
    type V = BlockRunModel;

    open spec fn view(&self) -> BlockRunModel {
        BlockRunModel {
            miner: self.miner,
            txs: self.txs@,
            idx: self.idx as int,
            rows: self.rows@,
            stage: self.stage,
        }
    }
}

impl View for Phase {
    type V = PhaseModel;

    open spec fn view(&self) -> PhaseModel {
        match self {
            Phase::Boot => PhaseModel::Boot,
            Phase::AwaitDataHeight => PhaseModel::AwaitDataHeight,
            Phase::AwaitBlock => PhaseModel::AwaitBlock,
            Phase::InBlock { run } => PhaseModel::InBlock { run: run@ },
            Phase::AwaitWritten => PhaseModel::AwaitWritten,
            Phase::Done => PhaseModel::Done,
            Phase::Failed => PhaseModel::Failed,
        }
    }
}

impl View for Engine {
    type V = EngineModel;

    closed spec fn view(&self) -> EngineModel {
        EngineModel { height: self.height, phase: self.phase@ }
    }
}

impl View for Event {
    type V = EventModel;

    open spec fn view(&self) -> EventModel {
        match self {
            Event::TestHeight { height } => EventModel::TestHeight { height: *height },
            Event::DataHeight { height } => EventModel::DataHeight { height: *height },
            Event::BlockReady { miner, txs } => EventModel::BlockReady {
                miner: *miner,
                txs: txs@,
            },
            Event::AcceptChecked { outcome } => EventModel::AcceptChecked { outcome: *outcome },
            Event::FeeLooked { fee_sats } => EventModel::FeeLooked { fee_sats: *fee_sats },
            Event::SendDone { outcome } => EventModel::SendDone { outcome: *outcome },
            Event::SubmitDone { outcome } => EventModel::SubmitDone { outcome: *outcome },
            Event::RowsWritten => EventModel::RowsWritten,
        }
    }
}

impl View for Action {
    type V = ActionModel;

    open spec fn view(&self) -> ActionModel {
        match self {
            Action::GetDataHeight => ActionModel::GetDataHeight,
            Action::FetchBlock { height } => ActionModel::FetchBlock { height: *height },
            Action::TestAccept { tx, max_fee_sats } => ActionModel::TestAccept {
                tx: *tx as int,
                max_fee_sats: *max_fee_sats,
            },
            Action::LookUpFee { tx } => ActionModel::LookUpFee { tx: *tx as int },
            Action::SendTx { tx, max_fee_sats, max_burn_sats } => ActionModel::SendTx {
                tx: *tx as int,
                max_fee_sats: *max_fee_sats,
                max_burn_sats: *max_burn_sats,
            },
            Action::SubmitBlock => ActionModel::SubmitBlock,
            Action::WriteRows { rows } => ActionModel::WriteRows { rows: rows@ },
            Action::Finish => ActionModel::Finish,
            Action::Abort { fault } => ActionModel::Abort { fault: *fault },
        }
    }
}

// ---------------------------------------------------------------------------
// The transition function.
// ---------------------------------------------------------------------------

/// Index of the first relayable (non-coinbase) transaction at or after `i`,
/// or `txs.len()` when none is left.
pub open spec fn next_relayable(txs: Seq<TxSummary>, i: int) -> int
    decreases txs.len() - i,
{
    if i >= txs.len() {
        txs.len() as int
    } else if txs[i].coinbase {
        next_relayable(txs, i + 1)
    } else {
        i
    }
}

/// Moves the classification cursor of `run` to the next relayable
/// transaction: either the engine asks for that transaction's acceptance
/// test, or, when none is left, for the block's submission.
pub open spec fn spec_advance(height: u64, run: BlockRunModel) -> (EngineModel, ActionModel) {
    let j = next_relayable(run.txs, run.idx);
    if j < run.txs.len() {
        (
            EngineModel {
                height,
                phase: PhaseModel::InBlock {
                    run: BlockRunModel { idx: j, stage: Stage::AwaitAccept, ..run },
                },
            },
            ActionModel::TestAccept { tx: j, max_fee_sats: MAX_FEE_SATS },
        )
    } else {
        (
            EngineModel {
                height,
                phase: PhaseModel::InBlock {
                    run: BlockRunModel { idx: j, stage: Stage::AwaitSubmit, ..run },
                },
            },
            ActionModel::SubmitBlock,
        )
    }
}

/// A protocol fault: the event does not answer the engine's pending action.
/// Fail-fast, never silently swallowed.
pub open spec fn spec_fail(e: EngineModel) -> (EngineModel, ActionModel) {
    (
        EngineModel { height: e.height, phase: PhaseModel::Failed },
        ActionModel::Abort { fault: Fault::UnexpectedEvent },
    )
}

/// The row buffered for the rejected transaction at `run`'s cursor, with the
/// rejection reason the node gave and the fee where obtainable.
pub open spec fn spec_row(
    height: u64,
    run: BlockRunModel,
    reason: String,
    fee_sats: Option<u64>,
) -> ResultRow {
    ResultRow {
        height,
        miner: run.miner,
        reject_reason: reason,
        txid: run.txs[run.idx].txid,
        vsize: run.txs[run.idx].vsize,
        inputs: run.txs[run.idx].inputs,
        outputs: run.txs[run.idx].outputs,
        fee: fee_sats.unwrap_or(0),
    }
}

/// The engine's transition function: from a state and the event answering its
/// pending action to the next state and the next action.
pub open spec fn spec_step(e: EngineModel, ev: EventModel) -> (EngineModel, ActionModel) {
    match (e.phase, ev) {
        (PhaseModel::Boot, EventModel::TestHeight { height }) => {
            if height < u64::MAX {
                (
                    EngineModel {
                        height: (height + 1) as u64,
                        phase: PhaseModel::AwaitDataHeight,
                    },
                    ActionModel::GetDataHeight,
                )
            } else {
                (
                    EngineModel { height: e.height, phase: PhaseModel::Failed },
                    ActionModel::Abort { fault: Fault::HeightOverflow },
                )
            }
        },
        (PhaseModel::AwaitDataHeight, EventModel::DataHeight { height: data_height }) => {
            if e.height <= data_height {
                (
                    EngineModel { height: e.height, phase: PhaseModel::AwaitBlock },
                    ActionModel::FetchBlock { height: e.height },
                )
            } else {
                (
                    EngineModel { height: e.height, phase: PhaseModel::Done },
                    ActionModel::Finish,
                )
            }
        },
        (PhaseModel::AwaitBlock, EventModel::BlockReady { miner, txs }) => spec_advance(
            e.height,
            BlockRunModel {
                miner,
                txs,
                idx: 0,
                rows: Seq::empty(),
                stage: Stage::AwaitAccept,
            },
        ),
        (PhaseModel::InBlock { run }, EventModel::AcceptChecked { outcome }) => match (
            run.stage,
            outcome,
        ) {
            (Stage::AwaitAccept, AcceptOutcome::Accepted) => (
                EngineModel {
                    height: e.height,
                    phase: PhaseModel::InBlock {
                        run: BlockRunModel { stage: Stage::AwaitSend, ..run },
                    },
                },
                ActionModel::SendTx {
                    tx: run.idx,
                    max_fee_sats: MAX_FEE_SATS,
                    max_burn_sats: MAX_BURN_SATS,
                },
            ),
            (Stage::AwaitAccept, AcceptOutcome::Rejected { reason }) => {
                if is_already_in_mempool(reason@) {
                    spec_advance(e.height, BlockRunModel { idx: run.idx + 1, ..run })
                } else {
                    (
                        EngineModel {
                            height: e.height,
                            phase: PhaseModel::InBlock {
                                run: BlockRunModel { stage: Stage::AwaitFee { reason }, ..run },
                            },
                        },
                        ActionModel::LookUpFee { tx: run.idx },
                    )
                }
            },
            _ => spec_fail(e),
        },
        (PhaseModel::InBlock { run }, EventModel::FeeLooked { fee_sats }) => match run.stage {
            Stage::AwaitFee { reason } => spec_advance(
                e.height,
                BlockRunModel {
                    idx: run.idx + 1,
                    rows: run.rows.push(spec_row(e.height, run, reason, fee_sats)),
                    ..run
                },
            ),
            _ => spec_fail(e),
        },
        (PhaseModel::InBlock { run }, EventModel::SendDone { outcome }) => match (
            run.stage,
            outcome,
        ) {
            (Stage::AwaitSend, SendOutcome::Sent) => spec_advance(
                e.height,
                BlockRunModel { idx: run.idx + 1, ..run },
            ),
            (Stage::AwaitSend, SendOutcome::TransportFailure) => (
                e,
                ActionModel::SendTx {
                    tx: run.idx,
                    max_fee_sats: MAX_FEE_SATS,
                    max_burn_sats: MAX_BURN_SATS,
                },
            ),
            (Stage::AwaitSend, SendOutcome::Rejected { reason }) => (
                EngineModel { height: e.height, phase: PhaseModel::Failed },
                ActionModel::Abort { fault: Fault::SendRejected { reason } },
            ),
            _ => spec_fail(e),
        },
        (PhaseModel::InBlock { run }, EventModel::SubmitDone { outcome }) => match (
            run.stage,
            outcome,
        ) {
            (Stage::AwaitSubmit, SubmitOutcome::Accepted) => {
                if e.height < u64::MAX {
                    (
                        EngineModel {
                            height: (e.height + 1) as u64,
                            phase: PhaseModel::AwaitWritten,
                        },
                        ActionModel::WriteRows { rows: run.rows },
                    )
                } else {
                    (
                        EngineModel { height: e.height, phase: PhaseModel::Failed },
                        ActionModel::Abort { fault: Fault::HeightOverflow },
                    )
                }
            },
            (Stage::AwaitSubmit, SubmitOutcome::Duplicate) => {
                if e.height < u64::MAX {
                    (
                        EngineModel {
                            height: (e.height + 1) as u64,
                            phase: PhaseModel::AwaitWritten,
                        },
                        ActionModel::WriteRows { rows: Seq::empty() },
                    )
                } else {
                    (
                        EngineModel { height: e.height, phase: PhaseModel::Failed },
                        ActionModel::Abort { fault: Fault::HeightOverflow },
                    )
                }
            },
            (Stage::AwaitSubmit, SubmitOutcome::TransportFailure) => (e, ActionModel::SubmitBlock),
            (Stage::AwaitSubmit, SubmitOutcome::Rejected { reason }) => (
                EngineModel { height: e.height, phase: PhaseModel::Failed },
                ActionModel::Abort { fault: Fault::SubmitRejected { reason } },
            ),
            _ => spec_fail(e),
        },
        (PhaseModel::AwaitWritten, EventModel::RowsWritten) => (
            EngineModel { height: e.height, phase: PhaseModel::AwaitDataHeight },
            ActionModel::GetDataHeight,
        ),
        (PhaseModel::Done, _) => (
            EngineModel { height: e.height, phase: PhaseModel::Done },
            ActionModel::Finish,
        ),
        _ => spec_fail(e),
    }
}

// ---------------------------------------------------------------------------
// Well-formedness: what always holds of a reachable engine state.
// ---------------------------------------------------------------------------

/// A buffered row matches the facts of this transaction, which is relayable.
pub open spec fn tx_row_match(tx: TxSummary, row: ResultRow) -> bool {
    &&& !tx.coinbase
    &&& row.txid == tx.txid
    &&& row.vsize == tx.vsize
    &&& row.inputs == tx.inputs
    &&& row.outputs == tx.outputs
}

/// A buffered row carries the block's height and miner, a reason other than
/// the already-in-mempool sentinel, and the facts of some non-coinbase
/// transaction already passed by the cursor.
pub open spec fn row_wf(
    height: u64,
    miner: String,
    txs: Seq<TxSummary>,
    bound: int,
    row: ResultRow,
) -> bool {
    &&& row.height == height
    &&& row.miner == miner
    &&& !is_already_in_mempool(row.reject_reason@)
    &&& exists|j: int| 0 <= j < bound && j < txs.len() && tx_row_match(#[trigger] txs[j], row)
}

/// Every buffered row is well-formed.
pub open spec fn rows_wf(
    height: u64,
    miner: String,
    txs: Seq<TxSummary>,
    bound: int,
    rows: Seq<ResultRow>,
) -> bool {
    forall|k: int| 0 <= k < rows.len() ==> row_wf(height, miner, txs, bound, #[trigger] rows[k])
}

/// The stage always points the cursor at a transaction it can speak of: a
/// relayable one while classifying, one past the end once submitting.
pub open spec fn stage_wf(run: BlockRunModel) -> bool {
    match run.stage {
        Stage::AwaitAccept => run.idx < run.txs.len() && !run.txs[run.idx].coinbase,
        Stage::AwaitFee { reason } => run.idx < run.txs.len() && !run.txs[run.idx].coinbase
            && !is_already_in_mempool(reason@),
        Stage::AwaitSend => run.idx < run.txs.len() && !run.txs[run.idx].coinbase,
        Stage::AwaitSubmit => run.idx == run.txs.len(),
    }
}

/// Well-formedness of the per-block state.
pub open spec fn run_wf(height: u64, run: BlockRunModel) -> bool {
    &&& 0 <= run.idx <= run.txs.len()
    &&& stage_wf(run)
    &&& rows_wf(height, run.miner, run.txs, run.idx, run.rows)
}

/// Well-formedness of the engine: inside a block, the per-block state is
/// well-formed; everywhere else there is nothing to hold.
pub open spec fn wf(e: EngineModel) -> bool {
    match e.phase {
        PhaseModel::InBlock { run } => run_wf(e.height, run),
        _ => true,
    }
}

/// The cursor scan lands at or after its start, inside the block or just past
/// it, on a relayable transaction when inside, and skips only coinbases.
pub proof fn lemma_next_relayable(txs: Seq<TxSummary>, i: int)
    requires
        0 <= i <= txs.len(),
    ensures
        i <= next_relayable(txs, i) <= txs.len(),
        next_relayable(txs, i) < txs.len() ==> !txs[next_relayable(txs, i)].coinbase,
        forall|j: int| i <= j < next_relayable(txs, i) ==> txs[j].coinbase,
    decreases txs.len() - i,
{
    if i < txs.len() && txs[i].coinbase {
        lemma_next_relayable(txs, i + 1);
    }
}

/// Rows well-formed up to one bound stay well-formed up to any larger bound.
pub proof fn lemma_rows_wf_mono(
    height: u64,
    miner: String,
    txs: Seq<TxSummary>,
    bound1: int,
    bound2: int,
    rows: Seq<ResultRow>,
)
    requires
        rows_wf(height, miner, txs, bound1, rows),
        bound1 <= bound2,
    ensures
        rows_wf(height, miner, txs, bound2, rows),
{
    assert forall|k: int| 0 <= k < rows.len() implies row_wf(
        height,
        miner,
        txs,
        bound2,
        #[trigger] rows[k],
    ) by {
        assert(row_wf(height, miner, txs, bound1, rows[k]));
        let j = choose|j: int|
            0 <= j < bound1 && j < txs.len() && tx_row_match(#[trigger] txs[j], rows[k]);
        assert(0 <= j < bound2 && j < txs.len() && tx_row_match(txs[j], rows[k]));
    }
}

/// Advancing the cursor preserves well-formedness, provided the rows were
/// well-formed up to the scan's starting point.
proof fn lemma_advance_wf(height: u64, run: BlockRunModel)
    requires
        0 <= run.idx <= run.txs.len(),
        rows_wf(height, run.miner, run.txs, run.idx, run.rows),
    ensures
        wf(spec_advance(height, run).0),
{
    lemma_next_relayable(run.txs, run.idx);
    let j = next_relayable(run.txs, run.idx);
    lemma_rows_wf_mono(height, run.miner, run.txs, run.idx, j, run.rows);
}

/// Every transition preserves well-formedness: the engine never leaves the
/// states [`wf`] describes.
pub proof fn lemma_step_preserves_wf(e: EngineModel, ev: EventModel)
    requires
        wf(e),
    ensures
        wf(spec_step(e, ev).0),
{
    match (e.phase, ev) {
        (PhaseModel::AwaitBlock, EventModel::BlockReady { miner, txs }) => {
            let run = BlockRunModel {
                miner,
                txs,
                idx: 0,
                rows: Seq::empty(),
                stage: Stage::AwaitAccept,
            };
            lemma_advance_wf(e.height, run);
        },
        (PhaseModel::InBlock { run }, EventModel::AcceptChecked { outcome }) => {
            if run.stage == Stage::AwaitAccept {
                match outcome {
                    AcceptOutcome::Rejected { reason } => {
                        if is_already_in_mempool(reason@) {
                            let run2 = BlockRunModel { idx: run.idx + 1, ..run };
                            lemma_rows_wf_mono(
                                e.height,
                                run.miner,
                                run.txs,
                                run.idx,
                                run.idx + 1,
                                run.rows,
                            );
                            lemma_advance_wf(e.height, run2);
                        }
                    },
                    _ => {},
                }
            }
        },
        (PhaseModel::InBlock { run }, EventModel::FeeLooked { fee_sats }) => {
            match run.stage {
                Stage::AwaitFee { reason } => {
                    let row = spec_row(e.height, run, reason, fee_sats);
                    let rows2 = run.rows.push(row);
                    let run2 = BlockRunModel { idx: run.idx + 1, rows: rows2, ..run };
                    lemma_rows_wf_mono(
                        e.height,
                        run.miner,
                        run.txs,
                        run.idx,
                        run.idx + 1,
                        run.rows,
                    );
                    assert(tx_row_match(run.txs[run.idx], row));
                    assert(row_wf(e.height, run.miner, run.txs, run.idx + 1, row));
                    assert forall|k: int| 0 <= k < rows2.len() implies row_wf(
                        e.height,
                        run.miner,
                        run.txs,
                        run.idx + 1,
                        #[trigger] rows2[k],
                    ) by {
                        if k < run.rows.len() {
                            assert(rows2[k] == run.rows[k]);
                        } else {
                            assert(rows2[k] == row);
                        }
                    }
                    lemma_advance_wf(e.height, run2);
                },
                _ => {},
            }
        },
        (PhaseModel::InBlock { run }, EventModel::SendDone { outcome }) => {
            if run.stage == Stage::AwaitSend && outcome == SendOutcome::Sent {
                let run2 = BlockRunModel { idx: run.idx + 1, ..run };
                lemma_rows_wf_mono(e.height, run.miner, run.txs, run.idx, run.idx + 1, run.rows);
                lemma_advance_wf(e.height, run2);
            }
        },
        _ => {},
    }
}

// ---------------------------------------------------------------------------
// Laws: what always holds of the engine's transitions.
// ---------------------------------------------------------------------------

/// For a block with no non-coinbase transactions, no rows are ever produced:
/// in every well-formed state of such a block's pass the buffer is empty, and
/// whatever the submission outcome, any rows handed to the sink are empty
/// too.
pub proof fn lemma_empty_block_no_rows(height: u64, run: BlockRunModel, outcome: SubmitOutcome)
    requires
        run_wf(height, run),
        forall|j: int| 0 <= j < run.txs.len() ==> run.txs[j].coinbase,
    ensures
        run.rows.len() == 0,
        ({
            let (e2, a) = spec_step(
                EngineModel { height, phase: PhaseModel::InBlock { run } },
                EventModel::SubmitDone { outcome },
            );
            a matches ActionModel::WriteRows { rows } ==> rows.len() == 0
        }),
{
    if run.rows.len() > 0 {
        assert(row_wf(height, run.miner, run.txs, run.idx, run.rows[0]));
        let j = choose|j: int|
            0 <= j < run.idx && j < run.txs.len() && tx_row_match(#[trigger] run.txs[j], run.rows[0]);
        assert(run.txs[j].coinbase);
        assert(false);
    }
}

/// A transaction rejected as already sitting in the mempool is noise from an
/// interrupted run: no row is produced for it, it is not resubmitted, and the
/// engine does not fail on it.
pub proof fn lemma_mempool_noise_skipped(height: u64, run: BlockRunModel, reason: String)
    requires
        run.stage is AwaitAccept,
        0 <= run.idx < run.txs.len(),
        is_already_in_mempool(reason@),
    ensures
        ({
            let (e2, a) = spec_step(
                EngineModel { height, phase: PhaseModel::InBlock { run } },
                EventModel::AcceptChecked { outcome: AcceptOutcome::Rejected { reason } },
            );
            &&& !(a matches ActionModel::SendTx { .. })
            &&& !(a matches ActionModel::LookUpFee { .. })
            &&& !(a matches ActionModel::Abort { .. })
            &&& e2.phase matches PhaseModel::InBlock { run: run2 } && run2.rows == run.rows
                && run2.idx > run.idx
        }),
{
    lemma_next_relayable(run.txs, run.idx + 1);
}

/// A block the validation node already knew: the rows buffered for it are
/// discarded — zero rows are handed to the sink for its height — and the
/// engine advances to the next height without failing.
pub proof fn lemma_duplicate_block_discards_rows(height: u64, run: BlockRunModel)
    requires
        run.stage is AwaitSubmit,
        height < u64::MAX,
    ensures
        ({
            let (e2, a) = spec_step(
                EngineModel { height, phase: PhaseModel::InBlock { run } },
                EventModel::SubmitDone { outcome: SubmitOutcome::Duplicate },
            );
            &&& a matches ActionModel::WriteRows { rows } && rows.len() == 0
            &&& e2.height == height + 1
            &&& e2.phase is AwaitWritten
        }),
{
}

/// A block new to the validation node: exactly the rows buffered during its
/// classification pass are handed to the sink, in the order they were
/// buffered, and the engine advances to the next height.
pub proof fn lemma_new_block_flushes_rows(height: u64, run: BlockRunModel)
    requires
        run.stage is AwaitSubmit,
        height < u64::MAX,
    ensures
        ({
            let (e2, a) = spec_step(
                EngineModel { height, phase: PhaseModel::InBlock { run } },
                EventModel::SubmitDone { outcome: SubmitOutcome::Accepted },
            );
            &&& a == (ActionModel::WriteRows { rows: run.rows })
            &&& e2.height == height + 1
            &&& e2.phase is AwaitWritten
        }),
{
}

/// A genuine rejection appends exactly one row — the rejected transaction's
/// facts under the block's height and miner — at the end of the buffer, so
/// the buffer stays in classification order.
pub proof fn lemma_rejected_tx_buffers_row(
    height: u64,
    run: BlockRunModel,
    reason: String,
    fee_sats: Option<u64>,
)
    requires
        run.stage == (Stage::AwaitFee { reason }),
        0 <= run.idx < run.txs.len(),
    ensures
        ({
            let (e2, a) = spec_step(
                EngineModel { height, phase: PhaseModel::InBlock { run } },
                EventModel::FeeLooked { fee_sats },
            );
            &&& e2.phase matches PhaseModel::InBlock { run: run2 } && run2.rows == run.rows.push(
                spec_row(height, run, reason, fee_sats),
            ) && run2.idx > run.idx
            &&& !(a matches ActionModel::Abort { .. })
        }),
{
    lemma_next_relayable(run.txs, run.idx + 1);
}

/// A transport failure on a transaction submission leaves the engine exactly
/// where it was and re-issues the same submission: once the transport
/// recovers, the run proceeds as if the failure had never happened, and the
/// transaction is neither skipped nor reported.
pub proof fn lemma_transport_retry_send(height: u64, run: BlockRunModel)
    requires
        run.stage is AwaitSend,
    ensures
        ({
            let e = EngineModel { height, phase: PhaseModel::InBlock { run } };
            let (e2, a) = spec_step(e, EventModel::SendDone { outcome: SendOutcome::TransportFailure });
            &&& e2 == e
            &&& a == (ActionModel::SendTx {
                tx: run.idx,
                max_fee_sats: MAX_FEE_SATS,
                max_burn_sats: MAX_BURN_SATS,
            })
        }),
{
}

/// A transport failure on a block submission leaves the engine exactly where
/// it was and re-issues the same submission: once the transport recovers, the
/// run proceeds as if the failure had never happened, and the block is not
/// skipped.
pub proof fn lemma_transport_retry_submit(height: u64, run: BlockRunModel)
    requires
        run.stage is AwaitSubmit,
    ensures
        ({
            let e = EngineModel { height, phase: PhaseModel::InBlock { run } };
            let (e2, a) = spec_step(
                e,
                EventModel::SubmitDone { outcome: SubmitOutcome::TransportFailure },
            );
            &&& e2 == e
            &&& a == ActionModel::SubmitBlock
        }),
{
}

/// Resumption is idempotent at the cursor: the resume point is the validation
/// node's own height, so a run started when that node has caught up with the
/// data source finishes at once, producing no rows and no failure. Together
/// with [`lemma_mempool_noise_skipped`] and
/// [`lemma_duplicate_block_discards_rows`], a re-run over already-known state
/// produces no duplicate rows and no fault from "already known" conditions.
pub proof fn lemma_caught_up_finishes(height: u64, data_height: u64)
    requires
        data_height < height,
    ensures
        ({
            let (e2, a) = spec_step(
                EngineModel { height, phase: PhaseModel::AwaitDataHeight },
                EventModel::DataHeight { height: data_height },
            );
            &&& a == ActionModel::Finish
            &&& e2.phase is Done
        }),
{
}

/// The example pass, for arbitrary height, miner, transactions, reasons and
/// fee: a block of a coinbase and three relayable transactions, of which the
/// first is genuinely rejected, the second accepted and submitted, and the
/// third mempool noise. The third contributes no row and is never sent, and
/// the block's acceptance delivers exactly one row — the first transaction's
/// facts under the block's height and miner, with its reason and the
/// looked-up fee — after which the engine advances to the next height.
pub proof fn lemma_example_block_pass(
    height: u64,
    miner: String,
    cb: TxSummary,
    t1: TxSummary,
    t2: TxSummary,
    t3: TxSummary,
    reason1: String,
    noise: String,
    fee_sats: Option<u64>,
)
    requires
        height < u64::MAX,
        cb.coinbase,
        !t1.coinbase,
        !t2.coinbase,
        !t3.coinbase,
        !is_already_in_mempool(reason1@),
        is_already_in_mempool(noise@),
    ensures
        ({
            let txs = seq![cb, t1, t2, t3];
            let e0 = EngineModel { height, phase: PhaseModel::AwaitBlock };
            let (e1, a1) = spec_step(e0, EventModel::BlockReady { miner, txs });
            let (e2, a2) = spec_step(
                e1,
                EventModel::AcceptChecked { outcome: AcceptOutcome::Rejected { reason: reason1 } },
            );
            let (e3, a3) = spec_step(e2, EventModel::FeeLooked { fee_sats });
            let (e4, a4) = spec_step(
                e3,
                EventModel::AcceptChecked { outcome: AcceptOutcome::Accepted },
            );
            let (e5, a5) = spec_step(e4, EventModel::SendDone { outcome: SendOutcome::Sent });
            let (e6, a6) = spec_step(
                e5,
                EventModel::AcceptChecked { outcome: AcceptOutcome::Rejected { reason: noise } },
            );
            let (e7, a7) = spec_step(e6, EventModel::SubmitDone { outcome: SubmitOutcome::Accepted });
            &&& a1 == (ActionModel::TestAccept { tx: 1, max_fee_sats: MAX_FEE_SATS })
            &&& a2 == (ActionModel::LookUpFee { tx: 1 })
            &&& a3 == (ActionModel::TestAccept { tx: 2, max_fee_sats: MAX_FEE_SATS })
            &&& a4 == (ActionModel::SendTx {
                tx: 2,
                max_fee_sats: MAX_FEE_SATS,
                max_burn_sats: MAX_BURN_SATS,
            })
            &&& a5 == (ActionModel::TestAccept { tx: 3, max_fee_sats: MAX_FEE_SATS })
            &&& a6 == ActionModel::SubmitBlock
            &&& a7 == (ActionModel::WriteRows {
                rows: seq![
                    ResultRow {
                        height,
                        miner,
                        reject_reason: reason1,
                        txid: t1.txid,
                        vsize: t1.vsize,
                        inputs: t1.inputs,
                        outputs: t1.outputs,
                        fee: fee_sats.unwrap_or(0),
                    },
                ],
            })
            &&& e7.height == height + 1
            &&& e7.phase is AwaitWritten
        }),
{
    let txs = seq![cb, t1, t2, t3];
    reveal_with_fuel(next_relayable, 6);
    let row1 = ResultRow {
        height,
        miner,
        reject_reason: reason1,
        txid: t1.txid,
        vsize: t1.vsize,
        inputs: t1.inputs,
        outputs: t1.outputs,
        fee: fee_sats.unwrap_or(0),
    };
    assert(Seq::<ResultRow>::empty().push(row1) =~= seq![row1]);
}

// ---------------------------------------------------------------------------
// The executable engine.
// ---------------------------------------------------------------------------

/// Index of the first relayable (non-coinbase) transaction at or after
/// `from`, or `txs.len()` when none is left.
fn scan_relayable(txs: &Vec<TxSummary>, from: usize) -> (j: usize)
    requires
        from <= txs@.len(),
    ensures
        j == next_relayable(txs@, from as int),
{
    let mut i: usize = from;
    while i < txs.len()
        invariant
            from <= i <= txs@.len(),
            next_relayable(txs@, from as int) == next_relayable(txs@, i as int),
        decreases txs@.len() - i,
    {
        if !txs[i].coinbase {
            return i;
        }
        i = i + 1;
    }
    i
}

/// Moves the classification cursor to the next relayable transaction from
/// `from` on and returns the rebuilt engine with its next action, as
/// [`spec_advance`] fixes them.
fn advance(
    height: u64,
    miner: String,
    txs: Vec<TxSummary>,
    rows: Vec<ResultRow>,
    from: usize,
) -> (r: (Engine, Action))
    requires
        from <= txs@.len(),
    ensures
        ({
            let (em, am) = spec_advance(
                height,
                BlockRunModel {
                    miner,
                    txs: txs@,
                    idx: from as int,
                    rows: rows@,
                    stage: Stage::AwaitAccept,
                },
            );
            r.0@ == em && r.1@ == am
        }),
{
    let j: usize = scan_relayable(&txs, from);
    if j < txs.len() {
        (
            Engine {
                height,
                phase: Phase::InBlock {
                    run: BlockRun { miner, txs, idx: j, rows, stage: Stage::AwaitAccept },
                },
            },
            Action::TestAccept { tx: j, max_fee_sats: MAX_FEE_SATS },
        )
    } else {
        (
            Engine {
                height,
                phase: Phase::InBlock {
                    run: BlockRun { miner, txs, idx: j, rows, stage: Stage::AwaitSubmit },
                },
            },
            Action::SubmitBlock,
        )
    }
}

impl Engine {
    /// A fresh engine. Its first event must be the validation node's current
    /// height; the run resumes one block above it.
    pub fn new() -> (e: Engine)
        ensures
            e@ == (EngineModel { height: 0, phase: PhaseModel::Boot }),
            wf(e@),
    {
        Engine { height: 0, phase: Phase::Boot }
    }

    /// Consumes the event answering the engine's pending action and returns
    /// the successor engine with the next action, exactly as [`spec_step`]
    /// fixes them. Well-formedness is preserved.
    pub fn step(self, event: Event) -> (r: (Engine, Action))
        requires
            wf(self@),
        ensures
            r.0@ == spec_step(self@, event@).0,
            r.1@ == spec_step(self@, event@).1,
            wf(r.0@),
    {
        proof {
            lemma_step_preserves_wf(self@, event@);
        }
        let Engine { height, phase } = self;
        match (phase, event) {
            (Phase::Boot, Event::TestHeight { height: test_height }) => {
                if test_height < u64::MAX {
                    (
                        Engine { height: test_height + 1, phase: Phase::AwaitDataHeight },
                        Action::GetDataHeight,
                    )
                } else {
                    (
                        Engine { height, phase: Phase::Failed },
                        Action::Abort { fault: Fault::HeightOverflow },
                    )
                }
            },
            (Phase::AwaitDataHeight, Event::DataHeight { height: data_height }) => {
                if height <= data_height {
                    (
                        Engine { height, phase: Phase::AwaitBlock },
                        Action::FetchBlock { height },
                    )
                } else {
                    (Engine { height, phase: Phase::Done }, Action::Finish)
                }
            },
            (Phase::AwaitBlock, Event::BlockReady { miner, txs }) => {
                advance(height, miner, txs, Vec::new(), 0)
            },
            (Phase::InBlock { run }, Event::AcceptChecked { outcome }) => {
                let BlockRun { miner, txs, idx, rows, stage } = run;
                match (stage, outcome) {
                    (Stage::AwaitAccept, AcceptOutcome::Accepted) => (
                        Engine {
                            height,
                            phase: Phase::InBlock {
                                run: BlockRun { miner, txs, idx, rows, stage: Stage::AwaitSend },
                            },
                        },
                        Action::SendTx {
                            tx: idx,
                            max_fee_sats: MAX_FEE_SATS,
                            max_burn_sats: MAX_BURN_SATS,
                        },
                    ),
                    (Stage::AwaitAccept, AcceptOutcome::Rejected { reason }) => {
                        if already_in_mempool(&reason) {
                            proof {
                                assert(idx < txs.len());
                            }
                            advance(height, miner, txs, rows, idx + 1)
                        } else {
                            (
                                Engine {
                                    height,
                                    phase: Phase::InBlock {
                                        run: BlockRun {
                                            miner,
                                            txs,
                                            idx,
                                            rows,
                                            stage: Stage::AwaitFee { reason },
                                        },
                                    },
                                },
                                Action::LookUpFee { tx: idx },
                            )
                        }
                    },
                    _ => (
                        Engine { height, phase: Phase::Failed },
                        Action::Abort { fault: Fault::UnexpectedEvent },
                    ),
                }
            },
            (Phase::InBlock { run }, Event::FeeLooked { fee_sats }) => {
                let BlockRun { miner, txs, idx, rows, stage } = run;
                match stage {
                    Stage::AwaitFee { reason } => {
                        proof {
                            assert(idx < txs.len());
                        }
                        let fee: u64 = match fee_sats {
                            Some(f) => f,
                            None => 0,
                        };
                        let tx = &txs[idx];
                        let row = ResultRow {
                            height,
                            miner: miner.clone(),
                            reject_reason: reason,
                            txid: tx.txid.clone(),
                            vsize: tx.vsize,
                            inputs: tx.inputs,
                            outputs: tx.outputs,
                            fee,
                        };
                        let mut rows = rows;
                        rows.push(row);
                        advance(height, miner, txs, rows, idx + 1)
                    },
                    _ => (
                        Engine { height, phase: Phase::Failed },
                        Action::Abort { fault: Fault::UnexpectedEvent },
                    ),
                }
            },
            (Phase::InBlock { run }, Event::SendDone { outcome }) => {
                let BlockRun { miner, txs, idx, rows, stage } = run;
                match (stage, outcome) {
                    (Stage::AwaitSend, SendOutcome::Sent) => {
                        proof {
                            assert(idx < txs.len());
                        }
                        advance(height, miner, txs, rows, idx + 1)
                    },
                    (Stage::AwaitSend, SendOutcome::TransportFailure) => (
                        Engine {
                            height,
                            phase: Phase::InBlock {
                                run: BlockRun { miner, txs, idx, rows, stage: Stage::AwaitSend },
                            },
                        },
                        Action::SendTx {
                            tx: idx,
                            max_fee_sats: MAX_FEE_SATS,
                            max_burn_sats: MAX_BURN_SATS,
                        },
                    ),
                    (Stage::AwaitSend, SendOutcome::Rejected { reason }) => (
                        Engine { height, phase: Phase::Failed },
                        Action::Abort { fault: Fault::SendRejected { reason } },
                    ),
                    _ => (
                        Engine { height, phase: Phase::Failed },
                        Action::Abort { fault: Fault::UnexpectedEvent },
                    ),
                }
            },
            (Phase::InBlock { run }, Event::SubmitDone { outcome }) => {
                let BlockRun { miner, txs, idx, rows, stage } = run;
                match (stage, outcome) {
                    (Stage::AwaitSubmit, SubmitOutcome::Accepted) => {
                        if height < u64::MAX {
                            (
                                Engine { height: height + 1, phase: Phase::AwaitWritten },
                                Action::WriteRows { rows },
                            )
                        } else {
                            (
                                Engine { height, phase: Phase::Failed },
                                Action::Abort { fault: Fault::HeightOverflow },
                            )
                        }
                    },
                    (Stage::AwaitSubmit, SubmitOutcome::Duplicate) => {
                        if height < u64::MAX {
                            (
                                Engine { height: height + 1, phase: Phase::AwaitWritten },
                                Action::WriteRows { rows: Vec::new() },
                            )
                        } else {
                            (
                                Engine { height, phase: Phase::Failed },
                                Action::Abort { fault: Fault::HeightOverflow },
                            )
                        }
                    },
                    (Stage::AwaitSubmit, SubmitOutcome::TransportFailure) => (
                        Engine {
                            height,
                            phase: Phase::InBlock {
                                run: BlockRun {
                                    miner,
                                    txs,
                                    idx,
                                    rows,
                                    stage: Stage::AwaitSubmit,
                                },
                            },
                        },
                        Action::SubmitBlock,
                    ),
                    (Stage::AwaitSubmit, SubmitOutcome::Rejected { reason }) => (
                        Engine { height, phase: Phase::Failed },
                        Action::Abort { fault: Fault::SubmitRejected { reason } },
                    ),
                    _ => (
                        Engine { height, phase: Phase::Failed },
                        Action::Abort { fault: Fault::UnexpectedEvent },
                    ),
                }
            },
            (Phase::AwaitWritten, Event::RowsWritten) => (
                Engine { height, phase: Phase::AwaitDataHeight },
                Action::GetDataHeight,
            ),
            (Phase::Done, _) => (Engine { height, phase: Phase::Done }, Action::Finish),
            _ => (
                Engine { height, phase: Phase::Failed },
                Action::Abort { fault: Fault::UnexpectedEvent },
            ),
        }
    }
}

} // verus!
