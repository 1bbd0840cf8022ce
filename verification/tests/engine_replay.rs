//! Scenario tests that drive the replay engine event by event.

use nonstd_replay::engine::{Action, Engine, Event};
use nonstd_replay::types::{
    AcceptOutcome, Fault, ResultRow, SendOutcome, SubmitOutcome, TxSummary, MAX_BURN_SATS,
    MAX_FEE_SATS,
};

fn tx(txid: &str, vsize: usize, inputs: usize, outputs: usize, coinbase: bool) -> TxSummary {
    TxSummary { txid: txid.to_string(), vsize, inputs, outputs, coinbase }
}

fn rejected(reason: &str) -> Event {
    Event::AcceptChecked { outcome: AcceptOutcome::Rejected { reason: reason.to_string() } }
}

/// Brings a fresh engine to the point where it has asked for the block at
/// height `test_height + 1`.
fn engine_at_block(test_height: u64, data_height: u64) -> Engine {
    let e = Engine::new();
    let (e, a) = e.step(Event::TestHeight { height: test_height });
    assert_eq!(a, Action::GetDataHeight);
    let (e, a) = e.step(Event::DataHeight { height: data_height });
    assert_eq!(a, Action::FetchBlock { height: test_height + 1 });
    e
}

#[test]
fn empty_block_produces_no_rows() {
    // A block whose only transaction is the coinbase: no acceptance test is
    // ever asked for, and no rows reach the sink, whatever the submission
    // outcome.
    let e = engine_at_block(99, 200);
    let (e, a) = e.step(Event::BlockReady {
        miner: "PoolA".to_string(),
        txs: vec![tx("cb", 120, 1, 2, true)],
    });
    assert_eq!(a, Action::SubmitBlock);
    let (_, a) = e.step(Event::SubmitDone { outcome: SubmitOutcome::Accepted });
    assert_eq!(a, Action::WriteRows { rows: vec![] });
}

#[test]
fn empty_block_produces_no_rows_on_duplicate() {
    let e = engine_at_block(99, 200);
    let (e, a) = e.step(Event::BlockReady {
        miner: "PoolA".to_string(),
        txs: vec![tx("cb", 120, 1, 2, true)],
    });
    assert_eq!(a, Action::SubmitBlock);
    let (_, a) = e.step(Event::SubmitDone { outcome: SubmitOutcome::Duplicate });
    assert_eq!(a, Action::WriteRows { rows: vec![] });
}

#[test]
fn already_in_mempool_is_skipped() {
    // A transaction rejected as already sitting in the mempool produces no
    // row and is not resubmitted: the engine moves straight on.
    let e = engine_at_block(99, 200);
    let (e, a) = e.step(Event::BlockReady {
        miner: "PoolA".to_string(),
        txs: vec![tx("cb", 120, 1, 2, true), tx("t1", 200, 1, 1, false)],
    });
    assert_eq!(a, Action::TestAccept { tx: 1, max_fee_sats: MAX_FEE_SATS });
    let (e, a) = e.step(rejected("txn-already-in-mempool"));
    assert_eq!(a, Action::SubmitBlock);
    let (_, a) = e.step(Event::SubmitDone { outcome: SubmitOutcome::Accepted });
    assert_eq!(a, Action::WriteRows { rows: vec![] });
}

#[test]
fn duplicate_block_discards_buffered_rows() {
    // A genuine rejection buffers a row, but the node already knew the block:
    // the buffer is discarded and zero rows reach the sink for this height.
    let e = engine_at_block(99, 200);
    let (e, a) = e.step(Event::BlockReady {
        miner: "PoolA".to_string(),
        txs: vec![tx("cb", 120, 1, 2, true), tx("t1", 200, 1, 1, false)],
    });
    assert_eq!(a, Action::TestAccept { tx: 1, max_fee_sats: MAX_FEE_SATS });
    let (e, a) = e.step(rejected("dust"));
    assert_eq!(a, Action::LookUpFee { tx: 1 });
    let (e, a) = e.step(Event::FeeLooked { fee_sats: Some(1000) });
    assert_eq!(a, Action::SubmitBlock);
    let (e, a) = e.step(Event::SubmitDone { outcome: SubmitOutcome::Duplicate });
    assert_eq!(a, Action::WriteRows { rows: vec![] });
    let (_, a) = e.step(Event::RowsWritten);
    assert_eq!(a, Action::GetDataHeight);
}

#[test]
fn new_block_flushes_rows_in_order() {
    // Two genuine rejections: the new block's acceptance flushes exactly the
    // two buffered rows, in classification order.
    let e = engine_at_block(99, 200);
    let (e, a) = e.step(Event::BlockReady {
        miner: "PoolB".to_string(),
        txs: vec![
            tx("cb", 120, 1, 2, true),
            tx("t1", 210, 1, 1, false),
            tx("t2", 320, 2, 3, false),
        ],
    });
    assert_eq!(a, Action::TestAccept { tx: 1, max_fee_sats: MAX_FEE_SATS });
    let (e, a) = e.step(rejected("dust"));
    assert_eq!(a, Action::LookUpFee { tx: 1 });
    let (e, a) = e.step(Event::FeeLooked { fee_sats: Some(1500) });
    assert_eq!(a, Action::TestAccept { tx: 2, max_fee_sats: MAX_FEE_SATS });
    let (e, a) = e.step(rejected("bare-multisig"));
    assert_eq!(a, Action::LookUpFee { tx: 2 });
    let (e, a) = e.step(Event::FeeLooked { fee_sats: None });
    assert_eq!(a, Action::SubmitBlock);
    let (_, a) = e.step(Event::SubmitDone { outcome: SubmitOutcome::Accepted });
    let expected = vec![
        ResultRow {
            height: 100,
            miner: "PoolB".to_string(),
            reject_reason: "dust".to_string(),
            txid: "t1".to_string(),
            vsize: 210,
            inputs: 1,
            outputs: 1,
            fee: 1500,
        },
        ResultRow {
            height: 100,
            miner: "PoolB".to_string(),
            reject_reason: "bare-multisig".to_string(),
            txid: "t2".to_string(),
            vsize: 320,
            inputs: 2,
            outputs: 3,
            fee: 0,
        },
    ];
    assert_eq!(a, Action::WriteRows { rows: expected });
}

#[test]
fn resumption_is_idempotent() {
    // First run: processes the single outstanding block and finishes.
    let e = engine_at_block(99, 100);
    let (e, a) = e.step(Event::BlockReady {
        miner: "PoolA".to_string(),
        txs: vec![tx("cb", 120, 1, 2, true), tx("t1", 200, 1, 1, false)],
    });
    assert_eq!(a, Action::TestAccept { tx: 1, max_fee_sats: MAX_FEE_SATS });
    let (e, a) = e.step(Event::AcceptChecked { outcome: AcceptOutcome::Accepted });
    assert_eq!(a, Action::SendTx { tx: 1, max_fee_sats: MAX_FEE_SATS, max_burn_sats: MAX_BURN_SATS });
    let (e, a) = e.step(Event::SendDone { outcome: SendOutcome::Sent });
    assert_eq!(a, Action::SubmitBlock);
    let (e, a) = e.step(Event::SubmitDone { outcome: SubmitOutcome::Accepted });
    assert_eq!(a, Action::WriteRows { rows: vec![] });
    let (e, a) = e.step(Event::RowsWritten);
    assert_eq!(a, Action::GetDataHeight);
    let (_, a) = e.step(Event::DataHeight { height: 100 });
    assert_eq!(a, Action::Finish);

    // Second run, back to back: the validation node now stands at height 100,
    // so the resume point is past the data source and the engine finishes at
    // once — no duplicate rows, no fatal condition.
    let e2 = Engine::new();
    let (e2, a) = e2.step(Event::TestHeight { height: 100 });
    assert_eq!(a, Action::GetDataHeight);
    let (_, a) = e2.step(Event::DataHeight { height: 100 });
    assert_eq!(a, Action::Finish);
}

#[test]
fn resumption_over_known_state_is_benign() {
    // A run interrupted after the node learned the block but before its
    // height reading: the re-run sees only "already in mempool" rejections
    // and a duplicate block, produces no rows and no fatal condition.
    let e = engine_at_block(99, 200);
    let (e, a) = e.step(Event::BlockReady {
        miner: "PoolA".to_string(),
        txs: vec![tx("t1", 200, 1, 1, false), tx("t2", 250, 1, 2, false)],
    });
    assert_eq!(a, Action::TestAccept { tx: 0, max_fee_sats: MAX_FEE_SATS });
    let (e, a) = e.step(rejected("txn-already-in-mempool"));
    assert_eq!(a, Action::TestAccept { tx: 1, max_fee_sats: MAX_FEE_SATS });
    let (e, a) = e.step(rejected("txn-already-in-mempool"));
    assert_eq!(a, Action::SubmitBlock);
    let (e, a) = e.step(Event::SubmitDone { outcome: SubmitOutcome::Duplicate });
    assert_eq!(a, Action::WriteRows { rows: vec![] });
    let (_, a) = e.step(Event::RowsWritten);
    assert_eq!(a, Action::GetDataHeight);
}

#[test]
fn transport_retry_completes_transaction_send() {
    // A transport failure on the first submission attempt: the engine asks
    // for the very same submission again, then proceeds once it succeeds,
    // without surfacing an error and without skipping the transaction.
    let e = engine_at_block(99, 200);
    let (e, a) = e.step(Event::BlockReady {
        miner: "PoolA".to_string(),
        txs: vec![tx("cb", 120, 1, 2, true), tx("t1", 200, 1, 1, false)],
    });
    assert_eq!(a, Action::TestAccept { tx: 1, max_fee_sats: MAX_FEE_SATS });
    let (e, a) = e.step(Event::AcceptChecked { outcome: AcceptOutcome::Accepted });
    assert_eq!(a, Action::SendTx { tx: 1, max_fee_sats: MAX_FEE_SATS, max_burn_sats: MAX_BURN_SATS });
    let (e, a) = e.step(Event::SendDone { outcome: SendOutcome::TransportFailure });
    assert_eq!(a, Action::SendTx { tx: 1, max_fee_sats: MAX_FEE_SATS, max_burn_sats: MAX_BURN_SATS });
    let (e, a) = e.step(Event::SendDone { outcome: SendOutcome::Sent });
    assert_eq!(a, Action::SubmitBlock);
    let (_, a) = e.step(Event::SubmitDone { outcome: SubmitOutcome::Accepted });
    assert_eq!(a, Action::WriteRows { rows: vec![] });
}

#[test]
fn transport_retry_completes_block_submission() {
    let e = engine_at_block(99, 200);
    let (e, a) = e.step(Event::BlockReady {
        miner: "PoolA".to_string(),
        txs: vec![tx("cb", 120, 1, 2, true)],
    });
    assert_eq!(a, Action::SubmitBlock);
    let (e, a) = e.step(Event::SubmitDone { outcome: SubmitOutcome::TransportFailure });
    assert_eq!(a, Action::SubmitBlock);
    let (_, a) = e.step(Event::SubmitDone { outcome: SubmitOutcome::Accepted });
    assert_eq!(a, Action::WriteRows { rows: vec![] });
}

#[test]
fn example_block_with_three_transactions() {
    // Block at height 100 with three non-coinbase transactions: the first is
    // genuinely rejected, the second accepted and submitted, the third is
    // mempool noise. Exactly the first transaction's row reaches the sink.
    let e = engine_at_block(99, 200);
    let (e, a) = e.step(Event::BlockReady {
        miner: "PoolC".to_string(),
        txs: vec![
            tx("cb", 120, 1, 2, true),
            tx("t1", 200, 1, 1, false),
            tx("t2", 250, 1, 2, false),
            tx("t3", 300, 2, 2, false),
        ],
    });
    assert_eq!(a, Action::TestAccept { tx: 1, max_fee_sats: MAX_FEE_SATS });
    let (e, a) = e.step(rejected("min relay fee not met"));
    assert_eq!(a, Action::LookUpFee { tx: 1 });
    let (e, a) = e.step(Event::FeeLooked { fee_sats: Some(100) });
    assert_eq!(a, Action::TestAccept { tx: 2, max_fee_sats: MAX_FEE_SATS });
    let (e, a) = e.step(Event::AcceptChecked { outcome: AcceptOutcome::Accepted });
    assert_eq!(a, Action::SendTx { tx: 2, max_fee_sats: MAX_FEE_SATS, max_burn_sats: MAX_BURN_SATS });
    let (e, a) = e.step(Event::SendDone { outcome: SendOutcome::Sent });
    assert_eq!(a, Action::TestAccept { tx: 3, max_fee_sats: MAX_FEE_SATS });
    let (e, a) = e.step(rejected("txn-already-in-mempool"));
    assert_eq!(a, Action::SubmitBlock);
    let (e, a) = e.step(Event::SubmitDone { outcome: SubmitOutcome::Accepted });
    let expected = vec![ResultRow {
        height: 100,
        miner: "PoolC".to_string(),
        reject_reason: "min relay fee not met".to_string(),
        txid: "t1".to_string(),
        vsize: 200,
        inputs: 1,
        outputs: 1,
        fee: 100,
    }];
    assert_eq!(a, Action::WriteRows { rows: expected });
    let (_, a) = e.step(Event::RowsWritten);
    assert_eq!(a, Action::GetDataHeight);
}

#[test]
fn send_rejection_is_fatal() {
    let e = engine_at_block(99, 200);
    let (e, _) = e.step(Event::BlockReady {
        miner: "PoolA".to_string(),
        txs: vec![tx("t1", 200, 1, 1, false)],
    });
    let (e, a) = e.step(Event::AcceptChecked { outcome: AcceptOutcome::Accepted });
    assert_eq!(a, Action::SendTx { tx: 0, max_fee_sats: MAX_FEE_SATS, max_burn_sats: MAX_BURN_SATS });
    let (_, a) = e.step(Event::SendDone {
        outcome: SendOutcome::Rejected { reason: "bad-txns".to_string() },
    });
    assert_eq!(
        a,
        Action::Abort { fault: Fault::SendRejected { reason: "bad-txns".to_string() } }
    );
}

#[test]
fn submit_rejection_other_than_duplicate_is_fatal() {
    let e = engine_at_block(99, 200);
    let (e, a) = e.step(Event::BlockReady {
        miner: "PoolA".to_string(),
        txs: vec![tx("cb", 120, 1, 2, true)],
    });
    assert_eq!(a, Action::SubmitBlock);
    let (_, a) = e.step(Event::SubmitDone {
        outcome: SubmitOutcome::Rejected { reason: "\"bad-blk\"".to_string() },
    });
    assert_eq!(
        a,
        Action::Abort { fault: Fault::SubmitRejected { reason: "\"bad-blk\"".to_string() } }
    );
}

#[test]
fn height_overflow_is_fatal() {
    // A validation node already at the maximum height leaves no room for a
    // resume point above it.
    let e = Engine::new();
    let (_, a) = e.step(Event::TestHeight { height: u64::MAX });
    assert_eq!(a, Action::Abort { fault: Fault::HeightOverflow });
}

#[test]
fn unexpected_event_aborts() {
    // An event that does not answer the pending action is a programming
    // fault: fail-fast, never silently swallowed.
    let e = Engine::new();
    let (_, a) = e.step(Event::RowsWritten);
    assert_eq!(a, Action::Abort { fault: Fault::UnexpectedEvent });
}
