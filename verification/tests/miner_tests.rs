//! Tests for the mining worker: bootstrap, sequential passes, and reports.

use blockchain_api::miner::{mine_pass, success_response, MiningMessage, MiningWorker};
use blockchain_api::model::blockchain::{Block, Blockchain};
use blockchain_api::model::transaction::{MutexTransactionList, Transaction};

#[test]
fn success_response_exact_report() {
    let block = Block {
        index: 1,
        timestamp: 1_700_000_000,
        proof: 42,
        previous_hash: "0".to_owned(),
        transactions: vec![],
    };
    let response = success_response(&block);
    assert_eq!(response.status, "success");
    assert_eq!(
        response.report,
        "Block (Index: 1; Proof: 42): New Block mined: {\"index\":1,\
         \"timestamp\":1700000000,\"proof\":42,\"previous_hash\":\"0\",\"transactions\":[]}"
    );
}

#[test]
fn scenario_submit_then_mine_twice() {
    let mut worker = MiningWorker::new();

    let result = worker.add_transaction(Transaction {
        sender: "sender1".to_owned(),
        receiver: "receiver1".to_owned(),
        amount: 5_670_000,
    });
    assert!(result.is_ok());

    // The first pass on a fresh ledger is the bootstrap pass: it seals the
    // fixed reward into the genesis block and leaves the submission queued.
    worker.mine_block().unwrap();
    assert_eq!(worker.get_block_count(), 1);
    {
        let chain = &worker.blockchain().chain;
        assert_eq!(chain[0].index, 1);
        assert_eq!(chain[0].previous_hash, "0");
        assert_eq!(chain[0].transactions.len(), 1);
        assert_eq!(chain[0].transactions[0].sender, "Blockchain");
        assert_eq!(chain[0].transactions[0].receiver, "Miner");
        assert_eq!(chain[0].transactions[0].amount, 10_000_000);
    }
    assert_eq!(worker.get_transaction_count(), 1);

    // The second pass seals the submitted transaction into block 2.
    worker.mine_block().unwrap();
    assert_eq!(worker.get_block_count(), 2);
    {
        let chain = &worker.blockchain().chain;
        assert_eq!(chain[1].index, 2);
        assert_eq!(chain[1].transactions.len(), 1);
        assert_eq!(chain[1].transactions[0].sender, "sender1");
        assert_eq!(chain[1].transactions[0].amount, 5_670_000);
    }
    assert_eq!(worker.get_transaction_count(), 0);
    assert!(worker.blockchain().validate_chain());
}

#[test]
fn scenario_invalid_submission_leaves_pool_empty() {
    let mut worker = MiningWorker::new();

    let result = worker.add_transaction(Transaction {
        sender: String::new(),
        receiver: "x".to_owned(),
        amount: 1_000_000,
    });
    assert!(result.is_err());
    assert_eq!(worker.get_transaction_count(), 0);
}

#[test]
fn scenario_sequential_mines_are_disjoint() {
    let mut worker = MiningWorker::new();
    worker.mine_block().unwrap();
    assert_eq!(worker.get_block_count(), 1);

    let result = worker.add_transaction(Transaction {
        sender: "alpha".to_owned(),
        receiver: "x".to_owned(),
        amount: 1_000_000,
    });
    assert!(result.is_ok());

    worker.mine_block().unwrap();
    let first_index = worker.blockchain().chain[1].index;

    let result = worker.add_transaction(Transaction {
        sender: "beta".to_owned(),
        receiver: "y".to_owned(),
        amount: 2_000_000,
    });
    assert!(result.is_ok());

    worker.mine_block().unwrap();
    let chain = &worker.blockchain().chain;
    assert_eq!(chain[2].index, first_index + 1);
    assert_eq!(chain[1].transactions.len(), 1);
    assert_eq!(chain[2].transactions.len(), 1);
    assert_eq!(chain[1].transactions[0].sender, "alpha");
    assert_eq!(chain[2].transactions[0].sender, "beta");
}

#[test]
fn handle_reports_sealed_block() {
    let mut worker = MiningWorker::new();
    let response = worker.handle(MiningMessage).unwrap();

    assert_eq!(response.status, "success");
    assert!(response.report.starts_with("Block (Index: 1; Proof: "));
    assert!(response.report.contains("): New Block mined: {\"index\":1,"));
    assert!(response.report.contains("\"previous_hash\":\"0\""));
    assert!(response.report.contains("\"sender\":\"Blockchain\""));
}

#[test]
fn mine_pass_drives_shared_state() {
    let mut blockchain = Blockchain::new();
    let mut pool = MutexTransactionList::new();
    pool.add_transaction_from_data("sender1", "receiver1", 5_670_000).unwrap();

    // Bootstrap pass: the pending submission stays queued.
    mine_pass(&mut blockchain, &mut pool).unwrap();
    assert_eq!(blockchain.chain.len(), 1);
    assert_eq!(pool.get_count(), 1);

    // Second pass: the submission is sealed into block 2 and the pool drains.
    let proof = mine_pass(&mut blockchain, &mut pool).unwrap();
    assert_eq!(blockchain.chain.len(), 2);
    assert_eq!(blockchain.chain[1].proof, proof);
    assert_eq!(pool.get_count(), 0);
    assert!(blockchain.validate_chain());
}

#[test]
fn worker_with_data_and_set_data() {
    let mut blockchain = Blockchain::new();
    let mut pool = MutexTransactionList::new();
    pool.add_transaction_from_data("sender1", "receiver1", 5_670_000).unwrap();
    mine_pass(&mut blockchain, &mut pool).unwrap();

    let worker = MiningWorker::with_data(blockchain, pool);
    assert_eq!(worker.get_block_count(), 1);
    assert_eq!(worker.get_transaction_count(), 1);

    let mut worker = worker;
    worker.set_data(Blockchain::new(), MutexTransactionList::new());
    assert_eq!(worker.get_block_count(), 0);
    assert_eq!(worker.get_transaction_count(), 0);
}
