//! Tests for transactions, the pending pool, and the submission envelopes.

use blockchain_api::model::transaction::{MutexTransactionList, Transaction};
use blockchain_api::{home_page_data, transaction_created_data, transaction_failed_data};

#[test]
fn transaction_list_from_vec() {
    let mut transactions = Vec::<Transaction>::with_capacity(3);

    transactions.push(Transaction {
        sender: "sender1".to_owned(),
        receiver: "receiver1".to_owned(),
        amount: 5_670_000,
    });
    transactions.push(Transaction {
        sender: "sender2".to_owned(),
        receiver: "receiver2".to_owned(),
        amount: 7_891_070,
    });
    transactions.push(Transaction {
        sender: "sender3".to_owned(),
        receiver: "receiver3".to_owned(),
        amount: 9_101_113,
    });

    let transaction_count = transactions.len();

    assert_eq!(transaction_count, 3);

    let transaction_mutex = MutexTransactionList::from_vec(transactions);

    let transaction_count = transaction_mutex.get_count();

    assert_eq!(transaction_count, 3);
}

#[test]
fn add_transaction_from_data() {
    let mut transaction_mutex = MutexTransactionList::new();

    let transaction_count = transaction_mutex.get_count();

    assert_eq!(transaction_count, 0);

    let result = transaction_mutex.add_transaction_from_data("sender1", "receiver1", 5_670_000);

    assert_eq!(result.err(), None);

    let result = transaction_mutex.add_transaction_from_data("sender2", "receiver2", 7_891_070);

    assert_eq!(result.err(), None);

    let result = transaction_mutex.add_transaction_from_data("sender3", "receiver3", 9_101_113);

    assert_eq!(result.err(), None);

    let transaction_count = transaction_mutex.get_count();

    assert_eq!(transaction_count, 3);

    let transactions = transaction_mutex.into_vec();

    assert_eq!(transactions.len(), 3);

    let transaction_count = transaction_mutex.get_count();

    assert_eq!(transaction_count, 0);
}

#[test]
fn add_transaction_as_structure() {
    let mut transaction_mutex = MutexTransactionList::new();

    let result = transaction_mutex.add_transaction(Transaction {
        sender: "sender1".to_owned(),
        receiver: "receiver1".to_owned(),
        amount: 5_670_000,
    });

    assert_eq!(result.err(), None);

    let result = transaction_mutex.add_transaction(Transaction {
        sender: "sender2".to_owned(),
        receiver: "receiver2".to_owned(),
        amount: 7_891_070,
    });

    assert_eq!(result.err(), None);

    let result = transaction_mutex.add_transaction(Transaction {
        sender: "sender3".to_owned(),
        receiver: "receiver3".to_owned(),
        amount: 9_101_113,
    });

    assert_eq!(result.err(), None);

    let transaction_count = transaction_mutex.get_count();

    assert_eq!(transaction_count, 3);
}

#[test]
fn transaction_validity_edges() {
    let ok = Transaction::from_data("a".to_owned(), "b".to_owned(), 1);
    assert!(ok.is_valid());

    let no_sender = Transaction::from_data(String::new(), "b".to_owned(), 1);
    assert!(!no_sender.is_valid());

    let no_receiver = Transaction::from_data("a".to_owned(), String::new(), 1);
    assert!(!no_receiver.is_valid());

    let zero_amount = Transaction::from_data("a".to_owned(), "b".to_owned(), 0);
    assert!(!zero_amount.is_valid());

    let negative = Transaction::from_data("a".to_owned(), "b".to_owned(), -5);
    assert!(negative.is_valid());
}

#[test]
fn submit_then_drain_returns_in_order() {
    let mut pool = MutexTransactionList::new();

    pool.add_transaction_from_data("first", "x", 1_000_000).unwrap();
    pool.add_transaction_from_data("second", "y", 2_000_000).unwrap();
    pool.add_transaction_from_data("third", "z", 3_000_000).unwrap();

    let drained = pool.into_vec();

    assert_eq!(drained.len(), 3);
    assert_eq!(drained[0].sender, "first");
    assert_eq!(drained[1].sender, "second");
    assert_eq!(drained[2].sender, "third");
    let firsts = drained.iter().filter(|t| t.sender == "first").count();
    assert_eq!(firsts, 1);
}

#[test]
fn invalid_submission_rejected_pool_unchanged() {
    let mut pool = MutexTransactionList::new();

    let result = pool.add_transaction_from_data("", "x", 1_000_000);
    assert!(result.is_err());
    let e = result.err().unwrap();
    assert_eq!(e.status(), "invalid");
    assert_eq!(e.report(), "Transaction List: Transaction is invalid");
    assert_eq!(pool.get_count(), 0);

    let result = pool.add_transaction_from_data("x", "", 1_000_000);
    assert!(result.is_err());
    assert_eq!(pool.get_count(), 0);

    let result = pool.add_transaction_from_data("x", "y", 0);
    assert!(result.is_err());
    assert_eq!(pool.get_count(), 0);
}

#[test]
fn drain_is_atomic_and_exclusive() {
    let mut pool = MutexTransactionList::new();

    pool.add_transaction_from_data("a", "b", 1_000_000).unwrap();
    pool.add_transaction_from_data("c", "d", 2_000_000).unwrap();

    let first_drain = pool.into_vec();
    assert_eq!(first_drain.len(), 2);

    let second_drain = pool.into_vec();
    assert_eq!(second_drain.len(), 0);

    pool.add_transaction_from_data("e", "f", 3_000_000).unwrap();
    let third_drain = pool.into_vec();
    assert_eq!(third_drain.len(), 1);
    assert_eq!(third_drain[0].sender, "e");
}

#[test]
fn count_does_not_mutate() {
    let mut pool = MutexTransactionList::new();
    pool.add_transaction_from_data("a", "b", 1_000_000).unwrap();
    pool.add_transaction_from_data("c", "d", 2_000_000).unwrap();

    assert_eq!(pool.get_count(), 2);
    assert_eq!(pool.get_count(), 2);

    let drained = pool.into_vec();
    assert_eq!(drained.len(), 2);
}

#[test]
fn response_envelopes() {
    let home = home_page_data();
    assert_eq!(home.title, "Actix Blockchain API");
    assert_eq!(home.statuscode, 200);
    assert_eq!(home.page, "Home");
    assert_eq!(
        home.description,
        "Blockchain Exercise to simulate the workflow of a crypto-currency"
    );

    let created = transaction_created_data();
    assert_eq!(created.statuscode, 201);
    assert_eq!(created.title, "Actix Blockchain API - Success");
    assert_eq!(created.page, "Add Transaction");
    assert_eq!(created.description, "Transactions: Transaction is queued for next block");

    let mut pool = MutexTransactionList::new();
    let e = pool.add_transaction_from_data("", "x", 1).err().unwrap();
    let failed = transaction_failed_data(&e);
    assert_eq!(failed.statuscode, 500);
    assert_eq!(failed.title, "Actix Blockchain API - Error");
    assert_eq!(
        failed.description,
        "Transactions: Transaction could not be added! Message: Transaction List: Transaction is invalid"
    );
}
