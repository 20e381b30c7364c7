use std::sync::Arc;
use std::sync::Mutex;

use blockchain::types::transaction::Transaction;
use blockchain::types::transaction_pool::TransactionPool;

fn create_mock_transaction(amount: u64) -> Transaction {
    Transaction {
        sender: "alice.near".to_string(),
        recipient: "bob.near".to_string(),
        amount,
    }
}

#[test]
fn transaction_pool_should_be_empty() {
    let mut transaction_pool = TransactionPool::new();

    let transactions = transaction_pool.pop();
    assert!(transactions.is_empty());
}

#[test]
fn transaction_pool_contains_one_transaction() {
    let mut transaction_pool = TransactionPool::new();

    // add a new transaction to the pool
    let transaction = create_mock_transaction(1);
    transaction_pool.add_transaction(transaction.clone());

    // pop the values and check that the transaction is included
    let transactions = transaction_pool.pop();
    assert_eq!(transactions.len(), 1);
    assert_eq!(transactions[0].amount, transaction.amount);
}

#[test]
fn transaction_pool_contains_several_transaction() {
    let mut transaction_pool = TransactionPool::new();

    // add a new transaction to the pool
    let transaction_a = create_mock_transaction(10);
    let transaction_b = create_mock_transaction(12);
    transaction_pool.add_transaction(transaction_a.clone());
    transaction_pool.add_transaction(transaction_b.clone());

    // pop the values and check that the transactions are included
    let transactions = transaction_pool.pop();
    assert_eq!(transactions.len(), 2);
    assert_eq!(transactions[0].amount, transaction_a.amount);
    assert_eq!(transactions[1].amount, transaction_b.amount);
}

#[test]
fn second_drain_is_empty() {
    let mut pool = TransactionPool::new();
    pool.add_transaction(create_mock_transaction(7));

    let first = pool.pop();
    let second = pool.pop();

    assert_eq!(first.len(), 1);
    assert!(second.is_empty());
}

#[test]
fn pool_keeps_arrival_order_and_duplicates() {
    let mut pool = TransactionPool::new();
    pool.add_transaction(create_mock_transaction(3));
    pool.add_transaction(create_mock_transaction(1));
    pool.add_transaction(create_mock_transaction(3));

    let drained = pool.pop();

    let amounts: Vec<u64> = drained.iter().map(|t| t.amount).collect();
    assert_eq!(amounts, vec![3u64, 1u64, 3u64]);
    assert_eq!(drained[0].sender, "alice.near");
    assert_eq!(drained[0].recipient, "bob.near");
}

#[test]
fn add_after_drain_starts_a_new_batch() {
    let mut pool = TransactionPool::new();
    pool.add_transaction(create_mock_transaction(1));
    let first = pool.pop();
    pool.add_transaction(create_mock_transaction(2));
    let second = pool.pop();

    assert_eq!(first.len(), 1);
    assert_eq!(second.len(), 1);
    assert_eq!(second[0].amount, 2);
}

#[test]
fn concurrent_adds_are_all_drained_once() {
    let count: u64 = 16;
    let pool = Arc::new(Mutex::new(TransactionPool::new()));

    crossbeam::thread::scope(|scope| {
        for amount in 0..count {
            let pool = Arc::clone(&pool);
            scope.spawn(move |_| {
                pool.lock().unwrap().add_transaction(create_mock_transaction(amount));
            });
        }
    })
    .unwrap();

    let drained = pool.lock().unwrap().pop();
    let mut amounts: Vec<u64> = drained.iter().map(|t| t.amount).collect();
    amounts.sort();
    let expected: Vec<u64> = (0..count).collect();
    assert_eq!(amounts, expected);
    assert!(pool.lock().unwrap().pop().is_empty());
}
