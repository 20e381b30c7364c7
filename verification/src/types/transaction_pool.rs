//! The pool of transactions that wait to be mined.

use vstd::prelude::*;

use crate::types::transaction::transaction_views;
use crate::types::transaction::Transaction;
use crate::types::transaction::TransactionView;

verus! {

pub type TransactionVec = Vec<Transaction>;

/// The pending transactions once `transaction` has been added: it comes
/// last, whatever the pool holds already.
pub open spec fn after_add(
    pending: Seq<TransactionView>,
    transaction: TransactionView,
) -> Seq<TransactionView> {
    pending.push(transaction)
}

/// The pending transactions once each of `added` has been added in turn.
pub open spec fn after_adds(
    pending: Seq<TransactionView>,
    added: Seq<TransactionView>,
) -> Seq<TransactionView>
    decreases added.len(),
{
    if added.len() == 0 {
        pending
    } else {
        after_add(after_adds(pending, added.drop_last()), added.last())
    }
}

/// The batch that a drain hands out: all that is pending, in arrival order.
pub open spec fn drained(pending: Seq<TransactionView>) -> Seq<TransactionView> {
    pending
}

/// The pending transactions after a drain: none.
pub open spec fn after_drain(pending: Seq<TransactionView>) -> Seq<TransactionView> {
    Seq::empty()
}

/// Transactions in the order in which they arrived, until a drain takes them
/// all. The pool has no limit and keeps duplicates.
#[derive(Debug)]
pub struct TransactionPool {
    transactions: TransactionVec,
}

impl View for TransactionPool {
    type V = Seq<TransactionView>;

    closed spec fn view(&self) -> Seq<TransactionView> {
        transaction_views(self.transactions@)
    }
}

impl TransactionPool {
    /// An empty pool.
    pub fn new() -> (pool: TransactionPool)
        ensures
            pool@ == Seq::<TransactionView>::empty(),
    {
        TransactionPool { transactions: Vec::new() }
    }

    /// Adds `transaction` behind those already pending.
    pub fn add_transaction(&mut self, transaction: Transaction)
        ensures
            final(self)@ == after_add(old(self)@, transaction@),
    {
        self.transactions.push(transaction);
        assert(transaction_views(self.transactions@) =~= after_add(old(self)@, transaction@));
    }

    /// Takes every pending transaction out of the pool, in arrival order, and
    /// leaves the pool empty.
    pub fn pop(&mut self) -> (batch: TransactionVec)
        ensures
            transaction_views(batch@) == drained(old(self)@),
            batch@.len() == old(self)@.len(),
            forall|i: int| 0 <= i < batch@.len() ==> (#[trigger] batch@[i])@ == old(self)@[i],
            final(self)@ == after_drain(old(self)@),
    {
        let mut batch: TransactionVec = Vec::new();
        std::mem::swap(&mut batch, &mut self.transactions);
        assert(transaction_views(self.transactions@) =~= Seq::<TransactionView>::empty());
        batch
    }
}

/// Of two drains with no add between them, the second hands out nothing; and
/// the first hands out something where anything was pending.
pub proof fn lemma_second_drain_is_empty(pending: Seq<TransactionView>)
    ensures
        drained(after_drain(pending)).len() == 0,
        pending.len() > 0 ==> drained(pending).len() > 0,
{
}

/// Adding transactions one after another puts them behind what was pending,
/// in the order of the adds.
pub proof fn lemma_adds_append(pending: Seq<TransactionView>, added: Seq<TransactionView>)
    ensures
        after_adds(pending, added) == pending + added,
    decreases added.len(),
{
    if added.len() == 0 {
        assert(pending + added =~= pending);
    } else {
        lemma_adds_append(pending, added.drop_last());
        assert(pending + added =~= (pending + added.drop_last()).push(added.last()));
    }
}

/// A drain that follows adds to an empty pool hands out exactly the added
/// transactions: as many as there were adds, none lost, none twice.
pub proof fn lemma_drain_returns_all_added(added: Seq<TransactionView>)
    ensures
        drained(after_adds(Seq::empty(), added)) == added,
        drained(after_adds(Seq::empty(), added)).len() == added.len(),
{
    lemma_adds_append(Seq::empty(), added);
    assert(Seq::<TransactionView>::empty() + added =~= added);
}

} // verus!
