//! Transactions and their JSON text.

use vstd::prelude::*;
use vstd::string::StringExecFns;

use crate::json::json_string;
use crate::json::quote;
use crate::text::decimal;
use crate::text::push_decimal;

verus! {

/// A transfer of `amount` from `sender` to `recipient`. Nothing here checks
/// balances or signatures.
#[derive(Debug)]
pub struct Transaction {
    pub sender: String,
    pub recipient: String,
    pub amount: u64,
}

/// What a transaction says: its two parties and its amount.
pub struct TransactionView {
    pub sender: Seq<char>,
    pub recipient: Seq<char>,
    pub amount: u64,
}

impl View for Transaction {
    type V = TransactionView;

    open spec fn view(&self) -> TransactionView {
        TransactionView { sender: self.sender@, recipient: self.recipient@, amount: self.amount }
    }
}

impl Clone for Transaction {
    fn clone(&self) -> (copy: Self)
        ensures
            copy@ == self@,
    {
        Transaction {
            sender: self.sender.clone(),
            recipient: self.recipient.clone(),
            amount: self.amount,
        }
    }
}

/// The views of the transactions of `transactions`, in order.
pub open spec fn transaction_views(transactions: Seq<Transaction>) -> Seq<TransactionView> {
    transactions.map_values(|t: Transaction| t@)
}

/// A copy of `transactions` that says the same.
pub fn clone_transactions(transactions: &Vec<Transaction>) -> (copy: Vec<Transaction>)
    ensures
        transaction_views(copy@) == transaction_views(transactions@),
        copy@.len() == transactions@.len(),
{
    let copy = transactions.clone();
    proof {
        assert forall|i: int| 0 <= i < copy@.len() implies copy@[i]@ == transactions@[i]@ by {
            assert(cloned(transactions@[i], copy@[i]));
        }
        assert(transaction_views(copy@) =~= transaction_views(transactions@));
    }
    copy
}

/// The JSON object of a transaction whose parties are already written as
/// JSON strings.
pub open spec fn transaction_frame(sender: Seq<char>, recipient: Seq<char>, amount: u64) -> Seq<
    char,
> {
    "{\"sender\":"@ + sender + ",\"recipient\":"@ + recipient + ",\"amount\":"@ + decimal(
        amount as nat,
    ) + "}"@
}

/// The JSON text of a transaction.
pub open spec fn transaction_json(t: TransactionView) -> Seq<char> {
    transaction_frame(json_string(t.sender), json_string(t.recipient), t.amount)
}

/// The JSON texts of `transactions`, in order.
pub open spec fn transactions_json(transactions: Seq<TransactionView>) -> Seq<Seq<char>> {
    transactions.map_values(|t: TransactionView| transaction_json(t))
}

/// Writes the JSON object of a transaction from the JSON strings of its
/// parties and its amount.
pub fn frame_transaction(sender: &str, recipient: &str, amount: u64) -> (text: String)
    ensures
        text@ == transaction_frame(sender@, recipient@, amount),
{
    let mut text = String::new();
    text.append("{\"sender\":");
    text.append(sender);
    text.append(",\"recipient\":");
    text.append(recipient);
    text.append(",\"amount\":");
    push_decimal(&mut text, amount);
    text.append("}");
    text
}

impl Transaction {
    /// The JSON text of this transaction.
    pub fn to_json(&self) -> (text: String)
        ensures
            text@ == transaction_json(self@),
    {
        let sender = quote(self.sender.as_str());
        let recipient = quote(self.recipient.as_str());
        frame_transaction(sender.as_str(), recipient.as_str(), self.amount)
    }
}

} // verus!
