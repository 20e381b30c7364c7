//! Blocks, their JSON text and their digest.

use vstd::prelude::*;
use vstd::std_specs::iter::IteratorSpec;
use vstd::string::StringExecFns;

use crate::clock::now_millis;
use crate::digest::digest_text;
use crate::digest::text_digest;
use crate::json::array_frame;
use crate::json::frame_array;
use crate::json::json_string;
use crate::json::quote;
use crate::json::texts_of;
use crate::text::decimal;
use crate::text::push_decimal;
use crate::text::push_signed_decimal;
use crate::text::signed_decimal;
use crate::types::transaction::clone_transactions;
use crate::types::transaction::transaction_views;
use crate::types::transaction::transactions_json;
use crate::types::transaction::Transaction;
use crate::types::transaction::TransactionView;

verus! {

/// The digest of a block, in lower-case hexadecimal.
pub type BlockHash = String;

/// One record of the ledger. `hash` is meant to be the digest of the other
/// fields, and `previous_hash` the `hash` of the block before; only the
/// first block of a chain has no `previous_hash`.
#[derive(Debug)]
pub struct Block {
    pub index: u64,
    pub timestamp: i64,
    pub nonce: u64,
    pub previous_hash: Option<BlockHash>,
    pub hash: BlockHash,
    pub transactions: Vec<Transaction>,
}

/// What a block says.
pub struct BlockView {
    pub index: u64,
    pub timestamp: i64,
    pub nonce: u64,
    pub previous_hash: Option<Seq<char>>,
    pub hash: Seq<char>,
    pub transactions: Seq<TransactionView>,
}

/// The characters of an optional string.
pub open spec fn optional_text(text: Option<String>) -> Option<Seq<char>> {
    match text {
        Some(s) => Some(s@),
        None => None,
    }
}

impl View for Block {
    type V = BlockView;

    open spec fn view(&self) -> BlockView {
        BlockView {
            index: self.index,
            timestamp: self.timestamp,
            nonce: self.nonce,
            previous_hash: optional_text(self.previous_hash),
            hash: self.hash@,
            transactions: transaction_views(self.transactions@),
        }
    }
}

/// The views of the blocks of `blocks`, in order.
pub open spec fn block_views(blocks: Seq<Block>) -> Seq<BlockView> {
    blocks.map_values(|b: Block| b@)
}

/// The JSON object of a block. `previous_hash` and `hash` are JSON strings
/// already, and `transactions` the JSON texts of the block's transactions; a
/// block without `previous_hash` has `null` there.
pub open spec fn block_frame(
    index: u64,
    timestamp: i64,
    nonce: u64,
    previous_hash: Option<Seq<char>>,
    hash: Seq<char>,
    transactions: Seq<Seq<char>>,
) -> Seq<char> {
    "{\"index\":"@ + decimal(index as nat) + ",\"timestamp\":"@ + signed_decimal(timestamp as int)
        + ",\"nonce\":"@ + decimal(nonce as nat) + ",\"previous_hash\":"@ + (match previous_hash {
        Some(text) => text,
        None => "null"@,
    }) + ",\"hash\":"@ + hash + ",\"transactions\":"@ + array_frame(transactions) + "}"@
}

/// The JSON string of an optional text.
pub open spec fn optional_json_string(text: Option<Seq<char>>) -> Option<Seq<char>> {
    match text {
        Some(s) => Some(json_string(s)),
        None => None,
    }
}

/// The JSON text of a block: its fields in the order index, timestamp,
/// nonce, previous_hash, hash, transactions, without white space.
pub open spec fn block_json(b: BlockView) -> Seq<char> {
    block_frame(
        b.index,
        b.timestamp,
        b.nonce,
        optional_json_string(b.previous_hash),
        json_string(b.hash),
        transactions_json(b.transactions),
    )
}

/// The block `b` with `hash` in place of its hash.
pub open spec fn with_hash(b: BlockView, hash: Seq<char>) -> BlockView {
    BlockView {
        index: b.index,
        timestamp: b.timestamp,
        nonce: b.nonce,
        previous_hash: b.previous_hash,
        hash,
        transactions: b.transactions,
    }
}

/// The digest of a block: the digest of its JSON text with the hash blanked.
pub open spec fn block_digest(b: BlockView) -> Seq<char> {
    text_digest(block_json(with_hash(b, Seq::empty())))
}

/// Whether the hash that `b` carries is its digest.
pub open spec fn is_sealed(b: BlockView) -> bool {
    b.hash == block_digest(b)
}

/// The block made of these fields whose hash is its digest.
pub open spec fn sealed_block(
    index: u64,
    timestamp: i64,
    nonce: u64,
    previous_hash: Option<Seq<char>>,
    transactions: Seq<TransactionView>,
) -> BlockView {
    let draft = BlockView {
        index,
        timestamp,
        nonce,
        previous_hash,
        hash: Seq::empty(),
        transactions,
    };
    with_hash(draft, block_digest(draft))
}

/// Whether `text` begins with at least `count` characters `0`.
pub open spec fn has_leading_zeros(text: Seq<char>, count: nat) -> bool {
    &&& count <= text.len()
    &&& forall|i: int| 0 <= i < count ==> text[i] == '0'
}

/// The digest of a block does not depend on the hash it carries.
pub proof fn lemma_digest_ignores_hash(b: BlockView, hash: Seq<char>)
    ensures
        block_digest(with_hash(b, hash)) == block_digest(b),
{
    assert(with_hash(with_hash(b, hash), Seq::empty()) == with_hash(b, Seq::empty()));
}

/// A block built by `sealed_block` carries its own digest.
pub proof fn lemma_sealed_block_is_sealed(
    index: u64,
    timestamp: i64,
    nonce: u64,
    previous_hash: Option<Seq<char>>,
    transactions: Seq<TransactionView>,
)
    ensures
        is_sealed(sealed_block(index, timestamp, nonce, previous_hash, transactions)),
{
    let draft = BlockView {
        index,
        timestamp,
        nonce,
        previous_hash,
        hash: Seq::empty(),
        transactions,
    };
    lemma_digest_ignores_hash(draft, block_digest(draft));
}

/// The text that the standard `Debug` formatting writes for a block.
pub uninterp spec fn block_debug_text(b: BlockView) -> Seq<char>;

/// The standard library's `format!` with `{:?}` on a block. The contract
/// names the text it returns `block_debug_text`; it claims that blocks that
/// say the same give the same text.
#[verifier::external_body]
pub(crate) fn debug_text(block: &Block) -> (text: String)
    ensures
        text@ == block_debug_text(block@),
{
    format!("{:?}", block)
}

/// Writes the JSON object of a block from its numbers, the JSON strings of
/// its two hashes and the JSON texts of its transactions.
pub fn frame_block(
    index: u64,
    timestamp: i64,
    nonce: u64,
    previous_hash: Option<&str>,
    hash: &str,
    transactions: &Vec<String>,
) -> (text: String)
    ensures
        text@ == block_frame(
            index,
            timestamp,
            nonce,
            match previous_hash {
                Some(s) => Some(s@),
                None => None,
            },
            hash@,
            texts_of(transactions@),
        ),
{
    let mut text = String::new();
    text.append("{\"index\":");
    push_decimal(&mut text, index);
    text.append(",\"timestamp\":");
    push_signed_decimal(&mut text, timestamp);
    text.append(",\"nonce\":");
    push_decimal(&mut text, nonce);
    text.append(",\"previous_hash\":");
    match previous_hash {
        Some(s) => text.append(s),
        None => text.append("null"),
    }
    text.append(",\"hash\":");
    text.append(hash);
    text.append(",\"transactions\":");
    let array = frame_array(transactions);
    text.append(array.as_str());
    text.append("}");
    text
}

/// Whether `hash` begins with at least `difficulty` characters `0`.
pub fn meets_difficulty(hash: &str, difficulty: u32) -> (met: bool)
    ensures
        met == has_leading_zeros(hash@, difficulty as nat),
{
    let mut rest = hash.chars();
    let mut seen: u32 = 0;
    while seen < difficulty
        invariant
            seen <= difficulty,
            seen <= hash@.len(),
            rest.remaining() == hash@.skip(seen as int),
            forall|j: int| 0 <= j < seen ==> hash@[j] == '0',
        decreases difficulty - seen,
    {
        match rest.next() {
            Some(c) => {
                assert(c == hash@[seen as int]);
                if c != '0' {
                    return false;
                }
            },
            None => {
                return false;
            },
        }
        assert(hash@.skip(seen as int).drop_first() == hash@.skip(seen + 1));
        seen += 1;
    }
    true
}

impl Clone for Block {
    fn clone(&self) -> (copy: Self)
        ensures
            copy@ == self@,
    {
        let transactions = clone_transactions(&self.transactions);
        Block {
            index: self.index,
            timestamp: self.timestamp,
            nonce: self.nonce,
            previous_hash: self.previous_hash.clone(),
            hash: self.hash.clone(),
            transactions,
        }
    }
}

impl Block {
    /// The JSON text of this block with `hash` in place of its hash.
    fn json_with_hash(&self, hash: &str) -> (text: String)
        ensures
            text@ == block_json(with_hash(self@, hash@)),
    {
        let previous = match &self.previous_hash {
            Some(s) => Some(quote(s.as_str())),
            None => None,
        };
        let quoted_hash = quote(hash);
        let mut items: Vec<String> = Vec::new();
        let mut i: usize = 0;
        while i < self.transactions.len()
            invariant
                i <= self.transactions.len(),
                items@.len() == i,
                forall|j: int|
                    0 <= j < i ==> (#[trigger] items@[j])@ == transactions_json(
                        transaction_views(self.transactions@),
                    )[j],
            decreases self.transactions.len() - i,
        {
            items.push(self.transactions[i].to_json());
            i += 1;
        }
        assert(texts_of(items@) =~= transactions_json(transaction_views(self.transactions@)));
        frame_block(
            self.index,
            self.timestamp,
            self.nonce,
            match &previous {
                Some(s) => Some(s.as_str()),
                None => None,
            },
            quoted_hash.as_str(),
            &items,
        )
    }

    /// The JSON text of this block.
    pub fn to_json(&self) -> (text: String)
        ensures
            text@ == block_json(self@),
    {
        assert(with_hash(self@, self.hash@) == self@);
        self.json_with_hash(self.hash.as_str())
    }

    /// The digest of this block: the SHA-256 digest, in lower-case
    /// hexadecimal, of its JSON text with the hash blanked. It has 64
    /// characters.
    pub fn calculate_hash(&self) -> (hash: BlockHash)
        ensures
            hash@ == block_digest(self@),
            hash@.len() == 64,
    {
        let text = self.json_with_hash("");
        proof {
            reveal_strlit("");
            assert(""@ =~= Seq::<char>::empty());
        }
        digest_text(text.as_str())
    }

    /// The block made of these fields, with its digest as its hash.
    pub fn with_timestamp(
        index: u64,
        timestamp: i64,
        nonce: u64,
        previous_hash: Option<BlockHash>,
        transactions: Vec<Transaction>,
    ) -> (block: Block)
        ensures
            block@ == sealed_block(
                index,
                timestamp,
                nonce,
                optional_text(previous_hash),
                transaction_views(transactions@),
            ),
            block@.hash.len() == 64,
    {
        let mut block = Block {
            index,
            timestamp,
            nonce,
            previous_hash,
            hash: String::new(),
            transactions,
        };
        let hash = block.calculate_hash();
        block.hash = hash;
        block
    }

    /// A new block stamped with the current time, with its digest as its
    /// hash.
    pub fn new(
        index: u64,
        nonce: u64,
        previous_hash: Option<BlockHash>,
        transactions: Vec<Transaction>,
    ) -> (block: Block)
        ensures
            block@ == sealed_block(
                index,
                block.timestamp,
                nonce,
                optional_text(previous_hash),
                transaction_views(transactions@),
            ),
            block@.hash.len() == 64,
    {
        Block::with_timestamp(index, now_millis(), nonce, previous_hash, transactions)
    }
}

} // verus!
