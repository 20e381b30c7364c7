//! The worker that mines pending transactions into new blocks.
//!
//! The pool and the chain are shared with other threads, and the worker
//! sleeps while the pool is empty, so the loop itself runs outside this
//! module. What is decided here: `Miner::step` says, for each event that the
//! loop reports, what the loop does next; `Miner::mine_block` searches the
//! nonce.

use vstd::prelude::*;
use vstd::string::StringExecFns;

use crate::text::decimal;
use crate::text::push_decimal;
use crate::types::block::has_leading_zeros;
use crate::types::block::lemma_sealed_block_is_sealed;
use crate::types::block::meets_difficulty;
use crate::types::block::is_sealed;
use crate::types::block::sealed_block;
use crate::types::block::Block;
use crate::types::block::BlockView;
use crate::types::blockchain::follows;
use crate::types::blockchain::ChainError;
use crate::types::transaction::clone_transactions;
use crate::types::transaction::transaction_views;
use crate::types::transaction::TransactionView;
use crate::types::transaction_pool::TransactionVec;
use crate::util::context::Context;

verus! {

/// Why the worker gave up.
#[derive(Debug, Clone, Copy, PartialEq, Eq, Structural)]
pub enum MinerError {
    /// No nonce in the range gave the block at this index a hash that meets
    /// the target.
    BlockNotMined(u64),
}

impl MinerError {
    /// The error in words.
    pub fn message(&self) -> (text: String)
        ensures
            text@ == (match *self {
                MinerError::BlockNotMined(index) => "No valid block was mined at index `"@
                    + decimal(index as nat) + "`"@,
            }),
    {
        match self {
            MinerError::BlockNotMined(index) => {
                let mut text = String::new();
                text.append("No valid block was mined at index `");
                push_decimal(&mut text, *index);
                text.append("`");
                text
            },
        }
    }
}

/// The limits that a miner works under.
pub struct MinerLimits {
    /// The number of blocks after which the miner stops; zero for no limit.
    pub max_blocks: u64,
    /// The number of nonces tried for one block.
    pub max_nonce: u64,
    /// The pause, in milliseconds, after the pool was found empty.
    pub tx_waiting_ms: u64,
    /// The number of leading zeros asked of a mined block's hash.
    pub target: u32,
}

/// What the worker's loop reports.
#[derive(Debug)]
pub enum MinerEvent {
    /// The worker starts, or a pause has passed.
    Tick,
    /// The pool was drained and handed out this batch.
    Drained(TransactionVec),
    /// The nonce search behind `last_block` has ended, with a block or
    /// without.
    Mined { last_block: Block, outcome: Option<Block> },
    /// The chain has answered the append of the mined block.
    Appended(Result<(), ChainError>),
}

/// What the worker's loop does next.
#[derive(Debug)]
pub enum MinerAction {
    /// End the run: the block limit is reached.
    Stop,
    /// Drain the pool, and report `Drained` with the batch.
    DrainPool,
    /// Pause for this many milliseconds, and report `Tick`.
    Sleep(u64),
    /// Read the chain's last block, search a nonce for a block that follows
    /// it with these transactions, and report `Mined`.
    Mine(TransactionVec),
    /// Append this block to the chain, and report `Appended` with the
    /// chain's answer.
    Append(Block),
    /// End the run with this error: the nonce range is exhausted. The batch
    /// is lost.
    Fail(MinerError),
    /// End the run: the chain refused the worker's own block.
    Escalate(ChainError),
}

/// Whether a miner under `limits` that has mined `blocks_mined` blocks has
/// reached its block limit. A limit of zero is never reached.
pub open spec fn limit_reached(limits: MinerLimits, blocks_mined: u64) -> bool {
    limits.max_blocks > 0 && blocks_mined >= limits.max_blocks
}

/// How a round begins: with the end of the run where the block limit is
/// reached, else with a drain of the pool.
pub open spec fn round_start(limits: MinerLimits, blocks_mined: u64) -> MinerAction {
    if limit_reached(limits, blocks_mined) {
        MinerAction::Stop
    } else {
        MinerAction::DrainPool
    }
}

/// The count of mined blocks after one more; it stays at the largest number
/// that the counter holds.
pub open spec fn one_more(blocks_mined: u64) -> u64 {
    if blocks_mined < u64::MAX {
        (blocks_mined + 1) as u64
    } else {
        blocks_mined
    }
}

/// The worker's rule: the count of mined blocks and the next action, from
/// the count so far and the event reported.
pub open spec fn transition(limits: MinerLimits, blocks_mined: u64, event: MinerEvent) -> (
    u64,
    MinerAction,
) {
    match event {
        MinerEvent::Tick => (blocks_mined, round_start(limits, blocks_mined)),
        MinerEvent::Drained(batch) => if batch@.len() == 0 {
            (blocks_mined, MinerAction::Sleep(limits.tx_waiting_ms))
        } else {
            (blocks_mined, MinerAction::Mine(batch))
        },
        MinerEvent::Mined { last_block, outcome } => match outcome {
            Some(block) => (blocks_mined, MinerAction::Append(block)),
            None => (
                blocks_mined,
                MinerAction::Fail(MinerError::BlockNotMined((last_block.index + 1) as u64)),
            ),
        },
        MinerEvent::Appended(result) => match result {
            Ok(_) => (one_more(blocks_mined), round_start(limits, one_more(blocks_mined))),
            Err(error) => (blocks_mined, MinerAction::Escalate(error)),
        },
    }
}

/// The candidate behind `last` that holds `transactions` and is made with
/// `nonce` at the time `timestamp`: it continues the numbering, names the
/// hash of `last`, and carries its own digest.
pub open spec fn candidate(
    last: BlockView,
    transactions: Seq<TransactionView>,
    nonce: u64,
    timestamp: i64,
) -> BlockView {
    sealed_block((last.index + 1) as u64, timestamp, nonce, Some(last.hash), transactions)
}

/// Whether `block` is the candidate behind `last` that holds `transactions`
/// and is made with `nonce`, at the time that the block itself names.
pub open spec fn is_candidate(
    block: BlockView,
    last: BlockView,
    transactions: Seq<TransactionView>,
    nonce: u64,
) -> bool {
    block == candidate(last, transactions, nonce, block.timestamp)
}

/// Whether the candidate made with `nonce` at the time `timestamp` misses
/// the target.
pub open spec fn missed_at(
    last: BlockView,
    transactions: Seq<TransactionView>,
    nonce: u64,
    target: u32,
    timestamp: i64,
) -> bool {
    !has_leading_zeros(candidate(last, transactions, nonce, timestamp).hash, target as nat)
}

/// Whether the candidate made with `nonce` misses the target at some time.
pub open spec fn missed_once(
    last: BlockView,
    transactions: Seq<TransactionView>,
    nonce: u64,
    target: u32,
) -> bool {
    exists|timestamp: i64| missed_at(last, transactions, nonce, target, timestamp)
}

/// A candidate whose hash meets the difficulty follows the block it was
/// made behind.
pub proof fn lemma_mined_block_follows(
    block: BlockView,
    last: BlockView,
    transactions: Seq<TransactionView>,
    nonce: u64,
    difficulty: u32,
)
    requires
        last.index < u64::MAX,
        is_candidate(block, last, transactions, nonce),
        has_leading_zeros(block.hash, difficulty as nat),
    ensures
        follows(last, block, difficulty),
{
    lemma_sealed_block_is_sealed(
        (last.index + 1) as u64,
        block.timestamp,
        nonce,
        Some(last.hash),
        transactions,
    );
}

/// The worker stops only at its block limit, and only an accepted append
/// raises the count of mined blocks.
pub proof fn lemma_transition_counts(limits: MinerLimits, blocks_mined: u64, event: MinerEvent)
    ensures
        transition(limits, blocks_mined, event).1 is Stop ==> limit_reached(
            limits,
            transition(limits, blocks_mined, event).0,
        ),
        limits.max_blocks == 0 ==> !(transition(limits, blocks_mined, event).1 is Stop),
        transition(limits, blocks_mined, event).0 >= blocks_mined,
        transition(limits, blocks_mined, event).0 != blocks_mined ==> (event matches
            MinerEvent::Appended(result) && result is Ok),
{
}

/// A search that ends without a block ends the run with `BlockNotMined` for
/// the index behind the last block, and an empty batch leads to a pause
/// that does not count as a block.
pub proof fn lemma_transition_failure_and_pause(
    limits: MinerLimits,
    blocks_mined: u64,
    last_block: Block,
    batch: TransactionVec,
)
    requires
        last_block.index < u64::MAX,
    ensures
        transition(limits, blocks_mined, MinerEvent::Mined { last_block, outcome: None }) == (
            blocks_mined,
            MinerAction::Fail(MinerError::BlockNotMined((last_block.index + 1) as u64)),
        ),
        batch@.len() == 0 ==> transition(limits, blocks_mined, MinerEvent::Drained(batch)) == (
            blocks_mined,
            MinerAction::Sleep(limits.tx_waiting_ms),
        ),
{
}

/// The worker's settings.
#[derive(Debug)]
pub struct Miner {
    max_blocks: u64,
    max_nonce: u64,
    tx_waiting_ms: u64,
    target: u32,
}

impl View for Miner {
    type V = MinerLimits;

    closed spec fn view(&self) -> MinerLimits {
        MinerLimits {
            max_blocks: self.max_blocks,
            max_nonce: self.max_nonce,
            tx_waiting_ms: self.tx_waiting_ms,
            target: self.target,
        }
    }
}

impl Miner {
    /// A miner with the limits that the context's settings give.
    pub fn new(context: &Context) -> (miner: Miner)
        ensures
            miner@ == (MinerLimits {
                max_blocks: context.config.max_blocks,
                max_nonce: context.config.max_nonce,
                tx_waiting_ms: context.config.tx_waiting_ms,
                target: context.config.difficulty,
            }),
    {
        Miner {
            max_blocks: context.config.max_blocks,
            max_nonce: context.config.max_nonce,
            tx_waiting_ms: context.config.tx_waiting_ms,
            target: context.config.difficulty,
        }
    }

    /// The count of mined blocks and the next action, from the count so far
    /// and the event that the loop reports. The loop begins with count zero
    /// and the event `Tick`, and ends at `Stop`, `Fail` or `Escalate`.
    pub fn step(&self, blocks_mined: u64, event: MinerEvent) -> (next: (u64, MinerAction))
        requires
            event matches MinerEvent::Mined { last_block, outcome } ==> outcome is None
                ==> last_block.index < u64::MAX,
        ensures
            next == transition(self@, blocks_mined, event),
    {
        match event {
            MinerEvent::Tick => (blocks_mined, self.start_round(blocks_mined)),
            MinerEvent::Drained(batch) => {
                if batch.len() == 0 {
                    (blocks_mined, MinerAction::Sleep(self.tx_waiting_ms))
                } else {
                    (blocks_mined, MinerAction::Mine(batch))
                }
            },
            MinerEvent::Mined { last_block, outcome } => match outcome {
                Some(block) => (blocks_mined, MinerAction::Append(block)),
                None => (
                    blocks_mined,
                    MinerAction::Fail(MinerError::BlockNotMined(last_block.index + 1)),
                ),
            },
            MinerEvent::Appended(result) => match result {
                Ok(_) => {
                    let count: u64 = if blocks_mined < u64::MAX {
                        blocks_mined + 1
                    } else {
                        blocks_mined
                    };
                    (count, self.start_round(count))
                },
                Err(error) => (blocks_mined, MinerAction::Escalate(error)),
            },
        }
    }

    fn start_round(&self, blocks_mined: u64) -> (action: MinerAction)
        ensures
            action == round_start(self@, blocks_mined),
    {
        if self.must_stop_mining(blocks_mined) {
            MinerAction::Stop
        } else {
            MinerAction::DrainPool
        }
    }

    /// Whether the block limit is reached, where one is set.
    pub fn must_stop_mining(&self, block_counter: u64) -> (stop: bool)
        ensures
            stop == limit_reached(self@, block_counter),
    {
        self.max_blocks > 0 && block_counter >= self.max_blocks
    }

    /// Whether the hash of `block` meets this miner's target.
    pub fn accepts(&self, block: &Block) -> (accepted: bool)
        ensures
            accepted == has_leading_zeros(block@.hash, self@.target as nat),
    {
        meets_difficulty(block.hash.as_str(), self.target)
    }

    /// Searches the nonces from zero up to `max_nonce` for one with which
    /// the block behind `last_block` meets the target, with a fresh
    /// timestamp for each try, and returns the first block that does.
    ///
    /// A block that comes back follows `last_block`, and every nonce below
    /// its own was tried and missed the target at the time of its try. None
    /// comes back only after every nonce of the range was tried and missed.
    /// So none comes back where the range is empty or the target asks for
    /// more zeros than a hash has characters, and one always comes back,
    /// with nonce zero, where the target is zero and the range is not empty.
    pub fn mine_block(&self, last_block: &Block, transactions: TransactionVec) -> (mined: Option<
        Block,
    >)
        requires
            self@.max_nonce > 0 ==> last_block.index < u64::MAX,
        ensures
            mined matches Some(block) ==> {
                &&& is_candidate(
                    block@,
                    last_block@,
                    transaction_views(transactions@),
                    block.nonce,
                )
                &&& block.nonce < self@.max_nonce
                &&& has_leading_zeros(block@.hash, self@.target as nat)
                &&& follows(last_block@, block@, self@.target)
                &&& forall|n: u64|
                    n < block.nonce ==> #[trigger] missed_once(
                        last_block@,
                        transaction_views(transactions@),
                        n,
                        self@.target,
                    )
            },
            mined is None ==> forall|n: u64|
                n < self@.max_nonce ==> #[trigger] missed_once(
                    last_block@,
                    transaction_views(transactions@),
                    n,
                    self@.target,
                ),
            self@.max_nonce == 0 ==> mined is None,
            self@.target > 64 ==> mined is None,
            self@.target == 0 && self@.max_nonce > 0 ==> mined is Some && mined->0.nonce == 0,
    {
        let mut nonce: u64 = 0;
        while nonce < self.max_nonce
            invariant
                self@.max_nonce > 0 ==> last_block.index < u64::MAX,
                nonce <= self.max_nonce,
                self@.target == 0 ==> nonce == 0,
                forall|n: u64|
                    n < nonce ==> #[trigger] missed_once(
                        last_block@,
                        transaction_views(transactions@),
                        n,
                        self@.target,
                    ),
            decreases self.max_nonce - nonce,
        {
            let next_block = self.create_next_block(
                last_block,
                clone_transactions(&transactions),
                nonce,
            );
            if self.accepts(&next_block) {
                proof {
                    lemma_mined_block_follows(
                        next_block@,
                        last_block@,
                        transaction_views(transactions@),
                        nonce,
                        self.target,
                    );
                }
                return Some(next_block);
            }
            assert(missed_at(
                last_block@,
                transaction_views(transactions@),
                nonce,
                self@.target,
                next_block.timestamp,
            ));
            nonce += 1;
        }
        None
    }

    /// The search of `mine_block` with every candidate made at the one time
    /// `timestamp`: the candidate of the least nonce below `max_nonce` that
    /// meets the target, and none exactly where no nonce of the range does.
    pub fn mine_block_at(
        &self,
        last_block: &Block,
        transactions: TransactionVec,
        timestamp: i64,
    ) -> (mined: Option<Block>)
        requires
            self@.max_nonce > 0 ==> last_block.index < u64::MAX,
        ensures
            mined matches Some(block) ==> {
                &&& block@ == candidate(
                    last_block@,
                    transaction_views(transactions@),
                    block.nonce,
                    timestamp,
                )
                &&& block.nonce < self@.max_nonce
                &&& !missed_at(
                    last_block@,
                    transaction_views(transactions@),
                    block.nonce,
                    self@.target,
                    timestamp,
                )
                &&& follows(last_block@, block@, self@.target)
                &&& forall|n: u64|
                    n < block.nonce ==> #[trigger] missed_at(
                        last_block@,
                        transaction_views(transactions@),
                        n,
                        self@.target,
                        timestamp,
                    )
            },
            mined is None ==> forall|n: u64|
                n < self@.max_nonce ==> #[trigger] missed_at(
                    last_block@,
                    transaction_views(transactions@),
                    n,
                    self@.target,
                    timestamp,
                ),
    {
        let mut nonce: u64 = 0;
        while nonce < self.max_nonce
            invariant
                self@.max_nonce > 0 ==> last_block.index < u64::MAX,
                nonce <= self.max_nonce,
                forall|n: u64|
                    n < nonce ==> #[trigger] missed_at(
                        last_block@,
                        transaction_views(transactions@),
                        n,
                        self@.target,
                        timestamp,
                    ),
            decreases self.max_nonce - nonce,
        {
            let next_block = Block::with_timestamp(
                last_block.index + 1,
                timestamp,
                nonce,
                Some(last_block.hash.clone()),
                clone_transactions(&transactions),
            );
            if self.accepts(&next_block) {
                proof {
                    lemma_mined_block_follows(
                        next_block@,
                        last_block@,
                        transaction_views(transactions@),
                        nonce,
                        self.target,
                    );
                }
                return Some(next_block);
            }
            nonce += 1;
        }
        None
    }

    /// A block that follows `last_block` in number and hash, holds
    /// `transactions`, is stamped with the current time, and carries its own
    /// digest.
    pub fn create_next_block(
        &self,
        last_block: &Block,
        transactions: TransactionVec,
        nonce: u64,
    ) -> (block: Block)
        requires
            last_block.index < u64::MAX,
        ensures
            is_candidate(block@, last_block@, transaction_views(transactions@), nonce),
            block.index == last_block.index + 1,
            block.nonce == nonce,
            block@.previous_hash == Some(last_block@.hash),
            block@.transactions == transaction_views(transactions@),
            is_sealed(block@),
            block@.hash.len() == 64,
    {
        let index = last_block.index + 1;
        let previous_hash = last_block.hash.clone();
        let block = Block::new(index, nonce, Some(previous_hash), transactions);
        proof {
            lemma_sealed_block_is_sealed(
                index,
                block.timestamp,
                nonce,
                Some(last_block@.hash),
                transaction_views(transactions@),
            );
        }
        block
    }
}

} // verus!
