//! The chain of blocks: validation of a new block against the last one.

use vstd::prelude::*;

use crate::types::block::block_debug_text;
use crate::types::block::block_digest;
use crate::types::block::block_views;
use crate::types::block::debug_text;
use crate::types::block::has_leading_zeros;
use crate::types::block::is_sealed;
use crate::types::block::lemma_sealed_block_is_sealed;
use crate::types::block::meets_difficulty;
use crate::types::block::sealed_block;
use crate::types::block::Block;
use crate::types::block::BlockView;
use crate::types::transaction::TransactionView;
use crate::util::response::Response;

verus! {

pub type BlockVec = Vec<Block>;

/// Why a block was not appended.
#[derive(Debug, Clone, Copy, PartialEq, Eq, Structural)]
pub enum ChainError {
    /// The block's index is not the last block's index plus one.
    InvalidIndex,
    /// The block's `previous_hash` is not the last block's hash.
    InvalidPreviousHash,
    /// The block's hash is not its digest.
    InvalidHash,
    /// The block's hash has fewer leading zeros than the chain asks for.
    InvalidDifficulty,
}

/// The first block of every chain: index, timestamp and nonce zero, no
/// predecessor, no transactions, and its digest as its hash.
pub open spec fn genesis() -> BlockView {
    sealed_block(0, 0, 0, None, Seq::empty())
}

/// Whether `next` may stand directly behind `previous` in a chain of this
/// difficulty: it continues the numbering, names the hash of `previous`,
/// carries its own digest, and that digest begins with `difficulty` zeros.
pub open spec fn follows(previous: BlockView, next: BlockView, difficulty: u32) -> bool {
    &&& next.index == previous.index + 1
    &&& next.previous_hash == Some(previous.hash)
    &&& is_sealed(next)
    &&& has_leading_zeros(next.hash, difficulty as nat)
}

/// Whether the block at position `i` of `blocks` follows the one before it.
pub open spec fn follows_at(blocks: Seq<BlockView>, i: int, difficulty: u32) -> bool {
    follows(blocks[i - 1], blocks[i], difficulty)
}

/// Whether `blocks` is a chain of this difficulty: it begins with the
/// genesis block, and each later block follows the one before it.
pub open spec fn valid_chain(blocks: Seq<BlockView>, difficulty: u32) -> bool {
    &&& blocks.len() >= 1
    &&& blocks[0] == genesis()
    &&& forall|i: int| 1 <= i < blocks.len() ==> #[trigger] follows_at(blocks, i, difficulty)
}

/// What appending `block` behind `last` answers. The checks are made in
/// this order, and the first that fails names the error.
pub open spec fn verdict(last: BlockView, block: BlockView, difficulty: u32) -> Result<
    (),
    ChainError,
> {
    if block.index != last.index + 1 {
        Err(ChainError::InvalidIndex)
    } else if block.previous_hash != Some(last.hash) {
        Err(ChainError::InvalidPreviousHash)
    } else if block.hash != block_digest(block) {
        Err(ChainError::InvalidHash)
    } else if !has_leading_zeros(block.hash, difficulty as nat) {
        Err(ChainError::InvalidDifficulty)
    } else {
        Ok(())
    }
}

/// The chain after an attempt to append `block`: one block longer where the
/// block was accepted, unchanged where it was not.
pub open spec fn after_append(blocks: Seq<BlockView>, block: BlockView, difficulty: u32) -> Seq<
    BlockView,
> {
    if verdict(blocks.last(), block, difficulty) is Ok {
        blocks.push(block)
    } else {
        blocks
    }
}

/// A block is accepted exactly when it follows the last block.
pub proof fn lemma_accepted_iff_follows(last: BlockView, block: BlockView, difficulty: u32)
    ensures
        verdict(last, block, difficulty) is Ok <==> follows(last, block, difficulty),
{
}

/// In a chain each block's index is its position.
pub proof fn lemma_index_is_position(blocks: Seq<BlockView>, difficulty: u32, i: int)
    requires
        valid_chain(blocks, difficulty),
        0 <= i < blocks.len(),
    ensures
        blocks[i].index == i,
    decreases i,
{
    if i > 0 {
        lemma_index_is_position(blocks, difficulty, i - 1);
        assert(follows_at(blocks, i, difficulty));
    }
}

/// A chain of one genesis block is a chain, whatever the difficulty: the
/// genesis block need not meet it.
pub proof fn lemma_genesis_chain_is_valid(difficulty: u32)
    ensures
        valid_chain(seq![genesis()], difficulty),
        seq![genesis()].len() == 1,
        genesis().index == 0,
        genesis().previous_hash is None,
{
}

/// An attempt to append keeps a chain a chain.
pub proof fn lemma_append_keeps_chain(blocks: Seq<BlockView>, block: BlockView, difficulty: u32)
    requires
        valid_chain(blocks, difficulty),
    ensures
        valid_chain(after_append(blocks, block, difficulty), difficulty),
{
    if verdict(blocks.last(), block, difficulty) is Ok {
        let longer = blocks.push(block);
        assert forall|i: int| 1 <= i < longer.len() implies #[trigger] follows_at(
            longer,
            i,
            difficulty,
        ) by {
            if i < blocks.len() {
                assert(follows_at(blocks, i, difficulty));
            }
        }
    }
}

/// A block whose index does not continue the chain is refused with
/// `InvalidIndex`, and the chain keeps its length.
pub proof fn lemma_wrong_index_is_refused(
    blocks: Seq<BlockView>,
    block: BlockView,
    difficulty: u32,
)
    requires
        block.index != blocks.last().index + 1,
    ensures
        verdict(blocks.last(), block, difficulty) == Err::<(), ChainError>(
            ChainError::InvalidIndex,
        ),
        after_append(blocks, block, difficulty) == blocks,
        after_append(blocks, block, difficulty).len() == blocks.len(),
{
}

/// A block that continues the numbering but does not name the last block's
/// hash is refused with `InvalidPreviousHash`.
pub proof fn lemma_wrong_previous_hash_is_refused(
    blocks: Seq<BlockView>,
    block: BlockView,
    difficulty: u32,
)
    requires
        block.index == blocks.last().index + 1,
        block.previous_hash != Some(blocks.last().hash),
    ensures
        verdict(blocks.last(), block, difficulty) == Err::<(), ChainError>(
            ChainError::InvalidPreviousHash,
        ),
        after_append(blocks, block, difficulty) == blocks,
{
}

/// Every block that a chain holds behind its genesis block carries its own
/// digest, and that digest begins with as many zeros as the chain asks for.
pub proof fn lemma_stored_blocks_are_sealed(blocks: Seq<BlockView>, difficulty: u32, i: int)
    requires
        valid_chain(blocks, difficulty),
        0 <= i < blocks.len(),
    ensures
        is_sealed(blocks[i]),
        i >= 1 ==> has_leading_zeros(blocks[i].hash, difficulty as nat),
        i >= 1 ==> blocks[i].previous_hash == Some(blocks[i - 1].hash),
{
    if i == 0 {
        lemma_sealed_block_is_sealed(0, 0, 0, None, Seq::<TransactionView>::empty());
    } else {
        assert(follows_at(blocks, i, difficulty));
    }
}

impl ChainError {
    /// The error in words.
    pub fn message(&self) -> (text: &'static str)
        ensures
            text@ == (match *self {
                ChainError::InvalidIndex => "invalid index"@,
                ChainError::InvalidPreviousHash => "invalid previous hash"@,
                ChainError::InvalidHash => "invalid hash"@,
                ChainError::InvalidDifficulty => "invalid target"@,
            }),
    {
        match self {
            ChainError::InvalidIndex => "invalid index",
            ChainError::InvalidPreviousHash => "invalid previous hash",
            ChainError::InvalidHash => "invalid hash",
            ChainError::InvalidDifficulty => "invalid target",
        }
    }
}

/// The blocks of a ledger, from the genesis block on. It is never empty,
/// and it only grows, by blocks that follow its last block.
#[derive(Debug)]
pub struct Blockchain {
    difficulty: u32,
    genesis_block: Block,
    later_blocks: BlockVec,
}

impl View for Blockchain {
    type V = Seq<BlockView>;

    closed spec fn view(&self) -> Seq<BlockView> {
        Seq::new(
            self.later_blocks@.len() + 1,
            |i: int|
                if i == 0 {
                    self.genesis_block@
                } else {
                    self.later_blocks@[i - 1]@
                },
        )
    }
}

impl Blockchain {
    #[verifier::type_invariant]
    spec fn is_chain(self) -> bool {
        valid_chain(self@, self.difficulty)
    }

    /// The number of leading zeros that the chain asks of a block's hash.
    pub closed spec fn spec_difficulty(&self) -> u32 {
        self.difficulty
    }

    /// The number of leading zeros that the chain asks of a block's hash.
    #[verifier::when_used_as_spec(spec_difficulty)]
    pub fn difficulty(&self) -> (difficulty: u32)
        ensures
            difficulty == self.spec_difficulty(),
    {
        self.difficulty
    }

    /// A chain of this difficulty that holds the genesis block and nothing
    /// else.
    pub fn new(difficulty: u32) -> (chain: Blockchain)
        ensures
            chain@ == seq![genesis()],
            chain@.len() == 1,
            chain@[0].index == 0,
            chain@[0].previous_hash is None,
            chain.difficulty() == difficulty,
            valid_chain(chain@, difficulty),
    {
        let genesis_block = Blockchain::create_genesis_block();
        let later_blocks: BlockVec = Vec::new();
        let chain = Blockchain { difficulty, genesis_block, later_blocks };
        assert(chain@ =~= seq![genesis()]);
        chain
    }

    /// A copy of the last block.
    pub fn get_last_block(&self) -> (block: Block)
        ensures
            block@ == self@.last(),
            block@.index + 1 == self@.len(),
            valid_chain(self@, self.difficulty()),
    {
        proof {
            use_type_invariant(self);
            lemma_index_is_position(self@, self.difficulty, self@.len() - 1);
        }
        let count = self.later_blocks.len();
        if count == 0 {
            self.genesis_block.clone()
        } else {
            self.later_blocks[count - 1].clone()
        }
    }

    /// A copy of all blocks, in order.
    pub fn get_all_blocks(&self) -> (blocks: BlockVec)
        ensures
            block_views(blocks@) == self@,
            blocks@.len() == self@.len(),
            forall|i: int| 0 <= i < blocks@.len() ==> (#[trigger] blocks@[i])@ == self@[i],
            valid_chain(self@, self.difficulty()),
    {
        proof {
            use_type_invariant(self);
        }
        let mut blocks: BlockVec = Vec::new();
        blocks.push(self.genesis_block.clone());
        let mut i: usize = 0;
        while i < self.later_blocks.len()
            invariant
                i <= self.later_blocks.len(),
                blocks@.len() == i + 1,
                forall|j: int| 0 <= j < blocks@.len() ==> (#[trigger] blocks@[j])@ == self@[j],
            decreases self.later_blocks.len() - i,
        {
            blocks.push(self.later_blocks[i].clone());
            i += 1;
        }
        assert(block_views(blocks@) =~= self@);
        blocks
    }

    /// The block at position `index`, written out, or the answer that there
    /// is none.
    pub fn get_block_by_index(&self, index: u64) -> (response: Response)
        ensures
            index < self@.len() ==> response.is_ok && response.content@ == block_debug_text(
                self@[index as int],
            ),
            index >= self@.len() ==> !response.is_ok && response.content@
                == "there is no such a block"@,
    {
        if index == 0 {
            Response::new(true, debug_text(&self.genesis_block))
        } else if index - 1 < self.later_blocks.len() as u64 {
            Response::new(true, debug_text(&self.later_blocks[(index - 1) as usize]))
        } else {
            Response::new(false, "there is no such a block".to_string())
        }
    }

    /// Appends `block` where it follows the last block; else refuses it and
    /// leaves the chain as it was.
    pub fn add_block(&mut self, block: Block) -> (result: Result<(), ChainError>)
        ensures
            valid_chain(old(self)@, old(self).difficulty()),
            valid_chain(final(self)@, final(self).difficulty()),
            final(self).difficulty() == old(self).difficulty(),
            result == verdict(old(self)@.last(), block@, old(self).difficulty()),
            final(self)@ == after_append(old(self)@, block@, old(self).difficulty()),
            result is Ok ==> final(self)@ == old(self)@.push(block@),
            result is Err ==> final(self)@ == old(self)@,
            result is Ok ==> is_sealed(final(self)@.last()) && has_leading_zeros(
                final(self)@.last().hash,
                old(self).difficulty() as nat,
            ),
            block.index != old(self)@.last().index + 1 ==> result == Err::<(), ChainError>(
                ChainError::InvalidIndex,
            ) && final(self)@.len() == old(self)@.len(),
            block.index == old(self)@.last().index + 1 && block@.previous_hash != Some(
                old(self)@.last().hash,
            ) ==> result == Err::<(), ChainError>(ChainError::InvalidPreviousHash),
    {
        proof {
            use_type_invariant(&*self);
            lemma_append_keeps_chain(self@, block@, self.difficulty);
        }
        let count = self.later_blocks.len();
        let last = if count == 0 {
            &self.genesis_block
        } else {
            &self.later_blocks[count - 1]
        };
        assert(last@ == self@.last());

        if last.index == u64::MAX || block.index != last.index + 1 {
            return Err(ChainError::InvalidIndex);
        }
        let linked = match &block.previous_hash {
            Some(hash) => *hash == last.hash,
            None => false,
        };
        if !linked {
            return Err(ChainError::InvalidPreviousHash);
        }
        if block.hash != block.calculate_hash() {
            return Err(ChainError::InvalidHash);
        }
        if !meets_difficulty(block.hash.as_str(), self.difficulty) {
            return Err(ChainError::InvalidDifficulty);
        }
        // The blocks behind the genesis block leave the chain while the new
        // one joins them; what stays meanwhile is a chain of one block.
        let mut later_blocks: BlockVec = Vec::new();
        proof {
            assert(self@[0] == self.genesis_block@);
            assert(Blockchain {
                difficulty: self.difficulty,
                genesis_block: self.genesis_block,
                later_blocks,
            }@ =~= seq![genesis()]);
        }
        std::mem::swap(&mut later_blocks, &mut self.later_blocks);
        later_blocks.push(block);
        proof {
            assert(Blockchain {
                difficulty: self.difficulty,
                genesis_block: self.genesis_block,
                later_blocks,
            }@ =~= old(self)@.push(block@));
        }
        std::mem::swap(&mut later_blocks, &mut self.later_blocks);
        Ok(())
    }

    fn create_genesis_block() -> (block: Block)
        ensures
            block@ == genesis(),
    {
        let block = Block::with_timestamp(0, 0, 0, None, Vec::new());
        assert(block@.transactions =~= Seq::<TransactionView>::empty());
        block
    }
}

} // verus!
