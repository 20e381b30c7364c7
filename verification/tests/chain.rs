use blockchain::types::block::Block;
use blockchain::types::blockchain::Blockchain;
use blockchain::types::blockchain::ChainError;
use blockchain::types::transaction::Transaction;
use blockchain::util::response::Response;
use sha2::Digest;

const NO_TARGET: u32 = 0;

fn mock_transaction() -> Transaction {
    Transaction {
        sender: "1".to_string(),
        recipient: "2".to_string(),
        amount: 3,
    }
}

// A block that follows `last` and whose hash begins with `difficulty` zeros.
fn mine_after(last: &Block, difficulty: u32) -> Block {
    let mut nonce: u64 = 0;
    loop {
        let block = Block::with_timestamp(
            last.index + 1,
            1_700_000_000_000,
            nonce,
            Some(last.hash.clone()),
            vec![mock_transaction()],
        );
        if block.hash.starts_with(&"0".repeat(difficulty as usize)) {
            return block;
        }
        nonce += 1;
    }
}

#[test]
fn is_valid_genesis_block() {
    let blockchain = Blockchain::new(NO_TARGET);

    let blocks = blockchain.get_all_blocks();
    assert_eq!(blocks.len(), 1);

    let block = blockchain.get_last_block();
    assert_eq!(block.hash, blocks[0].hash);

    assert_eq!(block.index, 0);
    assert_eq!(block.nonce, 0);
    assert_eq!(block.previous_hash, None);
    assert!(block.transactions.is_empty());
}

#[test]
fn genesis_block_is_the_same_for_every_difficulty() {
    let expected = format!(
        "{:x}",
        sha2::Sha256::digest(
            "{\"index\":0,\"timestamp\":0,\"nonce\":0,\"previous_hash\":null,\"hash\":\"\",\"transactions\":[]}"
                .as_bytes()
        )
    );
    for difficulty in [0u32, 1, 5, 64, 256, u32::MAX] {
        let chain = Blockchain::new(difficulty);
        assert_eq!(chain.difficulty(), difficulty);
        let blocks = chain.get_all_blocks();
        assert_eq!(blocks.len(), 1);
        assert_eq!(blocks[0].index, 0);
        assert_eq!(blocks[0].timestamp, 0);
        assert_eq!(blocks[0].previous_hash, None);
        assert_eq!(blocks[0].hash, expected);
    }
}

#[test]
fn valid_block_is_appended() {
    let mut chain = Blockchain::new(1);
    let block = mine_after(&chain.get_last_block(), 1);
    let hash = block.hash.clone();

    assert_eq!(chain.add_block(block), Ok(()));

    let blocks = chain.get_all_blocks();
    assert_eq!(blocks.len(), 2);
    assert_eq!(blocks[1].hash, hash);
    assert_eq!(blocks[1].calculate_hash(), hash);
    assert!(blocks[1].hash.starts_with("0"));
    assert_eq!(blocks[1].previous_hash, Some(blocks[0].hash.clone()));
    assert_eq!(chain.get_last_block().index, 1);
}

#[test]
fn chain_grows_block_by_block() {
    let mut chain = Blockchain::new(1);
    for expected_index in 1u64..4 {
        let block = mine_after(&chain.get_last_block(), 1);
        assert_eq!(chain.add_block(block), Ok(()));
        assert_eq!(chain.get_last_block().index, expected_index);
    }
    let blocks = chain.get_all_blocks();
    assert_eq!(blocks.len(), 4);
    for i in 1..blocks.len() {
        assert_eq!(blocks[i].index, blocks[i - 1].index + 1);
        assert_eq!(blocks[i].previous_hash, Some(blocks[i - 1].hash.clone()));
    }
}

#[test]
fn wrong_index_is_refused() {
    let mut chain = Blockchain::new(NO_TARGET);
    let last = chain.get_last_block();

    let mut block = mine_after(&last, 0);
    block.index = 2;
    block.hash = block.calculate_hash();
    assert_eq!(chain.add_block(block), Err(ChainError::InvalidIndex));

    let mut again = mine_after(&last, 0);
    again.index = 0;
    assert_eq!(chain.add_block(again), Err(ChainError::InvalidIndex));

    assert_eq!(chain.get_all_blocks().len(), 1);
}

#[test]
fn wrong_index_comes_before_wrong_previous_hash() {
    let mut chain = Blockchain::new(NO_TARGET);
    let block = Block::with_timestamp(5, 0, 0, Some("not the last hash".to_string()), vec![]);
    assert_eq!(chain.add_block(block), Err(ChainError::InvalidIndex));
    assert_eq!(chain.get_all_blocks().len(), 1);
}

#[test]
fn wrong_previous_hash_is_refused() {
    let mut chain = Blockchain::new(NO_TARGET);

    let block = Block::with_timestamp(1, 0, 0, Some("not the last hash".to_string()), vec![]);
    assert_eq!(chain.add_block(block), Err(ChainError::InvalidPreviousHash));

    let orphan = Block::with_timestamp(1, 0, 0, None, vec![]);
    assert_eq!(chain.add_block(orphan), Err(ChainError::InvalidPreviousHash));

    assert_eq!(chain.get_all_blocks().len(), 1);
}

#[test]
fn wrong_hash_is_refused() {
    let mut chain = Blockchain::new(NO_TARGET);
    let mut block = mine_after(&chain.get_last_block(), 0);
    block.nonce += 1;
    assert_eq!(chain.add_block(block), Err(ChainError::InvalidHash));
    assert_eq!(chain.get_all_blocks().len(), 1);
}

#[test]
fn hash_below_the_difficulty_is_refused() {
    let mut chain = Blockchain::new(65);
    let block = mine_after(&chain.get_last_block(), 0);
    assert_eq!(chain.add_block(block), Err(ChainError::InvalidDifficulty));
    assert_eq!(chain.get_all_blocks().len(), 1);
}

#[test]
fn refused_block_leaves_the_chain_usable() {
    let mut chain = Blockchain::new(1);
    let first = mine_after(&chain.get_last_block(), 1);
    assert_eq!(chain.add_block(first.clone()), Ok(()));
    // the same block a second time no longer continues the numbering
    assert_eq!(chain.add_block(first), Err(ChainError::InvalidIndex));
    let second = mine_after(&chain.get_last_block(), 1);
    assert_eq!(chain.add_block(second), Ok(()));
    assert_eq!(chain.get_all_blocks().len(), 3);
}

#[test]
fn errors_have_their_words() {
    assert_eq!(ChainError::InvalidIndex.message(), "invalid index");
    assert_eq!(ChainError::InvalidPreviousHash.message(), "invalid previous hash");
    assert_eq!(ChainError::InvalidHash.message(), "invalid hash");
    assert_eq!(ChainError::InvalidDifficulty.message(), "invalid target");
}

#[test]
fn lookup_by_index_finds_by_position() {
    let mut chain = Blockchain::new(NO_TARGET);
    let block = mine_after(&chain.get_last_block(), 0);
    assert_eq!(chain.add_block(block), Ok(()));
    let blocks = chain.get_all_blocks();

    let found = chain.get_block_by_index(1);
    assert!(found.is_ok);
    assert_eq!(found.content, format!("{:?}", blocks[1]));
    assert!(found.content.starts_with("Block { index: 1, timestamp: 1700000000000, nonce: 0, "));

    let genesis = chain.get_block_by_index(0);
    assert!(genesis.is_ok);
    assert_eq!(genesis.content, format!("{:?}", blocks[0]));
}

#[test]
fn lookup_out_of_range_finds_nothing() {
    let chain = Blockchain::new(NO_TARGET);
    for index in [1u64, 2, u64::MAX] {
        let missing = chain.get_block_by_index(index);
        assert!(!missing.is_ok);
        assert_eq!(missing.content, "there is no such a block");
    }
}

#[test]
fn response_keeps_its_parts() {
    let response = Response::new(true, "content".to_string());
    assert!(response.is_ok);
    assert_eq!(response.content, "content");

    let response = Response::new(false, String::new());
    assert!(!response.is_ok);
    assert_eq!(response.content, "");
}
