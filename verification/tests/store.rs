//! Tests of the block-info store: round trips, cycle separation, upserts.

use stacks_signer::blocks::{Block, BlockInfo};
use stacks_signer::signerdb::SignerDb;

fn make_block(hash_byte: u8) -> Block {
    Block { signer_signature_hash: vec![hash_byte; 32], tx_ids: Vec::new() }
}

fn create_block() -> (BlockInfo, Block) {
    let block = make_block(0x06);
    (BlockInfo::new(block.clone()), block)
}

fn basic_signer_db(mut db: SignerDb) {
    let reward_cycle = 1;
    let (block_info, block) = create_block();
    db.insert_block(reward_cycle, &block_info);

    let fetched = db
        .block_lookup(reward_cycle, &block.signer_signature_hash)
        .expect("Unable to get block from db");

    assert_eq!(BlockInfo::new(block.clone()), fetched);

    // A lookup under a different reward cycle sees nothing.
    let other = db.block_lookup(reward_cycle + 1, &block.signer_signature_hash);
    assert!(other.is_none());
}

#[test]
fn test_basic_signer_db() {
    basic_signer_db(SignerDb::new())
}

#[test]
fn test_basic_signer_db_in_memory() {
    basic_signer_db(SignerDb::new())
}

#[test]
fn test_update_block() {
    let mut db = SignerDb::new();
    let reward_cycle = 42;
    let (block_info, block) = create_block();
    db.insert_block(reward_cycle, &block_info);

    let fetched = db
        .block_lookup(reward_cycle, &block.signer_signature_hash)
        .expect("Unable to get block from db");

    assert_eq!(BlockInfo::new(block.clone()), fetched);

    let old_block_info = fetched;
    let old_block = block;

    // The same block, now carrying a decided vote, replaces the stored row.
    let (mut block_info, block) = create_block();
    assert_eq!(
        block_info.block.signer_signature_hash,
        old_block_info.block.signer_signature_hash
    );
    let vote: Vec<u8> = vec![0x01; 32];
    block_info.vote = Some(vote.clone());
    db.insert_block(reward_cycle, &block_info);

    let fetched = db
        .block_lookup(reward_cycle, &block.signer_signature_hash)
        .expect("Unable to get block from db");

    assert_ne!(old_block_info, fetched);
    assert_eq!(fetched.vote, Some(vote));

    // Both rows existed under one key: the store kept a single entry.
    db.remove_block(reward_cycle, &block.signer_signature_hash);
    assert!(db.block_lookup(reward_cycle, &old_block.signer_signature_hash).is_none());
}

#[test]
fn store_remove_is_idempotent() {
    let mut db = SignerDb::new();
    let (block_info, block) = create_block();
    db.insert_block(7, &block_info);
    db.remove_block(7, &block.signer_signature_hash);
    db.remove_block(7, &block.signer_signature_hash);
    assert!(db.block_lookup(7, &block.signer_signature_hash).is_none());
}
