//! Chain-level behaviour: linkage, the audit, the difficulty gate, and
//! the shape of content hashes.

use blockchain_workshop::{
    append_block_with_tx, Block, Blockchain, Error, Hashable, Transaction, TransactionData,
};
use ed25519_dalek::Keypair;

const BASE_TIME: u128 = 1_700_000_000;

fn new_keypair() -> Keypair {
    Keypair::generate(&mut rand::rngs::OsRng {})
}

fn pk_bytes(keypair: &Keypair) -> Vec<u8> {
    keypair.public.to_bytes().to_vec()
}

fn create_account_tx(id: &str, time: u128) -> Transaction {
    Transaction::new(
        TransactionData::CreateAccount(id.to_string(), pk_bytes(&new_keypair())),
        None,
        time,
    )
}

/// Search a nonce whose block hash falls below the current target.
fn mine(bc: &Blockchain, block: &mut Block) {
    let mut nonce: u128 = 1;
    while nonce < 10_000 {
        block.set_nonce(nonce);
        if block.pow_value() < bc.target() {
            return;
        }
        nonce += 1;
    }
    panic!("no nonce satisfied the target");
}

#[test]
fn test_new() {
    let bc = Blockchain::new();
    assert_eq!(bc.get_last_block_hash(), None);
}

#[test]
fn test_append() {
    let bc = &mut Blockchain::new();

    let mut genesis = Block::new(None);
    genesis.set_nonce(1);
    genesis.add_transaction(create_account_tx("miner_one", BASE_TIME));
    assert!(bc.append_block(genesis).is_ok());

    let mut block = Block::new(bc.get_last_block_hash());
    block.add_transaction(create_account_tx("miner_two", BASE_TIME + 1));
    mine(bc, &mut block);
    let block_clone = block.clone();
    assert!(bc.append_block(block).is_ok());

    assert_eq!(bc.get_last_block_hash(), block_clone.hash);
    assert_eq!(bc.len(), 2);
}

#[test]
fn test_validate() {
    let bc = &mut Blockchain::new();

    let keypair = new_keypair();
    let tx_create_account = Transaction::new(
        TransactionData::CreateAccount("satoshi".to_string(), pk_bytes(&keypair)),
        None,
        BASE_TIME,
    );
    let tx_mint_initial_supply = Transaction::new(
        TransactionData::MintInitialSupply {
            to: "satoshi".to_string(),
            amount: 100_000_000,
        },
        None,
        BASE_TIME + 1,
    );
    assert!(
        append_block_with_tx(bc, 1, vec![tx_create_account, tx_mint_initial_supply]).is_ok()
    );

    // Spread the second block's timestamps a full baseline apart so the
    // retarget ratio stays 1 and a third block remains admissible.
    let mut second = Block::new(bc.get_last_block_hash());
    second.add_transaction(create_account_tx("miner_two", BASE_TIME + 2));
    second.add_transaction(create_account_tx("miner_two_bis", BASE_TIME + 2 + 1200));
    mine(bc, &mut second);
    assert!(bc.append_block(second).is_ok());

    let mut third = Block::new(bc.get_last_block_hash());
    third.add_transaction(create_account_tx("miner_three", BASE_TIME + 3 + 1200));
    mine(bc, &mut third);
    assert!(bc.append_block(third).is_ok());

    assert!(bc.validate().is_ok());

    // Tamper with the stored transaction data of the genesis block.
    bc.blocks[0].transactions[1].data = TransactionData::MintInitialSupply {
        to: "satoshi".to_string(),
        amount: 100,
    };

    assert_eq!(bc.validate().err().unwrap(), Error::ChainCorrupted(0));
}

#[test]
fn test_empty_block() {
    let mut bc = Blockchain::new();
    let mut block = Block::new(None);
    block.set_nonce(1);
    assert_eq!(bc.append_block(block).err().unwrap(), Error::EmptyBlock);
    assert_eq!(bc.len(), 0);
}

#[test]
fn test_invalid_block_hash() {
    let mut bc = Blockchain::new();
    let mut block = Block::new(None);
    block.set_nonce(1);
    block.add_transaction(create_account_tx("satoshi", BASE_TIME));
    // Tamper with a field behind the builder's back: the cached hash
    // no longer matches.
    block.nonce = 99;
    assert_eq!(bc.append_block(block).err().unwrap(), Error::InvalidBlockHash);
    assert_eq!(bc.len(), 0);
}

#[test]
fn test_hash_above_target() {
    let mut bc = Blockchain::new();

    let mut genesis = Block::new(None);
    genesis.set_nonce(1);
    genesis.add_transaction(create_account_tx("miner_one", BASE_TIME));
    assert!(bc.append_block(genesis).is_ok());

    // A single-transaction block has zero timestamp spread, so the
    // retarget drives the target to zero...
    let mut second = Block::new(bc.get_last_block_hash());
    second.add_transaction(create_account_tx("miner_two", BASE_TIME + 1));
    mine(&bc, &mut second);
    assert!(bc.append_block(second).is_ok());
    assert_eq!(bc.target(), 0);

    // ...and no third block can satisfy a zero target.
    let mut third = Block::new(bc.get_last_block_hash());
    third.set_nonce(7);
    third.add_transaction(create_account_tx("miner_three", BASE_TIME + 2));
    assert_eq!(bc.append_block(third).err().unwrap(), Error::HashAboveTarget);
    assert_eq!(bc.len(), 2);
}

#[test]
fn test_hash_shape() {
    let tx = Transaction::new(
        TransactionData::CreateAccount("satoshi".to_string(), vec![7u8; 32]),
        None,
        BASE_TIME,
    );
    let h = tx.hash();
    // A Blake2s digest is 32 bytes; its hex form is 64 lowercase digits.
    assert_eq!(h.len(), 64);
    assert!(h.chars().all(|c| c.is_ascii_hexdigit() && !c.is_ascii_uppercase()));

    // Deterministic in the fields...
    let tx_same = Transaction::new(
        TransactionData::CreateAccount("satoshi".to_string(), vec![7u8; 32]),
        None,
        BASE_TIME,
    );
    assert_eq!(tx_same.hash(), h);

    // ...and sensitive to them.
    let tx_other = Transaction::new(
        TransactionData::CreateAccount("satoshi".to_string(), vec![7u8; 32]),
        None,
        BASE_TIME + 1,
    );
    assert_ne!(tx_other.hash(), h);

    // The signature is not part of the transaction's own hash.
    let mut tx_signed = Transaction::new(
        TransactionData::CreateAccount("satoshi".to_string(), vec![7u8; 32]),
        None,
        BASE_TIME,
    );
    tx_signed.sign(Some(vec![1u8; 64]));
    assert_eq!(tx_signed.hash(), h);
}
