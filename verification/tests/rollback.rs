//! All-or-nothing block execution: a failing transaction erases every
//! effect of the transactions before it in the same block.

use blockchain_workshop::{
    Block, Blockchain, Error, Transaction, TransactionData, TxError, WorldState,
};
use ed25519_dalek::Keypair;

const BASE_TIME: u128 = 1_700_000_000;

fn new_keypair() -> Keypair {
    Keypair::generate(&mut rand::rngs::OsRng {})
}

fn pk_bytes(keypair: &Keypair) -> Vec<u8> {
    keypair.public.to_bytes().to_vec()
}

#[test]
fn test_state_rollback_works() {
    let mut bc = Blockchain::new();

    let keypair = new_keypair();
    let tx_create_account = Transaction::new(
        TransactionData::CreateAccount("satoshi".to_string(), pk_bytes(&keypair)),
        None,
        BASE_TIME,
    );
    let tx_mint_initial_supply = Transaction::new(
        TransactionData::MintInitialSupply {
            to: "satoshi".to_string(),
            amount: 100_000_000,
        },
        None,
        BASE_TIME,
    );
    let mut block = Block::new(None);
    block.set_nonce(1);
    block.add_transaction(tx_create_account);
    block.add_transaction(tx_mint_initial_supply);

    assert!(bc.append_block(block).is_ok());

    let mut block = Block::new(bc.get_last_block_hash());
    let keypair_alice = new_keypair();
    let tx_create_alice = Transaction::new(
        TransactionData::CreateAccount("alice".to_string(), pk_bytes(&keypair_alice)),
        None,
        BASE_TIME + 1,
    );
    let keypair_bob = new_keypair();
    let tx_create_bob = Transaction::new(
        TransactionData::CreateAccount("bob".to_string(), pk_bytes(&keypair_bob)),
        None,
        BASE_TIME + 2,
    );
    block.set_nonce(2);
    block.add_transaction(tx_create_alice);
    block.add_transaction(tx_create_bob.clone());
    block.add_transaction(tx_create_bob);

    assert!(bc.append_block(block).is_err());

    assert!(bc.get_account_by_id("satoshi".to_string()).is_some());
    assert!(bc.get_account_by_id("alice".to_string()).is_none());
    assert!(bc.get_account_by_id("bob".to_string()).is_none());
}

#[test]
fn test_rollback_two_transactions() {
    let mut bc = Blockchain::new();

    let keypair = new_keypair();
    let tx_create_account = Transaction::new(
        TransactionData::CreateAccount("satoshi".to_string(), pk_bytes(&keypair)),
        None,
        BASE_TIME,
    );
    let tx_mint_initial_supply = Transaction::new(
        TransactionData::MintInitialSupply {
            to: "satoshi".to_string(),
            amount: 1,
        },
        None,
        BASE_TIME,
    );
    let mut block = Block::new(None);
    block.set_nonce(1);
    block.add_transaction(tx_create_account);
    block.add_transaction(tx_mint_initial_supply);
    assert!(bc.append_block(block).is_ok());

    // Two transactions; the second is a duplicate CreateAccount and
    // fails, so the first one's account must not exist either.
    let keypair_carol = new_keypair();
    let tx_create_carol = Transaction::new(
        TransactionData::CreateAccount("carol".to_string(), pk_bytes(&keypair_carol)),
        None,
        BASE_TIME + 1,
    );
    let mut block = Block::new(bc.get_last_block_hash());
    block.set_nonce(2);
    block.add_transaction(tx_create_carol.clone());
    block.add_transaction(tx_create_carol);

    assert_eq!(
        bc.append_block(block).err().unwrap(),
        Error::TransactionFailed(1, TxError::AccountExists)
    );
    assert!(bc.get_account_by_id("carol".to_string()).is_none());
    assert_eq!(bc.len(), 1);
}
