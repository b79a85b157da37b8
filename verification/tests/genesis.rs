//! Genesis-block behaviour: account creation, the mint privilege, and
//! the order-sensitivity of execution inside a block.

use blockchain_workshop::{
    Block, Blockchain, Error, Transaction, TransactionData, TxError, WorldState,
};
use ed25519_dalek::Keypair;

const BASE_TIME: u128 = 1_700_000_000;

fn new_keypair() -> Keypair {
    Keypair::generate(&mut rand::rngs::OsRng {})
}

fn pk_bytes(keypair: &Keypair) -> Vec<u8> {
    keypair.public.to_bytes().to_vec()
}

#[test]
fn test_create_genesis_block() {
    let bc = &mut Blockchain::new();

    let keypair = new_keypair();
    let tx_create_account = Transaction::new(
        TransactionData::CreateAccount("satoshi".to_string(), pk_bytes(&keypair)),
        None,
        BASE_TIME,
    );
    let tx_mint_initial_supply = Transaction::new(
        TransactionData::MintInitialSupply {
            to: "satoshi".to_string(),
            amount: 100_000_000,
        },
        None,
        BASE_TIME + 1,
    );

    let mut block = Block::new(None);
    block.set_nonce(1);
    block.add_transaction(tx_create_account);
    block.add_transaction(tx_mint_initial_supply);

    assert!(bc.append_block(block).is_ok());

    let satoshi = bc.get_account_by_id("satoshi".to_string());
    assert!(satoshi.is_some());
    assert_eq!(satoshi.unwrap().balance, 100_000_000);
}

#[test]
fn test_create_genesis_block_fails() {
    let mut bc = Blockchain::new();

    let keypair = new_keypair();
    let tx_create_account = Transaction::new(
        TransactionData::CreateAccount("satoshi".to_string(), pk_bytes(&keypair)),
        None,
        BASE_TIME,
    );
    let tx_mint_initial_supply = Transaction::new(
        TransactionData::MintInitialSupply {
            to: "satoshi".to_string(),
            amount: 100_000_000,
        },
        None,
        BASE_TIME + 1,
    );

    // Mint before the account exists: execution fails at index 0.
    let mut block = Block::new(None);
    block.set_nonce(1);
    block.add_transaction(tx_mint_initial_supply);
    block.add_transaction(tx_create_account);

    assert_eq!(
        bc.append_block(block).err().unwrap(),
        Error::TransactionFailed(0, TxError::UnknownAccount)
    );
    assert!(bc.get_account_by_id("satoshi".to_string()).is_none());
}

#[test]
fn test_mint_outside_genesis() {
    let mut bc = Blockchain::new();

    let keypair = new_keypair();
    let tx_create_account = Transaction::new(
        TransactionData::CreateAccount("satoshi".to_string(), pk_bytes(&keypair)),
        None,
        BASE_TIME,
    );
    let tx_mint = Transaction::new(
        TransactionData::MintInitialSupply {
            to: "satoshi".to_string(),
            amount: 10_000,
        },
        None,
        BASE_TIME + 1,
    );

    let mut block = Block::new(None);
    block.set_nonce(1);
    block.add_transaction(tx_create_account);
    block.add_transaction(tx_mint);
    assert!(bc.append_block(block).is_ok());
    assert_eq!(bc.get_account_by_id("satoshi".to_string()).unwrap().balance, 10_000);

    // The same mint inside the second block is a privilege violation,
    // even though the account is perfectly valid.
    let tx_mint_again = Transaction::new(
        TransactionData::MintInitialSupply {
            to: "satoshi".to_string(),
            amount: 10_000,
        },
        None,
        BASE_TIME + 2,
    );
    let mut block = Block::new(bc.get_last_block_hash());
    block.set_nonce(2);
    block.add_transaction(tx_mint_again);

    assert_eq!(
        bc.append_block(block).err().unwrap(),
        Error::TransactionFailed(0, TxError::NotGenesis)
    );
    assert_eq!(bc.get_account_by_id("satoshi".to_string()).unwrap().balance, 10_000);
}

#[test]
fn test_mint_overflow() {
    let mut bc = Blockchain::new();

    let keypair = new_keypair();
    let tx_create_account = Transaction::new(
        TransactionData::CreateAccount("satoshi".to_string(), pk_bytes(&keypair)),
        None,
        BASE_TIME,
    );
    let tx_mint_all = Transaction::new(
        TransactionData::MintInitialSupply {
            to: "satoshi".to_string(),
            amount: u128::MAX,
        },
        None,
        BASE_TIME + 1,
    );
    let tx_mint_one_more = Transaction::new(
        TransactionData::MintInitialSupply {
            to: "satoshi".to_string(),
            amount: 1,
        },
        None,
        BASE_TIME + 2,
    );

    let mut block = Block::new(None);
    block.set_nonce(1);
    block.add_transaction(tx_create_account);
    block.add_transaction(tx_mint_all);
    block.add_transaction(tx_mint_one_more);

    assert_eq!(
        bc.append_block(block).err().unwrap(),
        Error::TransactionFailed(2, TxError::Overflow)
    );
    // The whole block was rolled back, the first mint included.
    assert!(bc.get_account_by_id("satoshi".to_string()).is_none());
}
