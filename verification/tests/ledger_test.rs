use auction_house::errors::AuctionHouseError;
use auction_house::ledger::{has_distinct_keys, Ledger};
use auction_house::state::{AccountInfo, Operation, Pubkey};

fn key(n: u8) -> Pubkey {
    Pubkey { bytes: [n; 32] }
}

fn account(n: u8, lamports: u64) -> AccountInfo {
    AccountInfo { key: key(n), is_signer: false, lamports, data: vec![n], owner: key(0) }
}

fn ledger() -> Ledger {
    Ledger::new(vec![account(1, 100), account(2, 7), account(3, u64::MAX)])
}

#[test]
fn new_ledger_has_no_instructions() {
    let ledger = ledger();
    assert!(ledger.instructions.is_empty());
    assert_eq!(ledger.accounts.len(), 3);
    assert_eq!(ledger.accounts[1], account(2, 7));
}

#[test]
fn transfer_moves_lamports_and_is_listed() {
    let seeds = vec![b"seed".to_vec(), vec![254]];
    let ledger = ledger().transfer(0, 1, 40, &seeds).unwrap();
    assert_eq!(ledger.accounts[0].lamports, 60);
    assert_eq!(ledger.accounts[1].lamports, 47);
    assert_eq!(ledger.accounts[2].lamports, u64::MAX);
    assert_eq!(ledger.accounts[0].data, vec![1]);
    assert_eq!(ledger.instructions.len(), 1);
    assert_eq!(ledger.instructions[0].operation, Operation::Transfer { from: key(1), to: key(2), lamports: 40 });
    assert_eq!(ledger.instructions[0].signer_seeds, seeds);
}

#[test]
fn transfer_of_all_and_of_nothing() {
    let ledger = ledger().transfer(0, 1, 100, &Vec::new()).unwrap();
    assert_eq!(ledger.accounts[0].lamports, 0);
    assert_eq!(ledger.accounts[1].lamports, 107);
    let ledger = ledger.transfer(0, 1, 0, &Vec::new()).unwrap();
    assert_eq!(ledger.accounts[0].lamports, 0);
    assert_eq!(ledger.accounts[1].lamports, 107);
    assert_eq!(ledger.instructions.len(), 2);
}

#[test]
fn transfer_fails_on_too_little_or_too_much() {
    assert_eq!(ledger().transfer(1, 0, 8, &Vec::new()).unwrap_err(), AuctionHouseError::NumericalOverflow);
    assert_eq!(ledger().transfer(0, 2, 1, &Vec::new()).unwrap_err(), AuctionHouseError::NumericalOverflow);
}

#[test]
fn transfer_to_oneself_changes_no_balance() {
    let ledger = ledger().transfer(1, 1, 7, &Vec::new()).unwrap();
    assert_eq!(ledger.accounts[1].lamports, 7);
    assert_eq!(ledger.instructions.len(), 1);
    assert_eq!(ledger.transfer(1, 1, 8, &Vec::new()).unwrap_err(), AuctionHouseError::NumericalOverflow);
}

#[test]
fn debit_and_credit() {
    let ledger = ledger().debit(0, 100).unwrap();
    assert_eq!(ledger.accounts[0].lamports, 0);
    let ledger = ledger.credit(0, 5).unwrap();
    assert_eq!(ledger.accounts[0].lamports, 5);
    assert!(ledger.instructions.is_empty());
    assert_eq!(ledger.debit(0, 6).unwrap_err(), AuctionHouseError::NumericalOverflow);
    assert_eq!(self::ledger().credit(2, 1).unwrap_err(), AuctionHouseError::NumericalOverflow);
}

#[test]
fn token_transfer_is_listed_and_changes_no_account() {
    let seeds = vec![vec![1u8, 2]];
    let ledger = ledger().token_transfer(0, 1, key(9), 5, &seeds);
    assert_eq!(ledger.accounts, self::ledger().accounts);
    assert_eq!(ledger.instructions.len(), 1);
    assert_eq!(
        ledger.instructions[0].operation,
        Operation::TokenTransfer { source: key(1), destination: key(2), authority: key(9), amount: 5 }
    );
    assert_eq!(ledger.instructions[0].signer_seeds, seeds);
}

#[test]
fn instructions_are_listed_in_order() {
    let ledger = ledger()
        .record(Operation::Transfer { from: key(1), to: key(2), lamports: 1 }, &Vec::new())
        .record(Operation::Transfer { from: key(2), to: key(1), lamports: 2 }, &vec![vec![7u8]]);
    assert_eq!(ledger.instructions.len(), 2);
    assert_eq!(ledger.instructions[0].operation, Operation::Transfer { from: key(1), to: key(2), lamports: 1 });
    assert_eq!(ledger.instructions[1].operation, Operation::Transfer { from: key(2), to: key(1), lamports: 2 });
    assert_eq!(ledger.instructions[1].signer_seeds, vec![vec![7u8]]);
}

#[test]
fn distinct_addresses_are_told_from_repeated_ones() {
    assert!(has_distinct_keys(&Vec::new()));
    assert!(has_distinct_keys(&vec![account(1, 0)]));
    assert!(has_distinct_keys(&vec![account(1, 0), account(2, 0), account(3, 0)]));
    assert!(!has_distinct_keys(&vec![account(1, 0), account(1, 5)]));
    assert!(!has_distinct_keys(&vec![account(1, 0), account(2, 0), account(1, 0)]));
    assert!(!has_distinct_keys(&vec![account(3, 0), account(2, 0), account(1, 0), account(2, 9)]));
    let mut near = account(1, 0);
    near.key.bytes[31] = 2;
    assert!(has_distinct_keys(&vec![account(1, 0), near]));
}
