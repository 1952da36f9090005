use anchor_lang::AnchorSerialize;
use auction_house::constant::{metadata_program_id, token_program_id};
use auction_house::errors::AuctionHouseError;
use auction_house::ledger::Ledger;
use auction_house::state::{AccountInfo, AuctionHouse, Creator, Instruction, Metadata, Operation, Pubkey};
use auction_house::utils::{
    assert_is_ata, make_ata, pay_auction_house_fees, pay_creator_fees, pay_creators, ready_receipt,
};
use solana_program::program_option::COption;
use solana_program::program_pack::Pack;

type ChainKey = solana_program::pubkey::Pubkey;

const SYSTEM: Pubkey = Pubkey { bytes: [0; 32] };
const MINT: Pubkey = Pubkey { bytes: [30; 32] };
const HOUSE: Pubkey = Pubkey { bytes: [20; 32] };

fn key(n: u8) -> Pubkey {
    Pubkey { bytes: [n; 32] }
}

fn chain(key: &Pubkey) -> ChainKey {
    ChainKey::new_from_array(key.bytes)
}

fn associated(wallet: &Pubkey, mint: &Pubkey) -> Pubkey {
    let address = spl_associated_token_account::get_associated_token_address(&chain(wallet), &chain(mint));
    Pubkey { bytes: address.to_bytes() }
}

fn token_record(mint: &Pubkey, owner: &Pubkey, amount: u64) -> Vec<u8> {
    let account = spl_token::state::Account {
        mint: chain(mint),
        owner: chain(owner),
        amount,
        delegate: COption::None,
        state: spl_token::state::AccountState::Initialized,
        is_native: COption::None,
        delegated_amount: 0,
        close_authority: COption::None,
    };
    let mut data = vec![0u8; spl_token::state::Account::LEN];
    spl_token::state::Account::pack(account, &mut data).unwrap();
    data
}

fn metadata_record(basis_points: u16, creators: Option<Vec<(Pubkey, u8)>>) -> Vec<u8> {
    let metadata = mpl_token_metadata::state::Metadata {
        key: mpl_token_metadata::state::Key::MetadataV1,
        update_authority: chain(&key(90)),
        mint: chain(&key(3)),
        data: mpl_token_metadata::state::Data {
            name: String::from("asset"),
            symbol: String::from("AST"),
            uri: String::from("https://example.org/asset.json"),
            seller_fee_basis_points: basis_points,
            creators: creators.map(|list| {
                list.iter()
                    .map(|(address, share)| mpl_token_metadata::state::Creator {
                        address: chain(address),
                        verified: false,
                        share: *share,
                    })
                    .collect()
            }),
        },
        primary_sale_happened: false,
        is_mutable: true,
        edition_nonce: Some(254),
        token_standard: None,
        collection: None,
        uses: None,
        collection_details: None,
    };
    let mut data = Vec::new();
    metadata.serialize(&mut data).unwrap();
    data.resize(mpl_token_metadata::state::MAX_METADATA_LEN, 0);
    data
}

fn account(key: Pubkey, lamports: u64, data: Vec<u8>, owner: Pubkey) -> AccountInfo {
    AccountInfo { key, is_signer: false, lamports, data, owner }
}

fn house() -> AuctionHouse {
    AuctionHouse {
        key: HOUSE,
        auction_house_fee_account: key(21),
        auction_house_treasury: key(22),
        treasury_withdrawal_destination: key(23),
        fee_withdrawal_destination: key(24),
        treasury_mint: MINT,
        authority: key(26),
        creator: key(27),
        bump: 255,
        treasury_bump: 254,
        fee_payer_bump: 253,
        seller_fee_basis_points: 500,
        requires_sign_off: false,
        can_change_sale_price: false,
        has_auctioneer: false,
    }
}

const METADATA: usize = 0;
const ESCROW: usize = 1;
const PAYER: usize = 2;
const TREASURY_MINT: usize = 3;
const TREASURY: usize = 4;

/// A ledger for a native trade: the metadata, an escrow of `held` lamports, a
/// payer, the mint, the treasury, and then one wallet for each creator.
fn native_ledger(basis_points: u16, creators: Option<Vec<(Pubkey, u8)>>, held: u64) -> (Ledger, Vec<usize>) {
    let mut accounts = vec![
        account(key(10), 1, metadata_record(basis_points, creators.clone()), metadata_program_id()),
        account(key(11), held, Vec::new(), SYSTEM),
        account(key(12), 1_000, Vec::new(), SYSTEM),
        account(MINT, 1, vec![0u8; 82], token_program_id()),
        account(key(22), 0, Vec::new(), SYSTEM),
    ];
    let mut remaining = Vec::new();
    for (address, _) in creators.unwrap_or_default() {
        accounts.push(account(address, 0, Vec::new(), SYSTEM));
        remaining.push(accounts.len() - 1);
    }
    (Ledger::new(accounts), remaining)
}

/// The same for a trade in tokens: each creator's wallet is followed by its
/// token account, which does not exist yet.
fn token_ledger(basis_points: u16, creators: Option<Vec<(Pubkey, u8)>>) -> (Ledger, Vec<usize>) {
    let mut accounts = vec![
        account(key(10), 1, metadata_record(basis_points, creators.clone()), metadata_program_id()),
        account(key(11), 5, token_record(&MINT, &HOUSE, 1_000_000), token_program_id()),
        account(key(12), 1_000, Vec::new(), SYSTEM),
        account(MINT, 1, vec![0u8; 82], token_program_id()),
        account(key(22), 5, token_record(&MINT, &HOUSE, 0), token_program_id()),
    ];
    let mut remaining = Vec::new();
    for (address, _) in creators.unwrap_or_default() {
        accounts.push(account(address, 0, Vec::new(), SYSTEM));
        remaining.push(accounts.len() - 1);
        accounts.push(account(associated(&address, &MINT), 0, Vec::new(), SYSTEM));
        remaining.push(accounts.len() - 1);
    }
    (Ledger::new(accounts), remaining)
}

fn pay(ledger: Ledger, remaining: &Vec<usize>, size: u64, is_native: bool) -> Result<(Ledger, u64), AuctionHouseError> {
    let signer_seeds = vec![b"signer".to_vec()];
    let payer_seeds = vec![b"payer".to_vec()];
    pay_creator_fees(ledger, remaining, METADATA, ESCROW, HOUSE, PAYER, TREASURY_MINT, &signer_seeds, &payer_seeds, size, is_native)
}

fn operations(instructions: &[Instruction]) -> Vec<Operation> {
    instructions.iter().map(|i| i.operation).collect()
}

#[test]
fn one_creator_receives_the_whole_royalty() {
    let (ledger, remaining) = native_ledger(250, Some(vec![(key(50), 100)]), 1_000_000);
    let (paid, left) = pay(ledger, &remaining, 1_000_000, true).unwrap();
    assert_eq!(left, 975_000);
    assert_eq!(paid.accounts[ESCROW].lamports, 975_000);
    assert_eq!(paid.accounts[5].lamports, 25_000);
    assert_eq!(
        operations(&paid.instructions),
        vec![Operation::Transfer { from: key(11), to: key(50), lamports: 25_000 }]
    );
    assert_eq!(paid.instructions[0].signer_seeds, vec![b"signer".to_vec()]);
}

#[test]
fn rounding_remainder_stays_with_the_seller() {
    // a royalty of 10 among three creators of 33, 33 and 34 percent: 3 + 3 + 3, and 1 is left
    let creators = vec![(key(50), 33), (key(51), 33), (key(52), 34)];
    let (ledger, remaining) = native_ledger(1_000, Some(creators), 100);
    let (paid, left) = pay(ledger, &remaining, 100, true).unwrap();
    assert_eq!(left, 91);
    assert_eq!(paid.accounts[5].lamports, 3);
    assert_eq!(paid.accounts[6].lamports, 3);
    assert_eq!(paid.accounts[7].lamports, 3);
    assert_eq!(paid.accounts[ESCROW].lamports, 91);
    assert_eq!(paid.instructions.len(), 3);
}

#[test]
fn royalty_that_rounds_to_nothing_is_not_transferred() {
    // 250 basis points of 39 is nothing
    let (ledger, remaining) = native_ledger(250, Some(vec![(key(50), 100)]), 39);
    let (paid, left) = pay(ledger, &remaining, 39, true).unwrap();
    assert_eq!(left, 39);
    assert!(paid.instructions.is_empty());
    // a creator with no share is not paid either
    let (ledger, remaining) = native_ledger(250, Some(vec![(key(50), 0), (key(51), 100)]), 1_000_000);
    let (paid, left) = pay(ledger, &remaining, 1_000_000, true).unwrap();
    assert_eq!(left, 975_000);
    assert_eq!(
        operations(&paid.instructions),
        vec![Operation::Transfer { from: key(11), to: key(51), lamports: 25_000 }]
    );
}

#[test]
fn asset_without_creators_owes_nothing() {
    let (ledger, remaining) = native_ledger(250, None, 1_000_000);
    let (paid, left) = pay(ledger, &remaining, 1_000_000, true).unwrap();
    assert_eq!(left, 1_000_000);
    assert!(paid.instructions.is_empty());
    assert_eq!(paid.accounts[ESCROW].lamports, 1_000_000);
    // an empty list of creators is the same
    let (ledger, remaining) = native_ledger(250, Some(Vec::new()), 1_000_000);
    let (paid, left) = pay(ledger, &remaining, 1_000_000, true).unwrap();
    assert_eq!(left, 1_000_000);
    assert!(paid.instructions.is_empty());
}

#[test]
fn shares_of_less_than_the_whole_leave_the_rest_to_the_seller() {
    let (ledger, remaining) = native_ledger(1_000, Some(vec![(key(50), 40)]), 1_000);
    let (paid, left) = pay(ledger, &remaining, 1_000, true).unwrap();
    assert_eq!(left, 960);
    assert_eq!(paid.accounts[5].lamports, 40);
}

#[test]
fn shares_of_more_than_the_whole_fail() {
    let (ledger, remaining) = native_ledger(1_000, Some(vec![(key(50), 60), (key(51), 60)]), 1_000);
    assert_eq!(pay(ledger, &remaining, 1_000, true).unwrap_err(), AuctionHouseError::NumericalOverflow);
}

#[test]
fn royalty_of_more_than_the_price_fails() {
    let (ledger, remaining) = native_ledger(10_001, None, 1_000_000);
    assert_eq!(pay(ledger, &remaining, 1_000_000, true).unwrap_err(), AuctionHouseError::NumericalOverflow);
    // the whole price is a royalty
    let (ledger, remaining) = native_ledger(10_000, Some(vec![(key(50), 100)]), 1_000_000);
    let (paid, left) = pay(ledger, &remaining, 1_000_000, true).unwrap();
    assert_eq!(left, 0);
    assert_eq!(paid.accounts[5].lamports, 1_000_000);
}

#[test]
fn escrow_that_cannot_pay_the_royalty_fails() {
    let (ledger, remaining) = native_ledger(250, Some(vec![(key(50), 100)]), 24_999);
    assert_eq!(pay(ledger, &remaining, 1_000_000, true).unwrap_err(), AuctionHouseError::NumericalOverflow);
}

#[test]
fn creators_accounts_must_be_the_creators() {
    // another wallet in the creator's place
    let (mut ledger, remaining) = native_ledger(250, Some(vec![(key(50), 100)]), 1_000_000);
    ledger.accounts[5].key = key(51);
    assert_eq!(pay(ledger, &remaining, 1_000_000, true).unwrap_err(), AuctionHouseError::PublicKeyMismatch);
    // the creators in another order
    let creators = vec![(key(50), 50), (key(51), 50)];
    let (ledger, remaining) = native_ledger(250, Some(creators), 1_000_000);
    let swapped = vec![remaining[1], remaining[0]];
    assert_eq!(pay(ledger, &swapped, 1_000_000, true).unwrap_err(), AuctionHouseError::PublicKeyMismatch);
    // fewer accounts than creators
    let creators = vec![(key(50), 50), (key(51), 50)];
    let (ledger, remaining) = native_ledger(250, Some(creators), 1_000_000);
    let short = vec![remaining[0]];
    assert_eq!(pay(ledger, &short, 1_000_000, true).unwrap_err(), AuctionHouseError::PublicKeyMismatch);
}

#[test]
fn unreadable_metadata_fails() {
    let (mut ledger, remaining) = native_ledger(250, None, 1_000_000);
    ledger.accounts[METADATA].data = Vec::new();
    assert_eq!(pay(ledger, &remaining, 1_000_000, true).unwrap_err(), AuctionHouseError::MetadataDoesntExist);
    // not the length of a metadata record
    let (mut ledger, remaining) = native_ledger(250, None, 1_000_000);
    ledger.accounts[METADATA].data.pop();
    assert_eq!(pay(ledger, &remaining, 1_000_000, true).unwrap_err(), AuctionHouseError::MetadataDoesntExist);
    // a record of another kind
    let (mut ledger, remaining) = native_ledger(250, None, 1_000_000);
    ledger.accounts[METADATA].data[0] = 1;
    assert_eq!(pay(ledger, &remaining, 1_000_000, true).unwrap_err(), AuctionHouseError::MetadataDoesntExist);
    // not the metadata program's
    let (mut ledger, remaining) = native_ledger(250, None, 1_000_000);
    ledger.accounts[METADATA].owner = SYSTEM;
    assert_eq!(pay(ledger, &remaining, 1_000_000, true).unwrap_err(), AuctionHouseError::MetadataDoesntExist);
}

#[test]
fn creators_are_paid_in_tokens() {
    let creators = vec![(key(50), 70), (key(51), 30)];
    let (ledger, remaining) = token_ledger(500, Some(creators));
    let (paid, left) = pay(ledger, &remaining, 1_000_000, false).unwrap();
    assert_eq!(left, 950_000);
    let first = associated(&key(50), &MINT);
    let second = associated(&key(51), &MINT);
    assert_eq!(
        operations(&paid.instructions),
        vec![
            Operation::CreateAssociatedTokenAccount { funder: key(12), wallet: key(50), mint: MINT },
            Operation::TokenTransfer { source: key(11), destination: first, authority: HOUSE, amount: 35_000 },
            Operation::CreateAssociatedTokenAccount { funder: key(12), wallet: key(51), mint: MINT },
            Operation::TokenTransfer { source: key(11), destination: second, authority: HOUSE, amount: 15_000 },
        ]
    );
    assert_eq!(paid.instructions[0].signer_seeds, vec![b"payer".to_vec()]);
    assert_eq!(paid.instructions[1].signer_seeds, vec![b"signer".to_vec()]);
    // the token accounts exist now; no lamports have moved
    assert_eq!(paid.accounts[6].owner, token_program_id());
    assert_eq!(paid.accounts[6].data, token_record(&MINT, &key(50), 0));
    assert_eq!(paid.accounts[8].data, token_record(&MINT, &key(51), 0));
    assert_eq!(paid.accounts[ESCROW].lamports, 5);
    assert_eq!(paid.accounts[5].lamports, 0);
}

#[test]
fn creators_token_account_that_exists_is_not_created() {
    let (mut ledger, remaining) = token_ledger(500, Some(vec![(key(50), 100)]));
    ledger.accounts[6].data = token_record(&MINT, &key(50), 9);
    ledger.accounts[6].owner = token_program_id();
    let (paid, left) = pay(ledger, &remaining, 1_000_000, false).unwrap();
    assert_eq!(left, 950_000);
    assert_eq!(
        operations(&paid.instructions),
        vec![Operation::TokenTransfer {
            source: key(11),
            destination: associated(&key(50), &MINT),
            authority: HOUSE,
            amount: 50_000
        }]
    );
    assert_eq!(paid.accounts[6].data, token_record(&MINT, &key(50), 9));
}

#[test]
fn creators_token_account_must_be_the_associated_one() {
    // not at the associated address
    let (mut ledger, remaining) = token_ledger(500, Some(vec![(key(50), 100)]));
    ledger.accounts[6].key = key(99);
    assert_eq!(pay(ledger, &remaining, 1_000_000, false).unwrap_err(), AuctionHouseError::PublicKeyMismatch);
    // of another wallet
    let (mut ledger, remaining) = token_ledger(500, Some(vec![(key(50), 100)]));
    ledger.accounts[6].data = token_record(&MINT, &key(51), 0);
    ledger.accounts[6].owner = token_program_id();
    assert_eq!(pay(ledger, &remaining, 1_000_000, false).unwrap_err(), AuctionHouseError::PublicKeyMismatch);
    // not the token program's
    let (mut ledger, remaining) = token_ledger(500, Some(vec![(key(50), 100)]));
    ledger.accounts[6].data = token_record(&MINT, &key(50), 0);
    assert_eq!(pay(ledger, &remaining, 1_000_000, false).unwrap_err(), AuctionHouseError::IncorrectOwner);
    // missing among the accounts
    let (ledger, remaining) = token_ledger(500, Some(vec![(key(50), 100)]));
    let short = vec![remaining[0]];
    assert_eq!(pay(ledger, &short, 1_000_000, false).unwrap_err(), AuctionHouseError::PublicKeyMismatch);
}

#[test]
fn token_account_is_created_once_for_a_creator_named_twice() {
    let (ledger, remaining) = token_ledger(1_000, Some(vec![(key(50), 50)]));
    // the same two accounts stand for both entries
    let mut accounts = ledger.accounts;
    accounts[METADATA].data = metadata_record(1_000, Some(vec![(key(50), 50), (key(50), 50)]));
    let twice = vec![remaining[0], remaining[1], remaining[0], remaining[1]];
    let (paid, left) = pay(Ledger::new(accounts), &twice, 1_000, false).unwrap();
    assert_eq!(left, 900);
    let ata = associated(&key(50), &MINT);
    assert_eq!(
        operations(&paid.instructions),
        vec![
            Operation::CreateAssociatedTokenAccount { funder: key(12), wallet: key(50), mint: MINT },
            Operation::TokenTransfer { source: key(11), destination: ata, authority: HOUSE, amount: 50 },
            Operation::TokenTransfer { source: key(11), destination: ata, authority: HOUSE, amount: 50 },
        ]
    );
}

#[test]
fn associated_token_account_is_made() {
    let (ledger, remaining) = token_ledger(500, Some(vec![(key(50), 100)]));
    let seeds = vec![b"payer".to_vec(), vec![7]];
    let made = make_ata(ledger, remaining[1], remaining[0], TREASURY_MINT, PAYER, &seeds);
    let ata = &made.accounts[remaining[1]];
    assert_eq!(ata.owner, token_program_id());
    assert_eq!(ata.data.len(), 165);
    assert_eq!(ata.data, token_record(&MINT, &key(50), 0));
    assert_eq!(ata.lamports, 0);
    assert_eq!(ata.key, associated(&key(50), &MINT));
    assert_eq!(assert_is_ata(ata, &key(50), &MINT).map(|a| (a.amount, a.delegate)), Ok((0, None)));
    assert_eq!(
        operations(&made.instructions),
        vec![Operation::CreateAssociatedTokenAccount { funder: key(12), wallet: key(50), mint: MINT }]
    );
    assert_eq!(made.instructions[0].signer_seeds, seeds);
    // nothing else has changed
    assert_eq!(made.accounts[PAYER].lamports, 1_000);
    assert_eq!(made.accounts[remaining[0]], account(key(50), 0, Vec::new(), SYSTEM));
}

#[test]
fn marketplace_fee_in_native_currency() {
    let (ledger, _) = native_ledger(250, None, 1_000_000);
    let seeds = vec![b"signer".to_vec()];
    let (paid, fee) = pay_auction_house_fees(ledger, &house(), TREASURY, ESCROW, &seeds, 1_000_000, true).unwrap();
    assert_eq!(fee, 50_000);
    assert_eq!(paid.accounts[ESCROW].lamports, 950_000);
    assert_eq!(paid.accounts[TREASURY].lamports, 50_000);
    assert_eq!(
        operations(&paid.instructions),
        vec![Operation::Transfer { from: key(11), to: key(22), lamports: 50_000 }]
    );
    assert_eq!(paid.instructions[0].signer_seeds, seeds);
}

#[test]
fn marketplace_fee_of_nothing_is_still_transferred() {
    let (ledger, _) = native_ledger(250, None, 1_000_000);
    let (paid, fee) = pay_auction_house_fees(ledger, &house(), TREASURY, ESCROW, &Vec::new(), 19, true).unwrap();
    assert_eq!(fee, 0);
    assert_eq!(operations(&paid.instructions), vec![Operation::Transfer { from: key(11), to: key(22), lamports: 0 }]);
}

#[test]
fn marketplace_fee_in_tokens() {
    let (ledger, _) = token_ledger(250, None);
    let seeds = vec![b"signer".to_vec()];
    let (paid, fee) = pay_auction_house_fees(ledger, &house(), TREASURY, ESCROW, &seeds, 1_000_000, false).unwrap();
    assert_eq!(fee, 50_000);
    assert_eq!(paid.accounts[ESCROW].lamports, 5);
    assert_eq!(paid.accounts[TREASURY].lamports, 5);
    assert_eq!(
        operations(&paid.instructions),
        vec![Operation::TokenTransfer { source: key(11), destination: key(22), authority: HOUSE, amount: 50_000 }]
    );
}

#[test]
fn marketplace_fee_fails_where_it_cannot_be_paid() {
    let (ledger, _) = native_ledger(250, None, 49_999);
    assert_eq!(
        pay_auction_house_fees(ledger, &house(), TREASURY, ESCROW, &Vec::new(), 1_000_000, true).unwrap_err(),
        AuctionHouseError::NumericalOverflow
    );
    let greedy = AuctionHouse { seller_fee_basis_points: 10_001, ..house() };
    let (ledger, _) = native_ledger(250, None, 49_999);
    assert_eq!(
        pay_auction_house_fees(ledger, &greedy, TREASURY, ESCROW, &Vec::new(), u64::MAX, true).unwrap_err(),
        AuctionHouseError::NumericalOverflow
    );
}

fn delegated_record(mint: &Pubkey, owner: &Pubkey, delegate: &Pubkey) -> Vec<u8> {
    let account = spl_token::state::Account {
        mint: chain(mint),
        owner: chain(owner),
        amount: 0,
        delegate: COption::Some(chain(delegate)),
        state: spl_token::state::AccountState::Initialized,
        is_native: COption::None,
        delegated_amount: 5,
        close_authority: COption::None,
    };
    let mut data = vec![0u8; spl_token::state::Account::LEN];
    spl_token::state::Account::pack(account, &mut data).unwrap();
    data
}

#[test]
fn creators_token_account_with_a_delegate_is_not_paid() {
    let (mut ledger, remaining) = token_ledger(500, Some(vec![(key(50), 100)]));
    ledger.accounts[6].data = delegated_record(&MINT, &key(50), &key(66));
    ledger.accounts[6].owner = token_program_id();
    assert_eq!(
        pay(ledger, &remaining, 1_000_000, false).unwrap_err(),
        AuctionHouseError::CreatorATACannotHaveDelegate
    );
    // the second of two
    let (mut ledger, remaining) = token_ledger(500, Some(vec![(key(50), 50), (key(51), 50)]));
    ledger.accounts[8].data = delegated_record(&MINT, &key(51), &key(66));
    ledger.accounts[8].owner = token_program_id();
    assert_eq!(
        pay(ledger, &remaining, 1_000_000, false).unwrap_err(),
        AuctionHouseError::CreatorATACannotHaveDelegate
    );
    // a creator with no share
    let (mut ledger, remaining) = token_ledger(500, Some(vec![(key(50), 0), (key(51), 100)]));
    ledger.accounts[6].data = delegated_record(&MINT, &key(50), &key(66));
    ledger.accounts[6].owner = token_program_id();
    assert_eq!(
        pay(ledger, &remaining, 1_000_000, false).unwrap_err(),
        AuctionHouseError::CreatorATACannotHaveDelegate
    );
    // the wallet and the address come first
    let (mut ledger, remaining) = token_ledger(500, Some(vec![(key(50), 100)]));
    ledger.accounts[6].data = delegated_record(&MINT, &key(51), &key(66));
    ledger.accounts[6].owner = token_program_id();
    assert_eq!(pay(ledger, &remaining, 1_000_000, false).unwrap_err(), AuctionHouseError::PublicKeyMismatch);
    // in a native trade the token account is not looked at
    let (mut ledger, remaining) = native_ledger(500, Some(vec![(key(50), 100)]), 1_000_000);
    ledger.accounts[5].data = delegated_record(&MINT, &key(50), &key(66));
    assert!(pay(ledger, &remaining, 1_000_000, true).is_ok());
}

fn named(basis_points: u16, creators: Option<Vec<(Pubkey, u8)>>) -> Metadata {
    Metadata {
        seller_fee_basis_points: basis_points,
        creators: creators.map(|list| {
            list.iter().map(|(address, share)| Creator { address: *address, verified: true, share: *share }).collect()
        }),
    }
}

fn pay_named(ledger: Ledger, metadata: &Metadata, remaining: &Vec<usize>, size: u64, is_native: bool) -> Result<(Ledger, u64), AuctionHouseError> {
    let signer_seeds = vec![b"signer".to_vec()];
    let payer_seeds = vec![b"payer".to_vec()];
    pay_creators(ledger, metadata, remaining, ESCROW, HOUSE, PAYER, TREASURY_MINT, &signer_seeds, &payer_seeds, size, is_native)
}

#[test]
fn creators_named_by_a_record_are_paid() {
    // whatever the account of the metadata holds, the record handed in counts
    let (ledger, remaining) = native_ledger(9_999, None, 1_000_000);
    let two = vec![remaining.clone(), vec![5, 6]].concat();
    let mut accounts = ledger.accounts;
    accounts.push(account(key(50), 0, Vec::new(), SYSTEM));
    accounts.push(account(key(51), 7, Vec::new(), SYSTEM));
    let metadata = named(250, Some(vec![(key(50), 70), (key(51), 30)]));
    let (paid, left) = pay_named(Ledger::new(accounts), &metadata, &two, 1_000_000, true).unwrap();
    assert_eq!(left, 975_000);
    assert_eq!(paid.accounts[5].lamports, 17_500);
    assert_eq!(paid.accounts[6].lamports, 7 + 7_500);
    assert_eq!(paid.accounts[ESCROW].lamports, 975_000);
    assert_eq!(
        operations(&paid.instructions),
        vec![
            Operation::Transfer { from: key(11), to: key(50), lamports: 17_500 },
            Operation::Transfer { from: key(11), to: key(51), lamports: 7_500 },
        ]
    );
}

#[test]
fn record_without_creators_or_royalty() {
    let (ledger, remaining) = native_ledger(250, Some(vec![(key(50), 100)]), 1_000_000);
    let (paid, left) = pay_named(ledger, &named(250, None), &remaining, 1_000_000, true).unwrap();
    assert_eq!(left, 1_000_000);
    assert!(paid.instructions.is_empty());
    let (ledger, remaining) = native_ledger(250, Some(vec![(key(50), 100)]), 1_000_000);
    let (paid, left) = pay_named(ledger, &named(0, Some(vec![(key(50), 100)])), &remaining, 1_000_000, true).unwrap();
    assert_eq!(left, 1_000_000);
    assert!(paid.instructions.is_empty());
    let (ledger, remaining) = native_ledger(250, None, 1_000_000);
    assert_eq!(
        pay_named(ledger, &named(10_001, None), &remaining, 1_000_000, true).unwrap_err(),
        AuctionHouseError::NumericalOverflow
    );
    let (ledger, remaining) = native_ledger(250, Some(vec![(key(50), 100)]), 1_000_000);
    assert_eq!(
        pay_named(ledger, &named(250, Some(vec![(key(51), 100)])), &remaining, 1_000_000, true).unwrap_err(),
        AuctionHouseError::PublicKeyMismatch
    );
}

#[test]
fn receiving_account_is_made_ready() {
    let seeds = vec![b"payer".to_vec()];
    // one that is not there is created, and is ready at the associated address only
    let (ledger, remaining) = token_ledger(500, Some(vec![(key(50), 100)]));
    let ready = ready_receipt(
        ledger, remaining[1], remaining[0], TREASURY_MINT, PAYER, &seeds, AuctionHouseError::SellerATACannotHaveDelegate,
    )
    .unwrap();
    assert_eq!(ready.accounts[remaining[1]].data, token_record(&MINT, &key(50), 0));
    assert_eq!(ready.instructions.len(), 1);
    let (mut ledger, remaining) = token_ledger(500, Some(vec![(key(50), 100)]));
    ledger.accounts[remaining[1]].key = key(99);
    assert_eq!(
        ready_receipt(
            ledger, remaining[1], remaining[0], TREASURY_MINT, PAYER, &seeds, AuctionHouseError::SellerATACannotHaveDelegate,
        )
        .unwrap_err(),
        AuctionHouseError::PublicKeyMismatch
    );
    // one that is there is refused with the error handed in where it has a delegate
    for error in [AuctionHouseError::BuyerATACannotHaveDelegate, AuctionHouseError::CreatorATACannotHaveDelegate] {
        let (mut ledger, remaining) = token_ledger(500, Some(vec![(key(50), 100)]));
        ledger.accounts[remaining[1]].data = delegated_record(&MINT, &key(50), &key(66));
        ledger.accounts[remaining[1]].owner = token_program_id();
        assert_eq!(
            ready_receipt(ledger, remaining[1], remaining[0], TREASURY_MINT, PAYER, &seeds, error).unwrap_err(),
            error
        );
    }
    // and is left as it is where it has none
    let (mut ledger, remaining) = token_ledger(500, Some(vec![(key(50), 100)]));
    ledger.accounts[remaining[1]].data = token_record(&MINT, &key(50), 4);
    ledger.accounts[remaining[1]].owner = token_program_id();
    let before = ledger.accounts.clone();
    let ready = ready_receipt(
        ledger, remaining[1], remaining[0], TREASURY_MINT, PAYER, &seeds, AuctionHouseError::SellerATACannotHaveDelegate,
    )
    .unwrap();
    assert_eq!(ready.accounts, before);
    assert!(ready.instructions.is_empty());
}
