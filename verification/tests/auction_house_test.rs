use auction_house::auction_house::{create_auction_house, CreateAuctionHouse};
use auction_house::constant::{id, native_mint_id, token_program_id};
use auction_house::errors::AuctionHouseError;
use auction_house::ledger::Ledger;
use auction_house::state::{AccountInfo, AuctionHouse, Instruction, Operation, Pubkey};
use auction_house::utils::{create_or_allocate_account_raw, create_program_token_account_if_not_present};
use solana_program::program_option::COption;
use solana_program::program_pack::Pack;

type ChainKey = solana_program::pubkey::Pubkey;

const SYSTEM: Pubkey = Pubkey { bytes: [0; 32] };
const TOKEN_RENT: u64 = 2_039_280;

fn key(n: u8) -> Pubkey {
    Pubkey { bytes: [n; 32] }
}

fn chain(key: &Pubkey) -> ChainKey {
    ChainKey::new_from_array(key.bytes)
}

fn derive(seeds: &[&[u8]], program: &Pubkey) -> (Pubkey, u8) {
    let (address, bump) = ChainKey::find_program_address(seeds, &chain(program));
    (Pubkey { bytes: address.to_bytes() }, bump)
}

fn associated(wallet: &Pubkey, mint: &Pubkey) -> Pubkey {
    let address = spl_associated_token_account::get_associated_token_address(&chain(wallet), &chain(mint));
    Pubkey { bytes: address.to_bytes() }
}

fn token_record(mint: &Pubkey, owner: &Pubkey) -> Vec<u8> {
    let account = spl_token::state::Account {
        mint: chain(mint),
        owner: chain(owner),
        amount: 0,
        delegate: COption::None,
        state: spl_token::state::AccountState::Initialized,
        is_native: COption::None,
        delegated_amount: 0,
        close_authority: COption::None,
    };
    let mut data = vec![0u8; spl_token::state::Account::LEN];
    spl_token::state::Account::pack(account, &mut data).unwrap();
    data
}

fn account(key: Pubkey, lamports: u64) -> AccountInfo {
    AccountInfo { key, is_signer: false, lamports, data: Vec::new(), owner: SYSTEM }
}

fn blank(key: Pubkey) -> AuctionHouse {
    AuctionHouse {
        key,
        auction_house_fee_account: SYSTEM,
        auction_house_treasury: SYSTEM,
        treasury_withdrawal_destination: SYSTEM,
        fee_withdrawal_destination: SYSTEM,
        treasury_mint: SYSTEM,
        authority: SYSTEM,
        creator: SYSTEM,
        bump: 0,
        treasury_bump: 0,
        fee_payer_bump: 0,
        seller_fee_basis_points: 0,
        requires_sign_off: false,
        can_change_sale_price: false,
        has_auctioneer: false,
    }
}

/// The creation of a marketplace of the authority `key(4)` for the mint given,
/// whose treasury is to be paid out to `key(5)`; and the bump seeds of its
/// address, of its fee account and of its treasury.
fn scene(treasury_mint: Pubkey) -> (CreateAuctionHouse, u8, u8, u8) {
    let authority = key(4);
    let owner = key(5);
    let native = treasury_mint == native_mint_id();
    let (house, bump) = derive(&[b"auction_house", &authority.bytes, &treasury_mint.bytes], &id());
    let (fee_account, fee_payer_bump) = derive(&[b"auction_house", &house.bytes, b"fee_payer"], &id());
    let (treasury, treasury_bump) = derive(&[b"auction_house", &house.bytes, b"treasury"], &id());
    let destination = if native { owner } else { associated(&owner, &treasury_mint) };
    let mut accounts = vec![
        AccountInfo { data: vec![0u8; 82], owner: token_program_id(), ..account(treasury_mint, 1_461_600) },
        AccountInfo { is_signer: true, ..account(key(1), 10_000_000) },
        account(authority, 0),
        account(key(6), 0),
        account(owner, 0),
        account(fee_account, 0),
        account(treasury, 0),
    ];
    let treasury_withdrawal_destination = if native {
        4
    } else {
        accounts.push(account(destination, 0));
        7
    };
    let ctx = CreateAuctionHouse {
        accounts,
        treasury_mint: 0,
        payer: 1,
        authority: 2,
        fee_withdrawal_destination: 3,
        treasury_withdrawal_destination,
        treasury_withdrawal_destination_owner: 4,
        auction_house: blank(house),
        auction_house_fee_account: 5,
        auction_house_treasury: 6,
        rent_exempt_minimum: TOKEN_RENT,
    };
    (ctx, bump, fee_payer_bump, treasury_bump)
}

fn operations(instructions: &[Instruction]) -> Vec<Operation> {
    instructions.iter().map(|i| i.operation).collect()
}

#[test]
fn native_marketplace_is_created() {
    let (mut ctx, bump, fee_payer_bump, treasury_bump) = scene(native_mint_id());
    assert!(ctx.is_well_formed());
    let before = ctx.accounts.clone();
    let house = ctx.auction_house.key;
    let instructions =
        create_auction_house(&mut ctx, bump, fee_payer_bump, treasury_bump, 500, true, false).unwrap();
    assert!(instructions.is_empty());
    assert_eq!(ctx.accounts, before);
    assert_eq!(
        ctx.auction_house,
        AuctionHouse {
            key: house,
            auction_house_fee_account: before[5].key,
            auction_house_treasury: before[6].key,
            treasury_withdrawal_destination: key(5),
            fee_withdrawal_destination: key(6),
            treasury_mint: native_mint_id(),
            authority: key(4),
            creator: key(4),
            bump,
            treasury_bump,
            fee_payer_bump,
            seller_fee_basis_points: 500,
            requires_sign_off: true,
            can_change_sale_price: false,
            has_auctioneer: false,
        }
    );
}

#[test]
fn token_marketplace_is_created_with_its_token_accounts() {
    let mint = key(30);
    let (mut ctx, bump, fee_payer_bump, treasury_bump) = scene(mint);
    let house = ctx.auction_house.key;
    let treasury = ctx.accounts[6].key;
    let instructions =
        create_auction_house(&mut ctx, bump, fee_payer_bump, treasury_bump, 10_000, false, true).unwrap();
    assert_eq!(
        operations(&instructions),
        vec![
            Operation::Transfer { from: key(1), to: treasury, lamports: TOKEN_RENT },
            Operation::Allocate { account: treasury, space: 165 },
            Operation::Assign { account: treasury, owner: token_program_id() },
            Operation::InitializeAccount { account: treasury, mint, owner: house },
            Operation::CreateAssociatedTokenAccount { funder: key(1), wallet: key(5), mint },
        ]
    );
    let treasury_seeds =
        vec![b"auction_house".to_vec(), house.bytes.to_vec(), b"treasury".to_vec(), vec![treasury_bump]];
    assert!(instructions[0].signer_seeds.is_empty());
    assert_eq!(instructions[1].signer_seeds, treasury_seeds);
    assert_eq!(instructions[2].signer_seeds, treasury_seeds);
    assert_eq!(instructions[3].signer_seeds, treasury_seeds);
    assert!(instructions[4].signer_seeds.is_empty());
    assert_eq!(ctx.accounts[6].lamports, TOKEN_RENT);
    assert_eq!(ctx.accounts[6].owner, token_program_id());
    assert_eq!(ctx.accounts[6].data, token_record(&mint, &house));
    assert_eq!(ctx.accounts[1].lamports, 10_000_000 - TOKEN_RENT);
    assert_eq!(ctx.accounts[7].owner, token_program_id());
    assert_eq!(ctx.accounts[7].data, token_record(&mint, &key(5)));
    assert_eq!(ctx.auction_house.seller_fee_basis_points, 10_000);
    assert!(ctx.auction_house.can_change_sale_price);
    assert_eq!(ctx.auction_house.treasury_withdrawal_destination, associated(&key(5), &mint));
}

#[test]
fn treasury_that_exists_is_left_alone() {
    let mint = key(30);
    let (mut ctx, bump, fee_payer_bump, treasury_bump) = scene(mint);
    let house = ctx.auction_house.key;
    ctx.accounts[6].data = token_record(&mint, &house);
    ctx.accounts[6].owner = token_program_id();
    ctx.accounts[7].data = token_record(&mint, &key(5));
    ctx.accounts[7].owner = token_program_id();
    let before = ctx.accounts.clone();
    let instructions =
        create_auction_house(&mut ctx, bump, fee_payer_bump, treasury_bump, 500, false, false).unwrap();
    assert!(instructions.is_empty());
    assert_eq!(ctx.accounts, before);
}

#[test]
fn fee_of_more_than_the_whole_is_refused() {
    let (mut ctx, bump, fee_payer_bump, treasury_bump) = scene(key(30));
    let before = ctx.accounts.clone();
    let house = ctx.auction_house;
    assert_eq!(
        create_auction_house(&mut ctx, bump, fee_payer_bump, treasury_bump, 10_001, false, false),
        Err(AuctionHouseError::BumpSeedNotInHashMap)
    );
    assert_eq!(ctx.accounts, before);
    assert_eq!(ctx.auction_house, house);
}

#[test]
fn marketplace_must_stand_at_its_derived_address() {
    let (mut ctx, bump, fee_payer_bump, treasury_bump) = scene(native_mint_id());
    ctx.auction_house.key = key(77);
    assert_eq!(
        create_auction_house(&mut ctx, bump, fee_payer_bump, treasury_bump, 500, false, false),
        Err(AuctionHouseError::DerivedKeyInvalid)
    );
    let (mut ctx, bump, fee_payer_bump, treasury_bump) = scene(native_mint_id());
    assert_eq!(
        create_auction_house(&mut ctx, bump, fee_payer_bump.wrapping_sub(1), treasury_bump, 500, false, false),
        Err(AuctionHouseError::DerivedKeyInvalid)
    );
    assert_eq!(
        create_auction_house(&mut ctx, bump, fee_payer_bump, treasury_bump.wrapping_sub(1), 500, false, false),
        Err(AuctionHouseError::DerivedKeyInvalid)
    );
    ctx.accounts[5].key = key(78);
    assert_eq!(
        create_auction_house(&mut ctx, bump, fee_payer_bump, treasury_bump, 500, false, false),
        Err(AuctionHouseError::DerivedKeyInvalid)
    );
}

#[test]
fn treasury_is_paid_out_to_its_owner() {
    // native: to the owner's wallet
    let (mut ctx, bump, fee_payer_bump, treasury_bump) = scene(native_mint_id());
    ctx.treasury_withdrawal_destination = 3;
    assert_eq!(
        create_auction_house(&mut ctx, bump, fee_payer_bump, treasury_bump, 500, false, false),
        Err(AuctionHouseError::PublicKeyMismatch)
    );
    // in tokens: to the owner's associated token account
    let (mut ctx, bump, fee_payer_bump, treasury_bump) = scene(key(30));
    ctx.accounts[7].key = key(79);
    let before = ctx.accounts.clone();
    assert_eq!(
        create_auction_house(&mut ctx, bump, fee_payer_bump, treasury_bump, 500, false, false),
        Err(AuctionHouseError::PublicKeyMismatch)
    );
    assert_eq!(ctx.accounts, before);
}

#[test]
fn payer_that_cannot_fund_the_treasury_fails() {
    let (mut ctx, bump, fee_payer_bump, treasury_bump) = scene(key(30));
    ctx.accounts[1].lamports = TOKEN_RENT - 1;
    assert_eq!(
        create_auction_house(&mut ctx, bump, fee_payer_bump, treasury_bump, 500, false, false),
        Err(AuctionHouseError::NumericalOverflow)
    );
}

#[test]
fn account_is_funded_to_the_minimum() {
    let ledger = Ledger::new(vec![account(key(1), 1_000), account(key(2), 300)]);
    let signer = vec![b"payer".to_vec()];
    let new = vec![b"new".to_vec()];
    let made = create_or_allocate_account_raw(ledger, key(9), 1, 500, 0, 10, &signer, &new).unwrap();
    assert_eq!(made.accounts[0].lamports, 800);
    assert_eq!(made.accounts[1].lamports, 500);
    assert_eq!(made.accounts[1].data, vec![0u8; 10]);
    assert_eq!(made.accounts[1].owner, key(9));
    assert_eq!(
        operations(&made.instructions),
        vec![
            Operation::Transfer { from: key(1), to: key(2), lamports: 200 },
            Operation::Allocate { account: key(2), space: 10 },
            Operation::Assign { account: key(2), owner: key(9) },
        ]
    );
    assert_eq!(made.instructions[0].signer_seeds, signer);
    assert_eq!(made.instructions[1].signer_seeds, new);
    assert_eq!(made.instructions[2].signer_seeds, new);
}

#[test]
fn account_that_holds_enough_is_not_funded() {
    let ledger = Ledger::new(vec![account(key(1), 1_000), account(key(2), 500)]);
    let made = create_or_allocate_account_raw(ledger, key(9), 1, 500, 0, 0, &Vec::new(), &Vec::new()).unwrap();
    assert_eq!(made.accounts[0].lamports, 1_000);
    assert_eq!(made.accounts[1].lamports, 500);
    assert!(made.accounts[1].data.is_empty());
    assert_eq!(made.instructions.len(), 2);
    // an account holds one lamport at least
    let ledger = Ledger::new(vec![account(key(1), 1_000), account(key(2), 0)]);
    let made = create_or_allocate_account_raw(ledger, key(9), 1, 0, 0, 0, &Vec::new(), &Vec::new()).unwrap();
    assert_eq!(made.accounts[1].lamports, 1);
    assert_eq!(made.accounts[0].lamports, 999);
    // a payer that holds too little
    let ledger = Ledger::new(vec![account(key(1), 199), account(key(2), 300)]);
    assert_eq!(
        create_or_allocate_account_raw(ledger, key(9), 1, 500, 0, 10, &Vec::new(), &Vec::new()).unwrap_err(),
        AuctionHouseError::NumericalOverflow
    );
}

#[test]
fn program_token_account_is_set_up_when_absent() {
    let mint = AccountInfo { data: vec![0u8; 82], owner: token_program_id(), ..account(key(30), 1) };
    let accounts = vec![account(key(1), 5_000_000), account(key(2), 0), mint];
    let signer = vec![b"treasury".to_vec()];
    let made = create_program_token_account_if_not_present(
        Ledger::new(accounts.clone()), 1, 0, 2, key(20), TOKEN_RENT, &signer, &Vec::new(), false,
    )
    .unwrap();
    assert_eq!(made.accounts[1].data, token_record(&key(30), &key(20)));
    assert_eq!(made.accounts[1].owner, token_program_id());
    assert_eq!(made.accounts[1].lamports, TOKEN_RENT);
    assert_eq!(made.instructions.len(), 4);
    assert_eq!(
        made.instructions[3].operation,
        Operation::InitializeAccount { account: key(2), mint: key(30), owner: key(20) }
    );
    // a native trade needs none
    let native = create_program_token_account_if_not_present(
        Ledger::new(accounts.clone()), 1, 0, 2, key(20), TOKEN_RENT, &signer, &Vec::new(), true,
    )
    .unwrap();
    assert_eq!(native.accounts, accounts);
    assert!(native.instructions.is_empty());
    // one that is there is left as it is
    let mut there = accounts.clone();
    there[1].data = vec![1, 2, 3];
    let kept = create_program_token_account_if_not_present(
        Ledger::new(there.clone()), 1, 0, 2, key(20), TOKEN_RENT, &signer, &Vec::new(), false,
    )
    .unwrap();
    assert_eq!(kept.accounts, there);
    assert!(kept.instructions.is_empty());
}

#[test]
fn accounts_of_a_creation_are_well_formed() {
    let (mut ctx, ..) = scene(key(30));
    assert!(ctx.is_well_formed());
    ctx.auction_house_treasury = ctx.accounts.len();
    assert!(!ctx.is_well_formed());
    ctx.auction_house_treasury = 6;
    ctx.accounts[2].key = ctx.accounts[1].key;
    assert!(!ctx.is_well_formed());
}
