//! The creation of a marketplace.

use vstd::prelude::*;
use crate::constant::{id, native_mint_id};
use crate::errors::AuctionHouseError;
use crate::laws::lemma_creation_keeps_addresses;
use crate::ledger::{
    copy_accounts, distinct_keys, has_distinct_keys, is_outcome, lemma_addresses_stay_distinct, Ledger,
    LedgerView,
};
use crate::program::try_find_program_address;
use crate::seeds::{
    assert_seeds_hold, auction_house_address_seeds, auction_house_address_seeds_of, fee_payer_seeds,
    fee_payer_seeds_of, seeds_hold, treasury_seeds, treasury_seeds_of,
};
use crate::state::{AccountInfo, AccountView, AuctionHouse, Instruction};
use crate::utils::{
    assert_is_ata, assert_keys_equal, ata_made, create_program_token_account_if_not_present, derivation,
    is_ata, keys_equal, make_ata, program_token_account_present,
};

verus! {

/// The accounts of the creation of a marketplace. `accounts` holds each account
/// of the transaction once; every other field but the marketplace and the rent
/// says at which place in it the account of that name stands.
#[derive(Debug)]
pub struct CreateAuctionHouse {
    /// The accounts of the transaction, one entry for each address.
    pub accounts: Vec<AccountInfo>,
    /// The mint in which the marketplace gives its prices.
    pub treasury_mint: usize,
    /// Who pays for the accounts that are set up.
    pub payer: usize,
    /// Who is to govern the marketplace.
    pub authority: usize,
    /// Where the fee account is to be paid out to.
    pub fee_withdrawal_destination: usize,
    /// Where the treasury is to be paid out to: the owner's wallet where the
    /// mint is the native one, else the owner's token account of the mint.
    pub treasury_withdrawal_destination: usize,
    /// To whom the treasury is to be paid out.
    pub treasury_withdrawal_destination_owner: usize,
    /// The marketplace's record, with its address, to fill in.
    pub auction_house: AuctionHouse,
    /// The marketplace's fee account.
    pub auction_house_fee_account: usize,
    /// The marketplace's treasury.
    pub auction_house_treasury: usize,
    /// The least balance that exempts a token account from rent, as the
    /// chain's rent rules give it.
    pub rent_exempt_minimum: u64,
}

impl CreateAuctionHouse {
    /// Whether no two of the accounts stand at one address, and every place
    /// named is a place among the accounts.
    pub open spec fn wf(&self) -> bool {
        let len = self.accounts.len();
        &&& distinct_keys(self.accounts.deep_view())
        &&& self.treasury_mint < len
        &&& self.payer < len
        &&& self.authority < len
        &&& self.fee_withdrawal_destination < len
        &&& self.treasury_withdrawal_destination < len
        &&& self.treasury_withdrawal_destination_owner < len
        &&& self.auction_house_fee_account < len
        &&& self.auction_house_treasury < len
    }

    /// Tests whether no two of the accounts stand at one address, and every
    /// place named is a place among the accounts.
    pub fn is_well_formed(&self) -> (well_formed: bool)
        ensures
            well_formed == self.wf(),
    {
        let len = self.accounts.len();
        has_distinct_keys(&self.accounts) && self.treasury_mint < len && self.payer < len && self.authority < len && self.fee_withdrawal_destination
            < len && self.treasury_withdrawal_destination < len && self.treasury_withdrawal_destination_owner
            < len && self.auction_house_fee_account < len && self.auction_house_treasury < len
    }
}

/// The record of a new marketplace: what the instruction is handed, the
/// addresses of the accounts, and the bump seed of the marketplace's own
/// address. The authority is also its creator.
pub open spec fn new_house(
    accounts: Seq<AccountView>,
    ctx: CreateAuctionHouse,
    bump: u8,
    fee_payer_bump: u8,
    treasury_bump: u8,
    seller_fee_basis_points: u16,
    requires_sign_off: bool,
    can_change_sale_price: bool,
) -> AuctionHouse {
    AuctionHouse {
        bump,
        fee_payer_bump,
        treasury_bump,
        seller_fee_basis_points,
        requires_sign_off,
        can_change_sale_price,
        creator: accounts[ctx.authority as int].key,
        authority: accounts[ctx.authority as int].key,
        treasury_mint: accounts[ctx.treasury_mint as int].key,
        auction_house_fee_account: accounts[ctx.auction_house_fee_account as int].key,
        auction_house_treasury: accounts[ctx.auction_house_treasury as int].key,
        treasury_withdrawal_destination: accounts[ctx.treasury_withdrawal_destination as int].key,
        fee_withdrawal_destination: accounts[ctx.fee_withdrawal_destination as int].key,
        ..ctx.auction_house
    }
}

/// The ledger after the marketplace's accounts have been set up. The treasury
/// is set up as a token account of the marketplace where the mint is not the
/// native one. The account that the treasury is paid out to must then be the
/// owner's wallet where the mint is the native one (`PublicKeyMismatch`); else
/// it is created where it holds no record, and must be the owner's associated
/// token account of the mint.
pub open spec fn house_accounts_made(ledger: LedgerView, ctx: CreateAuctionHouse, house: AuctionHouse) -> Result<
    LedgerView,
    AuctionHouseError,
> {
    let is_native = ledger.accounts[ctx.treasury_mint as int].key == native_mint_id();
    let destination = ctx.treasury_withdrawal_destination as int;
    let owner = ctx.treasury_withdrawal_destination_owner as int;
    match program_token_account_present(
        ledger,
        ctx.auction_house_treasury as int,
        ctx.payer as int,
        ctx.treasury_mint as int,
        house.key,
        ctx.rent_exempt_minimum,
        treasury_seeds(house),
        Seq::empty(),
        is_native,
    ) {
        Err(e) => Err(e),
        Ok(present) => if is_native {
            match keys_equal(present.accounts[destination].key, present.accounts[owner].key) {
                Err(e) => Err(e),
                Ok(_) => Ok(present),
            }
        } else {
            let made = if present.accounts[destination].data.len() == 0 {
                ata_made(present, destination, owner, ctx.treasury_mint as int, ctx.payer as int, Seq::empty())
            } else {
                present
            };
            match is_ata(
                made.accounts[destination],
                made.accounts[owner].key,
                made.accounts[ctx.treasury_mint as int].key,
            ) {
                Err(e) => Err(e),
                Ok(_) => Ok(made),
            }
        },
    }
}

/// Sets up the marketplace's accounts.
fn make_house_accounts(ledger: Ledger, ctx: &CreateAuctionHouse, house: &AuctionHouse) -> (result: Result<
    Ledger,
    AuctionHouseError,
>)
    requires
        ctx.wf(),
        ledger@.accounts.len() == ctx.accounts.len(),
    ensures
        is_outcome(result, house_accounts_made(ledger@, *ctx, *house)),
        result is Ok ==> result->Ok_0@.accounts.len() == ledger@.accounts.len(),
{
    let is_native = ledger.accounts[ctx.treasury_mint].key == native_mint_id();
    let none: Vec<Vec<u8>> = Vec::new();
    assert(none.deep_view() =~= Seq::<Seq<u8>>::empty());
    let auction_house_treasury_seeds = treasury_seeds_of(house);
    let present = create_program_token_account_if_not_present(
        ledger,
        ctx.auction_house_treasury,
        ctx.payer,
        ctx.treasury_mint,
        house.key,
        ctx.rent_exempt_minimum,
        &auction_house_treasury_seeds,
        &none,
        is_native,
    )?;
    if is_native {
        assert_keys_equal(
            present.accounts[ctx.treasury_withdrawal_destination].key,
            present.accounts[ctx.treasury_withdrawal_destination_owner].key,
        )?;
        Ok(present)
    } else {
        let made = if present.accounts[ctx.treasury_withdrawal_destination].data_is_empty() {
            make_ata(
                present,
                ctx.treasury_withdrawal_destination,
                ctx.treasury_withdrawal_destination_owner,
                ctx.treasury_mint,
                ctx.payer,
                &none,
            )
        } else {
            present
        };
        assert(made@.accounts.len() == ledger@.accounts.len());
        assert_is_ata(
            &made.accounts[ctx.treasury_withdrawal_destination],
            &made.accounts[ctx.treasury_withdrawal_destination_owner].key,
            &made.accounts[ctx.treasury_mint].key,
        )?;
        Ok(made)
    }
}

/// What the creation of a marketplace gives: its record, and the ledger after
/// it. In the order in which they are tested: the marketplace's address is the
/// one derived from the authority and the mint, and the fee account and the
/// treasury stand at the addresses made from the marketplace with the bump
/// seeds given (`DerivedKeyInvalid`); the marketplace's fee is no more than
/// 10000 basis points (`BumpSeedNotInHashMap`); then the accounts are set up.
pub open spec fn house_created(
    ctx: CreateAuctionHouse,
    fee_payer_bump: u8,
    treasury_bump: u8,
    seller_fee_basis_points: u16,
    requires_sign_off: bool,
    can_change_sale_price: bool,
) -> Result<(AuctionHouse, LedgerView), AuctionHouseError> {
    let start = LedgerView { accounts: ctx.accounts.deep_view(), instructions: Seq::empty() };
    match derivation(
        id(),
        ctx.auction_house.key,
        auction_house_address_seeds(
            start.accounts[ctx.authority as int].key,
            start.accounts[ctx.treasury_mint as int].key,
        ),
    ) {
        Err(e) => Err(e),
        Ok(bump) => {
            let house = new_house(
                start.accounts,
                ctx,
                bump,
                fee_payer_bump,
                treasury_bump,
                seller_fee_basis_points,
                requires_sign_off,
                can_change_sale_price,
            );
            if seeds_hold(house.auction_house_fee_account, fee_payer_seeds(house)) is Err || seeds_hold(
                house.auction_house_treasury,
                treasury_seeds(house),
            ) is Err {
                Err(AuctionHouseError::DerivedKeyInvalid)
            } else if seller_fee_basis_points > 10000 {
                Err(AuctionHouseError::BumpSeedNotInHashMap)
            } else {
                match house_accounts_made(start, ctx, house) {
                    Err(e) => Err(e),
                    Ok(made) => Ok((house, made)),
                }
            }
        },
    }
}

/// Creates the marketplace on a copy of the accounts.
fn create(
    ctx: &CreateAuctionHouse,
    fee_payer_bump: u8,
    treasury_bump: u8,
    seller_fee_basis_points: u16,
    requires_sign_off: bool,
    can_change_sale_price: bool,
) -> (result: Result<(AuctionHouse, Ledger), AuctionHouseError>)
    requires
        ctx.wf(),
    ensures
        match house_created(
            *ctx,
            fee_payer_bump,
            treasury_bump,
            seller_fee_basis_points,
            requires_sign_off,
            can_change_sale_price,
        ) {
            Ok((house, ledger)) => result is Ok && result->Ok_0.0 == house && result->Ok_0.1@ == ledger,
            Err(e) => result == Err::<(AuctionHouse, Ledger), AuctionHouseError>(e),
        },
        result is Ok ==> result->Ok_0.1@.accounts.len() == ctx.accounts.len(),
        result is Ok ==> distinct_keys(result->Ok_0.1@.accounts),
{
    let start = Ledger::new(copy_accounts(&ctx.accounts));
    let authority = start.accounts[ctx.authority].key;
    let treasury_mint = start.accounts[ctx.treasury_mint].key;
    let seeds = auction_house_address_seeds_of(&authority, &treasury_mint);
    let bump = match try_find_program_address(&seeds, &id()) {
        Some((address, bump)) => {
            if address != ctx.auction_house.key {
                return Err(AuctionHouseError::DerivedKeyInvalid);
            }
            bump
        },
        None => {
            return Err(AuctionHouseError::DerivedKeyInvalid);
        },
    };
    let house = AuctionHouse {
        bump,
        fee_payer_bump,
        treasury_bump,
        seller_fee_basis_points,
        requires_sign_off,
        can_change_sale_price,
        creator: authority,
        authority,
        treasury_mint,
        auction_house_fee_account: start.accounts[ctx.auction_house_fee_account].key,
        auction_house_treasury: start.accounts[ctx.auction_house_treasury].key,
        treasury_withdrawal_destination: start.accounts[ctx.treasury_withdrawal_destination].key,
        fee_withdrawal_destination: start.accounts[ctx.fee_withdrawal_destination].key,
        key: ctx.auction_house.key,
        has_auctioneer: ctx.auction_house.has_auctioneer,
    };
    assert_seeds_hold(&house.auction_house_fee_account, &fee_payer_seeds_of(&house))?;
    assert_seeds_hold(&house.auction_house_treasury, &treasury_seeds_of(&house))?;
    if seller_fee_basis_points > 10000 {
        return Err(AuctionHouseError::BumpSeedNotInHashMap);
    }
    let made = make_house_accounts(start, ctx, &house)?;
    proof {
        lemma_creation_keeps_addresses(
            *ctx,
            fee_payer_bump,
            treasury_bump,
            seller_fee_basis_points,
            requires_sign_off,
            can_change_sale_price,
        );
        lemma_addresses_stay_distinct(
            LedgerView { accounts: ctx.accounts.deep_view(), instructions: Seq::empty() },
            made@,
        );
    }
    Ok((house, made))
}

/// Creates a marketplace: fills in its record and sets up its treasury and
/// the account that the treasury is paid out to. The bump seed of the
/// marketplace's own address is derived, not taken from the caller.
///
/// On success the accounts are those after the creation, the marketplace's
/// record is filled in, and the result lists what the creation asks of the
/// programs that keep the ledger, in order. The balances leave out the rent of
/// an associated token account that has been created: that is for the program
/// that creates it to move. On failure nothing has changed.
pub fn create_auction_house(
    ctx: &mut CreateAuctionHouse,
    _bump: u8,
    fee_payer_bump: u8,
    treasury_bump: u8,
    seller_fee_basis_points: u16,
    requires_sign_off: bool,
    can_change_sale_price: bool,
) -> (result: Result<Vec<Instruction>, AuctionHouseError>)
    requires
        old(ctx).wf(),
    ensures
        match house_created(
            *old(ctx),
            fee_payer_bump,
            treasury_bump,
            seller_fee_basis_points,
            requires_sign_off,
            can_change_sale_price,
        ) {
            Ok((house, ledger)) => result is Ok && result->Ok_0.deep_view() == ledger.instructions
                && final(ctx).accounts.deep_view() == ledger.accounts && *final(ctx) == (CreateAuctionHouse {
                accounts: final(ctx).accounts,
                auction_house: house,
                ..*old(ctx)
            }),
            Err(e) => result == Err::<Vec<Instruction>, AuctionHouseError>(e) && *final(ctx) == *old(ctx),
        },
        final(ctx).wf(),
{
    let (house, made) = create(
        ctx,
        fee_payer_bump,
        treasury_bump,
        seller_fee_basis_points,
        requires_sign_off,
        can_change_sale_price,
    )?;
    ctx.auction_house = house;
    ctx.accounts = made.accounts;
    Ok(made.instructions)
}

} // verus!
