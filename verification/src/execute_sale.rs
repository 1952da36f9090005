//! The settlement of a sale: a buyer's order and a seller's order for the same
//! tokens at the same price are matched, the price is divided between the
//! creators, the marketplace and the seller, the tokens go to the buyer, and the
//! two orders are closed.

use vstd::prelude::*;
use crate::constant::{metadata_program_id, native_mint_id, TRADE_STATE_SIZE};
use crate::errors::AuctionHouseError;
use crate::laws::lemma_settlement_follows;
use crate::ledger::{
    copy_accounts, distinct_keys, has_distinct_keys, is_outcome, lemma_addresses_stay_distinct, Ledger,
    LedgerView,
};
use crate::program::{filled, sol_memset};
use crate::seeds::{
    assert_seeds_hold, auction_house_seeds, auction_house_seeds_of, bump_seed, escrow_signer_seeds,
    escrow_signer_seeds_of, fee_payer_seeds, fee_payer_seeds_of, program_as_signer_seeds,
    program_as_signer_seeds_of, seeds_hold, treasury_seeds, treasury_seeds_of,
};
use crate::state::{AccountInfo, AccountView, AuctionHouse, Instruction, Operation, Pubkey};
use crate::utils::{
    are_places, assert_derivation, assert_is_ata, assert_keys_equal, assert_valid_trade_state,
    auction_house_fees_paid, creator_fees_paid, delegate_of, derivation, fee_payer,
    get_delegate_from_token_account, get_fee_payer, get_mint_from_token_account, is_ata, is_payment, key_at,
    keys_equal, metadata_seeds, metadata_seeds_of, pay_auction_house_fees, pay_creator_fees, ready_receipt,
    receipt_ready, rent_checked, rent_checked_sub, trade_state_seeds, trade_state_seeds_of,
    valid_trade_state, FeePayer, TOKEN_ACCOUNT_LEN,
};

verus! {

/// The accounts of the settlement of one sale. `accounts` holds each account of
/// the transaction once; every other field but the marketplace says at which
/// place in it the account of that name stands. Two names may stand for one
/// account.
#[derive(Debug)]
pub struct ExecuteSale {
    /// The accounts of the transaction, one entry for each address.
    pub accounts: Vec<AccountInfo>,
    /// The buyer's wallet.
    pub buyer: usize,
    /// The seller's wallet.
    pub seller: usize,
    /// The token account that holds the tokens for sale.
    pub token_account: usize,
    /// The mint of the tokens for sale.
    pub token_mint: usize,
    /// The metadata record of the tokens for sale.
    pub metadata: usize,
    /// The mint in which the price is given.
    pub treasury_mint: usize,
    /// The escrow that holds the buyer's money.
    pub escrow_payment_account: usize,
    /// Where the seller is paid: the seller's wallet where the trade is native,
    /// else the seller's token account of the treasury's mint.
    pub seller_payment_receipt_account: usize,
    /// The buyer's token account of the mint for sale.
    pub buyer_receipt_token_account: usize,
    /// The marketplace's authority.
    pub authority: usize,
    /// The marketplace.
    pub auction_house: AuctionHouse,
    /// The marketplace's fee account.
    pub auction_house_fee_account: usize,
    /// The marketplace's treasury.
    pub auction_house_treasury: usize,
    /// The buyer's order.
    pub buyer_trade_state: usize,
    /// The seller's order.
    pub seller_trade_state: usize,
    /// The seller's order to give the tokens away, if there is one.
    pub free_trade_state: usize,
    /// The address under which the program holds the tokens in custody.
    pub program_as_signer: usize,
    /// The creators' accounts, in the order of the metadata's creators.
    pub remaining_accounts: Vec<usize>,
    /// The least balance that exempts an account of the escrow's size from rent,
    /// as the chain's rent rules give it.
    pub rent_exempt_minimum: u64,
}

impl ExecuteSale {
    /// Whether no two of the accounts stand at one address, and every place
    /// named is a place among the accounts.
    pub open spec fn wf(&self) -> bool {
        let len = self.accounts.len();
        &&& distinct_keys(self.accounts.deep_view())
        &&& self.buyer < len
        &&& self.seller < len
        &&& self.token_account < len
        &&& self.token_mint < len
        &&& self.metadata < len
        &&& self.treasury_mint < len
        &&& self.escrow_payment_account < len
        &&& self.seller_payment_receipt_account < len
        &&& self.buyer_receipt_token_account < len
        &&& self.authority < len
        &&& self.auction_house_fee_account < len
        &&& self.auction_house_treasury < len
        &&& self.buyer_trade_state < len
        &&& self.seller_trade_state < len
        &&& self.free_trade_state < len
        &&& self.program_as_signer < len
        &&& are_places(self.remaining_accounts@, len as nat)
    }

    /// Tests whether no two of the accounts stand at one address, and every
    /// place named is a place among the accounts.
    pub fn is_well_formed(&self) -> (well_formed: bool)
        ensures
            well_formed == self.wf(),
    {
        if !has_distinct_keys(&self.accounts) {
            return false;
        }
        let len = self.accounts.len();
        let mut i: usize = 0;
        while i < self.remaining_accounts.len()
            invariant
                i <= self.remaining_accounts.len(),
                len == self.accounts.len(),
                distinct_keys(self.accounts.deep_view()),
                forall|j: int| 0 <= j < i ==> self.remaining_accounts[j] < len,
            decreases self.remaining_accounts.len() - i,
        {
            if self.remaining_accounts[i] >= len {
                return false;
            }
            i += 1;
        }
        self.buyer < len && self.seller < len && self.token_account < len && self.token_mint < len
            && self.metadata < len && self.treasury_mint < len && self.escrow_payment_account < len
            && self.seller_payment_receipt_account < len && self.buyer_receipt_token_account < len
            && self.authority < len && self.auction_house_fee_account < len && self.auction_house_treasury
            < len && self.buyer_trade_state < len && self.seller_trade_state < len && self.free_trade_state
            < len && self.program_as_signer < len
    }
}

/// What the check of one side's order gives. The trade state must hold a
/// record (`BothPartiesNeedToAgreeToSale`), whose first byte is its bump seed;
/// its address must be the one derived for an order of `wallet`, the private
/// one or the public one, with that bump seed (`DerivedKeyInvalid`); and the bump
/// seed must not be zero (`BothPartiesNeedToAgreeToSale`).
pub open spec fn order_open(
    accounts: Seq<AccountView>,
    ctx: ExecuteSale,
    wallet: int,
    trade_state: int,
    buyer_price: u64,
    token_size: u64,
) -> Result<(), AuctionHouseError> {
    let record = accounts[trade_state].data;
    if record.len() == 0 {
        Err(AuctionHouseError::BothPartiesNeedToAgreeToSale)
    } else {
        match valid_trade_state(
            accounts[wallet].key,
            ctx.auction_house,
            buyer_price,
            token_size,
            accounts[trade_state].key,
            accounts[ctx.token_mint as int].key,
            accounts[ctx.token_account as int].key,
            record[0],
        ) {
            Err(e) => Err(e),
            Ok(_) => if record[0] == 0 {
                Err(AuctionHouseError::BothPartiesNeedToAgreeToSale)
            } else {
                Ok(())
            },
        }
    }
}

/// Checks one side's order.
fn assert_order_open(
    ledger: &Ledger,
    ctx: &ExecuteSale,
    wallet: usize,
    trade_state: usize,
    buyer_price: u64,
    token_size: u64,
) -> (result: Result<(), AuctionHouseError>)
    requires
        ctx.wf(),
        ledger@.accounts.len() == ctx.accounts.len(),
        wallet < ledger@.accounts.len(),
        trade_state < ledger@.accounts.len(),
    ensures
        result == order_open(ledger@.accounts, *ctx, wallet as int, trade_state as int, buyer_price, token_size),
{
    let state = &ledger.accounts[trade_state];
    if state.data_is_empty() {
        return Err(AuctionHouseError::BothPartiesNeedToAgreeToSale);
    }
    let trade_state_bump = state.data[0];
    assert_valid_trade_state(
        &ledger.accounts[wallet].key,
        &ctx.auction_house,
        buyer_price,
        token_size,
        state,
        &ledger.accounts[ctx.token_mint].key,
        &ledger.accounts[ctx.token_account].key,
        trade_state_bump,
    )?;
    if trade_state_bump == 0 {
        return Err(AuctionHouseError::BothPartiesNeedToAgreeToSale);
    }
    Ok(())
}

/// What the check that both sides agreed to the sale gives: the mint of the
/// tokens for sale. In the order in which they are tested: a sale at price zero
/// bears the signature of the authority or of the seller
/// (`CannotMatchFreeSalesWithoutAuctionHouseOrSellerSignoff`); the record of the
/// token account has the length of a token account (`UninitializedAccount`) and
/// names the mint for sale (`PublicKeyMismatch`); the token account has a delegate
/// (`BothPartiesNeedToAgreeToSale`), which is the program's custody address
/// (`PublicKeyMismatch`); the buyer's order is open, and then the seller's.
pub open spec fn sale_agreed(accounts: Seq<AccountView>, ctx: ExecuteSale, buyer_price: u64, token_size: u64) -> Result<
    Pubkey,
    AuctionHouseError,
> {
    let record = accounts[ctx.token_account as int].data;
    if buyer_price == 0 && !accounts[ctx.authority as int].is_signer && !accounts[ctx.seller as int].is_signer {
        Err(AuctionHouseError::CannotMatchFreeSalesWithoutAuctionHouseOrSellerSignoff)
    } else if record.len() < TOKEN_ACCOUNT_LEN {
        Err(AuctionHouseError::UninitializedAccount)
    } else if accounts[ctx.token_mint as int].key != key_at(record, 0) {
        Err(AuctionHouseError::PublicKeyMismatch)
    } else {
        match delegate_of(record) {
            None => Err(AuctionHouseError::BothPartiesNeedToAgreeToSale),
            Some(delegate) => if accounts[ctx.program_as_signer as int].key != delegate {
                Err(AuctionHouseError::PublicKeyMismatch)
            } else {
                match order_open(
                    accounts,
                    ctx,
                    ctx.buyer as int,
                    ctx.buyer_trade_state as int,
                    buyer_price,
                    token_size,
                ) {
                    Err(e) => Err(e),
                    Ok(_) => match order_open(
                        accounts,
                        ctx,
                        ctx.seller as int,
                        ctx.seller_trade_state as int,
                        buyer_price,
                        token_size,
                    ) {
                        Err(e) => Err(e),
                        Ok(_) => Ok(key_at(record, 0)),
                    },
                }
            },
        }
    }
}

/// Checks that both sides agreed to the sale.
fn assert_sale_agreed(ledger: &Ledger, ctx: &ExecuteSale, buyer_price: u64, token_size: u64) -> (result: Result<
    Pubkey,
    AuctionHouseError,
>)
    requires
        ctx.wf(),
        ledger@.accounts.len() == ctx.accounts.len(),
    ensures
        result == sale_agreed(ledger@.accounts, *ctx, buyer_price, token_size),
{
    if buyer_price == 0 && !ledger.accounts[ctx.authority].is_signer && !ledger.accounts[ctx.seller].is_signer {
        return Err(AuctionHouseError::CannotMatchFreeSalesWithoutAuctionHouseOrSellerSignoff);
    }
    let token_account = &ledger.accounts[ctx.token_account];
    if token_account.data_len() < TOKEN_ACCOUNT_LEN {
        return Err(AuctionHouseError::UninitializedAccount);
    }
    let token_account_mint = get_mint_from_token_account(token_account);
    assert_keys_equal(ledger.accounts[ctx.token_mint].key, token_account_mint)?;
    let delegate = get_delegate_from_token_account(token_account);
    match delegate {
        Some(d) => {
            assert_keys_equal(ledger.accounts[ctx.program_as_signer].key, d)?;
        },
        None => {
            return Err(AuctionHouseError::BothPartiesNeedToAgreeToSale);
        },
    }
    assert_order_open(ledger, ctx, ctx.buyer, ctx.buyer_trade_state, buyer_price, token_size)?;
    assert_order_open(ledger, ctx, ctx.seller, ctx.seller_trade_state, buyer_price, token_size)?;
    Ok(token_account_mint)
}

/// The seeds of the seller's order to give `token_size` tokens away, with the
/// bump seed given.
pub open spec fn free_trade_state_seeds(
    accounts: Seq<AccountView>,
    ctx: ExecuteSale,
    free_trade_state_bump: u8,
    token_size: u64,
) -> Seq<Seq<u8>> {
    trade_state_seeds(
        accounts[ctx.seller as int].key,
        ctx.auction_house,
        Some(accounts[ctx.token_account as int].key),
        accounts[ctx.token_mint as int].key,
        0,
        token_size,
    ).push(seq![free_trade_state_bump])
}

/// Whether the accounts are the ones that the marketplace and the two sides
/// call for. In the order in which they are tested: the escrow stands at the
/// address made from the marketplace and the buyer; the marketplace at the one
/// made from its creator and its mint; the authority, the treasury's mint, the
/// treasury and the fee account are those that the marketplace names
/// (`PublicKeyMismatch`); the fee account and the treasury stand at the addresses
/// made from the marketplace; the seller's order to give the tokens away at
/// the one made for such an order; the program's custody address at its own.
/// An address that is not the one made is `DerivedKeyInvalid`.
pub open spec fn accounts_valid(
    accounts: Seq<AccountView>,
    ctx: ExecuteSale,
    escrow_payment_bump: u8,
    free_trade_state_bump: u8,
    program_as_signer_bump: u8,
    token_size: u64,
) -> Result<(), AuctionHouseError> {
    let house = ctx.auction_house;
    if seeds_hold(
        accounts[ctx.escrow_payment_account as int].key,
        escrow_signer_seeds(house, accounts[ctx.buyer as int].key, escrow_payment_bump),
    ) is Err {
        Err(AuctionHouseError::DerivedKeyInvalid)
    } else if seeds_hold(house.key, auction_house_seeds(house)) is Err {
        Err(AuctionHouseError::DerivedKeyInvalid)
    } else if keys_equal(house.authority, accounts[ctx.authority as int].key) is Err || keys_equal(
        house.treasury_mint,
        accounts[ctx.treasury_mint as int].key,
    ) is Err || keys_equal(house.auction_house_treasury, accounts[ctx.auction_house_treasury as int].key) is Err
        || keys_equal(house.auction_house_fee_account, accounts[ctx.auction_house_fee_account as int].key)
        is Err {
        Err(AuctionHouseError::PublicKeyMismatch)
    } else if seeds_hold(accounts[ctx.auction_house_fee_account as int].key, fee_payer_seeds(house)) is Err
        || seeds_hold(accounts[ctx.auction_house_treasury as int].key, treasury_seeds(house)) is Err
        || seeds_hold(
        accounts[ctx.free_trade_state as int].key,
        free_trade_state_seeds(accounts, ctx, free_trade_state_bump, token_size),
    ) is Err || seeds_hold(
        accounts[ctx.program_as_signer as int].key,
        program_as_signer_seeds(program_as_signer_bump),
    ) is Err {
        Err(AuctionHouseError::DerivedKeyInvalid)
    } else {
        Ok(())
    }
}

impl ExecuteSale {
    /// Checks that the accounts are the ones that the marketplace and the two
    /// sides call for.
    pub fn validate(
        &self,
        escrow_payment_bump: u8,
        free_trade_state_bump: u8,
        program_as_signer_bump: u8,
        token_size: u64,
    ) -> (result: Result<(), AuctionHouseError>)
        requires
            self.wf(),
        ensures
            result == accounts_valid(
                self.accounts.deep_view(),
                *self,
                escrow_payment_bump,
                free_trade_state_bump,
                program_as_signer_bump,
                token_size,
            ),
    {
        let house = &self.auction_house;
        let escrow_seeds = escrow_signer_seeds_of(house, &self.accounts[self.buyer].key, escrow_payment_bump);
        assert_seeds_hold(&self.accounts[self.escrow_payment_account].key, &escrow_seeds)?;
        assert_seeds_hold(&house.key, &auction_house_seeds_of(house))?;
        assert_keys_equal(house.authority, self.accounts[self.authority].key)?;
        assert_keys_equal(house.treasury_mint, self.accounts[self.treasury_mint].key)?;
        assert_keys_equal(house.auction_house_treasury, self.accounts[self.auction_house_treasury].key)?;
        assert_keys_equal(house.auction_house_fee_account, self.accounts[self.auction_house_fee_account].key)?;
        assert_seeds_hold(&self.accounts[self.auction_house_fee_account].key, &fee_payer_seeds_of(house))?;
        assert_seeds_hold(&self.accounts[self.auction_house_treasury].key, &treasury_seeds_of(house))?;
        let mut free_seeds = trade_state_seeds_of(
            &self.accounts[self.seller].key,
            house,
            Some(self.accounts[self.token_account].key),
            &self.accounts[self.token_mint].key,
            0,
            token_size,
        );
        free_seeds.push(bump_seed(free_trade_state_bump));
        assert(free_seeds.deep_view() =~~= free_trade_state_seeds(
            self.accounts.deep_view(),
            *self,
            free_trade_state_bump,
            token_size,
        ));
        assert_seeds_hold(&self.accounts[self.free_trade_state].key, &free_seeds)?;
        assert_seeds_hold(
            &self.accounts[self.program_as_signer].key,
            &program_as_signer_seeds_of(program_as_signer_bump),
        )?;
        Ok(())
    }
}

/// The wallet whose signature stands for the two sides: the buyer's where the
/// buyer signed, else the seller's.
pub open spec fn wallet_to_use(accounts: Seq<AccountView>, ctx: ExecuteSale) -> int {
    if accounts[ctx.buyer as int].is_signer {
        ctx.buyer as int
    } else {
        ctx.seller as int
    }
}

/// Who pays the costs of the settlement. The payer is decided by who signed;
/// then the token account must be the seller's associated token account of the
/// mint for sale, and the metadata account must stand at the address derived
/// for that mint (`DerivedKeyInvalid`).
pub open spec fn sale_payer(accounts: Seq<AccountView>, ctx: ExecuteSale, mint: Pubkey) -> Result<
    FeePayer,
    AuctionHouseError,
> {
    match fee_payer(
        accounts[ctx.authority as int].is_signer,
        accounts[wallet_to_use(accounts, ctx)].is_signer,
        ctx.auction_house.requires_sign_off,
    ) {
        Err(e) => Err(e),
        Ok(payer) => match is_ata(accounts[ctx.token_account as int], accounts[ctx.seller as int].key, mint) {
            Err(e) => Err(e),
            Ok(_) => match derivation(
                metadata_program_id(),
                accounts[ctx.metadata as int].key,
                metadata_seeds(mint),
            ) {
                Err(e) => Err(e),
                Ok(_) => Ok(payer),
            },
        },
    }
}

/// The place of the account that pays the costs.
pub open spec fn payer_place(accounts: Seq<AccountView>, ctx: ExecuteSale, payer: FeePayer) -> int {
    match payer {
        FeePayer::AuthoritySigned => ctx.auction_house_fee_account as int,
        FeePayer::WalletSigned => wallet_to_use(accounts, ctx),
    }
}

/// The seeds by which the payer of the costs signs: a wallet needs none.
pub open spec fn payer_seeds(ctx: ExecuteSale, payer: FeePayer) -> Seq<Seq<u8>> {
    match payer {
        FeePayer::AuthoritySigned => fee_payer_seeds(ctx.auction_house),
        FeePayer::WalletSigned => Seq::empty(),
    }
}

/// Decides who pays the costs of the settlement, and checks the token account
/// and the metadata account.
fn resolve_sale_payer(ledger: &Ledger, ctx: &ExecuteSale, mint: &Pubkey) -> (result: Result<
    (usize, Vec<Vec<u8>>),
    AuctionHouseError,
>)
    requires
        ctx.wf(),
        ledger@.accounts.len() == ctx.accounts.len(),
    ensures
        match sale_payer(ledger@.accounts, *ctx, *mint) {
            Err(e) => result == Err::<(usize, Vec<Vec<u8>>), AuctionHouseError>(e),
            Ok(payer) => result is Ok && result->Ok_0.0 == payer_place(ledger@.accounts, *ctx, payer)
                && result->Ok_0.1.deep_view() == payer_seeds(*ctx, payer),
        },
        result is Ok ==> result->Ok_0.0 < ledger@.accounts.len(),
{
    let wallet = if ledger.accounts[ctx.buyer].is_signer {
        ctx.buyer
    } else {
        ctx.seller
    };
    let payer = get_fee_payer(&ledger.accounts[ctx.authority], &ctx.auction_house, &ledger.accounts[wallet])?;
    assert_is_ata(&ledger.accounts[ctx.token_account], &ledger.accounts[ctx.seller].key, mint)?;
    let seeds = metadata_seeds_of(mint);
    assert_derivation(&metadata_program_id(), &ledger.accounts[ctx.metadata], &seeds)?;
    match payer {
        FeePayer::AuthoritySigned => Ok((ctx.auction_house_fee_account, fee_payer_seeds_of(&ctx.auction_house))),
        FeePayer::WalletSigned => {
            let none: Vec<Vec<u8>> = Vec::new();
            Ok((wallet, none))
        },
    }
}

/// The ledger after the escrow of a native trade has been made good. Where the
/// escrow cannot give the whole price and keep the balance that exempts it from
/// rent, the payer of the costs adds what is missing, up to that balance.
pub open spec fn escrow_topped_up(
    ledger: LedgerView,
    escrow_payment_account: int,
    fee_payer: int,
    fee_payer_seeds: Seq<Seq<u8>>,
    rent_minimum: u64,
    buyer_price: u64,
) -> Result<LedgerView, AuctionHouseError> {
    match rent_checked(ledger.accounts[escrow_payment_account].lamports, rent_minimum, buyer_price) {
        Err(e) => Err(e),
        Ok(diff) => if diff != buyer_price {
            let short_fall = if buyer_price - diff <= rent_minimum {
                (buyer_price - diff) as u64
            } else {
                rent_minimum
            };
            ledger.transfer(fee_payer, escrow_payment_account, short_fall, fee_payer_seeds)
        } else {
            Ok(ledger)
        },
    }
}

/// Makes good the escrow of a native trade.
fn top_up_escrow(
    ledger: Ledger,
    escrow_payment_account: usize,
    fee_payer: usize,
    fee_payer_seeds: &Vec<Vec<u8>>,
    rent_minimum: u64,
    buyer_price: u64,
) -> (result: Result<Ledger, AuctionHouseError>)
    requires
        escrow_payment_account < ledger@.accounts.len(),
        fee_payer < ledger@.accounts.len(),
    ensures
        is_outcome(
            result,
            escrow_topped_up(
                ledger@,
                escrow_payment_account as int,
                fee_payer as int,
                fee_payer_seeds.deep_view(),
                rent_minimum,
                buyer_price,
            ),
        ),
        result is Ok ==> result->Ok_0@.accounts.len() == ledger@.accounts.len(),
{
    let diff = rent_checked_sub(&ledger.accounts[escrow_payment_account], rent_minimum, buyer_price)?;
    if diff != buyer_price {
        let missing = match buyer_price.checked_sub(diff) {
            Some(missing) => missing,
            None => {
                return Err(AuctionHouseError::NumericalOverflow);
            },
        };
        let short_fall = if missing <= rent_minimum {
            missing
        } else {
            rent_minimum
        };
        ledger.transfer(fee_payer, escrow_payment_account, short_fall, fee_payer_seeds)
    } else {
        Ok(ledger)
    }
}

/// What the payment of the royalties and of the marketplace's fee gives: the
/// ledger after it, and what is left of the price for the seller. The metadata
/// account must hold a record (`MetadataDoesntExist`); the creators are paid, then
/// the marketplace; the marketplace's fee must be no more than what the
/// royalties have left (`NumericalOverflow`).
pub open spec fn fees_paid(
    ledger: LedgerView,
    ctx: ExecuteSale,
    fee_payer: int,
    fee_payer_seeds: Seq<Seq<u8>>,
    signer_seeds: Seq<Seq<u8>>,
    buyer_price: u64,
    is_native: bool,
) -> Result<(LedgerView, u64), AuctionHouseError> {
    if ledger.accounts[ctx.metadata as int].data.len() == 0 {
        Err(AuctionHouseError::MetadataDoesntExist)
    } else {
        match creator_fees_paid(
            ledger,
            ctx.remaining_accounts@,
            ctx.metadata as int,
            ctx.escrow_payment_account as int,
            ctx.auction_house.key,
            fee_payer,
            ctx.treasury_mint as int,
            signer_seeds,
            fee_payer_seeds,
            buyer_price,
            is_native,
        ) {
            Err(e) => Err(e),
            Ok((royalties_paid, left)) => match auction_house_fees_paid(
                royalties_paid,
                ctx.auction_house,
                ctx.auction_house_treasury as int,
                ctx.escrow_payment_account as int,
                signer_seeds,
                buyer_price,
                is_native,
            ) {
                Err(e) => Err(e),
                Ok((fee_paid, fee)) => if fee > left {
                    Err(AuctionHouseError::NumericalOverflow)
                } else {
                    Ok((fee_paid, (left - fee) as u64))
                },
            },
        }
    }
}

/// Pays the royalties and the marketplace's fee.
fn pay_fees(
    ledger: Ledger,
    ctx: &ExecuteSale,
    fee_payer: usize,
    fee_payer_seeds: &Vec<Vec<u8>>,
    signer_seeds: &Vec<Vec<u8>>,
    buyer_price: u64,
    is_native: bool,
) -> (result: Result<(Ledger, u64), AuctionHouseError>)
    requires
        ctx.wf(),
        ledger@.accounts.len() == ctx.accounts.len(),
        fee_payer < ledger@.accounts.len(),
    ensures
        is_payment(
            result,
            fees_paid(
                ledger@,
                *ctx,
                fee_payer as int,
                fee_payer_seeds.deep_view(),
                signer_seeds.deep_view(),
                buyer_price,
                is_native,
            ),
        ),
        result is Ok ==> result->Ok_0.0@.accounts.len() == ledger@.accounts.len(),
{
    if ledger.accounts[ctx.metadata].data_is_empty() {
        return Err(AuctionHouseError::MetadataDoesntExist);
    }
    let (royalties_paid, buyer_leftover_after_royalties) = pay_creator_fees(
        ledger,
        &ctx.remaining_accounts,
        ctx.metadata,
        ctx.escrow_payment_account,
        ctx.auction_house.key,
        fee_payer,
        ctx.treasury_mint,
        signer_seeds,
        fee_payer_seeds,
        buyer_price,
        is_native,
    )?;
    let (fee_paid, auction_house_fee_paid) = pay_auction_house_fees(
        royalties_paid,
        &ctx.auction_house,
        ctx.auction_house_treasury,
        ctx.escrow_payment_account,
        signer_seeds,
        buyer_price,
        is_native,
    )?;
    match buyer_leftover_after_royalties.checked_sub(auction_house_fee_paid) {
        Some(left) => Ok((fee_paid, left)),
        None => Err(AuctionHouseError::NumericalOverflow),
    }
}

/// The ledger after the seller has been paid `amount` out of the escrow. Where
/// the trade is native the receiving account must be the seller's wallet
/// (`PublicKeyMismatch`), and the escrow signs. Else the receiving account is
/// made ready as the seller's token account of the treasury's mint
/// (`SellerATACannotHaveDelegate` where it has a delegate), and the marketplace
/// signs.
pub open spec fn seller_paid(
    ledger: LedgerView,
    ctx: ExecuteSale,
    fee_payer: int,
    fee_payer_seeds: Seq<Seq<u8>>,
    amount: u64,
    escrow_payment_bump: u8,
    is_native: bool,
) -> Result<LedgerView, AuctionHouseError> {
    let receipt = ctx.seller_payment_receipt_account as int;
    if !is_native {
        match receipt_ready(
            ledger,
            receipt,
            ctx.seller as int,
            ctx.treasury_mint as int,
            fee_payer,
            fee_payer_seeds,
            AuctionHouseError::SellerATACannotHaveDelegate,
        ) {
            Err(e) => Err(e),
            Ok(ready) => Ok(
                ready.token_transfer(
                    ctx.escrow_payment_account as int,
                    receipt,
                    ctx.auction_house.key,
                    amount,
                    auction_house_seeds(ctx.auction_house),
                ),
            ),
        }
    } else if ledger.accounts[receipt].key != ledger.accounts[ctx.seller as int].key {
        Err(AuctionHouseError::PublicKeyMismatch)
    } else {
        ledger.transfer(
            ctx.escrow_payment_account as int,
            receipt,
            amount,
            escrow_signer_seeds(ctx.auction_house, ledger.accounts[ctx.buyer as int].key, escrow_payment_bump),
        )
    }
}

/// Pays the seller.
fn pay_seller(
    ledger: Ledger,
    ctx: &ExecuteSale,
    fee_payer: usize,
    fee_payer_seeds: &Vec<Vec<u8>>,
    amount: u64,
    escrow_payment_bump: u8,
    is_native: bool,
) -> (result: Result<Ledger, AuctionHouseError>)
    requires
        ctx.wf(),
        ledger@.accounts.len() == ctx.accounts.len(),
        fee_payer < ledger@.accounts.len(),
    ensures
        is_outcome(
            result,
            seller_paid(
                ledger@,
                *ctx,
                fee_payer as int,
                fee_payer_seeds.deep_view(),
                amount,
                escrow_payment_bump,
                is_native,
            ),
        ),
        result is Ok ==> result->Ok_0@.accounts.len() == ledger@.accounts.len(),
{
    if !is_native {
        let ready = ready_receipt(
            ledger,
            ctx.seller_payment_receipt_account,
            ctx.seller,
            ctx.treasury_mint,
            fee_payer,
            fee_payer_seeds,
            AuctionHouseError::SellerATACannotHaveDelegate,
        )?;
        let seeds = auction_house_seeds_of(&ctx.auction_house);
        Ok(
            ready.token_transfer(
                ctx.escrow_payment_account,
                ctx.seller_payment_receipt_account,
                ctx.auction_house.key,
                amount,
                &seeds,
            ),
        )
    } else {
        assert_keys_equal(
            ledger.accounts[ctx.seller_payment_receipt_account].key,
            ledger.accounts[ctx.seller].key,
        )?;
        let seeds = escrow_signer_seeds_of(&ctx.auction_house, &ledger.accounts[ctx.buyer].key, escrow_payment_bump);
        ledger.transfer(ctx.escrow_payment_account, ctx.seller_payment_receipt_account, amount, &seeds)
    }
}

/// The ledger after the tokens have been handed to the buyer. The receiving
/// account is made ready as the buyer's token account of the mint for sale
/// (`BuyerATACannotHaveDelegate` where it has a delegate); then `token_size` tokens
/// leave the seller's token account on the word of the program's custody
/// address.
pub open spec fn token_delivered(
    ledger: LedgerView,
    ctx: ExecuteSale,
    fee_payer: int,
    fee_payer_seeds: Seq<Seq<u8>>,
    token_size: u64,
    program_as_signer_bump: u8,
) -> Result<LedgerView, AuctionHouseError> {
    match receipt_ready(
        ledger,
        ctx.buyer_receipt_token_account as int,
        ctx.buyer as int,
        ctx.token_mint as int,
        fee_payer,
        fee_payer_seeds,
        AuctionHouseError::BuyerATACannotHaveDelegate,
    ) {
        Err(e) => Err(e),
        Ok(ready) => Ok(
            ready.token_transfer(
                ctx.token_account as int,
                ctx.buyer_receipt_token_account as int,
                ready.accounts[ctx.program_as_signer as int].key,
                token_size,
                program_as_signer_seeds(program_as_signer_bump),
            ),
        ),
    }
}

/// Hands the tokens to the buyer.
fn deliver_token(
    ledger: Ledger,
    ctx: &ExecuteSale,
    fee_payer: usize,
    fee_payer_seeds: &Vec<Vec<u8>>,
    token_size: u64,
    program_as_signer_bump: u8,
) -> (result: Result<Ledger, AuctionHouseError>)
    requires
        ctx.wf(),
        ledger@.accounts.len() == ctx.accounts.len(),
        fee_payer < ledger@.accounts.len(),
    ensures
        is_outcome(
            result,
            token_delivered(
                ledger@,
                *ctx,
                fee_payer as int,
                fee_payer_seeds.deep_view(),
                token_size,
                program_as_signer_bump,
            ),
        ),
        result is Ok ==> result->Ok_0@.accounts.len() == ledger@.accounts.len(),
{
    let ready = ready_receipt(
        ledger,
        ctx.buyer_receipt_token_account,
        ctx.buyer,
        ctx.token_mint,
        fee_payer,
        fee_payer_seeds,
        AuctionHouseError::BuyerATACannotHaveDelegate,
    )?;
    let seeds = program_as_signer_seeds_of(program_as_signer_bump);
    let authority = ready.accounts[ctx.program_as_signer].key;
    Ok(
        ready.token_transfer(
            ctx.token_account,
            ctx.buyer_receipt_token_account,
            authority,
            token_size,
            &seeds,
        ),
    )
}

/// How many bytes at the head of a record of the given length are the record
/// of a trade state.
pub open spec fn trade_state_bytes(len: nat) -> int {
    if len < TRADE_STATE_SIZE {
        len as int
    } else {
        TRADE_STATE_SIZE as int
    }
}

/// The ledger after a trade state has been closed: it holds no currency and
/// the head of its record is zero, what it held has gone to the payer of the
/// costs, whose balance must stay a 64-bit number (`NumericalOverflow`), and the
/// closing is listed.
pub open spec fn trade_state_reclaimed(ledger: LedgerView, trade_state: int, fee_payer: int) -> Result<
    LedgerView,
    AuctionHouseError,
> {
    let before = ledger.accounts[trade_state];
    let closed = AccountView {
        lamports: 0,
        data: filled(before.data, 0, trade_state_bytes(before.data.len())),
        ..before
    };
    match (LedgerView { accounts: ledger.accounts.update(trade_state, closed), ..ledger }).credit(
        fee_payer,
        before.lamports,
    ) {
        Err(e) => Err(e),
        Ok(credited) => Ok(
            credited.record(
                Operation::Reclaim { account: before.key, to: ledger.accounts[fee_payer].key },
                Seq::empty(),
            ),
        ),
    }
}

/// Closes a trade state.
fn reclaim_trade_state(ledger: Ledger, trade_state: usize, fee_payer: usize) -> (result: Result<
    Ledger,
    AuctionHouseError,
>)
    requires
        trade_state < ledger@.accounts.len(),
        fee_payer < ledger@.accounts.len(),
    ensures
        is_outcome(result, trade_state_reclaimed(ledger@, trade_state as int, fee_payer as int)),
        result is Ok ==> result->Ok_0@.accounts.len() == ledger@.accounts.len(),
{
    let operation = Operation::Reclaim {
        account: ledger.accounts[trade_state].key,
        to: ledger.accounts[fee_payer].key,
    };
    let mut closed = ledger;
    let entry = &mut closed.accounts[trade_state];
    let lamports = entry.lamports;
    entry.lamports = 0;
    let len = entry.data.len();
    let count = if len < TRADE_STATE_SIZE {
        len
    } else {
        TRADE_STATE_SIZE
    };
    sol_memset(&mut entry.data, 0, count);
    assert(closed@.accounts =~= ledger@.accounts.update(
        trade_state as int,
        AccountView {
            lamports: 0,
            data: filled(ledger@.accounts[trade_state as int].data, 0, trade_state_bytes(
                ledger@.accounts[trade_state as int].data.len(),
            )),
            ..ledger@.accounts[trade_state as int]
        },
    ));
    let credited = closed.credit(fee_payer, lamports)?;
    let none: Vec<Vec<u8>> = Vec::new();
    assert(none.deep_view() =~= Seq::<Seq<u8>>::empty());
    Ok(credited.record(operation, &none))
}

/// The ledger after the orders have been closed: the seller's, then the
/// buyer's, then the seller's order to give the tokens away where that one holds
/// any currency.
pub open spec fn reclaimed(ledger: LedgerView, ctx: ExecuteSale, fee_payer: int) -> Result<
    LedgerView,
    AuctionHouseError,
> {
    match trade_state_reclaimed(ledger, ctx.seller_trade_state as int, fee_payer) {
        Err(e) => Err(e),
        Ok(seller_closed) => match trade_state_reclaimed(seller_closed, ctx.buyer_trade_state as int, fee_payer) {
            Err(e) => Err(e),
            Ok(buyer_closed) => if buyer_closed.accounts[ctx.free_trade_state as int].lamports > 0 {
                trade_state_reclaimed(buyer_closed, ctx.free_trade_state as int, fee_payer)
            } else {
                Ok(buyer_closed)
            },
        },
    }
}

/// Closes the orders.
fn reclaim(ledger: Ledger, ctx: &ExecuteSale, fee_payer: usize) -> (result: Result<Ledger, AuctionHouseError>)
    requires
        ctx.wf(),
        ledger@.accounts.len() == ctx.accounts.len(),
        fee_payer < ledger@.accounts.len(),
    ensures
        is_outcome(result, reclaimed(ledger@, *ctx, fee_payer as int)),
        result is Ok ==> result->Ok_0@.accounts.len() == ledger@.accounts.len(),
{
    let seller_closed = reclaim_trade_state(ledger, ctx.seller_trade_state, fee_payer)?;
    let buyer_closed = reclaim_trade_state(seller_closed, ctx.buyer_trade_state, fee_payer)?;
    if buyer_closed.accounts[ctx.free_trade_state].lamports > 0 {
        reclaim_trade_state(buyer_closed, ctx.free_trade_state, fee_payer)
    } else {
        Ok(buyer_closed)
    }
}

/// What the settlement of a sale gives up to the delivery of the tokens: the
/// ledger after it and the place of the account that pays the costs, or why
/// there is no sale. The steps, in their order: both sides have agreed; who
/// pays the costs is decided; where the trade is native, the escrow is made
/// good; the creators and the marketplace are paid; the seller is paid the
/// rest; the tokens are handed to the buyer.
pub open spec fn sale_delivered(
    ctx: ExecuteSale,
    escrow_payment_bump: u8,
    program_as_signer_bump: u8,
    buyer_price: u64,
    token_size: u64,
) -> Result<(LedgerView, int), AuctionHouseError> {
    let start = LedgerView { accounts: ctx.accounts.deep_view(), instructions: Seq::empty() };
    let is_native = start.accounts[ctx.treasury_mint as int].key == native_mint_id();
    match sale_agreed(start.accounts, ctx, buyer_price, token_size) {
        Err(e) => Err(e),
        Ok(mint) => match sale_payer(start.accounts, ctx, mint) {
            Err(e) => Err(e),
            Ok(payer) => {
                let fee_payer = payer_place(start.accounts, ctx, payer);
                let fee_payer_seeds = payer_seeds(ctx, payer);
                let signer_seeds = if is_native {
                    escrow_signer_seeds(
                        ctx.auction_house,
                        start.accounts[ctx.buyer as int].key,
                        escrow_payment_bump,
                    )
                } else {
                    auction_house_seeds(ctx.auction_house)
                };
                let funded = if is_native {
                    escrow_topped_up(
                        start,
                        ctx.escrow_payment_account as int,
                        fee_payer,
                        fee_payer_seeds,
                        ctx.rent_exempt_minimum,
                        buyer_price,
                    )
                } else {
                    Ok(start)
                };
                match funded {
                    Err(e) => Err(e),
                    Ok(unsettled) => match fees_paid(
                        unsettled,
                        ctx,
                        fee_payer,
                        fee_payer_seeds,
                        signer_seeds,
                        buyer_price,
                        is_native,
                    ) {
                        Err(e) => Err(e),
                        Ok((fee_paid, left)) => match seller_paid(
                            fee_paid,
                            ctx,
                            fee_payer,
                            fee_payer_seeds,
                            left,
                            escrow_payment_bump,
                            is_native,
                        ) {
                            Err(e) => Err(e),
                            Ok(seller_paid) => match token_delivered(
                                seller_paid,
                                ctx,
                                fee_payer,
                                fee_payer_seeds,
                                token_size,
                                program_as_signer_bump,
                            ) {
                                Err(e) => Err(e),
                                Ok(delivered) => Ok((delivered, fee_payer)),
                            },
                        },
                    },
                }
            },
        },
    }
}

/// What the settlement of a sale gives: the ledger after it, or why there is
/// no sale. The tokens are delivered as said above, and then the orders are
/// closed.
pub open spec fn sale_executed(
    ctx: ExecuteSale,
    escrow_payment_bump: u8,
    program_as_signer_bump: u8,
    buyer_price: u64,
    token_size: u64,
) -> Result<LedgerView, AuctionHouseError> {
    match sale_delivered(ctx, escrow_payment_bump, program_as_signer_bump, buyer_price, token_size) {
        Err(e) => Err(e),
        Ok((delivered, fee_payer)) => reclaimed(delivered, ctx, fee_payer),
    }
}

/// Settles the sale on a copy of the accounts.
fn settle(
    ctx: &ExecuteSale,
    escrow_payment_bump: u8,
    program_as_signer_bump: u8,
    buyer_price: u64,
    token_size: u64,
) -> (result: Result<Ledger, AuctionHouseError>)
    requires
        ctx.wf(),
    ensures
        is_outcome(result, sale_executed(*ctx, escrow_payment_bump, program_as_signer_bump, buyer_price, token_size)),
        result is Ok ==> result->Ok_0@.accounts.len() == ctx.accounts.len(),
        result is Ok ==> distinct_keys(result->Ok_0@.accounts),
{
    let start = Ledger::new(copy_accounts(&ctx.accounts));
    let is_native = start.accounts[ctx.treasury_mint].key == native_mint_id();
    let token_account_mint = assert_sale_agreed(&start, ctx, buyer_price, token_size)?;
    let (fee_payer, fee_payer_seeds) = resolve_sale_payer(&start, ctx, &token_account_mint)?;
    let signer_seeds_for_royalties = if is_native {
        escrow_signer_seeds_of(&ctx.auction_house, &start.accounts[ctx.buyer].key, escrow_payment_bump)
    } else {
        auction_house_seeds_of(&ctx.auction_house)
    };
    let unsettled = if is_native {
        top_up_escrow(
            start,
            ctx.escrow_payment_account,
            fee_payer,
            &fee_payer_seeds,
            ctx.rent_exempt_minimum,
            buyer_price,
        )?
    } else {
        start
    };
    let (fee_paid, buyer_leftover_after_royalties_and_house_fee) = pay_fees(
        unsettled,
        ctx,
        fee_payer,
        &fee_payer_seeds,
        &signer_seeds_for_royalties,
        buyer_price,
        is_native,
    )?;
    let seller_paid = pay_seller(
        fee_paid,
        ctx,
        fee_payer,
        &fee_payer_seeds,
        buyer_leftover_after_royalties_and_house_fee,
        escrow_payment_bump,
        is_native,
    )?;
    let delivered = deliver_token(
        seller_paid,
        ctx,
        fee_payer,
        &fee_payer_seeds,
        token_size,
        program_as_signer_bump,
    )?;
    let settled = reclaim(delivered, ctx, fee_payer)?;
    proof {
        lemma_settlement_follows(*ctx, escrow_payment_bump, program_as_signer_bump, buyer_price, token_size);
        lemma_addresses_stay_distinct(
            LedgerView { accounts: ctx.accounts.deep_view(), instructions: Seq::empty() },
            settled@,
        );
    }
    Ok(settled)
}

/// Whether two sets of accounts differ at most in what the accounts hold.
pub open spec fn same_places(before: ExecuteSale, after: ExecuteSale) -> bool {
    after == (ExecuteSale { accounts: after.accounts, ..before })
}

/// Settles a sale between the buyer's and the seller's order: the price goes
/// from the escrow to the creators, the marketplace and the seller, the tokens
/// go to the buyer, and the orders are closed. That the escrow, the marketplace's
/// own accounts and the seller's order to give the tokens away stand at their
/// addresses is for [`ExecuteSale::validate`] to check: the bump seed of that
/// order is not looked at here.
///
/// On success the accounts are those after the settlement as far as the
/// settlement itself moves native currency and writes records, and the result
/// lists what the settlement asks of the programs that keep the ledger, in
/// order. Two things are left to those programs and are not in the accounts:
/// the balances leave out the rent of token accounts that have been created,
/// and the records of token accounts leave out the tokens that have been
/// moved. On failure no account has changed.
pub fn execute_sale_logic(
    ctx: &mut ExecuteSale,
    escrow_payment_bump: u8,
    _free_trade_state_bump: u8,
    program_as_signer_bump: u8,
    buyer_price: u64,
    token_size: u64,
) -> (result: Result<Vec<Instruction>, AuctionHouseError>)
    requires
        old(ctx).wf(),
    ensures
        match sale_executed(*old(ctx), escrow_payment_bump, program_as_signer_bump, buyer_price, token_size) {
            Ok(settled) => result is Ok && result->Ok_0.deep_view() == settled.instructions
                && final(ctx).accounts.deep_view() == settled.accounts && same_places(*old(ctx), *final(ctx)),
            Err(e) => result == Err::<Vec<Instruction>, AuctionHouseError>(e) && *final(ctx) == *old(ctx),
        },
        final(ctx).wf(),
{
    let settled = settle(ctx, escrow_payment_bump, program_as_signer_bump, buyer_price, token_size)?;
    ctx.accounts = settled.accounts;
    Ok(settled.instructions)
}

/// What the entry point of the settlement gives: the accounts must be valid;
/// a marketplace that works through an auctioneer does not settle here
/// (`MustUseAuctioneerHandler`); then the sale is settled.
pub open spec fn sale_entered(
    ctx: ExecuteSale,
    escrow_payment_bump: u8,
    free_trade_state_bump: u8,
    program_as_signer_bump: u8,
    buyer_price: u64,
    token_size: u64,
) -> Result<LedgerView, AuctionHouseError> {
    match accounts_valid(
        ctx.accounts.deep_view(),
        ctx,
        escrow_payment_bump,
        free_trade_state_bump,
        program_as_signer_bump,
        token_size,
    ) {
        Err(e) => Err(e),
        Ok(_) => if ctx.auction_house.has_auctioneer {
            Err(AuctionHouseError::MustUseAuctioneerHandler)
        } else {
            sale_executed(ctx, escrow_payment_bump, program_as_signer_bump, buyer_price, token_size)
        },
    }
}

/// The entry point of the settlement of a sale: checks the accounts, and
/// settles the sale unless the marketplace works through an auctioneer.
///
/// On success the accounts are those after the settlement as far as the
/// settlement itself moves native currency and writes records, and the result
/// lists what the settlement asks of the programs that keep the ledger, in
/// order. Two things are left to those programs and are not in the accounts:
/// the balances leave out the rent of token accounts that have been created,
/// and the records of token accounts leave out the tokens that have been
/// moved. On failure no account has changed.
pub fn execute_sale(
    ctx: &mut ExecuteSale,
    escrow_payment_bump: u8,
    free_trade_state_bump: u8,
    program_as_signer_bump: u8,
    buyer_price: u64,
    token_size: u64,
) -> (result: Result<Vec<Instruction>, AuctionHouseError>)
    requires
        old(ctx).wf(),
    ensures
        match sale_entered(
            *old(ctx),
            escrow_payment_bump,
            free_trade_state_bump,
            program_as_signer_bump,
            buyer_price,
            token_size,
        ) {
            Ok(settled) => result is Ok && result->Ok_0.deep_view() == settled.instructions
                && final(ctx).accounts.deep_view() == settled.accounts && same_places(*old(ctx), *final(ctx)),
            Err(e) => result == Err::<Vec<Instruction>, AuctionHouseError>(e) && *final(ctx) == *old(ctx),
        },
        final(ctx).wf(),
{
    ctx.validate(escrow_payment_bump, free_trade_state_bump, program_as_signer_bump, token_size)?;
    if ctx.auction_house.has_auctioneer {
        return Err(AuctionHouseError::MustUseAuctioneerHandler);
    }
    execute_sale_logic(
        ctx,
        escrow_payment_bump,
        free_trade_state_bump,
        program_as_signer_bump,
        buyer_price,
        token_size,
    )
}

} // verus!
