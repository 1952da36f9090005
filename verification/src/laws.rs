//! What holds of every settlement: the laws of the marketplace, each proved
//! from the definitions of the instructions.

use vstd::prelude::*;
use crate::auction_house::{house_created, CreateAuctionHouse};
use crate::constant::{id, native_mint_id};
use crate::errors::AuctionHouseError;
use crate::execute_sale::{
    escrow_topped_up, fees_paid, payer_place, payer_seeds, reclaimed, sale_agreed, sale_delivered,
    sale_executed, sale_payer, same_places, seller_paid, token_delivered, trade_state_bytes,
    trade_state_reclaimed, ExecuteSale,
};
use crate::fees::{
    after_royalties, basis_points_of, checked, creator_fees, distribution, lemma_distribution_is_exact,
    percent_of, sum,
};
use crate::ledger::{
    lemma_addresses_stay_distinct, lemma_follows_is_an_order, lemma_total_after_update,
    lemma_transfer_follows, LedgerView,
};
use crate::program::{filled, metadata_of};
use crate::seeds::{auction_house_seeds, escrow_signer_seeds};
use crate::state::{AccountView, AuctionHouse, Creator, Pubkey};
use crate::utils::{
    are_places, ata_made, auction_house_fees_paid, creator_fees_paid, creator_paid, creators_paid, cursor_of,
    derivation, is_ata, receipt_ready, rent_checked, resolved_trade_state, trade_state_seeds,
    valid_trade_state, RoyaltyPayment,
};

verus! {

/// A trade state is accepted exactly when one of the two derivations, the
/// private or the public, gives its address, the other does not, and the bump
/// seed handed in is that of the one that does. Where both give it, or neither,
/// it is refused; and every refusal is `DerivedKeyInvalid`.
pub proof fn lemma_exactly_one_derivation(
    wallet: Pubkey,
    auction_house: AuctionHouse,
    buyer_price: u64,
    token_size: u64,
    trade_state: Pubkey,
    mint: Pubkey,
    token_holder: Pubkey,
    ts_bump: u8,
)
    ensures
        ({
            let private = derivation(
                id(),
                trade_state,
                trade_state_seeds(wallet, auction_house, Some(token_holder), mint, buyer_price, token_size),
            );
            let public = derivation(
                id(),
                trade_state,
                trade_state_seeds(wallet, auction_house, None, mint, buyer_price, token_size),
            );
            let result = valid_trade_state(
                wallet,
                auction_house,
                buyer_price,
                token_size,
                trade_state,
                mint,
                token_holder,
                ts_bump,
            );
            let order = resolved_trade_state(
                wallet,
                auction_house,
                buyer_price,
                token_size,
                trade_state,
                mint,
                token_holder,
                ts_bump,
            );
            &&& result is Ok <==> (private == Ok::<u8, AuctionHouseError>(ts_bump) && public is Err) || (public == Ok::<
                u8,
                AuctionHouseError,
            >(ts_bump) && private is Err)
            &&& result is Ok ==> result == Ok::<u8, AuctionHouseError>(ts_bump)
            &&& result is Ok <==> order is Ok
            &&& order is Ok ==> (order->Ok_0 is Private <==> private is Ok)
            &&& result is Err ==> result == Err::<u8, AuctionHouseError>(AuctionHouseError::DerivedKeyInvalid)
            &&& private is Ok && public is Ok ==> result is Err
            &&& private is Err && public is Err ==> result is Err
        }),
{
}

/// The amount that may leave an escrow is the smaller of what is asked for and
/// what the escrow holds above the balance that exempts it from rent: when it
/// has left, the escrow holds that balance at least.
pub proof fn lemma_withdrawal_is_capped(lamports: u64, rent_minimum: u64, diff: u64)
    ensures
        rent_checked(lamports, rent_minimum, diff) is Ok <==> diff <= lamports && rent_minimum <= lamports,
        rent_checked(lamports, rent_minimum, diff) matches Ok(amount) ==> {
            &&& amount <= diff
            &&& amount <= lamports - rent_minimum
            &&& amount == diff || amount == lamports - rent_minimum
            &&& lamports - amount >= rent_minimum
        },
        rent_checked(lamports, rent_minimum, diff) is Err ==> rent_checked(lamports, rent_minimum, diff) == Err::<
            u64,
            AuctionHouseError,
        >(AuctionHouseError::NumericalOverflow),
{
}

/// When the creators from the one at `from` on have been paid, the royalty that
/// was left is less by what they were owed together.
pub proof fn lemma_creators_paid_leaves(
    ledger: LedgerView,
    payment: RoyaltyPayment,
    creators: Seq<Creator>,
    from: int,
    remaining_fee: u64,
)
    requires
        0 <= from <= creators.len(),
        creators_paid(ledger, payment, creators, from, remaining_fee) is Ok,
    ensures
        creators_paid(ledger, payment, creators, from, remaining_fee)->Ok_0.1 == remaining_fee - (creator_fees(
            creators,
            payment.total_fee,
            creators.len() as int,
        ) - creator_fees(creators, payment.total_fee, from)),
    decreases creators.len() - from,
{
    if from < creators.len() {
        let step = creator_paid(ledger, payment, creators[from], cursor_of(from, payment.is_native), remaining_fee);
        lemma_creators_paid_leaves(step->Ok_0.0, payment, creators, from + 1, step->Ok_0.1);
    }
}

/// When the royalties on a sale have been paid, nothing of the price is lost:
/// what is left is the price less what the creators were owed. What the
/// division of the royalty among the creators left over is part of it.
pub proof fn lemma_royalties_leave(
    ledger: LedgerView,
    remaining_accounts: Seq<usize>,
    metadata_info: int,
    escrow_payment_account: int,
    payment_account_owner: Pubkey,
    fee_payer: int,
    treasury_mint: int,
    signer_seeds: Seq<Seq<u8>>,
    fee_payer_seeds: Seq<Seq<u8>>,
    size: u64,
    is_native: bool,
)
    requires
        creator_fees_paid(
            ledger,
            remaining_accounts,
            metadata_info,
            escrow_payment_account,
            payment_account_owner,
            fee_payer,
            treasury_mint,
            signer_seeds,
            fee_payer_seeds,
            size,
            is_native,
        ) is Ok,
    ensures
        ({
            let paid = creator_fees_paid(
                ledger,
                remaining_accounts,
                metadata_info,
                escrow_payment_account,
                payment_account_owner,
                fee_payer,
                treasury_mint,
                signer_seeds,
                fee_payer_seeds,
                size,
                is_native,
            )->Ok_0;
            let metadata = metadata_of(ledger.accounts[metadata_info].data, ledger.accounts[metadata_info].owner);
            &&& metadata is Some
            &&& paid.1 == after_royalties(size, metadata->Some_0.seller_fee_basis_points, metadata->Some_0.creators)
        }),
{
    let metadata = metadata_of(ledger.accounts[metadata_info].data, ledger.accounts[metadata_info].owner)->Some_0;
    let total_fee = basis_points_of(metadata.seller_fee_basis_points, size) as u64;
    let payment = RoyaltyPayment {
        remaining_accounts,
        escrow_payment_account,
        payment_account_owner,
        fee_payer,
        treasury_mint,
        signer_seeds,
        fee_payer_seeds,
        total_fee,
        is_native,
    };
    match metadata.creators {
        Some(creators) => {
            lemma_creators_paid_leaves(ledger, payment, creators, 0, total_fee);
        },
        None => {},
    }
}

/// To create a token account moves no currency and leaves every address where
/// it is.
pub proof fn lemma_ata_made_follows(
    ledger: LedgerView,
    ata: int,
    wallet: int,
    mint: int,
    fee_payer: int,
    fee_payer_seeds: Seq<Seq<u8>>,
)
    requires
        0 <= ata < ledger.accounts.len(),
        ledger.accounts[ata].data.len() == 0,
    ensures
        ata_made(ledger, ata, wallet, mint, fee_payer, fee_payer_seeds).follows(ledger),
{
    let made = ata_made(ledger, ata, wallet, mint, fee_payer, fee_payer_seeds);
    lemma_total_after_update(ledger.accounts, ata, made.accounts[ata], ledger.accounts.len() as int);
}

/// Whether the places that a payment of royalties names are places on a ledger
/// of `len` accounts.
pub open spec fn payment_in_place(payment: RoyaltyPayment, len: nat) -> bool {
    &&& are_places(payment.remaining_accounts, len)
    &&& 0 <= payment.escrow_payment_account < len
    &&& 0 <= payment.fee_payer < len
    &&& 0 <= payment.treasury_mint < len
}

/// The payment of a creator makes no currency and loses none.
pub proof fn lemma_creator_paid_follows(
    ledger: LedgerView,
    payment: RoyaltyPayment,
    creator: Creator,
    cursor: int,
    remaining_fee: u64,
)
    requires
        payment_in_place(payment, ledger.accounts.len()),
        0 <= cursor,
        creator_paid(ledger, payment, creator, cursor, remaining_fee) is Ok,
    ensures
        creator_paid(ledger, payment, creator, cursor, remaining_fee)->Ok_0.0.follows(ledger),
{
    let creator_fee = percent_of(creator.share, payment.total_fee) as u64;
    let creator_info = payment.remaining_accounts[cursor] as int;
    if !payment.is_native {
        let token_account = payment.remaining_accounts[cursor + 1] as int;
        if ledger.accounts[token_account].data.len() == 0 {
            lemma_ata_made_follows(
                ledger,
                token_account,
                creator_info,
                payment.treasury_mint,
                payment.fee_payer,
                payment.fee_payer_seeds,
            );
        }
    } else if creator_fee > 0 {
        lemma_transfer_follows(
            ledger,
            payment.escrow_payment_account,
            creator_info,
            creator_fee,
            payment.signer_seeds,
        );
    }
}

/// The payment of the creators makes no currency and loses none.
pub proof fn lemma_creators_paid_follows(
    ledger: LedgerView,
    payment: RoyaltyPayment,
    creators: Seq<Creator>,
    from: int,
    remaining_fee: u64,
)
    requires
        payment_in_place(payment, ledger.accounts.len()),
        0 <= from <= creators.len(),
        creators_paid(ledger, payment, creators, from, remaining_fee) is Ok,
    ensures
        creators_paid(ledger, payment, creators, from, remaining_fee)->Ok_0.0.follows(ledger),
    decreases creators.len() - from,
{
    if from < creators.len() {
        let step = creator_paid(ledger, payment, creators[from], cursor_of(from, payment.is_native), remaining_fee);
        lemma_creator_paid_follows(ledger, payment, creators[from], cursor_of(from, payment.is_native), remaining_fee);
        lemma_creators_paid_follows(step->Ok_0.0, payment, creators, from + 1, step->Ok_0.1);
    }
}

/// The payment of the royalties makes no currency and loses none.
pub proof fn lemma_creator_fees_paid_follows(
    ledger: LedgerView,
    remaining_accounts: Seq<usize>,
    metadata_info: int,
    escrow_payment_account: int,
    payment_account_owner: Pubkey,
    fee_payer: int,
    treasury_mint: int,
    signer_seeds: Seq<Seq<u8>>,
    fee_payer_seeds: Seq<Seq<u8>>,
    size: u64,
    is_native: bool,
)
    requires
        are_places(remaining_accounts, ledger.accounts.len()),
        0 <= escrow_payment_account < ledger.accounts.len(),
        0 <= fee_payer < ledger.accounts.len(),
        0 <= treasury_mint < ledger.accounts.len(),
        creator_fees_paid(
            ledger,
            remaining_accounts,
            metadata_info,
            escrow_payment_account,
            payment_account_owner,
            fee_payer,
            treasury_mint,
            signer_seeds,
            fee_payer_seeds,
            size,
            is_native,
        ) is Ok,
    ensures
        creator_fees_paid(
            ledger,
            remaining_accounts,
            metadata_info,
            escrow_payment_account,
            payment_account_owner,
            fee_payer,
            treasury_mint,
            signer_seeds,
            fee_payer_seeds,
            size,
            is_native,
        )->Ok_0.0.follows(ledger),
{
    let metadata = metadata_of(ledger.accounts[metadata_info].data, ledger.accounts[metadata_info].owner)->Some_0;
    let total_fee = basis_points_of(metadata.seller_fee_basis_points, size) as u64;
    let payment = RoyaltyPayment {
        remaining_accounts,
        escrow_payment_account,
        payment_account_owner,
        fee_payer,
        treasury_mint,
        signer_seeds,
        fee_payer_seeds,
        total_fee,
        is_native,
    };
    match metadata.creators {
        Some(creators) => {
            lemma_creators_paid_follows(ledger, payment, creators, 0, total_fee);
        },
        None => {},
    }
}

/// The payment of the marketplace's fee makes no currency and loses none.
pub proof fn lemma_auction_house_fees_paid_follows(
    ledger: LedgerView,
    auction_house: AuctionHouse,
    auction_house_treasury: int,
    escrow_payment_account: int,
    signer_seeds: Seq<Seq<u8>>,
    size: u64,
    is_native: bool,
)
    requires
        0 <= auction_house_treasury < ledger.accounts.len(),
        0 <= escrow_payment_account < ledger.accounts.len(),
        auction_house_fees_paid(
            ledger,
            auction_house,
            auction_house_treasury,
            escrow_payment_account,
            signer_seeds,
            size,
            is_native,
        ) is Ok,
    ensures
        auction_house_fees_paid(
            ledger,
            auction_house,
            auction_house_treasury,
            escrow_payment_account,
            signer_seeds,
            size,
            is_native,
        )->Ok_0.0.follows(ledger),
{
    if is_native {
        let total_fee = basis_points_of(auction_house.seller_fee_basis_points, size) as u64;
        lemma_transfer_follows(ledger, escrow_payment_account, auction_house_treasury, total_fee, signer_seeds);
    }
}

/// The settlement divides the price as the distribution says. When the
/// creators and the marketplace have been paid, the price has a distribution
/// by the metadata's royalty and creators and the marketplace's fee, and what is
/// left for the seller is the seller's remainder of that distribution.
pub proof fn lemma_fees_paid_are_the_distribution(
    ledger: LedgerView,
    ctx: ExecuteSale,
    fee_payer: int,
    fee_payer_seeds: Seq<Seq<u8>>,
    signer_seeds: Seq<Seq<u8>>,
    buyer_price: u64,
    is_native: bool,
)
    requires
        fees_paid(ledger, ctx, fee_payer, fee_payer_seeds, signer_seeds, buyer_price, is_native) is Ok,
    ensures
        ({
            let left = fees_paid(
                ledger,
                ctx,
                fee_payer,
                fee_payer_seeds,
                signer_seeds,
                buyer_price,
                is_native,
            )->Ok_0.1;
            let record = ledger.accounts[ctx.metadata as int];
            let metadata = metadata_of(record.data, record.owner);
            let parts = distribution(
                buyer_price,
                metadata->Some_0.seller_fee_basis_points,
                ctx.auction_house.seller_fee_basis_points,
                metadata->Some_0.creators,
            );
            &&& metadata is Some
            &&& parts is Ok
            &&& left == parts->Ok_0.seller_remainder
            &&& sum(parts->Ok_0.creator_cuts) + parts->Ok_0.marketplace_fee + left == buyer_price
        }),
{
    lemma_royalties_leave(
        ledger,
        ctx.remaining_accounts@,
        ctx.metadata as int,
        ctx.escrow_payment_account as int,
        ctx.auction_house.key,
        fee_payer,
        ctx.treasury_mint as int,
        signer_seeds,
        fee_payer_seeds,
        buyer_price,
        is_native,
    );
    let record = ledger.accounts[ctx.metadata as int];
    let metadata = metadata_of(record.data, record.owner)->Some_0;
    let royalty = basis_points_of(metadata.seller_fee_basis_points, buyer_price) as u64;
    let payment = RoyaltyPayment {
        remaining_accounts: ctx.remaining_accounts@,
        escrow_payment_account: ctx.escrow_payment_account as int,
        payment_account_owner: ctx.auction_house.key,
        fee_payer,
        treasury_mint: ctx.treasury_mint as int,
        signer_seeds,
        fee_payer_seeds,
        total_fee: royalty,
        is_native,
    };
    match metadata.creators {
        Some(creators) => {
            lemma_creators_paid_leaves(ledger, payment, creators, 0, royalty);
        },
        None => {},
    }
    lemma_distribution_is_exact(
        buyer_price,
        metadata.seller_fee_basis_points,
        ctx.auction_house.seller_fee_basis_points,
        metadata.creators,
    );
}

/// An order that is closed is never matched. Where the buyer's or the seller's
/// trade state holds no record, or a record whose bump seed is zero, there is
/// no sale, whatever else the accounts hold.
pub proof fn lemma_closed_order_is_refused(
    ctx: ExecuteSale,
    escrow_payment_bump: u8,
    program_as_signer_bump: u8,
    buyer_price: u64,
    token_size: u64,
)
    requires
        ctx.wf(),
        ({
            let buyer = ctx.accounts.deep_view()[ctx.buyer_trade_state as int].data;
            let seller = ctx.accounts.deep_view()[ctx.seller_trade_state as int].data;
            buyer.len() == 0 || buyer[0] == 0 || seller.len() == 0 || seller[0] == 0
        }),
    ensures
        sale_executed(ctx, escrow_payment_bump, program_as_signer_bump, buyer_price, token_size) is Err,
{
}

/// A sale at price zero needs the signature of the marketplace's authority or
/// of the seller: without either it is refused before anything else is looked
/// at, and so every sale at price zero that is settled bears one of them.
pub proof fn lemma_free_sale_needs_signature(
    ctx: ExecuteSale,
    escrow_payment_bump: u8,
    program_as_signer_bump: u8,
    token_size: u64,
)
    requires
        ctx.wf(),
    ensures
        ({
            let accounts = ctx.accounts.deep_view();
            let signed = accounts[ctx.authority as int].is_signer || accounts[ctx.seller as int].is_signer;
            let result = sale_executed(ctx, escrow_payment_bump, program_as_signer_bump, 0, token_size);
            &&& !signed ==> result == Err::<LedgerView, AuctionHouseError>(
                AuctionHouseError::CannotMatchFreeSalesWithoutAuctionHouseOrSellerSignoff,
            )
            &&& result is Ok ==> signed
        }),
{
}

/// A token account that has a delegate receives nothing. Where the account
/// that is to receive is the wallet's associated token account and names a
/// delegate, it is refused with the error given, whether it has just been
/// created or was there before.
pub proof fn lemma_delegated_receipt_is_refused(
    ledger: LedgerView,
    receipt: int,
    wallet: int,
    mint: int,
    fee_payer: int,
    fee_payer_seeds: Seq<Seq<u8>>,
    delegate_error: AuctionHouseError,
)
    ensures
        ({
            let made = if ledger.accounts[receipt].data.len() == 0 {
                ata_made(ledger, receipt, wallet, mint, fee_payer, fee_payer_seeds)
            } else {
                ledger
            };
            let record = is_ata(made.accounts[receipt], made.accounts[wallet].key, made.accounts[mint].key);
            &&& record is Ok && record->Ok_0.delegate is Some ==> receipt_ready(
                ledger,
                receipt,
                wallet,
                mint,
                fee_payer,
                fee_payer_seeds,
                delegate_error,
            ) == Err::<LedgerView, AuctionHouseError>(delegate_error)
            &&& receipt_ready(ledger, receipt, wallet, mint, fee_payer, fee_payer_seeds, delegate_error) is Ok
                ==> record is Ok && record->Ok_0.delegate is None
        }),
{
}

/// No account that has a delegate receives anything. Where the token account
/// of a creator, the seller's or the buyer's is there, is the wallet's
/// associated token account and has a delegate: the payment of the creator
/// fails, with `CreatorATACannotHaveDelegate` where the creator's part and
/// wallet are in order; the payment of the seller in tokens fails with
/// `SellerATACannotHaveDelegate`; the delivery to the buyer fails with
/// `BuyerATACannotHaveDelegate`. None of them lists a transfer.
pub proof fn lemma_no_funds_reach_a_delegated_account(
    ledger: LedgerView,
    ctx: ExecuteSale,
    fee_payer: int,
    fee_payer_seeds: Seq<Seq<u8>>,
    amount: u64,
    escrow_payment_bump: u8,
    token_size: u64,
    program_as_signer_bump: u8,
    payment: RoyaltyPayment,
    creator: Creator,
    cursor: int,
    remaining_fee: u64,
)
    ensures
        ({
            let wallet = payment.remaining_accounts[cursor] as int;
            let token_account = payment.remaining_accounts[cursor + 1] as int;
            let record = is_ata(
                ledger.accounts[token_account],
                ledger.accounts[wallet].key,
                ledger.accounts[payment.treasury_mint].key,
            );
            let part = checked(percent_of(creator.share, payment.total_fee));
            let paid = creator_paid(ledger, payment, creator, cursor, remaining_fee);
            !payment.is_native && 0 <= cursor && cursor + 1 < payment.remaining_accounts.len()
                && ledger.accounts[token_account].data.len() > 0 && record is Ok && record->Ok_0.delegate is Some
                ==> {
                &&& paid is Err
                &&& part is Ok && part->Ok_0 <= remaining_fee && creator.address == ledger.accounts[wallet].key
                    ==> paid == Err::<(LedgerView, u64), AuctionHouseError>(
                    AuctionHouseError::CreatorATACannotHaveDelegate,
                )
            }
        }),
        ({
            let receipt = ctx.seller_payment_receipt_account as int;
            let record = is_ata(
                ledger.accounts[receipt],
                ledger.accounts[ctx.seller as int].key,
                ledger.accounts[ctx.treasury_mint as int].key,
            );
            ledger.accounts[receipt].data.len() > 0 && record is Ok && record->Ok_0.delegate is Some ==> seller_paid(
                ledger,
                ctx,
                fee_payer,
                fee_payer_seeds,
                amount,
                escrow_payment_bump,
                false,
            ) == Err::<LedgerView, AuctionHouseError>(AuctionHouseError::SellerATACannotHaveDelegate)
        }),
        ({
            let receipt = ctx.buyer_receipt_token_account as int;
            let record = is_ata(
                ledger.accounts[receipt],
                ledger.accounts[ctx.buyer as int].key,
                ledger.accounts[ctx.token_mint as int].key,
            );
            ledger.accounts[receipt].data.len() > 0 && record is Ok && record->Ok_0.delegate is Some
                ==> token_delivered(
                ledger,
                ctx,
                fee_payer,
                fee_payer_seeds,
                token_size,
                program_as_signer_bump,
            ) == Err::<LedgerView, AuctionHouseError>(AuctionHouseError::BuyerATACannotHaveDelegate)
        }),
{
}

/// A creator who is paid in tokens has a token account without a delegate:
/// wherever the payment of a creator in tokens succeeds, the account that
/// receives, created or found, is the creator's associated token account of
/// the treasury's mint and names no delegate.
pub proof fn lemma_paid_creator_has_no_delegate(
    ledger: LedgerView,
    payment: RoyaltyPayment,
    creator: Creator,
    cursor: int,
    remaining_fee: u64,
)
    requires
        !payment.is_native,
        creator_paid(ledger, payment, creator, cursor, remaining_fee) is Ok,
    ensures
        ({
            let wallet = payment.remaining_accounts[cursor] as int;
            let token_account = payment.remaining_accounts[cursor + 1] as int;
            let made = if ledger.accounts[token_account].data.len() == 0 {
                ata_made(ledger, token_account, wallet, payment.treasury_mint, payment.fee_payer, payment.fee_payer_seeds)
            } else {
                ledger
            };
            let record = is_ata(
                made.accounts[token_account],
                made.accounts[wallet].key,
                made.accounts[payment.treasury_mint].key,
            );
            record is Ok && record->Ok_0.delegate is None
        }),
{
}

/// Making good an escrow restores exactly what it lacks, which is never more
/// than the balance that exempts it from rent. Where the payer is another
/// account than the escrow, and the escrow has been made good: it held the
/// price and that balance, each alone, before; what it lacked to give the whole
/// price and keep the balance was no more than the balance; the payer has
/// given just that, and nothing where nothing lacked; and the escrow can now
/// give the whole price and keep the balance.
pub proof fn lemma_top_up_restores_the_difference(
    ledger: LedgerView,
    escrow_payment_account: int,
    fee_payer: int,
    fee_payer_seeds: Seq<Seq<u8>>,
    rent_minimum: u64,
    buyer_price: u64,
)
    requires
        0 <= escrow_payment_account < ledger.accounts.len(),
        0 <= fee_payer < ledger.accounts.len(),
        escrow_payment_account != fee_payer,
        escrow_topped_up(
            ledger,
            escrow_payment_account,
            fee_payer,
            fee_payer_seeds,
            rent_minimum,
            buyer_price,
        ) is Ok,
    ensures
        ({
            let after = escrow_topped_up(
                ledger,
                escrow_payment_account,
                fee_payer,
                fee_payer_seeds,
                rent_minimum,
                buyer_price,
            )->Ok_0;
            let held = ledger.accounts[escrow_payment_account].lamports;
            let lacking = buyer_price + rent_minimum - held;
            let added = after.accounts[escrow_payment_account].lamports - held;
            &&& rent_minimum <= held
            &&& buyer_price <= held
            &&& lacking <= rent_minimum
            &&& added == if lacking > 0 {
                lacking
            } else {
                0
            }
            &&& lacking <= 0 ==> after == ledger
            &&& after.accounts[escrow_payment_account].lamports >= buyer_price + rent_minimum
            &&& after.accounts[fee_payer].lamports == ledger.accounts[fee_payer].lamports - added
        }),
{
    lemma_withdrawal_is_capped(ledger.accounts[escrow_payment_account].lamports, rent_minimum, buyer_price);
}

/// To make a token account ready to receive moves no currency.
pub proof fn lemma_receipt_ready_follows(
    ledger: LedgerView,
    receipt: int,
    wallet: int,
    mint: int,
    fee_payer: int,
    fee_payer_seeds: Seq<Seq<u8>>,
    delegate_error: AuctionHouseError,
)
    requires
        0 <= receipt < ledger.accounts.len(),
        receipt_ready(ledger, receipt, wallet, mint, fee_payer, fee_payer_seeds, delegate_error) is Ok,
    ensures
        receipt_ready(ledger, receipt, wallet, mint, fee_payer, fee_payer_seeds, delegate_error)->Ok_0.follows(
            ledger,
        ),
{
    if ledger.accounts[receipt].data.len() == 0 {
        lemma_ata_made_follows(ledger, receipt, wallet, mint, fee_payer, fee_payer_seeds);
    }
}

/// To close a trade state makes no currency and loses none: what it held is
/// the payer's.
pub proof fn lemma_trade_state_reclaimed_follows(ledger: LedgerView, trade_state: int, fee_payer: int)
    requires
        0 <= trade_state < ledger.accounts.len(),
        0 <= fee_payer < ledger.accounts.len(),
        trade_state_reclaimed(ledger, trade_state, fee_payer) is Ok,
    ensures
        trade_state_reclaimed(ledger, trade_state, fee_payer)->Ok_0.follows(ledger),
{
    let before = ledger.accounts[trade_state];
    let closed = AccountView {
        lamports: 0,
        data: filled(before.data, 0, trade_state_bytes(before.data.len())),
        ..before
    };
    let cleared = LedgerView { accounts: ledger.accounts.update(trade_state, closed), ..ledger };
    let credited = cleared.credit(fee_payer, before.lamports)->Ok_0;
    lemma_total_after_update(ledger.accounts, trade_state, closed, ledger.accounts.len() as int);
    lemma_total_after_update(cleared.accounts, fee_payer, credited.accounts[fee_payer], ledger.accounts.len() as int);
}

/// Up to the delivery of the tokens the settlement makes no native currency
/// and loses none, and the account that pays the costs is one of the accounts.
pub proof fn lemma_delivery_follows(
    ctx: ExecuteSale,
    escrow_payment_bump: u8,
    program_as_signer_bump: u8,
    buyer_price: u64,
    token_size: u64,
)
    requires
        ctx.wf(),
        sale_delivered(ctx, escrow_payment_bump, program_as_signer_bump, buyer_price, token_size) is Ok,
    ensures
        sale_delivered(ctx, escrow_payment_bump, program_as_signer_bump, buyer_price, token_size)->Ok_0.0.follows(
            LedgerView { accounts: ctx.accounts.deep_view(), instructions: Seq::empty() },
        ),
        0 <= sale_delivered(ctx, escrow_payment_bump, program_as_signer_bump, buyer_price, token_size)->Ok_0.1
            < ctx.accounts.len(),
{
    let start = LedgerView { accounts: ctx.accounts.deep_view(), instructions: Seq::empty() };
    let is_native = start.accounts[ctx.treasury_mint as int].key == native_mint_id();
    let mint = sale_agreed(start.accounts, ctx, buyer_price, token_size)->Ok_0;
    let payer = sale_payer(start.accounts, ctx, mint)->Ok_0;
    let fee_payer = payer_place(start.accounts, ctx, payer);
    let fee_payer_seeds = payer_seeds(ctx, payer);
    let signer_seeds = if is_native {
        escrow_signer_seeds(ctx.auction_house, start.accounts[ctx.buyer as int].key, escrow_payment_bump)
    } else {
        auction_house_seeds(ctx.auction_house)
    };
    let funded = if is_native {
        escrow_topped_up(
            start,
            ctx.escrow_payment_account as int,
            fee_payer,
            fee_payer_seeds,
            ctx.rent_exempt_minimum,
            buyer_price,
        )
    } else {
        Ok(start)
    };
    let unsettled = funded->Ok_0;
    assert(unsettled.follows(start)) by {
        if is_native {
            let diff = rent_checked(
                start.accounts[ctx.escrow_payment_account as int].lamports,
                ctx.rent_exempt_minimum,
                buyer_price,
            )->Ok_0;
            if diff != buyer_price {
                let short_fall = if buyer_price - diff <= ctx.rent_exempt_minimum {
                    (buyer_price - diff) as u64
                } else {
                    ctx.rent_exempt_minimum
                };
                lemma_transfer_follows(
                    start,
                    fee_payer,
                    ctx.escrow_payment_account as int,
                    short_fall,
                    fee_payer_seeds,
                );
            }
        }
    }
    // the creators and the marketplace
    let royalties = creator_fees_paid(
        unsettled,
        ctx.remaining_accounts@,
        ctx.metadata as int,
        ctx.escrow_payment_account as int,
        ctx.auction_house.key,
        fee_payer,
        ctx.treasury_mint as int,
        signer_seeds,
        fee_payer_seeds,
        buyer_price,
        is_native,
    )->Ok_0;
    lemma_creator_fees_paid_follows(
        unsettled,
        ctx.remaining_accounts@,
        ctx.metadata as int,
        ctx.escrow_payment_account as int,
        ctx.auction_house.key,
        fee_payer,
        ctx.treasury_mint as int,
        signer_seeds,
        fee_payer_seeds,
        buyer_price,
        is_native,
    );
    lemma_auction_house_fees_paid_follows(
        royalties.0,
        ctx.auction_house,
        ctx.auction_house_treasury as int,
        ctx.escrow_payment_account as int,
        signer_seeds,
        buyer_price,
        is_native,
    );
    let (fee_paid, left) = fees_paid(
        unsettled,
        ctx,
        fee_payer,
        fee_payer_seeds,
        signer_seeds,
        buyer_price,
        is_native,
    )->Ok_0;
    lemma_follows_is_an_order(unsettled, royalties.0, fee_paid);
    lemma_follows_is_an_order(start, unsettled, fee_paid);
    // the seller
    let settled_seller = seller_paid(
        fee_paid,
        ctx,
        fee_payer,
        fee_payer_seeds,
        left,
        escrow_payment_bump,
        is_native,
    )->Ok_0;
    assert(settled_seller.follows(fee_paid)) by {
        if is_native {
            lemma_transfer_follows(
                fee_paid,
                ctx.escrow_payment_account as int,
                ctx.seller_payment_receipt_account as int,
                left,
                escrow_signer_seeds(ctx.auction_house, fee_paid.accounts[ctx.buyer as int].key, escrow_payment_bump),
            );
        } else {
            lemma_receipt_ready_follows(
                fee_paid,
                ctx.seller_payment_receipt_account as int,
                ctx.seller as int,
                ctx.treasury_mint as int,
                fee_payer,
                fee_payer_seeds,
                AuctionHouseError::SellerATACannotHaveDelegate,
            );
        }
    }
    lemma_follows_is_an_order(start, fee_paid, settled_seller);
    // the buyer
    let delivered = token_delivered(
        settled_seller,
        ctx,
        fee_payer,
        fee_payer_seeds,
        token_size,
        program_as_signer_bump,
    )->Ok_0;
    lemma_receipt_ready_follows(
        settled_seller,
        ctx.buyer_receipt_token_account as int,
        ctx.buyer as int,
        ctx.token_mint as int,
        fee_payer,
        fee_payer_seeds,
        AuctionHouseError::BuyerATACannotHaveDelegate,
    );
    lemma_follows_is_an_order(start, settled_seller, delivered);
}

/// To close the orders makes no native currency and loses none.
pub proof fn lemma_reclaimed_follows(ledger: LedgerView, ctx: ExecuteSale, fee_payer: int)
    requires
        ctx.wf(),
        ledger.accounts.len() == ctx.accounts.len(),
        0 <= fee_payer < ledger.accounts.len(),
        reclaimed(ledger, ctx, fee_payer) is Ok,
    ensures
        reclaimed(ledger, ctx, fee_payer)->Ok_0.follows(ledger),
{
    let seller_closed = trade_state_reclaimed(ledger, ctx.seller_trade_state as int, fee_payer)->Ok_0;
    lemma_trade_state_reclaimed_follows(ledger, ctx.seller_trade_state as int, fee_payer);
    let buyer_closed = trade_state_reclaimed(seller_closed, ctx.buyer_trade_state as int, fee_payer)->Ok_0;
    lemma_trade_state_reclaimed_follows(seller_closed, ctx.buyer_trade_state as int, fee_payer);
    if buyer_closed.accounts[ctx.free_trade_state as int].lamports > 0 {
        lemma_trade_state_reclaimed_follows(buyer_closed, ctx.free_trade_state as int, fee_payer);
    }
}

/// The settlement of a sale makes no native currency and loses none. Where a
/// sale is settled, the accounts hold together what they held before; each
/// stands at its address and has signed or not as before; and a record that
/// was there has kept its length.
pub proof fn lemma_settlement_follows(
    ctx: ExecuteSale,
    escrow_payment_bump: u8,
    program_as_signer_bump: u8,
    buyer_price: u64,
    token_size: u64,
)
    requires
        ctx.wf(),
        sale_executed(ctx, escrow_payment_bump, program_as_signer_bump, buyer_price, token_size) is Ok,
    ensures
        sale_executed(ctx, escrow_payment_bump, program_as_signer_bump, buyer_price, token_size)->Ok_0.follows(
            LedgerView { accounts: ctx.accounts.deep_view(), instructions: Seq::empty() },
        ),
{
    let (delivered, fee_payer) = sale_delivered(
        ctx,
        escrow_payment_bump,
        program_as_signer_bump,
        buyer_price,
        token_size,
    )->Ok_0;
    lemma_delivery_follows(ctx, escrow_payment_bump, program_as_signer_bump, buyer_price, token_size);
    lemma_reclaimed_follows(delivered, ctx, fee_payer);
}

/// Where the orders have been closed, the head of the record of the buyer's
/// and of the seller's order is zero, if it has a head; and an order holds no
/// currency any more unless it is itself the account that pays the costs.
pub proof fn lemma_reclaimed_orders_are_closed(ledger: LedgerView, ctx: ExecuteSale, fee_payer: int)
    requires
        ctx.wf(),
        ledger.accounts.len() == ctx.accounts.len(),
        0 <= fee_payer < ledger.accounts.len(),
        reclaimed(ledger, ctx, fee_payer) is Ok,
    ensures
        ({
            let after = reclaimed(ledger, ctx, fee_payer)->Ok_0.accounts;
            let buyer = ctx.buyer_trade_state as int;
            let seller = ctx.seller_trade_state as int;
            &&& ledger.accounts[buyer].data.len() > 0 ==> after[buyer].data.len() > 0 && after[buyer].data[0] == 0
            &&& ledger.accounts[seller].data.len() > 0 ==> after[seller].data.len() > 0 && after[seller].data[0]
                == 0
            &&& buyer != fee_payer ==> after[buyer].lamports == 0
            &&& seller != fee_payer ==> after[seller].lamports == 0
        }),
{
}

/// Where a sale has been settled, the two orders are closed: the head of each
/// record is zero, and each holds no currency unless it is itself the account
/// that pays the costs.
pub proof fn lemma_settled_orders_are_closed(
    ctx: ExecuteSale,
    escrow_payment_bump: u8,
    program_as_signer_bump: u8,
    buyer_price: u64,
    token_size: u64,
)
    requires
        ctx.wf(),
        sale_executed(ctx, escrow_payment_bump, program_as_signer_bump, buyer_price, token_size) is Ok,
    ensures
        ({
            let settled = sale_executed(
                ctx,
                escrow_payment_bump,
                program_as_signer_bump,
                buyer_price,
                token_size,
            )->Ok_0.accounts;
            let buyer = ctx.buyer_trade_state as int;
            let seller = ctx.seller_trade_state as int;
            let fee_payer = sale_delivered(
                ctx,
                escrow_payment_bump,
                program_as_signer_bump,
                buyer_price,
                token_size,
            )->Ok_0.1;
            &&& settled[buyer].data.len() > 0 && settled[buyer].data[0] == 0
            &&& settled[seller].data.len() > 0 && settled[seller].data[0] == 0
            &&& buyer != fee_payer ==> settled[buyer].lamports == 0
            &&& seller != fee_payer ==> settled[seller].lamports == 0
        }),
{
    let start = LedgerView { accounts: ctx.accounts.deep_view(), instructions: Seq::empty() };
    let (delivered, fee_payer) = sale_delivered(
        ctx,
        escrow_payment_bump,
        program_as_signer_bump,
        buyer_price,
        token_size,
    )->Ok_0;
    // the orders were open, and their records have kept their length
    assert(start.accounts[ctx.buyer_trade_state as int].data.len() > 0 && start.accounts[ctx.seller_trade_state as int].data.len()
        > 0) by {
        let agreed = sale_agreed(start.accounts, ctx, buyer_price, token_size);
        assert(agreed is Ok);
    }
    lemma_delivery_follows(ctx, escrow_payment_bump, program_as_signer_bump, buyer_price, token_size);
    assert(delivered.accounts[ctx.buyer_trade_state as int].data.len() > 0);
    assert(delivered.accounts[ctx.seller_trade_state as int].data.len() > 0);
    lemma_reclaimed_orders_are_closed(delivered, ctx, fee_payer);
}

/// A sale is settled once. On the accounts as a settlement has left them no
/// sale is settled again, at whatever price and with whatever bump seeds.
pub proof fn lemma_settled_sale_is_not_settled_again(
    ctx: ExecuteSale,
    after: ExecuteSale,
    escrow_payment_bump: u8,
    program_as_signer_bump: u8,
    buyer_price: u64,
    token_size: u64,
    next_escrow_payment_bump: u8,
    next_program_as_signer_bump: u8,
    next_buyer_price: u64,
    next_token_size: u64,
)
    requires
        ctx.wf(),
        sale_executed(ctx, escrow_payment_bump, program_as_signer_bump, buyer_price, token_size) is Ok,
        same_places(ctx, after),
        after.accounts.deep_view() == sale_executed(
            ctx,
            escrow_payment_bump,
            program_as_signer_bump,
            buyer_price,
            token_size,
        )->Ok_0.accounts,
    ensures
        after.wf(),
        sale_executed(
            after,
            next_escrow_payment_bump,
            next_program_as_signer_bump,
            next_buyer_price,
            next_token_size,
        ) is Err,
{
    let start = LedgerView { accounts: ctx.accounts.deep_view(), instructions: Seq::empty() };
    let settled = sale_executed(ctx, escrow_payment_bump, program_as_signer_bump, buyer_price, token_size)->Ok_0;
    assert(after.wf()) by {
        lemma_settlement_follows(ctx, escrow_payment_bump, program_as_signer_bump, buyer_price, token_size);
        lemma_addresses_stay_distinct(start, settled);
    }
    lemma_settled_orders_are_closed(ctx, escrow_payment_bump, program_as_signer_bump, buyer_price, token_size);
    lemma_closed_order_is_refused(
        after,
        next_escrow_payment_bump,
        next_program_as_signer_bump,
        next_buyer_price,
        next_token_size,
    );
}

/// The creation of a marketplace leaves every account at its address.
pub proof fn lemma_creation_keeps_addresses(
    ctx: CreateAuctionHouse,
    fee_payer_bump: u8,
    treasury_bump: u8,
    seller_fee_basis_points: u16,
    requires_sign_off: bool,
    can_change_sale_price: bool,
)
    requires
        ctx.wf(),
        house_created(
            ctx,
            fee_payer_bump,
            treasury_bump,
            seller_fee_basis_points,
            requires_sign_off,
            can_change_sale_price,
        ) is Ok,
    ensures
        house_created(
            ctx,
            fee_payer_bump,
            treasury_bump,
            seller_fee_basis_points,
            requires_sign_off,
            can_change_sale_price,
        )->Ok_0.1.same_addresses(LedgerView { accounts: ctx.accounts.deep_view(), instructions: Seq::empty() }),
{
}

} // verus!
