//! The seeds from which the marketplace's own addresses are made, and by which
//! they sign.

use vstd::prelude::*;
use vstd::slice::slice_to_vec;
use vstd::string::StringSliceAdditionalSpecFns;
use crate::constant::{id, FEE_PAYER, PREFIX, SIGNER, TREASURY};
use crate::errors::AuctionHouseError;
use crate::program::{create_program_address, created_program_address};
use crate::state::{AuctionHouse, Pubkey};

verus! {

/// The seeds by which the marketplace's fee account signs.
pub open spec fn fee_payer_seeds(auction_house: AuctionHouse) -> Seq<Seq<u8>> {
    seq![
        PREFIX.spec_bytes(),
        auction_house.key@,
        FEE_PAYER.spec_bytes(),
        seq![auction_house.fee_payer_bump],
    ]
}

/// The seeds by which the escrow of `buyer` signs, with the bump seed given.
pub open spec fn escrow_signer_seeds(auction_house: AuctionHouse, buyer: Pubkey, escrow_payment_bump: u8) -> Seq<
    Seq<u8>,
> {
    seq![PREFIX.spec_bytes(), auction_house.key@, buyer@, seq![escrow_payment_bump]]
}

/// The seeds of the address of a marketplace, without its bump seed.
pub open spec fn auction_house_address_seeds(creator: Pubkey, treasury_mint: Pubkey) -> Seq<Seq<u8>> {
    seq![PREFIX.spec_bytes(), creator@, treasury_mint@]
}

/// Builds the seeds of the address of a marketplace, without its bump seed.
pub fn auction_house_address_seeds_of(creator: &Pubkey, treasury_mint: &Pubkey) -> (seeds: Vec<Vec<u8>>)
    ensures
        seeds.deep_view() == auction_house_address_seeds(*creator, *treasury_mint),
{
    let mut seeds: Vec<Vec<u8>> = Vec::new();
    seeds.push(slice_to_vec(PREFIX.as_bytes()));
    seeds.push(creator.to_seed());
    seeds.push(treasury_mint.to_seed());
    assert(seeds.deep_view() =~~= auction_house_address_seeds(*creator, *treasury_mint));
    seeds
}

/// The seeds by which the marketplace itself signs.
pub open spec fn auction_house_seeds(auction_house: AuctionHouse) -> Seq<Seq<u8>> {
    seq![
        PREFIX.spec_bytes(),
        auction_house.creator@,
        auction_house.treasury_mint@,
        seq![auction_house.bump],
    ]
}

/// The seeds by which the program's custody address signs, with the bump seed
/// given.
pub open spec fn program_as_signer_seeds(program_as_signer_bump: u8) -> Seq<Seq<u8>> {
    seq![PREFIX.spec_bytes(), SIGNER.spec_bytes(), seq![program_as_signer_bump]]
}

/// A seed that holds a bump seed.
pub fn bump_seed(bump: u8) -> (seed: Vec<u8>)
    ensures
        seed@ == seq![bump],
{
    let mut seed: Vec<u8> = Vec::new();
    seed.push(bump);
    seed
}

/// Builds the seeds by which the marketplace's fee account signs.
pub fn fee_payer_seeds_of(auction_house: &AuctionHouse) -> (seeds: Vec<Vec<u8>>)
    ensures
        seeds.deep_view() == fee_payer_seeds(*auction_house),
{
    let mut seeds: Vec<Vec<u8>> = Vec::new();
    seeds.push(slice_to_vec(PREFIX.as_bytes()));
    seeds.push(auction_house.key.to_seed());
    seeds.push(slice_to_vec(FEE_PAYER.as_bytes()));
    seeds.push(bump_seed(auction_house.fee_payer_bump));
    assert(seeds.deep_view() =~~= fee_payer_seeds(*auction_house));
    seeds
}

/// Builds the seeds by which the escrow of `buyer` signs.
pub fn escrow_signer_seeds_of(auction_house: &AuctionHouse, buyer: &Pubkey, escrow_payment_bump: u8) -> (seeds: Vec<
    Vec<u8>,
>)
    ensures
        seeds.deep_view() == escrow_signer_seeds(*auction_house, *buyer, escrow_payment_bump),
{
    let mut seeds: Vec<Vec<u8>> = Vec::new();
    seeds.push(slice_to_vec(PREFIX.as_bytes()));
    seeds.push(auction_house.key.to_seed());
    seeds.push(buyer.to_seed());
    seeds.push(bump_seed(escrow_payment_bump));
    assert(seeds.deep_view() =~~= escrow_signer_seeds(*auction_house, *buyer, escrow_payment_bump));
    seeds
}

/// Builds the seeds by which the marketplace itself signs.
pub fn auction_house_seeds_of(auction_house: &AuctionHouse) -> (seeds: Vec<Vec<u8>>)
    ensures
        seeds.deep_view() == auction_house_seeds(*auction_house),
{
    let mut seeds: Vec<Vec<u8>> = Vec::new();
    seeds.push(slice_to_vec(PREFIX.as_bytes()));
    seeds.push(auction_house.creator.to_seed());
    seeds.push(auction_house.treasury_mint.to_seed());
    seeds.push(bump_seed(auction_house.bump));
    assert(seeds.deep_view() =~~= auction_house_seeds(*auction_house));
    seeds
}

/// Builds the seeds by which the program's custody address signs.
pub fn program_as_signer_seeds_of(program_as_signer_bump: u8) -> (seeds: Vec<Vec<u8>>)
    ensures
        seeds.deep_view() == program_as_signer_seeds(program_as_signer_bump),
{
    let mut seeds: Vec<Vec<u8>> = Vec::new();
    seeds.push(slice_to_vec(PREFIX.as_bytes()));
    seeds.push(slice_to_vec(SIGNER.as_bytes()));
    seeds.push(bump_seed(program_as_signer_bump));
    assert(seeds.deep_view() =~~= program_as_signer_seeds(program_as_signer_bump));
    seeds
}

/// The seeds of the marketplace's treasury.
pub open spec fn treasury_seeds(auction_house: AuctionHouse) -> Seq<Seq<u8>> {
    seq![
        PREFIX.spec_bytes(),
        auction_house.key@,
        TREASURY.spec_bytes(),
        seq![auction_house.treasury_bump],
    ]
}

/// Builds the seeds of the marketplace's treasury.
pub fn treasury_seeds_of(auction_house: &AuctionHouse) -> (seeds: Vec<Vec<u8>>)
    ensures
        seeds.deep_view() == treasury_seeds(*auction_house),
{
    let mut seeds: Vec<Vec<u8>> = Vec::new();
    seeds.push(slice_to_vec(PREFIX.as_bytes()));
    seeds.push(auction_house.key.to_seed());
    seeds.push(slice_to_vec(TREASURY.as_bytes()));
    seeds.push(bump_seed(auction_house.treasury_bump));
    assert(seeds.deep_view() =~~= treasury_seeds(*auction_house));
    seeds
}

/// `Ok` where the address that has been made is `key`; `DerivedKeyInvalid`
/// where another has been made or none.
pub open spec fn made_at(made: Option<Pubkey>, key: Pubkey) -> Result<(), AuctionHouseError> {
    if made == Some(key) {
        Ok(())
    } else {
        Err(AuctionHouseError::DerivedKeyInvalid)
    }
}

/// `Ok` where the seeds, the bump seed among them, make the address `key` for
/// the marketplace program; else `DerivedKeyInvalid`.
pub open spec fn seeds_hold(key: Pubkey, seeds: Seq<Seq<u8>>) -> Result<(), AuctionHouseError> {
    made_at(created_program_address(seeds, id()), key)
}

/// Holds the address that seeds have made, if any, against the address `key`.
pub fn match_seeds(made: Option<Pubkey>, key: &Pubkey) -> (result: Result<(), AuctionHouseError>)
    ensures
        result == made_at(made, *key),
{
    match made {
        Some(address) => {
            if address != *key {
                return Err(AuctionHouseError::DerivedKeyInvalid);
            }
            Ok(())
        },
        None => Err(AuctionHouseError::DerivedKeyInvalid),
    }
}

/// Checks that the seeds, the bump seed among them, make the address `key`.
pub fn assert_seeds_hold(key: &Pubkey, seeds: &Vec<Vec<u8>>) -> (result: Result<(), AuctionHouseError>)
    ensures
        result == seeds_hold(*key, seeds.deep_view()),
{
    match_seeds(create_program_address(seeds, &id()), key)
}

} // verus!
