use vstd::prelude::*;
use vstd::array::{spec_array_fill_for_copy_type, spec_array_update};
use vstd::bytes::{spec_u64_to_le_bytes, u64_to_le_bytes};
use vstd::slice::slice_to_vec;
use vstd::string::StringSliceAdditionalSpecFns;
use crate::constant::{
    associated_token_program_id, id, metadata_program_id, token_program_id, METADATA_PREFIX, PREFIX,
};
use crate::errors::AuctionHouseError;
use crate::fees::{basis_points_of, checked, fee_in_basis_points, fee_in_percent, percent_of};
use crate::ledger::{is_outcome, Ledger, LedgerView};
use crate::program::{
    metadata_from_account_info, metadata_of, pack_token_account, packed_token_account, program_address,
    sol_memcmp, try_find_program_address, unpack_token_account, unpacked_token_account,
};
use crate::state::{
    AccountInfo, AccountView, AuctionHouse, Creator, Metadata, MetadataView, Operation, Pubkey, TokenAccount,
};

verus! {

/// Length in bytes of the record of a token account.
pub const TOKEN_ACCOUNT_LEN: usize = 165;

/// Where the record of a token account holds the flag that tells whether it has
/// a delegate.
pub const DELEGATE_FLAG_OFFSET: usize = 72;

/// Where the record of a token account holds its delegate's address.
pub const DELEGATE_OFFSET: usize = 76;

/// `Ok` where the two addresses are the same, else `PublicKeyMismatch`.
pub open spec fn keys_equal(key1: Pubkey, key2: Pubkey) -> Result<(), AuctionHouseError> {
    if key1 == key2 {
        Ok(())
    } else {
        Err(AuctionHouseError::PublicKeyMismatch)
    }
}

/// Succeeds exactly when the two addresses are the same.
pub fn assert_keys_equal(key1: Pubkey, key2: Pubkey) -> (result: Result<(), AuctionHouseError>)
    ensures
        result == keys_equal(key1, key2),
{
    proof {
        Pubkey::lemma_compare(key1, key2);
    }
    if sol_memcmp(key1.bytes.as_slice(), key2.bytes.as_slice(), 32) == 0 {
        Ok(())
    } else {
        Err(AuctionHouseError::PublicKeyMismatch)
    }
}

/// `Ok` where the account belongs to the program `owner`, else `IncorrectOwner`.
pub open spec fn owned_by(account: AccountView, owner: Pubkey) -> Result<(), AuctionHouseError> {
    if account.owner == owner {
        Ok(())
    } else {
        Err(AuctionHouseError::IncorrectOwner)
    }
}

/// Succeeds exactly when the account belongs to the program `owner`.
pub fn assert_owned_by(account: &AccountInfo, owner: &Pubkey) -> (result: Result<(), AuctionHouseError>)
    ensures
        result == owned_by(account@, *owner),
{
    if account.owner != *owner {
        Err(AuctionHouseError::IncorrectOwner)
    } else {
        Ok(())
    }
}

/// The token account that a record holds, by what the token program's format
/// reads in it. The format must accept the record and the record must be
/// marked as initialised: else the result is `UninitializedAccount`.
pub open spec fn initialized_record(unpacked: Option<TokenAccount>) -> Result<TokenAccount, AuctionHouseError> {
    match unpacked {
        Some(account) => if account.is_initialized() {
            Ok(account)
        } else {
            Err(AuctionHouseError::UninitializedAccount)
        },
        None => Err(AuctionHouseError::UninitializedAccount),
    }
}

/// The token account that a record holds: what the token program's format
/// reads in it, where that is an initialised token account.
pub open spec fn initialized(data: Seq<u8>) -> Result<TokenAccount, AuctionHouseError> {
    initialized_record(unpacked_token_account(data))
}

/// Checks what the token program's format has read in a record: `None` stands
/// for a record that the format refuses.
pub fn check_initialized(unpacked: Option<TokenAccount>) -> (result: Result<TokenAccount, AuctionHouseError>)
    ensures
        result == initialized_record(unpacked),
{
    match unpacked {
        Some(account) => if account.is_initialized() {
            Ok(account)
        } else {
            Err(AuctionHouseError::UninitializedAccount)
        },
        None => Err(AuctionHouseError::UninitializedAccount),
    }
}

/// What the token program's format reads in the record of an account.
fn unpack(account_info: &AccountInfo) -> (unpacked: Option<TokenAccount>)
    ensures
        unpacked == unpacked_token_account(account_info@.data),
{
    match unpack_token_account(account_info.data.as_slice()) {
        Ok(account) => Some(account),
        Err(_) => None,
    }
}

/// Reads the record of a token account and checks that it is initialised.
pub fn assert_initialized(account_info: &AccountInfo) -> (result: Result<TokenAccount, AuctionHouseError>)
    ensures
        result == initialized(account_info@.data),
{
    check_initialized(unpack(account_info))
}

/// The seeds from which the address of a wallet's token account for a mint is
/// derived.
pub open spec fn associated_token_seeds(wallet: Pubkey, mint: Pubkey) -> Seq<Seq<u8>> {
    seq![wallet@, token_program_id()@, mint@]
}

/// The address of the token account that is associated with a wallet for a
/// mint, where one can be derived.
pub open spec fn associated_token_address(wallet: Pubkey, mint: Pubkey) -> Option<Pubkey> {
    match program_address(associated_token_seeds(wallet, mint), associated_token_program_id()) {
        Some((address, _)) => Some(address),
        None => None,
    }
}

/// Derives the address of the token account that is associated with a wallet
/// for a mint.
pub fn get_associated_token_address(wallet: &Pubkey, mint: &Pubkey) -> (address: Option<Pubkey>)
    ensures
        address == associated_token_address(*wallet, *mint),
{
    let mut seeds: Vec<Vec<u8>> = Vec::new();
    seeds.push(wallet.to_seed());
    seeds.push(token_program_id().to_seed());
    seeds.push(mint.to_seed());
    assert(seeds.deep_view() =~~= associated_token_seeds(*wallet, *mint));
    match try_find_program_address(&seeds, &associated_token_program_id()) {
        Some((address, _)) => Some(address),
        None => None,
    }
}

/// What the check of an associated token account gives, by what the token
/// program's format reads in its record and by the address associated with
/// `wallet` and `mint`. Its conditions, in the order in which they are tested:
/// the account belongs to the token program (`IncorrectOwner`); its record is
/// an initialised token account (`UninitializedAccount`); that token account
/// belongs to `wallet`, holds tokens of `mint`, and stands at the associated
/// address (`PublicKeyMismatch`).
pub open spec fn ata_checked(
    ata: AccountView,
    unpacked: Option<TokenAccount>,
    address: Option<Pubkey>,
    wallet: Pubkey,
    mint: Pubkey,
) -> Result<TokenAccount, AuctionHouseError> {
    if ata.owner != token_program_id() {
        Err(AuctionHouseError::IncorrectOwner)
    } else {
        match initialized_record(unpacked) {
            Err(e) => Err(e),
            Ok(account) => if account.owner != wallet || account.mint != mint || address != Some(ata.key) {
                Err(AuctionHouseError::PublicKeyMismatch)
            } else {
                Ok(account)
            },
        }
    }
}

/// What the check of an associated token account gives: the check of what the
/// token program's format reads in its record, against the address that is
/// derived for `wallet` and `mint`.
pub open spec fn is_ata(ata: AccountView, wallet: Pubkey, mint: Pubkey) -> Result<TokenAccount, AuctionHouseError> {
    ata_checked(ata, unpacked_token_account(ata.data), associated_token_address(wallet, mint), wallet, mint)
}

/// Checks an account against what has been read in its record and against
/// the address that has been derived for `wallet` and `mint`.
pub fn check_ata(
    ata: &AccountInfo,
    unpacked: Option<TokenAccount>,
    address: Option<Pubkey>,
    wallet: &Pubkey,
    mint: &Pubkey,
) -> (result: Result<TokenAccount, AuctionHouseError>)
    ensures
        result == ata_checked(ata@, unpacked, address, *wallet, *mint),
{
    assert_owned_by(ata, &token_program_id())?;
    let ata_account = check_initialized(unpacked)?;
    assert_keys_equal(ata_account.owner, *wallet)?;
    assert_keys_equal(ata_account.mint, *mint)?;
    match address {
        Some(address) => {
            assert_keys_equal(address, ata.key)?;
        },
        None => {
            return Err(AuctionHouseError::PublicKeyMismatch);
        },
    }
    Ok(ata_account)
}

/// Checks that an account is the token account associated with `wallet` for
/// `mint`, and gives what its record holds.
pub fn assert_is_ata(ata: &AccountInfo, wallet: &Pubkey, mint: &Pubkey) -> (result: Result<
    TokenAccount,
    AuctionHouseError,
>)
    ensures
        result == is_ata(ata@, *wallet, *mint),
{
    check_ata(ata, unpack(ata), get_associated_token_address(wallet, mint), wallet, mint)
}

/// The bump seed of a derivation that has given `found`, where the address
/// that it has given is `key`; `DerivedKeyInvalid` where it has given another
/// address or none.
pub open spec fn derived(found: Option<(Pubkey, u8)>, key: Pubkey) -> Result<u8, AuctionHouseError> {
    match found {
        Some((address, bump)) => if address == key {
            Ok(bump)
        } else {
            Err(AuctionHouseError::DerivedKeyInvalid)
        },
        None => Err(AuctionHouseError::DerivedKeyInvalid),
    }
}

/// The bump seed with which `seeds` derive the address `key` for a program, or
/// `DerivedKeyInvalid` where they derive another address or none.
pub open spec fn derivation(program_id: Pubkey, key: Pubkey, seeds: Seq<Seq<u8>>) -> Result<u8, AuctionHouseError> {
    derived(program_address(seeds, program_id), key)
}

/// Holds what a derivation has given against the address `key`.
pub fn match_derivation(found: Option<(Pubkey, u8)>, key: &Pubkey) -> (result: Result<u8, AuctionHouseError>)
    ensures
        result == derived(found, *key),
{
    match found {
        Some((address, bump)) => {
            if address != *key {
                return Err(AuctionHouseError::DerivedKeyInvalid);
            }
            Ok(bump)
        },
        None => Err(AuctionHouseError::DerivedKeyInvalid),
    }
}

/// Checks that an account stands at the address that `seeds` derive for a
/// program, and gives the bump seed of the derivation.
pub fn assert_derivation(program_id: &Pubkey, account: &AccountInfo, seeds: &Vec<Vec<u8>>) -> (result: Result<
    u8,
    AuctionHouseError,
>)
    ensures
        result == derivation(*program_id, account@.key, seeds.deep_view()),
{
    match_derivation(try_find_program_address(seeds, program_id), &account.key)
}

/// The seeds from which the address of the metadata record of a mint is derived.
pub open spec fn metadata_seeds(mint: Pubkey) -> Seq<Seq<u8>> {
    seq![METADATA_PREFIX.spec_bytes(), metadata_program_id()@, mint@]
}

/// Builds the seeds of the metadata record of a mint.
pub fn metadata_seeds_of(mint: &Pubkey) -> (seeds: Vec<Vec<u8>>)
    ensures
        seeds.deep_view() == metadata_seeds(*mint),
{
    let mut seeds: Vec<Vec<u8>> = Vec::new();
    seeds.push(slice_to_vec(METADATA_PREFIX.as_bytes()));
    seeds.push(metadata_program_id().to_seed());
    seeds.push(mint.to_seed());
    assert(seeds.deep_view() =~~= metadata_seeds(*mint));
    seeds
}

/// What the check of a metadata account gives: `DerivedKeyInvalid` where it does
/// not stand at the address derived for the mint, else `MetadataDoesntExist`
/// where it holds no record.
pub open spec fn metadata_valid(metadata: AccountView, mint: Pubkey) -> Result<(), AuctionHouseError> {
    match derivation(metadata_program_id(), metadata.key, metadata_seeds(mint)) {
        Err(e) => Err(e),
        Ok(_) => if metadata.data.len() == 0 {
            Err(AuctionHouseError::MetadataDoesntExist)
        } else {
            Ok(())
        },
    }
}

/// Checks that an account is the metadata record of the mint whose tokens
/// `token_account` holds.
pub fn assert_metadata_valid(metadata: &AccountInfo, token_account: &TokenAccount) -> (result: Result<
    (),
    AuctionHouseError,
>)
    ensures
        result == metadata_valid(metadata@, token_account.mint),
{
    let seeds = metadata_seeds_of(&token_account.mint);
    assert_derivation(&metadata_program_id(), metadata, &seeds)?;
    if metadata.data_is_empty() {
        return Err(AuctionHouseError::MetadataDoesntExist);
    }
    Ok(())
}

/// Who pays the costs of an instruction.
#[derive(Clone, Copy, Debug, PartialEq, Eq, Structural)]
pub enum FeePayer {
    /// The marketplace's authority signed: the marketplace's fee account pays,
    /// and signs by its seeds.
    AuthoritySigned,
    /// The authority did not sign and the wallet did: the wallet pays.
    WalletSigned,
}

/// Who pays, by who signed. The authority's signature decides first; a wallet
/// that signed alone pays unless the marketplace requires the authority's
/// signature (`CannotTakeThisActionWithoutAuctionHouseSignOff`); where neither
/// signed there is no payer (`NoPayerPresent`).
pub open spec fn fee_payer(authority_signed: bool, wallet_signed: bool, requires_sign_off: bool) -> Result<
    FeePayer,
    AuctionHouseError,
> {
    if authority_signed {
        Ok(FeePayer::AuthoritySigned)
    } else if wallet_signed {
        if requires_sign_off {
            Err(AuctionHouseError::CannotTakeThisActionWithoutAuctionHouseSignOff)
        } else {
            Ok(FeePayer::WalletSigned)
        }
    } else {
        Err(AuctionHouseError::NoPayerPresent)
    }
}

/// Decides who pays the costs of an instruction.
pub fn get_fee_payer(authority: &AccountInfo, auction_house: &AuctionHouse, wallet: &AccountInfo) -> (result: Result<
    FeePayer,
    AuctionHouseError,
>)
    ensures
        result == fee_payer(authority.is_signer, wallet.is_signer, auction_house.requires_sign_off),
{
    if authority.is_signer {
        Ok(FeePayer::AuthoritySigned)
    } else if wallet.is_signer {
        if auction_house.requires_sign_off {
            return Err(AuctionHouseError::CannotTakeThisActionWithoutAuctionHouseSignOff);
        }
        Ok(FeePayer::WalletSigned)
    } else {
        Err(AuctionHouseError::NoPayerPresent)
    }
}

/// The seeds of the address of a trade state: of an order of `wallet` on the
/// marketplace `auction_house` to trade `token_size` tokens of `mint` at
/// `buyer_price`. A private order is also keyed by the token account that holds
/// the tokens, a public order is not.
pub open spec fn trade_state_seeds(
    wallet: Pubkey,
    auction_house: AuctionHouse,
    token_holder: Option<Pubkey>,
    mint: Pubkey,
    buyer_price: u64,
    token_size: u64,
) -> Seq<Seq<u8>> {
    let tail = seq![
        auction_house.treasury_mint@,
        mint@,
        spec_u64_to_le_bytes(buyer_price),
        spec_u64_to_le_bytes(token_size),
    ];
    let head = seq![PREFIX.spec_bytes(), wallet@, auction_house.key@];
    match token_holder {
        Some(holder) => head + seq![holder@] + tail,
        None => head + tail,
    }
}

/// Builds the seeds of the address of a trade state.
pub fn trade_state_seeds_of(
    wallet: &Pubkey,
    auction_house: &AuctionHouse,
    token_holder: Option<Pubkey>,
    mint: &Pubkey,
    buyer_price: u64,
    token_size: u64,
) -> (seeds: Vec<Vec<u8>>)
    ensures
        seeds.deep_view() == trade_state_seeds(*wallet, *auction_house, token_holder, *mint, buyer_price, token_size),
{
    let mut seeds: Vec<Vec<u8>> = Vec::new();
    seeds.push(slice_to_vec(PREFIX.as_bytes()));
    seeds.push(wallet.to_seed());
    seeds.push(auction_house.key.to_seed());
    match token_holder {
        Some(holder) => {
            seeds.push(holder.to_seed());
        },
        None => {},
    }
    seeds.push(auction_house.treasury_mint.to_seed());
    seeds.push(mint.to_seed());
    seeds.push(u64_to_le_bytes(buyer_price));
    seeds.push(u64_to_le_bytes(token_size));
    assert(seeds.deep_view() =~~= trade_state_seeds(
        *wallet,
        *auction_house,
        token_holder,
        *mint,
        buyer_price,
        token_size,
    ));
    seeds
}

/// An open order, by the derivation that gives its address.
#[derive(Clone, Copy, Debug, PartialEq, Eq)]
pub enum TradeState {
    /// An order that only the holder of `counterparty` can match.
    Private { counterparty: Pubkey, bump: u8 },
    /// An order that anybody can match.
    Public { bump: u8 },
}

impl TradeState {
    /// The bump seed of the order's address.
    pub open spec fn spec_bump(self) -> u8 {
        match self {
            TradeState::Private { bump, .. } => bump,
            TradeState::Public { bump } => bump,
        }
    }

    /// The bump seed of the order's address.
    #[verifier::when_used_as_spec(spec_bump)]
    pub fn bump(self) -> (bump: u8)
        ensures
            bump == self.spec_bump(),
    {
        match self {
            TradeState::Private { bump, .. } => bump,
            TradeState::Public { bump } => bump,
        }
    }
}

/// What kind of order two derivations show, the public one and the private one,
/// which is keyed by `token_holder`. There is an order where exactly one of the
/// two has given the address, and `ts_bump` is the bump seed of that one; in
/// every other case the result is `DerivedKeyInvalid`.
pub open spec fn selected_trade_state(
    public: Result<u8, AuctionHouseError>,
    private: Result<u8, AuctionHouseError>,
    token_holder: Pubkey,
    ts_bump: u8,
) -> Result<TradeState, AuctionHouseError> {
    match (public, private) {
        (Ok(bump), Err(_)) => if bump == ts_bump {
            Ok(TradeState::Public { bump })
        } else {
            Err(AuctionHouseError::DerivedKeyInvalid)
        },
        (Err(_), Ok(bump)) => if bump == ts_bump {
            Ok(TradeState::Private { counterparty: token_holder, bump })
        } else {
            Err(AuctionHouseError::DerivedKeyInvalid)
        },
        _ => Err(AuctionHouseError::DerivedKeyInvalid),
    }
}

/// Decides what kind of order two derivations show, the public one and the
/// private one: each is the bump seed with which it has given the address of
/// the trade state, or a failure.
pub fn select_trade_state(
    public: Result<u8, AuctionHouseError>,
    private: Result<u8, AuctionHouseError>,
    token_holder: Pubkey,
    ts_bump: u8,
) -> (result: Result<TradeState, AuctionHouseError>)
    ensures
        result == selected_trade_state(public, private, token_holder, ts_bump),
{
    match (public, private) {
        (Ok(bump), Err(_)) => if bump == ts_bump {
            Ok(TradeState::Public { bump })
        } else {
            Err(AuctionHouseError::DerivedKeyInvalid)
        },
        (Err(_), Ok(bump)) => if bump == ts_bump {
            Ok(TradeState::Private { counterparty: token_holder, bump })
        } else {
            Err(AuctionHouseError::DerivedKeyInvalid)
        },
        _ => Err(AuctionHouseError::DerivedKeyInvalid),
    }
}

/// What kind of order stands at an address. The address is held against two
/// derivations, the private one, which is keyed by `token_holder`, and the
/// public one. There is an order where exactly one of the two derives the
/// address, and `ts_bump` is the bump seed of that derivation; in every other
/// case the result is `DerivedKeyInvalid`.
pub open spec fn resolved_trade_state(
    wallet: Pubkey,
    auction_house: AuctionHouse,
    buyer_price: u64,
    token_size: u64,
    trade_state: Pubkey,
    mint: Pubkey,
    token_holder: Pubkey,
    ts_bump: u8,
) -> Result<TradeState, AuctionHouseError> {
    selected_trade_state(
        derivation(
            id(),
            trade_state,
            trade_state_seeds(wallet, auction_house, None, mint, buyer_price, token_size),
        ),
        derivation(
            id(),
            trade_state,
            trade_state_seeds(wallet, auction_house, Some(token_holder), mint, buyer_price, token_size),
        ),
        token_holder,
        ts_bump,
    )
}

/// Finds what kind of order stands at the address of an account, private or
/// public, and checks that `ts_bump` is the bump seed of its address.
pub fn resolve_trade_state(
    wallet: &Pubkey,
    auction_house: &AuctionHouse,
    buyer_price: u64,
    token_size: u64,
    trade_state: &AccountInfo,
    mint: &Pubkey,
    token_holder: &Pubkey,
    ts_bump: u8,
) -> (result: Result<TradeState, AuctionHouseError>)
    ensures
        result == resolved_trade_state(
            *wallet,
            *auction_house,
            buyer_price,
            token_size,
            trade_state@.key,
            *mint,
            *token_holder,
            ts_bump,
        ),
{
    let private_seeds = trade_state_seeds_of(wallet, auction_house, Some(*token_holder), mint, buyer_price, token_size);
    let canonical_bump = assert_derivation(&id(), trade_state, &private_seeds);
    let public_seeds = trade_state_seeds_of(wallet, auction_house, None, mint, buyer_price, token_size);
    let canonical_public_bump = assert_derivation(&id(), trade_state, &public_seeds);
    select_trade_state(canonical_public_bump, canonical_bump, *token_holder, ts_bump)
}

/// What the check of a trade state gives: the bump seed of the order that
/// stands at the address, or `DerivedKeyInvalid` where none does.
pub open spec fn valid_trade_state(
    wallet: Pubkey,
    auction_house: AuctionHouse,
    buyer_price: u64,
    token_size: u64,
    trade_state: Pubkey,
    mint: Pubkey,
    token_holder: Pubkey,
    ts_bump: u8,
) -> Result<u8, AuctionHouseError> {
    match resolved_trade_state(
        wallet,
        auction_house,
        buyer_price,
        token_size,
        trade_state,
        mint,
        token_holder,
        ts_bump,
    ) {
        Ok(order) => Ok(order.bump()),
        Err(e) => Err(e),
    }
}

/// Checks that an account is the trade state of the given order, private or
/// public, and that `ts_bump` is the bump seed of its address.
pub fn assert_valid_trade_state(
    wallet: &Pubkey,
    auction_house: &AuctionHouse,
    buyer_price: u64,
    token_size: u64,
    trade_state: &AccountInfo,
    mint: &Pubkey,
    token_holder: &Pubkey,
    ts_bump: u8,
) -> (result: Result<u8, AuctionHouseError>)
    ensures
        result == valid_trade_state(
            *wallet,
            *auction_house,
            buyer_price,
            token_size,
            trade_state@.key,
            *mint,
            *token_holder,
            ts_bump,
        ),
{
    let order = resolve_trade_state(
        wallet,
        auction_house,
        buyer_price,
        token_size,
        trade_state,
        mint,
        token_holder,
        ts_bump,
    )?;
    Ok(order.bump())
}

/// The array whose first `n` bytes are those that stand in `data` from `offset`
/// on, and whose other bytes are zero.
pub open spec fn bytes_at(data: Seq<u8>, offset: int, n: int) -> [u8; 32]
    decreases n,
{
    if n <= 0 {
        spec_array_fill_for_copy_type(0u8)
    } else {
        spec_array_update(bytes_at(data, offset, n - 1), n - 1, data[offset + n - 1])
    }
}

/// The address whose 32 bytes stand in `data` from `offset` on.
pub open spec fn key_at(data: Seq<u8>, offset: int) -> Pubkey {
    Pubkey { bytes: bytes_at(data, offset, 32) }
}

/// The first `n` bytes of the array are the bytes of `data` from `offset` on.
pub proof fn lemma_bytes_at(data: Seq<u8>, offset: int, n: int)
    requires
        0 <= n <= 32,
    ensures
        bytes_at(data, offset, n)@.len() == 32,
        forall|i: int| 0 <= i < n ==> bytes_at(data, offset, n)@[i] == data[offset + i],
    decreases n,
{
    if n > 0 {
        lemma_bytes_at(data, offset, n - 1);
    }
}

/// The address read at an offset has the 32 bytes that stand there; and it is
/// the only address that has them.
pub proof fn lemma_key_at(data: Seq<u8>, offset: int)
    requires
        0 <= offset,
        offset + 32 <= data.len(),
    ensures
        key_at(data, offset)@ == data.subrange(offset, offset + 32),
        forall|key: Pubkey| key@ == data.subrange(offset, offset + 32) ==> key == key_at(data, offset),
{
    lemma_bytes_at(data, offset, 32);
    assert(key_at(data, offset)@ =~= data.subrange(offset, offset + 32));
    assert forall|key: Pubkey| key@ == data.subrange(offset, offset + 32) implies key == key_at(data, offset) by {
        Pubkey::lemma_view_injective(key, key_at(data, offset));
    }
}

/// Reads the address whose 32 bytes stand in `data` from `offset` on.
pub fn read_pubkey(data: &[u8], offset: usize) -> (key: Pubkey)
    requires
        offset + 32 <= data@.len(),
    ensures
        key@ == data@.subrange(offset as int, offset + 32),
        key == key_at(data@, offset as int),
{
    let mut bytes = [0u8;32];
    let len = data.len();
    let mut i: usize = 0;
    while i < 32
        invariant
            i <= 32,
            offset + 32 <= len,
            len == data@.len(),
            forall|j: int| 0 <= j < i ==> bytes@[j] == data@[offset + j],
        decreases 32 - i,
    {
        bytes[i] = data[offset + i];
        i += 1;
    }
    let key = Pubkey { bytes };
    proof {
        assert(key@ =~= data@.subrange(offset as int, offset + 32));
        lemma_key_at(data@, offset as int);
    }
    key
}

/// The mint of a token account, read at the head of the account's record
/// without decoding the rest. The record must have the length of a token
/// account at least.
pub fn get_mint_from_token_account(token_account_info: &AccountInfo) -> (mint: Pubkey)
    requires
        token_account_info@.data.len() >= TOKEN_ACCOUNT_LEN,
    ensures
        mint == key_at(token_account_info@.data, 0),
        mint@ == token_account_info@.data.subrange(0, 32),
{
    read_pubkey(token_account_info.data.as_slice(), 0)
}

/// Whether the record of a token account says that it has a delegate: whether
/// one of the four bytes of the flag is not zero.
pub open spec fn has_delegate(data: Seq<u8>) -> bool {
    data[DELEGATE_FLAG_OFFSET as int] != 0 || data[DELEGATE_FLAG_OFFSET + 1] != 0 || data[DELEGATE_FLAG_OFFSET
        + 2] != 0 || data[DELEGATE_FLAG_OFFSET + 3] != 0
}

/// The delegate that the record of a token account names: none where the four
/// bytes of the flag are zero, else the address that follows them.
pub open spec fn delegate_of(data: Seq<u8>) -> Option<Pubkey> {
    if has_delegate(data) {
        Some(key_at(data, DELEGATE_OFFSET as int))
    } else {
        None
    }
}

/// The delegate of a token account, read at its place in the account's record
/// without decoding the rest. The record must have the length of a token
/// account at least.
pub fn get_delegate_from_token_account(token_account_info: &AccountInfo) -> (delegate: Option<Pubkey>)
    requires
        token_account_info@.data.len() >= TOKEN_ACCOUNT_LEN,
    ensures
        delegate == delegate_of(token_account_info@.data),
        delegate matches Some(key) ==> key@ == token_account_info@.data.subrange(
            DELEGATE_OFFSET as int,
            DELEGATE_OFFSET + 32,
        ),
{
    let data = token_account_info.data.as_slice();
    if data[DELEGATE_FLAG_OFFSET] == 0 && data[DELEGATE_FLAG_OFFSET + 1] == 0 && data[DELEGATE_FLAG_OFFSET + 2] == 0
        && data[DELEGATE_FLAG_OFFSET + 3] == 0 {
        None
    } else {
        Some(read_pubkey(data, DELEGATE_OFFSET))
    }
}

/// How much of `diff` can leave an escrow that holds `lamports` and has to keep
/// `rent_minimum`: all of it where the rest is no less than the minimum, else
/// what the escrow holds above the minimum. `NumericalOverflow` where the escrow
/// holds less than `diff`, or less than the minimum that it would have to keep.
pub open spec fn rent_checked(lamports: u64, rent_minimum: u64, diff: u64) -> Result<u64, AuctionHouseError> {
    if lamports < diff {
        Err(AuctionHouseError::NumericalOverflow)
    } else if lamports - diff < rent_minimum {
        if lamports < rent_minimum {
            Err(AuctionHouseError::NumericalOverflow)
        } else {
            Ok((lamports - rent_minimum) as u64)
        }
    } else {
        Ok(diff)
    }
}

/// The amount that can be withdrawn from an escrow account when `diff` is asked
/// for and `rent_minimum` is the least balance that exempts the account from
/// rent.
pub fn rent_checked_sub(escrow_account: &AccountInfo, rent_minimum: u64, diff: u64) -> (result: Result<
    u64,
    AuctionHouseError,
>)
    ensures
        result == rent_checked(escrow_account.lamports, rent_minimum, diff),
{
    let account_lamports = match escrow_account.lamports.checked_sub(diff) {
        Some(rest) => rest,
        None => {
            return Err(AuctionHouseError::NumericalOverflow);
        },
    };
    if account_lamports < rent_minimum {
        match escrow_account.lamports.checked_sub(rent_minimum) {
            Some(above) => Ok(above),
            None => Err(AuctionHouseError::NumericalOverflow),
        }
    } else {
        Ok(diff)
    }
}

/// The ledger after the token account associated with the wallet at `wallet`
/// for the mint at `mint` has been created at `ata`, with the account at
/// `fee_payer` as its funder: the account at `ata` belongs to the token program
/// and holds the record of an initialised, empty token account. No balance
/// changes: the rent that the creation costs the funder is for the program
/// that creates the account to move, and is not in the ledger's balances.
pub open spec fn ata_made(
    ledger: LedgerView,
    ata: int,
    wallet: int,
    mint: int,
    fee_payer: int,
    fee_payer_seeds: Seq<Seq<u8>>,
) -> LedgerView {
    let created = AccountView {
        data: packed_token_account(TokenAccount::new(ledger.accounts[mint].key, ledger.accounts[wallet].key)),
        owner: token_program_id(),
        ..ledger.accounts[ata]
    };
    LedgerView { accounts: ledger.accounts.update(ata, created), ..ledger }.record(
        Operation::CreateAssociatedTokenAccount {
            funder: ledger.accounts[fee_payer].key,
            wallet: ledger.accounts[wallet].key,
            mint: ledger.accounts[mint].key,
        },
        fee_payer_seeds,
    )
}

/// Creates the token account that is associated with a wallet for a mint. The
/// record of the new account has the length of a token account, and the token
/// program's format reads in it a new account of the wallet for the mint. The
/// balances stay as they are: they leave out the rent of the new account.
pub fn make_ata(
    ledger: Ledger,
    ata: usize,
    wallet: usize,
    mint: usize,
    fee_payer: usize,
    fee_payer_seeds: &Vec<Vec<u8>>,
) -> (made: Ledger)
    requires
        ata < ledger@.accounts.len(),
        wallet < ledger@.accounts.len(),
        mint < ledger@.accounts.len(),
        fee_payer < ledger@.accounts.len(),
    ensures
        made@ == ata_made(ledger@, ata as int, wallet as int, mint as int, fee_payer as int, fee_payer_seeds.deep_view()),
        made@.accounts[ata as int].data.len() == TOKEN_ACCOUNT_LEN,
        unpacked_token_account(made@.accounts[ata as int].data) == Some(
            TokenAccount::new(ledger@.accounts[mint as int].key, ledger@.accounts[wallet as int].key),
        ),
{
    let mut made = ledger;
    let wallet_key = made.accounts[wallet].key;
    let mint_key = made.accounts[mint].key;
    let operation = Operation::CreateAssociatedTokenAccount {
        funder: made.accounts[fee_payer].key,
        wallet: wallet_key,
        mint: mint_key,
    };
    let data = pack_token_account(&TokenAccount::new(mint_key, wallet_key));
    let entry = &mut made.accounts[ata];
    entry.data = data;
    entry.owner = token_program_id();
    made.record(operation, fee_payer_seeds)
}

/// The lamports that an account still needs to hold `rent_minimum`, and one
/// lamport at least.
pub open spec fn required_lamports(held: u64, rent_minimum: u64) -> u64 {
    let needed = if rent_minimum < 1 {
        1u64
    } else {
        rent_minimum
    };
    if needed > held {
        (needed - held) as u64
    } else {
        0
    }
}

/// The ledger after an account has been set up for the program `program_id`
/// with a record of `size` bytes: the payer has given what the account lacked
/// of `rent_minimum`, where it lacked any; the record is `size` zero bytes; and
/// the account belongs to the program. It fails with `NumericalOverflow` where
/// the payer holds too little.
pub open spec fn account_allocated(
    ledger: LedgerView,
    program_id: Pubkey,
    new_account_info: int,
    rent_minimum: u64,
    payer_info: int,
    size: usize,
    signer_seeds: Seq<Seq<u8>>,
    new_acct_seeds: Seq<Seq<u8>>,
) -> Result<LedgerView, AuctionHouseError> {
    let required = required_lamports(ledger.accounts[new_account_info].lamports, rent_minimum);
    let funded = if required > 0 {
        ledger.transfer(payer_info, new_account_info, required, signer_seeds)
    } else {
        Ok(ledger)
    };
    match funded {
        Err(e) => Err(e),
        Ok(funded) => {
            let before = funded.accounts[new_account_info];
            let created = AccountView { data: Seq::new(size as nat, |i: int| 0u8), owner: program_id, ..before };
            Ok(
                LedgerView { accounts: funded.accounts.update(new_account_info, created), ..funded }.record(
                    Operation::Allocate { account: before.key, space: size as u64 },
                    new_acct_seeds,
                ).record(Operation::Assign { account: before.key, owner: program_id }, new_acct_seeds),
            )
        },
    }
}

/// Sets an account up for a program: funds it to `rent_minimum`, the least
/// balance that exempts an account of `size` bytes from rent, gives it a record
/// of `size` bytes, and hands it over to the program.
pub fn create_or_allocate_account_raw(
    ledger: Ledger,
    program_id: Pubkey,
    new_account_info: usize,
    rent_minimum: u64,
    payer_info: usize,
    size: usize,
    signer_seeds: &Vec<Vec<u8>>,
    new_acct_seeds: &Vec<Vec<u8>>,
) -> (result: Result<Ledger, AuctionHouseError>)
    requires
        new_account_info < ledger@.accounts.len(),
        payer_info < ledger@.accounts.len(),
    ensures
        is_outcome(
            result,
            account_allocated(
                ledger@,
                program_id,
                new_account_info as int,
                rent_minimum,
                payer_info as int,
                size,
                signer_seeds.deep_view(),
                new_acct_seeds.deep_view(),
            ),
        ),
        result is Ok ==> result->Ok_0@.accounts.len() == ledger@.accounts.len(),
{
    let needed = if rent_minimum < 1 {
        1
    } else {
        rent_minimum
    };
    let required_lamports = needed.saturating_sub(ledger.accounts[new_account_info].lamports);
    let mut funded = if required_lamports > 0 {
        ledger.transfer(payer_info, new_account_info, required_lamports, signer_seeds)?
    } else {
        ledger
    };
    let ghost before = funded@;
    let key = funded.accounts[new_account_info].key;
    let data = vec![0u8; size];
    assert(data@ =~= Seq::new(size as nat, |i: int| 0u8));
    let entry = &mut funded.accounts[new_account_info];
    entry.data = data;
    entry.owner = program_id;
    assert(funded@.accounts =~= before.accounts.update(
        new_account_info as int,
        AccountView {
            data: Seq::new(size as nat, |i: int| 0u8),
            owner: program_id,
            ..before.accounts[new_account_info as int]
        },
    ));
    let allocated = funded.record(Operation::Allocate { account: key, space: size as u64 }, new_acct_seeds);
    Ok(allocated.record(Operation::Assign { account: key, owner: program_id }, new_acct_seeds))
}

/// The ledger after a token account of the program has been set up, where one
/// was needed. Where the trade is native, or the account holds a record
/// already, nothing is done. Else the account is set up for the token program
/// with the length of a token account, and made a token account of `owner` for
/// the mint at `treasury_mint`.
pub open spec fn program_token_account_present(
    ledger: LedgerView,
    payment_account: int,
    fee_payer: int,
    treasury_mint: int,
    owner: Pubkey,
    rent_minimum: u64,
    signer_seeds: Seq<Seq<u8>>,
    fee_seeds: Seq<Seq<u8>>,
    is_native: bool,
) -> Result<LedgerView, AuctionHouseError> {
    if !is_native && ledger.accounts[payment_account].data.len() == 0 {
        match account_allocated(
            ledger,
            token_program_id(),
            payment_account,
            rent_minimum,
            fee_payer,
            TOKEN_ACCOUNT_LEN,
            fee_seeds,
            signer_seeds,
        ) {
            Err(e) => Err(e),
            Ok(allocated) => {
                let before = allocated.accounts[payment_account];
                let mint = allocated.accounts[treasury_mint].key;
                let initialized = AccountView { data: packed_token_account(TokenAccount::new(mint, owner)), ..before };
                Ok(
                    LedgerView {
                        accounts: allocated.accounts.update(payment_account, initialized),
                        ..allocated
                    }.record(Operation::InitializeAccount { account: before.key, mint, owner }, signer_seeds),
                )
            },
        }
    } else {
        Ok(ledger)
    }
}

/// Sets up a token account of the program unless the trade is native or the
/// account is there already. `rent_minimum` is the least balance that exempts
/// a token account from rent.
pub fn create_program_token_account_if_not_present(
    ledger: Ledger,
    payment_account: usize,
    fee_payer: usize,
    treasury_mint: usize,
    owner: Pubkey,
    rent_minimum: u64,
    signer_seeds: &Vec<Vec<u8>>,
    fee_seeds: &Vec<Vec<u8>>,
    is_native: bool,
) -> (result: Result<Ledger, AuctionHouseError>)
    requires
        payment_account < ledger@.accounts.len(),
        fee_payer < ledger@.accounts.len(),
        treasury_mint < ledger@.accounts.len(),
    ensures
        is_outcome(
            result,
            program_token_account_present(
                ledger@,
                payment_account as int,
                fee_payer as int,
                treasury_mint as int,
                owner,
                rent_minimum,
                signer_seeds.deep_view(),
                fee_seeds.deep_view(),
                is_native,
            ),
        ),
        result is Ok ==> result->Ok_0@.accounts.len() == ledger@.accounts.len(),
{
    if !is_native && ledger.accounts[payment_account].data_is_empty() {
        let mut allocated = create_or_allocate_account_raw(
            ledger,
            token_program_id(),
            payment_account,
            rent_minimum,
            fee_payer,
            TOKEN_ACCOUNT_LEN,
            fee_seeds,
            signer_seeds,
        )?;
        let ghost before = allocated@;
        let mint = allocated.accounts[treasury_mint].key;
        let key = allocated.accounts[payment_account].key;
        let entry = &mut allocated.accounts[payment_account];
        entry.data = pack_token_account(&TokenAccount::new(mint, owner));
        assert(allocated@.accounts =~= before.accounts.update(
            payment_account as int,
            AccountView {
                data: packed_token_account(TokenAccount::new(mint, owner)),
                ..before.accounts[payment_account as int]
            },
        ));
        Ok(allocated.record(Operation::InitializeAccount { account: key, mint, owner }, signer_seeds))
    } else {
        Ok(ledger)
    }
}

/// What the payment of the marketplace's fee gives: the ledger after it, and the
/// fee. The fee is the marketplace's basis points of `size`, and goes from the
/// escrow to the treasury: in native currency where the trade is native, else in
/// tokens on the word of the marketplace.
pub open spec fn auction_house_fees_paid(
    ledger: LedgerView,
    auction_house: AuctionHouse,
    auction_house_treasury: int,
    escrow_payment_account: int,
    signer_seeds: Seq<Seq<u8>>,
    size: u64,
    is_native: bool,
) -> Result<(LedgerView, u64), AuctionHouseError> {
    match checked(basis_points_of(auction_house.seller_fee_basis_points, size)) {
        Err(e) => Err(e),
        Ok(total_fee) => if !is_native {
            Ok(
                (
                    ledger.token_transfer(
                        escrow_payment_account,
                        auction_house_treasury,
                        auction_house.key,
                        total_fee,
                        signer_seeds,
                    ),
                    total_fee,
                ),
            )
        } else {
            match ledger.transfer(escrow_payment_account, auction_house_treasury, total_fee, signer_seeds) {
                Err(e) => Err(e),
                Ok(paid) => Ok((paid, total_fee)),
            }
        },
    }
}

/// Whether an operation that gives a ledger and an amount came out as `expected`.
pub open spec fn is_payment(
    result: Result<(Ledger, u64), AuctionHouseError>,
    expected: Result<(LedgerView, u64), AuctionHouseError>,
) -> bool {
    match expected {
        Ok((ledger, amount)) => result is Ok && result->Ok_0.0@ == ledger && result->Ok_0.1 == amount,
        Err(e) => result == Err::<(Ledger, u64), AuctionHouseError>(e),
    }
}

/// Pays the marketplace its fee on a sale at the price `size` out of the escrow.
pub fn pay_auction_house_fees(
    ledger: Ledger,
    auction_house: &AuctionHouse,
    auction_house_treasury: usize,
    escrow_payment_account: usize,
    signer_seeds: &Vec<Vec<u8>>,
    size: u64,
    is_native: bool,
) -> (result: Result<(Ledger, u64), AuctionHouseError>)
    requires
        auction_house_treasury < ledger@.accounts.len(),
        escrow_payment_account < ledger@.accounts.len(),
    ensures
        is_payment(
            result,
            auction_house_fees_paid(
                ledger@,
                *auction_house,
                auction_house_treasury as int,
                escrow_payment_account as int,
                signer_seeds.deep_view(),
                size,
                is_native,
            ),
        ),
{
    let total_fee = fee_in_basis_points(auction_house.seller_fee_basis_points, size)?;
    if !is_native {
        let paid = ledger.token_transfer(
            escrow_payment_account,
            auction_house_treasury,
            auction_house.key,
            total_fee,
            signer_seeds,
        );
        Ok((paid, total_fee))
    } else {
        let paid = ledger.transfer(escrow_payment_account, auction_house_treasury, total_fee, signer_seeds)?;
        Ok((paid, total_fee))
    }
}

/// The ledger once a token account is ready to receive: it is created where
/// it holds no record; it must then be the token account associated with the
/// wallet at `wallet` for the mint at `mint`; and it must have no delegate, else
/// the result is `delegate_error`.
pub open spec fn receipt_ready(
    ledger: LedgerView,
    receipt: int,
    wallet: int,
    mint: int,
    fee_payer: int,
    fee_payer_seeds: Seq<Seq<u8>>,
    delegate_error: AuctionHouseError,
) -> Result<LedgerView, AuctionHouseError> {
    let made = if ledger.accounts[receipt].data.len() == 0 {
        ata_made(ledger, receipt, wallet, mint, fee_payer, fee_payer_seeds)
    } else {
        ledger
    };
    match is_ata(made.accounts[receipt], made.accounts[wallet].key, made.accounts[mint].key) {
        Err(e) => Err(e),
        Ok(record) => if record.delegate is Some {
            Err(delegate_error)
        } else {
            Ok(made)
        },
    }
}

/// Makes a token account ready to receive: creates it where it holds no
/// record, checks that it is the token account associated with the wallet at
/// `wallet` for the mint at `mint`, and refuses it with `delegate_error` where it
/// has a delegate. An account that had to be created is ready exactly when it
/// stands at the associated address: it has no delegate.
pub fn ready_receipt(
    ledger: Ledger,
    receipt: usize,
    wallet: usize,
    mint: usize,
    fee_payer: usize,
    fee_payer_seeds: &Vec<Vec<u8>>,
    delegate_error: AuctionHouseError,
) -> (result: Result<Ledger, AuctionHouseError>)
    requires
        receipt < ledger@.accounts.len(),
        wallet < ledger@.accounts.len(),
        mint < ledger@.accounts.len(),
        fee_payer < ledger@.accounts.len(),
    ensures
        is_outcome(
            result,
            receipt_ready(
                ledger@,
                receipt as int,
                wallet as int,
                mint as int,
                fee_payer as int,
                fee_payer_seeds.deep_view(),
                delegate_error,
            ),
        ),
        result is Ok ==> result->Ok_0@.accounts.len() == ledger@.accounts.len(),
        ledger@.accounts[receipt as int].data.len() == 0 ==> (result is Ok <==> associated_token_address(
            ledger@.accounts[wallet as int].key,
            ledger@.accounts[mint as int].key,
        ) == Some(ledger@.accounts[receipt as int].key)),
{
    let made = if ledger.accounts[receipt].data_is_empty() {
        make_ata(ledger, receipt, wallet, mint, fee_payer, fee_payer_seeds)
    } else {
        ledger
    };
    assert(made@.accounts.len() == ledger@.accounts.len());
    let record = assert_is_ata(&made.accounts[receipt], &made.accounts[wallet].key, &made.accounts[mint].key)?;
    if record.delegate.is_some() {
        return Err(delegate_error);
    }
    Ok(made)
}

/// What a payment of royalties works with.
pub struct RoyaltyPayment {
    /// The creators' accounts, as places on the ledger: one for each creator
    /// where the trade is native, else two, the wallet and then its token account.
    pub remaining_accounts: Seq<usize>,
    /// The escrow that pays.
    pub escrow_payment_account: int,
    /// On whose word tokens leave the escrow.
    pub payment_account_owner: Pubkey,
    /// Who pays for a token account that has to be created.
    pub fee_payer: int,
    /// The mint in which the price is given.
    pub treasury_mint: int,
    /// The seeds by which the escrow or its owner signs.
    pub signer_seeds: Seq<Seq<u8>>,
    /// The seeds by which the fee payer signs, if any.
    pub fee_payer_seeds: Seq<Seq<u8>>,
    /// The royalty to divide.
    pub total_fee: u64,
    /// Whether the price is in native currency.
    pub is_native: bool,
}

/// The place among the remaining accounts at which the accounts of the creator
/// at `index` stand: one account for each creator where the trade is native,
/// else two.
pub open spec fn cursor_of(index: int, is_native: bool) -> int {
    if is_native {
        index
    } else {
        2 * index
    }
}

/// What is left of the price once the creators have been paid: `remaining_size`
/// and with it what is left of the royalty, as a 64-bit number
/// (`NumericalOverflow`).
pub open spec fn royalties_settled(
    paid: Result<(LedgerView, u64), AuctionHouseError>,
    remaining_size: u64,
) -> Result<(LedgerView, u64), AuctionHouseError> {
    match paid {
        Err(e) => Err(e),
        Ok((after, remaining_fee)) => match checked(remaining_size + remaining_fee) {
            Err(e) => Err(e),
            Ok(left) => Ok((after, left)),
        },
    }
}

/// What the payment of one creator gives: the ledger after it, and what is
/// left of the royalty. `cursor` is the place among the remaining accounts at
/// which the creator's accounts stand. In the order in which they are tested:
/// the creator's part is a 64-bit number no greater than what is left
/// (`NumericalOverflow`); the creator's wallet is among the accounts and has the
/// creator's address (`PublicKeyMismatch`); where the trade is not native, the
/// creator's token account is among the accounts (`PublicKeyMismatch`), is
/// created where it holds no record, is then the token account associated
/// with the wallet for the treasury's mint, and has no delegate
/// (`CreatorATACannotHaveDelegate`). A part of zero is not transferred.
pub open spec fn creator_paid(
    ledger: LedgerView,
    payment: RoyaltyPayment,
    creator: Creator,
    cursor: int,
    remaining_fee: u64,
) -> Result<(LedgerView, u64), AuctionHouseError> {
    match checked(percent_of(creator.share, payment.total_fee)) {
        Err(e) => Err(e),
        Ok(creator_fee) => if creator_fee > remaining_fee {
            Err(AuctionHouseError::NumericalOverflow)
        } else if cursor >= payment.remaining_accounts.len() {
            Err(AuctionHouseError::PublicKeyMismatch)
        } else {
            let rest = (remaining_fee - creator_fee) as u64;
            let creator_info = payment.remaining_accounts[cursor] as int;
            if creator.address != ledger.accounts[creator_info].key {
                Err(AuctionHouseError::PublicKeyMismatch)
            } else if !payment.is_native {
                if cursor + 1 >= payment.remaining_accounts.len() {
                    Err(AuctionHouseError::PublicKeyMismatch)
                } else {
                    let token_account = payment.remaining_accounts[cursor + 1] as int;
                    match receipt_ready(
                        ledger,
                        token_account,
                        creator_info,
                        payment.treasury_mint,
                        payment.fee_payer,
                        payment.fee_payer_seeds,
                        AuctionHouseError::CreatorATACannotHaveDelegate,
                    ) {
                        Err(e) => Err(e),
                        Ok(ready) => if creator_fee > 0 {
                            Ok(
                                (
                                    ready.token_transfer(
                                        payment.escrow_payment_account,
                                        token_account,
                                        payment.payment_account_owner,
                                        creator_fee,
                                        payment.signer_seeds,
                                    ),
                                    rest,
                                ),
                            )
                        } else {
                            Ok((ready, rest))
                        },
                    }
                }
            } else if creator_fee > 0 {
                match ledger.transfer(
                    payment.escrow_payment_account,
                    creator_info,
                    creator_fee,
                    payment.signer_seeds,
                ) {
                    Err(e) => Err(e),
                    Ok(paid) => Ok((paid, rest)),
                }
            } else {
                Ok((ledger, rest))
            }
        },
    }
}

/// What the payment of the creators from the one at `from` on gives, each in
/// turn: the ledger after it, and what is left of the royalty.
pub open spec fn creators_paid(
    ledger: LedgerView,
    payment: RoyaltyPayment,
    creators: Seq<Creator>,
    from: int,
    remaining_fee: u64,
) -> Result<(LedgerView, u64), AuctionHouseError>
    decreases creators.len() - from,
{
    if from < 0 || from >= creators.len() {
        Ok((ledger, remaining_fee))
    } else {
        match creator_paid(
            ledger,
            payment,
            creators[from],
            cursor_of(from, payment.is_native),
            remaining_fee,
        ) {
            Err(e) => Err(e),
            Ok((paid, rest)) => creators_paid(paid, payment, creators, from + 1, rest),
        }
    }
}

/// What the payment of the royalties that a metadata record names gives, on a
/// sale at the price `size`: the ledger after it, and what is left of the
/// price. The royalty is the metadata's basis points of the price and must be
/// no more than the price (`NumericalOverflow`). The creators are paid in turn;
/// where the metadata names none, nobody is. What is left is the price less the
/// royalty, and with it what is left of the royalty.
pub open spec fn royalties_paid_out(
    ledger: LedgerView,
    metadata: MetadataView,
    remaining_accounts: Seq<usize>,
    escrow_payment_account: int,
    payment_account_owner: Pubkey,
    fee_payer: int,
    treasury_mint: int,
    signer_seeds: Seq<Seq<u8>>,
    fee_payer_seeds: Seq<Seq<u8>>,
    size: u64,
    is_native: bool,
) -> Result<(LedgerView, u64), AuctionHouseError> {
    match checked(basis_points_of(metadata.seller_fee_basis_points, size)) {
        Err(e) => Err(e),
        Ok(total_fee) => if total_fee > size {
            Err(AuctionHouseError::NumericalOverflow)
        } else {
            let payment = RoyaltyPayment {
                remaining_accounts,
                escrow_payment_account,
                payment_account_owner,
                fee_payer,
                treasury_mint,
                signer_seeds,
                fee_payer_seeds,
                total_fee,
                is_native,
            };
            let paid = match metadata.creators {
                Some(creators) => creators_paid(ledger, payment, creators, 0, total_fee),
                None => Ok((ledger, total_fee)),
            };
            royalties_settled(paid, (size - total_fee) as u64)
        },
    }
}

/// What the payment of the royalties on a sale at the price `size` gives: the
/// ledger after it, and what is left of the price. The asset's metadata must be
/// readable (`MetadataDoesntExist`); then the royalties that it names are paid.
pub open spec fn creator_fees_paid(
    ledger: LedgerView,
    remaining_accounts: Seq<usize>,
    metadata_info: int,
    escrow_payment_account: int,
    payment_account_owner: Pubkey,
    fee_payer: int,
    treasury_mint: int,
    signer_seeds: Seq<Seq<u8>>,
    fee_payer_seeds: Seq<Seq<u8>>,
    size: u64,
    is_native: bool,
) -> Result<(LedgerView, u64), AuctionHouseError> {
    match metadata_of(ledger.accounts[metadata_info].data, ledger.accounts[metadata_info].owner) {
        None => Err(AuctionHouseError::MetadataDoesntExist),
        Some(metadata) => royalties_paid_out(
            ledger,
            metadata,
            remaining_accounts,
            escrow_payment_account,
            payment_account_owner,
            fee_payer,
            treasury_mint,
            signer_seeds,
            fee_payer_seeds,
            size,
            is_native,
        ),
    }
}

/// Whether every place in `places` is a place on a ledger of `len` accounts.
pub open spec fn are_places(places: Seq<usize>, len: nat) -> bool {
    forall|i: int| 0 <= i < places.len() ==> places[i] < len
}

/// Pays one creator their part of the royalty.
fn pay_creator(
    ledger: Ledger,
    remaining_accounts: &Vec<usize>,
    escrow_payment_account: usize,
    payment_account_owner: Pubkey,
    fee_payer: usize,
    treasury_mint: usize,
    signer_seeds: &Vec<Vec<u8>>,
    fee_payer_seeds: &Vec<Vec<u8>>,
    total_fee: u64,
    is_native: bool,
    creator: Creator,
    cursor: usize,
    remaining_fee: u64,
) -> (result: Result<(Ledger, u64), AuctionHouseError>)
    requires
        are_places(remaining_accounts@, ledger@.accounts.len()),
        escrow_payment_account < ledger@.accounts.len(),
        fee_payer < ledger@.accounts.len(),
        treasury_mint < ledger@.accounts.len(),
    ensures
        is_payment(
            result,
            creator_paid(
                ledger@,
                RoyaltyPayment {
                    remaining_accounts: remaining_accounts@,
                    escrow_payment_account: escrow_payment_account as int,
                    payment_account_owner,
                    fee_payer: fee_payer as int,
                    treasury_mint: treasury_mint as int,
                    signer_seeds: signer_seeds.deep_view(),
                    fee_payer_seeds: fee_payer_seeds.deep_view(),
                    total_fee,
                    is_native,
                },
                creator,
                cursor as int,
                remaining_fee,
            ),
        ),
        result is Ok ==> result->Ok_0.0@.accounts.len() == ledger@.accounts.len(),
        result is Ok ==> cursor + 1 <= remaining_accounts@.len(),
        result is Ok && !is_native ==> cursor + 2 <= remaining_accounts@.len(),
{
    let creator_fee = fee_in_percent(creator.share, total_fee)?;
    let rest = match remaining_fee.checked_sub(creator_fee) {
        Some(rest) => rest,
        None => {
            return Err(AuctionHouseError::NumericalOverflow);
        },
    };
    if cursor >= remaining_accounts.len() {
        return Err(AuctionHouseError::PublicKeyMismatch);
    }
    let current_creator_info = remaining_accounts[cursor];
    assert_keys_equal(creator.address, ledger.accounts[current_creator_info].key)?;
    if !is_native {
        if cursor + 1 >= remaining_accounts.len() {
            return Err(AuctionHouseError::PublicKeyMismatch);
        }
        let current_creator_token_account_info = remaining_accounts[cursor + 1];
        let ready = ready_receipt(
            ledger,
            current_creator_token_account_info,
            current_creator_info,
            treasury_mint,
            fee_payer,
            fee_payer_seeds,
            AuctionHouseError::CreatorATACannotHaveDelegate,
        )?;
        if creator_fee > 0 {
            Ok(
                (
                    ready.token_transfer(
                        escrow_payment_account,
                        current_creator_token_account_info,
                        payment_account_owner,
                        creator_fee,
                        signer_seeds,
                    ),
                    rest,
                ),
            )
        } else {
            Ok((ready, rest))
        }
    } else if creator_fee > 0 {
        let paid = ledger.transfer(escrow_payment_account, current_creator_info, creator_fee, signer_seeds)?;
        Ok((paid, rest))
    } else {
        Ok((ledger, rest))
    }
}

/// Pays the creators that a metadata record names their royalties on a sale at
/// the price `size` out of the escrow, and gives what is left of the price.
/// The places must be places on the ledger.
pub fn pay_creators(
    ledger: Ledger,
    metadata: &Metadata,
    remaining_accounts: &Vec<usize>,
    escrow_payment_account: usize,
    payment_account_owner: Pubkey,
    fee_payer: usize,
    treasury_mint: usize,
    signer_seeds: &Vec<Vec<u8>>,
    fee_payer_seeds: &Vec<Vec<u8>>,
    size: u64,
    is_native: bool,
) -> (result: Result<(Ledger, u64), AuctionHouseError>)
    requires
        are_places(remaining_accounts@, ledger@.accounts.len()),
        escrow_payment_account < ledger@.accounts.len(),
        fee_payer < ledger@.accounts.len(),
        treasury_mint < ledger@.accounts.len(),
    ensures
        is_payment(
            result,
            royalties_paid_out(
                ledger@,
                metadata@,
                remaining_accounts@,
                escrow_payment_account as int,
                payment_account_owner,
                fee_payer as int,
                treasury_mint as int,
                signer_seeds.deep_view(),
                fee_payer_seeds.deep_view(),
                size,
                is_native,
            ),
        ),
        result is Ok ==> result->Ok_0.0@.accounts.len() == ledger@.accounts.len(),
{
    let total_fee = fee_in_basis_points(metadata.seller_fee_basis_points, size)?;
    let mut remaining_fee = total_fee;
    let remaining_size = match size.checked_sub(total_fee) {
        Some(rest) => rest,
        None => {
            return Err(AuctionHouseError::NumericalOverflow);
        },
    };
    let ghost payment = RoyaltyPayment {
        remaining_accounts: remaining_accounts@,
        escrow_payment_account: escrow_payment_account as int,
        payment_account_owner,
        fee_payer: fee_payer as int,
        treasury_mint: treasury_mint as int,
        signer_seeds: signer_seeds.deep_view(),
        fee_payer_seeds: fee_payer_seeds.deep_view(),
        total_fee,
        is_native,
    };
    let ghost before = ledger@;
    let ghost expected = royalties_paid_out(
        before,
        metadata@,
        remaining_accounts@,
        escrow_payment_account as int,
        payment_account_owner,
        fee_payer as int,
        treasury_mint as int,
        signer_seeds.deep_view(),
        fee_payer_seeds.deep_view(),
        size,
        is_native,
    );
    let mut paid = ledger;
    match &metadata.creators {
        Some(creators) => {
            let count = remaining_accounts.len();
            let mut cursor: usize = 0;
            let mut i: usize = 0;
            while i < creators.len()
                invariant
                    i <= creators.len(),
                    metadata.creators == Some(*creators),
                    count == remaining_accounts@.len(),
                    cursor == cursor_of(i as int, is_native),
                    paid@.accounts.len() == before.accounts.len(),
                    before == ledger@,
                    are_places(remaining_accounts@, before.accounts.len()),
                    escrow_payment_account < before.accounts.len(),
                    fee_payer < before.accounts.len(),
                    treasury_mint < before.accounts.len(),
                    payment == (RoyaltyPayment {
                        remaining_accounts: remaining_accounts@,
                        escrow_payment_account: escrow_payment_account as int,
                        payment_account_owner,
                        fee_payer: fee_payer as int,
                        treasury_mint: treasury_mint as int,
                        signer_seeds: signer_seeds.deep_view(),
                        fee_payer_seeds: fee_payer_seeds.deep_view(),
                        total_fee,
                        is_native,
                    }),
                    expected == royalties_paid_out(
                        before,
                        metadata@,
                        remaining_accounts@,
                        escrow_payment_account as int,
                        payment_account_owner,
                        fee_payer as int,
                        treasury_mint as int,
                        signer_seeds.deep_view(),
                        fee_payer_seeds.deep_view(),
                        size,
                        is_native,
                    ),
                    expected == royalties_settled(
                        creators_paid(paid@, payment, creators@, i as int, remaining_fee),
                        remaining_size,
                    ),
                decreases creators.len() - i,
            {
                let (next, rest) = pay_creator(
                    paid,
                    remaining_accounts,
                    escrow_payment_account,
                    payment_account_owner,
                    fee_payer,
                    treasury_mint,
                    signer_seeds,
                    fee_payer_seeds,
                    total_fee,
                    is_native,
                    creators[i],
                    cursor,
                    remaining_fee,
                )?;
                paid = next;
                remaining_fee = rest;
                cursor = if is_native {
                    cursor + 1
                } else {
                    cursor + 2
                };
                i += 1;
            }
        },
        None => {},
    }
    match remaining_size.checked_add(remaining_fee) {
        Some(left) => Ok((paid, left)),
        None => Err(AuctionHouseError::NumericalOverflow),
    }
}


/// Pays the creators of an asset their royalties on a sale at the price `size`
/// out of the escrow, and gives what is left of the price. The places must be
/// places on the ledger.
pub fn pay_creator_fees(
    ledger: Ledger,
    remaining_accounts: &Vec<usize>,
    metadata_info: usize,
    escrow_payment_account: usize,
    payment_account_owner: Pubkey,
    fee_payer: usize,
    treasury_mint: usize,
    signer_seeds: &Vec<Vec<u8>>,
    fee_payer_seeds: &Vec<Vec<u8>>,
    size: u64,
    is_native: bool,
) -> (result: Result<(Ledger, u64), AuctionHouseError>)
    requires
        are_places(remaining_accounts@, ledger@.accounts.len()),
        metadata_info < ledger@.accounts.len(),
        escrow_payment_account < ledger@.accounts.len(),
        fee_payer < ledger@.accounts.len(),
        treasury_mint < ledger@.accounts.len(),
    ensures
        is_payment(
            result,
            creator_fees_paid(
                ledger@,
                remaining_accounts@,
                metadata_info as int,
                escrow_payment_account as int,
                payment_account_owner,
                fee_payer as int,
                treasury_mint as int,
                signer_seeds.deep_view(),
                fee_payer_seeds.deep_view(),
                size,
                is_native,
            ),
        ),
        result is Ok ==> result->Ok_0.0@.accounts.len() == ledger@.accounts.len(),
{
    let metadata = match metadata_from_account_info(&ledger.accounts[metadata_info]) {
        Ok(metadata) => metadata,
        Err(_) => {
            return Err(AuctionHouseError::MetadataDoesntExist);
        },
    };
    pay_creators(
        ledger,
        &metadata,
        remaining_accounts,
        escrow_payment_account,
        payment_account_owner,
        fee_payer,
        treasury_mint,
        signer_seeds,
        fee_payer_seeds,
        size,
        is_native,
    )
}

} // verus!
