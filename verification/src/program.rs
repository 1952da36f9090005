//! The calls into the chain's own libraries. Each call stands in a function of
//! its own whose contract Verus takes on trust: it says what the source of the
//! called function shows.

use vstd::prelude::*;
use mpl_token_metadata::state::TokenMetadataAccount;
use solana_program::program_error::ProgramError;
use solana_program::program_pack::Pack;
use solana_program::pubkey::Pubkey as ChainKey;
use spl_token::state::Account as ChainTokenAccount;
use spl_token::state::AccountState as ChainState;
use crate::state::{AccountInfo, AccountState, Creator, Metadata, MetadataView, Pubkey, TokenAccount};

verus! {

/// `solana_program::program_error::ProgramError`: why a call into one of the
/// chain's libraries failed. Nothing is read in it.
#[verifier::external_type_specification]
#[verifier::external_body]
pub struct ExProgramError(solana_program::program_error::ProgramError);

/// The position of the first byte among the first `n` in which `s1` and `s2`
/// differ, or `n` where there is none.
pub open spec fn first_difference(s1: Seq<u8>, s2: Seq<u8>, n: int) -> int
    decreases n,
{
    if n <= 0 {
        0
    } else if first_difference(s1, s2, n - 1) < n - 1 {
        first_difference(s1, s2, n - 1)
    } else if s1[n - 1] != s2[n - 1] {
        n - 1
    } else {
        n
    }
}

/// What comparing the first `n` bytes of two byte strings gives: zero where they
/// agree, else the difference of the first two bytes that do not.
pub open spec fn compare_bytes(s1: Seq<u8>, s2: Seq<u8>, n: usize) -> int {
    let i = first_difference(s1, s2, n as int);
    if i < n {
        s1[i] - s2[i]
    } else {
        0
    }
}

/// Up to the first difference the two byte strings agree, and at it they differ.
pub proof fn lemma_first_difference(s1: Seq<u8>, s2: Seq<u8>, n: int)
    requires
        0 <= n <= s1.len(),
        n <= s2.len(),
    ensures
        0 <= first_difference(s1, s2, n) <= n,
        forall|i: int| 0 <= i < first_difference(s1, s2, n) ==> s1[i] == s2[i],
        first_difference(s1, s2, n) < n ==> s1[first_difference(s1, s2, n)] != s2[first_difference(s1, s2, n)],
        first_difference(s1, s2, n) == n <==> s1.subrange(0, n) == s2.subrange(0, n),
    decreases n,
{
    if n > 0 {
        lemma_first_difference(s1, s2, n - 1);
        let d = first_difference(s1, s2, n);
        if d == n {
            assert(s1.subrange(0, n) =~= s2.subrange(0, n));
        } else {
            assert(s2.subrange(0, n)[d] == s2[d]);
        }
    } else {
        assert(s1.subrange(0, n) =~= s2.subrange(0, n));
    }
}

/// `solana_program::program_memory::sol_memcmp`: compares the first `n` bytes of
/// the two slices, which must both hold that many. The result is zero where the
/// bytes agree, and else the first differing byte of `s1` minus that of `s2`.
/// This is what the crate's own stub does off the chain; on the chain the call
/// goes to the runtime.
#[verifier::external_body]
pub(crate) fn sol_memcmp(s1: &[u8], s2: &[u8], n: usize) -> (result: i32)
    requires
        n <= s1@.len(),
        n <= s2@.len(),
    ensures
        result == compare_bytes(s1@, s2@, n),
{
    solana_program::program_memory::sol_memcmp(s1, s2, n)
}

/// `bytes` with its first `n` bytes set to `value`.
pub open spec fn filled(bytes: Seq<u8>, value: u8, n: int) -> Seq<u8> {
    Seq::new(
        bytes.len(),
        |i: int|
            if i < n {
                value
            } else {
                bytes[i]
            },
    )
}

/// `solana_program::program_memory::sol_memset`: sets the first `n` bytes of the
/// buffer, which must hold that many, to `value`, and leaves the others. This is
/// what the crate's own stub does off the chain; on the chain the call goes to
/// the runtime.
#[verifier::external_body]
pub(crate) fn sol_memset(bytes: &mut Vec<u8>, value: u8, n: usize)
    requires
        n <= old(bytes)@.len(),
    ensures
        final(bytes)@ == filled(old(bytes)@, value, n as int),
{
    solana_program::program_memory::sol_memset(bytes, value, n)
}

/// The address and bump seed that `Pubkey::try_find_program_address` derives for
/// a program from a list of seeds; `None` where it derives none.
pub uninterp spec fn program_address(seeds: Seq<Seq<u8>>, program_id: Pubkey) -> Option<(Pubkey, u8)>;

/// `solana_program::pubkey::Pubkey::try_find_program_address`: a pure function of
/// the seeds and the program's address. It looks for the highest bump seed with
/// which the seeds hash to an address off the curve, and gives `None` where
/// there are too many seeds, one is too long, or no bump seed serves.
#[verifier::external_body]
pub(crate) fn try_find_program_address(seeds: &Vec<Vec<u8>>, program_id: &Pubkey) -> (found: Option<(Pubkey, u8)>)
    ensures
        found == program_address(seeds.deep_view(), *program_id),
{
    let slices: Vec<&[u8]> = seeds.iter().map(|seed| seed.as_slice()).collect();
    let id = ChainKey::new_from_array(program_id.bytes);
    ChainKey::try_find_program_address(&slices, &id)
        .map(|(key, bump)| (Pubkey { bytes: key.to_bytes() }, bump))
}

/// The address that `Pubkey::create_program_address` makes for a program out of
/// a list of seeds, the bump seed among them; `None` where it makes none.
pub uninterp spec fn created_program_address(seeds: Seq<Seq<u8>>, program_id: Pubkey) -> Option<Pubkey>;

/// `solana_program::pubkey::Pubkey::create_program_address`: a pure function of
/// the seeds and the program's address. It hashes them, and fails where there
/// are too many seeds, one is too long, or the hash is a point of the curve.
#[verifier::external_body]
pub(crate) fn create_program_address(seeds: &Vec<Vec<u8>>, program_id: &Pubkey) -> (made: Option<Pubkey>)
    ensures
        made == created_program_address(seeds.deep_view(), *program_id),
{
    let slices: Vec<&[u8]> = seeds.iter().map(|seed| seed.as_slice()).collect();
    let id = ChainKey::new_from_array(program_id.bytes);
    ChainKey::create_program_address(&slices, &id)
        .ok()
        .map(|key| Pubkey { bytes: key.to_bytes() })
}

/// What `spl_token::state::Account::unpack_unchecked` reads in the record of a
/// token account; `None` where it refuses the record.
pub uninterp spec fn unpacked_token_account(data: Seq<u8>) -> Option<TokenAccount>;

/// `spl_token::state::Account::unpack_unchecked`: a pure function of the
/// record's bytes. It fails where the record has not the length of a token
/// account or holds a tag that the format does not know.
#[verifier::external_body]
pub(crate) fn unpack_token_account(data: &[u8]) -> (result: Result<TokenAccount, ProgramError>)
    ensures
        match result {
            Ok(account) => unpacked_token_account(data@) == Some(account),
            Err(_) => unpacked_token_account(data@) is None,
        },
{
    let account = ChainTokenAccount::unpack_unchecked(data)?;
    Ok(TokenAccount {
        mint: Pubkey { bytes: account.mint.to_bytes() },
        owner: Pubkey { bytes: account.owner.to_bytes() },
        amount: account.amount,
        delegate: Option::from(account.delegate).map(|key: ChainKey| Pubkey { bytes: key.to_bytes() }),
        state: match account.state {
            ChainState::Uninitialized => AccountState::Uninitialized, ChainState::Initialized => AccountState::Initialized, ChainState::Frozen => AccountState::Frozen,
        },
        is_native: Option::from(account.is_native),
        delegated_amount: account.delegated_amount,
        close_authority: Option::from(account.close_authority).map(|key: ChainKey| Pubkey { bytes: key.to_bytes() }),
    })
}

/// The record that `spl_token::state::Account::pack_into_slice` writes for a
/// token account.
pub uninterp spec fn packed_token_account(account: TokenAccount) -> Seq<u8>;

/// `spl_token::state::Account::pack_into_slice`, on a buffer of the length of a
/// token account: a pure function of the account's fields. It writes each field
/// at its place among the 165 bytes, where
/// `spl_token::state::Account::unpack_unchecked` reads it: the record that it
/// gives unpacks to the account that was packed.
#[verifier::external_body]
pub(crate) fn pack_token_account(account: &TokenAccount) -> (data: Vec<u8>)
    ensures
        data@ == packed_token_account(*account),
        data@.len() == 165,
        unpacked_token_account(data@) == Some(*account),
{
    let record = ChainTokenAccount {
        mint: ChainKey::new_from_array(account.mint.bytes),
        owner: ChainKey::new_from_array(account.owner.bytes),
        amount: account.amount,
        delegate: account.delegate.map(|key| ChainKey::new_from_array(key.bytes)).into(),
        state: match account.state {
            AccountState::Uninitialized => ChainState::Uninitialized, AccountState::Initialized => ChainState::Initialized, AccountState::Frozen => ChainState::Frozen,
        },
        is_native: account.is_native.into(),
        delegated_amount: account.delegated_amount,
        close_authority: account.close_authority.map(|key| ChainKey::new_from_array(key.bytes)).into(),
    };
    let mut data = vec![0u8; ChainTokenAccount::LEN];
    record.pack_into_slice(&mut data);
    data
}

/// What `mpl_token_metadata::state::Metadata::from_account_info` reads in an
/// account with the given record and owner; `None` where it refuses the account.
pub uninterp spec fn metadata_of(data: Seq<u8>, owner: Pubkey) -> Option<MetadataView>;

/// `mpl_token_metadata::state::Metadata::from_account_info`: a pure function of
/// the account's record and owner. It fails where the record is not a metadata
/// record or the account does not belong to the metadata program.
#[verifier::external_body]
pub(crate) fn metadata_from_account_info(account: &AccountInfo) -> (result: Result<Metadata, ProgramError>)
    ensures
        match result {
            Ok(metadata) => metadata_of(account@.data, account.owner) == Some(metadata@),
            Err(_) => metadata_of(account@.data, account.owner) is None,
        },
{
    let key = ChainKey::new_from_array(account.key.bytes);
    let owner = ChainKey::new_from_array(account.owner.bytes);
    let (mut lamports, mut data) = (account.lamports, account.data.clone());
    let info = solana_program::account_info::AccountInfo::new(&key, false, false, &mut lamports, &mut data, &owner, false, 0);
    let metadata = mpl_token_metadata::state::Metadata::from_account_info(&info)?;
    let creators = metadata.data.creators.map(|list| list.iter().map(|c| Creator { address: Pubkey { bytes: c.address.to_bytes() }, verified: c.verified, share: c.share }).collect());
    Ok(Metadata { seller_fee_basis_points: metadata.data.seller_fee_basis_points, creators })
}

} // verus!
