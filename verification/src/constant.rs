use vstd::prelude::*;
use crate::state::Pubkey;

verus! {

/// First seed of every address that the marketplace derives.
pub const PREFIX: &'static str = "auction_house";

/// Seed of a marketplace's fee account.
pub const FEE_PAYER: &'static str = "fee_payer";

/// Seed of a marketplace's treasury.
pub const TREASURY: &'static str = "treasury";

/// Seed of the address under which the program holds tokens in custody.
pub const SIGNER: &'static str = "signer";

/// First seed of the address of an asset's metadata record.
pub const METADATA_PREFIX: &'static str = "metadata";

/// Length in bytes of the record of a trade state: its bump seed.
pub const TRADE_STATE_SIZE: usize = 1;

/// Fees and royalties are given in hundredths of a percent.
pub const BASIS_POINTS: u64 = 10000;

/// The marketplace program's own address.
pub const ID: [u8; 32] = [
    205, 185, 187, 216, 176, 214, 121, 110, 131, 215, 173, 151, 8, 19, 76, 70,
    177, 240, 164, 80, 4, 200, 56, 76, 57, 112, 234, 116, 58, 60, 210, 135,
];

/// The token program's address.
pub const TOKEN_PROGRAM_ID: [u8; 32] = [
    6, 221, 246, 225, 215, 101, 161, 147, 217, 203, 225, 70, 206, 235, 121, 172,
    28, 180, 133, 237, 95, 91, 55, 145, 58, 140, 245, 133, 126, 255, 0, 169,
];

/// The address of the program that keeps the associated token accounts.
pub const ASSOCIATED_TOKEN_PROGRAM_ID: [u8; 32] = [
    140, 151, 37, 143, 78, 36, 137, 241, 187, 61, 16, 41, 20, 142, 13, 131,
    11, 90, 19, 153, 218, 255, 16, 132, 4, 142, 123, 216, 219, 233, 248, 89,
];

/// The address of the program that keeps the assets' metadata.
pub const METADATA_PROGRAM_ID: [u8; 32] = [
    11, 112, 101, 177, 227, 209, 124, 69, 56, 157, 82, 127, 107, 4, 195, 205,
    88, 184, 108, 115, 26, 160, 253, 181, 73, 182, 209, 188, 3, 248, 41, 70,
];

/// The mint that stands for the chain's native currency.
pub const NATIVE_MINT: [u8; 32] = [
    6, 155, 136, 87, 254, 171, 129, 132, 251, 104, 127, 99, 70, 24, 192, 53,
    218, 196, 57, 220, 26, 235, 59, 85, 152, 160, 240, 0, 0, 0, 0, 1,
];

/// The marketplace program's own address.
pub open spec fn spec_id() -> Pubkey {
    Pubkey { bytes: ID }
}

/// The marketplace program's own address.
#[verifier::when_used_as_spec(spec_id)]
pub fn id() -> (key: Pubkey)
    ensures
        key == spec_id(),
{
    Pubkey { bytes: ID }
}

/// The token program's address.
pub open spec fn spec_token_program_id() -> Pubkey {
    Pubkey { bytes: TOKEN_PROGRAM_ID }
}

/// The token program's address.
#[verifier::when_used_as_spec(spec_token_program_id)]
pub fn token_program_id() -> (key: Pubkey)
    ensures
        key == spec_token_program_id(),
{
    Pubkey { bytes: TOKEN_PROGRAM_ID }
}

/// The address of the program that keeps the associated token accounts.
pub open spec fn spec_associated_token_program_id() -> Pubkey {
    Pubkey { bytes: ASSOCIATED_TOKEN_PROGRAM_ID }
}

/// The address of the program that keeps the associated token accounts.
#[verifier::when_used_as_spec(spec_associated_token_program_id)]
pub fn associated_token_program_id() -> (key: Pubkey)
    ensures
        key == spec_associated_token_program_id(),
{
    Pubkey { bytes: ASSOCIATED_TOKEN_PROGRAM_ID }
}

/// The address of the program that keeps the assets' metadata.
pub open spec fn spec_metadata_program_id() -> Pubkey {
    Pubkey { bytes: METADATA_PROGRAM_ID }
}

/// The address of the program that keeps the assets' metadata.
#[verifier::when_used_as_spec(spec_metadata_program_id)]
pub fn metadata_program_id() -> (key: Pubkey)
    ensures
        key == spec_metadata_program_id(),
{
    Pubkey { bytes: METADATA_PROGRAM_ID }
}

/// The mint that stands for the chain's native currency.
pub open spec fn spec_native_mint_id() -> Pubkey {
    Pubkey { bytes: NATIVE_MINT }
}

/// The mint that stands for the chain's native currency.
#[verifier::when_used_as_spec(spec_native_mint_id)]
pub fn native_mint_id() -> (key: Pubkey)
    ensures
        key == spec_native_mint_id(),
{
    Pubkey { bytes: NATIVE_MINT }
}

} // verus!
