use vstd::prelude::*;

verus! {

/// Every way in which an instruction of the marketplace can fail.
///
/// A failure aborts the instruction as a whole: no account is changed.
#[derive(Clone, Copy, Debug, PartialEq, Eq, Structural)]
pub enum AuctionHouseError {
    /// The account is not mutable.
    NotMutableAccount,
    /// Bump seed not in hash map.
    BumpSeedNotInHashMap,
    /// Two addresses that have to be the same are not.
    PublicKeyMismatch,
    /// The account belongs to another program than the one expected.
    IncorrectOwner,
    /// The account does not hold an initialised record.
    UninitializedAccount,
    /// The marketplace has an auctioneer, whose own entry point must be used.
    MustUseAuctioneerHandler,
    /// This sale requires a signer.
    SaleRequiresSigner,
    /// The wallet signed alone although the marketplace requires its authority to sign.
    CannotTakeThisActionWithoutAuctionHouseSignOff,
    /// Neither the authority nor the wallet signed.
    NoPayerPresent,
    /// The account's address is not the one derived from its seeds.
    DerivedKeyInvalid,
    /// The asset has no metadata record.
    MetadataDoesntExist,
    /// Invalid token amount.
    InvalidTokenAmount,
    /// Test error.
    TestError,
    /// An amount left the range of 64-bit unsigned integers.
    NumericalOverflow,
    /// A sale at price zero needs the authority's or the seller's signature.
    CannotMatchFreeSalesWithoutAuctionHouseOrSellerSignoff,
    /// One side of the sale has no open order, or the token has no delegate.
    BothPartiesNeedToAgreeToSale,
    /// The seller's receiving token account has a delegate.
    SellerATACannotHaveDelegate,
    /// The buyer's receiving token account has a delegate.
    BuyerATACannotHaveDelegate,
    /// No valid signer present.
    NoValidSignerPresent,
    /// A creator's receiving token account has a delegate.
    CreatorATACannotHaveDelegate,
}

/// The number from which the marketplace's errors are counted.
pub const ERROR_CODE_OFFSET: u32 = 6000;

impl AuctionHouseError {
    /// The number under which the error is reported: the errors are counted
    /// from 6000 on, in the order in which they are declared.
    pub open spec fn spec_code(self) -> u32 {
        match self {
            AuctionHouseError::NotMutableAccount => 6000,
            AuctionHouseError::BumpSeedNotInHashMap => 6001,
            AuctionHouseError::PublicKeyMismatch => 6002,
            AuctionHouseError::IncorrectOwner => 6003,
            AuctionHouseError::UninitializedAccount => 6004,
            AuctionHouseError::MustUseAuctioneerHandler => 6005,
            AuctionHouseError::SaleRequiresSigner => 6006,
            AuctionHouseError::CannotTakeThisActionWithoutAuctionHouseSignOff => 6007,
            AuctionHouseError::NoPayerPresent => 6008,
            AuctionHouseError::DerivedKeyInvalid => 6009,
            AuctionHouseError::MetadataDoesntExist => 6010,
            AuctionHouseError::InvalidTokenAmount => 6011,
            AuctionHouseError::TestError => 6012,
            AuctionHouseError::NumericalOverflow => 6013,
            AuctionHouseError::CannotMatchFreeSalesWithoutAuctionHouseOrSellerSignoff => 6014,
            AuctionHouseError::BothPartiesNeedToAgreeToSale => 6015,
            AuctionHouseError::SellerATACannotHaveDelegate => 6016,
            AuctionHouseError::BuyerATACannotHaveDelegate => 6017,
            AuctionHouseError::NoValidSignerPresent => 6018,
            AuctionHouseError::CreatorATACannotHaveDelegate => 6019,
        }
    }

    /// The number under which the error is reported.
    #[verifier::when_used_as_spec(spec_code)]
    pub fn code(self) -> (code: u32)
        ensures
            code == self.spec_code(),
            ERROR_CODE_OFFSET <= code < ERROR_CODE_OFFSET + 20,
    {
        match self {
            AuctionHouseError::NotMutableAccount => 6000,
            AuctionHouseError::BumpSeedNotInHashMap => 6001,
            AuctionHouseError::PublicKeyMismatch => 6002,
            AuctionHouseError::IncorrectOwner => 6003,
            AuctionHouseError::UninitializedAccount => 6004,
            AuctionHouseError::MustUseAuctioneerHandler => 6005,
            AuctionHouseError::SaleRequiresSigner => 6006,
            AuctionHouseError::CannotTakeThisActionWithoutAuctionHouseSignOff => 6007,
            AuctionHouseError::NoPayerPresent => 6008,
            AuctionHouseError::DerivedKeyInvalid => 6009,
            AuctionHouseError::MetadataDoesntExist => 6010,
            AuctionHouseError::InvalidTokenAmount => 6011,
            AuctionHouseError::TestError => 6012,
            AuctionHouseError::NumericalOverflow => 6013,
            AuctionHouseError::CannotMatchFreeSalesWithoutAuctionHouseOrSellerSignoff => 6014,
            AuctionHouseError::BothPartiesNeedToAgreeToSale => 6015,
            AuctionHouseError::SellerATACannotHaveDelegate => 6016,
            AuctionHouseError::BuyerATACannotHaveDelegate => 6017,
            AuctionHouseError::NoValidSignerPresent => 6018,
            AuctionHouseError::CreatorATACannotHaveDelegate => 6019,
        }
    }

    /// The words in which the error is reported.
    pub open spec fn spec_message(self) -> Seq<char> {
        match self {
            AuctionHouseError::NotMutableAccount => "The account is not mutable"@,
            AuctionHouseError::BumpSeedNotInHashMap => "Bump seed not in hash map."@,
            AuctionHouseError::PublicKeyMismatch => "Public keys are not matched"@,
            AuctionHouseError::IncorrectOwner => "The given account is not an owner"@,
            AuctionHouseError::UninitializedAccount => "Cannot initialized the account"@,
            AuctionHouseError::MustUseAuctioneerHandler => "Must use auctioneer handler."@,
            AuctionHouseError::SaleRequiresSigner => "This sale requires a signer"@,
            AuctionHouseError::CannotTakeThisActionWithoutAuctionHouseSignOff => "Cannot take this action without auction house signing too"@,
            AuctionHouseError::NoPayerPresent => "No payer present on this txn"@,
            AuctionHouseError::DerivedKeyInvalid => "Derived key invalid"@,
            AuctionHouseError::MetadataDoesntExist => "Metadata doesn't exist"@,
            AuctionHouseError::InvalidTokenAmount => "Invalid token amount"@,
            AuctionHouseError::TestError => "Test error"@,
            AuctionHouseError::NumericalOverflow => "NumericalOverflow"@,
            AuctionHouseError::CannotMatchFreeSalesWithoutAuctionHouseOrSellerSignoff => "Cannot match free sales unless the auction house or seller signs off"@,
            AuctionHouseError::BothPartiesNeedToAgreeToSale => "Both parties need to agree to this sale"@,
            AuctionHouseError::SellerATACannotHaveDelegate => "Seller ata cannot have a delegate set"@,
            AuctionHouseError::BuyerATACannotHaveDelegate => "Buyer ata cannot have a delegate set"@,
            AuctionHouseError::NoValidSignerPresent => "No valid signer present"@,
            AuctionHouseError::CreatorATACannotHaveDelegate => "Creator ata cannot have a delegate set"@,
        }
    }

    /// The words in which the error is reported.
    pub fn message(self) -> (text: &'static str)
        ensures
            text@ == self.spec_message(),
    {
        match self {
            AuctionHouseError::NotMutableAccount => "The account is not mutable",
            AuctionHouseError::BumpSeedNotInHashMap => "Bump seed not in hash map.",
            AuctionHouseError::PublicKeyMismatch => "Public keys are not matched",
            AuctionHouseError::IncorrectOwner => "The given account is not an owner",
            AuctionHouseError::UninitializedAccount => "Cannot initialized the account",
            AuctionHouseError::MustUseAuctioneerHandler => "Must use auctioneer handler.",
            AuctionHouseError::SaleRequiresSigner => "This sale requires a signer",
            AuctionHouseError::CannotTakeThisActionWithoutAuctionHouseSignOff => "Cannot take this action without auction house signing too",
            AuctionHouseError::NoPayerPresent => "No payer present on this txn",
            AuctionHouseError::DerivedKeyInvalid => "Derived key invalid",
            AuctionHouseError::MetadataDoesntExist => "Metadata doesn't exist",
            AuctionHouseError::InvalidTokenAmount => "Invalid token amount",
            AuctionHouseError::TestError => "Test error",
            AuctionHouseError::NumericalOverflow => "NumericalOverflow",
            AuctionHouseError::CannotMatchFreeSalesWithoutAuctionHouseOrSellerSignoff => "Cannot match free sales unless the auction house or seller signs off",
            AuctionHouseError::BothPartiesNeedToAgreeToSale => "Both parties need to agree to this sale",
            AuctionHouseError::SellerATACannotHaveDelegate => "Seller ata cannot have a delegate set",
            AuctionHouseError::BuyerATACannotHaveDelegate => "Buyer ata cannot have a delegate set",
            AuctionHouseError::NoValidSignerPresent => "No valid signer present",
            AuctionHouseError::CreatorATACannotHaveDelegate => "Creator ata cannot have a delegate set",
        }
    }
}

/// No two errors are reported under one number.
pub proof fn lemma_codes_differ(first: AuctionHouseError, second: AuctionHouseError)
    ensures
        first.code() == second.code() <==> first == second,
{
}

} // verus!
