use vstd::prelude::*;
use vstd::std_specs::cmp::PartialEqSpecImpl;
use crate::program::{compare_bytes, lemma_first_difference, sol_memcmp};

verus! {

/// An address on the ledger: 32 bytes.
#[derive(Clone, Copy, Debug, Eq)]
pub struct Pubkey {
    pub bytes: [u8; 32],
}

impl PartialEq for Pubkey {
    fn eq(&self, other: &Pubkey) -> (equal: bool) {
        proof {
            Pubkey::lemma_compare(*self, *other);
        }
        sol_memcmp(self.bytes.as_slice(), other.bytes.as_slice(), 32) == 0
    }
}

impl PartialEqSpecImpl for Pubkey {
    open spec fn obeys_eq_spec() -> bool {
        true
    }

    open spec fn eq_spec(&self, other: &Pubkey) -> bool {
        *self == *other
    }
}

impl View for Pubkey {
    type V = Seq<u8>;

    open spec fn view(&self) -> Seq<u8> {
        self.bytes@
    }
}

impl Pubkey {
    /// The address made of the given bytes.
    pub fn new_from_array(bytes: [u8; 32]) -> (key: Pubkey)
        ensures
            key.bytes == bytes,
    {
        Pubkey { bytes }
    }

    /// The address as a seed of a derivation.
    pub fn to_seed(&self) -> (seed: Vec<u8>)
        ensures
            seed@ == self@,
    {
        vstd::slice::slice_to_vec(self.bytes.as_slice())
    }

    /// Two addresses are the same address exactly when their bytes are the same.
    pub proof fn lemma_view_injective(a: Pubkey, b: Pubkey)
        ensures
            a@.len() == 32,
            (a@ == b@) <==> (a == b),
    {
        if a@ == b@ {
            assert(a.bytes == b.bytes);
        }
    }

    /// The bytes of two addresses compare as equal exactly when the two are the
    /// same address.
    pub proof fn lemma_compare(a: Pubkey, b: Pubkey)
        ensures
            a@.len() == 32,
            b@.len() == 32,
            compare_bytes(a@, b@, 32) == 0 <==> a == b,
    {
        Pubkey::lemma_view_injective(a, b);
        lemma_first_difference(a@, b@, 32);
        assert(a@.subrange(0, 32) =~= a@);
        assert(b@.subrange(0, 32) =~= b@);
    }
}

/// What the ledger holds under one address.
#[derive(Clone, Debug, PartialEq, Eq)]
pub struct AccountInfo {
    /// The account's address.
    pub key: Pubkey,
    /// Whether the holder of this address signed the transaction.
    pub is_signer: bool,
    /// The account's balance in the native currency.
    pub lamports: u64,
    /// The account's record.
    pub data: Vec<u8>,
    /// The program that the account belongs to.
    pub owner: Pubkey,
}

/// An account as a mathematical value.
pub struct AccountView {
    pub key: Pubkey,
    pub is_signer: bool,
    pub lamports: u64,
    pub data: Seq<u8>,
    pub owner: Pubkey,
}

impl View for AccountInfo {
    type V = AccountView;

    open spec fn view(&self) -> AccountView {
        AccountView {
            key: self.key,
            is_signer: self.is_signer,
            lamports: self.lamports,
            data: self.data@,
            owner: self.owner,
        }
    }
}

impl DeepView for AccountInfo {
    type V = AccountView;

    open spec fn deep_view(&self) -> AccountView {
        self@
    }
}

impl AccountInfo {
    /// Whether the account holds no record.
    pub fn data_is_empty(&self) -> (empty: bool)
        ensures
            empty == (self@.data.len() == 0),
    {
        self.data.len() == 0
    }

    /// The length of the account's record.
    pub fn data_len(&self) -> (len: usize)
        ensures
            len == self@.data.len(),
    {
        self.data.len()
    }

    /// A second value that holds the same account.
    pub fn duplicate(&self) -> (copy: AccountInfo)
        ensures
            copy@ == self@,
    {
        let data = self.data.clone();
        AccountInfo { key: self.key, is_signer: self.is_signer, lamports: self.lamports, data, owner: self.owner }
    }
}

/// A marketplace: who governs it, where its money goes and what it charges.
#[derive(Clone, Copy, Debug, PartialEq, Eq)]
pub struct AuctionHouse {
    /// The marketplace's own address.
    pub key: Pubkey,
    /// The account that pays the fees of sales that the authority signs.
    pub auction_house_fee_account: Pubkey,
    /// The account that collects the marketplace's share of each sale.
    pub auction_house_treasury: Pubkey,
    /// Where the treasury is paid out to.
    pub treasury_withdrawal_destination: Pubkey,
    /// Where the fee account is paid out to.
    pub fee_withdrawal_destination: Pubkey,
    /// The mint in which prices are given.
    pub treasury_mint: Pubkey,
    /// The address that governs the marketplace.
    pub authority: Pubkey,
    /// The address that created the marketplace.
    pub creator: Pubkey,
    /// Bump seed of the marketplace's own address.
    pub bump: u8,
    /// Bump seed of the treasury's address.
    pub treasury_bump: u8,
    /// Bump seed of the fee account's address.
    pub fee_payer_bump: u8,
    /// The marketplace's share of each sale, in basis points.
    pub seller_fee_basis_points: u16,
    /// Whether every sale needs the authority's signature.
    pub requires_sign_off: bool,
    /// Whether the marketplace may set the price of a sale.
    pub can_change_sale_price: bool,
    /// Whether sales go through an auctioneer.
    pub has_auctioneer: bool,
}

/// Whether a token account can be used.
#[derive(Clone, Copy, Debug, PartialEq, Eq, Structural)]
pub enum AccountState {
    /// The record has not been initialised.
    Uninitialized,
    /// The account can be used.
    Initialized,
    /// The account has been frozen: its tokens cannot be moved.
    Frozen,
}

/// The record of a token account.
#[derive(Clone, Copy, Debug, PartialEq, Eq)]
pub struct TokenAccount {
    /// The mint whose tokens the account holds.
    pub mint: Pubkey,
    /// The wallet that the account belongs to.
    pub owner: Pubkey,
    /// How many tokens it holds.
    pub amount: u64,
    /// Who else may move its tokens, if anyone.
    pub delegate: Option<Pubkey>,
    /// Whether the account can be used.
    pub state: AccountState,
    /// Where the account holds native currency as tokens: the balance that
    /// exempts it from rent.
    pub is_native: Option<u64>,
    /// How many tokens the delegate may move.
    pub delegated_amount: u64,
    /// Who else may close the account, if anyone.
    pub close_authority: Option<Pubkey>,
}

impl TokenAccount {
    /// Whether the record has been initialised.
    pub open spec fn spec_is_initialized(&self) -> bool {
        self.state != AccountState::Uninitialized
    }

    /// Whether the record has been initialised.
    #[verifier::when_used_as_spec(spec_is_initialized)]
    pub fn is_initialized(&self) -> (initialized: bool)
        ensures
            initialized == self.spec_is_initialized(),
    {
        match self.state {
            AccountState::Uninitialized => false,
            AccountState::Initialized => true,
            AccountState::Frozen => true,
        }
    }

    /// The record of a new token account of `owner` for `mint`: initialised,
    /// empty, and with neither delegate nor close authority.
    pub open spec fn spec_new(mint: Pubkey, owner: Pubkey) -> TokenAccount {
        TokenAccount {
            mint,
            owner,
            amount: 0,
            delegate: None,
            state: AccountState::Initialized,
            is_native: None,
            delegated_amount: 0,
            close_authority: None,
        }
    }

    /// The record of a new token account of `owner` for `mint`.
    #[verifier::when_used_as_spec(spec_new)]
    pub fn new(mint: Pubkey, owner: Pubkey) -> (account: TokenAccount)
        ensures
            account == TokenAccount::spec_new(mint, owner),
    {
        TokenAccount {
            mint,
            owner,
            amount: 0,
            delegate: None,
            state: AccountState::Initialized,
            is_native: None,
            delegated_amount: 0,
            close_authority: None,
        }
    }
}

/// One of the creators of an asset, and the share of the royalty that is theirs.
#[derive(Clone, Copy, Debug, PartialEq, Eq)]
pub struct Creator {
    pub address: Pubkey,
    pub verified: bool,
    /// In percent.
    pub share: u8,
}

/// What the marketplace reads in the metadata record of an asset.
#[derive(Clone, Debug, PartialEq, Eq)]
pub struct Metadata {
    /// The royalty owed on each sale, in basis points of the price.
    pub seller_fee_basis_points: u16,
    /// Who shares the royalty, in the order in which they are paid.
    pub creators: Option<Vec<Creator>>,
}

/// Metadata as a mathematical value.
pub struct MetadataView {
    pub seller_fee_basis_points: u16,
    pub creators: Option<Seq<Creator>>,
}

impl View for Metadata {
    type V = MetadataView;

    open spec fn view(&self) -> MetadataView {
        MetadataView {
            seller_fee_basis_points: self.seller_fee_basis_points,
            creators: match self.creators {
                Some(creators) => Some(creators@),
                None => None,
            },
        }
    }
}

/// What the settlement asks of the programs that keep the ledger.
#[derive(Clone, Copy, Debug, PartialEq, Eq)]
pub enum Operation {
    /// Move `lamports` of the native currency from one account to another.
    Transfer { from: Pubkey, to: Pubkey, lamports: u64 },
    /// Move `amount` tokens from one token account to another, on the word of
    /// `authority`.
    TokenTransfer { source: Pubkey, destination: Pubkey, authority: Pubkey, amount: u64 },
    /// Create the token account that is associated with `wallet` for `mint`, at
    /// the cost of `funder`.
    CreateAssociatedTokenAccount { funder: Pubkey, wallet: Pubkey, mint: Pubkey },
    /// Give an account a record of `space` bytes.
    Allocate { account: Pubkey, space: u64 },
    /// Hand an account over to the program `owner`.
    Assign { account: Pubkey, owner: Pubkey },
    /// Make an account a token account of `owner` for `mint`.
    InitializeAccount { account: Pubkey, mint: Pubkey, owner: Pubkey },
    /// Close a trade state: zero its record and hand what it holds to `to`.
    Reclaim { account: Pubkey, to: Pubkey },
}

/// An operation, together with the seeds of the derived address that signs it.
#[derive(Clone, Debug, PartialEq, Eq)]
pub struct Instruction {
    pub operation: Operation,
    /// Empty where no derived address signs.
    pub signer_seeds: Vec<Vec<u8>>,
}

/// An instruction as a mathematical value.
pub struct InstructionView {
    pub operation: Operation,
    pub signer_seeds: Seq<Seq<u8>>,
}

impl View for Instruction {
    type V = InstructionView;

    open spec fn view(&self) -> InstructionView {
        InstructionView { operation: self.operation, signer_seeds: self.signer_seeds.deep_view() }
    }
}

impl DeepView for Instruction {
    type V = InstructionView;

    open spec fn deep_view(&self) -> InstructionView {
        self@
    }
}

/// A copy of a list of seeds.
pub fn copy_seeds(seeds: &Vec<Vec<u8>>) -> (copy: Vec<Vec<u8>>)
    ensures
        copy.deep_view() == seeds.deep_view(),
{
    let mut copy: Vec<Vec<u8>> = Vec::new();
    let mut i: usize = 0;
    while i < seeds.len()
        invariant
            i <= seeds.len(),
            copy.len() == i,
            forall|j: int| 0 <= j < i ==> copy[j]@ == seeds[j]@,
        decreases seeds.len() - i,
    {
        let seed = seeds[i].clone();
        copy.push(seed);
        i += 1;
    }
    copy
}

} // verus!
