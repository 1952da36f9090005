//! The accounts of one transaction, held apart from the chain while an
//! instruction runs. The instruction changes this copy and lists what it asks of
//! the programs that keep the ledger; only when it has succeeded is the copy
//! handed back.
//!
//! The copy follows the native currency that the instruction itself moves, and
//! the records that it writes. What the token programs do on their own account
//! is listed and not followed: tokens moved between token accounts, and the
//! rent of an associated token account that is created.

use vstd::prelude::*;
use crate::errors::AuctionHouseError;
use crate::state::{copy_seeds, AccountInfo, AccountView, Instruction, InstructionView, Operation, Pubkey};

verus! {

/// The accounts of a transaction, one entry for each address, and the
/// instructions issued so far.
#[derive(Debug)]
pub struct Ledger {
    pub accounts: Vec<AccountInfo>,
    pub instructions: Vec<Instruction>,
}

/// A ledger as a mathematical value.
#[verifier::ext_equal]
pub struct LedgerView {
    pub accounts: Seq<AccountView>,
    pub instructions: Seq<InstructionView>,
}

impl View for Ledger {
    type V = LedgerView;

    open spec fn view(&self) -> LedgerView {
        LedgerView {
            accounts: self.accounts.deep_view(),
            instructions: self.instructions.deep_view(),
        }
    }
}

impl LedgerView {
    /// The ledger after `lamports` have left the account at `account`: there must
    /// be that many.
    pub open spec fn debit(self, account: int, lamports: u64) -> Result<LedgerView, AuctionHouseError> {
        let before = self.accounts[account];
        if before.lamports < lamports {
            Err(AuctionHouseError::NumericalOverflow)
        } else {
            Ok(
                LedgerView {
                    accounts: self.accounts.update(
                        account,
                        AccountView { lamports: (before.lamports - lamports) as u64, ..before },
                    ),
                    ..self
                },
            )
        }
    }

    /// The ledger after `lamports` have reached the account at `account`: its
    /// balance must stay a 64-bit number.
    pub open spec fn credit(self, account: int, lamports: u64) -> Result<LedgerView, AuctionHouseError> {
        let before = self.accounts[account];
        if before.lamports + lamports > u64::MAX {
            Err(AuctionHouseError::NumericalOverflow)
        } else {
            Ok(
                LedgerView {
                    accounts: self.accounts.update(
                        account,
                        AccountView { lamports: (before.lamports + lamports) as u64, ..before },
                    ),
                    ..self
                },
            )
        }
    }

    /// The ledger with one more instruction issued.
    pub open spec fn record(self, operation: Operation, signer_seeds: Seq<Seq<u8>>) -> LedgerView {
        LedgerView {
            instructions: self.instructions.push(InstructionView { operation, signer_seeds }),
            ..self
        }
    }

    /// The ledger after a transfer of native currency: the payer is debited, then
    /// the payee credited, and the transfer is listed.
    pub open spec fn transfer(self, from: int, to: int, lamports: u64, signer_seeds: Seq<Seq<u8>>) -> Result<
        LedgerView,
        AuctionHouseError,
    > {
        match self.debit(from, lamports) {
            Err(e) => Err(e),
            Ok(debited) => match debited.credit(to, lamports) {
                Err(e) => Err(e),
                Ok(credited) => Ok(
                    credited.record(
                        Operation::Transfer { from: self.accounts[from].key, to: self.accounts[to].key, lamports },
                        signer_seeds,
                    ),
                ),
            },
        }
    }

    /// The ledger after a transfer of tokens has been asked of the token program.
    /// The balances in tokens are that program's to keep: no account changes here.
    pub open spec fn token_transfer(
        self,
        source: int,
        destination: int,
        authority: Pubkey,
        amount: u64,
        signer_seeds: Seq<Seq<u8>>,
    ) -> LedgerView {
        self.record(
            Operation::TokenTransfer {
                source: self.accounts[source].key,
                destination: self.accounts[destination].key,
                authority,
                amount,
            },
            signer_seeds,
        )
    }
}

/// Whether an operation on a ledger came out as `expected`: the same failure, or
/// a ledger that holds what is expected.
pub open spec fn is_outcome(result: Result<Ledger, AuctionHouseError>, expected: Result<LedgerView, AuctionHouseError>) -> bool {
    match expected {
        Ok(ledger) => result is Ok && result->Ok_0@ == ledger,
        Err(e) => result == Err::<Ledger, AuctionHouseError>(e),
    }
}

impl Ledger {
    /// A ledger of the given accounts on which nothing has been done yet.
    pub fn new(accounts: Vec<AccountInfo>) -> (ledger: Ledger)
        ensures
            ledger@.accounts == accounts.deep_view(),
            ledger@.instructions == Seq::<InstructionView>::empty(),
    {
        let ledger = Ledger { accounts, instructions: Vec::new() };
        ledger
    }

    /// Lists one more instruction.
    pub fn record(self, operation: Operation, signer_seeds: &Vec<Vec<u8>>) -> (ledger: Ledger)
        ensures
            ledger@ == self@.record(operation, signer_seeds.deep_view()),
            ledger@.accounts.len() == self@.accounts.len(),
    {
        let mut ledger = self;
        ledger.instructions.push(Instruction { operation, signer_seeds: copy_seeds(signer_seeds) });
        ledger
    }

    /// Takes `lamports` out of an account, or fails with `NumericalOverflow` where
    /// it holds fewer.
    pub fn debit(self, account: usize, lamports: u64) -> (result: Result<Ledger, AuctionHouseError>)
        requires
            account < self@.accounts.len(),
        ensures
            is_outcome(result, self@.debit(account as int, lamports)),
            result is Ok ==> result->Ok_0@.accounts.len() == self@.accounts.len(),
    {
        let mut ledger = self;
        match ledger.accounts[account].lamports.checked_sub(lamports) {
            None => Err(AuctionHouseError::NumericalOverflow),
            Some(rest) => {
                let entry = &mut ledger.accounts[account];
                entry.lamports = rest;
                assert(ledger@.accounts =~= self@.debit(account as int, lamports)->Ok_0.accounts);
                Ok(ledger)
            },
        }
    }

    /// Puts `lamports` into an account, or fails with `NumericalOverflow` where
    /// its balance would pass the largest 64-bit number.
    pub fn credit(self, account: usize, lamports: u64) -> (result: Result<Ledger, AuctionHouseError>)
        requires
            account < self@.accounts.len(),
        ensures
            is_outcome(result, self@.credit(account as int, lamports)),
            result is Ok ==> result->Ok_0@.accounts.len() == self@.accounts.len(),
    {
        let mut ledger = self;
        match ledger.accounts[account].lamports.checked_add(lamports) {
            None => Err(AuctionHouseError::NumericalOverflow),
            Some(sum) => {
                let entry = &mut ledger.accounts[account];
                entry.lamports = sum;
                assert(ledger@.accounts =~= self@.credit(account as int, lamports)->Ok_0.accounts);
                Ok(ledger)
            },
        }
    }

    /// Moves `lamports` of native currency from one account to another and lists
    /// the transfer. Fails with `NumericalOverflow`, and changes nothing, where the
    /// payer holds too little or the payee would hold too much.
    pub fn transfer(self, from: usize, to: usize, lamports: u64, signer_seeds: &Vec<Vec<u8>>) -> (result: Result<
        Ledger,
        AuctionHouseError,
    >)
        requires
            from < self@.accounts.len(),
            to < self@.accounts.len(),
        ensures
            is_outcome(result, self@.transfer(from as int, to as int, lamports, signer_seeds.deep_view())),
            result is Ok ==> result->Ok_0@.accounts.len() == self@.accounts.len(),
    {
        let operation = Operation::Transfer { from: self.accounts[from].key, to: self.accounts[to].key, lamports };
        let debited = self.debit(from, lamports)?;
        let credited = debited.credit(to, lamports)?;
        Ok(credited.record(operation, signer_seeds))
    }

    /// Lists a transfer of `amount` tokens between two token accounts on the
    /// word of `authority`.
    pub fn token_transfer(
        self,
        source: usize,
        destination: usize,
        authority: Pubkey,
        amount: u64,
        signer_seeds: &Vec<Vec<u8>>,
    ) -> (ledger: Ledger)
        requires
            source < self@.accounts.len(),
            destination < self@.accounts.len(),
        ensures
            ledger@ == self@.token_transfer(
                source as int,
                destination as int,
                authority,
                amount,
                signer_seeds.deep_view(),
            ),
            ledger@.accounts.len() == self@.accounts.len(),
    {
        let operation = Operation::TokenTransfer {
            source: self.accounts[source].key,
            destination: self.accounts[destination].key,
            authority,
            amount,
        };
        self.record(operation, signer_seeds)
    }
}

/// The native currency that the first `n` of the accounts hold together.
pub open spec fn lamports_of_first(accounts: Seq<AccountView>, n: int) -> int
    decreases n,
{
    if n <= 0 {
        0
    } else {
        lamports_of_first(accounts, n - 1) + accounts[n - 1].lamports
    }
}

/// The native currency that the accounts hold together.
pub open spec fn total_lamports(accounts: Seq<AccountView>) -> int {
    lamports_of_first(accounts, accounts.len() as int)
}

impl LedgerView {
    /// Whether `self` can have come out of `before` by a settlement: the accounts
    /// are the same in number, each stands at its address and has signed or not as
    /// before, a record that was there has kept its length, no instruction issued
    /// has been taken back, and together the accounts hold as much native currency
    /// as before.
    pub open spec fn follows(self, before: LedgerView) -> bool {
        &&& self.accounts.len() == before.accounts.len()
        &&& forall|i: int|
            0 <= i < before.accounts.len() ==> (#[trigger] self.accounts[i]).key == before.accounts[i].key
                && self.accounts[i].is_signer == before.accounts[i].is_signer && (before.accounts[i].data.len()
                > 0 ==> self.accounts[i].data.len() == before.accounts[i].data.len())
        &&& before.instructions.is_prefix_of(self.instructions)
        &&& total_lamports(self.accounts) == total_lamports(before.accounts)
    }
}

/// Where one account is replaced by another, the accounts hold together what
/// they held, less the balance of the one and more that of the other.
pub proof fn lemma_total_after_update(accounts: Seq<AccountView>, place: int, account: AccountView, n: int)
    requires
        0 <= place < accounts.len(),
        0 <= n <= accounts.len(),
    ensures
        lamports_of_first(accounts.update(place, account), n) == lamports_of_first(accounts, n) + if place < n {
            account.lamports - accounts[place].lamports
        } else {
            0
        },
    decreases n,
{
    if n > 0 {
        lemma_total_after_update(accounts, place, account, n - 1);
    }
}

/// A ledger follows itself, and what follows a ledger that follows another
/// follows that one.
pub proof fn lemma_follows_is_an_order(first: LedgerView, second: LedgerView, third: LedgerView)
    requires
        second.follows(first),
        third.follows(second),
    ensures
        first.follows(first),
        third.follows(first),
{
}

/// A transfer of native currency makes none and loses none, whoever pays and
/// whoever is paid.
pub proof fn lemma_transfer_follows(ledger: LedgerView, from: int, to: int, lamports: u64, signer_seeds: Seq<Seq<u8>>)
    requires
        0 <= from < ledger.accounts.len(),
        0 <= to < ledger.accounts.len(),
        ledger.transfer(from, to, lamports, signer_seeds) is Ok,
    ensures
        ledger.transfer(from, to, lamports, signer_seeds)->Ok_0.follows(ledger),
{
    let debited = ledger.debit(from, lamports)->Ok_0;
    let credited = debited.credit(to, lamports)->Ok_0;
    lemma_total_after_update(ledger.accounts, from, debited.accounts[from], ledger.accounts.len() as int);
    lemma_total_after_update(debited.accounts, to, credited.accounts[to], ledger.accounts.len() as int);
}

/// A copy of the accounts of a transaction, to work on.
pub fn copy_accounts(accounts: &Vec<AccountInfo>) -> (copy: Vec<AccountInfo>)
    ensures
        copy.deep_view() == accounts.deep_view(),
{
    let mut copy: Vec<AccountInfo> = Vec::new();
    let mut i: usize = 0;
    while i < accounts.len()
        invariant
            i <= accounts.len(),
            copy.len() == i,
            forall|j: int| 0 <= j < i ==> copy[j]@ == accounts[j]@,
        decreases accounts.len() - i,
    {
        copy.push(accounts[i].duplicate());
        i += 1;
    }
    copy
}

/// Whether no two of the accounts stand at one address.
pub open spec fn distinct_keys(accounts: Seq<AccountView>) -> bool {
    forall|i: int, j: int| 0 <= i < j < accounts.len() ==> accounts[i].key != accounts[j].key
}

/// Tests whether no two of the accounts stand at one address.
pub fn has_distinct_keys(accounts: &Vec<AccountInfo>) -> (distinct: bool)
    ensures
        distinct == distinct_keys(accounts.deep_view()),
{
    let mut j: usize = 0;
    while j < accounts.len()
        invariant
            j <= accounts.len(),
            forall|a: int, b: int| 0 <= a < b < j ==> accounts[a].key != accounts[b].key,
        decreases accounts.len() - j,
    {
        let mut i: usize = 0;
        while i < j
            invariant
                i <= j < accounts.len(),
                forall|a: int| 0 <= a < i ==> accounts[a].key != accounts[j as int].key,
            decreases j - i,
        {
            if accounts[i].key == accounts[j].key {
                assert(accounts.deep_view()[i as int].key == accounts.deep_view()[j as int].key);
                return false;
            }
            i += 1;
        }
        j += 1;
    }
    assert forall|a: int, b: int| 0 <= a < b < accounts.deep_view().len() implies accounts.deep_view()[a].key
        != accounts.deep_view()[b].key by {
        assert(accounts[a].key != accounts[b].key);
    }
    true
}

impl LedgerView {
    /// Whether the accounts of `self` are those of `before` by number and by
    /// address.
    pub open spec fn same_addresses(self, before: LedgerView) -> bool {
        &&& self.accounts.len() == before.accounts.len()
        &&& forall|i: int|
            0 <= i < before.accounts.len() ==> (#[trigger] self.accounts[i]).key == before.accounts[i].key
    }
}

/// Accounts that stood at different addresses and stand where they stood
/// stand at different addresses.
pub proof fn lemma_addresses_stay_distinct(before: LedgerView, after: LedgerView)
    requires
        after.same_addresses(before),
        distinct_keys(before.accounts),
    ensures
        distinct_keys(after.accounts),
{
    assert forall|i: int, j: int| 0 <= i < j < after.accounts.len() implies after.accounts[i].key
        != after.accounts[j].key by {
        assert(after.accounts[i].key == before.accounts[i].key);
        assert(after.accounts[j].key == before.accounts[j].key);
    }
}

} // verus!
