use crate::authority::{
    derive_mint_authority, is_canonical_bump, mint_seed, no_viable_bump, program_address,
    DerivedAuthority,
};
use vstd::prelude::*;

verus! {

/// The mint record: total supply, decimal precision and minting authority
/// (`None` means that no further minting is possible).
#[derive(Clone, Copy, Debug)]
pub struct MintAccount {
    pub supply: u64,
    pub decimals: u8,
    pub authority: Option<[u8; 32]>,
}

/// Display metadata linked to a mint.
#[derive(Clone, Debug)]
pub struct MetadataRecord {
    pub address: [u8; 32],
    pub mint: [u8; 32],
    pub update_authority: [u8; 32],
    pub name: String,
    pub symbol: String,
    pub uri: String,
    pub seller_fee_basis_points: u16,
    pub is_mutable: bool,
}

/// A holding of units of the mint, resolved from its owner.
#[derive(Clone, Copy, Debug)]
pub struct BalanceAccount {
    pub owner: [u8; 32],
    pub amount: u64,
}

/// The balances that a sequence of accounts records, by owner; a later
/// account of the same owner takes precedence.
pub open spec fn balances_of(accounts: Seq<BalanceAccount>) -> Map<Seq<u8>, u64>
    decreases accounts.len(),
{
    if accounts.len() == 0 {
        Map::empty()
    } else {
        balances_of(accounts.drop_last()).insert(
            accounts.last().owner@,
            accounts.last().amount,
        )
    }
}

/// `i` is the last position of an account of `owner`.
pub open spec fn last_of(accounts: Seq<BalanceAccount>, owner: Seq<u8>, i: int) -> bool {
    &&& 0 <= i < accounts.len()
    &&& accounts[i].owner@ == owner
    &&& forall|j: int| i < j < accounts.len() ==> (#[trigger] accounts[j]).owner@ != owner
}

/// An owner with no account has no balance.
pub proof fn lemma_absent(accounts: Seq<BalanceAccount>, owner: Seq<u8>)
    requires
        forall|j: int| 0 <= j < accounts.len() ==> (#[trigger] accounts[j]).owner@ != owner,
    ensures
        !balances_of(accounts).contains_key(owner),
    decreases accounts.len(),
{
    if accounts.len() > 0 {
        let init = accounts.drop_last();
        assert forall|j: int| 0 <= j < init.len() implies (#[trigger] init[j]).owner@ != owner by {
            assert(init[j] == accounts[j]);
        }
        lemma_absent(init, owner);
    }
}

/// The balance of an owner is the amount of its last account.
pub proof fn lemma_lookup(accounts: Seq<BalanceAccount>, owner: Seq<u8>, i: int)
    requires
        last_of(accounts, owner, i),
    ensures
        balances_of(accounts).contains_key(owner),
        balances_of(accounts)[owner] == accounts[i].amount,
    decreases accounts.len(),
{
    if i < accounts.len() - 1 {
        let init = accounts.drop_last();
        assert forall|j: int| i < j < init.len() implies (#[trigger] init[j]).owner@ != owner by {
            assert(init[j] == accounts[j]);
        }
        lemma_lookup(init, owner, i);
    }
}

/// Replacing the last account of an owner replaces that owner's balance.
pub proof fn lemma_update(accounts: Seq<BalanceAccount>, i: int, a: BalanceAccount)
    requires
        last_of(accounts, a.owner@, i),
    ensures
        balances_of(accounts.update(i, a)) =~= balances_of(accounts).insert(a.owner@, a.amount),
    decreases accounts.len(),
{
    let updated = accounts.update(i, a);
    if i == accounts.len() - 1 {
        assert(updated.drop_last() =~= accounts.drop_last());
    } else {
        let init = accounts.drop_last();
        assert(updated.drop_last() =~= init.update(i, a));
        assert forall|j: int| i < j < init.len() implies (#[trigger] init[j]).owner@ != a.owner@ by {
            assert(init[j] == accounts[j]);
        }
        lemma_update(init, i, a);
        assert(updated.last() == accounts.last());
        assert(accounts.last().owner@ != a.owner@);
    }
}

/// Finds the last account of `owner` in `accounts`.
pub fn find_balance(accounts: &Vec<BalanceAccount>, owner: &[u8; 32]) -> (r: Option<usize>)
    ensures
        match r {
            Some(i) => last_of(accounts@, owner@, i as int),
            None => forall|j: int| 0 <= j < accounts@.len() ==> (#[trigger] accounts@[j]).owner@ != owner@,
        },
{
    let mut k: usize = accounts.len();
    while k > 0
        invariant
            k <= accounts@.len(),
            forall|j: int| k <= j < accounts@.len() ==> (#[trigger] accounts@[j]).owner@ != owner@,
        decreases k,
    {
        k = k - 1;
        if crate::authority::same_address(&accounts[k].owner, owner) {
            return Some(k);
        }
    }
    None
}

/// The failures that the token operations report.
#[derive(Clone, Copy, Debug, PartialEq, Eq, Structural)]
pub enum TokenError {
    /// No bump yields an address for the fixed label.
    NoViableBump,
    /// The supplied mint address is not the derived one.
    SeedsMismatch,
    /// The mint or its metadata already exists.
    AlreadyInitialized,
    /// The metadata program rejects the name, symbol or uri.
    MetadataRejected,
    /// The mint has not been initialized.
    MintNotFound,
    /// The mint's authority is not the derived account.
    WrongMintAuthority,
    /// The caller does not own the balance account.
    Unauthorized,
    /// The balance account does not exist.
    AccountNotFound,
    /// The balance is below the quantity to burn.
    InsufficientFunds,
    /// Supply or balance would leave the range of `u64`.
    Overflow,
}

/// What the module sees of the accounts under its derived address: the
/// mint, its metadata and the balance accounts of its holders.
#[derive(Clone, Debug)]
pub struct TokenLedger {
    pub program_id: [u8; 32],
    pub authority: DerivedAuthority,
    pub mint: Option<MintAccount>,
    pub metadata: Option<MetadataRecord>,
    pub accounts: Vec<BalanceAccount>,
}

impl TokenLedger {
    /// The authority is the canonical derivation of the fixed label under
    /// the program's id.
    pub open spec fn wf(&self) -> bool {
        &&& is_canonical_bump(mint_seed(), self.program_id@, self.authority.bump)
        &&& program_address(mint_seed(), self.authority.bump, self.program_id@)
            == Some(self.authority.address@)
    }

    /// Balances by owner.
    pub open spec fn balances(&self) -> Map<Seq<u8>, u64> {
        balances_of(self.accounts@)
    }

    /// The balance of `owner`, zero where it has no account.
    pub open spec fn balance(&self, owner: Seq<u8>) -> u64 {
        if self.balances().contains_key(owner) {
            self.balances()[owner]
        } else {
            0
        }
    }

    /// A ledger with nothing created yet, under the derived address of
    /// `program_id`.
    pub fn new(program_id: [u8; 32]) -> (r: Result<TokenLedger, TokenError>)
        ensures
            match r {
                Ok(l) => {
                    &&& l.wf()
                    &&& l.program_id == program_id
                    &&& l.mint is None
                    &&& l.metadata is None
                    &&& l.balances() == Map::<Seq<u8>, u64>::empty()
                },
                Err(e) => e == TokenError::NoViableBump && no_viable_bump(mint_seed(), program_id@),
            },
    {
        match derive_mint_authority(&program_id) {
            Some(authority) => {
                let accounts: Vec<BalanceAccount> = Vec::new();
                Ok(TokenLedger { program_id, authority, mint: None, metadata: None, accounts })
            },
            None => Err(TokenError::NoViableBump),
        }
    }

    /// The balance account of `owner`, if it has one.
    pub fn balance_of(&self, owner: &[u8; 32]) -> (r: Option<u64>)
        ensures
            r == (if self.balances().contains_key(owner@) {
                Some(self.balances()[owner@])
            } else {
                None
            }),
    {
        match find_balance(&self.accounts, owner) {
            Some(i) => {
                proof {
                    lemma_lookup(self.accounts@, owner@, i as int);
                }
                Some(self.accounts[i].amount)
            },
            None => {
                proof {
                    lemma_absent(self.accounts@, owner@);
                }
                None
            },
        }
    }

    /// The supply of the mint, if it exists.
    pub fn supply(&self) -> (r: Option<u64>)
        ensures
            r == (match self.mint {
                Some(m) => Some(m.supply),
                None => None::<u64>,
            }),
    {
        match &self.mint {
            Some(m) => Some(m.supply),
            None => None,
        }
    }
}

} // verus!
