use crate::authority::same_address;
use crate::ledger::{
    find_balance, lemma_absent, lemma_lookup, lemma_update, BalanceAccount, MetadataRecord,
    MintAccount, TokenError, TokenLedger,
};
use vstd::prelude::*;
use vstd::utf8::encode_utf8;

verus! {

/// The longest name, in bytes, that the metadata program accepts.
pub const MAX_NAME_LENGTH: usize = 32;

/// The longest symbol, in bytes, that the metadata program accepts.
pub const MAX_SYMBOL_LENGTH: usize = 10;

/// The longest uri, in bytes, that the metadata program accepts.
pub const MAX_URI_LENGTH: usize = 200;

/// What the caller supplies to create the token.
#[derive(Clone, Debug)]
pub struct InitTokenParams {
    pub name: String,
    pub symbol: String,
    pub uri: String,
    pub decimals: u8,
}

/// The accounts of the initialization: the payer, the address at which the
/// mint is to be created, and the address of its metadata record.
#[derive(Clone, Copy, Debug)]
pub struct InitializeToken {
    pub user: [u8; 32],
    pub token_mint: [u8; 32],
    pub metadata: [u8; 32],
}

/// The accounts of a mint: the payer, the mint address, and the owner of
/// the balance account that receives the new units.
#[derive(Clone, Copy, Debug)]
pub struct MintStableCoin {
    pub user: [u8; 32],
    pub token_mint: [u8; 32],
    pub destination_owner: [u8; 32],
}

/// The accounts of a burn: the signing caller, the mint address, and the
/// owner of the balance account that is debited.
#[derive(Clone, Copy, Debug)]
pub struct BurnToken {
    pub user: [u8; 32],
    pub token_mint: [u8; 32],
    pub destination_owner: [u8; 32],
}

/// The length in bytes of a string's UTF-8 encoding, as `str::len` gives it.
pub open spec fn byte_len(s: Seq<char>) -> usize {
    encode_utf8(s).len() as usize
}

/// The metadata program accepts these display fields.
pub open spec fn metadata_fits(p: InitTokenParams) -> bool {
    &&& byte_len(p.name@) <= MAX_NAME_LENGTH
    &&& byte_len(p.symbol@) <= MAX_SYMBOL_LENGTH
    &&& byte_len(p.uri@) <= MAX_URI_LENGTH
}

/// The failure of an initialization, if any, in the order of the checks.
pub open spec fn initialize_error(l: TokenLedger, acc: InitializeToken, p: InitTokenParams) -> Option<TokenError> {
    if acc.token_mint@ != l.authority.address@ {
        Some(TokenError::SeedsMismatch)
    } else if l.mint is Some || l.metadata is Some {
        Some(TokenError::AlreadyInitialized)
    } else if !metadata_fits(p) {
        Some(TokenError::MetadataRejected)
    } else {
        None
    }
}

/// The state after a successful initialization: a mint of zero supply that
/// is its own authority, and immutable metadata whose update authority is
/// the mint.
pub open spec fn initialized(o: TokenLedger, acc: InitializeToken, p: InitTokenParams, n: TokenLedger) -> bool {
    &&& n.program_id == o.program_id
    &&& n.authority == o.authority
    &&& n.accounts == o.accounts
    &&& n.mint == Some(MintAccount { supply: 0, decimals: p.decimals, authority: Some(o.authority.address) })
    &&& n.metadata == Some(
        MetadataRecord {
            address: acc.metadata,
            mint: o.authority.address,
            update_authority: o.authority.address,
            name: p.name,
            symbol: p.symbol,
            uri: p.uri,
            seller_fee_basis_points: 0,
            is_mutable: false,
        },
    )
}

/// How an initialization relates its result and the ledger before and after.
pub open spec fn initialize_outcome(
    o: TokenLedger,
    acc: InitializeToken,
    p: InitTokenParams,
    r: Result<(), TokenError>,
    n: TokenLedger,
) -> bool {
    match initialize_error(o, acc, p) {
        Some(e) => r == Err::<(), TokenError>(e) && n == o,
        None => r is Ok && initialized(o, acc, p, n),
    }
}

/// The mint's authority is `address`.
pub open spec fn has_authority(m: MintAccount, address: Seq<u8>) -> bool {
    match m.authority {
        Some(a) => a@ == address,
        None => false,
    }
}

/// The failure of a mint of `q` units, if any.
pub open spec fn mint_error(l: TokenLedger, acc: MintStableCoin, q: u64) -> Option<TokenError> {
    if acc.token_mint@ != l.authority.address@ {
        Some(TokenError::SeedsMismatch)
    } else if l.mint is None {
        Some(TokenError::MintNotFound)
    } else if !has_authority(l.mint->Some_0, l.authority.address@) {
        Some(TokenError::WrongMintAuthority)
    } else if l.balance(acc.destination_owner@) + q > u64::MAX
        || l.mint->Some_0.supply + q > u64::MAX {
        Some(TokenError::Overflow)
    } else {
        None
    }
}

/// How a mint relates its result and the ledger before and after: on
/// success the supply and the destination's balance grow by `q`, and the
/// destination's account exists.
pub open spec fn mint_outcome(
    o: TokenLedger,
    acc: MintStableCoin,
    q: u64,
    r: Result<(), TokenError>,
    n: TokenLedger,
) -> bool {
    match mint_error(o, acc, q) {
        Some(e) => r == Err::<(), TokenError>(e) && n == o,
        None => {
            &&& r is Ok
            &&& n.program_id == o.program_id
            &&& n.authority == o.authority
            &&& n.metadata == o.metadata
            &&& n.mint == Some(MintAccount { supply: (o.mint->Some_0.supply + q) as u64, ..o.mint->Some_0 })
            &&& n.balances() == o.balances().insert(
                acc.destination_owner@,
                (o.balance(acc.destination_owner@) + q) as u64,
            )
        },
    }
}

/// The failure of a burn of `q` units, if any.
pub open spec fn burn_error(l: TokenLedger, acc: BurnToken, q: u64) -> Option<TokenError> {
    if acc.token_mint@ != l.authority.address@ {
        Some(TokenError::SeedsMismatch)
    } else if l.mint is None {
        Some(TokenError::MintNotFound)
    } else if acc.destination_owner@ != acc.user@ {
        Some(TokenError::Unauthorized)
    } else if !l.balances().contains_key(acc.user@) {
        Some(TokenError::AccountNotFound)
    } else if l.balances()[acc.user@] < q {
        Some(TokenError::InsufficientFunds)
    } else if l.mint->Some_0.supply < q {
        Some(TokenError::Overflow)
    } else {
        None
    }
}

/// How a burn relates its result and the ledger before and after: on
/// success the supply and the caller's balance shrink by `q`.
pub open spec fn burn_outcome(
    o: TokenLedger,
    acc: BurnToken,
    q: u64,
    r: Result<(), TokenError>,
    n: TokenLedger,
) -> bool {
    match burn_error(o, acc, q) {
        Some(e) => r == Err::<(), TokenError>(e) && n == o,
        None => {
            &&& r is Ok
            &&& n.program_id == o.program_id
            &&& n.authority == o.authority
            &&& n.metadata == o.metadata
            &&& n.mint == Some(MintAccount { supply: (o.mint->Some_0.supply - q) as u64, ..o.mint->Some_0 })
            &&& n.balances() == o.balances().insert(acc.user@, (o.balances()[acc.user@] - q) as u64)
        },
    }
}

/// Creates the mint at the derived address, with the derived account as its
/// authority, and attaches immutable metadata signed for by the derived
/// account. Nothing changes on failure.
pub fn initialize_token(ledger: &mut TokenLedger, accounts: &InitializeToken, params: InitTokenParams) -> (r: Result<(), TokenError>)
    ensures
        initialize_outcome(*old(ledger), *accounts, params, r, *final(ledger)),
{
    if !same_address(&accounts.token_mint, &ledger.authority.address) {
        return Err(TokenError::SeedsMismatch);
    }
    if ledger.mint.is_some() || ledger.metadata.is_some() {
        return Err(TokenError::AlreadyInitialized);
    }
    if params.name.as_str().len() > MAX_NAME_LENGTH || params.symbol.as_str().len() > MAX_SYMBOL_LENGTH
        || params.uri.as_str().len() > MAX_URI_LENGTH {
        return Err(TokenError::MetadataRejected);
    }
    let mint_address = ledger.authority.address;
    ledger.mint = Some(MintAccount { supply: 0, decimals: params.decimals, authority: Some(mint_address) });
    ledger.metadata = Some(
        MetadataRecord {
            address: accounts.metadata,
            mint: mint_address,
            update_authority: mint_address,
            name: params.name,
            symbol: params.symbol,
            uri: params.uri,
            seller_fee_basis_points: 0,
            is_mutable: false,
        },
    );
    Ok(())
}

/// Mints `quantity` new units into the balance account of the destination
/// owner, creating that account if it is absent; the derived account signs
/// as the mint's authority. Nothing changes on failure.
pub fn mint_stablecoin(ledger: &mut TokenLedger, accounts: &MintStableCoin, quantity: u64) -> (r: Result<(), TokenError>)
    ensures
        mint_outcome(*old(ledger), *accounts, quantity, r, *final(ledger)),
{
    if !same_address(&accounts.token_mint, &ledger.authority.address) {
        return Err(TokenError::SeedsMismatch);
    }
    let mint = match ledger.mint {
        Some(m) => m,
        None => {
            return Err(TokenError::MintNotFound);
        },
    };
    let signs = match mint.authority {
        Some(a) => same_address(&a, &ledger.authority.address),
        None => false,
    };
    if !signs {
        return Err(TokenError::WrongMintAuthority);
    }
    let owner = accounts.destination_owner;
    let found = find_balance(&ledger.accounts, &owner);
    let current: u64 = match found {
        Some(i) => ledger.accounts[i].amount,
        None => 0,
    };
    proof {
        match found {
            Some(i) => lemma_lookup(ledger.accounts@, owner@, i as int),
            None => lemma_absent(ledger.accounts@, owner@),
        }
    }
    if current > u64::MAX - quantity || mint.supply > u64::MAX - quantity {
        return Err(TokenError::Overflow);
    }
    ledger.mint = Some(
        MintAccount { supply: mint.supply + quantity, decimals: mint.decimals, authority: mint.authority },
    );
    let updated = BalanceAccount { owner, amount: current + quantity };
    let ghost before = ledger.accounts@;
    match found {
        Some(i) => {
            ledger.accounts.set(i, updated);
            proof {
                lemma_update(before, i as int, updated);
            }
        },
        None => {
            ledger.accounts.push(updated);
            assert(ledger.accounts@.drop_last() =~= before);
        },
    }
    Ok(())
}

/// Burns `quantity` units from the caller's own balance account; the caller
/// authorizes as the account's owner. Nothing changes on failure.
pub fn burn_token(ledger: &mut TokenLedger, accounts: &BurnToken, quantity: u64) -> (r: Result<(), TokenError>)
    ensures
        burn_outcome(*old(ledger), *accounts, quantity, r, *final(ledger)),
{
    if !same_address(&accounts.token_mint, &ledger.authority.address) {
        return Err(TokenError::SeedsMismatch);
    }
    let mint = match ledger.mint {
        Some(m) => m,
        None => {
            return Err(TokenError::MintNotFound);
        },
    };
    if !same_address(&accounts.destination_owner, &accounts.user) {
        return Err(TokenError::Unauthorized);
    }
    let owner = accounts.user;
    let i = match find_balance(&ledger.accounts, &owner) {
        Some(i) => i,
        None => {
            proof {
                lemma_absent(ledger.accounts@, owner@);
            }
            return Err(TokenError::AccountNotFound);
        },
    };
    proof {
        lemma_lookup(ledger.accounts@, owner@, i as int);
    }
    let current = ledger.accounts[i].amount;
    if current < quantity {
        return Err(TokenError::InsufficientFunds);
    }
    if mint.supply < quantity {
        return Err(TokenError::Overflow);
    }
    ledger.mint = Some(
        MintAccount { supply: mint.supply - quantity, decimals: mint.decimals, authority: mint.authority },
    );
    let updated = BalanceAccount { owner, amount: current - quantity };
    let ghost before = ledger.accounts@;
    ledger.accounts.set(i, updated);
    proof {
        lemma_update(before, i as int, updated);
    }
    Ok(())
}

} // verus!
