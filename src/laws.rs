use crate::authority::{mint_seed, program_address};
use crate::instructions::{
    burn_outcome, has_authority, initialize_outcome, metadata_fits, mint_outcome, BurnToken,
    InitTokenParams, InitializeToken, MintStableCoin,
};
use crate::ledger::{TokenError, TokenLedger};
use vstd::prelude::*;

verus! {

/// Initializing a fresh ledger at the derived address, with display fields
/// that the metadata program accepts and a precision of at most nine
/// decimals, succeeds. Afterwards the mint's authority is the derived
/// address, which re-derives from the fixed label and the stored bump, and
/// the linked metadata holds the given name, symbol and uri and is immutable.
pub proof fn lemma_initialize_then_read(
    o: TokenLedger,
    acc: InitializeToken,
    p: InitTokenParams,
    r: Result<(), TokenError>,
    n: TokenLedger,
)
    requires
        o.wf(),
        o.mint is None,
        o.metadata is None,
        acc.token_mint@ == o.authority.address@,
        metadata_fits(p),
        p.decimals <= 9,
        initialize_outcome(o, acc, p, r, n),
    ensures
        r is Ok,
        n.wf(),
        n.mint is Some,
        n.mint->Some_0.authority == Some(n.authority.address),
        n.mint->Some_0.decimals == p.decimals,
        program_address(mint_seed(), n.authority.bump, n.program_id@) == Some(n.authority.address@),
        n.metadata is Some,
        n.metadata->Some_0.mint == n.authority.address,
        n.metadata->Some_0.update_authority == n.authority.address,
        n.metadata->Some_0.name@ == p.name@,
        n.metadata->Some_0.symbol@ == p.symbol@,
        n.metadata->Some_0.uri@ == p.uri@,
        !n.metadata->Some_0.is_mutable,
{
}

/// A second initialization under the same label fails as already
/// initialized and leaves the mint and its metadata as the first one made
/// them.
pub proof fn lemma_initialize_twice(
    l0: TokenLedger,
    acc1: InitializeToken,
    p1: InitTokenParams,
    r1: Result<(), TokenError>,
    l1: TokenLedger,
    acc2: InitializeToken,
    p2: InitTokenParams,
    r2: Result<(), TokenError>,
    l2: TokenLedger,
)
    requires
        initialize_outcome(l0, acc1, p1, r1, l1),
        r1 is Ok,
        acc2.token_mint@ == l0.authority.address@,
        initialize_outcome(l1, acc2, p2, r2, l2),
    ensures
        r2 == Err::<(), TokenError>(TokenError::AlreadyInitialized),
        l2 == l1,
{
}

/// Two mints of `q1` and `q2` to the same destination both succeed where
/// neither supply nor balance leaves `u64`, and together add `q1 + q2` to
/// the destination's balance and to the supply.
pub proof fn lemma_mint_twice(
    l0: TokenLedger,
    acc: MintStableCoin,
    q1: u64,
    r1: Result<(), TokenError>,
    l1: TokenLedger,
    q2: u64,
    r2: Result<(), TokenError>,
    l2: TokenLedger,
)
    requires
        acc.token_mint@ == l0.authority.address@,
        l0.mint is Some,
        has_authority(l0.mint->Some_0, l0.authority.address@),
        l0.mint->Some_0.supply + q1 + q2 <= u64::MAX,
        l0.balance(acc.destination_owner@) + q1 + q2 <= u64::MAX,
        mint_outcome(l0, acc, q1, r1, l1),
        mint_outcome(l1, acc, q2, r2, l2),
    ensures
        r1 is Ok,
        r2 is Ok,
        l2.balance(acc.destination_owner@) == l0.balance(acc.destination_owner@) + q1 + q2,
        l2.mint->Some_0.supply == l0.mint->Some_0.supply + q1 + q2,
{
}

/// A burn of `q` by the owner of a balance `b`: where `q <= b` (and the
/// supply covers `q`) it succeeds, leaving `b - q` and a supply smaller by
/// `q`; where `q > b` it fails for want of funds and changes nothing.
pub proof fn lemma_burn_balance(
    l0: TokenLedger,
    acc: BurnToken,
    q: u64,
    r: Result<(), TokenError>,
    l1: TokenLedger,
)
    requires
        acc.token_mint@ == l0.authority.address@,
        l0.mint is Some,
        acc.destination_owner@ == acc.user@,
        l0.balances().contains_key(acc.user@),
        burn_outcome(l0, acc, q, r, l1),
    ensures
        q <= l0.balance(acc.user@) && q <= l0.mint->Some_0.supply ==> {
            &&& r is Ok
            &&& l1.balance(acc.user@) == l0.balance(acc.user@) - q
            &&& l1.mint->Some_0.supply == l0.mint->Some_0.supply - q
        },
        q > l0.balance(acc.user@) ==> r == Err::<(), TokenError>(TokenError::InsufficientFunds) && l1 == l0,
{
}

/// Neither a mint nor a burn succeeds before the mint exists: each fails
/// as not found, or for a mint address that is not the derived one, and
/// changes nothing.
pub proof fn lemma_uninitialized(
    l0: TokenLedger,
    macc: MintStableCoin,
    mq: u64,
    mr: Result<(), TokenError>,
    ml: TokenLedger,
    bacc: BurnToken,
    bq: u64,
    br: Result<(), TokenError>,
    bl: TokenLedger,
)
    requires
        l0.mint is None,
        mint_outcome(l0, macc, mq, mr, ml),
        burn_outcome(l0, bacc, bq, br, bl),
    ensures
        mr == Err::<(), TokenError>(TokenError::MintNotFound)
            || mr == Err::<(), TokenError>(TokenError::SeedsMismatch),
        ml == l0,
        br == Err::<(), TokenError>(TokenError::MintNotFound)
            || br == Err::<(), TokenError>(TokenError::SeedsMismatch),
        bl == l0,
{
}

/// A burn from a balance account that the caller does not own fails as
/// unauthorized, whatever the balance, and changes nothing.
pub proof fn lemma_burn_by_non_owner(
    l0: TokenLedger,
    acc: BurnToken,
    q: u64,
    r: Result<(), TokenError>,
    l1: TokenLedger,
)
    requires
        acc.token_mint@ == l0.authority.address@,
        l0.mint is Some,
        acc.destination_owner@ != acc.user@,
        burn_outcome(l0, acc, q, r, l1),
    ensures
        r == Err::<(), TokenError>(TokenError::Unauthorized),
        l1 == l0,
{
}

} // verus!
