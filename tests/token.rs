use etherfuse_bounty::authority::{derive_mint_authority, mint_seed_bytes, same_address, SignerSeeds};
use etherfuse_bounty::instructions::{
    burn_token, initialize_token, mint_stablecoin, BurnToken, InitTokenParams, InitializeToken,
    MintStableCoin,
};
use etherfuse_bounty::ledger::{find_balance, BalanceAccount, TokenError, TokenLedger};

const PROGRAM: [u8; 32] = [7u8; 32];
const OWNER_A: [u8; 32] = [1u8; 32];
const OWNER_B: [u8; 32] = [2u8; 32];
const METADATA: [u8; 32] = [9u8; 32];

fn params(name: &str, symbol: &str, uri: &str, decimals: u8) -> InitTokenParams {
    InitTokenParams {
        name: name.to_string(),
        symbol: symbol.to_string(),
        uri: uri.to_string(),
        decimals,
    }
}

fn fresh() -> TokenLedger {
    TokenLedger::new(PROGRAM).unwrap()
}

fn init_accounts(l: &TokenLedger) -> InitializeToken {
    InitializeToken { user: OWNER_A, token_mint: l.authority.address, metadata: METADATA }
}

fn initialized() -> TokenLedger {
    let mut l = fresh();
    let acc = init_accounts(&l);
    initialize_token(&mut l, &acc, params("EtherFuse USD", "USDE", "https://example/meta.json", 6)).unwrap();
    l
}

fn mint_to(l: &mut TokenLedger, owner: [u8; 32], q: u64) -> Result<(), TokenError> {
    let acc = MintStableCoin { user: owner, token_mint: l.authority.address, destination_owner: owner };
    mint_stablecoin(l, &acc, q)
}

fn burn_from(l: &mut TokenLedger, user: [u8; 32], owner: [u8; 32], q: u64) -> Result<(), TokenError> {
    let acc = BurnToken { user, token_mint: l.authority.address, destination_owner: owner };
    burn_token(l, &acc, q)
}

#[test]
fn derivation_is_deterministic_and_signs() {
    let d1 = derive_mint_authority(&PROGRAM).unwrap();
    let d2 = derive_mint_authority(&PROGRAM).unwrap();
    assert_eq!(d1.address, d2.address);
    assert_eq!(d1.bump, d2.bump);
    assert!(d1.bump >= 1);
    assert_ne!(d1.address, PROGRAM);
    let seeds = d1.signer_seeds();
    assert_eq!(seeds.label, b"stablecoin_mint".to_vec());
    assert!(seeds.signs_for(&PROGRAM, &d1.address));
    assert!(!seeds.signs_for(&[8u8; 32], &d1.address));
    assert!(!seeds.signs_for(&PROGRAM, &OWNER_A));
}

#[test]
fn larger_bump_does_not_sign() {
    let d = derive_mint_authority(&PROGRAM).unwrap();
    if d.bump < 255 {
        let seeds = SignerSeeds { label: mint_seed_bytes(), bump: d.bump + 1 };
        assert!(!seeds.signs_for(&PROGRAM, &d.address));
    }
}

#[test]
fn other_program_derives_other_address() {
    let d1 = derive_mint_authority(&PROGRAM).unwrap();
    let d2 = derive_mint_authority(&[8u8; 32]).unwrap();
    assert_ne!(d1.address, d2.address);
}

#[test]
fn same_address_compares_bytes() {
    let mut b = OWNER_A;
    assert!(same_address(&OWNER_A, &b));
    b[31] = 0;
    assert!(!same_address(&OWNER_A, &b));
}

#[test]
fn find_balance_takes_last_account() {
    let accounts = vec![
        BalanceAccount { owner: OWNER_A, amount: 1 },
        BalanceAccount { owner: OWNER_B, amount: 2 },
        BalanceAccount { owner: OWNER_A, amount: 3 },
    ];
    assert_eq!(find_balance(&accounts, &OWNER_A), Some(2));
    assert_eq!(find_balance(&accounts, &OWNER_B), Some(1));
    assert_eq!(find_balance(&accounts, &METADATA), None);
}

#[test]
fn new_ledger_is_empty() {
    let l = fresh();
    assert!(l.mint.is_none());
    assert!(l.metadata.is_none());
    assert_eq!(l.supply(), None);
    assert_eq!(l.balance_of(&OWNER_A), None);
}

#[test]
fn initialize_then_read() {
    let l = initialized();
    let mint = l.mint.unwrap();
    assert_eq!(mint.authority, Some(l.authority.address));
    assert_eq!(mint.decimals, 6);
    assert_eq!(mint.supply, 0);
    let md = l.metadata.clone().unwrap();
    assert_eq!(md.name, "EtherFuse USD");
    assert_eq!(md.symbol, "USDE");
    assert_eq!(md.uri, "https://example/meta.json");
    assert!(!md.is_mutable);
    assert_eq!(md.update_authority, l.authority.address);
    assert_eq!(md.mint, l.authority.address);
    assert_eq!(md.address, METADATA);
    assert_eq!(md.seller_fee_basis_points, 0);
}

#[test]
fn initialize_every_small_precision() {
    for d in 0u8..=9 {
        let mut l = fresh();
        let acc = init_accounts(&l);
        assert_eq!(initialize_token(&mut l, &acc, params("N", "S", "u", d)), Ok(()));
        assert_eq!(l.mint.unwrap().decimals, d);
    }
}

#[test]
fn initialize_twice_fails() {
    let mut l = initialized();
    let acc = init_accounts(&l);
    let r = initialize_token(&mut l, &acc, params("Other", "OTH", "https://other", 2));
    assert_eq!(r, Err(TokenError::AlreadyInitialized));
    assert_eq!(l.mint.unwrap().decimals, 6);
    assert_eq!(l.metadata.clone().unwrap().name, "EtherFuse USD");
}

#[test]
fn initialize_at_wrong_address_fails() {
    let mut l = fresh();
    let acc = InitializeToken { user: OWNER_A, token_mint: OWNER_B, metadata: METADATA };
    assert_eq!(initialize_token(&mut l, &acc, params("N", "S", "u", 6)), Err(TokenError::SeedsMismatch));
    assert!(l.mint.is_none());
}

#[test]
fn initialize_rejects_long_fields() {
    let mut l = fresh();
    let acc = init_accounts(&l);
    let long_name = "n".repeat(33);
    assert_eq!(
        initialize_token(&mut l, &acc, params(&long_name, "S", "u", 6)),
        Err(TokenError::MetadataRejected)
    );
    assert_eq!(
        initialize_token(&mut l, &acc, params("N", "SYMBOLTOOLONG", "u", 6)),
        Err(TokenError::MetadataRejected)
    );
    assert_eq!(
        initialize_token(&mut l, &acc, params("N", "S", &"u".repeat(201), 6)),
        Err(TokenError::MetadataRejected)
    );
    assert!(l.mint.is_none());
    assert!(l.metadata.is_none());
    let exact = "n".repeat(32);
    assert_eq!(initialize_token(&mut l, &acc, params(&exact, "SYMBOL1234", &"u".repeat(200), 6)), Ok(()));
}

#[test]
fn mint_twice_adds_up() {
    let mut l = initialized();
    assert_eq!(mint_to(&mut l, OWNER_A, 250), Ok(()));
    assert_eq!(mint_to(&mut l, OWNER_A, 750), Ok(()));
    assert_eq!(l.balance_of(&OWNER_A), Some(1000));
    assert_eq!(l.supply(), Some(1000));
    assert_eq!(l.accounts.len(), 1);
}

#[test]
fn mint_to_disjoint_destinations() {
    let mut l = initialized();
    assert_eq!(mint_to(&mut l, OWNER_A, 5), Ok(()));
    assert_eq!(mint_to(&mut l, OWNER_B, 7), Ok(()));
    assert_eq!(l.balance_of(&OWNER_A), Some(5));
    assert_eq!(l.balance_of(&OWNER_B), Some(7));
    assert_eq!(l.supply(), Some(12));
}

#[test]
fn mint_zero_creates_account() {
    let mut l = initialized();
    assert_eq!(mint_to(&mut l, OWNER_B, 0), Ok(()));
    assert_eq!(l.balance_of(&OWNER_B), Some(0));
    assert_eq!(l.supply(), Some(0));
}

#[test]
fn mint_overflow_fails() {
    let mut l = initialized();
    assert_eq!(mint_to(&mut l, OWNER_A, u64::MAX), Ok(()));
    assert_eq!(mint_to(&mut l, OWNER_B, 1), Err(TokenError::Overflow));
    assert_eq!(l.balance_of(&OWNER_B), None);
    assert_eq!(l.supply(), Some(u64::MAX));
}

#[test]
fn mint_with_foreign_authority_fails() {
    let mut l = initialized();
    if let Some(m) = l.mint.as_mut() {
        m.authority = None;
    }
    assert_eq!(mint_to(&mut l, OWNER_A, 1), Err(TokenError::WrongMintAuthority));
}

#[test]
fn burn_within_balance() {
    let mut l = initialized();
    mint_to(&mut l, OWNER_A, 100).unwrap();
    assert_eq!(burn_from(&mut l, OWNER_A, OWNER_A, 40), Ok(()));
    assert_eq!(l.balance_of(&OWNER_A), Some(60));
    assert_eq!(l.supply(), Some(60));
    assert_eq!(burn_from(&mut l, OWNER_A, OWNER_A, 60), Ok(()));
    assert_eq!(l.balance_of(&OWNER_A), Some(0));
    assert_eq!(l.supply(), Some(0));
}

#[test]
fn burn_beyond_balance_fails() {
    let mut l = initialized();
    mint_to(&mut l, OWNER_A, 100).unwrap();
    mint_to(&mut l, OWNER_B, 100).unwrap();
    assert_eq!(burn_from(&mut l, OWNER_A, OWNER_A, 101), Err(TokenError::InsufficientFunds));
    assert_eq!(l.balance_of(&OWNER_A), Some(100));
    assert_eq!(l.supply(), Some(200));
}

#[test]
fn burn_without_account_fails() {
    let mut l = initialized();
    assert_eq!(burn_from(&mut l, OWNER_A, OWNER_A, 0), Err(TokenError::AccountNotFound));
}

#[test]
fn uninitialized_mint_fails() {
    let mut l = fresh();
    assert_eq!(mint_to(&mut l, OWNER_A, 1), Err(TokenError::MintNotFound));
    assert_eq!(burn_from(&mut l, OWNER_A, OWNER_A, 1), Err(TokenError::MintNotFound));
    assert!(l.accounts.is_empty());
    assert!(l.mint.is_none());
}

#[test]
fn wrong_mint_address_fails() {
    let mut l = initialized();
    let acc = MintStableCoin { user: OWNER_A, token_mint: OWNER_B, destination_owner: OWNER_A };
    assert_eq!(mint_stablecoin(&mut l, &acc, 1), Err(TokenError::SeedsMismatch));
    let acc = BurnToken { user: OWNER_A, token_mint: OWNER_B, destination_owner: OWNER_A };
    assert_eq!(burn_token(&mut l, &acc, 1), Err(TokenError::SeedsMismatch));
}

#[test]
fn burn_by_non_owner_fails() {
    let mut l = initialized();
    mint_to(&mut l, OWNER_A, 1_000).unwrap();
    assert_eq!(burn_from(&mut l, OWNER_B, OWNER_A, 1), Err(TokenError::Unauthorized));
    assert_eq!(burn_from(&mut l, OWNER_B, OWNER_A, 0), Err(TokenError::Unauthorized));
    assert_eq!(l.balance_of(&OWNER_A), Some(1_000));
    assert_eq!(l.supply(), Some(1_000));
}

#[test]
fn issue_mint_burn_scenario() {
    let mut l = fresh();
    let acc = init_accounts(&l);
    let p = params("EtherFuse USD", "USDE", "https://example/meta.json", 6);
    assert_eq!(initialize_token(&mut l, &acc, p), Ok(()));
    assert_eq!(mint_to(&mut l, OWNER_A, 1_000_000), Ok(()));
    assert_eq!(l.balance_of(&OWNER_A), Some(1_000_000));
    assert_eq!(l.supply(), Some(1_000_000));
    assert_eq!(burn_from(&mut l, OWNER_A, OWNER_A, 400_000), Ok(()));
    assert_eq!(l.balance_of(&OWNER_A), Some(600_000));
    assert_eq!(l.supply(), Some(600_000));
}
