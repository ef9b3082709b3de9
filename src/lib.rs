//! A token-issuance module: one program-derived account serves as the token
//! mint, as its own minting authority, and as the signer of the metadata
//! creation call. Mint and burn operations adjust supply and per-owner balances.

pub mod authority;
pub mod ledger;
pub mod instructions;
pub mod laws;
