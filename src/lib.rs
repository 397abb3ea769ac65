//! Executable models of five small on-chain programs, each pairing an
//! instruction that omits a safety check with one that performs it.
//!
//! Account validation that the program framework would derive from
//! declarative constraints (signer, `has_one`, seeds, owner and
//! discriminator checks) is written out here as verified code, so that the
//! contracts state exactly which inputs each instruction accepts, which error
//! each rejected input gets, and what a successful call writes.
//!
//! - `account`: addresses, account records, program-derived addresses and
//!   the shared account checks.
//! - `missing_account_validation`: a lamport vault read from raw bytes, with
//!   and without owner and discriminator checks.
//! - `missing_authority_check`: an admin-controlled configuration, with and
//!   without signer checks.
//! - `incorrect_pda_derivation`: records at derived addresses, with
//!   claimable and signer-bound seeds, and caller-chosen and canonical bumps.
//! - `unsafe_cpi_token_transfer`: a payment splitter whose token transfers go
//!   to checked or unchecked accounts and programs.
//! - `integer_overflow_state_bug`: a staking pool with wrapping and with
//!   checked arithmetic.
pub mod account;
pub mod missing_account_validation;
pub mod integer_overflow_state_bug;
pub mod unsafe_cpi_token_transfer;
pub mod missing_authority_check;
pub mod incorrect_pda_derivation;
