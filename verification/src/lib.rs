//! Issuance of collectible gems whose rarity is fixed later, from prices that
//! nobody knows when the gem is locked.
//!
//! Every entry point is a pure decision: from the accounts a caller supplies
//! it either refuses the call, or returns the ordered list of actions that the
//! host has to carry out. All accounts are authenticated by re-deriving their
//! addresses before any action is planned.
//!
//! Everything here is verified but the calls into the crates of the host and
//! of its collaborators, each behind one private function whose contract is
//! taken on trust: the derivation of an address in `address`, together with
//! the addresses of the collaborating programs; the digest in `rarity`; the
//! reading of a token account in `token`; the lookup in a price history in
//! `oracle`. What holds of every call is stated and proved in `laws`.

pub mod account;
pub mod action;
pub mod address;
pub mod bytes;
pub mod constants;
pub mod decimal;
pub mod error;
pub mod laws;
pub mod natural;
pub mod oracle;
pub mod processor;
pub mod rarity;
pub mod roles;
pub mod state;
pub mod token;
