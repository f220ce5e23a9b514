//! Deterministic, atomic, single-supply token issuance.
//!
//! The crate models a ledger of program-owned accounts and drives three
//! issuance pipelines over it: a standalone mint, a single-edition mint that
//! revokes its own authority after issuing, and a mint whose holding account
//! is the canonical associated address. Account addresses are derived
//! deterministically from seed material; a caller-supplied address that does
//! not match the recomputed derivation is rejected before any mutation, and
//! every pipeline either applies all of its steps or leaves the ledger
//! untouched.

pub mod addr;
pub mod descriptor;
pub mod hero_mint;
pub mod ledger;
pub mod mint_with_tokenaccount;
pub mod pipeline;
pub mod seeds;

pub use descriptor::name_seed;
