//! A deterministic-authority gateway: canonical program-address derivation
//! with bump-seed search, signer and authority verification, a fixed-layout
//! vault record, and a guarded transfer that only dispatches to trusted
//! callees.

pub mod authority;
pub mod derivation;
pub mod errors;
pub mod guard;
pub mod ids;
pub mod state;
