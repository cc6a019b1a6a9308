//! A per-user custodial vault: each identity owns one derived vault address
//! and one metadata record holding the bumps that re-derive both addresses.

pub mod address;
pub mod derivation;
pub mod instructions;
pub mod record;
pub mod vault;
pub mod vault_anchor;

