//! A guard that brackets a bundle of operations with a balance snapshot and
//! a later check that the guarded balances did not decrease.

pub mod address;
pub mod derivation;
pub mod digest;
pub mod guard;
pub mod laws;
pub mod record;
pub mod sdk;
