//! A per-owner custodial vault: the authorization and validation core of
//! its deposit and withdraw instructions.

pub mod account;
pub mod address;
pub mod deposit;
pub mod error;
pub mod laws;
pub mod withdraw;
