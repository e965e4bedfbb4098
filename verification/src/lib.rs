//! Shared bills held in escrow: a creator opens a bill, a payer settles it
//! into the bill's own account, and the creator reclaims the balance by
//! closing it.
//!
//! `bill` holds the record and its allocation size, `codec` its byte layout,
//! `address` the derivation of a bill's storage address, and `lifecycle` the
//! three operations with the laws that tie them together.

pub mod address;
pub mod bill;
pub mod codec;
pub mod lifecycle;
