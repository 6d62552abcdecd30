//! A payments engine: per-client accounts that take deposits, withdrawals,
//! disputes, resolutions and chargebacks, and a ledger that routes an ordered
//! batch of transactions to the accounts they belong to.
//!
//! Amounts are fixed-point decimals with four fractional digits, held as
//! integers that count ten-thousandths of a currency unit.

pub mod account;
pub mod engine;
pub mod model;
pub mod theorems;
pub mod transaction;
