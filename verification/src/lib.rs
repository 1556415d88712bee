//! Accounting and risk core of a multi-asset, over-collateralised lending
//! protocol: position ledger, loan-to-value checks, reputation, eMode,
//! gradual auto-deleveraging, interest and staking conversion.
//!
//! Every operation is a state transition on plain values. Custody, storage
//! and the clock belong to the host program, which hands in balances and
//! timestamps and performs transfers once a transition has been accepted.

pub mod constants;
pub mod credit;
pub mod errors;
pub mod gad;
pub mod interest;
pub mod laws;
pub mod ledger;
pub mod lending;
pub mod market;
pub mod registry;
pub mod risk;
pub mod staking;
pub mod state;
