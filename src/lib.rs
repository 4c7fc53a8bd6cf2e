//! A two-party escrow for a purchase: the buyer pays a deposit, the seller
//! proposes a meeting, the buyer accepts it, and once the meeting time has
//! passed the remainder is paid and the buyer becomes custodian.
//!
//! `data` holds the deal's types and the retention sizing of an accepted
//! meeting, `contract` the lifecycle state machine with one exact transition
//! per operation, and `laws` what holds across operations.
use vstd::prelude::*;

pub mod contract;
pub mod data;
pub mod laws;

verus! {

} // verus!
