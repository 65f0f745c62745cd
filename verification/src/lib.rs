//! Proportional-reward accounting for a pooled-staking protocol.
//!
//! The crate holds the arithmetic, the fee split, the reward-per-share
//! ledger, the two periodic pools and the operations that sequence them.
//! Every operation is a total function from the records it is given and its
//! inputs to the new records and a receipt, or to a failure that leaves the
//! records as they were.

pub mod constants;
pub mod errors;
pub mod identity;
pub mod math;
pub mod fees;
pub mod state;
pub mod events;
pub mod helpers;
pub mod stake;
pub mod unstake;
pub mod claim_rewards;
pub mod bonus_pool;
pub mod referral;
pub mod initialize;
pub mod totals;
