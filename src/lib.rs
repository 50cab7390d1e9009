//! A three-party escrow: a buyer funds it, the seller is paid by default, and an
//! arbiter settles a dispute. The transition engine is a pure function of the
//! record, the caller, the time and the outcome of the value transfer that the
//! host performs; the host supplies those and makes the transfer.

pub mod account;
pub mod escrow;
pub mod laws;

pub use account::AccountId;
pub use escrow::{Call, DescrowContract, EscrowError, FundingPolicy, Payout, State};
