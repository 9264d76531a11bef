//! Core of a guardian-based social-recovery wallet: a single owner
//! administers guardians and family members; the guardians can vote, by
//! strict majority, to hand the account to a new owner. Every command and
//! query is a verified function whose contract pins the state transition,
//! the log entries and the produced transfer instruction.

pub mod contract;
pub mod msg;
pub mod props;
pub mod state;
