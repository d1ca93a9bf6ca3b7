//! On-chain task-scheduling client: builds a byte-exact deferred instruction
//! payload, computes the funding its execution account needs, and registers
//! the task with an external task-queue service under a delegated,
//! seed-derived signing authority.

pub mod identity;
pub mod codec;
pub mod compile;
pub mod digest;
pub mod errors;
pub mod funding;
pub mod schedule;
