//! The operation's failure taxonomy.

use vstd::prelude::*;

verus! {

/// Why a scheduling call failed. Every failure leaves the ledger exactly as
/// it was: the surrounding execution environment commits all of a call's
/// state changes or none of them.
#[derive(Clone, Copy, Debug, PartialEq, Eq, Structural)]
pub enum ScheduleError {
    /// The calling signer is not the fixed authorized identity.
    Authorization,
    /// The requesting signer's balance cannot cover the execution account's
    /// funding.
    InsufficientFunds,
    /// The transaction compiler rejected the target call descriptor (an
    /// account table inconsistent with its references).
    Compilation,
    /// The external queue service rejected the registration, e.g. a task id
    /// already taken within the queue.
    QueueRejection,
}

} // verus!
