//! Funding of the not-yet-existing downstream record.
//!
//! The account a replayed task creates must be seeded with the ledger's
//! storage-cost floor for its declared byte size, or creation fails at
//! replay time. The floor formula itself belongs to the ledger's cost
//! model; this crate treats it as a pure function of the byte size.

use vstd::prelude::*;

verus! {

/// Fixed overhead of the downstream interaction record, in bytes, ahead of
/// its variable-length text.
pub const INTERACTION_OVERHEAD: usize = 121;

/// Upper bound accepted for a record's byte size; keeps the cost model's
/// per-byte multiplication comfortably within `u64`.
pub const MAX_FUNDED_SPACE: usize = 1000000;

/// The declared byte size of an interaction record holding a text of the
/// given length.
pub open spec fn interaction_space(text_len: nat) -> nat {
    (INTERACTION_OVERHEAD + text_len) as nat
}

/// The minimum balance an account of `space` bytes must hold at creation to
/// persist on the ledger. The formula is owned by the ledger's cost model
/// and is a function of the byte size alone; it is left uninterpreted and
/// tied to that model's routine below.
pub uninterp spec fn min_balance_of(space: nat) -> u64;

/// Relies on `Rent::default().minimum_balance` of `anchor_lang`: the
/// default rent configuration is a fixed constant of the ledger's cost
/// model, so the storage-cost floor it returns depends on the byte size
/// alone.
#[verifier::external_body]
fn rent_floor(space: usize) -> (r: u64)
    requires
        space <= MAX_FUNDED_SPACE,
    ensures
        r == min_balance_of(space as nat),
{
    anchor_lang::prelude::Rent::default().minimum_balance(space)
}

/// The exact amount the execution account must be seeded with so that the
/// interaction record it later creates for a text of this length meets the
/// storage-cost floor.
pub fn required_interaction_funding(text_len: usize) -> (r: u64)
    requires
        INTERACTION_OVERHEAD + text_len <= MAX_FUNDED_SPACE,
    ensures
        r == min_balance_of(interaction_space(text_len as nat)),
{
    rent_floor(INTERACTION_OVERHEAD + text_len)
}

} // verus!
