//! Entry-point discriminators, derived from a one-way hash.
//!
//! A callee tells incoming calls apart by the first 8 bytes of their
//! payload: the SHA-256 digest of `"global:" + <entry point name>`,
//! truncated to 8 bytes. The digest itself is computed by the ledger
//! runtime's hash routine; only its truncation and placement are this
//! crate's own logic.

use vstd::prelude::*;
use vstd::string::StrSliceExecFns;
use vstd::string::StringSliceAdditionalSpecFns;
use crate::codec::copy_range;

verus! {

/// The SHA-256 digest of a byte sequence. The digest depends on the input
/// bytes alone; nothing short of the full algorithm states more, so it is
/// left uninterpreted and tied to the runtime's routine below.
pub uninterp spec fn sha256_of(data: Seq<u8>) -> Seq<u8>;

/// Relies on `anchor_lang::solana_program::hash::hash`: a SHA-256 digest of
/// the input, 32 bytes, a function of the input bytes alone.
#[verifier::external_body]
fn sha256(data: &Vec<u8>) -> (r: Vec<u8>)
    ensures
        r@ == sha256_of(data@),
        r@.len() == 32,
{
    anchor_lang::solana_program::hash::hash(data.as_slice()).to_bytes().to_vec()
}

/// The bytes hashed ahead of every entry-point name.
pub open spec fn global_prefix() -> Seq<u8> {
    ("global:").spec_bytes()
}

/// An entry point's 8-byte discriminator: the digest of
/// `"global:" + name`, truncated to its first 8 bytes.
pub open spec fn discriminator_of(name: Seq<u8>) -> Seq<u8> {
    sha256_of(global_prefix() + name).take(8)
}

/// Computes an entry point's discriminator from its textual name.
pub fn entry_discriminator(name: &str) -> (r: Vec<u8>)
    ensures
        r@ == discriminator_of(name.spec_bytes()),
        r@.len() == 8,
{
    let mut preimage: Vec<u8> = ("global:").as_bytes_vec();
    let name_bytes: Vec<u8> = name.as_bytes_vec();
    crate::codec::append_bytes(&mut preimage, &name_bytes);
    let digest = sha256(&preimage);
    let r = copy_range(&digest, 0, 8);
    proof {
        assert(r@ =~= discriminator_of(name.spec_bytes()));
    }
    r
}

} // verus!
