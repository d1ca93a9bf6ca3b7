//! Wire format of the deferred call's argument payload.
//!
//! The payload a queued task replays is an 8-byte entry-point discriminator
//! followed by the arguments in a fixed order: a length-prefixed UTF-8
//! string, a 32-byte identity written verbatim, an 8-byte array written
//! verbatim, and an optional account list encoded as a single presence byte
//! (0 when absent, the only form this client produces).

use vstd::prelude::*;
use crate::identity::AccountId;

verus! {

/// A `u32` in little-endian byte order, as the length prefix of a string.
pub open spec fn u32_le(n: u32) -> Seq<u8> {
    seq![
        (n % 256) as u8,
        ((n / 256) % 256) as u8,
        ((n / 65536) % 256) as u8,
        ((n / 16777216) % 256) as u8,
    ]
}

/// The value read back from four little-endian bytes.
pub open spec fn u32_from_le(b: Seq<u8>) -> int
    recommends
        b.len() == 4,
{
    b[0] + 256 * b[1] + 65536 * b[2] + 16777216 * b[3]
}

/// A string is encoded as its 4-byte little-endian byte length, then its
/// bytes.
pub open spec fn encoded_string(b: Seq<u8>) -> Seq<u8> {
    u32_le(b.len() as u32) + b
}

/// An absent optional list is a single zero byte.
pub open spec fn encoded_absent_list() -> Seq<u8> {
    seq![0u8]
}

/// The full argument payload of the deferred call: discriminator, then the
/// text, the 32-byte program identity, the 8-byte callback discriminator,
/// and the absent-accounts marker, in that order.
pub open spec fn callback_payload(
    discriminator: Seq<u8>,
    text: Seq<u8>,
    program_id: Seq<u8>,
    callback_discriminator: Seq<u8>,
) -> Seq<u8> {
    discriminator + encoded_string(text) + program_id + callback_discriminator
        + encoded_absent_list()
}

/// Reading four little-endian bytes undoes writing them.
pub proof fn lemma_u32_le_round_trip(n: u32)
    ensures
        u32_from_le(u32_le(n)) == n,
{
    let a = n as int;
    vstd::arithmetic::div_mod::lemma_fundamental_div_mod(a, 256);
    vstd::arithmetic::div_mod::lemma_fundamental_div_mod(a / 256, 256);
    vstd::arithmetic::div_mod::lemma_fundamental_div_mod(a / 65536, 256);
    vstd::arithmetic::div_mod::lemma_div_denominator(a, 256, 256);
    vstd::arithmetic::div_mod::lemma_div_denominator(a, 65536, 256);
    assert(a / 16777216 <= 4294967295int / 16777216) by {
        vstd::arithmetic::div_mod::lemma_div_is_ordered(a, 4294967295int, 16777216);
    };
    vstd::arithmetic::div_mod::lemma_small_mod((a / 16777216) as nat, 256);
}

/// Appends `b` verbatim.
pub fn append_bytes(out: &mut Vec<u8>, b: &Vec<u8>)
    ensures
        final(out)@ == old(out)@ + b@,
{
    let n = b.len();
    let mut i: usize = 0;
    while i < n
        invariant
            0 <= i <= n,
            n == b@.len(),
            out@ == old(out)@ + b@.subrange(0, i as int),
        decreases n - i,
    {
        out.push(b[i]);
        proof {
            assert(out@ =~= old(out)@ + b@.subrange(0, i + 1));
        }
        i += 1;
    }
    proof {
        assert(out@ =~= old(out)@ + b@);
    }
}

/// Appends `n` in little-endian byte order.
pub fn append_u32_le(out: &mut Vec<u8>, n: u32)
    ensures
        final(out)@ == old(out)@ + u32_le(n),
{
    out.push((n % 256) as u8);
    out.push(((n / 256) % 256) as u8);
    out.push(((n / 65536) % 256) as u8);
    out.push(((n / 16777216) % 256) as u8);
    proof {
        assert(out@ =~= old(out)@ + u32_le(n));
    }
}

/// Appends the length-prefixed encoding of a string's bytes.
pub fn append_string(out: &mut Vec<u8>, b: &Vec<u8>)
    requires
        b@.len() <= u32::MAX,
    ensures
        final(out)@ == old(out)@ + encoded_string(b@),
{
    let ghost out0 = out@;
    append_u32_le(out, b.len() as u32);
    append_bytes(out, b);
    proof {
        assert(out@ =~= out0 + encoded_string(b@));
    }
}

/// Appends the marker of an absent optional list.
pub fn append_absent_list(out: &mut Vec<u8>)
    ensures
        final(out)@ == old(out)@ + encoded_absent_list(),
{
    out.push(0u8);
    proof {
        assert(out@ =~= old(out)@ + encoded_absent_list());
    }
}

/// Builds the deferred call's argument payload, byte-exact.
pub fn build_callback_payload(
    discriminator: &Vec<u8>,
    text: &Vec<u8>,
    program_id: &AccountId,
    callback_discriminator: &Vec<u8>,
) -> (r: Vec<u8>)
    requires
        text@.len() <= u32::MAX,
    ensures
        r@ == callback_payload(discriminator@, text@, program_id@, callback_discriminator@),
{
    let mut out: Vec<u8> = Vec::new();
    append_bytes(&mut out, discriminator);
    append_string(&mut out, text);
    append_bytes(&mut out, &program_id.bytes);
    append_bytes(&mut out, callback_discriminator);
    append_absent_list(&mut out);
    proof {
        assert(out@ =~= callback_payload(
            discriminator@,
            text@,
            program_id@,
            callback_discriminator@,
        ));
    }
    out
}

/// What the downstream target reads back out of a payload: the
/// discriminator, the text, the 32-byte identity and the 8-byte callback
/// discriminator, with the optional account list absent.
pub open spec fn parse_payload(d: Seq<u8>) -> Option<(Seq<u8>, Seq<u8>, Seq<u8>, Seq<u8>)> {
    if d.len() < 12 {
        None
    } else {
        let len = u32_from_le(d.subrange(8, 12));
        if d.len() != 12 + len + 32 + 8 + 1 {
            None
        } else if d[d.len() - 1] != 0 {
            None
        } else {
            Some((
                d.subrange(0, 8),
                d.subrange(12, 12 + len),
                d.subrange(12 + len, 12 + len + 32),
                d.subrange(12 + len + 32, 12 + len + 40),
            ))
        }
    }
}

/// Parsing a payload by the downstream target's layout reproduces exactly
/// the tuple that was encoded.
pub proof fn lemma_payload_round_trip(
    discriminator: Seq<u8>,
    text: Seq<u8>,
    program_id: Seq<u8>,
    callback_discriminator: Seq<u8>,
)
    requires
        discriminator.len() == 8,
        text.len() <= u32::MAX,
        program_id.len() == 32,
        callback_discriminator.len() == 8,
    ensures
        parse_payload(callback_payload(discriminator, text, program_id, callback_discriminator))
            == Some((discriminator, text, program_id, callback_discriminator)),
{
    let d = callback_payload(discriminator, text, program_id, callback_discriminator);
    lemma_u32_le_round_trip(text.len() as u32);
    assert(d.subrange(8, 12) =~= u32_le(text.len() as u32));
    let len = u32_from_le(d.subrange(8, 12));
    assert(len == text.len());
    assert(d.len() == 12 + len + 32 + 8 + 1);
    assert(d[d.len() - 1] == 0);
    assert(d.subrange(0, 8) =~= discriminator);
    assert(d.subrange(12, 12 + len) =~= text);
    assert(d.subrange(12 + len, 12 + len + 32) =~= program_id);
    assert(d.subrange(12 + len + 32, 12 + len + 40) =~= callback_discriminator);
}

/// A payload's first 8 bytes are the discriminator it was built with.
pub proof fn lemma_payload_starts_with_discriminator(
    discriminator: Seq<u8>,
    text: Seq<u8>,
    program_id: Seq<u8>,
    callback_discriminator: Seq<u8>,
)
    requires
        discriminator.len() == 8,
        text.len() <= u32::MAX,
    ensures
        callback_payload(discriminator, text, program_id, callback_discriminator).take(8)
            == discriminator,
{
    assert(callback_payload(discriminator, text, program_id, callback_discriminator).take(8)
        =~= discriminator);
}

/// The arguments decoded out of a payload, as owned values.
pub struct DecodedCall {
    /// The 8-byte entry-point discriminator the payload begins with.
    pub discriminator: Vec<u8>,
    /// The length-prefixed text.
    pub text: Vec<u8>,
    /// The 32-byte identity written after the text.
    pub program_id: Vec<u8>,
    /// The 8-byte array written after the identity.
    pub callback_discriminator: Vec<u8>,
}

/// Copies `data[start .. start + len]` out into an owned vector.
pub(crate) fn copy_range(data: &Vec<u8>, start: usize, len: usize) -> (r: Vec<u8>)
    requires
        start + len <= data@.len(),
    ensures
        r@ == data@.subrange(start as int, start as int + len as int),
{
    let mut out: Vec<u8> = Vec::new();
    let dlen = data.len();
    let mut i: usize = 0;
    while i < len
        invariant
            0 <= i <= len,
            start + len <= dlen,
            dlen == data@.len(),
            out@ == data@.subrange(start as int, start as int + i as int),
        decreases len - i,
    {
        out.push(data[start + i]);
        proof {
            assert(out@ =~= data@.subrange(start as int, start as int + i as int + 1));
        }
        i += 1;
    }
    out
}

/// Decodes a payload by the downstream target's expected layout. Returns
/// `None` exactly where the layout does not fit (too short, wrong total
/// length, or an account list that is not absent).
pub fn decode_callback_payload(data: &Vec<u8>) -> (r: Option<DecodedCall>)
    ensures
        match r {
            Some(c) => parse_payload(data@) == Some(
                (c.discriminator@, c.text@, c.program_id@, c.callback_discriminator@),
            ),
            None => parse_payload(data@) is None,
        },
{
    if data.len() < 12 {
        return None;
    }
    let b0 = data[8] as u64;
    let b1 = data[9] as u64;
    let b2 = data[10] as u64;
    let b3 = data[11] as u64;
    let len: u64 = b0 + 256 * b1 + 65536 * b2 + 16777216 * b3;
    proof {
        assert(data@.subrange(8, 12) =~= seq![data@[8], data@[9], data@[10], data@[11]]);
        assert(len == u32_from_le(data@.subrange(8, 12)));
    }
    if data.len() as u64 != 12 + len + 32 + 8 + 1 {
        return None;
    }
    if data[data.len() - 1] != 0 {
        return None;
    }
    let len_usize = len as usize;
    let discriminator = copy_range(data, 0, 8);
    let text = copy_range(data, 12, len_usize);
    let program_id = copy_range(data, 12 + len_usize, 32);
    let callback_discriminator = copy_range(data, 12 + len_usize + 32, 8);
    Some(DecodedCall { discriminator, text, program_id, callback_discriminator })
}

} // verus!
