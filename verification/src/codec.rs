//! Little-endian byte codec for the fixed field layouts of typed records.
//!
//! Every record payload is a sequence of 64-bit words written
//! least-significant byte first.  The spec functions here give the
//! mathematical byte image of a word and the word read back from eight
//! bytes; the executable functions are proved against them.

use vstd::prelude::*;

verus! {

/// The little-endian byte image of a 64-bit word.
pub open spec fn u64_le_bytes(x: u64) -> Seq<u8> {
    seq![
        (x & 0xff) as u8,
        ((x >> 8) & 0xff) as u8,
        ((x >> 16) & 0xff) as u8,
        ((x >> 24) & 0xff) as u8,
        ((x >> 32) & 0xff) as u8,
        ((x >> 40) & 0xff) as u8,
        ((x >> 48) & 0xff) as u8,
        ((x >> 56) & 0xff) as u8,
    ]
}

/// The 64-bit word encoded by eight little-endian bytes.
pub open spec fn le_bytes_to_u64(s: Seq<u8>) -> u64
    recommends
        s.len() == 8,
{
    (s[0] as u64)
    | ((s[1] as u64) << 8)
    | ((s[2] as u64) << 16)
    | ((s[3] as u64) << 24)
    | ((s[4] as u64) << 32)
    | ((s[5] as u64) << 40)
    | ((s[6] as u64) << 48)
    | ((s[7] as u64) << 56)
}

/// Reading back the byte image of a word restores the word.
pub proof fn lemma_u64_le_round_trip(x: u64)
    ensures
        le_bytes_to_u64(u64_le_bytes(x)) == x,
{
    assert(((((x & 0xff) as u8) as u64))
        | (((((x >> 8) & 0xff) as u8) as u64) << 8)
        | (((((x >> 16) & 0xff) as u8) as u64) << 16)
        | (((((x >> 24) & 0xff) as u8) as u64) << 24)
        | (((((x >> 32) & 0xff) as u8) as u64) << 32)
        | (((((x >> 40) & 0xff) as u8) as u64) << 40)
        | (((((x >> 48) & 0xff) as u8) as u64) << 48)
        | (((((x >> 56) & 0xff) as u8) as u64) << 56) == x) by (bit_vector);
}

/// Appends the eight little-endian bytes of `x`.
pub fn push_u64_le(out: &mut Vec<u8>, x: u64)
    ensures
        final(out)@ == old(out)@ + u64_le_bytes(x),
{
    out.push(#[verifier::truncate] (x as u8));
    out.push(#[verifier::truncate] ((x >> 8) as u8));
    out.push(#[verifier::truncate] ((x >> 16) as u8));
    out.push(#[verifier::truncate] ((x >> 24) as u8));
    out.push(#[verifier::truncate] ((x >> 32) as u8));
    out.push(#[verifier::truncate] ((x >> 40) as u8));
    out.push(#[verifier::truncate] ((x >> 48) as u8));
    out.push(#[verifier::truncate] ((x >> 56) as u8));
    proof {
        assert(forall|y: u64| #[trigger] (y as u8) == (y & 0xff) as u8) by (bit_vector);
        assert(final(out)@ =~= old(out)@ + u64_le_bytes(x));
    }
}

/// Reads the 64-bit word stored little-endian at `buf[at .. at + 8]`.
pub fn read_u64_le(buf: &Vec<u8>, at: usize) -> (x: u64)
    requires
        at + 8 <= buf.len(),
    ensures
        x == le_bytes_to_u64(buf@.subrange(at as int, at as int + 8)),
{
    let x = (buf[at] as u64)
        | ((buf[at + 1] as u64) << 8)
        | ((buf[at + 2] as u64) << 16)
        | ((buf[at + 3] as u64) << 24)
        | ((buf[at + 4] as u64) << 32)
        | ((buf[at + 5] as u64) << 40)
        | ((buf[at + 6] as u64) << 48)
        | ((buf[at + 7] as u64) << 56);
    proof {
        let s = buf@.subrange(at as int, at as int + 8);
        assert(s[0] == buf@[at as int]);
        assert(s[1] == buf@[at as int + 1]);
        assert(s[2] == buf@[at as int + 2]);
        assert(s[3] == buf@[at as int + 3]);
        assert(s[4] == buf@[at as int + 4]);
        assert(s[5] == buf@[at as int + 5]);
        assert(s[6] == buf@[at as int + 6]);
        assert(s[7] == buf@[at as int + 7]);
    }
    x
}

/// Overwrites `buf[at .. at + 8]` with the little-endian bytes of `x`,
/// leaving the rest of the buffer as it was.
pub fn write_u64_le_at(buf: &mut Vec<u8>, at: usize, x: u64)
    requires
        at + 8 <= old(buf).len(),
    ensures
        final(buf)@ == old(buf)@.subrange(0, at as int)
            + u64_le_bytes(x)
            + old(buf)@.skip(at as int + 8),
{
    buf[at] = #[verifier::truncate] (x as u8);
    buf[at + 1] = #[verifier::truncate] ((x >> 8) as u8);
    buf[at + 2] = #[verifier::truncate] ((x >> 16) as u8);
    buf[at + 3] = #[verifier::truncate] ((x >> 24) as u8);
    buf[at + 4] = #[verifier::truncate] ((x >> 32) as u8);
    buf[at + 5] = #[verifier::truncate] ((x >> 40) as u8);
    buf[at + 6] = #[verifier::truncate] ((x >> 48) as u8);
    buf[at + 7] = #[verifier::truncate] ((x >> 56) as u8);
    proof {
        assert(forall|y: u64| #[trigger] (y as u8) == (y & 0xff) as u8) by (bit_vector);
        assert(final(buf)@ =~= old(buf)@.subrange(0, at as int)
            + u64_le_bytes(x)
            + old(buf)@.skip(at as int + 8));
    }
}

} // verus!
