//! The data model for a caller-supplied reference to an external resource.
//!
//! A handle is constructed by the outer runtime for the duration of one
//! instruction invocation.  Nothing about it can be trusted until the
//! capability assertions have passed: its declared owner, its payload bytes,
//! its signer flag and its executable flag are all caller-supplied claims.

use vstd::prelude::*;

use crate::codec::le_bytes_to_u64;
use crate::codec::push_u64_le;
use crate::codec::read_u64_le;
use crate::codec::u64_le_bytes;
use crate::codec::write_u64_le_at;

verus! {

/// An opaque 256-bit resource identifier, held as four 64-bit words.
#[derive(Clone, Copy, Debug, PartialEq, Eq, Hash, Structural)]
pub struct Address {
    pub w0: u64,
    pub w1: u64,
    pub w2: u64,
    pub w3: u64,
}

/// The 32-byte little-endian image of an address.
pub open spec fn address_bytes(a: Address) -> Seq<u8> {
    u64_le_bytes(a.w0) + u64_le_bytes(a.w1) + u64_le_bytes(a.w2) + u64_le_bytes(a.w3)
}

/// The address encoded by 32 bytes.
pub open spec fn bytes_to_address(s: Seq<u8>) -> Address
    recommends
        s.len() == 32,
{
    Address {
        w0: le_bytes_to_u64(s.subrange(0, 8)),
        w1: le_bytes_to_u64(s.subrange(8, 16)),
        w2: le_bytes_to_u64(s.subrange(16, 24)),
        w3: le_bytes_to_u64(s.subrange(24, 32)),
    }
}

/// Reading back the byte image of an address restores the address.
pub proof fn lemma_address_round_trip(a: Address)
    ensures
        bytes_to_address(address_bytes(a)) == a,
{
    let s = address_bytes(a);
    assert(s.subrange(0, 8) =~= u64_le_bytes(a.w0));
    assert(s.subrange(8, 16) =~= u64_le_bytes(a.w1));
    assert(s.subrange(16, 24) =~= u64_le_bytes(a.w2));
    assert(s.subrange(24, 32) =~= u64_le_bytes(a.w3));
    crate::codec::lemma_u64_le_round_trip(a.w0);
    crate::codec::lemma_u64_le_round_trip(a.w1);
    crate::codec::lemma_u64_le_round_trip(a.w2);
    crate::codec::lemma_u64_le_round_trip(a.w3);
}

/// Appends the 32 little-endian bytes of `a`.
pub fn push_address(out: &mut Vec<u8>, a: &Address)
    ensures
        final(out)@ == old(out)@ + address_bytes(*a),
{
    push_u64_le(out, a.w0);
    push_u64_le(out, a.w1);
    push_u64_le(out, a.w2);
    push_u64_le(out, a.w3);
    proof {
        assert(final(out)@ =~= old(out)@ + address_bytes(*a));
    }
}

/// Reads the address stored at `buf[at .. at + 32]`.
pub fn read_address(buf: &Vec<u8>, at: usize) -> (a: Address)
    requires
        at + 32 <= buf.len(),
    ensures
        a == bytes_to_address(buf@.subrange(at as int, at as int + 32)),
{
    let a = Address {
        w0: read_u64_le(buf, at),
        w1: read_u64_le(buf, at + 8),
        w2: read_u64_le(buf, at + 16),
        w3: read_u64_le(buf, at + 24),
    };
    proof {
        let s = buf@.subrange(at as int, at as int + 32);
        assert(s.subrange(0, 8) =~= buf@.subrange(at as int, at as int + 8));
        assert(s.subrange(8, 16) =~= buf@.subrange(at as int + 8, at as int + 16));
        assert(s.subrange(16, 24) =~= buf@.subrange(at as int + 16, at as int + 24));
        assert(s.subrange(24, 32) =~= buf@.subrange(at as int + 24, at as int + 32));
    }
    a
}

/// Overwrites `buf[at .. at + 32]` with the bytes of `a`, leaving the rest
/// of the buffer as it was.
pub fn write_address_at(buf: &mut Vec<u8>, at: usize, a: &Address)
    requires
        at + 32 <= old(buf).len(),
    ensures
        final(buf)@ == old(buf)@.subrange(0, at as int)
            + address_bytes(*a)
            + old(buf)@.skip(at as int + 32),
{
    write_u64_le_at(buf, at, a.w0);
    write_u64_le_at(buf, at + 8, a.w1);
    write_u64_le_at(buf, at + 16, a.w2);
    write_u64_le_at(buf, at + 24, a.w3);
    proof {
        assert(final(buf)@ =~= old(buf)@.subrange(0, at as int)
            + address_bytes(*a)
            + old(buf)@.skip(at as int + 32));
    }
}

/// One caller-supplied reference, as delivered by the outer runtime.
pub struct ResourceHandle {
    /// The resource's unique identifier.
    pub address: Address,
    /// The authority or program claimed to control this resource's data
    /// layout and mutation rights.
    pub declared_owner: Address,
    /// Raw payload bytes; for resources created under this validation
    /// scheme, the first 8 bytes are a type tag.
    pub payload: Vec<u8>,
    /// True iff transaction-level authentication proves control of the
    /// private key associated with `address`.
    pub is_signer: bool,
    /// True iff this handle names an executable program rather than a data
    /// resource.
    pub is_executable: bool,
}

/// The mathematical image of a handle.
pub struct HandleView {
    pub address: Address,
    pub declared_owner: Address,
    pub payload: Seq<u8>,
    pub is_signer: bool,
    pub is_executable: bool,
}

impl View for ResourceHandle {
    type V = HandleView;

    open spec fn view(&self) -> HandleView {
        HandleView {
            address: self.address,
            declared_owner: self.declared_owner,
            payload: self.payload@,
            is_signer: self.is_signer,
            is_executable: self.is_executable,
        }
    }
}

/// The views of a whole handle list, for stating that an instruction left
/// every handle untouched.
pub open spec fn views_of(hs: Seq<ResourceHandle>) -> Seq<HandleView> {
    hs.map_values(|h: ResourceHandle| h@)
}

} // verus!
