//! The capability assertions: independent, composable pass/fail judgments
//! over a handle.
//!
//! Each assertion is a pure function of the handle (and, where relevant, a
//! caller-declared expectation); none mutates state.  They compose by
//! conjunction, never by substitution: a valid signer is not a substitute
//! for ownership, and a correct owner is not a substitute for a correct
//! type tag.  Evaluation is fail-closed: absence of an explicit pass is
//! failure.
//!
//! The type-tag assertion interprets payload bytes, which is meaningless
//! until layout authority is established, so callers must evaluate the
//! owner assertion first; the decoder and the dispatch pipeline fix that
//! order.

use vstd::prelude::*;

use crate::codec::le_bytes_to_u64;
use crate::codec::read_u64_le;
use crate::errors::ValidationError;
use crate::handle::Address;
use crate::handle::HandleView;
use crate::handle::ResourceHandle;

verus! {

/// The handle proves control of the private key behind its address.
pub open spec fn signer_ok(h: HandleView) -> bool {
    h.is_signer
}

/// The handle's declared owner is the expected authority.
pub open spec fn owner_ok(h: HandleView, expected_owner: Address) -> bool {
    h.declared_owner == expected_owner
}

/// The payload opens with the expected 8-byte type tag.
pub open spec fn tag_ok(h: HandleView, expected_tag: u64) -> bool {
    h.payload.len() >= 8 && le_bytes_to_u64(h.payload.subrange(0, 8)) == expected_tag
}

/// The handle is the expected executable program.
pub open spec fn program_identity_ok(h: HandleView, expected_program_address: Address) -> bool {
    h.is_executable && h.address == expected_program_address
}

/// The signer assertion's verdict.
pub open spec fn check_signer(h: HandleView) -> Result<(), ValidationError> {
    if signer_ok(h) {
        Ok(())
    } else {
        Err(ValidationError::NotSigner)
    }
}

/// The owner assertion's verdict.
pub open spec fn check_owner(h: HandleView, expected_owner: Address) -> Result<
    (),
    ValidationError,
> {
    if owner_ok(h, expected_owner) {
        Ok(())
    } else {
        Err(ValidationError::OwnerMismatch)
    }
}

/// The type-tag assertion's verdict.
pub open spec fn check_type_tag(h: HandleView, expected_tag: u64) -> Result<
    (),
    ValidationError,
> {
    if tag_ok(h, expected_tag) {
        Ok(())
    } else {
        Err(ValidationError::TypeMismatch)
    }
}

/// The program-identity assertion's verdict.
pub open spec fn check_program_identity(h: HandleView, expected_program_address: Address) -> Result<
    (),
    ValidationError,
> {
    if program_identity_ok(h, expected_program_address) {
        Ok(())
    } else {
        Err(ValidationError::UntrustedProgram)
    }
}

/// Signer assertion: passes iff the handle signed the transaction.
///
/// Must run before any logic that treats the handle's address as an
/// authenticated principal.
pub fn assert_signer(h: &ResourceHandle) -> (r: Result<(), ValidationError>)
    ensures
        r == check_signer(h@),
{
    if h.is_signer {
        Ok(())
    } else {
        Err(ValidationError::NotSigner)
    }
}

/// Owner assertion: passes iff the handle's declared owner is the expected
/// authority.
///
/// Required before interpreting the payload as belonging to this program's
/// data model: a resource owned by another controller may hold bytes in no
/// defined format.
pub fn assert_owner(h: &ResourceHandle, expected_owner: Address) -> (r: Result<
    (),
    ValidationError,
>)
    ensures
        r == check_owner(h@, expected_owner),
{
    if h.declared_owner == expected_owner {
        Ok(())
    } else {
        Err(ValidationError::OwnerMismatch)
    }
}

/// Type-tag assertion: passes iff the first 8 bytes of the payload equal the
/// expected tag.
///
/// Callers must have evaluated the owner assertion first: a wrong-owner
/// resource is a distinct failure from a wrong-type one, and payload bytes
/// have no meaning until ownership is established.
pub fn assert_type_tag(h: &ResourceHandle, expected_tag: u64) -> (r: Result<
    (),
    ValidationError,
>)
    ensures
        r == check_type_tag(h@, expected_tag),
{
    if h.payload.len() >= 8 {
        let tag = read_u64_le(&h.payload, 0);
        if tag == expected_tag {
            return Ok(());
        }
    }
    Err(ValidationError::TypeMismatch)
}

/// Program-identity assertion: passes iff the handle is executable and its
/// address is the expected program address.
///
/// Required before any handle is used as a sub-invocation target: an
/// executable with an unexpected address must never be invoked.
pub fn assert_program_identity(h: &ResourceHandle, expected_program_address: Address) -> (r: Result<
    (),
    ValidationError,
>)
    ensures
        r == check_program_identity(h@, expected_program_address),
{
    if h.is_executable && h.address == expected_program_address {
        Ok(())
    } else {
        Err(ValidationError::UntrustedProgram)
    }
}

/// Law: the assertions are stateless.  Each verdict is a function of the
/// handle value (and the declared expectation) alone, so re-running any
/// assertion against an unchanged handle yields the same pass/fail result.
pub proof fn lemma_assertions_idempotent(
    a: HandleView,
    b: HandleView,
    expected_owner: Address,
    expected_tag: u64,
    expected_program_address: Address,
)
    requires
        a == b,
    ensures
        check_signer(a) == check_signer(b),
        check_owner(a, expected_owner) == check_owner(b, expected_owner),
        check_type_tag(a, expected_tag) == check_type_tag(b, expected_tag),
        check_program_identity(a, expected_program_address) == check_program_identity(
            b,
            expected_program_address,
        ),
{
}

} // verus!
