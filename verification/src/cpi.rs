//! The cross-program invocation gate.
//!
//! A sub-invocation is only ever built for the specific expected target of
//! its call site: the program-identity assertion runs first, every time,
//! with no caching across calls, and the invocation is never constructed
//! when it fails.  The outer runtime performs the actual control transfer
//! and reports success or failure; a reported failure aborts the enclosing
//! instruction, with no partial-success semantics.
//!
//! Forwarded handles are carried through unchanged — their signer and owner
//! flags are not re-derived — so a target invoked with one of the caller's
//! own handles may re-enter that handle's data; callers must not assume
//! isolation across the invocation boundary.

use vstd::prelude::*;

use crate::assertions::assert_program_identity;
use crate::assertions::program_identity_ok;
use crate::errors::ValidationError;
use crate::handle::Address;
use crate::handle::ResourceHandle;

verus! {

/// A fully-built sub-invocation, ready for the outer runtime to perform.
pub struct CpiCall {
    /// The verified target program address.
    pub target_address: Address,
    /// Addresses of the handles forwarded unchanged to the target.
    pub forwarded_handles: Vec<Address>,
    /// Serialized instruction data for the target.
    pub data: Vec<u8>,
}

/// Verifies the target's program identity and only then constructs the
/// sub-invocation.
///
/// When the handle is not the expected executable program, the verdict is
/// `UntrustedProgram` and no invocation value exists at all.
pub fn cpi_secure(
    program: &ResourceHandle,
    expected_program_address: Address,
    forwarded_handles: Vec<Address>,
    data: Vec<u8>,
) -> (r: Result<CpiCall, ValidationError>)
    ensures
        program_identity_ok(program@, expected_program_address) ==> (r matches Ok(c)
            && c.target_address == expected_program_address
            && c.forwarded_handles@ == forwarded_handles@
            && c.data@ == data@),
        !program_identity_ok(program@, expected_program_address) ==> (r matches Err(e)
            && e == ValidationError::UntrustedProgram),
{
    match assert_program_identity(program, expected_program_address) {
        Err(e) => {
            return Err(e);
        },
        Ok(()) => {},
    }
    Ok(CpiCall { target_address: expected_program_address, forwarded_handles, data })
}

/// Folds the outer runtime's report of a performed sub-invocation back into
/// the instruction: a target that aborted surfaces as `SubInvocationFailed`,
/// and the enclosing instruction must abort with it.
pub fn resolve_sub_invocation(succeeded: bool) -> (r: Result<(), ValidationError>)
    ensures
        succeeded ==> r == Ok::<(), ValidationError>(()),
        !succeeded ==> r == Err::<(), ValidationError>(ValidationError::SubInvocationFailed),
{
    if succeeded {
        Ok(())
    } else {
        Err(ValidationError::SubInvocationFailed)
    }
}

} // verus!
