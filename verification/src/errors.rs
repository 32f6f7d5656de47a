use vstd::prelude::*;

verus! {

/// The exhaustive set of failure kinds surfaced by the validation layer.
///
/// Every assertion or decoder failure is converted into a transaction-wide
/// abort carrying exactly one of these kinds; none is locally recovered.
#[derive(Clone, Copy, Debug, PartialEq, Eq, Structural)]
pub enum ValidationError {
    /// The handle presented as an authenticated principal did not sign, or is
    /// not the principal whose consent the operation demands.
    NotSigner,
    /// The handle's declared owner is not the authority the operation expects.
    OwnerMismatch,
    /// The payload does not open with the expected 8-byte type tag.
    TypeMismatch,
    /// The handle offered as a sub-invocation target is not the expected
    /// executable program.
    UntrustedProgram,
    /// The payload (or the instruction data) is too short or ill-formed
    /// beyond the type tag.
    MalformedPayload,
    /// The payload slice is shorter than an encoded record requires.
    BufferTooSmall,
    /// A checked arithmetic step would have overflowed its width.
    ArithmeticOverflow,
    /// A dispatched sub-invocation reported failure.
    SubInvocationFailed,
}

} // verus!
