use refgate::assertions::assert_owner;
use refgate::assertions::assert_program_identity;
use refgate::assertions::assert_signer;
use refgate::assertions::assert_type_tag;
use refgate::errors::ValidationError;
use refgate::handle::Address;
use refgate::handle::ResourceHandle;
use refgate::records::COUNTER_TAG;

fn va(x: u64) -> Address {
    Address { w0: x, w1: 0, w2: 0, w3: 0 }
}

fn tagged_payload(tag: u64, rest: usize) -> Vec<u8> {
    let mut p: Vec<u8> = Vec::new();
    refgate::codec::push_u64_le(&mut p, tag);
    p.extend(std::iter::repeat(0u8).take(rest));
    p
}

fn plain_handle(owner: Address, payload: Vec<u8>) -> ResourceHandle {
    ResourceHandle {
        address: va(900),
        declared_owner: owner,
        payload,
        is_signer: false,
        is_executable: false,
    }
}

#[test]
fn signer_assertion_passes_on_signed_handle() {
    let mut h = plain_handle(va(1), Vec::new());
    h.is_signer = true;
    assert_eq!(assert_signer(&h), Ok(()));
}

#[test]
fn signer_assertion_fails_closed() {
    let h = plain_handle(va(1), Vec::new());
    assert_eq!(assert_signer(&h), Err(ValidationError::NotSigner));
}

#[test]
fn owner_assertion_passes_on_expected_owner() {
    let h = plain_handle(va(7), Vec::new());
    assert_eq!(assert_owner(&h, va(7)), Ok(()));
}

#[test]
fn owner_assertion_rejects_other_owner() {
    let h = plain_handle(va(7), Vec::new());
    assert_eq!(assert_owner(&h, va(8)), Err(ValidationError::OwnerMismatch));
}

#[test]
fn type_tag_assertion_passes_on_matching_tag() {
    let h = plain_handle(va(7), tagged_payload(COUNTER_TAG, 8));
    assert_eq!(assert_type_tag(&h, COUNTER_TAG), Ok(()));
}

#[test]
fn type_tag_assertion_rejects_other_tag() {
    let h = plain_handle(va(7), tagged_payload(COUNTER_TAG, 8));
    assert_eq!(
        assert_type_tag(&h, refgate::records::USER_TAG),
        Err(ValidationError::TypeMismatch)
    );
}

#[test]
fn type_tag_assertion_rejects_short_payload() {
    let h = plain_handle(va(7), vec![1, 2, 3]);
    assert_eq!(assert_type_tag(&h, COUNTER_TAG), Err(ValidationError::TypeMismatch));
}

#[test]
fn program_identity_needs_executable_flag() {
    let mut h = plain_handle(va(7), Vec::new());
    h.address = va(42);
    assert_eq!(
        assert_program_identity(&h, va(42)),
        Err(ValidationError::UntrustedProgram)
    );
    h.is_executable = true;
    assert_eq!(assert_program_identity(&h, va(42)), Ok(()));
}

#[test]
fn program_identity_rejects_other_address() {
    let mut h = plain_handle(va(7), Vec::new());
    h.address = va(42);
    h.is_executable = true;
    assert_eq!(
        assert_program_identity(&h, va(43)),
        Err(ValidationError::UntrustedProgram)
    );
}

#[test]
fn assertions_are_idempotent_on_unchanged_handle() {
    let mut h = plain_handle(va(7), tagged_payload(COUNTER_TAG, 8));
    h.is_signer = true;
    let first = (
        assert_signer(&h),
        assert_owner(&h, va(7)),
        assert_type_tag(&h, COUNTER_TAG),
        assert_program_identity(&h, va(42)),
    );
    let second = (
        assert_signer(&h),
        assert_owner(&h, va(7)),
        assert_type_tag(&h, COUNTER_TAG),
        assert_program_identity(&h, va(42)),
    );
    assert_eq!(first, second);
}
