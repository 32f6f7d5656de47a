use refgate::errors::ValidationError;
use refgate::handle::Address;
use refgate::handle::ResourceHandle;
use refgate::records::decode_counter;
use refgate::records::decode_game_data;
use refgate::records::decode_log_account;
use refgate::records::decode_user;
use refgate::records::decode_vault;
use refgate::records::encode_counter;
use refgate::records::encode_game_data;
use refgate::records::encode_log_account;
use refgate::records::encode_user;
use refgate::records::encode_vault;
use refgate::records::Counter;
use refgate::records::GameData;
use refgate::records::LogAccount;
use refgate::records::User;
use refgate::records::Vault;

fn ra(x: u64) -> Address {
    Address { w0: x, w1: x, w2: 0, w3: 1 }
}

fn blank_account(owner: Address, size: usize) -> ResourceHandle {
    ResourceHandle {
        address: ra(500),
        declared_owner: owner,
        payload: vec![0u8; size],
        is_signer: false,
        is_executable: false,
    }
}

#[test]
fn user_encode_decode_round_trip() {
    let owner = ra(1);
    let record = User { authority: ra(9), balance: 12345 };
    let mut h = blank_account(owner, 48);
    assert_eq!(encode_user(&mut h, owner, &record), Ok(()));
    assert_eq!(decode_user(&h, owner), Ok(record));
}

#[test]
fn counter_encode_decode_round_trip() {
    let owner = ra(1);
    let record = Counter { count: u64::MAX };
    let mut h = blank_account(owner, 16);
    assert_eq!(encode_counter(&mut h, owner, &record), Ok(()));
    assert_eq!(decode_counter(&h, owner), Ok(record));
}

#[test]
fn game_data_encode_decode_round_trip() {
    let owner = ra(1);
    let record = GameData { score: 77, authority: ra(3) };
    let mut h = blank_account(owner, 48);
    assert_eq!(encode_game_data(&mut h, owner, &record), Ok(()));
    assert_eq!(decode_game_data(&h, owner), Ok(record));
}

#[test]
fn log_account_encode_decode_round_trip() {
    let owner = ra(1);
    let record = LogAccount { data: 0xDEAD };
    let mut h = blank_account(owner, 16);
    assert_eq!(encode_log_account(&mut h, owner, &record), Ok(()));
    assert_eq!(decode_log_account(&h, owner), Ok(record));
}

#[test]
fn vault_encode_decode_round_trip() {
    let owner = ra(1);
    let record = Vault { admin: ra(4), locked_amount: 999 };
    let mut h = blank_account(owner, 48);
    assert_eq!(encode_vault(&mut h, owner, &record), Ok(()));
    assert_eq!(decode_vault(&h, owner), Ok(record));
}

#[test]
fn encode_leaves_tail_bytes_as_they_were() {
    let owner = ra(1);
    let mut h = blank_account(owner, 20);
    h.payload[16] = 0xAA;
    h.payload[19] = 0xBB;
    assert_eq!(encode_counter(&mut h, owner, &Counter { count: 5 }), Ok(()));
    assert_eq!(h.payload.len(), 20);
    assert_eq!(h.payload[16], 0xAA);
    assert_eq!(h.payload[19], 0xBB);
}

#[test]
fn decode_rejects_foreign_owner_even_when_bytes_parse() {
    let owner = ra(1);
    let foreign = ra(2);
    let record = User { authority: ra(9), balance: 1 };
    let mut h = blank_account(owner, 48);
    assert_eq!(encode_user(&mut h, owner, &record), Ok(()));
    // Re-present the same, perfectly well-formed bytes under another owner.
    h.declared_owner = foreign;
    assert_eq!(decode_user(&h, owner), Err(ValidationError::OwnerMismatch));
}

#[test]
fn decode_vault_bytes_as_user_is_type_mismatch() {
    let owner = ra(1);
    let vault = Vault { admin: ra(9), locked_amount: 5000 };
    let mut h = blank_account(owner, 48);
    assert_eq!(encode_vault(&mut h, owner, &vault), Ok(()));
    // Same owner, same field widths: only the tag tells the types apart.
    assert_eq!(decode_user(&h, owner), Err(ValidationError::TypeMismatch));
    assert_eq!(decode_vault(&h, owner), Ok(vault));
}

#[test]
fn decode_short_payload_past_tag_is_malformed() {
    let owner = ra(1);
    let mut p: Vec<u8> = Vec::new();
    refgate::codec::push_u64_le(&mut p, refgate::records::USER_TAG);
    p.extend([1u8, 2, 3]);
    let mut h = blank_account(owner, 0);
    h.payload = p;
    assert_eq!(decode_user(&h, owner), Err(ValidationError::MalformedPayload));
}

#[test]
fn decode_payload_without_full_tag_is_type_mismatch() {
    let owner = ra(1);
    let mut h = blank_account(owner, 0);
    h.payload = vec![1, 2, 3];
    assert_eq!(decode_user(&h, owner), Err(ValidationError::TypeMismatch));
}

#[test]
fn encode_into_short_buffer_is_buffer_too_small() {
    let owner = ra(1);
    let before = vec![7u8; 10];
    let mut h = blank_account(owner, 0);
    h.payload = before.clone();
    let record = User { authority: ra(9), balance: 1 };
    assert_eq!(encode_user(&mut h, owner, &record), Err(ValidationError::BufferTooSmall));
    assert_eq!(h.payload, before);
}

#[test]
fn encode_for_foreign_owner_is_owner_mismatch() {
    let owner = ra(1);
    let mut h = blank_account(ra(2), 48);
    let record = Counter { count: 3 };
    assert_eq!(encode_counter(&mut h, owner, &record), Err(ValidationError::OwnerMismatch));
    assert_eq!(h.payload, vec![0u8; 48]);
}
