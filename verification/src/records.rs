//! Typed records and the typed view decoder.
//!
//! Every record written under this validation scheme is stored as an 8-byte
//! type tag followed by the record's fixed field layout.  A tag is a
//! compile-time-fixed value derived from the record type's name; no two
//! record types share one (a configuration invariant of the program, not a
//! runtime check).
//!
//! Decoding runs the validation gates in a fixed order — owner, then type
//! tag, then layout — and succeeds exactly when all three pass; any other
//! combination fails with the kind of the first failing gate, never with a
//! silently misinterpreted record.  Encoding writes the tag and the fields
//! back into the handle's payload slice, leaving bytes past the record as
//! they were.

use vstd::prelude::*;

use crate::assertions::assert_owner;
use crate::assertions::assert_type_tag;
use crate::assertions::owner_ok;
use crate::assertions::tag_ok;
use crate::codec::le_bytes_to_u64;
use crate::codec::lemma_u64_le_round_trip;
use crate::codec::read_u64_le;
use crate::codec::u64_le_bytes;
use crate::codec::write_u64_le_at;
use crate::errors::ValidationError;
use crate::handle::address_bytes;
use crate::handle::bytes_to_address;
use crate::handle::lemma_address_round_trip;
use crate::handle::read_address;
use crate::handle::write_address_at;
use crate::handle::Address;
use crate::handle::HandleView;
use crate::handle::ResourceHandle;

verus! {

/// Type tag of `GameData` ("GAMEDATA" in ASCII, read little-endian).
pub const GAME_DATA_TAG: u64 = 0x41544144454D4147;

/// Type tag of `LogAccount` ("LOGACCT_" in ASCII, read little-endian).
pub const LOG_ACCOUNT_TAG: u64 = 0x5F54434341474F4C;

/// Type tag of `Counter` ("COUNTER_" in ASCII, read little-endian).
pub const COUNTER_TAG: u64 = 0x5F5245544E554F43;

/// Type tag of `User` ("USERDATA" in ASCII, read little-endian).
pub const USER_TAG: u64 = 0x4154414452455355;

/// Type tag of `Vault` ("VAULTREC" in ASCII, read little-endian).
pub const VAULT_TAG: u64 = 0x434552544C554156;

/// Encoded size of `GameData`: tag, score, authority.
pub const GAME_DATA_SIZE: usize = 48;

/// Encoded size of `LogAccount`: tag, data.
pub const LOG_ACCOUNT_SIZE: usize = 16;

/// Encoded size of `Counter`: tag, count.
pub const COUNTER_SIZE: usize = 16;

/// Encoded size of `User`: tag, authority, balance.
pub const USER_SIZE: usize = 48;

/// Encoded size of `Vault`: tag, admin, locked amount.
pub const VAULT_SIZE: usize = 48;

/// Game state controlled by an authority.
#[derive(Clone, Copy, Debug, PartialEq, Eq, Structural)]
pub struct GameData {
    pub score: u64,
    pub authority: Address,
}

/// A single logged value.
#[derive(Clone, Copy, Debug, PartialEq, Eq, Structural)]
pub struct LogAccount {
    pub data: u64,
}

/// A monotonically adjusted counter.
#[derive(Clone, Copy, Debug, PartialEq, Eq, Structural)]
pub struct Counter {
    pub count: u64,
}

/// A user's balance, controlled by an authority.
#[derive(Clone, Copy, Debug, PartialEq, Eq, Structural)]
pub struct User {
    pub authority: Address,
    pub balance: u64,
}

/// A vault's locked amount, controlled by an admin.
///
/// Deliberately shares `User`'s field widths: only the type tag tells the
/// two encodings apart.
#[derive(Clone, Copy, Debug, PartialEq, Eq, Structural)]
pub struct Vault {
    pub admin: Address,
    pub locked_amount: u64,
}

/// The encoded payload of a `GameData` record.
pub open spec fn game_data_bytes(g: GameData) -> Seq<u8> {
    u64_le_bytes(GAME_DATA_TAG) + u64_le_bytes(g.score) + address_bytes(g.authority)
}

/// The encoded payload of a `LogAccount`.
pub open spec fn log_account_bytes(l: LogAccount) -> Seq<u8> {
    u64_le_bytes(LOG_ACCOUNT_TAG) + u64_le_bytes(l.data)
}

/// The encoded payload of a `Counter`.
pub open spec fn counter_bytes(c: Counter) -> Seq<u8> {
    u64_le_bytes(COUNTER_TAG) + u64_le_bytes(c.count)
}

/// The encoded payload of a `User`.
pub open spec fn user_bytes(u: User) -> Seq<u8> {
    u64_le_bytes(USER_TAG) + address_bytes(u.authority) + u64_le_bytes(u.balance)
}

/// The encoded payload of a `Vault`.
pub open spec fn vault_bytes(v: Vault) -> Seq<u8> {
    u64_le_bytes(VAULT_TAG) + address_bytes(v.admin) + u64_le_bytes(v.locked_amount)
}

/// The `GameData` record stored in a payload (tag stripped).
pub open spec fn decoded_game_data(s: Seq<u8>) -> GameData
    recommends
        s.len() >= GAME_DATA_SIZE,
{
    GameData {
        score: le_bytes_to_u64(s.subrange(8, 16)),
        authority: bytes_to_address(s.subrange(16, 48)),
    }
}

/// The `LogAccount` stored in a payload (tag stripped).
pub open spec fn decoded_log_account(s: Seq<u8>) -> LogAccount
    recommends
        s.len() >= LOG_ACCOUNT_SIZE,
{
    LogAccount { data: le_bytes_to_u64(s.subrange(8, 16)) }
}

/// The `Counter` stored in a payload (tag stripped).
pub open spec fn decoded_counter(s: Seq<u8>) -> Counter
    recommends
        s.len() >= COUNTER_SIZE,
{
    Counter { count: le_bytes_to_u64(s.subrange(8, 16)) }
}

/// The `User` stored in a payload (tag stripped).
pub open spec fn decoded_user(s: Seq<u8>) -> User
    recommends
        s.len() >= USER_SIZE,
{
    User {
        authority: bytes_to_address(s.subrange(8, 40)),
        balance: le_bytes_to_u64(s.subrange(40, 48)),
    }
}

/// The `Vault` stored in a payload (tag stripped).
pub open spec fn decoded_vault(s: Seq<u8>) -> Vault
    recommends
        s.len() >= VAULT_SIZE,
{
    Vault {
        admin: bytes_to_address(s.subrange(8, 40)),
        locked_amount: le_bytes_to_u64(s.subrange(40, 48)),
    }
}

/// Verdict of the typed-access gates, in the fixed order: owner, then type
/// tag, then layout.
pub open spec fn typed_access_spec(
    h: HandleView,
    expected_owner: Address,
    expected_tag: u64,
    size: int,
) -> Result<(), ValidationError> {
    if !owner_ok(h, expected_owner) {
        Err(ValidationError::OwnerMismatch)
    } else if !tag_ok(h, expected_tag) {
        Err(ValidationError::TypeMismatch)
    } else if h.payload.len() < size {
        Err(ValidationError::MalformedPayload)
    } else {
        Ok(())
    }
}

/// Runs the typed-access gates in the fixed order: owner, then type tag,
/// then layout.  Passing means the payload may be interpreted as a record
/// of `size` bytes tagged `expected_tag`.
pub fn assert_typed_access(
    h: &ResourceHandle,
    expected_owner: Address,
    expected_tag: u64,
    size: usize,
) -> (r: Result<(), ValidationError>)
    ensures
        r == typed_access_spec(h@, expected_owner, expected_tag, size as int),
{
    match assert_owner(h, expected_owner) {
        Err(e) => {
            return Err(e);
        },
        Ok(()) => {},
    }
    match assert_type_tag(h, expected_tag) {
        Err(e) => {
            return Err(e);
        },
        Ok(()) => {},
    }
    if h.payload.len() < size {
        return Err(ValidationError::MalformedPayload);
    }
    Ok(())
}

/// Verdict and result of decoding a `GameData` view from a handle.
pub open spec fn decode_game_data_spec(h: HandleView, expected_owner: Address) -> Result<
    GameData,
    ValidationError,
> {
    match typed_access_spec(h, expected_owner, GAME_DATA_TAG, GAME_DATA_SIZE as int) {
        Ok(()) => Ok(decoded_game_data(h.payload)),
        Err(e) => Err(e),
    }
}

/// Typed view decoder for `GameData`: succeeds iff the handle's declared
/// owner matches, the payload opens with the `GameData` tag, and the layout
/// is long enough; any other combination fails with the corresponding kind.
pub fn decode_game_data(h: &ResourceHandle, expected_owner: Address) -> (r: Result<
    GameData,
    ValidationError,
>)
    ensures
        r == decode_game_data_spec(h@, expected_owner),
{
    match assert_typed_access(h, expected_owner, GAME_DATA_TAG, GAME_DATA_SIZE) {
        Err(e) => {
            return Err(e);
        },
        Ok(()) => {},
    }
    let score = read_u64_le(&h.payload, 8);
    let authority = read_address(&h.payload, 16);
    Ok(GameData { score, authority })
}

/// Verdict and result of decoding a `LogAccount` view from a handle.
pub open spec fn decode_log_account_spec(h: HandleView, expected_owner: Address) -> Result<
    LogAccount,
    ValidationError,
> {
    match typed_access_spec(h, expected_owner, LOG_ACCOUNT_TAG, LOG_ACCOUNT_SIZE as int) {
        Ok(()) => Ok(decoded_log_account(h.payload)),
        Err(e) => Err(e),
    }
}

/// Typed view decoder for `LogAccount`; same gate order and failure kinds as
/// every decoder here.
pub fn decode_log_account(h: &ResourceHandle, expected_owner: Address) -> (r: Result<
    LogAccount,
    ValidationError,
>)
    ensures
        r == decode_log_account_spec(h@, expected_owner),
{
    match assert_typed_access(h, expected_owner, LOG_ACCOUNT_TAG, LOG_ACCOUNT_SIZE) {
        Err(e) => {
            return Err(e);
        },
        Ok(()) => {},
    }
    let data = read_u64_le(&h.payload, 8);
    Ok(LogAccount { data })
}

/// Verdict and result of decoding a `Counter` view from a handle.
pub open spec fn decode_counter_spec(h: HandleView, expected_owner: Address) -> Result<
    Counter,
    ValidationError,
> {
    match typed_access_spec(h, expected_owner, COUNTER_TAG, COUNTER_SIZE as int) {
        Ok(()) => Ok(decoded_counter(h.payload)),
        Err(e) => Err(e),
    }
}

/// Typed view decoder for `Counter`; same gate order and failure kinds as
/// every decoder here.
pub fn decode_counter(h: &ResourceHandle, expected_owner: Address) -> (r: Result<
    Counter,
    ValidationError,
>)
    ensures
        r == decode_counter_spec(h@, expected_owner),
{
    match assert_typed_access(h, expected_owner, COUNTER_TAG, COUNTER_SIZE) {
        Err(e) => {
            return Err(e);
        },
        Ok(()) => {},
    }
    let count = read_u64_le(&h.payload, 8);
    Ok(Counter { count })
}

/// Verdict and result of decoding a `User` view from a handle.
pub open spec fn decode_user_spec(h: HandleView, expected_owner: Address) -> Result<
    User,
    ValidationError,
> {
    match typed_access_spec(h, expected_owner, USER_TAG, USER_SIZE as int) {
        Ok(()) => Ok(decoded_user(h.payload)),
        Err(e) => Err(e),
    }
}

/// Typed view decoder for `User`; same gate order and failure kinds as
/// every decoder here.  A payload tagged for any other record type — even
/// one with identical field widths — fails with `TypeMismatch`.
pub fn decode_user(h: &ResourceHandle, expected_owner: Address) -> (r: Result<
    User,
    ValidationError,
>)
    ensures
        r == decode_user_spec(h@, expected_owner),
{
    match assert_typed_access(h, expected_owner, USER_TAG, USER_SIZE) {
        Err(e) => {
            return Err(e);
        },
        Ok(()) => {},
    }
    let authority = read_address(&h.payload, 8);
    let balance = read_u64_le(&h.payload, 40);
    Ok(User { authority, balance })
}

/// Verdict and result of decoding a `Vault` view from a handle.
pub open spec fn decode_vault_spec(h: HandleView, expected_owner: Address) -> Result<
    Vault,
    ValidationError,
> {
    match typed_access_spec(h, expected_owner, VAULT_TAG, VAULT_SIZE as int) {
        Ok(()) => Ok(decoded_vault(h.payload)),
        Err(e) => Err(e),
    }
}

/// Typed view decoder for `Vault`; same gate order and failure kinds as
/// every decoder here.
pub fn decode_vault(h: &ResourceHandle, expected_owner: Address) -> (r: Result<
    Vault,
    ValidationError,
>)
    ensures
        r == decode_vault_spec(h@, expected_owner),
{
    match assert_typed_access(h, expected_owner, VAULT_TAG, VAULT_SIZE) {
        Err(e) => {
            return Err(e);
        },
        Ok(()) => {},
    }
    let admin = read_address(&h.payload, 8);
    let locked_amount = read_u64_le(&h.payload, 40);
    Ok(Vault { admin, locked_amount })
}

/// Verdict of the encoding gates: owner, then buffer size.
pub open spec fn encode_gate_spec(h: HandleView, expected_owner: Address, size: int) -> Result<
    (),
    ValidationError,
> {
    if !owner_ok(h, expected_owner) {
        Err(ValidationError::OwnerMismatch)
    } else if h.payload.len() < size {
        Err(ValidationError::BufferTooSmall)
    } else {
        Ok(())
    }
}

/// New payload after encoding a `Counter` into a handle, or the failure.
pub open spec fn encode_counter_spec(h: HandleView, expected_owner: Address, c: Counter) -> Result<
    Seq<u8>,
    ValidationError,
> {
    match encode_gate_spec(h, expected_owner, COUNTER_SIZE as int) {
        Ok(()) => Ok(counter_bytes(c) + h.payload.skip(COUNTER_SIZE as int)),
        Err(e) => Err(e),
    }
}

/// Writes the `Counter` tag and fields into the handle's payload slice;
/// fails with `BufferTooSmall` if the slice is shorter than the record, and
/// on any failure leaves the handle untouched.
pub fn encode_counter(h: &mut ResourceHandle, expected_owner: Address, c: &Counter) -> (r: Result<
    (),
    ValidationError,
>)
    ensures
        match encode_counter_spec(old(h)@, expected_owner, *c) {
            Ok(p) => r == Ok::<(), ValidationError>(()) && final(h)@ == (HandleView {
                payload: p,
                ..old(h)@
            }),
            Err(e) => r == Err::<(), ValidationError>(e) && final(h)@ == old(h)@,
        },
{
    match assert_owner(h, expected_owner) {
        Err(e) => {
            return Err(e);
        },
        Ok(()) => {},
    }
    if h.payload.len() < COUNTER_SIZE {
        return Err(ValidationError::BufferTooSmall);
    }
    write_u64_le_at(&mut h.payload, 0, COUNTER_TAG);
    write_u64_le_at(&mut h.payload, 8, c.count);
    proof {
        assert(h.payload@ =~= counter_bytes(*c) + old(h).payload@.skip(COUNTER_SIZE as int));
    }
    Ok(())
}

/// New payload after encoding a `LogAccount` into a handle, or the failure.
pub open spec fn encode_log_account_spec(
    h: HandleView,
    expected_owner: Address,
    l: LogAccount,
) -> Result<Seq<u8>, ValidationError> {
    match encode_gate_spec(h, expected_owner, LOG_ACCOUNT_SIZE as int) {
        Ok(()) => Ok(log_account_bytes(l) + h.payload.skip(LOG_ACCOUNT_SIZE as int)),
        Err(e) => Err(e),
    }
}

/// Writes the `LogAccount` tag and fields into the handle's payload slice;
/// same gates and failure kinds as every encoder here.
pub fn encode_log_account(
    h: &mut ResourceHandle,
    expected_owner: Address,
    l: &LogAccount,
) -> (r: Result<(), ValidationError>)
    ensures
        match encode_log_account_spec(old(h)@, expected_owner, *l) {
            Ok(p) => r == Ok::<(), ValidationError>(()) && final(h)@ == (HandleView {
                payload: p,
                ..old(h)@
            }),
            Err(e) => r == Err::<(), ValidationError>(e) && final(h)@ == old(h)@,
        },
{
    match assert_owner(h, expected_owner) {
        Err(e) => {
            return Err(e);
        },
        Ok(()) => {},
    }
    if h.payload.len() < LOG_ACCOUNT_SIZE {
        return Err(ValidationError::BufferTooSmall);
    }
    write_u64_le_at(&mut h.payload, 0, LOG_ACCOUNT_TAG);
    write_u64_le_at(&mut h.payload, 8, l.data);
    proof {
        assert(h.payload@ =~= log_account_bytes(*l) + old(h).payload@.skip(
            LOG_ACCOUNT_SIZE as int,
        ));
    }
    Ok(())
}

/// New payload after encoding a `GameData` record into a handle, or the
/// failure.
pub open spec fn encode_game_data_spec(
    h: HandleView,
    expected_owner: Address,
    g: GameData,
) -> Result<Seq<u8>, ValidationError> {
    match encode_gate_spec(h, expected_owner, GAME_DATA_SIZE as int) {
        Ok(()) => Ok(game_data_bytes(g) + h.payload.skip(GAME_DATA_SIZE as int)),
        Err(e) => Err(e),
    }
}

/// Writes the `GameData` tag and fields into the handle's payload slice;
/// same gates and failure kinds as every encoder here.
pub fn encode_game_data(
    h: &mut ResourceHandle,
    expected_owner: Address,
    g: &GameData,
) -> (r: Result<(), ValidationError>)
    ensures
        match encode_game_data_spec(old(h)@, expected_owner, *g) {
            Ok(p) => r == Ok::<(), ValidationError>(()) && final(h)@ == (HandleView {
                payload: p,
                ..old(h)@
            }),
            Err(e) => r == Err::<(), ValidationError>(e) && final(h)@ == old(h)@,
        },
{
    match assert_owner(h, expected_owner) {
        Err(e) => {
            return Err(e);
        },
        Ok(()) => {},
    }
    if h.payload.len() < GAME_DATA_SIZE {
        return Err(ValidationError::BufferTooSmall);
    }
    write_u64_le_at(&mut h.payload, 0, GAME_DATA_TAG);
    write_u64_le_at(&mut h.payload, 8, g.score);
    write_address_at(&mut h.payload, 16, &g.authority);
    proof {
        assert(h.payload@ =~= game_data_bytes(*g) + old(h).payload@.skip(GAME_DATA_SIZE as int));
    }
    Ok(())
}

/// New payload after encoding a `User` record into a handle, or the failure.
pub open spec fn encode_user_spec(h: HandleView, expected_owner: Address, u: User) -> Result<
    Seq<u8>,
    ValidationError,
> {
    match encode_gate_spec(h, expected_owner, USER_SIZE as int) {
        Ok(()) => Ok(user_bytes(u) + h.payload.skip(USER_SIZE as int)),
        Err(e) => Err(e),
    }
}

/// Writes the `User` tag and fields into the handle's payload slice; same
/// gates and failure kinds as every encoder here.
pub fn encode_user(h: &mut ResourceHandle, expected_owner: Address, u: &User) -> (r: Result<
    (),
    ValidationError,
>)
    ensures
        match encode_user_spec(old(h)@, expected_owner, *u) {
            Ok(p) => r == Ok::<(), ValidationError>(()) && final(h)@ == (HandleView {
                payload: p,
                ..old(h)@
            }),
            Err(e) => r == Err::<(), ValidationError>(e) && final(h)@ == old(h)@,
        },
{
    match assert_owner(h, expected_owner) {
        Err(e) => {
            return Err(e);
        },
        Ok(()) => {},
    }
    if h.payload.len() < USER_SIZE {
        return Err(ValidationError::BufferTooSmall);
    }
    write_u64_le_at(&mut h.payload, 0, USER_TAG);
    write_address_at(&mut h.payload, 8, &u.authority);
    write_u64_le_at(&mut h.payload, 40, u.balance);
    proof {
        assert(h.payload@ =~= user_bytes(*u) + old(h).payload@.skip(USER_SIZE as int));
    }
    Ok(())
}

/// New payload after encoding a `Vault` record into a handle, or the
/// failure.
pub open spec fn encode_vault_spec(h: HandleView, expected_owner: Address, v: Vault) -> Result<
    Seq<u8>,
    ValidationError,
> {
    match encode_gate_spec(h, expected_owner, VAULT_SIZE as int) {
        Ok(()) => Ok(vault_bytes(v) + h.payload.skip(VAULT_SIZE as int)),
        Err(e) => Err(e),
    }
}

/// Writes the `Vault` tag and fields into the handle's payload slice; same
/// gates and failure kinds as every encoder here.
pub fn encode_vault(h: &mut ResourceHandle, expected_owner: Address, v: &Vault) -> (r: Result<
    (),
    ValidationError,
>)
    ensures
        match encode_vault_spec(old(h)@, expected_owner, *v) {
            Ok(p) => r == Ok::<(), ValidationError>(()) && final(h)@ == (HandleView {
                payload: p,
                ..old(h)@
            }),
            Err(e) => r == Err::<(), ValidationError>(e) && final(h)@ == old(h)@,
        },
{
    match assert_owner(h, expected_owner) {
        Err(e) => {
            return Err(e);
        },
        Ok(()) => {},
    }
    if h.payload.len() < VAULT_SIZE {
        return Err(ValidationError::BufferTooSmall);
    }
    write_u64_le_at(&mut h.payload, 0, VAULT_TAG);
    write_address_at(&mut h.payload, 8, &v.admin);
    write_u64_le_at(&mut h.payload, 40, v.locked_amount);
    proof {
        assert(h.payload@ =~= vault_bytes(*v) + old(h).payload@.skip(VAULT_SIZE as int));
    }
    Ok(())
}

/// A fresh `GameData` encoding carries its own tag and decodes back to the
/// record it came from.
pub proof fn lemma_game_data_round_trip(g: GameData)
    ensures
        game_data_bytes(g).len() == GAME_DATA_SIZE,
        le_bytes_to_u64(game_data_bytes(g).subrange(0, 8)) == GAME_DATA_TAG,
        decoded_game_data(game_data_bytes(g)) == g,
{
    let s = game_data_bytes(g);
    assert(s.subrange(0, 8) =~= u64_le_bytes(GAME_DATA_TAG));
    assert(s.subrange(8, 16) =~= u64_le_bytes(g.score));
    assert(s.subrange(16, 48) =~= address_bytes(g.authority));
    lemma_u64_le_round_trip(GAME_DATA_TAG);
    lemma_u64_le_round_trip(g.score);
    lemma_address_round_trip(g.authority);
}

/// A fresh `LogAccount` encoding carries its own tag and decodes back to the
/// record it came from.
pub proof fn lemma_log_account_round_trip(l: LogAccount)
    ensures
        log_account_bytes(l).len() == LOG_ACCOUNT_SIZE,
        le_bytes_to_u64(log_account_bytes(l).subrange(0, 8)) == LOG_ACCOUNT_TAG,
        decoded_log_account(log_account_bytes(l)) == l,
{
    let s = log_account_bytes(l);
    assert(s.subrange(0, 8) =~= u64_le_bytes(LOG_ACCOUNT_TAG));
    assert(s.subrange(8, 16) =~= u64_le_bytes(l.data));
    lemma_u64_le_round_trip(LOG_ACCOUNT_TAG);
    lemma_u64_le_round_trip(l.data);
}

/// A fresh `Counter` encoding carries its own tag and decodes back to the
/// record it came from.
pub proof fn lemma_counter_round_trip(c: Counter)
    ensures
        counter_bytes(c).len() == COUNTER_SIZE,
        le_bytes_to_u64(counter_bytes(c).subrange(0, 8)) == COUNTER_TAG,
        decoded_counter(counter_bytes(c)) == c,
{
    let s = counter_bytes(c);
    assert(s.subrange(0, 8) =~= u64_le_bytes(COUNTER_TAG));
    assert(s.subrange(8, 16) =~= u64_le_bytes(c.count));
    lemma_u64_le_round_trip(COUNTER_TAG);
    lemma_u64_le_round_trip(c.count);
}

/// A fresh `User` encoding carries its own tag and decodes back to the
/// record it came from.
pub proof fn lemma_user_round_trip(u: User)
    ensures
        user_bytes(u).len() == USER_SIZE,
        le_bytes_to_u64(user_bytes(u).subrange(0, 8)) == USER_TAG,
        decoded_user(user_bytes(u)) == u,
{
    let s = user_bytes(u);
    assert(s.subrange(0, 8) =~= u64_le_bytes(USER_TAG));
    assert(s.subrange(8, 40) =~= address_bytes(u.authority));
    assert(s.subrange(40, 48) =~= u64_le_bytes(u.balance));
    lemma_u64_le_round_trip(USER_TAG);
    lemma_address_round_trip(u.authority);
    lemma_u64_le_round_trip(u.balance);
}

/// A fresh `Vault` encoding carries its own tag and decodes back to the
/// record it came from.
pub proof fn lemma_vault_round_trip(v: Vault)
    ensures
        vault_bytes(v).len() == VAULT_SIZE,
        le_bytes_to_u64(vault_bytes(v).subrange(0, 8)) == VAULT_TAG,
        decoded_vault(vault_bytes(v)) == v,
{
    let s = vault_bytes(v);
    assert(s.subrange(0, 8) =~= u64_le_bytes(VAULT_TAG));
    assert(s.subrange(8, 40) =~= address_bytes(v.admin));
    assert(s.subrange(40, 48) =~= u64_le_bytes(v.locked_amount));
    lemma_u64_le_round_trip(VAULT_TAG);
    lemma_address_round_trip(v.admin);
    lemma_u64_le_round_trip(v.locked_amount);
}

} // verus!
