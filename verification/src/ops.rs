//! The secure operation bodies: business logic that runs only against
//! already-validated typed views.
//!
//! Every function here evaluates its operation's full required assertion
//! set before touching a payload, composes the assertions by conjunction,
//! and on any failure returns the failing kind with the handle left
//! byte-identical to how it arrived.  Mutations are written back through
//! the encoders as a single whole-record write, so a failed operation has
//! no partial effect.
//!
//! Operations that act on behalf of a record's controlling identity demand
//! that identity's signed consent: the presented authority handle must be
//! the very address stored in the record and must have signed the
//! transaction; either miss is `NotSigner`.

use vstd::prelude::*;

use crate::arith::checked_add;
use crate::assertions::assert_signer;
use crate::assertions::signer_ok;
use crate::errors::ValidationError;
use crate::handle::Address;
use crate::handle::HandleView;
use crate::handle::ResourceHandle;
use crate::records::counter_bytes;
use crate::records::decode_counter;
use crate::records::decode_counter_spec;
use crate::records::decode_game_data;
use crate::records::decode_game_data_spec;
use crate::records::decode_log_account;
use crate::records::decode_log_account_spec;
use crate::records::decode_user;
use crate::records::decode_user_spec;
use crate::records::decoded_counter;
use crate::records::decoded_game_data;
use crate::records::decoded_log_account;
use crate::records::decoded_user;
use crate::records::decoded_vault;
use crate::records::encode_counter;
use crate::records::encode_counter_spec;
use crate::records::encode_game_data;
use crate::records::encode_log_account;
use crate::records::encode_user;
use crate::records::encode_user_spec;
use crate::records::encode_vault;
use crate::records::encode_vault_spec;
use crate::records::game_data_bytes;
use crate::records::lemma_counter_round_trip;
use crate::records::lemma_game_data_round_trip;
use crate::records::lemma_log_account_round_trip;
use crate::records::lemma_user_round_trip;
use crate::records::lemma_vault_round_trip;
use crate::records::log_account_bytes;
use crate::records::Counter;
use crate::records::GameData;
use crate::records::LogAccount;
use crate::records::User;
use crate::records::Vault;
use crate::records::COUNTER_SIZE;
use crate::records::GAME_DATA_SIZE;
use crate::records::LOG_ACCOUNT_SIZE;

verus! {

/// The score value the game operation records for an approved action.
pub const APPROVED_SCORE: u64 = 100;

/// New game payload after an authority-approved score update, or the first
/// failing assertion: owner, tag and layout of the game record, then the
/// stored authority's signed consent.
pub open spec fn set_score_spec(
    game: HandleView,
    authority: HandleView,
    program_id: Address,
) -> Result<Seq<u8>, ValidationError> {
    match decode_game_data_spec(game, program_id) {
        Err(e) => Err(e),
        Ok(g) => if authority.address != g.authority || !signer_ok(authority) {
            Err(ValidationError::NotSigner)
        } else {
            Ok(
                game_data_bytes(GameData { score: APPROVED_SCORE, authority: g.authority })
                    + game.payload.skip(GAME_DATA_SIZE as int),
            )
        },
    }
}

/// Records an authority-approved action by setting the game score.
///
/// The full assertion set — owner, type tag, layout, and the stored
/// authority's signed consent — is evaluated before any write; on any
/// failure the game handle is left byte-identical to how it arrived.
pub fn log_message_secure(
    game: &mut ResourceHandle,
    authority: &ResourceHandle,
    program_id: Address,
) -> (r: Result<(), ValidationError>)
    ensures
        match set_score_spec(old(game)@, authority@, program_id) {
            Ok(p) => r == Ok::<(), ValidationError>(()) && final(game)@ == (HandleView {
                payload: p,
                ..old(game)@
            }),
            Err(e) => r == Err::<(), ValidationError>(e) && final(game)@ == old(game)@,
        },
        r is Ok ==> decoded_game_data(final(game)@.payload) == (GameData {
            score: APPROVED_SCORE,
            authority: decoded_game_data(old(game)@.payload).authority,
        }),
{
    let g = match decode_game_data(game, program_id) {
        Err(e) => {
            return Err(e);
        },
        Ok(g) => g,
    };
    if authority.address != g.authority {
        return Err(ValidationError::NotSigner);
    }
    match assert_signer(authority) {
        Err(e) => {
            return Err(e);
        },
        Ok(()) => {},
    }
    let updated = GameData { score: APPROVED_SCORE, authority: g.authority };
    match encode_game_data(game, program_id, &updated) {
        Err(e) => Err(e),
        Ok(()) => {
            proof {
                lemma_game_data_round_trip(updated);
                let p = game.payload@;
                let b = game_data_bytes(updated);
                assert(p.subrange(8, 16) =~= b.subrange(8, 16));
                assert(p.subrange(16, 48) =~= b.subrange(16, 48));
            }
            Ok(())
        },
    }
}

/// New log payload after a write, or the first failing assertion: owner,
/// tag and layout of the log record.
pub open spec fn write_log_spec(log: HandleView, program_id: Address, data: u64) -> Result<
    Seq<u8>,
    ValidationError,
> {
    match decode_log_account_spec(log, program_id) {
        Err(e) => Err(e),
        Ok(_) => Ok(
            log_account_bytes(LogAccount { data }) + log.payload.skip(LOG_ACCOUNT_SIZE as int),
        ),
    }
}

/// Writes a value into a log record this program owns.
///
/// The owner assertion runs before the payload is interpreted at all, so a
/// resource owned by a different controller is never written, however
/// plausible its bytes look.
pub fn write_to_log_secure(log: &mut ResourceHandle, program_id: Address, data: u64) -> (r: Result<
    (),
    ValidationError,
>)
    ensures
        match write_log_spec(old(log)@, program_id, data) {
            Ok(p) => r == Ok::<(), ValidationError>(()) && final(log)@ == (HandleView {
                payload: p,
                ..old(log)@
            }),
            Err(e) => r == Err::<(), ValidationError>(e) && final(log)@ == old(log)@,
        },
        r is Ok ==> decoded_log_account(final(log)@.payload) == (LogAccount { data }),
{
    match decode_log_account(log, program_id) {
        Err(e) => {
            return Err(e);
        },
        Ok(_) => {},
    }
    let updated = LogAccount { data };
    match encode_log_account(log, program_id, &updated) {
        Err(e) => Err(e),
        Ok(()) => {
            proof {
                lemma_log_account_round_trip(updated);
                let p = log.payload@;
                let b = log_account_bytes(updated);
                assert(p.subrange(8, 16) =~= b.subrange(8, 16));
            }
            Ok(())
        },
    }
}

/// New counter payload after a checked increment, the first failing
/// assertion, or `ArithmeticOverflow` when the count is already at the
/// width's maximum.
pub open spec fn increment_spec(counter: HandleView, program_id: Address) -> Result<
    Seq<u8>,
    ValidationError,
> {
    match decode_counter_spec(counter, program_id) {
        Err(e) => Err(e),
        Ok(c) => if c.count == u64::MAX {
            Err(ValidationError::ArithmeticOverflow)
        } else {
            Ok(
                counter_bytes(Counter { count: (c.count + 1) as u64 })
                    + counter.payload.skip(COUNTER_SIZE as int),
            )
        },
    }
}

/// Increments a counter through checked arithmetic.
///
/// A count at the maximum representable value aborts with
/// `ArithmeticOverflow` instead of silently wrapping to zero, and the
/// payload is left byte-identical to how it arrived.
pub fn increment_secure(counter: &mut ResourceHandle, program_id: Address) -> (r: Result<
    (),
    ValidationError,
>)
    ensures
        match increment_spec(old(counter)@, program_id) {
            Ok(p) => r == Ok::<(), ValidationError>(()) && final(counter)@ == (HandleView {
                payload: p,
                ..old(counter)@
            }),
            Err(e) => r == Err::<(), ValidationError>(e) && final(counter)@ == old(counter)@,
        },
        r is Ok ==> decoded_counter(final(counter)@.payload).count == decoded_counter(
            old(counter)@.payload,
        ).count + 1,
{
    let c = match decode_counter(counter, program_id) {
        Err(e) => {
            return Err(e);
        },
        Ok(c) => c,
    };
    let next = match checked_add(c.count, 1) {
        None => {
            return Err(ValidationError::ArithmeticOverflow);
        },
        Some(next) => next,
    };
    let updated = Counter { count: next };
    match encode_counter(counter, program_id, &updated) {
        Err(e) => Err(e),
        Ok(()) => {
            proof {
                lemma_counter_round_trip(updated);
                let p = counter.payload@;
                let b = counter_bytes(updated);
                assert(p.subrange(8, 16) =~= b.subrange(8, 16));
            }
            Ok(())
        },
    }
}

/// The balance released by a withdrawal, or the first failing assertion:
/// owner, tag and layout of the user record, then the stored authority's
/// signed consent.
pub open spec fn withdraw_spec(
    user: HandleView,
    authority: HandleView,
    program_id: Address,
) -> Result<u64, ValidationError> {
    match decode_user_spec(user, program_id) {
        Err(e) => Err(e),
        Ok(u) => if authority.address != u.authority || !signer_ok(authority) {
            Err(ValidationError::NotSigner)
        } else {
            Ok(u.balance)
        },
    }
}

/// Releases a user's balance to its authority.
///
/// A payload tagged as any other record type — including one whose field
/// widths happen to coincide — is rejected as `TypeMismatch` before its
/// bytes are ever read as a `User`, so a vault's admin can never pose as a
/// user's authority.
pub fn withdraw_secure(
    user: &ResourceHandle,
    authority: &ResourceHandle,
    program_id: Address,
) -> (r: Result<u64, ValidationError>)
    ensures
        r == withdraw_spec(user@, authority@, program_id),
{
    let u = match decode_user(user, program_id) {
        Err(e) => {
            return Err(e);
        },
        Ok(u) => u,
    };
    if authority.address != u.authority {
        return Err(ValidationError::NotSigner);
    }
    match assert_signer(authority) {
        Err(e) => {
            return Err(e);
        },
        Ok(()) => {},
    }
    Ok(u.balance)
}

/// Writes a fresh `Counter` record into an account this program owns.
pub fn initialize_counter(
    account: &mut ResourceHandle,
    program_id: Address,
    initial_count: u64,
) -> (r: Result<(), ValidationError>)
    ensures
        match encode_counter_spec(old(account)@, program_id, (Counter { count: initial_count })) {
            Ok(p) => r == Ok::<(), ValidationError>(()) && final(account)@ == (HandleView {
                payload: p,
                ..old(account)@
            }),
            Err(e) => r == Err::<(), ValidationError>(e) && final(account)@ == old(account)@,
        },
        r is Ok ==> decoded_counter(final(account)@.payload) == (Counter { count: initial_count }),
{
    let record = Counter { count: initial_count };
    match encode_counter(account, program_id, &record) {
        Err(e) => Err(e),
        Ok(()) => {
            proof {
                lemma_counter_round_trip(record);
                let p = account.payload@;
                let b = counter_bytes(record);
                assert(p.subrange(8, 16) =~= b.subrange(8, 16));
            }
            Ok(())
        },
    }
}

/// Writes a fresh `User` record into an account this program owns.
pub fn initialize_user(
    account: &mut ResourceHandle,
    program_id: Address,
    authority: Address,
    balance: u64,
) -> (r: Result<(), ValidationError>)
    ensures
        match encode_user_spec(old(account)@, program_id, (User { authority, balance })) {
            Ok(p) => r == Ok::<(), ValidationError>(()) && final(account)@ == (HandleView {
                payload: p,
                ..old(account)@
            }),
            Err(e) => r == Err::<(), ValidationError>(e) && final(account)@ == old(account)@,
        },
        r is Ok ==> decoded_user(final(account)@.payload) == (User { authority, balance }),
{
    let record = User { authority, balance };
    match encode_user(account, program_id, &record) {
        Err(e) => Err(e),
        Ok(()) => {
            proof {
                lemma_user_round_trip(record);
                let p = account.payload@;
                let b = crate::records::user_bytes(record);
                assert(p.subrange(8, 40) =~= b.subrange(8, 40));
                assert(p.subrange(40, 48) =~= b.subrange(40, 48));
            }
            Ok(())
        },
    }
}

/// Writes a fresh `Vault` record into an account this program owns.
pub fn initialize_vault(
    account: &mut ResourceHandle,
    program_id: Address,
    admin: Address,
    locked_amount: u64,
) -> (r: Result<(), ValidationError>)
    ensures
        match encode_vault_spec(old(account)@, program_id, (Vault { admin, locked_amount })) {
            Ok(p) => r == Ok::<(), ValidationError>(()) && final(account)@ == (HandleView {
                payload: p,
                ..old(account)@
            }),
            Err(e) => r == Err::<(), ValidationError>(e) && final(account)@ == old(account)@,
        },
        r is Ok ==> decoded_vault(final(account)@.payload) == (Vault { admin, locked_amount }),
{
    let record = Vault { admin, locked_amount };
    match encode_vault(account, program_id, &record) {
        Err(e) => Err(e),
        Ok(()) => {
            proof {
                lemma_vault_round_trip(record);
                let p = account.payload@;
                let b = crate::records::vault_bytes(record);
                assert(p.subrange(8, 40) =~= b.subrange(8, 40));
                assert(p.subrange(40, 48) =~= b.subrange(40, 48));
            }
            Ok(())
        },
    }
}

} // verus!
