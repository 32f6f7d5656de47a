//! The instruction dispatch pipeline.
//!
//! An instruction arrives as a raw handle list and serialized argument
//! bytes, moves through validation — the operation's full required
//! assertion set, evaluated fail-closed — and only then executes against
//! typed views.  Any single failure, in validation or in execution, aborts
//! the whole instruction with no side effect on any handle; a committed
//! instruction's payload mutations become visible as a unit.

use vstd::prelude::*;

use crate::assertions::program_identity_ok;
use crate::assertions::signer_ok;
use crate::codec::le_bytes_to_u64;
use crate::codec::read_u64_le;
use crate::cpi::cpi_secure;
use crate::cpi::CpiCall;
use crate::errors::ValidationError;
use crate::handle::bytes_to_address;
use crate::handle::read_address;
use crate::handle::views_of;
use crate::handle::Address;
use crate::handle::HandleView;
use crate::handle::ResourceHandle;
use crate::ops::increment_secure;
use crate::ops::increment_spec;
use crate::ops::initialize_counter;
use crate::ops::initialize_user;
use crate::ops::initialize_vault;
use crate::ops::log_message_secure;
use crate::ops::set_score_spec;
use crate::ops::withdraw_secure;
use crate::ops::withdraw_spec;
use crate::ops::write_log_spec;
use crate::ops::write_to_log_secure;
use crate::records::decode_counter;
use crate::records::decode_counter_spec;
use crate::records::decode_game_data;
use crate::records::decode_game_data_spec;
use crate::records::decode_log_account;
use crate::records::decode_log_account_spec;
use crate::records::decode_user;
use crate::records::decode_user_spec;
use crate::records::encode_counter_spec;
use crate::records::encode_gate_spec;
use crate::records::encode_user_spec;
use crate::records::encode_vault_spec;
use crate::records::Counter;
use crate::records::User;
use crate::records::Vault;
use crate::records::COUNTER_SIZE;
use crate::records::USER_SIZE;
use crate::records::VAULT_SIZE;

verus! {

/// Opcode of the score-setting operation.
pub const OP_SET_SCORE: u8 = 1;

/// Opcode of the log-writing operation.
pub const OP_WRITE_LOG: u8 = 2;

/// Opcode of the sub-invocation operation.
pub const OP_INVOKE_LOGGER: u8 = 3;

/// Opcode of the counter increment.
pub const OP_INCREMENT: u8 = 4;

/// Opcode of the withdrawal.
pub const OP_WITHDRAW: u8 = 5;

/// Opcode of counter initialization.
pub const OP_INIT_COUNTER: u8 = 6;

/// Opcode of user initialization.
pub const OP_INIT_USER: u8 = 7;

/// Opcode of vault initialization.
pub const OP_INIT_VAULT: u8 = 8;

/// A decoded operation: the instruction selector plus its deserialized
/// arguments.
pub enum Operation {
    /// Record an authority-approved action on the game account.
    SetScore,
    /// Write a value into the owned log account.
    WriteLog { data: u64 },
    /// Forward a message to the trusted logging program.
    InvokeLogger { message: Vec<u8> },
    /// Increment the owned counter account.
    Increment,
    /// Release a user's balance to its authority.
    Withdraw,
    /// Write a fresh counter record.
    InitCounter { initial_count: u64 },
    /// Write a fresh user record.
    InitUser { authority: Address, balance: u64 },
    /// Write a fresh vault record.
    InitVault { admin: Address, locked_amount: u64 },
}

/// The mathematical image of an operation.
pub enum OperationView {
    SetScore,
    WriteLog { data: u64 },
    InvokeLogger { message: Seq<u8> },
    Increment,
    Withdraw,
    InitCounter { initial_count: u64 },
    InitUser { authority: Address, balance: u64 },
    InitVault { admin: Address, locked_amount: u64 },
}

impl View for Operation {
    type V = OperationView;

    open spec fn view(&self) -> OperationView {
        match self {
            Operation::SetScore => OperationView::SetScore,
            Operation::WriteLog { data } => OperationView::WriteLog { data: *data },
            Operation::InvokeLogger { message } => OperationView::InvokeLogger {
                message: message@,
            },
            Operation::Increment => OperationView::Increment,
            Operation::Withdraw => OperationView::Withdraw,
            Operation::InitCounter { initial_count } => OperationView::InitCounter {
                initial_count: *initial_count,
            },
            Operation::InitUser { authority, balance } => OperationView::InitUser {
                authority: *authority,
                balance: *balance,
            },
            Operation::InitVault { admin, locked_amount } => OperationView::InitVault {
                admin: *admin,
                locked_amount: *locked_amount,
            },
        }
    }
}

/// The operation selected by raw instruction data: a one-byte opcode
/// followed by that operation's fixed-width arguments (the sub-invocation
/// message alone takes the rest of the data).  Anything else is
/// `MalformedPayload`.
pub open spec fn parse_instruction_spec(d: Seq<u8>) -> Result<OperationView, ValidationError> {
    if d.len() < 1 {
        Err(ValidationError::MalformedPayload)
    } else if d[0] == OP_SET_SCORE {
        if d.len() == 1 {
            Ok(OperationView::SetScore)
        } else {
            Err(ValidationError::MalformedPayload)
        }
    } else if d[0] == OP_WRITE_LOG {
        if d.len() == 9 {
            Ok(OperationView::WriteLog { data: le_bytes_to_u64(d.subrange(1, 9)) })
        } else {
            Err(ValidationError::MalformedPayload)
        }
    } else if d[0] == OP_INVOKE_LOGGER {
        Ok(OperationView::InvokeLogger { message: d.skip(1) })
    } else if d[0] == OP_INCREMENT {
        if d.len() == 1 {
            Ok(OperationView::Increment)
        } else {
            Err(ValidationError::MalformedPayload)
        }
    } else if d[0] == OP_WITHDRAW {
        if d.len() == 1 {
            Ok(OperationView::Withdraw)
        } else {
            Err(ValidationError::MalformedPayload)
        }
    } else if d[0] == OP_INIT_COUNTER {
        if d.len() == 9 {
            Ok(OperationView::InitCounter { initial_count: le_bytes_to_u64(d.subrange(1, 9)) })
        } else {
            Err(ValidationError::MalformedPayload)
        }
    } else if d[0] == OP_INIT_USER {
        if d.len() == 41 {
            Ok(
                OperationView::InitUser {
                    authority: bytes_to_address(d.subrange(1, 33)),
                    balance: le_bytes_to_u64(d.subrange(33, 41)),
                },
            )
        } else {
            Err(ValidationError::MalformedPayload)
        }
    } else if d[0] == OP_INIT_VAULT {
        if d.len() == 41 {
            Ok(
                OperationView::InitVault {
                    admin: bytes_to_address(d.subrange(1, 33)),
                    locked_amount: le_bytes_to_u64(d.subrange(33, 41)),
                },
            )
        } else {
            Err(ValidationError::MalformedPayload)
        }
    } else {
        Err(ValidationError::MalformedPayload)
    }
}

/// Deserializes raw instruction data into an operation, failing with
/// `MalformedPayload` on an unknown opcode or ill-sized arguments.
pub fn parse_instruction(data: &Vec<u8>) -> (r: Result<Operation, ValidationError>)
    ensures
        match r {
            Ok(op) => parse_instruction_spec(data@) == Ok::<OperationView, ValidationError>(op@),
            Err(e) => parse_instruction_spec(data@) == Err::<OperationView, ValidationError>(e),
        },
{
    if data.len() < 1 {
        return Err(ValidationError::MalformedPayload);
    }
    let op = data[0];
    if op == OP_SET_SCORE {
        if data.len() == 1 {
            Ok(Operation::SetScore)
        } else {
            Err(ValidationError::MalformedPayload)
        }
    } else if op == OP_WRITE_LOG {
        if data.len() == 9 {
            Ok(Operation::WriteLog { data: read_u64_le(data, 1) })
        } else {
            Err(ValidationError::MalformedPayload)
        }
    } else if op == OP_INVOKE_LOGGER {
        let mut message: Vec<u8> = Vec::new();
        let mut i: usize = 1;
        while i < data.len()
            invariant
                1 <= i <= data@.len(),
                message@ == data@.subrange(1, i as int),
            decreases data@.len() - i,
        {
            message.push(data[i]);
            i = i + 1;
        }
        proof {
            assert(message@ =~= data@.skip(1));
        }
        Ok(Operation::InvokeLogger { message })
    } else if op == OP_INCREMENT {
        if data.len() == 1 {
            Ok(Operation::Increment)
        } else {
            Err(ValidationError::MalformedPayload)
        }
    } else if op == OP_WITHDRAW {
        if data.len() == 1 {
            Ok(Operation::Withdraw)
        } else {
            Err(ValidationError::MalformedPayload)
        }
    } else if op == OP_INIT_COUNTER {
        if data.len() == 9 {
            Ok(Operation::InitCounter { initial_count: read_u64_le(data, 1) })
        } else {
            Err(ValidationError::MalformedPayload)
        }
    } else if op == OP_INIT_USER {
        if data.len() == 41 {
            Ok(
                Operation::InitUser {
                    authority: read_address(data, 1),
                    balance: read_u64_le(data, 33),
                },
            )
        } else {
            Err(ValidationError::MalformedPayload)
        }
    } else if op == OP_INIT_VAULT {
        if data.len() == 41 {
            Ok(
                Operation::InitVault {
                    admin: read_address(data, 1),
                    locked_amount: read_u64_le(data, 33),
                },
            )
        } else {
            Err(ValidationError::MalformedPayload)
        }
    } else {
        Err(ValidationError::MalformedPayload)
    }
}

/// The full required assertion set of an operation, evaluated over the
/// handle views in the fixed order, stopping at the first failure.
///
/// An operation that names more handles than were delivered is itself
/// malformed.  This is the whole of the `Validating` phase: everything an
/// operation demands before business logic may run.
pub open spec fn required_assertions(
    op: OperationView,
    hs: Seq<HandleView>,
    program_id: Address,
    expected_logger: Address,
) -> Result<(), ValidationError> {
    match op {
        OperationView::SetScore => if hs.len() < 2 {
            Err(ValidationError::MalformedPayload)
        } else {
            match decode_game_data_spec(hs[0], program_id) {
                Err(e) => Err(e),
                Ok(g) => if hs[1].address != g.authority || !signer_ok(hs[1]) {
                    Err(ValidationError::NotSigner)
                } else {
                    Ok(())
                },
            }
        },
        OperationView::WriteLog { .. } => if hs.len() < 1 {
            Err(ValidationError::MalformedPayload)
        } else {
            match decode_log_account_spec(hs[0], program_id) {
                Err(e) => Err(e),
                Ok(_) => Ok(()),
            }
        },
        OperationView::InvokeLogger { .. } => if hs.len() < 1 {
            Err(ValidationError::MalformedPayload)
        } else {
            crate::assertions::check_program_identity(hs[0], expected_logger)
        },
        OperationView::Increment => if hs.len() < 1 {
            Err(ValidationError::MalformedPayload)
        } else {
            match decode_counter_spec(hs[0], program_id) {
                Err(e) => Err(e),
                Ok(_) => Ok(()),
            }
        },
        OperationView::Withdraw => if hs.len() < 2 {
            Err(ValidationError::MalformedPayload)
        } else {
            match decode_user_spec(hs[0], program_id) {
                Err(e) => Err(e),
                Ok(u) => if hs[1].address != u.authority || !signer_ok(hs[1]) {
                    Err(ValidationError::NotSigner)
                } else {
                    Ok(())
                },
            }
        },
        OperationView::InitCounter { .. } => if hs.len() < 1 {
            Err(ValidationError::MalformedPayload)
        } else {
            encode_gate_spec(hs[0], program_id, COUNTER_SIZE as int)
        },
        OperationView::InitUser { .. } => if hs.len() < 1 {
            Err(ValidationError::MalformedPayload)
        } else {
            encode_gate_spec(hs[0], program_id, USER_SIZE as int)
        },
        OperationView::InitVault { .. } => if hs.len() < 1 {
            Err(ValidationError::MalformedPayload)
        } else {
            encode_gate_spec(hs[0], program_id, VAULT_SIZE as int)
        },
    }
}

/// Evaluates an operation's full required assertion set against the handle
/// list, without touching any payload.
///
/// This is the `Validating` phase on its own: a pass means business logic
/// may run; the first failure is the instruction's abort kind.
pub fn validate_for_operation(
    op: &Operation,
    handles: &Vec<ResourceHandle>,
    program_id: Address,
    expected_logger: Address,
) -> (r: Result<(), ValidationError>)
    ensures
        r == required_assertions(op@, views_of(handles@), program_id, expected_logger),
{
    match op {
        Operation::SetScore => {
            if handles.len() < 2 {
                return Err(ValidationError::MalformedPayload);
            }
            let g = match decode_game_data(&handles[0], program_id) {
                Err(e) => {
                    return Err(e);
                },
                Ok(g) => g,
            };
            if handles[1].address != g.authority || !handles[1].is_signer {
                return Err(ValidationError::NotSigner);
            }
            Ok(())
        },
        Operation::WriteLog { .. } => {
            if handles.len() < 1 {
                return Err(ValidationError::MalformedPayload);
            }
            match decode_log_account(&handles[0], program_id) {
                Err(e) => Err(e),
                Ok(_) => Ok(()),
            }
        },
        Operation::InvokeLogger { .. } => {
            if handles.len() < 1 {
                return Err(ValidationError::MalformedPayload);
            }
            crate::assertions::assert_program_identity(&handles[0], expected_logger)
        },
        Operation::Increment => {
            if handles.len() < 1 {
                return Err(ValidationError::MalformedPayload);
            }
            match decode_counter(&handles[0], program_id) {
                Err(e) => Err(e),
                Ok(_) => Ok(()),
            }
        },
        Operation::Withdraw => {
            if handles.len() < 2 {
                return Err(ValidationError::MalformedPayload);
            }
            let u = match decode_user(&handles[0], program_id) {
                Err(e) => {
                    return Err(e);
                },
                Ok(u) => u,
            };
            if handles[1].address != u.authority || !handles[1].is_signer {
                return Err(ValidationError::NotSigner);
            }
            Ok(())
        },
        Operation::InitCounter { .. } => {
            if handles.len() < 1 {
                return Err(ValidationError::MalformedPayload);
            }
            if handles[0].declared_owner != program_id {
                return Err(ValidationError::OwnerMismatch);
            }
            if handles[0].payload.len() < COUNTER_SIZE {
                return Err(ValidationError::BufferTooSmall);
            }
            Ok(())
        },
        Operation::InitUser { .. } => {
            if handles.len() < 1 {
                return Err(ValidationError::MalformedPayload);
            }
            if handles[0].declared_owner != program_id {
                return Err(ValidationError::OwnerMismatch);
            }
            if handles[0].payload.len() < USER_SIZE {
                return Err(ValidationError::BufferTooSmall);
            }
            Ok(())
        },
        Operation::InitVault { .. } => {
            if handles.len() < 1 {
                return Err(ValidationError::MalformedPayload);
            }
            if handles[0].declared_owner != program_id {
                return Err(ValidationError::OwnerMismatch);
            }
            if handles[0].payload.len() < VAULT_SIZE {
                return Err(ValidationError::BufferTooSmall);
            }
            Ok(())
        },
    }
}

/// Law: the full assertion set has no hidden mutable validation state.  Its
/// verdict is a function of the operation, the handle views and the
/// declared expectations alone, so re-running it against unchanged handles
/// yields the same pass/fail result.
pub proof fn lemma_validation_idempotent(
    op: OperationView,
    a: Seq<HandleView>,
    b: Seq<HandleView>,
    program_id: Address,
    expected_logger: Address,
)
    requires
        a == b,
    ensures
        required_assertions(op, a, program_id, expected_logger) == required_assertions(
            op,
            b,
            program_id,
            expected_logger,
        ),
{
}

/// The terminal effect of one dispatched instruction, at the level of
/// views: the committed handle views, a pending sub-invocation, or an
/// abort.
pub enum DispatchEffect {
    /// All payload mutations commit as a unit; these are the handle views
    /// the outer runtime observes.
    Commit(Seq<HandleView>),
    /// Validation passed and a sub-invocation was built for the outer
    /// runtime to perform: target address, forwarded handle addresses,
    /// instruction data.  The handles themselves are unchanged.
    Invoke(Address, Seq<Address>, Seq<u8>),
    /// The instruction had no effect; this is the failure kind observed.
    Abort(ValidationError),
}

/// Effect of the score-setting operation on the handle views.
pub open spec fn set_score_effect(hs: Seq<HandleView>, program_id: Address) -> DispatchEffect {
    if hs.len() < 2 {
        DispatchEffect::Abort(ValidationError::MalformedPayload)
    } else {
        match set_score_spec(hs[0], hs[1], program_id) {
            Err(e) => DispatchEffect::Abort(e),
            Ok(p) => DispatchEffect::Commit(hs.update(0, (HandleView { payload: p, ..hs[0] }))),
        }
    }
}

/// Effect of the log-writing operation on the handle views.
pub open spec fn write_log_effect(hs: Seq<HandleView>, program_id: Address, data: u64) -> DispatchEffect {
    if hs.len() < 1 {
        DispatchEffect::Abort(ValidationError::MalformedPayload)
    } else {
        match write_log_spec(hs[0], program_id, data) {
            Err(e) => DispatchEffect::Abort(e),
            Ok(p) => DispatchEffect::Commit(hs.update(0, (HandleView { payload: p, ..hs[0] }))),
        }
    }
}

/// Effect of the sub-invocation operation: the invocation is built only
/// past the program-identity assertion, and no handle is touched.
pub open spec fn invoke_logger_effect(
    hs: Seq<HandleView>,
    expected_logger: Address,
    message: Seq<u8>,
) -> DispatchEffect {
    if hs.len() < 1 {
        DispatchEffect::Abort(ValidationError::MalformedPayload)
    } else if program_identity_ok(hs[0], expected_logger) {
        DispatchEffect::Invoke(expected_logger, Seq::<Address>::empty(), message)
    } else {
        DispatchEffect::Abort(ValidationError::UntrustedProgram)
    }
}

/// Effect of the counter increment on the handle views.
pub open spec fn increment_effect(hs: Seq<HandleView>, program_id: Address) -> DispatchEffect {
    if hs.len() < 1 {
        DispatchEffect::Abort(ValidationError::MalformedPayload)
    } else {
        match increment_spec(hs[0], program_id) {
            Err(e) => DispatchEffect::Abort(e),
            Ok(p) => DispatchEffect::Commit(hs.update(0, (HandleView { payload: p, ..hs[0] }))),
        }
    }
}

/// Effect of the withdrawal: reads only, so a pass commits the views
/// unchanged.
pub open spec fn withdraw_effect(hs: Seq<HandleView>, program_id: Address) -> DispatchEffect {
    if hs.len() < 2 {
        DispatchEffect::Abort(ValidationError::MalformedPayload)
    } else {
        match withdraw_spec(hs[0], hs[1], program_id) {
            Err(e) => DispatchEffect::Abort(e),
            Ok(_) => DispatchEffect::Commit(hs),
        }
    }
}

/// Effect of counter initialization on the handle views.
pub open spec fn init_counter_effect(
    hs: Seq<HandleView>,
    program_id: Address,
    initial_count: u64,
) -> DispatchEffect {
    if hs.len() < 1 {
        DispatchEffect::Abort(ValidationError::MalformedPayload)
    } else {
        match encode_counter_spec(hs[0], program_id, (Counter { count: initial_count })) {
            Err(e) => DispatchEffect::Abort(e),
            Ok(p) => DispatchEffect::Commit(hs.update(0, (HandleView { payload: p, ..hs[0] }))),
        }
    }
}

/// Effect of user initialization on the handle views.
pub open spec fn init_user_effect(
    hs: Seq<HandleView>,
    program_id: Address,
    authority: Address,
    balance: u64,
) -> DispatchEffect {
    if hs.len() < 1 {
        DispatchEffect::Abort(ValidationError::MalformedPayload)
    } else {
        match encode_user_spec(hs[0], program_id, (User { authority, balance })) {
            Err(e) => DispatchEffect::Abort(e),
            Ok(p) => DispatchEffect::Commit(hs.update(0, (HandleView { payload: p, ..hs[0] }))),
        }
    }
}

/// Effect of vault initialization on the handle views.
pub open spec fn init_vault_effect(
    hs: Seq<HandleView>,
    program_id: Address,
    admin: Address,
    locked_amount: u64,
) -> DispatchEffect {
    if hs.len() < 1 {
        DispatchEffect::Abort(ValidationError::MalformedPayload)
    } else {
        match encode_vault_spec(hs[0], program_id, (Vault { admin, locked_amount })) {
            Err(e) => DispatchEffect::Abort(e),
            Ok(p) => DispatchEffect::Commit(hs.update(0, (HandleView { payload: p, ..hs[0] }))),
        }
    }
}

/// The pipeline's whole behavior on one instruction: parse, validate
/// fail-closed, execute, commit or abort atomically.
pub open spec fn dispatch_spec(
    hs: Seq<HandleView>,
    program_id: Address,
    expected_logger: Address,
    d: Seq<u8>,
) -> DispatchEffect {
    match parse_instruction_spec(d) {
        Err(e) => DispatchEffect::Abort(e),
        Ok(op) => match op {
            OperationView::SetScore => set_score_effect(hs, program_id),
            OperationView::WriteLog { data } => write_log_effect(hs, program_id, data),
            OperationView::InvokeLogger { message } => invoke_logger_effect(
                hs,
                expected_logger,
                message,
            ),
            OperationView::Increment => increment_effect(hs, program_id),
            OperationView::Withdraw => withdraw_effect(hs, program_id),
            OperationView::InitCounter { initial_count } => init_counter_effect(
                hs,
                program_id,
                initial_count,
            ),
            OperationView::InitUser { authority, balance } => init_user_effect(
                hs,
                program_id,
                authority,
                balance,
            ),
            OperationView::InitVault { admin, locked_amount } => init_vault_effect(
                hs,
                program_id,
                admin,
                locked_amount,
            ),
        },
    }
}

/// How one dispatched instruction ended.
pub enum InstructionOutcome {
    /// All payload mutations are visible to the outer runtime as a unit.
    Committed,
    /// Validation passed and this sub-invocation awaits the outer runtime;
    /// its report is folded back in through
    /// [`crate::cpi::resolve_sub_invocation`].
    PendingInvocation(CpiCall),
    /// The instruction had no effect anywhere; the kind says which
    /// assertion or execution step failed first.
    Aborted(ValidationError),
}

/// What an effect promises of an outcome: the committed views, the built
/// invocation, or an abort with the handles left exactly as they arrived.
pub open spec fn outcome_matches(
    effect: DispatchEffect,
    out: InstructionOutcome,
    old_vs: Seq<HandleView>,
    new_vs: Seq<HandleView>,
) -> bool {
    match effect {
        DispatchEffect::Commit(vs) => out is Committed && new_vs == vs,
        DispatchEffect::Invoke(t, f, m) => (out matches InstructionOutcome::PendingInvocation(c)
            && c.target_address == t && c.forwarded_handles@ == f && c.data@ == m) && new_vs
            == old_vs,
        DispatchEffect::Abort(e) => out == InstructionOutcome::Aborted(e) && new_vs == old_vs,
    }
}

/// Law: dispatch is fail-closed.  A malformed instruction aborts with its
/// parse failure, and whenever any assertion of the operation's required
/// set fails, the pipeline aborts with exactly that kind — an operation's
/// effect is never applied past a failed assertion.
pub proof fn lemma_dispatch_fail_closed(
    hs: Seq<HandleView>,
    program_id: Address,
    expected_logger: Address,
    d: Seq<u8>,
)
    ensures
        (parse_instruction_spec(d) matches Err(e) ==> dispatch_spec(
            hs,
            program_id,
            expected_logger,
            d,
        ) == DispatchEffect::Abort(e)),
        (parse_instruction_spec(d) matches Ok(op) ==> (required_assertions(
            op,
            hs,
            program_id,
            expected_logger,
        ) matches Err(e) ==> dispatch_spec(hs, program_id, expected_logger, d)
            == DispatchEffect::Abort(e))),
{
}

fn run_set_score(handles: &mut Vec<ResourceHandle>, program_id: Address) -> (out:
    InstructionOutcome)
    ensures
        outcome_matches(
            set_score_effect(views_of(old(handles)@), program_id),
            out,
            views_of(old(handles)@),
            views_of(final(handles)@),
        ),
{
    if handles.len() < 2 {
        return InstructionOutcome::Aborted(ValidationError::MalformedPayload);
    }
    let mut game = handles.remove(0);
    proof {
        assert(handles@[0] == old(handles)@[1]);
    }
    let r = log_message_secure(&mut game, &handles[0], program_id);
    handles.insert(0, game);
    proof {
        assert(views_of(handles@) =~= views_of(old(handles)@).update(0, handles@[0]@));
    }
    match r {
        Err(e) => {
            proof {
                assert(views_of(handles@) =~= views_of(old(handles)@));
            }
            InstructionOutcome::Aborted(e)
        },
        Ok(()) => InstructionOutcome::Committed,
    }
}

fn run_write_log(handles: &mut Vec<ResourceHandle>, program_id: Address, data: u64) -> (out:
    InstructionOutcome)
    ensures
        outcome_matches(
            write_log_effect(views_of(old(handles)@), program_id, data),
            out,
            views_of(old(handles)@),
            views_of(final(handles)@),
        ),
{
    if handles.len() < 1 {
        return InstructionOutcome::Aborted(ValidationError::MalformedPayload);
    }
    let r = write_to_log_secure(&mut handles[0], program_id, data);
    proof {
        assert(views_of(handles@) =~= views_of(old(handles)@).update(0, handles@[0]@));
    }
    match r {
        Err(e) => {
            proof {
                assert(views_of(handles@) =~= views_of(old(handles)@));
            }
            InstructionOutcome::Aborted(e)
        },
        Ok(()) => InstructionOutcome::Committed,
    }
}

fn run_invoke_logger(
    handles: &mut Vec<ResourceHandle>,
    expected_logger: Address,
    message: Vec<u8>,
) -> (out: InstructionOutcome)
    ensures
        outcome_matches(
            invoke_logger_effect(views_of(old(handles)@), expected_logger, message@),
            out,
            views_of(old(handles)@),
            views_of(final(handles)@),
        ),
{
    if handles.len() < 1 {
        return InstructionOutcome::Aborted(ValidationError::MalformedPayload);
    }
    let forwarded: Vec<Address> = Vec::new();
    match cpi_secure(&handles[0], expected_logger, forwarded, message) {
        Err(e) => InstructionOutcome::Aborted(e),
        Ok(call) => InstructionOutcome::PendingInvocation(call),
    }
}

fn run_increment(handles: &mut Vec<ResourceHandle>, program_id: Address) -> (out:
    InstructionOutcome)
    ensures
        outcome_matches(
            increment_effect(views_of(old(handles)@), program_id),
            out,
            views_of(old(handles)@),
            views_of(final(handles)@),
        ),
{
    if handles.len() < 1 {
        return InstructionOutcome::Aborted(ValidationError::MalformedPayload);
    }
    let r = increment_secure(&mut handles[0], program_id);
    proof {
        assert(views_of(handles@) =~= views_of(old(handles)@).update(0, handles@[0]@));
    }
    match r {
        Err(e) => {
            proof {
                assert(views_of(handles@) =~= views_of(old(handles)@));
            }
            InstructionOutcome::Aborted(e)
        },
        Ok(()) => InstructionOutcome::Committed,
    }
}

fn run_withdraw(handles: &mut Vec<ResourceHandle>, program_id: Address) -> (out:
    InstructionOutcome)
    ensures
        outcome_matches(
            withdraw_effect(views_of(old(handles)@), program_id),
            out,
            views_of(old(handles)@),
            views_of(final(handles)@),
        ),
{
    if handles.len() < 2 {
        return InstructionOutcome::Aborted(ValidationError::MalformedPayload);
    }
    match withdraw_secure(&handles[0], &handles[1], program_id) {
        Err(e) => InstructionOutcome::Aborted(e),
        Ok(_) => InstructionOutcome::Committed,
    }
}

fn run_init_counter(
    handles: &mut Vec<ResourceHandle>,
    program_id: Address,
    initial_count: u64,
) -> (out: InstructionOutcome)
    ensures
        outcome_matches(
            init_counter_effect(views_of(old(handles)@), program_id, initial_count),
            out,
            views_of(old(handles)@),
            views_of(final(handles)@),
        ),
{
    if handles.len() < 1 {
        return InstructionOutcome::Aborted(ValidationError::MalformedPayload);
    }
    let r = initialize_counter(&mut handles[0], program_id, initial_count);
    proof {
        assert(views_of(handles@) =~= views_of(old(handles)@).update(0, handles@[0]@));
    }
    match r {
        Err(e) => {
            proof {
                assert(views_of(handles@) =~= views_of(old(handles)@));
            }
            InstructionOutcome::Aborted(e)
        },
        Ok(()) => InstructionOutcome::Committed,
    }
}

fn run_init_user(
    handles: &mut Vec<ResourceHandle>,
    program_id: Address,
    authority: Address,
    balance: u64,
) -> (out: InstructionOutcome)
    ensures
        outcome_matches(
            init_user_effect(views_of(old(handles)@), program_id, authority, balance),
            out,
            views_of(old(handles)@),
            views_of(final(handles)@),
        ),
{
    if handles.len() < 1 {
        return InstructionOutcome::Aborted(ValidationError::MalformedPayload);
    }
    let r = initialize_user(&mut handles[0], program_id, authority, balance);
    proof {
        assert(views_of(handles@) =~= views_of(old(handles)@).update(0, handles@[0]@));
    }
    match r {
        Err(e) => {
            proof {
                assert(views_of(handles@) =~= views_of(old(handles)@));
            }
            InstructionOutcome::Aborted(e)
        },
        Ok(()) => InstructionOutcome::Committed,
    }
}

fn run_init_vault(
    handles: &mut Vec<ResourceHandle>,
    program_id: Address,
    admin: Address,
    locked_amount: u64,
) -> (out: InstructionOutcome)
    ensures
        outcome_matches(
            init_vault_effect(views_of(old(handles)@), program_id, admin, locked_amount),
            out,
            views_of(old(handles)@),
            views_of(final(handles)@),
        ),
{
    if handles.len() < 1 {
        return InstructionOutcome::Aborted(ValidationError::MalformedPayload);
    }
    let r = initialize_vault(&mut handles[0], program_id, admin, locked_amount);
    proof {
        assert(views_of(handles@) =~= views_of(old(handles)@).update(0, handles@[0]@));
    }
    match r {
        Err(e) => {
            proof {
                assert(views_of(handles@) =~= views_of(old(handles)@));
            }
            InstructionOutcome::Aborted(e)
        },
        Ok(()) => InstructionOutcome::Committed,
    }
}

/// Runs one instruction through the pipeline: parse, evaluate the
/// operation's full required assertion set, execute against typed views,
/// and commit or abort atomically.
///
/// An aborted instruction is equivalent to one that never ran: every
/// handle's payload is byte-identical to how it arrived, whatever had
/// already been checked or computed when the failure surfaced.
pub fn dispatch_instruction(
    handles: &mut Vec<ResourceHandle>,
    program_id: Address,
    expected_logger: Address,
    data: &Vec<u8>,
) -> (out: InstructionOutcome)
    ensures
        outcome_matches(
            dispatch_spec(views_of(old(handles)@), program_id, expected_logger, data@),
            out,
            views_of(old(handles)@),
            views_of(final(handles)@),
        ),
        out matches InstructionOutcome::Aborted(_) ==> views_of(final(handles)@) == views_of(
            old(handles)@,
        ),
{
    let op = match parse_instruction(data) {
        Err(e) => {
            return InstructionOutcome::Aborted(e);
        },
        Ok(op) => op,
    };
    match op {
        Operation::SetScore => run_set_score(handles, program_id),
        Operation::WriteLog { data: value } => run_write_log(handles, program_id, value),
        Operation::InvokeLogger { message } => run_invoke_logger(
            handles,
            expected_logger,
            message,
        ),
        Operation::Increment => run_increment(handles, program_id),
        Operation::Withdraw => run_withdraw(handles, program_id),
        Operation::InitCounter { initial_count } => run_init_counter(
            handles,
            program_id,
            initial_count,
        ),
        Operation::InitUser { authority, balance } => run_init_user(
            handles,
            program_id,
            authority,
            balance,
        ),
        Operation::InitVault { admin, locked_amount } => run_init_vault(
            handles,
            program_id,
            admin,
            locked_amount,
        ),
    }
}

} // verus!
