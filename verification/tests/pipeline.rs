use refgate::cpi::resolve_sub_invocation;
use refgate::errors::ValidationError;
use refgate::handle::Address;
use refgate::handle::ResourceHandle;
use refgate::ops::withdraw_secure;
use refgate::pipeline::dispatch_instruction;
use refgate::pipeline::parse_instruction;
use refgate::pipeline::validate_for_operation;
use refgate::pipeline::InstructionOutcome;
use refgate::pipeline::Operation;
use refgate::pipeline::OP_INCREMENT;
use refgate::pipeline::OP_INIT_USER;
use refgate::pipeline::OP_INVOKE_LOGGER;
use refgate::pipeline::OP_SET_SCORE;
use refgate::pipeline::OP_WRITE_LOG;
use refgate::records::decode_counter;
use refgate::records::decode_game_data;
use refgate::records::decode_log_account;
use refgate::records::decode_user;
use refgate::records::encode_counter;
use refgate::records::encode_game_data;
use refgate::records::encode_log_account;
use refgate::records::encode_user;
use refgate::records::encode_vault;
use refgate::records::Counter;
use refgate::records::GameData;
use refgate::records::LogAccount;
use refgate::records::User;
use refgate::records::Vault;

fn pa(x: u64) -> Address {
    Address { w0: x, w1: 0, w2: x, w3: 0 }
}

fn account(owner: Address, size: usize) -> ResourceHandle {
    ResourceHandle {
        address: pa(700),
        declared_owner: owner,
        payload: vec![0u8; size],
        is_signer: false,
        is_executable: false,
    }
}

fn signer(address: Address) -> ResourceHandle {
    ResourceHandle {
        address,
        declared_owner: pa(0),
        payload: Vec::new(),
        is_signer: true,
        is_executable: false,
    }
}

fn data_with_u64(op: u8, value: u64) -> Vec<u8> {
    let mut d = vec![op];
    refgate::codec::push_u64_le(&mut d, value);
    d
}

#[test]
fn parse_rejects_empty_data() {
    assert_eq!(
        parse_instruction(&Vec::new()).err(),
        Some(ValidationError::MalformedPayload)
    );
}

#[test]
fn parse_rejects_unknown_opcode() {
    assert_eq!(
        parse_instruction(&vec![200u8]).err(),
        Some(ValidationError::MalformedPayload)
    );
}

#[test]
fn parse_rejects_ill_sized_arguments() {
    assert_eq!(
        parse_instruction(&vec![OP_WRITE_LOG, 1, 2]).err(),
        Some(ValidationError::MalformedPayload)
    );
}

#[test]
fn parse_reads_write_log_argument() {
    let d = data_with_u64(OP_WRITE_LOG, 77);
    match parse_instruction(&d) {
        Ok(Operation::WriteLog { data }) => assert_eq!(data, 77),
        other => panic!("unexpected parse result: {:?}", other.is_ok()),
    }
}

#[test]
fn parse_takes_rest_as_invoke_message() {
    let d = vec![OP_INVOKE_LOGGER, 10, 20, 30];
    match parse_instruction(&d) {
        Ok(Operation::InvokeLogger { message }) => assert_eq!(message, vec![10, 20, 30]),
        other => panic!("unexpected parse result: {:?}", other.is_ok()),
    }
}

#[test]
fn increment_commits_through_pipeline() {
    let program = pa(1);
    let mut counter = account(program, 16);
    assert_eq!(encode_counter(&mut counter, program, &Counter { count: 41 }), Ok(()));
    let mut handles = vec![counter];
    let out = dispatch_instruction(&mut handles, program, pa(99), &vec![OP_INCREMENT]);
    assert!(matches!(out, InstructionOutcome::Committed));
    assert_eq!(decode_counter(&handles[0], program), Ok(Counter { count: 42 }));
}

#[test]
fn increment_overflow_aborts_with_payload_unchanged() {
    let program = pa(1);
    let mut counter = account(program, 16);
    assert_eq!(encode_counter(&mut counter, program, &Counter { count: u64::MAX }), Ok(()));
    let before = counter.payload.clone();
    let mut handles = vec![counter];
    let out = dispatch_instruction(&mut handles, program, pa(99), &vec![OP_INCREMENT]);
    assert!(matches!(
        out,
        InstructionOutcome::Aborted(ValidationError::ArithmeticOverflow)
    ));
    assert_eq!(handles[0].payload, before);
}

#[test]
fn set_score_commits_for_signing_authority() {
    let program = pa(1);
    let authority_address = pa(5);
    let mut game = account(program, 48);
    assert_eq!(
        encode_game_data(&mut game, program, &GameData { score: 0, authority: authority_address }),
        Ok(())
    );
    let mut handles = vec![game, signer(authority_address)];
    let out = dispatch_instruction(&mut handles, program, pa(99), &vec![OP_SET_SCORE]);
    assert!(matches!(out, InstructionOutcome::Committed));
    let decoded = decode_game_data(&handles[0], program).unwrap();
    assert_eq!(decoded.score, 100);
    assert_eq!(decoded.authority, authority_address);
}

#[test]
fn unsigned_authority_aborts_with_not_signer() {
    let program = pa(1);
    let authority_address = pa(5);
    let mut game = account(program, 48);
    assert_eq!(
        encode_game_data(&mut game, program, &GameData { score: 0, authority: authority_address }),
        Ok(())
    );
    let before = game.payload.clone();
    let mut unsigned = signer(authority_address);
    unsigned.is_signer = false;
    let mut handles = vec![game, unsigned];
    let out = dispatch_instruction(&mut handles, program, pa(99), &vec![OP_SET_SCORE]);
    assert!(matches!(out, InstructionOutcome::Aborted(ValidationError::NotSigner)));
    assert_eq!(handles[0].payload, before);
}

#[test]
fn impostor_authority_aborts_with_not_signer() {
    let program = pa(1);
    let mut game = account(program, 48);
    assert_eq!(
        encode_game_data(&mut game, program, &GameData { score: 0, authority: pa(5) }),
        Ok(())
    );
    let before = game.payload.clone();
    // Signed, but by a key other than the record's stored authority.
    let mut handles = vec![game, signer(pa(6))];
    let out = dispatch_instruction(&mut handles, program, pa(99), &vec![OP_SET_SCORE]);
    assert!(matches!(out, InstructionOutcome::Aborted(ValidationError::NotSigner)));
    assert_eq!(handles[0].payload, before);
}

#[test]
fn foreign_owned_log_aborts_with_owner_mismatch() {
    let program = pa(1);
    let foreign = pa(2);
    let mut log = account(foreign, 16);
    // Well-formed log bytes, but under a foreign owner's layout authority.
    assert_eq!(encode_log_account(&mut log, foreign, &LogAccount { data: 1 }), Ok(()));
    let before = log.payload.clone();
    let mut handles = vec![log];
    let out = dispatch_instruction(&mut handles, program, pa(99), &data_with_u64(OP_WRITE_LOG, 9));
    assert!(matches!(
        out,
        InstructionOutcome::Aborted(ValidationError::OwnerMismatch)
    ));
    assert_eq!(handles[0].payload, before);
}

#[test]
fn write_log_commits_on_owned_log() {
    let program = pa(1);
    let mut log = account(program, 16);
    assert_eq!(encode_log_account(&mut log, program, &LogAccount { data: 1 }), Ok(()));
    let mut handles = vec![log];
    let out = dispatch_instruction(&mut handles, program, pa(99), &data_with_u64(OP_WRITE_LOG, 9));
    assert!(matches!(out, InstructionOutcome::Committed));
    assert_eq!(decode_log_account(&handles[0], program), Ok(LogAccount { data: 9 }));
}

#[test]
fn vault_cosplaying_as_user_aborts_with_type_mismatch() {
    let program = pa(1);
    let attacker = pa(66);
    let mut vault = account(program, 48);
    assert_eq!(
        encode_vault(&mut vault, program, &Vault { admin: attacker, locked_amount: 5000 }),
        Ok(())
    );
    // The attacker presents the vault as the user account and signs.
    let handles = vec![vault, signer(attacker)];
    let r = withdraw_secure(&handles[0], &handles[1], program);
    assert_eq!(r, Err(ValidationError::TypeMismatch));
}

#[test]
fn withdraw_releases_balance_to_signing_authority() {
    let program = pa(1);
    let authority_address = pa(5);
    let mut user = account(program, 48);
    assert_eq!(
        encode_user(&mut user, program, &User { authority: authority_address, balance: 250 }),
        Ok(())
    );
    let handles = vec![user, signer(authority_address)];
    assert_eq!(withdraw_secure(&handles[0], &handles[1], program), Ok(250));
}

#[test]
fn untrusted_invoke_target_aborts() {
    let program = pa(1);
    let trusted_logger = pa(99);
    let mut rogue = account(pa(0), 0);
    rogue.address = pa(98);
    rogue.is_executable = true;
    let mut handles = vec![rogue];
    let out = dispatch_instruction(&mut handles, program, trusted_logger, &vec![OP_INVOKE_LOGGER, 1]);
    assert!(matches!(
        out,
        InstructionOutcome::Aborted(ValidationError::UntrustedProgram)
    ));
}

#[test]
fn non_executable_invoke_target_aborts() {
    let program = pa(1);
    let trusted_logger = pa(99);
    let mut fake = account(pa(0), 0);
    fake.address = trusted_logger;
    let mut handles = vec![fake];
    let out = dispatch_instruction(&mut handles, program, trusted_logger, &vec![OP_INVOKE_LOGGER, 1]);
    assert!(matches!(
        out,
        InstructionOutcome::Aborted(ValidationError::UntrustedProgram)
    ));
}

#[test]
fn trusted_invoke_target_builds_the_call() {
    let program = pa(1);
    let trusted_logger = pa(99);
    let mut logger = account(pa(0), 0);
    logger.address = trusted_logger;
    logger.is_executable = true;
    let mut handles = vec![logger];
    let out = dispatch_instruction(
        &mut handles,
        program,
        trusted_logger,
        &vec![OP_INVOKE_LOGGER, 10, 20],
    );
    match out {
        InstructionOutcome::PendingInvocation(call) => {
            assert_eq!(call.target_address, trusted_logger);
            assert!(call.forwarded_handles.is_empty());
            assert_eq!(call.data, vec![10, 20]);
        },
        _ => panic!("expected a pending invocation"),
    }
}

#[test]
fn sub_invocation_failure_propagates() {
    assert_eq!(resolve_sub_invocation(true), Ok(()));
    assert_eq!(
        resolve_sub_invocation(false),
        Err(ValidationError::SubInvocationFailed)
    );
}

#[test]
fn init_user_commits_through_pipeline() {
    let program = pa(1);
    let authority_address = pa(5);
    let mut d = vec![OP_INIT_USER];
    refgate::handle::push_address(&mut d, &authority_address);
    refgate::codec::push_u64_le(&mut d, 4000);
    let mut handles = vec![account(program, 48)];
    let out = dispatch_instruction(&mut handles, program, pa(99), &d);
    assert!(matches!(out, InstructionOutcome::Committed));
    assert_eq!(
        decode_user(&handles[0], program),
        Ok(User { authority: authority_address, balance: 4000 })
    );
}

#[test]
fn init_counter_commits_through_pipeline() {
    let program = pa(1);
    let mut handles = vec![account(program, 16)];
    let d = data_with_u64(refgate::pipeline::OP_INIT_COUNTER, 11);
    let out = dispatch_instruction(&mut handles, program, pa(99), &d);
    assert!(matches!(out, InstructionOutcome::Committed));
    assert_eq!(decode_counter(&handles[0], program), Ok(Counter { count: 11 }));
}

#[test]
fn init_vault_into_short_account_aborts() {
    let program = pa(1);
    let mut handles = vec![account(program, 20)];
    let before = handles[0].payload.clone();
    let mut d = vec![refgate::pipeline::OP_INIT_VAULT];
    refgate::handle::push_address(&mut d, &pa(9));
    refgate::codec::push_u64_le(&mut d, 600);
    let out = dispatch_instruction(&mut handles, program, pa(99), &d);
    assert!(matches!(
        out,
        InstructionOutcome::Aborted(ValidationError::BufferTooSmall)
    ));
    assert_eq!(handles[0].payload, before);
}

#[test]
fn init_vault_commits_through_pipeline() {
    let program = pa(1);
    let mut handles = vec![account(program, 48)];
    let mut d = vec![refgate::pipeline::OP_INIT_VAULT];
    refgate::handle::push_address(&mut d, &pa(9));
    refgate::codec::push_u64_le(&mut d, 600);
    let out = dispatch_instruction(&mut handles, program, pa(99), &d);
    assert!(matches!(out, InstructionOutcome::Committed));
    assert_eq!(
        refgate::records::decode_vault(&handles[0], program),
        Ok(Vault { admin: pa(9), locked_amount: 600 })
    );
}

#[test]
fn missing_handles_abort_as_malformed() {
    let program = pa(1);
    let mut handles: Vec<ResourceHandle> = Vec::new();
    let out = dispatch_instruction(&mut handles, program, pa(99), &vec![OP_SET_SCORE]);
    assert!(matches!(
        out,
        InstructionOutcome::Aborted(ValidationError::MalformedPayload)
    ));
}

#[test]
fn full_assertion_set_is_idempotent() {
    let program = pa(1);
    let mut counter = account(program, 16);
    assert_eq!(encode_counter(&mut counter, program, &Counter { count: 1 }), Ok(()));
    let handles = vec![counter];
    let op = Operation::Increment;
    let first = validate_for_operation(&op, &handles, program, pa(99));
    let second = validate_for_operation(&op, &handles, program, pa(99));
    assert_eq!(first, Ok(()));
    assert_eq!(first, second);
}
