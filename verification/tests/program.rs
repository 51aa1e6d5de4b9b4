use sol_relay::codec::encode_instruction;
use sol_relay::codec::parse_instruction;
use sol_relay::codec::ProgramInstruction;
use sol_relay::ledger::deposit;
use sol_relay::ledger::process_instruction;
use sol_relay::ledger::withdraw;
use sol_relay::ledger::DepositAccount;
use sol_relay::ledger::LedgerAccount;
use sol_relay::ledger::ProgramError;

fn prefixed(payload: &[u8]) -> Vec<u8> {
    let mut data = vec![0u8; 8];
    data.extend_from_slice(payload);
    data
}

#[test]
fn encode_deposit_exact_bytes() {
    let e = encode_instruction(&ProgramInstruction::Deposit { amount: 1_000_000 });
    assert_eq!(e, vec![0u8, 0x40, 0x42, 0x0F, 0, 0, 0, 0, 0]);
}

#[test]
fn encode_withdraw_exact_bytes() {
    let e = encode_instruction(&ProgramInstruction::Withdraw { amount: 300 });
    assert_eq!(e, vec![1u8, 0x2C, 0x01, 0, 0, 0, 0, 0, 0]);
}

#[test]
fn round_trip_deposit() {
    let i = ProgramInstruction::Deposit { amount: 123_456_789 };
    let e = encode_instruction(&i);
    assert_eq!(parse_instruction(&e), Ok(i));
}

#[test]
fn round_trip_withdraw() {
    let i = ProgramInstruction::Withdraw { amount: u64::MAX };
    let e = encode_instruction(&i);
    assert_eq!(parse_instruction(&e), Ok(i));
}

#[test]
fn unknown_opcode_rejected() {
    for opcode in [2u8, 7, 255] {
        let mut data = vec![opcode];
        data.extend_from_slice(&42u64.to_le_bytes());
        assert_eq!(parse_instruction(&data), Err(ProgramError::InvalidInstructionData));
    }
}

#[test]
fn short_payload_rejected() {
    assert_eq!(parse_instruction(&[]), Err(ProgramError::InvalidInstructionData));
    assert_eq!(parse_instruction(&[0]), Err(ProgramError::InvalidInstructionData));
    let eight = [0u8; 8];
    assert_eq!(parse_instruction(&eight), Err(ProgramError::InvalidInstructionData));
}

#[test]
fn deposit_moves_balance() {
    let user = LedgerAccount { lamports: 2_000, is_signer: true };
    let vault = LedgerAccount { lamports: 100, is_signer: false };
    let (user2, vault2) = deposit(&user, &vault, 500).unwrap();
    assert_eq!(user2.lamports, 1_500);
    assert_eq!(vault2.lamports, 600);
}

#[test]
fn deposit_requires_signer() {
    let user = LedgerAccount { lamports: 2_000, is_signer: false };
    let vault = LedgerAccount { lamports: 100, is_signer: false };
    assert_eq!(deposit(&user, &vault, 500), Err(ProgramError::MissingRequiredSignature));
}

#[test]
fn deposit_refused_when_payer_short() {
    let user = LedgerAccount { lamports: 100, is_signer: true };
    let vault = LedgerAccount { lamports: 0, is_signer: false };
    assert_eq!(deposit(&user, &vault, 500), Err(ProgramError::InsufficientFunds));
}

#[test]
fn withdraw_insufficiency_scenario() {
    let user = LedgerAccount { lamports: 10, is_signer: true };
    let vault = LedgerAccount { lamports: 500, is_signer: false };
    assert_eq!(withdraw(&user, &vault, 1_000), Err(ProgramError::InsufficientFunds));
}

#[test]
fn withdraw_moves_balance_back() {
    let user = LedgerAccount { lamports: 10, is_signer: true };
    let vault = LedgerAccount { lamports: 500, is_signer: false };
    let (user2, vault2) = withdraw(&user, &vault, 400).unwrap();
    assert_eq!(user2.lamports, 410);
    assert_eq!(vault2.lamports, 100);
}

#[test]
fn program_rejects_withdraw_overdraft() {
    let accounts = [
        LedgerAccount { lamports: 10, is_signer: true },
        LedgerAccount { lamports: 500, is_signer: false },
        LedgerAccount { lamports: 0, is_signer: false },
    ];
    let data = prefixed(&encode_instruction(&ProgramInstruction::Withdraw { amount: 1_000 }));
    assert_eq!(
        process_instruction(&accounts, &data),
        Err(ProgramError::InsufficientFunds)
    );
}

#[test]
fn program_applies_deposit() {
    let accounts = [
        LedgerAccount { lamports: 5_000, is_signer: true },
        LedgerAccount { lamports: 0, is_signer: false },
        LedgerAccount { lamports: 0, is_signer: false },
    ];
    let data = prefixed(&encode_instruction(&ProgramInstruction::Deposit { amount: 1_234 }));
    let (user2, vault2) = process_instruction(&accounts, &data).unwrap();
    assert_eq!(user2.lamports, 3_766);
    assert_eq!(vault2.lamports, 1_234);
}

#[test]
fn program_requires_three_accounts() {
    let accounts = [
        LedgerAccount { lamports: 5_000, is_signer: true },
        LedgerAccount { lamports: 0, is_signer: false },
    ];
    let data = prefixed(&encode_instruction(&ProgramInstruction::Deposit { amount: 1 }));
    assert_eq!(
        process_instruction(&accounts, &data),
        Err(ProgramError::NotEnoughAccountKeys)
    );
}

#[test]
fn program_rejects_garbage_payload() {
    let accounts = [
        LedgerAccount { lamports: 5_000, is_signer: true },
        LedgerAccount { lamports: 0, is_signer: false },
        LedgerAccount { lamports: 0, is_signer: false },
    ];
    assert_eq!(
        process_instruction(&accounts, &prefixed(&[9u8, 1, 2, 3, 4, 5, 6, 7, 8])),
        Err(ProgramError::InvalidInstructionData)
    );
    assert_eq!(
        process_instruction(&accounts, &prefixed(&[])),
        Err(ProgramError::InvalidInstructionData)
    );
}

#[test]
fn payload_checked_before_accounts() {
    // The payload is validated before the account list is read: a malformed
    // payload is rejected as invalid instruction data however many accounts
    // were handed in, the empty list included.
    let no_accounts: [LedgerAccount; 0] = [];
    assert_eq!(
        process_instruction(&no_accounts, &[]),
        Err(ProgramError::InvalidInstructionData)
    );
    assert_eq!(
        process_instruction(&no_accounts, &prefixed(&[9u8, 1, 2, 3, 4, 5, 6, 7, 8])),
        Err(ProgramError::InvalidInstructionData)
    );
    let two = [
        LedgerAccount { lamports: 1, is_signer: true },
        LedgerAccount { lamports: 1, is_signer: false },
    ];
    assert_eq!(
        process_instruction(&two, &prefixed(&[0u8, 1, 2])),
        Err(ProgramError::InvalidInstructionData)
    );
    // Only a decodable payload reaches the account-count check.
    assert_eq!(
        process_instruction(&no_accounts, &prefixed(&encode_instruction(
            &ProgramInstruction::Deposit { amount: 5 }
        ))),
        Err(ProgramError::NotEnoughAccountKeys)
    );
}

#[test]
fn program_reads_short_data_whole() {
    // A payload shorter than the envelope prefix is read as it stands.
    let accounts = [
        LedgerAccount { lamports: 50, is_signer: true },
        LedgerAccount { lamports: 0, is_signer: false },
        LedgerAccount { lamports: 0, is_signer: false },
    ];
    // Seven bytes: no prefix to strip, still too short to decode.
    assert_eq!(
        process_instruction(&accounts, &[0u8, 1, 0, 0, 0, 0, 0]),
        Err(ProgramError::InvalidInstructionData)
    );
}

#[test]
fn deposit_account_view() {
    let a = DepositAccount { balance: 500 };
    assert_eq!(a.balance, 500);
}
