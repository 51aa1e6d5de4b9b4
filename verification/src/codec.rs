use vstd::prelude::*;

use vstd::bytes::lemma_auto_spec_u64_to_from_le_bytes;
use vstd::bytes::spec_u64_from_le_bytes;
use vstd::bytes::spec_u64_to_le_bytes;
use vstd::bytes::u64_from_le_bytes;
use vstd::bytes::u64_to_le_bytes;
use vstd::slice::slice_index_get;
use vstd::slice::slice_subrange;

use crate::ledger::ProgramError;

verus! {

/// Wire opcode of a deposit instruction.
pub const DEPOSIT_OPCODE: u8 = 0;

/// Wire opcode of a withdrawal instruction.
pub const WITHDRAW_OPCODE: u8 = 1;

/// Length of a well-formed instruction payload: one opcode byte followed by
/// an eight-byte little-endian amount.
pub const INSTRUCTION_LEN: usize = 9;

/// One instruction of the balance-holding ledger program: a deposit moves
/// value from the payer into the deposit account, a withdrawal moves it back.
#[derive(Clone, Copy, Debug, PartialEq, Eq, Structural)]
pub enum ProgramInstruction {
    Deposit { amount: u64 },
    Withdraw { amount: u64 },
}

/// The byte encoding of an instruction: its opcode, then the amount in
/// little-endian order.
pub open spec fn spec_encode(i: ProgramInstruction) -> Seq<u8> {
    match i {
        ProgramInstruction::Deposit { amount } => seq![DEPOSIT_OPCODE]
            + spec_u64_to_le_bytes(amount),
        ProgramInstruction::Withdraw { amount } => seq![WITHDRAW_OPCODE]
            + spec_u64_to_le_bytes(amount),
    }
}

/// What an instruction payload decodes to: the first nine bytes carry the
/// instruction and anything beyond them is ignored; a payload shorter than
/// nine bytes, or one with an unknown opcode, decodes to nothing.
pub open spec fn spec_decode(data: Seq<u8>) -> Option<ProgramInstruction> {
    if data.len() < INSTRUCTION_LEN {
        None
    } else if data[0] == DEPOSIT_OPCODE {
        Some(ProgramInstruction::Deposit { amount: spec_u64_from_le_bytes(data.subrange(1, 9)) })
    } else if data[0] == WITHDRAW_OPCODE {
        Some(ProgramInstruction::Withdraw { amount: spec_u64_from_le_bytes(data.subrange(1, 9)) })
    } else {
        None
    }
}

/// Encodes an instruction for the wire: opcode byte, then the amount as
/// eight little-endian bytes.
pub fn encode_instruction(i: &ProgramInstruction) -> (r: Vec<u8>)
    ensures
        r@ == spec_encode(*i),
{
    let (opcode, amount): (u8, u64) = match i {
        ProgramInstruction::Deposit { amount } => (DEPOSIT_OPCODE, *amount),
        ProgramInstruction::Withdraw { amount } => (WITHDRAW_OPCODE, *amount),
    };
    let mut r: Vec<u8> = Vec::new();
    r.push(opcode);
    let mut tail = u64_to_le_bytes(amount);
    r.append(&mut tail);
    proof {
        assert(r@ =~= spec_encode(*i));
    }
    r
}

/// Decodes an instruction payload. Returns the instruction exactly when the
/// payload is well formed; every malformed payload is rejected as invalid
/// instruction data.
pub fn parse_instruction(data: &[u8]) -> (r: Result<ProgramInstruction, ProgramError>)
    ensures
        match r {
            Ok(i) => spec_decode(data@) == Some(i),
            Err(e) => spec_decode(data@) is None && e == ProgramError::InvalidInstructionData,
        },
{
    if data.len() < INSTRUCTION_LEN {
        return Err(ProgramError::InvalidInstructionData);
    }
    let opcode = *slice_index_get(data, 0);
    let amount_bytes = slice_subrange(data, 1, INSTRUCTION_LEN);
    let amount = u64_from_le_bytes(amount_bytes);
    if opcode == DEPOSIT_OPCODE {
        Ok(ProgramInstruction::Deposit { amount })
    } else if opcode == WITHDRAW_OPCODE {
        Ok(ProgramInstruction::Withdraw { amount })
    } else {
        Err(ProgramError::InvalidInstructionData)
    }
}

/// Law: decoding the encoding of any instruction yields that instruction
/// back, whatever its kind and amount.
pub proof fn lemma_encode_decode_round_trip(i: ProgramInstruction)
    ensures
        spec_decode(spec_encode(i)) == Some(i),
{
    lemma_auto_spec_u64_to_from_le_bytes();
    let data = spec_encode(i);
    match i {
        ProgramInstruction::Deposit { amount } => {
            assert(data.subrange(1, 9) =~= spec_u64_to_le_bytes(amount));
        }
        ProgramInstruction::Withdraw { amount } => {
            assert(data.subrange(1, 9) =~= spec_u64_to_le_bytes(amount));
        }
    }
}

} // verus!
