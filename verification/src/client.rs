use vstd::prelude::*;

use vstd::bytes::spec_u64_to_le_bytes;
use vstd::bytes::u64_to_le_bytes;

use crate::codec::encode_instruction;
use crate::codec::spec_encode;
use crate::codec::ProgramInstruction;
use crate::config::copy_bytes;
use crate::config::Pubkey;
use crate::config::PUBKEY_LEN;

verus! {

/// One account a program call names: its address, whether it must sign,
/// and whether the program may write it.
#[derive(Clone, Debug)]
pub struct AccountMetaModel {
    pub key: Pubkey,
    pub is_signer: bool,
    pub is_writable: bool,
}

/// A call into the ledger program, ready to be wrapped in a transaction:
/// the program's address, the accounts in their fixed order, and the
/// encoded instruction payload.
#[derive(Clone, Debug)]
pub struct InstructionModel {
    pub program_id: Pubkey,
    pub accounts: Vec<AccountMetaModel>,
    pub data: Vec<u8>,
}

/// The runtime account's address: the all-zero address.
pub fn system_program_id() -> (p: Pubkey)
    ensures
        p.wf(),
        forall|i: int| 0 <= i < PUBKEY_LEN ==> p@[i] == 0,
{
    let mut bytes: Vec<u8> = Vec::new();
    let mut i: usize = 0;
    while i < PUBKEY_LEN
        invariant
            i <= PUBKEY_LEN,
            bytes@.len() == i,
            forall|j: int| 0 <= j < i ==> bytes@[j] == 0,
        decreases PUBKEY_LEN - i,
    {
        bytes.push(0);
        i = i + 1;
    }
    Pubkey { bytes }
}

/// Builds one call into the ledger program: the encoded instruction as its
/// payload, and the fixed account order the program reads - the signing,
/// writable payer; the writable deposit account; the read-only runtime
/// account.
pub fn build_program_call(
    program_id: &Pubkey,
    payer: &Pubkey,
    vault: &Pubkey,
    instruction: &ProgramInstruction,
) -> (c: InstructionModel)
    ensures
        c.program_id@ == program_id@,
        c.data@ == spec_encode(*instruction),
        c.accounts@.len() == 3,
        c.accounts@[0].key@ == payer@ && c.accounts@[0].is_signer && c.accounts@[0].is_writable,
        c.accounts@[1].key@ == vault@ && !c.accounts@[1].is_signer && c.accounts@[1].is_writable,
        c.accounts@[2].key.wf() && (forall|i: int|
            0 <= i < PUBKEY_LEN ==> c.accounts@[2].key@[i] == 0) && !c.accounts@[2].is_signer
            && !c.accounts@[2].is_writable,
{
    let mut accounts: Vec<AccountMetaModel> = Vec::new();
    accounts.push(
        AccountMetaModel { key: payer.duplicate(), is_signer: true, is_writable: true },
    );
    accounts.push(
        AccountMetaModel { key: vault.duplicate(), is_signer: false, is_writable: true },
    );
    accounts.push(
        AccountMetaModel { key: system_program_id(), is_signer: false, is_writable: false },
    );
    InstructionModel {
        program_id: Pubkey { bytes: copy_bytes(&program_id.bytes) },
        accounts,
        data: encode_instruction(instruction),
    }
}

/// The client's deposit call: moves `amount` from the payer into the
/// deposit account.
pub fn build_deposit_call(program_id: &Pubkey, payer: &Pubkey, vault: &Pubkey, amount: u64) -> (c:
    InstructionModel)
    ensures
        c.data@ == spec_encode(ProgramInstruction::Deposit { amount }),
        c.program_id@ == program_id@,
        c.accounts@.len() == 3,
        c.accounts@[0].key@ == payer@ && c.accounts@[0].is_signer && c.accounts@[0].is_writable,
        c.accounts@[1].key@ == vault@ && !c.accounts@[1].is_signer && c.accounts@[1].is_writable,
        c.accounts@[2].key.wf() && (forall|i: int|
            0 <= i < PUBKEY_LEN ==> c.accounts@[2].key@[i] == 0) && !c.accounts@[2].is_signer
            && !c.accounts@[2].is_writable,
{
    build_program_call(program_id, payer, vault, &ProgramInstruction::Deposit { amount })
}

/// The client's withdrawal call: moves `amount` from the deposit account
/// back to the payer.
pub fn build_withdraw_call(program_id: &Pubkey, payer: &Pubkey, vault: &Pubkey, amount: u64) -> (c:
    InstructionModel)
    ensures
        c.data@ == spec_encode(ProgramInstruction::Withdraw { amount }),
        c.program_id@ == program_id@,
        c.accounts@.len() == 3,
        c.accounts@[0].key@ == payer@ && c.accounts@[0].is_signer && c.accounts@[0].is_writable,
        c.accounts@[1].key@ == vault@ && !c.accounts@[1].is_signer && c.accounts@[1].is_writable,
        c.accounts@[2].key.wf() && (forall|i: int|
            0 <= i < PUBKEY_LEN ==> c.accounts@[2].key@[i] == 0) && !c.accounts@[2].is_signer
            && !c.accounts@[2].is_writable,
{
    build_program_call(program_id, payer, vault, &ProgramInstruction::Withdraw { amount })
}

/// The data bytes of the runtime's own value-transfer instruction: its
/// little-endian discriminant of 2, then the lamports in little-endian
/// order.
pub open spec fn spec_system_transfer_data(lamports: u64) -> Seq<u8> {
    seq![2u8, 0u8, 0u8, 0u8] + spec_u64_to_le_bytes(lamports)
}

/// Builds the single value-transfer instruction a triggered action
/// submits: the runtime's transfer of `lamports` from the signing sender
/// to the recipient, both writable, addressed to the runtime account.
pub fn build_system_transfer(sender: &Pubkey, recipient: &Pubkey, lamports: u64) -> (c:
    InstructionModel)
    ensures
        c.program_id.wf() && (forall|i: int| 0 <= i < PUBKEY_LEN ==> c.program_id@[i] == 0),
        c.data@ == spec_system_transfer_data(lamports),
        c.accounts@.len() == 2,
        c.accounts@[0].key@ == sender@ && c.accounts@[0].is_signer && c.accounts@[0].is_writable,
        c.accounts@[1].key@ == recipient@ && !c.accounts@[1].is_signer
            && c.accounts@[1].is_writable,
{
    let mut accounts: Vec<AccountMetaModel> = Vec::new();
    accounts.push(
        AccountMetaModel { key: sender.duplicate(), is_signer: true, is_writable: true },
    );
    accounts.push(
        AccountMetaModel { key: recipient.duplicate(), is_signer: false, is_writable: true },
    );
    let mut data: Vec<u8> = Vec::new();
    data.push(2);
    data.push(0);
    data.push(0);
    data.push(0);
    let mut amount_bytes = u64_to_le_bytes(lamports);
    data.append(&mut amount_bytes);
    proof {
        assert(data@ =~= spec_system_transfer_data(lamports));
    }
    InstructionModel { program_id: system_program_id(), accounts, data }
}

} // verus!
