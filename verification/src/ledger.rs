use vstd::prelude::*;

use vstd::slice::slice_index_get;
use vstd::slice::slice_subrange;

use crate::codec::parse_instruction;
use crate::codec::spec_decode;
use crate::codec::ProgramInstruction;

verus! {

/// The structured rejections the balance-holding ledger program can return.
#[derive(Clone, Copy, Debug, PartialEq, Eq, Structural)]
pub enum ProgramError {
    /// Fewer accounts were handed to the program than it reads.
    NotEnoughAccountKeys,
    /// The paying account did not sign the transaction.
    MissingRequiredSignature,
    /// The payload was too short or carried an unknown opcode.
    InvalidInstructionData,
    /// The debited account holds less than the requested amount.
    InsufficientFunds,
}

/// One account as the runtime hands it to the program: its balance in the
/// smallest ledger unit, and whether it signed the transaction.
#[derive(Clone, Copy, Debug, PartialEq, Eq, Structural)]
pub struct LedgerAccount {
    pub lamports: u64,
    pub is_signer: bool,
}

/// The client-side view of the balance-holding account's state.
#[derive(Clone, Copy, Debug, PartialEq, Eq, Structural)]
pub struct DepositAccount {
    pub balance: u64,
}

/// An instruction payload arrives behind a fixed eight-byte envelope prefix,
/// which the program strips before reading; a payload shorter than the
/// prefix is read whole.
pub open spec fn spec_strip_prefix(data: Seq<u8>) -> Seq<u8> {
    if data.len() >= 8 {
        data.skip(8)
    } else {
        data
    }
}

/// What a deposit does to the payer and the deposit account: the signing
/// payer hands `amount` to the deposit account. An unsigned payer is
/// rejected; a payer holding less than `amount` cannot fund the transfer
/// and is rejected by the runtime, reported here as insufficient funds.
pub open spec fn spec_deposit(user: LedgerAccount, vault: LedgerAccount, amount: u64) -> Result<
    (LedgerAccount, LedgerAccount),
    ProgramError,
> {
    if !user.is_signer {
        Err(ProgramError::MissingRequiredSignature)
    } else if user.lamports < amount {
        Err(ProgramError::InsufficientFunds)
    } else {
        Ok(
            (
                LedgerAccount { lamports: (user.lamports - amount) as u64, ..user },
                LedgerAccount { lamports: (vault.lamports + amount) as u64, ..vault },
            ),
        )
    }
}

/// What a withdrawal does: the deposit account hands `amount` back to the
/// signing payer. An unsigned payer is rejected; a deposit account holding
/// less than `amount` is rejected with insufficient funds and no value
/// moves.
pub open spec fn spec_withdraw(user: LedgerAccount, vault: LedgerAccount, amount: u64) -> Result<
    (LedgerAccount, LedgerAccount),
    ProgramError,
> {
    if !user.is_signer {
        Err(ProgramError::MissingRequiredSignature)
    } else if vault.lamports < amount {
        Err(ProgramError::InsufficientFunds)
    } else {
        Ok(
            (
                LedgerAccount { lamports: (user.lamports + amount) as u64, ..user },
                LedgerAccount { lamports: (vault.lamports - amount) as u64, ..vault },
            ),
        )
    }
}

/// The effect of one decoded instruction on the two balance-carrying
/// accounts.
pub open spec fn spec_apply(
    user: LedgerAccount,
    vault: LedgerAccount,
    i: ProgramInstruction,
) -> Result<(LedgerAccount, LedgerAccount), ProgramError> {
    match i {
        ProgramInstruction::Deposit { amount } => spec_deposit(user, vault, amount),
        ProgramInstruction::Withdraw { amount } => spec_withdraw(user, vault, amount),
    }
}

/// The whole program on one call: strip the envelope prefix, decode the
/// instruction, and apply it to the payer and the deposit account. The
/// payload is validated first, so an undecodable payload is rejected as
/// invalid instruction data whatever the account list holds; only a
/// decodable payload reaches the accounts, and too short a list is then
/// rejected for its count.
pub open spec fn spec_process(accounts: Seq<LedgerAccount>, data: Seq<u8>) -> Result<
    (LedgerAccount, LedgerAccount),
    ProgramError,
> {
    match spec_decode(spec_strip_prefix(data)) {
        None => Err(ProgramError::InvalidInstructionData),
        Some(i) => if accounts.len() < 3 {
            Err(ProgramError::NotEnoughAccountKeys)
        } else {
            spec_apply(accounts[0], accounts[1], i)
        },
    }
}

/// Moves `amount` from the signing payer into the deposit account. The two
/// balances together must fit the word, which the ledger guarantees of the
/// total value in circulation.
pub fn deposit(user: &LedgerAccount, vault: &LedgerAccount, amount: u64) -> (r: Result<
    (LedgerAccount, LedgerAccount),
    ProgramError,
>)
    requires
        user.lamports + vault.lamports <= u64::MAX,
    ensures
        r == spec_deposit(*user, *vault, amount),
{
    if !user.is_signer {
        return Err(ProgramError::MissingRequiredSignature);
    }
    if user.lamports < amount {
        return Err(ProgramError::InsufficientFunds);
    }
    Ok(
        (
            LedgerAccount { lamports: user.lamports - amount, is_signer: user.is_signer },
            LedgerAccount { lamports: vault.lamports + amount, is_signer: vault.is_signer },
        ),
    )
}

/// Moves `amount` from the deposit account back to the signing payer,
/// refusing a withdrawal the deposit account cannot cover.
pub fn withdraw(user: &LedgerAccount, vault: &LedgerAccount, amount: u64) -> (r: Result<
    (LedgerAccount, LedgerAccount),
    ProgramError,
>)
    requires
        user.lamports + vault.lamports <= u64::MAX,
    ensures
        r == spec_withdraw(*user, *vault, amount),
{
    if !user.is_signer {
        return Err(ProgramError::MissingRequiredSignature);
    }
    if vault.lamports < amount {
        return Err(ProgramError::InsufficientFunds);
    }
    Ok(
        (
            LedgerAccount { lamports: user.lamports + amount, is_signer: user.is_signer },
            LedgerAccount { lamports: vault.lamports - amount, is_signer: vault.is_signer },
        ),
    )
}

/// The program entry point over the modeled runtime: strips the prefix and
/// decodes the instruction, then reads the payer, the deposit account and
/// the runtime account in that fixed order and applies it. Returns the two
/// updated accounts.
pub fn process_instruction(accounts: &[LedgerAccount], data: &[u8]) -> (r: Result<
    (LedgerAccount, LedgerAccount),
    ProgramError,
>)
    requires
        accounts@.len() >= 3 ==> accounts@[0].lamports + accounts@[1].lamports <= u64::MAX,
    ensures
        r == spec_process(accounts@, data@),
{
    let stripped: &[u8] = if data.len() >= 8 {
        slice_subrange(data, 8, data.len())
    } else {
        data
    };
    proof {
        assert(stripped@ =~= spec_strip_prefix(data@));
    }
    let instruction = match parse_instruction(stripped) {
        Ok(i) => i,
        Err(e) => {
            return Err(e);
        },
    };
    if accounts.len() < 3 {
        return Err(ProgramError::NotEnoughAccountKeys);
    }
    let user = *slice_index_get(accounts, 0);
    let vault = *slice_index_get(accounts, 1);
    match instruction {
        ProgramInstruction::Deposit { amount } => deposit(&user, &vault, amount),
        ProgramInstruction::Withdraw { amount } => withdraw(&user, &vault, amount),
    }
}

} // verus!
