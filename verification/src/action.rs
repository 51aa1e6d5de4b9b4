use vstd::prelude::*;

use crate::config::Pubkey;
use crate::config::KEYPAIR_LEN;

verus! {

/// The immutable order the process runs on: the sender's decoded key
/// material, the recipient, the fixed amount moved on every trigger, and
/// whether the process simulates instead of submitting. Created once at
/// startup, read on every triggered action, never mutated.
#[derive(Clone, Debug)]
pub struct TransferOrder {
    pub sender_key: Vec<u8>,
    pub recipient: Pubkey,
    pub amount: u64,
    pub dry_run: bool,
}

impl TransferOrder {
    /// The key material has keypair length and the recipient is a
    /// well-formed address.
    pub open spec fn wf(self) -> bool {
        self.sender_key@.len() == KEYPAIR_LEN && self.recipient.wf()
    }
}

/// A transfer recorded in simulation mode in place of a submission: the
/// triggering slot, the amount that would have moved, and to whom.
#[derive(Clone, Debug)]
pub struct SimulatedTransfer {
    pub slot: u64,
    pub amount: u64,
    pub recipient: Pubkey,
}

/// A submission the live mode must perform: move the fixed amount to the
/// recipient, for the triggering slot.
#[derive(Clone, Debug)]
pub struct SubmitRequest {
    pub slot: u64,
    pub amount: u64,
    pub recipient: Pubkey,
}

/// What one trigger asks of the outside: record a simulated transfer, or
/// fetch a freshness token, sign and submit.
#[derive(Clone, Debug)]
pub enum TransferPlan {
    Simulate(SimulatedTransfer),
    Submit(SubmitRequest),
}

/// The record a block event leaves in simulation mode: tagged with its
/// triggering slot, carrying the order's amount and recipient.
pub fn simulated_transfer(order: &TransferOrder, slot: u64) -> (s: SimulatedTransfer)
    ensures
        s.slot == slot,
        s.amount == order.amount,
        s.recipient@ == order.recipient@,
{
    SimulatedTransfer { slot, amount: order.amount, recipient: order.recipient.duplicate() }
}

/// Decides what a triggering slot demands: in simulation mode a recorded
/// transfer and nothing else; otherwise a real submission of the fixed
/// amount to the recipient.
pub fn plan_transfer(order: &TransferOrder, slot: u64) -> (p: TransferPlan)
    ensures
        order.dry_run ==> (p matches TransferPlan::Simulate(s) && s.slot == slot && s.amount
            == order.amount && s.recipient@ == order.recipient@),
        !order.dry_run ==> (p matches TransferPlan::Submit(q) && q.slot == slot && q.amount
            == order.amount && q.recipient@ == order.recipient@),
{
    if order.dry_run {
        TransferPlan::Simulate(simulated_transfer(order, slot))
    } else {
        TransferPlan::Submit(
            SubmitRequest { slot, amount: order.amount, recipient: order.recipient.duplicate() },
        )
    }
}

/// What the submission endpoint reported of one attempt. Fetching the
/// freshness token, signing and submitting are the endpoint's and the
/// signer's work; the pipeline consumes only this outcome.
#[derive(Clone, Debug)]
pub enum SubmitOutcome {
    Confirmed { signature: String },
    Rejected { reason: String },
}

/// A completed transfer: the transaction identifier and the triggering
/// slot, kept together for correlation.
#[derive(Clone, Debug)]
pub struct TransferReceipt {
    pub slot: u64,
    pub signature: String,
}

/// A failed transfer: the triggering slot and the underlying cause. It is
/// reported, never retried; the next block event is the only retry vector.
#[derive(Clone, Debug)]
pub struct TransferError {
    pub slot: u64,
    pub reason: String,
}

/// Ties the endpoint's verdict back to the triggering slot: a confirmed
/// submission yields a receipt, a rejected one an error, each carrying the
/// slot it was fired for.
pub fn complete_transfer(slot: u64, outcome: SubmitOutcome) -> (r: Result<
    TransferReceipt,
    TransferError,
>)
    ensures
        outcome matches SubmitOutcome::Confirmed { signature } ==> r matches Ok(t) && t.slot
            == slot && t.signature == signature,
        outcome matches SubmitOutcome::Rejected { reason } ==> r matches Err(e) && e.slot == slot
            && e.reason == reason,
{
    match outcome {
        SubmitOutcome::Confirmed { signature } => Ok(TransferReceipt { slot, signature }),
        SubmitOutcome::Rejected { reason } => Err(TransferError { slot, reason }),
    }
}

} // verus!
