use vstd::prelude::*;

use crate::action::simulated_transfer;
use crate::action::SimulatedTransfer;
use crate::action::TransferOrder;
use crate::protocol::Update;
use crate::protocol::UpdateMessage;

verus! {

/// The slot a frame triggers on: a block event's slot; every other frame,
/// and a frame with no variant set, triggers nothing.
pub open spec fn spec_route(m: UpdateMessage) -> Option<u64> {
    match m.update {
        Some(Update::Block(b)) => Some(b.slot),
        _ => None,
    }
}

/// Routes one frame: exactly the block variant reaches the action handler,
/// with its triggering slot; every other variant is ignored.
pub fn route(m: &UpdateMessage) -> (r: Option<u64>)
    ensures
        r == spec_route(*m),
{
    match &m.update {
        Some(Update::Block(b)) => Some(b.slot),
        _ => None,
    }
}

/// Law: a frame triggers the action handler exactly when it carries the
/// block variant - zero others, whatever mix of variants the feed delivers.
pub proof fn lemma_route_exactly_blocks(m: UpdateMessage)
    ensures
        (spec_route(m) is Some) <==> (m.update matches Some(u) && u is Block),
{
}

/// The slots of the block events in a frame sequence, in arrival order.
pub open spec fn triggering_slots(ms: Seq<UpdateMessage>) -> Seq<u64>
    decreases ms.len(),
{
    if ms.len() == 0 {
        Seq::empty()
    } else {
        let prefix = triggering_slots(ms.drop_last());
        match spec_route(ms.last()) {
            Some(slot) => prefix.push(slot),
            None => prefix,
        }
    }
}

/// How often a slot appears in a slot sequence.
pub open spec fn count_slot(slots: Seq<u64>, slot: u64) -> nat
    decreases slots.len(),
{
    if slots.len() == 0 {
        0
    } else {
        count_slot(slots.drop_last(), slot) + if slots.last() == slot {
            1nat
        } else {
            0nat
        }
    }
}

/// How often a frame sequence delivers a block event with a given slot.
pub open spec fn count_deliveries(ms: Seq<UpdateMessage>, slot: u64) -> nat
    decreases ms.len(),
{
    if ms.len() == 0 {
        0
    } else {
        count_deliveries(ms.drop_last(), slot) + if spec_route(ms.last()) == Some(slot) {
            1nat
        } else {
            0nat
        }
    }
}

/// Law: the dispatcher deduplicates nothing. Every delivery of a slot
/// appears among the triggering slots, as often as it was delivered - a
/// duplicate delivery of the same slot triggers twice.
pub proof fn lemma_no_deduplication(ms: Seq<UpdateMessage>, slot: u64)
    ensures
        count_slot(triggering_slots(ms), slot) == count_deliveries(ms, slot),
    decreases ms.len(),
{
    if ms.len() == 0 {
    } else {
        lemma_no_deduplication(ms.drop_last(), slot);
        let prefix = triggering_slots(ms.drop_last());
        match spec_route(ms.last()) {
            Some(s) => {
                assert(triggering_slots(ms) == prefix.push(s));
                assert(prefix.push(s).drop_last() =~= prefix);
            },
            None => {},
        }
    }
}

/// Drives a whole frame sequence through the dispatcher in simulation
/// mode: exactly the block events trigger, in arrival order, and each
/// recorded transfer carries its triggering slot and the order's fixed
/// amount and recipient.
pub fn run_simulation(order: &TransferOrder, messages: &Vec<UpdateMessage>) -> (log: Vec<
    SimulatedTransfer,
>)
    requires
        order.dry_run,
    ensures
        log@.len() == triggering_slots(messages@).len(),
        forall|i: int|
            0 <= i < log@.len() ==> {
                &&& (#[trigger] log@[i]).slot == triggering_slots(messages@)[i]
                &&& log@[i].amount == order.amount
                &&& log@[i].recipient@ == order.recipient@
            },
{
    let mut log: Vec<SimulatedTransfer> = Vec::new();
    let mut i: usize = 0;
    while i < messages.len()
        invariant
            i <= messages@.len(),
            order.dry_run,
            log@.len() == triggering_slots(messages@.take(i as int)).len(),
            forall|j: int|
                0 <= j < log@.len() ==> {
                    &&& (#[trigger] log@[j]).slot == triggering_slots(messages@.take(i as int))[j]
                    &&& log@[j].amount == order.amount
                    &&& log@[j].recipient@ == order.recipient@
                },
        decreases messages@.len() - i,
    {
        let ghost prev = messages@.take(i as int);
        match route(&messages[i]) {
            Some(slot) => {
                log.push(simulated_transfer(order, slot));
            },
            None => {},
        }
        i = i + 1;
        proof {
            let cur = messages@.take(i as int);
            assert(cur.drop_last() =~= prev);
            assert(cur.last() == messages@[i - 1]);
        }
    }
    proof {
        assert(messages@.take(messages@.len() as int) =~= messages@);
    }
    log
}

/// The error that ended a stream: the transport's or the server's reason.
#[derive(Clone, Debug)]
pub struct StreamError {
    pub reason: String,
}

/// One item the open stream yields: a frame, or the error that ends it.
#[derive(Clone, Debug)]
pub enum StreamItem {
    Message(UpdateMessage),
    Failure(StreamError),
}

/// The slots the dispatcher triggers on while draining a stream: the block
/// events' slots, in order, up to the first error; nothing after it is
/// consumed.
pub open spec fn session_slots(items: Seq<StreamItem>) -> Seq<u64>
    decreases items.len(),
{
    if items.len() == 0 {
        Seq::empty()
    } else {
        match items[0] {
            StreamItem::Failure(_) => Seq::empty(),
            StreamItem::Message(m) => match spec_route(m) {
                Some(slot) => seq![slot] + session_slots(items.skip(1)),
                None => session_slots(items.skip(1)),
            },
        }
    }
}

/// The error a drained stream ends with, if one ends it.
pub open spec fn session_failure(items: Seq<StreamItem>) -> Option<StreamError>
    decreases items.len(),
{
    if items.len() == 0 {
        None
    } else {
        match items[0] {
            StreamItem::Failure(e) => Some(e),
            StreamItem::Message(_) => session_failure(items.skip(1)),
        }
    }
}

/// How one connection's drain ended: the transfers recorded in simulation
/// mode, and the error that ended the stream - which the dispatcher hands
/// to the supervisor - if one did.
#[derive(Clone, Debug)]
pub struct SessionOutcome {
    pub log: Vec<SimulatedTransfer>,
    pub failure: Option<StreamError>,
}

/// Drains one connection's stream in simulation mode: every block event up
/// to the first error triggers a recorded transfer, in arrival order; on an
/// error frame the dispatcher stops consuming and reports the error.
pub fn dispatch_session(order: &TransferOrder, items: Vec<StreamItem>) -> (out: SessionOutcome)
    requires
        order.dry_run,
    ensures
        out.log@.len() == session_slots(items@).len(),
        forall|i: int|
            0 <= i < out.log@.len() ==> {
                &&& (#[trigger] out.log@[i]).slot == session_slots(items@)[i]
                &&& out.log@[i].amount == order.amount
                &&& out.log@[i].recipient@ == order.recipient@
            },
        out.failure == session_failure(items@),
    decreases items@.len(),
{
    let ghost orig = items@;
    let mut items = items;
    if items.len() == 0 {
        SessionOutcome { log: Vec::new(), failure: None }
    } else {
        let first = items.remove(0);
        proof {
            assert(items@ =~= orig.skip(1));
        }
        match first {
            StreamItem::Failure(e) => SessionOutcome { log: Vec::new(), failure: Some(e) },
            StreamItem::Message(m) => {
                let triggered = route(&m);
                let rest = dispatch_session(order, items);
                match triggered {
                    Some(slot) => {
                        let SessionOutcome { log: mut rest_log, failure } = rest;
                        let mut log: Vec<SimulatedTransfer> = Vec::new();
                        log.push(simulated_transfer(order, slot));
                        log.append(&mut rest_log);
                        proof {
                            assert(session_slots(orig) =~= seq![slot] + session_slots(
                                orig.skip(1),
                            ));
                        }
                        SessionOutcome { log, failure }
                    },
                    None => rest,
                }
            },
        }
    }
}

} // verus!
