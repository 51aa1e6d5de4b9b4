use vstd::prelude::*;

verus! {

/// Integer code of the "confirmed" commitment tier: an event is delivered
/// once the cluster has confirmed it.
pub const COMMITMENT_CONFIRMED: u32 = 1;

/// Subscribes to every slot event; carries no constraint.
#[derive(Clone, Copy, Debug, PartialEq, Eq, Structural)]
pub struct SlotFilter {}

/// Subscribes to account events matched by account or owner address, with a
/// flag restricting delivery to accounts touched by a transaction.
#[derive(Clone, Debug)]
pub struct AccountFilter {
    pub accounts: Vec<String>,
    pub owners: Vec<String>,
    pub nonempty_transaction: bool,
}

/// Subscribes to transaction events by account inclusion, exclusion and
/// requirement lists.
#[derive(Clone, Debug)]
pub struct TransactionFilter {
    pub account_include: Vec<String>,
    pub account_exclude: Vec<String>,
    pub account_required: Vec<String>,
}

/// Subscribes to every block event; carries no constraint.
#[derive(Clone, Copy, Debug, PartialEq, Eq, Structural)]
pub struct BlockFilter {}

/// Subscribes to every block-metadata event; carries no constraint.
#[derive(Clone, Copy, Debug, PartialEq, Eq, Structural)]
pub struct BlockMetaFilter {}

/// Selects one byte range of delivered account data.
#[derive(Clone, Copy, Debug, PartialEq, Eq, Structural)]
pub struct DataSlice {
    pub offset: u64,
    pub length: u64,
}

/// What the feed should deliver: per category, filters keyed by a
/// client-chosen label; a list of account-data byte ranges; an optional
/// ping identifier; and the commitment tier an event must reach before
/// delivery.
#[derive(Clone, Debug)]
pub struct FilterSpec {
    pub slots: Vec<(String, SlotFilter)>,
    pub accounts: Vec<(String, AccountFilter)>,
    pub transactions: Vec<(String, TransactionFilter)>,
    pub blocks: Vec<(String, BlockFilter)>,
    pub blocks_meta: Vec<(String, BlockMetaFilter)>,
    pub accounts_data_slice: Vec<DataSlice>,
    pub ping: Option<u64>,
    pub commitment_level: u32,
}

impl FilterSpec {
    /// At least one category asks for events; an entirely empty
    /// specification would never deliver a qualifying event.
    pub open spec fn selects_some_category(self) -> bool {
        self.slots@.len() > 0 || self.accounts@.len() > 0 || self.transactions@.len() > 0
            || self.blocks@.len() > 0 || self.blocks_meta@.len() > 0
    }

    /// Only the block category is populated: the one configuration this
    /// pipeline issues.
    pub open spec fn block_only(self) -> bool {
        &&& self.blocks@.len() > 0
        &&& self.slots@.len() == 0
        &&& self.accounts@.len() == 0
        &&& self.transactions@.len() == 0
        &&& self.blocks_meta@.len() == 0
    }
}

/// Builds the one subscription this pipeline issues: a single block filter
/// under the caller's label, every other category empty, commitment fixed
/// to the confirmed tier.
pub fn block_subscription(label: String) -> (r: FilterSpec)
    ensures
        r.block_only(),
        r.selects_some_category(),
        r.blocks@.len() == 1,
        r.blocks@[0].0@ == label@,
        r.accounts_data_slice@.len() == 0,
        r.ping is None,
        r.commitment_level == COMMITMENT_CONFIRMED,
{
    let mut blocks: Vec<(String, BlockFilter)> = Vec::new();
    blocks.push((label, BlockFilter {  }));
    FilterSpec {
        slots: Vec::new(),
        accounts: Vec::new(),
        transactions: Vec::new(),
        blocks,
        blocks_meta: Vec::new(),
        accounts_data_slice: Vec::new(),
        ping: None,
        commitment_level: COMMITMENT_CONFIRMED,
    }
}

/// A slot event.
#[derive(Clone, Debug)]
pub struct SlotUpdate {
    pub slot: u64,
    pub parent: u64,
    pub status: u32,
}

/// An account event.
#[derive(Clone, Debug)]
pub struct AccountUpdate {
    pub slot: u64,
    pub is_startup: bool,
}

/// A transaction event.
#[derive(Clone, Debug)]
pub struct TransactionUpdate {
    pub slot: u64,
}

/// A block event. The pipeline consumes only the slot number; the rest is
/// carried for extension.
#[derive(Clone, Debug)]
pub struct BlockUpdate {
    pub slot: u64,
    pub blockhash: String,
    pub parent_slot: u64,
    pub parent_blockhash: String,
    pub block_height: u64,
    pub block_time: i64,
    pub executed_transaction_count: u64,
}

/// A reply to a client ping.
#[derive(Clone, Copy, Debug, PartialEq, Eq, Structural)]
pub struct PongUpdate {
    pub id: u64,
}

/// A block-metadata event.
#[derive(Clone, Debug)]
pub struct BlockMetaUpdate {
    pub slot: u64,
    pub blockhash: String,
    pub parent_slot: u64,
    pub parent_blockhash: String,
    pub block_height: u64,
    pub block_time: i64,
    pub executed_transaction_count: u64,
    pub entries_count: u64,
}

/// One event from the feed, with exactly one variant populated.
#[derive(Clone, Debug)]
pub enum Update {
    Slot(SlotUpdate),
    Account(AccountUpdate),
    Transaction(TransactionUpdate),
    Block(BlockUpdate),
    Ping,
    Pong(PongUpdate),
    BlockMeta(BlockMetaUpdate),
}

/// One frame as received from the feed: a frame may arrive with no variant
/// set, which the pipeline treats as a no-op.
#[derive(Clone, Debug)]
pub struct UpdateMessage {
    pub update: Option<Update>,
}

} // verus!
