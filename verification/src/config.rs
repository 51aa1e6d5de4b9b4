use vstd::prelude::*;

use crate::action::TransferOrder;

verus! {

/// Length of a ledger address in raw bytes.
pub const PUBKEY_LEN: usize = 32;

/// Length of a decoded keypair: the secret half and the public half.
pub const KEYPAIR_LEN: usize = 64;

/// Where the feed lives and the credential attached to the subscribe call.
#[derive(Clone, Debug)]
pub struct GeyserConfig {
    pub endpoint: String,
    pub api_key: String,
}

/// The ledger side of the settings: the submission endpoint, the sender's
/// base58 private key, the recipient address, and the fixed amount moved on
/// every trigger, in the smallest ledger unit.
#[derive(Clone, Debug)]
pub struct SolanaConfig {
    pub rpc_url: String,
    pub private_key: String,
    pub recipient_address: String,
    pub transfer_amount: u64,
}

/// The whole settings document.
#[derive(Clone, Debug)]
pub struct Config {
    pub geyser: GeyserConfig,
    pub solana: SolanaConfig,
}

/// Why the settings were refused at startup; each is fatal before the main
/// loop starts.
#[derive(Clone, Copy, Debug, PartialEq, Eq, Structural)]
pub enum ConfigError {
    /// The private key is not base58, or does not decode to keypair bytes.
    InvalidPrivateKey,
    /// The recipient is not base58, or does not decode to an address.
    InvalidRecipientAddress,
}

/// A ledger address: its raw bytes, decoded from the base58 form the
/// settings carry.
#[derive(Clone, Debug)]
pub struct Pubkey {
    pub bytes: Vec<u8>,
}

impl View for Pubkey {
    type V = Seq<u8>;

    open spec fn view(&self) -> Seq<u8> {
        self.bytes@
    }
}

impl Pubkey {
    /// A well-formed address holds exactly the address bytes.
    pub open spec fn wf(self) -> bool {
        self.bytes@.len() == PUBKEY_LEN
    }

    /// A copy carrying the same bytes.
    pub fn duplicate(&self) -> (r: Pubkey)
        ensures
            r@ == self@,
    {
        Pubkey { bytes: copy_bytes(&self.bytes) }
    }
}

/// A copy of a byte vector.
pub fn copy_bytes(v: &Vec<u8>) -> (r: Vec<u8>)
    ensures
        r@ == v@,
{
    let mut r: Vec<u8> = Vec::new();
    let mut i: usize = 0;
    while i < v.len()
        invariant
            i <= v@.len(),
            r@ == v@.take(i as int),
        decreases v@.len() - i,
    {
        r.push(v[i]);
        i = i + 1;
        proof {
            assert(r@ =~= v@.take(i as int));
        }
    }
    proof {
        assert(r@ =~= v@);
    }
    r
}

/// What the base58 decoder yields for a string: the decoded bytes, or
/// nothing when the string is not well-formed base58.
pub uninterp spec fn base58_decoded(s: Seq<char>) -> Option<Seq<u8>>;

/// Relies on bs58::decode with its default alphabet: whether a string
/// decodes, and to which bytes, depends on the characters alone.
#[verifier::external_body]
fn base58_decode(s: &str) -> (r: Option<Vec<u8>>)
    ensures
        match r {
            Some(v) => base58_decoded(s@) == Some(v@),
            None => base58_decoded(s@) is None,
        },
{
    bs58::decode(s).into_vec().ok()
}

/// Which strings name a ledger address: base58 that decodes to exactly the
/// address bytes.
pub open spec fn spec_pubkey_of(s: Seq<char>) -> Option<Seq<u8>> {
    match base58_decoded(s) {
        Some(b) => if b.len() == PUBKEY_LEN {
            Some(b)
        } else {
            None
        },
        None => None,
    }
}

/// Which strings hold usable key material: base58 that decodes to exactly
/// the keypair bytes. Whether the bytes are a cryptographically valid key
/// is the opaque signing capability's concern, not this library's.
pub open spec fn spec_keypair_of(s: Seq<char>) -> Option<Seq<u8>> {
    match base58_decoded(s) {
        Some(b) => if b.len() == KEYPAIR_LEN {
            Some(b)
        } else {
            None
        },
        None => None,
    }
}

/// Parses a base58 address, refusing any string that does not decode to
/// exactly the address bytes.
pub fn parse_pubkey(s: &str) -> (r: Option<Pubkey>)
    ensures
        match r {
            Some(p) => p.wf() && spec_pubkey_of(s@) == Some(p@),
            None => spec_pubkey_of(s@) is None,
        },
{
    match base58_decode(s) {
        Some(bytes) => {
            if bytes.len() == PUBKEY_LEN {
                Some(Pubkey { bytes })
            } else {
                None
            }
        },
        None => None,
    }
}

/// Builds the immutable transfer order the whole process runs on: decodes
/// the sender key, parses the recipient address, and fixes the amount and
/// the simulation flag. Succeeds exactly when the key decodes to keypair
/// bytes and the recipient decodes to an address; a bad key is reported
/// before the recipient is looked at.
pub fn build_transfer_order(cfg: &SolanaConfig, dry_run: bool) -> (r: Result<
    TransferOrder,
    ConfigError,
>)
    ensures
        match r {
            Ok(o) => {
                &&& spec_keypair_of(cfg.private_key@) == Some(o.sender_key@)
                &&& spec_pubkey_of(cfg.recipient_address@) == Some(o.recipient@)
                &&& o.amount == cfg.transfer_amount
                &&& o.dry_run == dry_run
                &&& o.wf()
            },
            Err(ConfigError::InvalidPrivateKey) => spec_keypair_of(cfg.private_key@) is None,
            Err(ConfigError::InvalidRecipientAddress) => {
                &&& spec_keypair_of(cfg.private_key@) is Some
                &&& spec_pubkey_of(cfg.recipient_address@) is None
            },
        },
{
    let sender_key = match base58_decode(cfg.private_key.as_str()) {
        Some(bytes) => {
            if bytes.len() == KEYPAIR_LEN {
                bytes
            } else {
                return Err(ConfigError::InvalidPrivateKey);
            }
        },
        None => {
            return Err(ConfigError::InvalidPrivateKey);
        },
    };
    let recipient = match parse_pubkey(cfg.recipient_address.as_str()) {
        Some(p) => p,
        None => {
            return Err(ConfigError::InvalidRecipientAddress);
        },
    };
    Ok(
        TransferOrder {
            sender_key,
            recipient,
            amount: cfg.transfer_amount,
            dry_run,
        },
    )
}

} // verus!
