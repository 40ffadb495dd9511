//! The model of peer signers' vote transactions and the rules that admit or
//! filter them.
//!
//! A transaction is admitted only when it is a well-formed call of the
//! canonical signers-voting contract's vote function, made by a registered
//! signer for its own signer index, not yet outdated, not yet voted on
//! chain, and not voting for a far-future round. Chain lookups the rules
//! need arrive pre-fetched in [`TxChainFacts`]; a failed lookup filters the
//! transaction rather than admitting it.

use vstd::prelude::*;
use vstd::string::StringExecFns;

use crate::types::{AddressV, StacksAddress, ClientError, clone_bytes};

verus! {

/// The address version byte of a single-signature account on mainnet.
pub const MAINNET_ADDRESS_VERSION: u8 = 22;

/// The address version byte of a single-signature account on testnet.
pub const TESTNET_ADDRESS_VERSION: u8 = 26;

/// The length in bytes of a compressed curve point.
pub const POINT_LEN: usize = 33;

/// A value passed as an argument of a contract call, reduced to the shapes
/// the vote function uses.
#[derive(Clone, Debug, PartialEq, Eq)]
pub enum ClarityValue {
    UInt(u128),
    Buff(Vec<u8>),
    Other,
}

/// A contract call: callee address and names, and the argument list.
#[derive(Clone, Debug, PartialEq, Eq)]
pub struct ContractCallPayload {
    pub address: StacksAddress,
    pub contract_name: String,
    pub function_name: String,
    pub function_args: Vec<ClarityValue>,
}

/// What a transaction does; anything but a contract call is `Other`.
#[derive(Clone, Debug, PartialEq, Eq)]
pub enum TransactionPayload {
    ContractCall(ContractCallPayload),
    Other,
}

/// A peer signer's transaction as harvested from the bulletin. The id and
/// the origin fields are digests and recoveries the transport computes when
/// decoding the raw transaction.
#[derive(Clone, Debug, PartialEq, Eq)]
pub struct SignerTransaction {
    pub txid: Vec<u8>,
    pub origin_address: StacksAddress,
    pub origin_nonce: u64,
    pub mainnet: bool,
    pub payload: TransactionPayload,
}

/// Pre-fetched chain answers used while judging one transaction; `None`
/// records that the lookup failed.
#[derive(Clone, Debug, PartialEq, Eq)]
pub struct TxChainFacts {
    /// The next nonce of the transaction's origin account.
    pub account_nonce: Option<u64>,
    /// Whether the origin already has an on-chain vote for this round and cycle.
    pub prior_vote_exists: Option<bool>,
    /// The last voting round recorded for the cycle (`Some(None)` when no
    /// round is recorded yet).
    pub last_round: Option<Option<u64>>,
    /// Whether the cycle already has a confirmed aggregate public key.
    pub has_aggregate_key: Option<bool>,
}

/// The boot address owning the canonical contracts of the given network:
/// the single-signature version byte and an all-zero account hash.
pub open spec fn spec_boot_address(mainnet: bool) -> AddressV {
    AddressV {
        version: if mainnet {
            MAINNET_ADDRESS_VERSION
        } else {
            TESTNET_ADDRESS_VERSION
        },
        bytes: Seq::new(20, |i: int| 0u8),
    }
}

/// The name of the canonical signers-voting contract.
pub open spec fn spec_signers_voting_name() -> Seq<char> {
    "signers-voting"@
}

/// The name of the vote function of that contract.
pub open spec fn spec_vote_function_name() -> Seq<char> {
    "vote-for-aggregate-public-key"@
}

/// Whether an address is the boot address of the given network.
pub fn is_boot_address(addr: &StacksAddress, mainnet: bool) -> (r: bool)
    ensures
        r == (addr@ == spec_boot_address(mainnet)),
{
    let expected_version: u8 = if mainnet {
        MAINNET_ADDRESS_VERSION
    } else {
        TESTNET_ADDRESS_VERSION
    };
    if addr.version != expected_version {
        return false;
    }
    if addr.bytes.len() != 20 {
        return false;
    }
    let mut i: usize = 0;
    while i < 20
        invariant
            addr.bytes@.len() == 20,
            i <= 20,
            forall|j: int| 0 <= j < i ==> addr.bytes@[j] == 0u8,
        decreases 20 - i,
    {
        if addr.bytes[i] != 0u8 {
            return false;
        }
        i = i + 1;
    }
    proof {
        assert(addr.bytes@ =~= Seq::new(20, |j: int| 0u8));
    }
    true
}

/// The arguments of a well-formed vote call: the caller's signer index, a
/// compressed point, the voting round, and the reserved reward-cycle slot,
/// which the current contract interface leaves fixed at zero.
pub open spec fn spec_parse_function_args(args: Seq<ClarityValue>) -> Option<
    (u64, Seq<u8>, u64, u64),
> {
    if args.len() != 3 {
        None
    } else {
        match (args[0], args[1], args[2]) {
            (ClarityValue::UInt(ix), ClarityValue::Buff(pt), ClarityValue::UInt(rd)) => {
                if ix <= u64::MAX && pt@.len() == POINT_LEN && rd <= u64::MAX {
                    Some((ix as u64, pt@, rd as u64, 0u64))
                } else {
                    None
                }
            },
            _ => None,
        }
    }
}

/// Whether the payload is a call of the canonical vote function.
pub open spec fn spec_is_vote_call(payload: TransactionPayload, mainnet: bool) -> bool {
    match payload {
        TransactionPayload::ContractCall(p) => {
            &&& p.address@ == spec_boot_address(mainnet)
            &&& p.contract_name@ == spec_signers_voting_name()
            &&& p.function_name@ == spec_vote_function_name()
        },
        TransactionPayload::Other => false,
    }
}

/// Judges a vote payload: `Some(b)` once steps four to nine of the
/// admission rule settle on `b`, `None` when a required chain lookup
/// failed.
pub open spec fn spec_verify_payload(
    tx: SignerTransaction,
    origin_signer_id: u32,
    mainnet: bool,
    facts: TxChainFacts,
) -> Option<bool> {
    if !spec_is_vote_call(tx.payload, mainnet) {
        Some(false)
    } else {
        let p = tx.payload->ContractCall_0;
        match spec_parse_function_args(p.function_args@) {
            None => Some(false),
            Some((ix, pt, round, cycle)) => {
                if ix != origin_signer_id as u64 {
                    Some(false)
                } else {
                    match facts.prior_vote_exists {
                        None => None,
                        Some(true) => Some(false),
                        Some(false) => match (facts.last_round, facts.has_aggregate_key) {
                            (Some(lr), Some(has_key)) => {
                                if lr matches Some(l) && has_key && round > l {
                                    Some(false)
                                } else if (match lr {
                                    Some(l) => l as int,
                                    None => 0int,
                                }) + 2 < round {
                                    Some(false)
                                } else {
                                    Some(true)
                                }
                            },
                            _ => None,
                        },
                    }
                }
            },
        }
    }
}

/// The whole admission rule for one transaction: registered origin, fresh
/// nonce, matching network, and an admitted payload. A failed lookup or an
/// unregistered origin filters the transaction.
pub open spec fn spec_tx_admitted(
    tx: SignerTransaction,
    origin_signer_id: Option<u32>,
    mainnet: bool,
    facts: TxChainFacts,
) -> bool {
    &&& origin_signer_id is Some
    &&& facts.account_nonce is Some
    &&& tx.origin_nonce >= facts.account_nonce->0
    &&& tx.mainnet == mainnet
    &&& spec_verify_payload(tx, origin_signer_id->0, mainnet, facts) == Some(true)
}

/// Parses the vote call's arguments, exactly as
/// [`spec_parse_function_args`] describes them.
pub fn parse_function_args(args: &Vec<ClarityValue>) -> (r: Option<(u64, Vec<u8>, u64, u64)>)
    ensures
        match r {
            Some(t) => spec_parse_function_args(args@) == Some(
                (t.0, t.1@, t.2, t.3),
            ),
            None => spec_parse_function_args(args@) is None,
        },
{
    if args.len() != 3 {
        return None;
    }
    let ix: u64 = match &args[0] {
        ClarityValue::UInt(v) => {
            if *v > u64::MAX as u128 {
                return None;
            }
            *v as u64
        },
        _ => {
            return None;
        },
    };
    let pt: Vec<u8> = match &args[1] {
        ClarityValue::Buff(b) => {
            if b.len() != POINT_LEN {
                return None;
            }
            clone_bytes(b)
        },
        _ => {
            return None;
        },
    };
    let rd: u64 = match &args[2] {
        ClarityValue::UInt(v) => {
            if *v > u64::MAX as u128 {
                return None;
            }
            *v as u64
        },
        _ => {
            return None;
        },
    };
    Some((ix, pt, rd, 0u64))
}

/// Whether the payload is a call of the canonical vote function, exactly as
/// [`spec_is_vote_call`] describes it.
pub fn is_vote_call(payload: &TransactionPayload, mainnet: bool) -> (r: bool)
    ensures
        r == spec_is_vote_call(*payload, mainnet),
{
    match payload {
        TransactionPayload::ContractCall(p) => {
            let contract_name: String = String::from_str("signers-voting");
            let function_name: String = String::from_str("vote-for-aggregate-public-key");
            is_boot_address(&p.address, mainnet) && p.contract_name == contract_name
                && p.function_name == function_name
        },
        TransactionPayload::Other => false,
    }
}

/// Judges the payload of a transaction against the voting-contract rules,
/// exactly as [`spec_verify_payload`] describes them; `Err` reports a chain
/// lookup the rules needed but could not get.
pub fn verify_payload(
    tx: &SignerTransaction,
    origin_signer_id: u32,
    mainnet: bool,
    facts: &TxChainFacts,
) -> (r: Result<bool, ClientError>)
    ensures
        match r {
            Ok(b) => spec_verify_payload(*tx, origin_signer_id, mainnet, *facts) == Some(b),
            Err(_) => spec_verify_payload(*tx, origin_signer_id, mainnet, *facts) is None,
        },
{
    if !is_vote_call(&tx.payload, mainnet) {
        return Ok(false);
    }
    let p = match &tx.payload {
        TransactionPayload::ContractCall(p) => p,
        TransactionPayload::Other => {
            return Ok(false);
        },
    };
    let parsed = match parse_function_args(&p.function_args) {
        Some(t) => t,
        None => {
            return Ok(false);
        },
    };
    let (ix, _pt, round, _cycle): (u64, Vec<u8>, u64, u64) = parsed;
    if ix != origin_signer_id as u64 {
        return Ok(false);
    }
    let prior_vote = match facts.prior_vote_exists {
        Some(v) => v,
        None => {
            return Err(ClientError::ChainUnavailable);
        },
    };
    if prior_vote {
        return Ok(false);
    }
    let last_round = match facts.last_round {
        Some(lr) => lr,
        None => {
            return Err(ClientError::ChainUnavailable);
        },
    };
    let has_key = match facts.has_aggregate_key {
        Some(h) => h,
        None => {
            return Err(ClientError::ChainUnavailable);
        },
    };
    if let Some(l) = last_round {
        if has_key && round > l {
            return Ok(false);
        }
    }
    let base: u64 = match last_round {
        Some(l) => l,
        None => 0u64,
    };
    if base.saturating_add(2) < round {
        return Ok(false);
    }
    Ok(true)
}

} // verus!
