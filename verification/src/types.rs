//! Plain-value models of the protocol's basic data: byte strings, account
//! addresses, and the chain-view token attached to peer messages.

use vstd::prelude::*;
use vstd::std_specs::cmp::PartialEqSpec;

use crate::assoc::MapKey;

verus! {

/// Length in bytes of a block's signer signature hash and of a transaction id.
pub const HASH_LEN: usize = 32;

/// An error surfaced by the outside collaborators the driver talks to.
#[derive(Clone, Copy, Debug, PartialEq, Eq)]
pub enum ClientError {
    /// A chain-node query failed even after retries.
    ChainUnavailable,
}

/// Compares two byte vectors; the result decides view equality.
pub fn bytes_eq(a: &Vec<u8>, b: &Vec<u8>) -> (r: bool)
    ensures
        r == (a@ == b@),
{
    let r = *a == *b;
    proof {
        if r {
            assert(a@ =~= b@);
        }
    }
    r
}

impl MapKey for Vec<u8> {
    fn key_eq(&self, other: &Self) -> (r: bool)
        ensures
            r == (self@ == other@),
    {
        bytes_eq(self, other)
    }
}

/// An account address: a version byte identifying the network and address
/// kind, and a 20-byte account hash.
#[derive(Clone, Debug, PartialEq, Eq)]
pub struct StacksAddress {
    pub version: u8,
    pub bytes: Vec<u8>,
}

/// The mathematical value of a [`StacksAddress`].
pub ghost struct AddressV {
    pub version: u8,
    pub bytes: Seq<u8>,
}

impl View for StacksAddress {
    type V = AddressV;

    open spec fn view(&self) -> AddressV {
        AddressV { version: self.version, bytes: self.bytes@ }
    }
}

impl MapKey for StacksAddress {
    fn key_eq(&self, other: &Self) -> (r: bool)
        ensures
            r == (self@ == other@),
    {
        self.version == other.version && bytes_eq(&self.bytes, &other.bytes)
    }
}

/// A causality token for a signer's view of the burn chain: the
/// proof-of-transfer consensus hash and the burn block height it was seen at.
#[derive(Clone, Debug, PartialEq, Eq)]
pub struct CoordinatorMetadata {
    pub pox_consensus_hash: Vec<u8>,
    pub burn_block_height: u64,
}

/// The mathematical value of a [`CoordinatorMetadata`].
pub ghost struct MetadataV {
    pub pox_consensus_hash: Seq<u8>,
    pub burn_block_height: u64,
}

impl View for CoordinatorMetadata {
    type V = MetadataV;

    open spec fn view(&self) -> MetadataV {
        MetadataV {
            pox_consensus_hash: self.pox_consensus_hash@,
            burn_block_height: self.burn_block_height,
        }
    }
}

impl MapKey for CoordinatorMetadata {
    fn key_eq(&self, other: &Self) -> (r: bool)
        ensures
            r == (self@ == other@),
    {
        bytes_eq(&self.pox_consensus_hash, &other.pox_consensus_hash)
            && self.burn_block_height == other.burn_block_height
    }
}

impl CoordinatorMetadata {
    /// A structural copy whose view equals the original's.
    pub fn duplicate(&self) -> (r: CoordinatorMetadata)
        ensures
            r@ == self@,
    {
        let r = CoordinatorMetadata {
            pox_consensus_hash: clone_bytes(&self.pox_consensus_hash),
            burn_block_height: self.burn_block_height,
        };
        r
    }
}

/// Copies a byte vector; the copy's view equals the original's.
pub fn clone_bytes(v: &Vec<u8>) -> (r: Vec<u8>)
    ensures
        r@ == v@,
{
    let r = v.clone();
    proof {
        assert(r@ =~= v@);
    }
    r
}

impl StacksAddress {
    /// A structural copy whose view equals the original's.
    pub fn duplicate(&self) -> (r: StacksAddress)
        ensures
            r@ == self@,
    {
        StacksAddress { version: self.version, bytes: clone_bytes(&self.bytes) }
    }
}

} // verus!
